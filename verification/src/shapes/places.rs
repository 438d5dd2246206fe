//! Toponyms, and the responses that list them.

use crate::json::{Json, JsonView};
use crate::response::{
    ApiResponse, int32_at, int32_field, int64_at, int64_field, list_decodable, list_decoded,
    list_field, nested_decodable, nested_decoded, nested_field, optional_decodable,
    optional_decoded, optional_field, optional_text_at, optional_text_field, text_at,
    text_field, text_of,
};
use vstd::prelude::*;

verus! {

/// The codes of a first-order administrative division.
#[derive(Debug, PartialEq)]
pub struct AdminCodes1 {
    pub iso3166_2: String,
}

impl ApiResponse for AdminCodes1 {
    open spec fn decodable(doc: JsonView) -> bool {
        &&& text_at(doc, "ISO3166_2"@) is Some
    }

    open spec fn decoded_from(&self, doc: JsonView) -> bool {
        &&& text_at(doc, "ISO3166_2"@) == Some(self.iso3166_2@)
    }

    fn from_json(doc: &Json) -> (decoded: Option<Self>) {
        let iso3166_2 = text_field(doc, "ISO3166_2")?;
        Some(AdminCodes1 { iso3166_2 })
    }
}

/// A toponym: a named place with its administrative setting.
#[derive(Debug, PartialEq)]
pub struct Geoname {
    pub admin_code_1: String,
    pub lng: String,
    pub geoname_id: i32,
    pub toponym_name: String,
    pub country_id: String,
    pub admin_codes1: AdminCodes1,
    pub country_name: String,
    pub fcode_name: String,
    pub admin_name1: String,
    pub lat: String,
    pub fcode: String,
    pub fcl: String,
    pub population: i32,
    pub country_code: String,
    pub name: String,
    pub fcl_name: String,
}

impl ApiResponse for Geoname {
    open spec fn decodable(doc: JsonView) -> bool {
        &&& text_at(doc, "adminCode1"@) is Some
        &&& text_at(doc, "lng"@) is Some
        &&& int32_at(doc, "geonameId"@) is Some
        &&& text_at(doc, "toponymName"@) is Some
        &&& text_at(doc, "countryId"@) is Some
        &&& nested_decodable::<AdminCodes1>(doc, "adminCodes1"@)
        &&& text_at(doc, "countryName"@) is Some
        &&& text_at(doc, "fcodeName"@) is Some
        &&& text_at(doc, "adminName1"@) is Some
        &&& text_at(doc, "lat"@) is Some
        &&& text_at(doc, "fcode"@) is Some
        &&& text_at(doc, "fcl"@) is Some
        &&& int32_at(doc, "population"@) is Some
        &&& text_at(doc, "countryCode"@) is Some
        &&& text_at(doc, "name"@) is Some
        &&& text_at(doc, "fclName"@) is Some
    }

    open spec fn decoded_from(&self, doc: JsonView) -> bool {
        &&& text_at(doc, "adminCode1"@) == Some(self.admin_code_1@)
        &&& text_at(doc, "lng"@) == Some(self.lng@)
        &&& int32_at(doc, "geonameId"@) == Some(self.geoname_id as int)
        &&& text_at(doc, "toponymName"@) == Some(self.toponym_name@)
        &&& text_at(doc, "countryId"@) == Some(self.country_id@)
        &&& nested_decoded::<AdminCodes1>(self.admin_codes1, doc, "adminCodes1"@)
        &&& text_at(doc, "countryName"@) == Some(self.country_name@)
        &&& text_at(doc, "fcodeName"@) == Some(self.fcode_name@)
        &&& text_at(doc, "adminName1"@) == Some(self.admin_name1@)
        &&& text_at(doc, "lat"@) == Some(self.lat@)
        &&& text_at(doc, "fcode"@) == Some(self.fcode@)
        &&& text_at(doc, "fcl"@) == Some(self.fcl@)
        &&& int32_at(doc, "population"@) == Some(self.population as int)
        &&& text_at(doc, "countryCode"@) == Some(self.country_code@)
        &&& text_at(doc, "name"@) == Some(self.name@)
        &&& text_at(doc, "fclName"@) == Some(self.fcl_name@)
    }

    fn from_json(doc: &Json) -> (decoded: Option<Self>) {
        let admin_code_1 = text_field(doc, "adminCode1")?;
        let lng = text_field(doc, "lng")?;
        let geoname_id = int32_field(doc, "geonameId")?;
        let toponym_name = text_field(doc, "toponymName")?;
        let country_id = text_field(doc, "countryId")?;
        let admin_codes1 = nested_field::<AdminCodes1>(doc, "adminCodes1")?;
        let country_name = text_field(doc, "countryName")?;
        let fcode_name = text_field(doc, "fcodeName")?;
        let admin_name1 = text_field(doc, "adminName1")?;
        let lat = text_field(doc, "lat")?;
        let fcode = text_field(doc, "fcode")?;
        let fcl = text_field(doc, "fcl")?;
        let population = int32_field(doc, "population")?;
        let country_code = text_field(doc, "countryCode")?;
        let name = text_field(doc, "name")?;
        let fcl_name = text_field(doc, "fclName")?;
        Some(
            Geoname {
                admin_code_1,
                lng,
                geoname_id,
                toponym_name,
                country_id,
                admin_codes1,
                country_name,
                fcode_name,
                admin_name1,
                lat,
                fcode,
                fcl,
                population,
                country_code,
                name,
                fcl_name,
            },
        )
    }
}

/// A populated place with its distance from the point asked for.
#[derive(Debug, PartialEq)]
pub struct GeonameNearbyPlace {
    pub admin_code_1: String,
    pub lng: String,
    pub geoname_id: i32,
    pub toponym_name: String,
    pub country_id: String,
    pub admin_codes1: AdminCodes1,
    pub country_name: String,
    pub fcode_name: String,
    pub admin_name1: String,
    pub lat: String,
    pub fcode: String,
    pub fcl: String,
    pub population: i32,
    pub country_code: String,
    pub name: String,
    pub fcl_name: String,
    pub distance: String,
}

impl ApiResponse for GeonameNearbyPlace {
    open spec fn decodable(doc: JsonView) -> bool {
        &&& text_at(doc, "adminCode1"@) is Some
        &&& text_at(doc, "lng"@) is Some
        &&& int32_at(doc, "geonameId"@) is Some
        &&& text_at(doc, "toponymName"@) is Some
        &&& text_at(doc, "countryId"@) is Some
        &&& nested_decodable::<AdminCodes1>(doc, "adminCodes1"@)
        &&& text_at(doc, "countryName"@) is Some
        &&& text_at(doc, "fcodeName"@) is Some
        &&& text_at(doc, "adminName1"@) is Some
        &&& text_at(doc, "lat"@) is Some
        &&& text_at(doc, "fcode"@) is Some
        &&& text_at(doc, "fcl"@) is Some
        &&& int32_at(doc, "population"@) is Some
        &&& text_at(doc, "countryCode"@) is Some
        &&& text_at(doc, "name"@) is Some
        &&& text_at(doc, "fclName"@) is Some
        &&& text_at(doc, "distance"@) is Some
    }

    open spec fn decoded_from(&self, doc: JsonView) -> bool {
        &&& text_at(doc, "adminCode1"@) == Some(self.admin_code_1@)
        &&& text_at(doc, "lng"@) == Some(self.lng@)
        &&& int32_at(doc, "geonameId"@) == Some(self.geoname_id as int)
        &&& text_at(doc, "toponymName"@) == Some(self.toponym_name@)
        &&& text_at(doc, "countryId"@) == Some(self.country_id@)
        &&& nested_decoded::<AdminCodes1>(self.admin_codes1, doc, "adminCodes1"@)
        &&& text_at(doc, "countryName"@) == Some(self.country_name@)
        &&& text_at(doc, "fcodeName"@) == Some(self.fcode_name@)
        &&& text_at(doc, "adminName1"@) == Some(self.admin_name1@)
        &&& text_at(doc, "lat"@) == Some(self.lat@)
        &&& text_at(doc, "fcode"@) == Some(self.fcode@)
        &&& text_at(doc, "fcl"@) == Some(self.fcl@)
        &&& int32_at(doc, "population"@) == Some(self.population as int)
        &&& text_at(doc, "countryCode"@) == Some(self.country_code@)
        &&& text_at(doc, "name"@) == Some(self.name@)
        &&& text_at(doc, "fclName"@) == Some(self.fcl_name@)
        &&& text_at(doc, "distance"@) == Some(self.distance@)
    }

    fn from_json(doc: &Json) -> (decoded: Option<Self>) {
        let admin_code_1 = text_field(doc, "adminCode1")?;
        let lng = text_field(doc, "lng")?;
        let geoname_id = int32_field(doc, "geonameId")?;
        let toponym_name = text_field(doc, "toponymName")?;
        let country_id = text_field(doc, "countryId")?;
        let admin_codes1 = nested_field::<AdminCodes1>(doc, "adminCodes1")?;
        let country_name = text_field(doc, "countryName")?;
        let fcode_name = text_field(doc, "fcodeName")?;
        let admin_name1 = text_field(doc, "adminName1")?;
        let lat = text_field(doc, "lat")?;
        let fcode = text_field(doc, "fcode")?;
        let fcl = text_field(doc, "fcl")?;
        let population = int32_field(doc, "population")?;
        let country_code = text_field(doc, "countryCode")?;
        let name = text_field(doc, "name")?;
        let fcl_name = text_field(doc, "fclName")?;
        let distance = text_field(doc, "distance")?;
        Some(
            GeonameNearbyPlace {
                admin_code_1,
                lng,
                geoname_id,
                toponym_name,
                country_id,
                admin_codes1,
                country_name,
                fcode_name,
                admin_name1,
                lat,
                fcode,
                fcl,
                population,
                country_code,
                name,
                fcl_name,
                distance,
            },
        )
    }
}

/// A toponym in a hierarchy; the topmost have no country.
#[derive(Debug, PartialEq)]
pub struct GeonameHierarchy {
    pub lng: String,
    pub geoname_id: i32,
    pub name: String,
    pub fcl_name: String,
    pub toponym_name: String,
    pub fcode_name: String,
    pub admin_name1: String,
    pub lat: String,
    pub fcl: String,
    pub fcode: String,
    pub population: i64,
    pub admin_code1: Option<String>,
    pub admin_codes1: Option<AdminCodes1>,
    pub country_id: Option<String>,
    pub country_name: Option<String>,
    pub country_code: Option<String>,
}

impl ApiResponse for GeonameHierarchy {
    open spec fn decodable(doc: JsonView) -> bool {
        &&& text_at(doc, "lng"@) is Some
        &&& int32_at(doc, "geonameId"@) is Some
        &&& text_at(doc, "name"@) is Some
        &&& text_at(doc, "fclName"@) is Some
        &&& text_at(doc, "toponymName"@) is Some
        &&& text_at(doc, "fcodeName"@) is Some
        &&& text_at(doc, "adminName1"@) is Some
        &&& text_at(doc, "lat"@) is Some
        &&& text_at(doc, "fcl"@) is Some
        &&& text_at(doc, "fcode"@) is Some
        &&& int64_at(doc, "population"@) is Some
        &&& optional_text_at(doc, "adminCode1"@) is Some
        &&& optional_decodable::<AdminCodes1>(doc, "adminCodes1"@)
        &&& optional_text_at(doc, "countryId"@) is Some
        &&& optional_text_at(doc, "countryName"@) is Some
        &&& optional_text_at(doc, "countryCode"@) is Some
    }

    open spec fn decoded_from(&self, doc: JsonView) -> bool {
        &&& text_at(doc, "lng"@) == Some(self.lng@)
        &&& int32_at(doc, "geonameId"@) == Some(self.geoname_id as int)
        &&& text_at(doc, "name"@) == Some(self.name@)
        &&& text_at(doc, "fclName"@) == Some(self.fcl_name@)
        &&& text_at(doc, "toponymName"@) == Some(self.toponym_name@)
        &&& text_at(doc, "fcodeName"@) == Some(self.fcode_name@)
        &&& text_at(doc, "adminName1"@) == Some(self.admin_name1@)
        &&& text_at(doc, "lat"@) == Some(self.lat@)
        &&& text_at(doc, "fcl"@) == Some(self.fcl@)
        &&& text_at(doc, "fcode"@) == Some(self.fcode@)
        &&& int64_at(doc, "population"@) == Some(self.population as int)
        &&& optional_text_at(doc, "adminCode1"@) == Some(text_of(self.admin_code1))
        &&& optional_decoded::<AdminCodes1>(self.admin_codes1, doc, "adminCodes1"@)
        &&& optional_text_at(doc, "countryId"@) == Some(text_of(self.country_id))
        &&& optional_text_at(doc, "countryName"@) == Some(text_of(self.country_name))
        &&& optional_text_at(doc, "countryCode"@) == Some(text_of(self.country_code))
    }

    fn from_json(doc: &Json) -> (decoded: Option<Self>) {
        let lng = text_field(doc, "lng")?;
        let geoname_id = int32_field(doc, "geonameId")?;
        let name = text_field(doc, "name")?;
        let fcl_name = text_field(doc, "fclName")?;
        let toponym_name = text_field(doc, "toponymName")?;
        let fcode_name = text_field(doc, "fcodeName")?;
        let admin_name1 = text_field(doc, "adminName1")?;
        let lat = text_field(doc, "lat")?;
        let fcl = text_field(doc, "fcl")?;
        let fcode = text_field(doc, "fcode")?;
        let population = int64_field(doc, "population")?;
        let admin_code1 = optional_text_field(doc, "adminCode1")?;
        let admin_codes1 = optional_field::<AdminCodes1>(doc, "adminCodes1")?;
        let country_id = optional_text_field(doc, "countryId")?;
        let country_name = optional_text_field(doc, "countryName")?;
        let country_code = optional_text_field(doc, "countryCode")?;
        Some(
            GeonameHierarchy {
                lng,
                geoname_id,
                name,
                fcl_name,
                toponym_name,
                fcode_name,
                admin_name1,
                lat,
                fcl,
                fcode,
                population,
                admin_code1,
                admin_codes1,
                country_id,
                country_name,
                country_code,
            },
        )
    }
}

/// A neighbouring toponym.
#[derive(Debug, PartialEq)]
pub struct NeighboursGeoname {
    pub admin_code1: String,
    pub lng: String,
    pub geoname_id: i32,
    pub toponym_name: String,
    pub country_id: String,
    pub fcl: String,
    pub population: i64,
    pub country_code: String,
    pub name: String,
    pub fcl_name: String,
    pub country_name: String,
    pub fcode_name: String,
    pub admin_name1: String,
    pub lat: String,
    pub fcode: String,
}

impl ApiResponse for NeighboursGeoname {
    open spec fn decodable(doc: JsonView) -> bool {
        &&& text_at(doc, "adminCode1"@) is Some
        &&& text_at(doc, "lng"@) is Some
        &&& int32_at(doc, "geonameId"@) is Some
        &&& text_at(doc, "toponymName"@) is Some
        &&& text_at(doc, "countryId"@) is Some
        &&& text_at(doc, "fcl"@) is Some
        &&& int64_at(doc, "population"@) is Some
        &&& text_at(doc, "countryCode"@) is Some
        &&& text_at(doc, "name"@) is Some
        &&& text_at(doc, "fclName"@) is Some
        &&& text_at(doc, "countryName"@) is Some
        &&& text_at(doc, "fcodeName"@) is Some
        &&& text_at(doc, "adminName1"@) is Some
        &&& text_at(doc, "lat"@) is Some
        &&& text_at(doc, "fcode"@) is Some
    }

    open spec fn decoded_from(&self, doc: JsonView) -> bool {
        &&& text_at(doc, "adminCode1"@) == Some(self.admin_code1@)
        &&& text_at(doc, "lng"@) == Some(self.lng@)
        &&& int32_at(doc, "geonameId"@) == Some(self.geoname_id as int)
        &&& text_at(doc, "toponymName"@) == Some(self.toponym_name@)
        &&& text_at(doc, "countryId"@) == Some(self.country_id@)
        &&& text_at(doc, "fcl"@) == Some(self.fcl@)
        &&& int64_at(doc, "population"@) == Some(self.population as int)
        &&& text_at(doc, "countryCode"@) == Some(self.country_code@)
        &&& text_at(doc, "name"@) == Some(self.name@)
        &&& text_at(doc, "fclName"@) == Some(self.fcl_name@)
        &&& text_at(doc, "countryName"@) == Some(self.country_name@)
        &&& text_at(doc, "fcodeName"@) == Some(self.fcode_name@)
        &&& text_at(doc, "adminName1"@) == Some(self.admin_name1@)
        &&& text_at(doc, "lat"@) == Some(self.lat@)
        &&& text_at(doc, "fcode"@) == Some(self.fcode@)
    }

    fn from_json(doc: &Json) -> (decoded: Option<Self>) {
        let admin_code1 = text_field(doc, "adminCode1")?;
        let lng = text_field(doc, "lng")?;
        let geoname_id = int32_field(doc, "geonameId")?;
        let toponym_name = text_field(doc, "toponymName")?;
        let country_id = text_field(doc, "countryId")?;
        let fcl = text_field(doc, "fcl")?;
        let population = int64_field(doc, "population")?;
        let country_code = text_field(doc, "countryCode")?;
        let name = text_field(doc, "name")?;
        let fcl_name = text_field(doc, "fclName")?;
        let country_name = text_field(doc, "countryName")?;
        let fcode_name = text_field(doc, "fcodeName")?;
        let admin_name1 = text_field(doc, "adminName1")?;
        let lat = text_field(doc, "lat")?;
        let fcode = text_field(doc, "fcode")?;
        Some(
            NeighboursGeoname {
                admin_code1,
                lng,
                geoname_id,
                toponym_name,
                country_id,
                fcl,
                population,
                country_code,
                name,
                fcl_name,
                country_name,
                fcode_name,
                admin_name1,
                lat,
                fcode,
            },
        )
    }
}

/// A sibling toponym.
#[derive(Debug, PartialEq)]
pub struct SiblingGeoname {
    pub admin_code1: String,
    pub lng: String,
    pub geoname_id: i32,
    pub toponym_name: String,
    pub country_id: String,
    pub fcl: String,
    pub population: i32,
    pub country_code: String,
    pub name: String,
    pub fcl_name: String,
    pub country_name: String,
    pub fcode_name: String,
    pub admin_name1: String,
    pub lat: String,
    pub fcode: String,
}

impl ApiResponse for SiblingGeoname {
    open spec fn decodable(doc: JsonView) -> bool {
        &&& text_at(doc, "adminCode1"@) is Some
        &&& text_at(doc, "lng"@) is Some
        &&& int32_at(doc, "geonameId"@) is Some
        &&& text_at(doc, "toponymName"@) is Some
        &&& text_at(doc, "countryId"@) is Some
        &&& text_at(doc, "fcl"@) is Some
        &&& int32_at(doc, "population"@) is Some
        &&& text_at(doc, "countryCode"@) is Some
        &&& text_at(doc, "name"@) is Some
        &&& text_at(doc, "fclName"@) is Some
        &&& text_at(doc, "countryName"@) is Some
        &&& text_at(doc, "fcodeName"@) is Some
        &&& text_at(doc, "adminName1"@) is Some
        &&& text_at(doc, "lat"@) is Some
        &&& text_at(doc, "fcode"@) is Some
    }

    open spec fn decoded_from(&self, doc: JsonView) -> bool {
        &&& text_at(doc, "adminCode1"@) == Some(self.admin_code1@)
        &&& text_at(doc, "lng"@) == Some(self.lng@)
        &&& int32_at(doc, "geonameId"@) == Some(self.geoname_id as int)
        &&& text_at(doc, "toponymName"@) == Some(self.toponym_name@)
        &&& text_at(doc, "countryId"@) == Some(self.country_id@)
        &&& text_at(doc, "fcl"@) == Some(self.fcl@)
        &&& int32_at(doc, "population"@) == Some(self.population as int)
        &&& text_at(doc, "countryCode"@) == Some(self.country_code@)
        &&& text_at(doc, "name"@) == Some(self.name@)
        &&& text_at(doc, "fclName"@) == Some(self.fcl_name@)
        &&& text_at(doc, "countryName"@) == Some(self.country_name@)
        &&& text_at(doc, "fcodeName"@) == Some(self.fcode_name@)
        &&& text_at(doc, "adminName1"@) == Some(self.admin_name1@)
        &&& text_at(doc, "lat"@) == Some(self.lat@)
        &&& text_at(doc, "fcode"@) == Some(self.fcode@)
    }

    fn from_json(doc: &Json) -> (decoded: Option<Self>) {
        let admin_code1 = text_field(doc, "adminCode1")?;
        let lng = text_field(doc, "lng")?;
        let geoname_id = int32_field(doc, "geonameId")?;
        let toponym_name = text_field(doc, "toponymName")?;
        let country_id = text_field(doc, "countryId")?;
        let fcl = text_field(doc, "fcl")?;
        let population = int32_field(doc, "population")?;
        let country_code = text_field(doc, "countryCode")?;
        let name = text_field(doc, "name")?;
        let fcl_name = text_field(doc, "fclName")?;
        let country_name = text_field(doc, "countryName")?;
        let fcode_name = text_field(doc, "fcodeName")?;
        let admin_name1 = text_field(doc, "adminName1")?;
        let lat = text_field(doc, "lat")?;
        let fcode = text_field(doc, "fcode")?;
        Some(
            SiblingGeoname {
                admin_code1,
                lng,
                geoname_id,
                toponym_name,
                country_id,
                fcl,
                population,
                country_code,
                name,
                fcl_name,
                country_name,
                fcode_name,
                admin_name1,
                lat,
                fcode,
            },
        )
    }
}

/// A name of a toponym in one language.
#[derive(Debug, PartialEq)]
pub struct AlternateName {
    pub name: String,
    pub lang: Option<String>,
}

impl ApiResponse for AlternateName {
    open spec fn decodable(doc: JsonView) -> bool {
        &&& text_at(doc, "name"@) is Some
        &&& optional_text_at(doc, "lang"@) is Some
    }

    open spec fn decoded_from(&self, doc: JsonView) -> bool {
        &&& text_at(doc, "name"@) == Some(self.name@)
        &&& optional_text_at(doc, "lang"@) == Some(text_of(self.lang))
    }

    fn from_json(doc: &Json) -> (decoded: Option<Self>) {
        let name = text_field(doc, "name")?;
        let lang = optional_text_field(doc, "lang")?;
        Some(AlternateName { name, lang })
    }
}

/// The children of a toponym.
#[derive(Debug, PartialEq)]
pub struct ChildrenResponse {
    pub total_results_count: i32,
    pub geonames: Vec<Geoname>,
}

impl ApiResponse for ChildrenResponse {
    open spec fn decodable(doc: JsonView) -> bool {
        &&& int32_at(doc, "totalResultsCount"@) is Some
        &&& list_decodable::<Geoname>(doc, "geonames"@)
    }

    open spec fn decoded_from(&self, doc: JsonView) -> bool {
        &&& int32_at(doc, "totalResultsCount"@) == Some(self.total_results_count as int)
        &&& list_decoded::<Geoname>(self.geonames@, doc, "geonames"@)
    }

    fn from_json(doc: &Json) -> (decoded: Option<Self>) {
        let total_results_count = int32_field(doc, "totalResultsCount")?;
        let geonames = list_field::<Geoname>(doc, "geonames")?;
        Some(ChildrenResponse { total_results_count, geonames })
    }
}

/// The features that a toponym contains.
#[derive(Debug, PartialEq)]
pub struct ContainsResponse {
    pub geonames: Vec<Geoname>,
}

impl ApiResponse for ContainsResponse {
    open spec fn decodable(doc: JsonView) -> bool {
        &&& list_decodable::<Geoname>(doc, "geonames"@)
    }

    open spec fn decoded_from(&self, doc: JsonView) -> bool {
        &&& list_decoded::<Geoname>(self.geonames@, doc, "geonames"@)
    }

    fn from_json(doc: &Json) -> (decoded: Option<Self>) {
        let geonames = list_field::<Geoname>(doc, "geonames")?;
        Some(ContainsResponse { geonames })
    }
}

/// The toponyms near a point.
#[derive(Debug, PartialEq)]
pub struct FindNearbyResponse {
    pub geonames: Vec<Geoname>,
}

impl ApiResponse for FindNearbyResponse {
    open spec fn decodable(doc: JsonView) -> bool {
        &&& list_decodable::<Geoname>(doc, "geonames"@)
    }

    open spec fn decoded_from(&self, doc: JsonView) -> bool {
        &&& list_decoded::<Geoname>(self.geonames@, doc, "geonames"@)
    }

    fn from_json(doc: &Json) -> (decoded: Option<Self>) {
        let geonames = list_field::<Geoname>(doc, "geonames")?;
        Some(FindNearbyResponse { geonames })
    }
}

/// The populated places near a point.
#[derive(Debug, PartialEq)]
pub struct FindNearbyPlaceResponse {
    pub geonames: Vec<GeonameNearbyPlace>,
}

impl ApiResponse for FindNearbyPlaceResponse {
    open spec fn decodable(doc: JsonView) -> bool {
        &&& list_decodable::<GeonameNearbyPlace>(doc, "geonames"@)
    }

    open spec fn decoded_from(&self, doc: JsonView) -> bool {
        &&& list_decoded::<GeonameNearbyPlace>(self.geonames@, doc, "geonames"@)
    }

    fn from_json(doc: &Json) -> (decoded: Option<Self>) {
        let geonames = list_field::<GeonameNearbyPlace>(doc, "geonames")?;
        Some(FindNearbyPlaceResponse { geonames })
    }
}

/// The toponyms above a toponym, from the Earth down.
#[derive(Debug, PartialEq)]
pub struct HierarchyResponse {
    pub geonames: Vec<GeonameHierarchy>,
}

impl ApiResponse for HierarchyResponse {
    open spec fn decodable(doc: JsonView) -> bool {
        &&& list_decodable::<GeonameHierarchy>(doc, "geonames"@)
    }

    open spec fn decoded_from(&self, doc: JsonView) -> bool {
        &&& list_decoded::<GeonameHierarchy>(self.geonames@, doc, "geonames"@)
    }

    fn from_json(doc: &Json) -> (decoded: Option<Self>) {
        let geonames = list_field::<GeonameHierarchy>(doc, "geonames")?;
        Some(HierarchyResponse { geonames })
    }
}

/// The neighbours of a country or subdivision.
#[derive(Debug, PartialEq)]
pub struct NeighboursResponse {
    pub total_results_count: i32,
    pub geonames: Vec<NeighboursGeoname>,
}

impl ApiResponse for NeighboursResponse {
    open spec fn decodable(doc: JsonView) -> bool {
        &&& int32_at(doc, "totalResultsCount"@) is Some
        &&& list_decodable::<NeighboursGeoname>(doc, "geonames"@)
    }

    open spec fn decoded_from(&self, doc: JsonView) -> bool {
        &&& int32_at(doc, "totalResultsCount"@) == Some(self.total_results_count as int)
        &&& list_decoded::<NeighboursGeoname>(self.geonames@, doc, "geonames"@)
    }

    fn from_json(doc: &Json) -> (decoded: Option<Self>) {
        let total_results_count = int32_field(doc, "totalResultsCount")?;
        let geonames = list_field::<NeighboursGeoname>(doc, "geonames")?;
        Some(NeighboursResponse { total_results_count, geonames })
    }
}

/// The toponyms that a search found.
#[derive(Debug, PartialEq)]
pub struct SearchResponse {
    pub total_results_count: i32,
    pub geonames: Vec<Geoname>,
}

impl ApiResponse for SearchResponse {
    open spec fn decodable(doc: JsonView) -> bool {
        &&& int32_at(doc, "totalResultsCount"@) is Some
        &&& list_decodable::<Geoname>(doc, "geonames"@)
    }

    open spec fn decoded_from(&self, doc: JsonView) -> bool {
        &&& int32_at(doc, "totalResultsCount"@) == Some(self.total_results_count as int)
        &&& list_decoded::<Geoname>(self.geonames@, doc, "geonames"@)
    }

    fn from_json(doc: &Json) -> (decoded: Option<Self>) {
        let total_results_count = int32_field(doc, "totalResultsCount")?;
        let geonames = list_field::<Geoname>(doc, "geonames")?;
        Some(SearchResponse { total_results_count, geonames })
    }
}

/// The siblings of a toponym.
#[derive(Debug, PartialEq)]
pub struct SiblingsResponse {
    pub total_results_count: i32,
    pub geonames: Vec<SiblingGeoname>,
}

impl ApiResponse for SiblingsResponse {
    open spec fn decodable(doc: JsonView) -> bool {
        &&& int32_at(doc, "totalResultsCount"@) is Some
        &&& list_decodable::<SiblingGeoname>(doc, "geonames"@)
    }

    open spec fn decoded_from(&self, doc: JsonView) -> bool {
        &&& int32_at(doc, "totalResultsCount"@) == Some(self.total_results_count as int)
        &&& list_decoded::<SiblingGeoname>(self.geonames@, doc, "geonames"@)
    }

    fn from_json(doc: &Json) -> (decoded: Option<Self>) {
        let total_results_count = int32_field(doc, "totalResultsCount")?;
        let geonames = list_field::<SiblingGeoname>(doc, "geonames")?;
        Some(SiblingsResponse { total_results_count, geonames })
    }
}

} // verus!
