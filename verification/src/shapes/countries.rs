//! Countries, their subdivisions and postal codes, and the seas.

use crate::json::{Json, JsonView};
use crate::response::{
    ApiResponse, int32_at, int32_field, list_decodable, list_decoded, list_field,
    nested_decodable, nested_decoded, nested_field, text_at, text_field,
};
use vstd::prelude::*;

verus! {

/// The country of a point.
#[derive(Debug, PartialEq)]
pub struct CountryCodeResponse {
    pub languages: String,
    pub distance: String,
    pub country_code: String,
    pub country_name: String,
}

impl ApiResponse for CountryCodeResponse {
    open spec fn decodable(doc: JsonView) -> bool {
        &&& text_at(doc, "languages"@) is Some
        &&& text_at(doc, "distance"@) is Some
        &&& text_at(doc, "countryCode"@) is Some
        &&& text_at(doc, "countryName"@) is Some
    }

    open spec fn decoded_from(&self, doc: JsonView) -> bool {
        &&& text_at(doc, "languages"@) == Some(self.languages@)
        &&& text_at(doc, "distance"@) == Some(self.distance@)
        &&& text_at(doc, "countryCode"@) == Some(self.country_code@)
        &&& text_at(doc, "countryName"@) == Some(self.country_name@)
    }

    fn from_json(doc: &Json) -> (decoded: Option<Self>) {
        let languages = text_field(doc, "languages")?;
        let distance = text_field(doc, "distance")?;
        let country_code = text_field(doc, "countryCode")?;
        let country_name = text_field(doc, "countryName")?;
        Some(CountryCodeResponse { languages, distance, country_code, country_name })
    }
}

/// One code of an administrative subdivision.
#[derive(Debug, PartialEq)]
pub struct CountrySubvisionCode {
    pub code: String,
    pub level: String,
    pub ty: String,
}

impl ApiResponse for CountrySubvisionCode {
    open spec fn decodable(doc: JsonView) -> bool {
        &&& text_at(doc, "code"@) is Some
        &&& text_at(doc, "level"@) is Some
        &&& text_at(doc, "type"@) is Some
    }

    open spec fn decoded_from(&self, doc: JsonView) -> bool {
        &&& text_at(doc, "code"@) == Some(self.code@)
        &&& text_at(doc, "level"@) == Some(self.level@)
        &&& text_at(doc, "type"@) == Some(self.ty@)
    }

    fn from_json(doc: &Json) -> (decoded: Option<Self>) {
        let code = text_field(doc, "code")?;
        let level = text_field(doc, "level")?;
        let ty = text_field(doc, "type")?;
        Some(CountrySubvisionCode { code, level, ty })
    }
}

/// An ocean or sea.
#[derive(Debug, PartialEq)]
pub struct Ocean {
    pub distance: String,
    pub geoname_id: i32,
    pub name: String,
}

impl ApiResponse for Ocean {
    open spec fn decodable(doc: JsonView) -> bool {
        &&& text_at(doc, "distance"@) is Some
        &&& int32_at(doc, "geonameId"@) is Some
        &&& text_at(doc, "name"@) is Some
    }

    open spec fn decoded_from(&self, doc: JsonView) -> bool {
        &&& text_at(doc, "distance"@) == Some(self.distance@)
        &&& int32_at(doc, "geonameId"@) == Some(self.geoname_id as int)
        &&& text_at(doc, "name"@) == Some(self.name@)
    }

    fn from_json(doc: &Json) -> (decoded: Option<Self>) {
        let distance = text_field(doc, "distance")?;
        let geoname_id = int32_field(doc, "geonameId")?;
        let name = text_field(doc, "name")?;
        Some(Ocean { distance, geoname_id, name })
    }
}

/// The ocean or sea of a point.
#[derive(Debug, PartialEq)]
pub struct OceanResponse {
    pub ocean: Ocean,
}

impl ApiResponse for OceanResponse {
    open spec fn decodable(doc: JsonView) -> bool {
        &&& nested_decodable::<Ocean>(doc, "ocean"@)
    }

    open spec fn decoded_from(&self, doc: JsonView) -> bool {
        &&& nested_decoded::<Ocean>(self.ocean, doc, "ocean"@)
    }

    fn from_json(doc: &Json) -> (decoded: Option<Self>) {
        let ocean = nested_field::<Ocean>(doc, "ocean")?;
        Some(OceanResponse { ocean })
    }
}

/// What is known of the postal codes of one country.
#[derive(Debug, PartialEq)]
pub struct PostalCodeCountryInfoGeoname {
    pub num_postal_codes: i32,
    pub max_postal_code: String,
    pub country_code: String,
    pub min_postal_code: String,
    pub country_name: String,
}

impl ApiResponse for PostalCodeCountryInfoGeoname {
    open spec fn decodable(doc: JsonView) -> bool {
        &&& int32_at(doc, "numPostalCodes"@) is Some
        &&& text_at(doc, "maxPostalCode"@) is Some
        &&& text_at(doc, "countryCode"@) is Some
        &&& text_at(doc, "minPostalCode"@) is Some
        &&& text_at(doc, "countryName"@) is Some
    }

    open spec fn decoded_from(&self, doc: JsonView) -> bool {
        &&& int32_at(doc, "numPostalCodes"@) == Some(self.num_postal_codes as int)
        &&& text_at(doc, "maxPostalCode"@) == Some(self.max_postal_code@)
        &&& text_at(doc, "countryCode"@) == Some(self.country_code@)
        &&& text_at(doc, "minPostalCode"@) == Some(self.min_postal_code@)
        &&& text_at(doc, "countryName"@) == Some(self.country_name@)
    }

    fn from_json(doc: &Json) -> (decoded: Option<Self>) {
        let num_postal_codes = int32_field(doc, "numPostalCodes")?;
        let max_postal_code = text_field(doc, "maxPostalCode")?;
        let country_code = text_field(doc, "countryCode")?;
        let min_postal_code = text_field(doc, "minPostalCode")?;
        let country_name = text_field(doc, "countryName")?;
        Some(
            PostalCodeCountryInfoGeoname {
                num_postal_codes,
                max_postal_code,
                country_code,
                min_postal_code,
                country_name,
            },
        )
    }
}

/// The countries for which postal codes are known.
#[derive(Debug, PartialEq)]
pub struct PostalCodeCountryInfoResponse {
    pub geonames: Vec<PostalCodeCountryInfoGeoname>,
}

impl ApiResponse for PostalCodeCountryInfoResponse {
    open spec fn decodable(doc: JsonView) -> bool {
        &&& list_decodable::<PostalCodeCountryInfoGeoname>(doc, "geonames"@)
    }

    open spec fn decoded_from(&self, doc: JsonView) -> bool {
        &&& list_decoded::<PostalCodeCountryInfoGeoname>(self.geonames@, doc, "geonames"@)
    }

    fn from_json(doc: &Json) -> (decoded: Option<Self>) {
        let geonames = list_field::<PostalCodeCountryInfoGeoname>(doc, "geonames")?;
        Some(PostalCodeCountryInfoResponse { geonames })
    }
}

} // verus!
