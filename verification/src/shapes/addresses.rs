//! Addresses, streets and points of interest.

use crate::json::{Json, JsonView};
use crate::response::{
    ApiResponse, list_decodable, list_decoded, list_field, nested_decodable, nested_decoded,
    nested_field, text_at, text_field,
};
use vstd::prelude::*;

verus! {

/// An address with its distance from the point asked for.
#[derive(Debug, PartialEq)]
pub struct Address {
    pub admin_code2: String,
    pub source_id: String,
    pub admin_code3: String,
    pub admin_code1: String,
    pub lng: String,
    pub distance: String,
    pub house_number: String,
    pub locality: String,
    pub admin_code4: String,
    pub admin_name2: String,
    pub street: String,
    pub postalcode: String,
    pub country_code: String,
    pub admin_name1: String,
    pub lat: String,
}

impl ApiResponse for Address {
    open spec fn decodable(doc: JsonView) -> bool {
        &&& text_at(doc, "adminCode2"@) is Some
        &&& text_at(doc, "sourceId"@) is Some
        &&& text_at(doc, "adminCode3"@) is Some
        &&& text_at(doc, "adminCode1"@) is Some
        &&& text_at(doc, "lng"@) is Some
        &&& text_at(doc, "distance"@) is Some
        &&& text_at(doc, "houseNumber"@) is Some
        &&& text_at(doc, "locality"@) is Some
        &&& text_at(doc, "adminCode4"@) is Some
        &&& text_at(doc, "adminName2"@) is Some
        &&& text_at(doc, "street"@) is Some
        &&& text_at(doc, "postalcode"@) is Some
        &&& text_at(doc, "countryCode"@) is Some
        &&& text_at(doc, "adminName1"@) is Some
        &&& text_at(doc, "lat"@) is Some
    }

    open spec fn decoded_from(&self, doc: JsonView) -> bool {
        &&& text_at(doc, "adminCode2"@) == Some(self.admin_code2@)
        &&& text_at(doc, "sourceId"@) == Some(self.source_id@)
        &&& text_at(doc, "adminCode3"@) == Some(self.admin_code3@)
        &&& text_at(doc, "adminCode1"@) == Some(self.admin_code1@)
        &&& text_at(doc, "lng"@) == Some(self.lng@)
        &&& text_at(doc, "distance"@) == Some(self.distance@)
        &&& text_at(doc, "houseNumber"@) == Some(self.house_number@)
        &&& text_at(doc, "locality"@) == Some(self.locality@)
        &&& text_at(doc, "adminCode4"@) == Some(self.admin_code4@)
        &&& text_at(doc, "adminName2"@) == Some(self.admin_name2@)
        &&& text_at(doc, "street"@) == Some(self.street@)
        &&& text_at(doc, "postalcode"@) == Some(self.postalcode@)
        &&& text_at(doc, "countryCode"@) == Some(self.country_code@)
        &&& text_at(doc, "adminName1"@) == Some(self.admin_name1@)
        &&& text_at(doc, "lat"@) == Some(self.lat@)
    }

    fn from_json(doc: &Json) -> (decoded: Option<Self>) {
        let admin_code2 = text_field(doc, "adminCode2")?;
        let source_id = text_field(doc, "sourceId")?;
        let admin_code3 = text_field(doc, "adminCode3")?;
        let admin_code1 = text_field(doc, "adminCode1")?;
        let lng = text_field(doc, "lng")?;
        let distance = text_field(doc, "distance")?;
        let house_number = text_field(doc, "houseNumber")?;
        let locality = text_field(doc, "locality")?;
        let admin_code4 = text_field(doc, "adminCode4")?;
        let admin_name2 = text_field(doc, "adminName2")?;
        let street = text_field(doc, "street")?;
        let postalcode = text_field(doc, "postalcode")?;
        let country_code = text_field(doc, "countryCode")?;
        let admin_name1 = text_field(doc, "adminName1")?;
        let lat = text_field(doc, "lat")?;
        Some(
            Address {
                admin_code2,
                source_id,
                admin_code3,
                admin_code1,
                lng,
                distance,
                house_number,
                locality,
                admin_code4,
                admin_name2,
                street,
                postalcode,
                country_code,
                admin_name1,
                lat,
            },
        )
    }
}

/// The address nearest to a point.
#[derive(Debug, PartialEq)]
pub struct AddressResponse {
    pub address: Address,
}

impl ApiResponse for AddressResponse {
    open spec fn decodable(doc: JsonView) -> bool {
        &&& nested_decodable::<Address>(doc, "address"@)
    }

    open spec fn decoded_from(&self, doc: JsonView) -> bool {
        &&& nested_decoded::<Address>(self.address, doc, "address"@)
    }

    fn from_json(doc: &Json) -> (decoded: Option<Self>) {
        let address = nested_field::<Address>(doc, "address")?;
        Some(AddressResponse { address })
    }
}

/// An address that a text was resolved to.
#[derive(Debug, PartialEq)]
pub struct GeoCodeAddress {
    pub admin_code2: String,
    pub source_id: String,
    pub admin_code3: String,
    pub admin_code1: String,
    pub lng: String,
    pub house_number: String,
    pub locality: String,
    pub admin_code4: String,
    pub admin_name2: String,
    pub street: String,
    pub postalcode: String,
    pub country_code: String,
    pub admin_name1: String,
    pub lat: String,
}

impl ApiResponse for GeoCodeAddress {
    open spec fn decodable(doc: JsonView) -> bool {
        &&& text_at(doc, "adminCode2"@) is Some
        &&& text_at(doc, "sourceId"@) is Some
        &&& text_at(doc, "adminCode3"@) is Some
        &&& text_at(doc, "adminCode1"@) is Some
        &&& text_at(doc, "lng"@) is Some
        &&& text_at(doc, "houseNumber"@) is Some
        &&& text_at(doc, "locality"@) is Some
        &&& text_at(doc, "adminCode4"@) is Some
        &&& text_at(doc, "adminName2"@) is Some
        &&& text_at(doc, "street"@) is Some
        &&& text_at(doc, "postalcode"@) is Some
        &&& text_at(doc, "countryCode"@) is Some
        &&& text_at(doc, "adminName1"@) is Some
        &&& text_at(doc, "lat"@) is Some
    }

    open spec fn decoded_from(&self, doc: JsonView) -> bool {
        &&& text_at(doc, "adminCode2"@) == Some(self.admin_code2@)
        &&& text_at(doc, "sourceId"@) == Some(self.source_id@)
        &&& text_at(doc, "adminCode3"@) == Some(self.admin_code3@)
        &&& text_at(doc, "adminCode1"@) == Some(self.admin_code1@)
        &&& text_at(doc, "lng"@) == Some(self.lng@)
        &&& text_at(doc, "houseNumber"@) == Some(self.house_number@)
        &&& text_at(doc, "locality"@) == Some(self.locality@)
        &&& text_at(doc, "adminCode4"@) == Some(self.admin_code4@)
        &&& text_at(doc, "adminName2"@) == Some(self.admin_name2@)
        &&& text_at(doc, "street"@) == Some(self.street@)
        &&& text_at(doc, "postalcode"@) == Some(self.postalcode@)
        &&& text_at(doc, "countryCode"@) == Some(self.country_code@)
        &&& text_at(doc, "adminName1"@) == Some(self.admin_name1@)
        &&& text_at(doc, "lat"@) == Some(self.lat@)
    }

    fn from_json(doc: &Json) -> (decoded: Option<Self>) {
        let admin_code2 = text_field(doc, "adminCode2")?;
        let source_id = text_field(doc, "sourceId")?;
        let admin_code3 = text_field(doc, "adminCode3")?;
        let admin_code1 = text_field(doc, "adminCode1")?;
        let lng = text_field(doc, "lng")?;
        let house_number = text_field(doc, "houseNumber")?;
        let locality = text_field(doc, "locality")?;
        let admin_code4 = text_field(doc, "adminCode4")?;
        let admin_name2 = text_field(doc, "adminName2")?;
        let street = text_field(doc, "street")?;
        let postalcode = text_field(doc, "postalcode")?;
        let country_code = text_field(doc, "countryCode")?;
        let admin_name1 = text_field(doc, "adminName1")?;
        let lat = text_field(doc, "lat")?;
        Some(
            GeoCodeAddress {
                admin_code2,
                source_id,
                admin_code3,
                admin_code1,
                lng,
                house_number,
                locality,
                admin_code4,
                admin_name2,
                street,
                postalcode,
                country_code,
                admin_name1,
                lat,
            },
        )
    }
}

/// The place of an address.
#[derive(Debug, PartialEq)]
pub struct GeoCodeAddressResponse {
    pub address: GeoCodeAddress,
}

impl ApiResponse for GeoCodeAddressResponse {
    open spec fn decodable(doc: JsonView) -> bool {
        &&& nested_decodable::<GeoCodeAddress>(doc, "address"@)
    }

    open spec fn decoded_from(&self, doc: JsonView) -> bool {
        &&& nested_decoded::<GeoCodeAddress>(self.address, doc, "address"@)
    }

    fn from_json(doc: &Json) -> (decoded: Option<Self>) {
        let address = nested_field::<GeoCodeAddress>(doc, "address")?;
        Some(GeoCodeAddressResponse { address })
    }
}

/// A street with the place it lies in.
#[derive(Debug, PartialEq)]
pub struct StreetNameLookupAddress {
    pub admin_code2: String,
    pub admin_code3: String,
    pub admin_code1: String,
    pub lng: String,
    pub house_number: String,
    pub locality: String,
    pub admin_code4: String,
    pub admin_name2: String,
    pub street: String,
    pub postalcode: String,
    pub country_code: String,
    pub admin_name1: String,
    pub lat: String,
}

impl ApiResponse for StreetNameLookupAddress {
    open spec fn decodable(doc: JsonView) -> bool {
        &&& text_at(doc, "adminCode2"@) is Some
        &&& text_at(doc, "adminCode3"@) is Some
        &&& text_at(doc, "adminCode1"@) is Some
        &&& text_at(doc, "lng"@) is Some
        &&& text_at(doc, "houseNumber"@) is Some
        &&& text_at(doc, "locality"@) is Some
        &&& text_at(doc, "adminCode4"@) is Some
        &&& text_at(doc, "adminName2"@) is Some
        &&& text_at(doc, "street"@) is Some
        &&& text_at(doc, "postalcode"@) is Some
        &&& text_at(doc, "countryCode"@) is Some
        &&& text_at(doc, "adminName1"@) is Some
        &&& text_at(doc, "lat"@) is Some
    }

    open spec fn decoded_from(&self, doc: JsonView) -> bool {
        &&& text_at(doc, "adminCode2"@) == Some(self.admin_code2@)
        &&& text_at(doc, "adminCode3"@) == Some(self.admin_code3@)
        &&& text_at(doc, "adminCode1"@) == Some(self.admin_code1@)
        &&& text_at(doc, "lng"@) == Some(self.lng@)
        &&& text_at(doc, "houseNumber"@) == Some(self.house_number@)
        &&& text_at(doc, "locality"@) == Some(self.locality@)
        &&& text_at(doc, "adminCode4"@) == Some(self.admin_code4@)
        &&& text_at(doc, "adminName2"@) == Some(self.admin_name2@)
        &&& text_at(doc, "street"@) == Some(self.street@)
        &&& text_at(doc, "postalcode"@) == Some(self.postalcode@)
        &&& text_at(doc, "countryCode"@) == Some(self.country_code@)
        &&& text_at(doc, "adminName1"@) == Some(self.admin_name1@)
        &&& text_at(doc, "lat"@) == Some(self.lat@)
    }

    fn from_json(doc: &Json) -> (decoded: Option<Self>) {
        let admin_code2 = text_field(doc, "adminCode2")?;
        let admin_code3 = text_field(doc, "adminCode3")?;
        let admin_code1 = text_field(doc, "adminCode1")?;
        let lng = text_field(doc, "lng")?;
        let house_number = text_field(doc, "houseNumber")?;
        let locality = text_field(doc, "locality")?;
        let admin_code4 = text_field(doc, "adminCode4")?;
        let admin_name2 = text_field(doc, "adminName2")?;
        let street = text_field(doc, "street")?;
        let postalcode = text_field(doc, "postalcode")?;
        let country_code = text_field(doc, "countryCode")?;
        let admin_name1 = text_field(doc, "adminName1")?;
        let lat = text_field(doc, "lat")?;
        Some(
            StreetNameLookupAddress {
                admin_code2,
                admin_code3,
                admin_code1,
                lng,
                house_number,
                locality,
                admin_code4,
                admin_name2,
                street,
                postalcode,
                country_code,
                admin_name1,
                lat,
            },
        )
    }
}

/// The streets whose names begin with a text.
#[derive(Debug, PartialEq)]
pub struct StreetNameLookupResponse {
    pub address: Vec<StreetNameLookupAddress>,
}

impl ApiResponse for StreetNameLookupResponse {
    open spec fn decodable(doc: JsonView) -> bool {
        &&& list_decodable::<StreetNameLookupAddress>(doc, "address"@)
    }

    open spec fn decoded_from(&self, doc: JsonView) -> bool {
        &&& list_decoded::<StreetNameLookupAddress>(self.address@, doc, "address"@)
    }

    fn from_json(doc: &Json) -> (decoded: Option<Self>) {
        let address = list_field::<StreetNameLookupAddress>(doc, "address")?;
        Some(StreetNameLookupResponse { address })
    }
}

/// A segment of a street.
#[derive(Debug, PartialEq)]
pub struct StreetSegment {
    pub way_id: String,
    pub distance: String,
    pub line: String,
    pub country_code: String,
    pub name: String,
    pub highway: String,
}

impl ApiResponse for StreetSegment {
    open spec fn decodable(doc: JsonView) -> bool {
        &&& text_at(doc, "wayId"@) is Some
        &&& text_at(doc, "distance"@) is Some
        &&& text_at(doc, "line"@) is Some
        &&& text_at(doc, "countryCode"@) is Some
        &&& text_at(doc, "name"@) is Some
        &&& text_at(doc, "highway"@) is Some
    }

    open spec fn decoded_from(&self, doc: JsonView) -> bool {
        &&& text_at(doc, "wayId"@) == Some(self.way_id@)
        &&& text_at(doc, "distance"@) == Some(self.distance@)
        &&& text_at(doc, "line"@) == Some(self.line@)
        &&& text_at(doc, "countryCode"@) == Some(self.country_code@)
        &&& text_at(doc, "name"@) == Some(self.name@)
        &&& text_at(doc, "highway"@) == Some(self.highway@)
    }

    fn from_json(doc: &Json) -> (decoded: Option<Self>) {
        let way_id = text_field(doc, "wayId")?;
        let distance = text_field(doc, "distance")?;
        let line = text_field(doc, "line")?;
        let country_code = text_field(doc, "countryCode")?;
        let name = text_field(doc, "name")?;
        let highway = text_field(doc, "highway")?;
        Some(StreetSegment { way_id, distance, line, country_code, name, highway })
    }
}

/// The street segment nearest to a point.
#[derive(Debug, PartialEq)]
pub struct FindNearbyStreetsOSMResponse {
    pub street_segment: StreetSegment,
}

impl ApiResponse for FindNearbyStreetsOSMResponse {
    open spec fn decodable(doc: JsonView) -> bool {
        &&& nested_decodable::<StreetSegment>(doc, "streetSegment"@)
    }

    open spec fn decoded_from(&self, doc: JsonView) -> bool {
        &&& nested_decoded::<StreetSegment>(self.street_segment, doc, "streetSegment"@)
    }

    fn from_json(doc: &Json) -> (decoded: Option<Self>) {
        let street_segment = nested_field::<StreetSegment>(doc, "streetSegment")?;
        Some(FindNearbyStreetsOSMResponse { street_segment })
    }
}

/// A point of interest.
#[derive(Debug, PartialEq)]
pub struct Poi {
    pub lng: String,
    pub distance: String,
    pub name: String,
    pub type_class: String,
    pub ty_name: String,
    pub lat: String,
}

impl ApiResponse for Poi {
    open spec fn decodable(doc: JsonView) -> bool {
        &&& text_at(doc, "lng"@) is Some
        &&& text_at(doc, "distance"@) is Some
        &&& text_at(doc, "name"@) is Some
        &&& text_at(doc, "typeClass"@) is Some
        &&& text_at(doc, "typeName"@) is Some
        &&& text_at(doc, "lat"@) is Some
    }

    open spec fn decoded_from(&self, doc: JsonView) -> bool {
        &&& text_at(doc, "lng"@) == Some(self.lng@)
        &&& text_at(doc, "distance"@) == Some(self.distance@)
        &&& text_at(doc, "name"@) == Some(self.name@)
        &&& text_at(doc, "typeClass"@) == Some(self.type_class@)
        &&& text_at(doc, "typeName"@) == Some(self.ty_name@)
        &&& text_at(doc, "lat"@) == Some(self.lat@)
    }

    fn from_json(doc: &Json) -> (decoded: Option<Self>) {
        let lng = text_field(doc, "lng")?;
        let distance = text_field(doc, "distance")?;
        let name = text_field(doc, "name")?;
        let type_class = text_field(doc, "typeClass")?;
        let ty_name = text_field(doc, "typeName")?;
        let lat = text_field(doc, "lat")?;
        Some(Poi { lng, distance, name, type_class, ty_name, lat })
    }
}

/// The point of interest nearest to a point.
#[derive(Debug, PartialEq)]
pub struct FindNearbyByPoisOsmResponse {
    pub poi: Poi,
}

impl ApiResponse for FindNearbyByPoisOsmResponse {
    open spec fn decodable(doc: JsonView) -> bool {
        &&& nested_decodable::<Poi>(doc, "poi"@)
    }

    open spec fn decoded_from(&self, doc: JsonView) -> bool {
        &&& nested_decoded::<Poi>(self.poi, doc, "poi"@)
    }

    fn from_json(doc: &Json) -> (decoded: Option<Self>) {
        let poi = nested_field::<Poi>(doc, "poi")?;
        Some(FindNearbyByPoisOsmResponse { poi })
    }
}

} // verus!
