//! The endpoints of the service, and where the service lives.

use vstd::prelude::*;

verus! {

/// The address under which the free tier of the service answers.
pub const BASE_URI: &'static str = "https://secure.geonames.org/";

/// The address under which the commercial tier of the service answers.
pub const BASE_URI_COMMERCIAL: &'static str = "https://secure.geonames.net/";

/// The operations that the service offers.
#[derive(Debug, Clone, Copy, PartialEq, Eq, Hash)]
pub enum GeoNamesApi {
    /// Elevation from the ASTER global digital elevation model.
    Astergdem,
    /// The children of a toponym.
    Children,
    /// Cities inside a bounding box.
    Cities,
    /// The features that a toponym contains.
    Contains,
    /// The country of a point.
    CountryCode,
    /// Facts about countries.
    CountryInfo,
    /// The administrative subdivision of a point.
    CountrySubdivision,
    /// Recent earthquakes inside a bounding box.
    Earthquakes,
    /// Toponyms near a point.
    FindNearby,
    /// Populated places near a point.
    FindNearbyPlaceName,
    /// Postal codes near a point or a postal code.
    FindNearbyPostalCodes,
    /// Street segments near a point.
    FindNearbyStreetsOsm,
    /// The weather station nearest to a point.
    FindNearByWeather,
    /// Wikipedia entries near a point.
    FindNearbyWikipedia,
    /// The street intersection nearest to a point.
    FindNearestIntersectionOsm,
    /// Points of interest near a point.
    FindNearbyPoisOsm,
    /// The address nearest to a point.
    Address,
    /// The place of an address.
    GeoCodeAddress,
    /// Street names that begin with a text.
    StreetNameLookup,
    /// One toponym, by its identifier.
    Get,
    /// Elevation from the GTOPO30 model.
    Gtopo30,
    /// The toponyms above a toponym.
    Hierarchy,
    /// The neighbours of a country or subdivision.
    Neighbours,
    /// The ocean or sea of a point.
    Ocean,
    /// The countries for which postal codes are known.
    PostalCodeCountryInfo,
    /// Places of a postal code.
    PostalCodeLookup,
    /// Postal codes and places by text.
    PostalCodeSearch,
    /// Toponyms by text.
    Search,
    /// The siblings of a toponym.
    Siblings,
    /// Elevation from the SRTM1 model.
    Srtm1,
    /// Elevation from the SRTM3 model.
    Srtm3,
    /// The time zone of a point.
    Timezone,
    /// Weather stations inside a bounding box.
    Weather,
    /// The weather station of an ICAO code.
    WeatherIcao,
    /// Wikipedia entries inside a bounding box.
    WikipediaBoundingBox,
    /// Wikipedia entries by text.
    WikipediaSearch,
}

impl GeoNamesApi {
    /// The operation's name as the service spells it in a request path.
    pub open spec fn spec_wire_name(self) -> Seq<char> {
        match self {
            GeoNamesApi::Astergdem => "astergdem"@,
            GeoNamesApi::Children => "children"@,
            GeoNamesApi::Cities => "cities"@,
            GeoNamesApi::Contains => "contains"@,
            GeoNamesApi::CountryCode => "countryCode"@,
            GeoNamesApi::CountryInfo => "countryInfo"@,
            GeoNamesApi::CountrySubdivision => "countrySubdivision"@,
            GeoNamesApi::Earthquakes => "earthquakes"@,
            GeoNamesApi::FindNearby => "findNearby"@,
            GeoNamesApi::FindNearbyPlaceName => "findNearbyPlaceName"@,
            GeoNamesApi::FindNearbyPostalCodes => "findNearbyPostalCodes"@,
            GeoNamesApi::FindNearbyStreetsOsm => "findNearbyStreetsOSM"@,
            GeoNamesApi::FindNearByWeather => "findNearByWeather"@,
            GeoNamesApi::FindNearbyWikipedia => "findNearbyWikipedia"@,
            GeoNamesApi::FindNearestIntersectionOsm => "findNearestIntersectionOsm"@,
            GeoNamesApi::FindNearbyPoisOsm => "findNearbyPOIsOSM"@,
            GeoNamesApi::Address => "address"@,
            GeoNamesApi::GeoCodeAddress => "geoCodeAddress"@,
            GeoNamesApi::StreetNameLookup => "streetNameLookup"@,
            GeoNamesApi::Get => "get"@,
            GeoNamesApi::Gtopo30 => "gtopo30"@,
            GeoNamesApi::Hierarchy => "hierarchy"@,
            GeoNamesApi::Neighbours => "neighbours"@,
            GeoNamesApi::Ocean => "ocean"@,
            GeoNamesApi::PostalCodeCountryInfo => "postalCodeCountryInfo"@,
            GeoNamesApi::PostalCodeLookup => "postalCodeLookup"@,
            GeoNamesApi::PostalCodeSearch => "postalCodeSearch"@,
            GeoNamesApi::Search => "search"@,
            GeoNamesApi::Siblings => "siblings"@,
            GeoNamesApi::Srtm1 => "srtm1"@,
            GeoNamesApi::Srtm3 => "srtm3"@,
            GeoNamesApi::Timezone => "timezone"@,
            GeoNamesApi::Weather => "weather"@,
            GeoNamesApi::WeatherIcao => "weatherIcao"@,
            GeoNamesApi::WikipediaBoundingBox => "wikipediaBoundingBox"@,
            GeoNamesApi::WikipediaSearch => "wikipediaSearch"@,
        }
    }

    /// The operation's name as the service spells it in a request path.
    pub fn wire_name(&self) -> (name: &'static str)
        ensures
            name@ == self.spec_wire_name(),
    {
        match self {
            GeoNamesApi::Astergdem => "astergdem",
            GeoNamesApi::Children => "children",
            GeoNamesApi::Cities => "cities",
            GeoNamesApi::Contains => "contains",
            GeoNamesApi::CountryCode => "countryCode",
            GeoNamesApi::CountryInfo => "countryInfo",
            GeoNamesApi::CountrySubdivision => "countrySubdivision",
            GeoNamesApi::Earthquakes => "earthquakes",
            GeoNamesApi::FindNearby => "findNearby",
            GeoNamesApi::FindNearbyPlaceName => "findNearbyPlaceName",
            GeoNamesApi::FindNearbyPostalCodes => "findNearbyPostalCodes",
            GeoNamesApi::FindNearbyStreetsOsm => "findNearbyStreetsOSM",
            GeoNamesApi::FindNearByWeather => "findNearByWeather",
            GeoNamesApi::FindNearbyWikipedia => "findNearbyWikipedia",
            GeoNamesApi::FindNearestIntersectionOsm => "findNearestIntersectionOsm",
            GeoNamesApi::FindNearbyPoisOsm => "findNearbyPOIsOSM",
            GeoNamesApi::Address => "address",
            GeoNamesApi::GeoCodeAddress => "geoCodeAddress",
            GeoNamesApi::StreetNameLookup => "streetNameLookup",
            GeoNamesApi::Get => "get",
            GeoNamesApi::Gtopo30 => "gtopo30",
            GeoNamesApi::Hierarchy => "hierarchy",
            GeoNamesApi::Neighbours => "neighbours",
            GeoNamesApi::Ocean => "ocean",
            GeoNamesApi::PostalCodeCountryInfo => "postalCodeCountryInfo",
            GeoNamesApi::PostalCodeLookup => "postalCodeLookup",
            GeoNamesApi::PostalCodeSearch => "postalCodeSearch",
            GeoNamesApi::Search => "search",
            GeoNamesApi::Siblings => "siblings",
            GeoNamesApi::Srtm1 => "srtm1",
            GeoNamesApi::Srtm3 => "srtm3",
            GeoNamesApi::Timezone => "timezone",
            GeoNamesApi::Weather => "weather",
            GeoNamesApi::WeatherIcao => "weatherIcao",
            GeoNamesApi::WikipediaBoundingBox => "wikipediaBoundingBox",
            GeoNamesApi::WikipediaSearch => "wikipediaSearch",
        }
    }

    /// The operation's name as this library spells it.
    pub open spec fn spec_variant_name(self) -> Seq<char> {
        match self {
            GeoNamesApi::Astergdem => "Astergdem"@,
            GeoNamesApi::Children => "Children"@,
            GeoNamesApi::Cities => "Cities"@,
            GeoNamesApi::Contains => "Contains"@,
            GeoNamesApi::CountryCode => "CountryCode"@,
            GeoNamesApi::CountryInfo => "CountryInfo"@,
            GeoNamesApi::CountrySubdivision => "CountrySubdivision"@,
            GeoNamesApi::Earthquakes => "Earthquakes"@,
            GeoNamesApi::FindNearby => "FindNearby"@,
            GeoNamesApi::FindNearbyPlaceName => "FindNearbyPlaceName"@,
            GeoNamesApi::FindNearbyPostalCodes => "FindNearbyPostalCodes"@,
            GeoNamesApi::FindNearbyStreetsOsm => "FindNearbyStreetsOsm"@,
            GeoNamesApi::FindNearByWeather => "FindNearByWeather"@,
            GeoNamesApi::FindNearbyWikipedia => "FindNearbyWikipedia"@,
            GeoNamesApi::FindNearestIntersectionOsm => "FindNearestIntersectionOsm"@,
            GeoNamesApi::FindNearbyPoisOsm => "FindNearbyPoisOsm"@,
            GeoNamesApi::Address => "Address"@,
            GeoNamesApi::GeoCodeAddress => "GeoCodeAddress"@,
            GeoNamesApi::StreetNameLookup => "StreetNameLookup"@,
            GeoNamesApi::Get => "Get"@,
            GeoNamesApi::Gtopo30 => "Gtopo30"@,
            GeoNamesApi::Hierarchy => "Hierarchy"@,
            GeoNamesApi::Neighbours => "Neighbours"@,
            GeoNamesApi::Ocean => "Ocean"@,
            GeoNamesApi::PostalCodeCountryInfo => "PostalCodeCountryInfo"@,
            GeoNamesApi::PostalCodeLookup => "PostalCodeLookup"@,
            GeoNamesApi::PostalCodeSearch => "PostalCodeSearch"@,
            GeoNamesApi::Search => "Search"@,
            GeoNamesApi::Siblings => "Siblings"@,
            GeoNamesApi::Srtm1 => "Srtm1"@,
            GeoNamesApi::Srtm3 => "Srtm3"@,
            GeoNamesApi::Timezone => "Timezone"@,
            GeoNamesApi::Weather => "Weather"@,
            GeoNamesApi::WeatherIcao => "WeatherIcao"@,
            GeoNamesApi::WikipediaBoundingBox => "WikipediaBoundingBox"@,
            GeoNamesApi::WikipediaSearch => "WikipediaSearch"@,
        }
    }

    /// The operation's name as this library spells it.
    pub fn variant_name(&self) -> (name: &'static str)
        ensures
            name@ == self.spec_variant_name(),
    {
        match self {
            GeoNamesApi::Astergdem => "Astergdem",
            GeoNamesApi::Children => "Children",
            GeoNamesApi::Cities => "Cities",
            GeoNamesApi::Contains => "Contains",
            GeoNamesApi::CountryCode => "CountryCode",
            GeoNamesApi::CountryInfo => "CountryInfo",
            GeoNamesApi::CountrySubdivision => "CountrySubdivision",
            GeoNamesApi::Earthquakes => "Earthquakes",
            GeoNamesApi::FindNearby => "FindNearby",
            GeoNamesApi::FindNearbyPlaceName => "FindNearbyPlaceName",
            GeoNamesApi::FindNearbyPostalCodes => "FindNearbyPostalCodes",
            GeoNamesApi::FindNearbyStreetsOsm => "FindNearbyStreetsOsm",
            GeoNamesApi::FindNearByWeather => "FindNearByWeather",
            GeoNamesApi::FindNearbyWikipedia => "FindNearbyWikipedia",
            GeoNamesApi::FindNearestIntersectionOsm => "FindNearestIntersectionOsm",
            GeoNamesApi::FindNearbyPoisOsm => "FindNearbyPoisOsm",
            GeoNamesApi::Address => "Address",
            GeoNamesApi::GeoCodeAddress => "GeoCodeAddress",
            GeoNamesApi::StreetNameLookup => "StreetNameLookup",
            GeoNamesApi::Get => "Get",
            GeoNamesApi::Gtopo30 => "Gtopo30",
            GeoNamesApi::Hierarchy => "Hierarchy",
            GeoNamesApi::Neighbours => "Neighbours",
            GeoNamesApi::Ocean => "Ocean",
            GeoNamesApi::PostalCodeCountryInfo => "PostalCodeCountryInfo",
            GeoNamesApi::PostalCodeLookup => "PostalCodeLookup",
            GeoNamesApi::PostalCodeSearch => "PostalCodeSearch",
            GeoNamesApi::Search => "Search",
            GeoNamesApi::Siblings => "Siblings",
            GeoNamesApi::Srtm1 => "Srtm1",
            GeoNamesApi::Srtm3 => "Srtm3",
            GeoNamesApi::Timezone => "Timezone",
            GeoNamesApi::Weather => "Weather",
            GeoNamesApi::WeatherIcao => "WeatherIcao",
            GeoNamesApi::WikipediaBoundingBox => "WikipediaBoundingBox",
            GeoNamesApi::WikipediaSearch => "WikipediaSearch",
        }
    }
}

/// The formats in which the service can answer.
#[derive(Debug, Clone, Copy, PartialEq, Eq, Hash)]
pub enum Format {
    /// A JSON document.
    Json,
}

impl Format {
    /// The format's name as the service spells it at the end of a request path.
    pub open spec fn spec_wire_name(self) -> Seq<char> {
        match self {
            Format::Json => "JSON"@,
        }
    }

    /// The format's name as the service spells it at the end of a request path.
    pub fn wire_name(&self) -> (name: &'static str)
        ensures
            name@ == self.spec_wire_name(),
    {
        match self {
            Format::Json => "JSON",
        }
    }
}

} // verus!
