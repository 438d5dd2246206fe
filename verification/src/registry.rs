//! The parameter rules of every endpoint.

use crate::config::GeoNamesApi;
use crate::rules::{texts, ParameterRule};
use vstd::prelude::*;

verus! {

/// The values of a parameter whose value is left free: none are listed.
pub open spec fn any_value() -> Seq<Seq<char>> {
    Seq::empty()
}

/// The levels of detail that the service can answer in.
pub open spec fn style_values() -> Seq<Seq<char>> {
    seq!["SHORT"@, "MEDIUM"@, "LONG"@, "FULL"@]
}

/// The ways in which the service can combine search terms.
pub open spec fn operator_values() -> Seq<Seq<char>> {
    seq!["AND"@, "OR"@]
}

/// The two truth values as the service spells them.
pub open spec fn flag_values() -> Seq<Seq<char>> {
    seq!["true"@, "false"@]
}

/// The city classes by which nearby places can be filtered.
pub open spec fn city_class_values() -> Seq<Seq<char>> {
    seq!["cities1000"@, "cities5000"@, "cities15000"@]
}

/// The hierarchies in which the children of a toponym can be looked up.
pub open spec fn hierarchy_values() -> Seq<Seq<char>> {
    seq!["tourism"@, "geography"@, "dependency"@]
}

fn free() -> (allowed: Vec<&'static str>)
    ensures
        texts(allowed@) == any_value(),
{
    let allowed: Vec<&'static str> = Vec::new();
    assert(texts(allowed@) =~= any_value());
    allowed
}

fn styles() -> (allowed: Vec<&'static str>)
    ensures
        texts(allowed@) == style_values(),
{
    let mut allowed: Vec<&'static str> = Vec::new();
    allowed.push("SHORT");
    allowed.push("MEDIUM");
    allowed.push("LONG");
    allowed.push("FULL");
    assert(texts(allowed@) =~= style_values());
    allowed
}

fn operators() -> (allowed: Vec<&'static str>)
    ensures
        texts(allowed@) == operator_values(),
{
    let mut allowed: Vec<&'static str> = Vec::new();
    allowed.push("AND");
    allowed.push("OR");
    assert(texts(allowed@) =~= operator_values());
    allowed
}

fn flags() -> (allowed: Vec<&'static str>)
    ensures
        texts(allowed@) == flag_values(),
{
    let mut allowed: Vec<&'static str> = Vec::new();
    allowed.push("true");
    allowed.push("false");
    assert(texts(allowed@) =~= flag_values());
    allowed
}

fn city_classes() -> (allowed: Vec<&'static str>)
    ensures
        texts(allowed@) == city_class_values(),
{
    let mut allowed: Vec<&'static str> = Vec::new();
    allowed.push("cities1000");
    allowed.push("cities5000");
    allowed.push("cities15000");
    assert(texts(allowed@) =~= city_class_values());
    allowed
}

fn hierarchies() -> (allowed: Vec<&'static str>)
    ensures
        texts(allowed@) == hierarchy_values(),
{
    let mut allowed: Vec<&'static str> = Vec::new();
    allowed.push("tourism");
    allowed.push("geography");
    allowed.push("dependency");
    assert(texts(allowed@) =~= hierarchy_values());
    allowed
}

/// What `Astergdem` accepts.
pub open spec fn astergdem_rule() -> Map<Seq<char>, Seq<Seq<char>>> {
    Map::empty()
        .insert("postalcodes"@, any_value())
        .insert("lat"@, any_value())
        .insert("lng"@, any_value())
}

/// What `Astergdem` accepts.
pub fn astergdem_params() -> (rule: ParameterRule)
    ensures
        rule@ == astergdem_rule(),
{
    let mut rule = ParameterRule::new();
    rule.insert("postalcodes", free());
    rule.insert("lat", free());
    rule.insert("lng", free());
    rule
}

/// What `Children` accepts.
pub open spec fn children_rule() -> Map<Seq<char>, Seq<Seq<char>>> {
    Map::empty()
        .insert("geonameId"@, any_value())
        .insert("maxRows"@, any_value())
        .insert("hierarchy"@, hierarchy_values())
}

/// What `Children` accepts.
pub fn children_params() -> (rule: ParameterRule)
    ensures
        rule@ == children_rule(),
{
    let mut rule = ParameterRule::new();
    rule.insert("geonameId", free());
    rule.insert("maxRows", free());
    rule.insert("hierarchy", hierarchies());
    rule
}

/// What `Cities` accepts.
pub open spec fn cities_rule() -> Map<Seq<char>, Seq<Seq<char>>> {
    Map::empty()
        .insert("north"@, any_value())
        .insert("south"@, any_value())
        .insert("east"@, any_value())
        .insert("west"@, any_value())
        .insert("maxRows"@, any_value())
}

/// What `Cities` accepts.
pub fn cities_params() -> (rule: ParameterRule)
    ensures
        rule@ == cities_rule(),
{
    let mut rule = ParameterRule::new();
    rule.insert("north", free());
    rule.insert("south", free());
    rule.insert("east", free());
    rule.insert("west", free());
    rule.insert("maxRows", free());
    rule
}

/// What `Contains` accepts.
pub open spec fn contains_rule() -> Map<Seq<char>, Seq<Seq<char>>> {
    Map::empty()
        .insert("geonameId"@, any_value())
        .insert("featureClass"@, any_value())
        .insert("featureCode"@, any_value())
        .insert("maxRows"@, any_value())
}

/// What `Contains` accepts.
pub fn contains_params() -> (rule: ParameterRule)
    ensures
        rule@ == contains_rule(),
{
    let mut rule = ParameterRule::new();
    rule.insert("geonameId", free());
    rule.insert("featureClass", free());
    rule.insert("featureCode", free());
    rule.insert("maxRows", free());
    rule
}

/// What `CountryCode` accepts.
pub open spec fn country_code_rule() -> Map<Seq<char>, Seq<Seq<char>>> {
    Map::empty()
        .insert("lat"@, any_value())
        .insert("lng"@, any_value())
        .insert("type"@, any_value())
        .insert("lang"@, any_value())
        .insert("radius"@, any_value())
}

/// What `CountryCode` accepts.
pub fn country_code_params() -> (rule: ParameterRule)
    ensures
        rule@ == country_code_rule(),
{
    let mut rule = ParameterRule::new();
    rule.insert("lat", free());
    rule.insert("lng", free());
    rule.insert("type", free());
    rule.insert("lang", free());
    rule.insert("radius", free());
    rule
}

/// What `CountryInfo` accepts.
pub open spec fn country_info_rule() -> Map<Seq<char>, Seq<Seq<char>>> {
    Map::empty()
        .insert("country"@, any_value())
        .insert("lang"@, any_value())
}

/// What `CountryInfo` accepts.
pub fn country_info_params() -> (rule: ParameterRule)
    ensures
        rule@ == country_info_rule(),
{
    let mut rule = ParameterRule::new();
    rule.insert("country", free());
    rule.insert("lang", free());
    rule
}

/// What `CountrySubdivision` accepts.
pub open spec fn country_subdivision_rule() -> Map<Seq<char>, Seq<Seq<char>>> {
    Map::empty()
        .insert("lat"@, any_value())
        .insert("lng"@, any_value())
        .insert("lang"@, any_value())
        .insert("radius"@, any_value())
        .insert("level"@, any_value())
}

/// What `CountrySubdivision` accepts.
pub fn country_subdivision_params() -> (rule: ParameterRule)
    ensures
        rule@ == country_subdivision_rule(),
{
    let mut rule = ParameterRule::new();
    rule.insert("lat", free());
    rule.insert("lng", free());
    rule.insert("lang", free());
    rule.insert("radius", free());
    rule.insert("level", free());
    rule
}

/// What `Earthquakes` accepts.
pub open spec fn earthquakes_rule() -> Map<Seq<char>, Seq<Seq<char>>> {
    Map::empty()
        .insert("north"@, any_value())
        .insert("south"@, any_value())
        .insert("east"@, any_value())
        .insert("west"@, any_value())
        .insert("date"@, any_value())
        .insert("minMagnitude"@, any_value())
        .insert("maxRows"@, any_value())
}

/// What `Earthquakes` accepts.
pub fn earthquakes_params() -> (rule: ParameterRule)
    ensures
        rule@ == earthquakes_rule(),
{
    let mut rule = ParameterRule::new();
    rule.insert("north", free());
    rule.insert("south", free());
    rule.insert("east", free());
    rule.insert("west", free());
    rule.insert("date", free());
    rule.insert("minMagnitude", free());
    rule.insert("maxRows", free());
    rule
}

/// What `FindNearby` accepts.
pub open spec fn find_nearby_rule() -> Map<Seq<char>, Seq<Seq<char>>> {
    Map::empty()
        .insert("lat"@, any_value())
        .insert("lng"@, any_value())
        .insert("featureClass"@, any_value())
        .insert("featureCode"@, any_value())
        .insert("radius"@, any_value())
        .insert("maxRows"@, any_value())
        .insert("style"@, style_values())
}

/// What `FindNearby` accepts.
pub fn find_nearby_params() -> (rule: ParameterRule)
    ensures
        rule@ == find_nearby_rule(),
{
    let mut rule = ParameterRule::new();
    rule.insert("lat", free());
    rule.insert("lng", free());
    rule.insert("featureClass", free());
    rule.insert("featureCode", free());
    rule.insert("radius", free());
    rule.insert("maxRows", free());
    rule.insert("style", styles());
    rule
}

/// What `FindNearbyPlaceName` accepts.
pub open spec fn find_nearby_place_name_rule() -> Map<Seq<char>, Seq<Seq<char>>> {
    Map::empty()
        .insert("lat"@, any_value())
        .insert("lng"@, any_value())
        .insert("lang"@, any_value())
        .insert("maxRows"@, any_value())
        .insert("radius"@, any_value())
        .insert("style"@, style_values())
        .insert("localCountry"@, any_value())
        .insert("cities"@, city_class_values())
}

/// What `FindNearbyPlaceName` accepts.
pub fn find_nearby_place_name_params() -> (rule: ParameterRule)
    ensures
        rule@ == find_nearby_place_name_rule(),
{
    let mut rule = ParameterRule::new();
    rule.insert("lat", free());
    rule.insert("lng", free());
    rule.insert("lang", free());
    rule.insert("maxRows", free());
    rule.insert("radius", free());
    rule.insert("style", styles());
    rule.insert("localCountry", free());
    rule.insert("cities", city_classes());
    rule
}

/// What `FindNearbyPostalCodes` accepts.
pub open spec fn find_nearby_postal_codes_rule() -> Map<Seq<char>, Seq<Seq<char>>> {
    Map::empty()
        .insert("lat"@, any_value())
        .insert("lng"@, any_value())
        .insert("radius"@, any_value())
        .insert("maxRows"@, any_value())
        .insert("style"@, style_values())
        .insert("country"@, any_value())
        .insert("localCountry"@, any_value())
        .insert("isReduced"@, flag_values())
        .insert("postalCode"@, any_value())
}

/// What `FindNearbyPostalCodes` accepts.
pub fn find_nearby_postal_codes_params() -> (rule: ParameterRule)
    ensures
        rule@ == find_nearby_postal_codes_rule(),
{
    let mut rule = ParameterRule::new();
    rule.insert("lat", free());
    rule.insert("lng", free());
    rule.insert("radius", free());
    rule.insert("maxRows", free());
    rule.insert("style", styles());
    rule.insert("country", free());
    rule.insert("localCountry", free());
    rule.insert("isReduced", flags());
    rule.insert("postalCode", free());
    rule
}

/// What `FindNearbyStreetsOsm` accepts.
pub open spec fn find_nearby_streets_osm_rule() -> Map<Seq<char>, Seq<Seq<char>>> {
    Map::empty()
        .insert("lat"@, any_value())
        .insert("lng"@, any_value())
        .insert("radius"@, any_value())
        .insert("maxRows"@, any_value())
}

/// What `FindNearbyStreetsOsm` accepts.
pub fn find_nearby_streets_osm_params() -> (rule: ParameterRule)
    ensures
        rule@ == find_nearby_streets_osm_rule(),
{
    let mut rule = ParameterRule::new();
    rule.insert("lat", free());
    rule.insert("lng", free());
    rule.insert("radius", free());
    rule.insert("maxRows", free());
    rule
}

/// What `FindNearByWeather` accepts.
pub open spec fn find_near_by_weather_rule() -> Map<Seq<char>, Seq<Seq<char>>> {
    Map::empty()
        .insert("lat"@, any_value())
        .insert("lng"@, any_value())
        .insert("radius"@, any_value())
}

/// What `FindNearByWeather` accepts.
pub fn find_near_by_weather_params() -> (rule: ParameterRule)
    ensures
        rule@ == find_near_by_weather_rule(),
{
    let mut rule = ParameterRule::new();
    rule.insert("lat", free());
    rule.insert("lng", free());
    rule.insert("radius", free());
    rule
}

/// What `FindNearbyWikipedia` accepts.
pub open spec fn find_nearby_wikipedia_rule() -> Map<Seq<char>, Seq<Seq<char>>> {
    Map::empty()
        .insert("lang"@, any_value())
        .insert("lat"@, any_value())
        .insert("lng"@, any_value())
        .insert("radius"@, any_value())
        .insert("maxRows"@, any_value())
        .insert("country"@, any_value())
        .insert("postalCode"@, any_value())
        .insert("length"@, any_value())
}

/// What `FindNearbyWikipedia` accepts.
pub fn find_nearby_wikipedia_params() -> (rule: ParameterRule)
    ensures
        rule@ == find_nearby_wikipedia_rule(),
{
    let mut rule = ParameterRule::new();
    rule.insert("lang", free());
    rule.insert("lat", free());
    rule.insert("lng", free());
    rule.insert("radius", free());
    rule.insert("maxRows", free());
    rule.insert("country", free());
    rule.insert("postalCode", free());
    rule.insert("length", free());
    rule
}

/// What `FindNearbyPoisOsm` accepts.
pub open spec fn find_nearby_pois_osm_rule() -> Map<Seq<char>, Seq<Seq<char>>> {
    Map::empty()
        .insert("lat"@, any_value())
        .insert("lng"@, any_value())
        .insert("radius"@, any_value())
        .insert("maxRows"@, any_value())
}

/// What `FindNearbyPoisOsm` accepts.
pub fn find_nearby_pois_osm_params() -> (rule: ParameterRule)
    ensures
        rule@ == find_nearby_pois_osm_rule(),
{
    let mut rule = ParameterRule::new();
    rule.insert("lat", free());
    rule.insert("lng", free());
    rule.insert("radius", free());
    rule.insert("maxRows", free());
    rule
}

/// What `Address` accepts.
pub open spec fn address_rule() -> Map<Seq<char>, Seq<Seq<char>>> {
    Map::empty()
        .insert("lat"@, any_value())
        .insert("lng"@, any_value())
        .insert("radius"@, any_value())
}

/// What `Address` accepts.
pub fn address_params() -> (rule: ParameterRule)
    ensures
        rule@ == address_rule(),
{
    let mut rule = ParameterRule::new();
    rule.insert("lat", free());
    rule.insert("lng", free());
    rule.insert("radius", free());
    rule
}

/// What `GeoCodeAddress` accepts.
pub open spec fn geo_code_address_rule() -> Map<Seq<char>, Seq<Seq<char>>> {
    Map::empty()
        .insert("q"@, any_value())
        .insert("country"@, any_value())
        .insert("postalcode"@, any_value())
}

/// What `GeoCodeAddress` accepts.
pub fn geo_code_address_params() -> (rule: ParameterRule)
    ensures
        rule@ == geo_code_address_rule(),
{
    let mut rule = ParameterRule::new();
    rule.insert("q", free());
    rule.insert("country", free());
    rule.insert("postalcode", free());
    rule
}

/// What `StreetNameLookup` accepts.
pub open spec fn street_name_lookup_rule() -> Map<Seq<char>, Seq<Seq<char>>> {
    Map::empty()
        .insert("q"@, any_value())
        .insert("country"@, any_value())
        .insert("postalcode"@, any_value())
        .insert("adminCode1"@, any_value())
        .insert("adminCode2"@, any_value())
        .insert("adminCode3"@, any_value())
        .insert("isUniqueStreetName"@, any_value())
}

/// What `StreetNameLookup` accepts.
pub fn street_name_lookup_params() -> (rule: ParameterRule)
    ensures
        rule@ == street_name_lookup_rule(),
{
    let mut rule = ParameterRule::new();
    rule.insert("q", free());
    rule.insert("country", free());
    rule.insert("postalcode", free());
    rule.insert("adminCode1", free());
    rule.insert("adminCode2", free());
    rule.insert("adminCode3", free());
    rule.insert("isUniqueStreetName", free());
    rule
}

/// What `Get` accepts.
pub open spec fn get_rule() -> Map<Seq<char>, Seq<Seq<char>>> {
    Map::empty()
        .insert("geonameId"@, any_value())
        .insert("lang"@, any_value())
        .insert("style"@, any_value())
}

/// What `Get` accepts.
pub fn get_params() -> (rule: ParameterRule)
    ensures
        rule@ == get_rule(),
{
    let mut rule = ParameterRule::new();
    rule.insert("geonameId", free());
    rule.insert("lang", free());
    rule.insert("style", free());
    rule
}

/// What `Gtopo30` accepts.
pub open spec fn gtopo30_rule() -> Map<Seq<char>, Seq<Seq<char>>> {
    Map::empty()
        .insert("lat"@, any_value())
        .insert("lng"@, any_value())
}

/// What `Gtopo30` accepts.
pub fn gtopo30_params() -> (rule: ParameterRule)
    ensures
        rule@ == gtopo30_rule(),
{
    let mut rule = ParameterRule::new();
    rule.insert("lat", free());
    rule.insert("lng", free());
    rule
}

/// What `Hierarchy` accepts.
pub open spec fn hierarchy_rule() -> Map<Seq<char>, Seq<Seq<char>>> {
    Map::empty()
        .insert("geonameId"@, any_value())
}

/// What `Hierarchy` accepts.
pub fn hierarchy_params() -> (rule: ParameterRule)
    ensures
        rule@ == hierarchy_rule(),
{
    let mut rule = ParameterRule::new();
    rule.insert("geonameId", free());
    rule
}

/// What `Neighbours` accepts.
pub open spec fn neighbours_rule() -> Map<Seq<char>, Seq<Seq<char>>> {
    Map::empty()
        .insert("geonameId"@, any_value())
        .insert("country"@, any_value())
}

/// What `Neighbours` accepts.
pub fn neighbours_params() -> (rule: ParameterRule)
    ensures
        rule@ == neighbours_rule(),
{
    let mut rule = ParameterRule::new();
    rule.insert("geonameId", free());
    rule.insert("country", free());
    rule
}

/// What `Ocean` accepts.
pub open spec fn ocean_rule() -> Map<Seq<char>, Seq<Seq<char>>> {
    Map::empty()
        .insert("lat"@, any_value())
        .insert("lng"@, any_value())
        .insert("radius"@, any_value())
}

/// What `Ocean` accepts.
pub fn ocean_params() -> (rule: ParameterRule)
    ensures
        rule@ == ocean_rule(),
{
    let mut rule = ParameterRule::new();
    rule.insert("lat", free());
    rule.insert("lng", free());
    rule.insert("radius", free());
    rule
}

/// What `PostalCodeLookup` accepts.
pub open spec fn postal_code_lookup_rule() -> Map<Seq<char>, Seq<Seq<char>>> {
    Map::empty()
        .insert("postalcode"@, any_value())
        .insert("country"@, any_value())
        .insert("maxRows"@, any_value())
        .insert("charset"@, any_value())
}

/// What `PostalCodeLookup` accepts.
pub fn postal_code_lookup_params() -> (rule: ParameterRule)
    ensures
        rule@ == postal_code_lookup_rule(),
{
    let mut rule = ParameterRule::new();
    rule.insert("postalcode", free());
    rule.insert("country", free());
    rule.insert("maxRows", free());
    rule.insert("charset", free());
    rule
}

/// What `PostalCodeSearch` accepts.
pub open spec fn postal_code_search_rule() -> Map<Seq<char>, Seq<Seq<char>>> {
    Map::empty()
        .insert("postalcode"@, any_value())
        .insert("postalcode_startsWith"@, any_value())
        .insert("placename"@, any_value())
        .insert("placename_startsWith"@, any_value())
        .insert("country"@, any_value())
        .insert("countryBias"@, any_value())
        .insert("maxRows"@, any_value())
        .insert("style"@, style_values())
        .insert("operator"@, operator_values())
        .insert("charset"@, any_value())
        .insert("isReduced"@, flag_values())
}

/// What `PostalCodeSearch` accepts.
pub fn postal_code_search_params() -> (rule: ParameterRule)
    ensures
        rule@ == postal_code_search_rule(),
{
    let mut rule = ParameterRule::new();
    rule.insert("postalcode", free());
    rule.insert("postalcode_startsWith", free());
    rule.insert("placename", free());
    rule.insert("placename_startsWith", free());
    rule.insert("country", free());
    rule.insert("countryBias", free());
    rule.insert("maxRows", free());
    rule.insert("style", styles());
    rule.insert("operator", operators());
    rule.insert("charset", free());
    rule.insert("isReduced", flags());
    rule
}

/// What `Search` accepts.
pub open spec fn search_rule() -> Map<Seq<char>, Seq<Seq<char>>> {
    Map::empty()
        .insert("q"@, any_value())
        .insert("name"@, any_value())
        .insert("name_equals"@, any_value())
        .insert("name_startsWith"@, any_value())
        .insert("maxRows"@, any_value())
        .insert("startRow"@, any_value())
        .insert("country"@, any_value())
        .insert("countryBias"@, any_value())
        .insert("continentCode"@, any_value())
        .insert("adminCode1"@, any_value())
        .insert("adminCode2"@, any_value())
        .insert("adminCode3"@, any_value())
        .insert("adminCode4"@, any_value())
        .insert("adminCode5"@, any_value())
        .insert("featureClass"@, any_value())
        .insert("featureCode"@, any_value())
        .insert("cities"@, any_value())
        .insert("lang"@, any_value())
        .insert("type"@, any_value())
        .insert("style"@, any_value())
        .insert("isNameRequired"@, any_value())
        .insert("tag"@, any_value())
        .insert("operator"@, any_value())
        .insert("charset"@, any_value())
        .insert("fuzzy"@, any_value())
        .insert("north"@, any_value())
        .insert("south"@, any_value())
        .insert("east"@, any_value())
        .insert("west"@, any_value())
        .insert("searchlang"@, any_value())
        .insert("orderby"@, any_value())
        .insert("inclBbox"@, any_value())
}

/// What `Search` accepts.
pub fn search_params() -> (rule: ParameterRule)
    ensures
        rule@ == search_rule(),
{
    let mut rule = ParameterRule::new();
    rule.insert("q", free());
    rule.insert("name", free());
    rule.insert("name_equals", free());
    rule.insert("name_startsWith", free());
    rule.insert("maxRows", free());
    rule.insert("startRow", free());
    rule.insert("country", free());
    rule.insert("countryBias", free());
    rule.insert("continentCode", free());
    rule.insert("adminCode1", free());
    rule.insert("adminCode2", free());
    rule.insert("adminCode3", free());
    rule.insert("adminCode4", free());
    rule.insert("adminCode5", free());
    rule.insert("featureClass", free());
    rule.insert("featureCode", free());
    rule.insert("cities", free());
    rule.insert("lang", free());
    rule.insert("type", free());
    rule.insert("style", free());
    rule.insert("isNameRequired", free());
    rule.insert("tag", free());
    rule.insert("operator", free());
    rule.insert("charset", free());
    rule.insert("fuzzy", free());
    rule.insert("north", free());
    rule.insert("south", free());
    rule.insert("east", free());
    rule.insert("west", free());
    rule.insert("searchlang", free());
    rule.insert("orderby", free());
    rule.insert("inclBbox", free());
    rule
}

/// What `Siblings` accepts.
pub open spec fn siblings_rule() -> Map<Seq<char>, Seq<Seq<char>>> {
    Map::empty()
        .insert("geonameId"@, any_value())
}

/// What `Siblings` accepts.
pub fn siblings_params() -> (rule: ParameterRule)
    ensures
        rule@ == siblings_rule(),
{
    let mut rule = ParameterRule::new();
    rule.insert("geonameId", free());
    rule
}

/// What `Srtm1` accepts.
pub open spec fn srtm1_rule() -> Map<Seq<char>, Seq<Seq<char>>> {
    Map::empty()
        .insert("lat"@, any_value())
        .insert("lng"@, any_value())
}

/// What `Srtm1` accepts.
pub fn srtm1_params() -> (rule: ParameterRule)
    ensures
        rule@ == srtm1_rule(),
{
    let mut rule = ParameterRule::new();
    rule.insert("lat", free());
    rule.insert("lng", free());
    rule
}

/// What `Srtm3` accepts.
pub open spec fn srtm3_rule() -> Map<Seq<char>, Seq<Seq<char>>> {
    Map::empty()
        .insert("lat"@, any_value())
        .insert("lng"@, any_value())
}

/// What `Srtm3` accepts.
pub fn srtm3_params() -> (rule: ParameterRule)
    ensures
        rule@ == srtm3_rule(),
{
    let mut rule = ParameterRule::new();
    rule.insert("lat", free());
    rule.insert("lng", free());
    rule
}

/// What `Timezone` accepts.
pub open spec fn timezone_rule() -> Map<Seq<char>, Seq<Seq<char>>> {
    Map::empty()
        .insert("lat"@, any_value())
        .insert("lng"@, any_value())
        .insert("radius"@, any_value())
        .insert("lang"@, any_value())
        .insert("date"@, any_value())
}

/// What `Timezone` accepts.
pub fn timezone_params() -> (rule: ParameterRule)
    ensures
        rule@ == timezone_rule(),
{
    let mut rule = ParameterRule::new();
    rule.insert("lat", free());
    rule.insert("lng", free());
    rule.insert("radius", free());
    rule.insert("lang", free());
    rule.insert("date", free());
    rule
}

/// What `Weather` accepts.
pub open spec fn weather_rule() -> Map<Seq<char>, Seq<Seq<char>>> {
    Map::empty()
        .insert("north"@, any_value())
        .insert("south"@, any_value())
        .insert("east"@, any_value())
        .insert("west"@, any_value())
        .insert("maxRows"@, any_value())
}

/// What `Weather` accepts.
pub fn weather_params() -> (rule: ParameterRule)
    ensures
        rule@ == weather_rule(),
{
    let mut rule = ParameterRule::new();
    rule.insert("north", free());
    rule.insert("south", free());
    rule.insert("east", free());
    rule.insert("west", free());
    rule.insert("maxRows", free());
    rule
}

/// What `WeatherIcao` accepts.
pub open spec fn weather_icao_rule() -> Map<Seq<char>, Seq<Seq<char>>> {
    Map::empty()
        .insert("ICAO"@, any_value())
}

/// What `WeatherIcao` accepts.
pub fn weather_icao_params() -> (rule: ParameterRule)
    ensures
        rule@ == weather_icao_rule(),
{
    let mut rule = ParameterRule::new();
    rule.insert("ICAO", free());
    rule
}

/// What each endpoint accepts. `None` stands for an endpoint that takes no
/// parameters at all.
pub open spec fn allowed_rule(api: GeoNamesApi) -> Option<Map<Seq<char>, Seq<Seq<char>>>> {
    match api {
        GeoNamesApi::Astergdem => Some(astergdem_rule()),
        GeoNamesApi::Children => Some(children_rule()),
        GeoNamesApi::Cities => Some(cities_rule()),
        GeoNamesApi::Contains => Some(contains_rule()),
        GeoNamesApi::CountryCode => Some(country_code_rule()),
        GeoNamesApi::CountryInfo => Some(country_info_rule()),
        GeoNamesApi::CountrySubdivision => Some(country_subdivision_rule()),
        GeoNamesApi::Earthquakes => Some(earthquakes_rule()),
        GeoNamesApi::FindNearby => Some(find_nearby_rule()),
        GeoNamesApi::FindNearbyPlaceName => Some(find_nearby_place_name_rule()),
        GeoNamesApi::FindNearbyPostalCodes => Some(find_nearby_postal_codes_rule()),
        GeoNamesApi::FindNearbyStreetsOsm => Some(find_nearby_streets_osm_rule()),
        GeoNamesApi::FindNearByWeather => Some(find_near_by_weather_rule()),
        GeoNamesApi::FindNearbyWikipedia => Some(find_nearby_wikipedia_rule()),
        GeoNamesApi::FindNearestIntersectionOsm => None,
        GeoNamesApi::FindNearbyPoisOsm => Some(find_nearby_pois_osm_rule()),
        GeoNamesApi::Address => Some(address_rule()),
        GeoNamesApi::GeoCodeAddress => Some(geo_code_address_rule()),
        GeoNamesApi::StreetNameLookup => Some(street_name_lookup_rule()),
        GeoNamesApi::Get => Some(get_rule()),
        GeoNamesApi::Gtopo30 => Some(gtopo30_rule()),
        GeoNamesApi::Hierarchy => Some(hierarchy_rule()),
        GeoNamesApi::Neighbours => Some(neighbours_rule()),
        GeoNamesApi::Ocean => Some(ocean_rule()),
        GeoNamesApi::PostalCodeCountryInfo => None,
        GeoNamesApi::PostalCodeLookup => Some(postal_code_lookup_rule()),
        GeoNamesApi::PostalCodeSearch => Some(postal_code_search_rule()),
        GeoNamesApi::Search => Some(search_rule()),
        GeoNamesApi::Siblings => Some(siblings_rule()),
        GeoNamesApi::Srtm1 => Some(srtm1_rule()),
        GeoNamesApi::Srtm3 => Some(srtm3_rule()),
        GeoNamesApi::Timezone => Some(timezone_rule()),
        GeoNamesApi::Weather => Some(weather_rule()),
        GeoNamesApi::WeatherIcao => Some(weather_icao_rule()),
        GeoNamesApi::WikipediaBoundingBox => None,
        GeoNamesApi::WikipediaSearch => None,
    }
}

/// What `api` accepts. `None` stands for an endpoint that takes no parameters
/// at all.
pub fn rule_for(api: GeoNamesApi) -> (rule: Option<ParameterRule>)
    ensures
        match rule {
            Some(rule) => allowed_rule(api) == Some(rule@),
            None => allowed_rule(api) is None,
        },
{
    match api {
        GeoNamesApi::Astergdem => Some(astergdem_params()),
        GeoNamesApi::Children => Some(children_params()),
        GeoNamesApi::Cities => Some(cities_params()),
        GeoNamesApi::Contains => Some(contains_params()),
        GeoNamesApi::CountryCode => Some(country_code_params()),
        GeoNamesApi::CountryInfo => Some(country_info_params()),
        GeoNamesApi::CountrySubdivision => Some(country_subdivision_params()),
        GeoNamesApi::Earthquakes => Some(earthquakes_params()),
        GeoNamesApi::FindNearby => Some(find_nearby_params()),
        GeoNamesApi::FindNearbyPlaceName => Some(find_nearby_place_name_params()),
        GeoNamesApi::FindNearbyPostalCodes => Some(find_nearby_postal_codes_params()),
        GeoNamesApi::FindNearbyStreetsOsm => Some(find_nearby_streets_osm_params()),
        GeoNamesApi::FindNearByWeather => Some(find_near_by_weather_params()),
        GeoNamesApi::FindNearbyWikipedia => Some(find_nearby_wikipedia_params()),
        GeoNamesApi::FindNearestIntersectionOsm => None,
        GeoNamesApi::FindNearbyPoisOsm => Some(find_nearby_pois_osm_params()),
        GeoNamesApi::Address => Some(address_params()),
        GeoNamesApi::GeoCodeAddress => Some(geo_code_address_params()),
        GeoNamesApi::StreetNameLookup => Some(street_name_lookup_params()),
        GeoNamesApi::Get => Some(get_params()),
        GeoNamesApi::Gtopo30 => Some(gtopo30_params()),
        GeoNamesApi::Hierarchy => Some(hierarchy_params()),
        GeoNamesApi::Neighbours => Some(neighbours_params()),
        GeoNamesApi::Ocean => Some(ocean_params()),
        GeoNamesApi::PostalCodeCountryInfo => None,
        GeoNamesApi::PostalCodeLookup => Some(postal_code_lookup_params()),
        GeoNamesApi::PostalCodeSearch => Some(postal_code_search_params()),
        GeoNamesApi::Search => Some(search_params()),
        GeoNamesApi::Siblings => Some(siblings_params()),
        GeoNamesApi::Srtm1 => Some(srtm1_params()),
        GeoNamesApi::Srtm3 => Some(srtm3_params()),
        GeoNamesApi::Timezone => Some(timezone_params()),
        GeoNamesApi::Weather => Some(weather_params()),
        GeoNamesApi::WeatherIcao => Some(weather_icao_params()),
        GeoNamesApi::WikipediaBoundingBox => None,
        GeoNamesApi::WikipediaSearch => None,
    }
}

} // verus!
