use geonames_rs::{ApiClient, CallParameters, GeoNamesApi};

const USERNAME: &str = "demo";

#[test]
fn address_of_astergdem() {
    let client = ApiClient::new(GeoNamesApi::Astergdem, USERNAME, None);
    let mut params = CallParameters::new();
    params.insert("lat", "47.03");
    params.insert("lng", "10.02");

    let url = client.request_url(Some(params)).unwrap();
    assert_eq!(
        url,
        "https://secure.geonames.org/astergdemJSON?lat=47.03&lng=10.02&username=demo"
    );
}

#[test]
fn address_of_cities() {
    let client = ApiClient::new(GeoNamesApi::Cities, USERNAME, None);
    let mut params = CallParameters::new();
    params.insert("north", "44.1");
    params.insert("south", "-9.9");
    params.insert("east", "-22.4");
    params.insert("west", "55.2");
    params.insert("maxRows", "1");

    let url = client.request_url(Some(params)).unwrap();
    assert_eq!(
        url,
        "https://secure.geonames.org/citiesJSON?north=44.1&south=-9.9&east=-22.4&west=55.2&maxRows=1&username=demo"
    );
}

#[test]
fn address_of_country_info() {
    let client = ApiClient::new(GeoNamesApi::CountryInfo, USERNAME, None);
    let mut params = CallParameters::new();
    params.insert("country", "NL");

    let url = client.request_url(Some(params)).unwrap();
    assert_eq!(
        url,
        "https://secure.geonames.org/countryInfoJSON?country=NL&username=demo"
    );
}

#[test]
fn address_of_country_subvision() {
    let client = ApiClient::new(GeoNamesApi::CountrySubdivision, USERNAME, None);
    let mut params = CallParameters::new();
    params.insert("lat", "47.03");
    params.insert("lng", "10.2");

    let url = client.request_url(Some(params)).unwrap();
    assert_eq!(
        url,
        "https://secure.geonames.org/countrySubdivisionJSON?lat=47.03&lng=10.2&username=demo"
    );
}

#[test]
fn address_of_earthquakes() {
    let client = ApiClient::new(GeoNamesApi::Earthquakes, USERNAME, None);
    let mut params = CallParameters::new();
    params.insert("north", "44.1");
    params.insert("south", "-9.9");
    params.insert("east", "-22.4");
    params.insert("west", "55.2");
    params.insert("maxRows", "1");

    let url = client.request_url(Some(params)).unwrap();
    assert_eq!(
        url,
        "https://secure.geonames.org/earthquakesJSON?north=44.1&south=-9.9&east=-22.4&west=55.2&maxRows=1&username=demo"
    );
}

#[test]
fn address_of_find_nearby_postal_codes() {
    let client = ApiClient::new(GeoNamesApi::FindNearbyPostalCodes, USERNAME, None);
    let mut params = CallParameters::new();
    params.insert("lat", "47");
    params.insert("lng", "9");
    params.insert("maxRows", "1");

    let url = client.request_url(Some(params)).unwrap();
    assert_eq!(
        url,
        "https://secure.geonames.org/findNearbyPostalCodesJSON?lat=47&lng=9&maxRows=1&username=demo"
    );
}

#[test]
fn address_of_find_nearby_by_weather() {
    let client = ApiClient::new(GeoNamesApi::FindNearByWeather, USERNAME, None);
    let mut params = CallParameters::new();
    params.insert("lat", "43");
    params.insert("lng", "-2");

    let url = client.request_url(Some(params)).unwrap();
    assert_eq!(
        url,
        "https://secure.geonames.org/findNearByWeatherJSON?lat=43&lng=-2&username=demo"
    );
}

#[test]
fn address_of_find_nearby_by_wikipedia() {
    let client = ApiClient::new(GeoNamesApi::FindNearbyWikipedia, USERNAME, None);
    let mut params = CallParameters::new();
    params.insert("lat", "47");
    params.insert("lng", "9");
    params.insert("maxRows", "1");

    let url = client.request_url(Some(params)).unwrap();
    assert_eq!(
        url,
        "https://secure.geonames.org/findNearbyWikipediaJSON?lat=47&lng=9&maxRows=1&username=demo"
    );
}

#[test]
fn address_of_get() {
    let client = ApiClient::new(GeoNamesApi::Get, USERNAME, None);
    let mut params = CallParameters::new();
    params.insert("geonameId", "2746385");

    let url = client.request_url(Some(params)).unwrap();
    assert_eq!(
        url,
        "https://secure.geonames.org/getJSON?geonameId=2746385&username=demo"
    );
}

#[test]
fn address_of_gtopo30() {
    let client = ApiClient::new(GeoNamesApi::Gtopo30, USERNAME, None);
    let mut params = CallParameters::new();
    params.insert("lat", "47.01");
    params.insert("lng", "10.02");

    let url = client.request_url(Some(params)).unwrap();
    assert_eq!(
        url,
        "https://secure.geonames.org/gtopo30JSON?lat=47.01&lng=10.02&username=demo"
    );
}

#[test]
fn address_of_postal_code_lookup() {
    let client = ApiClient::new(GeoNamesApi::PostalCodeLookup, USERNAME, None);
    let mut params = CallParameters::new();
    params.insert("postalcode", "6600");
    params.insert("country", "AT");
    params.insert("maxRows", "1");

    let url = client.request_url(Some(params)).unwrap();
    assert_eq!(
        url,
        "https://secure.geonames.org/postalCodeLookupJSON?postalcode=6600&country=AT&maxRows=1&username=demo"
    );
}

#[test]
fn address_of_postal_code_search() {
    let client = ApiClient::new(GeoNamesApi::PostalCodeSearch, USERNAME, None);
    let mut params = CallParameters::new();
    params.insert("postalcode", "1033 SC");

    let url = client.request_url(Some(params)).unwrap();
    assert_eq!(
        url,
        "https://secure.geonames.org/postalCodeSearchJSON?postalcode=1033+SC&username=demo"
    );
}
