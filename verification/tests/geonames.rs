use geonames_rs::{
    Address, AddressResponse, AdminCodes1, ApiClient, CallParameters, ChildrenResponse,
    ContainsResponse, CountryCodeResponse, FindNearbyByPoisOsmResponse,
    FindNearbyPlaceResponse, FindNearbyResponse, FindNearbyStreetsOSMResponse, GeoCodeAddress,
    GeoCodeAddressResponse, GeoNamesApi, Geoname, GeonameHierarchy, GeonameNearbyPlace,
    HierarchyResponse, NeighboursGeoname, NeighboursResponse, Ocean, OceanResponse, Poi,
    PostalCodeCountryInfoGeoname, PostalCodeCountryInfoResponse, StreetNameLookupAddress,
    StreetNameLookupResponse, StreetSegment, read_response,
};

const USERNAME: &str = "demo";

#[test]
fn call_api_children() {
    let client = ApiClient::new(GeoNamesApi::Children, USERNAME, None);
    let mut params = CallParameters::new();
    params.insert("geonameId", "3175395");
    params.insert("maxRows", "1");

    let url = client.request_url(Some(params)).unwrap();
    assert_eq!(
        url,
        "https://secure.geonames.org/childrenJSON?geonameId=3175395&maxRows=1&username=demo"
    );

    let body = r#"{"totalResultsCount": 20, "geonames": [{"adminCode1": "16", "lng": "11", "geonameId": 3165361, "toponymName": "Toscana", "countryId": "3175395", "adminCodes1": {"ISO3166_2": "52"}, "countryName": "Italy", "fcodeName": "first-order administrative division", "adminName1": "Tuscany", "lat": "43.41667", "fcode": "ADM1", "fcl": "A", "population": 3729641, "countryCode": "IT", "name": "Tuscany", "fclName": "country, state, region,..."}]}"#;
    let result: ChildrenResponse = read_response(Ok(body.as_bytes().to_vec())).unwrap();

    let expected_result = ChildrenResponse {
        total_results_count: 20,
        geonames: vec![Geoname {
            admin_code_1: "16".to_string(),
            lng: "11".to_string(),
            geoname_id: 3165361,
            toponym_name: "Toscana".to_string(),
            country_id: "3175395".to_string(),
            admin_codes1: AdminCodes1 {
                iso3166_2: "52".to_string(),
            },
            country_name: "Italy".to_string(),
            fcode_name: "first-order administrative division".to_string(),
            admin_name1: "Tuscany".to_string(),
            lat: "43.41667".to_string(),
            fcode: "ADM1".to_string(),
            fcl: "A".to_string(),
            population: 3729641,
            country_code: "IT".to_string(),
            name: "Tuscany".to_string(),
            fcl_name: "country, state, region,...".to_string(),
        }],
    };

    assert_eq!(result, expected_result);
}

#[test]
fn call_api_contains() {
    let client = ApiClient::new(GeoNamesApi::Contains, USERNAME, None);
    let mut params = CallParameters::new();
    params.insert("geonameId", "2746385");
    params.insert("maxRows", "1");

    let url = client.request_url(Some(params)).unwrap();
    assert_eq!(
        url,
        "https://secure.geonames.org/containsJSON?geonameId=2746385&maxRows=1&username=demo"
    );

    let body = r#"{"geonames": [{"adminCode1": "07", "lng": "4.81667", "geonameId": 2749011, "toponymName": "Oude Schans", "countryId": "2750405", "adminCodes1": {"ISO3166_2": "NH"}, "countryName": "The Netherlands", "fcodeName": "populated place", "adminName1": "North Holland", "lat": "53.03333", "fcode": "PPL", "fcl": "P", "population": 0, "countryCode": "NL", "name": "Oude Schans", "fclName": "city, village,..."}]}"#;
    let result: ContainsResponse = read_response(Ok(body.as_bytes().to_vec())).unwrap();

    let expected_result = ContainsResponse {
        geonames: vec![Geoname {
            admin_code_1: "07".to_string(),
            lng: "4.81667".to_string(),
            geoname_id: 2749011,
            toponym_name: "Oude Schans".to_string(),
            country_id: "2750405".to_string(),
            admin_codes1: AdminCodes1 {
                iso3166_2: "NH".to_string(),
            },
            country_name: "The Netherlands".to_string(),
            fcode_name: "populated place".to_string(),
            admin_name1: "North Holland".to_string(),
            lat: "53.03333".to_string(),
            fcode: "PPL".to_string(),
            fcl: "P".to_string(),
            population: 0,
            country_code: "NL".to_string(),
            name: "Oude Schans".to_string(),
            fcl_name: "city, village,...".to_string(),
        }],
    };

    assert_eq!(result, expected_result);
}

#[test]
fn call_api_country_code() {
    let client = ApiClient::new(GeoNamesApi::CountryCode, USERNAME, None);
    let mut params = CallParameters::new();
    params.insert("lat", "47.03");
    params.insert("lng", "10.02");

    let url = client.request_url(Some(params)).unwrap();
    assert_eq!(
        url,
        "https://secure.geonames.org/countryCodeJSON?lat=47.03&lng=10.02&username=demo"
    );

    let body = r#"{"languages": "de-AT,hr,hu,sl", "distance": "0", "countryCode": "AT", "countryName": "Austria"}"#;
    let result: CountryCodeResponse = read_response(Ok(body.as_bytes().to_vec())).unwrap();

    let expected_result = CountryCodeResponse {
        languages: "de-AT,hr,hu,sl".to_string(),
        distance: "0".to_string(),
        country_code: "AT".to_string(),
        country_name: "Austria".to_string(),
    };
    assert_eq!(result, expected_result);
}

#[test]
fn call_api_find_nearby() {
    let client = ApiClient::new(GeoNamesApi::FindNearby, USERNAME, None);
    let mut params = CallParameters::new();
    params.insert("lat", "47.3");
    params.insert("lng", "9");
    params.insert("maxRows", "1");

    let url = client.request_url(Some(params)).unwrap();
    assert_eq!(
        url,
        "https://secure.geonames.org/findNearbyJSON?lat=47.3&lng=9&maxRows=1&username=demo"
    );

    let body = r#"{"geonames": [{"adminCode1": "SG", "lng": "8.99667", "geonameId": 11783836, "toponymName": "Habrüti", "countryId": "2658434", "adminCodes1": {"ISO3166_2": "SG"}, "countryName": "Switzerland", "fcodeName": "house(s)", "adminName1": "Saint Gallen", "lat": "47.30437", "fcode": "HSE", "fcl": "S", "population": 0, "countryCode": "CH", "name": "Habrüti", "fclName": "spot, building, farm"}]}"#;
    let result: FindNearbyResponse = read_response(Ok(body.as_bytes().to_vec())).unwrap();

    let expected_result = FindNearbyResponse {
        geonames: vec![Geoname {
            admin_code_1: "SG".to_string(),
            lng: "8.99667".to_string(),
            geoname_id: 11783836,
            toponym_name: "Habrüti".to_string(),
            country_id: "2658434".to_string(),
            admin_codes1: AdminCodes1 {
                iso3166_2: "SG".to_string(),
            },
            country_name: "Switzerland".to_string(),
            fcode_name: "house(s)".to_string(),
            admin_name1: "Saint Gallen".to_string(),
            lat: "47.30437".to_string(),
            fcode: "HSE".to_string(),
            fcl: "S".to_string(),
            population: 0,
            country_code: "CH".to_string(),
            name: "Habrüti".to_string(),
            fcl_name: "spot, building, farm".to_string(),
        }],
    };
    assert_eq!(result, expected_result);
}

#[test]
fn call_api_find_nearby_place_name() {
    let client = ApiClient::new(GeoNamesApi::FindNearbyPlaceName, USERNAME, None);
    let mut params = CallParameters::new();
    params.insert("lat", "47.3");
    params.insert("lng", "9");
    params.insert("maxRows", "1");

    let url = client.request_url(Some(params)).unwrap();
    assert_eq!(
        url,
        "https://secure.geonames.org/findNearbyPlaceNameJSON?lat=47.3&lng=9&maxRows=1&username=demo"
    );

    let body = r#"{"geonames": [{"adminCode1": "SG", "lng": "9.01488", "geonameId": 7910950, "toponymName": "Chrüzegg", "countryId": "2658434", "adminCodes1": {"ISO3166_2": "SG"}, "countryName": "Switzerland", "fcodeName": "section of populated place", "adminName1": "Saint Gallen", "lat": "47.2985", "fcode": "PPLX", "fcl": "P", "population": 0, "countryCode": "CH", "name": "Chrüzegg", "fclName": "city, village,...", "distance": "1.1379"}]}"#;
    let result: FindNearbyPlaceResponse = read_response(Ok(body.as_bytes().to_vec())).unwrap();

    let expected_result = FindNearbyPlaceResponse {
        geonames: vec![GeonameNearbyPlace {
            admin_code_1: "SG".to_string(),
            lng: "9.01488".to_string(),
            geoname_id: 7910950,
            toponym_name: "Chrüzegg".to_string(),
            country_id: "2658434".to_string(),
            admin_codes1: AdminCodes1 {
                iso3166_2: "SG".to_string(),
            },
            country_name: "Switzerland".to_string(),
            fcode_name: "section of populated place".to_string(),
            admin_name1: "Saint Gallen".to_string(),
            lat: "47.2985".to_string(),
            fcode: "PPLX".to_string(),
            fcl: "P".to_string(),
            population: 0,
            country_code: "CH".to_string(),
            name: "Chrüzegg".to_string(),
            fcl_name: "city, village,...".to_string(),
            distance: "1.1379".to_string(),
        }],
    };
    assert_eq!(result, expected_result);
}

#[test]
fn call_api_find_nearby_streets_osm() {
    let client = ApiClient::new(GeoNamesApi::FindNearbyStreetsOsm, USERNAME, None);
    let mut params = CallParameters::new();
    params.insert("lat", "37.451");
    params.insert("lng", "-122.18");
    params.insert("maxRows", "1");

    let url = client.request_url(Some(params)).unwrap();
    assert_eq!(
        url,
        "https://secure.geonames.org/findNearbyStreetsOSMJSON?lat=37.451&lng=-122.18&maxRows=1&username=demo"
    );

    let body = r#"{"streetSegment": {"wayId": "8928471", "distance": "0.06", "line": "-122.1796917 37.4520107,-122.1798016 37.4518965,-122.1799937 37.4516636,-122.1801139 37.4515178,-122.1808293 37.4506505,-122.180988 37.4504593,-122.1817112 37.4495966,-122.1822516 37.4489518,-122.1831946 37.4478272,-122.1832534 37.4477571", "countryCode": "US", "name": "Roble Avenue", "highway": "residential"}}"#;
    let result: FindNearbyStreetsOSMResponse = read_response(Ok(body.as_bytes().to_vec())).unwrap();

    let expected_result = FindNearbyStreetsOSMResponse {
        street_segment: StreetSegment {
            way_id: "8928471".to_string(),
            distance: "0.06".to_string(),
            line: "-122.1796917 37.4520107,-122.1798016 37.4518965,-122.1799937 37.4516636,-122.1801139 37.4515178,-122.1808293 37.4506505,-122.180988 37.4504593,-122.1817112 37.4495966,-122.1822516 37.4489518,-122.1831946 37.4478272,-122.1832534 37.4477571".to_string(),
            country_code: "US".to_string(),
            name: "Roble Avenue".to_string(),
            highway: "residential".to_string(),
        },
    };
    assert_eq!(result, expected_result);
}

#[test]
fn call_api_find_nearby_pois_osm() {
    let client = ApiClient::new(GeoNamesApi::FindNearbyPoisOsm, USERNAME, None);
    let mut params = CallParameters::new();
    params.insert("lat", "37.451");
    params.insert("lng", "-122.18");
    params.insert("maxRows", "1");

    let url = client.request_url(Some(params)).unwrap();
    assert_eq!(
        url,
        "https://secure.geonames.org/findNearbyPOIsOSMJSON?lat=37.451&lng=-122.18&maxRows=1&username=demo"
    );

    let body = r#"{"poi": {"lng": "-122.18023", "distance": "0.04", "name": "", "typeClass": "amenity", "typeName": "fire_hydrant", "lat": "37.45131"}}"#;
    let result: FindNearbyByPoisOsmResponse = read_response(Ok(body.as_bytes().to_vec())).unwrap();

    let expected_result = FindNearbyByPoisOsmResponse {
        poi: Poi {
            lng: "-122.18023".to_string(),
            distance: "0.04".to_string(),
            name: "".to_string(),
            type_class: "amenity".to_string(),
            ty_name: "fire_hydrant".to_string(),
            lat: "37.45131".to_string(),
        },
    };
    assert_eq!(result, expected_result);
}

#[test]
fn call_api_address() {
    let client = ApiClient::new(GeoNamesApi::Address, USERNAME, None);
    let mut params = CallParameters::new();
    params.insert("lat", "52.358");
    params.insert("lng", "4.881");

    let url = client.request_url(Some(params)).unwrap();
    assert_eq!(
        url,
        "https://secure.geonames.org/addressJSON?lat=52.358&lng=4.881&username=demo"
    );

    let body = r#"{"address": {"adminCode2": "0363", "sourceId": "0363200012086034", "adminCode3": "", "adminCode1": "07", "lng": "4.88132", "distance": "0.02", "houseNumber": "7", "locality": "Amsterdam", "adminCode4": "", "adminName2": "Gemeente Amsterdam", "street": "Paulus Potterstraat", "postalcode": "1071 CX", "countryCode": "NL", "adminName1": "North Holland", "lat": "52.35792"}}"#;
    let result: AddressResponse = read_response(Ok(body.as_bytes().to_vec())).unwrap();

    let expected_result = AddressResponse {
        address: Address {
            admin_code2: "0363".to_string(),
            source_id: "0363200012086034".to_string(),
            admin_code3: "".to_string(),
            admin_code1: "07".to_string(),
            lng: "4.88132".to_string(),
            distance: "0.02".to_string(),
            house_number: "7".to_string(),
            locality: "Amsterdam".to_string(),
            admin_code4: "".to_string(),
            admin_name2: "Gemeente Amsterdam".to_string(),
            street: "Paulus Potterstraat".to_string(),
            postalcode: "1071 CX".to_string(),
            country_code: "NL".to_string(),
            admin_name1: "North Holland".to_string(),
            lat: "52.35792".to_string(),
        },
    };
    assert_eq!(result, expected_result);
}

#[test]
fn call_api_geo_code_address() {
    let client = ApiClient::new(GeoNamesApi::GeoCodeAddress, USERNAME, None);
    let mut params = CallParameters::new();
    params.insert("q", "Museumplein 6 amsterdam");

    let url = client.request_url(Some(params)).unwrap();
    assert_eq!(
        url,
        "https://secure.geonames.org/geoCodeAddressJSON?q=Museumplein+6+amsterdam&username=demo"
    );

    let body = r#"{"address": {"adminCode2": "0047", "sourceId": "0047200000307407", "adminCode3": "", "adminCode1": "04", "lng": "6.87625", "houseNumber": "10", "locality": "Veendam", "adminCode4": "", "adminName2": "Veendam Municipality", "street": "Museumplein", "postalcode": "9641 AD", "countryCode": "NL", "adminName1": "Groningen", "lat": "53.10643"}}"#;
    let result: GeoCodeAddressResponse = read_response(Ok(body.as_bytes().to_vec())).unwrap();

    let expected_result = GeoCodeAddressResponse {
        address: GeoCodeAddress {
            admin_code2: "0047".to_string(),
            source_id: "0047200000307407".to_string(),
            admin_code3: "".to_string(),
            admin_code1: "04".to_string(),
            lng: "6.87625".to_string(),
            house_number: "10".to_string(),
            locality: "Veendam".to_string(),
            admin_code4: "".to_string(),
            admin_name2: "Veendam Municipality".to_string(),
            street: "Museumplein".to_string(),
            postalcode: "9641 AD".to_string(),
            country_code: "NL".to_string(),
            admin_name1: "Groningen".to_string(),
            lat: "53.10643".to_string(),
        },
    };
    assert_eq!(result, expected_result);
}

#[test]
fn call_api_street_name_lookup() {
    let client = ApiClient::new(GeoNamesApi::StreetNameLookup, USERNAME, None);
    let mut params = CallParameters::new();
    params.insert("q", "Museum");
    params.insert("adminCode2", "59350");
    params.insert("postalcode", "6635");

    let url = client.request_url(Some(params)).unwrap();
    assert_eq!(
        url,
        "https://secure.geonames.org/streetNameLookupJSON?q=Museum&adminCode2=59350&postalcode=6635&username=demo"
    );

    let body = r#"{"address": [{"adminCode2": "59350", "adminCode3": "", "adminCode1": "08", "lng": "116.68179", "houseNumber": "", "locality": "Yalgoo", "adminCode4": "", "adminName2": "Yalgoo", "street": "Museum Court", "postalcode": "6635", "countryCode": "AU", "adminName1": "Western Australia", "lat": "-28.3414"}]}"#;
    let result: StreetNameLookupResponse = read_response(Ok(body.as_bytes().to_vec())).unwrap();

    let expected_result = StreetNameLookupResponse {
        address: vec![StreetNameLookupAddress {
            admin_code2: "59350".to_string(),
            admin_code3: "".to_string(),
            admin_code1: "08".to_string(),
            lng: "116.68179".to_string(),
            house_number: "".to_string(),
            locality: "Yalgoo".to_string(),
            admin_code4: "".to_string(),
            admin_name2: "Yalgoo".to_string(),
            street: "Museum Court".to_string(),
            postalcode: "6635".to_string(),
            country_code: "AU".to_string(),
            admin_name1: "Western Australia".to_string(),
            lat: "-28.3414".to_string(),
        }],
    };
    assert_eq!(result, expected_result);
}

#[test]
fn call_api_hierarchy() {
    let client = ApiClient::new(GeoNamesApi::Hierarchy, USERNAME, None);
    let mut params = CallParameters::new();
    params.insert("geonameId", "2657896");

    let url = client.request_url(Some(params)).unwrap();
    assert_eq!(
        url,
        "https://secure.geonames.org/hierarchyJSON?geonameId=2657896&username=demo"
    );

    let body = r#"{"geonames": [{"lng": "0", "geonameId": 6295630, "name": "Earth", "fclName": "parks,area, ...", "toponymName": "Earth", "fcodeName": "area", "adminName1": "", "lat": "0", "fcl": "L", "fcode": "AREA", "population": 6814400000}, {"lng": "9.14062", "geonameId": 6255148, "name": "Europe", "fclName": "parks,area, ...", "toponymName": "Europe", "fcodeName": "continent", "adminName1": "", "lat": "48.69096", "fcl": "L", "fcode": "CONT", "population": 741000000}, {"adminCode1": "00", "lng": "8.01427", "geonameId": 2658434, "toponymName": "Switzerland", "countryId": "2658434", "fcl": "A", "population": 8516543, "countryCode": "CH", "name": "Switzerland", "fclName": "country, state, region,...", "countryName": "Switzerland", "fcodeName": "independent political entity", "adminName1": "", "lat": "47.00016", "fcode": "PCLI"}, {"adminCode1": "ZH", "lng": "8.66667", "geonameId": 2657895, "toponymName": "Kanton Zürich", "countryId": "2658434", "fcl": "A", "population": 1553423, "countryCode": "CH", "name": "Zurich", "fclName": "country, state, region,...", "adminCodes1": {"ISO3166_2": "ZH"}, "countryName": "Switzerland", "fcodeName": "first-order administrative division", "adminName1": "Zurich", "lat": "47.41667", "fcode": "ADM1"}, {"adminCode1": "ZH", "lng": "8.54323", "geonameId": 6458798, "toponymName": "Bezirk Zürich", "countryId": "2658434", "fcl": "A", "population": 421878, "countryCode": "CH", "name": "Zürich District", "fclName": "country, state, region,...", "adminCodes1": {"ISO3166_2": "ZH"}, "countryName": "Switzerland", "fcodeName": "second-order administrative division", "adminName1": "Zurich", "lat": "47.3711", "fcode": "ADM2"}, {"adminCode1": "ZH", "lng": "8.53071", "geonameId": 7287650, "toponymName": "Zürich", "countryId": "2658434", "fcl": "A", "population": 420217, "countryCode": "CH", "name": "Zurich", "fclName": "country, state, region,...", "adminCodes1": {"ISO3166_2": "ZH"}, "countryName": "Switzerland", "fcodeName": "third-order administrative division", "adminName1": "Zurich", "lat": "47.38283", "fcode": "ADM3"}, {"adminCode1": "ZH", "lng": "8.55", "geonameId": 2657896, "toponymName": "Zürich", "countryId": "2658434", "fcl": "P", "population": 341730, "countryCode": "CH", "name": "Zurich", "fclName": "city, village,...", "adminCodes1": {"ISO3166_2": "ZH"}, "countryName": "Switzerland", "fcodeName": "seat of a first-order administrative division", "adminName1": "Zurich", "lat": "47.36667", "fcode": "PPLA"}]}"#;
    let result: HierarchyResponse = read_response(Ok(body.as_bytes().to_vec())).unwrap();

    let expected_result = HierarchyResponse {
        geonames: vec![
            GeonameHierarchy {
                lng: "0".to_string(),
                geoname_id: 6295630,
                name: "Earth".to_string(),
                fcl_name: "parks,area, ...".to_string(),
                toponym_name: "Earth".to_string(),
                fcode_name: "area".to_string(),
                admin_name1: "".to_string(),
                lat: "0".to_string(),
                fcl: "L".to_string(),
                fcode: "AREA".to_string(),
                population: 6814400000,
                admin_code1: None,
                admin_codes1: None,
                country_id: None,
                country_name: None,
                country_code: None,
            },
            GeonameHierarchy {
                lng: "9.14062".to_string(),
                geoname_id: 6255148,
                name: "Europe".to_string(),
                fcl_name: "parks,area, ...".to_string(),
                toponym_name: "Europe".to_string(),
                fcode_name: "continent".to_string(),
                admin_name1: "".to_string(),
                lat: "48.69096".to_string(),
                fcl: "L".to_string(),
                fcode: "CONT".to_string(),
                population: 741000000,
                admin_code1: None,
                admin_codes1: None,
                country_id: None,
                country_name: None,
                country_code: None,
            },
            GeonameHierarchy {
                admin_code1: Some("00".to_string()),
                lng: "8.01427".to_string(),
                geoname_id: 2658434,
                toponym_name: "Switzerland".to_string(),
                country_id: Some("2658434".to_string()),
                fcl: "A".to_string(),
                population: 8516543,
                country_code: Some("CH".to_string()),
                name: "Switzerland".to_string(),
                fcl_name: "country, state, region,...".to_string(),
                country_name: Some("Switzerland".to_string()),
                fcode_name: "independent political entity".to_string(),
                admin_name1: "".to_string(),
                lat: "47.00016".to_string(),
                fcode: "PCLI".to_string(),
                admin_codes1: None,
            },
            GeonameHierarchy {
                admin_code1: Some("ZH".to_string()),
                lng: "8.66667".to_string(),
                geoname_id: 2657895,
                toponym_name: "Kanton Zürich".to_string(),
                country_id: Some("2658434".to_string()),
                fcl: "A".to_string(),
                population: 1553423,
                country_code: Some("CH".to_string()),
                name: "Zurich".to_string(),
                fcl_name: "country, state, region,...".to_string(),
                admin_codes1: Some(AdminCodes1 {
                    iso3166_2: "ZH".to_string(),
                }),
                country_name: Some("Switzerland".to_string()),
                fcode_name: "first-order administrative division".to_string(),
                admin_name1: "Zurich".to_string(),
                lat: "47.41667".to_string(),
                fcode: "ADM1".to_string(),
            },
            GeonameHierarchy {
                admin_code1: Some("ZH".to_string()),
                lng: "8.54323".to_string(),
                geoname_id: 6458798,
                toponym_name: "Bezirk Zürich".to_string(),
                country_id: Some("2658434".to_string()),
                fcl: "A".to_string(),
                population: 421878,
                country_code: Some("CH".to_string()),
                name: "Zürich District".to_string(),
                fcl_name: "country, state, region,...".to_string(),
                admin_codes1: Some(AdminCodes1 {
                    iso3166_2: "ZH".to_string(),
                }),
                country_name: Some("Switzerland".to_string()),
                fcode_name: "second-order administrative division".to_string(),
                admin_name1: "Zurich".to_string(),
                lat: "47.3711".to_string(),
                fcode: "ADM2".to_string(),
            },
            GeonameHierarchy {
                admin_code1: Some("ZH".to_string()),
                lng: "8.53071".to_string(),
                geoname_id: 7287650,
                toponym_name: "Zürich".to_string(),
                country_id: Some("2658434".to_string()),
                fcl: "A".to_string(),
                population: 420217,
                country_code: Some("CH".to_string()),
                name: "Zurich".to_string(),
                fcl_name: "country, state, region,...".to_string(),
                admin_codes1: Some(AdminCodes1 {
                    iso3166_2: "ZH".to_string(),
                }),
                country_name: Some("Switzerland".to_string()),
                fcode_name: "third-order administrative division".to_string(),
                admin_name1: "Zurich".to_string(),
                lat: "47.38283".to_string(),
                fcode: "ADM3".to_string(),
            },
            GeonameHierarchy {
                admin_code1: Some("ZH".to_string()),
                lng: "8.55".to_string(),
                geoname_id: 2657896,
                toponym_name: "Zürich".to_string(),
                country_id: Some("2658434".to_string()),
                fcl: "P".to_string(),
                population: 341730,
                country_code: Some("CH".to_string()),
                name: "Zurich".to_string(),
                fcl_name: "city, village,...".to_string(),
                admin_codes1: Some(AdminCodes1 {
                    iso3166_2: "ZH".to_string(),
                }),
                country_name: Some("Switzerland".to_string()),
                fcode_name: "seat of a first-order administrative division".to_string(),
                admin_name1: "Zurich".to_string(),
                lat: "47.36667".to_string(),
                fcode: "PPLA".to_string(),
            },
        ],
    };
    assert_eq!(result, expected_result);
}

#[test]
fn call_api_neighbours() {
    let client = ApiClient::new(GeoNamesApi::Neighbours, USERNAME, None);
    let mut params = CallParameters::new();
    params.insert("geonameId", "2658434");

    let url = client.request_url(Some(params)).unwrap();
    assert_eq!(
        url,
        "https://secure.geonames.org/neighboursJSON?geonameId=2658434&username=demo"
    );

    let body = r#"{"totalResultsCount": 5, "geonames": [{"adminCode1": "00", "lng": "13.33333", "geonameId": 2782113, "toponymName": "Republic of Austria", "countryId": "2782113", "fcl": "A", "population": 8847037, "countryCode": "AT", "name": "Austria", "fclName": "country, state, region,...", "countryName": "Austria", "fcodeName": "independent political entity", "adminName1": "", "lat": "47.33333", "fcode": "PCLI"}, {"adminCode1": "00", "lng": "2", "geonameId": 3017382, "toponymName": "Republic of France", "countryId": "3017382", "fcl": "A", "population": 66987244, "countryCode": "FR", "name": "France", "fclName": "country, state, region,...", "countryName": "France", "fcodeName": "independent political entity", "adminName1": "", "lat": "46", "fcode": "PCLI"}, {"adminCode1": "00", "lng": "10.5", "geonameId": 2921044, "toponymName": "Federal Republic of Germany", "countryId": "2921044", "fcl": "A", "population": 82927922, "countryCode": "DE", "name": "Germany", "fclName": "country, state, region,...", "countryName": "Germany", "fcodeName": "independent political entity", "adminName1": "", "lat": "51.5", "fcode": "PCLI"}, {"adminCode1": "00", "lng": "12.83333", "geonameId": 3175395, "toponymName": "Italian Republic", "countryId": "3175395", "fcl": "A", "population": 60431283, "countryCode": "IT", "name": "Italy", "fclName": "country, state, region,...", "countryName": "Italy", "fcodeName": "independent political entity", "adminName1": "", "lat": "42.83333", "fcode": "PCLI"}, {"adminCode1": "00", "lng": "9.53333", "geonameId": 3042058, "toponymName": "Principality of Liechtenstein", "countryId": "3042058", "fcl": "A", "population": 37910, "countryCode": "LI", "name": "Liechtenstein", "fclName": "country, state, region,...", "countryName": "Liechtenstein", "fcodeName": "independent political entity", "adminName1": "", "lat": "47.16667", "fcode": "PCLI"}]}"#;
    let result: NeighboursResponse = read_response(Ok(body.as_bytes().to_vec())).unwrap();

    let expected_response = NeighboursResponse {
        total_results_count: 5,
        geonames: vec![
            NeighboursGeoname {
                admin_code1: "00".to_string(),
                lng: "13.33333".to_string(),
                geoname_id: 2782113,
                toponym_name: "Republic of Austria".to_string(),
                country_id: "2782113".to_string(),
                fcl: "A".to_string(),
                population: 8847037,
                country_code: "AT".to_string(),
                name: "Austria".to_string(),
                fcl_name: "country, state, region,...".to_string(),
                country_name: "Austria".to_string(),
                fcode_name: "independent political entity".to_string(),
                admin_name1: "".to_string(),
                lat: "47.33333".to_string(),
                fcode: "PCLI".to_string(),
            },
            NeighboursGeoname {
                admin_code1: "00".to_string(),
                lng: "2".to_string(),
                geoname_id: 3017382,
                toponym_name: "Republic of France".to_string(),
                country_id: "3017382".to_string(),
                fcl: "A".to_string(),
                population: 66987244,
                country_code: "FR".to_string(),
                name: "France".to_string(),
                fcl_name: "country, state, region,...".to_string(),
                country_name: "France".to_string(),
                fcode_name: "independent political entity".to_string(),
                admin_name1: "".to_string(),
                lat: "46".to_string(),
                fcode: "PCLI".to_string(),
            },
            NeighboursGeoname {
                admin_code1: "00".to_string(),
                lng: "10.5".to_string(),
                geoname_id: 2921044,
                toponym_name: "Federal Republic of Germany".to_string(),
                country_id: "2921044".to_string(),
                fcl: "A".to_string(),
                population: 82927922,
                country_code: "DE".to_string(),
                name: "Germany".to_string(),
                fcl_name: "country, state, region,...".to_string(),
                country_name: "Germany".to_string(),
                fcode_name: "independent political entity".to_string(),
                admin_name1: "".to_string(),
                lat: "51.5".to_string(),
                fcode: "PCLI".to_string(),
            },
            NeighboursGeoname {
                admin_code1: "00".to_string(),
                lng: "12.83333".to_string(),
                geoname_id: 3175395,
                toponym_name: "Italian Republic".to_string(),
                country_id: "3175395".to_string(),
                fcl: "A".to_string(),
                population: 60431283,
                country_code: "IT".to_string(),
                name: "Italy".to_string(),
                fcl_name: "country, state, region,...".to_string(),
                country_name: "Italy".to_string(),
                fcode_name: "independent political entity".to_string(),
                admin_name1: "".to_string(),
                lat: "42.83333".to_string(),
                fcode: "PCLI".to_string(),
            },
            NeighboursGeoname {
                admin_code1: "00".to_string(),
                lng: "9.53333".to_string(),
                geoname_id: 3042058,
                toponym_name: "Principality of Liechtenstein".to_string(),
                country_id: "3042058".to_string(),
                fcl: "A".to_string(),
                population: 37910,
                country_code: "LI".to_string(),
                name: "Liechtenstein".to_string(),
                fcl_name: "country, state, region,...".to_string(),
                country_name: "Liechtenstein".to_string(),
                fcode_name: "independent political entity".to_string(),
                admin_name1: "".to_string(),
                lat: "47.16667".to_string(),
                fcode: "PCLI".to_string(),
            },
        ],
    };
    assert_eq!(result, expected_response);
}

#[test]
fn call_api_ocean() {
    let client = ApiClient::new(GeoNamesApi::Ocean, USERNAME, None);
    let mut params = CallParameters::new();
    params.insert("lat", "40.7834");
    params.insert("lng", "-43.96635");

    let url = client.request_url(Some(params)).unwrap();
    assert_eq!(
        url,
        "https://secure.geonames.org/oceanJSON?lat=40.7834&lng=-43.96635&username=demo"
    );

    let body = r#"{"ocean": {"distance": "0", "geonameId": 3411923, "name": "North Atlantic Ocean"}}"#;
    let result: OceanResponse = read_response(Ok(body.as_bytes().to_vec())).unwrap();

    let expected_response = OceanResponse {
        ocean: Ocean {
            distance: "0".to_string(),
            geoname_id: 3411923,
            name: "North Atlantic Ocean".to_string(),
        },
    };
    assert_eq!(result, expected_response);
}

#[test]
fn call_api_postal_code_country_info() {
    let client = ApiClient::new(GeoNamesApi::PostalCodeCountryInfo, USERNAME, None);

    let url = client.request_url(None).unwrap();
    assert_eq!(
        url,
        "https://secure.geonames.org/postalCodeCountryInfoJSON?username=demo"
    );

    let body = r#"{"geonames": [{"numPostalCodes": 7, "maxPostalCode": "AD700", "countryCode": "AD", "minPostalCode": "AD100", "countryName": "Andorra"}]}"#;
    let result: PostalCodeCountryInfoResponse = read_response(Ok(body.as_bytes().to_vec())).unwrap();

    let expected_result = PostalCodeCountryInfoResponse {
        geonames: vec![PostalCodeCountryInfoGeoname {
            num_postal_codes: 7,
            max_postal_code: "AD700".to_string(),
            country_code: "AD".to_string(),
            min_postal_code: "AD100".to_string(),
            country_name: "Andorra".to_string(),
        }],
    };

    assert_eq!(result.geonames[0], expected_result.geonames[0]);
}
