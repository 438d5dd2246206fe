use geonames_rs::response::{
    int32_field, int64_field, list_field, nested_field, optional_field, optional_text_field,
    text_field,
};
use geonames_rs::{
    read_response, AdminCodes1, AlternateName, ApiError, ApiResponse, CountryCodeResponse,
    CountrySubvisionCode, Geoname, GeonameHierarchy, HierarchyResponse, Json, NeighboursGeoname,
    Ocean, OceanResponse, Poi, SearchResponse, SiblingGeoname, SiblingsResponse,
};

fn text(value: &str) -> Json {
    Json::Text(value.to_string())
}

fn object(members: Vec<(&str, Json)>) -> Json {
    Json::Object(members.into_iter().map(|(name, value)| (name.to_string(), value)).collect())
}

fn misshapen() -> ApiError {
    ApiError::Deserialization(
        "Deserialization error: unexpected shape of the response".to_string(),
    )
}

#[test]
fn country_code_fixture_decodes_field_for_field() {
    let body = br#"{"languages":"de-AT,hr,hu,sl","distance":"0","countryCode":"AT","countryName":"Austria"}"#;
    let result = CountryCodeResponse::deserialize_response(body).unwrap();
    assert_eq!(result.languages, "de-AT,hr,hu,sl");
    assert_eq!(result.country_code, "AT");
    assert_eq!(result.country_name, "Austria");
    assert_eq!(result.distance, "0");
}

#[test]
fn members_that_the_shape_does_not_name_are_passed_over() {
    let body = br#"{"ocean":{"distance":"0","geonameId":3411923,"name":"North Atlantic Ocean","depth":-3000.5},"status":null}"#;
    let result = OceanResponse::deserialize_response(body).unwrap();
    assert_eq!(
        result,
        OceanResponse {
            ocean: Ocean {
                distance: "0".to_string(),
                geoname_id: 3411923,
                name: "North Atlantic Ocean".to_string(),
            },
        }
    );
}

#[test]
fn field_names_that_leave_camel_case() {
    let doc = object(vec![("ISO3166_2", text("52"))]);
    assert_eq!(
        AdminCodes1::from_json(&doc),
        Some(AdminCodes1 { iso3166_2: "52".to_string() })
    );
    let doc = object(vec![("iso31662", text("52"))]);
    assert_eq!(AdminCodes1::from_json(&doc), None);

    let doc = object(vec![
        ("code", text("7")),
        ("level", text("1")),
        ("type", text("ISO3166-2")),
    ]);
    assert_eq!(
        CountrySubvisionCode::from_json(&doc),
        Some(CountrySubvisionCode {
            code: "7".to_string(),
            level: "1".to_string(),
            ty: "ISO3166-2".to_string(),
        })
    );

    let doc = object(vec![
        ("lng", text("-122.18023")),
        ("distance", text("0.04")),
        ("name", text("")),
        ("typeClass", text("amenity")),
        ("typeName", text("fire_hydrant")),
        ("lat", text("37.45131")),
    ]);
    assert_eq!(Poi::from_json(&doc).unwrap().ty_name, "fire_hydrant");
}

#[test]
fn truncated_body_earns_deserialization() {
    let body = br#"{"languages":"de-AT,hr,hu,sl","distance":"0","countryCode":"AT","#;
    let error = CountryCodeResponse::deserialize_response(body).unwrap_err();
    match error {
        ApiError::Deserialization(text) => {
            assert!(text.starts_with("Deserialization error: "));
            assert!(text.contains("EOF while parsing"), "{}", text);
        }
        other => panic!("{:?}", other),
    }
}

#[test]
fn body_that_is_no_json_earns_deserialization_with_the_parsers_reason() {
    let error = OceanResponse::deserialize_response(b"<html>Bad Gateway</html>").unwrap_err();
    assert_eq!(
        error,
        ApiError::Deserialization(
            "Deserialization error: expected value at line 1 column 1".to_string()
        )
    );
    let error = OceanResponse::deserialize_response(b"").unwrap_err();
    assert_eq!(
        error,
        ApiError::Deserialization(
            "Deserialization error: EOF while parsing a value at line 1 column 0".to_string()
        )
    );
}

#[test]
fn document_of_another_shape_earns_deserialization() {
    let bodies: [&[u8]; 7] = [
        br#"{"status":{"message":"user does not exist.","value":10}}"#,
        br#"{"languages":"de","distance":"0","countryCode":"AT"}"#,
        br#"{"languages":"de","distance":0,"countryCode":"AT","countryName":"Austria"}"#,
        br#"{"languages":"de","distance":"0","countryCode":null,"countryName":"Austria"}"#,
        br#"["de","0","AT","Austria"]"#,
        br#""Austria""#,
        br#"null"#,
    ];
    for body in bodies {
        assert_eq!(CountryCodeResponse::deserialize_response(body).unwrap_err(), misshapen());
    }
}

#[test]
fn one_item_of_another_shape_spoils_the_list() {
    let body = br#"{"totalResultsCount":2,"geonames":[{"name":"only a name"}]}"#;
    assert_eq!(SiblingsResponse::deserialize_response(body).unwrap_err(), misshapen());
    let body = br#"{"totalResultsCount":0,"geonames":[]}"#;
    assert_eq!(
        SiblingsResponse::deserialize_response(body).unwrap(),
        SiblingsResponse { total_results_count: 0, geonames: vec![] }
    );
    let body = br#"{"totalResultsCount":0,"geonames":{}}"#;
    assert_eq!(SiblingsResponse::deserialize_response(body).unwrap_err(), misshapen());
}

#[test]
fn missing_and_null_members_of_optional_fields_are_none() {
    let body = br#"{"geonames":[{"lng":"0","geonameId":6295630,"name":"Earth","fclName":"parks,area, ...","toponymName":"Earth","fcodeName":"area","adminName1":"","lat":"0","fcl":"L","fcode":"AREA","population":6814400000,"adminCode1":null,"countryName":"x"}]}"#;
    let result = HierarchyResponse::deserialize_response(body).unwrap();
    assert_eq!(
        result.geonames,
        vec![GeonameHierarchy {
            lng: "0".to_string(),
            geoname_id: 6295630,
            name: "Earth".to_string(),
            fcl_name: "parks,area, ...".to_string(),
            toponym_name: "Earth".to_string(),
            fcode_name: "area".to_string(),
            admin_name1: "".to_string(),
            lat: "0".to_string(),
            fcl: "L".to_string(),
            fcode: "AREA".to_string(),
            population: 6814400000,
            admin_code1: None,
            admin_codes1: None,
            country_id: None,
            country_name: Some("x".to_string()),
            country_code: None,
        }]
    );
}

#[test]
fn optional_member_of_the_wrong_kind_is_refused() {
    let doc = object(vec![("name", text("Texel")), ("lang", Json::Integer(3))]);
    assert_eq!(AlternateName::from_json(&doc), None);
    let doc = object(vec![("name", text("Texel")), ("lang", Json::Null)]);
    assert_eq!(
        AlternateName::from_json(&doc),
        Some(AlternateName { name: "Texel".to_string(), lang: None })
    );
    let doc = object(vec![("name", text("Texel")), ("lang", text("nl"))]);
    assert_eq!(
        AlternateName::from_json(&doc),
        Some(AlternateName { name: "Texel".to_string(), lang: Some("nl".to_string()) })
    );
}

#[test]
fn numbers_have_to_fit_their_field() {
    let doc = object(vec![("n", Json::Integer(2147483647))]);
    assert_eq!(int32_field(&doc, "n"), Some(2147483647));
    let doc = object(vec![("n", Json::Integer(-2147483648))]);
    assert_eq!(int32_field(&doc, "n"), Some(-2147483648));
    let doc = object(vec![("n", Json::Integer(2147483648))]);
    assert_eq!(int32_field(&doc, "n"), None);
    assert_eq!(int64_field(&doc, "n"), Some(2147483648));
    let doc = object(vec![("n", Json::Integer(-2147483649))]);
    assert_eq!(int32_field(&doc, "n"), None);
    let doc = object(vec![("n", Json::Decimal("1.5".to_string()))]);
    assert_eq!(int32_field(&doc, "n"), None);
    assert_eq!(int64_field(&doc, "n"), None);
    let doc = object(vec![("n", text("7"))]);
    assert_eq!(int32_field(&doc, "n"), None);
}

#[test]
fn population_of_a_neighbour_may_outgrow_32_bits() {
    let body = br#"{"adminCode1":"00","lng":"10.5","geonameId":2921044,"toponymName":"Federal Republic of Germany","countryId":"2921044","fcl":"A","population":82927922000,"countryCode":"DE","name":"Germany","fclName":"country, state, region,...","countryName":"Germany","fcodeName":"independent political entity","adminName1":"","lat":"51.5","fcode":"PCLI"}"#;
    let result = NeighboursGeoname::deserialize_response(body).unwrap();
    assert_eq!(result.population, 82927922000);
}

#[test]
fn field_helpers_read_one_member() {
    let doc = object(vec![
        ("name", text("Texel")),
        ("codes", object(vec![("ISO3166_2", text("NH"))])),
        ("all", Json::Array(vec![object(vec![("ISO3166_2", text("a"))]), object(vec![("ISO3166_2", text("b"))])])),
        ("nothing", Json::Null),
    ]);
    assert_eq!(text_field(&doc, "name"), Some("Texel".to_string()));
    assert_eq!(text_field(&doc, "codes"), None);
    assert_eq!(text_field(&doc, "absent"), None);
    assert_eq!(optional_text_field(&doc, "name"), Some(Some("Texel".to_string())));
    assert_eq!(optional_text_field(&doc, "absent"), Some(None));
    assert_eq!(optional_text_field(&doc, "nothing"), Some(None));
    assert_eq!(optional_text_field(&doc, "codes"), None);
    assert_eq!(
        nested_field::<AdminCodes1>(&doc, "codes"),
        Some(AdminCodes1 { iso3166_2: "NH".to_string() })
    );
    assert_eq!(nested_field::<AdminCodes1>(&doc, "name"), None);
    assert_eq!(optional_field::<AdminCodes1>(&doc, "nothing"), Some(None));
    assert_eq!(optional_field::<AdminCodes1>(&doc, "absent"), Some(None));
    assert_eq!(optional_field::<AdminCodes1>(&doc, "name"), None);
    assert_eq!(
        list_field::<AdminCodes1>(&doc, "all"),
        Some(vec![
            AdminCodes1 { iso3166_2: "a".to_string() },
            AdminCodes1 { iso3166_2: "b".to_string() },
        ])
    );
    assert_eq!(list_field::<AdminCodes1>(&doc, "codes"), None);
    assert_eq!(text_field(&text("no object"), "name"), None);
}

#[test]
fn network_failure_earns_the_network_error() {
    let transport = Err("error sending request: connection refused".to_string());
    let error = read_response::<OceanResponse>(transport).unwrap_err();
    assert!(error.is_network_failure());
    assert_eq!(
        error,
        ApiError::NetworkFailure(
            "Geonames api error: error sending request: connection refused".to_string()
        )
    );
    assert_eq!(
        error.message(),
        "Geonames api error: error sending request: connection refused"
    );
}

#[test]
fn other_errors_are_no_network_failure() {
    assert!(!misshapen().is_network_failure());
    assert!(!ApiError::UrlParse("x".to_string()).is_network_failure());
    assert!(!ApiError::InvalidParams("x".to_string()).is_network_failure());
    assert_eq!(ApiError::InvalidParams("x".to_string()).message(), "x");
}

#[test]
fn body_that_arrived_is_read() {
    let body = br#"{"ocean":{"distance":"0","geonameId":3411923,"name":"North Atlantic Ocean"}}"#;
    let result: OceanResponse = read_response(Ok(body.to_vec())).unwrap();
    assert_eq!(result.ocean.name, "North Atlantic Ocean");
    let error = read_response::<OceanResponse>(Ok(b"{}".to_vec())).unwrap_err();
    assert_eq!(error, misshapen());
}

#[test]
fn search_fixture_decodes_field_for_field() {
    let body = r#"{"totalResultsCount":5581,"geonames":[{"adminCode1":"ENG","lng":"-0.12574","geonameId":2643743,"toponymName":"London","countryId":"2635167","adminCodes1":{"ISO3166_2":"ENG"},"countryName":"United Kingdom","fcodeName":"capital of a political entity","adminName1":"England","lat":"51.50853","fcode":"PPLC","fcl":"P","population":8961989,"countryCode":"GB","name":"London","fclName":"city, village,..."}]}"#;
    let result = SearchResponse::deserialize_response(body.as_bytes()).unwrap();
    assert_eq!(
        result,
        SearchResponse {
            total_results_count: 5581,
            geonames: vec![Geoname {
                admin_code_1: "ENG".to_string(),
                lng: "-0.12574".to_string(),
                geoname_id: 2643743,
                toponym_name: "London".to_string(),
                country_id: "2635167".to_string(),
                admin_codes1: AdminCodes1 { iso3166_2: "ENG".to_string() },
                country_name: "United Kingdom".to_string(),
                fcode_name: "capital of a political entity".to_string(),
                admin_name1: "England".to_string(),
                lat: "51.50853".to_string(),
                fcode: "PPLC".to_string(),
                fcl: "P".to_string(),
                population: 8961989,
                country_code: "GB".to_string(),
                name: "London".to_string(),
                fcl_name: "city, village,...".to_string(),
            }],
        }
    );
}

#[test]
fn siblings_fixture_decodes_field_for_field() {
    let body = r#"{"totalResultsCount":25,"geonames":[{"adminCode1":"AG","lng":"8.16667","geonameId":2661876,"toponymName":"Kanton Aargau","countryId":"2658434","fcl":"A","population":685424,"countryCode":"CH","name":"Aargau","fclName":"country, state, region,...","countryName":"Switzerland","fcodeName":"first-order administrative division","adminName1":"Aargau","lat":"47.41667","fcode":"ADM1"}]}"#;
    let result = SiblingsResponse::deserialize_response(body.as_bytes()).unwrap();
    assert_eq!(
        result,
        SiblingsResponse {
            total_results_count: 25,
            geonames: vec![SiblingGeoname {
                admin_code1: "AG".to_string(),
                lng: "8.16667".to_string(),
                geoname_id: 2661876,
                toponym_name: "Kanton Aargau".to_string(),
                country_id: "2658434".to_string(),
                fcl: "A".to_string(),
                population: 685424,
                country_code: "CH".to_string(),
                name: "Aargau".to_string(),
                fcl_name: "country, state, region,...".to_string(),
                country_name: "Switzerland".to_string(),
                fcode_name: "first-order administrative division".to_string(),
                admin_name1: "Aargau".to_string(),
                lat: "47.41667".to_string(),
                fcode: "ADM1".to_string(),
            }],
        }
    );
}
