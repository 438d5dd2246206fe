//! What holds of every call.

use crate::client::{is_request_url, ClientView};
use crate::config::{GeoNamesApi, BASE_URI, BASE_URI_COMMERCIAL};
use crate::error::ApiError;
use crate::json::parsed_json;
use crate::params::{distinct_names, lemma_pairs_map_keys, pairs_map, Pair};
use crate::registry::allowed_rule;
use crate::request::{
    base_uri, is_address, query_pairs, request_target, token_name, username_name,
};
use crate::response::{is_decoding, ApiResponse};
use crate::rules::rule_accepts;
use crate::validation::{
    complaint_about, first_rejected, invalid_value_text, lemma_acceptable_by_pairs,
    lemma_acceptable_without_rule, no_params_text, not_allowed_text, params_acceptable,
};
use vstd::prelude::*;

verus! {

/// No name in the rules is the name of a credential.
proof fn lemma_parameter_names_are_no_credentials()
    ensures
        "postalcode"@ != token_name(),
        "postalcode"@ != username_name(),
        "postalcode_startsWith"@ != token_name(),
        "postalcode_startsWith"@ != username_name(),
        "placename"@ != token_name(),
        "placename"@ != username_name(),
        "placename_startsWith"@ != token_name(),
        "placename_startsWith"@ != username_name(),
        "country"@ != token_name(),
        "country"@ != username_name(),
        "countryBias"@ != token_name(),
        "countryBias"@ != username_name(),
        "maxRows"@ != token_name(),
        "maxRows"@ != username_name(),
        "style"@ != token_name(),
        "style"@ != username_name(),
        "operator"@ != token_name(),
        "operator"@ != username_name(),
        "charset"@ != token_name(),
        "charset"@ != username_name(),
        "isReduced"@ != token_name(),
        "isReduced"@ != username_name(),
        "lat"@ != token_name(),
        "lat"@ != username_name(),
        "lng"@ != token_name(),
        "lng"@ != username_name(),
        "radius"@ != token_name(),
        "radius"@ != username_name(),
        "localCountry"@ != token_name(),
        "localCountry"@ != username_name(),
        "postalCode"@ != token_name(),
        "postalCode"@ != username_name(),
        "lang"@ != token_name(),
        "lang"@ != username_name(),
        "cities"@ != token_name(),
        "cities"@ != username_name(),
        "featureClass"@ != token_name(),
        "featureClass"@ != username_name(),
        "featureCode"@ != token_name(),
        "featureCode"@ != username_name(),
        "type"@ != token_name(),
        "type"@ != username_name(),
        "level"@ != token_name(),
        "level"@ != username_name(),
        "geonameId"@ != token_name(),
        "geonameId"@ != username_name(),
        "postalcodes"@ != token_name(),
        "postalcodes"@ != username_name(),
        "date"@ != token_name(),
        "date"@ != username_name(),
        "hierarchy"@ != token_name(),
        "hierarchy"@ != username_name(),
        "north"@ != token_name(),
        "north"@ != username_name(),
        "south"@ != token_name(),
        "south"@ != username_name(),
        "east"@ != token_name(),
        "east"@ != username_name(),
        "west"@ != token_name(),
        "west"@ != username_name(),
        "minMagnitude"@ != token_name(),
        "minMagnitude"@ != username_name(),
        "length"@ != token_name(),
        "length"@ != username_name(),
        "q"@ != token_name(),
        "q"@ != username_name(),
        "adminCode1"@ != token_name(),
        "adminCode1"@ != username_name(),
        "adminCode2"@ != token_name(),
        "adminCode2"@ != username_name(),
        "adminCode3"@ != token_name(),
        "adminCode3"@ != username_name(),
        "isUniqueStreetName"@ != token_name(),
        "isUniqueStreetName"@ != username_name(),
        "name"@ != token_name(),
        "name"@ != username_name(),
        "name_equals"@ != token_name(),
        "name_equals"@ != username_name(),
        "name_startsWith"@ != token_name(),
        "name_startsWith"@ != username_name(),
        "startRow"@ != token_name(),
        "startRow"@ != username_name(),
        "continentCode"@ != token_name(),
        "continentCode"@ != username_name(),
        "adminCode4"@ != token_name(),
        "adminCode4"@ != username_name(),
        "adminCode5"@ != token_name(),
        "adminCode5"@ != username_name(),
        "isNameRequired"@ != token_name(),
        "isNameRequired"@ != username_name(),
        "tag"@ != token_name(),
        "tag"@ != username_name(),
        "fuzzy"@ != token_name(),
        "fuzzy"@ != username_name(),
        "searchlang"@ != token_name(),
        "searchlang"@ != username_name(),
        "orderby"@ != token_name(),
        "orderby"@ != username_name(),
        "inclBbox"@ != token_name(),
        "inclBbox"@ != username_name(),
        "ICAO"@ != token_name(),
        "ICAO"@ != username_name(),
{
    reveal_strlit("token");
    reveal_strlit("username");
    reveal_strlit("postalcode");
    assert("postalcode"@ != "token"@) by {
        assert("postalcode"@.len() != "token"@.len());
    }
    assert("postalcode"@ != "username"@) by {
        assert("postalcode"@.len() != "username"@.len());
    }
    reveal_strlit("postalcode_startsWith");
    assert("postalcode_startsWith"@ != "token"@) by {
        assert("postalcode_startsWith"@.len() != "token"@.len());
    }
    assert("postalcode_startsWith"@ != "username"@) by {
        assert("postalcode_startsWith"@.len() != "username"@.len());
    }
    reveal_strlit("placename");
    assert("placename"@ != "token"@) by {
        assert("placename"@.len() != "token"@.len());
    }
    assert("placename"@ != "username"@) by {
        assert("placename"@.len() != "username"@.len());
    }
    reveal_strlit("placename_startsWith");
    assert("placename_startsWith"@ != "token"@) by {
        assert("placename_startsWith"@.len() != "token"@.len());
    }
    assert("placename_startsWith"@ != "username"@) by {
        assert("placename_startsWith"@.len() != "username"@.len());
    }
    reveal_strlit("country");
    assert("country"@ != "token"@) by {
        assert("country"@.len() != "token"@.len());
    }
    assert("country"@ != "username"@) by {
        assert("country"@.len() != "username"@.len());
    }
    reveal_strlit("countryBias");
    assert("countryBias"@ != "token"@) by {
        assert("countryBias"@.len() != "token"@.len());
    }
    assert("countryBias"@ != "username"@) by {
        assert("countryBias"@.len() != "username"@.len());
    }
    reveal_strlit("maxRows");
    assert("maxRows"@ != "token"@) by {
        assert("maxRows"@.len() != "token"@.len());
    }
    assert("maxRows"@ != "username"@) by {
        assert("maxRows"@.len() != "username"@.len());
    }
    reveal_strlit("style");
    assert("style"@ != "token"@) by {
        assert("style"@[0] != "token"@[0]);
    }
    assert("style"@ != "username"@) by {
        assert("style"@.len() != "username"@.len());
    }
    reveal_strlit("operator");
    assert("operator"@ != "token"@) by {
        assert("operator"@.len() != "token"@.len());
    }
    assert("operator"@ != "username"@) by {
        assert("operator"@[0] != "username"@[0]);
    }
    reveal_strlit("charset");
    assert("charset"@ != "token"@) by {
        assert("charset"@.len() != "token"@.len());
    }
    assert("charset"@ != "username"@) by {
        assert("charset"@.len() != "username"@.len());
    }
    reveal_strlit("isReduced");
    assert("isReduced"@ != "token"@) by {
        assert("isReduced"@.len() != "token"@.len());
    }
    assert("isReduced"@ != "username"@) by {
        assert("isReduced"@.len() != "username"@.len());
    }
    reveal_strlit("lat");
    assert("lat"@ != "token"@) by {
        assert("lat"@.len() != "token"@.len());
    }
    assert("lat"@ != "username"@) by {
        assert("lat"@.len() != "username"@.len());
    }
    reveal_strlit("lng");
    assert("lng"@ != "token"@) by {
        assert("lng"@.len() != "token"@.len());
    }
    assert("lng"@ != "username"@) by {
        assert("lng"@.len() != "username"@.len());
    }
    reveal_strlit("radius");
    assert("radius"@ != "token"@) by {
        assert("radius"@.len() != "token"@.len());
    }
    assert("radius"@ != "username"@) by {
        assert("radius"@.len() != "username"@.len());
    }
    reveal_strlit("localCountry");
    assert("localCountry"@ != "token"@) by {
        assert("localCountry"@.len() != "token"@.len());
    }
    assert("localCountry"@ != "username"@) by {
        assert("localCountry"@.len() != "username"@.len());
    }
    reveal_strlit("postalCode");
    assert("postalCode"@ != "token"@) by {
        assert("postalCode"@.len() != "token"@.len());
    }
    assert("postalCode"@ != "username"@) by {
        assert("postalCode"@.len() != "username"@.len());
    }
    reveal_strlit("lang");
    assert("lang"@ != "token"@) by {
        assert("lang"@.len() != "token"@.len());
    }
    assert("lang"@ != "username"@) by {
        assert("lang"@.len() != "username"@.len());
    }
    reveal_strlit("cities");
    assert("cities"@ != "token"@) by {
        assert("cities"@.len() != "token"@.len());
    }
    assert("cities"@ != "username"@) by {
        assert("cities"@.len() != "username"@.len());
    }
    reveal_strlit("featureClass");
    assert("featureClass"@ != "token"@) by {
        assert("featureClass"@.len() != "token"@.len());
    }
    assert("featureClass"@ != "username"@) by {
        assert("featureClass"@.len() != "username"@.len());
    }
    reveal_strlit("featureCode");
    assert("featureCode"@ != "token"@) by {
        assert("featureCode"@.len() != "token"@.len());
    }
    assert("featureCode"@ != "username"@) by {
        assert("featureCode"@.len() != "username"@.len());
    }
    reveal_strlit("type");
    assert("type"@ != "token"@) by {
        assert("type"@.len() != "token"@.len());
    }
    assert("type"@ != "username"@) by {
        assert("type"@.len() != "username"@.len());
    }
    reveal_strlit("level");
    assert("level"@ != "token"@) by {
        assert("level"@[0] != "token"@[0]);
    }
    assert("level"@ != "username"@) by {
        assert("level"@.len() != "username"@.len());
    }
    reveal_strlit("geonameId");
    assert("geonameId"@ != "token"@) by {
        assert("geonameId"@.len() != "token"@.len());
    }
    assert("geonameId"@ != "username"@) by {
        assert("geonameId"@.len() != "username"@.len());
    }
    reveal_strlit("postalcodes");
    assert("postalcodes"@ != "token"@) by {
        assert("postalcodes"@.len() != "token"@.len());
    }
    assert("postalcodes"@ != "username"@) by {
        assert("postalcodes"@.len() != "username"@.len());
    }
    reveal_strlit("date");
    assert("date"@ != "token"@) by {
        assert("date"@.len() != "token"@.len());
    }
    assert("date"@ != "username"@) by {
        assert("date"@.len() != "username"@.len());
    }
    reveal_strlit("hierarchy");
    assert("hierarchy"@ != "token"@) by {
        assert("hierarchy"@.len() != "token"@.len());
    }
    assert("hierarchy"@ != "username"@) by {
        assert("hierarchy"@.len() != "username"@.len());
    }
    reveal_strlit("north");
    assert("north"@ != "token"@) by {
        assert("north"@[0] != "token"@[0]);
    }
    assert("north"@ != "username"@) by {
        assert("north"@.len() != "username"@.len());
    }
    reveal_strlit("south");
    assert("south"@ != "token"@) by {
        assert("south"@[0] != "token"@[0]);
    }
    assert("south"@ != "username"@) by {
        assert("south"@.len() != "username"@.len());
    }
    reveal_strlit("east");
    assert("east"@ != "token"@) by {
        assert("east"@.len() != "token"@.len());
    }
    assert("east"@ != "username"@) by {
        assert("east"@.len() != "username"@.len());
    }
    reveal_strlit("west");
    assert("west"@ != "token"@) by {
        assert("west"@.len() != "token"@.len());
    }
    assert("west"@ != "username"@) by {
        assert("west"@.len() != "username"@.len());
    }
    reveal_strlit("minMagnitude");
    assert("minMagnitude"@ != "token"@) by {
        assert("minMagnitude"@.len() != "token"@.len());
    }
    assert("minMagnitude"@ != "username"@) by {
        assert("minMagnitude"@.len() != "username"@.len());
    }
    reveal_strlit("length");
    assert("length"@ != "token"@) by {
        assert("length"@.len() != "token"@.len());
    }
    assert("length"@ != "username"@) by {
        assert("length"@.len() != "username"@.len());
    }
    reveal_strlit("q");
    assert("q"@ != "token"@) by {
        assert("q"@.len() != "token"@.len());
    }
    assert("q"@ != "username"@) by {
        assert("q"@.len() != "username"@.len());
    }
    reveal_strlit("adminCode1");
    assert("adminCode1"@ != "token"@) by {
        assert("adminCode1"@.len() != "token"@.len());
    }
    assert("adminCode1"@ != "username"@) by {
        assert("adminCode1"@.len() != "username"@.len());
    }
    reveal_strlit("adminCode2");
    assert("adminCode2"@ != "token"@) by {
        assert("adminCode2"@.len() != "token"@.len());
    }
    assert("adminCode2"@ != "username"@) by {
        assert("adminCode2"@.len() != "username"@.len());
    }
    reveal_strlit("adminCode3");
    assert("adminCode3"@ != "token"@) by {
        assert("adminCode3"@.len() != "token"@.len());
    }
    assert("adminCode3"@ != "username"@) by {
        assert("adminCode3"@.len() != "username"@.len());
    }
    reveal_strlit("isUniqueStreetName");
    assert("isUniqueStreetName"@ != "token"@) by {
        assert("isUniqueStreetName"@.len() != "token"@.len());
    }
    assert("isUniqueStreetName"@ != "username"@) by {
        assert("isUniqueStreetName"@.len() != "username"@.len());
    }
    reveal_strlit("name");
    assert("name"@ != "token"@) by {
        assert("name"@.len() != "token"@.len());
    }
    assert("name"@ != "username"@) by {
        assert("name"@.len() != "username"@.len());
    }
    reveal_strlit("name_equals");
    assert("name_equals"@ != "token"@) by {
        assert("name_equals"@.len() != "token"@.len());
    }
    assert("name_equals"@ != "username"@) by {
        assert("name_equals"@.len() != "username"@.len());
    }
    reveal_strlit("name_startsWith");
    assert("name_startsWith"@ != "token"@) by {
        assert("name_startsWith"@.len() != "token"@.len());
    }
    assert("name_startsWith"@ != "username"@) by {
        assert("name_startsWith"@.len() != "username"@.len());
    }
    reveal_strlit("startRow");
    assert("startRow"@ != "token"@) by {
        assert("startRow"@.len() != "token"@.len());
    }
    assert("startRow"@ != "username"@) by {
        assert("startRow"@[0] != "username"@[0]);
    }
    reveal_strlit("continentCode");
    assert("continentCode"@ != "token"@) by {
        assert("continentCode"@.len() != "token"@.len());
    }
    assert("continentCode"@ != "username"@) by {
        assert("continentCode"@.len() != "username"@.len());
    }
    reveal_strlit("adminCode4");
    assert("adminCode4"@ != "token"@) by {
        assert("adminCode4"@.len() != "token"@.len());
    }
    assert("adminCode4"@ != "username"@) by {
        assert("adminCode4"@.len() != "username"@.len());
    }
    reveal_strlit("adminCode5");
    assert("adminCode5"@ != "token"@) by {
        assert("adminCode5"@.len() != "token"@.len());
    }
    assert("adminCode5"@ != "username"@) by {
        assert("adminCode5"@.len() != "username"@.len());
    }
    reveal_strlit("isNameRequired");
    assert("isNameRequired"@ != "token"@) by {
        assert("isNameRequired"@.len() != "token"@.len());
    }
    assert("isNameRequired"@ != "username"@) by {
        assert("isNameRequired"@.len() != "username"@.len());
    }
    reveal_strlit("tag");
    assert("tag"@ != "token"@) by {
        assert("tag"@.len() != "token"@.len());
    }
    assert("tag"@ != "username"@) by {
        assert("tag"@.len() != "username"@.len());
    }
    reveal_strlit("fuzzy");
    assert("fuzzy"@ != "token"@) by {
        assert("fuzzy"@[0] != "token"@[0]);
    }
    assert("fuzzy"@ != "username"@) by {
        assert("fuzzy"@.len() != "username"@.len());
    }
    reveal_strlit("searchlang");
    assert("searchlang"@ != "token"@) by {
        assert("searchlang"@.len() != "token"@.len());
    }
    assert("searchlang"@ != "username"@) by {
        assert("searchlang"@.len() != "username"@.len());
    }
    reveal_strlit("orderby");
    assert("orderby"@ != "token"@) by {
        assert("orderby"@.len() != "token"@.len());
    }
    assert("orderby"@ != "username"@) by {
        assert("orderby"@.len() != "username"@.len());
    }
    reveal_strlit("inclBbox");
    assert("inclBbox"@ != "token"@) by {
        assert("inclBbox"@.len() != "token"@.len());
    }
    assert("inclBbox"@ != "username"@) by {
        assert("inclBbox"@[0] != "username"@[0]);
    }
    reveal_strlit("ICAO");
    assert("ICAO"@ != "token"@) by {
        assert("ICAO"@.len() != "token"@.len());
    }
    assert("ICAO"@ != "username"@) by {
        assert("ICAO"@.len() != "username"@.len());
    }
}

/// No endpoint accepts a parameter that is called like a credential.
pub proof fn lemma_credentials_are_no_parameters(api: GeoNamesApi)
    ensures
        allowed_rule(api) matches Some(rule) ==> !rule.contains_key(token_name())
            && !rule.contains_key(username_name()),
{
    lemma_parameter_names_are_no_credentials();
}

/// An endpoint without a rule takes no parameter: a call with parameters
/// earns `InvalidParams`, and a call without any goes on to its address.
pub proof fn lemma_endpoint_without_rule(
    client: ClientView,
    given: Map<Seq<char>, Seq<char>>,
    pairs: Seq<Pair>,
    outcome: Result<String, ApiError>,
)
    requires
        given == pairs_map(pairs),
        allowed_rule(client.api) is None,
        is_request_url(client, given, pairs, outcome),
    ensures
        pairs.len() > 0 ==> (outcome matches Err(ApiError::InvalidParams(text)) && text@
            == no_params_text(client.api)),
        pairs.len() == 0 ==> is_address(
            request_target(client.api, client.token is Some),
            query_pairs(pairs, client.token, client.username),
            outcome,
        ),
{
    lemma_acceptable_without_rule(pairs);
}

/// A call whose every parameter the endpoint's rule accepts goes on to its
/// address.
pub proof fn lemma_accepted_call_proceeds(
    client: ClientView,
    rule: Map<Seq<char>, Seq<Seq<char>>>,
    given: Map<Seq<char>, Seq<char>>,
    pairs: Seq<Pair>,
    outcome: Result<String, ApiError>,
)
    requires
        given == pairs_map(pairs),
        distinct_names(pairs),
        allowed_rule(client.api) == Some(rule),
        forall|i: int| 0 <= i < pairs.len() ==> rule_accepts(rule, (#[trigger] pairs[i]).0, pairs[i].1),
        is_request_url(client, given, pairs, outcome),
    ensures
        is_address(
            request_target(client.api, client.token is Some),
            query_pairs(pairs, client.token, client.username),
            outcome,
        ),
{
    lemma_acceptable_by_pairs(rule, pairs);
}

/// A call with a parameter that the endpoint's rule does not accept earns
/// `InvalidParams`. Where that parameter is the first such, the error's text
/// is the complaint about it.
pub proof fn lemma_rejected_parameter_is_refused(
    client: ClientView,
    rule: Map<Seq<char>, Seq<Seq<char>>>,
    given: Map<Seq<char>, Seq<char>>,
    pairs: Seq<Pair>,
    index: int,
    outcome: Result<String, ApiError>,
)
    requires
        given == pairs_map(pairs),
        distinct_names(pairs),
        allowed_rule(client.api) == Some(rule),
        0 <= index < pairs.len(),
        !rule_accepts(rule, pairs[index].0, pairs[index].1),
        is_request_url(client, given, pairs, outcome),
    ensures
        outcome matches Err(ApiError::InvalidParams(text)) && (first_rejected(rule, pairs, index)
            ==> text@ == complaint_about(rule, pairs[index])),
{
    lemma_acceptable_by_pairs(rule, pairs);
    let text = outcome->Err_0->InvalidParams_0@;
    let first = choose|first: int| #[trigger]
        first_rejected(rule, pairs, first) && text == complaint_about(rule, pairs[first]);
    if first_rejected(rule, pairs, index) {
        if first < index {
            assert(rule_accepts(rule, pairs[first].0, pairs[first].1));
        }
        if index < first {
            assert(rule_accepts(rule, pairs[index].0, pairs[index].1));
        }
    }
}

/// A call with a parameter whose name is none of the rule's keys earns
/// `InvalidParams`. Where that parameter is the first that the rule does not
/// accept, the error's text names it.
pub proof fn lemma_unknown_name_is_refused(
    client: ClientView,
    rule: Map<Seq<char>, Seq<Seq<char>>>,
    given: Map<Seq<char>, Seq<char>>,
    pairs: Seq<Pair>,
    index: int,
    outcome: Result<String, ApiError>,
)
    requires
        given == pairs_map(pairs),
        distinct_names(pairs),
        allowed_rule(client.api) == Some(rule),
        0 <= index < pairs.len(),
        !rule.contains_key(pairs[index].0),
        is_request_url(client, given, pairs, outcome),
    ensures
        outcome matches Err(ApiError::InvalidParams(text)) && (first_rejected(rule, pairs, index)
            ==> text@ == not_allowed_text(pairs[index].0)),
{
    lemma_rejected_parameter_is_refused(client, rule, given, pairs, index, outcome);
}

/// Where a rule lists values for a name, the name may carry exactly those.
pub proof fn lemma_listed_values_only(
    rule: Map<Seq<char>, Seq<Seq<char>>>,
    name: Seq<char>,
    value: Seq<char>,
)
    requires
        rule.contains_key(name),
        rule[name].len() > 0,
    ensures
        rule_accepts(rule, name, value) == rule[name].contains(value),
{
}

/// A call with a parameter whose value is none of those that the rule lists
/// for its name earns `InvalidParams`. Where that parameter is the first
/// that the rule does not accept, the error's text names the value and the
/// parameter.
pub proof fn lemma_unlisted_value_is_refused(
    client: ClientView,
    rule: Map<Seq<char>, Seq<Seq<char>>>,
    given: Map<Seq<char>, Seq<char>>,
    pairs: Seq<Pair>,
    index: int,
    outcome: Result<String, ApiError>,
)
    requires
        given == pairs_map(pairs),
        distinct_names(pairs),
        allowed_rule(client.api) == Some(rule),
        0 <= index < pairs.len(),
        rule.contains_key(pairs[index].0),
        rule[pairs[index].0].len() > 0,
        !rule[pairs[index].0].contains(pairs[index].1),
        is_request_url(client, given, pairs, outcome),
    ensures
        outcome matches Err(ApiError::InvalidParams(text)) && (first_rejected(rule, pairs, index)
            ==> text@ == invalid_value_text(pairs[index].1, pairs[index].0)),
{
    lemma_rejected_parameter_is_refused(client, rule, given, pairs, index, outcome);
}

/// Where a rule lists no values for a name, the name may carry any value.
pub proof fn lemma_free_value_is_accepted(
    rule: Map<Seq<char>, Seq<Seq<char>>>,
    name: Seq<char>,
    value: Seq<char>,
)
    requires
        rule.contains_key(name),
        rule[name].len() == 0,
    ensures
        rule_accepts(rule, name, value),
{
}

/// The two tiers live at different addresses of the same length.
pub proof fn lemma_tiers_differ()
    ensures
        BASE_URI@.len() == BASE_URI_COMMERCIAL@.len(),
        BASE_URI@ != BASE_URI_COMMERCIAL@,
{
    reveal_strlit("https://secure.geonames.org/");
    reveal_strlit("https://secure.geonames.net/");
    assert(BASE_URI@[24] != BASE_URI_COMMERCIAL@[24]);
}

/// The token decides the tier. With a token the request goes to the
/// commercial address, and the token is part of the query; without one it
/// goes to the free address, and where the endpoint accepts the parameters
/// no part of the query is called like the token. Either way the query ends
/// with the user's name.
pub proof fn lemma_token_decides_tier(
    client: ClientView,
    given: Map<Seq<char>, Seq<char>>,
    pairs: Seq<Pair>,
)
    requires
        given == pairs_map(pairs),
        distinct_names(pairs),
    ensures
        ({
            let target = request_target(client.api, client.token is Some);
            let query = query_pairs(pairs, client.token, client.username);
            &&& query.last() == (username_name(), client.username)
            &&& match client.token {
                Some(token) => {
                    &&& BASE_URI_COMMERCIAL@.is_prefix_of(target)
                    &&& !BASE_URI@.is_prefix_of(target)
                    &&& query.contains((token_name(), token))
                },
                None => {
                    &&& BASE_URI@.is_prefix_of(target)
                    &&& !BASE_URI_COMMERCIAL@.is_prefix_of(target)
                    &&& params_acceptable(allowed_rule(client.api), given) ==> forall|i: int|
                        0 <= i < query.len() ==> (#[trigger] query[i]).0 != token_name()
                },
            }
        }),
{
    let target = request_target(client.api, client.token is Some);
    let query = query_pairs(pairs, client.token, client.username);
    lemma_tiers_differ();
    let base = base_uri(client.token is Some);
    let other = base_uri(client.token is None);
    assert(base.is_prefix_of(target)) by {
        assert(target.subrange(0, base.len() as int) == base);
    }
    assert(!other.is_prefix_of(target)) by {
        if other.is_prefix_of(target) {
            assert(target.subrange(0, other.len() as int) == other);
            assert(target.subrange(0, base.len() as int) == base);
        }
    }
    match client.token {
        Some(token) => {
            assert(query[pairs.len() as int] == (token_name(), token));
        },
        None => {
            if params_acceptable(allowed_rule(client.api), given) {
                reveal_strlit("token");
                reveal_strlit("username");
                assert(username_name().len() != token_name().len());
                assert forall|i: int| 0 <= i < query.len() implies (#[trigger] query[i]).0
                    != token_name() by {
                    if i < pairs.len() {
                        assert(query[i] == pairs[i]);
                        lemma_pairs_map_keys(pairs, pairs[i].0);
                        assert(given.contains_key(pairs[i].0));
                        lemma_credentials_are_no_parameters(client.api);
                    }
                }
            }
        },
    }
}

/// A body is read as a `T` exactly when it is a JSON document of the shape
/// of `T`. Every other body earns `Deserialization`: no value is made up.
pub proof fn lemma_malformed_body_is_refused<T: ApiResponse>(
    bytes: Seq<u8>,
    outcome: Result<T, ApiError>,
)
    requires
        is_decoding::<T>(bytes, outcome),
    ensures
        outcome is Ok <==> (parsed_json(bytes) matches Ok(doc) && T::decodable(doc)),
        outcome is Err ==> outcome->Err_0 is Deserialization,
{
}

} // verus!
