//! Whether an endpoint accepts the parameters of a call.

use crate::config::GeoNamesApi;
use crate::error::ApiError;
use crate::params::{
    distinct_names, given_consistent, given_map, given_pairs, lemma_pairs_map_keys,
    lemma_pairs_map_value, pairs_map, CallParameters, Pair,
};
use crate::rules::{one_of, rule_accepts, rule_of, ParameterRule};
use crate::text::concat3;
use vstd::prelude::*;

verus! {

/// Whether a call may carry the parameters `given` under the rule `rule`.
///
/// An endpoint without a rule takes no parameter at all. Under a rule, every
/// name has to be one of the rule's keys, with a value that the rule lets it
/// carry. A call without parameters is always in order.
pub open spec fn params_acceptable(
    rule: Option<Map<Seq<char>, Seq<Seq<char>>>>,
    given: Map<Seq<char>, Seq<char>>,
) -> bool {
    match rule {
        Some(allowed) => forall|name: Seq<char>| #[trigger]
            given.contains_key(name) ==> rule_accepts(allowed, name, given[name]),
        None => forall|name: Seq<char>| !given.contains_key(name),
    }
}

/// The complaint about a name that the rule does not know.
pub open spec fn not_allowed_text(name: Seq<char>) -> Seq<char> {
    "Param '"@ + name + "' not allowed for this API"@
}

/// The complaint about a value that the rule does not list for its name.
pub open spec fn invalid_value_text(value: Seq<char>, name: Seq<char>) -> Seq<char> {
    "Invalid value '"@ + value + "' for param '"@ + name + "'"@
}

/// The complaint about parameters for an endpoint that takes none.
pub open spec fn no_params_text(api: GeoNamesApi) -> Seq<char> {
    "Params for api "@ + api.spec_variant_name() + " should be None"@
}

/// The complaint about one pair that the rule does not accept.
pub open spec fn complaint_about(rule: Map<Seq<char>, Seq<Seq<char>>>, pair: Pair) -> Seq<char> {
    if !rule.contains_key(pair.0) {
        not_allowed_text(pair.0)
    } else {
        invalid_value_text(pair.1, pair.0)
    }
}

/// Whether the pair at `index` is the first that the rule does not accept.
pub open spec fn first_rejected(
    rule: Map<Seq<char>, Seq<Seq<char>>>,
    pairs: Seq<Pair>,
    index: int,
) -> bool {
    &&& 0 <= index < pairs.len()
    &&& !rule_accepts(rule, pairs[index].0, pairs[index].1)
    &&& forall|j: int| 0 <= j < index ==> rule_accepts(rule, (#[trigger] pairs[j]).0, pairs[j].1)
}

/// Whether `text` is the complaint that the parameters `pairs` earn: under a
/// rule it names the first pair that the rule does not accept.
pub open spec fn is_complaint(
    api: GeoNamesApi,
    rule: Option<Map<Seq<char>, Seq<Seq<char>>>>,
    pairs: Seq<Pair>,
    text: Seq<char>,
) -> bool {
    match rule {
        None => text == no_params_text(api),
        Some(rule) => exists|index: int| #[trigger]
            first_rejected(rule, pairs, index) && text == complaint_about(rule, pairs[index]),
    }
}

/// Where names are distinct, a mapping is acceptable under a rule exactly
/// when each of its pairs is.
pub proof fn lemma_acceptable_by_pairs(rule: Map<Seq<char>, Seq<Seq<char>>>, pairs: Seq<Pair>)
    requires
        distinct_names(pairs),
    ensures
        params_acceptable(Some(rule), pairs_map(pairs)) == (forall|i: int|
            0 <= i < pairs.len() ==> rule_accepts(rule, (#[trigger] pairs[i]).0, pairs[i].1)),
{
    let given = pairs_map(pairs);
    if forall|i: int| 0 <= i < pairs.len() ==> rule_accepts(rule, (#[trigger] pairs[i]).0, pairs[i].1) {
        assert forall|name: Seq<char>| #[trigger] given.contains_key(name) implies rule_accepts(
            rule,
            name,
            given[name],
        ) by {
            lemma_pairs_map_keys(pairs, name);
            let i = choose|i: int| 0 <= i < pairs.len() && (#[trigger] pairs[i]).0 == name;
            lemma_pairs_map_value(pairs, i);
        }
    } else {
        let i = choose|i: int|
            0 <= i < pairs.len() && !rule_accepts(rule, (#[trigger] pairs[i]).0, pairs[i].1);
        lemma_pairs_map_value(pairs, i);
    }
}

/// An endpoint without a rule accepts a mapping exactly when it has no pair.
pub proof fn lemma_acceptable_without_rule(pairs: Seq<Pair>)
    ensures
        params_acceptable(None, pairs_map(pairs)) == (pairs.len() == 0),
{
    if pairs.len() > 0 {
        lemma_pairs_map_keys(pairs, pairs[0].0);
    }
}

fn not_allowed(name: &str) -> (error: ApiError)
    ensures
        error matches ApiError::InvalidParams(text) && text@ == not_allowed_text(name@),
{
    ApiError::InvalidParams(concat3("Param '", name, "' not allowed for this API"))
}

fn invalid_value(value: &str, name: &str) -> (error: ApiError)
    ensures
        error matches ApiError::InvalidParams(text) && text@ == invalid_value_text(value@, name@),
{
    let mut text = concat3("Invalid value '", value, "' for param '");
    text.append(name);
    text.append("'");
    ApiError::InvalidParams(text)
}

fn no_params(api: GeoNamesApi) -> (error: ApiError)
    ensures
        error matches ApiError::InvalidParams(text) && text@ == no_params_text(api),
{
    ApiError::InvalidParams(concat3("Params for api ", api.variant_name(), " should be None"))
}

/// Holds the parameters of a call against a rule; `api` is the endpoint that
/// a complaint names where there is no rule.
///
/// The call is in order exactly when `params_acceptable` says so. Where it is
/// not, the error is `InvalidParams`, and its text is the complaint about the
/// first pair that the rule does not accept, or about parameters as such
/// where the endpoint takes none.
#[verifier::loop_isolation(false)]
pub fn check_params(
    api: GeoNamesApi,
    rule: &Option<ParameterRule>,
    params: &Option<CallParameters>,
) -> (checked: Result<(), ApiError>)
    ensures
        given_consistent(*params),
        match checked {
            Ok(_) => params_acceptable(rule_of(*rule), given_map(*params)),
            Err(error) => {
                &&& !params_acceptable(rule_of(*rule), given_map(*params))
                &&& error matches ApiError::InvalidParams(text)
                &&& is_complaint(api, rule_of(*rule), given_pairs(*params), text@)
            },
        },
{
    let params = match params {
        Some(params) => params,
        None => {
            return Ok(());
        },
    };
    let count = params.len();
    let rule = match rule {
        Some(rule) => rule,
        None => {
            proof {
                lemma_acceptable_without_rule(params.pairs());
            }
            if count == 0 {
                return Ok(());
            } else {
                return Err(no_params(api));
            }
        },
    };
    proof {
        lemma_acceptable_by_pairs(rule@, params.pairs());
    }
    let mut i: usize = 0;
    while i < count
        invariant
            i <= count,
            count == params.pairs().len(),
            forall|j: int|
                0 <= j < i ==> rule_accepts(rule@, (#[trigger] params.pairs()[j]).0, params.pairs()[j].1),
        decreases count - i,
    {
        let (name, value) = params.pair_at(i);
        match rule.get(name) {
            None => {
                assert(first_rejected(rule@, params.pairs(), i as int));
                return Err(not_allowed(name));
            },
            Some(allowed) => {
                if allowed.len() != 0 && !one_of(allowed, value) {
                    assert(first_rejected(rule@, params.pairs(), i as int));
                    return Err(invalid_value(value, name));
                }
            },
        }
        i = i + 1;
    }
    Ok(())
}

} // verus!
