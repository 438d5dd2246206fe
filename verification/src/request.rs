//! The address of a request: the endpoint's path on the host of the right
//! tier, followed by the query.
//!
//! Parsing the address and encoding the query are the work of the `url`
//! crate. What that crate returns is named here, not restated.

use crate::config::{Format, GeoNamesApi, BASE_URI, BASE_URI_COMMERCIAL};
use crate::error::ApiError;
use crate::params::{given_pairs, CallParameters, Pair};
use crate::text::{concat2, concat3};
use vstd::prelude::*;

verus! {

/// `url::Url`: a parsed address, carried as it is.
#[verifier::external_type_specification]
#[verifier::external_body]
pub struct ExUrl(url::Url);

/// `url::ParseError`: why a text is no address, carried as it is.
#[verifier::external_type_specification]
#[verifier::external_body]
pub struct ExUrlParseError(url::ParseError);

/// The text of a parsed address: what `url::Url` holds as its serialization.
pub uninterp spec fn url_text(url: url::Url) -> Seq<char>;

/// What `url::Url::parse` makes of a text: the address's serialization, or
/// the reason why the text is no absolute address.
pub uninterp spec fn parsed_url(input: Seq<char>) -> Result<Seq<char>, Seq<char>>;

/// The reason that a `url::ParseError` gives when it is displayed.
pub uninterp spec fn parse_error_text(error: url::ParseError) -> Seq<char>;

/// The text of an address after `append_pair` has added one name and value
/// to the query of the address with the text `text`.
pub uninterp spec fn url_with_pair(text: Seq<char>, name: Seq<char>, value: Seq<char>) -> Seq<
    char,
>;

/// `url::Url::parse`: the outcome depends on the text alone.
#[verifier::external_body]
pub(crate) fn parse_url(input: &str) -> (parsed: Result<url::Url, url::ParseError>)
    ensures
        match parsed {
            Ok(url) => parsed_url(input@) == Ok::<Seq<char>, Seq<char>>(url_text(url)),
            Err(error) => parsed_url(input@) == Err::<Seq<char>, Seq<char>>(
                parse_error_text(error),
            ),
        },
{
    url::Url::parse(input)
}

/// The `Display` text of a `url::ParseError`.
#[verifier::external_body]
pub(crate) fn parse_error_message(error: &url::ParseError) -> (message: String)
    ensures
        message@ == parse_error_text(*error),
{
    error.to_string()
}

/// `url::Url::as_str`: the address's serialization.
#[verifier::external_body]
pub(crate) fn url_as_str(url: &url::Url) -> (text: &str)
    ensures
        text@ == url_text(*url),
{
    url.as_str()
}

/// `url::Url::query_pairs_mut` followed by `append_pair` on what it returns.
/// The new text depends on the old text, the name and the value alone.
///
/// The crate records positions in the text as 32-bit numbers and panics
/// where one does not fit. The call adds a separator, the name, `=` and the
/// value, and its encoding writes at most three bytes for each byte of the
/// name and of the value, so `pair_fits` keeps every position in range.
#[verifier::external_body]
pub(crate) fn append_pair(url: &mut url::Url, name: &str, value: &str)
    requires
        pair_fits(url_text(*old(url)), name@, value@),
    ensures
        url_text(*final(url)) == url_with_pair(url_text(*old(url)), name@, value@),
{
    url.query_pairs_mut().append_pair(name, value);
}

/// The number of bytes that a text takes.
pub open spec fn utf8_len(text: Seq<char>) -> nat {
    vstd::utf8::encode_utf8(text).len()
}

/// Whether an address with the text `text` has room for one more name and
/// value: the result stays within the 4 GB that an address may take, however
/// the name and the value are encoded.
pub open spec fn pair_fits(text: Seq<char>, name: Seq<char>, value: Seq<char>) -> bool {
    utf8_len(text) + 3 * utf8_len(name) + 3 * utf8_len(value) + 3 <= u32::MAX
}

/// The text of an address after each of `pairs` was added to its query in
/// turn, or `None` where one of them does not fit.
pub open spec fn url_with_pairs(text: Seq<char>, pairs: Seq<Pair>) -> Option<Seq<char>>
    decreases pairs.len(),
{
    if pairs.len() == 0 {
        Some(text)
    } else if !pair_fits(text, pairs[0].0, pairs[0].1) {
        None
    } else {
        url_with_pairs(url_with_pair(text, pairs[0].0, pairs[0].1), pairs.skip(1))
    }
}

/// The address of the tier: the commercial one where a token is at hand.
pub open spec fn base_uri(commercial: bool) -> Seq<char> {
    if commercial {
        BASE_URI_COMMERCIAL@
    } else {
        BASE_URI@
    }
}

/// The text that is parsed into the address of a request: the tier's
/// address, the endpoint's name, and the name of the format.
pub open spec fn request_target(api: GeoNamesApi, commercial: bool) -> Seq<char> {
    base_uri(commercial) + api.spec_wire_name() + Format::Json.spec_wire_name()
}

/// The name under which the token is sent.
pub open spec fn token_name() -> Seq<char> {
    "token"@
}

/// The name under which the user's name is sent.
pub open spec fn username_name() -> Seq<char> {
    "username"@
}

/// The query of a request: the caller's parameters, then the token where
/// there is one, then the user's name.
pub open spec fn query_pairs(
    params: Seq<Pair>,
    token: Option<Seq<char>>,
    username: Seq<char>,
) -> Seq<Pair> {
    let credentials = match token {
        Some(token) => seq![(token_name(), token), (username_name(), username)],
        None => seq![(username_name(), username)],
    };
    params + credentials
}

/// The text that is parsed into the address of a request.
pub fn target_text(api: GeoNamesApi, commercial: bool) -> (target: String)
    ensures
        target@ == request_target(api, commercial),
{
    let base = if commercial {
        BASE_URI_COMMERCIAL
    } else {
        BASE_URI
    };
    concat3(base, api.wire_name(), Format::Json.wire_name())
}

/// Adds one name and value to the query of `url` where there is room for
/// them, and says whether there was.
pub(crate) fn append_if_fits(url: &mut url::Url, name: &str, value: &str) -> (fits: bool)
    ensures
        fits == pair_fits(url_text(*old(url)), name@, value@),
        fits ==> url_text(*final(url)) == url_with_pair(url_text(*old(url)), name@, value@),
        !fits ==> *final(url) == *old(url),
{
    let used: u128 = url_as_str(url).as_bytes().len() as u128;
    let name_len: u128 = name.as_bytes().len() as u128;
    let value_len: u128 = value.as_bytes().len() as u128;
    if used + 3 * name_len + 3 * value_len + 3 <= 4294967295u128 {
        append_pair(url, name, value);
        true
    } else {
        false
    }
}

/// Adding two runs of pairs in turn is adding the two runs joined.
pub proof fn lemma_url_with_pairs_joined(text: Seq<char>, first: Seq<Pair>, second: Seq<Pair>)
    ensures
        url_with_pairs(text, first + second) == match url_with_pairs(text, first) {
            Some(longer) => url_with_pairs(longer, second),
            None => None,
        },
    decreases first.len(),
{
    if first.len() == 0 {
        assert(first + second == second);
    } else {
        assert((first + second)[0] == first[0]);
        assert((first + second).skip(1) == first.skip(1) + second);
        if pair_fits(text, first[0].0, first[0].1) {
            lemma_url_with_pairs_joined(
                url_with_pair(text, first[0].0, first[0].1),
                first.skip(1),
                second,
            );
        }
    }
}

/// Adds the parameters of a call to the query of `url`, as far as they fit,
/// and says whether all of them did.
fn append_params(url: &mut url::Url, params: &CallParameters) -> (fits: bool)
    ensures
        match url_with_pairs(url_text(*old(url)), params.pairs()) {
            Some(longer) => fits && url_text(*final(url)) == longer,
            None => !fits,
        },
{
    let count = params.len();
    let mut i: usize = 0;
    assert(params.pairs().skip(0) == params.pairs());
    while i < count
        invariant
            i <= count,
            count == params.pairs().len(),
            url_with_pairs(url_text(*old(url)), params.pairs()) == url_with_pairs(
                url_text(*url),
                params.pairs().skip(i as int),
            ),
        decreases count - i,
    {
        let (name, value) = params.pair_at(i);
        assert(params.pairs().skip(i as int)[0] == params.pairs()[i as int]);
        assert(params.pairs().skip(i as int).skip(1) == params.pairs().skip(i + 1));
        if !append_if_fits(url, name, value) {
            return false;
        }
        i = i + 1;
    }
    true
}

/// The text of a token, where there is one.
pub open spec fn token_text(token: Option<&str>) -> Option<Seq<char>> {
    match token {
        Some(token) => Some(token@),
        None => None,
    }
}

/// The text of the error for an address that cannot be parsed.
pub open spec fn unparsable_text(reason: Seq<char>) -> Seq<char> {
    "Failed to parse URL: "@ + reason
}

/// The text of the error for an address that outgrows what an address may
/// take.
pub open spec fn oversized_text() -> Seq<char> {
    "Failed to parse URL: URLs more than 4 GB are not supported"@
}

/// Whether `outcome` is what parsing `target` and adding `query` to it
/// gives: the text of the address, or `UrlParse` where the target is no
/// address or the query outgrows it.
pub open spec fn is_address(
    target: Seq<char>,
    query: Seq<Pair>,
    outcome: Result<String, ApiError>,
) -> bool {
    match parsed_url(target) {
        Err(reason) => outcome matches Err(ApiError::UrlParse(text)) && text@ == unparsable_text(
            reason,
        ),
        Ok(address) => match url_with_pairs(address, query) {
            None => outcome matches Err(ApiError::UrlParse(text)) && text@ == oversized_text(),
            Some(longer) => outcome matches Ok(text) && text@ == longer,
        },
    }
}

fn oversized() -> (error: ApiError)
    ensures
        error matches ApiError::UrlParse(text) && text@ == oversized_text(),
{
    ApiError::UrlParse(
        String::from_str("Failed to parse URL: URLs more than 4 GB are not supported"),
    )
}

/// Parses `target` and adds the query of a call to it: the parameters in
/// the order in which they were given, then the token where there is one,
/// then the user's name.
pub fn build_address(
    target: &str,
    params: &Option<CallParameters>,
    token: Option<&str>,
    username: &str,
) -> (outcome: Result<String, ApiError>)
    ensures
        is_address(
            target@,
            query_pairs(given_pairs(*params), token_text(token), username@),
            outcome,
        ),
{
    let mut url = match parse_url(target) {
        Err(error) => {
            let reason = parse_error_message(&error);
            return Err(ApiError::UrlParse(concat2("Failed to parse URL: ", reason.as_str())));
        },
        Ok(url) => url,
    };
    let ghost address = url_text(url);
    let ghost pairs = given_pairs(*params);
    let ghost credentials = match token {
        Some(token) => seq![(token_name(), token@), (username_name(), username@)],
        None => seq![(username_name(), username@)],
    };
    proof {
        lemma_url_with_pairs_joined(address, pairs, credentials);
        reveal_with_fuel(url_with_pairs, 3);
    }
    assert(query_pairs(pairs, token_text(token), username@) == pairs + credentials);
    if let Some(given) = params {
        if !append_params(&mut url, given) {
            return Err(oversized());
        }
    }
    assert(url_with_pairs(address, pairs + credentials) == url_with_pairs(
        url_text(url),
        credentials,
    ));
    let ghost before_token = url_text(url);
    if let Some(token) = token {
        assert(credentials.skip(1) == seq![(username_name(), username@)]);
        if !append_if_fits(&mut url, "token", token) {
            return Err(oversized());
        }
    }
    let ghost last = seq![(username_name(), username@)];
    assert(url_with_pairs(before_token, credentials) == url_with_pairs(url_text(url), last));
    assert(last.skip(1) == Seq::<Pair>::empty());
    if !append_if_fits(&mut url, "username", username) {
        return Err(oversized());
    }
    Ok(String::from_str(url_as_str(&url)))
}

} // verus!
