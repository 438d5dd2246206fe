//! The client of one endpoint: what it validates and where it sends.

use crate::config::GeoNamesApi;
use crate::error::ApiError;
use crate::params::{given_consistent, given_map, given_pairs, CallParameters, Pair};
use crate::registry::{allowed_rule, rule_for};
use crate::request::{build_address, is_address, query_pairs, request_target, target_text};
use crate::rules::ParameterRule;
use crate::validation::{check_params, is_complaint, params_acceptable};
use vstd::prelude::*;

verus! {

/// What a client is made of.
pub struct ClientView {
    /// The endpoint that the client calls.
    pub api: GeoNamesApi,
    /// The name under which the client calls.
    pub username: Seq<char>,
    /// The token of the commercial tier, where the client has one.
    pub token: Option<Seq<char>>,
}

/// A client of one endpoint, with the credentials under which it calls.
#[derive(Debug)]
pub struct ApiClient {
    api: GeoNamesApi,
    username: &'static str,
    token: Option<&'static str>,
}

impl View for ApiClient {
    type V = ClientView;

    closed spec fn view(&self) -> ClientView {
        ClientView {
            api: self.api,
            username: self.username@,
            token: match self.token {
                Some(token) => Some(token@),
                None => None,
            },
        }
    }
}

/// Something that calls one endpoint of the service.
pub trait ApiEndpoint {
    /// The endpoint that is called.
    spec fn endpoint(&self) -> GeoNamesApi;

    /// What the endpoint accepts. `None` stands for an endpoint that takes no
    /// parameters at all.
    fn allowed_params(&self) -> (rule: Option<ParameterRule>)
        ensures
            match rule {
                Some(rule) => allowed_rule(self.endpoint()) == Some(rule@),
                None => allowed_rule(self.endpoint()) is None,
            },
    ;
}

impl ApiEndpoint for ApiClient {
    open spec fn endpoint(&self) -> GeoNamesApi {
        self@.api
    }

    fn allowed_params(&self) -> (rule: Option<ParameterRule>) {
        rule_for(self.api)
    }
}

/// What `request_url` owes for a client and the parameters of a call.
///
/// Parameters that the endpoint does not accept earn `InvalidParams`, with
/// the complaint as its text. Otherwise the target is parsed; where that
/// fails, or where the query outgrows the address, the error is `UrlParse`.
/// Otherwise the result is the text of the parsed target with the query
/// added to it pair by pair.
pub open spec fn is_request_url(
    client: ClientView,
    given: Map<Seq<char>, Seq<char>>,
    pairs: Seq<Pair>,
    outcome: Result<String, ApiError>,
) -> bool {
    let rule = allowed_rule(client.api);
    let target = request_target(client.api, client.token is Some);
    let query = query_pairs(pairs, client.token, client.username);
    if !params_acceptable(rule, given) {
        outcome matches Err(ApiError::InvalidParams(text)) && is_complaint(
            client.api,
            rule,
            pairs,
            text@,
        )
    } else {
        is_address(target, query, outcome)
    }
}

impl ApiClient {
    /// A client of `api` that calls under `username`, on the commercial tier
    /// where a token is given.
    pub fn new(api: GeoNamesApi, username: &'static str, token: Option<&'static str>) -> (client:
        Self)
        ensures
            client@ == (ClientView {
                api,
                username: username@,
                token: match token {
                    Some(token) => Some(token@),
                    None => None,
                },
            }),
    {
        ApiClient { api, username, token }
    }

    /// The endpoint that the client calls.
    pub fn api(&self) -> (api: GeoNamesApi)
        ensures
            api == self@.api,
    {
        self.api
    }

    /// The name under which the client calls.
    pub fn username(&self) -> (username: &'static str)
        ensures
            username@ == self@.username,
    {
        self.username
    }

    /// The token of the commercial tier, where the client has one.
    pub fn token(&self) -> (token: Option<&'static str>)
        ensures
            match token {
                Some(token) => self@.token == Some(token@),
                None => self@.token is None,
            },
    {
        self.token
    }

    /// Holds the parameters of a call against what the endpoint accepts.
    ///
    /// The call is in order exactly when every parameter is one that the
    /// endpoint's rule accepts. Where it is not, the error is
    /// `InvalidParams`, and its text is the complaint about the first pair
    /// that the rule does not accept, or about parameters as such where the
    /// endpoint takes none.
    pub fn validate(&self, params: &Option<CallParameters>) -> (checked: Result<(), ApiError>)
        ensures
            given_consistent(*params),
            match checked {
                Ok(_) => params_acceptable(allowed_rule(self@.api), given_map(*params)),
                Err(error) => {
                    &&& !params_acceptable(allowed_rule(self@.api), given_map(*params))
                    &&& error matches ApiError::InvalidParams(text)
                    &&& is_complaint(
                        self@.api,
                        allowed_rule(self@.api),
                        given_pairs(*params),
                        text@,
                    )
                },
            },
    {
        let rule = self.allowed_params();
        check_params(self.api, &rule, params)
    }

    /// The address to which a call with the parameters `params` goes: the
    /// endpoint's path on the host of the client's tier, then the parameters
    /// in the order in which they were given, then the token where the
    /// client has one, then the user's name.
    ///
    /// Nothing is sent. Parameters that the endpoint does not accept are
    /// refused before the address is formed.
    pub fn request_url(&self, params: Option<CallParameters>) -> (outcome: Result<String, ApiError>)
        ensures
            given_consistent(params),
            is_request_url(self@, given_map(params), given_pairs(params), outcome),
    {
        match self.validate(&params) {
            Err(error) => Err(error),
            Ok(_) => {
                let target = target_text(self.api, self.token.is_some());
                build_address(target.as_str(), &params, self.token, self.username)
            },
        }
    }
}

} // verus!
