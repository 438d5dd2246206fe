//! A typed client core for the GeoNames geographic web service.
//!
//! The crate holds everything about a call that can be decided without
//! touching the network: which parameters an endpoint accepts, which address
//! a request goes to, and how the answer's JSON document becomes a typed
//! value. Sending the request is left to the caller.

pub mod client;
pub mod config;
pub mod error;
pub mod json;
pub mod laws;
pub mod params;
pub mod registry;
pub mod request;
pub mod response;
pub mod rules;
pub mod shapes;
pub mod text;
pub mod validation;

pub use client::{ApiClient, ApiEndpoint};
pub use config::{Format, GeoNamesApi, BASE_URI, BASE_URI_COMMERCIAL};
pub use error::ApiError;
pub use json::Json;
pub use params::CallParameters;
pub use response::{read_response, ApiResponse};
pub use rules::ParameterRule;
pub use shapes::addresses::{
    Address, AddressResponse, FindNearbyByPoisOsmResponse, FindNearbyStreetsOSMResponse,
    GeoCodeAddress, GeoCodeAddressResponse, Poi, StreetNameLookupAddress,
    StreetNameLookupResponse, StreetSegment,
};
pub use shapes::countries::{
    CountryCodeResponse, CountrySubvisionCode, Ocean, OceanResponse,
    PostalCodeCountryInfoGeoname, PostalCodeCountryInfoResponse,
};
pub use shapes::places::{
    AdminCodes1, AlternateName, ChildrenResponse, ContainsResponse, FindNearbyPlaceResponse,
    FindNearbyResponse, Geoname, GeonameHierarchy, GeonameNearbyPlace, HierarchyResponse,
    NeighboursGeoname, NeighboursResponse, SearchResponse, SiblingGeoname, SiblingsResponse,
};
