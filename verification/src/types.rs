//! The host-facing endpoint and project descriptors.
use vstd::prelude::*;

verus! {

/// The HTTP method of an endpoint.
#[derive(Clone, Copy, PartialEq, Eq, Structural, Debug)]
pub enum ApiEndpointMethod {
    Get,
    Post,
}

/// One endpoint, as the host application describes it: a URL path, a
/// method, a tag, and an optional raw declaration string.
pub trait ApiEndpoint {
    fn get_url_path(&self) -> &str;

    fn get_endpoint_method(&self) -> &ApiEndpointMethod;

    fn get_endpoint_tag(&self) -> &str {
        "api"
    }

    fn get_yml_declaration_str(&self) -> Option<&str>;
}

/// A project: a titled, versioned collection of endpoints.
pub trait ApiProject {
    type Endpoint: ApiEndpoint;

    fn get_title(&self) -> &str;

    fn get_version(&self) -> &str {
        "0.1.0"
    }

    fn get_endpoints(&self) -> &Vec<Self::Endpoint>;
}

} // verus!
