//! What one request brings to the introspector.

use vstd::prelude::*;

verus! {

/// The request's `Authorization` header and the identity provider's
/// coordinates. Connections to the cache store and to the provider are held
/// by whoever drives the protocol, not here.
#[derive(Clone, Debug)]
pub struct Context {
    pub auth_header: Option<String>,
    pub auth_base_url: String,
    pub auth_project_id: String,
    pub auth_server_token: String,
}

/// The model of a `Context`.
pub struct ContextModel {
    pub auth_header: Option<Seq<char>>,
    pub auth_base_url: Seq<char>,
    pub auth_project_id: Seq<char>,
    pub auth_server_token: Seq<char>,
}

impl View for Context {
    type V = ContextModel;

    open spec fn view(&self) -> ContextModel {
        ContextModel {
            auth_header: match self.auth_header {
                Some(header) => Some(header@),
                None => None,
            },
            auth_base_url: self.auth_base_url@,
            auth_project_id: self.auth_project_id@,
            auth_server_token: self.auth_server_token@,
        }
    }
}

} // verus!
