//! Where the service listens and who may call it from a browser.

use vstd::prelude::*;
use crate::routes::Method;

verus! {

/// The socket address to which the service binds.
pub const BIND_ADDRESS: &'static str = "0.0.0.0:8080";

/// The one origin whose pages may call the service.
pub const ALLOWED_ORIGIN: &'static str = "http://localhost:4200";

/// The name of the variable from which the service reads the connection
/// string of its database. The service does not start without it.
pub const DATABASE_URL_VARIABLE: &'static str = "DATABASE_URL";

/// The methods that a page of the allowed origin may use.
pub open spec fn allowed_methods_spec() -> Seq<Method> {
    seq![Method::Get, Method::Post, Method::Delete, Method::Options]
}

/// The methods that a page of the allowed origin may use. Any header is
/// allowed with them.
pub fn allowed_methods() -> (methods: Vec<Method>)
    ensures
        methods@ == allowed_methods_spec(),
{
    let mut methods: Vec<Method> = Vec::new();
    methods.push(Method::Get);
    methods.push(Method::Post);
    methods.push(Method::Delete);
    methods.push(Method::Options);
    assert(methods@ =~= allowed_methods_spec());
    methods
}

/// What the service lets the pages of other origins do.
#[derive(Clone, Debug, PartialEq, Eq)]
pub struct CorsPolicy {
    /// The one origin whose pages may call the service.
    pub origin: &'static str,
    /// The methods that such a page may use.
    pub methods: Vec<Method>,
    /// Whether such a page may send any header.
    pub any_header: bool,
}

impl CorsPolicy {
    /// The policy of the service: one fixed origin, the four methods, any
    /// header.
    pub open spec fn is_service_policy(self) -> bool {
        &&& self.origin@ == ALLOWED_ORIGIN@
        &&& self.methods@ == allowed_methods_spec()
        &&& self.any_header
    }
}

/// The policy of the service.
pub fn cors_policy() -> (policy: CorsPolicy)
    ensures
        policy.is_service_policy(),
{
    CorsPolicy { origin: ALLOWED_ORIGIN, methods: allowed_methods(), any_header: true }
}

/// Every method under which an operation is registered is allowed.
pub proof fn lemma_registered_methods_are_allowed(endpoint: crate::routes::Endpoint)
    ensures
        allowed_methods_spec().contains(endpoint.method_spec()),
{
    let methods = allowed_methods_spec();
    assert(methods[0] == Method::Get);
    assert(methods[1] == Method::Post);
    assert(methods[2] == Method::Delete);
}

} // verus!
