//! Request middleware: a passthrough that intercepts the fixed health-check
//! path and any registered custom paths, and forwards every other request
//! unmodified. The routing decision is made here; the transport layer only
//! carries it out.

use vstd::prelude::*;

verus! {

/// The reply to a custom URL endpoint, when the path names one. No custom
/// endpoints are registered.
pub fn process_rest(path: &str) -> (r: Option<String>)
    ensures
        r is None,
{
    let _ = path;
    None
}

/// What the middleware decides for one request path.
#[derive(Clone, Debug, PartialEq, Eq)]
pub enum RouteAction {
    /// Answer directly with this body and status OK.
    Respond(String),
    /// Hand the request on to the JSON-RPC dispatcher.
    Forward,
}

/// The request middleware.
#[derive(Clone, Debug)]
pub struct RpcRequestMiddleware {}

impl RpcRequestMiddleware {
    pub fn new(_log_path: String) -> (r: Self) {
        RpcRequestMiddleware {  }
    }

    /// The body answered to a health check.
    pub fn health_check(&self) -> (r: &'static str)
        ensures
            r@ == "ok"@,
    {
        let response = "ok";
        response
    }

    /// Decide one request by its path: a registered custom path or the
    /// health-check path is answered directly, everything else forwarded.
    pub fn route_request(&self, path: &str) -> (r: RouteAction)
        ensures
            path@ == "/health"@ ==> (r matches RouteAction::Respond(body) && body@ == "ok"@),
            path@ != "/health"@ ==> r == RouteAction::Forward,
    {
        if let Some(result) = process_rest(path) {
            return RouteAction::Respond(result);
        }
        let p = String::from_str(path);
        let health = String::from_str("/health");
        if p == health {
            RouteAction::Respond(String::from_str(self.health_check()))
        } else {
            RouteAction::Forward
        }
    }
}

} // verus!
