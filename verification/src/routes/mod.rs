//! Routing of incoming requests and the bookkeeping around forwarding a
//! request to a worker.

pub mod proxy;

use vstd::prelude::*;
use crate::utils::text::{has_prefix, starts_with_text, text_equals};

verus! {

/// Where a request goes.
#[derive(Debug, Clone, Copy, PartialEq, Eq, Structural)]
pub enum Route {
    /// `GET /admin/strategy`: report the strategy in use.
    GetStrategy,
    /// `POST /admin/strategy`: change the strategy.
    ChangeStrategy,
    /// `GET /admin/metrics`: report the metrics of every worker.
    Metrics,
    /// `GET /admin/decision-status`: report the state of adaptive switching.
    DecisionStatus,
    /// Any other path under `/admin`: not found.
    AdminNotFound,
    /// Everything else is forwarded to a worker.
    Proxy,
}

/// The route of a request with the given method and path.
pub open spec fn route_of(method: Seq<char>, path: Seq<char>) -> Route {
    if has_prefix(path, "/admin"@) {
        if method == "GET"@ && path == "/admin/strategy"@ {
            Route::GetStrategy
        } else if method == "POST"@ && path == "/admin/strategy"@ {
            Route::ChangeStrategy
        } else if method == "GET"@ && path == "/admin/metrics"@ {
            Route::Metrics
        } else if method == "GET"@ && path == "/admin/decision-status"@ {
            Route::DecisionStatus
        } else {
            Route::AdminNotFound
        }
    } else {
        Route::Proxy
    }
}

/// Only paths that begin with `/admin` reach the administrative API: every
/// other path, whatever the method, is forwarded to a worker, and no path
/// that begins with `/admin` is.
pub proof fn lemma_only_admin_paths_reach_admin(method: Seq<char>, path: Seq<char>)
    ensures
        !(path.len() >= 6 && path.subrange(0, 6) == "/admin"@) ==> route_of(method, path) == Route::Proxy,
        (path.len() >= 6 && path.subrange(0, 6) == "/admin"@) ==> route_of(method, path) != Route::Proxy,
{
    reveal_strlit("/admin");
}

/// Route a request: paths under `/admin` go to the administrative API,
/// everything else to the workers.
pub fn route_request(method: &str, path: &str) -> (r: Route)
    ensures
        r == route_of(method@, path@),
{
    if starts_with_text(path, "/admin") {
        if text_equals(method, "GET") && text_equals(path, "/admin/strategy") {
            Route::GetStrategy
        } else if text_equals(method, "POST") && text_equals(path, "/admin/strategy") {
            Route::ChangeStrategy
        } else if text_equals(method, "GET") && text_equals(path, "/admin/metrics") {
            Route::Metrics
        } else if text_equals(method, "GET") && text_equals(path, "/admin/decision-status") {
            Route::DecisionStatus
        } else {
            Route::AdminNotFound
        }
    } else {
        Route::Proxy
    }
}

} // verus!
