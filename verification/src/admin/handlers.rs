//! What a request to change the strategy by name leads to.

use vstd::prelude::*;
use vstd::string::*;
use crate::strategy::algorithms::LoadBalancingStrategy;
use crate::load_balancer::pool::{strategy_name_of, LoadBalancer};
use crate::utils::models::{ChangeStrategyRequest, ChangeStrategyResponse, StrategyResponse};
use crate::utils::text::text_equals;

verus! {

/// The outcome of a request to change the strategy.
pub enum StrategyChangePlan {
    /// The requested strategy is already active; nothing changes.
    AlreadyActive(ChangeStrategyResponse),
    /// Install the new strategy and answer with the response.
    Switch { strategy: LoadBalancingStrategy, response: ChangeStrategyResponse },
    /// The requested name is no strategy; `details` says so.
    Invalid { details: String },
}

/// The message for a strategy that is already active.
pub open spec fn already_active_message(name: Seq<char>) -> Seq<char> {
    "Strategy '"@ + name + "' is already active"@
}

/// The details for a name that is no strategy.
pub open spec fn invalid_name_details(name: Seq<char>) -> Seq<char> {
    "'"@ + name
        + "' is not a valid strategy. Valid strategies are: 'round_robin', 'least_connections'"@
}

/// Decide what a request to change the strategy leads to, given the name of
/// the strategy in use and the number of workers. Names compare exactly.
pub fn plan_strategy_change(
    current_name: &str,
    request: &ChangeStrategyRequest,
    worker_count: usize,
) -> (r: StrategyChangePlan)
    ensures
        request.strategy@ == current_name@ ==> (r matches StrategyChangePlan::AlreadyActive(resp)
            && resp.strategy@ == current_name@
            && resp.message@ == already_active_message(current_name@)),
        request.strategy@ != current_name@ && request.strategy@ == "round_robin"@ ==> (r matches StrategyChangePlan::Switch { strategy, response }
            && strategy == (LoadBalancingStrategy::RoundRobin { current: 0 })
            && response.strategy@ == request.strategy@
            && response.message@ == "Load balancing strategy updated successfully"@),
        request.strategy@ != current_name@ && request.strategy@ == "least_connections"@ ==> (r matches StrategyChangePlan::Switch { strategy, response }
            && strategy matches LoadBalancingStrategy::LeastConnections { connections }
            && connections@ == Seq::new(worker_count as nat, |i: int| 0usize)
            && response.strategy@ == request.strategy@
            && response.message@ == "Load balancing strategy updated successfully"@),
        request.strategy@ != current_name@ && request.strategy@ != "round_robin"@
            && request.strategy@ != "least_connections"@ ==> (r matches StrategyChangePlan::Invalid { details }
            && details@ == invalid_name_details(request.strategy@)),
{
    let requested = request.strategy.as_str();
    proof {
        reveal_strlit("round_robin");
        reveal_strlit("least_connections");
        assert("round_robin"@.len() != "least_connections"@.len());
    }
    if text_equals(requested, current_name) {
        let mut message = String::from_str("Strategy '");
        message.append(current_name);
        message.append("' is already active");
        return StrategyChangePlan::AlreadyActive(
            ChangeStrategyResponse { message, strategy: String::from_str(current_name) },
        );
    }
    let new_strategy = if text_equals(requested, "round_robin") {
        LoadBalancingStrategy::new_round_robin()
    } else if text_equals(requested, "least_connections") {
        LoadBalancingStrategy::new_least_connections(worker_count)
    } else {
        let mut details = String::from_str("'");
        details.append(requested);
        details.append("' is not a valid strategy. Valid strategies are: 'round_robin', 'least_connections'");
        return StrategyChangePlan::Invalid { details };
    };
    StrategyChangePlan::Switch {
        strategy: new_strategy,
        response: ChangeStrategyResponse {
            message: String::from_str("Load balancing strategy updated successfully"),
            strategy: request.strategy.clone(),
        },
    }
}

/// What an administrative request asks for.
pub enum AdminAction {
    /// `GET /admin/strategy`.
    ReportStrategy,
    /// `POST /admin/strategy`.
    ChangeStrategy,
    /// Anything else; `details` names the endpoints there are.
    NotFound { details: String },
}

/// The details of the answer to an unknown administrative endpoint.
pub open spec fn unknown_endpoint_details(method: Seq<char>, path: Seq<char>) -> Seq<char> {
    "'"@ + method + " "@ + path
        + "' is not a valid admin endpoint. Available: GET /admin/strategy, POST /admin/strategy"@
}

/// Dispatch an administrative request by its method and path.
pub fn admin_action(method: &str, path: &str) -> (r: AdminAction)
    ensures
        method@ == "GET"@ && path@ == "/admin/strategy"@ ==> r is ReportStrategy,
        method@ == "POST"@ && path@ == "/admin/strategy"@ ==> r is ChangeStrategy,
        !((method@ == "GET"@ || method@ == "POST"@) && path@ == "/admin/strategy"@) ==> (r matches AdminAction::NotFound { details }
            && details@ == unknown_endpoint_details(method@, path@)),
{
    proof {
        reveal_strlit("GET");
        reveal_strlit("POST");
        assert("GET"@.len() != "POST"@.len());
    }
    if text_equals(path, "/admin/strategy") {
        if text_equals(method, "GET") {
            return AdminAction::ReportStrategy;
        } else if text_equals(method, "POST") {
            return AdminAction::ChangeStrategy;
        }
    }
    let mut details = String::from_str("'");
    details.append(method);
    details.append(" ");
    details.append(path);
    details.append("' is not a valid admin endpoint. Available: GET /admin/strategy, POST /admin/strategy");
    AdminAction::NotFound { details }
}

/// The answer to `GET /admin/strategy`: the name of the strategy in use.
pub fn report_strategy(load_balancer: &LoadBalancer) -> (r: StrategyResponse)
    ensures
        r.current_strategy@ == strategy_name_of(load_balancer.current()),
{
    StrategyResponse { current_strategy: load_balancer.get_strategy_name() }
}

} // verus!
