//! The load balancing strategy kinds.

use vstd::prelude::*;
use vstd::string::*;
use vstd::utf8::is_ascii_chars;
use crate::domain::error::LoadBalancerError;
use crate::utils::text::{ascii_lowercase, lowercase_text, text_equals, to_lowercase};

verus! {

/// Load balancing strategy kind.
#[derive(Debug, Clone, Copy, PartialEq, Eq, Structural)]
pub enum StrategyType {
    RoundRobin,
    LeastConnections,
}

impl StrategyType {
    /// The name of the strategy in API responses.
    pub open spec fn name(self) -> Seq<char> {
        match self {
            StrategyType::RoundRobin => "round_robin"@,
            StrategyType::LeastConnections => "least_connections"@,
        }
    }

    /// The strategy with the given name, if any.
    pub open spec fn from_name(name: Seq<char>) -> Option<StrategyType> {
        if name == "round_robin"@ {
            Some(StrategyType::RoundRobin)
        } else if name == "least_connections"@ {
            Some(StrategyType::LeastConnections)
        } else {
            None
        }
    }

    /// The strategy whose name a text holds once lowercased, if any.
    pub open spec fn parse_spec(s: Seq<char>) -> Option<StrategyType> {
        StrategyType::from_name(lowercase_text(s))
    }

    /// Get the strategy name as a string for API responses.
    pub fn as_str(&self) -> (r: &'static str)
        ensures
            r@ == self.name(),
    {
        match self {
            StrategyType::RoundRobin => "round_robin",
            StrategyType::LeastConnections => "least_connections",
        }
    }

    /// Parse a strategy from its name, ignoring case.
    pub fn from_str(s: &str) -> (r: Result<Self, LoadBalancerError>)
        ensures
            match StrategyType::parse_spec(s@) {
                Some(t) => r == Ok::<StrategyType, LoadBalancerError>(t),
                None => r matches Err(LoadBalancerError::InvalidStrategy { strategy })
                    && strategy@ == s@,
            },
            forall|t: StrategyType| s@ == t.name() ==> r == Ok::<StrategyType, LoadBalancerError>(t),
            is_ascii_chars(s@) ==> match StrategyType::from_name(ascii_lowercase(s@)) {
                Some(t) => r == Ok::<StrategyType, LoadBalancerError>(t),
                None => r matches Err(LoadBalancerError::InvalidStrategy { strategy }) && strategy@ == s@,
            },
    {
        let lower = to_lowercase(s);
        proof {
            lemma_names_are_lowercase_ascii();
        }
        if text_equals(lower.as_str(), "round_robin") {
            Ok(StrategyType::RoundRobin)
        } else if text_equals(lower.as_str(), "least_connections") {
            Ok(StrategyType::LeastConnections)
        } else {
            Err(LoadBalancerError::invalid_strategy(s))
        }
    }
}

/// The strategy names are distinct, made of ASCII characters, and equal to
/// their ASCII lowercase form.
pub proof fn lemma_names_are_lowercase_ascii()
    ensures
        forall|t: StrategyType| #[trigger] is_ascii_chars(t.name()),
        forall|t: StrategyType|
            ascii_lowercase(#[trigger] t.name()) == t.name(),
        StrategyType::RoundRobin.name() != StrategyType::LeastConnections.name(),
{
    reveal_strlit("round_robin");
    reveal_strlit("least_connections");
    assert(is_ascii_chars(StrategyType::RoundRobin.name()));
    assert(is_ascii_chars(StrategyType::LeastConnections.name()));
    assert(ascii_lowercase(StrategyType::RoundRobin.name()) =~= StrategyType::RoundRobin.name());
    assert(ascii_lowercase(StrategyType::LeastConnections.name()) =~= StrategyType::LeastConnections.name());
    assert(StrategyType::RoundRobin.name().len() != StrategyType::LeastConnections.name().len());
    assert forall|t: StrategyType| #[trigger] is_ascii_chars(t.name()) by {
        match t {
            StrategyType::RoundRobin => {},
            StrategyType::LeastConnections => {},
        }
    }
    assert forall|t: StrategyType|
        ascii_lowercase(#[trigger] t.name()) == t.name() by {
        match t {
            StrategyType::RoundRobin => {},
            StrategyType::LeastConnections => {},
        }
    }
}

} // verus!
