//! The decisions around forwarding a request: which worker, which URI, and
//! what the outcome counts as.

use vstd::prelude::*;
use vstd::string::*;
use core::time::Duration;
use crate::domain::LoadBalancerError;
use crate::domain::{ema_step, WorkerMetricsView};
use crate::services::{duration_millis, record_sample, LoadBalancerService};
use crate::utils::constants::FIXED_POINT_SCALE;
use crate::utils::text::has_prefix;

verus! {

#[verifier::external_type_specification]
#[verifier::external_body]
pub struct ExUri(hyper::Uri);

#[verifier::external_type_specification]
#[verifier::external_body]
pub struct ExInvalidUri(hyper::http::uri::InvalidUri);

/// Whether `http::Uri::from_str` accepts a text as a URI.
pub uninterp spec fn parses_as_uri(s: Seq<char>) -> bool;

/// Wraps `Uri::from_str` (`http::Uri`, re-exported by hyper): the parse
/// succeeds exactly when the text is a URI, which is named `parses_as_uri`.
#[verifier::external_body]
fn parse_uri(s: &str) -> (r: Result<hyper::Uri, hyper::http::uri::InvalidUri>)
    ensures
        r is Ok <==> parses_as_uri(s@),
{
    s.parse::<hyper::Uri>()
}

/// Wraps the `Display` of `http::uri::InvalidUri`: the description of the
/// parse error. Nothing is stated of the text.
#[verifier::external_body]
fn invalid_uri_text(e: &hyper::http::uri::InvalidUri) -> String {
    e.to_string()
}

/// The message of the error for a worker URI that does not parse: it
/// starts with `Invalid worker URI <uri>: ` and goes on with the parser's
/// description.
pub open spec fn is_invalid_uri_message(uri: Seq<char>, message: Seq<char>) -> bool {
    has_prefix(message, "Invalid worker URI "@ + uri + ": "@)
}

/// Parse the URI of a request at a worker; a URI that does not parse is an
/// internal error.
pub fn worker_request_uri(uri: &str) -> (r: Result<hyper::Uri, LoadBalancerError>)
    ensures
        r is Ok <==> parses_as_uri(uri@),
        r matches Err(e) ==> e matches LoadBalancerError::Internal { message }
            && is_invalid_uri_message(uri@, message@),
{
    match parse_uri(uri) {
        Ok(u) => Ok(u),
        Err(e) => {
            let mut message = String::from_str("Invalid worker URI ");
            message.append(uri);
            message.append(": ");
            let ghost prefix = message@;
            let text = invalid_uri_text(&e);
            message.append(text.as_str());
            proof {
                reveal_strlit("Invalid worker URI ");
                reveal_strlit(": ");
                assert(message@.subrange(0, prefix.len() as int) =~= prefix);
            }
            Err(LoadBalancerError::Internal { message })
        },
    }
}

/// The URI of a request at a worker: the worker URL followed by the path
/// and query of the request, or by `/` when it has none.
pub open spec fn worker_uri(url: Seq<char>, path_and_query: Option<Seq<char>>) -> Seq<char> {
    match path_and_query {
        Some(p) => url + p,
        None => url + "/"@,
    }
}

/// Whether an HTTP status counts as a success (2xx).
pub open spec fn is_success_status(status: u16) -> bool {
    200 <= status <= 299
}

/// The error value that the outcome of a forwarded request records: 0 for
/// a successful response, FIXED_POINT_SCALE for any other response or for
/// no response at all.
pub open spec fn outcome_error_value(status: Option<u16>) -> u64 {
    match status {
        Some(s) => if is_success_status(s) {
            0
        } else {
            FIXED_POINT_SCALE as u64
        },
        None => FIXED_POINT_SCALE as u64,
    }
}

/// Only a 2xx response counts as a success. For a status in 200..=299 the
/// worker's error count stays and its error average moves toward 0; for
/// any other status (a 1xx, 3xx, 4xx or 5xx) and for no response the error
/// count goes up by one and the average moves toward 100%.
pub proof fn lemma_only_2xx_counts_as_success(
    s: Seq<WorkerMetricsView>,
    i: int,
    ms: u64,
    status: Option<u16>,
)
    requires
        0 <= i < s.len(),
        s[i].error_count < u64::MAX,
    ensures
        (status matches Some(c) && 200 <= c <= 299) ==> {
            let after = record_sample(s, i, ms, outcome_error_value(status))[i];
            &&& after.error_count == s[i].error_count
            &&& after.ema_error_rate == ema_step(s[i].alpha as int, 0, s[i].ema_error_rate as int) as u64
        },
        !(status matches Some(c) && 200 <= c <= 299) ==> {
            let after = record_sample(s, i, ms, outcome_error_value(status))[i];
            &&& after.error_count == s[i].error_count + 1
            &&& after.ema_error_rate == ema_step(
                s[i].alpha as int,
                10000,
                s[i].ema_error_rate as int,
            ) as u64
        },
{
}

/// Start forwarding a request: select a worker with the current strategy,
/// count the connection as started, and build the URI at the worker.
pub fn prepare_forward(
    service: &mut LoadBalancerService,
    path_and_query: Option<&str>,
) -> (r: Result<(usize, String), LoadBalancerError>)
    ensures
        final(service).hosts() == old(service).hosts(),
        final(service).collector() == old(service).collector(),
        final(service).engine() == old(service).engine(),
        old(service).strategy().can_select(old(service).hosts().len()) <==> r is Ok,
        old(service).hosts().len() == 0 ==> (r matches Err(LoadBalancerError::NoWorkersAvailable)),
        r matches Ok((i, uri)) ==> i < old(service).hosts().len() && uri@ == worker_uri(
            old(service).hosts()[i as int]@,
            match path_and_query {
                Some(p) => Some(p@),
                None => None,
            },
        ) && old(service).strategy().picks(old(service).hosts().len(), i as int)
            && old(service).strategy().began(final(service).strategy(), i as int),
        r is Err ==> final(service).strategy() == old(service).strategy(),
{
    let (index, uri) = {
        let (index, url) = service.select_worker()?;
        let mut uri = String::from_str(url.as_str());
        match path_and_query {
            Some(p) => uri.append(p),
            None => uri.append("/"),
        }
        (index, uri)
    };
    service.connection_started(index);
    Ok((index, uri))
}

/// Finish forwarding a request: count the connection as ended and record
/// the outcome for the worker. `status` is the status of the worker's
/// response, or `None` when no response came; only a 2xx status counts as
/// a success.
pub fn complete_forward(
    service: &mut LoadBalancerService,
    worker_index: usize,
    status: Option<u16>,
    duration: Duration,
)
    ensures
        final(service).hosts() == old(service).hosts(),
        final(service).engine() == old(service).engine(),
        old(service).strategy().ended_at(final(service).strategy(), worker_index as int),
        old(service).wf() ==> final(service).wf(),
        final(service).collector()@ == record_sample(
            old(service).collector()@,
            worker_index as int,
            duration_millis(duration) as u64,
            outcome_error_value(status),
        ),
{
    service.connection_ended(worker_index);
    match status {
        Some(s) => {
            if 200 <= s && s <= 299 {
                service.record_success(worker_index, duration);
            } else {
                service.record_error(worker_index, duration);
            }
        },
        None => service.record_error(worker_index, duration),
    }
}

} // verus!
