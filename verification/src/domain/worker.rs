//! Worker types: the validated worker URL and the worker response.

use vstd::prelude::*;
use vstd::string::*;
use crate::utils::text::{decimal, has_prefix, push_decimal, starts_with_text, text_equals};

verus! {

/// Whether a character is whitespace in the sense of `char::is_whitespace`
/// (the Unicode `White_Space` property).
pub open spec fn is_white_space(c: char) -> bool {
    let v = c as u32;
    ||| (0x9 <= v && v <= 0xD)
    ||| v == 0x20
    ||| v == 0x85
    ||| v == 0xA0
    ||| v == 0x1680
    ||| (0x2000 <= v && v <= 0x200A)
    ||| v == 0x2028
    ||| v == 0x2029
    ||| v == 0x202F
    ||| v == 0x205F
    ||| v == 0x3000
}

/// The part of a URL after its `http://` or `https://` scheme.
pub open spec fn host_part(url: Seq<char>) -> Seq<char> {
    if has_prefix(url, "https://"@) {
        url.subrange(8, url.len() as int)
    } else {
        url.subrange(7, url.len() as int)
    }
}

/// A worker URL is valid when it starts with `http://` or `https://` and
/// the rest holds at least one character that is not whitespace.
pub open spec fn valid_worker_url(url: Seq<char>) -> bool {
    &&& (has_prefix(url, "http://"@) || has_prefix(url, "https://"@))
    &&& exists|i: int| 0 <= i < host_part(url).len() && !is_white_space(#[trigger] host_part(url)[i])
}

/// A worker URL is valid exactly when it begins with `http://` and some
/// character after those seven is not whitespace, or begins with
/// `https://` and some character after those eight is not whitespace. No
/// other condition is placed on the characters of the host.
pub proof fn lemma_worker_url_rule(url: Seq<char>)
    ensures
        valid_worker_url(url) <==> {
            ||| (url.len() >= 7 && url.subrange(0, 7) == "http://"@
                && exists|i: int| 7 <= i < url.len() && !is_white_space(#[trigger] url[i]))
            ||| (url.len() >= 8 && url.subrange(0, 8) == "https://"@
                && exists|i: int| 8 <= i < url.len() && !is_white_space(#[trigger] url[i]))
        },
{
    reveal_strlit("http://");
    reveal_strlit("https://");
    let http = url.len() >= 7 && url.subrange(0, 7) == "http://"@;
    let https = url.len() >= 8 && url.subrange(0, 8) == "https://"@;
    assert(has_prefix(url, "http://"@) == http);
    assert(has_prefix(url, "https://"@) == https);
    if https {
        assert(url[4] == 's') by {
            assert(url.subrange(0, 8)[4] == url[4]);
            assert("https://"@[4] == 's');
        }
        assert(!http) by {
            if http {
                assert(url.subrange(0, 7)[4] == url[4]);
                assert("http://"@[4] == ':');
            }
        }
        let host = host_part(url);
        assert(host =~= url.subrange(8, url.len() as int));
        if exists|i: int| 0 <= i < host.len() && !is_white_space(#[trigger] host[i]) {
            let i = choose|i: int| 0 <= i < host.len() && !is_white_space(#[trigger] host[i]);
            assert(url[i + 8] == host[i]);
        }
        if exists|i: int| 8 <= i < url.len() && !is_white_space(#[trigger] url[i]) {
            let i = choose|i: int| 8 <= i < url.len() && !is_white_space(#[trigger] url[i]);
            assert(host[i - 8] == url[i]);
        }
    } else if http {
        let host = host_part(url);
        assert(host =~= url.subrange(7, url.len() as int));
        if exists|i: int| 0 <= i < host.len() && !is_white_space(#[trigger] host[i]) {
            let i = choose|i: int| 0 <= i < host.len() && !is_white_space(#[trigger] host[i]);
            assert(url[i + 7] == host[i]);
        }
        if exists|i: int| 7 <= i < url.len() && !is_white_space(#[trigger] url[i]) {
            let i = choose|i: int| 7 <= i < url.len() && !is_white_space(#[trigger] url[i]);
            assert(host[i - 7] == url[i]);
        }
    }
}

fn is_white_space_char(c: char) -> (r: bool)
    ensures
        r == is_white_space(c),
{
    let v = c as u32;
    (0x9 <= v && v <= 0xD) || v == 0x20 || v == 0x85 || v == 0xA0 || v == 0x1680
        || (0x2000 <= v && v <= 0x200A) || v == 0x2028 || v == 0x2029 || v == 0x202F
        || v == 0x205F || v == 0x3000
}

/// Validate a worker URL: it must start with `http://` or `https://` and
/// name a host that is not empty or whitespace alone.
pub fn validate_worker_url(url: &str) -> (r: bool)
    ensures
        r == valid_worker_url(url@),
{
    proof {
        reveal_strlit("http://");
        reveal_strlit("https://");
    }
    let n = url.unicode_len();
    if n == 0 {
        return false;
    }
    let https = starts_with_text(url, "https://");
    let http = starts_with_text(url, "http://");
    if !http && !https {
        return false;
    }
    let start: usize = if https { 8 } else { 7 };
    let ghost host = host_part(url@);
    assert(host =~= url@.subrange(start as int, n as int));
    let mut i = start;
    while i < n
        invariant
            start <= i <= n,
            n == url@.len(),
            host == url@.subrange(start as int, n as int),
            host == host_part(url@),
            has_prefix(url@, "http://"@) || has_prefix(url@, "https://"@),
            forall|j: int| 0 <= j < i - start ==> is_white_space(#[trigger] host[j]),
        decreases n - i,
    {
        let c = url.get_char(i);
        assert(host[i - start] == c);
        if !is_white_space_char(c) {
            assert(!is_white_space(host_part(url@)[i - start]));
            return true;
        }
        i = i + 1;
    }
    false
}

/// Validated worker URL.
#[derive(Debug, PartialEq, Eq, Hash)]
pub struct WorkerUrl(String);

impl Clone for WorkerUrl {
    fn clone(&self) -> (r: Self)
        ensures
            r@ == self@,
    {
        proof {
            use_type_invariant(self);
        }
        WorkerUrl(self.0.clone())
    }
}

impl View for WorkerUrl {
    type V = Seq<char>;

    closed spec fn view(&self) -> Seq<char> {
        self.0@
    }
}

impl WorkerUrl {
    /// A worker URL is validated when it is made.
    #[verifier::type_invariant]
    spec fn is_valid(self) -> bool {
        valid_worker_url(self.0@)
    }

    /// Parse and validate a worker URL; the error is the message
    /// `Invalid worker URL: <s>`.
    pub fn parse(s: String) -> (r: Result<Self, String>)
        ensures
            valid_worker_url(s@) <==> r is Ok,
            r matches Ok(u) ==> u@ == s@,
            r matches Err(message) ==> message@ == "Invalid worker URL: "@ + s@,
    {
        if validate_worker_url(s.as_str()) {
            Ok(WorkerUrl(s))
        } else {
            let mut message = String::from_str("Invalid worker URL: ");
            message.append(s.as_str());
            Err(message)
        }
    }

    /// Get the inner URL string.
    pub fn as_str(&self) -> (r: &str)
        ensures
            r@ == self@,
            valid_worker_url(r@),
    {
        proof {
            use_type_invariant(self);
        }
        self.0.as_str()
    }

    /// Consume self and return the inner string.
    pub fn into_inner(self) -> (r: String)
        ensures
            r@ == self@,
            valid_worker_url(r@),
    {
        proof {
            use_type_invariant(&self);
        }
        self.0
    }
}

/// Generic worker response.
#[derive(Debug, Clone)]
pub struct WorkerResponse {
    pub message: String,
    pub port: u16,
}

impl WorkerResponse {
    pub fn new(message: String, port: u16) -> (r: Self)
        ensures
            r.message@ == message@,
            r.port == port,
    {
        WorkerResponse { message, port }
    }
}

/// What a test worker answers to a request.
pub enum WorkerReply {
    /// `/health`: the worker reports itself healthy on its port.
    Health { port: u16 },
    /// Any other path: a response that names the worker and the request,
    /// sent after `delay_ms` milliseconds of simulated work.
    Work { response: WorkerResponse, delay_ms: u64 },
}

/// The message of a test worker: `worker on port P <verb> METHOD TARGET`,
/// where the target is the path and query of the request, or `/`.
pub open spec fn worker_message(
    port: u16,
    verb: Seq<char>,
    method: Seq<char>,
    path_and_query: Option<Seq<char>>,
) -> Seq<char> {
    "worker on port "@ + decimal(port as nat) + " "@ + verb + " "@ + method + " "@
        + match path_and_query {
        Some(p) => p,
        None => "/"@,
    }
}

/// The answer of a test worker on `port` to a request: `/health` reports
/// health, `/work` answers after 10 ms, any other path after a second.
pub fn worker_reply(path: &str, method: &str, path_and_query: Option<&str>, port: u16) -> (r: WorkerReply)
    ensures
        path@ == "/health"@ ==> r == (WorkerReply::Health { port }),
        path@ == "/work"@ ==> (r matches WorkerReply::Work { response, delay_ms }
            && delay_ms == 10 && response.port == port
            && response.message@ == worker_message(
                port,
                "is processing"@,
                method@,
                match path_and_query {
                    Some(p) => Some(p@),
                    None => None,
                },
            )),
        path@ != "/health"@ && path@ != "/work"@ ==> (r matches WorkerReply::Work { response, delay_ms }
            && delay_ms == 1000 && response.port == port
            && response.message@ == worker_message(
                port,
                "received"@,
                method@,
                match path_and_query {
                    Some(p) => Some(p@),
                    None => None,
                },
            )),
{
    proof {
        reveal_strlit("/health");
        reveal_strlit("/work");
        assert("/health"@.len() != "/work"@.len());
    }
    if text_equals(path, "/health") {
        return WorkerReply::Health { port };
    }
    let work = text_equals(path, "/work");
    let mut message = String::from_str("worker on port ");
    push_decimal(&mut message, port as u64);
    if work {
        message.append(" is processing ");
    } else {
        message.append(" received ");
    }
    message.append(method);
    message.append(" ");
    match path_and_query {
        Some(p) => message.append(p),
        None => message.append("/"),
    }
    proof {
        reveal_strlit(" is processing ");
        reveal_strlit("is processing");
        reveal_strlit(" received ");
        reveal_strlit("received");
        reveal_strlit(" ");
        reveal_strlit("worker on port ");
        let target = match path_and_query {
            Some(p) => p@,
            None => "/"@,
        };
        let verb = if work { "is processing"@ } else { "received"@ };
        let spaced = if work { " is processing "@ } else { " received "@ };
        assert(spaced =~= " "@ + verb + " "@);
        assert(message@ =~= "worker on port "@ + decimal(port as nat) + " "@ + verb + " "@ + method@ + " "@ + target);
    }
    let delay_ms: u64 = if work { 10 } else { 1000 };
    WorkerReply::Work { response: WorkerResponse::new(message, port), delay_ms }
}

} // verus!
