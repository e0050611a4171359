//! Configuration of the load balancer: from the command line or a file.

use vstd::prelude::*;
use vstd::string::*;
use crate::domain::LoadBalancerError;

verus! {

/// Whether a text is a URL that `url::Url::parse` accepts.
pub uninterp spec fn parses_as_url(s: Seq<char>) -> bool;

/// Wraps `validator::ValidateUrl::validate_url` on a string, which asks
/// `url::Url::parse` whether it parses: the answer is named
/// `parses_as_url`.
#[verifier::external_body]
fn validate_url(s: &str) -> (r: bool)
    ensures
        r == parses_as_url(s@),
{
    validator::ValidateUrl::validate_url(&s)
}

/// Command line configuration.
#[derive(Debug)]
pub struct Config {
    /// Port to listen on.
    pub port: u16,
    /// Host to bind to.
    pub host: String,
    /// Worker hosts.
    pub workers: Vec<String>,
    /// Configuration file path.
    pub config: Option<String>,
    /// Load balancing strategy.
    pub strategy: String,
    /// Log level.
    pub log_level: String,
}

/// Configuration that can be loaded from a file.
#[derive(Debug)]
pub struct LoadBalancerConfig {
    pub server: ServerConfig,
    pub workers: WorkersConfig,
    pub logging: LoggingConfig,
}

/// Server configuration.
#[derive(Debug)]
pub struct ServerConfig {
    pub port: u16,
    pub host: String,
    pub strategy: String,
}

/// Workers configuration.
#[derive(Debug)]
pub struct WorkersConfig {
    pub hosts: Vec<WorkerHost>,
}

/// Individual worker host configuration.
#[derive(Debug)]
pub struct WorkerHost {
    pub url: String,
    pub enabled: bool,
}

/// Logging configuration.
#[derive(Debug)]
pub struct LoggingConfig {
    pub level: String,
}

/// A worker host is enabled unless configured otherwise.
pub fn default_enabled() -> (r: bool)
    ensures
        r,
{
    true
}

/// A parameter of a failed validation rule: a number (a bound or the
/// checked value), a text (the checked value), or an empty list (the checked
/// list of worker hosts).
#[derive(Debug)]
pub enum ParamValue {
    Number(u64),
    Text(String),
    EmptyList,
}

/// The value of a parameter, with its text as a sequence.
pub enum ParamView {
    Number(u64),
    Text(Seq<char>),
    EmptyList,
}

impl View for ParamValue {
    type V = ParamView;

    open spec fn view(&self) -> ParamView {
        match self {
            ParamValue::Number(n) => ParamView::Number(*n),
            ParamValue::Text(t) => ParamView::Text(t@),
            ParamValue::EmptyList => ParamView::EmptyList,
        }
    }
}

/// A failed validation rule: its code (`range`, `length`, `url`), its
/// message if the rule has one, and its parameters by name.
#[derive(Debug)]
pub struct ValidationError {
    pub code: String,
    pub message: Option<String>,
    pub params: Vec<(String, ParamValue)>,
}

/// A failed validation rule, with its texts as sequences.
pub struct ValidationErrorView {
    pub code: Seq<char>,
    pub message: Option<Seq<char>>,
    pub params: Seq<(Seq<char>, ParamView)>,
}

impl View for ValidationError {
    type V = ValidationErrorView;

    open spec fn view(&self) -> ValidationErrorView {
        ValidationErrorView {
            code: self.code@,
            message: match self.message {
                Some(m) => Some(m@),
                None => None,
            },
            params: self.params@.map_values(|p: (String, ParamValue)| (p.0@, p.1@)),
        }
    }
}

/// The failed rules of a configuration section, each with the name of its
/// field, in the order in which the fields are declared.
#[derive(Debug)]
pub struct ValidationErrors {
    pub fields: Vec<(String, ValidationError)>,
}

impl View for ValidationErrors {
    type V = Seq<(Seq<char>, ValidationErrorView)>;

    open spec fn view(&self) -> Seq<(Seq<char>, ValidationErrorView)> {
        self.fields@.map_values(|f: (String, ValidationError)| (f.0@, f.1@))
    }
}

/// The failure of a range rule from `min` to `max` on `value`.
pub open spec fn range_failure(min: u64, max: u64, value: u64) -> ValidationErrorView {
    ValidationErrorView {
        code: "range"@,
        message: None,
        params: seq![
            ("min"@, ParamView::Number(min)),
            ("max"@, ParamView::Number(max)),
            ("value"@, ParamView::Number(value)),
        ],
    }
}

/// The failure of a rule asking for at least one character of `value`.
pub open spec fn text_length_failure(value: Seq<char>) -> ValidationErrorView {
    ValidationErrorView {
        code: "length"@,
        message: None,
        params: seq![("min"@, ParamView::Number(1)), ("value"@, ParamView::Text(value))],
    }
}

/// The failure of the rule asking for at least one worker host.
pub open spec fn no_workers_failure() -> ValidationErrorView {
    ValidationErrorView {
        code: "length"@,
        message: Some("At least one worker must be configured"@),
        params: seq![("min"@, ParamView::Number(1)), ("value"@, ParamView::EmptyList)],
    }
}

/// The failure of the rule asking for a URL in `value`.
pub open spec fn url_failure(value: Seq<char>) -> ValidationErrorView {
    ValidationErrorView {
        code: "url"@,
        message: Some("Worker host must be a valid URL"@),
        params: seq![("value"@, ParamView::Text(value))],
    }
}

/// The failed rules of the server settings: a port in 1024..=65535, and a
/// host and a strategy of at least one character.
pub open spec fn server_failures(c: ServerConfig) -> Seq<(Seq<char>, ValidationErrorView)> {
    (if c.port < 1024 {
        seq![("port"@, range_failure(1024, 65535, c.port as u64))]
    } else {
        seq![]
    }) + (if c.host@.len() < 1 {
        seq![("host"@, text_length_failure(c.host@))]
    } else {
        seq![]
    }) + (if c.strategy@.len() < 1 {
        seq![("strategy"@, text_length_failure(c.strategy@))]
    } else {
        seq![]
    })
}

/// The server settings are accepted exactly when the port lies in
/// 1024..=65535 and the host and the strategy are not empty. A port below
/// 1024 is the first failure reported, as a range failure from 1024 to
/// 65535 on that port; a port in range is never reported.
pub proof fn lemma_server_rules(c: ServerConfig)
    ensures
        c.valid() <==> (1024 <= c.port <= 65535 && c.host@.len() > 0 && c.strategy@.len() > 0),
        server_failures(c).len() == 0 <==> (1024 <= c.port <= 65535 && c.host@.len() > 0
            && c.strategy@.len() > 0),
        c.port < 1024 ==> server_failures(c)[0] == ("port"@, range_failure(1024, 65535, c.port as u64)),
        1024 <= c.port ==> forall|k: int|
            0 <= k < server_failures(c).len() ==> (#[trigger] server_failures(c)[k]).0 != "port"@,
{
    reveal_strlit("port");
    reveal_strlit("host");
    reveal_strlit("strategy");
    assert("port"@[0] != "host"@[0]);
    assert("port"@.len() != "strategy"@.len());
}

fn param(name: &str, value: ParamValue) -> (r: (String, ParamValue))
    ensures
        r.0@ == name@,
        r.1 == value,
{
    (String::from_str(name), value)
}

fn range_error(min: u64, max: u64, value: u64) -> (r: ValidationError)
    ensures
        r@ == range_failure(min, max, value),
{
    let mut params: Vec<(String, ParamValue)> = Vec::new();
    params.push(param("min", ParamValue::Number(min)));
    params.push(param("max", ParamValue::Number(max)));
    params.push(param("value", ParamValue::Number(value)));
    let r = ValidationError { code: String::from_str("range"), message: None, params };
    assert(r@.params =~= range_failure(min, max, value).params);
    r
}

fn text_length_error(value: &str) -> (r: ValidationError)
    ensures
        r@ == text_length_failure(value@),
{
    let mut params: Vec<(String, ParamValue)> = Vec::new();
    params.push(param("min", ParamValue::Number(1)));
    params.push(param("value", ParamValue::Text(String::from_str(value))));
    let r = ValidationError { code: String::from_str("length"), message: None, params };
    assert(r@.params =~= text_length_failure(value@).params);
    r
}

fn field(name: &str, error: ValidationError) -> (r: (String, ValidationError))
    ensures
        r.0@ == name@,
        r.1 == error,
{
    (String::from_str(name), error)
}

impl ServerConfig {
    /// The server settings are valid: a port in 1024..=65535, and a host and
    /// a strategy that are not empty.
    pub open spec fn valid(&self) -> bool {
        &&& 1024 <= self.port
        &&& self.host@.len() >= 1
        &&& self.strategy@.len() >= 1
    }

    /// Check the server settings; every failed rule is reported.
    pub fn validate(&self) -> (r: Result<(), ValidationErrors>)
        ensures
            r is Ok <==> self.valid(),
            r matches Err(e) ==> e@ == server_failures(*self),
    {
        let mut fields: Vec<(String, ValidationError)> = Vec::new();
        let ghost expected = server_failures(*self);
        if self.port < 1024 {
            fields.push(field("port", range_error(1024, 65535, self.port as u64)));
        }
        let ghost after_port = fields@.map_values(|f: (String, ValidationError)| (f.0@, f.1@));
        if self.host.as_str().unicode_len() < 1 {
            fields.push(field("host", text_length_error(self.host.as_str())));
        }
        let ghost after_host = fields@.map_values(|f: (String, ValidationError)| (f.0@, f.1@));
        if self.strategy.as_str().unicode_len() < 1 {
            fields.push(field("strategy", text_length_error(self.strategy.as_str())));
        }
        let r = ValidationErrors { fields };
        proof {
            reveal_strlit("port");
            reveal_strlit("host");
            reveal_strlit("strategy");
            let p1: Seq<(Seq<char>, ValidationErrorView)> = if self.port < 1024 {
                seq![("port"@, range_failure(1024, 65535, self.port as u64))]
            } else {
                seq![]
            };
            let p2: Seq<(Seq<char>, ValidationErrorView)> = if self.host@.len() < 1 {
                seq![("host"@, text_length_failure(self.host@))]
            } else {
                seq![]
            };
            let p3: Seq<(Seq<char>, ValidationErrorView)> = if self.strategy@.len() < 1 {
                seq![("strategy"@, text_length_failure(self.strategy@))]
            } else {
                seq![]
            };
            assert(after_port =~= p1);
            assert(after_host =~= p1 + p2);
            assert(r@ =~= p1 + p2 + p3);
        }
        if r.fields.len() == 0 {
            Ok(())
        } else {
            Err(r)
        }
    }
}

impl WorkersConfig {
    /// Check that at least one worker is configured.
    pub fn validate(&self) -> (r: Result<(), ValidationErrors>)
        ensures
            r is Ok <==> self.hosts@.len() >= 1,
            r matches Err(e) ==> e@ == seq![("hosts"@, no_workers_failure())],
    {
        if self.hosts.len() < 1 {
            let mut params: Vec<(String, ParamValue)> = Vec::new();
            params.push(param("min", ParamValue::Number(1)));
            params.push(param("value", ParamValue::EmptyList));
            let error = ValidationError {
                code: String::from_str("length"),
                message: Some(String::from_str("At least one worker must be configured")),
                params,
            };
            assert(error@.params =~= no_workers_failure().params);
            let mut fields: Vec<(String, ValidationError)> = Vec::new();
            fields.push(field("hosts", error));
            let r = ValidationErrors { fields };
            assert(r@ =~= seq![("hosts"@, no_workers_failure())]);
            return Err(r);
        }
        Ok(())
    }
}

impl WorkerHost {
    /// Check that the worker host is a valid URL.
    pub fn validate(&self) -> (r: Result<(), ValidationErrors>)
        ensures
            r is Ok <==> parses_as_url(self.url@),
            r matches Err(e) ==> e@ == seq![("url"@, url_failure(self.url@))],
    {
        if !validate_url(self.url.as_str()) {
            let mut params: Vec<(String, ParamValue)> = Vec::new();
            params.push(param("value", ParamValue::Text(String::from_str(self.url.as_str()))));
            let error = ValidationError {
                code: String::from_str("url"),
                message: Some(String::from_str("Worker host must be a valid URL")),
                params,
            };
            assert(error@.params =~= url_failure(self.url@).params);
            let mut fields: Vec<(String, ValidationError)> = Vec::new();
            fields.push(field("url", error));
            let r = ValidationErrors { fields };
            assert(r@ =~= seq![("url"@, url_failure(self.url@))]);
            return Err(r);
        }
        Ok(())
    }
}

impl LoadBalancerConfig {
    /// Check the configuration as a whole. Its sections are checked on
    /// their own (`ServerConfig::validate` and the others): the whole
    /// configuration places no rule of its own and is always accepted.
    pub fn validate(&self) -> (r: Result<(), ValidationErrors>)
        ensures
            r is Ok,
    {
        Ok(())
    }
}

/// The worker hosts that a list of URLs from the command line gives: each
/// enabled.
pub open spec fn hosts_from_urls(urls: Seq<String>, hosts: Seq<WorkerHost>) -> bool {
    &&& hosts.len() == urls.len()
    &&& forall|i: int| 0 <= i < urls.len() ==> (#[trigger] hosts[i]).url@ == urls[i]@ && hosts[i].enabled
}

/// The configuration that the command line arguments give: their server
/// settings and log level, and their workers, each enabled, or without
/// worker arguments two local workers on ports 3000 and 3001.
pub open spec fn is_cli_config(cli: Config, c: LoadBalancerConfig) -> bool {
    &&& c.server.port == cli.port
    &&& c.server.host@ == cli.host@
    &&& c.server.strategy@ == cli.strategy@
    &&& c.logging.level@ == cli.log_level@
    &&& cli.workers@.len() > 0 ==> hosts_from_urls(cli.workers@, c.workers.hosts@)
    &&& cli.workers@.len() == 0 ==> {
        &&& c.workers.hosts@.len() == 2
        &&& c.workers.hosts@[0].url@ == "http://localhost:3000"@
        &&& c.workers.hosts@[0].enabled
        &&& c.workers.hosts@[1].url@ == "http://localhost:3001"@
        &&& c.workers.hosts@[1].enabled
    }
}

impl Config {
    /// Create the configuration from the command line arguments. Without
    /// worker arguments two local workers are used, on ports 3000 and 3001.
    pub fn from_cli(cli: Config) -> (r: Result<LoadBalancerConfig, LoadBalancerError>)
        ensures
            r matches Ok(c) && is_cli_config(cli, c),
    {
        let Config { port, host, workers, config: _, strategy, log_level } = cli;
        let mut hosts: Vec<WorkerHost> = Vec::new();
        if workers.len() == 0 {
            hosts.push(WorkerHost { url: String::from_str("http://localhost:3000"), enabled: true });
            hosts.push(WorkerHost { url: String::from_str("http://localhost:3001"), enabled: true });
        } else {
            let mut i: usize = 0;
            while i < workers.len()
                invariant
                    i <= workers@.len(),
                    hosts_from_urls(workers@.take(i as int), hosts@),
                decreases workers@.len() - i,
            {
                let url = workers[i].clone();
                hosts.push(WorkerHost { url, enabled: true });
                i = i + 1;
                assert(hosts_from_urls(workers@.take(i as int), hosts@));
            }
            assert(workers@.take(workers@.len() as int) =~= workers@);
        }
        let config = LoadBalancerConfig {
            server: ServerConfig { port, host, strategy },
            workers: WorkersConfig { hosts },
            logging: LoggingConfig { level: log_level },
        };
        match config.validate() {
            Ok(()) => Ok(config),
            Err(_) => Err(LoadBalancerError::configuration("Configuration validation failed")),
        }
    }

    /// Choose the configuration: the one loaded from the configuration file
    /// when there is one (the command line names the file and the caller
    /// read and parsed it), else the one the command line gives.
    pub fn parse_config(cli: Config, loaded: Option<LoadBalancerConfig>) -> (r: Result<LoadBalancerConfig, LoadBalancerError>)
        ensures
            r is Ok,
            loaded is Some ==> r == Ok::<LoadBalancerConfig, LoadBalancerError>(loaded.unwrap()),
            loaded is None ==> (r matches Ok(c) && is_cli_config(cli, c)),
    {
        match loaded {
            Some(config) => match config.validate() {
                Ok(()) => Ok(config),
                Err(_) => Err(LoadBalancerError::configuration("Configuration validation failed")),
            },
            None => Self::from_cli(cli),
        }
    }
}

} // verus!
