//! The error type of the load balancer.

use vstd::prelude::*;
use vstd::string::*;

verus! {

#[verifier::external_type_specification]
#[verifier::external_body]
pub struct ExHyperError(hyper::Error);

#[verifier::external_type_specification]
#[verifier::external_body]
pub struct ExClientError(hyper_util::client::legacy::Error);

#[verifier::external_type_specification]
#[verifier::external_body]
pub struct ExJsonError(serde_json::Error);

#[verifier::external_type_specification]
#[verifier::external_body]
pub struct ExFromUtf8Error(std::string::FromUtf8Error);

/// Main error type for load balancer operations.
#[derive(Debug)]
pub enum LoadBalancerError {
    /// Worker connection or communication errors.
    WorkerConnection { worker_url: String, source: hyper::Error },
    /// HTTP client errors.
    HttpClient { worker_url: String, source: hyper_util::client::legacy::Error },
    /// Invalid load balancing strategy provided.
    InvalidStrategy { strategy: String },
    /// No workers available for load balancing.
    NoWorkersAvailable,
    /// Request parsing or validation errors.
    RequestValidation { message: String },
    /// JSON parsing errors.
    JsonParsing { context: String, source: serde_json::Error },
    /// HTTP body processing errors.
    HttpBodyProcessing { context: String, source: hyper::Error },
    /// UTF-8 conversion errors.
    Utf8Conversion { context: String, source: std::string::FromUtf8Error },
    /// Internal server errors.
    Internal { message: String },
    /// Resource not found errors.
    NotFound { resource: String },
    /// Configuration errors.
    Configuration { message: String },
}

impl LoadBalancerError {
    /// Create a worker connection error.
    pub fn worker_connection(worker_url: &str, source: hyper::Error) -> (e: Self)
        ensures
            e matches LoadBalancerError::WorkerConnection { worker_url: u, source: s }
                && u@ == worker_url@ && s == source,
    {
        LoadBalancerError::WorkerConnection { worker_url: worker_url.to_owned(), source }
    }

    /// Create an HTTP client error.
    pub fn http_client(worker_url: &str, source: hyper_util::client::legacy::Error) -> (e: Self)
        ensures
            e matches LoadBalancerError::HttpClient { worker_url: u, source: s }
                && u@ == worker_url@ && s == source,
    {
        LoadBalancerError::HttpClient { worker_url: worker_url.to_owned(), source }
    }

    /// Create an invalid strategy error.
    pub fn invalid_strategy(strategy: &str) -> (e: Self)
        ensures
            e matches LoadBalancerError::InvalidStrategy { strategy: s } && s@ == strategy@,
    {
        LoadBalancerError::InvalidStrategy { strategy: strategy.to_owned() }
    }

    /// Create a request validation error.
    pub fn request_validation(message: &str) -> (e: Self)
        ensures
            e matches LoadBalancerError::RequestValidation { message: m } && m@ == message@,
    {
        LoadBalancerError::RequestValidation { message: message.to_owned() }
    }

    /// Create a JSON parsing error.
    pub fn json_parsing(context: &str, source: serde_json::Error) -> (e: Self)
        ensures
            e matches LoadBalancerError::JsonParsing { context: c, source: s }
                && c@ == context@ && s == source,
    {
        LoadBalancerError::JsonParsing { context: context.to_owned(), source }
    }

    /// Create an HTTP body processing error.
    pub fn http_body_processing(context: &str, source: hyper::Error) -> (e: Self)
        ensures
            e matches LoadBalancerError::HttpBodyProcessing { context: c, source: s }
                && c@ == context@ && s == source,
    {
        LoadBalancerError::HttpBodyProcessing { context: context.to_owned(), source }
    }

    /// Create a UTF-8 conversion error.
    pub fn utf8_conversion(context: &str, source: std::string::FromUtf8Error) -> (e: Self)
        ensures
            e matches LoadBalancerError::Utf8Conversion { context: c, source: s }
                && c@ == context@ && s == source,
    {
        LoadBalancerError::Utf8Conversion { context: context.to_owned(), source }
    }

    /// Create an internal error.
    pub fn internal(message: &str) -> (e: Self)
        ensures
            e matches LoadBalancerError::Internal { message: m } && m@ == message@,
    {
        LoadBalancerError::Internal { message: message.to_owned() }
    }

    /// Create a not found error.
    pub fn not_found(message: &str) -> (e: Self)
        ensures
            e matches LoadBalancerError::NotFound { resource: m } && m@ == message@,
    {
        LoadBalancerError::NotFound { resource: message.to_owned() }
    }

    /// Create a configuration error.
    pub fn configuration(message: &str) -> (e: Self)
        ensures
            e matches LoadBalancerError::Configuration { message: m } && m@ == message@,
    {
        LoadBalancerError::Configuration { message: message.to_owned() }
    }

    /// The HTTP status code that answers this error.
    pub open spec fn status(&self) -> u16 {
        match self {
            LoadBalancerError::WorkerConnection { .. } => 502,
            LoadBalancerError::HttpClient { .. } => 502,
            LoadBalancerError::InvalidStrategy { .. } => 400,
            LoadBalancerError::NoWorkersAvailable => 503,
            LoadBalancerError::RequestValidation { .. } => 400,
            LoadBalancerError::JsonParsing { .. } => 400,
            LoadBalancerError::HttpBodyProcessing { .. } => 400,
            LoadBalancerError::Utf8Conversion { .. } => 400,
            LoadBalancerError::Internal { .. } => 500,
            LoadBalancerError::NotFound { .. } => 404,
            LoadBalancerError::Configuration { .. } => 500,
        }
    }

    /// Get the HTTP status code (as its number) for this error.
    pub fn status_code(&self) -> (r: u16)
        ensures
            r == self.status(),
    {
        match self {
            LoadBalancerError::WorkerConnection { .. } => 502,
            LoadBalancerError::HttpClient { .. } => 502,
            LoadBalancerError::InvalidStrategy { .. } => 400,
            LoadBalancerError::NoWorkersAvailable => 503,
            LoadBalancerError::RequestValidation { .. } => 400,
            LoadBalancerError::JsonParsing { .. } => 400,
            LoadBalancerError::HttpBodyProcessing { .. } => 400,
            LoadBalancerError::Utf8Conversion { .. } => 400,
            LoadBalancerError::Internal { .. } => 500,
            LoadBalancerError::NotFound { .. } => 404,
            LoadBalancerError::Configuration { .. } => 500,
        }
    }

    /// The user-facing message for this error.
    pub open spec fn user_text(&self) -> Seq<char> {
        match self {
            LoadBalancerError::WorkerConnection { .. } => "Service temporarily unavailable"@,
            LoadBalancerError::HttpClient { .. } => "Service temporarily unavailable"@,
            LoadBalancerError::InvalidStrategy { .. } => "Invalid strategy specified"@,
            LoadBalancerError::NoWorkersAvailable => "No backend services available"@,
            LoadBalancerError::RequestValidation { .. } => "Invalid request format"@,
            LoadBalancerError::JsonParsing { .. } => "Invalid JSON format"@,
            LoadBalancerError::HttpBodyProcessing { .. } => "Request processing failed"@,
            LoadBalancerError::Utf8Conversion { .. } => "Invalid request encoding"@,
            LoadBalancerError::Internal { .. } => "Internal server error"@,
            LoadBalancerError::NotFound { .. } => "Resource not found"@,
            LoadBalancerError::Configuration { .. } => "Server configuration error"@,
        }
    }

    /// Get a user-friendly error message.
    pub fn user_message(&self) -> (r: &'static str)
        ensures
            r@ == self.user_text(),
    {
        match self {
            LoadBalancerError::WorkerConnection { .. } => "Service temporarily unavailable",
            LoadBalancerError::HttpClient { .. } => "Service temporarily unavailable",
            LoadBalancerError::InvalidStrategy { .. } => "Invalid strategy specified",
            LoadBalancerError::NoWorkersAvailable => "No backend services available",
            LoadBalancerError::RequestValidation { .. } => "Invalid request format",
            LoadBalancerError::JsonParsing { .. } => "Invalid JSON format",
            LoadBalancerError::HttpBodyProcessing { .. } => "Request processing failed",
            LoadBalancerError::Utf8Conversion { .. } => "Invalid request encoding",
            LoadBalancerError::Internal { .. } => "Internal server error",
            LoadBalancerError::NotFound { .. } => "Resource not found",
            LoadBalancerError::Configuration { .. } => "Server configuration error",
        }
    }

    /// The full description of this error.
    pub open spec fn text(&self) -> Seq<char> {
        match self {
            LoadBalancerError::WorkerConnection { worker_url, .. } =>
                "Worker connection failed: "@ + worker_url@,
            LoadBalancerError::HttpClient { worker_url, .. } =>
                "HTTP client error for worker: "@ + worker_url@,
            LoadBalancerError::InvalidStrategy { strategy } =>
                "Invalid load balancing strategy: '"@ + strategy@
                    + "'. Valid strategies are: round_robin, least_connections"@,
            LoadBalancerError::NoWorkersAvailable => "No workers available for load balancing"@,
            LoadBalancerError::RequestValidation { message } =>
                "Request validation failed: "@ + message@,
            LoadBalancerError::JsonParsing { context, .. } => "JSON parsing failed: "@ + context@,
            LoadBalancerError::HttpBodyProcessing { context, .. } =>
                "HTTP body processing failed: "@ + context@,
            LoadBalancerError::Utf8Conversion { context, .. } =>
                "UTF-8 conversion failed: "@ + context@,
            LoadBalancerError::Internal { message } => "Internal server error: "@ + message@,
            LoadBalancerError::NotFound { resource } => "Resource not found: "@ + resource@,
            LoadBalancerError::Configuration { message } => "Configuration error: "@ + message@,
        }
    }

    /// The full description of this error.
    pub fn to_string(&self) -> (r: String)
        ensures
            r@ == self.text(),
    {
        match self {
            LoadBalancerError::WorkerConnection { worker_url, .. } => {
                let mut s = String::from_str("Worker connection failed: ");
                s.append(worker_url.as_str());
                s
            },
            LoadBalancerError::HttpClient { worker_url, .. } => {
                let mut s = String::from_str("HTTP client error for worker: ");
                s.append(worker_url.as_str());
                s
            },
            LoadBalancerError::InvalidStrategy { strategy } => {
                let mut s = String::from_str("Invalid load balancing strategy: '");
                s.append(strategy.as_str());
                s.append("'. Valid strategies are: round_robin, least_connections");
                s
            },
            LoadBalancerError::NoWorkersAvailable => {
                String::from_str("No workers available for load balancing")
            },
            LoadBalancerError::RequestValidation { message } => {
                let mut s = String::from_str("Request validation failed: ");
                s.append(message.as_str());
                s
            },
            LoadBalancerError::JsonParsing { context, .. } => {
                let mut s = String::from_str("JSON parsing failed: ");
                s.append(context.as_str());
                s
            },
            LoadBalancerError::HttpBodyProcessing { context, .. } => {
                let mut s = String::from_str("HTTP body processing failed: ");
                s.append(context.as_str());
                s
            },
            LoadBalancerError::Utf8Conversion { context, .. } => {
                let mut s = String::from_str("UTF-8 conversion failed: ");
                s.append(context.as_str());
                s
            },
            LoadBalancerError::Internal { message } => {
                let mut s = String::from_str("Internal server error: ");
                s.append(message.as_str());
                s
            },
            LoadBalancerError::NotFound { resource } => {
                let mut s = String::from_str("Resource not found: ");
                s.append(resource.as_str());
                s
            },
            LoadBalancerError::Configuration { message } => {
                let mut s = String::from_str("Configuration error: ");
                s.append(message.as_str());
                s
            },
        }
    }
}

} // verus!
