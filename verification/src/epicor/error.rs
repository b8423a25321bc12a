//! The ways in which a call to the case API fails.

use vstd::prelude::*;
use vstd::string::*;
use crate::text::{decimal, decimal_text, joined};

verus! {

/// A value that the environment has to supply for the API.
#[derive(Debug, Clone, Copy, PartialEq, Eq, Structural)]
pub enum Setting {
    ApiKey,
    BasicAuth,
    BaseUrl,
}

impl Setting {
    /// The environment variable that holds the setting.
    pub open spec fn variable(self) -> Seq<char> {
        match self {
            Setting::ApiKey => "EPICOR_API_KEY"@,
            Setting::BasicAuth => "EPICOR_BASIC_AUTH"@,
            Setting::BaseUrl => "EPICOR_BASE_URL"@,
        }
    }

    pub fn name(&self) -> (name: &'static str)
        ensures
            name@ == self.variable(),
    {
        match self {
            Setting::ApiKey => "EPICOR_API_KEY",
            Setting::BasicAuth => "EPICOR_BASIC_AUTH",
            Setting::BaseUrl => "EPICOR_BASE_URL",
        }
    }
}

/// What is wrong with a setting.
#[derive(Debug, Clone, Copy, PartialEq, Eq, Structural)]
pub enum ConfigFault {
    /// The environment does not hold it.
    Missing(Setting),
    /// It holds a character that no header value can carry.
    Unencodable(Setting),
}

/// Why a call to the case API failed.
#[derive(Debug, Clone, PartialEq, Eq)]
pub enum ApiError {
    /// A setting is absent or cannot be sent.
    Configuration(ConfigFault),
    /// The request got no reply.
    Unreachable,
    /// The service answered 404: the function library is not published.
    EndpointNotPublished,
    /// The service answered with another status outside 200 to 299.
    Transport(u16),
    /// The body of the reply is not what the action answers with.
    Decode,
    /// The service reports that the action failed, with its message.
    RemoteApplication(String),
}

/// `ApiError` with its text as a sequence of characters.
pub enum ErrorSpec {
    Configuration(ConfigFault),
    Unreachable,
    EndpointNotPublished,
    Transport(u16),
    Decode,
    RemoteApplication(Seq<char>),
}

impl View for ApiError {
    type V = ErrorSpec;

    open spec fn view(&self) -> ErrorSpec {
        match self {
            ApiError::Configuration(fault) => ErrorSpec::Configuration(*fault),
            ApiError::Unreachable => ErrorSpec::Unreachable,
            ApiError::EndpointNotPublished => ErrorSpec::EndpointNotPublished,
            ApiError::Transport(status) => ErrorSpec::Transport(*status),
            ApiError::Decode => ErrorSpec::Decode,
            ApiError::RemoteApplication(message) => ErrorSpec::RemoteApplication(message@),
        }
    }
}

/// What the operator is told of an error.
pub open spec fn error_text(error: ErrorSpec) -> Seq<char> {
    match error {
        ErrorSpec::Configuration(ConfigFault::Missing(setting)) => setting.variable()
            + " must be set"@,
        ErrorSpec::Configuration(ConfigFault::Unencodable(setting)) => setting.variable()
            + " cannot be sent as a header value"@,
        ErrorSpec::Unreachable => "Error: the service gave no reply"@,
        ErrorSpec::EndpointNotPublished =>
            "Error: The Omni function library is not published in Epicor. Please publish the function library and try again."@,
        ErrorSpec::Transport(status) => "Error: "@ + decimal(status as nat),
        ErrorSpec::Decode => "Error: the response is not of the expected shape"@,
        ErrorSpec::RemoteApplication(message) => "Error: "@ + message,
    }
}

impl ApiError {
    /// The text of the error for the operator.
    pub fn message(&self) -> (text: String)
        ensures
            text@ == error_text(self@),
    {
        match self {
            ApiError::Configuration(ConfigFault::Missing(setting)) => joined(
                setting.name(),
                " must be set",
            ),
            ApiError::Configuration(ConfigFault::Unencodable(setting)) => joined(
                setting.name(),
                " cannot be sent as a header value",
            ),
            ApiError::Unreachable => String::from_str("Error: the service gave no reply"),
            ApiError::EndpointNotPublished => String::from_str(
                "Error: The Omni function library is not published in Epicor. Please publish the function library and try again.",
            ),
            ApiError::Transport(status) => {
                let digits = decimal_text(*status as u64);
                joined("Error: ", digits.as_str())
            },
            ApiError::Decode => String::from_str(
                "Error: the response is not of the expected shape",
            ),
            ApiError::RemoteApplication(message) => joined("Error: ", message.as_str()),
        }
    }
}

} // verus!
