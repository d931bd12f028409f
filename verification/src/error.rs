//! Typed errors.
use serde_json::Error as JsonError;
use serde_yaml_ng::Error as YamlError;
use std::io::Error as IoError;
use vstd::prelude::*;

verus! {

/// Errors of `serde_json`, carried as they come.
#[verifier::external_type_specification]
#[verifier::external_body]
pub struct ExJsonError(JsonError);

/// Errors of `serde_yaml_ng`, carried as they come.
#[verifier::external_type_specification]
#[verifier::external_body]
pub struct ExYamlError(YamlError);

/// Errors of `std::io`, carried as they come.
#[verifier::external_type_specification]
#[verifier::external_body]
pub struct ExIoError(IoError);

/// Top-level error type.
#[derive(Debug)]
pub enum Error {
    /// Configuration is invalid (missing field, validation failure).
    Config(String),
    /// NATS / JetStream connection or operation failed.
    Nats(String),
    /// JSON or YAML serialization failed.
    Serde(String),
    /// I/O error (file read, network, etc.), by its text.
    Io(String),
    /// Upstream API dispatch failed, with the text of the upstream's own error.
    Dispatch(String),
    /// The metrics HTTP server failed to bind / serve.
    Metrics(String),
}

impl Error {
    /// The error as a line of text.
    pub open spec fn text(self) -> Seq<char> {
        match self {
            Error::Config(s) => "config error: "@ + s@,
            Error::Nats(s) => "nats: "@ + s@,
            Error::Serde(s) => "serde: "@ + s@,
            Error::Io(s) => "io: "@ + s@,
            Error::Dispatch(s) => "upstream dispatch failed: "@ + s@,
            Error::Metrics(s) => "metrics server: "@ + s@,
        }
    }

    /// The error as a line of text.
    pub fn message(&self) -> (r: String)
        ensures
            r@ == self.text(),
    {
        match self {
            Error::Config(s) => labelled("config error: ", s),
            Error::Nats(s) => labelled("nats: ", s),
            Error::Serde(s) => labelled("serde: ", s),
            Error::Io(s) => labelled("io: ", s),
            Error::Dispatch(s) => labelled("upstream dispatch failed: ", s),
            Error::Metrics(s) => labelled("metrics server: ", s),
        }
    }
}

fn labelled(label: &str, text: &String) -> (r: String)
    ensures
        r@ == label@ + text@,
{
    let mut line = label.to_owned();
    line.append(text.as_str());
    line
}

impl From<JsonError> for Error {
    fn from(e: JsonError) -> (r: Error)
        ensures
            r matches Error::Serde(s) && vstd::string::to_string_from_display_ensures::<JsonError>(
                &e,
                s,
            ),
    {
        Error::Serde(e.to_string())
    }
}

impl vstd::std_specs::convert::FromSpecImpl<JsonError> for Error {
    open spec fn obeys_from_spec() -> bool {
        false
    }

    open spec fn from_spec(e: JsonError) -> Error {
        arbitrary()
    }
}

impl From<YamlError> for Error {
    fn from(e: YamlError) -> (r: Error)
        ensures
            r matches Error::Serde(s) && vstd::string::to_string_from_display_ensures::<YamlError>(
                &e,
                s,
            ),
    {
        Error::Serde(e.to_string())
    }
}

impl vstd::std_specs::convert::FromSpecImpl<YamlError> for Error {
    open spec fn obeys_from_spec() -> bool {
        false
    }

    open spec fn from_spec(e: YamlError) -> Error {
        arbitrary()
    }
}

impl From<IoError> for Error {
    fn from(e: IoError) -> (r: Error)
        ensures
            r matches Error::Io(s) && vstd::string::to_string_from_display_ensures::<IoError>(
                &e,
                s,
            ),
    {
        Error::Io(e.to_string())
    }
}

impl vstd::std_specs::convert::FromSpecImpl<IoError> for Error {
    open spec fn obeys_from_spec() -> bool {
        false
    }

    open spec fn from_spec(e: IoError) -> Error {
        arbitrary()
    }
}

/// Every error is told as its own label and its text, whatever the text.
pub proof fn law_error_text(text: String)
    ensures
        Error::Config(text).text() == "config error: "@ + text@,
        Error::Nats(text).text() == "nats: "@ + text@,
        Error::Serde(text).text() == "serde: "@ + text@,
        Error::Io(text).text() == "io: "@ + text@,
        Error::Dispatch(text).text() == "upstream dispatch failed: "@ + text@,
        Error::Metrics(text).text() == "metrics server: "@ + text@,
{
}

} // verus!
