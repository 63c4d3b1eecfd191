//! Typed error taxonomy with stable exit codes, categories, and the versioned
//! JSON error contract.
use vstd::prelude::*;

use crate::text::{cat, owned};

verus! {

/// Process exit codes; each variant has a fixed number.
#[derive(Debug, Clone, Copy, PartialEq, Eq, Structural)]
pub enum ExitCode {
    Success,
    Generic,
    Usage,
    Config,
    AwsAuth,
    AwsThrottled,
    NotFound,
    Validation,
    Timeout,
}

impl ExitCode {
    /// The number the process exits with.
    pub open spec fn number(self) -> i32 {
        match self {
            ExitCode::Success => 0,
            ExitCode::Generic => 1,
            ExitCode::Usage => 2,
            ExitCode::Config => 3,
            ExitCode::AwsAuth => 4,
            ExitCode::AwsThrottled => 5,
            ExitCode::NotFound => 6,
            ExitCode::Validation => 7,
            ExitCode::Timeout => 8,
        }
    }

    pub fn code(self) -> (n: i32)
        ensures
            n == self.number(),
    {
        match self {
            ExitCode::Success => 0,
            ExitCode::Generic => 1,
            ExitCode::Usage => 2,
            ExitCode::Config => 3,
            ExitCode::AwsAuth => 4,
            ExitCode::AwsThrottled => 5,
            ExitCode::NotFound => 6,
            ExitCode::Validation => 7,
            ExitCode::Timeout => 8,
        }
    }
}

impl From<ExitCode> for i32 {
    fn from(code: ExitCode) -> (n: i32) {
        code.code()
    }
}

impl vstd::std_specs::convert::FromSpecImpl<ExitCode> for i32 {
    open spec fn obeys_from_spec() -> bool {
        true
    }

    open spec fn from_spec(code: ExitCode) -> i32 {
        code.number()
    }
}

/// Every failure the library reports. The payload is the human-readable detail.
#[derive(Debug, Clone)]
pub enum ShimesuError {
    Generic(String),
    Usage(String),
    Config(String),
    AwsAuth(String),
    AwsThrottled(String),
    NotFound(String),
    Validation(String),
    Timeout(String),
    Io(String),
    Json(String),
    TomlParse(String),
}

/// The variant of a [`ShimesuError`], without its payload.
#[derive(Debug, Clone, Copy, PartialEq, Eq, Structural)]
pub enum ErrorKind {
    Generic,
    Usage,
    Config,
    AwsAuth,
    AwsThrottled,
    NotFound,
    Validation,
    Timeout,
    Io,
    Json,
    TomlParse,
}

impl View for ShimesuError {
    type V = (ErrorKind, Seq<char>);

    open spec fn view(&self) -> (ErrorKind, Seq<char>) {
        (self.spec_kind(), self.detail())
    }
}

impl ShimesuError {
    /// The detail text carried by any variant.
    pub open spec fn detail(self) -> Seq<char> {
        match self {
            ShimesuError::Generic(m) => m@,
            ShimesuError::Usage(m) => m@,
            ShimesuError::Config(m) => m@,
            ShimesuError::AwsAuth(m) => m@,
            ShimesuError::AwsThrottled(m) => m@,
            ShimesuError::NotFound(m) => m@,
            ShimesuError::Validation(m) => m@,
            ShimesuError::Timeout(m) => m@,
            ShimesuError::Io(m) => m@,
            ShimesuError::Json(m) => m@,
            ShimesuError::TomlParse(m) => m@,
        }
    }

    pub open spec fn spec_kind(self) -> ErrorKind {
        match self {
            ShimesuError::Generic(_) => ErrorKind::Generic,
            ShimesuError::Usage(_) => ErrorKind::Usage,
            ShimesuError::Config(_) => ErrorKind::Config,
            ShimesuError::AwsAuth(_) => ErrorKind::AwsAuth,
            ShimesuError::AwsThrottled(_) => ErrorKind::AwsThrottled,
            ShimesuError::NotFound(_) => ErrorKind::NotFound,
            ShimesuError::Validation(_) => ErrorKind::Validation,
            ShimesuError::Timeout(_) => ErrorKind::Timeout,
            ShimesuError::Io(_) => ErrorKind::Io,
            ShimesuError::Json(_) => ErrorKind::Json,
            ShimesuError::TomlParse(_) => ErrorKind::TomlParse,
        }
    }

    /// A copy of this error.
    pub fn duplicate(&self) -> (e: ShimesuError)
        ensures
            e@ == self@,
    {
        match self {
            ShimesuError::Generic(m) => ShimesuError::Generic(m.clone()),
            ShimesuError::Usage(m) => ShimesuError::Usage(m.clone()),
            ShimesuError::Config(m) => ShimesuError::Config(m.clone()),
            ShimesuError::AwsAuth(m) => ShimesuError::AwsAuth(m.clone()),
            ShimesuError::AwsThrottled(m) => ShimesuError::AwsThrottled(m.clone()),
            ShimesuError::NotFound(m) => ShimesuError::NotFound(m.clone()),
            ShimesuError::Validation(m) => ShimesuError::Validation(m.clone()),
            ShimesuError::Timeout(m) => ShimesuError::Timeout(m.clone()),
            ShimesuError::Io(m) => ShimesuError::Io(m.clone()),
            ShimesuError::Json(m) => ShimesuError::Json(m.clone()),
            ShimesuError::TomlParse(m) => ShimesuError::TomlParse(m.clone()),
        }
    }

    pub open spec fn spec_exit_code(self) -> ExitCode {
        match self {
            ShimesuError::Generic(_) => ExitCode::Generic,
            ShimesuError::Usage(_) => ExitCode::Usage,
            ShimesuError::Config(_) => ExitCode::Config,
            ShimesuError::AwsAuth(_) => ExitCode::AwsAuth,
            ShimesuError::AwsThrottled(_) => ExitCode::AwsThrottled,
            ShimesuError::NotFound(_) => ExitCode::NotFound,
            ShimesuError::Validation(_) => ExitCode::Validation,
            ShimesuError::Timeout(_) => ExitCode::Timeout,
            ShimesuError::Io(_) => ExitCode::Generic,
            ShimesuError::Json(_) => ExitCode::Generic,
            ShimesuError::TomlParse(_) => ExitCode::Config,
        }
    }

    pub open spec fn spec_category(self) -> Seq<char> {
        match self {
            ShimesuError::Generic(_) => "generic"@,
            ShimesuError::Usage(_) => "usage"@,
            ShimesuError::Config(_) => "config"@,
            ShimesuError::AwsAuth(_) => "aws_auth"@,
            ShimesuError::AwsThrottled(_) => "aws_throttled"@,
            ShimesuError::NotFound(_) => "not_found"@,
            ShimesuError::Validation(_) => "validation"@,
            ShimesuError::Timeout(_) => "timeout"@,
            ShimesuError::Io(_) => "io"@,
            ShimesuError::Json(_) => "json"@,
            ShimesuError::TomlParse(_) => "config"@,
        }
    }

    /// The text that precedes the detail in the rendered message.
    pub open spec fn spec_prefix(self) -> Seq<char> {
        match self {
            ShimesuError::Generic(_) => "Error: "@,
            ShimesuError::Usage(_) => "Usage error: "@,
            ShimesuError::Config(_) => "Configuration error: "@,
            ShimesuError::AwsAuth(_) => "AWS authentication failed: "@,
            ShimesuError::AwsThrottled(_) => "AWS request throttled: "@,
            ShimesuError::NotFound(_) => "Not found: "@,
            ShimesuError::Validation(_) => "Validation error: "@,
            ShimesuError::Timeout(_) => "Operation timed out: "@,
            ShimesuError::Io(_) => "IO error: "@,
            ShimesuError::Json(_) => "JSON error: "@,
            ShimesuError::TomlParse(_) => "TOML parse error: "@,
        }
    }

    /// The rendered message: a per-variant prefix followed by the detail.
    pub open spec fn spec_message(self) -> Seq<char> {
        self.spec_prefix() + self.detail()
    }

    pub fn exit_code(&self) -> (code: ExitCode)
        ensures
            code == self.spec_exit_code(),
    {
        match self {
            ShimesuError::Generic(_) => ExitCode::Generic,
            ShimesuError::Usage(_) => ExitCode::Usage,
            ShimesuError::Config(_) => ExitCode::Config,
            ShimesuError::AwsAuth(_) => ExitCode::AwsAuth,
            ShimesuError::AwsThrottled(_) => ExitCode::AwsThrottled,
            ShimesuError::NotFound(_) => ExitCode::NotFound,
            ShimesuError::Validation(_) => ExitCode::Validation,
            ShimesuError::Timeout(_) => ExitCode::Timeout,
            ShimesuError::Io(_) => ExitCode::Generic,
            ShimesuError::Json(_) => ExitCode::Generic,
            ShimesuError::TomlParse(_) => ExitCode::Config,
        }
    }

    pub fn category(&self) -> (category: &'static str)
        ensures
            category@ == self.spec_category(),
    {
        match self {
            ShimesuError::Generic(_) => "generic",
            ShimesuError::Usage(_) => "usage",
            ShimesuError::Config(_) => "config",
            ShimesuError::AwsAuth(_) => "aws_auth",
            ShimesuError::AwsThrottled(_) => "aws_throttled",
            ShimesuError::NotFound(_) => "not_found",
            ShimesuError::Validation(_) => "validation",
            ShimesuError::Timeout(_) => "timeout",
            ShimesuError::Io(_) => "io",
            ShimesuError::Json(_) => "json",
            ShimesuError::TomlParse(_) => "config",
        }
    }

    fn prefix(&self) -> (prefix: &'static str)
        ensures
            prefix@ == self.spec_prefix(),
    {
        match self {
            ShimesuError::Generic(_) => "Error: ",
            ShimesuError::Usage(_) => "Usage error: ",
            ShimesuError::Config(_) => "Configuration error: ",
            ShimesuError::AwsAuth(_) => "AWS authentication failed: ",
            ShimesuError::AwsThrottled(_) => "AWS request throttled: ",
            ShimesuError::NotFound(_) => "Not found: ",
            ShimesuError::Validation(_) => "Validation error: ",
            ShimesuError::Timeout(_) => "Operation timed out: ",
            ShimesuError::Io(_) => "IO error: ",
            ShimesuError::Json(_) => "JSON error: ",
            ShimesuError::TomlParse(_) => "TOML parse error: ",
        }
    }

    /// The detail text carried by this error.
    pub fn detail_text(&self) -> (text: &str)
        ensures
            text@ == self.detail(),
    {
        match self {
            ShimesuError::Generic(m) => m.as_str(),
            ShimesuError::Usage(m) => m.as_str(),
            ShimesuError::Config(m) => m.as_str(),
            ShimesuError::AwsAuth(m) => m.as_str(),
            ShimesuError::AwsThrottled(m) => m.as_str(),
            ShimesuError::NotFound(m) => m.as_str(),
            ShimesuError::Validation(m) => m.as_str(),
            ShimesuError::Timeout(m) => m.as_str(),
            ShimesuError::Io(m) => m.as_str(),
            ShimesuError::Json(m) => m.as_str(),
            ShimesuError::TomlParse(m) => m.as_str(),
        }
    }

    /// The human-readable message (what `to_string` shows).
    pub fn message(&self) -> (message: String)
        ensures
            message@ == self.spec_message(),
    {
        cat(self.prefix(), self.detail_text())
    }

    /// Same text as [`ShimesuError::message`].
    pub fn to_string(&self) -> (message: String)
        ensures
            message@ == self.spec_message(),
    {
        self.message()
    }
}

/// The versioned JSON error body written to stderr in JSON mode.
pub struct ErrorResponse {
    pub schema_version: String,
    pub error: bool,
    pub error_category: String,
    pub message: String,
    pub exit_code: i32,
}

impl ErrorResponse {
    pub fn from_error(err: &ShimesuError) -> (response: Self)
        ensures
            response.schema_version@ == "1"@,
            response.error,
            response.error_category@ == err.spec_category(),
            response.message@ == err.spec_message(),
            response.exit_code == err.spec_exit_code().number(),
    {
        ErrorResponse {
            schema_version: owned("1"),
            error: true,
            error_category: owned(err.category()),
            message: err.message(),
            exit_code: err.exit_code().code(),
        }
    }
}

} // verus!

verus! {

pub open spec fn is_usage_err(e: ShimesuError, msg: Seq<char>) -> bool {
    e matches ShimesuError::Usage(m) && m@ == msg
}

pub open spec fn is_validation_err(e: ShimesuError, msg: Seq<char>) -> bool {
    e matches ShimesuError::Validation(m) && m@ == msg
}

} // verus!

verus! {

pub open spec fn fails_usage<T>(r: Result<T, ShimesuError>, msg: Seq<char>) -> bool {
    r matches Err(e) && is_usage_err(e, msg)
}

pub open spec fn fails_validation<T>(r: Result<T, ShimesuError>, msg: Seq<char>) -> bool {
    r matches Err(e) && is_validation_err(e, msg)
}

} // verus!

verus! {

/// `r` failed with an error whose view is `v`.
pub open spec fn fails_with<T>(r: Result<T, ShimesuError>, v: (ErrorKind, Seq<char>)) -> bool {
    r matches Err(e) && e@ == v
}

} // verus!
