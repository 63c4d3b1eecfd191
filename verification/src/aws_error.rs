//! Maps AWS service failures (their error code and full error text) to typed
//! [`ShimesuError`] values with actionable messages.
use vstd::prelude::*;

use crate::error::{ErrorKind, ShimesuError};
use crate::text::{ascii_lower, cat, cat3, contains, owned, same_text, seq_contains, to_ascii_lowercase};

verus! {

/// Service error codes that mean the request was throttled.
pub open spec fn throttling_code(c: Seq<char>) -> bool {
    ||| c == "Throttling"@
    ||| c == "ThrottlingException"@
    ||| c == "ThrottledException"@
    ||| c == "RequestThrottled"@
    ||| c == "RequestThrottledException"@
    ||| c == "TooManyRequestsException"@
    ||| c == "RequestLimitExceeded"@
    ||| c == "SlowDown"@
    ||| c == "ProvisionedThroughputExceededException"@
}

/// Service error codes that mean the caller is not authenticated or authorized.
pub open spec fn auth_code(c: Seq<char>) -> bool {
    ||| c == "AccessDenied"@
    ||| c == "AccessDeniedException"@
    ||| c == "AuthFailure"@
    ||| c == "ExpiredToken"@
    ||| c == "ExpiredTokenException"@
    ||| c == "InvalidAccessKeyId"@
    ||| c == "InvalidClientTokenId"@
    ||| c == "MissingAuthenticationToken"@
    ||| c == "NotAuthorized"@
    ||| c == "SignatureDoesNotMatch"@
    ||| c == "UnauthorizedException"@
    ||| c == "UnauthorizedOperation"@
    ||| c == "UnrecognizedClientException"@
}

/// Lowercased error text that reads as an authentication failure.
pub open spec fn auth_text(lower: Seq<char>) -> bool {
    ||| seq_contains(lower, "accessdenied"@)
    ||| seq_contains(lower, "access denied"@)
    ||| seq_contains(lower, "expiredtoken"@)
    ||| seq_contains(lower, "expired token"@)
    ||| seq_contains(lower, "unrecognizedclient"@)
    ||| seq_contains(lower, "invalidclienttokenid"@)
    ||| seq_contains(lower, "credential"@)
    ||| seq_contains(lower, "not authorized"@)
    ||| seq_contains(lower, "unauthorized"@)
}

/// Lowercased error text that reads as a missing resource.
pub open spec fn missing_text(lower: Seq<char>) -> bool {
    seq_contains(lower, "does not exist"@) || seq_contains(lower, "not found"@)
}

/// Classification of an error by its text alone.
pub open spec fn aws_error_view(action: Seq<char>, text: Seq<char>) -> (ErrorKind, Seq<char>) {
    let lower = ascii_lower(text);
    if seq_contains(lower, "throttl"@) {
        (ErrorKind::AwsThrottled, text)
    } else if auth_text(lower) {
        (ErrorKind::AwsAuth, action + ": "@ + text)
    } else {
        (ErrorKind::Generic, action + ": "@ + text)
    }
}

pub open spec fn opt_view(o: Option<&str>) -> Option<Seq<char>> {
    match o {
        Some(s) => Some(s@),
        None => None,
    }
}

/// Classification by structured error code first, then by text.
pub open spec fn aws_error_with_code_view(
    action: Seq<char>,
    code: Option<Seq<char>>,
    text: Seq<char>,
) -> (ErrorKind, Seq<char>) {
    match code {
        Some(c) => if throttling_code(c) {
            (ErrorKind::AwsThrottled, action + ": "@ + text)
        } else if auth_code(c) {
            (ErrorKind::AwsAuth, action + ": "@ + text)
        } else {
            aws_error_view(action, text)
        },
        None => aws_error_view(action, text),
    }
}

fn is_throttling_code(c: &str) -> (r: bool)
    ensures
        r == throttling_code(c@),
{
    same_text(c, "Throttling") || same_text(c, "ThrottlingException") || same_text(
        c,
        "ThrottledException",
    ) || same_text(c, "RequestThrottled") || same_text(c, "RequestThrottledException")
        || same_text(c, "TooManyRequestsException") || same_text(c, "RequestLimitExceeded")
        || same_text(c, "SlowDown") || same_text(c, "ProvisionedThroughputExceededException")
}

fn is_auth_code(c: &str) -> (r: bool)
    ensures
        r == auth_code(c@),
{
    same_text(c, "AccessDenied") || same_text(c, "AccessDeniedException") || same_text(
        c,
        "AuthFailure",
    ) || same_text(c, "ExpiredToken") || same_text(c, "ExpiredTokenException") || same_text(
        c,
        "InvalidAccessKeyId",
    ) || same_text(c, "InvalidClientTokenId") || same_text(c, "MissingAuthenticationToken")
        || same_text(c, "NotAuthorized") || same_text(c, "SignatureDoesNotMatch") || same_text(
        c,
        "UnauthorizedException",
    ) || same_text(c, "UnauthorizedOperation") || same_text(c, "UnrecognizedClientException")
}

fn is_auth_text(lower: &str) -> (r: bool)
    ensures
        r == auth_text(lower@),
{
    contains(lower, "accessdenied") || contains(lower, "access denied") || contains(
        lower,
        "expiredtoken",
    ) || contains(lower, "expired token") || contains(lower, "unrecognizedclient") || contains(
        lower,
        "invalidclienttokenid",
    ) || contains(lower, "credential") || contains(lower, "not authorized") || contains(
        lower,
        "unauthorized",
    )
}

/// Whether the error text says the resource is missing (case-insensitive).
pub fn reads_as_missing(error_text: &str) -> (r: bool)
    ensures
        r == missing_text(ascii_lower(error_text@)),
{
    let lower = to_ascii_lowercase(error_text);
    contains(lower.as_str(), "does not exist") || contains(lower.as_str(), "not found")
}

/// Maps an AWS error by its text: throttling, authentication, or generic.
pub fn map_aws_error(action: &str, error_text: &str) -> (e: ShimesuError)
    ensures
        e@ == aws_error_view(action@, error_text@),
{
    let lower = to_ascii_lowercase(error_text);
    if contains(lower.as_str(), "throttl") {
        ShimesuError::AwsThrottled(owned(error_text))
    } else if is_auth_text(lower.as_str()) {
        ShimesuError::AwsAuth(cat3(action, ": ", error_text))
    } else {
        ShimesuError::Generic(cat3(action, ": ", error_text))
    }
}

/// Maps an AWS error by its structured code when it names throttling or an
/// authentication failure, and by its text otherwise.
pub fn map_aws_error_with_code(action: &str, code: Option<&str>, error_text: &str) -> (e:
    ShimesuError)
    ensures
        e@ == aws_error_with_code_view(action@, opt_view(code), error_text@),
{
    if let Some(code) = code {
        if is_throttling_code(code) {
            return ShimesuError::AwsThrottled(cat3(action, ": ", error_text));
        }
        if is_auth_code(code) {
            return ShimesuError::AwsAuth(cat3(action, ": ", error_text));
        }
    }
    map_aws_error(action, error_text)
}

pub open spec fn stack_not_found_message(stack_name: Seq<char>) -> Seq<char> {
    "Stack '"@ + stack_name + "' not found"@
}

pub open spec fn stack_describe_view(
    stack_name: Seq<char>,
    code: Option<Seq<char>>,
    text: Seq<char>,
) -> (ErrorKind, Seq<char>) {
    if missing_text(ascii_lower(text)) {
        (ErrorKind::NotFound, stack_not_found_message(stack_name))
    } else {
        aws_error_with_code_view("Failed to describe stack"@, code, text)
    }
}

pub fn map_stack_describe_error_with_code(
    stack_name: &str,
    code: Option<&str>,
    error_text: &str,
) -> (e: ShimesuError)
    ensures
        e@ == stack_describe_view(stack_name@, opt_view(code), error_text@),
{
    if reads_as_missing(error_text) {
        ShimesuError::NotFound(cat3("Stack '", stack_name, "' not found"))
    } else {
        map_aws_error_with_code("Failed to describe stack", code, error_text)
    }
}

pub fn map_stack_describe_error(stack_name: &str, error_text: &str) -> (e: ShimesuError)
    ensures
        e@ == stack_describe_view(stack_name@, None, error_text@),
{
    map_stack_describe_error_with_code(stack_name, None, error_text)
}

pub open spec fn site_delete_view(
    slug: Seq<char>,
    code: Option<Seq<char>>,
    text: Seq<char>,
) -> (ErrorKind, Seq<char>) {
    if code == Some("ConditionalCheckFailedException"@) || seq_contains(
        ascii_lower(text),
        "conditionalcheckfailed"@,
    ) {
        (ErrorKind::NotFound, "Site '"@ + slug + "' not found"@)
    } else {
        aws_error_with_code_view("Failed to delete site"@, code, text)
    }
}

pub fn map_site_delete_error(slug: &str, code: Option<&str>, error_text: &str) -> (e: ShimesuError)
    ensures
        e@ == site_delete_view(slug@, opt_view(code), error_text@),
{
    let code_matches = match code {
        Some(c) => same_text(c, "ConditionalCheckFailedException"),
        None => false,
    };
    let lower = to_ascii_lowercase(error_text);
    if code_matches || contains(lower.as_str(), "conditionalcheckfailed") {
        ShimesuError::NotFound(cat3("Site '", slug, "' not found"))
    } else {
        map_aws_error_with_code("Failed to delete site", code, error_text)
    }
}


/// Every throttling code AWS services send (S3's `SlowDown` among them)
/// gives a throttled error, whatever the error text says.
pub proof fn lemma_throttling_codes_are_throttled(action: Seq<char>, code: Seq<char>, text: Seq<char>)
    requires
        code == "Throttling"@ || code == "ThrottlingException"@ || code == "ThrottledException"@
            || code == "RequestThrottled"@ || code == "RequestThrottledException"@ || code
            == "TooManyRequestsException"@ || code == "RequestLimitExceeded"@ || code == "SlowDown"@
            || code == "ProvisionedThroughputExceededException"@,
    ensures
        aws_error_with_code_view(action, Some(code), text) == (
            ErrorKind::AwsThrottled,
            action + ": "@ + text,
        ),
{
}


/// Every authentication code AWS services send gives an authentication
/// error, whatever the error text says.
pub proof fn lemma_auth_codes_are_auth(action: Seq<char>, code: Seq<char>, text: Seq<char>)
    requires
        code == "AccessDenied"@ || code == "AccessDeniedException"@ || code == "AuthFailure"@
            || code == "ExpiredToken"@ || code == "ExpiredTokenException"@ || code
            == "InvalidAccessKeyId"@ || code == "InvalidClientTokenId"@ || code
            == "MissingAuthenticationToken"@ || code == "NotAuthorized"@ || code
            == "SignatureDoesNotMatch"@ || code == "UnauthorizedException"@ || code
            == "UnauthorizedOperation"@ || code == "UnrecognizedClientException"@,
    ensures
        aws_error_with_code_view(action, Some(code), text) == (
            ErrorKind::AwsAuth,
            action + ": "@ + text,
        ),
{
    reveal_strlit("AccessDenied");
    reveal_strlit("AccessDeniedException");
    reveal_strlit("AuthFailure");
    reveal_strlit("ExpiredToken");
    reveal_strlit("ExpiredTokenException");
    reveal_strlit("InvalidAccessKeyId");
    reveal_strlit("InvalidClientTokenId");
    reveal_strlit("MissingAuthenticationToken");
    reveal_strlit("NotAuthorized");
    reveal_strlit("SignatureDoesNotMatch");
    reveal_strlit("UnauthorizedException");
    reveal_strlit("UnauthorizedOperation");
    reveal_strlit("UnrecognizedClientException");
    reveal_strlit("Throttling");
    reveal_strlit("ThrottlingException");
    reveal_strlit("ThrottledException");
    reveal_strlit("RequestThrottled");
    reveal_strlit("RequestThrottledException");
    reveal_strlit("TooManyRequestsException");
    reveal_strlit("RequestLimitExceeded");
    reveal_strlit("SlowDown");
    reveal_strlit("ProvisionedThroughputExceededException");
    assert(!throttling_code(code)) by {
        if throttling_code(code) {
            assert(code[0] == 'T' || code[0] == 'R' || code[0] == 'S' || code[0] == 'P');
            assert(code[0] == 'A' || code[0] == 'E' || code[0] == 'I' || code[0] == 'M' || code[0]
                == 'N' || code[0] == 'U' || code[0] == 'S');
            assert(code[0] == 'S');
            assert(code == "SlowDown"@ || code == "SignatureDoesNotMatch"@);
            assert(code.len() != "SlowDown"@.len() || code[1] != 'i');
        }
    }
}

/// Without a code, the text decides: any spelling of "throttl" is a
/// throttled error carrying the text; otherwise any of the credential
/// phrases is an authentication error; otherwise the error is generic. Both
/// of the last two name the action.
pub proof fn lemma_text_classification(action: Seq<char>, text: Seq<char>)
    ensures
        ({
            let lower = ascii_lower(text);
            let credential_phrase = seq_contains(lower, "accessdenied"@) || seq_contains(
                lower,
                "access denied"@,
            ) || seq_contains(lower, "expiredtoken"@) || seq_contains(lower, "expired token"@)
                || seq_contains(lower, "unrecognizedclient"@) || seq_contains(
                lower,
                "invalidclienttokenid"@,
            ) || seq_contains(lower, "credential"@) || seq_contains(lower, "not authorized"@)
                || seq_contains(lower, "unauthorized"@);
            &&& seq_contains(lower, "throttl"@) ==> aws_error_with_code_view(action, None, text) == (
                ErrorKind::AwsThrottled,
                text,
            )
            &&& !seq_contains(lower, "throttl"@) && credential_phrase ==> aws_error_with_code_view(
                action,
                None,
                text,
            ) == (ErrorKind::AwsAuth, action + ": "@ + text)
            &&& !seq_contains(lower, "throttl"@) && !credential_phrase ==> aws_error_with_code_view(
                action,
                None,
                text,
            ) == (ErrorKind::Generic, action + ": "@ + text)
        }),
{
}

/// An error text reads as a missing resource exactly when it says "does not
/// exist" or "not found".
pub proof fn lemma_missing_phrases(lower: Seq<char>)
    ensures
        missing_text(lower) <==> (seq_contains(lower, "does not exist"@) || seq_contains(
            lower,
            "not found"@,
        )),
{
}

/// A failed condition on deleting a site record means the site does not
/// exist.
pub proof fn lemma_failed_condition_is_missing_site(slug: Seq<char>, text: Seq<char>)
    ensures
        site_delete_view(slug, Some("ConditionalCheckFailedException"@), text) == (
            ErrorKind::NotFound,
            "Site '"@ + slug + "' not found"@,
        ),
{
}

} // verus!
