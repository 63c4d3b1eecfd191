//! The ACM certificate of an installation: the managed certificate stack in
//! us-east-1, its ownership tags, and the checks on an operator's override.
use vstd::prelude::*;

use crate::aws_error::{aws_error_with_code_view, map_aws_error_with_code, opt_view};
use crate::cloudformation::{
    find_output_value, find_parameter_value, first_output_value, first_parameter_value, has_tag,
    opt_text, tags_include, StackDescription, StackStatus, Tag,
};
use crate::config::{opt_seq, Config};
use crate::error::{fails_with, ErrorKind, ShimesuError};
use crate::text::{byte_len, cat, cat3, cat4, cat5, ends_with, owned, same_text, seq_ends_with, ascii_lower, to_ascii_lowercase};

verus! {

pub const CERTIFICATE_REGION: &'static str = "us-east-1";

pub const APPLICATION_TAG_KEY: &'static str = "Application";

pub const APPLICATION_TAG_VALUE: &'static str = "shimesu";

pub const STACK_TAG_KEY: &'static str = "StackName";

/// Where the managed certificate stack stands.
#[derive(Debug, Clone, PartialEq, Eq)]
pub enum CertificateStackState {
    Absent,
    Pending,
    Ready(String),
}

/// What a request to create the certificate stack achieved.
#[derive(Debug, Clone, Copy, PartialEq, Eq, Structural)]
pub enum CertificateCreateOutcome {
    Started,
    AlreadyExists,
}

/// The managed certificate stack as a mutating command sees it.
#[derive(Debug, Clone, PartialEq, Eq)]
pub enum ManagedCertificateStack {
    Absent,
    Owned { certificate_arn: String },
}

/// The name of the certificate stack of an installation: its stack name
/// with `-certificate`, refused beyond CloudFormation's 128 bytes.
pub fn certificate_stack_name(stack_name: &str) -> (r: Result<String, ShimesuError>)
    ensures
        byte_len(stack_name@ + "-certificate"@) <= 128 ==> (r matches Ok(name) && name@
            == stack_name@ + "-certificate"@),
        byte_len(stack_name@ + "-certificate"@) > 128 ==> fails_with(
            r,
            (
                ErrorKind::Validation,
                "Certificate stack name exceeds CloudFormation's 128-character limit"@,
            ),
        ),
{
    let name = cat(stack_name, "-certificate");
    if name.as_str().len() > 128 {
        return Err(
            ShimesuError::Validation(
                owned("Certificate stack name exceeds CloudFormation's 128-character limit"),
            ),
        );
    }
    Ok(name)
}

/// The configuration for calls about the certificate: the same settings in
/// the certificate's region.
pub fn certificate_config(config: &Config) -> (c: Config)
    ensures
        c.stack_name@ == config.stack_name@,
        opt_seq(c.region) == Some(CERTIFICATE_REGION@),
        opt_seq(c.profile) == opt_seq(config.profile),
        c.json == config.json,
        c.yes == config.yes,
{
    let profile = match &config.profile {
        Some(p) => Some(p.clone()),
        None => None,
    };
    Config {
        stack_name: config.stack_name.clone(),
        region: Some(owned(CERTIFICATE_REGION)),
        profile,
        json: config.json,
        yes: config.yes,
    }
}

pub open spec fn is_tag(t: Tag, key: Seq<char>, value: Seq<char>) -> bool {
    opt_text(t.key) == Some(key) && opt_text(t.value) == Some(value)
}

/// The tags that mark a stack as belonging to an installation.
pub fn cloudformation_ownership_tags(stack_name: &str) -> (tags: Vec<Tag>)
    ensures
        tags@.len() == 2,
        is_tag(tags@[0], APPLICATION_TAG_KEY@, APPLICATION_TAG_VALUE@),
        is_tag(tags@[1], STACK_TAG_KEY@, stack_name@),
{
    let mut tags = Vec::new();
    tags.push(Tag { key: Some(owned(APPLICATION_TAG_KEY)), value: Some(owned(APPLICATION_TAG_VALUE)) });
    tags.push(Tag { key: Some(owned(STACK_TAG_KEY)), value: Some(owned(stack_name)) });
    tags
}

/// A stack belongs to an installation when it carries both ownership tags.
pub open spec fn owned_by(tags: Seq<Tag>, installation_stack_name: Seq<char>) -> bool {
    has_tag(tags, APPLICATION_TAG_KEY@, APPLICATION_TAG_VALUE@) && has_tag(
        tags,
        STACK_TAG_KEY@,
        installation_stack_name,
    )
}

pub fn cloudformation_tags_belong_to_stack(tags: &Vec<Tag>, installation_stack_name: &str) -> (r:
    bool)
    ensures
        r == owned_by(tags@, installation_stack_name@),
{
    let application_matches = tags_include(tags, APPLICATION_TAG_KEY, APPLICATION_TAG_VALUE);
    let stack_matches = tags_include(tags, STACK_TAG_KEY, installation_stack_name);
    application_matches && stack_matches
}

/// An ACM tag: a key and an optional value.
#[derive(Debug, Clone)]
pub struct AcmTag {
    pub key: String,
    pub value: Option<String>,
}

pub open spec fn has_acm_tag(tags: Seq<AcmTag>, key: Seq<char>, value: Seq<char>) -> bool {
    exists|i: int|
        0 <= i < tags.len() && (#[trigger] tags[i]).key@ == key && opt_text(tags[i].value) == Some(
            value,
        )
}

fn acm_tags_include(tags: &Vec<AcmTag>, key: &str, value: &str) -> (r: bool)
    ensures
        r == has_acm_tag(tags@, key@, value@),
{
    let mut i: usize = 0;
    while i < tags.len()
        invariant
            i <= tags.len(),
            forall|j: int|
                0 <= j < i ==> !((#[trigger] tags@[j]).key@ == key@ && opt_text(tags@[j].value)
                    == Some(value@)),
        decreases tags.len() - i,
    {
        let value_matches = match &tags[i].value {
            Some(v) => same_text(v.as_str(), value),
            None => false,
        };
        if same_text(tags[i].key.as_str(), key) && value_matches {
            return true;
        }
        i = i + 1;
    }
    false
}

pub fn acm_tags_belong_to_stack(tags: &Vec<AcmTag>, installation_stack_name: &str) -> (r: bool)
    ensures
        r == (has_acm_tag(tags@, APPLICATION_TAG_KEY@, APPLICATION_TAG_VALUE@) && has_acm_tag(
            tags@,
            STACK_TAG_KEY@,
            installation_stack_name@,
        )),
{
    let application_matches = acm_tags_include(tags, APPLICATION_TAG_KEY, APPLICATION_TAG_VALUE);
    let stack_matches = acm_tags_include(tags, STACK_TAG_KEY, installation_stack_name);
    application_matches && stack_matches
}

pub open spec fn or_unknown(o: Option<Seq<char>>) -> Seq<char> {
    match o {
        Some(s) => s,
        None => "unknown"@,
    }
}

fn text_or_unknown(o: &Option<String>) -> (s: String)
    ensures
        s@ == or_unknown(opt_text(*o)),
{
    match o {
        Some(v) => v.clone(),
        None => owned("unknown"),
    }
}

/// The certificate stack records the requested domain as its `BaseDomain`.
pub fn validate_stack_domain(stack: &StackDescription, domain: &str) -> (r: Result<
    (),
    ShimesuError,
>)
    ensures
        first_parameter_value(stack.parameters@, "BaseDomain"@) == Some(domain@) ==> r is Ok,
        first_parameter_value(stack.parameters@, "BaseDomain"@) != Some(domain@) ==> fails_with(
            r,
            (
                ErrorKind::Validation,
                "Certificate stack '"@ + or_unknown(opt_text(stack.stack_name))
                    + "' belongs to domain '"@ + or_unknown(
                    first_parameter_value(stack.parameters@, "BaseDomain"@),
                ) + "', not '"@ + domain@ + "'"@,
            ),
        ),
{
    let stack_domain = find_parameter_value(&stack.parameters, "BaseDomain");
    let matches = match &stack_domain {
        Some(d) => same_text(d.as_str(), domain),
        None => false,
    };
    if matches {
        return Ok(());
    }
    let name = text_or_unknown(&stack.stack_name);
    let actual = text_or_unknown(&stack_domain);
    let head = cat3("Certificate stack '", name.as_str(), "' belongs to domain '");
    let text = cat5(head.as_str(), actual.as_str(), "', not '", domain, "'");
    Err(ShimesuError::Validation(text))
}

pub open spec fn missing_arn_message(stack_name: Seq<char>) -> Seq<char> {
    "Certificate stack '"@ + stack_name + "' is missing required output CertificateArn"@
}

/// The `CertificateArn` output of the certificate stack.
pub fn certificate_arn_from_description(stack: &StackDescription, stack_name: &str) -> (r: Result<
    String,
    ShimesuError,
>)
    ensures
        first_output_value(stack.outputs@, "CertificateArn"@) matches Some(arn) ==> (r matches Ok(
            s,
        ) && s@ == arn),
        first_output_value(stack.outputs@, "CertificateArn"@) is None ==> fails_with(
            r,
            (ErrorKind::Config, missing_arn_message(stack_name@)),
        ),
{
    match find_output_value(&stack.outputs, "CertificateArn") {
        Some(arn) => Ok(arn),
        None => Err(
            ShimesuError::Config(
                cat3("Certificate stack '", stack_name, "' is missing required output CertificateArn"),
            ),
        ),
    }
}

pub open spec fn certificate_state_view(s: CertificateStackState) -> (int, Seq<char>) {
    match s {
        CertificateStackState::Absent => (0, Seq::empty()),
        CertificateStackState::Pending => (1, Seq::empty()),
        CertificateStackState::Ready(arn) => (2, arn@),
    }
}

pub open spec fn ready_code(code: Seq<char>) -> bool {
    code == "CREATE_COMPLETE"@ || code == "UPDATE_COMPLETE"@
}

pub open spec fn pending_code(code: Seq<char>) -> bool {
    code == "CREATE_IN_PROGRESS"@ || code == "UPDATE_IN_PROGRESS"@
}

/// What the description of the certificate stack says: absent, pending, or
/// ready with its certificate; refused when the stack is not owned by the
/// installation, is for another domain, or is in any other state.
pub open spec fn certificate_state_outcome(
    r: Result<CertificateStackState, ShimesuError>,
    stack: Option<StackDescription>,
    stack_name: Seq<char>,
    installation_stack_name: Seq<char>,
    domain: Seq<char>,
) -> bool {
    match stack {
        None => (r matches Ok(s) && s is Absent),
        Some(st) => {
            let stack_domain = first_parameter_value(st.parameters@, "BaseDomain"@);
            if !owned_by(st.tags@, installation_stack_name) {
                fails_with(
                    r,
                    (
                        ErrorKind::Validation,
                        "Refusing to reuse certificate stack '"@ + stack_name
                            + "' because it is missing required shimesu ownership tags"@,
                    ),
                )
            } else if stack_domain != Some(domain) {
                fails_with(
                    r,
                    (
                        ErrorKind::Validation,
                        "Certificate stack '"@ + or_unknown(opt_text(st.stack_name))
                            + "' belongs to domain '"@ + or_unknown(stack_domain) + "', not '"@
                            + domain + "'"@,
                    ),
                )
            } else {
                match st.stack_status {
                    Some(status) => if ready_code(status.code()) {
                        match first_output_value(st.outputs@, "CertificateArn"@) {
                            Some(arn) => (r matches Ok(s) && certificate_state_view(s) == (2int, arn)),
                            None => fails_with(r, (ErrorKind::Config, missing_arn_message(stack_name))),
                        }
                    } else if pending_code(status.code()) {
                        (r matches Ok(s) && s is Pending)
                    } else {
                        fails_with(
                            r,
                            (
                                ErrorKind::Validation,
                                "Certificate stack '"@ + stack_name + "' is in state "@
                                    + status.code()
                                    + "; resolve or delete it before retrying"@,
                            ),
                        )
                    },
                    None => fails_with(
                        r,
                        (
                            ErrorKind::Generic,
                            "Certificate stack '"@ + stack_name + "' returned no status"@,
                        ),
                    ),
                }
            }
        },
    }
}

pub open spec fn deref_opt(o: Option<&StackDescription>) -> Option<StackDescription> {
    match o {
        Some(s) => Some(*s),
        None => None,
    }
}

pub fn certificate_stack_state(
    stack: Option<&StackDescription>,
    stack_name: &str,
    installation_stack_name: &str,
    domain: &str,
) -> (r: Result<CertificateStackState, ShimesuError>)
    ensures
        certificate_state_outcome(
            r,
            deref_opt(stack),
            stack_name@,
            installation_stack_name@,
            domain@,
        ),
{
    let stack = match stack {
        Some(s) => s,
        None => return Ok(CertificateStackState::Absent),
    };
    if !cloudformation_tags_belong_to_stack(&stack.tags, installation_stack_name) {
        return Err(
            ShimesuError::Validation(
                cat3(
                    "Refusing to reuse certificate stack '",
                    stack_name,
                    "' because it is missing required shimesu ownership tags",
                ),
            ),
        );
    }
    validate_stack_domain(stack, domain)?;
    match &stack.stack_status {
        Some(status) => {
            let code = status.as_str();
            if same_text(code, "CREATE_COMPLETE") || same_text(code, "UPDATE_COMPLETE") {
                let arn = certificate_arn_from_description(stack, stack_name)?;
                Ok(CertificateStackState::Ready(arn))
            } else if same_text(code, "CREATE_IN_PROGRESS") || same_text(code, "UPDATE_IN_PROGRESS") {
                Ok(CertificateStackState::Pending)
            } else {
                let head = cat3("Certificate stack '", stack_name, "' is in state ");
                Err(
                    ShimesuError::Validation(
                        cat3(head.as_str(), code, "; resolve or delete it before retrying"),
                    ),
                )
            }
        },
        None => Err(
            ShimesuError::Generic(cat3("Certificate stack '", stack_name, "' returned no status")),
        ),
    }
}

/// A refused creation is a race with another run when the stack already
/// exists; any other failure is mapped by its code and text.
pub fn map_certificate_create_error(
    already_exists: bool,
    code: Option<&str>,
    error_text: &str,
) -> (r: Result<CertificateCreateOutcome, ShimesuError>)
    ensures
        already_exists ==> r == Ok::<CertificateCreateOutcome, ShimesuError>(
            CertificateCreateOutcome::AlreadyExists,
        ),
        !already_exists ==> fails_with(
            r,
            aws_error_with_code_view("Failed to create certificate stack"@, opt_view(code), error_text@),
        ),
{
    if already_exists {
        Ok(CertificateCreateOutcome::AlreadyExists)
    } else {
        Err(map_aws_error_with_code("Failed to create certificate stack", code, error_text))
    }
}

/// After a creation race: the certificate when the stack is ready, `None`
/// to keep waiting while it is pending, and an error when it vanished.
pub fn certificate_after_create_race(state: CertificateStackState, stack_name: &str) -> (r: Result<
    Option<String>,
    ShimesuError,
>)
    ensures
        match state {
            CertificateStackState::Ready(arn) => (r matches Ok(Some(s)) && s@ == arn@),
            CertificateStackState::Pending => r matches Ok(None),
            CertificateStackState::Absent => fails_with(
                r,
                (
                    ErrorKind::Generic,
                    "Certificate stack '"@ + stack_name@ + "' disappeared during creation"@,
                ),
            ),
        },
{
    match state {
        CertificateStackState::Ready(arn) => Ok(Some(arn)),
        CertificateStackState::Pending => Ok(None),
        CertificateStackState::Absent => Err(
            ShimesuError::Generic(
                cat3("Certificate stack '", stack_name, "' disappeared during creation"),
            ),
        ),
    }
}

/// After waiting for the stack: its certificate, which it must have by now.
pub fn certificate_after_wait(state: CertificateStackState, stack_name: &str) -> (r: Result<
    String,
    ShimesuError,
>)
    ensures
        match state {
            CertificateStackState::Ready(arn) => (r matches Ok(s) && s@ == arn@),
            _ => fails_with(
                r,
                (
                    ErrorKind::Generic,
                    "Certificate stack '"@ + stack_name@
                        + "' completed without an issued certificate"@,
                ),
            ),
        },
{
    match state {
        CertificateStackState::Ready(arn) => Ok(arn),
        _ => Err(
            ShimesuError::Generic(
                cat3("Certificate stack '", stack_name, "' completed without an issued certificate"),
            ),
        ),
    }
}

/// What a mutating command finds of the managed certificate stack.
pub open spec fn managed_outcome(
    r: Result<ManagedCertificateStack, ShimesuError>,
    stack: Option<StackDescription>,
    stack_name: Seq<char>,
    installation_stack_name: Seq<char>,
    expected_domain: Option<Seq<char>>,
) -> bool {
    match stack {
        None => (r matches Ok(m) && m is Absent),
        Some(st) => {
            let actual = first_parameter_value(st.parameters@, "BaseDomain"@);
            if !owned_by(st.tags@, installation_stack_name) {
                fails_with(
                    r,
                    (
                        ErrorKind::Validation,
                        "Refusing to mutate certificate stack '"@ + stack_name
                            + "' because it is missing required shimesu ownership tags"@,
                    ),
                )
            } else if expected_domain is Some && actual != expected_domain {
                fails_with(
                    r,
                    (
                        ErrorKind::Validation,
                        "Refusing to mutate certificate stack '"@ + stack_name
                            + "' because its domain '"@ + or_unknown(actual)
                            + "' does not match '"@ + expected_domain->0 + "'"@,
                    ),
                )
            } else {
                match first_output_value(st.outputs@, "CertificateArn"@) {
                    Some(arn) => (r matches Ok(m) && (m matches ManagedCertificateStack::Owned {
                        certificate_arn,
                    } && certificate_arn@ == arn)),
                    None => fails_with(r, (ErrorKind::Config, missing_arn_message(stack_name))),
                }
            }
        },
    }
}

pub fn managed_certificate_stack_from_description(
    stack: Option<&StackDescription>,
    stack_name: &str,
    installation_stack_name: &str,
    expected_domain: Option<&str>,
) -> (r: Result<ManagedCertificateStack, ShimesuError>)
    ensures
        managed_outcome(
            r,
            deref_opt(stack),
            stack_name@,
            installation_stack_name@,
            opt_view(expected_domain),
        ),
{
    let stack = match stack {
        Some(s) => s,
        None => return Ok(ManagedCertificateStack::Absent),
    };
    if !cloudformation_tags_belong_to_stack(&stack.tags, installation_stack_name) {
        return Err(
            ShimesuError::Validation(
                cat3(
                    "Refusing to mutate certificate stack '",
                    stack_name,
                    "' because it is missing required shimesu ownership tags",
                ),
            ),
        );
    }
    if let Some(expected) = expected_domain {
        let actual = find_parameter_value(&stack.parameters, "BaseDomain");
        let matches = match &actual {
            Some(a) => same_text(a.as_str(), expected),
            None => false,
        };
        if !matches {
            let shown = text_or_unknown(&actual);
            let head = cat3("Refusing to mutate certificate stack '", stack_name, "' because its domain '");
            let text = cat5(head.as_str(), shown.as_str(), "' does not match '", expected, "'");
            return Err(ShimesuError::Validation(text));
        }
    }
    match find_output_value(&stack.outputs, "CertificateArn") {
        Some(arn) => Ok(ManagedCertificateStack::Owned { certificate_arn: arn }),
        None => Err(
            ShimesuError::Config(
                cat3("Certificate stack '", stack_name, "' is missing required output CertificateArn"),
            ),
        ),
    }
}

pub open spec fn covers(names: Seq<String>, name: Seq<char>) -> bool {
    exists|i: int| 0 <= i < names.len() && (#[trigger] names[i])@ == name
}

fn any_name_is(names: &Vec<String>, name: &str) -> (r: bool)
    ensures
        r == covers(names@, name@),
{
    let mut i: usize = 0;
    while i < names.len()
        invariant
            i <= names.len(),
            forall|j: int| 0 <= j < i ==> (#[trigger] names@[j])@ != name@,
        decreases names.len() - i,
    {
        if same_text(names[i].as_str(), name) {
            return true;
        }
        i = i + 1;
    }
    false
}

/// An override must be issued and cover both the domain and its wildcard.
pub fn validate_certificate_facts(
    status: Option<&str>,
    covered_names: &Vec<String>,
    domain: &str,
) -> (r: Result<(), ShimesuError>)
    ensures
        opt_view(status) != Some("ISSUED"@) ==> fails_with(
            r,
            (
                ErrorKind::Validation,
                "Certificate override must be ISSUED, but ACM reported "@ + or_unknown(
                    opt_view(status),
                ),
            ),
        ),
        opt_view(status) == Some("ISSUED"@) && !covers(covered_names@, domain@) ==> fails_with(
            r,
            (
                ErrorKind::Validation,
                "Certificate override does not cover base domain '"@ + domain@ + "'"@,
            ),
        ),
        opt_view(status) == Some("ISSUED"@) && covers(covered_names@, domain@) && !covers(
            covered_names@,
            "*."@ + domain@,
        ) ==> fails_with(
            r,
            (
                ErrorKind::Validation,
                "Certificate override does not cover wildcard '"@ + "*."@ + domain@ + "'"@,
            ),
        ),
        r is Ok <==> (opt_view(status) == Some("ISSUED"@) && covers(covered_names@, domain@)
            && covers(covered_names@, "*."@ + domain@)),
{
    let issued = match status {
        Some(s) => same_text(s, "ISSUED"),
        None => false,
    };
    if !issued {
        let shown = match status {
            Some(s) => s,
            None => "unknown",
        };
        return Err(
            ShimesuError::Validation(cat("Certificate override must be ISSUED, but ACM reported ", shown)),
        );
    }
    if !any_name_is(covered_names, domain) {
        return Err(
            ShimesuError::Validation(
                cat3("Certificate override does not cover base domain '", domain, "'"),
            ),
        );
    }
    let wildcard = cat("*.", domain);
    if !any_name_is(covered_names, wildcard.as_str()) {
        assert("Certificate override does not cover wildcard '"@ + wildcard@ + "'"@
            =~= "Certificate override does not cover wildcard '"@ + "*."@ + domain@ + "'"@);
        return Err(
            ShimesuError::Validation(
                cat3("Certificate override does not cover wildcard '", wildcard.as_str(), "'"),
            ),
        );
    }
    Ok(())
}

/// DNS validation records are complete once ACM lists any.
pub fn completed_validation_records(records: Vec<(String, String)>) -> (r: Option<
    Vec<(String, String)>,
>)
    ensures
        records@.len() == 0 ==> r is None,
        records@.len() > 0 ==> r == Some(records),
{
    if records.len() == 0 {
        None
    } else {
        Some(records)
    }
}

/// `s` without its trailing dots.
pub open spec fn trim_trailing_dots(s: Seq<char>) -> Seq<char>
    decreases s.len(),
{
    if s.len() > 0 && s.last() == '.' {
        trim_trailing_dots(s.drop_last())
    } else {
        s
    }
}

fn trim_end_dots(s: &str) -> (out: String)
    ensures
        out@ == trim_trailing_dots(s@),
{
    let cs = crate::text::chars_of(s);
    let mut n: usize = cs.len();
    assert(cs@.take(n as int) == cs@);
    while n > 0 && cs[n - 1] == '.'
        invariant
            n <= cs.len(),
            trim_trailing_dots(cs@) == trim_trailing_dots(cs@.take(n as int)),
        decreases n,
    {
        assert(cs@.take(n as int).drop_last() == cs@.take(n - 1));
        n = n - 1;
    }
    let mut kept: Vec<char> = Vec::new();
    let mut i: usize = 0;
    while i < n
        invariant
            i <= n <= cs.len(),
            kept@ == cs@.take(i as int),
        decreases n - i,
    {
        kept.push(cs[i]);
        assert(cs@.take(i + 1) == cs@.take(i as int).push(cs@[i as int]));
        i = i + 1;
    }
    assert(trim_trailing_dots(cs@.take(n as int)) == cs@.take(n as int));
    crate::text::string_of(&kept)
}

/// The zone name without trailing dots, ASCII-lowercased.
pub open spec fn zone_domain(zone_name: Seq<char>) -> Seq<char> {
    ascii_lower(trim_trailing_dots(zone_name))
}

/// A domain lies in a hosted zone when it is the zone's domain or ends with
/// a dot and the zone's domain.
pub open spec fn in_zone(domain: Seq<char>, zone_name: Seq<char>) -> bool {
    domain == zone_domain(zone_name) || seq_ends_with(domain, "."@ + zone_domain(zone_name))
}

pub fn domain_belongs_to_zone(domain: &str, zone_name: &str) -> (r: bool)
    ensures
        r == in_zone(domain@, zone_name@),
{
    let trimmed = trim_end_dots(zone_name);
    let zone = to_ascii_lowercase(trimmed.as_str());
    let dotted = cat(".", zone.as_str());
    same_text(domain, zone.as_str()) || ends_with(domain, dotted.as_str())
}

/// A hosted zone given for `stack init` must contain the domain; Route 53
/// must have described the zone.
pub fn check_hosted_zone(hosted_zone_id: &str, zone_name: Option<&str>, domain: &str) -> (r: Result<
    (),
    ShimesuError,
>)
    ensures
        match zone_name {
            None => fails_with(
                r,
                (
                    ErrorKind::Generic,
                    "Route 53 returned no hosted-zone details for '"@ + hosted_zone_id@ + "'"@,
                ),
            ),
            Some(z) => if in_zone(domain@, z@) {
                r is Ok
            } else {
                fails_with(
                    r,
                    (
                        ErrorKind::Validation,
                        "Hosted zone '"@ + z@ + "' does not contain domain '"@ + domain@ + "'"@,
                    ),
                )
            },
        },
{
    match zone_name {
        None => Err(
            ShimesuError::Generic(
                cat3("Route 53 returned no hosted-zone details for '", hosted_zone_id, "'"),
            ),
        ),
        Some(z) => {
            if domain_belongs_to_zone(domain, z) {
                Ok(())
            } else {
                Err(
                    ShimesuError::Validation(
                        cat5("Hosted zone '", z, "' does not contain domain '", domain, "'"),
                    ),
                )
            }
        },
    }
}

/// Where the resolution of the installation's certificate stands: which
/// answer it waits for, or that it is done.
#[derive(Debug, Clone, Copy, PartialEq, Eq, Structural)]
pub enum CertificatePhase {
    AwaitHostedZone,
    AwaitOverride,
    AwaitFirstDescribe,
    AwaitCreate,
    AwaitRaceDescribe,
    AwaitDnsReport,
    AwaitWait,
    AwaitFinalDescribe,
    Done,
}

/// The call the resolution needs next, or its result.
#[derive(Debug)]
pub enum CertificateRequest {
    /// Check that the hosted zone contains the domain.
    CheckHostedZone(String),
    /// Check that the operator's certificate is issued and covers the domain.
    CheckOverride(String),
    /// Describe the certificate stack.
    DescribeStack(String),
    /// Create the certificate stack.
    CreateStack(String),
    /// Show the DNS validation records of the certificate being created.
    ReportDnsRecords(String),
    /// Wait for the certificate stack's operation to end.
    WaitForStack(String),
    /// The certificate to use, or why there is none.
    Finished(Result<String, ShimesuError>),
}

/// What the caller learnt from making a [`CertificateRequest`].
#[derive(Debug)]
pub enum CertificateEvent {
    HostedZoneChecked(Result<(), ShimesuError>),
    OverrideChecked(Result<(), ShimesuError>),
    StackDescribed(Result<CertificateStackState, ShimesuError>),
    StackCreated(Result<CertificateCreateOutcome, ShimesuError>),
    DnsReported(Result<(), ShimesuError>),
    StackWaited(Result<(), ShimesuError>),
}

pub type OutcomeView = Result<Seq<char>, (ErrorKind, Seq<char>)>;

pub open spec fn outcome_view(r: Result<String, ShimesuError>) -> OutcomeView {
    match r {
        Ok(s) => Ok(s@),
        Err(e) => Err(e@),
    }
}

pub open spec fn error_view<T>(r: Result<T, ShimesuError>) -> OutcomeView {
    match r {
        Ok(_) => Err((ErrorKind::Generic, Seq::empty())),
        Err(e) => Err(e@),
    }
}

/// The resolution of the certificate for `stack init`: the operator's
/// override when given, else the managed certificate stack, created when
/// absent and waited for until its certificate is issued.
#[derive(Debug)]
pub struct CertificateResolution {
    pub phase: CertificatePhase,
    pub base_domain: String,
    pub certificate_arn: Option<String>,
    pub hosted_zone_id: Option<String>,
    pub installation_stack_name: String,
    pub stack_name: String,
    pub outcome: Option<Result<String, ShimesuError>>,
}

/// The next phase and outcome, on the views of the resolution's fields.
pub struct ResolutionView {
    pub phase: CertificatePhase,
    pub has_override: bool,
    pub has_zone: bool,
    pub override_arn: Seq<char>,
    pub stack_name: Seq<char>,
}

/// Phase after the certificate stack turned out to be pending: a managed
/// zone validates by itself, an external one needs its records shown.
pub open spec fn phase_after_pending(has_zone: bool) -> CertificatePhase {
    if has_zone {
        CertificatePhase::AwaitWait
    } else {
        CertificatePhase::AwaitDnsReport
    }
}

/// The phase and outcome that an event leads to; an event that does not
/// answer the current phase changes nothing (`None`).
pub open spec fn certificate_step(v: ResolutionView, e: CertificateEvent) -> Option<
    (CertificatePhase, Option<OutcomeView>),
> {
    match (v.phase, e) {
        (CertificatePhase::AwaitHostedZone, CertificateEvent::HostedZoneChecked(r)) => match r {
            Err(_) => Some((CertificatePhase::Done, Some(error_view(r)))),
            Ok(_) => if v.has_override {
                Some((CertificatePhase::AwaitOverride, None))
            } else {
                Some((CertificatePhase::AwaitFirstDescribe, None))
            },
        },
        (CertificatePhase::AwaitOverride, CertificateEvent::OverrideChecked(r)) => match r {
            Err(_) => Some((CertificatePhase::Done, Some(error_view(r)))),
            Ok(_) => Some((CertificatePhase::Done, Some(Ok(v.override_arn)))),
        },
        (CertificatePhase::AwaitFirstDescribe, CertificateEvent::StackDescribed(r)) => match r {
            Err(_) => Some((CertificatePhase::Done, Some(error_view(r)))),
            Ok(CertificateStackState::Ready(arn)) => Some((CertificatePhase::Done, Some(Ok(arn@)))),
            Ok(CertificateStackState::Absent) => Some((CertificatePhase::AwaitCreate, None)),
            Ok(CertificateStackState::Pending) => Some((phase_after_pending(v.has_zone), None)),
        },
        (CertificatePhase::AwaitCreate, CertificateEvent::StackCreated(r)) => match r {
            Err(_) => Some((CertificatePhase::Done, Some(error_view(r)))),
            Ok(CertificateCreateOutcome::AlreadyExists) => Some(
                (CertificatePhase::AwaitRaceDescribe, None),
            ),
            Ok(CertificateCreateOutcome::Started) => Some((phase_after_pending(v.has_zone), None)),
        },
        (CertificatePhase::AwaitRaceDescribe, CertificateEvent::StackDescribed(r)) => match r {
            Err(_) => Some((CertificatePhase::Done, Some(error_view(r)))),
            Ok(CertificateStackState::Ready(arn)) => Some((CertificatePhase::Done, Some(Ok(arn@)))),
            Ok(CertificateStackState::Pending) => Some((phase_after_pending(v.has_zone), None)),
            Ok(CertificateStackState::Absent) => Some(
                (
                    CertificatePhase::Done,
                    Some(
                        Err(
                            (
                                ErrorKind::Generic,
                                "Certificate stack '"@ + v.stack_name
                                    + "' disappeared during creation"@,
                            ),
                        ),
                    ),
                ),
            ),
        },
        (CertificatePhase::AwaitDnsReport, CertificateEvent::DnsReported(r)) => match r {
            Err(_) => Some((CertificatePhase::Done, Some(error_view(r)))),
            Ok(_) => Some((CertificatePhase::AwaitWait, None)),
        },
        (CertificatePhase::AwaitWait, CertificateEvent::StackWaited(r)) => match r {
            Err(_) => Some((CertificatePhase::Done, Some(error_view(r)))),
            Ok(_) => Some((CertificatePhase::AwaitFinalDescribe, None)),
        },
        (CertificatePhase::AwaitFinalDescribe, CertificateEvent::StackDescribed(r)) => match r {
            Err(_) => Some((CertificatePhase::Done, Some(error_view(r)))),
            Ok(CertificateStackState::Ready(arn)) => Some((CertificatePhase::Done, Some(Ok(arn@)))),
            Ok(_) => Some(
                (
                    CertificatePhase::Done,
                    Some(
                        Err(
                            (
                                ErrorKind::Generic,
                                "Certificate stack '"@ + v.stack_name
                                    + "' completed without an issued certificate"@,
                            ),
                        ),
                    ),
                ),
            ),
        },
        _ => None,
    }
}

/// The progress line owed for an answer: the first description finding the
/// stack absent announces its creation, finding it pending announces that
/// it is resumed; no other answer has one.
pub open spec fn progress_line(
    phase: CertificatePhase,
    stack_name: Seq<char>,
    e: CertificateEvent,
) -> Option<Seq<char>> {
    match (phase, e) {
        (
            CertificatePhase::AwaitFirstDescribe,
            CertificateEvent::StackDescribed(Ok(CertificateStackState::Absent)),
        ) => Some("Creating certificate stack '"@ + stack_name + "'..."@),
        (
            CertificatePhase::AwaitFirstDescribe,
            CertificateEvent::StackDescribed(Ok(CertificateStackState::Pending)),
        ) => Some("Resuming certificate stack '"@ + stack_name + "'..."@),
        _ => None,
    }
}

impl CertificateResolution {
    pub open spec fn view_of(&self) -> ResolutionView {
        ResolutionView {
            phase: self.phase,
            has_override: self.certificate_arn is Some,
            has_zone: self.hosted_zone_id is Some,
            override_arn: match self.certificate_arn {
                Some(a) => a@,
                None => Seq::empty(),
            },
            stack_name: self.stack_name@,
        }
    }

    /// The resolution is done exactly when it holds an outcome, and it waits
    /// for a check only of what it was given.
    pub open spec fn wf(&self) -> bool {
        &&& (self.phase == CertificatePhase::Done) == (self.outcome is Some)
        &&& self.phase == CertificatePhase::AwaitHostedZone ==> self.hosted_zone_id is Some
        &&& self.phase == CertificatePhase::AwaitOverride ==> self.certificate_arn is Some
    }

    pub open spec fn fixed_fields_of(&self, other: &Self) -> bool {
        &&& self.base_domain == other.base_domain
        &&& self.certificate_arn == other.certificate_arn
        &&& self.hosted_zone_id == other.hosted_zone_id
        &&& self.installation_stack_name == other.installation_stack_name
        &&& self.stack_name == other.stack_name
    }

    /// Starts with the hosted zone check when a zone is given, then the
    /// override check when an override is given; otherwise with the
    /// certificate stack, whose name must fit CloudFormation's limit.
    pub fn start(
        installation_stack_name: &str,
        base_domain: &str,
        certificate_arn: Option<&str>,
        hosted_zone_id: Option<&str>,
    ) -> (r: Self)
        ensures
            r.wf(),
            r.base_domain@ == base_domain@,
            opt_text(r.certificate_arn) == opt_view(certificate_arn),
            opt_text(r.hosted_zone_id) == opt_view(hosted_zone_id),
            r.installation_stack_name@ == installation_stack_name@,
            r.stack_name@ == installation_stack_name@ + "-certificate"@,
            hosted_zone_id is Some ==> r.phase == CertificatePhase::AwaitHostedZone,
            hosted_zone_id is None && certificate_arn is Some ==> r.phase
                == CertificatePhase::AwaitOverride,
            hosted_zone_id is None && certificate_arn is None ==> r.phase
                == CertificatePhase::AwaitFirstDescribe,
    {
        let phase = if hosted_zone_id.is_some() {
            CertificatePhase::AwaitHostedZone
        } else if certificate_arn.is_some() {
            CertificatePhase::AwaitOverride
        } else {
            CertificatePhase::AwaitFirstDescribe
        };
        CertificateResolution {
            phase,
            base_domain: owned(base_domain),
            certificate_arn: match certificate_arn {
                Some(a) => Some(owned(a)),
                None => None,
            },
            hosted_zone_id: match hosted_zone_id {
                Some(z) => Some(owned(z)),
                None => None,
            },
            installation_stack_name: owned(installation_stack_name),
            stack_name: cat(installation_stack_name, "-certificate"),
            outcome: None,
        }
    }

    /// The call to make next, or the result once done. Before the first
    /// look at the certificate stack, its name is checked against
    /// CloudFormation's limit.
    pub fn next_request(&self) -> (r: CertificateRequest)
        requires
            self.wf(),
        ensures
            match r {
                CertificateRequest::CheckHostedZone(z) => self.phase
                    == CertificatePhase::AwaitHostedZone && opt_text(self.hosted_zone_id) == Some(z@),
                CertificateRequest::CheckOverride(a) => self.phase == CertificatePhase::AwaitOverride
                    && opt_text(self.certificate_arn) == Some(a@),
                CertificateRequest::DescribeStack(n) => (self.phase
                    == CertificatePhase::AwaitFirstDescribe || self.phase
                    == CertificatePhase::AwaitRaceDescribe || self.phase
                    == CertificatePhase::AwaitFinalDescribe) && n@ == self.stack_name@
                    && byte_len(n@) <= 128,
                CertificateRequest::CreateStack(n) => self.phase == CertificatePhase::AwaitCreate
                    && n@ == self.stack_name@,
                CertificateRequest::ReportDnsRecords(n) => self.phase
                    == CertificatePhase::AwaitDnsReport && n@ == self.stack_name@,
                CertificateRequest::WaitForStack(n) => self.phase == CertificatePhase::AwaitWait
                    && n@ == self.stack_name@,
                CertificateRequest::Finished(o) => (self.phase == CertificatePhase::Done
                    && (self.outcome matches Some(f) && outcome_view(f) == outcome_view(o))) || ((self.phase
                    == CertificatePhase::AwaitFirstDescribe || self.phase
                    == CertificatePhase::AwaitRaceDescribe || self.phase
                    == CertificatePhase::AwaitFinalDescribe) && byte_len(self.stack_name@) > 128
                    && fails_with(
                    o,
                    (
                        ErrorKind::Validation,
                        "Certificate stack name exceeds CloudFormation's 128-character limit"@,
                    ),
                )),
            },
    {
        match self.phase {
            CertificatePhase::AwaitHostedZone => match &self.hosted_zone_id {
                Some(z) => CertificateRequest::CheckHostedZone(z.clone()),
                None => CertificateRequest::Finished(
                    Err(ShimesuError::Generic(owned("no hosted zone to check"))),
                ),
            },
            CertificatePhase::AwaitOverride => match &self.certificate_arn {
                Some(a) => CertificateRequest::CheckOverride(a.clone()),
                None => CertificateRequest::Finished(
                    Err(ShimesuError::Generic(owned("no certificate override to check"))),
                ),
            },
            CertificatePhase::AwaitFirstDescribe | CertificatePhase::AwaitRaceDescribe
            | CertificatePhase::AwaitFinalDescribe => {
                if self.stack_name.as_str().len() > 128 {
                    CertificateRequest::Finished(
                        Err(
                            ShimesuError::Validation(
                                owned(
                                    "Certificate stack name exceeds CloudFormation's 128-character limit",
                                ),
                            ),
                        ),
                    )
                } else {
                    CertificateRequest::DescribeStack(self.stack_name.clone())
                }
            },
            CertificatePhase::AwaitCreate => CertificateRequest::CreateStack(self.stack_name.clone()),
            CertificatePhase::AwaitDnsReport => CertificateRequest::ReportDnsRecords(
                self.stack_name.clone(),
            ),
            CertificatePhase::AwaitWait => CertificateRequest::WaitForStack(self.stack_name.clone()),
            CertificatePhase::Done => match &self.outcome {
                Some(o) => CertificateRequest::Finished(clone_outcome(o)),
                None => CertificateRequest::Finished(
                    Err(ShimesuError::Generic(owned("certificate resolution has no outcome"))),
                ),
            },
        }
    }

    fn finish(&mut self, outcome: Result<String, ShimesuError>)
        ensures
            final(self).phase == CertificatePhase::Done,
            final(self).outcome == Some(outcome),
            final(self).fixed_fields_of(old(self)),
    {
        self.phase = CertificatePhase::Done;
        self.outcome = Some(outcome);
    }

    fn go(&mut self, phase: CertificatePhase)
        requires
            phase != CertificatePhase::Done,
            old(self).outcome is None,
        ensures
            final(self).phase == phase,
            final(self).outcome is None,
            final(self).fixed_fields_of(old(self)),
    {
        self.phase = phase;
    }

    fn after_pending(&mut self)
        requires
            old(self).outcome is None,
        ensures
            final(self).phase == phase_after_pending(old(self).hosted_zone_id is Some),
            final(self).outcome is None,
            final(self).fixed_fields_of(old(self)),
    {
        if self.hosted_zone_id.is_some() {
            self.go(CertificatePhase::AwaitWait);
        } else {
            self.go(CertificatePhase::AwaitDnsReport);
        }
    }

    /// Records what a request brought back and returns the progress line to
    /// show, if any: creating the stack, or resuming a pending one.
    pub fn record(&mut self, event: CertificateEvent) -> (progress: Option<String>)
        requires
            old(self).wf(),
        ensures
            final(self).wf(),
            final(self).fixed_fields_of(old(self)),
            match certificate_step(old(self).view_of(), event) {
                None => final(self).phase == old(self).phase && final(self).outcome == old(
                    self,
                ).outcome,
                Some((phase, outcome)) => {
                    &&& final(self).phase == phase
                    &&& match outcome {
                        Some(o) => (final(self).outcome matches Some(f) && outcome_view(f) == o),
                        None => final(self).outcome is None,
                    }
                },
            },
            opt_text(progress) == progress_line(old(self).phase, old(self).stack_name@, event),
    {
        if self.phase == CertificatePhase::Done {
            return None;
        }
        match event {
            CertificateEvent::HostedZoneChecked(r) => {
                if self.phase == CertificatePhase::AwaitHostedZone {
                    match r {
                        Err(e) => self.finish(Err(e)),
                        Ok(()) => if self.certificate_arn.is_some() {
                            self.go(CertificatePhase::AwaitOverride);
                        } else {
                            self.go(CertificatePhase::AwaitFirstDescribe);
                        },
                    }
                }
                None
            },
            CertificateEvent::OverrideChecked(r) => {
                if self.phase == CertificatePhase::AwaitOverride {
                    match r {
                        Err(e) => self.finish(Err(e)),
                        Ok(()) => {
                            let arn = match &self.certificate_arn {
                                Some(a) => a.clone(),
                                None => String::new(),
                            };
                            self.finish(Ok(arn));
                        },
                    }
                }
                None
            },
            CertificateEvent::StackDescribed(r) => {
                if self.phase == CertificatePhase::AwaitFirstDescribe {
                    match r {
                        Err(e) => {
                            self.finish(Err(e));
                            None
                        },
                        Ok(CertificateStackState::Ready(arn)) => {
                            self.finish(Ok(arn));
                            None
                        },
                        Ok(CertificateStackState::Absent) => {
                            let line = cat3("Creating certificate stack '", self.stack_name.as_str(), "'...");
                            self.go(CertificatePhase::AwaitCreate);
                            Some(line)
                        },
                        Ok(CertificateStackState::Pending) => {
                            let line = cat3("Resuming certificate stack '", self.stack_name.as_str(), "'...");
                            self.after_pending();
                            Some(line)
                        },
                    }
                } else if self.phase == CertificatePhase::AwaitRaceDescribe {
                    match r {
                        Err(e) => self.finish(Err(e)),
                        Ok(CertificateStackState::Ready(arn)) => self.finish(Ok(arn)),
                        Ok(CertificateStackState::Pending) => self.after_pending(),
                        Ok(CertificateStackState::Absent) => {
                            let text = cat3(
                                "Certificate stack '",
                                self.stack_name.as_str(),
                                "' disappeared during creation",
                            );
                            self.finish(Err(ShimesuError::Generic(text)));
                        },
                    }
                    None
                } else if self.phase == CertificatePhase::AwaitFinalDescribe {
                    match r {
                        Err(e) => self.finish(Err(e)),
                        Ok(CertificateStackState::Ready(arn)) => self.finish(Ok(arn)),
                        Ok(_) => {
                            let text = cat3(
                                "Certificate stack '",
                                self.stack_name.as_str(),
                                "' completed without an issued certificate",
                            );
                            self.finish(Err(ShimesuError::Generic(text)));
                        },
                    }
                    None
                } else {
                    None
                }
            },
            CertificateEvent::StackCreated(r) => {
                if self.phase == CertificatePhase::AwaitCreate {
                    match r {
                        Err(e) => self.finish(Err(e)),
                        Ok(CertificateCreateOutcome::AlreadyExists) => self.go(
                            CertificatePhase::AwaitRaceDescribe,
                        ),
                        Ok(CertificateCreateOutcome::Started) => self.after_pending(),
                    }
                }
                None
            },
            CertificateEvent::DnsReported(r) => {
                if self.phase == CertificatePhase::AwaitDnsReport {
                    match r {
                        Err(e) => self.finish(Err(e)),
                        Ok(()) => self.go(CertificatePhase::AwaitWait),
                    }
                }
                None
            },
            CertificateEvent::StackWaited(r) => {
                if self.phase == CertificatePhase::AwaitWait {
                    match r {
                        Err(e) => self.finish(Err(e)),
                        Ok(()) => self.go(CertificatePhase::AwaitFinalDescribe),
                    }
                }
                None
            },
        }
    }
}

fn clone_outcome(o: &Result<String, ShimesuError>) -> (c: Result<String, ShimesuError>)
    ensures
        outcome_view(c) == outcome_view(*o),
{
    match o {
        Ok(s) => Ok(s.clone()),
        Err(e) => Err(e.duplicate()),
    }
}

/// With an override, the certificate stack is never looked at: the
/// resolution ends right after the override check, with the override itself
/// when the check passes.
pub proof fn lemma_override_skips_the_stack(v: ResolutionView, e: CertificateEvent)
    requires
        v.phase == CertificatePhase::AwaitOverride,
    ensures
        certificate_step(v, e) matches Some((phase, outcome)) ==> phase == CertificatePhase::Done
            && (e matches CertificateEvent::OverrideChecked(Ok(_)) ==> outcome == Some(
            Ok::<Seq<char>, (ErrorKind, Seq<char>)>(v.override_arn),
        )),
{
}

/// The certificate stack is created only after a first description found
/// it absent.
pub proof fn lemma_create_follows_absence(v: ResolutionView, e: CertificateEvent)
    ensures
        certificate_step(v, e) matches Some((phase, _)) && phase == CertificatePhase::AwaitCreate
            ==> v.phase == CertificatePhase::AwaitFirstDescribe && e matches CertificateEvent::StackDescribed(
            Ok(CertificateStackState::Absent),
        ),
{
}

/// The tags written on the stacks of an installation are the tags that
/// ownership checks look for: a stack carrying them is owned by that
/// installation.
pub proof fn lemma_ownership_tags_are_recognised(tags: Seq<Tag>, stack_name: Seq<char>)
    requires
        tags.len() == 2,
        is_tag(tags[0], APPLICATION_TAG_KEY@, APPLICATION_TAG_VALUE@),
        is_tag(tags[1], STACK_TAG_KEY@, stack_name),
    ensures
        owned_by(tags, stack_name),
{
    assert(opt_text(tags[0].key) == Some(APPLICATION_TAG_KEY@));
    assert(opt_text(tags[1].key) == Some(STACK_TAG_KEY@));
}


/// An owned certificate stack for the domain whose create or update completed
/// is ready with its `CertificateArn` output.
pub proof fn lemma_completed_certificate_stack_is_ready(
    r: Result<CertificateStackState, ShimesuError>,
    st: StackDescription,
    stack_name: Seq<char>,
    installation_stack_name: Seq<char>,
    domain: Seq<char>,
    arn: Seq<char>,
)
    requires
        certificate_state_outcome(r, Some(st), stack_name, installation_stack_name, domain),
        owned_by(st.tags@, installation_stack_name),
        first_parameter_value(st.parameters@, "BaseDomain"@) == Some(domain),
        st.stack_status matches Some(status) && (status is CreateComplete
            || status is UpdateComplete),
        first_output_value(st.outputs@, "CertificateArn"@) == Some(arn),
    ensures
        r matches Ok(CertificateStackState::Ready(a)) && a@ == arn,
{
}


/// An owned certificate stack for the domain whose create or update is still
/// running is pending, so that `stack init` resumes it.
pub proof fn lemma_running_certificate_stack_is_pending(
    r: Result<CertificateStackState, ShimesuError>,
    st: StackDescription,
    stack_name: Seq<char>,
    installation_stack_name: Seq<char>,
    domain: Seq<char>,
)
    requires
        certificate_state_outcome(r, Some(st), stack_name, installation_stack_name, domain),
        owned_by(st.tags@, installation_stack_name),
        first_parameter_value(st.parameters@, "BaseDomain"@) == Some(domain),
        st.stack_status matches Some(status) && (status is CreateInProgress
            || status is UpdateInProgress),
    ensures
        r matches Ok(CertificateStackState::Pending),
{
    reveal_strlit("CREATE_IN_PROGRESS");
    reveal_strlit("UPDATE_IN_PROGRESS");
    reveal_strlit("CREATE_COMPLETE");
    reveal_strlit("UPDATE_COMPLETE");
    let status = st.stack_status->Some_0;
    assert(status.code()[1] == 'R' || status.code()[1] == 'P');
    assert(!ready_code(status.code())) by {
        if ready_code(status.code()) {
            assert(status.code().len() == "CREATE_COMPLETE"@.len() || status.code().len()
                == "UPDATE_COMPLETE"@.len());
        }
    }
}

} // verus!
