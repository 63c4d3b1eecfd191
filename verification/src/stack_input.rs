//! Parses and validates the inputs of `stack init`: the base domain, an
//! optional certificate ARN and an optional Route 53 hosted zone.
//!
//! Every check looks at characters. Each accepted value consists of ASCII
//! characters only, so its length in characters is its length in bytes.
use vstd::prelude::*;

use crate::aws_error::opt_view;
use crate::cloudformation::{is_param, StackParameter};
use crate::error::{fails_usage, fails_validation, ShimesuError};
use crate::text::{
    chars_are, chars_of, is_digit, is_lower, is_upper, seq_starts_with, split_chars, split_on,
    char_vec_views,
};

verus! {

pub open spec fn domain_message() -> Seq<char> {
    "stack init base domain must be a lowercase DNS name such as pages.example.com"@
}

pub open spec fn arn_message() -> Seq<char> {
    "stack init certificate arn must be an ACM certificate ARN from us-east-1"@
}

pub open spec fn hosted_zone_message() -> Seq<char> {
    "stack init hosted zone id must be a Route 53 hosted zone ID such as Z1234567890EXAMPLE"@
}

pub open spec fn label_char(c: char) -> bool {
    is_lower(c) || is_digit(c) || c == '-'
}

/// A DNS label below the top level: 1 to 63 of `a-z0-9-`, no hyphen at an end.
pub open spec fn standard_label_ok(l: Seq<char>) -> bool {
    &&& 1 <= l.len() <= 63
    &&& l[0] != '-'
    &&& l.last() != '-'
    &&& forall|i: int| 0 <= i < l.len() ==> label_char(#[trigger] l[i])
}

/// The top-level label: 2 to 63 lowercase letters.
pub open spec fn tld_label_ok(l: Seq<char>) -> bool {
    &&& 2 <= l.len() <= 63
    &&& forall|i: int| 0 <= i < l.len() ==> is_lower(#[trigger] l[i])
}

/// A lowercase DNS name of at most 253 characters with at least two labels.
pub open spec fn base_domain_ok(d: Seq<char>) -> bool {
    let labels = split_on(d, '.');
    &&& 1 <= d.len() <= 253
    &&& labels.len() >= 2
    &&& forall|i: int| 0 <= i < labels.len() - 1 ==> standard_label_ok(#[trigger] labels[i])
    &&& tld_label_ok(labels.last())
}

/// `aws`, or `aws-` followed by `a-z0-9-`.
pub open spec fn partition_ok(p: Seq<char>) -> bool {
    ||| p == "aws"@
    ||| (seq_starts_with(p, "aws-"@) && forall|i: int| 0 <= i < p.len() ==> label_char(#[trigger] p[i]))
}

pub open spec fn certificate_id_ok(id: Seq<char>) -> bool {
    &&& id.len() > 0
    &&& forall|i: int|
        0 <= i < id.len() ==> is_digit(#[trigger] id[i]) || ('a' <= id[i] <= 'f') || id[i] == '-'
}

/// `arn:<partition>:acm:us-east-1:<12 digits>:certificate/<id>`. A sixth
/// colon would fall inside the certificate id, which admits none.
pub open spec fn certificate_arn_ok(a: Seq<char>) -> bool {
    let parts = split_on(a, ':');
    &&& parts.len() == 6
    &&& parts[0] == "arn"@
    &&& partition_ok(parts[1])
    &&& parts[2] == "acm"@
    &&& parts[3] == "us-east-1"@
    &&& parts[4].len() == 12
    &&& forall|i: int| 0 <= i < parts[4].len() ==> is_digit(#[trigger] parts[4][i])
    &&& seq_starts_with(parts[5], "certificate/"@)
    &&& certificate_id_ok(parts[5].skip(12))
}

/// 2 to 33 of `0-9A-Z`, starting with `Z`.
pub open spec fn hosted_zone_id_ok(z: Seq<char>) -> bool {
    &&& 2 <= z.len() <= 33
    &&& z[0] == 'Z'
    &&& forall|i: int| 0 <= i < z.len() ==> is_digit(#[trigger] z[i]) || is_upper(z[i])
}

/// What `stack init` was asked to do.
#[derive(Debug, Clone, Copy, PartialEq, Eq)]
pub struct StackInitInput<'a> {
    base_domain: &'a str,
    certificate_arn: Option<&'a str>,
    hosted_zone_id: Option<&'a str>,
}

pub type InputView = (Seq<char>, Option<Seq<char>>, Option<Seq<char>>);

impl<'a> View for StackInitInput<'a> {
    type V = InputView;

    closed spec fn view(&self) -> InputView {
        (self.base_domain@, opt_view(self.certificate_arn), opt_view(self.hosted_zone_id))
    }
}

/// `r` succeeded with an input whose view is `v`.
pub open spec fn parsed_as(r: Result<StackInitInput, ShimesuError>, v: InputView) -> bool {
    r matches Ok(input) && input@ == v
}

/// The outcome that [`StackInitInput::parse`] owes.
pub open spec fn parse_outcome(
    r: Result<StackInitInput, ShimesuError>,
    base_domain: Seq<char>,
    certificate_arn: Option<Seq<char>>,
) -> bool {
    if base_domain.len() == 0 {
        fails_usage(r, "stack init requires a non-empty domain"@)
    } else if !base_domain_ok(base_domain) {
        fails_validation(r, domain_message())
    } else {
        match certificate_arn {
            Some(a) => if a.len() == 0 {
                fails_usage(r, "stack init certificate arn cannot be empty"@)
            } else if !certificate_arn_ok(a) {
                fails_validation(r, arn_message())
            } else {
                parsed_as(r, (base_domain, certificate_arn, None::<Seq<char>>))
            },
            None => parsed_as(r, (base_domain, None, None::<Seq<char>>)),
        }
    }
}

fn all_label_chars(cs: &Vec<char>) -> (r: bool)
    ensures
        r == forall|i: int| 0 <= i < cs@.len() ==> label_char(#[trigger] cs@[i]),
{
    let mut i: usize = 0;
    while i < cs.len()
        invariant
            i <= cs.len(),
            forall|j: int| 0 <= j < i ==> label_char(#[trigger] cs@[j]),
        decreases cs.len() - i,
    {
        let c = cs[i];
        if !(('a' <= c && c <= 'z') || ('0' <= c && c <= '9') || c == '-') {
            assert(!label_char(cs@[i as int]));
            return false;
        }
        i = i + 1;
    }
    true
}

fn validate_standard_dns_label(label: &Vec<char>) -> (r: Result<(), ShimesuError>)
    ensures
        r is Ok <==> standard_label_ok(label@),
        r is Err ==> fails_validation(r, domain_message()),
{
    let n = label.len();
    if n < 1 || n > 63 {
        return Err(ShimesuError::Validation(domain_error_text()));
    }
    if label[0] == '-' || label[n - 1] == '-' {
        return Err(ShimesuError::Validation(domain_error_text()));
    }
    if all_label_chars(label) {
        return Ok(());
    }
    Err(ShimesuError::Validation(domain_error_text()))
}

fn validate_tld_label(label: &Vec<char>) -> (r: Result<(), ShimesuError>)
    ensures
        r is Ok <==> tld_label_ok(label@),
        r is Err ==> fails_validation(r, domain_message()),
{
    let n = label.len();
    if n < 2 || n > 63 {
        return Err(ShimesuError::Validation(domain_error_text()));
    }
    let mut i: usize = 0;
    while i < n
        invariant
            i <= n,
            n == label.len(),
            forall|j: int| 0 <= j < i ==> is_lower(#[trigger] label@[j]),
        decreases n - i,
    {
        let c = label[i];
        if !('a' <= c && c <= 'z') {
            assert(!is_lower(label@[i as int]));
            return Err(ShimesuError::Validation(domain_error_text()));
        }
        i = i + 1;
    }
    Ok(())
}

fn domain_error_text() -> (s: String)
    ensures
        s@ == domain_message(),
{
    "stack init base domain must be a lowercase DNS name such as pages.example.com".to_string()
}

/// Checks the base domain against [`base_domain_ok`].
pub fn validate_base_domain(base_domain: &str) -> (r: Result<(), ShimesuError>)
    ensures
        r is Ok <==> base_domain_ok(base_domain@),
        r is Err ==> fails_validation(r, domain_message()),
{
    let len = chars_of(base_domain).len();
    if len < 1 || len > 253 {
        return Err(ShimesuError::Validation(domain_error_text()));
    }
    let labels = split_chars(base_domain, '.');
    let ghost lv = split_on(base_domain@, '.');
    assert(lv.len() == labels@.len());
    let last = labels.len() - 1;
    if last == 0 {
        return Err(ShimesuError::Validation(domain_error_text()));
    }
    let mut i: usize = 0;
    while i < last
        invariant
            i <= last,
            last == labels.len() - 1,
            char_vec_views(labels@) == lv,
            lv == split_on(base_domain@, '.'),
            1 <= base_domain@.len() <= 253,
            forall|j: int| 0 <= j < i ==> standard_label_ok(#[trigger] lv[j]),
        decreases last - i,
    {
        assert(labels@[i as int]@ == lv[i as int]);
        let checked = validate_standard_dns_label(&labels[i]);
        if checked.is_err() {
            return Err(ShimesuError::Validation(domain_error_text()));
        }
        i = i + 1;
    }
    assert(labels@[last as int]@ == lv.last());
    validate_tld_label(&labels[last])
}

fn is_aws_partition(partition: &Vec<char>) -> (r: bool)
    ensures
        r == partition_ok(partition@),
{
    if chars_are(partition, "aws") {
        return true;
    }
    let prefix = chars_of("aws-");
    proof {
        reveal_strlit("aws-");
    }
    if partition.len() < 4 {
        assert(!seq_starts_with(partition@, "aws-"@));
        return false;
    }
    let mut i: usize = 0;
    while i < 4
        invariant
            i <= 4,
            4 <= partition.len(),
            prefix@ == "aws-"@,
            prefix.len() == 4,
            partition@ != "aws"@,
            forall|j: int| 0 <= j < i ==> partition@[j] == prefix@[j],
        decreases 4 - i,
    {
        if partition[i] != prefix[i] {
            assert(partition@.subrange(0, 4)[i as int] != "aws-"@[i as int]);
            return false;
        }
        i = i + 1;
    }
    assert(partition@.subrange(0, 4) =~= "aws-"@);
    all_label_chars(partition)
}

fn is_valid_certificate_id(id: &Vec<char>, start: usize) -> (r: bool)
    requires
        start <= id.len(),
    ensures
        r == forall|i: int|
            0 <= i < id@.skip(start as int).len() ==> is_digit(#[trigger] id@.skip(start as int)[i])
                || ('a' <= id@.skip(start as int)[i] <= 'f') || id@.skip(start as int)[i] == '-',
{
    let ghost rest = id@.skip(start as int);
    let mut i: usize = start;
    while i < id.len()
        invariant
            start <= i <= id.len(),
            rest == id@.skip(start as int),
            forall|j: int|
                0 <= j < i - start ==> is_digit(#[trigger] rest[j]) || ('a' <= rest[j] <= 'f')
                    || rest[j] == '-',
        decreases id.len() - i,
    {
        let c = id[i];
        assert(rest[i - start] == c);
        if !(('0' <= c && c <= '9') || ('a' <= c && c <= 'f') || c == '-') {
            return false;
        }
        i = i + 1;
    }
    true
}

fn all_digits_vec(cs: &Vec<char>) -> (r: bool)
    ensures
        r == forall|i: int| 0 <= i < cs@.len() ==> is_digit(#[trigger] cs@[i]),
{
    let mut i: usize = 0;
    while i < cs.len()
        invariant
            i <= cs.len(),
            forall|j: int| 0 <= j < i ==> is_digit(#[trigger] cs@[j]),
        decreases cs.len() - i,
    {
        let c = cs[i];
        if !('0' <= c && c <= '9') {
            assert(!is_digit(cs@[i as int]));
            return false;
        }
        i = i + 1;
    }
    true
}

fn starts_with_certificate(cs: &Vec<char>) -> (r: bool)
    ensures
        r == seq_starts_with(cs@, "certificate/"@),
{
    let prefix = chars_of("certificate/");
    proof {
        reveal_strlit("certificate/");
    }
    if cs.len() < prefix.len() {
        return false;
    }
    let mut i: usize = 0;
    while i < prefix.len()
        invariant
            i <= prefix.len(),
            prefix.len() <= cs.len(),
            prefix@ == "certificate/"@,
            forall|j: int| 0 <= j < i ==> cs@[j] == prefix@[j],
        decreases prefix.len() - i,
    {
        if cs[i] != prefix[i] {
            assert(cs@.subrange(0, prefix@.len() as int)[i as int] != prefix@[i as int]);
            return false;
        }
        i = i + 1;
    }
    assert(cs@.subrange(0, prefix@.len() as int) =~= prefix@);
    true
}

fn arn_error() -> (r: Result<(), ShimesuError>)
    ensures
        fails_validation(r, arn_message()),
{
    Err(
        ShimesuError::Validation(
            "stack init certificate arn must be an ACM certificate ARN from us-east-1".to_string(),
        ),
    )
}

/// Checks a certificate ARN against [`certificate_arn_ok`].
pub fn validate_certificate_arn(certificate_arn: &str) -> (r: Result<(), ShimesuError>)
    ensures
        r is Ok <==> certificate_arn_ok(certificate_arn@),
        r is Err ==> fails_validation(r, arn_message()),
{
    let parts = split_chars(certificate_arn, ':');
    let ghost pv = split_on(certificate_arn@, ':');
    if parts.len() != 6 {
        return arn_error();
    }
    assert(parts@[0]@ == pv[0] && parts@[1]@ == pv[1] && parts@[2]@ == pv[2]);
    assert(parts@[3]@ == pv[3] && parts@[4]@ == pv[4] && parts@[5]@ == pv[5]);
    let resource = &parts[5];
    if !starts_with_certificate(resource) {
        return arn_error();
    }
    proof {
        reveal_strlit("certificate/");
    }
    if !chars_are(&parts[0], "arn") || !is_aws_partition(&parts[1]) || !chars_are(&parts[2], "acm")
        || !chars_are(&parts[3], "us-east-1") || !all_digits_vec(&parts[4]) || parts[4].len() != 12
        || resource.len() == 12 || !is_valid_certificate_id(resource, 12) {
        return arn_error();
    }
    Ok(())
}

/// Checks a hosted zone id against [`hosted_zone_id_ok`].
pub fn validate_hosted_zone_id(hosted_zone_id: &str) -> (r: Result<(), ShimesuError>)
    ensures
        r is Ok <==> hosted_zone_id_ok(hosted_zone_id@),
        r is Err ==> fails_validation(r, hosted_zone_message()),
{
    let cs = chars_of(hosted_zone_id);
    let mut valid = 2 <= cs.len() && cs.len() <= 33 && cs[0] == 'Z';
    if valid {
        let mut i: usize = 0;
        while i < cs.len()
            invariant
                i <= cs.len(),
                cs@ == hosted_zone_id@,
                valid == forall|j: int| 0 <= j < i ==> is_digit(#[trigger] cs@[j]) || is_upper(
                    cs@[j],
                ),
            decreases cs.len() - i,
        {
            let c = cs[i];
            valid = valid && (('0' <= c && c <= '9') || ('A' <= c && c <= 'Z'));
            i = i + 1;
        }
    }
    if valid {
        Ok(())
    } else {
        Err(
            ShimesuError::Validation(
                "stack init hosted zone id must be a Route 53 hosted zone ID such as Z1234567890EXAMPLE".to_string(),
            ),
        )
    }
}

impl<'a> StackInitInput<'a> {
    /// Accepts a non-empty valid domain and, when given, a non-empty valid
    /// certificate ARN; no hosted zone yet.
    pub fn parse(base_domain: &'a str, certificate_arn: Option<&'a str>) -> (r: Result<
        Self,
        ShimesuError,
    >)
        ensures
            parse_outcome(r, base_domain@, opt_view(certificate_arn)),
    {
        if chars_of(base_domain).len() == 0 {
            return Err(ShimesuError::Usage("stack init requires a non-empty domain".to_string()));
        }
        if validate_base_domain(base_domain).is_err() {
            return Err(ShimesuError::Validation(domain_error_text()));
        }
        if let Some(arn) = certificate_arn {
            if chars_of(arn).len() == 0 {
                return Err(
                    ShimesuError::Usage("stack init certificate arn cannot be empty".to_string()),
                );
            }
            if validate_certificate_arn(arn).is_err() {
                return Err(
                    ShimesuError::Validation(
                        "stack init certificate arn must be an ACM certificate ARN from us-east-1".to_string(),
                    ),
                );
            }
        }
        Ok(StackInitInput { base_domain, certificate_arn, hosted_zone_id: None })
    }

    /// The same input with a hosted zone, after checking its id.
    pub fn with_hosted_zone_id(self, hosted_zone_id: Option<&'a str>) -> (r: Result<
        Self,
        ShimesuError,
    >)
        ensures
            match hosted_zone_id {
                Some(z) => if hosted_zone_id_ok(z@) {
                    r matches Ok(input) && input@ == (self@.0, self@.1, Some(z@))
                } else {
                    fails_validation(r, hosted_zone_message())
                },
                None => r matches Ok(input) && input@ == (self@.0, self@.1, None::<Seq<char>>),
            },
    {
        if let Some(z) = hosted_zone_id {
            if validate_hosted_zone_id(z).is_err() {
                return Err(
                    ShimesuError::Validation(
                        "stack init hosted zone id must be a Route 53 hosted zone ID such as Z1234567890EXAMPLE".to_string(),
                    ),
                );
            }
        }
        Ok(StackInitInput { hosted_zone_id, ..self })
    }

    pub fn base_domain(&self) -> (d: &'a str)
        ensures
            d@ == self@.0,
    {
        self.base_domain
    }

    pub fn certificate_arn(&self) -> (a: Option<&'a str>)
        ensures
            opt_view(a) == self@.1,
    {
        self.certificate_arn
    }

    pub fn hosted_zone_id(&self) -> (z: Option<&'a str>)
        ensures
            opt_view(z) == self@.2,
    {
        self.hosted_zone_id
    }

    /// Parameters of the installation stack: domain, certificate and, when
    /// set, the hosted zone.
    pub fn cloudformation_parameters(&self, certificate_arn: &str) -> (ps: Vec<StackParameter>)
        ensures
            ps@.len() == (if self@.2 is Some { 3int } else { 2int }),
            is_param(ps@[0], "BaseDomain"@, self@.0),
            is_param(ps@[1], "CertificateArn"@, certificate_arn@),
            self@.2 matches Some(z) ==> is_param(ps@[2], "HostedZoneId"@, z),
    {
        let mut ps = Vec::new();
        ps.push(StackParameter::with_value("BaseDomain", self.base_domain));
        ps.push(StackParameter::with_value("CertificateArn", certificate_arn));
        if let Some(z) = self.hosted_zone_id {
            ps.push(StackParameter::with_value("HostedZoneId", z));
        }
        ps
    }

    /// Parameters of the certificate stack: domain, the hosted zone when
    /// set, and the installation it belongs to.
    pub fn certificate_stack_parameters(&self, installation_stack_name: &str) -> (ps: Vec<
        StackParameter,
    >)
        ensures
            is_param(ps@[0], "BaseDomain"@, self@.0),
            match self@.2 {
                Some(z) => {
                    &&& ps@.len() == 3
                    &&& is_param(ps@[1], "HostedZoneId"@, z)
                    &&& is_param(ps@[2], "InstallationStackName"@, installation_stack_name@)
                },
                None => {
                    &&& ps@.len() == 2
                    &&& is_param(ps@[1], "InstallationStackName"@, installation_stack_name@)
                },
            },
    {
        let mut ps = Vec::new();
        ps.push(StackParameter::with_value("BaseDomain", self.base_domain));
        if let Some(z) = self.hosted_zone_id {
            ps.push(StackParameter::with_value("HostedZoneId", z));
        }
        ps.push(StackParameter::with_value("InstallationStackName", installation_stack_name));
        ps
    }
}


/// What an accepted `stack init` input looks like: a certificate override is
/// an ACM ARN in `us-east-1`, with a twelve-digit account; a hosted zone id
/// starts with `Z`, has 2 to 33 characters, all digits or capitals; a base
/// domain has at most 253 characters, at least two labels, and a top-level
/// label of at least two lowercase letters.
pub proof fn lemma_accepted_inputs(arn: Seq<char>, zone: Seq<char>, domain: Seq<char>)
    ensures
        certificate_arn_ok(arn) ==> ({
            let parts = split_on(arn, ':');
            &&& parts[0] == "arn"@
            &&& parts[2] == "acm"@
            &&& parts[3] == "us-east-1"@
            &&& parts[4].len() == 12
            &&& forall|i: int| 0 <= i < 12 ==> is_digit(#[trigger] parts[4][i])
            &&& seq_starts_with(parts[5], "certificate/"@)
        }),
        hosted_zone_id_ok(zone) ==> {
            &&& zone[0] == 'Z'
            &&& 2 <= zone.len() <= 33
            &&& forall|i: int| 0 <= i < zone.len() ==> is_digit(#[trigger] zone[i]) || is_upper(zone[i])
        },
        base_domain_ok(domain) ==> ({
            let labels = split_on(domain, '.');
            &&& domain.len() <= 253
            &&& labels.len() >= 2
            &&& labels.last().len() >= 2
            &&& forall|i: int| 0 <= i < labels.last().len() ==> is_lower(#[trigger] labels.last()[i])
        }),
{
}

} // verus!
