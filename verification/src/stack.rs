//! Decisions of the stack commands that are not about certificates or
//! teardown: reading a polled status, the failure report, the outputs and
//! report of `stack init`, the update request and its report, and the
//! ownership check before a mutating command.
use vstd::prelude::*;

use crate::aws_error::{
    aws_error_with_code_view, map_aws_error_with_code, map_stack_describe_error, missing_text,
    opt_view, stack_describe_view, stack_not_found_message,
};
use crate::certificate::owned_by;
use crate::certificate::cloudformation_tags_belong_to_stack;
use crate::cloudformation::{
    failure_detail, failure_event_message, is_previous_param, opt_text, OperationEvent, StackOutput,
    StackDescription, StackParameter, StackStatus,
};
use crate::config::{opt_seq, Config};
use crate::destroy::{region_or_auto, rows_view};
use crate::error::{fails_with, ErrorKind, ShimesuError};
use crate::support::{last_output_value, outputs_match, stack_outputs_from_description, StackOutputs};
use crate::teardown::bucket_prefix;
use crate::text::{
    ascii_lower, cat, cat3, contains, decimal, owned, seq_contains, seq_starts_with, starts_with,
    to_ascii_lowercase, u64_text,
};

verus! {

/// Seconds between two polls of a running stack operation.
pub const POLL_INTERVAL_SECONDS: u64 = 10;

/// Seconds a stack operation may take.
pub const STACK_TIMEOUT_SECONDS: u64 = 900;

/// The status of a described stack: a missing stack is not found, a stack
/// without status is an error.
pub fn stack_status_from_description(stack: Option<&StackDescription>, stack_name: &str) -> (r:
    Result<StackStatus, ShimesuError>)
    ensures
        match stack {
            None => fails_with(r, stack_describe_view(stack_name@, None, "stack not found"@)),
            Some(s) => match s.stack_status {
                Some(st) => r == Ok::<StackStatus, ShimesuError>(st),
                None => fails_with(
                    r,
                    (ErrorKind::Generic, "Stack '"@ + stack_name@ + "' returned no status"@),
                ),
            },
        },
{
    match stack {
        None => Err(map_stack_describe_error(stack_name, "stack not found")),
        Some(s) => match &s.stack_status {
            Some(st) => Ok(st.duplicate()),
            None => Err(
                ShimesuError::Generic(cat3("Stack '", stack_name, "' returned no status")),
            ),
        },
    }
}

/// The error for a stack operation that outlasted its time.
pub fn stack_timeout_error(stack_name: &str, seconds: u64) -> (e: ShimesuError)
    ensures
        e@ == (ErrorKind::Timeout, "Stack '"@ + stack_name@ + "' operation timed out after "@
            + decimal(seconds as nat) + " seconds"@),
{
    let secs = u64_text(seconds);
    let head = cat3("Stack '", stack_name, "' operation timed out after ");
    ShimesuError::Timeout(cat3(head.as_str(), secs.as_str(), " seconds"))
}

/// The error for a stack deletion that outlasted its time.
pub fn delete_timeout_error(stack_name: &str, seconds: u64) -> (e: ShimesuError)
    ensures
        e@ == (ErrorKind::Timeout, "Stack '"@ + stack_name@ + "' deletion timed out after "@
            + decimal(seconds as nat) + " seconds"@),
{
    let secs = u64_text(seconds);
    let head = cat3("Stack '", stack_name, "' deletion timed out after ");
    ShimesuError::Timeout(cat3(head.as_str(), secs.as_str(), " seconds"))
}

/// The text of a failed status: a generic error's detail, any other
/// error's full message.
pub open spec fn status_message(e: ShimesuError) -> Seq<char> {
    match e {
        ShimesuError::Generic(m) => m@,
        _ => e.spec_message(),
    }
}

/// A failed stack operation, with the reason of its failure events when they
/// could be read (`Ok`), or the reason they could not (`Err`).
pub open spec fn failure_with_details_view(
    status_error: ShimesuError,
    events: Result<Seq<OperationEvent>, Seq<char>>,
) -> Seq<char> {
    match events {
        Ok(evs) => match failure_detail(evs) {
            Some(detail) => status_message(status_error) + ". "@ + detail,
            None => status_message(status_error),
        },
        Err(reason) => status_message(status_error)
            + ". Failed to retrieve CloudFormation failure details: "@ + reason,
    }
}

pub open spec fn events_view(events: Result<Vec<OperationEvent>, String>) -> Result<
    Seq<OperationEvent>,
    Seq<char>,
> {
    match events {
        Ok(v) => Ok(v@),
        Err(s) => Err(s@),
    }
}

pub fn stack_failure_with_details(
    status_error: ShimesuError,
    events: Result<Vec<OperationEvent>, String>,
) -> (e: ShimesuError)
    ensures
        e@ == (ErrorKind::Generic, failure_with_details_view(status_error, events_view(events))),
{
    let status_text = match &status_error {
        ShimesuError::Generic(m) => m.clone(),
        other => other.to_string(),
    };
    match events {
        Ok(evs) => match failure_event_message(&evs) {
            Some(detail) => ShimesuError::Generic(cat3(status_text.as_str(), ". ", detail.as_str())),
            None => ShimesuError::Generic(status_text),
        },
        Err(reason) => ShimesuError::Generic(
            cat3(
                status_text.as_str(),
                ". Failed to retrieve CloudFormation failure details: ",
                reason.as_str(),
            ),
        ),
    }
}

/// The error for a stack without a required output.
pub open spec fn missing_output(name: Seq<char>) -> (ErrorKind, Seq<char>) {
    (ErrorKind::Config, "Stack is missing required output "@ + name)
}

/// The outputs of a freshly created stack that `stack init` reports.
#[derive(Debug, Clone, PartialEq, Eq)]
pub struct StackInitResolvedOutputs {
    pub base_domain: String,
    pub bucket_name: String,
    pub table_name: String,
    pub distribution_id: String,
    pub distribution_domain_name: String,
}

impl StackInitResolvedOutputs {
    /// All five outputs, or the error naming the first one missing.
    pub fn from_stack_outputs(outputs: &StackOutputs) -> (r: Result<Self, ShimesuError>)
        ensures
            outputs.base_domain is None ==> fails_with(r, missing_output("BaseDomain"@)),
            outputs.base_domain is Some && outputs.bucket_name is None ==> fails_with(
                r,
                missing_output("BucketName"@),
            ),
            outputs.base_domain is Some && outputs.bucket_name is Some && outputs.table_name is None
                ==> fails_with(r, missing_output("TableName"@)),
            outputs.base_domain is Some && outputs.bucket_name is Some && outputs.table_name is Some
                && outputs.distribution_id is None ==> fails_with(
                r,
                missing_output("DistributionId"@),
            ),
            outputs.base_domain is Some && outputs.bucket_name is Some && outputs.table_name is Some
                && outputs.distribution_id is Some && outputs.distribution_domain_name is None
                ==> fails_with(r, missing_output("DistributionDomainName"@)),
            r is Ok <==> (outputs.base_domain is Some && outputs.bucket_name is Some
                && outputs.table_name is Some && outputs.distribution_id is Some
                && outputs.distribution_domain_name is Some),
            r matches Ok(o) ==> {
                &&& Some(o.base_domain@) == opt_text(outputs.base_domain)
                &&& Some(o.bucket_name@) == opt_text(outputs.bucket_name)
                &&& Some(o.table_name@) == opt_text(outputs.table_name)
                &&& Some(o.distribution_id@) == opt_text(outputs.distribution_id)
                &&& Some(o.distribution_domain_name@) == opt_text(outputs.distribution_domain_name)
            },
    {
        let base_domain = outputs.require_base_domain()?;
        let bucket_name = outputs.require_bucket_name()?;
        let table_name = outputs.require_table_name()?;
        let distribution_id = outputs.require_distribution_id()?;
        let distribution_domain_name = outputs.require_distribution_domain_name()?;
        Ok(StackInitResolvedOutputs {
            base_domain,
            bucket_name,
            table_name,
            distribution_id,
            distribution_domain_name,
        })
    }
}

/// A DNS record the operator must create, or that Route 53 manages.
#[derive(Debug, Clone, PartialEq, Eq)]
pub struct DnsRecord {
    pub name: String,
    pub record_type: &'static str,
    pub value: String,
}

pub type DnsView = (Seq<char>, Seq<char>, Seq<char>);

pub open spec fn dns_views(records: Seq<DnsRecord>) -> Seq<DnsView> {
    records.map_values(|r: DnsRecord| (r.name@, r.record_type@, r.value@))
}

/// The records for the domain and its wildcard, in that order: alias
/// records `A` and `AAAA` when Route 53 manages the zone, one `CNAME` each
/// otherwise; all point at the distribution.
pub open spec fn expected_dns(base_domain: Seq<char>, target: Seq<char>, dns_managed: bool) -> Seq<
    DnsView,
> {
    let wildcard = "*."@ + base_domain;
    if dns_managed {
        seq![
            (base_domain, "A"@, target),
            (base_domain, "AAAA"@, target),
            (wildcard, "A"@, target),
            (wildcard, "AAAA"@, target),
        ]
    } else {
        seq![(base_domain, "CNAME"@, target), (wildcard, "CNAME"@, target)]
    }
}

pub fn build_dns_records(outputs: &StackInitResolvedOutputs, dns_managed: bool) -> (records: Vec<
    DnsRecord,
>)
    ensures
        dns_views(records@) == expected_dns(
            outputs.base_domain@,
            outputs.distribution_domain_name@,
            dns_managed,
        ),
{
    let wildcard = cat("*.", outputs.base_domain.as_str());
    let target = &outputs.distribution_domain_name;
    let mut records: Vec<DnsRecord> = Vec::new();
    if dns_managed {
        records.push(DnsRecord { name: outputs.base_domain.clone(), record_type: "A", value: target.clone() });
        records.push(DnsRecord { name: outputs.base_domain.clone(), record_type: "AAAA", value: target.clone() });
        records.push(DnsRecord { name: wildcard.clone(), record_type: "A", value: target.clone() });
        records.push(DnsRecord { name: wildcard, record_type: "AAAA", value: target.clone() });
    } else {
        records.push(DnsRecord { name: outputs.base_domain.clone(), record_type: "CNAME", value: target.clone() });
        records.push(DnsRecord { name: wildcard, record_type: "CNAME", value: target.clone() });
    }
    assert(dns_views(records@) =~= expected_dns(
        outputs.base_domain@,
        outputs.distribution_domain_name@,
        dns_managed,
    ));
    records
}

/// The report of `stack init`.
#[derive(Debug, Clone, PartialEq, Eq)]
pub struct StackInitOutput {
    pub stack_name: String,
    pub region: String,
    pub base_domain: String,
    pub bucket_name: String,
    pub table_name: String,
    pub distribution_id: String,
    pub distribution_domain_name: String,
    pub dns_managed: bool,
    pub dns_records: Vec<DnsRecord>,
}

impl StackInitOutput {
    pub fn from_resolved_outputs(
        config: &Config,
        outputs: StackInitResolvedOutputs,
        dns_managed: bool,
    ) -> (o: Self)
        ensures
            o.stack_name@ == config.stack_name@,
            o.region@ == region_or_auto(opt_seq(config.region)),
            o.base_domain@ == outputs.base_domain@,
            o.bucket_name@ == outputs.bucket_name@,
            o.table_name@ == outputs.table_name@,
            o.distribution_id@ == outputs.distribution_id@,
            o.distribution_domain_name@ == outputs.distribution_domain_name@,
            o.dns_managed == dns_managed,
            dns_views(o.dns_records@) == expected_dns(
                outputs.base_domain@,
                outputs.distribution_domain_name@,
                dns_managed,
            ),
    {
        let dns_records = build_dns_records(&outputs, dns_managed);
        let region = match &config.region {
            Some(r) => r.clone(),
            None => owned("auto"),
        };
        StackInitOutput {
            stack_name: config.stack_name.clone(),
            region,
            base_domain: outputs.base_domain,
            bucket_name: outputs.bucket_name,
            table_name: outputs.table_name,
            distribution_id: outputs.distribution_id,
            distribution_domain_name: outputs.distribution_domain_name,
            dns_managed,
            dns_records,
        }
    }

    /// The key-value rows of the human report, in display order.
    pub fn human_rows(&self) -> (rows: [(&'static str, &str); 7])
        ensures
            rows_view(rows@) == seq![
                ("Stack Name"@, self.stack_name@),
                ("Region"@, self.region@),
                ("Base Domain"@, self.base_domain@),
                ("Bucket"@, self.bucket_name@),
                ("Table"@, self.table_name@),
                ("Distribution"@, self.distribution_id@),
                ("Distribution Domain"@, self.distribution_domain_name@),
            ],
    {
        let rows = [
            ("Stack Name", self.stack_name.as_str()),
            ("Region", self.region.as_str()),
            ("Base Domain", self.base_domain.as_str()),
            ("Bucket", self.bucket_name.as_str()),
            ("Table", self.table_name.as_str()),
            ("Distribution", self.distribution_id.as_str()),
            ("Distribution Domain", self.distribution_domain_name.as_str()),
        ];
        assert(rows_view(rows@) =~= seq![
            ("Stack Name"@, self.stack_name@),
            ("Region"@, self.region@),
            ("Base Domain"@, self.base_domain@),
            ("Bucket"@, self.bucket_name@),
            ("Table"@, self.table_name@),
            ("Distribution"@, self.distribution_id@),
            ("Distribution Domain"@, self.distribution_domain_name@),
        ]);
        rows
    }

    /// The row label of one DNS record: `DNS <type> <name>`.
    pub fn dns_row_label(record: &DnsRecord) -> (label: String)
        ensures
            label@ == "DNS "@ + record.record_type@ + " "@ + record.name@,
    {
        crate::text::cat4("DNS ", record.record_type, " ", record.name.as_str())
    }
}

/// A refused stack creation: an existing stack is pointed at `stack
/// update`; any other failure is mapped by code and text.
pub fn map_create_stack_service_error(
    stack_name: &str,
    already_exists: bool,
    code: Option<&str>,
    error_text: &str,
) -> (e: ShimesuError)
    ensures
        already_exists ==> e@ == (ErrorKind::Validation, "Stack '"@ + stack_name@
            + "' already exists. Use 'shimesu stack update' to apply template changes."@),
        !already_exists ==> e@ == aws_error_with_code_view(
            "Failed to create stack"@,
            opt_view(code),
            error_text@,
        ),
{
    if already_exists {
        ShimesuError::Validation(
            cat3(
                "Stack '",
                stack_name,
                "' already exists. Use 'shimesu stack update' to apply template changes.",
            ),
        )
    } else {
        map_aws_error_with_code("Failed to create stack", code, error_text)
    }
}

/// The keys of the landing pages the content bucket serves at its root:
/// the index page and the error page.
pub const LANDING_ASSET_KEYS: [&'static str; 2] = ["_shimesu/index.html", "_shimesu/404.html"];

/// The template parameters whose values an update keeps.
pub const UPDATE_PARAMETER_KEYS: [&'static str; 4] = [
    "BaseDomain",
    "CertificateArn",
    "AttachAliases",
    "HostedZoneId",
];

/// One parameter per key of [`UPDATE_PARAMETER_KEYS`], each keeping its
/// previous value.
pub fn previous_value_parameters() -> (ps: Vec<StackParameter>)
    ensures
        ps@.len() == 4,
        is_previous_param(ps@[0], "BaseDomain"@),
        is_previous_param(ps@[1], "CertificateArn"@),
        is_previous_param(ps@[2], "AttachAliases"@),
        is_previous_param(ps@[3], "HostedZoneId"@),
{
    let mut ps = Vec::new();
    ps.push(StackParameter::previous("BaseDomain"));
    ps.push(StackParameter::previous("CertificateArn"));
    ps.push(StackParameter::previous("AttachAliases"));
    ps.push(StackParameter::previous("HostedZoneId"));
    ps
}

/// What an update request achieved.
#[derive(Debug, Clone, Copy, PartialEq, Eq, Structural)]
pub enum UpdateRequestOutcome {
    Started,
    AlreadyUpToDate,
}

/// The outcome of a refused update, read from its text: nothing to update,
/// a missing stack, or an error mapped by code and text.
pub open spec fn update_error_outcome(
    r: Result<UpdateRequestOutcome, ShimesuError>,
    stack_name: Seq<char>,
    code: Option<Seq<char>>,
    text: Seq<char>,
) -> bool {
    let lower = ascii_lower(text);
    if seq_contains(lower, "no updates are to be performed"@) {
        r == Ok::<UpdateRequestOutcome, ShimesuError>(UpdateRequestOutcome::AlreadyUpToDate)
    } else if missing_text(lower) {
        fails_with(r, (ErrorKind::NotFound, stack_not_found_message(stack_name)))
    } else {
        fails_with(
            r,
            aws_error_with_code_view("Failed to update stack '"@ + stack_name + "'"@, code, text),
        )
    }
}

pub fn map_update_stack_error(stack_name: &str, code: Option<&str>, error_text: &str) -> (r: Result<
    UpdateRequestOutcome,
    ShimesuError,
>)
    ensures
        update_error_outcome(r, stack_name@, opt_view(code), error_text@),
{
    let lower = to_ascii_lowercase(error_text);
    if contains(lower.as_str(), "no updates are to be performed") {
        Ok(UpdateRequestOutcome::AlreadyUpToDate)
    } else if contains(lower.as_str(), "does not exist") || contains(lower.as_str(), "not found") {
        Err(ShimesuError::NotFound(cat3("Stack '", stack_name, "' not found")))
    } else {
        let action = cat3("Failed to update stack '", stack_name, "'");
        Err(map_aws_error_with_code(action.as_str(), code, error_text))
    }
}

/// The report of `stack update`.
#[derive(Debug, Clone, PartialEq, Eq)]
pub struct StackUpdateOutput {
    pub stack_name: String,
    pub region: String,
    pub updated: bool,
    pub already_up_to_date: bool,
}

impl StackUpdateOutput {
    pub fn from_outcome(config: &Config, outcome: UpdateRequestOutcome) -> (o: Self)
        ensures
            o.stack_name@ == config.stack_name@,
            o.region@ == region_or_auto(opt_seq(config.region)),
            o.updated == (outcome is Started),
            o.already_up_to_date == (outcome is AlreadyUpToDate),
    {
        let region = match &config.region {
            Some(r) => r.clone(),
            None => owned("auto"),
        };
        StackUpdateOutput {
            stack_name: config.stack_name.clone(),
            region,
            updated: outcome == UpdateRequestOutcome::Started,
            already_up_to_date: outcome == UpdateRequestOutcome::AlreadyUpToDate,
        }
    }

    pub fn human_rows(&self) -> (rows: [(&'static str, &str); 3])
        ensures
            rows_view(rows@) == seq![
                ("Stack Name"@, self.stack_name@),
                ("Region"@, self.region@),
                (
                    "Template"@,
                    if self.already_up_to_date {
                        "already up to date"@
                    } else {
                        "updated"@
                    },
                ),
            ],
    {
        let template = if self.already_up_to_date {
            "already up to date"
        } else {
            "updated"
        };
        let rows = [
            ("Stack Name", self.stack_name.as_str()),
            ("Region", self.region.as_str()),
            ("Template", template),
        ];
        assert(rows_view(rows@) =~= seq![
            ("Stack Name"@, self.stack_name@),
            ("Region"@, self.region@),
            (
                "Template"@,
                if self.already_up_to_date {
                    "already up to date"@
                } else {
                    "updated"@
                },
            ),
        ]);
        rows
    }

    pub fn success_message(&self) -> (m: String)
        ensures
            m@ == (if self.already_up_to_date {
                "Stack '"@ + self.stack_name@ + "' is already up to date"@
            } else {
                "Updated stack '"@ + self.stack_name@ + "'"@
            }),
    {
        if self.already_up_to_date {
            cat3("Stack '", self.stack_name.as_str(), "' is already up to date")
        } else {
            cat3("Updated stack '", self.stack_name.as_str(), "'")
        }
    }
}

/// The outputs of a stack that a mutating command may act on: a table named
/// for the installation, a bucket with the installation's prefix, and every
/// other output present.
pub open spec fn installation_outputs_ok(stack_name: Seq<char>, o: StackOutputs) -> bool {
    &&& opt_text(o.table_name) == Some(stack_name + "-projects"@)
    &&& (o.bucket_name matches Some(b) && seq_starts_with(b@, bucket_prefix(stack_name)))
    &&& o.base_domain is Some
    &&& o.certificate_arn is Some
    &&& o.distribution_id is Some
    &&& o.distribution_domain_name is Some
}

pub fn validate_installation_outputs(stack_name: &str, outputs: &StackOutputs) -> (r: Result<
    (),
    ShimesuError,
>)
    ensures
        r is Ok <==> installation_outputs_ok(stack_name@, *outputs),
        r is Err ==> fails_with(
            r,
            (
                ErrorKind::Validation,
                "Refusing to mutate stack '"@ + stack_name@
                    + "' because its outputs do not identify a Shimesu installation"@,
            ),
        ),
{
    let expected_table = cat(stack_name, "-projects");
    let table_ok = match &outputs.table_name {
        Some(t) => crate::text::same_text(t.as_str(), expected_table.as_str()),
        None => false,
    };
    let bucket_ok = match &outputs.bucket_name {
        Some(b) => crate::teardown::bucket_name_matches_stack(b.as_str(), stack_name),
        None => false,
    };
    let is_owned = table_ok && bucket_ok && outputs.base_domain.is_some()
        && outputs.certificate_arn.is_some() && outputs.distribution_id.is_some()
        && outputs.distribution_domain_name.is_some();
    if is_owned {
        Ok(())
    } else {
        Err(
            ShimesuError::Validation(
                cat3(
                    "Refusing to mutate stack '",
                    stack_name,
                    "' because its outputs do not identify a Shimesu installation",
                ),
            ),
        )
    }
}

/// Whether the installation's regional stack exists, and its outputs when
/// it does and is owned.
#[derive(Debug, Clone)]
pub enum InstallationOwnership {
    Absent,
    Owned(StackOutputs),
}

/// The ownership of an installation from the outcome of describing its
/// stack: a stack the service does not know is absent, an empty answer is
/// not found, and a present stack must carry the ownership tags and name
/// the installation's resources in its outputs.
pub open spec fn ownership_outcome(
    r: Result<InstallationOwnership, ShimesuError>,
    described: Result<Option<StackDescription>, ShimesuError>,
    stack_name: Seq<char>,
) -> bool {
    match described {
        Err(e) => if e is NotFound {
            r matches Ok(o) && o is Absent
        } else {
            r matches Err(f) && f@ == e@
        },
        Ok(None) => fails_with(r, (ErrorKind::NotFound, stack_not_found_message(stack_name))),
        Ok(Some(st)) => if !owned_by(st.tags@, stack_name) {
            fails_with(
                r,
                (
                    ErrorKind::Validation,
                    "Refusing to mutate stack '"@ + stack_name
                        + "' because it is missing required shimesu ownership tags"@,
                ),
            )
        } else if described_outputs_ok(stack_name, st.outputs@) {
            r matches Ok(InstallationOwnership::Owned(o)) && outputs_match(o, st.outputs@)
        } else {
            fails_with(
                r,
                (
                    ErrorKind::Validation,
                    "Refusing to mutate stack '"@ + stack_name
                        + "' because its outputs do not identify a Shimesu installation"@,
                ),
            )
        },
    }
}

/// [`installation_outputs_ok`] read off the outputs of a description.
pub open spec fn described_outputs_ok(stack_name: Seq<char>, described: Seq<StackOutput>) -> bool {
    &&& last_output_value(described, "TableName"@) == Some(stack_name + "-projects"@)
    &&& (last_output_value(described, "BucketName"@) matches Some(b) && seq_starts_with(
        b,
        bucket_prefix(stack_name),
    ))
    &&& last_output_value(described, "BaseDomain"@) is Some
    &&& last_output_value(described, "CertificateArn"@) is Some
    &&& last_output_value(described, "DistributionId"@) is Some
    &&& last_output_value(described, "DistributionDomainName"@) is Some
}

pub fn installation_ownership(
    described: Result<Option<StackDescription>, ShimesuError>,
    stack_name: &str,
) -> (r: Result<InstallationOwnership, ShimesuError>)
    ensures
        ownership_outcome(r, described, stack_name@),
{
    match described {
        Err(ShimesuError::NotFound(_)) => Ok(InstallationOwnership::Absent),
        Err(e) => Err(e),
        Ok(None) => Err(ShimesuError::NotFound(cat3("Stack '", stack_name, "' not found"))),
        Ok(Some(stack)) => {
            if !cloudformation_tags_belong_to_stack(&stack.tags, stack_name) {
                return Err(
                    ShimesuError::Validation(
                        cat3(
                            "Refusing to mutate stack '",
                            stack_name,
                            "' because it is missing required shimesu ownership tags",
                        ),
                    ),
                );
            }
            let outputs = stack_outputs_from_description(&stack);
            match validate_installation_outputs(stack_name, &outputs) {
                Ok(()) => Ok(InstallationOwnership::Owned(outputs)),
                Err(e) => Err(e),
            }
        },
    }
}

} // verus!
