//! `doctor`: the health checks, their fixed order, and how each backend answer
//! becomes a check result.
//!
//! The checks run as a small state machine: [`DoctorRun::next_request`] names
//! the backend call to make, the caller performs it and hands the answer back
//! through [`DoctorRun::record`], until the run is done.
use vstd::prelude::*;

use crate::cloudformation::{
    first_output_value, find_output_value, opt_text, StackDescription, StackStatus,
};
use crate::error::{fails_with, ErrorKind, ShimesuError};
use crate::aws_error::{aws_error_view, map_aws_error, missing_text, reads_as_missing};
use crate::text::{
    ascii_lower, cat, cat3, chars_of, contains, decimal, join, joined, owned, seq_contains,
    to_ascii_lowercase, u64_text, usize_text,
};

verus! {

#[derive(Debug, Clone, Copy, PartialEq, Eq, Structural)]
pub enum DoctorCheckName {
    Credentials,
    StackExists,
    StackStatus,
    StackOutputs,
    S3Bucket,
    DynamodbTable,
}

impl DoctorCheckName {
    pub open spec fn spec_as_str(self) -> Seq<char> {
        match self {
            DoctorCheckName::Credentials => "credentials"@,
            DoctorCheckName::StackExists => "stack_exists"@,
            DoctorCheckName::StackStatus => "stack_status"@,
            DoctorCheckName::StackOutputs => "stack_outputs"@,
            DoctorCheckName::S3Bucket => "s3_bucket"@,
            DoctorCheckName::DynamodbTable => "dynamodb_table"@,
        }
    }

    pub open spec fn spec_label(self) -> Seq<char> {
        match self {
            DoctorCheckName::Credentials => "Credentials"@,
            DoctorCheckName::StackExists => "Stack exists"@,
            DoctorCheckName::StackStatus => "Stack status"@,
            DoctorCheckName::StackOutputs => "Stack outputs"@,
            DoctorCheckName::S3Bucket => "S3 bucket"@,
            DoctorCheckName::DynamodbTable => "DynamoDB table"@,
        }
    }

    /// The machine-readable name, as serialized.
    pub fn as_str(self) -> (s: &'static str)
        ensures
            s@ == self.spec_as_str(),
    {
        match self {
            DoctorCheckName::Credentials => "credentials",
            DoctorCheckName::StackExists => "stack_exists",
            DoctorCheckName::StackStatus => "stack_status",
            DoctorCheckName::StackOutputs => "stack_outputs",
            DoctorCheckName::S3Bucket => "s3_bucket",
            DoctorCheckName::DynamodbTable => "dynamodb_table",
        }
    }

    /// The human-readable name.
    pub fn label(self) -> (s: &'static str)
        ensures
            s@ == self.spec_label(),
    {
        match self {
            DoctorCheckName::Credentials => "Credentials",
            DoctorCheckName::StackExists => "Stack exists",
            DoctorCheckName::StackStatus => "Stack status",
            DoctorCheckName::StackOutputs => "Stack outputs",
            DoctorCheckName::S3Bucket => "S3 bucket",
            DoctorCheckName::DynamodbTable => "DynamoDB table",
        }
    }
}

/// Status of a single doctor check.
#[derive(Debug, Clone, Copy, PartialEq, Eq, Structural)]
pub enum DoctorCheckStatus {
    Passed,
    Failed,
    NotChecked,
}

/// A single diagnostic check result.
#[derive(Debug, Clone)]
pub struct DoctorCheck {
    pub name: DoctorCheckName,
    pub status: DoctorCheckStatus,
    pub message: Option<String>,
}

pub type CheckView = (DoctorCheckName, DoctorCheckStatus, Option<Seq<char>>);

impl View for DoctorCheck {
    type V = CheckView;

    open spec fn view(&self) -> CheckView {
        (self.name, self.status, opt_text(self.message))
    }
}

impl DoctorCheck {
    pub fn passed(name: DoctorCheckName) -> (c: Self)
        ensures
            c@ == (name, DoctorCheckStatus::Passed, None::<Seq<char>>),
    {
        DoctorCheck { name, status: DoctorCheckStatus::Passed, message: None }
    }

    pub fn failed(name: DoctorCheckName, message: &str) -> (c: Self)
        ensures
            c@ == (name, DoctorCheckStatus::Failed, Some(message@)),
    {
        DoctorCheck { name, status: DoctorCheckStatus::Failed, message: Some(owned(message)) }
    }

    pub fn not_checked(name: DoctorCheckName, message: &str) -> (c: Self)
        ensures
            c@ == (name, DoctorCheckStatus::NotChecked, Some(message@)),
    {
        DoctorCheck { name, status: DoctorCheckStatus::NotChecked, message: Some(owned(message)) }
    }
}

pub open spec fn check_views(checks: Seq<DoctorCheck>) -> Seq<CheckView> {
    checks.map_values(|c: DoctorCheck| c@)
}

pub open spec fn all_passed(checks: Seq<DoctorCheck>) -> bool {
    forall|i: int| 0 <= i < checks.len() ==> (#[trigger] checks[i]).status
        == DoctorCheckStatus::Passed
}

/// Complete doctor output with all checks.
#[derive(Debug, Clone)]
pub struct DoctorOutput {
    pub healthy: bool,
    pub checks: Vec<DoctorCheck>,
}

impl DoctorOutput {
    /// Healthy exactly when every check passed.
    pub fn new(checks: Vec<DoctorCheck>) -> (out: Self)
        ensures
            out.checks@ == checks@,
            out.healthy == all_passed(checks@),
    {
        let mut healthy = true;
        let mut i: usize = 0;
        while i < checks.len()
            invariant
                i <= checks.len(),
                healthy == forall|j: int|
                    0 <= j < i ==> (#[trigger] checks@[j]).status == DoctorCheckStatus::Passed,
            decreases checks.len() - i,
        {
            healthy = healthy && checks[i].status == DoctorCheckStatus::Passed;
            i = i + 1;
        }
        DoctorOutput { healthy, checks }
    }
}

/// Unicode `White_Space` characters, as `str::trim` strips them.
pub open spec fn is_whitespace(c: char) -> bool {
    ||| '\t' <= c <= '\r'
    ||| c == ' '
    ||| c == '\u{85}'
    ||| c == '\u{a0}'
    ||| c == '\u{1680}'
    ||| '\u{2000}' <= c <= '\u{200a}'
    ||| c == '\u{2028}'
    ||| c == '\u{2029}'
    ||| c == '\u{202f}'
    ||| c == '\u{205f}'
    ||| c == '\u{3000}'
}

/// Holds a character that trimming would keep.
pub open spec fn has_visible(text: Seq<char>) -> bool {
    exists|i: int| 0 <= i < text.len() && !is_whitespace(#[trigger] text[i])
}

/// Set, and not blank after trimming.
pub open spec fn spec_value_is_present(value: Option<Seq<char>>) -> bool {
    match value {
        Some(text) => has_visible(text),
        None => false,
    }
}

/// Whether the text holds a character that is not whitespace.
pub fn has_visible_char(text: &str) -> (r: bool)
    ensures
        r == has_visible(text@),
{
    let cs = chars_of(text);
    let mut i: usize = 0;
    let mut found = false;
    while i < cs.len() && !found
        invariant
            i <= cs.len(),
            cs@ == text@,
            !found ==> forall|j: int| 0 <= j < i ==> is_whitespace(#[trigger] cs@[j]),
            found ==> exists|k: int| 0 <= k < text@.len() && !is_whitespace(#[trigger] text@[k]),
        decreases cs.len() - i + (if found { 0int } else { 1int }),
    {
        let c = cs[i];
        let blank = ('\t' <= c && c <= '\r') || c == ' ' || c == '\u{85}' || c == '\u{a0}'
            || c == '\u{1680}' || ('\u{2000}' <= c && c <= '\u{200a}') || c == '\u{2028}'
            || c == '\u{2029}' || c == '\u{202f}' || c == '\u{205f}' || c == '\u{3000}';
        if !blank {
            assert(!is_whitespace(text@[i as int]));
            found = true;
        } else {
            i = i + 1;
        }
    }
    found
}

/// Set, and not blank after trimming.
pub fn value_is_present(value: &Option<String>) -> (r: bool)
    ensures
        r == spec_value_is_present(opt_text(*value)),
{
    match value {
        None => false,
        Some(text) => has_visible_char(text.as_str()),
    }
}

/// Snapshot of stack outputs and status.
#[derive(Debug, Clone)]
pub struct DoctorStackSnapshot {
    pub status: StackStatus,
    pub bucket_name: Option<String>,
    pub table_name: Option<String>,
    pub distribution_id: Option<String>,
    pub base_domain: Option<String>,
}

/// Names of the outputs that are missing or blank, in checking order.
pub open spec fn missing_names(s: DoctorStackSnapshot) -> Seq<Seq<char>> {
    let a = if spec_value_is_present(opt_text(s.bucket_name)) {
        Seq::<Seq<char>>::empty()
    } else {
        seq!["BucketName"@]
    };
    let b = if spec_value_is_present(opt_text(s.table_name)) {
        a
    } else {
        a.push("TableName"@)
    };
    let c = if spec_value_is_present(opt_text(s.distribution_id)) {
        b
    } else {
        b.push("DistributionId"@)
    };
    if spec_value_is_present(opt_text(s.base_domain)) {
        c
    } else {
        c.push("BaseDomain"@)
    }
}

pub open spec fn strs_view(names: Seq<&'static str>) -> Seq<Seq<char>> {
    names.map_values(|n: &'static str| n@)
}

impl DoctorStackSnapshot {
    /// Status (or `UNKNOWN`) and the four outputs the doctor needs.
    pub fn from_stack(stack: &StackDescription) -> (s: Self)
        ensures
            match stack.stack_status {
                Some(st) => s.status == st,
                None => s.status.code() == "UNKNOWN"@,
            },
            opt_text(s.bucket_name) == first_output_value(stack.outputs@, "BucketName"@),
            opt_text(s.table_name) == first_output_value(stack.outputs@, "TableName"@),
            opt_text(s.distribution_id) == first_output_value(stack.outputs@, "DistributionId"@),
            opt_text(s.base_domain) == first_output_value(stack.outputs@, "BaseDomain"@),
    {
        let status = match &stack.stack_status {
            Some(st) => st.duplicate(),
            None => StackStatus::from_code("UNKNOWN"),
        };
        DoctorStackSnapshot {
            status,
            bucket_name: find_output_value(&stack.outputs, "BucketName"),
            table_name: find_output_value(&stack.outputs, "TableName"),
            distribution_id: find_output_value(&stack.outputs, "DistributionId"),
            base_domain: find_output_value(&stack.outputs, "BaseDomain"),
        }
    }

    pub fn missing_output_names(&self) -> (names: Vec<&'static str>)
        ensures
            strs_view(names@) == missing_names(*self),
    {
        let mut names: Vec<&'static str> = Vec::new();
        if !value_is_present(&self.bucket_name) {
            names.push("BucketName");
        }
        if !value_is_present(&self.table_name) {
            names.push("TableName");
        }
        if !value_is_present(&self.distribution_id) {
            names.push("DistributionId");
        }
        if !value_is_present(&self.base_domain) {
            names.push("BaseDomain");
        }
        assert(strs_view(names@) =~= missing_names(*self));
        names
    }

    pub fn all_outputs_present(&self) -> (r: bool)
        ensures
            r == (missing_names(*self).len() == 0),
    {
        self.missing_output_names().len() == 0
    }
}

/// Position of each check in every doctor report.
pub open spec fn check_order(i: int) -> DoctorCheckName {
    if i == 0 {
        DoctorCheckName::Credentials
    } else if i == 1 {
        DoctorCheckName::StackExists
    } else if i == 2 {
        DoctorCheckName::StackStatus
    } else if i == 3 {
        DoctorCheckName::StackOutputs
    } else if i == 4 {
        DoctorCheckName::S3Bucket
    } else {
        DoctorCheckName::DynamodbTable
    }
}

pub open spec fn names_in_order(checks: Seq<DoctorCheck>) -> bool {
    forall|i: int| 0 <= i < checks.len() ==> (#[trigger] checks[i]).name == check_order(i)
}

/// A check passes exactly when it carries no message.
pub open spec fn messages_match(checks: Seq<DoctorCheck>) -> bool {
    forall|i: int|
        0 <= i < checks.len() ==> ((#[trigger] checks[i]).status == DoctorCheckStatus::Passed)
            == (checks[i].message is None)
}

pub open spec fn credentials_view(r: Result<(), ShimesuError>) -> CheckView {
    match r {
        Ok(_) => (DoctorCheckName::Credentials, DoctorCheckStatus::Passed, None),
        Err(e) => (
            DoctorCheckName::Credentials,
            DoctorCheckStatus::Failed,
            Some("credentials check failed: "@ + e.spec_message()),
        ),
    }
}

/// A stack is healthy once a create, update or import has completed.
pub open spec fn status_is_healthy(st: StackStatus) -> bool {
    st is CreateComplete || st is UpdateComplete || st is ImportComplete
}

pub open spec fn status_view(st: StackStatus) -> CheckView {
    if status_is_healthy(st) {
        (DoctorCheckName::StackStatus, DoctorCheckStatus::Passed, None)
    } else {
        (
            DoctorCheckName::StackStatus,
            DoctorCheckStatus::Failed,
            Some("stack status is unhealthy: "@ + st.debug_name()),
        )
    }
}

/// The checks that a stack description yields: `stack_exists` and what
/// follows from it, up to the point where the storage checks can run.
pub open spec fn stack_views(r: Result<Option<DoctorStackSnapshot>, ShimesuError>) -> Seq<
    CheckView,
> {
    match r {
        Ok(Some(s)) => {
            let head = seq![
                (DoctorCheckName::StackExists, DoctorCheckStatus::Passed, None::<Seq<char>>),
                status_view(s.status),
            ];
            if missing_names(s).len() == 0 {
                head.push((DoctorCheckName::StackOutputs, DoctorCheckStatus::Passed, None))
            } else {
                let why = Some("outputs not available"@);
                head + seq![
                    (
                        DoctorCheckName::StackOutputs,
                        DoctorCheckStatus::Failed,
                        Some("missing outputs: "@ + joined(missing_names(s), ", "@)),
                    ),
                    (DoctorCheckName::S3Bucket, DoctorCheckStatus::NotChecked, why),
                    (DoctorCheckName::DynamodbTable, DoctorCheckStatus::NotChecked, why),
                ]
            }
        },
        Ok(None) => skipped_after_stack(Some("stack not found"@), "stack not found"@),
        Err(e) => skipped_after_stack(
            Some("describe stack failed: "@ + e.spec_message()),
            "could not describe stack"@,
        ),
    }
}

pub open spec fn skipped_after_stack(failure: Option<Seq<char>>, why: Seq<char>) -> Seq<CheckView> {
    seq![
        (DoctorCheckName::StackExists, DoctorCheckStatus::Failed, failure),
        (DoctorCheckName::StackStatus, DoctorCheckStatus::NotChecked, Some(why)),
        (DoctorCheckName::StackOutputs, DoctorCheckStatus::NotChecked, Some(why)),
        (DoctorCheckName::S3Bucket, DoctorCheckStatus::NotChecked, Some(why)),
        (DoctorCheckName::DynamodbTable, DoctorCheckStatus::NotChecked, Some(why)),
    ]
}

pub open spec fn bucket_view(r: Result<(), ShimesuError>) -> CheckView {
    match r {
        Ok(_) => (DoctorCheckName::S3Bucket, DoctorCheckStatus::Passed, None),
        Err(e) => (
            DoctorCheckName::S3Bucket,
            DoctorCheckStatus::Failed,
            Some("bucket check failed: "@ + e.spec_message()),
        ),
    }
}

pub open spec fn table_view(r: Result<(), ShimesuError>) -> CheckView {
    match r {
        Ok(_) => (DoctorCheckName::DynamodbTable, DoctorCheckStatus::Passed, None),
        Err(e) => (
            DoctorCheckName::DynamodbTable,
            DoctorCheckStatus::Failed,
            Some("table check failed: "@ + e.spec_message()),
        ),
    }
}

/// The backend call that the run needs next.
#[derive(Debug, Clone, PartialEq, Eq)]
pub enum DoctorRequest {
    CheckCredentials,
    DescribeStack,
    HeadBucket(String),
    DescribeTable(String),
    Finished,
}

/// What the backend answered to a [`DoctorRequest`].
#[derive(Debug)]
pub enum DoctorEvent {
    Credentials(Result<(), ShimesuError>),
    Stack(Result<Option<DoctorStackSnapshot>, ShimesuError>),
    Bucket(Result<(), ShimesuError>),
    Table(Result<(), ShimesuError>),
}

/// Whether `event` answers the request made with `stage` checks recorded.
pub open spec fn answers(stage: int, event: DoctorEvent) -> bool {
    match event {
        DoctorEvent::Credentials(_) => stage == 0,
        DoctorEvent::Stack(_) => stage == 1,
        DoctorEvent::Bucket(_) => stage == 4,
        DoctorEvent::Table(_) => stage == 5,
    }
}

/// The checks that recording `event` adds with `stage` checks recorded; an
/// answer to a request that was not made adds none.
pub open spec fn event_views(stage: int, event: DoctorEvent) -> Seq<CheckView> {
    if !answers(stage, event) {
        Seq::empty()
    } else {
        match event {
            DoctorEvent::Credentials(r) => seq![credentials_view(r)],
            DoctorEvent::Stack(r) => stack_views(r),
            DoctorEvent::Bucket(r) => seq![bucket_view(r)],
            DoctorEvent::Table(r) => seq![table_view(r)],
        }
    }
}

/// A doctor run in progress: the checks recorded so far and the storage names
/// that the last two checks use.
#[derive(Debug)]
pub struct DoctorRun {
    pub checks: Vec<DoctorCheck>,
    pub bucket_name: String,
    pub table_name: String,
}

impl DoctorRun {
    /// The checks come in their fixed order, and each passes exactly when it
    /// carries no message; the stack phase records three or five checks at
    /// once, so two or three recorded checks never occur.
    pub open spec fn wf(&self) -> bool {
        &&& self.checks.len() <= 6
        &&& self.checks.len() != 2
        &&& self.checks.len() != 3
        &&& names_in_order(self.checks@)
        &&& messages_match(self.checks@)
    }

    pub fn start() -> (run: Self)
        ensures
            run.wf(),
            run.checks@.len() == 0,
    {
        DoctorRun { checks: Vec::new(), bucket_name: String::new(), table_name: String::new() }
    }

    /// The call to make next; `Finished` once all six checks are recorded.
    pub fn next_request(&self) -> (r: DoctorRequest)
        requires
            self.wf(),
        ensures
            match r {
                DoctorRequest::CheckCredentials => self.checks.len() == 0,
                DoctorRequest::DescribeStack => self.checks.len() == 1,
                DoctorRequest::HeadBucket(b) => self.checks.len() == 4 && b@ == self.bucket_name@,
                DoctorRequest::DescribeTable(t) => self.checks.len() == 5 && t@
                    == self.table_name@,
                DoctorRequest::Finished => self.checks.len() == 6,
            },
    {
        let n = self.checks.len();
        if n == 0 {
            DoctorRequest::CheckCredentials
        } else if n == 1 {
            DoctorRequest::DescribeStack
        } else if n == 4 {
            DoctorRequest::HeadBucket(self.bucket_name.clone())
        } else if n == 5 {
            DoctorRequest::DescribeTable(self.table_name.clone())
        } else {
            DoctorRequest::Finished
        }
    }

    fn push_check(&mut self, check: DoctorCheck)
        requires
            old(self).checks.len() < 6,
            messages_match(old(self).checks@),
            (check.status == DoctorCheckStatus::Passed) == (check.message is None),
        ensures
            final(self).checks@ == old(self).checks@.push(check),
            messages_match(final(self).checks@),
            final(self).bucket_name == old(self).bucket_name,
            final(self).table_name == old(self).table_name,
    {
        self.checks.push(check);
    }

    /// Records the backend's answer. An answer to a request that was not
    /// made leaves the run as it was.
    pub fn record(&mut self, event: DoctorEvent)
        requires
            old(self).wf(),
        ensures
            final(self).wf(),
            check_views(final(self).checks@) == check_views(old(self).checks@) + event_views(
                old(self).checks.len() as int,
                event,
            ),
            match event {
                DoctorEvent::Stack(Ok(Some(s))) => old(self).checks.len() == 1 && missing_names(s).len()
                    == 0 ==> {
                    &&& Some(final(self).bucket_name@) == opt_text(s.bucket_name)
                    &&& Some(final(self).table_name@) == opt_text(s.table_name)
                },
                _ => true,
            },
            !(old(self).checks.len() == 1 && event is Stack) ==> {
                &&& final(self).bucket_name == old(self).bucket_name
                &&& final(self).table_name == old(self).table_name
            },
    {
        let n = self.checks.len();
        let ghost before = self.checks@;
        match event {
            DoctorEvent::Credentials(r) => {
                if n == 0 {
                    let check = match r {
                        Ok(()) => DoctorCheck::passed(DoctorCheckName::Credentials),
                        Err(e) => {
                            let text = cat("credentials check failed: ", e.to_string().as_str());
                            DoctorCheck::failed(DoctorCheckName::Credentials, text.as_str())
                        },
                    };
                    self.push_check(check);
                }
            },
            DoctorEvent::Stack(r) => {
                if n == 1 {
                    self.record_stack(r);
                }
            },
            DoctorEvent::Bucket(r) => {
                if n == 4 {
                    let check = match r {
                        Ok(()) => DoctorCheck::passed(DoctorCheckName::S3Bucket),
                        Err(e) => {
                            let text = cat("bucket check failed: ", e.to_string().as_str());
                            DoctorCheck::failed(DoctorCheckName::S3Bucket, text.as_str())
                        },
                    };
                    self.push_check(check);
                }
            },
            DoctorEvent::Table(r) => {
                if n == 5 {
                    let check = match r {
                        Ok(()) => DoctorCheck::passed(DoctorCheckName::DynamodbTable),
                        Err(e) => {
                            let text = cat("table check failed: ", e.to_string().as_str());
                            DoctorCheck::failed(DoctorCheckName::DynamodbTable, text.as_str())
                        },
                    };
                    self.push_check(check);
                }
            },
        }
        assert(check_views(self.checks@) =~= check_views(before) + event_views(n as int, event));
    }

    fn push_skipped(&mut self, failure: String, why: &str)
        requires
            old(self).checks.len() == 1,
            names_in_order(old(self).checks@),
            messages_match(old(self).checks@),
        ensures
            final(self).checks.len() == 6,
            names_in_order(final(self).checks@),
            messages_match(final(self).checks@),
            check_views(final(self).checks@) == check_views(old(self).checks@)
                + skipped_after_stack(Some(failure@), why@),
            final(self).bucket_name == old(self).bucket_name,
            final(self).table_name == old(self).table_name,
    {
        let ghost before = self.checks@;
        self.push_check(DoctorCheck::failed(DoctorCheckName::StackExists, failure.as_str()));
        self.push_check(DoctorCheck::not_checked(DoctorCheckName::StackStatus, why));
        self.push_check(DoctorCheck::not_checked(DoctorCheckName::StackOutputs, why));
        self.push_check(DoctorCheck::not_checked(DoctorCheckName::S3Bucket, why));
        self.push_check(DoctorCheck::not_checked(DoctorCheckName::DynamodbTable, why));
        assert(check_views(self.checks@) =~= check_views(before) + skipped_after_stack(
            Some(failure@),
            why@,
        ));
    }

    fn record_stack(&mut self, r: Result<Option<DoctorStackSnapshot>, ShimesuError>)
        requires
            old(self).checks.len() == 1,
            names_in_order(old(self).checks@),
            messages_match(old(self).checks@),
        ensures
            final(self).wf(),
            check_views(final(self).checks@) == check_views(old(self).checks@) + stack_views(r),
            match r {
                Ok(Some(s)) => missing_names(s).len() == 0 ==> {
                    &&& Some(final(self).bucket_name@) == opt_text(s.bucket_name)
                    &&& Some(final(self).table_name@) == opt_text(s.table_name)
                },
                _ => true,
            },
    {
        let ghost before = self.checks@;
        match r {
            Ok(Some(snapshot)) => {
                self.push_check(DoctorCheck::passed(DoctorCheckName::StackExists));
                let healthy = match snapshot.status {
                    StackStatus::CreateComplete | StackStatus::UpdateComplete
                    | StackStatus::ImportComplete => true,
                    _ => false,
                };
                if healthy {
                    self.push_check(DoctorCheck::passed(DoctorCheckName::StackStatus));
                } else {
                    let name = snapshot.status.debug_text();
                    let text = cat("stack status is unhealthy: ", name.as_str());
                    self.push_check(DoctorCheck::failed(DoctorCheckName::StackStatus, text.as_str()));
                }
                let missing = snapshot.missing_output_names();
                if missing.len() == 0 {
                    self.push_check(DoctorCheck::passed(DoctorCheckName::StackOutputs));
                    match (&snapshot.bucket_name, &snapshot.table_name) {
                        (Some(bucket), Some(table)) => {
                            self.bucket_name = bucket.clone();
                            self.table_name = table.clone();
                        },
                        _ => {},
                    }
                } else {
                    let list = join(&missing, ", ");
                    let text = cat("missing outputs: ", list.as_str());
                    self.push_check(DoctorCheck::failed(DoctorCheckName::StackOutputs, text.as_str()));
                    self.push_check(
                        DoctorCheck::not_checked(DoctorCheckName::S3Bucket, "outputs not available"),
                    );
                    self.push_check(
                        DoctorCheck::not_checked(
                            DoctorCheckName::DynamodbTable,
                            "outputs not available",
                        ),
                    );
                }
                assert(check_views(self.checks@) =~= check_views(before) + stack_views(
                    Ok(Some(snapshot)),
                ));
            },
            Ok(None) => {
                self.push_skipped(owned("stack not found"), "stack not found");
            },
            Err(e) => {
                let text = cat("describe stack failed: ", e.to_string().as_str());
                self.push_skipped(text, "could not describe stack");
            },
        }
    }

    /// The report of a finished run.
    pub fn finish(self) -> (out: DoctorOutput)
        requires
            self.wf(),
            self.checks.len() == 6,
        ensures
            out.checks@ == self.checks@,
            out.healthy == all_passed(self.checks@),
            names_in_order(out.checks@),
            messages_match(out.checks@),
    {
        DoctorOutput::new(self.checks)
    }
}

/// Answering every request of a run adds checks and keeps the run well
/// formed, so a run reaches its six checks after at most four answers; a
/// failed credentials check, in particular, does not stop the run.
pub proof fn lemma_answer_advances_run(stage: int, event: DoctorEvent)
    requires
        stage == 0 || stage == 1 || stage == 4 || stage == 5,
        answers(stage, event),
    ensures
        ({
            let next = stage + event_views(stage, event).len();
            &&& stage < next <= 6
            &&& next != 2 && next != 3
            &&& forall|i: int|
                0 <= i < event_views(stage, event).len() ==> (#[trigger] event_views(
                    stage,
                    event,
                )[i]).0 == check_order(stage + i)
        }),
{
    match event {
        DoctorEvent::Stack(r) => {
            match r {
                Ok(Some(s)) => {
                    if missing_names(s).len() == 0 {
                        assert(stack_views(r).len() == 3);
                    } else {
                        assert(stack_views(r).len() == 5);
                    }
                },
                _ => {},
            }
        },
        _ => {},
    }
}

/// Number of checks that did not pass.
pub open spec fn non_passed_count(checks: Seq<DoctorCheck>) -> nat
    decreases checks.len(),
{
    if checks.len() == 0 {
        0
    } else {
        non_passed_count(checks.drop_last()) + if checks.last().status
            == DoctorCheckStatus::Passed {
            0nat
        } else {
            1nat
        }
    }
}

proof fn lemma_non_passed_bounded(checks: Seq<DoctorCheck>)
    ensures
        non_passed_count(checks) <= checks.len(),
        non_passed_count(checks) == 0 <==> all_passed(checks),
    decreases checks.len(),
{
    if checks.len() > 0 {
        lemma_non_passed_bounded(checks.drop_last());
        if non_passed_count(checks) == 0 {
            assert forall|i: int| 0 <= i < checks.len() implies (#[trigger] checks[i]).status
                == DoctorCheckStatus::Passed by {
                if i < checks.len() - 1 {
                    assert(checks.drop_last()[i] == checks[i]);
                }
            }
        }
        if all_passed(checks) {
            assert(all_passed(checks.drop_last())) by {
                assert forall|i: int| 0 <= i < checks.drop_last().len() implies (
                #[trigger] checks.drop_last()[i]).status == DoctorCheckStatus::Passed by {
                    assert(checks.drop_last()[i] == checks[i]);
                }
            }
            assert(checks[checks.len() - 1].status == DoctorCheckStatus::Passed);
        }
    }
}

/// Counts the checks that did not pass.
pub fn count_non_passed(checks: &Vec<DoctorCheck>) -> (n: usize)
    ensures
        n == non_passed_count(checks@),
{
    let mut n: usize = 0;
    let mut i: usize = 0;
    while i < checks.len()
        invariant
            i <= checks.len(),
            n == non_passed_count(checks@.take(i as int)),
            n <= i,
        decreases checks.len() - i,
    {
        assert(checks@.take(i + 1).drop_last() == checks@.take(i as int));
        if checks[i].status != DoctorCheckStatus::Passed {
            n = n + 1;
        }
        i = i + 1;
    }
    assert(checks@.take(checks.len() as int) == checks@);
    n
}

/// The line that shows one check: its label, then its message if it has one.
pub open spec fn check_line_text(c: CheckView) -> Seq<char> {
    match c.2 {
        Some(m) => c.0.spec_label() + ": "@ + m,
        None => c.0.spec_label(),
    }
}

pub fn check_line(check: &DoctorCheck) -> (line: String)
    ensures
        line@ == check_line_text(check@),
{
    match &check.message {
        Some(text) => cat3(check.name.label(), ": ", text.as_str()),
        None => owned(check.name.label()),
    }
}

/// The closing line of a report, and whether it is the all-clear.
pub open spec fn summary_text(checks: Seq<DoctorCheck>) -> (bool, Seq<char>) {
    let n = non_passed_count(checks);
    if n == 0 {
        (true, "All checks passed"@)
    } else {
        (false, decimal(n) + " of "@ + decimal(checks.len()) + " check(s) did not pass"@)
    }
}

pub fn summary_line(checks: &Vec<DoctorCheck>) -> (r: (bool, String))
    ensures
        (r.0, r.1@) == summary_text(checks@),
{
    let n = count_non_passed(checks);
    if n == 0 {
        (true, owned("All checks passed"))
    } else {
        let count = usize_text(n);
        let total = usize_text(checks.len());
        let head = cat3(count.as_str(), " of ", total.as_str());
        (false, cat(head.as_str(), " check(s) did not pass"))
    }
}

/// A report passes validation exactly when every check passed.
pub fn validate_doctor_output(doctor_output: &DoctorOutput) -> (r: Result<(), ShimesuError>)
    ensures
        r is Ok <==> all_passed(doctor_output.checks@),
        !all_passed(doctor_output.checks@) ==> fails_with(
            r,
            (
                ErrorKind::Validation,
                "doctor found "@ + decimal(non_passed_count(doctor_output.checks@))
                    + " non-passed checks"@,
            ),
        ),
{
    let n = count_non_passed(&doctor_output.checks);
    proof {
        lemma_non_passed_bounded(doctor_output.checks@);
    }
    if n == 0 {
        Ok(())
    } else {
        let count = usize_text(n);
        Err(ShimesuError::Validation(cat3("doctor found ", count.as_str(), " non-passed checks")))
    }
}

/// Whether a stack description failure means the stack does not exist.
pub fn is_stack_not_found(error_text: &str) -> (r: bool)
    ensures
        r == missing_text(ascii_lower(error_text@)),
{
    reads_as_missing(error_text)
}

pub open spec fn head_bucket_error_view(bucket: Seq<char>, text: Seq<char>) -> (ErrorKind, Seq<char>) {
    let lower = ascii_lower(text);
    if seq_contains(lower, "nosuchbucket"@) || seq_contains(lower, "not found"@) || seq_contains(
        lower,
        "404"@,
    ) {
        (ErrorKind::NotFound, "Bucket '"@ + bucket + "' not found"@)
    } else if seq_contains(lower, "403"@) || seq_contains(lower, "forbidden"@) || seq_contains(
        lower,
        "accessdenied"@,
    ) || seq_contains(lower, "access denied"@) {
        (ErrorKind::AwsAuth, "Failed to check S3 bucket '"@ + bucket + "': "@ + text)
    } else {
        aws_error_view("Failed to check S3 bucket '"@ + bucket + "'"@, text)
    }
}

/// Maps a failed bucket check by its error text.
pub fn map_head_bucket_error(bucket_name: &str, error_text: &str) -> (e: ShimesuError)
    ensures
        e@ == head_bucket_error_view(bucket_name@, error_text@),
{
    let lower = to_ascii_lowercase(error_text);
    let l = lower.as_str();
    if contains(l, "nosuchbucket") || contains(l, "not found") || contains(l, "404") {
        ShimesuError::NotFound(cat3("Bucket '", bucket_name, "' not found"))
    } else if contains(l, "403") || contains(l, "forbidden") || contains(l, "accessdenied")
        || contains(l, "access denied") {
        let head = cat3("Failed to check S3 bucket '", bucket_name, "': ");
        ShimesuError::AwsAuth(cat(head.as_str(), error_text))
    } else {
        let action = cat3("Failed to check S3 bucket '", bucket_name, "'");
        map_aws_error(action.as_str(), error_text)
    }
}

/// A failed bucket check: `NotFound` when the service said so, else by text.
pub fn head_bucket_failure(bucket_name: &str, service_not_found: bool, error_text: &str) -> (e:
    ShimesuError)
    ensures
        service_not_found ==> e@ == (ErrorKind::NotFound, "Bucket '"@ + bucket_name@
            + "' not found"@),
        !service_not_found ==> e@ == head_bucket_error_view(bucket_name@, error_text@),
{
    if service_not_found {
        ShimesuError::NotFound(cat3("Bucket '", bucket_name, "' not found"))
    } else {
        map_head_bucket_error(bucket_name, error_text)
    }
}

pub open spec fn describe_table_error_view(table: Seq<char>, text: Seq<char>) -> (
    ErrorKind,
    Seq<char>,
) {
    let lower = ascii_lower(text);
    if seq_contains(lower, "resourcenotfoundexception"@) || seq_contains(lower, "table not found"@)
        || seq_contains(lower, "non-existent table"@) {
        (ErrorKind::NotFound, "Table '"@ + table + "' not found"@)
    } else {
        aws_error_view("Failed to describe DynamoDB table '"@ + table + "'"@, text)
    }
}

/// Maps a failed table check by its error text.
pub fn map_describe_table_error(table_name: &str, error_text: &str) -> (e: ShimesuError)
    ensures
        e@ == describe_table_error_view(table_name@, error_text@),
{
    let lower = to_ascii_lowercase(error_text);
    let l = lower.as_str();
    if contains(l, "resourcenotfoundexception") || contains(l, "table not found") || contains(
        l,
        "non-existent table",
    ) {
        ShimesuError::NotFound(cat3("Table '", table_name, "' not found"))
    } else {
        let action = cat3("Failed to describe DynamoDB table '", table_name, "'");
        map_aws_error(action.as_str(), error_text)
    }
}

/// A failed table check: `NotFound` when the service said so, else by text.
pub fn describe_table_failure(table_name: &str, service_not_found: bool, error_text: &str) -> (e:
    ShimesuError)
    ensures
        service_not_found ==> e@ == (ErrorKind::NotFound, "Table '"@ + table_name@
            + "' not found"@),
        !service_not_found ==> e@ == describe_table_error_view(table_name@, error_text@),
{
    if service_not_found {
        ShimesuError::NotFound(cat3("Table '", table_name, "' not found"))
    } else {
        map_describe_table_error(table_name, error_text)
    }
}

/// The error for a backend call that did not answer in time.
pub fn api_timeout_error(operation: &str, seconds: u64) -> (e: ShimesuError)
    ensures
        e@ == (ErrorKind::Timeout, operation@ + " timed out after "@ + decimal(seconds as nat)
            + " seconds"@),
{
    let secs = u64_text(seconds);
    let head = cat(operation, " timed out after ");
    ShimesuError::Timeout(cat3(head.as_str(), secs.as_str(), " seconds"))
}


/// The stack-status check of a described stack passes, with no message, when
/// its create, update or import completed; any other status fails it, naming
/// the status.
pub proof fn lemma_completed_stack_passes_status_check(s: DoctorStackSnapshot)
    ensures
        (s.status is CreateComplete || s.status is UpdateComplete || s.status is ImportComplete)
            ==> stack_views(Ok(Some(s)))[1] == (
            DoctorCheckName::StackStatus,
            DoctorCheckStatus::Passed,
            None::<Seq<char>>,
        ),
        !(s.status is CreateComplete || s.status is UpdateComplete || s.status is ImportComplete)
            ==> stack_views(Ok(Some(s)))[1] == (
            DoctorCheckName::StackStatus,
            DoctorCheckStatus::Failed,
            Some("stack status is unhealthy: "@ + s.status.debug_name()),
        ),
{
}


/// The stack-outputs check needs the bucket, the table, the distribution
/// and the base domain: it reports nothing missing exactly when all four are
/// set and not blank, and a stack without any of them misses all four, in
/// that order.
pub proof fn lemma_required_doctor_outputs(s: DoctorStackSnapshot)
    ensures
        (missing_names(s).len() == 0) <==> (spec_value_is_present(opt_text(s.bucket_name))
            && spec_value_is_present(opt_text(s.table_name)) && spec_value_is_present(
            opt_text(s.distribution_id),
        ) && spec_value_is_present(opt_text(s.base_domain))),
        (s.bucket_name is None && s.table_name is None && s.distribution_id is None
            && s.base_domain is None) ==> missing_names(s) == seq![
            "BucketName"@,
            "TableName"@,
            "DistributionId"@,
            "BaseDomain"@,
        ],
{
}

} // verus!
