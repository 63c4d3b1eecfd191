//! The CloudFormation data the library reads: stack descriptions, statuses,
//! outputs, parameters, tags and failure events, held as plain values.
use vstd::prelude::*;

use crate::error::{fails_with, ErrorKind, ShimesuError};
use crate::text::{cat, cat3, owned, same_text};

verus! {

/// A CloudFormation stack status; codes this library does not know are kept verbatim.
#[derive(Debug, Clone)]
pub enum StackStatus {
    CreateComplete,
    CreateFailed,
    CreateInProgress,
    DeleteComplete,
    DeleteFailed,
    DeleteInProgress,
    ImportComplete,
    ImportInProgress,
    ImportRollbackComplete,
    ImportRollbackFailed,
    ImportRollbackInProgress,
    ReviewInProgress,
    RollbackComplete,
    RollbackFailed,
    RollbackInProgress,
    UpdateComplete,
    UpdateCompleteCleanupInProgress,
    UpdateFailed,
    UpdateInProgress,
    UpdateRollbackComplete,
    UpdateRollbackCompleteCleanupInProgress,
    UpdateRollbackFailed,
    UpdateRollbackInProgress,
    Unknown(String),
}

/// Known status codes, in declaration order of the variants above.
pub open spec fn known_codes() -> Seq<Seq<char>> {
    seq![
        "CREATE_COMPLETE"@,
        "CREATE_FAILED"@,
        "CREATE_IN_PROGRESS"@,
        "DELETE_COMPLETE"@,
        "DELETE_FAILED"@,
        "DELETE_IN_PROGRESS"@,
        "IMPORT_COMPLETE"@,
        "IMPORT_IN_PROGRESS"@,
        "IMPORT_ROLLBACK_COMPLETE"@,
        "IMPORT_ROLLBACK_FAILED"@,
        "IMPORT_ROLLBACK_IN_PROGRESS"@,
        "REVIEW_IN_PROGRESS"@,
        "ROLLBACK_COMPLETE"@,
        "ROLLBACK_FAILED"@,
        "ROLLBACK_IN_PROGRESS"@,
        "UPDATE_COMPLETE"@,
        "UPDATE_COMPLETE_CLEANUP_IN_PROGRESS"@,
        "UPDATE_FAILED"@,
        "UPDATE_IN_PROGRESS"@,
        "UPDATE_ROLLBACK_COMPLETE"@,
        "UPDATE_ROLLBACK_COMPLETE_CLEANUP_IN_PROGRESS"@,
        "UPDATE_ROLLBACK_FAILED"@,
        "UPDATE_ROLLBACK_IN_PROGRESS"@,
    ]
}

impl StackStatus {
    /// Position of a known variant in [`known_codes`]; `None` for `Unknown`.
    pub open spec fn ordinal(self) -> Option<int> {
        match self {
            StackStatus::CreateComplete => Some(0),
            StackStatus::CreateFailed => Some(1),
            StackStatus::CreateInProgress => Some(2),
            StackStatus::DeleteComplete => Some(3),
            StackStatus::DeleteFailed => Some(4),
            StackStatus::DeleteInProgress => Some(5),
            StackStatus::ImportComplete => Some(6),
            StackStatus::ImportInProgress => Some(7),
            StackStatus::ImportRollbackComplete => Some(8),
            StackStatus::ImportRollbackFailed => Some(9),
            StackStatus::ImportRollbackInProgress => Some(10),
            StackStatus::ReviewInProgress => Some(11),
            StackStatus::RollbackComplete => Some(12),
            StackStatus::RollbackFailed => Some(13),
            StackStatus::RollbackInProgress => Some(14),
            StackStatus::UpdateComplete => Some(15),
            StackStatus::UpdateCompleteCleanupInProgress => Some(16),
            StackStatus::UpdateFailed => Some(17),
            StackStatus::UpdateInProgress => Some(18),
            StackStatus::UpdateRollbackComplete => Some(19),
            StackStatus::UpdateRollbackCompleteCleanupInProgress => Some(20),
            StackStatus::UpdateRollbackFailed => Some(21),
            StackStatus::UpdateRollbackInProgress => Some(22),
            StackStatus::Unknown(_) => None,
        }
    }

    /// The wire code of the status (`CREATE_COMPLETE`, ...).
    pub open spec fn code(self) -> Seq<char> {
        match self {
            StackStatus::Unknown(s) => s@,
            _ => known_codes()[self.ordinal()->0],
        }
    }

    /// The variant name as `{:?}` prints it.
    pub open spec fn debug_name(self) -> Seq<char> {
        match self {
            StackStatus::CreateComplete => "CreateComplete"@,
            StackStatus::CreateFailed => "CreateFailed"@,
            StackStatus::CreateInProgress => "CreateInProgress"@,
            StackStatus::DeleteComplete => "DeleteComplete"@,
            StackStatus::DeleteFailed => "DeleteFailed"@,
            StackStatus::DeleteInProgress => "DeleteInProgress"@,
            StackStatus::ImportComplete => "ImportComplete"@,
            StackStatus::ImportInProgress => "ImportInProgress"@,
            StackStatus::ImportRollbackComplete => "ImportRollbackComplete"@,
            StackStatus::ImportRollbackFailed => "ImportRollbackFailed"@,
            StackStatus::ImportRollbackInProgress => "ImportRollbackInProgress"@,
            StackStatus::ReviewInProgress => "ReviewInProgress"@,
            StackStatus::RollbackComplete => "RollbackComplete"@,
            StackStatus::RollbackFailed => "RollbackFailed"@,
            StackStatus::RollbackInProgress => "RollbackInProgress"@,
            StackStatus::UpdateComplete => "UpdateComplete"@,
            StackStatus::UpdateCompleteCleanupInProgress => "UpdateCompleteCleanupInProgress"@,
            StackStatus::UpdateFailed => "UpdateFailed"@,
            StackStatus::UpdateInProgress => "UpdateInProgress"@,
            StackStatus::UpdateRollbackComplete => "UpdateRollbackComplete"@,
            StackStatus::UpdateRollbackCompleteCleanupInProgress => "UpdateRollbackCompleteCleanupInProgress"@,
            StackStatus::UpdateRollbackFailed => "UpdateRollbackFailed"@,
            StackStatus::UpdateRollbackInProgress => "UpdateRollbackInProgress"@,
            StackStatus::Unknown(s) => "Unknown(UnknownVariantValue(\""@ + s@ + "\"))"@,
        }
    }

    pub fn as_str(&self) -> (code: &str)
        ensures
            code@ == self.code(),
    {
        match self {
            StackStatus::CreateComplete => "CREATE_COMPLETE",
            StackStatus::CreateFailed => "CREATE_FAILED",
            StackStatus::CreateInProgress => "CREATE_IN_PROGRESS",
            StackStatus::DeleteComplete => "DELETE_COMPLETE",
            StackStatus::DeleteFailed => "DELETE_FAILED",
            StackStatus::DeleteInProgress => "DELETE_IN_PROGRESS",
            StackStatus::ImportComplete => "IMPORT_COMPLETE",
            StackStatus::ImportInProgress => "IMPORT_IN_PROGRESS",
            StackStatus::ImportRollbackComplete => "IMPORT_ROLLBACK_COMPLETE",
            StackStatus::ImportRollbackFailed => "IMPORT_ROLLBACK_FAILED",
            StackStatus::ImportRollbackInProgress => "IMPORT_ROLLBACK_IN_PROGRESS",
            StackStatus::ReviewInProgress => "REVIEW_IN_PROGRESS",
            StackStatus::RollbackComplete => "ROLLBACK_COMPLETE",
            StackStatus::RollbackFailed => "ROLLBACK_FAILED",
            StackStatus::RollbackInProgress => "ROLLBACK_IN_PROGRESS",
            StackStatus::UpdateComplete => "UPDATE_COMPLETE",
            StackStatus::UpdateCompleteCleanupInProgress => "UPDATE_COMPLETE_CLEANUP_IN_PROGRESS",
            StackStatus::UpdateFailed => "UPDATE_FAILED",
            StackStatus::UpdateInProgress => "UPDATE_IN_PROGRESS",
            StackStatus::UpdateRollbackComplete => "UPDATE_ROLLBACK_COMPLETE",
            StackStatus::UpdateRollbackCompleteCleanupInProgress => "UPDATE_ROLLBACK_COMPLETE_CLEANUP_IN_PROGRESS",
            StackStatus::UpdateRollbackFailed => "UPDATE_ROLLBACK_FAILED",
            StackStatus::UpdateRollbackInProgress => "UPDATE_ROLLBACK_IN_PROGRESS",
            StackStatus::Unknown(s) => s.as_str(),
        }
    }

    /// The variant name as `{:?}` prints it.
    pub fn debug_text(&self) -> (name: String)
        ensures
            name@ == self.debug_name(),
    {
        match self {
            StackStatus::Unknown(s) => cat3("Unknown(UnknownVariantValue(\"", s.as_str(), "\"))"),
            StackStatus::CreateComplete => owned("CreateComplete"),
            StackStatus::CreateFailed => owned("CreateFailed"),
            StackStatus::CreateInProgress => owned("CreateInProgress"),
            StackStatus::DeleteComplete => owned("DeleteComplete"),
            StackStatus::DeleteFailed => owned("DeleteFailed"),
            StackStatus::DeleteInProgress => owned("DeleteInProgress"),
            StackStatus::ImportComplete => owned("ImportComplete"),
            StackStatus::ImportInProgress => owned("ImportInProgress"),
            StackStatus::ImportRollbackComplete => owned("ImportRollbackComplete"),
            StackStatus::ImportRollbackFailed => owned("ImportRollbackFailed"),
            StackStatus::ImportRollbackInProgress => owned("ImportRollbackInProgress"),
            StackStatus::ReviewInProgress => owned("ReviewInProgress"),
            StackStatus::RollbackComplete => owned("RollbackComplete"),
            StackStatus::RollbackFailed => owned("RollbackFailed"),
            StackStatus::RollbackInProgress => owned("RollbackInProgress"),
            StackStatus::UpdateComplete => owned("UpdateComplete"),
            StackStatus::UpdateCompleteCleanupInProgress => owned(
                "UpdateCompleteCleanupInProgress",
            ),
            StackStatus::UpdateFailed => owned("UpdateFailed"),
            StackStatus::UpdateInProgress => owned("UpdateInProgress"),
            StackStatus::UpdateRollbackComplete => owned("UpdateRollbackComplete"),
            StackStatus::UpdateRollbackCompleteCleanupInProgress => owned(
                "UpdateRollbackCompleteCleanupInProgress",
            ),
            StackStatus::UpdateRollbackFailed => owned("UpdateRollbackFailed"),
            StackStatus::UpdateRollbackInProgress => owned("UpdateRollbackInProgress"),
        }
    }

    /// A copy of this status.
    pub fn duplicate(&self) -> (copy: StackStatus)
        ensures
            copy == *self,
    {
        match self {
            StackStatus::CreateComplete => StackStatus::CreateComplete,
            StackStatus::CreateFailed => StackStatus::CreateFailed,
            StackStatus::CreateInProgress => StackStatus::CreateInProgress,
            StackStatus::DeleteComplete => StackStatus::DeleteComplete,
            StackStatus::DeleteFailed => StackStatus::DeleteFailed,
            StackStatus::DeleteInProgress => StackStatus::DeleteInProgress,
            StackStatus::ImportComplete => StackStatus::ImportComplete,
            StackStatus::ImportInProgress => StackStatus::ImportInProgress,
            StackStatus::ImportRollbackComplete => StackStatus::ImportRollbackComplete,
            StackStatus::ImportRollbackFailed => StackStatus::ImportRollbackFailed,
            StackStatus::ImportRollbackInProgress => StackStatus::ImportRollbackInProgress,
            StackStatus::ReviewInProgress => StackStatus::ReviewInProgress,
            StackStatus::RollbackComplete => StackStatus::RollbackComplete,
            StackStatus::RollbackFailed => StackStatus::RollbackFailed,
            StackStatus::RollbackInProgress => StackStatus::RollbackInProgress,
            StackStatus::UpdateComplete => StackStatus::UpdateComplete,
            StackStatus::UpdateCompleteCleanupInProgress => StackStatus::UpdateCompleteCleanupInProgress,
            StackStatus::UpdateFailed => StackStatus::UpdateFailed,
            StackStatus::UpdateInProgress => StackStatus::UpdateInProgress,
            StackStatus::UpdateRollbackComplete => StackStatus::UpdateRollbackComplete,
            StackStatus::UpdateRollbackCompleteCleanupInProgress => StackStatus::UpdateRollbackCompleteCleanupInProgress,
            StackStatus::UpdateRollbackFailed => StackStatus::UpdateRollbackFailed,
            StackStatus::UpdateRollbackInProgress => StackStatus::UpdateRollbackInProgress,
            StackStatus::Unknown(s) => StackStatus::Unknown(s.clone()),
        }
    }

    /// The status for a wire code: the known variant when the code is one of
    /// [`known_codes`], `Unknown` with the code otherwise.
    pub fn from_code(code: &str) -> (status: StackStatus)
        ensures
            status.code() == code@,
            status is Unknown <==> !known_codes().contains(code@),
    {
        let ghost k = known_codes();
        let ghost c = code@;
        if same_text(code, "CREATE_COMPLETE") { return StackStatus::CreateComplete; }
        if same_text(code, "CREATE_FAILED") { return StackStatus::CreateFailed; }
        if same_text(code, "CREATE_IN_PROGRESS") { return StackStatus::CreateInProgress; }
        if same_text(code, "DELETE_COMPLETE") { return StackStatus::DeleteComplete; }
        if same_text(code, "DELETE_FAILED") { return StackStatus::DeleteFailed; }
        if same_text(code, "DELETE_IN_PROGRESS") { return StackStatus::DeleteInProgress; }
        if same_text(code, "IMPORT_COMPLETE") { return StackStatus::ImportComplete; }
        if same_text(code, "IMPORT_IN_PROGRESS") { return StackStatus::ImportInProgress; }
        if same_text(code, "IMPORT_ROLLBACK_COMPLETE") { return StackStatus::ImportRollbackComplete; }
        if same_text(code, "IMPORT_ROLLBACK_FAILED") { return StackStatus::ImportRollbackFailed; }
        if same_text(code, "IMPORT_ROLLBACK_IN_PROGRESS") { return StackStatus::ImportRollbackInProgress; }
        if same_text(code, "REVIEW_IN_PROGRESS") { return StackStatus::ReviewInProgress; }
        if same_text(code, "ROLLBACK_COMPLETE") { return StackStatus::RollbackComplete; }
        if same_text(code, "ROLLBACK_FAILED") { return StackStatus::RollbackFailed; }
        if same_text(code, "ROLLBACK_IN_PROGRESS") { return StackStatus::RollbackInProgress; }
        if same_text(code, "UPDATE_COMPLETE") { return StackStatus::UpdateComplete; }
        if same_text(code, "UPDATE_COMPLETE_CLEANUP_IN_PROGRESS") {
            return StackStatus::UpdateCompleteCleanupInProgress;
        }
        if same_text(code, "UPDATE_FAILED") { return StackStatus::UpdateFailed; }
        if same_text(code, "UPDATE_IN_PROGRESS") { return StackStatus::UpdateInProgress; }
        if same_text(code, "UPDATE_ROLLBACK_COMPLETE") { return StackStatus::UpdateRollbackComplete; }
        if same_text(code, "UPDATE_ROLLBACK_COMPLETE_CLEANUP_IN_PROGRESS") {
            return StackStatus::UpdateRollbackCompleteCleanupInProgress;
        }
        if same_text(code, "UPDATE_ROLLBACK_FAILED") { return StackStatus::UpdateRollbackFailed; }
        if same_text(code, "UPDATE_ROLLBACK_IN_PROGRESS") {
            return StackStatus::UpdateRollbackInProgress;
        }
        proof {
            assert forall|i: int| 0 <= i < k.len() implies k[i] != c by {}
        }
        StackStatus::Unknown(owned(code))
    }
}

/// Terminal success: the operation finished.
pub open spec fn status_is_complete(s: StackStatus) -> bool {
    ||| s is CreateComplete
    ||| s is UpdateComplete
    ||| s is DeleteComplete
    ||| s is ImportComplete
}

/// Still running: keep polling.
pub open spec fn status_is_pending(s: StackStatus) -> bool {
    ||| s is CreateInProgress
    ||| s is UpdateInProgress
    ||| s is DeleteInProgress
    ||| s is UpdateCompleteCleanupInProgress
    ||| s is UpdateRollbackInProgress
    ||| s is UpdateRollbackCompleteCleanupInProgress
    ||| s is ImportInProgress
    ||| s is ImportRollbackInProgress
    ||| s is ReviewInProgress
    ||| (s is Unknown && s.code() == "DELETE_SKIPPED"@)
}

/// Terminal failure of the operation.
pub open spec fn status_is_failed(s: StackStatus) -> bool {
    ||| s is CreateFailed
    ||| s is RollbackComplete
    ||| s is RollbackFailed
    ||| s is RollbackInProgress
    ||| s is DeleteFailed
    ||| s is UpdateFailed
    ||| s is UpdateRollbackComplete
    ||| s is UpdateRollbackFailed
    ||| s is ImportRollbackComplete
    ||| s is ImportRollbackFailed
}

/// Whether a polled status means done (`Ok(true)`), keep waiting (`Ok(false)`)
/// or failure.
pub fn interpret_stack_status(status: StackStatus) -> (r: Result<bool, ShimesuError>)
    ensures
        status_is_complete(status) ==> r == Ok::<bool, ShimesuError>(true),
        status_is_pending(status) ==> r == Ok::<bool, ShimesuError>(false),
        status_is_failed(status) ==> fails_with(
            r,
            (ErrorKind::Generic, "Stack operation failed: "@ + status.code()),
        ),
        !status_is_complete(status) && !status_is_pending(status) && !status_is_failed(status)
            ==> fails_with(r, (ErrorKind::Generic, "Unknown stack status: "@ + status.debug_name())),
{
    match &status {
        StackStatus::CreateComplete | StackStatus::UpdateComplete | StackStatus::DeleteComplete
        | StackStatus::ImportComplete => Ok(true),
        StackStatus::CreateInProgress | StackStatus::UpdateInProgress
        | StackStatus::DeleteInProgress | StackStatus::UpdateCompleteCleanupInProgress
        | StackStatus::UpdateRollbackInProgress
        | StackStatus::UpdateRollbackCompleteCleanupInProgress | StackStatus::ImportInProgress
        | StackStatus::ImportRollbackInProgress | StackStatus::ReviewInProgress => Ok(false),
        StackStatus::CreateFailed | StackStatus::RollbackComplete | StackStatus::RollbackFailed
        | StackStatus::RollbackInProgress | StackStatus::DeleteFailed | StackStatus::UpdateFailed
        | StackStatus::UpdateRollbackComplete | StackStatus::UpdateRollbackFailed
        | StackStatus::ImportRollbackComplete | StackStatus::ImportRollbackFailed => Err(
            ShimesuError::Generic(cat("Stack operation failed: ", status.as_str())),
        ),
        StackStatus::Unknown(code) => {
            if same_text(code.as_str(), "DELETE_SKIPPED") {
                Ok(false)
            } else {
                let name = status.debug_text();
                Err(ShimesuError::Generic(cat("Unknown stack status: ", name.as_str())))
            }
        },
    }
}

/// One output of a stack description.
#[derive(Debug, Clone, Default)]
pub struct StackOutput {
    pub output_key: Option<String>,
    pub output_value: Option<String>,
}

/// One parameter of a stack, as described or as requested.
#[derive(Debug, Clone, Default)]
pub struct StackParameter {
    pub parameter_key: Option<String>,
    pub parameter_value: Option<String>,
    pub use_previous_value: Option<bool>,
}

/// `p` sets `key` to `value` explicitly.
pub open spec fn is_param(p: StackParameter, key: Seq<char>, value: Seq<char>) -> bool {
    &&& opt_text(p.parameter_key) == Some(key)
    &&& opt_text(p.parameter_value) == Some(value)
    &&& p.use_previous_value is None
}

/// `p` asks to keep the value that `key` had.
pub open spec fn is_previous_param(p: StackParameter, key: Seq<char>) -> bool {
    &&& opt_text(p.parameter_key) == Some(key)
    &&& p.parameter_value is None
    &&& p.use_previous_value == Some(true)
}

impl StackParameter {
    /// A parameter with an explicit value.
    pub fn with_value(key: &str, value: &str) -> (p: StackParameter)
        ensures
            is_param(p, key@, value@),
    {
        StackParameter {
            parameter_key: Some(owned(key)),
            parameter_value: Some(owned(value)),
            use_previous_value: None,
        }
    }

    /// A parameter that keeps its previous value.
    pub fn previous(key: &str) -> (p: StackParameter)
        ensures
            is_previous_param(p, key@),
    {
        StackParameter {
            parameter_key: Some(owned(key)),
            parameter_value: None,
            use_previous_value: Some(true),
        }
    }
}

/// A CloudFormation resource tag.
#[derive(Debug, Clone, Default)]
pub struct Tag {
    pub key: Option<String>,
    pub value: Option<String>,
}

/// What the library reads of a described stack.
#[derive(Debug, Clone, Default)]
pub struct StackDescription {
    pub stack_name: Option<String>,
    pub stack_status: Option<StackStatus>,
    pub parameters: Vec<StackParameter>,
    pub outputs: Vec<StackOutput>,
    pub tags: Vec<Tag>,
}

pub open spec fn opt_text(o: Option<String>) -> Option<Seq<char>> {
    match o {
        Some(s) => Some(s@),
        None => None,
    }
}

/// Compares an optional text with a text.
pub fn opt_is(o: &Option<String>, text: &str) -> (r: bool)
    ensures
        r == (opt_text(*o) == Some(text@)),
{
    match o {
        Some(s) => same_text(s.as_str(), text),
        None => false,
    }
}

/// Copies an optional string.
pub fn clone_opt(o: &Option<String>) -> (r: Option<String>)
    ensures
        opt_text(r) == opt_text(*o),
{
    match o {
        Some(s) => Some(s.clone()),
        None => None,
    }
}

/// The value of the first output whose key is `key` (`None` when there is
/// no such output or it carries no value).
pub open spec fn first_output_value(outputs: Seq<StackOutput>, key: Seq<char>) -> Option<
    Seq<char>,
>
    decreases outputs.len(),
{
    if outputs.len() == 0 {
        None
    } else if opt_text(outputs[0].output_key) == Some(key) {
        opt_text(outputs[0].output_value)
    } else {
        first_output_value(outputs.drop_first(), key)
    }
}

pub fn find_output_value(outputs: &Vec<StackOutput>, key: &str) -> (r: Option<String>)
    ensures
        opt_text(r) == first_output_value(outputs@, key@),
{
    let mut i: usize = 0;
    assert(outputs@.subrange(0, outputs.len() as int) == outputs@);
    while i < outputs.len()
        invariant
            i <= outputs.len(),
            first_output_value(outputs@, key@) == first_output_value(
                outputs@.subrange(i as int, outputs.len() as int),
                key@,
            ),
        decreases outputs.len() - i,
    {
        let ghost rest = outputs@.subrange(i as int, outputs.len() as int);
        assert(rest[0] == outputs@[i as int]);
        assert(rest.drop_first() == outputs@.subrange(i + 1, outputs.len() as int));
        if opt_is(&outputs[i].output_key, key) {
            return clone_opt(&outputs[i].output_value);
        }
        i = i + 1;
    }
    None
}

/// The value of the first parameter whose key is `key`.
pub open spec fn first_parameter_value(params: Seq<StackParameter>, key: Seq<char>) -> Option<
    Seq<char>,
>
    decreases params.len(),
{
    if params.len() == 0 {
        None
    } else if opt_text(params[0].parameter_key) == Some(key) {
        opt_text(params[0].parameter_value)
    } else {
        first_parameter_value(params.drop_first(), key)
    }
}

pub fn find_parameter_value(params: &Vec<StackParameter>, key: &str) -> (r: Option<String>)
    ensures
        opt_text(r) == first_parameter_value(params@, key@),
{
    let mut i: usize = 0;
    assert(params@.subrange(0, params.len() as int) == params@);
    while i < params.len()
        invariant
            i <= params.len(),
            first_parameter_value(params@, key@) == first_parameter_value(
                params@.subrange(i as int, params.len() as int),
                key@,
            ),
        decreases params.len() - i,
    {
        let ghost rest = params@.subrange(i as int, params.len() as int);
        assert(rest[0] == params@[i as int]);
        assert(rest.drop_first() == params@.subrange(i + 1, params.len() as int));
        if opt_is(&params[i].parameter_key, key) {
            return clone_opt(&params[i].parameter_value);
        }
        i = i + 1;
    }
    None
}

/// Some tag has exactly this key and value.
pub open spec fn has_tag(tags: Seq<Tag>, key: Seq<char>, value: Seq<char>) -> bool {
    exists|i: int|
        0 <= i < tags.len() && opt_text(#[trigger] tags[i].key) == Some(key) && opt_text(
            tags[i].value,
        ) == Some(value)
}

pub fn tags_include(tags: &Vec<Tag>, key: &str, value: &str) -> (r: bool)
    ensures
        r == has_tag(tags@, key@, value@),
{
    let mut i: usize = 0;
    while i < tags.len()
        invariant
            i <= tags.len(),
            forall|j: int|
                0 <= j < i ==> !(opt_text(#[trigger] tags@[j].key) == Some(key@) && opt_text(
                    tags@[j].value,
                ) == Some(value@)),
        decreases tags.len() - i,
    {
        if opt_is(&tags[i].key, key) && opt_is(&tags[i].value, value) {
            return true;
        }
        i = i + 1;
    }
    false
}

/// One failure event of a stack operation.
#[derive(Debug, Clone, Default)]
pub struct OperationEvent {
    pub logical_resource_id: Option<String>,
    pub resource_type: Option<String>,
    pub resource_status_reason: Option<String>,
    pub validation_status_reason: Option<String>,
    pub hook_status_reason: Option<String>,
}

/// Index of the first event not about the stack itself, if any.
pub open spec fn first_resource_event(events: Seq<OperationEvent>) -> Option<int> {
    if exists|i: int|
        0 <= i < events.len() && opt_text(#[trigger] events[i].resource_type) != Some(
            "AWS::CloudFormation::Stack"@,
        ) {
        Some(
            choose|i: int|
                0 <= i < events.len() && opt_text(#[trigger] events[i].resource_type) != Some(
                    "AWS::CloudFormation::Stack"@,
                ) && forall|j: int|
                    0 <= j < i ==> opt_text(#[trigger] events[j].resource_type) == Some(
                        "AWS::CloudFormation::Stack"@,
                    ),
        )
    } else {
        None
    }
}

/// The reason an event gives: validation, then resource status, then hook.
pub open spec fn event_reason(e: OperationEvent) -> Option<Seq<char>> {
    match opt_text(e.validation_status_reason) {
        Some(r) => Some(r),
        None => match opt_text(e.resource_status_reason) {
            Some(r) => Some(r),
            None => opt_text(e.hook_status_reason),
        },
    }
}

/// `"{resource}: {reason}"` for the event the message is taken from: the first
/// event about a resource other than the stack, else the first event.
pub open spec fn failure_detail(events: Seq<OperationEvent>) -> Option<Seq<char>> {
    let chosen = match first_resource_event(events) {
        Some(i) => Some(i),
        None => if events.len() > 0 {
            Some(0int)
        } else {
            None
        },
    };
    match chosen {
        None => None,
        Some(i) => match event_reason(events[i]) {
            None => None,
            Some(reason) => Some(
                (match opt_text(events[i].logical_resource_id) {
                    Some(id) => id,
                    None => "stack"@,
                }) + ": "@ + reason,
            ),
        },
    }
}

pub open spec fn is_stack_event(e: OperationEvent) -> bool {
    opt_text(e.resource_type) == Some("AWS::CloudFormation::Stack"@)
}

fn first_non_stack_event(events: &Vec<OperationEvent>) -> (r: Option<usize>)
    ensures
        match r {
            Some(k) => k < events.len() && !is_stack_event(events@[k as int]) && forall|j: int|
                0 <= j < k ==> is_stack_event(#[trigger] events@[j]),
            None => forall|j: int| 0 <= j < events.len() ==> is_stack_event(#[trigger] events@[j]),
        },
{
    let mut i: usize = 0;
    while i < events.len()
        invariant
            i <= events.len(),
            forall|j: int| 0 <= j < i ==> is_stack_event(#[trigger] events@[j]),
        decreases events.len() - i,
    {
        if !opt_is(&events[i].resource_type, "AWS::CloudFormation::Stack") {
            return Some(i);
        }
        i = i + 1;
    }
    None
}

pub fn failure_event_message(events: &Vec<OperationEvent>) -> (r: Option<String>)
    ensures
        opt_text(r) == failure_detail(events@),
{
    let chosen = first_non_stack_event(events);
    proof {
        match chosen {
            Some(k) => {
                let k = k as int;
                assert(opt_text(events@[k].resource_type) != Some("AWS::CloudFormation::Stack"@));
                assert(forall|j: int| 0 <= j < k ==> is_stack_event(#[trigger] events@[j]));
                let c = first_resource_event(events@)->0;
                assert(c == k) by {
                    if c < k {
                        assert(is_stack_event(events@[c]));
                    } else if c > k {
                        assert(opt_text(events@[k].resource_type) == Some(
                            "AWS::CloudFormation::Stack"@,
                        ));
                    }
                }
            },
            None => {
                assert(!exists|i: int|
                    0 <= i < events@.len() && opt_text(#[trigger] events@[i].resource_type)
                        != Some("AWS::CloudFormation::Stack"@)) by {
                    assert forall|i: int| 0 <= i < events@.len() implies opt_text(
                        #[trigger] events@[i].resource_type,
                    ) == Some("AWS::CloudFormation::Stack"@) by {
                        assert(is_stack_event(events@[i]));
                    }
                }
            },
        }
    }
    let index = match chosen {
        Some(k) => k,
        None => {
            if events.len() == 0 {
                return None;
            }
            0
        },
    };
    let event = &events[index];
    let reason = match &event.validation_status_reason {
        Some(r) => r.as_str(),
        None => match &event.resource_status_reason {
            Some(r) => r.as_str(),
            None => match &event.hook_status_reason {
                Some(r) => r.as_str(),
                None => {
                    return None;
                },
            },
        },
    };
    let resource = match &event.logical_resource_id {
        Some(id) => id.as_str(),
        None => "stack",
    };
    Some(cat3(resource, ": ", reason))
}


/// Each status carries the code CloudFormation reports for it.
pub proof fn lemma_status_codes()
    ensures
        StackStatus::CreateComplete.code() == "CREATE_COMPLETE"@,
        StackStatus::CreateFailed.code() == "CREATE_FAILED"@,
        StackStatus::CreateInProgress.code() == "CREATE_IN_PROGRESS"@,
        StackStatus::DeleteComplete.code() == "DELETE_COMPLETE"@,
        StackStatus::DeleteFailed.code() == "DELETE_FAILED"@,
        StackStatus::DeleteInProgress.code() == "DELETE_IN_PROGRESS"@,
        StackStatus::ImportComplete.code() == "IMPORT_COMPLETE"@,
        StackStatus::ImportInProgress.code() == "IMPORT_IN_PROGRESS"@,
        StackStatus::ImportRollbackComplete.code() == "IMPORT_ROLLBACK_COMPLETE"@,
        StackStatus::ImportRollbackFailed.code() == "IMPORT_ROLLBACK_FAILED"@,
        StackStatus::ImportRollbackInProgress.code() == "IMPORT_ROLLBACK_IN_PROGRESS"@,
        StackStatus::ReviewInProgress.code() == "REVIEW_IN_PROGRESS"@,
        StackStatus::RollbackComplete.code() == "ROLLBACK_COMPLETE"@,
        StackStatus::RollbackFailed.code() == "ROLLBACK_FAILED"@,
        StackStatus::RollbackInProgress.code() == "ROLLBACK_IN_PROGRESS"@,
        StackStatus::UpdateComplete.code() == "UPDATE_COMPLETE"@,
        StackStatus::UpdateCompleteCleanupInProgress.code()
            == "UPDATE_COMPLETE_CLEANUP_IN_PROGRESS"@,
        StackStatus::UpdateFailed.code() == "UPDATE_FAILED"@,
        StackStatus::UpdateInProgress.code() == "UPDATE_IN_PROGRESS"@,
        StackStatus::UpdateRollbackComplete.code() == "UPDATE_ROLLBACK_COMPLETE"@,
        StackStatus::UpdateRollbackCompleteCleanupInProgress.code()
            == "UPDATE_ROLLBACK_COMPLETE_CLEANUP_IN_PROGRESS"@,
        StackStatus::UpdateRollbackFailed.code() == "UPDATE_ROLLBACK_FAILED"@,
        StackStatus::UpdateRollbackInProgress.code() == "UPDATE_ROLLBACK_IN_PROGRESS"@,
{
}

/// A polled operation is done after a completed create, update, delete or
/// import; still running while any step is in progress; failed after a
/// failed step or any rollback.
pub proof fn lemma_status_classes(s: StackStatus)
    ensures
        (s is CreateComplete || s is UpdateComplete || s is DeleteComplete || s is ImportComplete)
            ==> status_is_complete(s) && !status_is_pending(s) && !status_is_failed(s),
        (s is CreateInProgress || s is UpdateInProgress || s is DeleteInProgress
            || s is UpdateCompleteCleanupInProgress || s is UpdateRollbackInProgress
            || s is UpdateRollbackCompleteCleanupInProgress || s is ImportInProgress
            || s is ImportRollbackInProgress || s is ReviewInProgress) ==> status_is_pending(s)
            && !status_is_complete(s) && !status_is_failed(s),
        (s is CreateFailed || s is RollbackComplete || s is RollbackFailed || s is RollbackInProgress
            || s is DeleteFailed || s is UpdateFailed || s is UpdateRollbackComplete
            || s is UpdateRollbackFailed || s is ImportRollbackComplete || s is ImportRollbackFailed)
            ==> status_is_failed(s) && !status_is_complete(s) && !status_is_pending(s),
{
}

} // verus!
