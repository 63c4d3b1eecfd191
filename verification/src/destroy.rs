//! `stack destroy`: the confirmation token, the decisions around deleting
//! the regional stack, and the report with its retained-data warnings.
use vstd::prelude::*;

use crate::aws_error::{aws_error_with_code_view, map_aws_error_with_code, missing_text, opt_view, reads_as_missing};
use crate::cli::{bool_text, spec_bool_text};
use crate::cloudformation::StackStatus;
use crate::config::{opt_seq, Config};
use crate::error::{fails_usage, fails_with, ErrorKind, ShimesuError};
use crate::text::{ascii_lower, cat, cat3, owned};

verus! {

/// Proof that the operator confirmed the destruction; only
/// [`StackDestroyInput::parse`] with `true` makes one.
#[derive(Debug, Clone, Copy, PartialEq, Eq)]
pub struct StackDestroyInput {
    _confirmed: (),
}

impl StackDestroyInput {
    pub fn parse(confirm: bool) -> (r: Result<Self, ShimesuError>)
        ensures
            confirm <==> r is Ok,
            !confirm ==> fails_usage(r, "stack destroy requires --confirm flag to proceed"@),
    {
        if !confirm {
            return Err(
                ShimesuError::Usage(owned("stack destroy requires --confirm flag to proceed")),
            );
        }
        Ok(StackDestroyInput { _confirmed: () })
    }
}

/// What a delete request achieved.
#[derive(Debug, Clone, Copy, PartialEq, Eq, Structural)]
pub enum DeleteRequestOutcome {
    Started,
    AlreadyAbsent,
}

/// A failed delete request means the stack is already gone when its text
/// says so; otherwise it is mapped by code and text.
pub fn map_delete_stack_error(stack_name: &str, code: Option<&str>, error_text: &str) -> (r: Result<
    DeleteRequestOutcome,
    ShimesuError,
>)
    ensures
        missing_text(ascii_lower(error_text@)) ==> r == Ok::<DeleteRequestOutcome, ShimesuError>(
            DeleteRequestOutcome::AlreadyAbsent,
        ),
        !missing_text(ascii_lower(error_text@)) ==> fails_with(
            r,
            aws_error_with_code_view(
                "Failed to delete stack '"@ + stack_name@ + "'"@,
                opt_view(code),
                error_text@,
            ),
        ),
{
    if reads_as_missing(error_text) {
        Ok(DeleteRequestOutcome::AlreadyAbsent)
    } else {
        let action = cat3("Failed to delete stack '", stack_name, "'");
        Err(map_aws_error_with_code(action.as_str(), code, error_text))
    }
}

/// Only a delete that was started is waited for.
pub fn should_wait_for_delete(delete_outcome: DeleteRequestOutcome) -> (r: bool)
    ensures
        r <==> delete_outcome is Started,
{
    match delete_outcome {
        DeleteRequestOutcome::Started => true,
        DeleteRequestOutcome::AlreadyAbsent => false,
    }
}

/// One poll while a delete runs: done (`Ok(true)`) once the stack is gone
/// or deleted, failed when the delete failed, and waiting otherwise, also
/// for a status this library does not know.
pub fn interpret_delete_poll(status_result: Result<StackStatus, ShimesuError>) -> (r: Result<
    bool,
    ShimesuError,
>)
    ensures
        match status_result {
            Err(e) => if e is NotFound {
                r == Ok::<bool, ShimesuError>(true)
            } else {
                r matches Err(f) && f@ == e@
            },
            Ok(status) => if status is DeleteComplete {
                r == Ok::<bool, ShimesuError>(true)
            } else if status is DeleteFailed {
                fails_with(r, (ErrorKind::Generic, "Stack deletion failed"@))
            } else {
                r == Ok::<bool, ShimesuError>(false)
            },
        },
{
    match status_result {
        Err(ShimesuError::NotFound(_)) => Ok(true),
        Err(e) => Err(e),
        Ok(status) => match status {
            StackStatus::DeleteComplete => Ok(true),
            StackStatus::DeleteFailed => Err(ShimesuError::Generic(owned("Stack deletion failed"))),
            _ => Ok(false),
        },
    }
}

/// The report of `stack destroy`.
#[derive(Debug, Clone, PartialEq, Eq)]
pub struct StackDestroyOutput {
    pub stack_name: String,
    pub region: String,
    pub deleted: bool,
    pub already_absent: bool,
    pub retained_data: bool,
    pub retained_data_verified: bool,
    pub retained_certificate: bool,
    pub retained_certificate_verified: bool,
    pub certificate_stack_name: String,
}

pub open spec fn region_or_auto(region: Option<Seq<char>>) -> Seq<char> {
    match region {
        Some(r) => r,
        None => "auto"@,
    }
}

pub open spec fn teardown_hint() -> Seq<char> {
    "Use 'shimesu stack teardown --confirm-data-loss' for permanent removal."@
}

/// The warning that closes a destroy report, from most to least uncertain.
pub open spec fn retained_warning(o: StackDestroyOutput) -> Option<Seq<char>> {
    if !o.retained_data_verified && !o.retained_certificate_verified {
        Some(
            "The regional stack was already absent, so retained S3 bucket and DynamoDB table data may remain but could not be verified by stack outputs. Managed certificate retention also could not be verified. Use 'shimesu stack teardown --confirm-data-loss' only after resolving certificate-stack ownership."@,
        )
    } else if !o.retained_certificate_verified {
        Some(
            "Managed certificate retention could not be verified. The regional stack operation is unaffected; use 'shimesu stack teardown --confirm-data-loss' only after resolving certificate-stack ownership."@,
        )
    } else if !o.retained_data_verified {
        let note = if o.retained_certificate {
            " The managed certificate stack '"@ + o.certificate_stack_name@
                + "' and its ACM certificate also remain."@
        } else {
            Seq::empty()
        };
        Some(
            "The regional stack was already absent, so retained S3 bucket and DynamoDB table data may remain but could not be verified by stack outputs."@
                + note
                + " Use 'shimesu stack teardown --confirm-data-loss' for ownership-checked discovery and permanent removal."@,
        )
    } else if o.retained_data && o.retained_certificate {
        Some(
            "Retained S3 bucket, DynamoDB table, certificate stack '"@ + o.certificate_stack_name@
                + "', and ACM certificate remain in your AWS account. "@ + teardown_hint(),
        )
    } else if o.retained_data {
        Some("Retained S3 bucket and DynamoDB table remain in your AWS account. "@ + teardown_hint())
    } else if o.retained_certificate {
        Some(
            "Certificate stack '"@ + o.certificate_stack_name@
                + "' and its ACM certificate remain in your AWS account. "@ + teardown_hint(),
        )
    } else {
        None
    }
}

pub open spec fn rows_view(rows: Seq<(&'static str, &str)>) -> Seq<(Seq<char>, Seq<char>)> {
    rows.map_values(|r: (&'static str, &str)| (r.0@, r.1@))
}

impl StackDestroyOutput {
    /// The report for a run: deleted when the delete started, absent
    /// otherwise; data is always retained, and verified only by a delete.
    pub fn from_config(
        config: &Config,
        delete_outcome: DeleteRequestOutcome,
        retained_certificate: bool,
        retained_certificate_verified: bool,
    ) -> (o: Self)
        ensures
            o.stack_name@ == config.stack_name@,
            o.region@ == region_or_auto(opt_seq(config.region)),
            o.deleted == (delete_outcome is Started),
            o.already_absent == !o.deleted,
            o.retained_data,
            o.retained_data_verified == o.deleted,
            o.retained_certificate == retained_certificate,
            o.retained_certificate_verified == retained_certificate_verified,
            o.certificate_stack_name@ == config.stack_name@ + "-certificate"@,
    {
        let deleted = match delete_outcome {
            DeleteRequestOutcome::Started => true,
            DeleteRequestOutcome::AlreadyAbsent => false,
        };
        let region = match &config.region {
            Some(r) => r.clone(),
            None => owned("auto"),
        };
        StackDestroyOutput {
            stack_name: config.stack_name.clone(),
            region,
            deleted,
            already_absent: !deleted,
            retained_data: true,
            retained_data_verified: deleted,
            retained_certificate,
            retained_certificate_verified,
            certificate_stack_name: cat(config.stack_name.as_str(), "-certificate"),
        }
    }

    /// The key-value rows of the human report, in display order.
    pub fn human_rows(&self) -> (rows: [(&'static str, &str); 9])
        ensures
            rows_view(rows@) == seq![
                ("Stack Name"@, self.stack_name@),
                ("Region"@, self.region@),
                ("Deleted"@, spec_bool_text(self.deleted)),
                ("Already Absent"@, spec_bool_text(self.already_absent)),
                ("Retained Data"@, spec_bool_text(self.retained_data)),
                ("Retained Data Verified"@, spec_bool_text(self.retained_data_verified)),
                ("Retained Certificate"@, spec_bool_text(self.retained_certificate)),
                ("Retained Certificate Verified"@, spec_bool_text(self.retained_certificate_verified)),
                ("Certificate Stack"@, self.certificate_stack_name@),
            ],
    {
        let rows = [
            ("Stack Name", self.stack_name.as_str()),
            ("Region", self.region.as_str()),
            ("Deleted", bool_text(self.deleted)),
            ("Already Absent", bool_text(self.already_absent)),
            ("Retained Data", bool_text(self.retained_data)),
            ("Retained Data Verified", bool_text(self.retained_data_verified)),
            ("Retained Certificate", bool_text(self.retained_certificate)),
            ("Retained Certificate Verified", bool_text(self.retained_certificate_verified)),
            ("Certificate Stack", self.certificate_stack_name.as_str()),
        ];
        assert(rows_view(rows@) =~= seq![
            ("Stack Name"@, self.stack_name@),
            ("Region"@, self.region@),
            ("Deleted"@, spec_bool_text(self.deleted)),
            ("Already Absent"@, spec_bool_text(self.already_absent)),
            ("Retained Data"@, spec_bool_text(self.retained_data)),
            ("Retained Data Verified"@, spec_bool_text(self.retained_data_verified)),
            ("Retained Certificate"@, spec_bool_text(self.retained_certificate)),
            ("Retained Certificate Verified"@, spec_bool_text(self.retained_certificate_verified)),
            ("Certificate Stack"@, self.certificate_stack_name@),
        ]);
        rows
    }

    pub fn success_message(&self) -> (m: String)
        ensures
            m@ == (if self.deleted {
                "Deleted stack '"@ + self.stack_name@ + "'"@
            } else {
                "Stack '"@ + self.stack_name@ + "' was already absent"@
            }),
    {
        if self.deleted {
            cat3("Deleted stack '", self.stack_name.as_str(), "'")
        } else {
            cat3("Stack '", self.stack_name.as_str(), "' was already absent")
        }
    }

    pub fn retained_data_warning(&self) -> (w: Option<String>)
        ensures
            opt_seq(w) == retained_warning(*self),
    {
        if !self.retained_data_verified && !self.retained_certificate_verified {
            return Some(
                owned(
                    "The regional stack was already absent, so retained S3 bucket and DynamoDB table data may remain but could not be verified by stack outputs. Managed certificate retention also could not be verified. Use 'shimesu stack teardown --confirm-data-loss' only after resolving certificate-stack ownership.",
                ),
            );
        }
        if !self.retained_certificate_verified {
            return Some(
                owned(
                    "Managed certificate retention could not be verified. The regional stack operation is unaffected; use 'shimesu stack teardown --confirm-data-loss' only after resolving certificate-stack ownership.",
                ),
            );
        }
        if !self.retained_data_verified {
            let note = if self.retained_certificate {
                cat3(
                    " The managed certificate stack '",
                    self.certificate_stack_name.as_str(),
                    "' and its ACM certificate also remain.",
                )
            } else {
                String::new()
            };
            return Some(
                cat3(
                    "The regional stack was already absent, so retained S3 bucket and DynamoDB table data may remain but could not be verified by stack outputs.",
                    note.as_str(),
                    " Use 'shimesu stack teardown --confirm-data-loss' for ownership-checked discovery and permanent removal.",
                ),
            );
        }
        let hint = "Use 'shimesu stack teardown --confirm-data-loss' for permanent removal.";
        if self.retained_data && self.retained_certificate {
            let head = cat3(
                "Retained S3 bucket, DynamoDB table, certificate stack '",
                self.certificate_stack_name.as_str(),
                "', and ACM certificate remain in your AWS account. ",
            );
            Some(cat(head.as_str(), hint))
        } else if self.retained_data {
            Some(cat("Retained S3 bucket and DynamoDB table remain in your AWS account. ", hint))
        } else if self.retained_certificate {
            let head = cat3(
                "Certificate stack '",
                self.certificate_stack_name.as_str(),
                "' and its ACM certificate remain in your AWS account. ",
            );
            Some(cat(head.as_str(), hint))
        } else {
            None
        }
    }
}

/// The warning shown when the certificate's retention could not be checked.
pub fn certificate_check_warning(stack_name: &str, error: &ShimesuError) -> (w: String)
    ensures
        w@ == "Could not verify managed certificate retention for '"@ + stack_name@ + "': "@
            + error.spec_message(),
{
    let message = error.to_string();
    let head = cat3("Could not verify managed certificate retention for '", stack_name, "': ");
    cat(head.as_str(), message.as_str())
}

/// Whether the managed certificate remains, and whether that could be
/// verified, from the outcome of checking it: `Ok((remains, true))`, or the
/// failure, which leaves both unknown and is shown as a warning.
pub fn certificate_retention(check: Result<(bool, bool), ShimesuError>, stack_name: &str) -> (r: (
    bool,
    bool,
    Option<String>,
))
    ensures
        match check {
            Ok((retained, verified)) => r.0 == retained && r.1 == verified && r.2 is None,
            Err(e) => !r.0 && !r.1 && (r.2 matches Some(w) && w@
                == "Could not verify managed certificate retention for '"@ + stack_name@ + "': "@
                + e.spec_message()),
        },
{
    match check {
        Ok((retained, verified)) => (retained, verified, None),
        Err(e) => (false, false, Some(certificate_check_warning(stack_name, &e))),
    }
}

/// A stack is deleted only when it is there; an absent one already is.
pub fn delete_needed(stack_present: bool) -> (r: Option<DeleteRequestOutcome>)
    ensures
        stack_present ==> r is None,
        !stack_present ==> r == Some(DeleteRequestOutcome::AlreadyAbsent),
{
    if stack_present {
        None
    } else {
        Some(DeleteRequestOutcome::AlreadyAbsent)
    }
}

} // verus!
