//! The command-line surface as plain data, output-format selection and the
//! confirmation rules for destructive operations.
use vstd::prelude::*;

use crate::error::{fails_with, ErrorKind, ShimesuError};
use crate::text::owned;

verus! {

/// Global options and the selected command, as parsed from the command line.
#[derive(Debug, Clone)]
pub struct Cli {
    pub profile: Option<String>,
    pub region: Option<String>,
    pub json: bool,
    pub yes: bool,
    pub stack: Option<String>,
    pub command: Commands,
}

#[derive(Debug, Clone)]
pub enum Commands {
    Status,
    Stack(StackCommands),
    Doctor,
    Site(SiteCommands),
    Publish { path: String, site: Option<String> },
}

#[derive(Debug, Clone)]
pub enum SiteCommands {
    List,
    Inspect { slug: String },
    Delete { slug: String, keep_files: bool },
}

#[derive(Debug, Clone)]
pub enum StackCommands {
    Init { domain: String, certificate_arn: Option<String>, hosted_zone_id: Option<String> },
    Status,
    Update,
    Destroy { confirm: bool },
    Teardown { confirm_data_loss: bool },
}

#[derive(Debug, Clone, Copy, PartialEq, Eq, Structural)]
pub enum OutputFormat {
    Human,
    Json,
}

impl OutputFormat {
    /// JSON when asked for, or when stdout is not a terminal; human otherwise.
    pub fn from_stdout_terminal(json_flag: bool, stdout_is_terminal: bool) -> (f: Self)
        ensures
            f == (if json_flag || !stdout_is_terminal {
                OutputFormat::Json
            } else {
                OutputFormat::Human
            }),
    {
        if json_flag || !stdout_is_terminal {
            OutputFormat::Json
        } else {
            OutputFormat::Human
        }
    }

    /// Prompts are possible only in human mode with an interactive stdin.
    pub fn allows_prompts(self, stdin_is_terminal: bool) -> (b: bool)
        ensures
            b == (self == OutputFormat::Human && stdin_is_terminal),
    {
        match self {
            OutputFormat::Human => stdin_is_terminal,
            OutputFormat::Json => false,
        }
    }
}

/// The output mode of one invocation, with whether stdin can answer prompts.
pub struct Output {
    format: OutputFormat,
    stdin_is_terminal: bool,
}

impl Output {
    pub closed spec fn spec_format(&self) -> OutputFormat {
        self.format
    }

    pub closed spec fn spec_allows_prompts(&self) -> bool {
        self.format == OutputFormat::Human && self.stdin_is_terminal
    }

    pub fn new(format: OutputFormat, stdin_is_terminal: bool) -> (o: Self)
        ensures
            o.spec_format() == format,
            o.spec_allows_prompts() == (format == OutputFormat::Human && stdin_is_terminal),
    {
        Output { format, stdin_is_terminal }
    }

    pub fn format(&self) -> (f: OutputFormat)
        ensures
            f == self.spec_format(),
    {
        self.format
    }

    pub fn allows_prompts(&self) -> (b: bool)
        ensures
            b == self.spec_allows_prompts(),
    {
        self.format.allows_prompts(self.stdin_is_terminal)
    }
}

/// How a destructive or overwriting command should confirm with the operator.
#[derive(Debug, Clone, Copy, PartialEq, Eq, Structural)]
pub enum ConfirmationMode {
    Skip,
    Prompt,
}

/// `--yes` skips the prompt; otherwise an interactive terminal prompts and a
/// non-interactive invocation fails with `noninteractive_error`.
pub fn confirmation_mode(yes: bool, allows_prompts: bool, noninteractive_error: &str) -> (r: Result<
    ConfirmationMode,
    ShimesuError,
>)
    ensures
        yes ==> r == Ok::<ConfirmationMode, ShimesuError>(ConfirmationMode::Skip),
        !yes && allows_prompts ==> r == Ok::<ConfirmationMode, ShimesuError>(
            ConfirmationMode::Prompt,
        ),
        !yes && !allows_prompts ==> fails_with(r, (ErrorKind::Usage, noninteractive_error@)),
{
    if yes {
        Ok(ConfirmationMode::Skip)
    } else if allows_prompts {
        Ok(ConfirmationMode::Prompt)
    } else {
        Err(ShimesuError::Usage(owned(noninteractive_error)))
    }
}

pub open spec fn spec_bool_text(value: bool) -> Seq<char> {
    if value {
        "true"@
    } else {
        "false"@
    }
}

/// Render a boolean as `"true"` / `"false"` for human-readable key-value rows.
pub fn bool_text(value: bool) -> (text: &'static str)
    ensures
        text@ == spec_bool_text(value),
{
    if value {
        "true"
    } else {
        "false"
    }
}

} // verus!
