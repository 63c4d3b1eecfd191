//! Configuration resolution with precedence: CLI flag > environment variable >
//! config file > default.
use vstd::prelude::*;

use crate::cli::Cli;
use crate::error::ShimesuError;
use crate::text::owned;

verus! {

pub const DEFAULT_STACK_NAME: &'static str = "shimesu";

/// The `[installation]` table of the config file.
#[derive(Debug, Clone, Default)]
pub struct InstallationConfig {
    pub stack_name: Option<String>,
    pub region: Option<String>,
    pub profile: Option<String>,
}

/// The parsed config file; every setting is optional.
#[derive(Debug, Clone, Default)]
pub struct ConfigFile {
    pub installation: InstallationConfig,
}

/// The environment variables that settings fall back to.
#[derive(Debug, Clone, Default)]
pub struct ConfigEnv {
    /// `SHIMESU_STACK`
    pub stack: Option<String>,
    /// `AWS_DEFAULT_REGION` (`AWS_REGION` arrives as the region flag)
    pub region: Option<String>,
    /// `AWS_PROFILE`
    pub profile: Option<String>,
}

/// The resolved settings of one invocation.
#[derive(Debug, Clone)]
pub struct Config {
    pub stack_name: String,
    pub region: Option<String>,
    pub profile: Option<String>,
    pub json: bool,
    pub yes: bool,
}

pub open spec fn opt_seq(o: Option<String>) -> Option<Seq<char>> {
    match o {
        Some(s) => Some(s@),
        None => None,
    }
}

/// The first of the options that is set.
pub open spec fn first_of(a: Option<Seq<char>>, b: Option<Seq<char>>) -> Option<Seq<char>> {
    match a {
        Some(x) => Some(x),
        None => b,
    }
}

fn clone_opt(o: &Option<String>) -> (r: Option<String>)
    ensures
        opt_seq(r) == opt_seq(*o),
{
    match o {
        Some(s) => Some(s.clone()),
        None => None,
    }
}

/// `config` holds, setting by setting, the value chosen by precedence: flag,
/// then environment, then file, then the default stack name.
pub open spec fn is_resolution(cli: &Cli, env: &ConfigEnv, file_config: ConfigFile, config: Config) -> bool {
    &&& config.stack_name@ == (match first_of(
        opt_seq(cli.stack),
        first_of(opt_seq(env.stack), opt_seq(file_config.installation.stack_name)),
    ) {
        Some(s) => s,
        None => DEFAULT_STACK_NAME@,
    })
    &&& opt_seq(config.region) == first_of(
        opt_seq(cli.region),
        first_of(opt_seq(env.region), opt_seq(file_config.installation.region)),
    )
    &&& opt_seq(config.profile) == first_of(
        opt_seq(cli.profile),
        first_of(opt_seq(env.profile), opt_seq(file_config.installation.profile)),
    )
    &&& config.json == cli.json
    &&& config.yes == cli.yes
}

/// Picks each setting by precedence: flag, then environment, then file, then default.
pub fn resolve_config(cli: &Cli, env: &ConfigEnv, file_config: ConfigFile) -> (config: Config)
    ensures
        is_resolution(cli, env, file_config, config),
{
    let stack_name = match &cli.stack {
        Some(s) => s.clone(),
        None => match &env.stack {
            Some(s) => s.clone(),
            None => match file_config.installation.stack_name {
                Some(s) => s,
                None => owned(DEFAULT_STACK_NAME),
            },
        },
    };
    let region = match &cli.region {
        Some(s) => Some(s.clone()),
        None => match &env.region {
            Some(s) => Some(s.clone()),
            None => file_config.installation.region,
        },
    };
    let profile = match &cli.profile {
        Some(s) => Some(s.clone()),
        None => match &env.profile {
            Some(s) => Some(s.clone()),
            None => file_config.installation.profile,
        },
    };
    Config { stack_name, region, profile, json: cli.json, yes: cli.yes }
}

impl Config {
    /// Resolves the settings from the command line, the environment and the
    /// outcome of reading the config file; a failed read is returned as is.
    pub fn load(cli: &Cli, env: &ConfigEnv, file_config: Result<ConfigFile, ShimesuError>) -> (r:
        Result<Config, ShimesuError>)
        ensures
            file_config is Err ==> r is Err && r->Err_0@ == file_config->Err_0@,
            file_config is Ok ==> r is Ok && is_resolution(cli, env, file_config->Ok_0, r->Ok_0),
    {
        match file_config {
            Ok(file) => Ok(resolve_config(cli, env, file)),
            Err(e) => Err(e),
        }
    }
}

} // verus!
