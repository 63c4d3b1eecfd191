//! `status`: the regional stack's outputs and state, and who is calling.
use vstd::prelude::*;

use crate::aws_error::opt_view;
use crate::cloudformation::{opt_text, StackDescription, StackStatus};
use crate::config::Config;
use crate::error::{fails_with, ErrorKind, ShimesuError};
use crate::text::{cat, cat3, contains, owned, same_text, seq_contains};

verus! {

/// The identity the AWS calls run as.
#[derive(Debug, Clone, PartialEq, Eq)]
pub struct CallerIdentity {
    pub account: String,
    pub arn: String,
    pub user_id: String,
}

pub open spec fn unknown_if_none(o: Option<Seq<char>>) -> Seq<char> {
    match o {
        Some(s) => s,
        None => "unknown"@,
    }
}

fn or_unknown(o: Option<&str>) -> (s: String)
    ensures
        s@ == unknown_if_none(opt_view(o)),
{
    match o {
        Some(v) => owned(v),
        None => owned("unknown"),
    }
}

impl CallerIdentity {
    /// The identity STS reported; a field it left out reads `unknown`.
    pub fn from_parts(account: Option<&str>, arn: Option<&str>, user_id: Option<&str>) -> (c: Self)
        ensures
            c.account@ == unknown_if_none(opt_view(account)),
            c.arn@ == unknown_if_none(opt_view(arn)),
            c.user_id@ == unknown_if_none(opt_view(user_id)),
    {
        CallerIdentity { account: or_unknown(account), arn: or_unknown(arn), user_id: or_unknown(user_id) }
    }
}

/// The report of `status`.
#[derive(Debug, Clone)]
pub struct StatusOutput {
    pub stack_name: String,
    pub stack_status: String,
    pub base_domain: Option<String>,
    pub bucket_name: Option<String>,
    pub distribution_id: Option<String>,
    pub table_name: Option<String>,
    pub caller_identity: CallerIdentity,
}

/// The four outputs `status` requires.
#[derive(Debug, Clone, PartialEq, Eq)]
pub struct RequiredStackOutputs {
    pub base_domain: String,
    pub bucket_name: String,
    pub distribution_id: String,
    pub table_name: String,
}

pub type Pairs = Seq<(String, String)>;

/// The value the last pair with `key` carries, as a map built from the
/// pairs in order would hold it.
pub open spec fn pair_value(pairs: Pairs, key: Seq<char>) -> Option<Seq<char>>
    decreases pairs.len(),
{
    if pairs.len() == 0 {
        None
    } else if pairs.last().0@ == key {
        Some(pairs.last().1@)
    } else {
        pair_value(pairs.drop_last(), key)
    }
}

/// The outputs that carry both a key and a value, as key-value pairs in the
/// order of the description.
pub open spec fn output_pairs_view(outputs: Seq<crate::cloudformation::StackOutput>) -> Seq<
    (Seq<char>, Seq<char>),
>
    decreases outputs.len(),
{
    if outputs.len() == 0 {
        Seq::empty()
    } else {
        let rest = output_pairs_view(outputs.drop_last());
        match (outputs.last().output_key, outputs.last().output_value) {
            (Some(k), Some(v)) => rest.push((k@, v@)),
            _ => rest,
        }
    }
}

pub open spec fn pairs_view(pairs: Pairs) -> Seq<(Seq<char>, Seq<char>)> {
    pairs.map_values(|p: (String, String)| (p.0@, p.1@))
}

pub fn output_pairs(stack: &StackDescription) -> (pairs: Vec<(String, String)>)
    ensures
        pairs_view(pairs@) == output_pairs_view(stack.outputs@),
{
    let mut pairs: Vec<(String, String)> = Vec::new();
    let mut i: usize = 0;
    while i < stack.outputs.len()
        invariant
            i <= stack.outputs.len(),
            pairs_view(pairs@) == output_pairs_view(stack.outputs@.take(i as int)),
        decreases stack.outputs.len() - i,
    {
        assert(stack.outputs@.take(i + 1).drop_last() == stack.outputs@.take(i as int));
        let o = &stack.outputs[i];
        match (&o.output_key, &o.output_value) {
            (Some(k), Some(v)) => {
                pairs.push((k.clone(), v.clone()));
                assert(pairs_view(pairs@) =~= output_pairs_view(stack.outputs@.take(i + 1)));
            },
            _ => {},
        }
        i = i + 1;
    }
    assert(stack.outputs@.take(stack.outputs.len() as int) == stack.outputs@);
    pairs
}

pub open spec fn missing_required(stack_name: Seq<char>, key: Seq<char>) -> (ErrorKind, Seq<char>) {
    (
        ErrorKind::Config,
        "CloudFormation stack '"@ + stack_name + "' is missing required output '"@ + key + "'"@,
    )
}

pub fn required_output(stack_name: &str, outputs: &Vec<(String, String)>, key: &str) -> (r: Result<
    String,
    ShimesuError,
>)
    ensures
        match pair_value(outputs@, key@) {
            Some(v) => r matches Ok(s) && s@ == v,
            None => fails_with(r, missing_required(stack_name@, key@)),
        },
{
    let mut i: usize = outputs.len();
    assert(outputs@.take(i as int) == outputs@);
    while i > 0
        invariant
            i <= outputs.len(),
            pair_value(outputs@, key@) == pair_value(outputs@.take(i as int), key@),
        decreases i,
    {
        assert(outputs@.take(i as int).drop_last() == outputs@.take(i - 1));
        if same_text(outputs[i - 1].0.as_str(), key) {
            return Ok(outputs[i - 1].1.clone());
        }
        i = i - 1;
    }
    let head = cat3("CloudFormation stack '", stack_name, "' is missing required output '");
    Err(ShimesuError::Config(cat3(head.as_str(), key, "'")))
}

/// All four outputs, or the error naming the first one missing, checked in
/// the order base domain, bucket, distribution, table.
pub fn parse_required_stack_outputs(stack_name: &str, outputs: &Vec<(String, String)>) -> (r:
    Result<RequiredStackOutputs, ShimesuError>)
    ensures
        pair_value(outputs@, "BaseDomain"@) is None ==> fails_with(
            r,
            missing_required(stack_name@, "BaseDomain"@),
        ),
        pair_value(outputs@, "BaseDomain"@) is Some && pair_value(outputs@, "BucketName"@) is None
            ==> fails_with(r, missing_required(stack_name@, "BucketName"@)),
        pair_value(outputs@, "BaseDomain"@) is Some && pair_value(outputs@, "BucketName"@) is Some
            && pair_value(outputs@, "DistributionId"@) is None ==> fails_with(
            r,
            missing_required(stack_name@, "DistributionId"@),
        ),
        pair_value(outputs@, "BaseDomain"@) is Some && pair_value(outputs@, "BucketName"@) is Some
            && pair_value(outputs@, "DistributionId"@) is Some && pair_value(
            outputs@,
            "TableName"@,
        ) is None ==> fails_with(r, missing_required(stack_name@, "TableName"@)),
        r matches Ok(o) ==> {
            &&& pair_value(outputs@, "BaseDomain"@) == Some(o.base_domain@)
            &&& pair_value(outputs@, "BucketName"@) == Some(o.bucket_name@)
            &&& pair_value(outputs@, "DistributionId"@) == Some(o.distribution_id@)
            &&& pair_value(outputs@, "TableName"@) == Some(o.table_name@)
        },
        r is Ok <==> (pair_value(outputs@, "BaseDomain"@) is Some && pair_value(
            outputs@,
            "BucketName"@,
        ) is Some && pair_value(outputs@, "DistributionId"@) is Some && pair_value(
            outputs@,
            "TableName"@,
        ) is Some),
{
    let base_domain = required_output(stack_name, outputs, "BaseDomain")?;
    let bucket_name = required_output(stack_name, outputs, "BucketName")?;
    let distribution_id = required_output(stack_name, outputs, "DistributionId")?;
    let table_name = required_output(stack_name, outputs, "TableName")?;
    Ok(RequiredStackOutputs { base_domain, bucket_name, distribution_id, table_name })
}

/// The report from the stack's state, the caller, and its outputs.
pub fn build_status_output(
    config: &Config,
    stack_status: String,
    caller_identity: CallerIdentity,
    required_outputs: RequiredStackOutputs,
) -> (o: StatusOutput)
    ensures
        o.stack_name@ == config.stack_name@,
        o.stack_status == stack_status,
        opt_text(o.base_domain) == Some(required_outputs.base_domain@),
        opt_text(o.bucket_name) == Some(required_outputs.bucket_name@),
        opt_text(o.distribution_id) == Some(required_outputs.distribution_id@),
        opt_text(o.table_name) == Some(required_outputs.table_name@),
        o.caller_identity == caller_identity,
{
    StatusOutput {
        stack_name: config.stack_name.clone(),
        stack_status,
        base_domain: Some(required_outputs.base_domain),
        bucket_name: Some(required_outputs.bucket_name),
        distribution_id: Some(required_outputs.distribution_id),
        table_name: Some(required_outputs.table_name),
        caller_identity,
    }
}

/// The stack's status code, `UNKNOWN` when it reported none.
pub fn stack_status_text(status: &Option<StackStatus>) -> (s: String)
    ensures
        s@ == match status {
            Some(st) => st.code(),
            None => "UNKNOWN"@,
        },
{
    match status {
        Some(st) => owned(st.as_str()),
        None => owned("UNKNOWN"),
    }
}

/// A stack is healthy when its status is a completion other than a deletion.
pub open spec fn status_healthy(status: Seq<char>) -> bool {
    seq_contains(status, "COMPLETE"@) && !seq_contains(status, "DELETE"@)
}

/// The closing line of the report: whether it is good news, and its text.
pub fn health_line(stack_status: &str) -> (r: (bool, String))
    ensures
        r.0 == status_healthy(stack_status@),
        r.1@ == (if status_healthy(stack_status@) {
            "Stack is healthy"@
        } else {
            "Stack status: "@ + stack_status@
        }),
{
    if contains(stack_status, "COMPLETE") && !contains(stack_status, "DELETE") {
        (true, owned("Stack is healthy"))
    } else {
        (false, cat("Stack status: ", stack_status))
    }
}

/// The report of `status` from the described stack and the caller: a
/// missing stack is not found; a present one must carry the four required
/// outputs.
pub fn status_report(
    config: &Config,
    stack: Option<&StackDescription>,
    caller_identity: CallerIdentity,
) -> (r: Result<StatusOutput, ShimesuError>)
    ensures
        stack is None ==> fails_with(
            r,
            (ErrorKind::NotFound, "Stack '"@ + config.stack_name@ + "' not found"@),
        ),
        stack matches Some(st) ==> {
            let pairs = output_pairs_view(st.outputs@);
            &&& r is Ok <==> (view_pair_value(pairs, "BaseDomain"@) is Some && view_pair_value(
                pairs,
                "BucketName"@,
            ) is Some && view_pair_value(pairs, "DistributionId"@) is Some && view_pair_value(
                pairs,
                "TableName"@,
            ) is Some)
            &&& r matches Ok(o) ==> {
                &&& o.stack_name@ == config.stack_name@
                &&& o.stack_status@ == match st.stack_status {
                    Some(s) => s.code(),
                    None => "UNKNOWN"@,
                }
                &&& opt_text(o.base_domain) == view_pair_value(pairs, "BaseDomain"@)
                &&& opt_text(o.bucket_name) == view_pair_value(pairs, "BucketName"@)
                &&& opt_text(o.distribution_id) == view_pair_value(pairs, "DistributionId"@)
                &&& opt_text(o.table_name) == view_pair_value(pairs, "TableName"@)
                &&& o.caller_identity == caller_identity
            }
        },
{
    let stack = match stack {
        Some(s) => s,
        None => {
            return Err(
                ShimesuError::NotFound(cat3("Stack '", config.stack_name.as_str(), "' not found")),
            );
        },
    };
    let stack_status = stack_status_text(&stack.stack_status);
    let pairs = output_pairs(stack);
    proof {
        lemma_pair_value_view(pairs@, "BaseDomain"@);
        lemma_pair_value_view(pairs@, "BucketName"@);
        lemma_pair_value_view(pairs@, "DistributionId"@);
        lemma_pair_value_view(pairs@, "TableName"@);
    }
    let required = parse_required_stack_outputs(config.stack_name.as_str(), &pairs)?;
    Ok(build_status_output(config, stack_status, caller_identity, required))
}

/// [`pair_value`] on the views of the pairs.
pub open spec fn view_pair_value(pairs: Seq<(Seq<char>, Seq<char>)>, key: Seq<char>) -> Option<
    Seq<char>,
>
    decreases pairs.len(),
{
    if pairs.len() == 0 {
        None
    } else if pairs.last().0 == key {
        Some(pairs.last().1)
    } else {
        view_pair_value(pairs.drop_last(), key)
    }
}

proof fn lemma_pair_value_view(pairs: Pairs, key: Seq<char>)
    ensures
        pair_value(pairs, key) == view_pair_value(pairs_view(pairs), key),
    decreases pairs.len(),
{
    if pairs.len() > 0 {
        assert(pairs_view(pairs).drop_last() == pairs_view(pairs.drop_last()));
        lemma_pair_value_view(pairs.drop_last(), key);
    }
}


/// A stack reads as healthy exactly when its status text contains
/// `COMPLETE` and does not contain `DELETE`.
pub proof fn lemma_healthy_is_complete_and_not_deleted(status: Seq<char>)
    ensures
        status_healthy(status) <==> (seq_contains(status, "COMPLETE"@) && !seq_contains(
            status,
            "DELETE"@,
        )),
{
}

} // verus!
