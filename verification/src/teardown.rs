//! `stack teardown`: the confirmation token, the ownership rules that decide
//! which retained resources may be removed, and the report.
use vstd::prelude::*;

use crate::aws_error::opt_view;
use crate::cli::{bool_text, spec_bool_text};
use crate::error::{fails_usage, fails_with, ErrorKind, ShimesuError};
use vstd::seq_lib::group_to_multiset_ensures;
use crate::support::StackOutputs;
use crate::text::{
    ascii_lower, byte_len, cat, chars_of, contains, decimal, owned, same_text, seq_contains,
    seq_starts_with, starts_with, to_ascii_lowercase, usize_text, lex_lt, lemma_lex_asymmetric,
    lemma_lex_transitive, text_lt,
};

verus! {

broadcast use group_to_multiset_ensures;

pub const CONTENT_BUCKET_SEGMENT: &'static str = "-contentbucket-";

/// Most object versions that one delete request may name.
pub const DELETE_BATCH_LIMIT: usize = 1000;

/// Proof that the operator accepted the data loss; only
/// [`StackTeardownInput::parse`] with `true` makes one.
#[derive(Debug, Clone, Copy, PartialEq, Eq)]
pub struct StackTeardownInput {
    _confirmed_data_loss: (),
}

impl StackTeardownInput {
    pub fn parse(confirm_data_loss: bool) -> (r: Result<Self, ShimesuError>)
        ensures
            confirm_data_loss <==> r is Ok,
            !confirm_data_loss ==> fails_usage(
                r,
                "stack teardown requires --confirm-data-loss to proceed"@,
            ),
    {
        if !confirm_data_loss {
            return Err(
                ShimesuError::Usage(owned("stack teardown requires --confirm-data-loss to proceed")),
            );
        }
        Ok(StackTeardownInput { _confirmed_data_loss: () })
    }
}

/// The report of `stack teardown`.
#[derive(Debug, Clone, PartialEq, Eq)]
pub struct StackTeardownOutput {
    pub stack_name: String,
    pub region: String,
    pub regional_stack_deleted: bool,
    pub buckets_deleted: usize,
    pub object_versions_deleted: usize,
    pub table_deleted: bool,
    pub certificate_stack_deleted: bool,
    pub certificate_deleted: bool,
}

pub open spec fn string_rows_view(rows: Seq<(String, String)>) -> Seq<(Seq<char>, Seq<char>)> {
    rows.map_values(|r: (String, String)| (r.0@, r.1@))
}

impl StackTeardownOutput {
    /// The key-value rows of the human report, in display order.
    pub fn human_rows(&self) -> (rows: [(String, String); 8])
        ensures
            string_rows_view(rows@) == seq![
                ("Stack Name"@, self.stack_name@),
                ("Region"@, self.region@),
                ("Regional Stack Deleted"@, spec_bool_text(self.regional_stack_deleted)),
                ("Buckets Deleted"@, decimal(self.buckets_deleted as nat)),
                ("Object Versions Deleted"@, decimal(self.object_versions_deleted as nat)),
                ("Table Deleted"@, spec_bool_text(self.table_deleted)),
                ("Certificate Stack Deleted"@, spec_bool_text(self.certificate_stack_deleted)),
                ("Certificate Deleted"@, spec_bool_text(self.certificate_deleted)),
            ],
    {
        let rows = [
            (owned("Stack Name"), self.stack_name.clone()),
            (owned("Region"), self.region.clone()),
            (owned("Regional Stack Deleted"), owned(bool_text(self.regional_stack_deleted))),
            (owned("Buckets Deleted"), usize_text(self.buckets_deleted)),
            (owned("Object Versions Deleted"), usize_text(self.object_versions_deleted)),
            (owned("Table Deleted"), owned(bool_text(self.table_deleted))),
            (owned("Certificate Stack Deleted"), owned(bool_text(self.certificate_stack_deleted))),
            (owned("Certificate Deleted"), owned(bool_text(self.certificate_deleted))),
        ];
        assert(string_rows_view(rows@) =~= seq![
            ("Stack Name"@, self.stack_name@),
            ("Region"@, self.region@),
            ("Regional Stack Deleted"@, spec_bool_text(self.regional_stack_deleted)),
            ("Buckets Deleted"@, decimal(self.buckets_deleted as nat)),
            ("Object Versions Deleted"@, decimal(self.object_versions_deleted as nat)),
            ("Table Deleted"@, spec_bool_text(self.table_deleted)),
            ("Certificate Stack Deleted"@, spec_bool_text(self.certificate_stack_deleted)),
            ("Certificate Deleted"@, spec_bool_text(self.certificate_deleted)),
        ]);
        rows
    }

    pub fn completion_message(&self) -> (m: String)
        ensures
            m@ == "Completed teardown for '"@ + self.stack_name@ + "'"@,
    {
        crate::text::cat3("Completed teardown for '", self.stack_name.as_str(), "'")
    }
}

/// The retained table of an installation, `<stack>-projects`, refused
/// beyond DynamoDB's 255 bytes.
pub fn table_name(stack_name: &str) -> (r: Result<String, ShimesuError>)
    ensures
        byte_len(stack_name@ + "-projects"@) <= 255 ==> (r matches Ok(name) && name@ == stack_name@
            + "-projects"@),
        byte_len(stack_name@ + "-projects"@) > 255 ==> fails_with(
            r,
            (ErrorKind::Validation, "Teardown table name exceeds DynamoDB's 255-character limit"@),
        ),
{
    let name = cat(stack_name, "-projects");
    if name.as_str().len() > 255 {
        return Err(
            ShimesuError::Validation(owned("Teardown table name exceeds DynamoDB's 255-character limit")),
        );
    }
    Ok(name)
}

/// The prefix every content bucket of an installation starts with.
pub open spec fn bucket_prefix(stack_name: Seq<char>) -> Seq<char> {
    ascii_lower(stack_name) + CONTENT_BUCKET_SEGMENT@
}

pub fn bucket_name_matches_stack(bucket_name: &str, stack_name: &str) -> (r: bool)
    ensures
        r == seq_starts_with(bucket_name@, bucket_prefix(stack_name@)),
{
    let lower = to_ascii_lowercase(stack_name);
    let prefix = cat(lower.as_str(), CONTENT_BUCKET_SEGMENT);
    starts_with(bucket_name, prefix.as_str())
}

pub open spec fn has_pair(tags: Seq<(&str, &str)>, key: Seq<char>, value: Seq<char>) -> bool {
    exists|i: int| 0 <= i < tags.len() && (#[trigger] tags[i]).0@ == key && tags[i].1@ == value
}

fn includes_pair(tags: &[(&str, &str)], key: &str, value: &str) -> (r: bool)
    ensures
        r == has_pair(tags@, key@, value@),
{
    let mut i: usize = 0;
    while i < tags.len()
        invariant
            i <= tags@.len(),
            forall|j: int|
                0 <= j < i ==> !((#[trigger] tags@[j]).0@ == key@ && tags@[j].1@ == value@),
        decreases tags@.len() - i,
    {
        let (k, v) = tags[i];
        if same_text(k, key) && same_text(v, value) {
            return true;
        }
        i = i + 1;
    }
    false
}

/// A retained resource belongs to an installation when it carries both
/// ownership tags.
pub fn tags_belong_to_stack(tags: &[(&str, &str)], stack_name: &str) -> (r: bool)
    ensures
        r == (has_pair(tags@, "Application"@, "shimesu"@) && has_pair(tags@, "StackName"@, stack_name@)),
{
    let has_application_tag = includes_pair(tags, "Application", "shimesu");
    let has_stack_tag = includes_pair(tags, "StackName", stack_name);
    has_application_tag && has_stack_tag
}

/// A lookup failure that means the resource is not there.
pub open spec fn absent_resource(code: Option<Seq<char>>, text: Seq<char>) -> bool {
    ||| code == Some("ResourceNotFoundException"@)
    ||| code == Some("NoSuchBucket"@)
    ||| seq_contains(ascii_lower(text), "not found"@)
    ||| seq_contains(ascii_lower(text), "does not exist"@)
}

fn code_is(code: Option<&str>, expected: &str) -> (r: bool)
    ensures
        r == (opt_view(code) == Some(expected@)),
{
    match code {
        Some(c) => same_text(c, expected),
        None => false,
    }
}

pub fn is_absent_resource(code: Option<&str>, error_text: &str) -> (r: bool)
    ensures
        r == absent_resource(opt_view(code), error_text@),
{
    let lower = to_ascii_lowercase(error_text);
    code_is(code, "ResourceNotFoundException") || code_is(code, "NoSuchBucket") || contains(
        lower.as_str(),
        "not found",
    ) || contains(lower.as_str(), "does not exist")
}

/// A bucket without tags is not owned; so is one that is gone.
pub fn bucket_tags_absent(code: Option<&str>, error_text: &str) -> (r: bool)
    ensures
        r == (opt_view(code) == Some("NoSuchTagSet"@) || absent_resource(opt_view(code), error_text@)),
{
    code_is(code, "NoSuchTagSet") || is_absent_resource(code, error_text)
}

/// A certificate lookup failure that means the certificate is gone.
pub fn is_missing_certificate(code: Option<&str>, text: &str) -> (r: bool)
    ensures
        r == (opt_view(code) == Some("ResourceNotFoundException"@) || seq_contains(
            ascii_lower(text@),
            "not found"@,
        )),
{
    let lower = to_ascii_lowercase(text);
    code_is(code, "ResourceNotFoundException") || contains(lower.as_str(), "not found")
}

/// A failed bucket deletion that means the bucket is already gone.
pub fn bucket_already_deleted(code: Option<&str>, text: &str) -> (r: bool)
    ensures
        r == (opt_view(code) == Some("NoSuchBucket"@) || seq_contains(ascii_lower(text@), "not found"@)),
{
    let lower = to_ascii_lowercase(text);
    code_is(code, "NoSuchBucket") || contains(lower.as_str(), "not found")
}

/// The domain that the certificate stack must match before its removal: the
/// regional stack's `BaseDomain`, when the regional stack proves one.
pub fn certificate_cleanup_domain(outputs: Option<&StackOutputs>) -> (r: Option<&str>)
    ensures
        opt_view(r) == match outputs {
            Some(o) => crate::cloudformation::opt_text(o.base_domain),
            None => None,
        },
{
    match outputs {
        Some(o) => match &o.base_domain {
            Some(d) => Some(d.as_str()),
            None => None,
        },
        None => None,
    }
}

/// One object version to remove: its key and version id.
#[derive(Debug, Clone, PartialEq, Eq)]
pub struct VersionedObject {
    pub key: String,
    pub version_id: String,
}

pub open spec fn min(a: int, b: int) -> int {
    if a < b {
        a
    } else {
        b
    }
}

/// Splits the items to delete into consecutive batches of
/// [`DELETE_BATCH_LIMIT`]; only the last batch may be shorter.
pub fn delete_batches<T>(objects: &[T]) -> (batches: Vec<&[T]>)
    ensures
        batches@.len() == (objects@.len() + 999) / 1000,
        forall|i: int|
            0 <= i < batches@.len() ==> (#[trigger] batches@[i])@ == objects@.subrange(
                1000 * i,
                min(1000 * i + 1000, objects@.len() as int),
            ),
{
    let n = objects.len();
    let mut batches: Vec<&[T]> = Vec::new();
    let mut start: usize = 0;
    while start < n
        invariant
            n == objects@.len(),
            start <= n,
            start < n ==> start == 1000 * batches@.len(),
            start == n ==> batches@.len() == (n + 999) / 1000,
            start == 1000 * batches@.len() || start == n,
            forall|i: int|
                0 <= i < batches@.len() ==> (#[trigger] batches@[i])@ == objects@.subrange(
                    1000 * i,
                    min(1000 * i + 1000, n as int),
                ),
        decreases n - start,
    {
        let end = if n - start > DELETE_BATCH_LIMIT {
            start + DELETE_BATCH_LIMIT
        } else {
            n
        };
        let batch = vstd::slice::slice_subrange(objects, start, end);
        batches.push(batch);
        start = end;
    }
    batches
}

pub open spec fn name_views(names: Seq<String>) -> Seq<Seq<char>> {
    names.map_values(|n: String| n@)
}

/// The bucket names with the installation's prefix, in the order they were
/// listed.
pub open spec fn prefixed_names(names: Seq<Seq<char>>, stack_name: Seq<char>) -> Seq<Seq<char>>
    decreases names.len(),
{
    if names.len() == 0 {
        Seq::empty()
    } else {
        let rest = prefixed_names(names.drop_last(), stack_name);
        if seq_starts_with(names.last(), bucket_prefix(stack_name)) {
            rest.push(names.last())
        } else {
            rest
        }
    }
}

pub open spec fn sorted_names(names: Seq<Seq<char>>) -> bool {
    forall|i: int, j: int| 0 <= i < j < names.len() ==> !lex_lt(names[j], names[i])
}

/// The buckets that may belong to the installation, by name: those with its
/// prefix, sorted.
pub fn bucket_candidates(names: &Vec<String>, stack_name: &str) -> (candidates: Vec<String>)
    ensures
        name_views(candidates@).to_multiset() == prefixed_names(name_views(names@), stack_name@).to_multiset(),
        sorted_names(name_views(candidates@)),
{
    let mut sorted: Vec<String> = Vec::new();
    let mut i: usize = 0;
    while i < names.len()
        invariant
            i <= names.len(),
            name_views(sorted@).to_multiset() == prefixed_names(
                name_views(names@.take(i as int)),
                stack_name@,
            ).to_multiset(),
            sorted_names(name_views(sorted@)),
        decreases names.len() - i,
    {
        assert(name_views(names@.take(i + 1)).drop_last() == name_views(names@.take(i as int)));
        assert(name_views(names@.take(i + 1)).last() == names@[i as int]@);
        let name = &names[i];
        if bucket_name_matches_stack(name.as_str(), stack_name) {
            let mut p: usize = 0;
            while p < sorted.len() && !text_lt(name.as_str(), sorted[p].as_str())
                invariant
                    p <= sorted.len(),
                    forall|j: int| 0 <= j < p ==> !lex_lt(name@, #[trigger] name_views(sorted@)[j]),
                decreases sorted.len() - p,
            {
                p = p + 1;
            }
            let ghost before = name_views(sorted@);
            let ghost nv = name@;
            sorted.insert(p, name.clone());
            proof {
                let after = name_views(sorted@);
                assert(after =~= before.insert(p as int, nv));
                assert forall|a: int, b: int| 0 <= a < b < after.len() implies !lex_lt(
                    after[b],
                    after[a],
                ) by {
                    if a == p && b > p {
                        let y = before[b - 1];
                        assert(lex_lt(nv, before[p as int]));
                        if lex_lt(y, nv) {
                            if b - 1 > p {
                                lemma_lex_transitive(y, nv, before[p as int]);
                            } else {
                                lemma_lex_asymmetric(nv, y);
                            }
                        }
                    }
                }
                assert(prefixed_names(name_views(names@.take(i + 1)), stack_name@) == prefixed_names(
                    name_views(names@.take(i as int)),
                    stack_name@,
                ).push(nv));
            }
        }
        i = i + 1;
    }
    assert(names@.take(names.len() as int) == names@);
    sorted
}

/// A bucket is removed when its tags prove the installation owns it; the
/// bucket the regional stack named must carry them.
pub fn bucket_ownership(bucket_name: &str, expected_bucket_name: Option<&str>, tag_matches: bool) -> (r:
    Result<bool, ShimesuError>)
    ensures
        opt_view(expected_bucket_name) == Some(bucket_name@) && !tag_matches ==> fails_with(
            r,
            (
                ErrorKind::Validation,
                "Refusing to delete bucket '"@ + bucket_name@
                    + "' because it is missing required shimesu ownership tags"@,
            ),
        ),
        !(opt_view(expected_bucket_name) == Some(bucket_name@) && !tag_matches) ==> r == Ok::<
            bool,
            ShimesuError,
        >(tag_matches),
{
    let expected = match expected_bucket_name {
        Some(e) => same_text(e, bucket_name),
        None => false,
    };
    if expected && !tag_matches {
        return Err(
            ShimesuError::Validation(
                crate::text::cat3(
                    "Refusing to delete bucket '",
                    bucket_name,
                    "' because it is missing required shimesu ownership tags",
                ),
            ),
        );
    }
    Ok(tag_matches)
}

/// The ARN of the retained table from its description: DynamoDB must have
/// described the table and given its ARN.
pub fn table_arn_of(table_name: &str, described: Option<Option<&str>>) -> (r: Result<
    String,
    ShimesuError,
>)
    ensures
        described is None ==> fails_with(
            r,
            (ErrorKind::Generic, "DynamoDB returned no table details for '"@ + table_name@ + "'"@),
        ),
        described == Some(None::<&str>) ==> fails_with(
            r,
            (ErrorKind::Generic, "DynamoDB returned no ARN for table '"@ + table_name@ + "'"@),
        ),
        described matches Some(Some(arn)) ==> (r matches Ok(a) && a@ == arn@),
{
    match described {
        None => Err(
            ShimesuError::Generic(
                crate::text::cat3("DynamoDB returned no table details for '", table_name, "'"),
            ),
        ),
        Some(None) => Err(
            ShimesuError::Generic(crate::text::cat3("DynamoDB returned no ARN for table '", table_name, "'")),
        ),
        Some(Some(arn)) => Ok(owned(arn)),
    }
}

/// A retained resource may be deleted only when its tags prove ownership.
pub fn require_owned(kind: &str, name: &str, tags_belong: bool) -> (r: Result<(), ShimesuError>)
    ensures
        tags_belong ==> r is Ok,
        !tags_belong ==> fails_with(
            r,
            (
                ErrorKind::Validation,
                "Refusing to delete "@ + kind@ + " '"@ + name@
                    + "' because it is missing required shimesu ownership tags"@,
            ),
        ),
{
    if tags_belong {
        Ok(())
    } else {
        let head = crate::text::cat4("Refusing to delete ", kind, " '", name);
        Err(ShimesuError::Validation(cat(head.as_str(), "' because it is missing required shimesu ownership tags")))
    }
}

/// One failure in a batch delete: the object's key and the error code, each
/// when S3 gave it.
pub open spec fn failure_item(key: Option<Seq<char>>, code: Option<Seq<char>>) -> Seq<char> {
    (match key {
        Some(k) => k,
        None => "unknown"@,
    }) + ":"@ + (match code {
        Some(c) => c,
        None => "UnknownError"@,
    })
}

pub open spec fn failure_items(errors: Seq<(Option<String>, Option<String>)>) -> Seq<Seq<char>> {
    errors.map_values(
        |e: (Option<String>, Option<String>)|
            failure_item(crate::cloudformation::opt_text(e.0), crate::cloudformation::opt_text(e.1)),
    )
}

/// The error for a batch delete that S3 refused in part, listing each
/// failure as `key:code`.
pub fn object_batch_failure(bucket_name: &str, errors: &Vec<(Option<String>, Option<String>)>) -> (e:
    ShimesuError)
    ensures
        e@ == (
            ErrorKind::Generic,
            "Failed to delete all object versions from bucket '"@ + bucket_name@ + "': "@
                + crate::text::joined(failure_items(errors@), ", "@),
        ),
{
    let mut items: Vec<String> = Vec::new();
    let mut i: usize = 0;
    while i < errors.len()
        invariant
            i <= errors.len(),
            items@.len() == i,
            name_views(items@) == failure_items(errors@.take(i as int)),
        decreases errors.len() - i,
    {
        let key = match &errors[i].0 {
            Some(k) => k.as_str(),
            None => "unknown",
        };
        let code = match &errors[i].1 {
            Some(c) => c.as_str(),
            None => "UnknownError",
        };
        let item = crate::text::cat3(key, ":", code);
        assert(item@ == failure_item(
            crate::cloudformation::opt_text(errors@[i as int].0),
            crate::cloudformation::opt_text(errors@[i as int].1),
        ));
        let ghost before = items@;
        items.push(item);
        assert(name_views(items@) =~= failure_items(errors@.take(i + 1))) by {
            assert forall|k: int| 0 <= k < i + 1 implies name_views(items@)[k] == failure_items(
                errors@.take(i + 1),
            )[k] by {
                if k < i {
                    assert(name_views(before)[k] == failure_items(errors@.take(i as int))[k]);
                }
            }
        }
        i = i + 1;
    }
    assert(errors@.take(errors.len() as int) == errors@);
    let mut refs: Vec<&str> = Vec::new();
    let mut j: usize = 0;
    while j < items.len()
        invariant
            j <= items.len(),
            refs@.len() == j,
            crate::text::str_views(refs@) == name_views(items@.take(j as int)),
        decreases items.len() - j,
    {
        let piece: &str = items[j].as_str();
        let ghost before = refs@;
        refs.push(piece);
        assert(crate::text::str_views(refs@) =~= name_views(items@.take(j + 1))) by {
            assert forall|k: int| 0 <= k < j + 1 implies crate::text::str_views(refs@)[k]
                == name_views(items@.take(j + 1))[k] by {
                if k < j {
                    assert(crate::text::str_views(before)[k] == name_views(items@.take(j as int))[k]);
                }
            }
        }
        j = j + 1;
    }
    assert(items@.take(items.len() as int) == items@);
    let details = crate::text::join(&refs, ", ");
    let head = crate::text::cat3("Failed to delete all object versions from bucket '", bucket_name, "': ");
    ShimesuError::Generic(cat(head.as_str(), details.as_str()))
}

/// What teardown learns before deleting anything: the bucket the regional
/// stack named, whether the certificate stack is the installation's, and
/// its certificate when that still exists.
#[derive(Debug, Clone, Default, PartialEq, Eq)]
pub struct TeardownSnapshot {
    pub regional_bucket_name: Option<String>,
    pub certificate_stack_owned: bool,
    pub certificate_stack_certificate_arn: Option<String>,
}

impl TeardownSnapshot {
    /// The snapshot from the regional outputs (when the stack is there) and
    /// the managed certificate stack; the certificate is kept only when it
    /// still exists and is owned.
    pub fn new(
        regional_outputs: Option<&StackOutputs>,
        managed: crate::certificate::ManagedCertificateStack,
        certificate_exists: bool,
    ) -> (s: Self)
        ensures
            crate::cloudformation::opt_text(s.regional_bucket_name) == match regional_outputs {
                Some(o) => crate::cloudformation::opt_text(o.bucket_name),
                None => None,
            },
            s.certificate_stack_owned == (managed is Owned),
            match managed {
                crate::certificate::ManagedCertificateStack::Owned { certificate_arn } => if certificate_exists {
                    crate::cloudformation::opt_text(s.certificate_stack_certificate_arn) == Some(
                        certificate_arn@,
                    )
                } else {
                    s.certificate_stack_certificate_arn is None
                },
                crate::certificate::ManagedCertificateStack::Absent => s.certificate_stack_certificate_arn is None,
            },
    {
        let regional_bucket_name = match regional_outputs {
            Some(o) => match &o.bucket_name {
                Some(b) => Some(b.clone()),
                None => None,
            },
            None => None,
        };
        match managed {
            crate::certificate::ManagedCertificateStack::Absent => TeardownSnapshot {
                regional_bucket_name,
                certificate_stack_owned: false,
                certificate_stack_certificate_arn: None,
            },
            crate::certificate::ManagedCertificateStack::Owned { certificate_arn } => TeardownSnapshot {
                regional_bucket_name,
                certificate_stack_owned: true,
                certificate_stack_certificate_arn: if certificate_exists {
                    Some(certificate_arn)
                } else {
                    None
                },
            },
        }
    }
}

/// One step of a teardown.
#[derive(Debug, Clone, PartialEq, Eq)]
pub enum TeardownStep {
    /// Delete the regional stack, when it is there.
    DeleteRegionalStack,
    /// Delete every retained bucket that carries the installation's tags.
    DeleteBuckets,
    /// Delete the retained table, when it carries the installation's tags.
    DeleteTable,
    /// Delete the managed certificate stack.
    DeleteCertificateStack,
    /// Delete this ACM certificate.
    DeleteCertificate(String),
}

impl TeardownSnapshot {
    /// The steps of a teardown, in order: the regional stack, the buckets,
    /// the table; then the certificate stack only when it is the
    /// installation's, and the certificate only when it still exists.
    pub fn steps(&self) -> (steps: Vec<TeardownStep>)
        ensures
            steps@.len() == 3 + (if self.certificate_stack_owned {
                1int
            } else {
                0int
            }) + (if self.certificate_stack_certificate_arn is Some {
                1int
            } else {
                0int
            }),
            steps@[0] == TeardownStep::DeleteRegionalStack,
            steps@[1] == TeardownStep::DeleteBuckets,
            steps@[2] == TeardownStep::DeleteTable,
            self.certificate_stack_owned ==> steps@[3] == TeardownStep::DeleteCertificateStack,
            match self.certificate_stack_certificate_arn {
                Some(a) => steps@.last() matches TeardownStep::DeleteCertificate(b) && b@ == a@,
                None => true,
            },
            forall|i: int|
                0 <= i < steps@.len() && #[trigger] steps@[i] == TeardownStep::DeleteCertificateStack
                    ==> self.certificate_stack_owned,
            forall|i: int|
                0 <= i < steps@.len() && (#[trigger] steps@[i]) is DeleteCertificate
                    ==> crate::cloudformation::opt_text(self.certificate_stack_certificate_arn)
                    == Some(steps@[i]->DeleteCertificate_0@),
    {
        let mut steps = Vec::new();
        steps.push(TeardownStep::DeleteRegionalStack);
        steps.push(TeardownStep::DeleteBuckets);
        steps.push(TeardownStep::DeleteTable);
        if self.certificate_stack_owned {
            steps.push(TeardownStep::DeleteCertificateStack);
        }
        match &self.certificate_stack_certificate_arn {
            Some(arn) => steps.push(TeardownStep::DeleteCertificate(arn.clone())),
            None => {},
        }
        steps
    }
}

impl StackTeardownOutput {
    /// The report of a finished teardown.
    pub fn new(
        config: &crate::config::Config,
        regional_stack_deleted: bool,
        buckets_deleted: usize,
        object_versions_deleted: usize,
        table_deleted: bool,
        certificate_stack_deleted: bool,
        certificate_deleted: bool,
    ) -> (o: Self)
        ensures
            o.stack_name@ == config.stack_name@,
            o.region@ == crate::destroy::region_or_auto(crate::config::opt_seq(config.region)),
            o.regional_stack_deleted == regional_stack_deleted,
            o.buckets_deleted == buckets_deleted,
            o.object_versions_deleted == object_versions_deleted,
            o.table_deleted == table_deleted,
            o.certificate_stack_deleted == certificate_stack_deleted,
            o.certificate_deleted == certificate_deleted,
    {
        let region = match &config.region {
            Some(r) => r.clone(),
            None => owned("auto"),
        };
        StackTeardownOutput {
            stack_name: config.stack_name.clone(),
            region,
            regional_stack_deleted,
            buckets_deleted,
            object_versions_deleted,
            table_deleted,
            certificate_stack_deleted,
            certificate_deleted,
        }
    }
}


/// A resource reads as already gone when the service says
/// `ResourceNotFoundException` or `NoSuchBucket`, or the text says "not
/// found" or "does not exist".
pub proof fn lemma_absent_resource_signals(code: Option<Seq<char>>, text: Seq<char>)
    ensures
        absent_resource(code, text) <==> (code == Some("ResourceNotFoundException"@) || code
            == Some("NoSuchBucket"@) || seq_contains(ascii_lower(text), "not found"@)
            || seq_contains(ascii_lower(text), "does not exist"@)),
{
}

} // verus!
