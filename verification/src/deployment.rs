//! The assembly of a deployment from the files that were read: each file's
//! path checked and keyed under the slug, the files ordered by path, and the
//! whole held to the deployment limits.
use vstd::prelude::*;
use vstd::seq_lib::group_to_multiset_ensures;

use crate::error::{fails_validation, ShimesuError};
use crate::publish::{check_deployment, key_parts, object_key, slug_text_valid, sizes_total};
use crate::text::{chars_of, decimal, joined, owned};
use crate::validation::{
    path_problem, path_problem_message, slug_error_message, validate_path, validate_slug,
    MAX_DEPLOYMENT_BYTES, MAX_DEPLOYMENT_FILES,
};

verus! {

broadcast use group_to_multiset_ensures;

/// The path under which a deployment of one file publishes it, so that the
/// site's root serves it.
pub const SINGLE_FILE_PATH: &'static str = "index.html";

/// Path order between two characters: `/` before every other character,
/// the others by code point.
pub open spec fn path_char_lt(a: char, b: char) -> bool {
    a != b && (a == '/' || (b != '/' && a < b))
}

/// The order of relative paths by their components: a path sorts before
/// another when its components compare lower, a proper prefix first. With
/// `/` placed before every other character, comparing the texts gives it.
pub open spec fn path_lt(a: Seq<char>, b: Seq<char>) -> bool
    decreases a.len(),
{
    if a.len() == 0 {
        b.len() > 0
    } else if b.len() == 0 {
        false
    } else if a[0] != b[0] {
        path_char_lt(a[0], b[0])
    } else {
        path_lt(a.drop_first(), b.drop_first())
    }
}

pub proof fn lemma_path_asymmetric(a: Seq<char>, b: Seq<char>)
    ensures
        !(path_lt(a, b) && path_lt(b, a)),
    decreases a.len(),
{
    if a.len() > 0 && b.len() > 0 && a[0] == b[0] {
        lemma_path_asymmetric(a.drop_first(), b.drop_first());
    }
}

pub proof fn lemma_path_transitive(a: Seq<char>, b: Seq<char>, c: Seq<char>)
    requires
        path_lt(a, b),
        path_lt(b, c),
    ensures
        path_lt(a, c),
    decreases a.len(),
{
    if a.len() > 0 && b.len() > 0 && c.len() > 0 && a[0] == b[0] && b[0] == c[0] {
        lemma_path_transitive(a.drop_first(), b.drop_first(), c.drop_first());
    }
}

pub proof fn lemma_path_total(a: Seq<char>, b: Seq<char>)
    ensures
        path_lt(a, b) || path_lt(b, a) || a == b,
    decreases a.len(),
{
    if a.len() > 0 && b.len() > 0 && a[0] == b[0] {
        lemma_path_total(a.drop_first(), b.drop_first());
        if a.drop_first() == b.drop_first() {
            assert(a =~= seq![a[0]] + a.drop_first());
            assert(b =~= seq![b[0]] + b.drop_first());
        }
    } else if a.len() == 0 && b.len() == 0 {
        assert(a =~= b);
    }
}

/// Compares two relative paths in path order.
pub fn path_text_lt(a: &str, b: &str) -> (r: bool)
    ensures
        r == path_lt(a@, b@),
{
    let x = chars_of(a);
    let y = chars_of(b);
    let mut i: usize = 0;
    assert(a@.skip(0) == a@ && b@.skip(0) == b@);
    while i < x.len() && i < y.len()
        invariant
            x@ == a@,
            y@ == b@,
            i <= x.len(),
            i <= y.len(),
            path_lt(a@, b@) == path_lt(a@.skip(i as int), b@.skip(i as int)),
        decreases x.len() - i,
    {
        let ghost sa = a@.skip(i as int);
        let ghost sb = b@.skip(i as int);
        assert(sa[0] == x@[i as int]);
        assert(sb[0] == y@[i as int]);
        let c = x[i];
        let d = y[i];
        if c != d {
            return c == '/' || (d != '/' && c < d);
        }
        assert(sa.drop_first() == a@.skip(i + 1));
        assert(sb.drop_first() == b@.skip(i + 1));
        i = i + 1;
    }
    i < y.len()
}


/// What was read of one file: its path relative to the deployment root, its
/// content type, its SHA-256 in hex and its size in bytes.
#[derive(Debug, Clone)]
pub struct FileFacts {
    pub relative_path: String,
    pub content_type: String,
    pub sha256: String,
    pub size: u64,
}

/// One file of a prepared deployment, with the object key it is stored under.
#[derive(Debug, Clone)]
pub struct PreparedFile {
    pub relative_path: String,
    pub object_key: String,
    pub content_type: String,
    pub sha256: String,
    pub size: u64,
}

/// A deployment ready to sync: its slug, its files in path order, and their
/// total size.
#[derive(Debug)]
pub struct PreparedDeployment {
    pub slug: String,
    pub files: Vec<PreparedFile>,
    pub total_bytes: u64,
}

/// A prepared file as values: path, key, content type, hash, size.
pub type FileView = (Seq<char>, Seq<char>, Seq<char>, Seq<char>, u64);

pub open spec fn file_view(f: PreparedFile) -> FileView {
    (f.relative_path@, f.object_key@, f.content_type@, f.sha256@, f.size)
}

pub open spec fn file_views(fs: Seq<PreparedFile>) -> Seq<FileView> {
    fs.map_values(|f: PreparedFile| file_view(f))
}

pub open spec fn view_sizes(vs: Seq<FileView>) -> Seq<u64> {
    vs.map_values(|v: FileView| v.4)
}

/// The files come in path order; files with equal paths keep their order.
pub open spec fn sorted_by_path(vs: Seq<FileView>) -> bool {
    forall|i: int, j: int| 0 <= i < j < vs.len() ==> !path_lt(vs[j].0, vs[i].0)
}

/// The object key of a path under the slug: the slug, `/`, and the path's
/// components joined with `/`.
pub open spec fn key_of(slug: Seq<char>, rel: Seq<char>) -> Seq<char> {
    match key_parts(rel) {
        Some(parts) => slug + "/"@ + joined(parts, "/"@),
        None => Seq::empty(),
    }
}

/// Why a file is refused: a problem with its path first, then components
/// that cannot form a key; `None` when it is accepted.
pub open spec fn file_refusal(rel: Seq<char>) -> Option<Seq<char>> {
    match path_problem(rel) {
        Some(p) => Some(path_problem_message(p)),
        None => match key_parts(rel) {
            Some(_) => None,
            None => Some("Deployment contains an unsafe path"@),
        },
    }
}

/// An accepted file, keyed under the slug.
pub open spec fn file_ok(slug: Seq<char>, v: FileView) -> bool {
    file_refusal(v.0) is None && v.1 == key_of(slug, v.0)
}

pub open spec fn fact_view(slug: Seq<char>, f: FileFacts) -> FileView {
    (f.relative_path@, key_of(slug, f.relative_path@), f.content_type@, f.sha256@, f.size)
}

/// The files in reading order, each keyed under the slug, or the refusal of
/// the first file that is refused.
pub open spec fn prepared_views(slug: Seq<char>, facts: Seq<FileFacts>) -> Result<
    Seq<FileView>,
    Seq<char>,
>
    decreases facts.len(),
{
    if facts.len() == 0 {
        Ok(Seq::empty())
    } else {
        match prepared_views(slug, facts.drop_last()) {
            Err(m) => Err(m),
            Ok(vs) => match file_refusal(facts.last().relative_path@) {
                Some(m) => Err(m),
                None => Ok(vs.push(fact_view(slug, facts.last()))),
            },
        }
    }
}

/// Why a deployment of `n` files totalling `total` bytes is refused: empty,
/// then a total beyond `u64`, then too many files, then too many bytes.
pub open spec fn deployment_refusal(n: nat, total: int) -> Option<Seq<char>> {
    if n == 0 {
        Some("Cannot deploy an empty deployment"@)
    } else if total > u64::MAX {
        Some("Deployment size overflow"@)
    } else if n > MAX_DEPLOYMENT_FILES {
        Some(
            "Deployment contains too many files ("@ + decimal(n) + " > "@ + decimal(
                MAX_DEPLOYMENT_FILES as nat,
            ) + ")"@,
        )
    } else if total > MAX_DEPLOYMENT_BYTES {
        Some(
            "Deployment size exceeds limit ("@ + decimal(total as nat) + " bytes > "@ + decimal(
                MAX_DEPLOYMENT_BYTES as nat,
            ) + " bytes)"@,
        )
    } else {
        None
    }
}

/// What every prepared deployment satisfies: a valid slug, one to the
/// maximum number of files, in path order, each with a valid path keyed
/// under the slug, and a total that is the sum of the sizes and within the
/// limit.
pub open spec fn well_prepared(d: PreparedDeployment) -> bool {
    let vs = file_views(d.files@);
    &&& slug_text_valid(d.slug@)
    &&& 1 <= vs.len() <= MAX_DEPLOYMENT_FILES
    &&& sorted_by_path(vs)
    &&& forall|i: int| 0 <= i < vs.len() ==> file_ok(d.slug@, #[trigger] vs[i])
    &&& d.total_bytes == sizes_total(view_sizes(vs))
    &&& d.total_bytes <= MAX_DEPLOYMENT_BYTES
}

proof fn lemma_refusal_persists(slug: Seq<char>, facts: Seq<FileFacts>, k: int)
    requires
        0 <= k <= facts.len(),
        prepared_views(slug, facts.take(k)) is Err,
    ensures
        prepared_views(slug, facts) == prepared_views(slug, facts.take(k)),
    decreases facts.len() - k,
{
    if k < facts.len() {
        assert(facts.take(k + 1).drop_last() == facts.take(k));
        lemma_refusal_persists(slug, facts, k + 1);
    } else {
        assert(facts.take(k) == facts);
    }
}

proof fn lemma_sizes_insert(s: Seq<u64>, p: int, x: u64)
    requires
        0 <= p <= s.len(),
    ensures
        sizes_total(s.insert(p, x)) == sizes_total(s) + x,
    decreases s.len(),
{
    if p == s.len() {
        assert(s.insert(p, x).drop_last() == s);
    } else {
        assert(s.insert(p, x).drop_last() == s.drop_last().insert(p, x));
        assert(s.insert(p, x).last() == s.last());
        lemma_sizes_insert(s.drop_last(), p, x);
    }
}

/// The first position where `rel` sorts strictly before the file there.
fn insertion_point(sorted: &Vec<PreparedFile>, rel: &str) -> (p: usize)
    requires
        sorted_by_path(file_views(sorted@)),
    ensures
        p <= sorted.len(),
        forall|j: int| 0 <= j < p ==> !path_lt(rel@, #[trigger] file_views(sorted@)[j].0),
        forall|j: int| p <= j < sorted.len() ==> path_lt(rel@, #[trigger] file_views(sorted@)[j].0),
{
    let ghost fv = file_views(sorted@);
    let mut lo: usize = 0;
    let mut hi: usize = sorted.len();
    while lo < hi
        invariant
            lo <= hi <= sorted.len(),
            fv == file_views(sorted@),
            sorted_by_path(fv),
            forall|j: int| 0 <= j < lo ==> !path_lt(rel@, #[trigger] fv[j].0),
            forall|j: int| hi <= j < sorted.len() ==> path_lt(rel@, #[trigger] fv[j].0),
        decreases hi - lo,
    {
        let mid = lo + (hi - lo) / 2;
        assert(fv[mid as int].0 == sorted@[mid as int].relative_path@);
        if path_text_lt(rel, sorted[mid].relative_path.as_str()) {
            proof {
                assert forall|j: int| mid <= j < hi implies path_lt(rel@, #[trigger] fv[j].0) by {
                    if j > mid {
                        lemma_path_total(fv[mid as int].0, fv[j].0);
                        if path_lt(fv[mid as int].0, fv[j].0) {
                            lemma_path_transitive(rel@, fv[mid as int].0, fv[j].0);
                        }
                    }
                }
            }
            hi = mid;
        } else {
            proof {
                assert forall|j: int| lo <= j <= mid implies !path_lt(rel@, #[trigger] fv[j].0) by {
                    if j < mid && path_lt(rel@, fv[j].0) {
                        lemma_path_total(fv[j].0, fv[mid as int].0);
                        if path_lt(fv[j].0, fv[mid as int].0) {
                            lemma_path_transitive(rel@, fv[j].0, fv[mid as int].0);
                        }
                    }
                }
            }
            lo = mid + 1;
        }
    }
    lo
}

/// Assembles a deployment from the files read, in reading order: the slug
/// must be valid, every file's path is checked and keyed under the slug
/// (the first refused file refuses the deployment), the files are put in
/// path order, and the whole is held to the deployment limits.
pub fn assemble_deployment(slug: &str, facts: Vec<FileFacts>) -> (r: Result<
    PreparedDeployment,
    ShimesuError,
>)
    ensures
        !slug_text_valid(slug@) ==> fails_validation(r, slug_error_message(slug@)),
        slug_text_valid(slug@) ==> match prepared_views(slug@, facts@) {
            Err(m) => fails_validation(r, m),
            Ok(vs) => match deployment_refusal(vs.len(), sizes_total(view_sizes(vs))) {
                Some(m) => fails_validation(r, m),
                None => r matches Ok(d) && d.slug@ == slug@ && file_views(d.files@).to_multiset()
                    == vs.to_multiset() && d.total_bytes == sizes_total(view_sizes(vs)),
            },
        },
        r matches Ok(d) ==> well_prepared(d),
{
    match validate_slug(slug) {
        Ok(()) => {},
        Err(e) => {
            return Err(e);
        },
    }
    let mut sorted: Vec<PreparedFile> = Vec::new();
    let ghost mut vs: Seq<FileView> = Seq::empty();
    let mut i: usize = 0;
    assert(facts@.take(0) =~= Seq::<FileFacts>::empty());
    while i < facts.len()
        invariant
            i <= facts.len(),
            slug_text_valid(slug@),
            prepared_views(slug@, facts@.take(i as int)) == Ok::<Seq<FileView>, Seq<char>>(vs),
            sorted.len() == vs.len(),
            file_views(sorted@).to_multiset() == vs.to_multiset(),
            sorted_by_path(file_views(sorted@)),
            sizes_total(view_sizes(file_views(sorted@))) == sizes_total(view_sizes(vs)),
            forall|k: int| 0 <= k < sorted.len() ==> file_ok(slug@, #[trigger] file_views(sorted@)[k]),
        decreases facts.len() - i,
    {
        let f = &facts[i];
        assert(facts@.take(i + 1).drop_last() == facts@.take(i as int));
        assert(facts@.take(i + 1).last() == facts@[i as int]);
        match validate_path(f.relative_path.as_str()) {
            Ok(()) => {},
            Err(e) => {
                proof {
                    lemma_refusal_persists(slug@, facts@, i + 1);
                }
                return Err(e);
            },
        }
        let key = match object_key(slug, f.relative_path.as_str()) {
            Ok(k) => k,
            Err(e) => {
                proof {
                    lemma_refusal_persists(slug@, facts@, i + 1);
                }
                return Err(e);
            },
        };
        let file = PreparedFile {
            relative_path: f.relative_path.clone(),
            object_key: key,
            content_type: f.content_type.clone(),
            sha256: f.sha256.clone(),
            size: f.size,
        };
        let ghost v = file_view(file);
        assert(v == fact_view(slug@, facts@[i as int]));
        let p = insertion_point(&sorted, file.relative_path.as_str());
        let ghost before = file_views(sorted@);
        sorted.insert(p, file);
        proof {
            let after = file_views(sorted@);
            assert(after =~= before.insert(p as int, v));
            assert(view_sizes(after) =~= view_sizes(before).insert(p as int, v.4));
            lemma_sizes_insert(view_sizes(before), p as int, v.4);
            assert(view_sizes(vs.push(v)) =~= view_sizes(vs).push(v.4));
            assert(view_sizes(vs.push(v)).drop_last() == view_sizes(vs));
            assert forall|a: int, b: int| 0 <= a < b < after.len() implies !path_lt(
                after[b].0,
                after[a].0,
            ) by {
                if a == p {
                    lemma_path_asymmetric(v.0, after[b].0);
                }
            }
            assert forall|k: int| 0 <= k < after.len() implies file_ok(slug@, #[trigger] after[k]) by {
                if k < p {
                    assert(after[k] == before[k]);
                } else if k > p {
                    assert(after[k] == before[k - 1]);
                }
            }
            vs = vs.push(v);
        }
        i = i + 1;
    }
    assert(facts@.take(facts.len() as int) == facts@);
    let mut sizes: Vec<u64> = Vec::new();
    let mut k: usize = 0;
    while k < sorted.len()
        invariant
            k <= sorted.len(),
            sizes@ == view_sizes(file_views(sorted@)).take(k as int),
        decreases sorted.len() - k,
    {
        sizes.push(sorted[k].size);
        assert(sizes@ =~= view_sizes(file_views(sorted@)).take(k + 1));
        k = k + 1;
    }
    assert(sizes@ =~= view_sizes(file_views(sorted@)));
    match check_deployment(&sizes) {
        Ok(total) => Ok(PreparedDeployment { slug: owned(slug), files: sorted, total_bytes: total }),
        Err(e) => Err(e),
    }
}

/// A directory deployment refuses any symlink met inside it.
pub fn check_walk_entry(path: &str, is_symlink: bool) -> (r: Result<(), ShimesuError>)
    ensures
        is_symlink ==> fails_validation(r, "Deployment contains a symlink: "@ + path@),
        !is_symlink ==> r is Ok,
{
    if is_symlink {
        Err(ShimesuError::Validation(crate::text::cat("Deployment contains a symlink: ", path)))
    } else {
        Ok(())
    }
}

} // verus!
