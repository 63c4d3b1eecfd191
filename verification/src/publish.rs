//! `publish`: the slug of a deployment, the keys and checks of its files, and
//! the decisions of the sync against what the bucket already holds.
use vstd::prelude::*;

use crate::aws_error::opt_view;
use crate::cli::{confirmation_mode, ConfirmationMode};
use crate::error::{fails_usage, fails_validation, fails_with, ErrorKind, ShimesuError};
use crate::site::site_url;
use crate::text::{
    ascii_lower, byte_len, cat, cat3, chars_are, chars_of, decimal, join, joined, owned, same_text,
    split_chars, split_on, str_views, string_of, u64_text, char_vec_views,
};
use crate::validation::{
    enforce_deployment_limits, reserved_slug, slug_error_message, slug_pattern_ok, validate_slug,
    MAX_DEPLOYMENT_BYTES,
    MAX_DEPLOYMENT_FILES,
};

verus! {

/// What to publish: a path, and the site to publish it as when given.
#[derive(Debug, Clone, Copy)]
pub struct PublishRequest<'a> {
    pub path: &'a str,
    pub site: Option<&'a str>,
}

impl<'a> PublishRequest<'a> {
    pub fn new(path: &'a str, site: Option<&'a str>) -> (r: Self)
        ensures
            r.path == path,
            r.site == site,
    {
        PublishRequest { path, site }
    }
}

/// The report of `publish`.
#[derive(Debug, Clone)]
pub struct PublishOutput {
    pub slug: String,
    pub url: String,
    pub deployment_id: String,
    pub file_count: usize,
    pub total_bytes: u64,
    pub uploaded: usize,
    pub skipped: usize,
    pub deleted: usize,
    pub updated_at: String,
    pub invalidation_id: String,
}

/// The site URL of a published slug.
pub fn publish_url(slug: &str, base_domain: &str) -> (url: String)
    ensures
        url@ == site_url(slug@, base_domain@),
{
    let head = cat3("https://", slug, ".");
    cat(head.as_str(), base_domain)
}

/// A path component that names something: not empty, `.` or `..`.
pub open spec fn named(s: Seq<char>) -> Option<Seq<char>> {
    if s == ""@ || s == "."@ || s == ".."@ {
        None
    } else {
        Some(s)
    }
}

/// The last component of a path split at `/`, as `Path::file_name` finds
/// it: empty and `.` pieces after the first are skipped; a last component
/// that is the root, `.` or `..` names nothing.
pub open spec fn back_component(segs: Seq<Seq<char>>) -> Option<Seq<char>>
    decreases segs.len(),
{
    if segs.len() == 0 {
        None
    } else if segs.len() == 1 {
        named(segs[0])
    } else if segs.last() == ""@ || segs.last() == "."@ {
        back_component(segs.drop_last())
    } else {
        named(segs.last())
    }
}

pub open spec fn file_name(path: Seq<char>) -> Option<Seq<char>> {
    back_component(split_on(path, '/'))
}

/// Index of the last `.` in `s`.
pub open spec fn last_dot(s: Seq<char>) -> Option<int>
    decreases s.len(),
{
    if s.len() == 0 {
        None
    } else if s.last() == '.' {
        Some(s.len() - 1)
    } else {
        last_dot(s.drop_last())
    }
}

/// A file name without its extension, as `Path::file_stem` gives it: a name
/// whose only dot leads it, and `..`, are kept whole.
pub open spec fn stem_of(name: Seq<char>) -> Seq<char> {
    if name == ".."@ {
        name
    } else {
        match last_dot(name) {
            Some(i) => if i == 0 {
                name
            } else {
                name.take(i)
            },
            None => name,
        }
    }
}

pub open spec fn is_special(s: Seq<char>) -> bool {
    s == ""@ || s == "."@ || s == ".."@
}

fn named_piece(piece: &Vec<char>) -> (r: bool)
    ensures
        r == !is_special(piece@),
{
    !(chars_are(piece, "") || chars_are(piece, ".") || chars_are(piece, ".."))
}

/// The file name of a path, `None` when it ends in the root, `.` or `..`.
pub fn path_file_name(path: &str) -> (r: Option<String>)
    ensures
        opt_view_string(r) == file_name(path@),
{
    let segs = split_chars(path, '/');
    let ghost sv = split_on(path@, '/');
    let mut n: usize = segs.len();
    assert(sv.take(n as int) == sv);
    assert(sv.len() == segs@.len());
    while n > 1
        invariant
            1 <= n <= segs.len(),
            sv.len() == segs@.len(),
            sv == split_on(path@, '/'),
            char_vec_views(segs@) == sv,
            back_component(sv) == back_component(sv.take(n as int)),
        decreases n,
    {
        let piece = &segs[n - 1];
        assert(piece@ == sv[n - 1]);
        assert(sv.take(n as int).drop_last() == sv.take(n - 1));
        assert(sv.take(n as int).last() == sv[n - 1]);
        if !(chars_are(piece, "") || chars_are(piece, ".")) {
            if chars_are(piece, "..") {
                return None;
            }
            return Some(string_of(piece));
        }
        n = n - 1;
    }
    assert(segs@[0]@ == sv[0]);
    if named_piece(&segs[0]) {
        Some(string_of(&segs[0]))
    } else {
        None
    }
}

pub open spec fn opt_view_string(o: Option<String>) -> Option<Seq<char>> {
    match o {
        Some(s) => Some(s@),
        None => None,
    }
}

/// The file name without its extension.
pub fn file_stem_of(name: &str) -> (stem: String)
    ensures
        stem@ == stem_of(name@),
{
    let cs = chars_of(name);
    if chars_are(&cs, "..") {
        return owned(name);
    }
    let mut n: usize = cs.len();
    assert(cs@.take(n as int) == cs@);
    while n > 0 && cs[n - 1] != '.'
        invariant
            n <= cs.len(),
            cs@ == name@,
            last_dot(cs@) == last_dot(cs@.take(n as int)),
        decreases n,
    {
        assert(cs@.take(n as int).drop_last() == cs@.take(n - 1));
        n = n - 1;
    }
    if n <= 1 {
        proof {
            if n == 1 {
                assert(cs@.take(1).last() == cs@[0]);
            }
        }
        return owned(name);
    }
    assert(cs@.take(n as int).last() == cs@[n - 1]);
    let mut kept: Vec<char> = Vec::new();
    let mut i: usize = 0;
    while i < n - 1
        invariant
            i <= n - 1,
            n <= cs.len(),
            kept@ == cs@.take(i as int),
        decreases n - 1 - i,
    {
        kept.push(cs[i]);
        assert(cs@.take(i + 1) == cs@.take(i as int).push(cs@[i as int]));
        i = i + 1;
    }
    string_of(&kept)
}

/// A slug is valid when it has 1 to 63 bytes, fits the pattern, and is not
/// reserved.
pub open spec fn slug_text_valid(s: Seq<char>) -> bool {
    &&& 1 <= byte_len(s) <= 63
    &&& slug_pattern_ok(s, byte_len(s) as int)
    &&& !reserved_slug(s)
}

/// The name a deployment is derived from: the requested site, else the
/// directory's name, else the file's name without extension.
pub open spec fn slug_candidate(path: Seq<char>, is_dir: bool, site: Option<Seq<char>>) -> Option<
    Seq<char>,
> {
    match site {
        Some(s) => Some(s),
        None => if is_dir {
            file_name(path)
        } else {
            match file_name(path) {
                Some(n) => Some(stem_of(n)),
                None => None,
            }
        },
    }
}

/// The slug of a deployment: its candidate name, ASCII-lowercased and
/// validated as a slug.
pub fn derive_slug(path: &str, is_dir: bool, site: Option<&str>) -> (r: Result<String, ShimesuError>)
    ensures
        slug_candidate(path@, is_dir, opt_view(site)) is None ==> fails_validation(
            r,
            if is_dir {
                "Could not derive a site slug from the directory name"@
            } else {
                "Could not derive a site slug from the file name"@
            },
        ),
        slug_candidate(path@, is_dir, opt_view(site)) matches Some(c) ==> {
            &&& r is Ok <==> slug_text_valid(ascii_lower(c))
            &&& r matches Ok(s) ==> s@ == ascii_lower(c)
            &&& !slug_text_valid(ascii_lower(c)) ==> fails_validation(
                r,
                slug_error_message(ascii_lower(c)),
            )
        },
{
    let candidate: String = match site {
        Some(s) => owned(s),
        None => {
            let name = path_file_name(path);
            match name {
                None => {
                    if is_dir {
                        return Err(
                            ShimesuError::Validation(
                                owned("Could not derive a site slug from the directory name"),
                            ),
                        );
                    } else {
                        return Err(
                            ShimesuError::Validation(
                                owned("Could not derive a site slug from the file name"),
                            ),
                        );
                    }
                },
                Some(n) => if is_dir {
                    n
                } else {
                    file_stem_of(n.as_str())
                },
            }
        },
    };
    let normalized = crate::validation::normalize_slug(candidate.as_str());
    match validate_slug(normalized.as_str()) {
        Ok(()) => Ok(normalized),
        Err(e) => Err(e),
    }
}

/// The relative path's components when each one is a plain name: no root,
/// no leading `.`, no `..`; empty and `.` pieces elsewhere are skipped.
pub open spec fn key_parts(rel: Seq<char>) -> Option<Seq<Seq<char>>> {
    let segs = split_on(rel, '/');
    if segs[0] == ""@ && rel.len() > 0 {
        None
    } else if segs[0] == "."@ {
        None
    } else if exists|i: int| 0 <= i < segs.len() && segs[i] == ".."@ {
        None
    } else {
        Some(segs.filter(|s: Seq<char>| s != ""@ && s != "."@))
    }
}

pub fn relative_key_parts(relative: &str) -> (r: Option<Vec<String>>)
    ensures
        match r {
            Some(parts) => key_parts(relative@) == Some(string_views(parts@)),
            None => key_parts(relative@) is None,
        },
{
    let segs = split_chars(relative, '/');
    let ghost sv = split_on(relative@, '/');
    assert(segs@[0]@ == sv[0]);
    assert(sv.len() == segs@.len());
    let rel_len = chars_of(relative).len();
    if rel_len > 0 && chars_are(&segs[0], "") {
        return None;
    }
    if chars_are(&segs[0], ".") {
        return None;
    }
    let mut parts: Vec<String> = Vec::new();
    let mut i: usize = 0;
    while i < segs.len()
        invariant
            i <= segs.len(),
            sv.len() == segs@.len(),
            sv == split_on(relative@, '/'),
            !(sv[0] == ""@ && relative@.len() > 0),
            sv[0] != "."@,
            char_vec_views(segs@) == sv,
            forall|j: int| 0 <= j < i ==> sv[j] != ".."@,
            string_views(parts@) == sv.take(i as int).filter(
                |s: Seq<char>| s != ""@ && s != "."@,
            ),
        decreases segs.len() - i,
    {
        let piece = &segs[i];
        assert(piece@ == sv[i as int]);
        if chars_are(piece, "..") {
            return None;
        }
        let ghost before = sv.take(i as int);
        assert(sv.take(i + 1).drop_last() == before);
        reveal(Seq::filter);
        if !(chars_are(piece, "") || chars_are(piece, ".")) {
            parts.push(string_of(piece));
            assert(string_views(parts@) =~= sv.take(i + 1).filter(
                |s: Seq<char>| s != ""@ && s != "."@,
            ));
        } else {
            assert(sv.take(i + 1).filter(|s: Seq<char>| s != ""@ && s != "."@) =~= before.filter(
                |s: Seq<char>| s != ""@ && s != "."@,
            ));
        }
        i = i + 1;
    }
    assert(sv.take(segs.len() as int) == sv);
    Some(parts)
}

/// The object key of a file: the slug, `/`, and the file's path components
/// joined with `/`.
pub fn object_key(slug: &str, relative: &str) -> (r: Result<String, ShimesuError>)
    ensures
        match key_parts(relative@) {
            Some(parts) => r matches Ok(k) && k@ == slug@ + "/"@ + joined(parts, "/"@),
            None => fails_validation(r, "Deployment contains an unsafe path"@),
        },
{
    match relative_key_parts(relative) {
        None => Err(ShimesuError::Validation(owned("Deployment contains an unsafe path"))),
        Some(parts) => {
            let mut refs: Vec<&str> = Vec::new();
            let mut i: usize = 0;
            while i < parts.len()
                invariant
                    i <= parts.len(),
                    refs@.len() == i,
                    str_views(refs@) == string_views(parts@.take(i as int)),
                decreases parts.len() - i,
            {
                let piece: &str = parts[i].as_str();
                assert(piece@ == parts@[i as int]@);
                let ghost before = refs@;
                refs.push(piece);
                assert(refs@ == before.push(piece));
                assert(str_views(refs@).len() == i + 1);
                assert forall|j: int| 0 <= j < i + 1 implies str_views(refs@)[j] == string_views(
                    parts@.take(i + 1),
                )[j] by {
                    if j < i {
                        assert(str_views(before)[j] == string_views(parts@.take(i as int))[j]);
                    }
                }
                assert(str_views(refs@) =~= string_views(parts@.take(i + 1)));
                i = i + 1;
            }
            assert(parts@.take(parts.len() as int) == parts@);
            let key = join(&refs, "/");
            Ok(cat3(slug, "/", key.as_str()))
        },
    }
}

/// The checks on a whole deployment: some file, a byte total that fits in
/// `u64`, and the file and byte limits. Gives the byte total.
pub open spec fn sizes_total(sizes: Seq<u64>) -> int
    decreases sizes.len(),
{
    if sizes.len() == 0 {
        0
    } else {
        sizes_total(sizes.drop_last()) + sizes.last()
    }
}

pub proof fn lemma_total_monotone(sizes: Seq<u64>, i: int)
    requires
        0 <= i <= sizes.len(),
    ensures
        sizes_total(sizes.take(i)) <= sizes_total(sizes),
    decreases sizes.len() - i,
{
    if i < sizes.len() {
        lemma_total_monotone(sizes, i + 1);
        assert(sizes.take(i + 1).drop_last() == sizes.take(i));
    } else {
        assert(sizes.take(i) == sizes);
    }
}

pub fn check_deployment(sizes: &Vec<u64>) -> (r: Result<u64, ShimesuError>)
    ensures
        sizes@.len() == 0 ==> fails_validation(r, "Cannot deploy an empty deployment"@),
        sizes@.len() > 0 && sizes_total(sizes@) > u64::MAX ==> fails_validation(
            r,
            "Deployment size overflow"@,
        ),
        sizes@.len() > 0 && sizes_total(sizes@) <= u64::MAX ==> {
            let total = sizes_total(sizes@);
            &&& r is Ok <==> (sizes@.len() <= MAX_DEPLOYMENT_FILES && total <= MAX_DEPLOYMENT_BYTES)
            &&& r matches Ok(t) ==> t == total
            &&& sizes@.len() > MAX_DEPLOYMENT_FILES ==> fails_validation(
                r,
                "Deployment contains too many files ("@ + decimal(sizes@.len()) + " > "@ + decimal(
                    MAX_DEPLOYMENT_FILES as nat,
                ) + ")"@,
            )
            &&& sizes@.len() <= MAX_DEPLOYMENT_FILES && total > MAX_DEPLOYMENT_BYTES
                ==> fails_validation(
                r,
                "Deployment size exceeds limit ("@ + decimal(total as nat) + " bytes > "@ + decimal(
                    MAX_DEPLOYMENT_BYTES as nat,
                ) + " bytes)"@,
            )
        },
{
    if sizes.len() == 0 {
        return Err(ShimesuError::Validation(owned("Cannot deploy an empty deployment")));
    }
    let mut total: u64 = 0;
    let mut i: usize = 0;
    while i < sizes.len()
        invariant
            i <= sizes.len(),
            total == sizes_total(sizes@.take(i as int)),
        decreases sizes.len() - i,
    {
        assert(sizes@.take(i + 1).drop_last() == sizes@.take(i as int));
        match total.checked_add(sizes[i]) {
            Some(t) => total = t,
            None => {
                proof {
                    lemma_total_monotone(sizes@, i + 1);
                }
                return Err(ShimesuError::Validation(owned("Deployment size overflow")));
            },
        }
        i = i + 1;
    }
    assert(sizes@.take(sizes.len() as int) == sizes@);
    enforce_deployment_limits(sizes.len(), total)?;
    Ok(total)
}

/// How many more bytes the next zip entry may yield: what is left of the
/// limit, and one more so that an overrun is seen.
pub fn extraction_budget(max_bytes: u64, extracted_total: u64) -> (budget: u64)
    ensures
        budget == if extracted_total >= max_bytes {
            1
        } else if max_bytes - extracted_total == u64::MAX {
            u64::MAX as int
        } else {
            max_bytes - extracted_total + 1
        },
{
    max_bytes.saturating_sub(extracted_total).saturating_add(1)
}

/// The running total after an entry yielded `copied` bytes, refused once it
/// passes the limit.
pub fn after_extraction(extracted_total: u64, copied: u64, max_bytes: u64) -> (r: Result<
    u64,
    ShimesuError,
>)
    ensures
        ({
            let total = if extracted_total + copied > u64::MAX {
                u64::MAX as int
            } else {
                extracted_total + copied
            };
            &&& total <= max_bytes ==> r == Ok::<u64, ShimesuError>(total as u64)
            &&& total > max_bytes ==> fails_validation(
                r,
                "Zip decompressed size exceeds limit ("@ + decimal(total as nat) + " bytes > "@
                    + decimal(max_bytes as nat) + " bytes)"@,
            )
        }),
{
    let total = extracted_total.saturating_add(copied);
    if total > max_bytes {
        let t = u64_text(total);
        let m = u64_text(max_bytes);
        let head = cat3("Zip decompressed size exceeds limit (", t.as_str(), " bytes > ");
        return Err(ShimesuError::Validation(cat3(head.as_str(), m.as_str(), " bytes)")));
    }
    Ok(total)
}

/// An upload is skipped only when the stored hash equals the file's.
pub fn should_skip_upload(existing_sha256: Option<&str>, desired_sha256: &str) -> (r: bool)
    ensures
        r == (opt_view(existing_sha256) == Some(desired_sha256@)),
{
    match existing_sha256 {
        Some(existing) => same_text(existing, desired_sha256),
        None => false,
    }
}

pub open spec fn string_views(v: Seq<String>) -> Seq<Seq<char>> {
    v.map_values(|s: String| s@)
}

/// The existing keys, in order, that are neither the marker nor desired.
pub open spec fn stale_view(existing: Seq<Seq<char>>, desired: Seq<Seq<char>>, marker: Seq<char>) -> Seq<
    Seq<char>,
> {
    existing.filter(stale_pred(desired, marker))
}

/// A key is stale when it is not the marker and not in the deployment.
pub open spec fn stale_pred(desired: Seq<Seq<char>>, marker: Seq<char>) -> spec_fn(Seq<char>) -> bool {
    |k: Seq<char>| k != marker && !desired.contains(k)
}

fn contains_key(keys: &Vec<String>, key: &str) -> (r: bool)
    ensures
        r == string_views(keys@).contains(key@),
{
    let mut i: usize = 0;
    while i < keys.len()
        invariant
            i <= keys.len(),
            forall|j: int| 0 <= j < i ==> keys@[j]@ != key@,
        decreases keys.len() - i,
    {
        if same_text(keys[i].as_str(), key) {
            assert(string_views(keys@)[i as int] == key@);
            return true;
        }
        i = i + 1;
    }
    proof {
        if string_views(keys@).contains(key@) {
            let j = choose|j: int| 0 <= j < string_views(keys@).len() && string_views(keys@)[j] == key@;
            assert(keys@[j]@ == key@);
        }
    }
    false
}

pub fn stale_keys(existing_keys: &Vec<String>, desired_keys: &Vec<String>, marker: &str) -> (stale:
    Vec<String>)
    ensures
        string_views(stale@) == stale_view(string_views(existing_keys@), string_views(desired_keys@), marker@),
{
    let ghost ev = string_views(existing_keys@);
    let ghost dv = string_views(desired_keys@);
    let mut stale: Vec<String> = Vec::new();
    let mut i: usize = 0;
    while i < existing_keys.len()
        invariant
            i <= existing_keys.len(),
            ev == string_views(existing_keys@),
            dv == string_views(desired_keys@),
            string_views(stale@) == ev.take(i as int).filter(stale_pred(dv, marker@)),
        decreases existing_keys.len() - i,
    {
        let key = &existing_keys[i];
        assert(ev.take(i + 1).drop_last() == ev.take(i as int));
        assert(ev.take(i + 1).last() == key@);
        reveal(Seq::filter);
        if !same_text(key.as_str(), marker) && !contains_key(desired_keys, key.as_str()) {
            stale.push(key.clone());
            assert(string_views(stale@) =~= ev.take(i + 1).filter(stale_pred(dv, marker@)));
        } else {
            assert(ev.take(i + 1).filter(stale_pred(dv, marker@)) =~= ev.take(i as int).filter(
                stale_pred(dv, marker@),
            ));
        }
        i = i + 1;
    }
    assert(ev.take(existing_keys.len() as int) == ev);
    stale
}

/// Whether the marker object still has to be written.
pub fn needs_marker(existing_keys: &Vec<String>, marker: &str) -> (r: bool)
    ensures
        r == !string_views(existing_keys@).contains(marker@),
{
    !contains_key(existing_keys, marker)
}

/// The counts of a sync.
#[derive(Debug, Clone, Copy, PartialEq, Eq)]
pub struct SyncSummary {
    pub uploaded: usize,
    pub skipped: usize,
    pub deleted: usize,
}

pub open spec fn uploads_in(outcomes: Seq<bool>) -> nat
    decreases outcomes.len(),
{
    if outcomes.len() == 0 {
        0
    } else {
        uploads_in(outcomes.drop_last()) + if outcomes.last() {
            1nat
        } else {
            0nat
        }
    }
}

impl SyncSummary {
    /// The counts from each file's outcome (`true` when uploaded) and the
    /// number of stale keys removed.
    pub fn from_outcomes(uploaded: &Vec<bool>, deleted: usize) -> (s: Self)
        ensures
            s.uploaded == uploads_in(uploaded@),
            s.skipped == uploaded@.len() - uploads_in(uploaded@),
            s.deleted == deleted,
    {
        let mut n: usize = 0;
        let mut i: usize = 0;
        while i < uploaded.len()
            invariant
                i <= uploaded.len(),
                n == uploads_in(uploaded@.take(i as int)),
                n <= i,
            decreases uploaded.len() - i,
        {
            assert(uploaded@.take(i + 1).drop_last() == uploaded@.take(i as int));
            if uploaded[i] {
                n = n + 1;
            }
            i = i + 1;
        }
        assert(uploaded@.take(uploaded.len() as int) == uploaded@);
        SyncSummary { uploaded: n, skipped: uploaded.len() - n, deleted }
    }
}

/// The prefix under which all of a site's files live.
pub fn site_prefix(slug: &str) -> (prefix: String)
    ensures
        prefix@ == slug@ + "/"@,
{
    crate::support::marker_key(slug)
}

/// The CloudFront path that invalidates a whole site.
pub fn invalidation_path(slug: &str) -> (path: String)
    ensures
        path@ == "/"@ + slug@ + "/*"@,
{
    cat3("/", slug, "/*")
}

/// The report of `site delete`.
#[derive(Debug, Clone)]
pub struct SiteDeleteOutput {
    pub slug: String,
    pub deleted_metadata: bool,
    pub deleted_files: bool,
    pub deleted_file_count: usize,
    pub kept_files: bool,
    pub invalidation_id: Option<String>,
}

impl SiteDeleteOutput {
    /// The report after the metadata was deleted, and the files too unless
    /// they were kept.
    pub fn new(slug: String, keep_files: bool, deleted_file_count: usize, invalidation_id: Option<String>) -> (o: Self)
        ensures
            o.slug == slug,
            o.deleted_metadata,
            o.deleted_files == !keep_files,
            o.kept_files == keep_files,
            o.deleted_file_count == deleted_file_count,
            o.invalidation_id == invalidation_id,
    {
        SiteDeleteOutput {
            slug,
            deleted_metadata: true,
            deleted_files: !keep_files,
            deleted_file_count,
            kept_files: keep_files,
            invalidation_id,
        }
    }

    pub fn success_message(&self) -> (m: String)
        ensures
            m@ == (if self.kept_files {
                "Deleted site '"@ + self.slug@ + "' metadata only"@
            } else {
                "Deleted site '"@ + self.slug@ + "' and "@ + decimal(self.deleted_file_count as nat)
                    + " S3 object(s)"@
            }),
    {
        if self.kept_files {
            cat3("Deleted site '", self.slug.as_str(), "' metadata only")
        } else {
            let count = crate::text::usize_text(self.deleted_file_count);
            let head = cat3("Deleted site '", self.slug.as_str(), "' and ");
            cat3(head.as_str(), count.as_str(), " S3 object(s)")
        }
    }
}

/// The question asked before deleting a site.
pub fn delete_prompt(slug: &str, keep_files: bool) -> (q: String)
    ensures
        q@ == "Delete site '"@ + slug@ + (if keep_files {
            "' (metadata only, S3 files kept)?"@
        } else {
            "' and all files under its S3 prefix?"@
        }),
{
    if keep_files {
        cat3("Delete site '", slug, "' (metadata only, S3 files kept)?")
    } else {
        cat3("Delete site '", slug, "' and all files under its S3 prefix?")
    }
}

/// The extension of a file name, as `Path::extension` gives it: what
/// follows the last dot, unless that dot leads the name.
pub open spec fn extension_of(name: Seq<char>) -> Option<Seq<char>> {
    if name == ".."@ {
        None
    } else {
        match last_dot(name) {
            Some(i) => if i == 0 {
                None
            } else {
                Some(name.skip(i + 1))
            },
            None => None,
        }
    }
}

/// How the files of a deployment are gathered.
#[derive(Debug, Clone, Copy, PartialEq, Eq, Structural)]
pub enum DeploymentKind {
    Directory,
    Zip,
    SingleFile,
}

pub open spec fn is_zip_path(path: Seq<char>) -> bool {
    file_name(path) matches Some(n) && extension_of(n) == Some("zip"@)
}

fn file_extension_is_zip(path: &str) -> (r: bool)
    ensures
        r == is_zip_path(path@),
{
    match path_file_name(path) {
        None => false,
        Some(name) => {
            let cs = chars_of(name.as_str());
            if chars_are(&cs, "..") {
                return false;
            }
            let mut n: usize = cs.len();
            assert(cs@.take(n as int) == cs@);
            while n > 0 && cs[n - 1] != '.'
                invariant
                    n <= cs.len(),
                    cs@ == name@,
                    last_dot(cs@) == last_dot(cs@.take(n as int)),
                decreases n,
            {
                assert(cs@.take(n as int).drop_last() == cs@.take(n - 1));
                n = n - 1;
            }
            if n <= 1 {
                proof {
                    if n == 1 {
                        assert(cs@.take(1).last() == cs@[0]);
                    }
                }
                return false;
            }
            assert(cs@.take(n as int).last() == cs@[n - 1]);
            let zip = chars_of("zip");
            proof {
                reveal_strlit("zip");
            }
            if cs.len() - n != 3 {
                assert(cs@.skip(n as int).len() != "zip"@.len());
                return false;
            }
            let same = cs[n] == zip[0] && cs[n + 1] == zip[1] && cs[n + 2] == zip[2];
            if same {
                assert(cs@.skip(n as int) =~= "zip"@);
            } else {
                assert(cs@.skip(n as int) != "zip"@) by {
                    if cs@.skip(n as int) == "zip"@ {
                        assert(cs@.skip(n as int)[0] == cs@[n as int]);
                        assert(cs@.skip(n as int)[1] == cs@[n + 1]);
                        assert(cs@.skip(n as int)[2] == cs@[n + 2]);
                    }
                }
            }
            same
        },
    }
}

/// What a deployment path holds decides how it is published: a symlink is
/// refused, a directory is walked, a file whose extension is `zip` is
/// unpacked, any other file becomes the site's `index.html`.
pub fn deployment_kind(path: &str, is_symlink: bool, is_dir: bool, is_file: bool) -> (r: Result<
    DeploymentKind,
    ShimesuError,
>)
    ensures
        is_symlink ==> fails_validation(r, "Deployment path cannot be a symlink"@),
        !is_symlink && is_dir ==> r == Ok::<DeploymentKind, ShimesuError>(DeploymentKind::Directory),
        !is_symlink && !is_dir && is_file && is_zip_path(path@) ==> r == Ok::<
            DeploymentKind,
            ShimesuError,
        >(DeploymentKind::Zip),
        !is_symlink && !is_dir && is_file && !is_zip_path(path@) ==> r == Ok::<
            DeploymentKind,
            ShimesuError,
        >(DeploymentKind::SingleFile),
        !is_symlink && !is_dir && !is_file ==> fails_validation(
            r,
            "Deployment path '"@ + path@ + "' is not a file or directory"@,
        ),
{
    if is_symlink {
        return Err(ShimesuError::Validation(owned("Deployment path cannot be a symlink")));
    }
    if is_dir {
        Ok(DeploymentKind::Directory)
    } else if is_file && file_extension_is_zip(path) {
        Ok(DeploymentKind::Zip)
    } else if is_file {
        Ok(DeploymentKind::SingleFile)
    } else {
        Err(ShimesuError::Validation(cat3("Deployment path '", path, "' is not a file or directory")))
    }
}

/// The line shown while a deployment is prepared.
pub fn preparing_message(file_count: usize, slug: &str) -> (m: String)
    ensures
        m@ == "Preparing "@ + decimal(file_count as nat) + " file(s) for site '"@ + slug@ + "'..."@,
{
    let count = crate::text::usize_text(file_count);
    let head = cat3("Preparing ", count.as_str(), " file(s) for site '");
    cat3(head.as_str(), slug, "'...")
}

/// Before replacing a published site: skip the question with `--yes`, ask
/// when prompts are possible, and refuse otherwise.
pub fn replace_confirmation(yes: bool, allows_prompts: bool, slug: &str) -> (r: Result<
    (ConfirmationMode, String),
    ShimesuError,
>)
    ensures
        yes ==> (r matches Ok((m, _)) && m == ConfirmationMode::Skip),
        !yes && allows_prompts ==> (r matches Ok((m, q)) && m == ConfirmationMode::Prompt && q@
            == "Replace the current contents of site '"@ + slug@ + "'?"@),
        !yes && !allows_prompts ==> fails_usage(
            r,
            "Cannot prompt before replacing an existing site in JSON or non-interactive mode. Use --yes to continue."@,
        ),
{
    let mode = confirmation_mode(
        yes,
        allows_prompts,
        "Cannot prompt before replacing an existing site in JSON or non-interactive mode. Use --yes to continue.",
    )?;
    Ok((mode, cat3("Replace the current contents of site '", slug, "'?")))
}

impl PublishOutput {
    /// The report of a finished publish.
    pub fn new(
        slug: String,
        url: String,
        deployment_id: String,
        file_count: usize,
        total_bytes: u64,
        sync: SyncSummary,
        updated_at: String,
        invalidation_id: String,
    ) -> (o: Self)
        ensures
            o.slug == slug,
            o.url == url,
            o.deployment_id == deployment_id,
            o.file_count == file_count,
            o.total_bytes == total_bytes,
            o.uploaded == sync.uploaded,
            o.skipped == sync.skipped,
            o.deleted == sync.deleted,
            o.updated_at == updated_at,
            o.invalidation_id == invalidation_id,
    {
        PublishOutput {
            slug,
            url,
            deployment_id,
            file_count,
            total_bytes,
            uploaded: sync.uploaded,
            skipped: sync.skipped,
            deleted: sync.deleted,
            updated_at,
            invalidation_id,
        }
    }

    /// The key-value rows of the human report, in display order.
    pub fn human_rows(&self) -> (rows: Vec<(&'static str, String)>)
        ensures
            rows@.len() == 6,
            rows@[0].0@ == "URL"@ && rows@[0].1@ == self.url@,
            rows@[1].0@ == "Deployment"@ && rows@[1].1@ == self.deployment_id@,
            rows@[2].0@ == "Files"@ && rows@[2].1@ == decimal(self.file_count as nat),
            rows@[3].0@ == "Uploaded"@ && rows@[3].1@ == decimal(self.uploaded as nat),
            rows@[4].0@ == "Skipped"@ && rows@[4].1@ == decimal(self.skipped as nat),
            rows@[5].0@ == "Deleted"@ && rows@[5].1@ == decimal(self.deleted as nat),
    {
        let mut rows = Vec::new();
        rows.push(("URL", self.url.clone()));
        rows.push(("Deployment", self.deployment_id.clone()));
        rows.push(("Files", crate::text::usize_text(self.file_count)));
        rows.push(("Uploaded", crate::text::usize_text(self.uploaded)));
        rows.push(("Skipped", crate::text::usize_text(self.skipped)));
        rows.push(("Deleted", crate::text::usize_text(self.deleted)));
        rows
    }

    pub fn success_message(&self) -> (m: String)
        ensures
            m@ == "Published site '"@ + self.slug@ + "'"@,
    {
        cat3("Published site '", self.slug.as_str(), "'")
    }
}

/// What `site delete` will do, decided before any call: the normalized
/// slug, how to confirm, and the question to ask.
#[derive(Debug, Clone)]
pub struct SiteDeletePlan {
    pub slug: String,
    pub confirmation: ConfirmationMode,
    pub prompt: String,
    /// Whether the files go too, and with them the cached copies: without
    /// `--keep-files` only.
    pub delete_files: bool,
}

/// Plans `site delete`: the slug is normalized and must be valid; then the
/// deletion is confirmed by `--yes`, by a prompt, or refused when no prompt
/// is possible.
pub fn plan_site_delete(slug: &str, yes: bool, allows_prompts: bool, keep_files: bool) -> (r: Result<
    SiteDeletePlan,
    ShimesuError,
>)
    ensures
        !slug_text_valid(ascii_lower(slug@)) ==> fails_validation(
            r,
            slug_error_message(ascii_lower(slug@)),
        ),
        slug_text_valid(ascii_lower(slug@)) && !yes && !allows_prompts ==> fails_usage(
            r,
            "Cannot prompt for confirmation in JSON or non-interactive mode. Use --yes to skip prompts."@,
        ),
        r matches Ok(p) ==> {
            &&& slug_text_valid(ascii_lower(slug@))
            &&& p.slug@ == ascii_lower(slug@)
            &&& p.delete_files == !keep_files
            &&& p.confirmation == (if yes {
                ConfirmationMode::Skip
            } else {
                ConfirmationMode::Prompt
            })
            &&& p.prompt@ == "Delete site '"@ + p.slug@ + (if keep_files {
                "' (metadata only, S3 files kept)?"@
            } else {
                "' and all files under its S3 prefix?"@
            })
        },
        slug_text_valid(ascii_lower(slug@)) && (yes || allows_prompts) ==> r is Ok,
{
    let normalized = crate::validation::normalize_slug(slug);
    validate_slug(normalized.as_str())?;
    let confirmation = confirmation_mode(
        yes,
        allows_prompts,
        "Cannot prompt for confirmation in JSON or non-interactive mode. Use --yes to skip prompts.",
    )?;
    let prompt = delete_prompt(normalized.as_str(), keep_files);
    Ok(SiteDeletePlan { slug: normalized, confirmation, prompt, delete_files: !keep_files })
}

/// One step of deleting a site.
#[derive(Debug, Clone, Copy, PartialEq, Eq, Structural)]
pub enum SiteDeleteStep {
    /// Delete every object under the site's prefix.
    DeleteFiles,
    /// Delete the site's record.
    DeleteRecord,
    /// Invalidate the site's cached copies.
    Invalidate,
}

/// The order of a site deletion: the files first, then the record, then the
/// cached copies; with the files kept, the record alone.
pub fn site_delete_steps(delete_files: bool) -> (steps: Vec<SiteDeleteStep>)
    ensures
        delete_files ==> steps@ == seq![
            SiteDeleteStep::DeleteFiles,
            SiteDeleteStep::DeleteRecord,
            SiteDeleteStep::Invalidate,
        ],
        !delete_files ==> steps@ == seq![SiteDeleteStep::DeleteRecord],
{
    let mut steps = Vec::new();
    if delete_files {
        steps.push(SiteDeleteStep::DeleteFiles);
    }
    steps.push(SiteDeleteStep::DeleteRecord);
    if delete_files {
        steps.push(SiteDeleteStep::Invalidate);
    }
    steps
}

/// The warning shown before files are deleted.
pub const DELETE_ORDER_WARNING: &'static str = "Delete order: S3 objects under the site prefix are removed first, then metadata. If the metadata delete fails, partial cleanup may require manual repair.";

/// The message for a delete batch that S3 refused in part: the first
/// failure's code, key and message.
pub fn delete_batch_failure(code: Option<&str>, key: Option<&str>, message: Option<&str>) -> (e:
    ShimesuError)
    ensures
        e@ == (
            ErrorKind::Generic,
            "Failed to delete site files: "@ + or_text(opt_view(code), "Unknown"@) + " deleting '"@
                + or_text(opt_view(key), "unknown"@) + "': "@ + or_text(
                opt_view(message),
                "unknown delete failure"@,
            ),
        ),
{
    let c = match code {
        Some(c) => c,
        None => "Unknown",
    };
    let k = match key {
        Some(k) => k,
        None => "unknown",
    };
    let m = match message {
        Some(m) => m,
        None => "unknown delete failure",
    };
    let head = cat3("Failed to delete site files: ", c, " deleting '");
    let mid = cat3(head.as_str(), k, "': ");
    ShimesuError::Generic(cat(mid.as_str(), m))
}

pub open spec fn or_text(o: Option<Seq<char>>, default: Seq<char>) -> Seq<char> {
    match o {
        Some(s) => s,
        None => default,
    }
}

/// Pruning touches only what the listing found: every stale key is an
/// existing key that is neither the site's marker nor a key of the new
/// deployment, and every such existing key is stale.
pub proof fn lemma_stale_keys_spare_marker_and_deployment(
    existing: Seq<Seq<char>>,
    desired: Seq<Seq<char>>,
    marker: Seq<char>,
)
    ensures
        forall|k: Seq<char>|
            stale_view(existing, desired, marker).contains(k) <==> (existing.contains(k) && k != marker
                && !desired.contains(k)),
{
    let f = stale_pred(desired, marker);
    assert forall|k: Seq<char>|
        stale_view(existing, desired, marker).contains(k) <==> (existing.contains(k) && k != marker
            && !desired.contains(k)) by {
        if existing.filter(f).contains(k) {
            existing.lemma_filter_contains_rev(f, k);
            let j = choose|j: int| 0 <= j < existing.filter(f).len() && existing.filter(f)[j] == k;
            existing.lemma_filter_pred(f, j);
        }
        if existing.contains(k) && f(k) {
            let i = choose|i: int| 0 <= i < existing.len() && existing[i] == k;
            existing.lemma_filter_contains(f, i);
        }
    }
}

/// A slug never holds `/`.
pub proof fn lemma_valid_slug_has_no_slash(s: Seq<char>, i: int)
    requires
        slug_text_valid(s),
        0 <= i < s.len(),
    ensures
        s[i] != '/',
{
    assert(crate::validation::slug_char_ok(s[i], i == 0 || i == byte_len(s) - 1));
}

/// Site prefixes are disjoint: no key lies under the prefixes of two
/// different valid slugs, so deleting one site's prefix never touches
/// another site's files.
pub proof fn lemma_site_prefixes_are_disjoint(a: Seq<char>, b: Seq<char>, key: Seq<char>)
    requires
        slug_text_valid(a),
        slug_text_valid(b),
        a != b,
    ensures
        !(crate::text::seq_starts_with(key, a + "/"@) && crate::text::seq_starts_with(
            key,
            b + "/"@,
        )),
{
    reveal_strlit("/");
    if crate::text::seq_starts_with(key, a + "/"@) && crate::text::seq_starts_with(key, b + "/"@) {
        let pa = a + "/"@;
        let pb = b + "/"@;
        if a.len() < b.len() {
            assert(key[a.len() as int] == pa[a.len() as int]);
            assert(key[a.len() as int] == pb[a.len() as int]);
            lemma_valid_slug_has_no_slash(b, a.len() as int);
        } else if b.len() < a.len() {
            assert(key[b.len() as int] == pb[b.len() as int]);
            assert(key[b.len() as int] == pa[b.len() as int]);
            lemma_valid_slug_has_no_slash(a, b.len() as int);
        } else {
            assert forall|i: int| 0 <= i < a.len() implies a[i] == b[i] by {
                assert(key[i] == pa[i]);
                assert(key[i] == pb[i]);
            }
            assert(a =~= b);
        }
    }
}

} // verus!
