//! Input validation: site slugs, publish paths, deployment limits and zip
//! archive safety limits.
use vstd::prelude::*;

use crate::error::{fails_validation, is_validation_err, ShimesuError};
use crate::text::{
    byte_len, cat, cat3, cat5, chars_of, decimal, is_digit, is_lower, owned, same_text, to_ascii_lowercase,
    u128_text, u64_text, usize_text, ascii_lower,
};

verus! {

pub const MAX_DEPLOYMENT_BYTES: u64 = 500 * 1024 * 1024;

pub const MAX_DEPLOYMENT_FILES: usize = 10_000;

/// Names that can never be used as a site slug.
pub open spec fn reserved_slug(s: Seq<char>) -> bool {
    ||| s == "www"@
    ||| s == "admin"@
    ||| s == "api"@
    ||| s == "mail"@
    ||| s == "_acme-challenge"@
    ||| s == "ftp"@
    ||| s == "smtp"@
    ||| s == "pop"@
    ||| s == "imap"@
    ||| s == "ns1"@
    ||| s == "ns2"@
}

fn is_reserved_slug(slug: &str) -> (r: bool)
    ensures
        r == reserved_slug(slug@),
{
    same_text(slug, "www") || same_text(slug, "admin") || same_text(slug, "api") || same_text(
        slug,
        "mail",
    ) || same_text(slug, "_acme-challenge") || same_text(slug, "ftp") || same_text(slug, "smtp")
        || same_text(slug, "pop") || same_text(slug, "imap") || same_text(slug, "ns1")
        || same_text(slug, "ns2")
}

/// A slug character: lowercase ASCII letter or digit, or `-` away from the edges.
pub open spec fn slug_char_ok(c: char, edge: bool) -> bool {
    is_lower(c) || is_digit(c) || (!edge && c == '-')
}

/// Every character fits its position. The last position is counted in bytes,
/// as the length check counts them.
pub open spec fn slug_pattern_ok(cs: Seq<char>, byte_len: int) -> bool {
    forall|i: int| 0 <= i < cs.len() ==> slug_char_ok(#[trigger] cs[i], i == 0 || i == byte_len - 1)
}

/// A slug is valid when it has 1 to 63 bytes, fits the pattern, and is not reserved.
pub open spec fn slug_is_valid(slug: &str) -> bool {
    &&& 1 <= slug.len() <= 63
    &&& slug_pattern_ok(slug@, slug.len() as int)
    &&& !reserved_slug(slug@)
}

/// The refusal of an invalid slug: the length first, then the pattern, then
/// the reserved names.
pub open spec fn slug_error_message(s: Seq<char>) -> Seq<char> {
    let n = byte_len(s);
    if n == 0 || n > 63 {
        "Slug must be 1-63 characters, got "@ + decimal(n as nat)
    } else if !slug_pattern_ok(s, n as int) {
        "Slug must be lowercase alphanumeric with hyphens (not at start/end)"@
    } else {
        "'"@ + s + "' is a reserved name"@
    }
}

/// Normalize a slug to lowercase before validation or storage.
pub fn normalize_slug(slug: &str) -> (out: String)
    ensures
        out@ == ascii_lower(slug@),
{
    to_ascii_lowercase(slug)
}

pub fn validate_slug(slug: &str) -> (r: Result<(), ShimesuError>)
    ensures
        r is Ok <==> slug_is_valid(slug),
        r is Err ==> fails_validation(r, slug_error_message(slug@)),
        (slug.len() == 0 || slug.len() > 63) ==> fails_validation(r, "Slug must be 1-63 characters, got "@ + decimal(slug.len() as nat),
        ),
        1 <= slug.len() <= 63 && !slug_pattern_ok(slug@, slug.len() as int) ==> fails_validation(r, "Slug must be lowercase alphanumeric with hyphens (not at start/end)"@,
        ),
        1 <= slug.len() <= 63 && slug_pattern_ok(slug@, slug.len() as int) && reserved_slug(slug@)
            ==> fails_validation(r, "'"@ + slug@ + "' is a reserved name"@),
{
    let byte_len = slug.len();
    if byte_len == 0 || byte_len > 63 {
        let count = usize_text(byte_len);
        assert(count@ == decimal(slug.len() as nat));
        return Err(ShimesuError::Validation(cat("Slug must be 1-63 characters, got ", count.as_str())));
    }
    let cs = chars_of(slug);
    let mut i: usize = 0;
    while i < cs.len()
        invariant
            cs@ == slug@,
            byte_len == slug.len(),
            1 <= byte_len <= 63,
            i <= cs.len(),
            forall|j: int| 0 <= j < i ==> slug_char_ok(#[trigger] cs@[j], j == 0 || j == byte_len - 1),
        decreases cs.len() - i,
    {
        let c = cs[i];
        let edge = i == 0 || i == byte_len - 1;
        let ok = ('a' <= c && c <= 'z') || ('0' <= c && c <= '9') || (!edge && c == '-');
        if !ok {
            assert(!slug_char_ok(cs@[i as int], i == 0 || i == byte_len - 1));
            return Err(
                ShimesuError::Validation(
                    owned("Slug must be lowercase alphanumeric with hyphens (not at start/end)"),
                ),
            );
        }
        i = i + 1;
    }
    if is_reserved_slug(slug) {
        return Err(ShimesuError::Validation(cat3("'", slug, "' is a reserved name")));
    }
    Ok(())
}

/// Why a publish path is refused.
#[derive(Debug, Clone, Copy, PartialEq, Eq, Structural)]
pub enum PathProblem {
    Absolute,
    Traversal,
    HiddenRoot,
    Control,
}

pub open spec fn path_problem_message(p: PathProblem) -> Seq<char> {
    match p {
        PathProblem::Absolute => "Absolute paths are not allowed"@,
        PathProblem::Traversal => "Path traversal (..) is not allowed"@,
        PathProblem::HiddenRoot => "Hidden files at the path root are not allowed"@,
        PathProblem::Control => "Control characters in paths are not allowed"@,
    }
}

/// Unicode control characters (general category Cc).
pub open spec fn is_control(c: char) -> bool {
    (c as u32) <= 0x1f || (0x7f <= (c as u32) && (c as u32) <= 0x9f)
}

pub open spec fn has_control(seg: Seq<char>) -> bool {
    exists|i: int| 0 <= i < seg.len() && is_control(#[trigger] seg[i])
}

/// Scanner state while walking a path: the first problem found, the number of
/// raw `/`-separated segments finished, the number of path components emitted
/// (current-directory marker and normal names), and the segment being read.
pub type PathScan = (Option<PathProblem>, nat, nat, Seq<char>);

pub open spec fn scan_start() -> PathScan {
    (None, 0, 0, Seq::empty())
}

/// Closes the current segment, classifying it the way `Path::components` does:
/// empty and `.` segments are skipped (a leading `.` is the current-directory
/// component), `..` is a parent-directory component, anything else is a name.
pub open spec fn finish_segment(st: PathScan) -> PathScan {
    let problem = st.0;
    let index = st.1;
    let emitted = st.2;
    let seg = st.3;
    let skipped = seg.len() == 0 || seg == seq!['.'];
    let next_problem = if problem is Some {
        problem
    } else if skipped {
        None
    } else if seg == seq!['.', '.'] {
        Some(PathProblem::Traversal)
    } else if emitted == 0 && seg[0] == '.' {
        Some(PathProblem::HiddenRoot)
    } else if has_control(seg) {
        Some(PathProblem::Control)
    } else {
        None
    };
    let next_emitted = if problem is Some || seg.len() == 0 {
        emitted
    } else if seg == seq!['.'] {
        if index == 0 {
            emitted + 1
        } else {
            emitted
        }
    } else {
        emitted + 1
    };
    (next_problem, index + 1, next_emitted, Seq::empty())
}

pub open spec fn scan_step(st: PathScan, c: char) -> PathScan {
    if c == '/' {
        finish_segment(st)
    } else {
        (st.0, st.1, st.2, st.3.push(c))
    }
}

pub open spec fn scan_prefix(s: Seq<char>) -> PathScan
    decreases s.len(),
{
    if s.len() == 0 {
        scan_start()
    } else {
        scan_step(scan_prefix(s.drop_last()), s.last())
    }
}

/// The first problem of a relative path, component by component; an absolute
/// path (leading `/`) is refused outright.
pub open spec fn path_problem(s: Seq<char>) -> Option<PathProblem> {
    if s.len() > 0 && s[0] == '/' {
        Some(PathProblem::Absolute)
    } else {
        finish_segment(scan_prefix(s)).0
    }
}

fn segment_has_control(seg: &Vec<char>) -> (r: bool)
    ensures
        r == has_control(seg@),
{
    let mut i: usize = 0;
    while i < seg.len()
        invariant
            i <= seg.len(),
            forall|j: int| 0 <= j < i ==> !is_control(#[trigger] seg@[j]),
        decreases seg.len() - i,
    {
        let code = seg[i] as u32;
        if code <= 0x1f || (0x7f <= code && code <= 0x9f) {
            assert(is_control(seg@[i as int]));
            return true;
        }
        i = i + 1;
    }
    false
}

fn close_segment(
    problem: Option<PathProblem>,
    first_segment: bool,
    none_emitted: bool,
    seg: &Vec<char>,
    Ghost(index): Ghost<nat>,
    Ghost(emitted): Ghost<nat>,
) -> (r: (Option<PathProblem>, bool))
    requires
        first_segment == (index == 0),
        none_emitted == (emitted == 0),
    ensures
        ({
            let f = finish_segment((problem, index, emitted, seg@));
            r.0 == f.0 && r.1 == (f.2 == 0) && f.1 == index + 1
        }),
{
    let skipped = seg.len() == 0 || (seg.len() == 1 && seg[0] == '.');
    let is_dot = seg.len() == 1 && seg[0] == '.';
    let is_dotdot = seg.len() == 2 && seg[0] == '.' && seg[1] == '.';
    proof {
        assert(is_dot == (seg@ == seq!['.'])) by {
            if seg@ == seq!['.'] {
                assert(seg@.len() == 1);
            }
            if is_dot {
                assert(seg@ =~= seq!['.']);
            }
        }
        assert(is_dotdot == (seg@ == seq!['.', '.'])) by {
            if seg@ == seq!['.', '.'] {
                assert(seg@.len() == 2);
            }
            if is_dotdot {
                assert(seg@ =~= seq!['.', '.']);
            }
        }
    }
    let next_problem = if problem.is_some() {
        problem
    } else if skipped {
        None
    } else if is_dotdot {
        Some(PathProblem::Traversal)
    } else if none_emitted && seg[0] == '.' {
        Some(PathProblem::HiddenRoot)
    } else if segment_has_control(seg) {
        Some(PathProblem::Control)
    } else {
        None
    };
    let next_none_emitted = if problem.is_some() || seg.len() == 0 {
        none_emitted
    } else if is_dot {
        if first_segment {
            false
        } else {
            none_emitted
        }
    } else {
        false
    };
    (next_problem, next_none_emitted)
}

/// The first problem of `path`, as [`path_problem`] defines it.
pub fn find_path_problem(path: &str) -> (r: Option<PathProblem>)
    ensures
        r == path_problem(path@),
{
    let cs = chars_of(path);
    if cs.len() > 0 && cs[0] == '/' {
        return Some(PathProblem::Absolute);
    }
    let mut problem: Option<PathProblem> = None;
    let mut first_segment = true;
    let mut none_emitted = true;
    let ghost mut index: nat = 0;
    let ghost mut emitted: nat = 0;
    let mut seg: Vec<char> = Vec::new();
    let mut i: usize = 0;
    while i < cs.len()
        invariant
            cs@ == path@,
            i <= cs.len(),
            first_segment == (index == 0),
            none_emitted == (emitted == 0),
            scan_prefix(cs@.take(i as int)) == (problem, index, emitted, seg@),
        decreases cs.len() - i,
    {
        let c = cs[i];
        assert(cs@.take(i + 1).drop_last() == cs@.take(i as int));
        if c == '/' {
            let ghost f = finish_segment((problem, index, emitted, seg@));
            let (p, n) = close_segment(
                problem,
                first_segment,
                none_emitted,
                &seg,
                Ghost(index),
                Ghost(emitted),
            );
            problem = p;
            none_emitted = n;
            first_segment = false;
            proof {
                index = f.1;
                emitted = f.2;
            }
            seg = Vec::new();
            assert(seg@ =~= Seq::<char>::empty());
        } else {
            seg.push(c);
        }
        i = i + 1;
    }
    assert(cs@.take(cs.len() as int) == cs@);
    let (p, _n) = close_segment(
        problem,
        first_segment,
        none_emitted,
        &seg,
        Ghost(index),
        Ghost(emitted),
    );
    p
}

/// Refuses absolute paths, `..` components, hidden names at the root and
/// control characters.
pub fn validate_path(path: &str) -> (r: Result<(), ShimesuError>)
    ensures
        match path_problem(path@) {
            None => r is Ok,
            Some(p) => fails_validation(r, path_problem_message(p)),
        },
{
    match find_path_problem(path) {
        None => Ok(()),
        Some(PathProblem::Absolute) => Err(
            ShimesuError::Validation(owned("Absolute paths are not allowed")),
        ),
        Some(PathProblem::Traversal) => Err(
            ShimesuError::Validation(owned("Path traversal (..) is not allowed")),
        ),
        Some(PathProblem::HiddenRoot) => Err(
            ShimesuError::Validation(owned("Hidden files at the path root are not allowed")),
        ),
        Some(PathProblem::Control) => Err(
            ShimesuError::Validation(owned("Control characters in paths are not allowed")),
        ),
    }
}

/// What the validator reads of one zip entry.
#[derive(Debug, Clone)]
pub struct ZipEntryInfo {
    pub name: String,
    pub is_symlink: bool,
    pub size: u64,
}

/// Sum of the declared sizes of the first `n` entries.
pub open spec fn declared_total(entries: Seq<ZipEntryInfo>, n: int) -> int
    decreases n,
{
    if n <= 0 {
        0
    } else {
        declared_total(entries, n - 1) + entries[n - 1].size
    }
}

pub open spec fn zip_name_is_absolute(name: Seq<char>) -> bool {
    name.len() > 0 && (name[0] == '/' || name[0] == '\\')
}

/// The entry at `i` passes the per-entry checks.
pub open spec fn zip_entry_ok(e: ZipEntryInfo) -> bool {
    !zip_name_is_absolute(e.name@) && !e.is_symlink && path_problem(e.name@) is None
}

/// Entries `0..n` pass their checks and their running total stays in the budget.
pub open spec fn zip_prefix_ok(entries: Seq<ZipEntryInfo>, n: int, max_bytes: int) -> bool {
    forall|i: int|
        0 <= i < n ==> zip_entry_ok(#[trigger] entries[i]) && declared_total(entries, i + 1)
            <= max_bytes
}

/// The message for the first failing entry `e`, whose running total is `total`.
pub open spec fn zip_entry_message(e: ZipEntryInfo, total: int, max_bytes: int) -> Seq<char> {
    if zip_name_is_absolute(e.name@) {
        "Zip entry has absolute path: "@ + e.name@
    } else if e.is_symlink {
        "Zip entry is a symlink (not allowed): "@ + e.name@
    } else if path_problem(e.name@) is Some {
        path_problem_message(path_problem(e.name@)->0)
    } else {
        "Zip uncompressed size exceeds limit ("@ + decimal(total as nat) + " bytes > "@ + decimal(
            max_bytes as nat,
        ) + " bytes)"@
    }
}

/// Checks a zip listing: no more than `max_files` entries, no absolute or
/// symlink entries, only safe relative paths, and a declared total of at most
/// `max_bytes`.
pub fn validate_zip_entries(entries: &Vec<ZipEntryInfo>, max_files: usize, max_bytes: u64) -> (r:
    Result<(), ShimesuError>)
    ensures
        entries.len() > max_files ==> fails_validation(r, "Zip contains too many files ("@ + decimal(entries.len() as nat) + " > "@ + decimal(
                max_files as nat,
            ) + ")"@,
        ),
        entries.len() <= max_files ==> (r is Ok <==> zip_prefix_ok(
            entries@,
            entries.len() as int,
            max_bytes as int,
        )),
        entries.len() <= max_files ==> forall|k: int|
            0 <= k < entries.len() && zip_prefix_ok(entries@, k, max_bytes as int) && !(zip_entry_ok(
                #[trigger] entries@[k],
            ) && declared_total(entries@, k + 1) <= max_bytes) ==> fails_validation(r, zip_entry_message(entries@[k], declared_total(entries@, k + 1), max_bytes as int),
            ),
{
    if entries.len() > max_files {
        let count = usize_text(entries.len());
        let limit = usize_text(max_files);
        return Err(
            ShimesuError::Validation(
                cat5("Zip contains too many files (", count.as_str(), " > ", limit.as_str(), ")"),
            ),
        );
    }
    let mut total: u128 = 0;
    let mut i: usize = 0;
    while i < entries.len()
        invariant
            i <= entries.len(),
            entries.len() <= max_files,
            total == declared_total(entries@, i as int),
            total <= max_bytes,
            zip_prefix_ok(entries@, i as int, max_bytes as int),
        decreases entries.len() - i,
    {
        let entry = &entries[i];
        let name = entry.name.as_str();
        let name_chars = chars_of(name);
        if name_chars.len() > 0 && (name_chars[0] == '/' || name_chars[0] == '\\') {
            return Err(ShimesuError::Validation(cat("Zip entry has absolute path: ", name)));
        }
        if entry.is_symlink {
            return Err(
                ShimesuError::Validation(cat("Zip entry is a symlink (not allowed): ", name)),
            );
        }
        validate_path(name)?;
        total = total + entry.size as u128;
        if total > max_bytes as u128 {
            let total_text = u128_text(total);
            let limit_text = u64_text(max_bytes);
            let mut message = cat3(
                "Zip uncompressed size exceeds limit (",
                total_text.as_str(),
                " bytes > ",
            );
            message.append(limit_text.as_str());
            message.append(" bytes)");
            return Err(ShimesuError::Validation(message));
        }
        i = i + 1;
    }
    Ok(())
}

/// The whole-deployment file count and byte limits.
pub fn enforce_deployment_limits(file_count: usize, total_bytes: u64) -> (r: Result<
    (),
    ShimesuError,
>)
    ensures
        file_count > MAX_DEPLOYMENT_FILES ==> fails_validation(r, "Deployment contains too many files ("@ + decimal(file_count as nat) + " > "@
                + decimal(MAX_DEPLOYMENT_FILES as nat) + ")"@,
        ),
        file_count <= MAX_DEPLOYMENT_FILES && total_bytes > MAX_DEPLOYMENT_BYTES ==> fails_validation(r, "Deployment size exceeds limit ("@ + decimal(total_bytes as nat) + " bytes > "@
                + decimal(MAX_DEPLOYMENT_BYTES as nat) + " bytes)"@,
        ),
        r is Ok <==> file_count <= MAX_DEPLOYMENT_FILES && total_bytes <= MAX_DEPLOYMENT_BYTES,
{
    if file_count > MAX_DEPLOYMENT_FILES {
        let count = usize_text(file_count);
        let limit = usize_text(MAX_DEPLOYMENT_FILES);
        return Err(
            ShimesuError::Validation(
                cat5(
                    "Deployment contains too many files (",
                    count.as_str(),
                    " > ",
                    limit.as_str(),
                    ")",
                ),
            ),
        );
    }
    if total_bytes > MAX_DEPLOYMENT_BYTES {
        let total_text = u64_text(total_bytes);
        let limit_text = u64_text(MAX_DEPLOYMENT_BYTES);
        let mut message = cat3("Deployment size exceeds limit (", total_text.as_str(), " bytes > ");
        message.append(limit_text.as_str());
        message.append(" bytes)");
        return Err(ShimesuError::Validation(message));
    }
    Ok(())
}


/// The names kept for the platform's own hosts are never accepted as slugs:
/// `www`, `admin`, `api`, `mail`, `_acme-challenge`, `ftp`, `smtp`, `pop`,
/// `imap`, `ns1` and `ns2`.
pub proof fn lemma_reserved_names_are_refused(slug: &str)
    requires
        slug@ == "www"@ || slug@ == "admin"@ || slug@ == "api"@ || slug@ == "mail"@ || slug@
            == "_acme-challenge"@ || slug@ == "ftp"@ || slug@ == "smtp"@ || slug@ == "pop"@
            || slug@ == "imap"@ || slug@ == "ns1"@ || slug@ == "ns2"@,
    ensures
        !slug_is_valid(slug),
{
}


/// A valid slug has 1 to 63 bytes, only lowercase letters, digits and
/// hyphens, and does not start with a hyphen.
pub proof fn lemma_valid_slug_shape(slug: &str)
    requires
        slug_is_valid(slug),
    ensures
        1 <= slug.len() <= 63,
        slug@.len() > 0 ==> slug@[0] != '-',
        forall|i: int| 0 <= i < slug@.len() ==> is_lower(#[trigger] slug@[i]) || is_digit(slug@[i])
            || slug@[i] == '-',
{
    if slug@.len() > 0 {
        assert(slug_char_ok(slug@[0], true));
    }
    assert forall|i: int| 0 <= i < slug@.len() implies is_lower(#[trigger] slug@[i]) || is_digit(
        slug@[i],
    ) || slug@[i] == '-' by {
        assert(slug_char_ok(slug@[i], i == 0 || i == slug.len() - 1));
    }
}

} // verus!
