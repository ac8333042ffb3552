//! Path handling for output files: parent directories, file names and the
//! search for a free file name.

use vstd::prelude::*;

use crate::error::CaptureError;
use crate::text::push_decimal;
use crate::text::{decimal, digit_char};
use crate::parse::{all_digits, digits_value};

verus! {

/// The parent that `std::path::Path::parent` gives for a path, as text.
pub uninterp spec fn path_parent_of(path: Seq<char>) -> Option<Seq<char>>;

/// The stem that `std::path::Path::file_stem` gives for a path, as text.
pub uninterp spec fn path_file_stem_of(path: Seq<char>) -> Option<Seq<char>>;

/// The extension that `std::path::Path::extension` gives for a path, as text.
pub uninterp spec fn path_extension_of(path: Seq<char>) -> Option<Seq<char>>;

/// The path that `std::path::Path::join` gives for a base and a relative part.
pub uninterp spec fn path_join_of(base: Seq<char>, part: Seq<char>) -> Seq<char>;

/// The text that `Debug` formatting of a `std::path::Path` produces.
pub uninterp spec fn path_debug_of(path: Seq<char>) -> Seq<char>;

/// Calls `std::path::Path::parent`. Trusted: the result is the parent path
/// as text, or `None` for a root or empty path; which string that is depends
/// on `path` alone and is not spelled out here.
#[verifier::external_body]
fn path_parent(path: &str) -> (r: Option<String>)
    ensures
        match r {
            Some(p) => path_parent_of(path@) == Some(p@),
            None => path_parent_of(path@) is None,
        },
{
    std::path::Path::new(path).parent().map(|p| p.to_string_lossy().into_owned())
}

/// Calls `std::path::Path::file_stem`. Trusted: the result is the file name
/// without its last extension, or `None` when the path has no file name.
#[verifier::external_body]
fn path_file_stem(path: &str) -> (r: Option<String>)
    ensures
        match r {
            Some(p) => path_file_stem_of(path@) == Some(p@),
            None => path_file_stem_of(path@) is None,
        },
{
    std::path::Path::new(path).file_stem().and_then(|s| s.to_str()).map(|s| s.to_string())
}

/// Calls `std::path::Path::extension`. Trusted: the result is the text after
/// the last dot of the file name, or `None` when there is none.
#[verifier::external_body]
fn path_extension(path: &str) -> (r: Option<String>)
    ensures
        match r {
            Some(p) => path_extension_of(path@) == Some(p@),
            None => path_extension_of(path@) is None,
        },
{
    std::path::Path::new(path).extension().and_then(|s| s.to_str()).map(|s| s.to_string())
}

/// Calls `std::path::Path::join`. Trusted: the result is `base` extended by
/// `part`; its exact text depends on the two arguments alone.
#[verifier::external_body]
pub(crate) fn path_join(base: &str, part: &str) -> (r: String)
    ensures
        r@ == path_join_of(base@, part@),
{
    std::path::Path::new(base).join(part).to_string_lossy().into_owned()
}

/// Formats a path with `Debug` formatting (`format!("{:?}", path)`).
/// Trusted: the result is the quoted, escaped rendering of `path`, which
/// depends on `path` alone.
#[verifier::external_body]
pub(crate) fn path_debug(path: &str) -> (r: String)
    ensures
        r@ == path_debug_of(path@),
{
    format!("{:?}", std::path::Path::new(path))
}

/// The directory that holds `path`: its parent, or `.` when the parent is
/// empty or missing.
pub open spec fn parent_dir_of(path: Seq<char>) -> Seq<char> {
    match path_parent_of(path) {
        Some(parent) => if parent.len() > 0 {
            parent
        } else {
            "."@
        },
        None => "."@,
    }
}

/// Returns the directory that holds `path`: its parent, or `.` when the
/// parent is empty or missing.
pub fn parent_dir(path: &str) -> (r: String)
    ensures
        r@ == parent_dir_of(path@),
{
    match path_parent(path) {
        Some(parent) => if parent.as_str().is_empty() {
            String::from_str(".")
        } else {
            parent
        },
        None => String::from_str("."),
    }
}

/// The file name tried for the `index`-th alternative of a taken path:
/// `{stem}-{index}.{extension}`, or `{stem}-{index}` without an extension.
pub open spec fn candidate_name(stem: Seq<char>, index: nat, extension: Option<Seq<char>>) -> Seq<
    char,
> {
    match extension {
        Some(ext) => stem + "-"@ + decimal(index) + "."@ + ext,
        None => stem + "-"@ + decimal(index),
    }
}

/// The `index`-th alternative path tried when `path` is taken.
pub open spec fn candidate_path(path: Seq<char>, index: nat) -> Seq<char> {
    path_join_of(
        parent_dir_of(path),
        candidate_name(path_file_stem_of(path)->0, index, path_extension_of(path)),
    )
}

/// The decimal text of `n` is a run of ASCII digits, without a leading
/// zero unless `n` is zero, whose value is `n`.
pub proof fn lemma_decimal_reads_back(n: nat)
    ensures
        decimal(n).len() >= 1,
        all_digits(decimal(n)),
        digits_value(decimal(n)) == n,
        n > 0 ==> decimal(n)[0] != '0',
    decreases n,
{
    if n < 10 {
        assert(digit_char(n) as int == 48 + n);
        assert(decimal(n) =~= seq![digit_char(n)]);
        assert(decimal(n).drop_last() =~= Seq::<char>::empty());
        assert(digits_value(Seq::<char>::empty()) == 0);
        assert(digits_value(decimal(n)) == digits_value(decimal(n).drop_last()) * 10 + (decimal(
            n,
        ).last() as int - 48));
    } else {
        lemma_decimal_reads_back(n / 10);
        let prefix = decimal(n / 10);
        let d = decimal(n);
        assert(d == prefix.push(digit_char(n % 10)));
        assert(digit_char(n % 10) as int == 48 + n % 10);
        assert(d.drop_last() =~= prefix);
        assert(d.last() == digit_char(n % 10));
        assert(digits_value(d) == digits_value(prefix) * 10 + (d.last() as int - 48));
        assert(n == (n / 10) * 10 + n % 10);
        assert forall|i: int| 0 <= i < d.len() implies '0' <= #[trigger] d[i] <= '9' by {
            if i < prefix.len() {
                assert(d[i] == prefix[i]);
            }
        }
        assert(d[0] == prefix[0]);
        assert(n / 10 > 0);
    }
}

/// Different numbers have different decimal texts.
pub proof fn lemma_decimal_injective(a: nat, b: nat)
    requires
        decimal(a) == decimal(b),
    ensures
        a == b,
{
    lemma_decimal_reads_back(a);
    lemma_decimal_reads_back(b);
}

/// The `index`-th alternative name is the stem, a hyphen, `index` written
/// in decimal digits without leading zeros, and the extension (after a dot)
/// when there is one.
pub proof fn lemma_candidate_name_shape(stem: Seq<char>, index: nat, extension: Option<Seq<char>>)
    requires
        index >= 1,
    ensures
        exists|digits: Seq<char>|
            {
                &&& digits.len() >= 1
                &&& all_digits(digits)
                &&& digits[0] != '0'
                &&& #[trigger] digits_value(digits) == index
                &&& candidate_name(stem, index, extension) == match extension {
                    Some(ext) => stem + "-"@ + digits + "."@ + ext,
                    None => stem + "-"@ + digits,
                }
            },
{
    lemma_decimal_reads_back(index);
    assert(digits_value(decimal(index)) == index);
}

/// Different indices give different alternative names, so the search for a
/// free name never tries the same name twice.
pub proof fn lemma_candidate_names_distinct(stem: Seq<char>, j: nat, k: nat, extension: Option<Seq<char>>)
    requires
        j != k,
    ensures
        candidate_name(stem, j, extension) != candidate_name(stem, k, extension),
{
    let head = stem + "-"@;
    let tail = match extension {
        Some(ext) => "."@ + ext,
        None => Seq::<char>::empty(),
    };
    let dj = decimal(j);
    let dk = decimal(k);
    let nj = candidate_name(stem, j, extension);
    let nk = candidate_name(stem, k, extension);
    assert(nj =~= head + dj + tail);
    assert(nk =~= head + dk + tail);
    if nj == nk {
        assert(dj.len() == dk.len());
        assert(dj =~= nj.subrange(head.len() as int, (head.len() + dj.len()) as int));
        assert(dk =~= nk.subrange(head.len() as int, (head.len() + dk.len()) as int));
        lemma_decimal_injective(j, k);
    }
}

/// Builds the file name of the `index`-th alternative.
fn candidate_file_name(stem: &str, index: u64, extension: &Option<String>) -> (r: String)
    ensures
        r@ == candidate_name(
            stem@,
            index as nat,
            match extension {
                Some(e) => Some(e@),
                None => None,
            },
        ),
{
    let mut s = String::from_str(stem);
    s.append("-");
    push_decimal(&mut s, index);
    match extension {
        Some(ext) => {
            s.append(".");
            s.append(ext.as_str());
        },
        None => {},
    }
    s
}

/// `is_taken` answered `answer` when asked about `path`.
pub open spec fn answered<F: Fn(&str) -> bool>(is_taken: F, path: Seq<char>, answer: bool) -> bool {
    exists|s: &str| #[trigger] call_ensures(is_taken, (s,), answer) && s@ == path
}

/// The message of the error returned when every alternative is taken.
pub open spec fn no_free_name_message(path: Seq<char>) -> Seq<char> {
    "failed to find an available filename near "@ + path_debug_of(path)
}

/// The number of alternative names tried after the path itself.
pub open spec fn max_candidates() -> nat {
    9999
}

/// What `next_available_path` may return for `path` given the answers of
/// `is_taken`: `path` itself when it is free; otherwise the first free
/// alternative; an `InvalidOutputPath` error when the path has no file
/// name; an `Output` error when every alternative is taken.
pub open spec fn next_available_spec<F: Fn(&str) -> bool>(
    is_taken: F,
    path: Seq<char>,
    r: Result<String, CaptureError>,
) -> bool {
    match r {
        Ok(p) => {
            ||| p@ == path && answered(is_taken, path, false)
            ||| answered(is_taken, path, true) && path_file_stem_of(path) is Some
                && exists|k: nat|
                1 <= k <= max_candidates() && p@ == #[trigger] candidate_path(path, k)
                    && answered(is_taken, p@, false) && forall|j: nat|
                    1 <= j < k ==> answered(is_taken, #[trigger] candidate_path(path, j), true)
        },
        Err(CaptureError::InvalidOutputPath { path: q }) => {
            &&& q@ == path
            &&& answered(is_taken, path, true)
            &&& path_file_stem_of(path) is None
        },
        Err(CaptureError::Output { message }) => {
            &&& message@ == no_free_name_message(path)
            &&& answered(is_taken, path, true)
            &&& path_file_stem_of(path) is Some
            &&& forall|j: nat|
                1 <= j <= max_candidates() ==> answered(
                    is_taken,
                    #[trigger] candidate_path(path, j),
                    true,
                )
        },
        Err(_) => false,
    }
}

/// Returns `path` when `is_taken` reports it free, and otherwise the first of
/// `{stem}-1.{ext}`, `{stem}-2.{ext}`, ... `{stem}-9999.{ext}` (in the same
/// directory) that `is_taken` reports free.
pub fn next_available_path<F: Fn(&str) -> bool>(path: &str, is_taken: &F) -> (r: Result<
    String,
    CaptureError,
>)
    requires
        forall|s: &str| call_requires(*is_taken, (s,)),
    ensures
        next_available_spec(*is_taken, path@, r),
{
    if !is_taken(path) {
        return Ok(String::from_str(path));
    }
    let parent = parent_dir(path);
    let stem = match path_file_stem(path) {
        Some(stem) => stem,
        None => {
            return Err(CaptureError::InvalidOutputPath { path: String::from_str(path) });
        },
    };
    let extension = path_extension(path);
    let mut index: u64 = 1;
    while index < 10_000
        invariant
            1 <= index <= 10_000,
            forall|s: &str| call_requires(*is_taken, (s,)),
            answered(*is_taken, path@, true),
            path_file_stem_of(path@) == Some(stem@),
            parent@ == parent_dir_of(path@),
            match extension {
                Some(e) => path_extension_of(path@) == Some(e@),
                None => path_extension_of(path@) is None,
            },
            forall|j: nat| 1 <= j < index ==> answered(*is_taken, #[trigger] candidate_path(path@, j), true),
        decreases 10_000 - index,
    {
        let name = candidate_file_name(stem.as_str(), index, &extension);
        let candidate = path_join(parent.as_str(), name.as_str());
        proof {
            assert(candidate@ == candidate_path(path@, index as nat));
        }
        if !is_taken(candidate.as_str()) {
            return Ok(candidate);
        }
        index = index + 1;
    }
    let mut message = String::from_str("failed to find an available filename near ");
    let quoted = path_debug(path);
    message.append(quoted.as_str());
    Err(CaptureError::Output { message })
}

} // verus!
