use vstd::prelude::*;
use vstd::slice::slice_subrange;
use crate::hexcode::{encode_upper, hex_upper};
use sha2::Digest;

verus! {

/// The byte of a single quote.
pub const SINGLE_QUOTE: u8 = 39;

/// The byte of a double quote.
pub const DOUBLE_QUOTE: u8 = 34;

/// The SHA-256 digest of some bytes: 32 bytes.
pub uninterp spec fn sha256(data: Seq<u8>) -> Seq<u8>;

/// `sha2::Sha256`, made by `Digest::new`, fed by `Digest::update` and closed
/// by `Digest::finalize`: the SHA-256 digest of the input, which is 32 bytes
/// long and depends on the input alone.
#[verifier::external_body]
fn sha256_digest(data: &[u8]) -> (digest: Vec<u8>)
    ensures
        digest@ == sha256(data@),
        digest@.len() == 32,
{
    let mut hash = sha2::Sha256::new();
    hash.update(data);
    hash.finalize().to_vec()
}

/// Whether two byte strings are the same.
pub fn same_bytes(a: &[u8], b: &[u8]) -> (same: bool)
    ensures
        same == (a@ == b@),
{
    if a.len() != b.len() {
        return false;
    }
    let mut i: usize = 0;
    while i < a.len()
        invariant
            i <= a@.len(),
            a@.len() == b@.len(),
            forall|j: int| 0 <= j < i ==> a@[j] == b@[j],
        decreases a@.len() - i,
    {
        if a[i] != b[i] {
            return false;
        }
        i += 1;
    }
    assert(a@ =~= b@);
    true
}

/// Whether a digest, written in upper-case hexadecimal, is the fingerprint
/// expected.
pub fn digest_matches(digest: &[u8], expected: &[u8]) -> (genuine: bool)
    ensures
        genuine == (hex_upper(digest@) == expected@),
{
    let text = encode_upper(digest);
    same_bytes(text.as_slice(), expected)
}

/// Whether the wrapper script is the one that the build knows: its SHA-256
/// digest in upper-case hexadecimal must be the fingerprint expected. Nothing
/// is to be unpacked for a wrapper that is not.
pub fn wrapper_is_genuine(wrapper: &[u8], expected: &[u8]) -> (genuine: bool)
    ensures
        genuine == (hex_upper(sha256(wrapper@)) == expected@),
{
    let digest = sha256_digest(wrapper);
    digest_matches(digest.as_slice(), expected)
}

/// Whether `at` is where `c` stands first in `line`.
pub open spec fn is_first(line: Seq<u8>, c: u8, at: int) -> bool {
    &&& 0 <= at < line.len()
    &&& line[at] == c
    &&& forall|j: int| 0 <= j < at ==> line[j] != c
}

/// Whether `at` is where `c` stands last in `line`.
pub open spec fn is_last(line: Seq<u8>, c: u8, at: int) -> bool {
    &&& 0 <= at < line.len()
    &&& line[at] == c
    &&& forall|j: int| at < j < line.len() ==> line[j] != c
}

/// Whether `c` stands nowhere in `line`.
pub open spec fn lacks(line: Seq<u8>, c: u8) -> bool {
    forall|j: int| 0 <= j < line.len() ==> line[j] != c
}

/// Whether a line is an import statement: more than seven bytes that start
/// with the word `import` and go on with a space or an opening brace.
pub open spec fn is_import_line(line: Seq<u8>) -> bool {
    &&& line.len() > 7
    &&& line[0] == 105
    &&& line[1] == 109
    &&& line[2] == 112
    &&& line[3] == 111
    &&& line[4] == 114
    &&& line[5] == 116
    &&& (line[6] == 32 || line[6] == 123)
}

/// Whether `start` is where the quote opens in `line`: at the first single
/// quote, or at the first double quote where there is no single one.
pub open spec fn opens_quote(line: Seq<u8>, start: int) -> bool {
    is_first(line, 39, start) || (lacks(line, 39) && is_first(line, 34, start))
}

/// Whether `start` and `end` are the quotes around the relative path of an
/// import statement: the line imports, the quote opens at `start`, the same
/// quote stands last at `end`, and what lies between starts with a dot.
pub open spec fn is_relative_import(line: Seq<u8>, start: int, end: int) -> bool {
    &&& is_import_line(line)
    &&& opens_quote(line, start)
    &&& is_last(line, line[start], end)
    &&& start + 1 < end
    &&& line[start + 1] == 46
}

/// A line with the path between its quotes replaced: all up to the opening
/// quote, the new path, and all from the closing quote on.
pub open spec fn with_path(line: Seq<u8>, start: int, end: int, target: Seq<u8>) -> Seq<u8> {
    line.subrange(0, start + 1) + target + line.subrange(end, line.len() as int)
}

/// Where `c` stands first in `line`, if anywhere.
pub fn find_first(line: &[u8], c: u8) -> (at: Option<usize>)
    ensures
        match at {
            Some(i) => is_first(line@, c, i as int),
            None => lacks(line@, c),
        },
{
    let mut i: usize = 0;
    while i < line.len()
        invariant
            i <= line@.len(),
            forall|j: int| 0 <= j < i ==> line@[j] != c,
        decreases line@.len() - i,
    {
        if line[i] == c {
            return Some(i);
        }
        i += 1;
    }
    None
}

/// Where `c` stands last in `line`, if anywhere.
pub fn find_last(line: &[u8], c: u8) -> (at: Option<usize>)
    ensures
        match at {
            Some(i) => is_last(line@, c, i as int),
            None => lacks(line@, c),
        },
{
    let mut i: usize = line.len();
    while i > 0
        invariant
            i <= line@.len(),
            forall|j: int| i <= j < line@.len() ==> line@[j] != c,
        decreases i,
    {
        i -= 1;
        if line[i] == c {
            return Some(i);
        }
    }
    None
}

/// Finds the quotes around the relative path of an import statement. The
/// line is taken without the white space around it. Lines that import
/// nothing, that quote nothing, or whose path does not start with a dot
/// give nothing, and are to be left as they are.
pub fn relative_import(line: &[u8]) -> (span: Option<(usize, usize)>)
    ensures
        match span {
            Some((start, end)) => is_relative_import(line@, start as int, end as int),
            None => forall|s: int, e: int| !is_relative_import(line@, s, e),
        },
{
    if line.len() <= 7 {
        return None;
    }
    if line[0] != 105 || line[1] != 109 || line[2] != 112 || line[3] != 111 || line[4] != 114
        || line[5] != 116 {
        return None;
    }
    if line[6] != 32 && line[6] != 123 {
        return None;
    }
    let start: usize = match find_first(line, SINGLE_QUOTE) {
        Some(i) => i,
        None => match find_first(line, DOUBLE_QUOTE) {
            Some(i) => i,
            None => {
                return None;
            },
        },
    };
    assert(opens_quote(line@, start as int));
    assert(forall|s: int| opens_quote(line@, s) ==> s == start);
    match find_last(line, line[start]) {
        None => None,
        Some(end) => {
            assert(forall|e: int| is_last(line@, line@[start as int], e) ==> e == end);
            if end > start + 1 && line[start + 1] == 46 {
                Some((start, end))
            } else {
                None
            }
        },
    }
}

/// Rewrites an import statement: the path between the quotes at `start` and
/// `end` gives way to `target`, and the rest of the line stays.
pub fn rewrite_import(line: &[u8], start: usize, end: usize, target: &[u8]) -> (out: Vec<u8>)
    requires
        start < end <= line@.len(),
    ensures
        out@ == with_path(line@, start as int, end as int, target@),
{
    let mut out: Vec<u8> = Vec::new();
    out.extend_from_slice(slice_subrange(line, 0, start + 1));
    out.extend_from_slice(target);
    out.extend_from_slice(slice_subrange(line, end, line.len()));
    out
}

/// The quotes of a relative import are found one way only.
pub proof fn relative_import_is_unique(line: Seq<u8>, s1: int, e1: int, s2: int, e2: int)
    requires
        is_relative_import(line, s1, e1),
        is_relative_import(line, s2, e2),
    ensures
        s1 == s2,
        e1 == e2,
{
}

} // verus!
