use vstd::prelude::*;
use vstd::slice::slice_subrange;
use vstd::utf8::{decode_utf8, valid_utf8};

verus! {

/// The text of `bytes` with each invalid UTF-8 sequence replaced by U+FFFD.
pub uninterp spec fn lossy_text(bytes: Seq<u8>) -> Seq<char>;

/// Whether `c` has the Unicode White_Space property.
pub open spec fn is_white_space(c: char) -> bool {
    let u = c as u32;
    (9 <= u <= 13) || u == 32 || u == 0x85 || u == 0xa0 || u == 0x1680 || (0x2000 <= u <= 0x200a)
        || u == 0x2028 || u == 0x2029 || u == 0x202f || u == 0x205f || u == 0x3000
}

/// `text` without its leading whitespace.
pub open spec fn trim_start(text: Seq<char>) -> Seq<char>
    decreases text.len(),
{
    if text.len() > 0 && is_white_space(text[0]) {
        trim_start(text.drop_first())
    } else {
        text
    }
}

/// `text` without its trailing whitespace.
pub open spec fn trim_end(text: Seq<char>) -> Seq<char>
    decreases text.len(),
{
    if text.len() > 0 && is_white_space(text.last()) {
        trim_end(text.drop_last())
    } else {
        text
    }
}

/// `text` without its leading and trailing whitespace.
pub open spec fn trimmed(text: Seq<char>) -> Seq<char> {
    trim_end(trim_start(text))
}

/// The path `rel` joined onto the path `root`.
pub uninterp spec fn joined(root: Seq<char>, rel: Seq<char>) -> Seq<char>;

/// Relies on String::from_utf8_lossy: invalid sequences become U+FFFD, and
/// valid UTF-8 is decoded as it stands.
#[verifier::external_body]
fn decode_lossy(bytes: &[u8]) -> (r: String)
    ensures
        r@ == lossy_text(bytes@),
        valid_utf8(bytes@) ==> r@ == decode_utf8(bytes@),
{
    String::from_utf8_lossy(bytes).into_owned()
}

/// Relies on str::trim: leading and trailing characters with the Unicode
/// White_Space property removed.
#[verifier::external_body]
fn trim(text: &str) -> (r: &str)
    ensures
        r@ == trimmed(text@),
{
    text.trim()
}

/// Relies on std::path::Path::join: `rel` joined onto `root`; both are UTF-8,
/// so the joined path is too and the conversion back loses nothing.
#[verifier::external_body]
fn join_path(root: &str, rel: &str) -> (r: String)
    ensures
        r@ == joined(root@, rel@),
{
    std::path::Path::new(root).join(rel).to_string_lossy().into_owned()
}

pub const NEWLINE: u8 = 10;

pub const CARRIAGE_RETURN: u8 = 13;

/// A line without the carriage return that ended it, if any.
pub open spec fn strip_cr(line: Seq<u8>) -> Seq<u8> {
    if line.len() > 0 && line.last() == CARRIAGE_RETURN {
        line.drop_last()
    } else {
        line
    }
}

/// Lines of `out` from position `i` on, the current line having begun at `start`.
pub open spec fn lines_from(out: Seq<u8>, start: int, i: int) -> Seq<Seq<u8>>
    decreases out.len() - i,
{
    if i >= out.len() {
        if start < out.len() {
            seq![out.subrange(start, out.len() as int)]
        } else {
            seq![]
        }
    } else if out[i] == NEWLINE {
        seq![strip_cr(out.subrange(start, i))] + lines_from(out, i + 1, i + 1)
    } else {
        lines_from(out, start, i + 1)
    }
}

/// The lines of `out`: split at each newline, a carriage return before a
/// newline dropped, no empty line after a final newline.
pub open spec fn split_lines(out: Seq<u8>) -> Seq<Seq<u8>> {
    lines_from(out, 0, 0)
}

/// The candidate path that one listed line names: its text, trimmed, joined onto the root.
pub open spec fn candidate_path(root: Seq<char>, line: Seq<u8>) -> Seq<char> {
    joined(root, trimmed(lossy_text(line)))
}

/// The candidate paths of a listing.
pub open spec fn listed_paths(root: Seq<char>, out: Seq<u8>) -> Seq<Seq<char>> {
    split_lines(out).map_values(|line: Seq<u8>| candidate_path(root, line))
}

/// The listing command failed; `message` is its diagnostic output.
pub struct VcsError {
    pub message: String,
}

fn line_path(root: &str, line: &[u8]) -> (r: String)
    ensures
        r@ == candidate_path(root@, line@),
{
    let text = decode_lossy(line);
    join_path(root, trim(text.as_str()))
}

/// The candidate paths named by the output of a "list tracked files" command
/// run on `repo_path`: one per line of `stdout`, trimmed and joined onto
/// `repo_path`. When the command did not succeed, the error carries its
/// diagnostic output.
pub fn tracked_files(repo_path: &str, success: bool, stdout: &[u8], stderr: &[u8]) -> (r: Result<
    Vec<String>,
    VcsError,
>)
    ensures
        success ==> r is Ok && r->Ok_0@.map_values(|s: String| s@) == listed_paths(
            repo_path@,
            stdout@,
        ),
        !success ==> r is Err && r->Err_0.message@ == lossy_text(stderr@),
{
    if !success {
        return Err(VcsError { message: decode_lossy(stderr) });
    }
    let ghost out = stdout@;
    let ghost root = repo_path@;
    let mut paths: Vec<String> = Vec::new();
    let mut start: usize = 0;
    let mut i: usize = 0;
    while i < stdout.len()
        invariant
            out == stdout@,
            root == repo_path@,
            start <= i <= out.len(),
            paths@.map_values(|s: String| s@) + lines_from(out, start as int, i as int).map_values(
                |line: Seq<u8>| candidate_path(root, line),
            ) == listed_paths(root, out),
        decreases stdout.len() - i,
    {
        if stdout[i] == NEWLINE {
            let end: usize = if i > start && stdout[i - 1] == CARRIAGE_RETURN {
                i - 1
            } else {
                i
            };
            let line = slice_subrange(stdout, start, end);
            assert(line@ == strip_cr(out.subrange(start as int, i as int)));
            let ghost before = paths@;
            let p = line_path(repo_path, line);
            paths.push(p);
            let ghost rest = lines_from(out, i + 1, i + 1);
            assert(lines_from(out, start as int, i as int) == seq![line@] + rest);
            assert(paths@.map_values(|s: String| s@) =~= before.map_values(|s: String| s@).push(
                candidate_path(root, line@),
            ));
            assert((seq![line@] + rest).map_values(|l: Seq<u8>| candidate_path(root, l))
                =~= seq![candidate_path(root, line@)] + rest.map_values(
                |l: Seq<u8>| candidate_path(root, l),
            ));
            start = i + 1;
        }
        i = i + 1;
    }
    if start < stdout.len() {
        let line = slice_subrange(stdout, start, stdout.len());
        let ghost before = paths@;
        let p = line_path(repo_path, line);
        paths.push(p);
        assert(paths@.map_values(|s: String| s@) =~= before.map_values(|s: String| s@).push(
            candidate_path(root, line@),
        ));
    }
    assert(paths@.map_values(|s: String| s@) =~= listed_paths(root, out));
    Ok(paths)
}

} // verus!
