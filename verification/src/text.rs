//! Text helpers shared by the filter and the clipboard export.

use vstd::prelude::*;
use vstd::string::StringExecFns;

verus! {

/// The lowercase form of a text, as `str::to_lowercase` computes it.
pub uninterp spec fn lowercase(s: Seq<char>) -> Seq<char>;

/// Calls `str::to_lowercase`. Trusted: the result is the lowercase form that
/// std computes, named [`lowercase`].
#[verifier::external_body]
pub(crate) fn to_lowercase(s: &str) -> (r: String)
    ensures
        r@ == lowercase(s@),
{
    s.to_lowercase()
}

/// `needle` occurs in `hay` as a contiguous run of characters.
pub open spec fn is_substring(needle: Seq<char>, hay: Seq<char>) -> bool {
    exists|i: int|
        0 <= i && i + needle.len() <= hay.len() && #[trigger] hay.subrange(i, i + needle.len())
            == needle
}

/// Calls `str::contains` with a string pattern. Trusted: the result says
/// whether the pattern occurs in the text as a contiguous run.
#[verifier::external_body]
pub(crate) fn contains(hay: &str, needle: &str) -> (r: bool)
    ensures
        r == is_substring(needle@, hay@),
{
    hay.contains(needle)
}

/// The lines joined by a line feed between neighbours; no line feed at the end.
pub open spec fn joined_lines(lines: Seq<Seq<char>>) -> Seq<char>
    decreases lines.len(),
{
    if lines.len() == 0 {
        Seq::empty()
    } else if lines.len() == 1 {
        lines[0]
    } else {
        joined_lines(lines.drop_last()) + seq!['\n'] + lines.last()
    }
}

/// Joining one more line: the first line stands alone, every later one
/// follows a line feed.
pub proof fn lemma_joined_lines_push(lines: Seq<Seq<char>>, line: Seq<char>)
    ensures
        joined_lines(lines.push(line)) == if lines.len() == 0 {
            line
        } else {
            joined_lines(lines) + seq!['\n'] + line
        },
{
    let all = lines.push(line);
    assert(all.drop_last() =~= lines);
    assert(all.last() == line);
    if lines.len() == 0 {
        assert(all[0] == line);
    }
}

/// Appends `line` to `out` as one more line of a text joined by line feeds.
pub fn push_line(out: &mut String, already: usize, line: &str)
    ensures
        final(out)@ == if already == 0 {
            old(out)@ + line@
        } else {
            old(out)@ + seq!['\n'] + line@
        },
{
    if already != 0 {
        proof {
            reveal_strlit("\n");
        }
        assert("\n"@ =~= seq!['\n']);
        out.append("\n");
    }
    out.append(line);
}

} // verus!
