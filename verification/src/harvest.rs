//! The comment harvester: given the tokens that precede a syntax node,
//! find and merge the doc-comment block immediately attached to it.
//!
//! The syntax tree itself is the parser's; the harvester works on a
//! plain record per token — its kind and its text — listed in source
//! order up to the node.

use vstd::prelude::*;

use crate::text::append_chars;
use crate::text::begins_with;
use crate::text::begins_with_chars;
use crate::text::chars_of;
use crate::text::string_from_chars;
use crate::entry::opt_view;

verus! {

/// What the harvester reads of a token: whether it is a comment, a run
/// of whitespace, or anything else.
#[derive(Clone, Copy, PartialEq, Eq, Structural, Debug)]
pub enum TokenKind {
    Comment,
    Whitespace,
    Other,
}

/// One token of the source, reduced to what the harvester inspects.
#[derive(Debug)]
pub struct Token {
    pub kind: TokenKind,
    pub text: String,
}

/// The opener that marks a block comment.
pub open spec fn block_opener() -> Seq<char> {
    seq!['/', '*']
}

/// Whitespace that keeps two line comments attached: exactly one
/// newline, at the front, with no further newline after it.
pub open spec fn single_newline_ws(t: Seq<char>) -> bool {
    t.len() >= 1 && t[0] == '\n' && forall|i: int| 1 <= i < t.len() ==> t[i] != '\n'
}

/// The text of the merged run of adjacent-line comments that ends at
/// the comment token `i`: while the token before is whitespace of a
/// single newline, that whitespace is kept and, if a comment stands
/// before it, the run continues there.
pub open spec fn merged_run(ts: Seq<Token>, i: int) -> Seq<char>
    recommends
        0 <= i < ts.len(),
    decreases i,
{
    if i >= 1 && ts[i - 1].kind == TokenKind::Whitespace && single_newline_ws(ts[i - 1].text@) {
        if i >= 2 && ts[i - 2].kind == TokenKind::Comment {
            merged_run(ts, i - 2) + ts[i - 1].text@ + ts[i].text@
        } else {
            ts[i - 1].text@ + ts[i].text@
        }
    } else {
        ts[i].text@
    }
}

/// The token the harvester inspects: the last one, or the one before it
/// when the last is whitespace (stepped over at most once).
pub open spec fn inspected_index(ts: Seq<Token>) -> int {
    if ts.last().kind == TokenKind::Whitespace {
        ts.len() - 2
    } else {
        ts.len() - 1
    }
}

/// The harvested doc comment attached to a node whose preceding tokens
/// are `ts`: nothing unless a comment stands at the inspected position;
/// a block comment as it is; a line comment merged backward over
/// adjacent lines.
pub open spec fn harvest(ts: Seq<Token>) -> Option<Seq<char>> {
    if ts.len() == 0 {
        None
    } else {
        let j = inspected_index(ts);
        if j < 0 {
            None
        } else if ts[j].kind != TokenKind::Comment {
            None
        } else if begins_with(ts[j].text@, block_opener()) {
            Some(ts[j].text@)
        } else {
            Some(merged_run(ts, j))
        }
    }
}

fn is_single_newline(s: &str) -> (r: bool)
    ensures
        r == single_newline_ws(s@),
{
    let v = chars_of(s);
    if v.len() == 0 || v[0] != '\n' {
        return false;
    }
    let mut i: usize = 1;
    while i < v.len()
        invariant
            1 <= i <= v.len(),
            v@ == s@,
            v@.len() >= 1 && v@[0] == '\n',
            forall|j: int| 1 <= j < i ==> v@[j] != '\n',
        decreases v.len() - i,
    {
        if v[i] == '\n' {
            return false;
        }
        i = i + 1;
    }
    true
}

fn merged_run_exec(ts: &Vec<Token>, i: usize) -> (r: Vec<char>)
    requires
        i < ts.len(),
    ensures
        r@ == merged_run(ts@, i as int),
    decreases i,
{
    if i >= 1 && ts[i - 1].kind == TokenKind::Whitespace && is_single_newline(
        ts[i - 1].text.as_str(),
    ) {
        if i >= 2 && ts[i - 2].kind == TokenKind::Comment {
            let mut r = merged_run_exec(ts, i - 2);
            let ws = chars_of(ts[i - 1].text.as_str());
            append_chars(&mut r, &ws);
            let ct = chars_of(ts[i].text.as_str());
            append_chars(&mut r, &ct);
            r
        } else {
            let mut r = chars_of(ts[i - 1].text.as_str());
            let ct = chars_of(ts[i].text.as_str());
            append_chars(&mut r, &ct);
            r
        }
    } else {
        chars_of(ts[i].text.as_str())
    }
}

/// Retrieve the raw text of the doc comment attached to a node, given
/// the tokens that precede the node's first token, in source order.
/// Nothing is returned when no comment is attached.
pub fn retrieve_doc_comment(tokens: &Vec<Token>) -> (r: Option<String>)
    ensures
        opt_view(r) == harvest(tokens@),
{
    if tokens.len() == 0 {
        return None;
    }
    let mut j: usize = tokens.len() - 1;
    if tokens[j].kind == TokenKind::Whitespace {
        if j == 0 {
            return None;
        }
        j = j - 1;
    }
    if tokens[j].kind != TokenKind::Comment {
        return None;
    }
    let text_chars = chars_of(tokens[j].text.as_str());
    let opener: Vec<char> = vec!['/', '*'];
    assert(opener@ =~= block_opener());
    if begins_with_chars(&text_chars, &opener) {
        return Some(string_from_chars(&text_chars));
    }
    let merged = merged_run_exec(tokens, j);
    Some(string_from_chars(&merged))
}

/// A blank line breaks attachment: when the comment nearest the node is
/// a line comment whose preceding whitespace holds more than a single
/// newline, only that comment is harvested — anything earlier is
/// excluded.
pub proof fn lemma_blank_line_breaks_attachment(ts: Seq<Token>)
    requires
        ts.len() >= 3,
        ts.last().kind == TokenKind::Whitespace,
        ts[ts.len() - 2].kind == TokenKind::Comment,
        !begins_with(ts[ts.len() - 2].text@, block_opener()),
        ts[ts.len() - 3].kind == TokenKind::Whitespace,
        !single_newline_ws(ts[ts.len() - 3].text@),
    ensures
        harvest(ts) == Some(ts[ts.len() - 2].text@),
{
    assert(merged_run(ts, ts.len() - 2) == ts[ts.len() - 2].text@);
}

/// A block comment never merges: whatever stands before it — another
/// comment included — it is harvested exactly as it is.
pub proof fn lemma_block_comment_harvested_as_is(ts: Seq<Token>)
    requires
        ts.len() >= 1,
        0 <= inspected_index(ts),
        ts[inspected_index(ts)].kind == TokenKind::Comment,
        begins_with(ts[inspected_index(ts)].text@, block_opener()),
    ensures
        harvest(ts) == Some(ts[inspected_index(ts)].text@),
{
}

} // verus!
