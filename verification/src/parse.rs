//! The comment body parser: a harvested raw comment is split, line by
//! line, into a free-text description, an optional type-signature line
//! and an optional example block, driven by the literal markers
//! `Type:` and `Example:`.

use vstd::prelude::*;

use crate::text::begins_with;
use crate::text::begins_with_chars;
use crate::text::chars_of;
use crate::text::lines_chars;
use crate::text::lines_seq;
use crate::text::seqs_view;
use crate::text::string_from_chars;
use crate::text::sub_chars;
use crate::text::trim_chars;
use crate::text::trim_seq;
use crate::entry::DocComment;

verus! {

/// The scanner's mode: which section the current line belongs to.
/// Transitions leave `Doc` for `Type` or `Example` and never return.
#[derive(Clone, Copy, PartialEq, Eq, Structural, Debug)]
pub enum ParseState {
    Doc,
    Type,
    Example,
}

/// The marker that opens the type-signature section.
pub open spec fn type_marker() -> Seq<char> {
    seq!['T', 'y', 'p', 'e', ':']
}

/// The marker that opens the example section.
pub open spec fn example_marker() -> Seq<char> {
    seq!['E', 'x', 'a', 'm', 'p', 'l', 'e', ':']
}

/// The scanner's whole state: the mode and the three accumulators.
pub struct Scan {
    pub mode: ParseState,
    pub doc: Seq<char>,
    pub ty: Seq<char>,
    pub ex: Seq<char>,
}

/// One line of the scan: the trimmed line may switch the mode with a
/// `Type:` or `Example:` marker (both checks apply, in that order, to
/// the same line), loses the marker it matched, and its trimmed rest
/// goes to the section the final mode names — description and example
/// lines followed by a newline, type fragments joined bare.
pub open spec fn scan_line(st: Scan, line: Seq<char>) -> Scan {
    let l1 = trim_seq(line);
    let m2 = if begins_with(l1, type_marker()) {
        ParseState::Type
    } else {
        st.mode
    };
    let l2 = if begins_with(l1, type_marker()) {
        l1.skip(5)
    } else {
        l1
    };
    let m3 = if begins_with(l2, example_marker()) {
        ParseState::Example
    } else {
        m2
    };
    let l3 = if begins_with(l2, example_marker()) {
        l2.skip(8)
    } else {
        l2
    };
    match m3 {
        ParseState::Doc => Scan { doc: st.doc + trim_seq(l3) + seq!['\n'], ..st },
        ParseState::Type => Scan { mode: m3, ty: st.ty + trim_seq(l3), ..st },
        ParseState::Example => Scan { mode: m3, ex: st.ex + trim_seq(l3) + seq!['\n'], ..st },
    }
}

/// The scan of a sequence of lines, started in `Doc` mode with empty
/// accumulators.
pub open spec fn scan_lines(ls: Seq<Seq<char>>) -> Scan
    decreases ls.len(),
{
    if ls.len() == 0 {
        Scan { mode: ParseState::Doc, doc: Seq::empty(), ty: Seq::empty(), ex: Seq::empty() }
    } else {
        scan_line(scan_lines(ls.drop_last()), ls.last())
    }
}

/// The scan of a raw comment: trimmed, then split into lines.
pub open spec fn scan_raw(raw: Seq<char>) -> Scan {
    scan_lines(lines_seq(trim_seq(raw)))
}

/// The final description of a raw comment: the doc accumulator,
/// trimmed once more.
pub open spec fn parsed_doc(raw: Seq<char>) -> Seq<char> {
    trim_seq(scan_raw(raw).doc)
}

/// The final type signature: absent when its accumulator stayed empty.
pub open spec fn parsed_type(raw: Seq<char>) -> Option<Seq<char>> {
    if scan_raw(raw).ty.len() == 0 {
        None
    } else {
        Some(scan_raw(raw).ty)
    }
}

/// The final example block: absent when its accumulator stayed empty.
pub open spec fn parsed_example(raw: Seq<char>) -> Option<Seq<char>> {
    if scan_raw(raw).ex.len() == 0 {
        None
    } else {
        Some(scan_raw(raw).ex)
    }
}

/// Parse a harvested raw comment into its description, optional type
/// signature and optional example block.
pub fn parse_doc_comment(raw: &str) -> (r: DocComment)
    ensures
        r.doc@ == parsed_doc(raw@),
        match r.doc_type {
            Some(t) => parsed_type(raw@) == Some(t@),
            None => parsed_type(raw@) is None,
        },
        match r.example {
            Some(e) => parsed_example(raw@) == Some(e@),
            None => parsed_example(raw@) is None,
        },
{
    let raw_chars = chars_of(raw);
    let trimmed = trim_chars(&raw_chars);
    let lines = lines_chars(&trimmed);

    let mut state = ParseState::Doc;
    let mut doc: Vec<char> = Vec::new();
    let mut ty: Vec<char> = Vec::new();
    let mut ex: Vec<char> = Vec::new();

    let tm: Vec<char> = vec!['T', 'y', 'p', 'e', ':'];
    let em: Vec<char> = vec!['E', 'x', 'a', 'm', 'p', 'l', 'e', ':'];
    assert(tm@ =~= type_marker());
    assert(em@ =~= example_marker());

    let ghost all = seqs_view(lines@);
    let mut i: usize = 0;
    assert(all.take(0) =~= Seq::<Seq<char>>::empty());
    while i < lines.len()
        invariant
            i <= lines.len(),
            all == seqs_view(lines@),
            all == lines_seq(trim_seq(raw@)),
            tm@ == type_marker(),
            em@ == example_marker(),
            scan_lines(all.take(i as int)) == (Scan {
                mode: state,
                doc: doc@,
                ty: ty@,
                ex: ex@,
            }),
        decreases lines.len() - i,
    {
        let ghost pre = Scan { mode: state, doc: doc@, ty: ty@, ex: ex@ };
        let line = trim_chars(&lines[i]);
        assert(line@ == trim_seq(all[i as int]));

        let mut rest = line;
        if begins_with_chars(&rest, &tm) {
            state = ParseState::Type;
            rest = sub_chars(&rest, 5, rest.len());
            assert(rest@ =~= trim_seq(all[i as int]).skip(5));
        }
        if begins_with_chars(&rest, &em) {
            state = ParseState::Example;
            let r2 = sub_chars(&rest, 8, rest.len());
            assert(r2@ =~= rest@.skip(8));
            rest = r2;
        }
        let body = trim_chars(&rest);
        match state {
            ParseState::Doc => {
                let mut d = doc;
                let mut b = body;
                d.append(&mut b);
                d.push('\n');
                doc = d;
                assert(doc@ =~= pre.doc + trim_seq(rest@) + seq!['\n']);
            },
            ParseState::Type => {
                let mut t = ty;
                let mut b = body;
                t.append(&mut b);
                ty = t;
                assert(ty@ =~= pre.ty + trim_seq(rest@));
            },
            ParseState::Example => {
                let mut e = ex;
                let mut b = body;
                e.append(&mut b);
                e.push('\n');
                ex = e;
                assert(ex@ =~= pre.ex + trim_seq(rest@) + seq!['\n']);
            },
        }
        i = i + 1;
        assert(all.take(i as int).drop_last() =~= all.take(i - 1));
        assert(all.take(i as int).last() == all[i - 1]);
        assert(scan_line(pre, all[i - 1]) == (Scan { mode: state, doc: doc@, ty: ty@, ex: ex@ }));
    }
    assert(all.take(all.len() as int) =~= all);

    let doc_trimmed = trim_chars(&doc);
    let doc_type = if ty.len() == 0 {
        None
    } else {
        Some(string_from_chars(&ty))
    };
    let example = if ex.len() == 0 {
        None
    } else {
        Some(string_from_chars(&ex))
    };
    DocComment { doc: string_from_chars(&doc_trimmed), doc_type, example }
}

/// Markers are sticky: once the scan of some prefix of the lines has
/// left `Doc` mode, every later line leaves the mode away from `Doc`
/// and the description accumulator untouched.
pub proof fn lemma_marker_sticky(ls: Seq<Seq<char>>, i: int)
    requires
        0 <= i <= ls.len(),
        scan_lines(ls.take(i)).mode != ParseState::Doc,
    ensures
        scan_lines(ls).mode != ParseState::Doc,
        scan_lines(ls).doc == scan_lines(ls.take(i)).doc,
    decreases ls.len() - i,
{
    if i == ls.len() {
        assert(ls.take(i) =~= ls);
    } else {
        let st = scan_lines(ls.take(i));
        let st2 = scan_lines(ls.take(i + 1));
        assert(ls.take(i + 1).drop_last() =~= ls.take(i));
        assert(ls.take(i + 1).last() == ls[i]);
        assert(st2 == scan_line(st, ls[i]));
        assert(st2.mode != ParseState::Doc && st2.doc == st.doc);
        lemma_marker_sticky(ls, i + 1);
    }
}

} // verus!
