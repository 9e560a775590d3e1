//! The lightweight-markup renderer: a pure transform from an ordered
//! entry sequence to one markup document, with a heading, one
//! subsection per entry, and anchors derived from the quote-rewritten
//! identifier.

use vstd::prelude::*;

use crate::entry::arg_doc_text;
use crate::entry::full_ident;
use crate::entry::full_title;
use crate::entry::Argument;
use crate::entry::ManualEntry;
use crate::entry::SingleArg;
use crate::text::append_chars;
use crate::text::append_str;
use crate::text::chars_of;
use crate::text::string_from_chars;
use crate::text::trim_chars;

verus! {

/// The markup of one flat argument: a list item of name and doc.
pub open spec fn flat_arg_markup(a: SingleArg) -> Seq<char> {
    "- `"@ + a.name@ + "`: "@ + arg_doc_text(a) + "\n"@
}

/// The markup of one member of a pattern argument: a nested list item
/// of name and doc.
pub open spec fn pat_entry_markup(a: SingleArg) -> Seq<char> {
    "  - `"@ + a.name@ + "`: "@ + arg_doc_text(a) + "\n"@
}

/// The markup of a pattern's members, in declaration order.
pub open spec fn pat_entries_markup(v: Seq<SingleArg>) -> Seq<char>
    decreases v.len(),
{
    if v.len() == 0 {
        Seq::empty()
    } else {
        pat_entries_markup(v.drop_last()) + pat_entry_markup(v.last())
    }
}

/// The markup of one argument: a flat argument directly, a pattern as
/// one structured item followed by the nested list of its members.
pub open spec fn argument_markup(a: Argument) -> Seq<char> {
    match a {
        Argument::Flat(s) => flat_arg_markup(s),
        Argument::Pattern(v) => "- structured function argument\n"@ + pat_entries_markup(v@),
    }
}

/// The markup of an argument list, in order.
pub open spec fn args_markup(v: Seq<Argument>) -> Seq<char>
    decreases v.len(),
{
    if v.len() == 0 {
        Seq::empty()
    } else {
        args_markup(v.drop_last()) + argument_markup(v.last())
    }
}

/// The argument block of a section: the list followed by a blank
/// line, or nothing when there are no arguments.
pub open spec fn args_block_markup(v: Seq<Argument>) -> Seq<char> {
    if v.len() == 0 {
        Seq::empty()
    } else {
        args_markup(v) + "\n"@
    }
}

/// The markup of the description paragraphs: each paragraph is its own
/// block.
pub open spec fn paras_markup(d: Seq<String>) -> Seq<char>
    decreases d.len(),
{
    if d.len() == 0 {
        Seq::empty()
    } else {
        paras_markup(d.drop_last()) + d.last()@ + "\n\n"@
    }
}

/// The type block of a section: the signature as inline code, or
/// nothing.
pub open spec fn type_markup(t: Option<String>) -> Seq<char> {
    match t {
        Some(sig) => "Type: `"@ + sig@ + "`\n\n"@,
        None => Seq::empty(),
    }
}

/// The example block of a section: a fenced code block, or nothing.
pub open spec fn example_markup(e: Option<String>) -> Seq<char> {
    match e {
        Some(ex) => "Example:\n\n```nix\n"@ + ex@ + "```\n\n"@,
        None => Seq::empty(),
    }
}

/// The markup of one whole section: subheading with anchor, type
/// block, paragraphs, argument block and example block, in that order.
pub open spec fn markup_section(e: ManualEntry) -> Seq<char> {
    "## `"@ + full_title(e.category@, e.name@) + "` {#function-library-"@ + full_ident(
        e.category@,
        e.name@,
    ) + "}\n\n"@ + type_markup(e.fn_type) + paras_markup(e.description@) + args_block_markup(
        e.args@,
    ) + example_markup(e.example)
}

/// The document heading built from the category and its description.
pub open spec fn markup_heading(category: Seq<char>, description: Seq<char>) -> Seq<char> {
    "# "@ + description + " {#sec-functions-library-"@ + category + "}\n\n"@
}

/// The concatenated markup of a sequence of entries, kept in the order
/// given.
pub open spec fn sections_markup(es: Seq<ManualEntry>) -> Seq<char>
    decreases es.len(),
{
    if es.len() == 0 {
        Seq::empty()
    } else {
        sections_markup(es.drop_last()) + markup_section(es.last())
    }
}

/// A whole markup document: the heading, then every entry's section in
/// entry order.
pub open spec fn markup_document(
    category: Seq<char>,
    description: Seq<char>,
    es: Seq<ManualEntry>,
) -> Seq<char> {
    markup_heading(category, description) + sections_markup(es)
}

fn write_single_arg(out: &mut Vec<char>, a: &SingleArg, nested: bool)
    ensures
        final(out)@ == old(out)@ + if nested {
            pat_entry_markup(*a)
        } else {
            flat_arg_markup(*a)
        },
{
    if nested {
        append_str(out, "  - `");
    } else {
        append_str(out, "- `");
    }
    append_str(out, a.name.as_str());
    append_str(out, "`: ");
    match &a.doc {
        Some(d) => {
            let dc = chars_of(d.as_str());
            let trimmed = trim_chars(&dc);
            append_chars(out, &trimmed);
        },
        None => {
            append_str(out, "Function argument");
        },
    }
    append_str(out, "\n");
}

fn write_argument(out: &mut Vec<char>, a: &Argument)
    ensures
        final(out)@ == old(out)@ + argument_markup(*a),
{
    match a {
        Argument::Flat(s) => {
            write_single_arg(out, s, false);
        },
        Argument::Pattern(v) => {
            append_str(out, "- structured function argument\n");
            let ghost base = out@;
            let mut i: usize = 0;
            while i < v.len()
                invariant
                    i <= v.len(),
                    out@ == base + pat_entries_markup(v@.take(i as int)),
                decreases v.len() - i,
            {
                write_single_arg(out, &v[i], true);
                assert(v@.take(i + 1).drop_last() =~= v@.take(i as int));
                i = i + 1;
            }
            assert(v@.take(v@.len() as int) =~= v@);
        },
    }
}

impl ManualEntry {
    /// Render this entry as one markup section.
    pub fn write_section(&self) -> (r: String)
        ensures
            r@ == markup_section(*self),
    {
        let mut out: Vec<char> = Vec::new();
        append_str(&mut out, "## `");
        append_str(&mut out, "lib.");
        append_str(&mut out, self.category.as_str());
        append_str(&mut out, ".");
        append_str(&mut out, self.name.as_str());
        append_str(&mut out, "` {#function-library-");
        append_str(&mut out, "lib.");
        append_str(&mut out, self.category.as_str());
        append_str(&mut out, ".");
        let name_chars = chars_of(self.name.as_str());
        let ident = crate::text::prime_rewrite_chars(&name_chars);
        append_chars(&mut out, &ident);
        append_str(&mut out, "}\n\n");
        assert(out@ =~= "## `"@ + full_title(self.category@, self.name@)
            + "` {#function-library-"@ + full_ident(self.category@, self.name@) + "}\n\n"@);

        match &self.fn_type {
            Some(t) => {
                append_str(&mut out, "Type: `");
                append_str(&mut out, t.as_str());
                append_str(&mut out, "`\n\n");
            },
            None => {},
        }
        let ghost head2 = out@;
        assert(head2 =~= "## `"@ + full_title(self.category@, self.name@)
            + "` {#function-library-"@ + full_ident(self.category@, self.name@) + "}\n\n"@
            + type_markup(self.fn_type));

        let ghost base_paras = out@;
        let mut i: usize = 0;
        while i < self.description.len()
            invariant
                i <= self.description.len(),
                out@ == base_paras + paras_markup(self.description@.take(i as int)),
            decreases self.description.len() - i,
        {
            append_str(&mut out, self.description[i].as_str());
            append_str(&mut out, "\n\n");
            assert(self.description@.take(i + 1).drop_last() =~= self.description@.take(i as int));
            i = i + 1;
        }
        assert(self.description@.take(self.description@.len() as int) =~= self.description@);

        let ghost base_args = out@;
        if self.args.len() > 0 {
            let mut k: usize = 0;
            while k < self.args.len()
                invariant
                    k <= self.args.len(),
                    out@ == base_args + args_markup(self.args@.take(k as int)),
                decreases self.args.len() - k,
            {
                write_argument(&mut out, &self.args[k]);
                assert(self.args@.take(k + 1).drop_last() =~= self.args@.take(k as int));
                k = k + 1;
            }
            assert(self.args@.take(self.args@.len() as int) =~= self.args@);
            append_str(&mut out, "\n");
        }
        assert(out@ =~= base_args + args_block_markup(self.args@));

        match &self.example {
            Some(ex) => {
                append_str(&mut out, "Example:\n\n```nix\n");
                append_str(&mut out, ex.as_str());
                append_str(&mut out, "```\n\n");
            },
            None => {},
        }
        assert(out@ =~= markup_section(*self));
        string_from_chars(&out)
    }
}

/// Render the document heading for a category and its description.
pub fn write_heading(category: &str, description: &str) -> (r: String)
    ensures
        r@ == markup_heading(category@, description@),
{
    let mut out: Vec<char> = Vec::new();
    append_str(&mut out, "# ");
    append_str(&mut out, description);
    append_str(&mut out, " {#sec-functions-library-");
    append_str(&mut out, category);
    append_str(&mut out, "}\n\n");
    assert(out@ =~= markup_heading(category@, description@));
    string_from_chars(&out)
}

/// Render the whole markup document: the heading, then every entry's
/// section, in exactly the order the entries are given.
pub fn render_document(category: &str, description: &str, entries: &Vec<ManualEntry>) -> (r:
    String)
    ensures
        r@ == markup_document(category@, description@, entries@),
{
    let heading = write_heading(category, description);
    let mut out: Vec<char> = chars_of(heading.as_str());
    let mut i: usize = 0;
    assert(out@ + sections_markup(entries@.take(0)) =~= out@);
    while i < entries.len()
        invariant
            i <= entries.len(),
            out@ == markup_heading(category@, description@) + sections_markup(
                entries@.take(i as int),
            ),
        decreases entries.len() - i,
    {
        let section = entries[i].write_section();
        append_str(&mut out, section.as_str());
        assert(entries@.take(i + 1).drop_last() =~= entries@.take(i as int));
        i = i + 1;
    }
    assert(entries@.take(entries@.len() as int) =~= entries@);
    string_from_chars(&out)
}

/// Entry order is preserved: in the rendered concatenation, the
/// section of the entry at position `i` stands between the sections of
/// the entries before it and those after it, exactly in source order.
pub proof fn lemma_markup_entry_order(es: Seq<ManualEntry>, i: int)
    requires
        0 <= i < es.len(),
    ensures
        sections_markup(es) == sections_markup(es.take(i)) + markup_section(es[i])
            + sections_markup(es.skip(i + 1)),
    decreases es.len(),
{
    if i == es.len() - 1 {
        assert(es.take(i) =~= es.drop_last());
        assert(es.skip(i + 1) =~= Seq::<ManualEntry>::empty());
        assert(sections_markup(es) == sections_markup(es.drop_last()) + markup_section(es.last()));
        assert(sections_markup(es.take(i)) + markup_section(es[i]) + sections_markup(
            es.skip(i + 1),
        ) =~= sections_markup(es.drop_last()) + markup_section(es.last()));
    } else {
        let dl = es.drop_last();
        lemma_markup_entry_order(dl, i);
        assert(dl.take(i) =~= es.take(i));
        assert(dl[i] == es[i]);
        assert(es.skip(i + 1).drop_last() =~= dl.skip(i + 1));
        assert(es.skip(i + 1).last() == es.last());
        assert(sections_markup(es.skip(i + 1)) == sections_markup(dl.skip(i + 1))
            + markup_section(es.last()));
        assert(sections_markup(es) == sections_markup(dl) + markup_section(es.last()));
        assert(sections_markup(es.take(i)) + markup_section(es[i]) + sections_markup(
            es.skip(i + 1),
        ) =~= sections_markup(dl.take(i)) + markup_section(dl[i]) + sections_markup(
            dl.skip(i + 1),
        ) + markup_section(es.last()));
    }
}

} // verus!
