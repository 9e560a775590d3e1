//! The argument collector and entry assembler: walk a possibly curried
//! function literal's parameter chain into an ordered argument list,
//! and combine a binding's name, harvested comment and arguments into
//! one manual entry.
//!
//! The function literal and the binding are given as plain records:
//! each parameter carries its name and the tokens that precede it, so
//! that its own doc comment can be harvested.

use vstd::prelude::*;

use crate::entry::args_v;
use crate::entry::opt_view;
use crate::entry::strs_view;
use crate::entry::Argument;
use crate::entry::ArgumentV;
use crate::entry::DocItem;
use crate::entry::ManualEntry;
use crate::entry::SingleArg;
use crate::entry::SingleArgV;
use crate::harvest::harvest;
use crate::harvest::retrieve_doc_comment;
use crate::harvest::Token;
use crate::parse::parse_doc_comment;
use crate::parse::parsed_doc;
use crate::parse::parsed_example;
use crate::parse::parsed_type;
use crate::text::chars_of;
use crate::text::split_paras;
use crate::text::split_paras_chars;
use crate::text::string_from_chars;

verus! {

/// One named entry of a destructuring pattern: its name and the tokens
/// preceding it, from which its own doc comment is harvested.
#[derive(Debug)]
pub struct PatEntry {
    pub name: String,
    pub tokens: Vec<Token>,
}

/// A function literal's parameter: a plain identifier or a
/// destructuring pattern of named entries in declaration order.
#[derive(Debug)]
pub enum Param {
    Ident { name: String, tokens: Vec<Token> },
    Pattern { entries: Vec<PatEntry> },
}

/// A possibly curried function literal: its parameter, and its body
/// when that body is itself a function literal.
#[derive(Debug)]
pub struct Lambda {
    pub param: Param,
    pub body: Option<Box<Lambda>>,
}

/// A candidate definition: the textual form of its attribute path, the
/// tokens preceding it, and its value when that value is a function
/// literal.
#[derive(Debug)]
pub struct Binding {
    pub name: String,
    pub tokens: Vec<Token>,
    pub value: Option<Lambda>,
}

/// The documented argument that a pattern entry yields: its name and
/// its own harvested doc comment.
pub open spec fn pat_entry_arg(e: PatEntry) -> SingleArgV {
    SingleArgV { name: e.name@, doc: harvest(e.tokens@) }
}

/// The documented arguments of a pattern's entries, in declaration
/// order.
pub open spec fn pat_entries_args(entries: Seq<PatEntry>) -> Seq<SingleArgV> {
    entries.map_values(|e: PatEntry| pat_entry_arg(e))
}

/// The documented argument that a parameter yields: a flat argument
/// for an identifier, a pattern argument listing every entry in
/// declaration order, each with its own harvested doc comment.
pub open spec fn param_arg(p: Param) -> ArgumentV {
    match p {
        Param::Ident { name, tokens } => ArgumentV::Flat(
            SingleArgV { name: name@, doc: harvest(tokens@) },
        ),
        Param::Pattern { entries } => ArgumentV::Pattern(pat_entries_args(entries@)),
    }
}

/// The arguments of a curried function literal: one per curry level,
/// outermost parameter first.
pub open spec fn lambda_args(l: Lambda) -> Seq<ArgumentV>
    decreases l,
{
    seq![param_arg(l.param)] + match l.body {
        Some(b) => lambda_args(*b),
        None => Seq::empty(),
    }
}

/// Collect the documented arguments of a possibly curried function
/// literal, one argument per curry level, outermost first.
pub fn collect_lambda_args(lambda: &Lambda) -> (r: Vec<Argument>)
    ensures
        args_v(r@) == lambda_args(*lambda),
    decreases *lambda,
{
    let mut args: Vec<Argument> = Vec::new();
    let first = match &lambda.param {
        Param::Ident { name, tokens } => Argument::Flat(
            SingleArg { name: name.clone(), doc: retrieve_doc_comment(tokens) },
        ),
        Param::Pattern { entries } => {
            let mut pattern_vec: Vec<SingleArg> = Vec::new();
            let mut i: usize = 0;
            assert(crate::entry::sargs_v(pattern_vec@) =~= pat_entries_args(entries@.take(0)));
            while i < entries.len()
                invariant
                    i <= entries.len(),
                    crate::entry::sargs_v(pattern_vec@) == pat_entries_args(
                        entries@.take(i as int),
                    ),
                decreases entries.len() - i,
            {
                let ghost pre = pattern_vec@;
                let entry = SingleArg {
                    name: entries[i].name.clone(),
                    doc: retrieve_doc_comment(&entries[i].tokens),
                };
                assert(crate::entry::single_arg_v(entry) == pat_entry_arg(
                    entries@[i as int],
                ));
                pattern_vec.push(entry);
                assert(crate::entry::sargs_v(pattern_vec@) =~= crate::entry::sargs_v(pre).push(
                    pat_entry_arg(entries@[i as int]),
                ));
                assert(pat_entries_args(entries@.take(i + 1)) =~= pat_entries_args(
                    entries@.take(i as int),
                ).push(pat_entry_arg(entries@[i as int])));
                i = i + 1;
            }
            assert(entries@.take(entries@.len() as int) =~= entries@);
            Argument::Pattern(pattern_vec)
        },
    };
    assert(crate::entry::argument_v(first) == param_arg(lambda.param));
    args.push(first);
    match &lambda.body {
        Some(b) => {
            let mut rest = collect_lambda_args(b);
            let ghost pre = args@;
            let ghost rest_pre = rest@;
            args.append(&mut rest);
            assert(args_v(pre + rest_pre) =~= args_v(pre) + args_v(rest_pre));
            assert(args_v(args@) =~= lambda_args(*lambda));
        },
        None => {
            assert(args_v(args@) =~= lambda_args(*lambda));
        },
    }
    args
}

/// Transform a binding into a `DocItem` if a doc comment is attached
/// to it; a binding with no attached comment yields nothing. The
/// item's arguments are not yet collected.
pub fn retrieve_doc_item(binding: &Binding) -> (r: Option<DocItem>)
    ensures
        (r is None) == (harvest(binding.tokens@) is None),
        r is Some ==> ({
            let raw = harvest(binding.tokens@)->0;
            let item = r->0;
            &&& item.name@ == binding.name@
            &&& item.comment.doc@ == parsed_doc(raw)
            &&& opt_view(item.comment.doc_type) == parsed_type(raw)
            &&& opt_view(item.comment.example) == parsed_example(raw)
            &&& item.args@.len() == 0
        }),
{
    match retrieve_doc_comment(&binding.tokens) {
        None => None,
        Some(comment) => {
            let parsed = parse_doc_comment(comment.as_str());
            Some(DocItem { name: binding.name.clone(), comment: parsed, args: Vec::new() })
        },
    }
}

/// Collect everything a binding documents: its name, its attached
/// comment, and — when its value is a function literal — its curried
/// argument list. A binding with no attached comment yields nothing,
/// whatever its structure.
pub fn collect_entry_information(binding: &Binding) -> (r: Option<DocItem>)
    ensures
        (r is None) == (harvest(binding.tokens@) is None),
        r is Some ==> ({
            let raw = harvest(binding.tokens@)->0;
            let item = r->0;
            &&& item.name@ == binding.name@
            &&& item.comment.doc@ == parsed_doc(raw)
            &&& opt_view(item.comment.doc_type) == parsed_type(raw)
            &&& opt_view(item.comment.example) == parsed_example(raw)
            &&& match binding.value {
                Some(l) => args_v(item.args@) == lambda_args(l),
                None => item.args@.len() == 0,
            }
        }),
{
    let doc_item = retrieve_doc_item(binding);
    match doc_item {
        None => None,
        Some(item) => match &binding.value {
            Some(l) => {
                let args = collect_lambda_args(l);
                Some(DocItem { name: item.name, comment: item.comment, args })
            },
            None => Some(item),
        },
    }
}

/// Assemble the final manual entry for a documented definition: the
/// category is attached, and the description is split on blank lines
/// into its paragraph sequence.
pub fn make_manual_entry(category: &str, item: DocItem) -> (r: ManualEntry)
    ensures
        r.category@ == category@,
        r.name@ == item.name@,
        opt_view(r.fn_type) == opt_view(item.comment.doc_type),
        strs_view(r.description@) == split_paras(item.comment.doc@),
        opt_view(r.example) == opt_view(item.comment.example),
        r.args == item.args,
{
    let doc_chars = chars_of(item.comment.doc.as_str());
    let paras = split_paras_chars(&doc_chars);
    let mut description: Vec<String> = Vec::new();
    let mut i: usize = 0;
    assert(strs_view(description@) =~= crate::text::seqs_view(paras@).take(0));
    while i < paras.len()
        invariant
            i <= paras.len(),
            strs_view(description@) == crate::text::seqs_view(paras@).take(i as int),
        decreases paras.len() - i,
    {
        let ghost pre = description@;
        let p = string_from_chars(&paras[i]);
        let ghost pv = p@;
        assert(pv == crate::text::seqs_view(paras@)[i as int]);
        description.push(p);
        assert(strs_view(description@) =~= strs_view(pre).push(pv));
        assert(crate::text::seqs_view(paras@).take(i + 1) =~= crate::text::seqs_view(
            paras@,
        ).take(i as int).push(pv));
        i = i + 1;
    }
    assert(crate::text::seqs_view(paras@).take(paras@.len() as int) =~= crate::text::seqs_view(
        paras@,
    ));
    ManualEntry {
        category: String::from_str(category),
        name: item.name,
        fn_type: item.comment.doc_type,
        description,
        example: item.comment.example,
        args: item.args,
    }
}

/// A binding is documented when a doc comment is attached to it.
pub open spec fn documented(b: Binding) -> bool {
    harvest(b.tokens@) is Some
}

/// `e` is exactly the manual entry that the documented binding `b`
/// yields under `category`: name kept, comment parsed into its three
/// sections, description split into paragraphs, arguments collected
/// from the value when it is a function literal.
pub open spec fn entry_matches(b: Binding, category: Seq<char>, e: ManualEntry) -> bool {
    let raw = harvest(b.tokens@)->0;
    &&& documented(b)
    &&& e.category@ == category
    &&& e.name@ == b.name@
    &&& opt_view(e.fn_type) == parsed_type(raw)
    &&& strs_view(e.description@) == split_paras(parsed_doc(raw))
    &&& opt_view(e.example) == parsed_example(raw)
    &&& match b.value {
        Some(l) => args_v(e.args@) == lambda_args(l),
        None => e.args@.len() == 0,
    }
}

/// `es` holds one matching entry per documented binding of `bs`, in
/// source order; undocumented bindings yield none.
pub open spec fn entries_match(bs: Seq<Binding>, category: Seq<char>, es: Seq<ManualEntry>) -> bool
    decreases bs.len(),
{
    if bs.len() == 0 {
        es.len() == 0
    } else if documented(bs.last()) {
        &&& es.len() > 0
        &&& entry_matches(bs.last(), category, es.last())
        &&& entries_match(bs.drop_last(), category, es.drop_last())
    } else {
        entries_match(bs.drop_last(), category, es)
    }
}

/// Assemble the manual entries of a sequence of candidate bindings:
/// every documented binding yields one entry, in source order, and
/// every undocumented one is excluded.
pub fn assemble_entries(category: &str, bindings: Vec<Binding>) -> (r: Vec<ManualEntry>)
    ensures
        entries_match(bindings@, category@, r@),
{
    let mut out: Vec<ManualEntry> = Vec::new();
    let mut i: usize = 0;
    assert(bindings@.take(0) =~= Seq::<Binding>::empty());
    while i < bindings.len()
        invariant
            i <= bindings.len(),
            entries_match(bindings@.take(i as int), category@, out@),
        decreases bindings.len() - i,
    {
        let ghost pre = out@;
        match collect_entry_information(&bindings[i]) {
            Some(item) => {
                let entry = make_manual_entry(category, item);
                out.push(entry);
                assert(out@.drop_last() =~= pre);
            },
            None => {},
        }
        assert(bindings@.take(i + 1).drop_last() =~= bindings@.take(i as int));
        assert(bindings@.take(i + 1).last() == bindings@[i as int]);
        i = i + 1;
    }
    assert(bindings@.take(bindings@.len() as int) =~= bindings@);
    out
}

} // verus!
