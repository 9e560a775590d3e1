//! The renderer-agnostic data model: a documented parameter, a
//! parameter shape, a parsed comment, and the assembled manual entry.

use vstd::prelude::*;

use crate::text::prime_rewrite;
use crate::text::trim_seq;

verus! {

/// A single documented function argument: its name and its optional
/// doc string.
#[derive(Debug)]
pub struct SingleArg {
    pub name: String,
    pub doc: Option<String>,
}

/// A function argument: either a flat identifier or an ordered pattern
/// group of named entries. A pattern's sequence may be empty, never
/// absent.
#[derive(Debug)]
pub enum Argument {
    /// Flat function argument (a plain identifier parameter).
    Flat(SingleArg),
    /// Pattern function argument (a destructuring parameter group).
    Pattern(Vec<SingleArg>),
}

/// The parse of one harvested comment block: the trimmed description,
/// the optional one-line type signature, and the optional example
/// block.
#[derive(Debug)]
pub struct DocComment {
    pub doc: String,
    pub doc_type: Option<String>,
    pub example: Option<String>,
}

/// A documented definition before rendering: its name, its parsed
/// comment, and its collected arguments.
#[derive(Debug)]
pub struct DocItem {
    pub name: String,
    pub comment: DocComment,
    pub args: Vec<Argument>,
}

/// One manual section: a documented definition ready for either
/// renderer.
#[derive(Debug)]
pub struct ManualEntry {
    /// Name of the function category the entry belongs to.
    pub category: String,
    /// Name of the definition, the title of its section.
    pub name: String,
    /// Type signature, if one was documented; opaque text.
    pub fn_type: Option<String>,
    /// Description paragraphs, in order.
    pub description: Vec<String>,
    /// Usage example, if one was documented.
    pub example: Option<String>,
    /// The definition's arguments, in declaration order.
    pub args: Vec<Argument>,
}

/// The view of an optional string.
pub open spec fn opt_view(o: Option<String>) -> Option<Seq<char>> {
    match o {
        Some(s) => Some(s@),
        None => None,
    }
}

/// The views of a vector of strings.
pub open spec fn strs_view(s: Seq<String>) -> Seq<Seq<char>> {
    s.map_values(|x: String| x@)
}

/// The mathematical shape of a single documented argument.
pub struct SingleArgV {
    pub name: Seq<char>,
    pub doc: Option<Seq<char>>,
}

/// The mathematical shape of an argument: flat or pattern.
pub enum ArgumentV {
    Flat(SingleArgV),
    Pattern(Seq<SingleArgV>),
}

/// The view of a single argument.
pub open spec fn single_arg_v(a: SingleArg) -> SingleArgV {
    SingleArgV { name: a.name@, doc: opt_view(a.doc) }
}

/// The views of a vector of single arguments.
pub open spec fn sargs_v(v: Seq<SingleArg>) -> Seq<SingleArgV> {
    v.map_values(|s: SingleArg| single_arg_v(s))
}

/// The view of an argument.
pub open spec fn argument_v(a: Argument) -> ArgumentV {
    match a {
        Argument::Flat(s) => ArgumentV::Flat(single_arg_v(s)),
        Argument::Pattern(v) => ArgumentV::Pattern(sargs_v(v@)),
    }
}

/// The views of a vector of arguments.
pub open spec fn args_v(v: Seq<Argument>) -> Seq<ArgumentV> {
    v.map_values(|a: Argument| argument_v(a))
}

/// The doc text rendered for a single argument: its own doc string,
/// trimmed, or a fixed note when it has none.
pub open spec fn arg_doc_text(a: SingleArg) -> Seq<char> {
    match a.doc {
        Some(d) => trim_seq(d@),
        None => "Function argument"@,
    }
}

/// The fully qualified title of an entry.
pub open spec fn full_title(category: Seq<char>, name: Seq<char>) -> Seq<char> {
    "lib."@ + category + "."@ + name
}

/// The stable identifier of an entry: the fully qualified name with
/// every single quote rewritten to `-prime`. Both renderers derive
/// their anchors from this one function.
pub open spec fn full_ident(category: Seq<char>, name: Seq<char>) -> Seq<char> {
    "lib."@ + category + "."@ + prime_rewrite(name)
}

} // verus!
