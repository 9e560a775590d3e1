//! The XML-manual renderer: one structural section per entry, written
//! through the `xml` crate's event writer. What the library proves is
//! which events are emitted, in which order, and that emitting them
//! succeeds whenever the record is well-nested — the sink is in
//! memory, so only closing a never-opened element can fail. The
//! serialisation of the events — escaping included — is the `xml`
//! crate's.

use vstd::prelude::*;

use crate::entry::arg_doc_text;
use crate::entry::full_ident;
use crate::entry::full_title;
use crate::entry::Argument;
use crate::entry::ManualEntry;
use crate::entry::SingleArg;
use crate::text::append_str;
use crate::text::chars_of;
use crate::text::prime_rewrite_chars;
use crate::text::string_from_chars;
use crate::events::open_depth;
use crate::events::WriterEvent;

verus! {

broadcast use crate::events::lemma_open_depth_push;

#[verifier::external_type_specification]
#[verifier::external_body]
#[verifier::reject_recursive_types(W)]
pub struct ExEventWriter<W>(xml::writer::EventWriter<W>);

#[verifier::external_type_specification]
#[verifier::external_body]
pub struct ExEmitterError(xml::writer::Error);


/// An XML event writer over an in-memory sink, together with the
/// record of the events written to it so far.
pub struct DocBookWriter {
    inner: xml::writer::EventWriter<Vec<u8>>,
    events: Ghost<Seq<WriterEvent>>,
}

impl DocBookWriter {
    /// The events written to this writer so far, in order.
    pub closed spec fn written(&self) -> Seq<WriterEvent> {
        self.events@
    }
}

/// A failure of the XML emitter, carried out of the renderer.
#[derive(Debug)]
pub struct RenderError {
    pub cause: xml::writer::Error,
}

/// Relies on `EventWriter::new`: a fresh writer over an empty sink,
/// with the default configuration.
#[verifier::external_body]
fn new_event_writer() -> xml::writer::EventWriter<Vec<u8>> {
    xml::writer::EventWriter::new(Vec::new())
}

/// A fresh writer with an empty record: nothing has been written yet.
pub fn new_docbook_writer() -> (w: DocBookWriter)
    ensures
        w.written() == Seq::<WriterEvent>::empty(),
{
    DocBookWriter { inner: new_event_writer(), events: Ghost(Seq::empty()) }
}

/// Relies on `EventWriter::write` with a start-element event: exactly
/// that element start is emitted. It cannot fail: the sink is an
/// in-memory vector, whose writes never error, and the emitter raises
/// no other error for a start element.
#[verifier::external_body]
pub fn element(w: &mut DocBookWriter, name: &str) -> (r: Result<(), xml::writer::Error>)
    ensures
        r is Ok,
        r is Ok ==> final (w).written() == old(w).written().push(WriterEvent::Start(name@)),
{
    w.inner.write(xml::writer::XmlEvent::start_element(name))
}

/// Relies on `EventWriter::write` with a start-element event carrying
/// one attribute: exactly that element start is emitted. It cannot
/// fail, as for `element`.
#[verifier::external_body]
fn element_attr(w: &mut DocBookWriter, name: &str, k: &str, v: &str) -> (r: Result<
    (),
    xml::writer::Error,
>)
    ensures
        r is Ok,
        r is Ok ==> final (w).written() == old(w).written().push(
            WriterEvent::StartAttrs(name@, seq![(k@, v@)]),
        ),
{
    w.inner.write(xml::writer::XmlEvent::start_element(name).attr(k, v))
}

/// Relies on `EventWriter::write` with a start-element event carrying
/// two attributes: exactly that element start is emitted. It cannot
/// fail, as for `element`.
#[verifier::external_body]
fn element_attr2(w: &mut DocBookWriter, name: &str, k1: &str, v1: &str, k2: &str, v2: &str) -> (r:
    Result<(), xml::writer::Error>)
    ensures
        r is Ok,
        r is Ok ==> final (w).written() == old(w).written().push(
            WriterEvent::StartAttrs(name@, seq![(k1@, v1@), (k2@, v2@)]),
        ),
{
    w.inner.write(xml::writer::XmlEvent::start_element(name).attr(k1, v1).attr(k2, v2))
}

/// Relies on `EventWriter::write` with an end-element event: the
/// innermost open element is closed. The emitter pops its stack of
/// open element names — one entry per open element of the record —
/// and fails exactly when that stack is empty, writing nothing then;
/// the in-memory sink itself never errors.
#[verifier::external_body]
pub fn end(w: &mut DocBookWriter) -> (r: Result<(), xml::writer::Error>)
    ensures
        r is Ok <==> open_depth(old(w).written()) > 0,
        r is Ok ==> final (w).written() == old(w).written().push(WriterEvent::End),
        !(r is Ok) ==> final (w).written() == old(w).written(),
{
    w.inner.write(xml::writer::XmlEvent::end_element())
}

/// Relies on `EventWriter::write` with a characters event: exactly
/// that text is emitted, escaped by the writer. It cannot fail, as
/// for `element`.
#[verifier::external_body]
pub fn string(w: &mut DocBookWriter, content: &str) -> (r: Result<(), xml::writer::Error>)
    ensures
        r is Ok,
        r is Ok ==> final (w).written() == old(w).written().push(WriterEvent::Text(content@)),
{
    w.inner.write(xml::writer::XmlEvent::characters(content))
}

/// Relies on `EventWriter::write` with a CDATA event: exactly that
/// block is emitted, its text not reinterpreted as markup. It cannot
/// fail, as for `element`.
#[verifier::external_body]
fn cdata(w: &mut DocBookWriter, content: &str) -> (r: Result<(), xml::writer::Error>)
    ensures
        r is Ok,
        r is Ok ==> final (w).written() == old(w).written().push(WriterEvent::CData(content@)),
{
    w.inner.write(xml::writer::XmlEvent::cdata(content))
}

/// The bytes that the writer's fixed default configuration serialises
/// for a sequence of events; a function of the events alone.
pub uninterp spec fn xml_rendering(events: Seq<WriterEvent>) -> Seq<u8>;

/// Relies on `EventWriter::into_inner`: the sink holds exactly the
/// bytes serialised for the events written, here named
/// `xml_rendering`.
#[verifier::external_body]
pub fn finish(w: DocBookWriter) -> (r: Vec<u8>)
    ensures
        r@ == xml_rendering(w.written()),
{
    w.inner.into_inner()
}

fn lift<T>(r: Result<T, xml::writer::Error>) -> (out: Result<T, RenderError>)
    ensures
        out is Ok == r is Ok,
        r is Ok ==> out->Ok_0 == r->Ok_0,
{
    match r {
        Ok(v) => Ok(v),
        Err(e) => Err(RenderError { cause: e }),
    }
}

/// The events of one flat argument: a `varlistentry` with the name as
/// a `varname` term and the doc text in a `para`.
pub open spec fn flat_arg_events(a: SingleArg) -> Seq<WriterEvent> {
    seq![
        WriterEvent::Start("varlistentry"@),
        WriterEvent::Start("term"@),
        WriterEvent::Start("varname"@),
        WriterEvent::Text(a.name@),
        WriterEvent::End,
        WriterEvent::End,
        WriterEvent::Start("listitem"@),
        WriterEvent::Start("para"@),
        WriterEvent::Text(arg_doc_text(a)),
        WriterEvent::End,
        WriterEvent::End,
        WriterEvent::End,
    ]
}

/// The events of a pattern's members, each as a flat entry, in
/// declaration order.
pub open spec fn pat_entries_events(v: Seq<SingleArg>) -> Seq<WriterEvent>
    decreases v.len(),
{
    if v.len() == 0 {
        Seq::empty()
    } else {
        pat_entries_events(v.drop_last()) + flat_arg_events(v.last())
    }
}

/// The events of one argument: a flat entry directly; a pattern as a
/// synthetic `pattern` term whose item nests a `variablelist` of its
/// members.
pub open spec fn argument_events(a: Argument) -> Seq<WriterEvent> {
    match a {
        Argument::Flat(s) => flat_arg_events(s),
        Argument::Pattern(v) => seq![
            WriterEvent::Start("varlistentry"@),
            WriterEvent::Start("term"@),
            WriterEvent::Start("varname"@),
            WriterEvent::Text("pattern"@),
            WriterEvent::End,
            WriterEvent::End,
            WriterEvent::Start("listitem"@),
            WriterEvent::Start("para"@),
            WriterEvent::Text("Structured function argument"@),
            WriterEvent::End,
            WriterEvent::Start("variablelist"@),
        ] + pat_entries_events(v@) + seq![WriterEvent::End, WriterEvent::End, WriterEvent::End],
    }
}

/// The events of an argument list, in order.
pub open spec fn args_events(v: Seq<Argument>) -> Seq<WriterEvent>
    decreases v.len(),
{
    if v.len() == 0 {
        Seq::empty()
    } else {
        args_events(v.drop_last()) + argument_events(v.last())
    }
}

/// The argument block of a section: a `variablelist` around the
/// arguments, or nothing when there are none.
pub open spec fn args_section_events(v: Seq<Argument>) -> Seq<WriterEvent> {
    if v.len() == 0 {
        Seq::empty()
    } else {
        seq![WriterEvent::Start("variablelist"@)] + args_events(v) + seq![WriterEvent::End]
    }
}

/// The subtitle of a section: the type signature as a literal, or
/// nothing.
pub open spec fn subtitle_events(t: Option<String>) -> Seq<WriterEvent> {
    match t {
        Some(sig) => seq![
            WriterEvent::Start("subtitle"@),
            WriterEvent::Start("literal"@),
            WriterEvent::Text(sig@),
            WriterEvent::End,
            WriterEvent::End,
        ],
        None => Seq::empty(),
    }
}

/// The description paragraphs of a section, each its own `para`.
pub open spec fn para_events(d: Seq<String>) -> Seq<WriterEvent>
    decreases d.len(),
{
    if d.len() == 0 {
        Seq::empty()
    } else {
        para_events(d.drop_last()) + seq![
            WriterEvent::Start("para"@),
            WriterEvent::Text(d.last()@),
            WriterEvent::End,
        ]
    }
}

/// The example block of a section: a titled `example` whose program
/// listing wraps the example text in CDATA, or nothing.
pub open spec fn example_events(title: Seq<char>, e: Option<String>) -> Seq<WriterEvent> {
    match e {
        Some(ex) => seq![
            WriterEvent::Start("example"@),
            WriterEvent::Start("title"@),
            WriterEvent::Start("function"@),
            WriterEvent::Text(title),
            WriterEvent::End,
            WriterEvent::Text(" usage example"@),
            WriterEvent::End,
            WriterEvent::Start("programlisting"@),
            WriterEvent::CData(ex@),
            WriterEvent::End,
            WriterEvent::End,
        ],
        None => Seq::empty(),
    }
}

/// The opening events of a section: the `section` element with its
/// stable identifier, the title, and the inclusion placeholder whose
/// fallback carries the generated body.
pub open spec fn section_head_events(e: ManualEntry) -> Seq<WriterEvent> {
    seq![
        WriterEvent::StartAttrs(
            "section"@,
            seq![("xml:id"@, "function-library-"@ + full_ident(e.category@, e.name@))],
        ),
        WriterEvent::Start("title"@),
        WriterEvent::Start("function"@),
        WriterEvent::Text(full_title(e.category@, e.name@)),
        WriterEvent::End,
        WriterEvent::End,
        WriterEvent::StartAttrs(
            "xi:include"@,
            seq![
                ("href"@, "./overrides/"@ + full_ident(e.category@, e.name@) + ".xml"@),
            ],
        ),
        WriterEvent::Start("xi:fallback"@),
    ]
}

/// The closing events of a section: the fallback and include are
/// closed, the source-location index is referenced by the same
/// identifier, and the section ends.
pub open spec fn section_tail_events(e: ManualEntry) -> Seq<WriterEvent> {
    seq![
        WriterEvent::End,
        WriterEvent::End,
        WriterEvent::StartAttrs(
            "xi:include"@,
            seq![
                ("href"@, "./locations.xml"@),
                ("xpointer"@, full_ident(e.category@, e.name@)),
            ],
        ),
        WriterEvent::End,
        WriterEvent::End,
    ]
}

/// Every event of one entry's section, in order.
pub open spec fn section_events(e: ManualEntry) -> Seq<WriterEvent> {
    section_head_events(e) + subtitle_events(e.fn_type) + para_events(e.description@)
        + args_section_events(e.args@) + example_events(full_title(e.category@, e.name@), e.example)
        + section_tail_events(e)
}

/// The concatenated sections of a sequence of entries, kept in the
/// order given.
pub open spec fn sections_events(es: Seq<ManualEntry>) -> Seq<WriterEvent>
    decreases es.len(),
{
    if es.len() == 0 {
        Seq::empty()
    } else {
        sections_events(es.drop_last()) + section_events(es.last())
    }
}

impl Argument {
    /// Write the events of this argument: exactly its event sequence
    /// is appended, and the write succeeds whenever the record is
    /// well-nested (it never closes an element it did not open).
    fn write_argument_xml(&self, w: &mut DocBookWriter) -> (r: Result<(), RenderError>)
        ensures
            open_depth(old(w).written()) >= 0 ==> r is Ok,
            r is Ok ==> final (w).written() == old(w).written() + argument_events(*self),
            r is Ok ==> open_depth(final (w).written()) == open_depth(old(w).written()),
    {
        match self {
            Argument::Flat(arg) => {
                write_flat_arg(w, arg)?;
                assert(final (w).written() =~= old(w).written() + argument_events(*self));
            },
            Argument::Pattern(pattern_args) => {
                lift(element(w, "varlistentry"))?;
                lift(element(w, "term"))?;
                lift(element(w, "varname"))?;
                lift(string(w, "pattern"))?;
                lift(end(w))?;
                lift(end(w))?;
                lift(element(w, "listitem"))?;
                lift(element(w, "para"))?;
                lift(string(w, "Structured function argument"))?;
                lift(end(w))?;
                lift(element(w, "variablelist"))?;
                let ghost base = w.written();
                assert(base =~= old(w).written() + seq![
                    WriterEvent::Start("varlistentry"@),
                    WriterEvent::Start("term"@),
                    WriterEvent::Start("varname"@),
                    WriterEvent::Text("pattern"@),
                    WriterEvent::End,
                    WriterEvent::End,
                    WriterEvent::Start("listitem"@),
                    WriterEvent::Start("para"@),
                    WriterEvent::Text("Structured function argument"@),
                    WriterEvent::End,
                    WriterEvent::Start("variablelist"@),
                ]);
                let mut i: usize = 0;
                assert(w.written() + pat_entries_events(pattern_args@.take(0)) =~= base);
                while i < pattern_args.len()
                    invariant
                        i <= pattern_args.len(),
                        w.written() == base + pat_entries_events(pattern_args@.take(i as int)),
                        open_depth(w.written()) == open_depth(old(w).written()) + 3,
                    decreases pattern_args.len() - i,
                {
                    write_flat_arg(w, &pattern_args[i])?;
                    assert(pattern_args@.take(i + 1).drop_last() =~= pattern_args@.take(i as int));
                    i = i + 1;
                }
                assert(pattern_args@.take(pattern_args@.len() as int) =~= pattern_args@);
                lift(end(w))?;
                lift(end(w))?;
                lift(end(w))?;
                assert(final (w).written() =~= old(w).written() + argument_events(*self));
            },
        }
        Ok(())
    }
}

fn write_flat_arg(w: &mut DocBookWriter, arg: &SingleArg) -> (r: Result<(), RenderError>)
    ensures
        open_depth(old(w).written()) >= 0 ==> r is Ok,
        r is Ok ==> final (w).written() == old(w).written() + flat_arg_events(*arg),
        r is Ok ==> open_depth(final (w).written()) == open_depth(old(w).written()),
{
    lift(element(w, "varlistentry"))?;
    lift(element(w, "term"))?;
    lift(element(w, "varname"))?;
    lift(string(w, arg.name.as_str()))?;
    lift(end(w))?;
    lift(end(w))?;
    lift(element(w, "listitem"))?;
    lift(element(w, "para"))?;
    let doc_text = match &arg.doc {
        Some(d) => {
            let dc = chars_of(d.as_str());
            let trimmed = crate::text::trim_chars(&dc);
            string_from_chars(&trimmed)
        },
        None => String::from_str("Function argument"),
    };
    assert(doc_text@ == arg_doc_text(*arg));
    lift(string(w, doc_text.as_str()))?;
    lift(end(w))?;
    lift(end(w))?;
    lift(end(w))?;
    assert(final (w).written() =~= old(w).written() + flat_arg_events(*arg));
    Ok(())
}

fn write_section_head(
    w: &mut DocBookWriter,
    title_str: &str,
    section_id_str: &str,
    override_str: &str,
    Ghost(e): Ghost<ManualEntry>,
) -> (r: Result<(), RenderError>)
    requires
        title_str@ == full_title(e.category@, e.name@),
        section_id_str@ == "function-library-"@ + full_ident(e.category@, e.name@),
        override_str@ == "./overrides/"@ + full_ident(e.category@, e.name@) + ".xml"@,
    ensures
        open_depth(old(w).written()) >= 0 ==> r is Ok,
        r is Ok ==> final (w).written() == old(w).written() + section_head_events(e),
        r is Ok ==> open_depth(final (w).written()) == open_depth(old(w).written()) + 3,
{
    lift(element_attr(w, "section", "xml:id", section_id_str))?;
    lift(element(w, "title"))?;
    lift(element(w, "function"))?;
    lift(string(w, title_str))?;
    lift(end(w))?;
    lift(end(w))?;
    lift(element_attr(w, "xi:include", "href", override_str))?;
    lift(element(w, "xi:fallback"))?;
    assert(w.written() =~= old(w).written() + section_head_events(e));
    Ok(())
}

fn write_subtitle(w: &mut DocBookWriter, fn_type: &Option<String>) -> (r: Result<(), RenderError>)
    ensures
        open_depth(old(w).written()) >= 0 ==> r is Ok,
        r is Ok ==> final (w).written() == old(w).written() + subtitle_events(*fn_type),
        r is Ok ==> open_depth(final (w).written()) == open_depth(old(w).written()),
{
    match fn_type {
        Some(t) => {
            lift(element(w, "subtitle"))?;
            lift(element(w, "literal"))?;
            lift(string(w, t.as_str()))?;
            lift(end(w))?;
            lift(end(w))?;
            assert(w.written() =~= old(w).written() + subtitle_events(*fn_type));
        },
        None => {
            assert(w.written() =~= old(w).written() + subtitle_events(*fn_type));
        },
    }
    Ok(())
}

fn write_paras(w: &mut DocBookWriter, description: &Vec<String>) -> (r: Result<(), RenderError>)
    ensures
        open_depth(old(w).written()) >= 0 ==> r is Ok,
        r is Ok ==> final (w).written() == old(w).written() + para_events(description@),
        r is Ok ==> open_depth(final (w).written()) == open_depth(old(w).written()),
{
    let mut i: usize = 0;
    assert(w.written() + para_events(description@.take(0)) =~= w.written());
    while i < description.len()
        invariant
            i <= description.len(),
            w.written() == old(w).written() + para_events(description@.take(i as int)),
            open_depth(w.written()) == open_depth(old(w).written()),
        decreases description.len() - i,
    {
        lift(element(w, "para"))?;
        lift(string(w, description[i].as_str()))?;
        lift(end(w))?;
        assert(description@.take(i + 1).drop_last() =~= description@.take(i as int));
        assert(w.written() =~= old(w).written() + para_events(description@.take(i + 1)));
        i = i + 1;
    }
    assert(description@.take(description@.len() as int) =~= description@);
    Ok(())
}

fn write_args_xml(w: &mut DocBookWriter, args: &Vec<Argument>) -> (r: Result<(), RenderError>)
    ensures
        open_depth(old(w).written()) >= 0 ==> r is Ok,
        r is Ok ==> final (w).written() == old(w).written() + args_section_events(args@),
        r is Ok ==> open_depth(final (w).written()) == open_depth(old(w).written()),
{
    if args.len() > 0 {
        lift(element(w, "variablelist"))?;
        let ghost args_base = w.written();
        let mut k: usize = 0;
        assert(w.written() + args_events(args@.take(0)) =~= args_base);
        while k < args.len()
            invariant
                k <= args.len(),
                w.written() == args_base + args_events(args@.take(k as int)),
                open_depth(w.written()) == open_depth(old(w).written()) + 1,
            decreases args.len() - k,
        {
            args[k].write_argument_xml(w)?;
            assert(args@.take(k + 1).drop_last() =~= args@.take(k as int));
            k = k + 1;
        }
        assert(args@.take(args@.len() as int) =~= args@);
        lift(end(w))?;
    }
    assert(w.written() =~= old(w).written() + args_section_events(args@));
    Ok(())
}

fn write_example(w: &mut DocBookWriter, title_str: &str, example: &Option<String>) -> (r: Result<
    (),
    RenderError,
>)
    ensures
        open_depth(old(w).written()) >= 0 ==> r is Ok,
        r is Ok ==> final (w).written() == old(w).written() + example_events(title_str@, *example),
        r is Ok ==> open_depth(final (w).written()) == open_depth(old(w).written()),
{
    match example {
        Some(ex) => {
            lift(element(w, "example"))?;
            lift(element(w, "title"))?;
            lift(element(w, "function"))?;
            lift(string(w, title_str))?;
            lift(end(w))?;
            lift(string(w, " usage example"))?;
            lift(end(w))?;
            lift(element(w, "programlisting"))?;
            lift(cdata(w, ex.as_str()))?;
            lift(end(w))?;
            lift(end(w))?;
            assert(w.written() =~= old(w).written() + example_events(title_str@, *example));
        },
        None => {
            assert(w.written() =~= old(w).written() + example_events(title_str@, *example));
        },
    }
    Ok(())
}

fn write_section_tail(w: &mut DocBookWriter, ident_str: &str, Ghost(e): Ghost<ManualEntry>) -> (r:
    Result<(), RenderError>)
    requires
        ident_str@ == full_ident(e.category@, e.name@),
    ensures
        open_depth(old(w).written()) >= 3 ==> r is Ok,
        r is Ok ==> final (w).written() == old(w).written() + section_tail_events(e),
        r is Ok ==> open_depth(final (w).written()) == open_depth(old(w).written()) - 3,
{
    lift(end(w))?;
    lift(end(w))?;
    lift(element_attr2(w, "xi:include", "href", "./locations.xml", "xpointer", ident_str))?;
    lift(end(w))?;
    lift(end(w))?;
    assert(w.written() =~= old(w).written() + section_tail_events(e));
    Ok(())
}

impl ManualEntry {
    /// Write this entry's whole section: exactly its event sequence is
    /// appended. The write succeeds whenever the record is well-nested
    /// — in particular always on a fresh writer or after other whole
    /// sections — since the section closes only elements it opened and
    /// the sink is in memory.
    pub fn write_section_xml(&self, w: &mut DocBookWriter) -> (r: Result<(), RenderError>)
        ensures
            open_depth(old(w).written()) >= 0 ==> r is Ok,
            r is Ok ==> final (w).written() == old(w).written() + section_events(*self),
            r is Ok ==> open_depth(final (w).written()) == open_depth(old(w).written()),
    {
        let mut title: Vec<char> = Vec::new();
        append_str(&mut title, "lib.");
        append_str(&mut title, self.category.as_str());
        append_str(&mut title, ".");
        append_str(&mut title, self.name.as_str());
        let title_str = string_from_chars(&title);
        assert(title_str@ =~= full_title(self.category@, self.name@));

        let name_chars = chars_of(self.name.as_str());
        let rewritten = prime_rewrite_chars(&name_chars);
        let mut ident: Vec<char> = Vec::new();
        append_str(&mut ident, "lib.");
        append_str(&mut ident, self.category.as_str());
        append_str(&mut ident, ".");
        crate::text::append_chars(&mut ident, &rewritten);
        assert(ident@ =~= full_ident(self.category@, self.name@));

        let mut section_id: Vec<char> = Vec::new();
        append_str(&mut section_id, "function-library-");
        crate::text::append_chars(&mut section_id, &ident);
        let section_id_str = string_from_chars(&section_id);

        let mut override_path: Vec<char> = Vec::new();
        append_str(&mut override_path, "./overrides/");
        crate::text::append_chars(&mut override_path, &ident);
        append_str(&mut override_path, ".xml");
        let override_str = string_from_chars(&override_path);

        let ident_str = string_from_chars(&ident);

        write_section_head(
            w,
            title_str.as_str(),
            section_id_str.as_str(),
            override_str.as_str(),
            Ghost(*self),
        )?;
        let ghost head_done = w.written();
        write_subtitle(w, &self.fn_type)?;
        let ghost subtitle_done = w.written();
        write_paras(w, &self.description)?;
        let ghost paras_done = w.written();
        write_args_xml(w, &self.args)?;
        let ghost args_done = w.written();
        write_example(w, title_str.as_str(), &self.example)?;
        let ghost example_done = w.written();
        write_section_tail(w, ident_str.as_str(), Ghost(*self))?;
        assert(w.written() =~= old(w).written() + section_events(*self));
        Ok(())
    }
}

/// Write every entry's section, in exactly the order the entries are
/// given: the concatenation of their event sequences is appended, and
/// the writes succeed whenever the record is well-nested — always,
/// from a fresh writer.
pub fn write_sections_xml(entries: &Vec<ManualEntry>, w: &mut DocBookWriter) -> (r: Result<
    (),
    RenderError,
>)
    ensures
        open_depth(old(w).written()) >= 0 ==> r is Ok,
        r is Ok ==> final (w).written() == old(w).written() + sections_events(entries@),
        r is Ok ==> open_depth(final (w).written()) == open_depth(old(w).written()),
{
    let mut i: usize = 0;
    assert(w.written() + sections_events(entries@.take(0)) =~= w.written());
    while i < entries.len()
        invariant
            i <= entries.len(),
            w.written() == old(w).written() + sections_events(entries@.take(i as int)),
            open_depth(w.written()) == open_depth(old(w).written()),
        decreases entries.len() - i,
    {
        entries[i].write_section_xml(w)?;
        assert(entries@.take(i + 1).drop_last() =~= entries@.take(i as int));
        i = i + 1;
    }
    assert(entries@.take(entries@.len() as int) =~= entries@);
    Ok(())
}

/// Entry order is preserved in the XML backend too: in the emitted
/// event stream, the section of the entry at position `i` stands
/// between the sections of the entries before it and those after it.
pub proof fn lemma_xml_entry_order(es: Seq<ManualEntry>, i: int)
    requires
        0 <= i < es.len(),
    ensures
        sections_events(es) == sections_events(es.take(i)) + section_events(es[i])
            + sections_events(es.skip(i + 1)),
    decreases es.len(),
{
    if i == es.len() - 1 {
        assert(es.take(i) =~= es.drop_last());
        assert(es.skip(i + 1) =~= Seq::<ManualEntry>::empty());
        assert(sections_events(es.take(i)) + section_events(es[i]) + sections_events(
            es.skip(i + 1),
        ) =~= sections_events(es.drop_last()) + section_events(es.last()));
    } else {
        let dl = es.drop_last();
        lemma_xml_entry_order(dl, i);
        assert(dl.take(i) =~= es.take(i));
        assert(dl[i] == es[i]);
        assert(es.skip(i + 1).drop_last() =~= dl.skip(i + 1));
        assert(es.skip(i + 1).last() == es.last());
        assert(sections_events(es.skip(i + 1)) == sections_events(dl.skip(i + 1)) + section_events(
            es.last(),
        ));
        assert(sections_events(es) == sections_events(dl) + section_events(es.last()));
        assert(sections_events(es.take(i)) + section_events(es[i]) + sections_events(
            es.skip(i + 1),
        ) =~= sections_events(dl.take(i)) + section_events(dl[i]) + sections_events(dl.skip(i + 1))
            + section_events(es.last()));
    }
}

} // verus!
