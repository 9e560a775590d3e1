//! The event model of the XML writer: what one emitted event is, and
//! how a record of events nests elements. The renderer's contracts
//! are stated over this model.

use vstd::prelude::*;

verus! {

/// One event handed to the XML writer, as the contracts record it:
/// an element start (with its attributes as name-value pairs, in
/// order), an element end, character data, or a CDATA block.
pub enum WriterEvent {
    Start(Seq<char>),
    StartAttrs(Seq<char>, Seq<(Seq<char>, Seq<char>)>),
    End,
    Text(Seq<char>),
    CData(Seq<char>),
}

/// What one event does to the element nesting: a start opens one
/// element, an end closes one, text and CDATA leave it as it is.
pub open spec fn event_delta(e: WriterEvent) -> int {
    match e {
        WriterEvent::Start(_) => 1,
        WriterEvent::StartAttrs(_, _) => 1,
        WriterEvent::End => -1,
        WriterEvent::Text(_) => 0,
        WriterEvent::CData(_) => 0,
    }
}

/// How many elements a record of events leaves open: starts minus
/// ends. The writer's own stack of open element names holds exactly
/// this many entries, since every recorded start pushed one name and
/// every recorded end popped one.
pub open spec fn open_depth(es: Seq<WriterEvent>) -> int
    decreases es.len(),
{
    if es.len() == 0 {
        0
    } else {
        open_depth(es.drop_last()) + event_delta(es.last())
    }
}

/// Appending one event moves the open depth by that event's delta.
pub broadcast proof fn lemma_open_depth_push(es: Seq<WriterEvent>, e: WriterEvent)
    ensures
        #[trigger] open_depth(es.push(e)) == open_depth(es) + event_delta(e),
{
    assert(es.push(e).drop_last() =~= es);
}


} // verus!
