//! The single forward pass: drain the event stream in order, stop at a
//! stream fault or a fatal error, then run the resolution pass over
//! whatever was accumulated.

use vstd::prelude::*;

use crate::builders::finalize_spec;
use crate::events::events_of;
use crate::events::events_view;
use crate::events::read_events;
use crate::events::ParseEvent;
use crate::events::ParseEventV;
use crate::handler::init_handler_spec;
use crate::handler::spec_enter;
use crate::handler::spec_leave;
use crate::handler::spec_text;
use crate::handler::HandlerV;
use crate::handler::ManifestHandler;
use crate::types::Manifest;
use crate::types::ManifestV;
use crate::types::ParseError;

verus! {

/// What one event does to the traversal state; an element open may be
/// fatal, everything else cannot fail.
pub open spec fn spec_step(h: HandlerV, ev: ParseEventV) -> Result<HandlerV, ParseError> {
    match ev {
        ParseEventV::Open(node) => spec_enter(h, node),
        ParseEventV::Close(name) => Ok(spec_leave(h, name)),
        ParseEventV::Text(chars) => Ok(spec_text(h, chars)),
        ParseEventV::Other => Ok(h),
        ParseEventV::Fault => Ok(h),
    }
}

/// Folding the whole event sequence from state `h`: the result is the
/// final state paired with whether the stream faulted (in which case
/// the remaining events are not consumed), or the fatal error that
/// ended the parse.
pub open spec fn run_events_spec(h: HandlerV, evs: Seq<ParseEventV>) -> Result<
    (HandlerV, bool),
    ParseError,
>
    decreases evs.len(),
{
    if evs.len() == 0 {
        Ok((h, false))
    } else if evs[0] is Fault {
        Ok((h, true))
    } else {
        match spec_step(h, evs[0]) {
            Ok(h2) => run_events_spec(h2, evs.drop_first()),
            Err(e) => Err(e),
        }
    }
}

/// The outcome of one parse over a whole event sequence: the finalized
/// manifest of everything accumulated up to the end of the stream, a
/// fault, or a fatal error.
pub open spec fn parse_outcome_spec(evs: Seq<ParseEventV>) -> Result<
    (ManifestV, bool),
    ParseError,
> {
    match run_events_spec(init_handler_spec(), evs) {
        Ok((h, fault)) => Ok((finalize_spec(h.builder), fault)),
        Err(e) => Err(e),
    }
}

/// A parse that produced a manifest: `truncated` tells whether the
/// stream faulted midway, in which case the manifest covers only what
/// was accumulated up to the fault.
#[derive(Debug)]
pub struct ParseOutcome {
    pub manifest: Manifest,
    pub truncated: bool,
}

/// Drain the events into the handler, in order. Returns whether the
/// stream faulted, or the fatal error that ended the parse.
pub fn handle_parse(events: Vec<ParseEvent>, handler: &mut ManifestHandler) -> (r: Result<
    bool,
    ParseError,
>)
    requires
        old(handler).index_tracker.module_index <= usize::MAX - events@.len(),
        old(handler).index_tracker.module_item_index <= usize::MAX - events@.len(),
    ensures
        match r {
            Ok(fault) => run_events_spec(old(handler)@, events_view(events@)) == Ok::<
                (HandlerV, bool),
                ParseError,
            >((final(handler)@, fault)),
            Err(e) => run_events_spec(old(handler)@, events_view(events@)) == Err::<
                (HandlerV, bool),
                ParseError,
            >(e),
        },
{
    let ghost full = events_view(events@);
    let ghost h0 = handler@;
    let mut evs = events;
    let ghost total = evs@.len() as int;
    while evs.len() > 0
        invariant
            h0 == old(handler)@,
            full == events_view(events@),
            Seq::new(evs@.len(), |i: int| evs@[i]@) =~= full.skip(total - evs@.len()),
            0 <= total - evs@.len() <= total,
            total == full.len(),
            handler.index_tracker.module_index <= usize::MAX - evs@.len(),
            handler.index_tracker.module_item_index <= usize::MAX - evs@.len(),
            run_events_spec(h0, full) == run_events_spec(handler@, full.skip(total - evs@.len())),
        decreases evs@.len(),
    {
        let ghost p = total - evs@.len();
        let ghost pre = evs@;
        let ev = evs.remove(0);
        proof {
            crate::builders::lemma_view_seq_remove_front(pre, evs@, full, p);
            assert(ev@ == full[p]);
            assert(full.skip(p).drop_first() =~= full.skip(p + 1));
            assert(full.skip(p)[0] == full[p]);
        }
        match ev {
            ParseEvent::Open(node) => {
                match handler.enter(node) {
                    Ok(()) => {},
                    Err(e) => {
                        proof {
                            assert(run_events_spec(h0, full) == Err::<
                                (HandlerV, bool),
                                ParseError,
                            >(e));
                        }
                        return Err(e);
                    },
                }
            },
            ParseEvent::Close(name) => {
                handler.leave(name.as_str());
            },
            ParseEvent::Text(chars) => {
                handler.receive_chars(chars);
            },
            ParseEvent::Other => {},
            ParseEvent::Fault => {
                proof {
                    assert(run_events_spec(handler@, full.skip(p)) == Ok::<
                        (HandlerV, bool),
                        ParseError,
                    >((handler@, true)));
                }
                return Ok(true);
            },
        }
    }
    proof {
        assert(full.skip(total) =~= Seq::<ParseEventV>::empty());
    }
    Ok(false)
}

/// Run one whole parse over an event sequence: fresh state, single
/// forward pass, then the resolution pass. The outcome is exactly
/// `parse_outcome_spec` of the events.
pub fn parse_events(events: Vec<ParseEvent>) -> (r: Result<ParseOutcome, ParseError>)
    ensures
        match r {
            Ok(out) => parse_outcome_spec(events_view(events@)) == Ok::<
                (ManifestV, bool),
                ParseError,
            >((out.manifest@, out.truncated)),
            Err(e) => parse_outcome_spec(events_view(events@)) == Err::<
                (ManifestV, bool),
                ParseError,
            >(e),
        },
{
    let mut handler = ManifestHandler::new();
    proof {
        // The vector's length is a machine integer, so the fresh
        // counters sit far enough below usize::MAX for handle_parse.
        assert(events.len() == events@.len());
    }
    let truncated = match handle_parse(events, &mut handler) {
        Ok(fault) => fault,
        Err(e) => {
            return Err(e);
        },
    };
    let manifest = handler.finalize_manifest();
    Ok(ParseOutcome { manifest, truncated })
}

/// Parse a manifest document from its bytes: the single entry point
/// from raw input. The XML reader turns the bytes into the event
/// stream `events_of(bytes)`, and the outcome is exactly
/// `parse_outcome_spec` of that stream.
pub fn parse(bytes: &[u8]) -> (r: Result<ParseOutcome, ParseError>)
    ensures
        match r {
            Ok(out) => parse_outcome_spec(events_of(bytes@)) == Ok::<
                (ManifestV, bool),
                ParseError,
            >((out.manifest@, out.truncated)),
            Err(e) => parse_outcome_spec(events_of(bytes@)) == Err::<(ManifestV, bool), ParseError>(
                e,
            ),
        },
{
    let events = read_events(bytes);
    parse_events(events)
}

} // verus!
