//! The pipeline driver: a state machine over the byte source.  Each step
//! takes one source event and decides everything the loop does with it —
//! decode, lay out the publish, or stop — so the loop around it only
//! performs transport and reporting.

use vstd::prelude::*;
use crate::decode::{
    AdsbMessage, float_repr, line_accepted, parse_adsb_message, parsed_from, tt_of,
};
use crate::json::{json_escaped, opt_u32_json, payload_model};
use crate::numbers::{dec_repr, parse_uint_spec};
use crate::sink::{PublishPlan, SinkTarget, plan_destination, plan_key_ok, publish_plan};
use crate::text::split_comma;

verus! {

/// Where the loop stands: reading lines, or done with the source.
#[derive(Debug, Clone, Copy, PartialEq, Eq)]
pub enum DriverState {
    Running,
    Terminated,
}

/// One thing the byte source hands the loop: a line, the end of the
/// stream, or a read error.  The latter two end the run the same way.
#[derive(Debug, PartialEq, Eq)]
pub enum SourceEvent {
    Line(String),
    StreamEnd,
    StreamError,
}

/// What the loop is to do with the event: publish a laid-out record,
/// report a rejected line, or leave the loop.
#[derive(Debug, PartialEq, Eq)]
pub enum StepAction {
    Publish(PublishPlan),
    Reject,
    Stop,
}

/// The identifier field of a line.
pub open spec fn line_identifier(l: Seq<char>) -> Seq<char> {
    split_comma(l)[4]
}

/// The transmission type encoded on a line.
pub open spec fn line_tt(l: Seq<char>) -> int {
    tt_of(split_comma(l)[1])
}

/// A floating-point field of a line, as it appears in the payload.
pub open spec fn float_json(f: Seq<char>) -> Seq<char> {
    match float_repr(f) {
        Some(t) => t,
        None => "null"@,
    }
}

/// The payload published for an accepted line, as a function of the line
/// alone.
pub open spec fn line_payload_model(l: Seq<char>) -> Seq<char> {
    let fs = split_comma(l);
    "{\"identifier\":\""@ + json_escaped(fs[4]) + "\",\"transmissionType\":"@ + dec_repr(
        tt_of(fs[1]),
    ) + ",\"altitude\":"@ + opt_u32_json(parse_uint_spec(fs[11], u32::MAX as int))
        + ",\"latitude\":"@ + float_json(fs[14]) + ",\"longitude\":"@ + float_json(fs[15])
        + ",\"groundSpeed\":"@ + float_json(fs[12]) + ",\"track\":"@ + float_json(fs[13]) + "}"@
}

/// The payload of a decoded record is the payload of its line: decoding
/// and laying out the publish add nothing the line did not fix.
pub proof fn lemma_payload_of_line(l: Seq<char>, m: AdsbMessage)
    requires
        line_accepted(l),
        parsed_from(l, m),
    ensures
        payload_model(m) == line_payload_model(l),
{
    let fs = split_comma(l);
    assert(crate::json::opt_num_json(m.latitude) == float_json(fs[14]));
    assert(crate::json::opt_num_json(m.longitude) == float_json(fs[15]));
    assert(crate::json::opt_num_json(m.ground_speed) == float_json(fs[12]));
    assert(crate::json::opt_num_json(m.track) == float_json(fs[13]));
    assert(payload_model(m) =~= line_payload_model(l));
}

/// One step of the pipeline.  While running: a line decodes to a publish
/// laid out for the active sink exactly when the line is accepted, and to
/// a report otherwise, the loop staying live either way; the end of the
/// stream, or a read error, terminates the run.  A terminated driver only
/// ever stops.
pub fn driver_step(target: &SinkTarget, state: DriverState, event: &SourceEvent) -> (r: (
    DriverState,
    StepAction,
))
    ensures
        state is Terminated ==> r.0 is Terminated && r.1 is Stop,
        state is Running ==> ((*event) matches SourceEvent::Line(l) ==> {
            &&& r.0 is Running
            &&& line_accepted(l@) ==> (r.1 matches StepAction::Publish(p) && p.destination@
                == plan_destination(*target, line_identifier(l@), line_tt(l@)) && plan_key_ok(
                *target,
                line_identifier(l@),
                p.key,
            ) && p.payload@ == line_payload_model(l@))
            &&& !line_accepted(l@) ==> r.1 is Reject
        }),
        state is Running ==> (((*event) is StreamEnd || (*event) is StreamError) ==> r.0
            is Terminated && r.1 is Stop),
{
    match state {
        DriverState::Terminated => (DriverState::Terminated, StepAction::Stop),
        DriverState::Running => match event {
            SourceEvent::Line(l) => match parse_adsb_message(l.as_str()) {
                Some(m) => {
                    proof {
                        lemma_payload_of_line(l@, m);
                    }
                    let p = publish_plan(target, &m);
                    (DriverState::Running, StepAction::Publish(p))
                },
                None => (DriverState::Running, StepAction::Reject),
            },
            SourceEvent::StreamEnd => (DriverState::Terminated, StepAction::Stop),
            SourceEvent::StreamError => (DriverState::Terminated, StepAction::Stop),
        },
    }
}

} // verus!
