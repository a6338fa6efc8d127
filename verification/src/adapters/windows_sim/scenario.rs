//! Replay scenarios: events with timestamps that must not decrease, each of
//! a known kind whose payload holds the fields that kind requires.

use vstd::prelude::*;

use crate::adapters::windows_sim::replay::{
    ReplayEvent, ReplayEventView, ReplayParseError, ReplayParseErrorView, TimedReplayEvent,
    TimedReplayEventView,
};
use crate::messages::{Target10Command, Target10CommandView, Target5Status};
use crate::text::str_eq;

verus! {

/// A scenario: its events, in the order given.
#[derive(Debug, Clone, PartialEq, Eq)]
pub struct ReplayScenario {
    pub events: Vec<TimedReplayEvent>,
}

/// One event of a scenario document with its payload read both ways: as a
/// Target5 status and as a Target10 command, each with the message of the
/// reader that refused it.
#[derive(Debug, PartialEq, Eq)]
pub struct ScenarioEventInput {
    pub timestamp_ms: u64,
    pub kind: String,
    pub as_status: Result<Target5Status, String>,
    pub as_command: Result<Target10Command, String>,
}

pub struct ScenarioEventInputView {
    pub timestamp_ms: u64,
    pub kind: Seq<char>,
    pub as_status: Result<Target5Status, Seq<char>>,
    pub as_command: Result<Target10CommandView, Seq<char>>,
}

impl View for ScenarioEventInput {
    type V = ScenarioEventInputView;

    open spec fn view(&self) -> ScenarioEventInputView {
        ScenarioEventInputView {
            timestamp_ms: self.timestamp_ms,
            kind: self.kind@,
            as_status: match self.as_status {
                Ok(s) => Ok(s),
                Err(m) => Err(m@),
            },
            as_command: match self.as_command {
                Ok(c) => Ok(c@),
                Err(m) => Err(m@),
            },
        }
    }
}

/// What one scenario event becomes, given the timestamp of the event before
/// it: the timestamps must not decrease, then the kind must be known and its
/// payload readable.
pub open spec fn spec_scenario_event(input: ScenarioEventInputView, previous: Option<u64>) -> Result<TimedReplayEventView, ReplayParseErrorView> {
    if previous is Some && input.timestamp_ms < previous->0 {
        Err(ReplayParseErrorView::InvalidEventOrder {
            previous_timestamp_ms: previous->0,
            current_timestamp_ms: input.timestamp_ms,
        })
    } else if input.kind == "target5_status"@ {
        match input.as_status {
            Ok(s) => Ok(TimedReplayEventView { sequence: input.timestamp_ms, event: ReplayEventView::Target5Status(s) }),
            Err(m) => Err(ReplayParseErrorView::MissingRequiredField { kind: "target5_status"@, message: m }),
        }
    } else if input.kind == "target10_command"@ {
        match input.as_command {
            Ok(c) => Ok(TimedReplayEventView { sequence: input.timestamp_ms, event: ReplayEventView::Target10Command(c) }),
            Err(m) => Err(ReplayParseErrorView::MissingRequiredField { kind: "target10_command"@, message: m }),
        }
    } else {
        Err(ReplayParseErrorView::UnknownEventKind { kind: input.kind })
    }
}

/// The timestamp of the event before position `k`, if any.
pub open spec fn previous_timestamp(inputs: Seq<ScenarioEventInputView>, k: int) -> Option<u64> {
    if k <= 0 {
        None
    } else {
        Some(inputs[k - 1].timestamp_ms)
    }
}

/// The first `n` events of a scenario are accepted.
pub open spec fn scenario_prefix_ok(inputs: Seq<ScenarioEventInputView>, n: int) -> bool {
    forall|k: int| 0 <= k < n ==> #[trigger] spec_scenario_event(inputs[k], previous_timestamp(inputs, k)) is Ok
}

/// The views of scenario inputs.
pub open spec fn inputs_view(s: Seq<ScenarioEventInput>) -> Seq<ScenarioEventInputView> {
    s.map_values(|e: ScenarioEventInput| e@)
}

impl ReplayScenario {
    /// Builds a scenario from its events, in document order. The first event
    /// that is out of order, of unknown kind, or whose payload lacks a field
    /// its kind requires, refuses the whole scenario.
    pub fn from_event_inputs(inputs: Vec<ScenarioEventInput>) -> (r: Result<ReplayScenario, ReplayParseError>)
        ensures
            r matches Ok(sc) ==> scenario_prefix_ok(inputs_view(inputs@), inputs@.len() as int) && sc.events@.len()
                == inputs@.len() && forall|k: int| 0 <= k < inputs@.len() ==> spec_scenario_event(
                inputs_view(inputs@)[k],
                previous_timestamp(inputs_view(inputs@), k),
            ) == Ok::<TimedReplayEventView, ReplayParseErrorView>(#[trigger] sc.events@[k]@),
            r matches Err(e) ==> exists|k: int|
                0 <= k < inputs@.len() && scenario_prefix_ok(inputs_view(inputs@), k) && #[trigger] spec_scenario_event(
                    inputs_view(inputs@)[k],
                    previous_timestamp(inputs_view(inputs@), k),
                ) == Err::<TimedReplayEventView, ReplayParseErrorView>(e@),
            r matches Ok(sc) ==> forall|k: int|
                0 <= k < inputs@.len() ==> #[trigger] sc.events@[k].sequence == inputs@[k].timestamp_ms,
            r matches Ok(sc) ==> forall|i: int, j: int|
                0 <= i < j < sc.events@.len() ==> #[trigger] sc.events@[i].sequence <= #[trigger] sc.events@[j].sequence,
            (exists|k: int| 1 <= k < inputs@.len() && #[trigger] inputs@[k].timestamp_ms < inputs@[k - 1].timestamp_ms) ==> r is Err,
    {
        let ghost iv = inputs_view(inputs@);
        let mut events: Vec<TimedReplayEvent> = Vec::new();
        let mut last_timestamp: Option<u64> = None;
        let mut i: usize = 0;
        while i < inputs.len()
            invariant
                i <= inputs@.len(),
                iv == inputs_view(inputs@),
                scenario_prefix_ok(iv, i as int),
                events@.len() == i,
                last_timestamp == previous_timestamp(iv, i as int),
                forall|k: int| 0 <= k < i ==> spec_scenario_event(iv[k], previous_timestamp(iv, k)) == Ok::<
                    TimedReplayEventView,
                    ReplayParseErrorView,
                >(#[trigger] events@[k]@),
            decreases inputs@.len() - i,
        {
            let input = &inputs[i];
            assert(iv[i as int] == input@);
            if let Some(last) = last_timestamp {
                if input.timestamp_ms < last {
                    let e = ReplayParseError::InvalidEventOrder { previous_timestamp_ms: last, current_timestamp_ms: input.timestamp_ms };
                    assert(spec_scenario_event(iv[i as int], previous_timestamp(iv, i as int)) == Err::<
                        TimedReplayEventView,
                        ReplayParseErrorView,
                    >(e@));
                    return Err(e);
                }
            }
            let event = if str_eq(input.kind.as_str(), "target5_status") {
                match &input.as_status {
                    Ok(s) => ReplayEvent::Target5Status(*s),
                    Err(m) => {
                        let e = ReplayParseError::MissingRequiredField { kind: "target5_status".to_string(), message: m.clone() };
                        assert(spec_scenario_event(iv[i as int], previous_timestamp(iv, i as int)) == Err::<
                            TimedReplayEventView,
                            ReplayParseErrorView,
                        >(e@));
                        return Err(e);
                    },
                }
            } else if str_eq(input.kind.as_str(), "target10_command") {
                match &input.as_command {
                    Ok(c) => ReplayEvent::Target10Command(c.duplicate()),
                    Err(m) => {
                        let e = ReplayParseError::MissingRequiredField { kind: "target10_command".to_string(), message: m.clone() };
                        assert(spec_scenario_event(iv[i as int], previous_timestamp(iv, i as int)) == Err::<
                            TimedReplayEventView,
                            ReplayParseErrorView,
                        >(e@));
                        return Err(e);
                    },
                }
            } else {
                let e = ReplayParseError::UnknownEventKind { kind: input.kind.clone() };
                assert(spec_scenario_event(iv[i as int], previous_timestamp(iv, i as int)) == Err::<
                    TimedReplayEventView,
                    ReplayParseErrorView,
                >(e@));
                return Err(e);
            };
            let t = TimedReplayEvent { sequence: input.timestamp_ms, event };
            assert(spec_scenario_event(iv[i as int], previous_timestamp(iv, i as int)) == Ok::<
                TimedReplayEventView,
                ReplayParseErrorView,
            >(t@));
            last_timestamp = Some(input.timestamp_ms);
            events.push(t);
            i = i + 1;
        }
        proof {
            lemma_accepted_timestamps_nondecreasing(iv);
            assert forall|k: int| 0 <= k < inputs@.len() implies #[trigger] events@[k].sequence == inputs@[k].timestamp_ms by {
                assert(iv[k] == inputs@[k]@);
                assert(spec_scenario_event(iv[k], previous_timestamp(iv, k)) == Ok::<TimedReplayEventView, ReplayParseErrorView>(
                    events@[k]@,
                ));
                assert(events@[k]@.sequence == iv[k].timestamp_ms);
            }
            assert forall|i: int, j: int| 0 <= i < j < events@.len() implies #[trigger] events@[i].sequence
                <= #[trigger] events@[j].sequence by {
                assert(events@[i].sequence == inputs@[i].timestamp_ms);
                assert(events@[j].sequence == inputs@[j].timestamp_ms);
                assert(iv[i] == inputs@[i]@);
                assert(iv[j] == inputs@[j]@);
                assert(iv[i].timestamp_ms <= iv[j].timestamp_ms);
            }
            if exists|k: int| 1 <= k < inputs@.len() && #[trigger] inputs@[k].timestamp_ms < inputs@[k - 1].timestamp_ms {
                let k = choose|k: int| 1 <= k < inputs@.len() && #[trigger] inputs@[k].timestamp_ms < inputs@[k - 1].timestamp_ms;
                assert(iv[k] == inputs@[k]@);
                assert(iv[k - 1] == inputs@[k - 1]@);
                assert(iv[k - 1].timestamp_ms <= iv[k].timestamp_ms);
            }
        }
        Ok(ReplayScenario { events })
    }
}

/// In a scenario whose events are all accepted, each event's timestamp is
/// not below that of the event before it.
proof fn lemma_accepted_step(iv: Seq<ScenarioEventInputView>, k: int)
    requires
        scenario_prefix_ok(iv, iv.len() as int),
        1 <= k < iv.len(),
    ensures
        iv[k - 1].timestamp_ms <= iv[k].timestamp_ms,
{
    assert(spec_scenario_event(iv[k], previous_timestamp(iv, k)) is Ok);
}

/// The timestamps of an accepted scenario never decrease: any event is at
/// or after every event before it in the document.
pub proof fn lemma_accepted_timestamps_nondecreasing(iv: Seq<ScenarioEventInputView>)
    requires
        scenario_prefix_ok(iv, iv.len() as int),
    ensures
        forall|i: int, j: int| 0 <= i < j < iv.len() ==> #[trigger] iv[i].timestamp_ms <= #[trigger] iv[j].timestamp_ms,
{
    assert forall|i: int, j: int| 0 <= i < j < iv.len() implies #[trigger] iv[i].timestamp_ms <= #[trigger] iv[j].timestamp_ms by {
        lemma_timestamps_chain(iv, i, j);
    }
}

proof fn lemma_timestamps_chain(iv: Seq<ScenarioEventInputView>, i: int, j: int)
    requires
        scenario_prefix_ok(iv, iv.len() as int),
        0 <= i < j < iv.len(),
    ensures
        iv[i].timestamp_ms <= iv[j].timestamp_ms,
    decreases j - i,
{
    lemma_accepted_step(iv, j);
    if i < j - 1 {
        lemma_timestamps_chain(iv, i, j - 1);
    }
}

} // verus!
