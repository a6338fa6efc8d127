//! Decisions of the scenario runner tool: its command line and the
//! comparison of the commands a scenario produced with those it expects.

use vstd::prelude::*;

use crate::algorithms::{map_result_view, map_target5_status_to_target10_command, spec_map_status, Target5ToTarget10Error};
use crate::messages::{Target10Command, Target10CommandView, Target5Status};
use crate::runtime::effects::commands_view;
use crate::runtime::provider_registry::strings_view;
use crate::text::str_eq;

verus! {

/// The runner's command line: the path of the scenario to run.
#[derive(Debug, Clone, PartialEq, Eq)]
pub struct Cli {
    pub scenario: String,
}

/// Why the command line was refused.
#[derive(Debug, Clone, PartialEq, Eq)]
pub enum CliError {
    MissingScenarioArg,
    UnknownArg(String),
}

pub enum CliErrorView {
    MissingScenarioArg,
    UnknownArg(Seq<char>),
}

impl View for CliError {
    type V = CliErrorView;

    open spec fn view(&self) -> CliErrorView {
        match self {
            CliError::MissingScenarioArg => CliErrorView::MissingScenarioArg,
            CliError::UnknownArg(a) => CliErrorView::UnknownArg(a@),
        }
    }
}

/// Reads the arguments after the program name from position `i`, with the
/// scenario path chosen so far: "--scenario" takes the next argument as the
/// path (the last one given wins); "--scenario" with nothing after it, or no
/// path at all, is `MissingScenarioArg`; any other argument is `UnknownArg`.
pub open spec fn spec_parse_cli_from(args: Seq<Seq<char>>, i: int, scenario: Option<Seq<char>>) -> Result<Seq<char>, CliErrorView>
    decreases args.len() - i,
{
    if i >= args.len() {
        match scenario {
            Some(s) => Ok(s),
            None => Err(CliErrorView::MissingScenarioArg),
        }
    } else if args[i] == "--scenario"@ {
        if i + 1 >= args.len() {
            Err(CliErrorView::MissingScenarioArg)
        } else {
            spec_parse_cli_from(args, i + 2, Some(args[i + 1]))
        }
    } else {
        Err(CliErrorView::UnknownArg(args[i]))
    }
}

/// The verdict on a whole command line, the program name first.
pub open spec fn spec_parse_cli(args: Seq<Seq<char>>) -> Result<Seq<char>, CliErrorView> {
    spec_parse_cli_from(args, 1, None)
}

/// Parses the runner's command line (see `spec_parse_cli`).
pub fn parse_cli(args: Vec<String>) -> (r: Result<Cli, CliError>)
    ensures
        match spec_parse_cli(strings_view(args@)) {
            Ok(s) => r matches Ok(c) && c.scenario@ == s,
            Err(e) => r matches Err(x) && x@ == e,
        },
{
    let ghost a = strings_view(args@);
    let mut scenario: Option<String> = None;
    let mut i: usize = 1;
    while i < args.len()
        invariant
            1 <= i,
            a == strings_view(args@),
            spec_parse_cli(a) == spec_parse_cli_from(a, i as int, match scenario {
                Some(s) => Some(s@),
                None => None,
            }),
        decreases args@.len() - i,
    {
        if str_eq(args[i].as_str(), "--scenario") {
            if i + 1 >= args.len() {
                return Err(CliError::MissingScenarioArg);
            }
            scenario = Some(args[i + 1].clone());
            i = i + 2;
        } else {
            return Err(CliError::UnknownArg(args[i].clone()));
        }
    }
    match scenario {
        Some(s) => Ok(Cli { scenario: s }),
        None => Err(CliError::MissingScenarioArg),
    }
}

/// Whether two command lists are the same, command by command.
pub fn commands_match(expected: &Vec<Target10Command>, actual: &Vec<Target10Command>) -> (r: bool)
    ensures
        r == (commands_view(expected@) == commands_view(actual@)),
{
    if expected.len() != actual.len() {
        proof {
            assert(commands_view(expected@).len() != commands_view(actual@).len());
        }
        return false;
    }
    let mut i: usize = 0;
    while i < expected.len()
        invariant
            expected@.len() == actual@.len(),
            i <= expected@.len(),
            forall|k: int| 0 <= k < i ==> expected@[k]@ == actual@[k]@,
        decreases expected@.len() - i,
    {
        let e = &expected[i];
        let a = &actual[i];
        if e.command_id != a.command_id || e.priority != a.priority || !str_eq(e.action.as_str(), a.action.as_str()) {
            assert(commands_view(expected@)[i as int] != commands_view(actual@)[i as int]);
            return false;
        }
        i = i + 1;
    }
    assert(commands_view(expected@) =~= commands_view(actual@));
    true
}

/// One input event of a scenario: its kind and its payload read as a Target5
/// status, or the message of the reader that refused it.
#[derive(Debug, PartialEq, Eq)]
pub struct RunnerEvent {
    pub kind: String,
    pub payload: Result<Target5Status, String>,
}

pub struct RunnerEventView {
    pub kind: Seq<char>,
    pub payload: Result<Target5Status, Seq<char>>,
}

impl View for RunnerEvent {
    type V = RunnerEventView;

    open spec fn view(&self) -> RunnerEventView {
        RunnerEventView {
            kind: self.kind@,
            payload: match self.payload {
                Ok(s) => Ok(s),
                Err(m) => Err(m@),
            },
        }
    }
}

/// One output a scenario expects: its kind and the command.
#[derive(Debug, Clone, PartialEq, Eq)]
pub struct ExpectedOutput {
    pub kind: String,
    pub payload: Target10Command,
}

pub struct ExpectedOutputView {
    pub kind: Seq<char>,
    pub payload: Target10CommandView,
}

impl View for ExpectedOutput {
    type V = ExpectedOutputView;

    open spec fn view(&self) -> ExpectedOutputView {
        ExpectedOutputView { kind: self.kind@, payload: self.payload@ }
    }
}

/// Why a scenario run failed.
#[derive(Debug, Clone, PartialEq, Eq)]
pub enum ScenarioRunError {
    UnexpectedEventKind { kind: String },
    InvalidPayload { message: String },
    Mapping(Target5ToTarget10Error),
    UnexpectedExpectedKind { kind: String },
    Mismatch { expected: Vec<Target10Command>, actual: Vec<Target10Command> },
}

pub enum ScenarioRunErrorView {
    UnexpectedEventKind { kind: Seq<char> },
    InvalidPayload { message: Seq<char> },
    Mapping(Target5ToTarget10Error),
    UnexpectedExpectedKind { kind: Seq<char> },
    Mismatch { expected: Seq<Target10CommandView>, actual: Seq<Target10CommandView> },
}

impl View for ScenarioRunError {
    type V = ScenarioRunErrorView;

    open spec fn view(&self) -> ScenarioRunErrorView {
        match self {
            ScenarioRunError::UnexpectedEventKind { kind } => ScenarioRunErrorView::UnexpectedEventKind { kind: kind@ },
            ScenarioRunError::InvalidPayload { message } => ScenarioRunErrorView::InvalidPayload { message: message@ },
            ScenarioRunError::Mapping(e) => ScenarioRunErrorView::Mapping(*e),
            ScenarioRunError::UnexpectedExpectedKind { kind } => ScenarioRunErrorView::UnexpectedExpectedKind { kind: kind@ },
            ScenarioRunError::Mismatch { expected, actual } => ScenarioRunErrorView::Mismatch {
                expected: commands_view(expected@),
                actual: commands_view(actual@),
            },
        }
    }
}

/// What one input event produces: only "target5_status" events are accepted,
/// and their payload must read as a status that maps to a command.
pub open spec fn spec_event_command(e: RunnerEventView) -> Result<Target10CommandView, ScenarioRunErrorView> {
    if e.kind != "target5_status"@ {
        Err(ScenarioRunErrorView::UnexpectedEventKind { kind: e.kind })
    } else {
        match e.payload {
            Err(m) => Err(ScenarioRunErrorView::InvalidPayload { message: m }),
            Ok(s) => match spec_map_status(s) {
                Ok(c) => Ok(c),
                Err(x) => Err(ScenarioRunErrorView::Mapping(x)),
            },
        }
    }
}

/// The commands the input events produce, in order, or the error of the
/// first event that produces none.
pub open spec fn spec_actual_outputs(events: Seq<RunnerEventView>) -> Result<Seq<Target10CommandView>, ScenarioRunErrorView>
    decreases events.len(),
{
    if events.len() == 0 {
        Ok(Seq::empty())
    } else {
        match spec_actual_outputs(events.drop_last()) {
            Err(e) => Err(e),
            Ok(cs) => match spec_event_command(events.last()) {
                Ok(c) => Ok(cs.push(c)),
                Err(e) => Err(e),
            },
        }
    }
}

/// The expected commands, in order, or the error of the first expected
/// output whose kind is not "target10_command".
pub open spec fn spec_expected_outputs(outputs: Seq<ExpectedOutputView>) -> Result<Seq<Target10CommandView>, ScenarioRunErrorView>
    decreases outputs.len(),
{
    if outputs.len() == 0 {
        Ok(Seq::empty())
    } else {
        match spec_expected_outputs(outputs.drop_last()) {
            Err(e) => Err(e),
            Ok(cs) => if outputs.last().kind == "target10_command"@ {
                Ok(cs.push(outputs.last().payload))
            } else {
                Err(ScenarioRunErrorView::UnexpectedExpectedKind { kind: outputs.last().kind })
            },
        }
    }
}

/// A scenario run: the input events are checked and mapped first, then the
/// expected outputs are checked; the run passes, with the commands produced,
/// when they are the expected ones.
pub open spec fn spec_run_scenario(
    events: Seq<RunnerEventView>,
    outputs: Seq<ExpectedOutputView>,
) -> Result<Seq<Target10CommandView>, ScenarioRunErrorView> {
    match spec_actual_outputs(events) {
        Err(e) => Err(e),
        Ok(actual) => match spec_expected_outputs(outputs) {
            Err(e) => Err(e),
            Ok(expected) => if actual == expected {
                Ok(actual)
            } else {
                Err(ScenarioRunErrorView::Mismatch { expected, actual })
            },
        },
    }
}

/// The views of runner events.
pub open spec fn runner_events_view(s: Seq<RunnerEvent>) -> Seq<RunnerEventView> {
    s.map_values(|e: RunnerEvent| e@)
}

/// The views of expected outputs.
pub open spec fn expected_outputs_view(s: Seq<ExpectedOutput>) -> Seq<ExpectedOutputView> {
    s.map_values(|e: ExpectedOutput| e@)
}

/// A scenario run's result, taken by its view.
pub open spec fn run_result_view(r: Result<Vec<Target10Command>, ScenarioRunError>) -> Result<Seq<Target10CommandView>, ScenarioRunErrorView> {
    match r {
        Ok(cs) => Ok(commands_view(cs@)),
        Err(e) => Err(e@),
    }
}

fn actual_outputs(events: &Vec<RunnerEvent>) -> (r: Result<Vec<Target10Command>, ScenarioRunError>)
    ensures
        run_result_view(r) == spec_actual_outputs(runner_events_view(events@)),
{
    let ghost ev = runner_events_view(events@);
    let mut actual: Vec<Target10Command> = Vec::new();
    let mut i: usize = 0;
    assert(commands_view(actual@) =~= Seq::<Target10CommandView>::empty());
    assert(ev.take(0).len() == 0);
    while i < events.len()
        invariant
            i <= events@.len(),
            actual@.len() == i,
            ev == runner_events_view(events@),
            spec_actual_outputs(ev.take(i as int)) == Ok::<Seq<Target10CommandView>, ScenarioRunErrorView>(commands_view(actual@)),
        decreases events@.len() - i,
    {
        let ghost before = actual@;
        assert(ev.take(i + 1).drop_last() =~= ev.take(i as int));
        assert(ev.take(i + 1).last() == events@[i as int]@);
        let e = &events[i];
        if !str_eq(e.kind.as_str(), "target5_status") {
            let err = ScenarioRunError::UnexpectedEventKind { kind: e.kind.clone() };
            proof {
                lemma_actual_outputs_stop(ev, i as int, err@, ev.len() as int);
                    assert(ev.take(ev.len() as int) =~= ev);
            }
            return Err(err);
        }
        let status = match &e.payload {
            Ok(s) => *s,
            Err(m) => {
                let err = ScenarioRunError::InvalidPayload { message: m.clone() };
                proof {
                    lemma_actual_outputs_stop(ev, i as int, err@, ev.len() as int);
                    assert(ev.take(ev.len() as int) =~= ev);
                }
                return Err(err);
            },
        };
        match map_target5_status_to_target10_command(&status) {
            Ok(c) => {
                assert(spec_event_command(ev[i as int]) == Ok::<Target10CommandView, ScenarioRunErrorView>(c@));
                actual.push(c);
                assert(commands_view(actual@) =~= commands_view(before).push(actual@[i as int]@));
            },
            Err(x) => {
                let err = ScenarioRunError::Mapping(x);
                proof {
                    lemma_actual_outputs_stop(ev, i as int, err@, ev.len() as int);
                    assert(ev.take(ev.len() as int) =~= ev);
                }
                return Err(err);
            },
        }
        i = i + 1;
    }
    assert(ev.take(events@.len() as int) =~= ev);
    Ok(actual)
}

/// Once an event fails, every longer prefix of the events fails with its error.
proof fn lemma_actual_outputs_stop(ev: Seq<RunnerEventView>, i: int, e: ScenarioRunErrorView, n: int)
    requires
        0 <= i < n <= ev.len(),
        spec_actual_outputs(ev.take(i)) is Ok,
        spec_event_command(ev[i]) == Err::<Target10CommandView, ScenarioRunErrorView>(e),
    ensures
        spec_actual_outputs(ev.take(n)) == Err::<Seq<Target10CommandView>, ScenarioRunErrorView>(e),
    decreases n,
{
    assert(ev.take(n).drop_last() =~= ev.take(n - 1));
    if n > i + 1 {
        lemma_actual_outputs_stop(ev, i, e, n - 1);
    }
}

/// Once an expected output fails, every longer prefix fails with its error.
proof fn lemma_expected_outputs_stop(ov: Seq<ExpectedOutputView>, i: int, e: ScenarioRunErrorView, n: int)
    requires
        0 <= i < n <= ov.len(),
        spec_expected_outputs(ov.take(i + 1)) == Err::<Seq<Target10CommandView>, ScenarioRunErrorView>(e),
    ensures
        spec_expected_outputs(ov.take(n)) == Err::<Seq<Target10CommandView>, ScenarioRunErrorView>(e),
    decreases n,
{
    if n > i + 1 {
        assert(ov.take(n).drop_last() =~= ov.take(n - 1));
        lemma_expected_outputs_stop(ov, i, e, n - 1);
    }
}

fn expected_outputs(outputs: &Vec<ExpectedOutput>) -> (r: Result<Vec<Target10Command>, ScenarioRunError>)
    ensures
        run_result_view(r) == spec_expected_outputs(expected_outputs_view(outputs@)),
{
    let ghost ov = expected_outputs_view(outputs@);
    let mut expected: Vec<Target10Command> = Vec::new();
    let mut i: usize = 0;
    assert(commands_view(expected@) =~= Seq::<Target10CommandView>::empty());
    assert(ov.take(0).len() == 0);
    while i < outputs.len()
        invariant
            i <= outputs@.len(),
            expected@.len() == i,
            ov == expected_outputs_view(outputs@),
            spec_expected_outputs(ov.take(i as int)) == Ok::<Seq<Target10CommandView>, ScenarioRunErrorView>(commands_view(expected@)),
        decreases outputs@.len() - i,
    {
        let ghost before = expected@;
        assert(ov.take(i + 1).drop_last() =~= ov.take(i as int));
        assert(ov.take(i + 1).last() == outputs@[i as int]@);
        let o = &outputs[i];
        if !str_eq(o.kind.as_str(), "target10_command") {
            let err = ScenarioRunError::UnexpectedExpectedKind { kind: o.kind.clone() };
            proof {
                lemma_expected_outputs_stop(ov, i as int, err@, ov.len() as int);
                assert(ov.take(ov.len() as int) =~= ov);
            }
            return Err(err);
        }
        expected.push(o.payload.duplicate());
        assert(commands_view(expected@) =~= commands_view(before).push(o.payload@));
        i = i + 1;
    }
    assert(ov.take(outputs@.len() as int) =~= ov);
    Ok(expected)
}

/// Runs a scenario (see `spec_run_scenario`): maps the input events, checks
/// the expected outputs and compares them; on success the commands produced.
pub fn run_scenario(events: &Vec<RunnerEvent>, outputs: &Vec<ExpectedOutput>) -> (r: Result<Vec<Target10Command>, ScenarioRunError>)
    ensures
        run_result_view(r) == spec_run_scenario(runner_events_view(events@), expected_outputs_view(outputs@)),
        r matches Ok(cs) ==> cs@.len() == outputs@.len() && cs@.len() == events@.len() && forall|i: int|
            0 <= i < outputs@.len() ==> #[trigger] cs@[i]@ == outputs@[i].payload@ && outputs@[i].kind@
                == "target10_command"@,
{
    let actual = actual_outputs(events)?;
    let expected = expected_outputs(outputs)?;
    if commands_match(&expected, &actual) {
        proof {
            let ev = runner_events_view(events@);
            let ov = expected_outputs_view(outputs@);
            lemma_scenario_passes(ev, ov);
            assert forall|i: int| 0 <= i < outputs@.len() implies #[trigger] actual@[i]@ == outputs@[i].payload@
                && outputs@[i].kind@ == "target10_command"@ by {
                assert(commands_view(actual@)[i] == actual@[i]@);
                assert(ov[i] == outputs@[i]@);
            }
        }
        Ok(actual)
    } else {
        Err(ScenarioRunError::Mismatch { expected, actual })
    }
}

/// The commands a list of events produces, when it produces them, are one
/// per event, each what its event produces.
proof fn lemma_actual_outputs_each(ev: Seq<RunnerEventView>)
    requires
        spec_actual_outputs(ev) is Ok,
    ensures
        spec_actual_outputs(ev)->Ok_0.len() == ev.len(),
        forall|i: int| 0 <= i < ev.len() ==> spec_event_command(#[trigger] ev[i]) == Ok::<Target10CommandView, ScenarioRunErrorView>(
            spec_actual_outputs(ev)->Ok_0[i],
        ),
    decreases ev.len(),
{
    if ev.len() > 0 {
        lemma_actual_outputs_each(ev.drop_last());
        assert forall|i: int| 0 <= i < ev.len() implies spec_event_command(#[trigger] ev[i]) == Ok::<
            Target10CommandView,
            ScenarioRunErrorView,
        >(spec_actual_outputs(ev)->Ok_0[i]) by {
            if i < ev.len() - 1 {
                assert(ev.drop_last()[i] == ev[i]);
            }
        }
    }
}

/// The expected commands, when the outputs are all of the right kind, are
/// one per output, each the output's command.
proof fn lemma_expected_outputs_each(ov: Seq<ExpectedOutputView>)
    requires
        spec_expected_outputs(ov) is Ok,
    ensures
        spec_expected_outputs(ov)->Ok_0.len() == ov.len(),
        forall|i: int| 0 <= i < ov.len() ==> (#[trigger] ov[i]).kind == "target10_command"@ && spec_expected_outputs(ov)->Ok_0[i]
            == ov[i].payload,
    decreases ov.len(),
{
    if ov.len() > 0 {
        lemma_expected_outputs_each(ov.drop_last());
        assert forall|i: int| 0 <= i < ov.len() implies (#[trigger] ov[i]).kind == "target10_command"@ && spec_expected_outputs(
            ov,
        )->Ok_0[i] == ov[i].payload by {
            if i < ov.len() - 1 {
                assert(ov.drop_last()[i] == ov[i]);
            }
        }
    }
}

/// A scenario passes only when every event is a Target5 status whose payload
/// was read, every expected output is a Target10 command, there are as many
/// events as expected outputs, and the command each status maps to (1000 +
/// device id, "arm", priority 1 online; 2000 + device id, "standby",
/// priority 5 offline) is the expected one at the same position; the run
/// then gives those commands.
pub proof fn lemma_scenario_passes(ev: Seq<RunnerEventView>, ov: Seq<ExpectedOutputView>)
    requires
        spec_run_scenario(ev, ov) is Ok,
    ensures
        ({
            let cs = spec_run_scenario(ev, ov)->Ok_0;
            &&& cs.len() == ev.len()
            &&& cs.len() == ov.len()
            &&& forall|i: int| 0 <= i < ov.len() ==> (#[trigger] ov[i]).kind == "target10_command"@ && ov[i].payload == cs[i]
            &&& forall|i: int|
                0 <= i < ev.len() ==> (#[trigger] ev[i]).kind == "target5_status"@ && ev[i].payload is Ok && ({
                    let st = ev[i].payload->Ok_0;
                    &&& cs[i].command_id == (if st.online { 1000int } else { 2000int }) + st.device_id
                    &&& cs[i].action == (if st.online { "arm"@ } else { "standby"@ })
                    &&& cs[i].priority == (if st.online { 1u8 } else { 5u8 })
                })
        }),
{
    lemma_actual_outputs_each(ev);
    lemma_expected_outputs_each(ov);
    let cs = spec_run_scenario(ev, ov)->Ok_0;
    assert forall|i: int| 0 <= i < ev.len() implies (#[trigger] ev[i]).kind == "target5_status"@ && ev[i].payload is Ok && ({
        let st = ev[i].payload->Ok_0;
        &&& cs[i].command_id == (if st.online { 1000int } else { 2000int }) + st.device_id
        &&& cs[i].action == (if st.online { "arm"@ } else { "standby"@ })
        &&& cs[i].priority == (if st.online { 1u8 } else { 5u8 })
    }) by {
        assert(spec_event_command(ev[i]) == Ok::<Target10CommandView, ScenarioRunErrorView>(cs[i]));
    }
}

/// When every event maps and every expected output has the right kind but
/// the produced commands are not the expected ones (in number or in value),
/// the scenario fails with a mismatch that carries both lists.
pub proof fn lemma_scenario_mismatch(ev: Seq<RunnerEventView>, ov: Seq<ExpectedOutputView>)
    requires
        spec_actual_outputs(ev) is Ok,
        spec_expected_outputs(ov) is Ok,
        spec_actual_outputs(ev)->Ok_0 != spec_expected_outputs(ov)->Ok_0,
    ensures
        spec_run_scenario(ev, ov) == Err::<Seq<Target10CommandView>, ScenarioRunErrorView>(
            ScenarioRunErrorView::Mismatch {
                expected: spec_expected_outputs(ov)->Ok_0,
                actual: spec_actual_outputs(ev)->Ok_0,
            },
        ),
{
}

} // verus!
