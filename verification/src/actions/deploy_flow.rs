//! The course of a deploy, as a machine that the caller drives: it says
//! what to do next (start the program, run a probe, wait, stop the program,
//! fail, or record), the caller does it and reports what happened.

use vstd::prelude::*;
use vstd::string::*;

use crate::actions::deploy::{
    probe_next, spawn_failed, spawn_failure, DecisionView, DeployPlan, LaunchView, PlanView,
    ProbeDecision, ProbeState, ProbeView, PROBE_MAX_ATTEMPTS,
};
use crate::errors::{AppError, ErrorView};

verus! {

/// Where a deploy stands.
#[derive(Debug, Clone, Copy, PartialEq, Eq)]
pub enum FlowStage {
    /// The program was asked to start; the caller reports whether it did.
    Starting,
    /// A probe was asked for; the caller reports its outcome.
    Probing,
    /// A wait was asked for; the caller reports when it is over.
    Waiting,
    /// The deploy has come to its end.
    Finished,
}

/// What the caller reports.
pub enum DeployEvent {
    /// The program started.
    Spawned,
    /// The program could not be started; the text says why.
    SpawnFailed(String),
    /// A probe ran, with this outcome (the failure's description where it
    /// failed).
    ProbeRan(Result<(), String>),
    /// No probe could be run at all, for this reason.
    ProbeUnavailable(AppError),
    /// The wait is over.
    Waited,
}

/// What the caller is to do next.
pub enum DeployCommand {
    /// Start `program`, listening on `listen_arg`.
    Spawn { program: String, listen_arg: String },
    /// Probe the application at `server_url`.
    RunProbe { server_url: String },
    /// Wait this many milliseconds.
    Wait { millis: u64 },
    /// Stop the started program; the deploy fails with this error.
    StopAndFail(AppError),
    /// The deploy fails with this error.
    Fail(AppError),
    /// Record the plan's application at its URL; the deploy succeeds.
    Record,
}

/// The content of a [`DeployEvent`].
pub enum EventView {
    Spawned,
    SpawnFailed(Seq<char>),
    ProbeRan(Result<(), Seq<char>>),
    ProbeUnavailable(ErrorView),
    Waited,
}

/// The content of a [`DeployCommand`].
pub enum CommandView {
    Spawn(LaunchView),
    RunProbe(Seq<char>),
    Wait(nat),
    StopAndFail(ErrorView),
    Fail(ErrorView),
    Record,
}

/// The content of a [`DeployFlow`].
pub struct FlowView {
    pub plan: PlanView,
    pub probe: ProbeView,
    pub stage: FlowStage,
}

impl View for DeployEvent {
    type V = EventView;

    open spec fn view(&self) -> EventView {
        match self {
            DeployEvent::Spawned => EventView::Spawned,
            DeployEvent::SpawnFailed(t) => EventView::SpawnFailed(t@),
            DeployEvent::ProbeRan(outcome) => EventView::ProbeRan(
                match outcome {
                    Ok(()) => Ok(()),
                    Err(t) => Err(t@),
                },
            ),
            DeployEvent::ProbeUnavailable(e) => EventView::ProbeUnavailable(e@),
            DeployEvent::Waited => EventView::Waited,
        }
    }
}

impl View for DeployCommand {
    type V = CommandView;

    open spec fn view(&self) -> CommandView {
        match self {
            DeployCommand::Spawn { program, listen_arg } => CommandView::Spawn(
                LaunchView { program: program@, listen_arg: listen_arg@ },
            ),
            DeployCommand::RunProbe { server_url } => CommandView::RunProbe(server_url@),
            DeployCommand::Wait { millis } => CommandView::Wait(*millis as nat),
            DeployCommand::StopAndFail(e) => CommandView::StopAndFail(e@),
            DeployCommand::Fail(e) => CommandView::Fail(e@),
            DeployCommand::Record => CommandView::Record,
        }
    }
}

/// The first command of a deploy of `plan`: start its program, or, where it
/// has none, record it.
pub open spec fn flow_start(plan: PlanView) -> (FlowView, CommandView) {
    let probe = ProbeView { attempts: 0, finished: false };
    match plan.launch {
        Some(launch) => (
            FlowView { plan, probe, stage: FlowStage::Starting },
            CommandView::Spawn(launch),
        ),
        None => (FlowView { plan, probe, stage: FlowStage::Finished }, CommandView::Record),
    }
}

/// Whether `event` is one that the deploy waits for in `flow`.
pub open spec fn flow_accepts(flow: FlowView, event: EventView) -> bool {
    match flow.stage {
        FlowStage::Starting => event is Spawned || event is SpawnFailed,
        FlowStage::Probing => event is ProbeRan || event is ProbeUnavailable,
        FlowStage::Waiting => event is Waited,
        FlowStage::Finished => false,
    }
}

/// Whether the probe of `flow` can take one more run where the deploy needs
/// one.
pub open spec fn flow_wf(flow: FlowView) -> bool {
    &&& (flow.stage is Starting ==> flow.plan.launch is Some && flow.probe == ProbeView {
        attempts: 0,
        finished: false,
    })
    &&& (flow.stage is Probing || flow.stage is Waiting) ==> !flow.probe.finished
        && flow.probe.attempts < PROBE_MAX_ATTEMPTS
}

/// The deploy after `event` in `flow`, and what to do next. A started
/// program is probed; a probe that fails is retried after the delay until
/// the attempts are used up; a failure after the start stops the program.
pub open spec fn flow_step(flow: FlowView, event: EventView) -> (FlowView, CommandView) {
    let finished = FlowView { stage: FlowStage::Finished, ..flow };
    match event {
        EventView::Spawned => (
            FlowView { stage: FlowStage::Probing, ..flow },
            CommandView::RunProbe(flow.plan.url),
        ),
        EventView::SpawnFailed(text) => (
            finished,
            CommandView::Fail(spawn_failure(flow.plan.launch->0.program, text)),
        ),
        EventView::ProbeUnavailable(e) => (finished, CommandView::StopAndFail(e)),
        EventView::ProbeRan(outcome) => {
            let (probe, decision) = probe_next(flow.probe, flow.plan.url, outcome);
            match decision {
                DecisionView::Ready => (
                    FlowView { probe, stage: FlowStage::Finished, ..flow },
                    CommandView::Record,
                ),
                DecisionView::RetryAfter(ms) => (
                    FlowView { probe, stage: FlowStage::Waiting, ..flow },
                    CommandView::Wait(ms),
                ),
                DecisionView::GiveUp(e) => (
                    FlowView { probe, stage: FlowStage::Finished, ..flow },
                    CommandView::StopAndFail(e),
                ),
            }
        },
        EventView::Waited => (
            FlowView { stage: FlowStage::Probing, ..flow },
            CommandView::RunProbe(flow.plan.url),
        ),
    }
}

/// A deploy in progress.
pub struct DeployFlow {
    plan: DeployPlan,
    probe: ProbeState,
    stage: FlowStage,
}

impl View for DeployFlow {
    type V = FlowView;

    closed spec fn view(&self) -> FlowView {
        FlowView { plan: self.plan@, probe: self.probe@, stage: self.stage }
    }
}

impl DeployFlow {
    /// Starts the deploy of `plan` and says what to do first.
    pub fn start(plan: DeployPlan) -> (r: (DeployFlow, DeployCommand))
        ensures
            (r.0@, r.1@) == flow_start(plan@),
            flow_wf(r.0@),
    {
        let probe = ProbeState::new();
        match &plan.launch {
            Some(launch) => {
                let command = DeployCommand::Spawn {
                    program: launch.program.clone(),
                    listen_arg: launch.listen_arg.clone(),
                };
                (DeployFlow { plan, probe, stage: FlowStage::Starting }, command)
            },
            None => (DeployFlow { plan, probe, stage: FlowStage::Finished }, DeployCommand::Record),
        }
    }

    /// The plan being deployed.
    pub fn plan(&self) -> (r: &DeployPlan)
        ensures
            r@ == self@.plan,
    {
        &self.plan
    }

    /// Where the deploy stands.
    pub fn stage(&self) -> (r: FlowStage)
        ensures
            r == self@.stage,
    {
        self.stage
    }

    /// Whether `event` is one that the deploy waits for now.
    pub fn accepts(&self, event: &DeployEvent) -> (r: bool)
        ensures
            r == flow_accepts(self@, event@),
    {
        match self.stage {
            FlowStage::Starting => match event {
                DeployEvent::Spawned => true,
                DeployEvent::SpawnFailed(_) => true,
                _ => false,
            },
            FlowStage::Probing => match event {
                DeployEvent::ProbeRan(_) => true,
                DeployEvent::ProbeUnavailable(_) => true,
                _ => false,
            },
            FlowStage::Waiting => match event {
                DeployEvent::Waited => true,
                _ => false,
            },
            FlowStage::Finished => false,
        }
    }

    /// Takes `event` into account and says what to do next.
    pub fn step(&mut self, event: DeployEvent) -> (r: DeployCommand)
        requires
            flow_wf(old(self)@),
            flow_accepts(old(self)@, event@),
        ensures
            flow_wf(final(self)@),
            (final(self)@, r@) == flow_step(old(self)@, event@),
    {
        match event {
            DeployEvent::Spawned => {
                self.stage = FlowStage::Probing;
                DeployCommand::RunProbe { server_url: self.plan.url.clone() }
            },
            DeployEvent::SpawnFailed(text) => {
                self.stage = FlowStage::Finished;
                let program = match &self.plan.launch {
                    Some(launch) => launch.program.as_str(),
                    None => "",
                };
                DeployCommand::Fail(spawn_failed(program, text.as_str()))
            },
            DeployEvent::ProbeUnavailable(e) => {
                self.stage = FlowStage::Finished;
                DeployCommand::StopAndFail(e)
            },
            DeployEvent::ProbeRan(outcome) => {
                let decision = self.probe.observe(self.plan.url.as_str(), outcome);
                match decision {
                    ProbeDecision::Ready => {
                        self.stage = FlowStage::Finished;
                        DeployCommand::Record
                    },
                    ProbeDecision::RetryAfter(millis) => {
                        self.stage = FlowStage::Waiting;
                        DeployCommand::Wait { millis }
                    },
                    ProbeDecision::GiveUp(e) => {
                        self.stage = FlowStage::Finished;
                        DeployCommand::StopAndFail(e)
                    },
                }
            },
            DeployEvent::Waited => {
                self.stage = FlowStage::Probing;
                DeployCommand::RunProbe { server_url: self.plan.url.clone() }
            },
        }
    }
}

/// Once the program has started, no failure leaves it running: every
/// command that ends a started deploy with an error stops the program.
pub proof fn law_started_program_stopped_on_failure(flow: FlowView, event: EventView)
    requires
        flow.stage is Probing || flow.stage is Waiting,
        flow_accepts(flow, event),
    ensures
        !(flow_step(flow, event).1 is Fail),
{
}

/// A deploy records its application only when it has no program to start,
/// or when a probe of the started program succeeded.
pub proof fn law_record_only_when_ready(flow: FlowView, event: EventView)
    requires
        flow_accepts(flow, event),
        flow_step(flow, event).1 is Record,
    ensures
        event == EventView::ProbeRan(Ok(())),
{
    if let EventView::ProbeRan(outcome) = event {
        if let Ok(unit) = outcome {
            assert(unit == ());
            assert(outcome == Ok::<(), Seq<char>>(()));
        }
    }
}

/// A deploy without a program to start records at once.
pub proof fn law_no_launch_records_at_once(plan: PlanView)
    requires
        plan.launch is None,
    ensures
        flow_start(plan).1 == CommandView::Record,
        flow_start(plan).0.stage == FlowStage::Finished,
{
}

} // verus!
