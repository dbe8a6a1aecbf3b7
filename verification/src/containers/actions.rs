//! Starting and stopping a container, step by step.

use vstd::prelude::*;

verus! {

#[derive(Clone, Copy, Debug, PartialEq, Eq, Structural)]
pub enum ActionKind {
    Starting,
    Stopping,
}

#[derive(Clone, Copy, Debug, PartialEq, Eq, Structural)]
pub enum BarPhase {
    Init,
    PullingImage,
    StartingRuntime,
    WaitingRunning,
    WaitingHealthy,
    StoppingSignal,
    WaitingExit,
    Done,
    Error,
}

/// How far an action has come, in percent.
#[derive(Clone, Copy, Debug, PartialEq, Eq, Structural)]
pub struct BarUpdate {
    pub pct: u8,
    pub phase: BarPhase,
}

#[derive(Clone, Copy, Debug, PartialEq, Eq, Structural)]
pub enum HealthStatus {
    Empty,
    NoCheck,
    Starting,
    Healthy,
    Unhealthy,
}

/// What an inspection tells of a container's state: whether it runs, and its health where it has
/// a health check.
#[derive(Clone, Copy, Debug, PartialEq, Eq, Structural)]
pub struct Inspection {
    pub running: Option<bool>,
    pub health: Option<Option<HealthStatus>>,
}

/// What has to be done next.
pub enum ActionCall {
    /// Start the container.
    Start,
    /// Stop the container, giving it this many seconds.
    Stop(u64),
    /// Inspect the container.
    Inspect,
    /// Wait for this many milliseconds.
    Sleep(u64),
    /// The action is over.
    End(Result<(), String>),
}

/// What came of it.
pub enum ActionEvent {
    Called(Result<(), String>),
    /// An inspection, or `None` where it failed.
    Inspected(Option<Inspection>),
    Slept,
}

#[derive(Clone, Copy, Debug, PartialEq, Eq, Structural)]
pub enum ActionStage {
    Calling,
    WaitingRunning,
    WaitingHealthy,
    WaitingExit,
    Finished,
}

#[derive(Clone, Copy, Debug, PartialEq, Eq, Structural)]
pub struct ActionTask {
    pub kind: ActionKind,
    pub stage: ActionStage,
    /// The percentage that was reported last.
    pub pct: u8,
}

#[verifier::ext_equal]
pub enum ActionCallView {
    Start,
    Stop(u64),
    Inspect,
    Sleep(u64),
    End(Result<(), Seq<char>>),
}

impl View for ActionCall {
    type V = ActionCallView;

    open spec fn view(&self) -> ActionCallView {
        match self {
            ActionCall::Start => ActionCallView::Start,
            ActionCall::Stop(s) => ActionCallView::Stop(*s),
            ActionCall::Inspect => ActionCallView::Inspect,
            ActionCall::Sleep(ms) => ActionCallView::Sleep(*ms),
            ActionCall::End(r) => ActionCallView::End(outcome(*r)),
        }
    }
}

/// An outcome, with its error as a text.
pub open spec fn outcome(r: Result<(), String>) -> Result<(), Seq<char>> {
    match r {
        Ok(_) => Ok(()),
        Err(e) => Err(e@),
    }
}

#[verifier::ext_equal]
pub enum ActionEventView {
    Called(Result<(), Seq<char>>),
    Inspected(Option<Inspection>),
    Slept,
}

impl View for ActionEvent {
    type V = ActionEventView;

    open spec fn view(&self) -> ActionEventView {
        match self {
            ActionEvent::Called(r) => ActionEventView::Called(outcome(*r)),
            ActionEvent::Inspected(i) => ActionEventView::Inspected(*i),
            ActionEvent::Slept => ActionEventView::Slept,
        }
    }
}

pub open spec fn update(pct: u8, phase: BarPhase) -> BarUpdate {
    BarUpdate { pct, phase }
}

impl Inspection {
    pub open spec fn runs(self) -> bool {
        self.running == Some(true)
    }
}

/// One step of an action: what is reported, what is done next, and the stage after it.
pub struct StepView {
    pub updates: Seq<BarUpdate>,
    pub next: ActionCallView,
    pub stage: ActionStage,
}

pub open spec fn step(updates: Seq<BarUpdate>, next: ActionCallView, stage: ActionStage) -> StepView {
    StepView { updates, next, stage }
}

/// The last step of an action.
pub open spec fn last_step(updates: Seq<BarUpdate>, r: Result<(), Seq<char>>) -> StepView {
    step(
        updates.push(update(100, BarPhase::Done)),
        ActionCallView::End(r),
        ActionStage::Finished,
    )
}

pub open spec fn first_step(kind: ActionKind) -> StepView {
    match kind {
        ActionKind::Starting => step(
            seq![update(5, BarPhase::StartingRuntime)],
            ActionCallView::Start,
            ActionStage::Calling,
        ),
        ActionKind::Stopping => step(
            seq![update(5, BarPhase::StoppingSignal), update(25, BarPhase::StoppingSignal)],
            ActionCallView::Stop(2),
            ActionStage::Calling,
        ),
    }
}

/// How long to wait between two inspections.
pub open spec fn pause(stage: ActionStage) -> u64 {
    match stage {
        ActionStage::WaitingHealthy => 240,
        ActionStage::WaitingExit => 180,
        _ => 200,
    }
}

pub open spec fn inspected(stage: ActionStage, ins: Option<Inspection>) -> StepView {
    let again = step(Seq::empty(), ActionCallView::Sleep(pause(stage)), stage);
    match ins {
        None => again,
        Some(i) => match stage {
            ActionStage::WaitingRunning => if !i.runs() {
                again
            } else if i.health is Some {
                step(
                    seq![update(60, BarPhase::WaitingRunning)],
                    ActionCallView::Inspect,
                    ActionStage::WaitingHealthy,
                )
            } else {
                last_step(
                    seq![update(60, BarPhase::WaitingRunning), update(92, BarPhase::WaitingRunning)],
                    Ok(()),
                )
            },
            ActionStage::WaitingHealthy => match i.health {
                None => again,
                Some(h) => if h == Some(HealthStatus::Healthy) {
                    last_step(seq![update(98, BarPhase::WaitingHealthy)], Ok(()))
                } else {
                    step(
                        seq![update(90, BarPhase::WaitingHealthy)],
                        ActionCallView::Sleep(pause(stage)),
                        stage,
                    )
                },
            },
            ActionStage::WaitingExit => if i.runs() {
                again
            } else {
                last_step(seq![update(98, BarPhase::WaitingExit)], Ok(()))
            },
            _ => again,
        },
    }
}

/// The step that follows an event. A start is waited for until the container runs, and is healthy
/// where it has a health check; a stop until it no longer runs.
pub open spec fn next_step(kind: ActionKind, stage: ActionStage, ev: ActionEventView) -> StepView {
    match ev {
        ActionEventView::Called(r) => match (stage, r) {
            (ActionStage::Calling, Ok(_)) => match kind {
                ActionKind::Starting => step(
                    seq![update(30, BarPhase::StartingRuntime)],
                    ActionCallView::Inspect,
                    ActionStage::WaitingRunning,
                ),
                ActionKind::Stopping => step(
                    seq![update(60, BarPhase::WaitingExit)],
                    ActionCallView::Inspect,
                    ActionStage::WaitingExit,
                ),
            },
            (ActionStage::Calling, Err(e)) => last_step(Seq::empty(), Err(e)),
            _ => step(Seq::empty(), ActionCallView::Inspect, stage),
        },
        ActionEventView::Inspected(ins) => inspected(stage, ins),
        ActionEventView::Slept => step(Seq::empty(), ActionCallView::Inspect, stage),
    }
}

/// The percentage that stands after some reports.
pub open spec fn last_pct(pct: u8, updates: Seq<BarUpdate>) -> u8 {
    if updates.len() == 0 {
        pct
    } else {
        updates.last().pct
    }
}

/// What may have been reported in a stage.
pub open spec fn pct_fits(stage: ActionStage, pct: u8) -> bool {
    match stage {
        ActionStage::Calling => pct <= 25,
        ActionStage::WaitingRunning => pct <= 30,
        ActionStage::WaitingHealthy => pct <= 90,
        ActionStage::WaitingExit => pct <= 60,
        ActionStage::Finished => pct <= 100,
    }
}

/// The reports never fall behind one another, nor behind `pct`.
pub open spec fn rising(pct: u8, updates: Seq<BarUpdate>) -> bool {
    &&& forall|i: int| 0 <= i < updates.len() ==> pct <= #[trigger] updates[i].pct <= 100
    &&& forall|i: int, j: int|
        0 <= i < j < updates.len() ==> (#[trigger] updates[i]).pct <= (#[trigger] updates[j]).pct
}

/// The bar of an action starts low, never goes back, and is full exactly when the action is over.
pub proof fn bar_never_goes_back(kind: ActionKind, stage: ActionStage, pct: u8, ev: ActionEventView)
    requires
        stage != ActionStage::Finished,
        pct_fits(stage, pct),
    ensures
        ({
            let s = next_step(kind, stage, ev);
            &&& rising(pct, s.updates)
            &&& pct_fits(s.stage, last_pct(pct, s.updates))
            &&& (s.stage == ActionStage::Finished <==> s.next is End)
            &&& (s.stage == ActionStage::Finished <==> last_pct(pct, s.updates) == 100)
        }),
        ({
            let s = first_step(kind);
            rising(0, s.updates) && pct_fits(s.stage, last_pct(0, s.updates))
        }),
{
}

/// What is reported in a step, and what has to be done next.
pub struct ActionStep {
    pub updates: Vec<BarUpdate>,
    pub next: ActionCall,
}

impl ActionTask {
    /// What an action has reported last follows from its steps.
    pub open spec fn after(self, s: StepView) -> ActionTask {
        ActionTask { kind: self.kind, stage: s.stage, pct: last_pct(self.pct, s.updates) }
    }
}

fn report(pct: u8, phase: BarPhase) -> (r: BarUpdate)
    ensures
        r == update(pct, phase),
{
    BarUpdate { pct, phase }
}

/// Begins an action.
pub fn launch_action(kind: ActionKind) -> (r: (ActionTask, ActionStep))
    ensures
        r.1.updates@ == first_step(kind).updates,
        r.1.next@ == first_step(kind).next,
        r.0 == (ActionTask { kind, stage: ActionStage::Calling, pct: 0 }).after(first_step(kind)),
{
    let mut updates: Vec<BarUpdate> = Vec::new();
    match kind {
        ActionKind::Starting => {
            updates.push(report(5, BarPhase::StartingRuntime));
            (
                ActionTask { kind, stage: ActionStage::Calling, pct: 5 },
                ActionStep { updates, next: ActionCall::Start },
            )
        },
        ActionKind::Stopping => {
            updates.push(report(5, BarPhase::StoppingSignal));
            updates.push(report(25, BarPhase::StoppingSignal));
            (
                ActionTask { kind, stage: ActionStage::Calling, pct: 25 },
                ActionStep { updates, next: ActionCall::Stop(2) },
            )
        },
    }
}

impl ActionTask {
    fn finish(&mut self, updates: Vec<BarUpdate>, r: Result<(), String>) -> (s: ActionStep)
        ensures
            s.updates@ == last_step(updates@, outcome(r)).updates,
            s.next@ == last_step(updates@, outcome(r)).next,
            *final(self) == old(self).after(last_step(updates@, outcome(r))),
    {
        let mut updates = updates;
        updates.push(report(100, BarPhase::Done));
        self.stage = ActionStage::Finished;
        self.pct = 100;
        ActionStep { updates, next: ActionCall::End(r) }
    }

    fn go(&mut self, u: Option<BarUpdate>, next: ActionCall, stage: ActionStage) -> (s: ActionStep)
        ensures
            s.next == next,
            s.updates@ == (match u {
                Some(b) => seq![b],
                None => Seq::empty(),
            }),
            final(self).kind == old(self).kind,
            final(self).stage == stage,
            final(self).pct == (match u {
                Some(b) => b.pct,
                None => old(self).pct,
            }),
    {
        let mut updates: Vec<BarUpdate> = Vec::new();
        match u {
            Some(b) => {
                self.pct = b.pct;
                updates.push(b);
            },
            None => {},
        }
        self.stage = stage;
        assert(u is Some ==> updates@ == seq![u->0]);
        ActionStep { updates, next }
    }

    fn on_inspected(&mut self, ins: Option<Inspection>) -> (s: ActionStep)
        ensures
            s.updates@ == inspected(old(self).stage, ins).updates,
            s.next@ == inspected(old(self).stage, ins).next,
            *final(self) == old(self).after(inspected(old(self).stage, ins)),
    {
        let stage = self.stage;
        let ms: u64 = match stage {
            ActionStage::WaitingHealthy => 240,
            ActionStage::WaitingExit => 180,
            _ => 200,
        };
        match ins {
            None => self.go(None, ActionCall::Sleep(ms), stage),
            Some(i) => {
                let runs: bool = match i.running {
                    Some(b) => b,
                    None => false,
                };
                match stage {
                    ActionStage::WaitingRunning => {
                        if !runs {
                            self.go(None, ActionCall::Sleep(ms), stage)
                        } else if i.health.is_some() {
                            self.go(
                                Some(report(60, BarPhase::WaitingRunning)),
                                ActionCall::Inspect,
                                ActionStage::WaitingHealthy,
                            )
                        } else {
                            let mut updates: Vec<BarUpdate> = Vec::new();
                            updates.push(report(60, BarPhase::WaitingRunning));
                            updates.push(report(92, BarPhase::WaitingRunning));
                            assert(updates@ == seq![
                                update(60, BarPhase::WaitingRunning),
                                update(92, BarPhase::WaitingRunning),
                            ]);
                            self.finish(updates, Ok(()))
                        }
                    },
                    ActionStage::WaitingHealthy => {
                        match i.health {
                            None => self.go(None, ActionCall::Sleep(ms), stage),
                            Some(h) => {
                                let healthy: bool = match h {
                                    Some(HealthStatus::Healthy) => true,
                                    _ => false,
                                };
                                if healthy {
                                    let mut updates: Vec<BarUpdate> = Vec::new();
                                    updates.push(report(98, BarPhase::WaitingHealthy));
                                    assert(updates@ == seq![update(98, BarPhase::WaitingHealthy)]);
                                    self.finish(updates, Ok(()))
                                } else {
                                    self.go(
                                        Some(report(90, BarPhase::WaitingHealthy)),
                                        ActionCall::Sleep(ms),
                                        stage,
                                    )
                                }
                            },
                        }
                    },
                    ActionStage::WaitingExit => {
                        if runs {
                            self.go(None, ActionCall::Sleep(ms), stage)
                        } else {
                            let mut updates: Vec<BarUpdate> = Vec::new();
                            updates.push(report(98, BarPhase::WaitingExit));
                            assert(updates@ == seq![update(98, BarPhase::WaitingExit)]);
                            self.finish(updates, Ok(()))
                        }
                    },
                    _ => self.go(None, ActionCall::Sleep(ms), stage),
                }
            },
        }
    }

    /// Takes the outcome of the last call, and says what to do next.
    pub fn advance(&mut self, ev: ActionEvent) -> (s: ActionStep)
        ensures
            s.updates@ == next_step(old(self).kind, old(self).stage, ev@).updates,
            s.next@ == next_step(old(self).kind, old(self).stage, ev@).next,
            *final(self) == old(self).after(next_step(old(self).kind, old(self).stage, ev@)),
    {
        let stage = self.stage;
        match ev {
            ActionEvent::Called(r) => {
                if stage == ActionStage::Calling {
                    match r {
                        Ok(_) => match self.kind {
                            ActionKind::Starting => self.go(
                                Some(report(30, BarPhase::StartingRuntime)),
                                ActionCall::Inspect,
                                ActionStage::WaitingRunning,
                            ),
                            ActionKind::Stopping => self.go(
                                Some(report(60, BarPhase::WaitingExit)),
                                ActionCall::Inspect,
                                ActionStage::WaitingExit,
                            ),
                        },
                        Err(e) => self.finish(Vec::new(), Err(e)),
                    }
                } else {
                    self.go(None, ActionCall::Inspect, stage)
                }
            },
            ActionEvent::Inspected(ins) => self.on_inspected(ins),
            ActionEvent::Slept => self.go(None, ActionCall::Inspect, stage),
        }
    }
}

/// An action that is shown while it runs.
pub struct ActionAnim {
    pub kind: ActionKind,
    pub name: String,
    pub bar_phase: BarPhase,
    pub bar_target_pct: u8,
    /// How the action ended, once it has.
    pub result: Option<Result<(), String>>,
}

#[verifier::ext_equal]
pub struct AnimModel {
    pub kind: ActionKind,
    pub name: Seq<char>,
    pub bar_phase: BarPhase,
    pub bar_target_pct: u8,
    pub result: Option<Result<(), Seq<char>>>,
}

impl View for ActionAnim {
    type V = AnimModel;

    open spec fn view(&self) -> AnimModel {
        AnimModel {
            kind: self.kind,
            name: self.name@,
            bar_phase: self.bar_phase,
            bar_target_pct: self.bar_target_pct,
            result: match self.result {
                Some(r) => Some(outcome(r)),
                None => None,
            },
        }
    }
}

impl AnimModel {
    pub open spec fn fresh(kind: ActionKind, name: Seq<char>) -> AnimModel {
        AnimModel { kind, name, bar_phase: BarPhase::Init, bar_target_pct: 0, result: None }
    }
}

impl ActionAnim {
    pub fn new(kind: ActionKind, name: String) -> (r: ActionAnim)
        ensures
            r@ == AnimModel::fresh(kind, name@),
    {
        ActionAnim { kind, name, bar_phase: BarPhase::Init, bar_target_pct: 0, result: None }
    }

    /// Takes a report.
    pub fn on_update(&mut self, u: BarUpdate)
        ensures
            final(self)@ == (AnimModel {
                bar_phase: u.phase,
                bar_target_pct: if u.pct > 100 {
                    100
                } else {
                    u.pct
                },
                ..old(self)@
            }),
    {
        self.bar_target_pct = if u.pct > 100 {
            100
        } else {
            u.pct
        };
        self.bar_phase = u.phase;
    }

    /// Takes the outcome of the action.
    pub fn on_end(&mut self, r: Result<(), String>)
        ensures
            final(self)@ == (AnimModel { result: Some(outcome(r)), ..old(self)@ }),
    {
        self.result = Some(r);
    }

    /// The title of the overlay.
    pub fn title(&self) -> (r: String)
        ensures
            r@ == (match self@.kind {
                ActionKind::Starting => "Launching…"@,
                ActionKind::Stopping => "Landing…"@,
            }),
    {
        match self.kind {
            ActionKind::Starting => "Launching…".to_owned(),
            ActionKind::Stopping => "Landing…".to_owned(),
        }
    }

    /// The title of the bar.
    pub fn bar_title(&self) -> (r: String)
        ensures
            r@ == "Progress ("@ + phase_label(self@.bar_phase) + ")"@,
    {
        crate::text::cat3("Progress (", phase_text(self.bar_phase).as_str(), ")")
    }
}

pub open spec fn phase_label(p: BarPhase) -> Seq<char> {
    match p {
        BarPhase::Init => "init"@,
        BarPhase::PullingImage => "pull image"@,
        BarPhase::StartingRuntime => "runtime"@,
        BarPhase::WaitingRunning => "running…"@,
        BarPhase::WaitingHealthy => "health…"@,
        BarPhase::StoppingSignal => "SIGTERM"@,
        BarPhase::WaitingExit => "exit…"@,
        BarPhase::Done => "done"@,
        BarPhase::Error => "error"@,
    }
}

fn phase_text(p: BarPhase) -> (r: String)
    ensures
        r@ == phase_label(p),
{
    match p {
        BarPhase::Init => "init".to_owned(),
        BarPhase::PullingImage => "pull image".to_owned(),
        BarPhase::StartingRuntime => "runtime".to_owned(),
        BarPhase::WaitingRunning => "running…".to_owned(),
        BarPhase::WaitingHealthy => "health…".to_owned(),
        BarPhase::StoppingSignal => "SIGTERM".to_owned(),
        BarPhase::WaitingExit => "exit…".to_owned(),
        BarPhase::Done => "done".to_owned(),
        BarPhase::Error => "error".to_owned(),
    }
}

} // verus!
