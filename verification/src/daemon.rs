//! The daemon's loop, as a function from state and event to next state.
//!
//! Whoever drives the daemon asks it what to do, does that, and tells it what
//! came of it. One round of the loop reads the stop flag, waits a bounded time
//! for input, fetches the events that are there and feeds them to the hotkey
//! detector. Each time the detector fires, the backlight is switched to the
//! other state and that state is persisted, before the next event is looked
//! at. The stop flag is read at the top of a round and nowhere else.

use vstd::prelude::*;
use crate::error::{Error, ErrorView};
use crate::hotkey::{
    fires_at, hotkey_step, lemma_fires_exactly, lemma_phase_after_first, phase_after,
    HotkeyDetector, HotkeyPhase, InputEvent,
};
use crate::led_config::LedConfig;

verus! {

/// How long one wait for input may last, in milliseconds.
pub const WAIT_TIMEOUT_MS: u16 = 100;

/// The input device of the keyboard.
pub const INPUT_DEVICE: &'static str =
    "/dev/input/by-id/usb-ITE_Tech._Inc._ITE_Device_8910_-event-kbd";

/// The exit code of a daemon that was asked to stop.
pub const EXIT_SUCCESS: u8 = 0;

/// The exit code of a daemon that gave up.
pub const EXIT_FAILURE: u8 = 1;

/// How a wait for input ended.
#[derive(Clone, Copy, Debug, PartialEq, Eq, Structural)]
pub enum WaitOutcome {
    /// The wait returned with this many ready descriptors; none means that
    /// the time ran out.
    Ready(i32),
    /// A signal interrupted the wait.
    Interrupted,
    /// The wait failed with this errno code.
    Failed(i32),
}

/// What the daemon wants done next.
#[derive(Clone, Copy, Debug, PartialEq, Eq, Structural)]
pub enum DaemonAction {
    /// Read the flag that the termination signal sets.
    ReadStopFlag,
    /// Wait for input, for at most this many milliseconds.
    Wait(u16),
    /// Fetch the input events that are available.
    FetchEvents,
    /// Switch the backlight on or off.
    SetBacklight(bool),
    /// Persist this state.
    Persist(LedConfig),
    /// Leave with this exit code.
    Exit(u8),
}

/// What came of the action that the daemon asked for.
#[derive(Debug)]
pub enum DaemonEvent {
    /// The stop flag was read and had this value.
    StopFlag(bool),
    /// The wait for input ended.
    Waited(WaitOutcome),
    /// These events were fetched, in this order.
    Fetched(Vec<InputEvent>),
    /// The backlight was switched, or could not be.
    BacklightSet(Result<(), Error>),
    /// The state was persisted, or could not be.
    Persisted(Result<(), Error>),
}

/// Why the daemon has stopped.
#[derive(Debug)]
pub enum ExitReason {
    /// The stop flag was set.
    Terminated,
    /// A signal interrupted the wait for input.
    Interrupted,
    /// The wait for input failed with this errno code.
    WaitFailed(i32),
    /// The state could not be persisted.
    PersistFailed(Error),
    /// The backlight could not be switched.
    SwitchFailed(Error),
}

/// Where in its loop the daemon is.
#[derive(Debug)]
pub enum DaemonStage {
    /// At the top of a round: the stop flag is to be read.
    AwaitingStopFlag,
    /// The wait for input is under way.
    Waiting,
    /// The available events are being fetched.
    Fetching,
    /// The backlight is being switched.
    Switching,
    /// The state is being persisted; the backlight was switched with this
    /// result.
    Persisting(Result<(), Error>),
    /// The loop is over.
    Stopped(ExitReason),
}

/// The daemon between two actions.
#[derive(Debug)]
pub struct Daemon {
    /// The state of the backlight as it was last commanded.
    pub config: LedConfig,
    /// The hotkey detector.
    pub detector: HotkeyDetector,
    /// The fetched events that the detector has not seen yet.
    pub backlog: Vec<InputEvent>,
    /// Where in its loop the daemon is.
    pub stage: DaemonStage,
}

/// A result without a value, as a mathematical value.
pub open spec fn outcome_view(outcome: Result<(), Error>) -> Result<(), ErrorView> {
    match outcome {
        Ok(_) => Ok(()),
        Err(error) => Err(error@),
    }
}

/// A [`DaemonEvent`] as a mathematical value.
pub enum DaemonEventView {
    StopFlag(bool),
    Waited(WaitOutcome),
    Fetched(Seq<InputEvent>),
    BacklightSet(Result<(), ErrorView>),
    Persisted(Result<(), ErrorView>),
}

impl View for DaemonEvent {
    type V = DaemonEventView;

    open spec fn view(&self) -> DaemonEventView {
        match self {
            DaemonEvent::StopFlag(stop) => DaemonEventView::StopFlag(*stop),
            DaemonEvent::Waited(outcome) => DaemonEventView::Waited(*outcome),
            DaemonEvent::Fetched(events) => DaemonEventView::Fetched(events@),
            DaemonEvent::BacklightSet(outcome) => DaemonEventView::BacklightSet(
                outcome_view(*outcome),
            ),
            DaemonEvent::Persisted(outcome) => DaemonEventView::Persisted(outcome_view(*outcome)),
        }
    }
}

/// An [`ExitReason`] as a mathematical value.
pub enum ExitReasonView {
    Terminated,
    Interrupted,
    WaitFailed(i32),
    PersistFailed(ErrorView),
    SwitchFailed(ErrorView),
}

impl View for ExitReason {
    type V = ExitReasonView;

    open spec fn view(&self) -> ExitReasonView {
        match self {
            ExitReason::Terminated => ExitReasonView::Terminated,
            ExitReason::Interrupted => ExitReasonView::Interrupted,
            ExitReason::WaitFailed(code) => ExitReasonView::WaitFailed(*code),
            ExitReason::PersistFailed(error) => ExitReasonView::PersistFailed(error@),
            ExitReason::SwitchFailed(error) => ExitReasonView::SwitchFailed(error@),
        }
    }
}

/// A [`DaemonStage`] as a mathematical value.
pub enum DaemonStageView {
    AwaitingStopFlag,
    Waiting,
    Fetching,
    Switching,
    Persisting(Result<(), ErrorView>),
    Stopped(ExitReasonView),
}

impl View for DaemonStage {
    type V = DaemonStageView;

    open spec fn view(&self) -> DaemonStageView {
        match self {
            DaemonStage::AwaitingStopFlag => DaemonStageView::AwaitingStopFlag,
            DaemonStage::Waiting => DaemonStageView::Waiting,
            DaemonStage::Fetching => DaemonStageView::Fetching,
            DaemonStage::Switching => DaemonStageView::Switching,
            DaemonStage::Persisting(switched) => DaemonStageView::Persisting(
                outcome_view(*switched),
            ),
            DaemonStage::Stopped(reason) => DaemonStageView::Stopped(reason@),
        }
    }
}

/// A [`Daemon`] as a mathematical value.
pub struct DaemonView {
    pub config: LedConfig,
    pub phase: HotkeyPhase,
    pub backlog: Seq<InputEvent>,
    pub stage: DaemonStageView,
}

impl View for Daemon {
    type V = DaemonView;

    open spec fn view(&self) -> DaemonView {
        DaemonView {
            config: self.config,
            phase: self.detector.phase,
            backlog: self.backlog@,
            stage: self.stage@,
        }
    }
}

impl ExitReasonView {
    /// The exit code that goes with the reason: success where the daemon was
    /// asked to stop, failure where it gave up.
    pub open spec fn code(self) -> u8 {
        match self {
            ExitReasonView::Terminated => EXIT_SUCCESS,
            ExitReasonView::Interrupted => EXIT_SUCCESS,
            _ => EXIT_FAILURE,
        }
    }
}

/// The daemon after it has fed `backlog` to its detector as far as the first
/// event on which the detector fires: there it turns to switching the
/// backlight to the other state, with the rest of the backlog kept. With the
/// backlog used up it is back at the top of a round.
pub open spec fn drained(
    config: LedConfig,
    phase: HotkeyPhase,
    backlog: Seq<InputEvent>,
) -> DaemonView
    decreases backlog.len(),
{
    if backlog.len() == 0 {
        DaemonView { config, phase, backlog, stage: DaemonStageView::AwaitingStopFlag }
    } else {
        let (next_phase, fired) = hotkey_step(phase, backlog.first());
        if fired {
            DaemonView {
                config: LedConfig { is_on: !config.is_on },
                phase: next_phase,
                backlog: backlog.drop_first(),
                stage: DaemonStageView::Switching,
            }
        } else {
            drained(config, next_phase, backlog.drop_first())
        }
    }
}

impl DaemonView {
    /// The daemon with another stage.
    pub open spec fn at(self, stage: DaemonStageView) -> DaemonView {
        DaemonView { stage, ..self }
    }

    /// What the daemon wants done at its stage.
    pub open spec fn action(self) -> DaemonAction {
        match self.stage {
            DaemonStageView::AwaitingStopFlag => DaemonAction::ReadStopFlag,
            DaemonStageView::Waiting => DaemonAction::Wait(WAIT_TIMEOUT_MS),
            DaemonStageView::Fetching => DaemonAction::FetchEvents,
            DaemonStageView::Switching => DaemonAction::SetBacklight(self.config.is_on),
            DaemonStageView::Persisting(_) => DaemonAction::Persist(self.config),
            DaemonStageView::Stopped(reason) => DaemonAction::Exit(reason.code()),
        }
    }

    /// The daemon after `event`. An event that does not answer the action
    /// that the daemon asked for leaves it as it is.
    pub open spec fn advanced(self, event: DaemonEventView) -> DaemonView {
        match (self.stage, event) {
            (DaemonStageView::AwaitingStopFlag, DaemonEventView::StopFlag(stop)) => if stop {
                self.at(DaemonStageView::Stopped(ExitReasonView::Terminated))
            } else {
                self.at(DaemonStageView::Waiting)
            },
            (DaemonStageView::Waiting, DaemonEventView::Waited(WaitOutcome::Ready(count))) => {
                if count == 0 {
                    self.at(DaemonStageView::AwaitingStopFlag)
                } else {
                    self.at(DaemonStageView::Fetching)
                }
            },
            (DaemonStageView::Waiting, DaemonEventView::Waited(WaitOutcome::Interrupted)) => {
                self.at(DaemonStageView::Stopped(ExitReasonView::Interrupted))
            },
            (DaemonStageView::Waiting, DaemonEventView::Waited(WaitOutcome::Failed(code))) => {
                self.at(DaemonStageView::Stopped(ExitReasonView::WaitFailed(code)))
            },
            (DaemonStageView::Fetching, DaemonEventView::Fetched(events)) => {
                drained(self.config, self.phase, events)
            },
            (DaemonStageView::Switching, DaemonEventView::BacklightSet(switched)) => {
                self.at(DaemonStageView::Persisting(switched))
            },
            (DaemonStageView::Persisting(switched), DaemonEventView::Persisted(saved)) => {
                match (saved, switched) {
                    (Err(error), _) => self.at(
                        DaemonStageView::Stopped(ExitReasonView::PersistFailed(error)),
                    ),
                    (Ok(_), Err(error)) => self.at(
                        DaemonStageView::Stopped(ExitReasonView::SwitchFailed(error)),
                    ),
                    (Ok(_), Ok(_)) => drained(self.config, self.phase, self.backlog),
                }
            },
            _ => self,
        }
    }
}

impl ExitReason {
    /// The exit code that goes with the reason.
    pub fn code(&self) -> (code: u8)
        ensures
            code == self@.code(),
    {
        match self {
            ExitReason::Terminated => EXIT_SUCCESS,
            ExitReason::Interrupted => EXIT_SUCCESS,
            _ => EXIT_FAILURE,
        }
    }
}

impl Daemon {
    /// The daemon at the top of its first round, with the backlight in the
    /// state that was loaded and nothing of the hotkey seen.
    pub fn new(config: LedConfig) -> (daemon: Daemon)
        ensures
            daemon@ == (DaemonView {
                config,
                phase: HotkeyPhase::Idle,
                backlog: Seq::<InputEvent>::empty(),
                stage: DaemonStageView::AwaitingStopFlag,
            }),
    {
        Daemon {
            config,
            detector: HotkeyDetector::new(),
            backlog: Vec::new(),
            stage: DaemonStage::AwaitingStopFlag,
        }
    }

    /// What the daemon wants done next.
    pub fn action(&self) -> (action: DaemonAction)
        ensures
            action == self@.action(),
    {
        match &self.stage {
            DaemonStage::AwaitingStopFlag => DaemonAction::ReadStopFlag,
            DaemonStage::Waiting => DaemonAction::Wait(WAIT_TIMEOUT_MS),
            DaemonStage::Fetching => DaemonAction::FetchEvents,
            DaemonStage::Switching => DaemonAction::SetBacklight(self.config.is_on),
            DaemonStage::Persisting(_) => DaemonAction::Persist(self.config),
            DaemonStage::Stopped(reason) => DaemonAction::Exit(reason.code()),
        }
    }

    /// Feeds the backlog to the detector up to the first event on which it
    /// fires.
    fn drain(config: LedConfig, detector: HotkeyDetector, backlog: Vec<InputEvent>) -> (next:
        Daemon)
        ensures
            next@ == drained(config, detector.phase, backlog@),
    {
        let mut feeder = detector;
        let mut pending = backlog;
        let mut i: usize = 0;
        assert(backlog@.skip(0) =~= backlog@);
        while i < pending.len()
            invariant
                i <= pending.len(),
                pending@ == backlog@,
                drained(config, detector.phase, backlog@) == drained(
                    config,
                    feeder.phase,
                    backlog@.skip(i as int),
                ),
            decreases pending.len() - i,
        {
            let ghost rest = backlog@.skip(i as int);
            assert(rest.drop_first() =~= backlog@.skip(i + 1));
            let fired = feeder.feed(pending[i]);
            if fired {
                let kept = pending.split_off(i + 1);
                return Daemon {
                    config: config.toggled(),
                    detector: feeder,
                    backlog: kept,
                    stage: DaemonStage::Switching,
                };
            }
            i += 1;
        }
        assert(backlog@.skip(i as int) =~= Seq::<InputEvent>::empty());
        Daemon {
            config,
            detector: feeder,
            backlog: Vec::new(),
            stage: DaemonStage::AwaitingStopFlag,
        }
    }

    /// The daemon after `event`, which tells what came of the action that it
    /// asked for. An event that does not answer that action changes nothing.
    pub fn advance(self, event: DaemonEvent) -> (next: Daemon)
        ensures
            next@ == self@.advanced(event@),
    {
        let Daemon { config, detector, backlog, stage } = self;
        match (stage, event) {
            (DaemonStage::AwaitingStopFlag, DaemonEvent::StopFlag(stop)) => {
                let stage = if stop {
                    DaemonStage::Stopped(ExitReason::Terminated)
                } else {
                    DaemonStage::Waiting
                };
                Daemon { config, detector, backlog, stage }
            },
            (DaemonStage::Waiting, DaemonEvent::Waited(outcome)) => {
                let stage = match outcome {
                    WaitOutcome::Ready(count) => if count == 0 {
                        DaemonStage::AwaitingStopFlag
                    } else {
                        DaemonStage::Fetching
                    },
                    WaitOutcome::Interrupted => DaemonStage::Stopped(ExitReason::Interrupted),
                    WaitOutcome::Failed(code) => DaemonStage::Stopped(
                        ExitReason::WaitFailed(code),
                    ),
                };
                Daemon { config, detector, backlog, stage }
            },
            (DaemonStage::Fetching, DaemonEvent::Fetched(events)) => {
                Daemon::drain(config, detector, events)
            },
            (DaemonStage::Switching, DaemonEvent::BacklightSet(switched)) => {
                Daemon { config, detector, backlog, stage: DaemonStage::Persisting(switched) }
            },
            (DaemonStage::Persisting(switched), DaemonEvent::Persisted(saved)) => {
                match saved {
                    Err(error) => Daemon {
                        config,
                        detector,
                        backlog,
                        stage: DaemonStage::Stopped(ExitReason::PersistFailed(error)),
                    },
                    Ok(_) => match switched {
                        Err(error) => Daemon {
                            config,
                            detector,
                            backlog,
                            stage: DaemonStage::Stopped(ExitReason::SwitchFailed(error)),
                        },
                        Ok(_) => Daemon::drain(config, detector, backlog),
                    },
                }
            },
            (stage, _) => Daemon { config, detector, backlog, stage },
        }
    }
}

/// A daemon that has stopped stays stopped: no event moves it, and all it
/// asks for is to leave with the code of its reason.
pub proof fn lemma_stopped_is_final(daemon: DaemonView, event: DaemonEventView)
    requires
        daemon.stage is Stopped,
    ensures
        daemon.advanced(event) == daemon,
        daemon.action() == DaemonAction::Exit(daemon.stage->Stopped_0.code()),
{
}

/// The stop flag counts at the top of a round only: while the daemon waits,
/// fetches, switches or persists, a reading of the flag changes nothing.
pub proof fn lemma_stop_flag_counts_at_top_only(daemon: DaemonView, stop: bool)
    requires
        !(daemon.stage is AwaitingStopFlag),
    ensures
        daemon.advanced(DaemonEventView::StopFlag(stop)) == daemon,
{
}

/// A set stop flag, read at the top of a round, ends the loop with success,
/// and nothing but the stage changes. An unset one lets the daemon wait for
/// input for the bounded time.
pub proof fn lemma_stop_flag_at_top(daemon: DaemonView, stop: bool)
    requires
        daemon.stage is AwaitingStopFlag,
    ensures
        stop ==> daemon.advanced(DaemonEventView::StopFlag(stop)) == daemon.at(
            DaemonStageView::Stopped(ExitReasonView::Terminated),
        ),
        stop ==> daemon.advanced(DaemonEventView::StopFlag(stop)).action() == DaemonAction::Exit(
            EXIT_SUCCESS,
        ),
        !stop ==> daemon.advanced(DaemonEventView::StopFlag(stop)).action() == DaemonAction::Wait(
            WAIT_TIMEOUT_MS,
        ),
{
}

/// A wait that a signal interrupted ends the loop with success; a wait that
/// failed otherwise ends it with failure; a wait that timed out leads back to
/// the top of the round, where the stop flag is read.
pub proof fn lemma_wait_outcomes(daemon: DaemonView, outcome: WaitOutcome)
    requires
        daemon.stage is Waiting,
    ensures
        ({
            let next = daemon.advanced(DaemonEventView::Waited(outcome));
            match outcome {
                WaitOutcome::Interrupted => next.action() == DaemonAction::Exit(EXIT_SUCCESS),
                WaitOutcome::Failed(_) => next.action() == DaemonAction::Exit(EXIT_FAILURE),
                WaitOutcome::Ready(count) => next.action() == if count == 0 {
                    DaemonAction::ReadStopFlag
                } else {
                    DaemonAction::FetchEvents
                },
            }
        }),
{
}

/// Once the backlight was commanded, the state is persisted next, whether
/// the command went well or not; and if persisting or the command failed, the
/// daemon gives up, with the failure to persist named first.
pub proof fn lemma_switch_is_persisted(
    daemon: DaemonView,
    switched: Result<(), ErrorView>,
    saved: Result<(), ErrorView>,
)
    requires
        daemon.stage is Switching,
    ensures
        ({
            let persisting = daemon.advanced(DaemonEventView::BacklightSet(switched));
            let after = persisting.advanced(DaemonEventView::Persisted(saved));
            &&& persisting.action() == DaemonAction::Persist(daemon.config)
            &&& saved is Err ==> after.stage == DaemonStageView::Stopped(
                ExitReasonView::PersistFailed(saved->Err_0),
            )
            &&& saved is Ok && switched is Err ==> after.stage == DaemonStageView::Stopped(
                ExitReasonView::SwitchFailed(switched->Err_0),
            )
            &&& saved is Err || switched is Err ==> after.action() == DaemonAction::Exit(
                EXIT_FAILURE,
            )
            &&& saved is Ok && switched is Ok ==> after == drained(
                daemon.config,
                daemon.phase,
                daemon.backlog,
            )
        }),
{
}

/// The daemon commands the backlight when the detector fires and then only:
/// a backlog is fed as far as the first event on which the detector fires;
/// there the state flips once, the backlight is to be switched to the new
/// state, and the events behind that one wait until the switch is persisted.
pub proof fn lemma_drained_switches_at_first_toggle(
    config: LedConfig,
    phase: HotkeyPhase,
    backlog: Seq<InputEvent>,
    at: int,
)
    requires
        0 <= at < backlog.len(),
        fires_at(phase, backlog, at),
        forall|j: int| 0 <= j < at ==> !fires_at(phase, backlog, j),
    ensures
        drained(config, phase, backlog) == (DaemonView {
            config: LedConfig { is_on: !config.is_on },
            phase: HotkeyPhase::Idle,
            backlog: backlog.skip(at + 1),
            stage: DaemonStageView::Switching,
        }),
        drained(config, phase, backlog).action() == DaemonAction::SetBacklight(!config.is_on),
    decreases backlog.len(),
{
    let rest = backlog.drop_first();
    let armed = hotkey_step(phase, backlog.first()).0;
    lemma_fires_exactly(phase, backlog, 0);
    if at > 0 {
        assert forall|j: int| 0 <= j < at - 1 implies !fires_at(armed, rest, j) by {
            lemma_fires_exactly(armed, rest, j);
            lemma_fires_exactly(phase, backlog, j + 1);
        }
        lemma_fires_exactly(armed, rest, at - 1);
        lemma_fires_exactly(phase, backlog, at);
        lemma_drained_switches_at_first_toggle(config, armed, rest, at - 1);
        assert(rest.skip(at) =~= backlog.skip(at + 1));
    }
}

/// A backlog on which the detector never fires is fed whole and leaves the
/// state of the backlight alone: the daemon is back at the top of a round,
/// with the detector in the phase that the events have put it in.
pub proof fn lemma_drained_without_toggle(
    config: LedConfig,
    phase: HotkeyPhase,
    backlog: Seq<InputEvent>,
)
    requires
        forall|j: int| 0 <= j < backlog.len() ==> !fires_at(phase, backlog, j),
    ensures
        drained(config, phase, backlog) == (DaemonView {
            config,
            phase: phase_after(phase, backlog),
            backlog: Seq::<InputEvent>::empty(),
            stage: DaemonStageView::AwaitingStopFlag,
        }),
        drained(config, phase, backlog).action() == DaemonAction::ReadStopFlag,
    decreases backlog.len(),
{
    if backlog.len() == 0 {
        assert(backlog =~= Seq::<InputEvent>::empty());
    } else {
        let rest = backlog.drop_first();
        let armed = hotkey_step(phase, backlog.first()).0;
        lemma_fires_exactly(phase, backlog, 0);
        assert forall|j: int| 0 <= j < rest.len() implies !fires_at(armed, rest, j) by {
            lemma_fires_exactly(armed, rest, j);
            lemma_fires_exactly(phase, backlog, j + 1);
        }
        lemma_drained_without_toggle(config, armed, rest);
        lemma_phase_after_first(phase, backlog);
    }
}

} // verus!
