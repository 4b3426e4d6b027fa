//! The state of the Stress page's controls across a run: whether a run is
//! active, what the status line and the Start/Stop button show, and which
//! graphs the page keeps.

use vstd::prelude::*;

verus! {

/// What the status line says.
#[derive(Clone, Copy, PartialEq, Eq, Structural, Debug)]
pub enum RunStatus {
    /// Nothing has run yet.
    Idle,
    /// "Running…"
    Running,
    /// "Stopping…"
    Stopping,
    /// "Finished": the last run exited successfully.
    Finished,
    /// "Finished with errors (<status>)": the last run exited unsuccessfully.
    FinishedWithErrors,
    /// "Error waiting for stress-ng: <error>".
    WaitFailed,
}

/// How a run ended, as far as the page cares.
#[derive(Clone, Copy, PartialEq, Eq, Structural, Debug)]
pub enum ExitOutcome {
    /// The process exited with a success status.
    Success,
    /// The process exited with another status.
    Failure,
    /// Waiting for the process failed.
    WaitError,
}

/// What a press of Start leads to.
#[derive(Clone, Copy, PartialEq, Eq, Structural, Debug)]
pub enum StartDecision {
    /// A run is already active; nothing happens.
    AlreadyRunning,
    /// `stress-ng` cannot be run; the "not found" banner is shown.
    BinaryMissing,
    /// The banner is hidden and the run is to be launched.
    Launch,
}

/// The page's controls, as plain values.
#[derive(Clone, Copy, PartialEq, Eq, Structural, Debug)]
pub struct PageModel {
    pub is_running: bool,
    pub status: RunStatus,
    /// Whether the Start/Stop button can be pressed.
    pub button_sensitive: bool,
    /// Whether the button reads "Stop" (styled destructive) rather than
    /// "Start" (styled suggested).
    pub button_shows_stop: bool,
    /// Whether the test type, workers, duration, method and verify rows can
    /// be edited.
    pub controls_sensitive: bool,
    /// Whether the "stress-ng was not found" banner is shown.
    pub banner_revealed: bool,
    /// The number of per-core datasets (at least 1).
    pub cpu_count: usize,
    pub has_power: bool,
    pub has_temperature: bool,
}

/// The controls agree with whether a run is active: the button reads Stop
/// and the settings are locked exactly while a run is active, and the status
/// line says Running or Stopping exactly then.
pub open spec fn consistent(m: PageModel) -> bool {
    &&& m.button_shows_stop == m.is_running
    &&& m.controls_sensitive == !m.is_running
    &&& (m.is_running <==> (m.status == RunStatus::Running || m.status == RunStatus::Stopping))
    &&& m.cpu_count >= 1
}

/// The status shown after a run ends with `outcome`.
pub open spec fn exit_status(outcome: ExitOutcome) -> RunStatus {
    match outcome {
        ExitOutcome::Success => RunStatus::Finished,
        ExitOutcome::Failure => RunStatus::FinishedWithErrors,
        ExitOutcome::WaitError => RunStatus::WaitFailed,
    }
}

/// The Stress page's state.
pub struct StressPage {
    m: PageModel,
}

impl View for StressPage {
    type V = PageModel;

    closed spec fn view(&self) -> PageModel {
        self.m
    }
}

impl StressPage {
    #[verifier::type_invariant]
    spec fn inv(self) -> bool {
        consistent(self.m)
    }

    /// The page as built: idle, Start enabled, settings editable, banner
    /// hidden, one core, and power and temperature graphs assumed present.
    pub fn new() -> (p: StressPage)
        ensures
            p@ == (PageModel {
                is_running: false,
                status: RunStatus::Idle,
                button_sensitive: true,
                button_shows_stop: false,
                controls_sensitive: true,
                banner_revealed: false,
                cpu_count: 1,
                has_power: true,
                has_temperature: true,
            }),
            consistent(p@),
    {
        StressPage {
            m: PageModel {
                is_running: false,
                status: RunStatus::Idle,
                button_sensitive: true,
                button_shows_stop: false,
                controls_sensitive: true,
                banner_revealed: false,
                cpu_count: 1,
                has_power: true,
                has_temperature: true,
            },
        }
    }

    /// The controls' current values.
    pub fn model(&self) -> (m: PageModel)
        ensures
            m == self@,
            consistent(m),
    {
        proof {
            use_type_invariant(self);
        }
        self.m
    }

    /// The result of the background check for `stress-ng`: when it is
    /// missing, the banner is shown and Start is disabled.
    pub fn availability_checked(&mut self, available: bool)
        ensures
            final(self)@ == (if available {
                old(self)@
            } else {
                PageModel { banner_revealed: true, button_sensitive: false, ..old(self)@ }
            }),
            consistent(final(self)@),
    {
        proof {
            use_type_invariant(&*self);
        }
        if !available {
            self.m = PageModel { banner_revealed: true, button_sensitive: false, ..self.m };
        }
    }

    /// Start was pressed; `available` tells whether `stress-ng` can be run.
    pub fn start_requested(&mut self, available: bool) -> (d: StartDecision)
        ensures
            old(self)@.is_running ==> d == StartDecision::AlreadyRunning && final(self)@ == old(self)@,
            !old(self)@.is_running && !available ==> d == StartDecision::BinaryMissing
                && final(self)@ == (PageModel { banner_revealed: true, ..old(self)@ }),
            !old(self)@.is_running && available ==> d == StartDecision::Launch
                && final(self)@ == (PageModel { banner_revealed: false, ..old(self)@ }),
            consistent(final(self)@),
    {
        proof {
            use_type_invariant(&*self);
        }
        if self.m.is_running {
            return StartDecision::AlreadyRunning;
        }
        if !available {
            self.m = PageModel { banner_revealed: true, ..self.m };
            return StartDecision::BinaryMissing;
        }
        self.m = PageModel { banner_revealed: false, ..self.m };
        StartDecision::Launch
    }

    /// The launch decided on by `start_requested` was attempted; `spawned`
    /// tells whether the process started. On success the run is active, the
    /// button reads Stop and the settings are locked; on failure nothing
    /// changes (the failure is logged).
    pub fn launch_finished(&mut self, spawned: bool)
        ensures
            final(self)@ == (if spawned {
                PageModel {
                    is_running: true,
                    status: RunStatus::Running,
                    button_shows_stop: true,
                    controls_sensitive: false,
                    ..old(self)@
                }
            } else {
                old(self)@
            }),
            consistent(final(self)@),
    {
        proof {
            use_type_invariant(&*self);
        }
        if spawned {
            self.m = PageModel {
                is_running: true,
                status: RunStatus::Running,
                button_shows_stop: true,
                controls_sensitive: false,
                ..self.m
            };
        }
    }

    /// Stop was pressed. Returns whether the running process is to be
    /// signalled; when it is, the status says Stopping and the button is
    /// disabled until the process exits.
    pub fn stop_requested(&mut self) -> (stop: bool)
        ensures
            stop == old(self)@.is_running,
            final(self)@ == (if stop {
                PageModel { status: RunStatus::Stopping, button_sensitive: false, ..old(self)@ }
            } else {
                old(self)@
            }),
            consistent(final(self)@),
    {
        proof {
            use_type_invariant(&*self);
        }
        if !self.m.is_running {
            return false;
        }
        self.m = PageModel { status: RunStatus::Stopping, button_sensitive: false, ..self.m };
        true
    }

    /// The process exited: the run is over, the button reads Start and is
    /// enabled, the settings are editable again, and the status tells how
    /// the run ended.
    pub fn process_exited(&mut self, outcome: ExitOutcome) -> (s: RunStatus)
        ensures
            s == exit_status(outcome),
            final(self)@ == (PageModel {
                is_running: false,
                status: exit_status(outcome),
                button_sensitive: true,
                button_shows_stop: false,
                controls_sensitive: true,
                ..old(self)@
            }),
            consistent(final(self)@),
    {
        proof {
            use_type_invariant(&*self);
        }
        let status = match outcome {
            ExitOutcome::Success => RunStatus::Finished,
            ExitOutcome::Failure => RunStatus::FinishedWithErrors,
            ExitOutcome::WaitError => RunStatus::WaitFailed,
        };
        self.m = PageModel {
            is_running: false,
            status,
            button_sensitive: true,
            button_shows_stop: false,
            controls_sensitive: true,
            ..self.m
        };
        status
    }

    /// The first readings arrived: the per-core graph gets one dataset per
    /// core (at least one), and the power and temperature graphs are kept
    /// only when the readings carry those values. Returns true.
    pub fn set_static_information(&mut self, core_count: usize, has_power: bool, has_temperature: bool) -> (r: bool)
        ensures
            r,
            final(self)@ == (PageModel {
                cpu_count: if core_count >= 1 { core_count } else { 1 },
                has_power,
                has_temperature,
                ..old(self)@
            }),
            consistent(final(self)@),
    {
        proof {
            use_type_invariant(&*self);
        }
        let cpu_count = if core_count >= 1 { core_count } else { 1 };
        self.m = PageModel { cpu_count, has_power, has_temperature, ..self.m };
        true
    }
}

/// Which stressors a test-type choice runs, as `(cpu, memory)`: the choices
/// are CPU (0), Memory (1) and CPU and Memory (2).
pub open spec fn spec_selected_tests(test_type: u32) -> (bool, bool) {
    (test_type == 0 || test_type == 2, test_type == 1 || test_type == 2)
}

/// The stressors that the test-type choice `test_type` runs.
pub fn selected_tests(test_type: u32) -> (r: (bool, bool))
    ensures
        r == spec_selected_tests(test_type),
{
    (test_type == 0 || test_type == 2, test_type == 1 || test_type == 2)
}

/// The (unlocalised) text of the status line, for the statuses whose text
/// does not depend on the exit status or error.
pub open spec fn spec_status_text(s: RunStatus) -> Option<Seq<char>> {
    match s {
        RunStatus::Idle => None,
        RunStatus::Running => Some("Running…"@),
        RunStatus::Stopping => Some("Stopping…"@),
        RunStatus::Finished => Some("Finished"@),
        RunStatus::FinishedWithErrors => Some("Finished with errors"@),
        RunStatus::WaitFailed => Some("Error waiting for stress-ng"@),
    }
}

/// The text for `s` (see `spec_status_text`); for the two error statuses
/// the exit status or the error is shown after it.
pub fn status_text(s: RunStatus) -> (r: Option<&'static str>)
    ensures
        match r {
            Some(t) => spec_status_text(s) == Some(t@),
            None => spec_status_text(s) is None,
        },
{
    match s {
        RunStatus::Idle => None,
        RunStatus::Running => Some("Running…"),
        RunStatus::Stopping => Some("Stopping…"),
        RunStatus::Finished => Some("Finished"),
        RunStatus::FinishedWithErrors => Some("Finished with errors"),
        RunStatus::WaitFailed => Some("Error waiting for stress-ng"),
    }
}

} // verus!
