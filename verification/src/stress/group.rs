//! Bookkeeping of the `stress-ng` process group.
//!
//! `stress-ng` forks many workers, so a run is stopped by signalling its
//! whole process group (`kill(-pgid, ..)`): SIGTERM first, then, once a
//! grace period has passed, SIGKILL if anything of that group is still
//! running (its leader may have exited while workers live on). At most one
//! group is tracked as active; 0 stands for none.

use vstd::prelude::*;

verus! {

/// `SIGTERM` on Linux.
pub const SIGTERM: i32 = 15;

/// `SIGKILL` on Linux.
pub const SIGKILL: i32 = 9;

/// One `kill(target, signal)` call to make.
#[derive(Clone, Copy, PartialEq, Eq, Structural, Debug)]
pub struct SignalRequest {
    pub target: i32,
    pub signal: i32,
}

/// The request that sends `signal` to every process of group `pgid`.
pub open spec fn group_signal(pgid: int, signal: i32) -> SignalRequest {
    SignalRequest { target: (-pgid) as i32, signal }
}

/// The active group after group `pgid` was seen to exit: cleared only when
/// it is still the active one (a newer run may have replaced it).
pub open spec fn after_exit(active: int, pgid: int) -> int {
    if active == pgid {
        0
    } else {
        active
    }
}

/// What a stop request sends: SIGTERM to the active group, if any.
pub open spec fn stop_signal(active: int) -> Option<SignalRequest> {
    if active == 0 {
        None
    } else {
        Some(group_signal(active, SIGTERM))
    }
}

/// What the end of the grace period after stopping group `pgid` sends:
/// SIGKILL to that group exactly when some process of it is still alive.
pub open spec fn grace_signal(pgid: int, group_alive: bool) -> Option<SignalRequest> {
    if group_alive {
        Some(group_signal(pgid, SIGKILL))
    } else {
        None
    }
}

/// What an immediate kill sends: SIGTERM then SIGKILL to the active group,
/// if any.
pub open spec fn kill_now_signals(active: int) -> Seq<SignalRequest> {
    if active == 0 {
        seq![]
    } else {
        seq![group_signal(active, SIGTERM), group_signal(active, SIGKILL)]
    }
}

/// The process group of the running `stress-ng`, if any.
pub struct ProcessGroupTracker {
    active: i32,
}

impl View for ProcessGroupTracker {
    type V = int;

    /// The active process-group id; 0 when no run is active.
    closed spec fn view(&self) -> int {
        self.active as int
    }
}

impl ProcessGroupTracker {
    #[verifier::type_invariant]
    spec fn inv(self) -> bool {
        self.active >= 0
    }

    /// A tracker with no active group.
    pub fn new() -> (t: ProcessGroupTracker)
        ensures
            t@ == 0,
    {
        ProcessGroupTracker { active: 0 }
    }

    /// The active process-group id, 0 when none.
    pub fn active_group(&self) -> (g: i32)
        ensures
            g == self@,
            g >= 0,
    {
        proof {
            use_type_invariant(self);
        }
        self.active
    }

    /// A run was started in its own session, so its pid `pgid` is also its
    /// process-group id; it becomes the active group.
    pub fn on_spawned(&mut self, pgid: i32)
        requires
            pgid > 0,
        ensures
            final(self)@ == pgid,
    {
        self.active = pgid;
    }

    /// The process with group `pgid` exited.
    pub fn on_exited(&mut self, pgid: i32)
        ensures
            final(self)@ == after_exit(old(self)@, pgid as int),
    {
        if self.active == pgid {
            self.active = 0;
        }
    }

    /// The signal a stop request sends (the active group is kept until it
    /// is seen to exit).
    pub fn stop_request(&self) -> (r: Option<SignalRequest>)
        ensures
            r == stop_signal(self@),
    {
        proof {
            use_type_invariant(self);
        }
        if self.active == 0 {
            None
        } else {
            Some(SignalRequest { target: -self.active, signal: SIGTERM })
        }
    }

    /// The signal sent when the grace period after stopping group `pgid`
    /// ends; `group_alive` tells whether any process of that group is still
    /// running (the leader may already have been reaped while its workers
    /// live on). The group was the active one when it was stopped, so its id
    /// is positive.
    pub fn grace_expired(&self, pgid: i32, group_alive: bool) -> (r: Option<SignalRequest>)
        requires
            pgid > 0,
        ensures
            r == grace_signal(pgid as int, group_alive),
            r is Some <==> group_alive,
    {
        if group_alive {
            Some(SignalRequest { target: -pgid, signal: SIGKILL })
        } else {
            None
        }
    }

    /// Forgets the active group at once and returns the signals that take
    /// it down without a grace period (used when the application quits).
    pub fn kill_now(&mut self) -> (r: Vec<SignalRequest>)
        ensures
            final(self)@ == 0,
            r@ == kill_now_signals(old(self)@),
    {
        proof {
            use_type_invariant(&*self);
        }
        let pgid = self.active;
        self.active = 0;
        let mut r: Vec<SignalRequest> = Vec::new();
        if pgid != 0 {
            r.push(SignalRequest { target: -pgid, signal: SIGTERM });
            r.push(SignalRequest { target: -pgid, signal: SIGKILL });
        }
        assert(r@ =~= kill_now_signals(pgid as int));
        r
    }
}

/// An exit reported for an older run never clears the group of a newer
/// run: after group `new` is spawned, the exit of any other group leaves it
/// active.
pub proof fn lemma_stale_exit_keeps_new_group(new: int, stale: int)
    requires
        new > 0,
        stale != new,
    ensures
        after_exit(new, stale) == new,
{
}

/// Once the active group's leader has exited, a later stop request sends
/// nothing; at the end of a grace period already under way, SIGKILL still
/// goes to the group exactly when workers of it are left, and nothing is
/// sent to a group with no process left.
pub proof fn lemma_group_killed_while_workers_left(pgid: int, workers_left: bool)
    requires
        pgid > 0,
    ensures
        stop_signal(after_exit(pgid, pgid)) is None,
        grace_signal(pgid, workers_left) == (if workers_left {
            Some(group_signal(pgid, SIGKILL))
        } else {
            None::<SignalRequest>
        }),
{
}

/// Every signal the tracker asks for is addressed to a whole process group
/// (a negative target): the active one, or the one whose grace period ended.
pub proof fn lemma_signals_target_the_group(active: int, pgid: int, group_alive: bool)
    requires
        0 <= active <= i32::MAX,
        0 < pgid <= i32::MAX,
    ensures
        stop_signal(active) matches Some(s) ==> s.target < 0 && s.target == -active,
        grace_signal(pgid, group_alive) matches Some(s) ==> s.target < 0 && s.target == -pgid,
        forall|i: int|
            0 <= i < kill_now_signals(active).len() ==> (#[trigger] kill_now_signals(active)[i]).target
                == -active && kill_now_signals(active)[i].target < 0,
{
}

/// A stop followed by the end of the grace period, with the group still
/// running, sends SIGTERM and then SIGKILL to that group: the same two
/// signals, in the same order, as an immediate kill.
pub proof fn lemma_stop_then_grace_is_kill_now(pgid: int)
    requires
        0 < pgid <= i32::MAX,
    ensures
        seq![stop_signal(pgid)->0, grace_signal(pgid, true)->0] == kill_now_signals(pgid),
{
    assert(seq![stop_signal(pgid)->0, grace_signal(pgid, true)->0] =~= kill_now_signals(pgid));
}

} // verus!
