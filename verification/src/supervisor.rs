//! The executable supervisor.
//!
//! The supervisor owns the single state slot. The embedding application
//! keeps it behind a mutual-exclusion lock, performs the operating-system
//! calls (spawn, terminate, the HTTP probe), and feeds their outcomes back
//! here as plain values; every decision and every reply is made by the
//! verified code of this module, and each transition is tied to the
//! abstract `step` of the model.

use vstd::prelude::*;

use crate::messages::already_running_message;
use crate::messages::already_running_text;
use crate::messages::kill_failed_message;
use crate::messages::kill_failed_text;
use crate::messages::not_running_message;
use crate::messages::not_running_text;
use crate::messages::spawn_failed_message;
use crate::messages::spawn_failed_text;
use crate::messages::started_message;
use crate::messages::started_text;
use crate::messages::stopped_message;
use crate::messages::stopped_text;
use crate::model::Op;
use crate::model::step;

verus! {

/// What a start call must do next: answer at once because a process is
/// already owned, or spawn one and report the outcome through
/// `start_complete`.
pub enum StartStep {
    AlreadyRunning(String),
    NeedSpawn,
}

/// How the terminate request of a stop call went: there was no process to
/// terminate, the request succeeded, or it failed with this description.
pub enum StopOutcome {
    WasNotRunning,
    Terminated,
    TerminateFailed(String),
}

/// The supervisor state: one slot holding the identifier of the owned
/// process, or nothing.
pub struct Supervisor {
    pid: Option<u32>,
}

/// Maps a spawn outcome to the operation it is in a history of the model.
pub open spec fn spawn_op(spawn: Result<u32, String>) -> Op {
    match spawn {
        Ok(pid) => Op::StartOk(pid),
        Err(_) => Op::StartFail,
    }
}

impl Supervisor {
    /// The content of the slot: the identifier of the owned process, if any.
    pub closed spec fn slot(&self) -> Option<u32> {
        self.pid
    }

    /// Whether the supervisor owns a process.
    pub open spec fn is_running(&self) -> bool {
        self.slot() is Some
    }

    /// A fresh supervisor owns no process.
    pub fn new() -> (s: Supervisor)
        ensures
            s.slot() is None,
    {
        Supervisor { pid: None }
    }

    /// The first phase of a start call, under the caller's lock: if a
    /// process is already owned, the idempotent reply is returned and
    /// nothing must be spawned; otherwise the caller must spawn and hand
    /// the outcome to `start_complete`.
    pub fn start_check(&self) -> (r: StartStep)
        ensures
            r is NeedSpawn <==> !self.is_running(),
            r matches StartStep::AlreadyRunning(m) ==> m@ == already_running_text(),
    {
        match self.pid {
            Some(_) => StartStep::AlreadyRunning(already_running_message()),
            None => StartStep::NeedSpawn,
        }
    }

    /// The second phase of a start call: records the outcome of the spawn,
    /// still under the caller's lock. A successful spawn fills the slot and
    /// is reported with the process identifier; a failed one leaves the
    /// slot empty and is reported as an error carrying the description.
    pub fn start_complete(&mut self, spawn: Result<u32, String>) -> (r: Result<String, String>)
        requires
            !old(self).is_running(),
        ensures
            final(self).slot() == step(old(self).slot(), spawn_op(spawn)),
            r is Ok <==> spawn is Ok,
            spawn matches Ok(pid) ==> final(self).slot() == Some(pid) && (r matches Ok(m)
                && m@ == started_text(pid)),
            spawn matches Err(e) ==> !final(self).is_running() && (r matches Err(m)
                && m@ == spawn_failed_text(e@)),
    {
        match spawn {
            Ok(pid) => {
                self.pid = Some(pid);
                Ok(started_message(pid))
            },
            Err(e) => Err(spawn_failed_message(e.as_str())),
        }
    }

    /// The first phase of a stop call, under the caller's lock: empties the
    /// slot and returns what it held, so that the caller can terminate that
    /// process. The slot is cleared before any terminate request is made,
    /// so the supervisor reports empty afterwards whatever that request
    /// comes to.
    pub fn stop_take(&mut self) -> (r: Option<u32>)
        ensures
            final(self).slot() == step(old(self).slot(), Op::Stop),
            !final(self).is_running(),
            r == old(self).slot(),
    {
        let r = self.pid;
        self.pid = None;
        r
    }

    /// Whether a process is owned. This reads the slot only: a process that
    /// exited on its own still counts as running until a stop call clears
    /// the slot.
    pub fn status(&self) -> (r: bool)
        ensures
            r == self.is_running(),
    {
        self.pid.is_some()
    }
}

/// The reply of a stop call, from the outcome of its terminate request:
/// success both when nothing was running and when the request succeeded,
/// an error carrying the description when it failed.
pub fn stop_reply(outcome: StopOutcome) -> (r: Result<String, String>)
    ensures
        outcome is WasNotRunning ==> (r matches Ok(m) && m@ == not_running_text()),
        outcome is Terminated ==> (r matches Ok(m) && m@ == stopped_text()),
        outcome matches StopOutcome::TerminateFailed(e) ==> r matches Err(m) && m@
            == kill_failed_text(e@),
        r is Err <==> outcome is TerminateFailed,
{
    match outcome {
        StopOutcome::WasNotRunning => Ok(not_running_message()),
        StopOutcome::Terminated => Ok(stopped_message()),
        StopOutcome::TerminateFailed(e) => Err(kill_failed_message(e.as_str())),
    }
}

/// The health probe's verdict from what came back over the wire: `Some`
/// status code if a response arrived, `None` if none could be obtained
/// (connection failure, refusal, or timeout). Unreachability is a `false`
/// verdict, never an error, and the verdict is true exactly for a success
/// status, one of 200 through 299.
pub fn interpret_health_probe(response: Option<u16>) -> (r: Result<bool, String>)
    ensures
        r is Ok,
        r matches Ok(healthy) ==> (healthy <==> (response matches Some(code) && 200 <= code
            && code < 300)),
{
    match response {
        Some(code) => Ok(200 <= code && code < 300),
        None => Ok(false),
    }
}

} // verus!
