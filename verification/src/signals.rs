//! Sending a signal to the processes that the user chose.

use vstd::prelude::*;
use crate::actions::spec_signal_targets;
use crate::app::App;

verus! {

/// `Signal::try_from` of the nix crate, with the signal given back as its
/// number. Which numbers name a signal depends on the platform; a number
/// that names one comes back unchanged.
#[verifier::external_body]
fn known_signal(signal: i32) -> (known: Option<i32>)
    ensures
        known matches Some(number) ==> number == signal,
{
    match nix::sys::signal::Signal::try_from(signal) {
        Ok(s) => Some(s as i32),
        Err(_) => None,
    }
}

/// The processes that a signal is sent to.
#[derive(Debug)]
pub struct SignalPlan {
    /// The number of the signal.
    pub signal: i32,
    /// The processes, in the order in which they are signalled.
    pub pids: Vec<u32>,
}

impl App {
    /// The processes that get the signal, given whether the platform knows a
    /// signal of that number: none where it does not, else the tagged ones
    /// that are shown, or the one under the cursor where none is tagged.
    pub fn signal_plan(&self, signal: i32, known: bool) -> (plan: SignalPlan)
        ensures
            plan.signal == signal,
            plan.pids@ == if known {
                spec_signal_targets(self@)
            } else {
                Seq::<u32>::empty()
            },
    {
        if known {
            SignalPlan { signal, pids: self.signal_targets() }
        } else {
            SignalPlan { signal, pids: Vec::new() }
        }
    }

    /// The processes that get the signal with the number `signal`. Sending
    /// is best effort: a process that cannot be signalled is passed over.
    pub fn send_signal(&self, signal: i32) -> (plan: SignalPlan)
        ensures
            plan.signal == signal,
            plan.pids@ == spec_signal_targets(self@) || plan.pids@ == Seq::<u32>::empty(),
    {
        let known = known_signal(signal).is_some();
        self.signal_plan(signal, known)
    }
}

} // verus!
