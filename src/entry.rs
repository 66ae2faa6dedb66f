use vstd::prelude::*;
use crate::console::{is_terminated, EFISimpleTextOutputProtocol, TextOutputCall};
use crate::status::EFIStatus;
use crate::system::EFISystemTable;

verus! {

/// Where the entry routine stands.
#[derive(Clone, Copy, Debug, PartialEq, Eq, Structural)]
pub enum EntryPhase {
    /// Nothing has been asked of the firmware yet.
    Starting,
    /// The console's reset has been issued.
    ResetIssued,
    /// The message has been issued.
    MessageIssued,
    /// The routine waits forever; it never returns to the firmware.
    Halted,
}

/// What the entry routine does at a step, without the call's arguments.
#[derive(Clone, Copy, Debug, PartialEq, Eq, Structural)]
pub enum EntryStep {
    /// Resets the console output without extended verification.
    ResetConsole,
    /// Writes the message on the console output.
    WriteMessage,
    /// Stays in the halt state.
    Halt,
}

/// What the entry routine asks of its host at a step.
#[derive(Debug, PartialEq, Eq)]
pub enum EntryAction<'a> {
    /// Make this call and hand back its status.
    Call(TextOutputCall<'a>),
    /// Wait forever.
    Halt,
}

/// The program that the firmware starts: it resets the console output,
/// writes one message, then halts for good.
#[derive(Debug)]
pub struct EntryRoutine<'a> {
    pub phase: EntryPhase,
    /// The console output; `None` when the system table holds none.
    pub console: Option<EFISimpleTextOutputProtocol>,
    /// The terminated message, which the routine borrows for its whole run.
    pub message: &'a [u16],
}

/// The phase after one step from `p`.
pub open spec fn next_phase(p: EntryPhase, has_console: bool) -> EntryPhase {
    match p {
        EntryPhase::Starting => if has_console {
            EntryPhase::ResetIssued
        } else {
            EntryPhase::Halted
        },
        EntryPhase::ResetIssued => if has_console {
            EntryPhase::MessageIssued
        } else {
            EntryPhase::Halted
        },
        EntryPhase::MessageIssued => EntryPhase::Halted,
        EntryPhase::Halted => EntryPhase::Halted,
    }
}

/// What the routine does at a step taken from phase `p`.
pub open spec fn step_of(p: EntryPhase, has_console: bool) -> EntryStep {
    match p {
        EntryPhase::Starting => if has_console {
            EntryStep::ResetConsole
        } else {
            EntryStep::Halt
        },
        EntryPhase::ResetIssued => if has_console {
            EntryStep::WriteMessage
        } else {
            EntryStep::Halt
        },
        _ => EntryStep::Halt,
    }
}

/// The phase after `n` steps from `p`.
pub open spec fn phase_after(p: EntryPhase, has_console: bool, n: nat) -> EntryPhase
    decreases n,
{
    if n == 0 {
        p
    } else {
        next_phase(phase_after(p, has_console, (n - 1) as nat), has_console)
    }
}

/// What the routine does at step `k` of a run from the start.
pub open spec fn step_at(has_console: bool, k: nat) -> EntryStep {
    step_of(phase_after(EntryPhase::Starting, has_console, k), has_console)
}

impl<'a> EntryRoutine<'a> {
    pub open spec fn wf(&self) -> bool {
        is_terminated(self.message@)
    }

    /// A routine at its start, for the console output of `table` and the
    /// terminated `message`.
    pub fn new(table: &EFISystemTable, message: &'a [u16]) -> (r: EntryRoutine<'a>)
        requires
            is_terminated(message@),
        ensures
            r.wf(),
            r.phase == EntryPhase::Starting,
            r.console == (if table.con_out == 0 {
                None::<EFISimpleTextOutputProtocol>
            } else {
                Some(EFISimpleTextOutputProtocol { address: table.con_out })
            }),
            r.message@ == message@,
    {
        EntryRoutine { phase: EntryPhase::Starting, console: table.get_con_out(), message }
    }

    /// Takes one step. `returned` is the status of the call that the last step
    /// asked for; the routine does not act on it.
    pub fn step(&mut self, returned: EFIStatus) -> (r: EntryAction<'a>)
        requires
            old(self).wf(),
        ensures
            final(self).wf(),
            final(self).console == old(self).console,
            final(self).message@ == old(self).message@,
            final(self).phase == next_phase(old(self).phase, old(self).console.is_some()),
            step_of(old(self).phase, old(self).console.is_some()) == EntryStep::ResetConsole
                ==> r == EntryAction::Call(
                TextOutputCall::Reset {
                    this: old(self).console.unwrap().address,
                    extended_verification: false,
                },
            ),
            step_of(old(self).phase, old(self).console.is_some()) == EntryStep::WriteMessage
                ==> (r matches EntryAction::Call(TextOutputCall::OutputString { this, text })
                && this == old(self).console.unwrap().address && text@ == old(self).message@),
            step_of(old(self).phase, old(self).console.is_some()) == EntryStep::Halt ==> r
                == EntryAction::Halt,
    {
        match (self.phase, self.console) {
            (EntryPhase::Starting, Some(out)) => {
                self.phase = EntryPhase::ResetIssued;
                EntryAction::Call(out.reset(false))
            },
            (EntryPhase::ResetIssued, Some(out)) => {
                self.phase = EntryPhase::MessageIssued;
                EntryAction::Call(out.output_string(self.message))
            },
            _ => {
                self.phase = EntryPhase::Halted;
                EntryAction::Halt
            },
        }
    }
}

/// Once halted, the routine stays halted.
pub proof fn lemma_halt_is_final(has_console: bool, n: nat)
    ensures
        phase_after(EntryPhase::Halted, has_console, n) == EntryPhase::Halted,
    decreases n,
{
    if n > 0 {
        lemma_halt_is_final(has_console, (n - 1) as nat);
    }
}

/// The phase of a run from the start after `k` steps.
pub open spec fn phase_of_run(has_console: bool, k: nat) -> EntryPhase {
    if k == 0 {
        EntryPhase::Starting
    } else if !has_console || k >= 3 {
        EntryPhase::Halted
    } else if k == 1 {
        EntryPhase::ResetIssued
    } else {
        EntryPhase::MessageIssued
    }
}

/// A run from the start with a console output resets it once, writes the
/// message once, and halts at every later step; without a console output it
/// halts at once.
pub proof fn lemma_entry_trace(has_console: bool, k: nat)
    ensures
        phase_after(EntryPhase::Starting, has_console, k) == phase_of_run(has_console, k),
        has_console ==> step_at(has_console, k) == (if k == 0 {
            EntryStep::ResetConsole
        } else if k == 1 {
            EntryStep::WriteMessage
        } else {
            EntryStep::Halt
        }),
        !has_console ==> step_at(has_console, k) == EntryStep::Halt,
    decreases k,
{
    if k > 0 {
        lemma_entry_trace(has_console, (k - 1) as nat);
    }
}

} // verus!
