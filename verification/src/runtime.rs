//! Plugin sandbox runtime, modelled as a state machine.
//!
//! One isolated context runs each loaded plugin.  Scheduling is
//! single-threaded and cooperative: plugin code runs until it suspends on
//! an awaited capability op, and no plugin code runs concurrently with
//! itself.  The embedding shell executes the plugin's code and the ops'
//! outside work; it reports what happened — the plugin completed,
//! suspended, or faulted; an op replied or its channel closed — and this
//! module decides, for every such report, the next phase and what the host
//! must deliver.  A fault is caught at the dispatch boundary and surfaced
//! as a typed error, never as a host crash; a closed op channel is
//! delivered to the awaiting plugin as a typed [`HostError`], never as an
//! indefinite suspension.

use vstd::prelude::*;

use crate::bridge::HostError;
use crate::plugins::Plugin;
use crate::plugins::PluginEntrypoint;
use crate::widget::UiViewEvent;

verus! {

/// Why a plugin bundle was rejected at load time.
#[derive(Debug)]
pub enum LoadError {
    /// Its manifest declares no entrypoint.
    NoEntrypoints,
    /// Its manifest declares two entrypoints with one identifier.
    DuplicateEntrypointIds,
}

/// Entrypoint identifiers are pairwise distinct.
pub open spec fn unique_entrypoint_ids(eps: Seq<PluginEntrypoint>) -> bool {
    forall|i: int, j: int| 0 <= i < j < eps.len() ==> eps[i].id@ != eps[j].id@
}

/// Where one sandbox stands in its cooperative schedule.
pub enum SandboxPhase {
    /// No plugin code is running; an event can be dispatched.
    Idle,
    /// Plugin code suspended awaiting the reply of capability op `op_id`.
    AwaitingOp { op_id: u64 },
    /// The context was terminated; nothing runs in it any more.
    Unloaded,
}

/// What the plugin's code did when it last ran, as the embedding shell
/// reports it.
pub enum PluginReaction {
    /// It ran to completion and handed control back.
    Completed,
    /// It suspended on an awaited capability op.
    Suspended,
    /// It faulted; the fault was caught at the dispatch boundary.
    Faulted,
}

/// What dispatching one event decided.
pub enum DispatchResult {
    /// The event was delivered and the plugin ran to completion.
    Delivered,
    /// The event was delivered and the plugin awaits op `op_id`.
    SuspendedOnOp { op_id: u64 },
    /// The plugin faulted while handling the event; the host surfaces a
    /// plugin-fault error, the context stays usable.
    Fault,
    /// Plugin code is already suspended on an op; no code was run.
    Busy,
    /// The context was already terminated; no code was run.
    Unloaded,
}

/// One isolated execution context running one plugin's code.
pub struct PluginSandbox {
    pub plugin: Plugin,
    pub phase: SandboxPhase,
    pub next_op_id: u64,
}

/// The given entrypoint list has pairwise distinct identifiers.
fn check_unique_ids(eps: &Vec<PluginEntrypoint>) -> (r: bool)
    ensures
        r == unique_entrypoint_ids(eps@),
{
    let n = eps.len();
    let mut i: usize = 0;
    while i < n
        invariant
            n == eps@.len(),
            i <= n,
            forall|p: int, q: int| 0 <= p < q < i ==> eps@[p].id@ != eps@[q].id@,
        decreases n - i,
    {
        let mut j: usize = 0;
        while j < i
            invariant
                n == eps@.len(),
                i < n,
                j <= i,
                forall|p: int, q: int| 0 <= p < q < i ==> eps@[p].id@ != eps@[q].id@,
                forall|p: int| 0 <= p < j ==> eps@[p].id@ != eps@[i as int].id@,
            decreases i - j,
        {
            if eps[j].id.eq(&eps[i].id) {
                return false;
            }
            j = j + 1;
        }
        i = i + 1;
    }
    true
}

impl PluginSandbox {
    /// Prepare one execution context for a loaded plugin, validating its
    /// manifest: there is at least one entrypoint and their identifiers
    /// are pairwise distinct.
    pub fn load(plugin: Plugin) -> (r: Result<PluginSandbox, LoadError>)
        ensures
            match r {
                Ok(s) => {
                    &&& s.plugin == plugin
                    &&& s.phase is Idle
                    &&& s.next_op_id == 0
                    &&& plugin.spec_entrypoints().len() > 0
                    &&& unique_entrypoint_ids(plugin.spec_entrypoints())
                },
                Err(LoadError::NoEntrypoints) => plugin.spec_entrypoints().len() == 0,
                Err(LoadError::DuplicateEntrypointIds) => !unique_entrypoint_ids(
                    plugin.spec_entrypoints(),
                ),
            },
    {
        if plugin.entrypoints().len() == 0 {
            return Err(LoadError::NoEntrypoints);
        }
        if !check_unique_ids(plugin.entrypoints()) {
            return Err(LoadError::DuplicateEntrypointIds);
        }
        Ok(PluginSandbox { plugin, phase: SandboxPhase::Idle, next_op_id: 0 })
    }

    /// Deliver one inbound event to the plugin's handler and account for
    /// what its code did.  Dispatching never runs code in a terminated or
    /// suspended context, and a fault is absorbed here: the phase returns
    /// to idle and the caller gets [`DispatchResult::Fault`] to surface.
    pub fn dispatch(&mut self, event: &UiViewEvent, reaction: PluginReaction) -> (r:
        DispatchResult)
        requires
            old(self).next_op_id < u64::MAX,
        ensures
            final(self).plugin == old(self).plugin,
            old(self).phase is Unloaded ==> *final(self) == *old(self) && r is Unloaded,
            old(self).phase is AwaitingOp ==> *final(self) == *old(self) && r is Busy,
            old(self).phase is Idle ==> match reaction {
                PluginReaction::Completed => {
                    &&& *final(self) == *old(self)
                    &&& r is Delivered
                },
                PluginReaction::Suspended => {
                    &&& final(self).phase == (SandboxPhase::AwaitingOp {
                        op_id: old(self).next_op_id,
                    })
                    &&& final(self).next_op_id == old(self).next_op_id + 1
                    &&& r == (DispatchResult::SuspendedOnOp { op_id: old(self).next_op_id })
                },
                PluginReaction::Faulted => {
                    &&& *final(self) == *old(self)
                    &&& r is Fault
                },
            },
    {
        match self.phase {
            SandboxPhase::Unloaded => DispatchResult::Unloaded,
            SandboxPhase::AwaitingOp { .. } => DispatchResult::Busy,
            SandboxPhase::Idle => {
                match reaction {
                    PluginReaction::Completed => DispatchResult::Delivered,
                    PluginReaction::Suspended => {
                        let op_id = self.next_op_id;
                        self.phase = SandboxPhase::AwaitingOp { op_id };
                        self.next_op_id = op_id + 1;
                        DispatchResult::SuspendedOnOp { op_id }
                    },
                    PluginReaction::Faulted => DispatchResult::Fault,
                }
            },
        }
    }

    /// Account for the outcome of the awaited op `op_id` and resume the
    /// plugin.  A reply resumes it with the structured result; a closed
    /// host-side channel resumes it immediately with a typed
    /// [`HostError::CapabilityError`] — an awaiting plugin never stays
    /// suspended.  An outcome for an op the sandbox is not awaiting is
    /// stale and dropped.
    pub fn complete_op(&mut self, op_id: u64, outcome: OpOutcome) -> (r: Option<
        Result<OpReply, HostError>,
    >)
        ensures
            final(self).plugin == old(self).plugin,
            final(self).next_op_id == old(self).next_op_id,
            old(self).phase matches SandboxPhase::AwaitingOp { op_id: pending } && pending == op_id
                ==> {
                &&& final(self).phase is Idle
                &&& match outcome {
                    OpOutcome::Replied(v) => r == Some(Result::<OpReply, HostError>::Ok(v)),
                    OpOutcome::ChannelClosed => r == Some(
                        Result::<OpReply, HostError>::Err(HostError::CapabilityError),
                    ),
                }
            },
            !(old(self).phase matches SandboxPhase::AwaitingOp { op_id: pending } && pending
                == op_id) ==> *final(self) == *old(self) && r is None,
    {
        match self.phase {
            SandboxPhase::AwaitingOp { op_id: pending } => {
                if pending == op_id {
                    self.phase = SandboxPhase::Idle;
                    match outcome {
                        OpOutcome::Replied(v) => Some(Ok(v)),
                        OpOutcome::ChannelClosed => Some(Err(HostError::CapabilityError)),
                    }
                } else {
                    None
                }
            },
            _ => None,
        }
    }

    /// Terminate the context.  The pending op, if any, is handed back so
    /// the host releases its resources: an unloaded plugin must not retain
    /// the host blocked.
    pub fn unload(&mut self) -> (cancelled: Option<u64>)
        ensures
            final(self).plugin == old(self).plugin,
            final(self).next_op_id == old(self).next_op_id,
            final(self).phase is Unloaded,
            match old(self).phase {
                SandboxPhase::AwaitingOp { op_id } => cancelled == Some(op_id),
                _ => cancelled is None,
            },
    {
        let cancelled: Option<u64> = match self.phase {
            SandboxPhase::AwaitingOp { op_id } => Some(op_id),
            _ => None,
        };
        self.phase = SandboxPhase::Unloaded;
        cancelled
    }
}

/// The structured result of one awaited capability op.
#[derive(Debug)]
pub enum OpReply {
    Unit,
    Flag(bool),
    Text(String),
    Data(Vec<u8>),
}

/// How one awaited capability op ended on the host side.
pub enum OpOutcome {
    /// The host replied with a structured result.
    Replied(OpReply),
    /// The host-side channel closed before a reply was produced.
    ChannelClosed,
}

} // verus!
