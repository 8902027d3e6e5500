//! Per-channel supervisor of protocol tasks: protocols are registered while
//! the channel is being set up, started together once, and on shutdown every
//! task is signalled and joined before the channel counts as fully closed, so
//! no protocol task outlives its channel and none is abandoned mid-write.

use vstd::prelude::*;

verus! {

/// The closed set of protocol variants a channel can run.
#[derive(Clone, Copy, Debug, PartialEq, Eq, Structural)]
pub enum ProtocolKind {
    /// The version handshake.
    Version,
    /// The keepalive.
    Ping,
    /// The peer exchange.
    Address,
    /// The one-shot bootstrap.
    Seed,
}

/// One supervised protocol task: its variant and whether its task is running.
#[derive(Clone, Copy, Debug, PartialEq, Eq, Structural)]
pub struct TaskSlot {
    /// The protocol variant the slot runs.
    pub kind: ProtocolKind,
    /// Whether the task has been spawned and not yet joined.
    pub running: bool,
}

/// The supervisor of exactly one channel's protocol tasks. It holds only the
/// channel's identifier, never the channel: the channel outlives or
/// co-terminates with its manager.
pub struct ProtocolJobsManager {
    /// Identifier of the channel this manager supervises.
    pub channel_id: u64,
    /// Whether `start` has run; registration is over then.
    pub started: bool,
    /// The registered protocols, in registration order.
    pub tasks: Vec<TaskSlot>,
}

/// A shared handle on a channel's manager.
pub type ProtocolJobsManagerPtr = std::sync::Arc<ProtocolJobsManager>;

impl ProtocolJobsManager {
    /// No supervised task is running.
    pub open spec fn all_joined(self) -> bool {
        forall|i: int| 0 <= i < self.tasks@.len() ==> !(#[trigger] self.tasks@[i]).running
    }

    /// A fresh manager for one channel: nothing registered, nothing running.
    pub fn new(channel_id: u64) -> (m: ProtocolJobsManager)
        ensures
            m.channel_id == channel_id,
            !m.started,
            m.tasks@.len() == 0,
            m.all_joined(),
    {
        ProtocolJobsManager { channel_id, started: false, tasks: Vec::new() }
    }

    /// Attaches one protocol variant to the channel without starting it.
    /// Registration happens once, before `start`.
    pub fn register(&mut self, kind: ProtocolKind)
        requires
            !old(self).started,
        ensures
            final(self).tasks@ == old(self).tasks@.push(TaskSlot { kind, running: false }),
            final(self).started == old(self).started,
            final(self).channel_id == old(self).channel_id,
    {
        self.tasks.push(TaskSlot { kind, running: false });
    }

    /// Spawns one task per registered protocol and returns at once: after it,
    /// every slot is running and registration is closed.
    pub fn start(&mut self)
        ensures
            final(self).started,
            final(self).channel_id == old(self).channel_id,
            final(self).tasks@.len() == old(self).tasks@.len(),
            forall|i: int|
                0 <= i < old(self).tasks@.len() ==> (#[trigger] final(self).tasks@[i]) == (TaskSlot {
                    kind: old(self).tasks@[i].kind,
                    running: true,
                }),
    {
        let ghost old_tasks = self.tasks@;
        let mut done: Vec<TaskSlot> = Vec::new();
        let mut i: usize = 0;
        while i < self.tasks.len()
            invariant
                i <= self.tasks@.len(),
                self.tasks@ == old_tasks,
                done@.len() == i,
                forall|j: int|
                    0 <= j < i ==> (#[trigger] done@[j]) == (TaskSlot {
                        kind: old_tasks[j].kind,
                        running: true,
                    }),
            decreases self.tasks@.len() - i,
        {
            done.push(TaskSlot { kind: self.tasks[i].kind, running: true });
            i = i + 1;
        }
        self.tasks = done;
        self.started = true;
    }

    /// The join point of the channel's shutdown: signals every spawned task
    /// to terminate and waits for all of them, so that afterwards no task of
    /// this channel is running. Safe to call again: a joined manager stays
    /// joined.
    pub fn stop_and_join(&mut self)
        ensures
            final(self).all_joined(),
            final(self).started == old(self).started,
            final(self).channel_id == old(self).channel_id,
            final(self).tasks@.len() == old(self).tasks@.len(),
            forall|i: int|
                0 <= i < old(self).tasks@.len() ==> (#[trigger] final(self).tasks@[i]).kind == old(
                    self,
                ).tasks@[i].kind,
    {
        let ghost old_tasks = self.tasks@;
        let mut done: Vec<TaskSlot> = Vec::new();
        let mut i: usize = 0;
        while i < self.tasks.len()
            invariant
                i <= self.tasks@.len(),
                self.tasks@ == old_tasks,
                done@.len() == i,
                forall|j: int|
                    0 <= j < i ==> (#[trigger] done@[j]) == (TaskSlot {
                        kind: old_tasks[j].kind,
                        running: false,
                    }),
            decreases self.tasks@.len() - i,
        {
            done.push(TaskSlot { kind: self.tasks[i].kind, running: false });
            i = i + 1;
        }
        self.tasks = done;
    }
}

} // verus!
