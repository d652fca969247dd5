//! The backend process as the host holds it: the one capability to kill it,
//! the guard that ties its life to the host's, and the host's own progress
//! towards its exit.
//!
//! The capability sits in a slot that is emptied by whoever asks first.
//! Every later request finds the slot empty and does nothing, so the
//! process is signalled at most once however many exit events arrive.

use vstd::prelude::*;

verus! {

/// What the host reports of its own life.
#[derive(Clone, Copy, Debug, PartialEq, Eq)]
pub enum HostEvent {
    /// The host has been asked to exit.
    ExitRequested,
    /// The host is exiting.
    Exit,
    /// Anything else, a request to close a window included.
    Other,
}

/// How far the host has come towards its exit.
#[derive(Clone, Copy, Debug, PartialEq, Eq)]
pub enum Lifecycle {
    /// No exit has been asked for.
    Running,
    /// An exit has been asked for.
    ExitRequested,
    /// The host is exiting.
    Exited,
}

/// Whether `event` asks for the backend to be killed. Only the two exit
/// events do.
pub open spec fn requests_kill(event: HostEvent) -> bool {
    event is ExitRequested || event is Exit
}

/// The host's progress after `event`. It never goes back.
pub open spec fn next_lifecycle(phase: Lifecycle, event: HostEvent) -> Lifecycle {
    match event {
        HostEvent::Exit => Lifecycle::Exited,
        HostEvent::ExitRequested => if phase is Exited {
            Lifecycle::Exited
        } else {
            Lifecycle::ExitRequested
        },
        HostEvent::Other => phase,
    }
}

/// What `event` hands out of a slot that holds `slot`: the capability, where
/// the event asks for a kill and the slot still holds it.
pub open spec fn handed_out<C>(slot: Option<C>, event: HostEvent) -> Option<C> {
    if requests_kill(event) {
        slot
    } else {
        None
    }
}

/// What a slot that holds `slot` holds after `event`.
pub open spec fn slot_after<C>(slot: Option<C>, event: HostEvent) -> Option<C> {
    if requests_kill(event) {
        None
    } else {
        slot
    }
}

/// What a slot that holds `slot` holds after the events of `events`, taken
/// in order.
pub open spec fn slot_after_all<C>(slot: Option<C>, events: Seq<HostEvent>) -> Option<C>
    decreases events.len(),
{
    if events.len() == 0 {
        slot
    } else {
        slot_after_all(slot_after(slot, events.first()), events.drop_first())
    }
}

/// What event number `i` of `events` hands out of a slot that held `slot`
/// before the first of them.
pub open spec fn handed_out_at<C>(slot: Option<C>, events: Seq<HostEvent>, i: int) -> Option<C>
    recommends
        0 <= i < events.len(),
{
    handed_out(slot_after_all(slot, events.take(i)), events[i])
}

/// The backend process in the host's keeping. `C` is the capability to kill
/// it, `G` the guard by which the operating system ends it with the host.
pub struct BackendChild<C, G> {
    child: Option<C>,
    job: Option<G>,
    phase: Lifecycle,
}

impl<C, G> BackendChild<C, G> {
    /// What holds of every value that `new` made and the methods changed:
    /// once an exit has been asked for, the capability is gone.
    pub closed spec fn inv(&self) -> bool {
        !(self.phase is Running) ==> self.child.is_none()
    }

    /// The capability to kill the process, while nobody has taken it.
    pub closed spec fn child(&self) -> Option<C> {
        self.child
    }

    /// The guard, where one could be set up.
    pub closed spec fn job(&self) -> Option<G> {
        self.job
    }

    /// How far the host has come towards its exit.
    pub closed spec fn lifecycle(&self) -> Lifecycle {
        self.phase
    }

    /// Takes a freshly spawned process into keeping, with the guard if one
    /// could be set up. Without a guard the process is kept all the same.
    pub fn new(child: C, job: Option<G>) -> (backend: Self)
        ensures
            backend.inv(),
            backend.child() == Some(child),
            backend.job() == job,
            backend.lifecycle() == Lifecycle::Running,
    {
        BackendChild { child: Some(child), job, phase: Lifecycle::Running }
    }

    /// Whether the capability is still in its slot.
    pub fn has_child(&self) -> (live: bool)
        ensures
            live == self.child().is_some(),
    {
        self.child.is_some()
    }

    /// Whether a guard is held.
    pub fn is_guarded(&self) -> (guarded: bool)
        ensures
            guarded == self.job().is_some(),
    {
        self.job.is_some()
    }

    /// How far the host has come towards its exit.
    pub fn phase(&self) -> (phase: Lifecycle)
        ensures
            phase == self.lifecycle(),
    {
        self.phase
    }

    /// Empties the slot: the first call gets the capability, every later one
    /// gets `None`. The guard and the host's progress stay as they are.
    pub fn take_child(&mut self) -> (taken: Option<C>)
        ensures
            taken == old(self).child(),
            old(self).inv() ==> final(self).inv(),
            final(self).child().is_none(),
            final(self).job() == old(self).job(),
            final(self).lifecycle() == old(self).lifecycle(),
    {
        self.child.take()
    }

    /// Reacts to an event of the host. Either exit event empties the slot
    /// and hands out what was in it, for the caller to kill the process
    /// with; the host's progress moves on. Any other event changes nothing
    /// and hands out nothing.
    pub fn on_event(&mut self, event: HostEvent) -> (kill: Option<C>)
        ensures
            kill == handed_out(old(self).child(), event),
            old(self).inv() ==> final(self).inv(),
            final(self).child() == slot_after(old(self).child(), event),
            final(self).lifecycle() == next_lifecycle(old(self).lifecycle(), event),
            final(self).job() == old(self).job(),
    {
        match event {
            HostEvent::ExitRequested => {
                let kill = self.child.take();
                match self.phase {
                    Lifecycle::Exited => {},
                    _ => {
                        self.phase = Lifecycle::ExitRequested;
                    },
                }
                kill
            },
            HostEvent::Exit => {
                let kill = self.child.take();
                self.phase = Lifecycle::Exited;
                kill
            },
            HostEvent::Other => None,
        }
    }
}

/// Going through `events` and then `event` is going through all of them in
/// order.
proof fn slot_after_all_push<C>(slot: Option<C>, events: Seq<HostEvent>, event: HostEvent)
    ensures
        slot_after_all(slot, events.push(event)) == slot_after(
            slot_after_all(slot, events),
            event,
        ),
    decreases events.len(),
{
    let longer = events.push(event);
    if events.len() == 0 {
        assert(longer.drop_first() =~= events);
        assert(slot_after_all(slot_after(slot, event), longer.drop_first()) == slot_after(
            slot,
            event,
        ));
    } else {
        assert(longer.first() == events.first());
        assert(longer.drop_first() =~= events.drop_first().push(event));
        slot_after_all_push(slot_after(slot, events.first()), events.drop_first(), event);
    }
}

/// Once one event of `events` has asked for a kill, the slot is empty before
/// every later one.
proof fn slot_empty_after_kill<C>(slot: Option<C>, events: Seq<HostEvent>, i: int, j: int)
    requires
        0 <= i < j <= events.len(),
        requests_kill(events[i]),
    ensures
        slot_after_all(slot, events.take(j)).is_none(),
    decreases j - i,
{
    let upto = events.take(j - 1);
    assert(upto.push(events[j - 1]) =~= events.take(j));
    slot_after_all_push(slot, upto, events[j - 1]);
    if j - 1 > i {
        slot_empty_after_kill(slot, events, i, j - 1);
    }
}

/// The kill is idempotent: of any two events in a run, the later one hands
/// out nothing if the earlier one asked for a kill. So the capability goes
/// out at most once, and an exit request followed by the exit itself
/// signals the process once.
pub proof fn kill_at_most_once<C>(slot: Option<C>, events: Seq<HostEvent>, i: int, j: int)
    requires
        0 <= i < j < events.len(),
        requests_kill(events[i]),
    ensures
        handed_out_at(slot, events, j).is_none(),
{
    slot_empty_after_kill(slot, events, i, j);
}

/// The first event that asks for a kill gets the capability: where no
/// earlier event of the run asked for one, it is handed what the slot held
/// at the start.
pub proof fn first_kill_gets_capability<C>(slot: Option<C>, events: Seq<HostEvent>, i: int)
    requires
        0 <= i < events.len(),
        requests_kill(events[i]),
        forall|k: int| 0 <= k < i ==> !requests_kill(#[trigger] events[k]),
    ensures
        handed_out_at(slot, events, i) == slot,
    decreases i,
{
    if i > 0 {
        let upto = events.take(i - 1);
        assert(upto.push(events[i - 1]) =~= events.take(i));
        slot_after_all_push(slot, upto, events[i - 1]);
        slot_kept_without_kill(slot, events, i - 1);
    }
}

/// While no event asks for a kill, the slot keeps what it held.
proof fn slot_kept_without_kill<C>(slot: Option<C>, events: Seq<HostEvent>, i: int)
    requires
        0 <= i < events.len(),
        forall|k: int| 0 <= k <= i ==> !requests_kill(#[trigger] events[k]),
    ensures
        slot_after_all(slot, events.take(i)) == slot,
    decreases i,
{
    if i > 0 {
        let upto = events.take(i - 1);
        assert(upto.push(events[i - 1]) =~= events.take(i));
        slot_after_all_push(slot, upto, events[i - 1]);
        slot_kept_without_kill(slot, events, i - 1);
    } else {
        assert(events.take(0) =~= Seq::<HostEvent>::empty());
    }
}

/// The explicit kill does not depend on the guard: a backend that is kept
/// without one hands its capability to the first exit event all the same.
pub proof fn kill_needs_no_guard<C, G>(backend: BackendChild<C, G>, event: HostEvent)
    requires
        backend.job().is_none(),
        requests_kill(event),
    ensures
        handed_out(backend.child(), event) == backend.child(),
{
}

/// Once an exit has been asked for, the capability is gone for good.
pub proof fn no_child_after_exit<C, G>(backend: BackendChild<C, G>)
    requires
        backend.inv(),
        !(backend.lifecycle() is Running),
    ensures
        backend.child().is_none(),
{
}

/// How far along a state of the host is: running, asked to exit, exiting.
pub open spec fn progress(phase: Lifecycle) -> nat {
    match phase {
        Lifecycle::Running => 0,
        Lifecycle::ExitRequested => 1,
        Lifecycle::Exited => 2,
    }
}

/// The host's progress never goes back, and either exit event takes it past
/// running.
pub proof fn lifecycle_moves_forward(phase: Lifecycle, event: HostEvent)
    ensures
        progress(phase) <= progress(next_lifecycle(phase, event)),
        requests_kill(event) ==> !(next_lifecycle(phase, event) is Running),
        event is Exit ==> next_lifecycle(phase, event) is Exited,
{
}

} // verus!
