use vstd::prelude::*;

verus! {

/// Where a lazily constructed model stands.
#[derive(Clone, Copy, Debug, PartialEq, Eq, Structural)]
pub enum SlotState {
    /// Nobody has asked for the model yet.
    Empty,
    /// One caller is constructing it; others wait.
    Loading,
    /// Constructed; shared read-only by every caller from now on.
    Ready,
    /// Construction failed; every later access sees the same failure.
    Failed,
}

/// What happens to a slot.
#[derive(Clone, Copy, Debug, PartialEq, Eq, Structural)]
pub enum SlotEvent {
    /// A caller wants the model.
    Access,
    /// The construction that this slot started succeeded.
    Loaded,
    /// The construction that this slot started failed.
    LoadFailed,
}

/// What the caller that delivered an event is to do next.
#[derive(Clone, Copy, Debug, PartialEq, Eq, Structural)]
pub enum SlotAction {
    /// Construct the model, then report `Loaded` or `LoadFailed`.
    StartLoad,
    /// Another caller is constructing it: wait, then access again.
    Wait,
    /// Use the constructed model.
    Hand,
    /// Report the model-load error.
    ReportFailure,
    /// The event does not apply to this state; nothing to do.
    Ignore,
}

/// One transition of a slot.
pub open spec fn next(s: SlotState, e: SlotEvent) -> (SlotState, SlotAction) {
    match (s, e) {
        (SlotState::Empty, SlotEvent::Access) => (SlotState::Loading, SlotAction::StartLoad),
        (SlotState::Loading, SlotEvent::Access) => (SlotState::Loading, SlotAction::Wait),
        (SlotState::Loading, SlotEvent::Loaded) => (SlotState::Ready, SlotAction::Hand),
        (SlotState::Loading, SlotEvent::LoadFailed) => (SlotState::Failed, SlotAction::ReportFailure),
        (SlotState::Ready, SlotEvent::Access) => (SlotState::Ready, SlotAction::Hand),
        (SlotState::Failed, SlotEvent::Access) => (SlotState::Failed, SlotAction::ReportFailure),
        _ => (s, SlotAction::Ignore),
    }
}

/// The state after a run of events from `s`.
pub open spec fn run(s: SlotState, events: Seq<SlotEvent>) -> SlotState
    decreases events.len(),
{
    if events.len() == 0 {
        s
    } else {
        next(run(s, events.drop_last()), events.last()).0
    }
}

/// How many constructions a run of events from `s` starts.
pub open spec fn loads(s: SlotState, events: Seq<SlotEvent>) -> nat
    decreases events.len(),
{
    if events.len() == 0 {
        0
    } else {
        loads(s, events.drop_last()) + if next(run(s, events.drop_last()), events.last()).1
            == SlotAction::StartLoad {
            1nat
        } else {
            0nat
        }
    }
}

/// A model's construction guard, to be held under a lock by its user.
pub struct ModelSlot {
    state: SlotState,
}

impl View for ModelSlot {
    type V = SlotState;

    closed spec fn view(&self) -> SlotState {
        self.state
    }
}

impl ModelSlot {
    pub fn new() -> (r: ModelSlot)
        ensures
            r@ == SlotState::Empty,
    {
        ModelSlot { state: SlotState::Empty }
    }

    pub fn state(&self) -> (r: SlotState)
        ensures
            r == self@,
    {
        self.state
    }

    /// Applies one event and says what its caller is to do.
    pub fn step(&mut self, event: SlotEvent) -> (r: SlotAction)
        ensures
            (final(self)@, r) == next(old(self)@, event),
    {
        let (s, a) = match (self.state, event) {
            (SlotState::Empty, SlotEvent::Access) => (SlotState::Loading, SlotAction::StartLoad),
            (SlotState::Loading, SlotEvent::Access) => (SlotState::Loading, SlotAction::Wait),
            (SlotState::Loading, SlotEvent::Loaded) => (SlotState::Ready, SlotAction::Hand),
            (SlotState::Loading, SlotEvent::LoadFailed) => (
                SlotState::Failed,
                SlotAction::ReportFailure,
            ),
            (SlotState::Ready, SlotEvent::Access) => (SlotState::Ready, SlotAction::Hand),
            (SlotState::Failed, SlotEvent::Access) => (
                SlotState::Failed,
                SlotAction::ReportFailure,
            ),
            (s, _) => (s, SlotAction::Ignore),
        };
        self.state = s;
        a
    }
}

/// However many accesses arrive, in whatever order with the load outcomes,
/// a slot that starts empty starts at most one construction: none while it
/// is still empty, exactly one once it has left that state.
pub proof fn lemma_single_load(events: Seq<SlotEvent>)
    ensures
        loads(SlotState::Empty, events) == if run(SlotState::Empty, events) == SlotState::Empty {
            0nat
        } else {
            1nat
        },
        loads(SlotState::Empty, events) <= 1,
    decreases events.len(),
{
    if events.len() > 0 {
        lemma_single_load(events.drop_last());
    }
}

/// Whatever the interleaving of many callers' accesses and the load outcome,
/// once any caller has accessed a slot that started empty, exactly one
/// construction has been started: never none, never two.
pub proof fn lemma_accessed_slot_loads_once(events: Seq<SlotEvent>)
    requires
        events.contains(SlotEvent::Access),
    ensures
        run(SlotState::Empty, events) != SlotState::Empty,
        loads(SlotState::Empty, events) == 1,
    decreases events.len(),
{
    let prefix = events.drop_last();
    if events.last() != SlotEvent::Access {
        let i = choose|i: int| 0 <= i < events.len() && events[i] == SlotEvent::Access;
        assert(prefix[i] == SlotEvent::Access);
        lemma_accessed_slot_loads_once(prefix);
    }
    lemma_single_load(events);
}

/// Once a slot is ready it stays ready and hands the model to every access;
/// once it has failed it stays failed and reports the failure to every access.
/// Neither starts another construction.
pub proof fn lemma_settled_slot_is_permanent(s: SlotState, events: Seq<SlotEvent>)
    requires
        s == SlotState::Ready || s == SlotState::Failed,
    ensures
        run(s, events) == s,
        loads(s, events) == 0,
        next(run(s, events), SlotEvent::Access).1 == if s == SlotState::Ready {
            SlotAction::Hand
        } else {
            SlotAction::ReportFailure
        },
    decreases events.len(),
{
    if events.len() > 0 {
        lemma_settled_slot_is_permanent(s, events.drop_last());
    }
}

} // verus!
