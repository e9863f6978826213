//! Display sync gate.
//!
//! Each output surface has one context: a flag that the platform raises when
//! it has latched a new image into the surface's texture. The decode path
//! waits for that flag after it released a decoded buffer for rendering.
//!
//! Blocking is left to the caller. It waits, with its timeout, until
//! [`SyncSurface::wake_due`] holds, and then finishes the wait with
//! [`SyncSurface::wait_next_image`], which reads and clears the flag. A wait
//! is therefore satisfied exactly when a signal arrived since the flag was
//! last cleared, whatever woke the waiter.
use std::collections::HashMap;
use vstd::prelude::*;

verus! {

broadcast use vstd::std_specs::hash::group_hash_axioms;

/// The mathematical state of the registry: the ready flag of each live
/// surface, and the last identifier handed out.
pub struct GateState {
    pub ready: Map<i32, bool>,
    pub last_id: i32,
}

impl GateState {
    pub open spec fn empty() -> Self {
        GateState { ready: Map::empty(), last_id: 0 }
    }

    /// Identifiers are positive and none is beyond the last one handed out.
    pub open spec fn wf(self) -> bool {
        &&& 0 <= self.last_id
        &&& forall|id: i32| #[trigger] self.ready.contains_key(id) ==> 0 < id <= self.last_id
    }

    /// The surface has a context.
    pub open spec fn live(self, id: i32) -> bool {
        self.ready.contains_key(id)
    }

    /// The surface has a context and its flag is raised.
    pub open spec fn image_ready(self, id: i32) -> bool {
        self.ready.contains_key(id) && self.ready[id]
    }

    /// A context with a lowered flag was added under the next identifier.
    pub open spec fn created(self) -> Self
        recommends
            self.last_id < i32::MAX,
    {
        GateState {
            ready: self.ready.insert((self.last_id + 1) as i32, false),
            last_id: (self.last_id + 1) as i32,
        }
    }

    /// The flag of a live surface was raised.
    pub open spec fn signaled(self, id: i32) -> Self {
        if self.live(id) {
            GateState { ready: self.ready.insert(id, true), ..self }
        } else {
            self
        }
    }

    /// The flag of a live surface was lowered.
    pub open spec fn waited(self, id: i32) -> Self {
        if self.live(id) {
            GateState { ready: self.ready.insert(id, false), ..self }
        } else {
            self
        }
    }

    /// The context of the surface was removed.
    pub open spec fn released(self, id: i32) -> Self {
        GateState { ready: self.ready.remove(id), ..self }
    }
}

/// How a wait on a surface ended.
#[derive(Clone, Copy, Debug, PartialEq, Eq)]
pub enum WaitOutcome {
    /// A new image was signaled before the wait ended.
    Ready,
    /// No image was signaled in time.
    TimedOut,
    /// The surface has no context any more; the wait counts as timed out.
    Released,
}

impl WaitOutcome {
    pub open spec fn spec_satisfied(self) -> bool {
        self is Ready
    }

    pub open spec fn spec_updates_surface(self) -> bool {
        !(self is Released)
    }

    /// Whether the wait was satisfied before its timeout.
    pub fn satisfied(&self) -> (b: bool)
        ensures
            b == self.spec_satisfied(),
    {
        match self {
            WaitOutcome::Ready => true,
            _ => false,
        }
    }

    /// Whether the surface's texture has to be updated now. This is so after
    /// every wait on a live surface, satisfied or not.
    pub fn updates_surface(&self) -> (b: bool)
        ensures
            b == self.spec_updates_surface(),
    {
        match self {
            WaitOutcome::Released => false,
            _ => true,
        }
    }
}

/// The contexts of all live output surfaces, by surface identifier.
pub struct SyncGateRegistry {
    contexts: HashMap<i32, bool>,
    last_id: i32,
}

impl View for SyncGateRegistry {
    type V = GateState;

    closed spec fn view(&self) -> GateState {
        GateState { ready: self.contexts@, last_id: self.last_id }
    }
}

impl SyncGateRegistry {
    /// A registry without surfaces.
    pub fn new() -> (registry: Self)
        ensures
            registry@ == GateState::empty(),
            registry@.wf(),
    {
        SyncGateRegistry { contexts: HashMap::new(), last_id: 0 }
    }

    /// Whether the surface has a context.
    pub fn is_live(&self, id: i32) -> (b: bool)
        ensures
            b == self@.live(id),
    {
        self.contexts.contains_key(&id)
    }

    /// Whether the surface has a context with a raised flag.
    pub fn image_ready(&self, id: i32) -> (b: bool)
        ensures
            b == self@.image_ready(id),
    {
        match self.contexts.get(&id) {
            Some(flag) => *flag,
            None => false,
        }
    }

    /// Removes the context of a surface that is no longer in use. Its
    /// identifier is not handed out again.
    pub fn release(&mut self, id: i32)
        requires
            old(self)@.wf(),
        ensures
            final(self)@ == old(self)@.released(id),
            final(self)@.wf(),
    {
        self.contexts.remove(&id);
        assert forall|k: i32| #[trigger] self@.ready.contains_key(k) implies 0 < k
            <= self@.last_id by {
            assert(old(self)@.ready.contains_key(k));
        }
    }
}

/// Raises the ready flag of the surface `id`: the platform has written a new
/// image to its texture. The caller then wakes one waiter. Returns whether
/// the surface has a context; for an unknown surface nothing changes.
pub fn alvr_surface_texture_frame_available(registry: &mut SyncGateRegistry, id: i32) -> (known:
    bool)
    requires
        old(registry)@.wf(),
    ensures
        known == old(registry)@.live(id),
        final(registry)@ == old(registry)@.signaled(id),
        final(registry)@.wf(),
{
    if registry.contexts.contains_key(&id) {
        registry.contexts.insert(id, true);
        assert(registry@.ready =~= old(registry)@.signaled(id).ready);
        true
    } else {
        false
    }
}

/// An output surface bound to a texture, with its context in the registry.
#[derive(Clone, Copy, Debug, PartialEq, Eq)]
pub struct SyncSurface {
    id: i32,
    gl_texture: i32,
}

impl SyncSurface {
    pub closed spec fn spec_id(self) -> i32 {
        self.id
    }

    pub closed spec fn spec_gl_texture(self) -> i32 {
        self.gl_texture
    }

    /// Registers a surface for the texture `gl_texture` under the next
    /// identifier, with a lowered flag. Identifiers grow by one and are never
    /// used twice; once they are exhausted no surface is created.
    pub fn new(registry: &mut SyncGateRegistry, gl_texture: i32) -> (created: Option<SyncSurface>)
        requires
            old(registry)@.wf(),
        ensures
            final(registry)@.wf(),
            match created {
                Some(surface) => {
                    &&& old(registry)@.last_id < i32::MAX
                    &&& surface.spec_id() == old(registry)@.last_id + 1
                    &&& surface.spec_gl_texture() == gl_texture
                    &&& !old(registry)@.live(surface.spec_id())
                    &&& final(registry)@ == old(registry)@.created()
                },
                None => old(registry)@.last_id == i32::MAX && final(registry)@ == old(registry)@,
            },
    {
        if registry.last_id == i32::MAX {
            return None;
        }
        let id: i32 = registry.last_id + 1;
        registry.last_id = id;
        registry.contexts.insert(id, false);
        assert forall|k: i32| #[trigger] registry@.ready.contains_key(k) implies 0 < k
            <= registry@.last_id by {
            if k != id {
                assert(old(registry)@.ready.contains_key(k));
            }
        }
        assert(!old(registry)@.live(id)) by {
            if old(registry)@.ready.contains_key(id) {
            }
        }
        Some(SyncSurface { id, gl_texture })
    }

    /// The identifier under which the platform signals this surface.
    pub fn id(&self) -> (id: i32)
        ensures
            id == self.spec_id(),
    {
        self.id
    }

    /// The texture the surface writes to.
    pub fn gl_texture(&self) -> (texture: i32)
        ensures
            texture == self.spec_gl_texture(),
    {
        self.gl_texture
    }

    /// Whether a waiter on this surface has to stop blocking: a new image was
    /// signaled, or the surface lost its context.
    pub fn wake_due(&self, registry: &SyncGateRegistry) -> (due: bool)
        ensures
            due == (registry@.image_ready(self.spec_id()) || !registry@.live(self.spec_id())),
    {
        match registry.contexts.get(&self.id) {
            Some(flag) => *flag,
            None => true,
        }
    }

    /// Finishes a wait for the next image, when [`Self::wake_due`] holds or
    /// the timeout has elapsed. The wait was satisfied exactly if the flag is
    /// raised. The flag is lowered either way, and on a live surface the
    /// outcome asks for the texture update either way.
    pub fn wait_next_image(&self, registry: &mut SyncGateRegistry) -> (outcome: WaitOutcome)
        requires
            old(registry)@.wf(),
        ensures
            final(registry)@ == old(registry)@.waited(self.spec_id()),
            final(registry)@.wf(),
            !final(registry)@.image_ready(self.spec_id()),
            outcome == wait_outcome(old(registry)@, self.spec_id()),
            outcome.spec_satisfied() == old(registry)@.image_ready(self.spec_id()),
            outcome.spec_updates_surface() == old(registry)@.live(self.spec_id()),
    {
        let flag = match registry.contexts.get(&self.id) {
            Some(flag) => Some(*flag),
            None => None,
        };
        match flag {
            Some(ready) => {
                registry.contexts.insert(self.id, false);
                assert(registry@.ready =~= old(registry)@.waited(self.id).ready);
                if ready {
                    WaitOutcome::Ready
                } else {
                    WaitOutcome::TimedOut
                }
            },
            None => WaitOutcome::Released,
        }
    }
}

/// Identifiers are never used twice: a new surface gets an identifier that no
/// live surface has and that is larger than every identifier handed out
/// before, and nothing else changes the last identifier handed out.
pub proof fn lemma_identifiers_are_fresh(state: GateState, id: i32)
    requires
        state.wf(),
    ensures
        state.signaled(id).last_id == state.last_id,
        state.waited(id).last_id == state.last_id,
        state.released(id).last_id == state.last_id,
        state.signaled(id).wf() && state.waited(id).wf() && state.released(id).wf(),
        state.last_id < i32::MAX ==> {
            &&& state.created().wf()
            &&& state.created().last_id == state.last_id + 1
            &&& !state.live(state.created().last_id)
            &&& state.created().live(state.created().last_id)
            &&& !state.created().image_ready(state.created().last_id)
            &&& state.live(id) ==> id < state.created().last_id && state.created().ready[id]
                == state.ready[id]
        },
{
    assert forall|k: i32| #[trigger] state.signaled(id).ready.contains_key(k) implies 0 < k
        <= state.last_id by {
        assert(state.ready.contains_key(k));
    }
    assert forall|k: i32| #[trigger] state.waited(id).ready.contains_key(k) implies 0 < k
        <= state.last_id by {
        assert(state.ready.contains_key(k));
    }
    assert forall|k: i32| #[trigger] state.released(id).ready.contains_key(k) implies 0 < k
        <= state.last_id by {
        assert(state.ready.contains_key(k));
    }
    if state.last_id < i32::MAX {
        let next = (state.last_id + 1) as i32;
        assert forall|k: i32| #[trigger] state.created().ready.contains_key(k) implies 0 < k
            <= next by {
            if k != next {
                assert(state.ready.contains_key(k));
            }
        }
        if state.ready.contains_key(next) {
        }
        if state.live(id) {
            assert(state.ready.contains_key(id));
        }
    }
}

/// How a wait on the surface `id` ends in the given state.
pub open spec fn wait_outcome(state: GateState, id: i32) -> WaitOutcome {
    if !state.live(id) {
        WaitOutcome::Released
    } else if state.ready[id] {
        WaitOutcome::Ready
    } else {
        WaitOutcome::TimedOut
    }
}

/// What happens to one live surface: the platform signals an image, or a
/// wait on it finishes.
pub enum GateEvent {
    Signal,
    Wait,
}

/// The ready flag of a surface after the given events, counted from its
/// creation.
pub open spec fn flag_after(events: Seq<GateEvent>) -> bool {
    if events.len() == 0 {
        false
    } else {
        match events.last() {
            GateEvent::Signal => true,
            GateEvent::Wait => false,
        }
    }
}

/// A signal occurred that no later wait has consumed.
pub open spec fn signaled_since_last_wait(events: Seq<GateEvent>) -> bool {
    exists|i: int|
        0 <= i < events.len() && #[trigger] events[i] is Signal && forall|j: int|
            i < j < events.len() ==> !(#[trigger] events[j] is Wait)
}

/// The state of a registry in which the live surface `id` went through `events`.
pub open spec fn surface_after(state: GateState, id: i32, events: Seq<GateEvent>) -> GateState
    decreases events.len(),
{
    if events.len() == 0 {
        state
    } else {
        let before = surface_after(state, id, events.drop_last());
        match events.last() {
            GateEvent::Signal => before.signaled(id),
            GateEvent::Wait => before.waited(id),
        }
    }
}

/// A wait is satisfied exactly when a signal occurred since the wait before
/// it finished, or since the surface was created where there was none. On a
/// live surface it lowers the flag and asks for the texture update in both
/// cases.
pub proof fn lemma_wait_satisfied_iff_signaled(state: GateState, id: i32, events: Seq<GateEvent>)
    requires
        state.wf(),
        state.live(id),
        !state.image_ready(id),
    ensures
        surface_after(state, id, events).wf(),
        surface_after(state, id, events).live(id),
        surface_after(state, id, events).image_ready(id) == flag_after(events),
        flag_after(events) == signaled_since_last_wait(events),
        wait_outcome(surface_after(state, id, events), id).spec_satisfied()
            == signaled_since_last_wait(events),
        wait_outcome(surface_after(state, id, events), id).spec_updates_surface(),
        !surface_after(state, id, events).waited(id).image_ready(id),
    decreases events.len(),
{
    if events.len() > 0 {
        let init = events.drop_last();
        lemma_wait_satisfied_iff_signaled(state, id, init);
        let last = events.len() - 1;
        match events.last() {
            GateEvent::Signal => {
                assert(events[last] is Signal);
            },
            GateEvent::Wait => {
                if signaled_since_last_wait(events) {
                    let i = choose|i: int|
                        0 <= i < events.len() && #[trigger] events[i] is Signal && forall|j: int|
                            i < j < events.len() ==> !(#[trigger] events[j] is Wait);
                    assert(events[last] is Wait);
                }
            },
        }
    }
}

} // verus!
