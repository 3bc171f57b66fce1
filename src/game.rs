use vstd::prelude::*;

verus! {

/// Whether an asset's data has been read and handed to the renderer.
#[derive(Clone, Copy, Debug, PartialEq, Eq, Structural)]
pub enum LoadingState {
    Unloaded,
    Loaded,
}

/// Number of entity slots in a simulation state.
pub const MAX_ENTITIES: usize = 2048;

/// Length of one fixed simulation step in nanoseconds (16 ms).
pub const DEFAULT_DELTA_NANOS: u64 = 16_000_000;

/// One buffer of the double-buffered simulation state: per entity slot, the entity's
/// physics and graphics components, if it has them.
pub struct State<P, G> {
    pub delta_time_nanos: u64,
    pub physics_components: Vec<Option<P>>,
    pub graphics_components: Vec<Option<G>>,
    /// The id the next created entity receives.
    pub next_entity: usize,
}

pub open spec fn all_empty<T>(s: Seq<Option<T>>, n: nat) -> bool {
    s.len() == n && forall|i: int| 0 <= i < n ==> (#[trigger] s[i]).is_none()
}

fn empty_slots<T>(n: usize) -> (r: Vec<Option<T>>)
    ensures
        all_empty(r@, n as nat),
{
    let mut v: Vec<Option<T>> = Vec::new();
    let mut i: usize = 0;
    while i < n
        invariant
            i <= n,
            all_empty(v@, i as nat),
        decreases n - i,
    {
        v.push(None);
        i += 1;
    }
    v
}

impl<P, G> State<P, G> {
    /// A state with every slot empty and the default step length.
    pub fn new() -> (r: State<P, G>)
        ensures
            r.delta_time_nanos == DEFAULT_DELTA_NANOS,
            all_empty(r.physics_components@, MAX_ENTITIES as nat),
            all_empty(r.graphics_components@, MAX_ENTITIES as nat),
            r.next_entity == 0,
    {
        State {
            delta_time_nanos: DEFAULT_DELTA_NANOS,
            physics_components: empty_slots(MAX_ENTITIES),
            graphics_components: empty_slots(MAX_ENTITIES),
            next_entity: 0,
        }
    }

    /// Allocates the next entity id; `None` once every slot is taken.
    pub fn new_entity(&mut self) -> (r: Option<usize>)
        ensures
            final(self).delta_time_nanos == old(self).delta_time_nanos,
            final(self).physics_components@ == old(self).physics_components@,
            final(self).graphics_components@ == old(self).graphics_components@,
            old(self).next_entity < old(self).physics_components@.len() ==> r == Some(
                old(self).next_entity,
            ) && final(self).next_entity == old(self).next_entity + 1,
            old(self).next_entity >= old(self).physics_components@.len() ==> r.is_none()
                && final(self).next_entity == old(self).next_entity,
    {
        if self.next_entity < self.physics_components.len() {
            let id = self.next_entity;
            self.next_entity = id + 1;
            Some(id)
        } else {
            None
        }
    }

    /// Gives entity `id` a physics component.
    pub fn with_physics(&mut self, id: usize, component: P)
        requires
            id < old(self).physics_components@.len(),
        ensures
            final(self).physics_components@ == old(self).physics_components@.update(
                id as int,
                Some(component),
            ),
            final(self).graphics_components@ == old(self).graphics_components@,
            final(self).delta_time_nanos == old(self).delta_time_nanos,
            final(self).next_entity == old(self).next_entity,
    {
        self.physics_components.set(id, Some(component));
    }

    /// Gives entity `id` a graphics component.
    pub fn with_graphics(&mut self, id: usize, component: G)
        requires
            id < old(self).graphics_components@.len(),
        ensures
            final(self).graphics_components@ == old(self).graphics_components@.update(
                id as int,
                Some(component),
            ),
            final(self).physics_components@ == old(self).physics_components@,
            final(self).delta_time_nanos == old(self).delta_time_nanos,
            final(self).next_entity == old(self).next_entity,
    {
        self.graphics_components.set(id, Some(component));
    }
}

/// The two buffers of a fresh simulation: the first holds one entity, id 0, with the
/// given components; the second is empty.
pub fn init<P, G>(physics: P, graphics: G) -> (r: (State<P, G>, State<P, G>))
    ensures
        r.0.physics_components@ == Seq::new(MAX_ENTITIES as nat, |i: int| None::<P>).update(0, Some(physics)),
        r.0.graphics_components@ == Seq::new(MAX_ENTITIES as nat, |i: int| None::<G>).update(
            0,
            Some(graphics),
        ),
        r.0.next_entity == 1,
        r.0.delta_time_nanos == DEFAULT_DELTA_NANOS,
        all_empty(r.1.physics_components@, MAX_ENTITIES as nat),
        all_empty(r.1.graphics_components@, MAX_ENTITIES as nat),
        r.1.next_entity == 0,
        r.1.delta_time_nanos == DEFAULT_DELTA_NANOS,
{
    let mut state: State<P, G> = State::new();
    let next_state: State<P, G> = State::new();
    let id = state.new_entity();
    assert(id == Some(0usize));
    state.with_physics(0, physics);
    state.with_graphics(0, graphics);
    assert(state.physics_components@ =~= Seq::new(MAX_ENTITIES as nat, |i: int| None::<P>).update(
        0,
        Some(physics),
    ));
    assert(state.graphics_components@ =~= Seq::new(MAX_ENTITIES as nat, |i: int| None::<G>).update(
        0,
        Some(graphics),
    ));
    (state, next_state)
}

/// Slot `i` of `next` holds the step of slot `i` of `cur`: empty stays empty, and a
/// component is replaced by what `integrate` returns for it.
pub open spec fn stepped<P, F: Fn(&P) -> P>(integrate: F, cur: Option<P>, next: Option<P>) -> bool {
    match cur {
        None => next.is_none(),
        Some(p) => match next {
            Some(q) => integrate.ensures((&p,), q),
            None => false,
        },
    }
}

/// Advances every physics component of `state` by one step into `next_state`;
/// `integrate` is the per-component integration.
pub fn process_physics<P, G, F: Fn(&P) -> P>(state: &State<P, G>, next_state: &mut State<P, G>, integrate: F)
    requires
        old(next_state).physics_components@.len() >= state.physics_components@.len(),
        forall|p: P| #[trigger] integrate.requires((&p,)),
    ensures
        final(next_state).physics_components@.len() == old(next_state).physics_components@.len(),
        forall|i: int|
            0 <= i < state.physics_components@.len() ==> stepped(
                integrate,
                state.physics_components@[i],
                #[trigger] final(next_state).physics_components@[i],
            ),
        forall|i: int|
            state.physics_components@.len() <= i < old(next_state).physics_components@.len()
                ==> #[trigger] final(next_state).physics_components@[i]
                == old(next_state).physics_components@[i],
        final(next_state).graphics_components@ == old(next_state).graphics_components@,
        final(next_state).delta_time_nanos == old(next_state).delta_time_nanos,
        final(next_state).next_entity == old(next_state).next_entity,
{
    let n = state.physics_components.len();
    let mut i: usize = 0;
    while i < n
        invariant
            n == state.physics_components@.len(),
            n <= old(next_state).physics_components@.len(),
            i <= n,
            next_state.physics_components@.len() == old(next_state).physics_components@.len(),
            forall|p: P| #[trigger] integrate.requires((&p,)),
            forall|j: int|
                0 <= j < i ==> stepped(
                    integrate,
                    state.physics_components@[j],
                    #[trigger] next_state.physics_components@[j],
                ),
            forall|j: int|
                i <= j < old(next_state).physics_components@.len()
                    ==> #[trigger] next_state.physics_components@[j]
                    == old(next_state).physics_components@[j],
            next_state.graphics_components@ == old(next_state).graphics_components@,
            next_state.delta_time_nanos == old(next_state).delta_time_nanos,
            next_state.next_entity == old(next_state).next_entity,
        decreases n - i,
    {
        let stepped_slot = match &state.physics_components[i] {
            Some(obj) => Some(integrate(obj)),
            None => None,
        };
        next_state.physics_components.set(i, stepped_slot);
        i += 1;
    }
}

/// One simulation update: steps the physics of `state` into `next_state`.
pub fn update<P, G, F: Fn(&P) -> P>(state: &State<P, G>, next_state: &mut State<P, G>, integrate: F)
    requires
        old(next_state).physics_components@.len() >= state.physics_components@.len(),
        forall|p: P| #[trigger] integrate.requires((&p,)),
    ensures
        final(next_state).physics_components@.len() == old(next_state).physics_components@.len(),
        forall|i: int|
            0 <= i < state.physics_components@.len() ==> stepped(
                integrate,
                state.physics_components@[i],
                #[trigger] final(next_state).physics_components@[i],
            ),
        forall|i: int|
            state.physics_components@.len() <= i < old(next_state).physics_components@.len()
                ==> #[trigger] final(next_state).physics_components@[i]
                == old(next_state).physics_components@[i],
        final(next_state).graphics_components@ == old(next_state).graphics_components@,
        final(next_state).delta_time_nanos == old(next_state).delta_time_nanos,
        final(next_state).next_entity == old(next_state).next_entity,
{
    process_physics(state, next_state, integrate)
}

} // verus!
