use vstd::prelude::*;

verus! {

/// A simulation state whose component vectors are dense: every entity has every
/// component.
pub struct World<P, G> {
    pub delta_time_nanos: u64,
    pub physics_components: Vec<P>,
    pub graphics_components: Vec<G>,
}

/// Replaces each physics component of `next_world` by `integrate` applied to the
/// component at the same index of `world`.
pub fn process_physics<P, G, F: Fn(&P) -> P>(world: &World<P, G>, next_world: &mut World<P, G>, integrate: F)
    requires
        old(next_world).physics_components@.len() >= world.physics_components@.len(),
        forall|p: P| #[trigger] integrate.requires((&p,)),
    ensures
        final(next_world).physics_components@.len() == old(next_world).physics_components@.len(),
        forall|i: int|
            0 <= i < world.physics_components@.len() ==> integrate.ensures(
                (&world.physics_components@[i],),
                #[trigger] final(next_world).physics_components@[i],
            ),
        forall|i: int|
            world.physics_components@.len() <= i < old(next_world).physics_components@.len()
                ==> #[trigger] final(next_world).physics_components@[i]
                == old(next_world).physics_components@[i],
        final(next_world).graphics_components@ == old(next_world).graphics_components@,
        final(next_world).delta_time_nanos == old(next_world).delta_time_nanos,
{
    let n = world.physics_components.len();
    let mut i: usize = 0;
    while i < n
        invariant
            n == world.physics_components@.len(),
            n <= old(next_world).physics_components@.len(),
            i <= n,
            next_world.physics_components@.len() == old(next_world).physics_components@.len(),
            forall|p: P| #[trigger] integrate.requires((&p,)),
            forall|j: int|
                0 <= j < i ==> integrate.ensures(
                    (&world.physics_components@[j],),
                    #[trigger] next_world.physics_components@[j],
                ),
            forall|j: int|
                i <= j < old(next_world).physics_components@.len()
                    ==> #[trigger] next_world.physics_components@[j]
                    == old(next_world).physics_components@[j],
            next_world.graphics_components@ == old(next_world).graphics_components@,
            next_world.delta_time_nanos == old(next_world).delta_time_nanos,
        decreases n - i,
    {
        let q = integrate(&world.physics_components[i]);
        next_world.physics_components.set(i, q);
        i += 1;
    }
}

/// One simulation update of a dense world.
pub fn update<P, G, F: Fn(&P) -> P>(world: &World<P, G>, next_world: &mut World<P, G>, integrate: F)
    requires
        old(next_world).physics_components@.len() >= world.physics_components@.len(),
        forall|p: P| #[trigger] integrate.requires((&p,)),
    ensures
        final(next_world).physics_components@.len() == old(next_world).physics_components@.len(),
        forall|i: int|
            0 <= i < world.physics_components@.len() ==> integrate.ensures(
                (&world.physics_components@[i],),
                #[trigger] final(next_world).physics_components@[i],
            ),
        forall|i: int|
            world.physics_components@.len() <= i < old(next_world).physics_components@.len()
                ==> #[trigger] final(next_world).physics_components@[i]
                == old(next_world).physics_components@[i],
        final(next_world).graphics_components@ == old(next_world).graphics_components@,
        final(next_world).delta_time_nanos == old(next_world).delta_time_nanos,
{
    process_physics(world, next_world, integrate)
}

} // verus!
