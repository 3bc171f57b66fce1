use xtreme_game::game::{self, LoadingState, State, DEFAULT_DELTA_NANOS, MAX_ENTITIES};
use xtreme_game::timestep::{FixedTimestep, MAX_FRAME_NANOS};
use xtreme_game::world::{self, World};

#[test]
fn init_creates_one_entity() {
    let (state, next) = game::init(5i64, LoadingState::Unloaded);
    assert_eq!(state.physics_components.len(), MAX_ENTITIES);
    assert_eq!(state.physics_components[0], Some(5));
    assert_eq!(state.graphics_components[0], Some(LoadingState::Unloaded));
    assert!(state.physics_components[1..].iter().all(|c| c.is_none()));
    assert_eq!(state.next_entity, 1);
    assert_eq!(state.delta_time_nanos, DEFAULT_DELTA_NANOS);
    assert!(next.physics_components.iter().all(|c| c.is_none()));
    assert_eq!(next.next_entity, 0);
}

#[test]
fn update_steps_occupied_slots_only() {
    let (mut state, mut next) = game::init(10i64, ());
    let id = state.new_entity().unwrap();
    assert_eq!(id, 1);
    state.with_physics(id, 20);
    next.physics_components[3] = Some(99);
    game::update(&state, &mut next, |p: &i64| p + 1);
    assert_eq!(next.physics_components[0], Some(11));
    assert_eq!(next.physics_components[1], Some(21));
    assert_eq!(next.physics_components[3], None);
}

#[test]
fn entity_ids_run_out() {
    let mut s: State<u8, u8> = State::new();
    for i in 0..MAX_ENTITIES {
        assert_eq!(s.new_entity(), Some(i));
    }
    assert_eq!(s.new_entity(), None);
}

#[test]
fn world_update_maps_every_component() {
    let w = World { delta_time_nanos: 16, physics_components: vec![1u32, 2, 3], graphics_components: vec![(); 3] };
    let mut n = World { delta_time_nanos: 16, physics_components: vec![0u32; 4], graphics_components: vec![(); 3] };
    world::update(&w, &mut n, |p: &u32| p * 10);
    assert_eq!(n.physics_components, vec![10, 20, 30, 0]);
    world::process_physics(&w, &mut n, |p: &u32| p + 1);
    assert_eq!(n.physics_components, vec![2, 3, 4, 0]);
}

#[test]
fn timestep_counts_whole_steps() {
    let mut t = FixedTimestep::new(DEFAULT_DELTA_NANOS);
    assert_eq!(t.advance(40_000_000), 2);
    assert_eq!(t.remainder(), 8_000_000);
    assert_eq!(t.advance(8_000_000), 1);
    assert_eq!(t.remainder(), 0);
    assert_eq!(t.delta(), DEFAULT_DELTA_NANOS);
}

#[test]
fn timestep_clamps_long_frames() {
    let mut t = FixedTimestep::new(DEFAULT_DELTA_NANOS);
    assert_eq!(t.advance(5_000_000_000), MAX_FRAME_NANOS / DEFAULT_DELTA_NANOS);
    assert_eq!(t.remainder(), MAX_FRAME_NANOS % DEFAULT_DELTA_NANOS);
}
