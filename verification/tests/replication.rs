use mmo_core::fixed::{Vec2Fx, FX_ONE};
use mmo_core::intent::MoveIntent;
use mmo_core::lifecycle::{handle_connection, ConnectionEvent, DisconnectReason};
use mmo_core::store::{ApplyOutcome, ReplicatedStore, Role, StoreError};
use mmo_core::tick::{simulation_tick, TaggedIntent};

fn connect(store: &mut ReplicatedStore, client_id: u64) {
    let event = ConnectionEvent::Connected { client_id };
    handle_connection(store, &event);
}

#[test]
fn connect_spawns_player_at_origin_with_derived_color() {
    let mut store = ReplicatedStore::new();
    connect(&mut store, 1000);
    assert_eq!(store.len(), 1);
    let player = store.get(1000).unwrap();
    assert_eq!(player.client_id, 1000);
    assert_eq!(player.position, Vec2Fx { x: 0, y: 0 });
    assert_eq!(player.color.red, (1000u64 % 23) as u8);
    assert_eq!(player.color.green, (1000u64 % 27) as u8);
    assert_eq!(player.color.blue, (1000u64 % 39) as u8);
}

#[test]
fn duplicate_connect_keeps_one_player() {
    let mut store = ReplicatedStore::new();
    connect(&mut store, 7);
    connect(&mut store, 7);
    assert_eq!(store.len(), 1);
}

#[test]
fn intent_moves_player_by_speed_times_elapsed() {
    let mut store = ReplicatedStore::new();
    connect(&mut store, 1000);
    let intent = MoveIntent { direction: Vec2Fx { x: FX_ONE, y: 0 } };
    let outcome = store.apply_intent(Role::Authority, 1000, &intent, 100);
    assert_eq!(outcome, Ok(ApplyOutcome::Applied));
    // (1, 0) for 0.1 s at 200 units/s: 20 units east, in fixed point.
    let player = store.get(1000).unwrap();
    assert_eq!(player.position, Vec2Fx { x: 20_000_000, y: 0 });
}

#[test]
fn stale_intent_changes_nothing() {
    let mut store = ReplicatedStore::new();
    connect(&mut store, 1);
    let before = store.get(1).unwrap();
    let intent = MoveIntent { direction: Vec2Fx { x: FX_ONE, y: 0 } };
    let outcome = store.apply_intent(Role::Authority, 2, &intent, 100);
    assert_eq!(outcome, Ok(ApplyOutcome::StaleIntentIgnored));
    assert_eq!(store.len(), 1);
    assert_eq!(store.get(1).unwrap(), before);
}

#[test]
fn non_authority_mutation_is_rejected() {
    let mut store = ReplicatedStore::new();
    connect(&mut store, 1000);
    let intent = MoveIntent { direction: Vec2Fx { x: FX_ONE, y: 0 } };
    let outcome = store.apply_intent(Role::Client, 1000, &intent, 100);
    assert_eq!(outcome, Err(StoreError::UnauthorizedMutation));
    assert_eq!(store.get(1000).unwrap().position, Vec2Fx { x: 0, y: 0 });

    let direct = store.mutate_position(Role::Client, 1000, 5, 5);
    assert_eq!(direct, Err(StoreError::UnauthorizedMutation));
    assert_eq!(store.get(1000).unwrap().position, Vec2Fx { x: 0, y: 0 });
}

#[test]
fn two_intents_in_one_tick_apply_in_order_without_coalescing() {
    let mut store = ReplicatedStore::new();
    connect(&mut store, 42);
    let events: Vec<ConnectionEvent> = Vec::new();
    let intents = vec![
        TaggedIntent { client_id: 42, intent: MoveIntent { direction: Vec2Fx { x: FX_ONE, y: 0 } } },
        TaggedIntent { client_id: 42, intent: MoveIntent { direction: Vec2Fx { x: 0, y: FX_ONE } } },
    ];
    let snapshot = simulation_tick(&mut store, Role::Authority, &events, &intents, 100);
    // Each intent integrates independently: 20 units east, then 20 north —
    // never a single averaged diagonal step.
    let player = store.get(42).unwrap();
    assert_eq!(player.position, Vec2Fx { x: 20_000_000, y: 20_000_000 });
    assert_eq!(snapshot.len(), 1);
    assert_eq!(snapshot[0], player);
}

#[test]
fn duplicate_disconnect_raises_no_error() {
    let mut store = ReplicatedStore::new();
    let event = ConnectionEvent::Disconnected {
        client_id: 9,
        reason: DisconnectReason::Timeout,
    };
    handle_connection(&mut store, &event);
    assert_eq!(store.len(), 0);

    connect(&mut store, 9);
    handle_connection(&mut store, &event);
    assert_eq!(store.len(), 0);
    handle_connection(&mut store, &event);
    assert_eq!(store.len(), 0);
}

#[test]
fn disconnect_removes_only_that_player() {
    let mut store = ReplicatedStore::new();
    connect(&mut store, 1);
    connect(&mut store, 2);
    let event = ConnectionEvent::Disconnected {
        client_id: 1,
        reason: DisconnectReason::ExplicitClose,
    };
    handle_connection(&mut store, &event);
    assert!(store.get(1).is_none());
    assert!(store.get(2).is_some());
    assert_eq!(store.len(), 1);
}

#[test]
fn snapshot_replicates_to_a_client_mirror() {
    let mut authority = ReplicatedStore::new();
    connect(&mut authority, 10);
    connect(&mut authority, 20);
    let intent = MoveIntent { direction: Vec2Fx { x: 0, y: FX_ONE } };
    authority.apply_intent(Role::Authority, 10, &intent, 50).unwrap();

    let mut mirror = ReplicatedStore::new();
    mirror.apply_snapshot(&authority.snapshot());
    assert_eq!(mirror.len(), 2);
    assert_eq!(mirror.get(10), authority.get(10));
    assert_eq!(mirror.get(20), authority.get(20));
}

#[test]
fn snapshot_upserts_and_retains_absent_players() {
    let mut mirror = ReplicatedStore::new();
    connect(&mut mirror, 99);

    let mut authority = ReplicatedStore::new();
    connect(&mut authority, 99);
    let intent = MoveIntent { direction: Vec2Fx { x: FX_ONE, y: 0 } };
    authority.apply_intent(Role::Authority, 99, &intent, 100).unwrap();
    connect(&mut authority, 7);

    mirror.apply_snapshot(&authority.snapshot());
    // 99 was overwritten in place, 7 appended.
    assert_eq!(mirror.len(), 2);
    assert_eq!(mirror.get(99).unwrap().position, Vec2Fx { x: 20_000_000, y: 0 });

    // A later snapshot without 7 retains the mirrored 7.
    let empty = ReplicatedStore::new();
    mirror.apply_snapshot(&empty.snapshot());
    assert_eq!(mirror.len(), 2);
    assert!(mirror.get(7).is_some());
}

#[test]
fn client_role_tick_simulates_nothing() {
    let mut store = ReplicatedStore::new();
    connect(&mut store, 3);
    let events = vec![ConnectionEvent::Connected { client_id: 4 }];
    let intents = vec![TaggedIntent {
        client_id: 3,
        intent: MoveIntent { direction: Vec2Fx { x: FX_ONE, y: 0 } },
    }];
    let snapshot = simulation_tick(&mut store, Role::Client, &events, &intents, 100);
    assert_eq!(store.len(), 1);
    assert!(store.get(4).is_none());
    assert_eq!(store.get(3).unwrap().position, Vec2Fx { x: 0, y: 0 });
    assert_eq!(snapshot.len(), 1);
}

#[test]
fn tick_handles_connects_before_intents() {
    let mut store = ReplicatedStore::new();
    let events = vec![ConnectionEvent::Connected { client_id: 5 }];
    let intents = vec![TaggedIntent {
        client_id: 5,
        intent: MoveIntent { direction: Vec2Fx { x: FX_ONE, y: 0 } },
    }];
    simulation_tick(&mut store, Role::Authority, &events, &intents, 100);
    assert_eq!(store.get(5).unwrap().position, Vec2Fx { x: 20_000_000, y: 0 });
}

#[test]
fn tick_discards_non_unit_directions() {
    let mut store = ReplicatedStore::new();
    connect(&mut store, 6);
    let events: Vec<ConnectionEvent> = Vec::new();
    let intents = vec![TaggedIntent {
        client_id: 6,
        intent: MoveIntent { direction: Vec2Fx { x: 123, y: 456 } },
    }];
    simulation_tick(&mut store, Role::Authority, &events, &intents, 100);
    assert_eq!(store.get(6).unwrap().position, Vec2Fx { x: 0, y: 0 });
}
