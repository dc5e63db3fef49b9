use rc_bench::custom_rc::{CustomRc, RcHeap};
use rc_bench::entity::Entity;
use rc_bench::game::{should_report, Game};
use rc_bench::rc_like::RcLike;
use rc_bench::std_rc::{StdRcStore, StdRcWrapper};

type CustomGame = Game<RcHeap<Entity>, CustomRc<Entity>>;
type StdGame = Game<StdRcStore, StdRcWrapper>;

#[test]
fn example_scenario_three_entities() {
    // entity_count = 3, frames = 1, operations_per_frame = 2.
    let mut game: CustomGame = Game::new(1, 2);
    game.setup(3);

    // Setup created 3 entities with identifiers 0, 1, 2, and each
    // block's live-handle count is 2.
    assert_eq!(game.entities.len(), 3);
    for k in 0..3usize {
        let idx = game.entities[k].block_index();
        // Identifiers are handed out sequentially from 0, so the
        // workload addresses the same blocks whatever pointer type
        // drives it.
        assert_eq!(idx, k);
        assert_eq!(game.entities[k].deref(&game.store).id, k);
        assert_eq!(game.store.count_at(idx), 2);
    }

    // The run performs 2 passes over the 3 handles: 6 clone/destroy
    // pairs, after which every block's count is back at 2.
    let pairs = game.run();
    assert_eq!(pairs, 6);
    let indices: Vec<usize> = game.entities.iter().map(|h| h.block_index()).collect();
    for idx in &indices {
        assert_eq!(game.store.count_at(*idx), 2);
    }

    // Teardown drops the collection handles (count 2 -> 1) and then
    // the last living handles (count 1 -> 0), deallocating all 3
    // blocks exactly once each.
    let heap = game.teardown();
    for idx in &indices {
        assert!(!heap.is_allocated(*idx));
    }
}

#[test]
fn workload_pairs_match_for_both_pointer_types() {
    // The number of clone/destroy pairs is entity_count * frames *
    // operations_per_frame, independent of the pointer implementation.
    let mut custom: CustomGame = Game::new(4, 5);
    custom.setup(6);
    let custom_pairs = custom.run();
    custom.teardown();

    let mut std_game: StdGame = Game::new(4, 5);
    std_game.setup(6);
    let std_pairs = std_game.run();
    std_game.teardown();

    assert_eq!(custom_pairs, 4 * 5 * 6);
    assert_eq!(std_pairs, 4 * 5 * 6);
}

#[test]
fn run_with_zero_frames_does_nothing() {
    let mut game: CustomGame = Game::new(0, 10);
    game.setup(2);
    assert_eq!(game.run(), 0);
    game.teardown();
}

#[test]
fn run_frame_counts_one_frame() {
    let mut game: CustomGame = Game::new(3, 4);
    game.setup(2);
    assert_eq!(game.run_frame(), 8);
    game.teardown();
}

#[test]
fn setup_of_zero_entities_is_empty() {
    let mut game: CustomGame = Game::new(2, 2);
    game.setup(0);
    assert_eq!(game.entities.len(), 0);
    assert_eq!(game.run(), 0);
    game.teardown();
}

#[test]
fn std_adapter_clone_is_transparent() {
    let mut store = StdRcWrapper::new_store();
    let h = StdRcWrapper::construct(&mut store, Entity { id: 9, x: 3, y: 4 });
    let c = h.clone_handle(&mut store);
    let through_clone = c.read(&store);
    let through_original = h.read(&store);
    assert_eq!(through_clone, through_original);
    assert_eq!(through_clone.id, 9);
    assert_eq!(through_clone.x, 3);
    assert_eq!(through_clone.y, 4);
    c.destroy(&mut store);
    let still = h.read(&store);
    assert_eq!(still.id, 9);
    h.destroy(&mut store);
}

#[test]
fn progress_interval_is_a_tenth_of_frames() {
    // 25 frames: a report every 2 frames.
    assert!(should_report(0, 25));
    assert!(!should_report(1, 25));
    assert!(should_report(2, 25));
    assert!(!should_report(3, 25));
    assert!(should_report(24, 25));
}

#[test]
fn progress_interval_has_a_floor_of_one_frame() {
    // Fewer than 10 frames: every frame reports.
    for frame in 0..5usize {
        assert!(should_report(frame, 5));
    }
    assert!(should_report(0, 0));
}
