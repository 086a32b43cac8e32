use thesis_rewriter::config::MAX_GENERATED_TOKENS;
use thesis_rewriter::error::RewriteError;
use thesis_rewriter::generation::{batch_capacity, Generation, GenerationStep};

#[test]
fn prompt_must_leave_room_for_generation() {
    assert!(Generation::start(0).is_ok());
    assert!(Generation::start(3395).is_ok());
    assert_eq!(Generation::start(3396).err(), Some(RewriteError::InputTooLong));
    assert_eq!(Generation::start(10_000).err(), Some(RewriteError::InputTooLong));
}

#[test]
fn batch_capacity_is_at_least_batch_size() {
    assert_eq!(batch_capacity(0), 512);
    assert_eq!(batch_capacity(100), 512);
    assert_eq!(batch_capacity(512), 512);
    assert_eq!(batch_capacity(2000), 2000);
}

#[test]
fn fed_positions_follow_the_prompt() {
    let mut g = Generation::start(37).unwrap();
    assert!(g.wants_token());
    assert_eq!(g.step(false), GenerationStep::Feed { position: 37 });
    assert_eq!(g.step(false), GenerationStep::Feed { position: 38 });
    assert_eq!(g.step(false), GenerationStep::Feed { position: 39 });
    assert_eq!(g.produced(), 3);
    assert_eq!(g.step(true), GenerationStep::Finish);
    assert!(!g.wants_token());
    assert_eq!(g.produced(), 3);
}

#[test]
fn generation_stops_after_the_token_limit() {
    let mut g = Generation::start(3395).unwrap();
    let mut last = -1;
    let mut fed = 0;
    while g.wants_token() {
        match g.step(false) {
            GenerationStep::Feed { position } => {
                assert_eq!(position, last.max(3394) + 1);
                last = position;
                fed += 1;
            }
            GenerationStep::Finish => unreachable!(),
        }
    }
    assert_eq!(fed, MAX_GENERATED_TOKENS);
    assert_eq!(last, 4094);
    assert!(last < 4096);
}
