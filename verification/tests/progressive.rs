use lau_jepa_gravity::progressive::ProgressiveGeneration;
use lau_jepa_gravity::usage::UsageTally;

#[test]
fn progressive_new() {
    let pg = ProgressiveGeneration::new("r1");
    assert_eq!(pg.generation_level, 1);
}

#[test]
fn progressive_record_success() {
    let mut pg = ProgressiveGeneration::new("r1");
    pg.record_success("large", true);
    pg.record_success("small", false);
    assert_eq!(pg.success_history.len(), 2);
    assert_eq!(pg.model_usage.count_of("large"), 1);
    assert_eq!(pg.model_usage.count_of("small"), 1);
}

#[test]
fn progressive_promote() {
    let mut pg = ProgressiveGeneration::new("r1");
    pg.promote();
    assert_eq!(pg.generation_level, 2);
}

#[test]
fn progressive_promote_max() {
    let mut pg = ProgressiveGeneration::new("r1");
    pg.generation_level = 5;
    pg.promote();
    assert_eq!(pg.generation_level, 5); // stays at 5
}

#[test]
fn progressive_demote() {
    let mut pg = ProgressiveGeneration::new("r1");
    pg.generation_level = 3;
    pg.demote();
    assert_eq!(pg.generation_level, 2);
}

#[test]
fn progressive_demote_min() {
    let mut pg = ProgressiveGeneration::new("r1");
    pg.demote();
    assert_eq!(pg.generation_level, 1);
}

#[test]
fn progressive_new_is_empty() {
    let pg = ProgressiveGeneration::new("room-7");
    assert_eq!(pg.room_id, "room-7");
    assert!(pg.success_history.is_empty());
    assert!(pg.model_usage.pairs().is_empty());
    assert_eq!(pg.model_usage.count_of("anything"), 0);
}

#[test]
fn progressive_repeated_model_counts_up() {
    let mut pg = ProgressiveGeneration::new("r1");
    pg.record_success("gpt-4", true);
    pg.record_success("gpt-4", true);
    pg.record_success("gpt-3.5", false);
    assert_eq!(pg.model_usage.count_of("gpt-4"), 2);
    assert_eq!(pg.model_usage.count_of("gpt-3.5"), 1);
    assert_eq!(pg.success_history, vec![true, true, false]);
    // the usage counts add up to the number of recorded attempts
    let total: u32 = pg.model_usage.pairs().iter().map(|p| p.1).sum();
    assert_eq!(total as usize, pg.success_history.len());
    assert_eq!(pg.model_usage.pairs().len(), 2);
}

#[test]
fn progressive_success_count() {
    let mut pg = ProgressiveGeneration::new("r1");
    assert_eq!(pg.success_count(), 0);
    pg.record_success("m", true);
    pg.record_success("m", true);
    pg.record_success("m", false);
    assert_eq!(pg.success_count(), 2);
}

#[test]
fn progressive_pick_model_by_level_and_confidence() {
    let mut pg = ProgressiveGeneration::new("r1");
    assert_eq!(pg.pick_model_for(false, "large", "small"), "large"); // level 1
    pg.generation_level = 4;
    assert_eq!(pg.pick_model_for(false, "large", "small"), "small");
    assert_eq!(pg.pick_model_for(true, "large", "small"), "large");
    pg.generation_level = 2;
    assert_eq!(pg.pick_model_for(false, "large", "small"), "large");
}

#[test]
fn progressive_promote_then_demote_returns() {
    let mut pg = ProgressiveGeneration::new("r1");
    for level in 1..5u32 {
        pg.generation_level = level;
        pg.promote();
        pg.demote();
        assert_eq!(pg.generation_level, level);
    }
    for level in 1..=5u32 {
        pg.generation_level = level;
        pg.promote();
        assert!(pg.generation_level >= 1 && pg.generation_level <= 5);
        pg.generation_level = level;
        pg.demote();
        assert!(pg.generation_level >= 1 && pg.generation_level <= 5);
    }
}

#[test]
fn usage_tally_set_and_increment() {
    let mut t = UsageTally::new();
    t.set_count("a", 7);
    t.increment("a");
    t.increment("b");
    assert_eq!(t.count_of("a"), 8);
    assert_eq!(t.count_of("b"), 1);
    t.set_count("b", 0);
    assert_eq!(t.count_of("b"), 0);
    assert_eq!(t.pairs().len(), 2);
}
