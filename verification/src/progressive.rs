use vstd::prelude::*;

use crate::usage::{uses_in, UsageTally};

verus! {

/// The highest generation level.
pub const MAX_LEVEL: u32 = 5;

/// The level after a promotion: one higher, up to the highest level.
pub open spec fn promoted_level(level: u32) -> u32 {
    if level < MAX_LEVEL {
        (level + 1) as u32
    } else {
        level
    }
}

/// The level after a demotion: one lower, down to level 1.
pub open spec fn demoted_level(level: u32) -> u32 {
    if level > 1 {
        (level - 1) as u32
    } else {
        level
    }
}

/// How many entries of `history` are `true`.
pub open spec fn count_true(history: Seq<bool>) -> nat
    decreases history.len(),
{
    if history.len() == 0 {
        0
    } else {
        count_true(history.drop_last()) + if history.last() { 1nat } else { 0nat }
    }
}

/// The model chosen at `level`: the large one at levels 1 and 2 or when
/// confidence is low, the small one otherwise.
pub open spec fn chosen_model(level: u32, low_confidence: bool, large: Seq<char>, small: Seq<char>) -> Seq<char> {
    if level <= 2 || low_confidence {
        large
    } else {
        small
    }
}

/// Early levels and low confidence always get the large model; from level 3
/// on, a confident room gets the small one.
pub proof fn lemma_model_choice(level: u32, low_confidence: bool, large: Seq<char>, small: Seq<char>)
    ensures
        level <= 2 ==> chosen_model(level, low_confidence, large, small) == large,
        low_confidence ==> chosen_model(level, low_confidence, large, small) == large,
        level >= 3 && !low_confidence ==> chosen_model(level, low_confidence, large, small) == small,
{
}

/// Tracks how a room's generation progresses: its level, which models were
/// used, and whether each attempt succeeded.
pub struct ProgressiveGeneration {
    pub room_id: String,
    pub generation_level: u32,
    pub success_history: Vec<bool>,
    pub model_usage: UsageTally,
}

impl ProgressiveGeneration {
    /// The usage tally holds each model once.
    pub open spec fn wf(&self) -> bool {
        self.model_usage.wf()
    }

    /// The usage counts add up to the number of recorded attempts.
    pub open spec fn usage_matches_history(&self) -> bool {
        self.model_usage.total() == self.success_history@.len()
    }

    /// A new tracker for `room_id`, at level 1 with no history.
    pub fn new(room_id: &str) -> (generation: Self)
        ensures
            generation.wf(),
            generation.room_id@ == room_id@,
            generation.generation_level == 1,
            generation.success_history@ == Seq::<bool>::empty(),
            generation.model_usage@ == Map::<Seq<char>, u32>::empty(),
            generation.model_usage.total() == 0,
            generation.usage_matches_history(),
    {
        ProgressiveGeneration {
            room_id: room_id.to_owned(),
            generation_level: 1,
            success_history: Vec::new(),
            model_usage: UsageTally::new(),
        }
    }

    /// The model to use: the large model at levels 1 and 2 or when the room's
    /// confidence is low, the small one otherwise.
    pub fn pick_model_for(&self, low_confidence: bool, large_model: &str, small_model: &str) -> (model: String)
        ensures
            model@ == chosen_model(self.generation_level, low_confidence, large_model@, small_model@),
    {
        if self.generation_level <= 2 || low_confidence {
            large_model.to_owned()
        } else {
            small_model.to_owned()
        }
    }

    /// Records one use of `model` and whether it succeeded.
    pub fn record_success(&mut self, model: &str, success: bool)
        requires
            old(self).wf(),
            uses_in(old(self).model_usage@, model@) < u32::MAX,
        ensures
            final(self).wf(),
            final(self).model_usage@ == old(self).model_usage@.insert(
                model@,
                (uses_in(old(self).model_usage@, model@) + 1) as u32,
            ),
            final(self).model_usage.total() == old(self).model_usage.total() + 1,
            old(self).usage_matches_history() ==> final(self).usage_matches_history(),
            final(self).success_history@ == old(self).success_history@.push(success),
            final(self).room_id == old(self).room_id,
            final(self).generation_level == old(self).generation_level,
    {
        self.model_usage.increment(model);
        self.success_history.push(success);
    }

    /// Moves one level up, unless already at the highest level.
    pub fn promote(&mut self)
        ensures
            final(self).generation_level == promoted_level(old(self).generation_level),
            final(self).room_id == old(self).room_id,
            final(self).success_history == old(self).success_history,
            final(self).model_usage == old(self).model_usage,
    {
        if self.generation_level < MAX_LEVEL {
            self.generation_level = self.generation_level + 1;
        }
    }

    /// Moves one level down, unless already at level 1.
    pub fn demote(&mut self)
        ensures
            final(self).generation_level == demoted_level(old(self).generation_level),
            final(self).room_id == old(self).room_id,
            final(self).success_history == old(self).success_history,
            final(self).model_usage == old(self).model_usage,
    {
        if self.generation_level > 1 {
            self.generation_level = self.generation_level - 1;
        }
    }

    /// How many recorded attempts succeeded.
    pub fn success_count(&self) -> (count: usize)
        ensures
            count == count_true(self.success_history@),
            count <= self.success_history@.len(),
    {
        let mut count: usize = 0;
        let mut i: usize = 0;
        while i < self.success_history.len()
            invariant
                i <= self.success_history@.len(),
                count <= i,
                count == count_true(self.success_history@.take(i as int)),
            decreases self.success_history@.len() - i,
        {
            assert(self.success_history@.take(i + 1).drop_last() =~= self.success_history@.take(
                i as int,
            ));
            if self.success_history[i] {
                count = count + 1;
            }
            i = i + 1;
        }
        assert(self.success_history@.take(i as int) =~= self.success_history@);
        count
    }
}

/// Promotion and demotion keep a level between 1 and the highest level.
pub proof fn lemma_level_stays_in_range(level: u32)
    requires
        1 <= level <= MAX_LEVEL,
    ensures
        1 <= promoted_level(level) <= MAX_LEVEL,
        1 <= demoted_level(level) <= MAX_LEVEL,
{
}

/// A demotion undoes a promotion below the highest level, and a promotion
/// undoes a demotion above level 1.
pub proof fn lemma_promote_demote_undo(level: u32)
    ensures
        1 <= level < MAX_LEVEL ==> demoted_level(promoted_level(level)) == level,
        1 < level <= MAX_LEVEL ==> promoted_level(demoted_level(level)) == level,
{
}

/// A promotion raises the level by exactly one unless it is already 5 or
/// more; a demotion lowers it by exactly one unless it is already 1 or less.
pub proof fn lemma_promote_demote_steps(level: u32)
    ensures
        level < 5 ==> promoted_level(level) == level + 1,
        level >= 5 ==> promoted_level(level) == level,
        level > 1 ==> demoted_level(level) + 1 == level,
        level <= 1 ==> demoted_level(level) == level,
{
}

/// The number of successes is the number of `true` entries, and no more than
/// the number of attempts.
pub proof fn lemma_successes_bounded(history: Seq<bool>)
    ensures
        count_true(history) <= history.len(),
        count_true(history.push(true)) == count_true(history) + 1,
        count_true(history.push(false)) == count_true(history),
        count_true(Seq::<bool>::empty()) == 0,
        (forall|i: int| 0 <= i < history.len() ==> history[i]) ==> count_true(history)
            == history.len(),
        (forall|i: int| 0 <= i < history.len() ==> !history[i]) ==> count_true(history) == 0,
    decreases history.len(),
{
    assert(history.push(true).drop_last() =~= history);
    assert(history.push(false).drop_last() =~= history);
    if history.len() > 0 {
        lemma_successes_bounded(history.drop_last());
    }
}

} // verus!
