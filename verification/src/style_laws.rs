use vstd::prelude::*;

use crate::style::{score_of, spec_style, UserStyle};
use crate::text::{begins_with, count_char, has_text};

verus! {

// What each keyword and heuristic is worth, axis by axis. Scores are in half
// points: 4 is 2.0, 3 is 1.5, 2 is 1.0 and 1 is 0.5.

/// Laughter (`lol`, `haha`, 😂, 😄) is worth 2.0 to the playful axis, a joke
/// word (`pun`, `joke`, `funny`) 1.5, and more than two '!' 1.0; nothing else
/// scores there, and the length of the text plays no part.
pub proof fn lemma_playful_scoring(lower: Seq<char>, byte_len: nat)
    ensures
        has_text(lower, "lol"@) ==> score_of(UserStyle::Playful, lower, byte_len) >= 4,
        has_text(lower, "haha"@) ==> score_of(UserStyle::Playful, lower, byte_len) >= 4,
        has_text(lower, "\u{1F602}"@) ==> score_of(UserStyle::Playful, lower, byte_len) >= 4,
        has_text(lower, "\u{1F604}"@) ==> score_of(UserStyle::Playful, lower, byte_len) >= 4,
        has_text(lower, "pun"@) ==> score_of(UserStyle::Playful, lower, byte_len) >= 3,
        has_text(lower, "joke"@) ==> score_of(UserStyle::Playful, lower, byte_len) >= 3,
        has_text(lower, "funny"@) ==> score_of(UserStyle::Playful, lower, byte_len) >= 3,
        count_char(lower, '!') >= 3 ==> score_of(UserStyle::Playful, lower, byte_len) >= 2,
        has_text(lower, "haha"@) && has_text(lower, "joke"@) && count_char(lower, '!') >= 3
            ==> score_of(UserStyle::Playful, lower, byte_len) == 9,
        !has_text(lower, "lol"@) && !has_text(lower, "haha"@) && !has_text(lower, "\u{1F602}"@)
            && !has_text(lower, "\u{1F604}"@) && !has_text(lower, "pun"@) && !has_text(
            lower,
            "joke"@,
        ) && !has_text(lower, "funny"@) && count_char(lower, '!') < 3 ==> score_of(
            UserStyle::Playful,
            lower,
            byte_len,
        ) == 0,
        score_of(UserStyle::Playful, lower, byte_len) <= 9,
        score_of(UserStyle::Playful, lower, byte_len) == score_of(UserStyle::Playful, lower, 0),
{
}

/// `exactly`, `precisely` or `specifically` is worth 2.0 to the precise axis;
/// `error`, `bug`, `fix` or `debug` 1.5; `calculate`, `measure` or `define`
/// 1.5; and a text shorter than 30 bytes 0.5.
pub proof fn lemma_precise_scoring(lower: Seq<char>, byte_len: nat)
    ensures
        has_text(lower, "exactly"@) ==> score_of(UserStyle::Precise, lower, byte_len) >= 4,
        has_text(lower, "precisely"@) ==> score_of(UserStyle::Precise, lower, byte_len) >= 4,
        has_text(lower, "specifically"@) ==> score_of(UserStyle::Precise, lower, byte_len) >= 4,
        has_text(lower, "error"@) ==> score_of(UserStyle::Precise, lower, byte_len) >= 3,
        has_text(lower, "bug"@) ==> score_of(UserStyle::Precise, lower, byte_len) >= 3,
        has_text(lower, "fix"@) ==> score_of(UserStyle::Precise, lower, byte_len) >= 3,
        has_text(lower, "debug"@) ==> score_of(UserStyle::Precise, lower, byte_len) >= 3,
        has_text(lower, "calculate"@) ==> score_of(UserStyle::Precise, lower, byte_len) >= 3,
        has_text(lower, "measure"@) ==> score_of(UserStyle::Precise, lower, byte_len) >= 3,
        has_text(lower, "define"@) ==> score_of(UserStyle::Precise, lower, byte_len) >= 3,
        byte_len < 30 ==> score_of(UserStyle::Precise, lower, byte_len) >= 1,
        has_text(lower, "exactly"@) && has_text(lower, "bug"@) && has_text(lower, "measure"@)
            && byte_len < 30 ==> score_of(UserStyle::Precise, lower, byte_len) == 11,
        !has_text(lower, "exactly"@) && !has_text(lower, "precisely"@) && !has_text(
            lower,
            "specifically"@,
        ) && !has_text(lower, "error"@) && !has_text(lower, "bug"@) && !has_text(lower, "fix"@)
            && !has_text(lower, "debug"@) && !has_text(lower, "calculate"@) && !has_text(
            lower,
            "measure"@,
        ) && !has_text(lower, "define"@) ==> score_of(UserStyle::Precise, lower, byte_len) == (
        if byte_len < 30 {
            1nat
        } else {
            0nat
        }),
        score_of(UserStyle::Precise, lower, byte_len) <= 11,
{
}

/// `story`, `imagine` or `picture this` is worth 2.0 to the narrative axis;
/// `once upon`, `suddenly` or `meanwhile` 2.0; and a text longer than 200
/// bytes 1.0.
pub proof fn lemma_narrative_scoring(lower: Seq<char>, byte_len: nat)
    ensures
        has_text(lower, "story"@) ==> score_of(UserStyle::Narrative, lower, byte_len) >= 4,
        has_text(lower, "imagine"@) ==> score_of(UserStyle::Narrative, lower, byte_len) >= 4,
        has_text(lower, "picture this"@) ==> score_of(UserStyle::Narrative, lower, byte_len) >= 4,
        has_text(lower, "once upon"@) ==> score_of(UserStyle::Narrative, lower, byte_len) >= 4,
        has_text(lower, "suddenly"@) ==> score_of(UserStyle::Narrative, lower, byte_len) >= 4,
        has_text(lower, "meanwhile"@) ==> score_of(UserStyle::Narrative, lower, byte_len) >= 4,
        byte_len > 200 ==> score_of(UserStyle::Narrative, lower, byte_len) >= 2,
        has_text(lower, "imagine"@) && has_text(lower, "meanwhile"@) && byte_len > 200
            ==> score_of(UserStyle::Narrative, lower, byte_len) == 10,
        !has_text(lower, "story"@) && !has_text(lower, "imagine"@) && !has_text(
            lower,
            "picture this"@,
        ) && !has_text(lower, "once upon"@) && !has_text(lower, "suddenly"@) && !has_text(
            lower,
            "meanwhile"@,
        ) ==> score_of(UserStyle::Narrative, lower, byte_len) == (if byte_len > 200 {
            2nat
        } else {
            0nat
        }),
        score_of(UserStyle::Narrative, lower, byte_len) <= 10,
{
}

/// Three or more '?' are worth 2.0 to the Socratic axis, one or two '?' 1.0,
/// and `why`, `how` or `what if` 1.0 more.
pub proof fn lemma_socratic_scoring(lower: Seq<char>, byte_len: nat)
    ensures
        count_char(lower, '?') >= 3 ==> score_of(UserStyle::Socratic, lower, byte_len) >= 4,
        count_char(lower, '?') >= 1 ==> score_of(UserStyle::Socratic, lower, byte_len) >= 2,
        has_text(lower, "why"@) ==> score_of(UserStyle::Socratic, lower, byte_len) >= 2,
        has_text(lower, "how"@) ==> score_of(UserStyle::Socratic, lower, byte_len) >= 2,
        has_text(lower, "what if"@) ==> score_of(UserStyle::Socratic, lower, byte_len) >= 2,
        count_char(lower, '?') >= 3 && has_text(lower, "why"@) ==> score_of(
            UserStyle::Socratic,
            lower,
            byte_len,
        ) == 6,
        !has_text(lower, "why"@) && !has_text(lower, "how"@) && !has_text(lower, "what if"@)
            ==> score_of(UserStyle::Socratic, lower, byte_len) == (if count_char(lower, '?') >= 3 {
            4nat
        } else if count_char(lower, '?') >= 1 {
            2nat
        } else {
            0nat
        }),
        count_char(lower, '?') < 3 ==> score_of(UserStyle::Socratic, lower, byte_len) <= 4,
        score_of(UserStyle::Socratic, lower, byte_len) <= 6,
        score_of(UserStyle::Socratic, lower, byte_len) == score_of(UserStyle::Socratic, lower, 0),
{
}

/// A text shorter than 15 bytes is worth 2.0 to the direct axis; starting with
/// `do `, `get `, `show ` or `tell ` 1.5; and having no '.', '?' or '!' while
/// shorter than 20 bytes 1.0.
pub proof fn lemma_direct_scoring(lower: Seq<char>, byte_len: nat)
    ensures
        byte_len < 15 ==> score_of(UserStyle::Direct, lower, byte_len) >= 4,
        begins_with(lower, "do "@) ==> score_of(UserStyle::Direct, lower, byte_len) >= 3,
        begins_with(lower, "get "@) ==> score_of(UserStyle::Direct, lower, byte_len) >= 3,
        begins_with(lower, "show "@) ==> score_of(UserStyle::Direct, lower, byte_len) >= 3,
        begins_with(lower, "tell "@) ==> score_of(UserStyle::Direct, lower, byte_len) >= 3,
        !lower.contains('.') && !lower.contains('?') && !lower.contains('!') && byte_len < 20
            ==> score_of(UserStyle::Direct, lower, byte_len) >= 2,
        (lower.contains('.') || lower.contains('?') || lower.contains('!')) && byte_len >= 15
            && !begins_with(lower, "do "@) && !begins_with(lower, "get "@) && !begins_with(
            lower,
            "show "@,
        ) && !begins_with(lower, "tell "@) ==> score_of(UserStyle::Direct, lower, byte_len) == 0,
        byte_len >= 20 && !begins_with(lower, "do "@) && !begins_with(lower, "get "@)
            && !begins_with(lower, "show "@) && !begins_with(lower, "tell "@) ==> score_of(
            UserStyle::Direct,
            lower,
            byte_len,
        ) == 0,
        begins_with(lower, "do "@) && !lower.contains('.') && !lower.contains('?')
            && !lower.contains('!') && byte_len < 15 ==> score_of(UserStyle::Direct, lower, byte_len)
            == 9,
        score_of(UserStyle::Direct, lower, byte_len) <= 9,
{
}

/// An empty text is scored as if it were one byte long, and `Mixed` is no
/// axis and never scores.
pub proof fn lemma_length_floor(lower: Seq<char>)
    ensures
        forall|style: UserStyle| #[trigger] score_of(style, lower, 0) == score_of(style, lower, 1),
        forall|byte_len: nat| #[trigger] score_of(UserStyle::Mixed, lower, byte_len) == 0,
{
}

/// An axis that scores more than every other axis decides the style; a text
/// that scores nothing anywhere is `Mixed`; and two axes sharing the top score
/// make it `Mixed`.
pub proof fn lemma_style_follows_scores(lower: Seq<char>, byte_len: nat)
    ensures
        forall|a: UserStyle, b: UserStyle|
            #![trigger score_of(a, lower, byte_len), score_of(b, lower, byte_len)]
            a != b && a != UserStyle::Mixed && b != UserStyle::Mixed && score_of(a, lower, byte_len)
                == score_of(b, lower, byte_len) && (forall|c: UserStyle|
                #[trigger] score_of(c, lower, byte_len) <= score_of(a, lower, byte_len))
                ==> spec_style(lower, byte_len) == UserStyle::Mixed,
        (forall|c: UserStyle| #[trigger] score_of(c, lower, byte_len) == 0) ==> spec_style(
            lower,
            byte_len,
        ) == UserStyle::Mixed,
        spec_style(lower, byte_len) != UserStyle::Mixed ==> forall|c: UserStyle|
            c != spec_style(lower, byte_len) ==> #[trigger] score_of(c, lower, byte_len)
                < score_of(spec_style(lower, byte_len), lower, byte_len),
{
    let w = spec_style(lower, byte_len);
    assert(score_of(UserStyle::Playful, lower, byte_len) >= 0);
    assert forall|a: UserStyle, b: UserStyle|
        #![trigger score_of(a, lower, byte_len), score_of(b, lower, byte_len)]
        a != b && a != UserStyle::Mixed && b != UserStyle::Mixed && score_of(a, lower, byte_len)
            == score_of(b, lower, byte_len) && (forall|c: UserStyle|
            #[trigger] score_of(c, lower, byte_len) <= score_of(a, lower, byte_len))
            implies spec_style(lower, byte_len) == UserStyle::Mixed by {
        assert(score_of(UserStyle::Playful, lower, byte_len) <= score_of(a, lower, byte_len));
        assert(score_of(UserStyle::Precise, lower, byte_len) <= score_of(a, lower, byte_len));
        assert(score_of(UserStyle::Narrative, lower, byte_len) <= score_of(a, lower, byte_len));
        assert(score_of(UserStyle::Socratic, lower, byte_len) <= score_of(a, lower, byte_len));
        assert(score_of(UserStyle::Direct, lower, byte_len) <= score_of(a, lower, byte_len));
    }
    if (forall|c: UserStyle| #[trigger] score_of(c, lower, byte_len) == 0) {
        assert(score_of(UserStyle::Playful, lower, byte_len) == 0);
        assert(score_of(UserStyle::Precise, lower, byte_len) == 0);
        assert(score_of(UserStyle::Narrative, lower, byte_len) == 0);
        assert(score_of(UserStyle::Socratic, lower, byte_len) == 0);
        assert(score_of(UserStyle::Direct, lower, byte_len) == 0);
    }
    if w != UserStyle::Mixed {
        assert forall|c: UserStyle| c != w implies #[trigger] score_of(c, lower, byte_len)
            < score_of(w, lower, byte_len) by {
            match c {
                UserStyle::Playful => {},
                UserStyle::Precise => {},
                UserStyle::Narrative => {},
                UserStyle::Socratic => {},
                UserStyle::Direct => {},
                UserStyle::Mixed => {},
            }
        }
    }
}

} // verus!
