use vstd::prelude::*;

use crate::text::{
    begins_with, chars_of, contains_text, count_char, count_in, has_char_in, has_text,
    starts_with_text,
};

verus! {

/// How a user communicates, as told from the text of a message.
#[derive(Debug, Clone, Copy, PartialEq, Eq, Structural)]
pub enum UserStyle {
    Playful,
    Precise,
    Narrative,
    Socratic,
    Direct,
    Mixed,
}

// Scores are counted in half points: a keyword group worth 2.0 adds 4,
// one worth 1.5 adds 3, one worth 1.0 adds 2 and one worth 0.5 adds 1.

/// The length that the length heuristics compare: the text's length in bytes,
/// and at least 1.
pub open spec fn effective_len(byte_len: nat) -> nat {
    if byte_len == 0 { 1 } else { byte_len }
}

/// Score of the playful axis, in half points, of the lower-cased text.
pub open spec fn playful_score(lower: Seq<char>) -> nat {
    (if has_text(lower, "lol"@) || has_text(lower, "haha"@) || has_text(lower, "\u{1F602}"@)
        || has_text(lower, "\u{1F604}"@) {
        4nat
    } else {
        0nat
    }) + (if has_text(lower, "pun"@) || has_text(lower, "joke"@) || has_text(lower, "funny"@) {
        3nat
    } else {
        0nat
    }) + (if count_char(lower, '!') > 2 {
        2nat
    } else {
        0nat
    })
}

/// Score of the precise axis, in half points.
pub open spec fn precise_score(lower: Seq<char>, len: nat) -> nat {
    (if has_text(lower, "exactly"@) || has_text(lower, "precisely"@) || has_text(
        lower,
        "specifically"@,
    ) {
        4nat
    } else {
        0nat
    }) + (if has_text(lower, "error"@) || has_text(lower, "bug"@) || has_text(lower, "fix"@)
        || has_text(lower, "debug"@) {
        3nat
    } else {
        0nat
    }) + (if has_text(lower, "calculate"@) || has_text(lower, "measure"@) || has_text(
        lower,
        "define"@,
    ) {
        3nat
    } else {
        0nat
    }) + (if len < 30 {
        1nat
    } else {
        0nat
    })
}

/// Score of the narrative axis, in half points.
pub open spec fn narrative_score(lower: Seq<char>, len: nat) -> nat {
    (if has_text(lower, "story"@) || has_text(lower, "imagine"@) || has_text(
        lower,
        "picture this"@,
    ) {
        4nat
    } else {
        0nat
    }) + (if has_text(lower, "once upon"@) || has_text(lower, "suddenly"@) || has_text(
        lower,
        "meanwhile"@,
    ) {
        4nat
    } else {
        0nat
    }) + (if len > 200 {
        2nat
    } else {
        0nat
    })
}

/// Score of the Socratic axis, in half points.
pub open spec fn socratic_score(lower: Seq<char>) -> nat {
    (if count_char(lower, '?') >= 3 {
        4nat
    } else if count_char(lower, '?') >= 1 {
        2nat
    } else {
        0nat
    }) + (if has_text(lower, "why"@) || has_text(lower, "how"@) || has_text(lower, "what if"@) {
        2nat
    } else {
        0nat
    })
}

/// Score of the direct axis, in half points.
pub open spec fn direct_score(lower: Seq<char>, len: nat) -> nat {
    (if len < 15 {
        4nat
    } else {
        0nat
    }) + (if begins_with(lower, "do "@) || begins_with(lower, "get "@) || begins_with(
        lower,
        "show "@,
    ) || begins_with(lower, "tell "@) {
        3nat
    } else {
        0nat
    }) + (if !lower.contains('.') && !lower.contains('?') && !lower.contains('!') && len < 20 {
        2nat
    } else {
        0nat
    })
}

/// The score of one axis; `Mixed` is no axis and scores nothing.
pub open spec fn score_of(style: UserStyle, lower: Seq<char>, byte_len: nat) -> nat {
    let len: nat = effective_len(byte_len);
    match style {
        UserStyle::Playful => playful_score(lower),
        UserStyle::Precise => precise_score(lower, len),
        UserStyle::Narrative => narrative_score(lower, len),
        UserStyle::Socratic => socratic_score(lower),
        UserStyle::Direct => direct_score(lower, len),
        UserStyle::Mixed => 0,
    }
}

/// The style told from lower-cased text whose original has `byte_len` bytes:
/// the one axis whose positive score is higher than every other axis's score,
/// and `Mixed` when no score is positive or the highest is shared.
pub open spec fn spec_style(lower: Seq<char>, byte_len: nat) -> UserStyle {
    let p: nat = score_of(UserStyle::Playful, lower, byte_len);
    let q: nat = score_of(UserStyle::Precise, lower, byte_len);
    let n: nat = score_of(UserStyle::Narrative, lower, byte_len);
    let s: nat = score_of(UserStyle::Socratic, lower, byte_len);
    let d: nat = score_of(UserStyle::Direct, lower, byte_len);
    if p > 0 && p > q && p > n && p > s && p > d {
        UserStyle::Playful
    } else if q > 0 && q > p && q > n && q > s && q > d {
        UserStyle::Precise
    } else if n > 0 && n > p && n > q && n > s && n > d {
        UserStyle::Narrative
    } else if s > 0 && s > p && s > q && s > n && s > d {
        UserStyle::Socratic
    } else if d > 0 && d > p && d > q && d > n && d > s {
        UserStyle::Direct
    } else {
        UserStyle::Mixed
    }
}

/// Text in which `style` scores above zero and above every other axis.
pub open spec fn strictly_leads(style: UserStyle, lower: Seq<char>, byte_len: nat) -> bool {
    &&& score_of(style, lower, byte_len) > 0
    &&& forall|other: UserStyle|
        other != style ==> #[trigger] score_of(other, lower, byte_len) < score_of(
            style,
            lower,
            byte_len,
        )
}

/// The lower-case form of a text, as `str::to_lowercase` computes it.
pub uninterp spec fn lowercase_of(text: Seq<char>) -> Seq<char>;

/// Calls `str::to_lowercase` of std. The contract claims only that the result
/// is the same for the same text (it is named `lowercase_of`); the Unicode
/// case mapping itself is left unstated.
#[verifier::external_body]
fn lowercase(text: &str) -> (lower: String)
    ensures
        lower@ == lowercase_of(text@),
{
    text.to_lowercase()
}

/// Playful points of lower-cased text.
fn playful_points(t: &Vec<char>) -> (points: u32)
    ensures
        points == playful_score(t@),
{
    let mut points: u32 = 0;
    if contains_text(t, "lol") || contains_text(t, "haha") || contains_text(t, "\u{1F602}")
        || contains_text(t, "\u{1F604}") {
        points = points + 4;
    }
    if contains_text(t, "pun") || contains_text(t, "joke") || contains_text(t, "funny") {
        points = points + 3;
    }
    if count_in(t, '!') > 2 {
        points = points + 2;
    }
    points
}

/// Precise points of lower-cased text.
fn precise_points(t: &Vec<char>, len: usize) -> (points: u32)
    ensures
        points == precise_score(t@, len as nat),
{
    let mut points: u32 = 0;
    if contains_text(t, "exactly") || contains_text(t, "precisely") || contains_text(
        t,
        "specifically",
    ) {
        points = points + 4;
    }
    if contains_text(t, "error") || contains_text(t, "bug") || contains_text(t, "fix")
        || contains_text(t, "debug") {
        points = points + 3;
    }
    if contains_text(t, "calculate") || contains_text(t, "measure") || contains_text(t, "define") {
        points = points + 3;
    }
    if len < 30 {
        points = points + 1;
    }
    points
}

/// Narrative points of lower-cased text.
fn narrative_points(t: &Vec<char>, len: usize) -> (points: u32)
    ensures
        points == narrative_score(t@, len as nat),
{
    let mut points: u32 = 0;
    if contains_text(t, "story") || contains_text(t, "imagine") || contains_text(
        t,
        "picture this",
    ) {
        points = points + 4;
    }
    if contains_text(t, "once upon") || contains_text(t, "suddenly") || contains_text(
        t,
        "meanwhile",
    ) {
        points = points + 4;
    }
    if len > 200 {
        points = points + 2;
    }
    points
}

/// Socratic points of lower-cased text.
fn socratic_points(t: &Vec<char>) -> (points: u32)
    ensures
        points == socratic_score(t@),
{
    let mut points: u32 = 0;
    let questions: usize = count_in(t, '?');
    if questions >= 3 {
        points = points + 4;
    } else if questions >= 1 {
        points = points + 2;
    }
    if contains_text(t, "why") || contains_text(t, "how") || contains_text(t, "what if") {
        points = points + 2;
    }
    points
}

/// Direct points of lower-cased text.
fn direct_points(t: &Vec<char>, len: usize) -> (points: u32)
    ensures
        points == direct_score(t@, len as nat),
{
    let mut points: u32 = 0;
    if len < 15 {
        points = points + 4;
    }
    if starts_with_text(t, "do ") || starts_with_text(t, "get ") || starts_with_text(t, "show ")
        || starts_with_text(t, "tell ") {
        points = points + 3;
    }
    if !has_char_in(t, '.') && !has_char_in(t, '?') && !has_char_in(t, '!') && len < 20 {
        points = points + 2;
    }
    points
}

/// Tells the user's style from text that is already lower-cased; `byte_len`
/// is the length in bytes of the text before lower-casing.
pub fn style_from_lowercase(lower: &str, byte_len: usize) -> (style: UserStyle)
    ensures
        style == spec_style(lower@, byte_len as nat),
{
    let t = chars_of(lower);
    let len: usize = if byte_len == 0 { 1 } else { byte_len };
    let p: u32 = playful_points(&t);
    let q: u32 = precise_points(&t, len);
    let n: u32 = narrative_points(&t, len);
    let s: u32 = socratic_points(&t);
    let d: u32 = direct_points(&t, len);
    pick_leader(p, q, n, s, d)
}

/// The axis with the highest score, or `Mixed` when the highest is zero or shared.
fn pick_leader(p: u32, q: u32, n: u32, s: u32, d: u32) -> (style: UserStyle)
    ensures
        style == (if p > 0 && p > q && p > n && p > s && p > d {
            UserStyle::Playful
        } else if q > 0 && q > p && q > n && q > s && q > d {
            UserStyle::Precise
        } else if n > 0 && n > p && n > q && n > s && n > d {
            UserStyle::Narrative
        } else if s > 0 && s > p && s > q && s > n && s > d {
            UserStyle::Socratic
        } else if d > 0 && d > p && d > q && d > n && d > s {
            UserStyle::Direct
        } else {
            UserStyle::Mixed
        }),
{
    let mut max: u32 = 0;
    if p > max {
        max = p;
    }
    if q > max {
        max = q;
    }
    if n > max {
        max = n;
    }
    if s > max {
        max = s;
    }
    if d > max {
        max = d;
    }
    if max == 0 {
        return UserStyle::Mixed;
    }
    let mut winners: u32 = 0;
    if p == max {
        winners = winners + 1;
    }
    if q == max {
        winners = winners + 1;
    }
    if n == max {
        winners = winners + 1;
    }
    if s == max {
        winners = winners + 1;
    }
    if d == max {
        winners = winners + 1;
    }
    if winners > 1 {
        return UserStyle::Mixed;
    }
    if p == max {
        UserStyle::Playful
    } else if q == max {
        UserStyle::Precise
    } else if n == max {
        UserStyle::Narrative
    } else if s == max {
        UserStyle::Socratic
    } else {
        UserStyle::Direct
    }
}

/// Tells how a user communicates from the text of a message: the text is
/// lower-cased, scored on the playful, precise, narrative, Socratic and direct
/// axes, and the single highest-scoring axis wins.
pub fn detect_style(text: &str) -> (style: UserStyle)
    ensures
        style == spec_style(lowercase_of(text@), text.len() as nat),
{
    let lower = lowercase(text);
    let byte_len: usize = text.len();
    style_from_lowercase(lower.as_str(), byte_len)
}

/// What `strictly_leads` says, with each of the five axes named.
proof fn lemma_leads_unfolded(style: UserStyle, lower: Seq<char>, byte_len: nat)
    ensures
        strictly_leads(style, lower, byte_len) <==> {
            let v: nat = score_of(style, lower, byte_len);
            &&& v > 0
            &&& style != UserStyle::Playful ==> score_of(UserStyle::Playful, lower, byte_len) < v
            &&& style != UserStyle::Precise ==> score_of(UserStyle::Precise, lower, byte_len) < v
            &&& style != UserStyle::Narrative ==> score_of(UserStyle::Narrative, lower, byte_len)
                < v
            &&& style != UserStyle::Socratic ==> score_of(UserStyle::Socratic, lower, byte_len)
                < v
            &&& style != UserStyle::Direct ==> score_of(UserStyle::Direct, lower, byte_len) < v
        },
{
    let v: nat = score_of(style, lower, byte_len);
    if v > 0 && (style != UserStyle::Playful ==> score_of(UserStyle::Playful, lower, byte_len) < v)
        && (style != UserStyle::Precise ==> score_of(UserStyle::Precise, lower, byte_len) < v) && (
    style != UserStyle::Narrative ==> score_of(UserStyle::Narrative, lower, byte_len) < v) && (
    style != UserStyle::Socratic ==> score_of(UserStyle::Socratic, lower, byte_len) < v) && (style
        != UserStyle::Direct ==> score_of(UserStyle::Direct, lower, byte_len) < v) {
        assert forall|other: UserStyle| other != style implies #[trigger] score_of(
            other,
            lower,
            byte_len,
        ) < v by {
            match other {
                UserStyle::Playful => {},
                UserStyle::Precise => {},
                UserStyle::Narrative => {},
                UserStyle::Socratic => {},
                UserStyle::Direct => {},
                UserStyle::Mixed => {},
            }
        }
    }
    if strictly_leads(style, lower, byte_len) {
        assert(score_of(UserStyle::Playful, lower, byte_len) < v || style == UserStyle::Playful);
        assert(score_of(UserStyle::Precise, lower, byte_len) < v || style == UserStyle::Precise);
        assert(score_of(UserStyle::Narrative, lower, byte_len) < v || style
            == UserStyle::Narrative);
        assert(score_of(UserStyle::Socratic, lower, byte_len) < v || style == UserStyle::Socratic);
        assert(score_of(UserStyle::Direct, lower, byte_len) < v || style == UserStyle::Direct);
    }
}

/// The highest-scoring axis wins; a tie for the highest, or no positive
/// score at all, gives `Mixed`.
pub proof fn lemma_highest_axis_wins(lower: Seq<char>, byte_len: nat)
    ensures
        forall|style: UserStyle|
            style != UserStyle::Mixed ==> (#[trigger] strictly_leads(style, lower, byte_len)
                <==> spec_style(lower, byte_len) == style),
        spec_style(lower, byte_len) == UserStyle::Mixed <==> forall|style: UserStyle|
            !#[trigger] strictly_leads(style, lower, byte_len),
{
    lemma_leads_unfolded(UserStyle::Playful, lower, byte_len);
    lemma_leads_unfolded(UserStyle::Precise, lower, byte_len);
    lemma_leads_unfolded(UserStyle::Narrative, lower, byte_len);
    lemma_leads_unfolded(UserStyle::Socratic, lower, byte_len);
    lemma_leads_unfolded(UserStyle::Direct, lower, byte_len);
    lemma_leads_unfolded(UserStyle::Mixed, lower, byte_len);
    assert forall|style: UserStyle|
        style != UserStyle::Mixed implies (#[trigger] strictly_leads(style, lower, byte_len)
            <==> spec_style(lower, byte_len) == style) by {
        match style {
            UserStyle::Playful => {},
            UserStyle::Precise => {},
            UserStyle::Narrative => {},
            UserStyle::Socratic => {},
            UserStyle::Direct => {},
            UserStyle::Mixed => {},
        }
    }
    if spec_style(lower, byte_len) == UserStyle::Mixed {
        assert forall|style: UserStyle| !#[trigger] strictly_leads(style, lower, byte_len) by {
            match style {
                UserStyle::Playful => {},
                UserStyle::Precise => {},
                UserStyle::Narrative => {},
                UserStyle::Socratic => {},
                UserStyle::Direct => {},
                UserStyle::Mixed => {},
            }
        }
    } else {
        let w = spec_style(lower, byte_len);
        assert(strictly_leads(w, lower, byte_len));
    }
}

} // verus!
