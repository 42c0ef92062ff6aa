use lau_jepa_gravity::style::{detect_style, style_from_lowercase, UserStyle};

#[test]
fn signal_detects_playful() {
    assert_eq!(detect_style("lol that's hilarious 😂!!"), UserStyle::Playful);
}

#[test]
fn signal_detects_precise() {
    assert_eq!(
        detect_style("fix the bug in the calculate function precisely"),
        UserStyle::Precise
    );
}

#[test]
fn signal_detects_socratic() {
    assert_eq!(
        detect_style("why? how? what if we did it differently? could you explain?"),
        UserStyle::Socratic
    );
}

#[test]
fn signal_detects_direct() {
    assert_eq!(detect_style("do it"), UserStyle::Direct);
}

#[test]
fn signal_detects_mixed_for_neutral() {
    assert_eq!(
        detect_style("the weather is nice today and I went for a walk"),
        UserStyle::Mixed
    );
}

#[test]
fn detect_lowercases_before_matching() {
    // Upper-case keywords count only because the text is lower-cased first.
    assert_eq!(detect_style("LOL, THAT IS A GREAT ONE."), UserStyle::Playful);
    assert_eq!(style_from_lowercase("LOL, THAT IS A GREAT ONE.", 25), UserStyle::Precise);
}

#[test]
fn detect_tie_gives_mixed() {
    // playful 2.0 and narrative 2.0 tie for the highest score.
    assert_eq!(
        detect_style("lol, what a story this turned out to be in the end"),
        UserStyle::Mixed
    );
}

#[test]
fn detect_empty_text_is_direct() {
    // the length heuristics count at least one byte: direct 3.0 beats precise 0.5
    assert_eq!(detect_style(""), UserStyle::Direct);
}

#[test]
fn detect_long_narrative() {
    let mut text = String::from("once upon a time ");
    while text.len() <= 200 {
        text.push_str("there was a quiet village ");
    }
    assert_eq!(detect_style(&text), UserStyle::Narrative);
}

#[test]
fn detect_many_exclamations_add_to_playful() {
    // 'joke' 1.5 + three '!' 1.0 = 2.5 beats precise 0.5
    assert_eq!(detect_style("a joke!!!"), UserStyle::Playful);
    // with two '!' the direct short-text score 2.0 wins over joke 1.5
    assert_eq!(detect_style("a joke!!"), UserStyle::Direct);
}

#[test]
fn detect_length_counts_bytes() {
    // 14 characters but 17 bytes: not shorter than 15 bytes, so direct gets
    // only the no-punctuation point (1.0) and the emoji's playful 2.0 wins.
    assert_eq!(detect_style("😄 nice day all"), UserStyle::Playful);
}

#[test]
fn style_from_lowercase_direct_command() {
    assert_eq!(style_from_lowercase("show me the logs", 16), UserStyle::Direct);
}

#[test]
fn detect_readme_examples() {
    assert_eq!(detect_style("debug this error precisely"), UserStyle::Precise);
    assert_eq!(detect_style("lol that's hilarious 😂"), UserStyle::Playful);
    assert_eq!(detect_style("once upon a time, in a faraway land..."), UserStyle::Narrative);
}
