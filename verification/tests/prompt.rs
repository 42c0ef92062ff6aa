use lau_jepa_gravity::prompt::PromptStyle;

#[test]
fn prompt_style_text() {
    assert!(!PromptStyle::Technical.prompt_text().is_empty());
    assert!(!PromptStyle::Creative.prompt_text().is_empty());
}

#[test]
fn prompt_style_text_exact() {
    assert_eq!(PromptStyle::Technical.prompt_text(), "Be precise, cite sources, show work");
    assert_eq!(PromptStyle::Conversational.prompt_text(), "Be friendly, use examples, be helpful");
    assert_eq!(PromptStyle::Creative.prompt_text(), "Be imaginative, use metaphors, surprise me");
    assert_eq!(
        PromptStyle::Socratic.prompt_text(),
        "Ask questions, guide discovery, don't give answers"
    );
    assert_eq!(
        PromptStyle::Narrative.prompt_text(),
        "Tell a story, use vivid language, paint pictures"
    );
    assert_eq!(PromptStyle::Minimal.prompt_text(), "Be brief, just the facts, no filler");
}
