use vstd::prelude::*;

verus! {

/// The style of system prompt that a set of model parameters asks for.
#[derive(Debug, Clone, Copy, PartialEq, Eq, Structural)]
pub enum PromptStyle {
    Technical,
    Conversational,
    Creative,
    Socratic,
    Narrative,
    Minimal,
}

/// The instruction text that belongs to each prompt style.
pub open spec fn spec_prompt_text(style: PromptStyle) -> Seq<char> {
    match style {
        PromptStyle::Technical => "Be precise, cite sources, show work"@,
        PromptStyle::Conversational => "Be friendly, use examples, be helpful"@,
        PromptStyle::Creative => "Be imaginative, use metaphors, surprise me"@,
        PromptStyle::Socratic => "Ask questions, guide discovery, don't give answers"@,
        PromptStyle::Narrative => "Tell a story, use vivid language, paint pictures"@,
        PromptStyle::Minimal => "Be brief, just the facts, no filler"@,
    }
}

impl PromptStyle {
    /// The system-prompt instruction for this style.
    pub fn prompt_text(&self) -> (text: &'static str)
        ensures
            text@ == spec_prompt_text(*self),
    {
        match self {
            PromptStyle::Technical => "Be precise, cite sources, show work",
            PromptStyle::Conversational => "Be friendly, use examples, be helpful",
            PromptStyle::Creative => "Be imaginative, use metaphors, surprise me",
            PromptStyle::Socratic => "Ask questions, guide discovery, don't give answers",
            PromptStyle::Narrative => "Tell a story, use vivid language, paint pictures",
            PromptStyle::Minimal => "Be brief, just the facts, no filler",
        }
    }
}

} // verus!
