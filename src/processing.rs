//! How a transcript is transformed before it is handed on.
use vstd::prelude::*;

verus! {

/// Transformation applied to a transcript before it is copied.
#[derive(Debug, Clone, Copy, PartialEq, Eq, Structural)]
pub enum ProcessingMode {
    /// The transcript as it is.
    Normal,
    /// snake_case, filler words removed.
    Coding,
    /// Markdown lists and structure.
    Markdown,
    /// A custom language-model rewrite.
    Prompt,
}

impl Default for ProcessingMode {
    fn default() -> (r: ProcessingMode)
        ensures
            r == ProcessingMode::Normal,
    {
        ProcessingMode::Normal
    }
}

pub open spec fn mode_label(m: ProcessingMode) -> Seq<char> {
    match m {
        ProcessingMode::Normal => "Normal"@,
        ProcessingMode::Coding => "Coding"@,
        ProcessingMode::Markdown => "Markdown"@,
        ProcessingMode::Prompt => "Prompt"@,
    }
}

pub open spec fn mode_description(m: ProcessingMode) -> Seq<char> {
    match m {
        ProcessingMode::Normal => "Raw transcription, no changes"@,
        ProcessingMode::Coding => "Code-friendly: snake_case, remove fillers"@,
        ProcessingMode::Markdown => "Format as markdown lists and structure"@,
        ProcessingMode::Prompt => "Apply custom transformation prompt"@,
    }
}

impl ProcessingMode {
    pub fn label(&self) -> (r: &'static str)
        ensures
            r@ == mode_label(*self),
    {
        proof {
            reveal_strlit("Normal");
            reveal_strlit("Coding");
            reveal_strlit("Markdown");
            reveal_strlit("Prompt");
        }
        match self {
            ProcessingMode::Normal => "Normal",
            ProcessingMode::Coding => "Coding",
            ProcessingMode::Markdown => "Markdown",
            ProcessingMode::Prompt => "Prompt",
        }
    }

    pub fn description(&self) -> (r: &'static str)
        ensures
            r@ == mode_description(*self),
    {
        proof {
            reveal_strlit("Raw transcription, no changes");
            reveal_strlit("Code-friendly: snake_case, remove fillers");
            reveal_strlit("Format as markdown lists and structure");
            reveal_strlit("Apply custom transformation prompt");
        }
        match self {
            ProcessingMode::Normal => "Raw transcription, no changes",
            ProcessingMode::Coding => "Code-friendly: snake_case, remove fillers",
            ProcessingMode::Markdown => "Format as markdown lists and structure",
            ProcessingMode::Prompt => "Apply custom transformation prompt",
        }
    }

    /// Every mode, in menu order.
    pub fn all() -> (r: [ProcessingMode; 4])
        ensures
            r@ == seq![
                ProcessingMode::Normal,
                ProcessingMode::Coding,
                ProcessingMode::Markdown,
                ProcessingMode::Prompt,
            ],
    {
        let r = [
            ProcessingMode::Normal,
            ProcessingMode::Coding,
            ProcessingMode::Markdown,
            ProcessingMode::Prompt,
        ];
        assert(r@ =~= seq![
            ProcessingMode::Normal,
            ProcessingMode::Coding,
            ProcessingMode::Markdown,
            ProcessingMode::Prompt,
        ]);
        r
    }
}

/// Outcome of a rewrite: the new text, or the original with the reason it
/// was kept.
#[derive(Debug, Clone)]
pub enum ProcessResult {
    Success(String),
    Fallback { original: String, reason: String },
}

impl ProcessResult {
    /// The text to use.
    pub fn text(self) -> (r: String)
        ensures
            self is Success ==> r == self->Success_0,
            self is Fallback ==> r == self->original,
    {
        match self {
            ProcessResult::Success(text) => text,
            ProcessResult::Fallback { original, .. } => original,
        }
    }
}

} // verus!
