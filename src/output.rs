use vstd::prelude::*;
use vstd::utf8::encode_utf8;

use crate::join::{join_arguments, joined};

verus! {

/// A labelled part of an output text, given as the half-open byte range
/// `start..end` of the UTF-8 text.
pub struct OutputSection {
    pub start: usize,
    pub end: usize,
    pub label: String,
}

/// What a slash command hands back: its text and the sections over it.
pub struct SlashCommandOutput {
    pub text: String,
    pub sections: Vec<OutputSection>,
}

/// The label of the one section of every output.
pub open spec fn section_label() -> Seq<char> {
    "Wingman"@
}

/// The text put in front of the joined arguments.
pub open spec fn text_prefix() -> Seq<char> {
    "Wingman received: "@
}

/// The text of the output for `args`.
pub open spec fn output_text(args: Seq<String>) -> Seq<char> {
    text_prefix() + joined(args)
}

/// The number of bytes of `s` in UTF-8.
pub open spec fn utf8_len(s: Seq<char>) -> nat {
    encode_utf8(s).len()
}

/// The handler of the slash command.
pub struct WingmanExtension;

impl WingmanExtension {
    pub fn new() -> Self {
        WingmanExtension
    }

    /// Echoes the arguments: the text is the prefix followed by the arguments
    /// joined with single spaces, and one section labelled with the command's
    /// name spans the whole text.
    pub fn run_slash_command(&self, arguments: &[String]) -> (r: SlashCommandOutput)
        ensures
            r.text@ == output_text(arguments@),
            r.sections@.len() == 1,
            r.sections@[0].start == 0,
            r.sections@[0].end == utf8_len(r.text@) as usize,
            r.sections@[0].label@ == section_label(),
    {
        let prompt = join_arguments(arguments);
        let mut text = String::from_str("Wingman received: ");
        text.append(prompt.as_str());
        let end = text.as_str().len();
        let section = OutputSection { start: 0, end, label: String::from_str("Wingman") };
        SlashCommandOutput { text, sections: vec![section] }
    }
}

} // verus!
