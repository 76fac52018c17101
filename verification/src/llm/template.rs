//! The prompt templates and the names under which they are registered.

use vstd::prelude::*;
use crate::transcript::text::{trim, trimmed};

verus! {

/// A prompt template.
#[derive(Clone, Copy, Debug, PartialEq, Eq)]
pub enum Template {
    EnhanceSystem,
    EnhanceUser,
    CreateTitleSystem,
    CreateTitleUser,
    SuggestTagsSystem,
    SuggestTagsUser,
    ChatSystem,
    ChatUser,
    AutoGenerateTagsSystem,
    AutoGenerateTagsUser,
    PostprocessTranscriptSystem,
    PostprocessTranscriptUser,
}

impl Template {
    /// The name under which the template is registered.
    pub open spec fn name(self) -> Seq<char> {
        match self {
            Template::EnhanceSystem => "enhance.system"@,
            Template::EnhanceUser => "enhance.user"@,
            Template::CreateTitleSystem => "create_title.system"@,
            Template::CreateTitleUser => "create_title.user"@,
            Template::SuggestTagsSystem => "suggest_tags.system"@,
            Template::SuggestTagsUser => "suggest_tags.user"@,
            Template::ChatSystem => "chat.system"@,
            Template::ChatUser => "chat.user"@,
            Template::AutoGenerateTagsSystem => "auto_generate_tags.system"@,
            Template::AutoGenerateTagsUser => "auto_generate_tags.user"@,
            Template::PostprocessTranscriptSystem => "postprocess_transcript.system"@,
            Template::PostprocessTranscriptUser => "postprocess_transcript.user"@,
        }
    }

    /// The name under which the template is registered.
    pub fn as_str(&self) -> (n: &'static str)
        ensures
            n@ == self.name(),
    {
        match self {
            Template::EnhanceSystem => "enhance.system",
            Template::EnhanceUser => "enhance.user",
            Template::CreateTitleSystem => "create_title.system",
            Template::CreateTitleUser => "create_title.user",
            Template::SuggestTagsSystem => "suggest_tags.system",
            Template::SuggestTagsUser => "suggest_tags.user",
            Template::ChatSystem => "chat.system",
            Template::ChatUser => "chat.user",
            Template::AutoGenerateTagsSystem => "auto_generate_tags.system",
            Template::AutoGenerateTagsUser => "auto_generate_tags.user",
            Template::PostprocessTranscriptSystem => "postprocess_transcript.system",
            Template::PostprocessTranscriptUser => "postprocess_transcript.user",
        }
    }
}

/// The templates in the order in which the environment registers them.
pub open spec fn registration_order() -> Seq<Template> {
    seq![
        Template::EnhanceSystem,
        Template::EnhanceUser,
        Template::CreateTitleSystem,
        Template::CreateTitleUser,
        Template::SuggestTagsSystem,
        Template::SuggestTagsUser,
        Template::ChatSystem,
        Template::ChatUser,
        Template::AutoGenerateTagsSystem,
        Template::AutoGenerateTagsUser,
        Template::PostprocessTranscriptSystem,
        Template::PostprocessTranscriptUser,
    ]
}

/// The templates that make up the environment, in the order in which they
/// are registered.
pub fn registered_templates() -> (out: Vec<Template>)
    ensures
        out@ == registration_order(),
{
    let mut out: Vec<Template> = Vec::new();
    out.push(Template::EnhanceSystem);
    out.push(Template::EnhanceUser);
    out.push(Template::CreateTitleSystem);
    out.push(Template::CreateTitleUser);
    out.push(Template::SuggestTagsSystem);
    out.push(Template::SuggestTagsUser);
    out.push(Template::ChatSystem);
    out.push(Template::ChatUser);
    out.push(Template::AutoGenerateTagsSystem);
    out.push(Template::AutoGenerateTagsUser);
    out.push(Template::PostprocessTranscriptSystem);
    out.push(Template::PostprocessTranscriptUser);
    assert(out@ =~= registration_order());
    out
}

/// What a rendering becomes on its way to the caller: the text trimmed, a
/// failure as it is.
pub fn finish_render(rendered: Result<String, String>) -> (out: Result<String, String>)
    ensures
        match (rendered, out) {
            (Ok(text), Ok(t)) => t@ == trimmed(text@),
            (Err(e), Err(f)) => e == f,
            _ => false,
        },
{
    match rendered {
        Ok(text) => Ok(trim(text.as_str())),
        Err(e) => Err(e),
    }
}

} // verus!
