//! The tasks put to a language model: which templates each one renders,
//! which grammar constrains its answer, and what is made of the answer.

use vstd::prelude::*;
use vstd::string::StringExecFns;
use crate::llm::template::Template;

verus! {

/// A task put to the model.
#[derive(Clone, Copy, Debug, PartialEq, Eq)]
pub enum Task {
    GenerateTitle,
    GenerateTags,
    PostprocessTranscript,
}

/// A grammar that constrains the model's answer.
#[derive(Clone, Copy, Debug, PartialEq, Eq)]
pub enum Grammar {
    Title,
    Tags,
}

/// One piece of what the model yields.
#[derive(Clone, Debug)]
pub enum Response {
    /// More text of the answer.
    TextDelta(String),
    /// Anything else.
    Other,
}

/// The templates of a task: for the system message, then for the user's.
pub fn task_templates(task: Task) -> (out: (Template, Template))
    ensures
        out == match task {
            Task::GenerateTitle => (Template::CreateTitleSystem, Template::CreateTitleUser),
            Task::GenerateTags => (Template::SuggestTagsSystem, Template::SuggestTagsUser),
            Task::PostprocessTranscript => (
                Template::PostprocessTranscriptSystem,
                Template::PostprocessTranscriptUser,
            ),
        },
{
    match task {
        Task::GenerateTitle => (Template::CreateTitleSystem, Template::CreateTitleUser),
        Task::GenerateTags => (Template::SuggestTagsSystem, Template::SuggestTagsUser),
        Task::PostprocessTranscript => (
            Template::PostprocessTranscriptSystem,
            Template::PostprocessTranscriptUser,
        ),
    }
}

/// The grammar of a task's answer: a title and tags are constrained, a
/// transcript is not.
pub fn task_grammar(task: Task) -> (out: Option<Grammar>)
    ensures
        out == match task {
            Task::GenerateTitle => Some(Grammar::Title),
            Task::GenerateTags => Some(Grammar::Tags),
            Task::PostprocessTranscript => None::<Grammar>,
        },
{
    match task {
        Task::GenerateTitle => Some(Grammar::Title),
        Task::GenerateTags => Some(Grammar::Tags),
        Task::PostprocessTranscript => None,
    }
}

/// The text of the answer: the text pieces, joined in order.
pub open spec fn answer_text(responses: Seq<Response>) -> Seq<char>
    decreases responses.len(),
{
    if responses.len() == 0 {
        Seq::empty()
    } else {
        answer_text(responses.drop_last()) + match responses.last() {
            Response::TextDelta(t) => t@,
            Response::Other => Seq::empty(),
        }
    }
}

/// Joins the text pieces of what the model yielded.
pub fn collect_text(responses: &Vec<Response>) -> (out: String)
    ensures
        out@ == answer_text(responses@),
{
    let mut out = String::new();
    let mut i: usize = 0;
    assert(responses@.take(0) =~= Seq::<Response>::empty());
    while i < responses.len()
        invariant
            i <= responses.len(),
            out@ == answer_text(responses@.take(i as int)),
        decreases responses.len() - i,
    {
        proof {
            assert(responses@.take(i + 1).drop_last() =~= responses@.take(i as int));
        }
        match &responses[i] {
            Response::TextDelta(t) => {
                out.append(t.as_str());
            },
            Response::Other => {
                assert(out@ + Seq::<char>::empty() =~= out@);
            },
        }
        i += 1;
    }
    assert(responses@.take(responses.len() as int) =~= responses@);
    out
}

/// The title a model's answer stands for: its text.
pub fn generate_title(responses: &Vec<Response>) -> (out: String)
    ensures
        out@ == answer_text(responses@),
{
    collect_text(responses)
}

/// The transcript a model's answer stands for: its text.
pub fn postprocess_transcript(responses: &Vec<Response>) -> (out: String)
    ensures
        out@ == answer_text(responses@),
{
    collect_text(responses)
}

/// `serde_json::Error`, carried as it is: nothing inside it is looked at.
#[verifier::external_type_specification]
#[verifier::external_body]
pub struct ExJsonError(serde_json::Error);

/// The list of strings that `text` is as JSON, where it is one.
pub uninterp spec fn json_string_list(text: Seq<char>) -> Option<Seq<Seq<char>>>;

/// The contents of a list of strings.
pub open spec fn strings_view(list: Seq<String>) -> Seq<Seq<char>> {
    list.map_values(|s: String| s@)
}

/// `serde_json::from_str` at `Vec<String>`: reads `text` as a JSON array of
/// strings. The contract names what it reads and says that it fails exactly
/// where the text is no such array.
#[verifier::external_body]
fn parse_string_list(text: &str) -> (out: Result<Vec<String>, serde_json::Error>)
    ensures
        match out {
            Ok(list) => json_string_list(text@) == Some(strings_view(list@)),
            Err(_) => json_string_list(text@) is None,
        },
{
    serde_json::from_str::<Vec<String>>(text)
}

/// The tags that were read, or none where reading failed.
pub fn tags_or_default<E>(parsed: Result<Vec<String>, E>) -> (out: Vec<String>)
    ensures
        out@ == match parsed {
            Ok(list) => list@,
            Err(_) => Seq::<String>::empty(),
        },
{
    match parsed {
        Ok(list) => list,
        Err(_) => Vec::new(),
    }
}

/// The tags a model's answer stands for: its text read as a JSON array of
/// strings, and no tags where it is none.
pub fn generate_tags(responses: &Vec<Response>) -> (out: Vec<String>)
    ensures
        strings_view(out@) == match json_string_list(answer_text(responses@)) {
            Some(list) => list,
            None => Seq::<Seq<char>>::empty(),
        },
{
    let text = collect_text(responses);
    let out = tags_or_default(parse_string_list(text.as_str()));
    assert(strings_view(Seq::<String>::empty()) =~= Seq::<Seq<char>>::empty());
    out
}

} // verus!
