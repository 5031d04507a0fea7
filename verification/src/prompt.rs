//! Commands a user may put into the last prompt of a chat request.

use crate::text::{
    chars_of, count_run_back, count_run_from, ends_with, ends_with_chars, run_from, slice_of,
    string_of, strip_prefix_chars, strip_prefix_of, trim_end_of, CharClass,
};
use vstd::prelude::*;
use vstd::string::*;

verus! {

/// What the last user prompt asks of the gateway.
#[derive(Debug, Clone, PartialEq)]
pub enum PromptCommand {
    /// Stop the backend.
    Stop,
    /// Route to `alias`, and send `prompt` in place of the text.
    Model { alias: String, prompt: String },
    /// Nothing: the text is a prompt and no more.
    Plain,
}

/// Mathematical model of [`PromptCommand`].
pub ghost enum PromptCommandModel {
    Stop,
    Model { alias: Seq<char>, prompt: Seq<char> },
    Plain,
}

impl View for PromptCommand {
    type V = PromptCommandModel;

    open spec fn view(&self) -> PromptCommandModel {
        match *self {
            PromptCommand::Stop => PromptCommandModel::Stop,
            PromptCommand::Model { alias, prompt } => PromptCommandModel::Model {
                alias: alias@,
                prompt: prompt@,
            },
            PromptCommand::Plain => PromptCommandModel::Plain,
        }
    }
}

/// Whether a text ends in the stop command: `/stop` stands at its end, with
/// white space behind it at most.
pub open spec fn is_stop_command(text: Seq<char>) -> bool {
    ends_with(trim_end_of(text, CharClass::Space), "/stop"@)
}

/// The model command in a text, if there is one: the text begins with
/// `/model ` and a word follows, after white space at most. The word is the
/// alias; the prompt is what stands behind the word, less the white space
/// in front of it.
pub open spec fn model_command(text: Seq<char>) -> Option<(Seq<char>, Seq<char>)> {
    match strip_prefix_of(text, "/model "@) {
        Some(rest) => {
            let begin = run_from(rest, 0, CharClass::Space) as int;
            let end = begin + run_from(rest, begin, CharClass::Word);
            let after = end + run_from(rest, end, CharClass::Space);
            if end > begin {
                Some((rest.subrange(begin, end), rest.subrange(after, rest.len() as int)))
            } else {
                None
            }
        },
        None => None,
    }
}

/// The command in a text: stop takes precedence over a model command.
pub open spec fn spec_command(text: Seq<char>) -> PromptCommandModel {
    if is_stop_command(text) {
        PromptCommandModel::Stop
    } else {
        match model_command(text) {
            Some((alias, prompt)) => PromptCommandModel::Model { alias, prompt },
            None => PromptCommandModel::Plain,
        }
    }
}

/// Whether the text asks to stop the backend.
pub fn check_user_prompt_for_stop_llamacpp(text: &str) -> (r: bool)
    ensures
        r == is_stop_command(text@),
{
    let chars = chars_of(text);
    let behind = count_run_back(&chars, chars.len(), CharClass::Space);
    let trimmed = slice_of(&chars, 0, chars.len() - behind);
    ends_with_chars(&trimmed, &chars_of("/stop"))
}

/// The model override in the text, with the prompt that is left once the
/// command is taken out.
pub fn extract_model_override_from_last_user_text(text: &str) -> (r: Option<(String, String)>)
    ensures
        match r {
            Some((alias, prompt)) => model_command(text@) == Some((alias@, prompt@)),
            None => model_command(text@) is None,
        },
{
    let chars = chars_of(text);
    match strip_prefix_chars(&chars, &chars_of("/model ")) {
        Some(rest) => {
            let begin = count_run_from(&rest, 0, CharClass::Space);
            let word = count_run_from(&rest, begin, CharClass::Word);
            if word == 0 {
                return None;
            }
            let end = begin + word;
            let gap = count_run_from(&rest, end, CharClass::Space);
            let alias = string_of(&slice_of(&rest, begin, end));
            let prompt = string_of(&slice_of(&rest, end + gap, rest.len()));
            Some((alias, prompt))
        },
        None => None,
    }
}

/// Reads the command in a user's text.
pub fn read_prompt_command(text: &str) -> (command: PromptCommand)
    ensures
        command@ == spec_command(text@),
{
    if check_user_prompt_for_stop_llamacpp(text) {
        PromptCommand::Stop
    } else {
        match extract_model_override_from_last_user_text(text) {
            Some((alias, prompt)) => PromptCommand::Model { alias, prompt },
            None => PromptCommand::Plain,
        }
    }
}

/// Position of the last message that is a user's text, if there is one.
/// Each message is given as its text if it is a user's text message, and as
/// nothing otherwise.
pub open spec fn last_user_text(messages: Seq<Option<Seq<char>>>) -> Option<int>
    decreases messages.len(),
{
    if messages.len() == 0 {
        None
    } else if messages.last() is Some {
        Some(messages.len() - 1)
    } else {
        last_user_text(messages.drop_last())
    }
}

/// What to do with a chat request.
#[derive(Debug, Clone, PartialEq)]
pub enum ChatPlan {
    /// Stop the backend and answer with the notice that nothing runs.
    Stop,
    /// Make sure `model` is served, then forward the request; if `rewrite`
    /// is present, with the text of the message at that position replaced.
    Forward { model: String, rewrite: Option<(usize, String)> },
}

/// Mathematical model of [`ChatPlan`].
pub ghost enum ChatPlanModel {
    Stop,
    Forward { model: Seq<char>, rewrite: Option<(int, Seq<char>)> },
}

/// What a rewrite stands for.
pub open spec fn rewrite_view(r: Option<(usize, String)>) -> Option<(int, Seq<char>)> {
    match r {
        Some((at, text)) => Some((at as int, text@)),
        None => None,
    }
}

impl View for ChatPlan {
    type V = ChatPlanModel;

    open spec fn view(&self) -> ChatPlanModel {
        match *self {
            ChatPlan::Stop => ChatPlanModel::Stop,
            ChatPlan::Forward { model, rewrite } => ChatPlanModel::Forward {
                model: model@,
                rewrite: rewrite_view(rewrite),
            },
        }
    }
}

/// What messages stand for.
pub open spec fn messages_view(v: Seq<Option<String>>) -> Seq<Option<Seq<char>>> {
    Seq::new(v.len(), |i: int| crate::text::opt_text_view(v[i]))
}

/// The plan for a chat request: the command in the last user text decides;
/// without one the request goes to the model it names.
pub open spec fn spec_plan(messages: Seq<Option<Seq<char>>>, model: Seq<char>) -> ChatPlanModel {
    match last_user_text(messages) {
        Some(at) => match spec_command(messages[at]->0) {
            PromptCommandModel::Stop => ChatPlanModel::Stop,
            PromptCommandModel::Model { alias, prompt } => ChatPlanModel::Forward {
                model: alias,
                rewrite: Some((at, prompt)),
            },
            PromptCommandModel::Plain => ChatPlanModel::Forward { model, rewrite: None },
        },
        None => ChatPlanModel::Forward { model, rewrite: None },
    }
}

/// The notice sent when the backend was stopped on request.
pub open spec fn stop_notice() -> Seq<char> {
    "No llama.cpp-processes running"@
}

/// The notice sent when the backend was stopped on request.
pub fn stop_notice_text() -> (s: String)
    ensures
        s@ == stop_notice(),
{
    String::from_str("No llama.cpp-processes running")
}

/// The chunk that carries the notice: a chat-completion chunk of one choice,
/// whose delta is the notice said by the assistant, and which finishes the
/// stream.
pub open spec fn stop_chunk() -> Seq<char> {
    "{\"id\":\"none\",\"object\":\"chat.completion.chunk\",\"created\":0,\"model\":\"none\",\"choices\":[{\"index\":0,\"delta\":{\"role\":\"assistant\",\"content\":\""@
        + stop_notice() + "\"},\"finish_reason\":\"stop\"}]}"@
}

/// The data of the two events that answer a stop command: the chunk with
/// the notice, then the mark that ends the stream.
pub fn stop_events() -> (events: Vec<String>)
    ensures
        events.len() == 2,
        events[0]@ == stop_chunk(),
        events[1]@ == "[DONE]"@,
{
    let mut chunk = String::from_str(
        "{\"id\":\"none\",\"object\":\"chat.completion.chunk\",\"created\":0,\"model\":\"none\",\"choices\":[{\"index\":0,\"delta\":{\"role\":\"assistant\",\"content\":\"",
    );
    chunk.append(stop_notice_text().as_str());
    chunk.append("\"},\"finish_reason\":\"stop\"}]}");
    let mut events: Vec<String> = Vec::new();
    events.push(chunk);
    events.push(String::from_str("[DONE]"));
    events
}

/// Plans a chat request from its messages and the model it names.
pub fn plan_chat_request(messages: &Vec<Option<String>>, model: &str) -> (plan: ChatPlan)
    ensures
        plan@ == spec_plan(messages_view(messages@), model@),
{
    let mut i: usize = messages.len();
    proof {
        assert(messages_view(messages@).take(i as int) =~= messages_view(messages@));
    }
    while i > 0
        invariant
            i <= messages.len(),
            last_user_text(messages_view(messages@)) == last_user_text(
                messages_view(messages@).take(i as int),
            ),
        decreases i,
    {
        let ghost prefix = messages_view(messages@).take(i as int);
        i -= 1;
        proof {
            assert(prefix.drop_last() =~= messages_view(messages@).take(i as int));
            assert(prefix.last() == crate::text::opt_text_view(messages@[i as int]));
        }
        match &messages[i] {
            Some(text) => {
                return match read_prompt_command(text.as_str()) {
                    PromptCommand::Stop => ChatPlan::Stop,
                    PromptCommand::Model { alias, prompt } => ChatPlan::Forward {
                        model: alias,
                        rewrite: Some((i, prompt)),
                    },
                    PromptCommand::Plain => ChatPlan::Forward {
                        model: String::from_str(model),
                        rewrite: None,
                    },
                };
            },
            None => {},
        }
    }
    ChatPlan::Forward { model: String::from_str(model), rewrite: None }
}

} // verus!
