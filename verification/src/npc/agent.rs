//! The conversation plumbing around the language model: which model to ask,
//! what to answer when it cannot be reached, and how a finished exchange is
//! kept in the session history.

use vstd::prelude::*;
use vstd::string::*;
use rig::message::Message;

verus! {

#[verifier::external_type_specification]
#[verifier::external_body]
pub struct ExMessage(rig::message::Message);

/// The user message that `Message::user` builds from a text.
pub uninterp spec fn user_message(text: Seq<char>) -> Message;

/// The assistant message that `Message::assistant` builds from a text.
pub uninterp spec fn assistant_message(text: Seq<char>) -> Message;

/// Calls `rig::message::Message::user`, which builds a user message holding
/// one text block with `text`. The message is named `user_message(text@)`.
/// Claimed of it: it depends on the text alone; it holds the whole text, so
/// that no other text gives the same user message; and it is a user message,
/// so that no assistant message equals it. Its layout is not stated.
#[verifier::external_body]
fn new_user_message(text: &str) -> (m: Message)
    ensures
        m == user_message(text@),
        forall|t: Seq<char>| #[trigger] user_message(t) == m ==> t == text@,
        forall|t: Seq<char>| #[trigger] assistant_message(t) != m,
{
    Message::user(text)
}

/// Calls `rig::message::Message::assistant`, which builds an assistant message
/// with no id holding one text block with `text`. The message is named
/// `assistant_message(text@)`. Claimed of it: it depends on the text alone; it
/// holds the whole text, so that no other text gives the same assistant
/// message; and it is an assistant message, so that no user message equals it.
/// Its layout is not stated.
#[verifier::external_body]
fn new_assistant_message(text: &str) -> (m: Message)
    ensures
        m == assistant_message(text@),
        forall|t: Seq<char>| #[trigger] assistant_message(t) == m ==> t == text@,
        forall|t: Seq<char>| #[trigger] user_message(t) != m,
{
    Message::assistant(text)
}

/// The model asked when none is configured.
pub open spec fn default_model() -> Seq<char> {
    "llama3:latest"@
}

/// The model to chat with: the configured one (the `OLLAMA_MODEL` setting), or
/// the default model.
pub fn chat_model(configured: Option<String>) -> (r: String)
    ensures
        r@ == match configured {
            Some(m) => m@,
            None => default_model(),
        },
{
    match configured {
        Some(m) => m,
        None => String::from_str("llama3:latest"),
    }
}

/// The answer given when the model could not be reached.
pub open spec fn failure_reply(model: Seq<char>, error: Seq<char>) -> Seq<char> {
    "I can't answer right now. Ollama request failed for model '"@ + model
        + "'. Set OLLAMA_MODEL to an installed model or run `ollama pull "@ + model
        + "`. Underlying error: "@ + error
}

/// What the character says when the request to `model` failed with `error`.
pub fn chat_failure_reply(model: &str, error: &str) -> (r: String)
    ensures
        r@ == failure_reply(model@, error@),
{
    String::from_str("I can't answer right now. Ollama request failed for model '")
        .concat(model)
        .concat("'. Set OLLAMA_MODEL to an installed model or run `ollama pull ")
        .concat(model)
        .concat("`. Underlying error: ")
        .concat(error)
}

/// Keeps a finished exchange in the session history: the player's line, then
/// the character's answer, after everything said before. The two new entries
/// keep the whole line and the whole answer: no other pair of texts would have
/// left the same history, and the line is kept as the user's, the answer as
/// the assistant's.
pub fn record_exchange(history: &mut Vec<Message>, user_input: &str, response: &str)
    ensures
        final(history)@ == old(history)@.push(user_message(user_input@)).push(assistant_message(response@)),
        forall|u: Seq<char>, a: Seq<char>|
            #![trigger user_message(u), assistant_message(a)]
            final(history)@ == old(history)@.push(user_message(u)).push(assistant_message(a)) ==> u == user_input@ && a == response@,
        forall|t: Seq<char>| #[trigger] assistant_message(t) != final(history)@[old(history)@.len() as int],
        forall|t: Seq<char>| #[trigger] user_message(t) != final(history)@[old(history)@.len() as int + 1],
{
    let ghost before = history@;
    let question = new_user_message(user_input);
    let answer = new_assistant_message(response);
    history.push(question);
    history.push(answer);
    proof {
        assert forall|u: Seq<char>, a: Seq<char>|
            #![trigger user_message(u), assistant_message(a)]
            history@ == before.push(user_message(u)).push(assistant_message(a)) implies u == user_input@ && a == response@ by {
            assert(history@[before.len() as int] == user_message(u));
            assert(history@[before.len() as int + 1] == assistant_message(a));
        }
    }
}

/// Ends a turn of the chat with `model` once the outcome is known: a reply is
/// kept in the history after the player's line and handed back; a failure
/// (with its error text) leaves the history as it was and is answered with the
/// failure reply.
pub fn finish_exchange(history: &mut Vec<Message>, user_input: &str, model: &str, outcome: Result<String, String>) -> (r: String)
    ensures
        match outcome {
            Ok(response) => {
                &&& r@ == response@
                &&& final(history)@ == old(history)@.push(user_message(user_input@)).push(assistant_message(response@))
                &&& forall|u: Seq<char>, a: Seq<char>|
                    #![trigger user_message(u), assistant_message(a)]
                    final(history)@ == old(history)@.push(user_message(u)).push(assistant_message(a)) ==> u == user_input@ && a == response@
            },
            Err(error) => {
                &&& r@ == failure_reply(model@, error@)
                &&& final(history)@ == old(history)@
            },
        },
{
    match outcome {
        Ok(response) => {
            record_exchange(history, user_input, response.as_str());
            response
        },
        Err(error) => chat_failure_reply(model, error.as_str()),
    }
}

} // verus!
