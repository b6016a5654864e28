//! Laws of prompts and replies.

use vstd::prelude::*;
use crate::lm_studio::{
    is_success, prompt_of, refusal, response_matches, ChatResponse, ModelResponse,
};

verus! {

/// What is asked for comes first in the prompt, whatever follows.
pub proof fn prompt_begins_with_the_task(
    a: Seq<char>,
    b: Seq<char>,
    signature: Seq<char>,
    context: Seq<char>,
)
    ensures
        prompt_of(a + b, signature, context) == a + prompt_of(b, signature, context),
{
    assert(prompt_of(a + b, signature, context) =~= a + prompt_of(b, signature, context));
}

/// Without context the prompt names the function after what is asked for; with context it
/// gives the context first and asks not to repeat it.
pub proof fn prompt_in_full(prompt: Seq<char>, signature: Seq<char>, context: Seq<char>)
    ensures
        context.len() == 0 ==> prompt_of(prompt, signature, context) == prompt
            + "\n\nImplement this function:\n"@ + signature
            + "\n\nProvide the complete function implementation."@,
        context.len() > 0 ==> prompt_of(prompt, signature, context) == prompt
            + "\n\nContext (already provided, do not repeat):\n"@ + context
            + "\n\nImplement this:\n"@ + signature
            + "\n\nProvide ONLY the implementation, not the context."@,
{
}

/// A status reports success exactly from 200 up to 299.
pub proof fn success_is_in_the_two_hundreds(status: u16)
    ensures
        is_success(status) <==> status / 100 == 2,
{
}

/// What is said of a reply without success holds its status and then its body.
pub proof fn refusal_quotes_the_reply(status: Seq<char>, body: Seq<char>)
    ensures
        refusal(status, body) == "LM Studio returned error "@ + status + ": "@ + body,
{
}

/// A response is the first choice, with the tokens that the server counted and the time that
/// was measured; without a choice it is empty.
pub proof fn response_is_the_first_choice(
    chat: ChatResponse,
    latency_ms: u64,
    r: ModelResponse,
)
    requires
        response_matches(chat, latency_ms, r),
    ensures
        r.latency_ms == latency_ms,
        chat.choices@.len() > 0 ==> r.content@ == chat.choices@[0].message.content@,
        chat.choices@.len() == 0 ==> r.content@.len() == 0 && r.finish_reason is None,
        chat.choices@.len() > 0 ==> (r.finish_reason is Some
            <==> chat.choices@[0].finish_reason is Some),
        r.finish_reason is Some ==> r.finish_reason->0@ == chat.choices@[0].finish_reason->0@,
        chat.usage is Some ==> r.input_tokens == chat.usage->0.prompt_tokens && r.output_tokens
            == chat.usage->0.completion_tokens,
        chat.usage is None ==> r.input_tokens is None && r.output_tokens is None,
{
}

} // verus!
