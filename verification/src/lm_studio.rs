//! Asking a language model for code: the prompt, the request, and the code in the reply.

use vstd::prelude::*;
use crate::decode::{answers, total};
use crate::text::{
    begins, break_at, contains, holds, join, joined, lines_of, opt_text, split_lines, starts_with,
    texts, trim, trim_of, white_space, without_return,
};
use crate::text_laws::{
    break_is_first, first_line, joined_front, lines_have_no_feed, middle_is_held, one_line,
    only_line, trim_drops_first, trim_drops_last, trim_drops_return, trim_keeps, trim_twice,
};

verus! {

/// Seconds after which a request to the server is given up.
pub const REQUEST_TIMEOUT_SECS: u64 = 120;

/// What the model is told before the prompt.
pub const SYSTEM_PROMPT: &'static str =
    "You are an expert Rust programmer. Generate ONLY valid Rust code.\nDo not include markdown code blocks (no ```rust or ```).\nDo not include explanations or comments unless part of the code.\nThe code must compile as-is when placed in a Rust file.";

/// Response from the inference provider
#[derive(Debug, Clone)]
pub struct ModelResponse {
    pub content: String,
    pub input_tokens: Option<u32>,
    pub output_tokens: Option<u32>,
    pub finish_reason: Option<String>,
    pub latency_ms: u64,
}

/// A chat message
#[derive(Debug)]
pub struct Message {
    pub role: String,
    pub content: String,
}

/// The part of a chat request that does not depend on sampling settings
#[derive(Debug)]
pub struct ChatRequest {
    pub model: String,
    pub messages: Vec<Message>,
    pub max_tokens: u32,
    pub stream: bool,
    pub seed: Option<u64>,
}

/// The server's answer to a chat request
#[derive(Debug)]
pub struct ChatResponse {
    pub choices: Vec<Choice>,
    pub usage: Option<Usage>,
}

#[derive(Debug)]
pub struct Choice {
    pub message: MessageContent,
    pub finish_reason: Option<String>,
}

#[derive(Debug)]
pub struct MessageContent {
    pub content: String,
}

#[derive(Debug)]
pub struct Usage {
    pub prompt_tokens: Option<u32>,
    pub completion_tokens: Option<u32>,
}

/// Why a reply of the server gave no response.
#[derive(Debug)]
pub enum ReplyError<E> {
    /// The server did not report success; what it said.
    Status(String),
    /// The body could not be read as a chat response.
    Unreadable(E),
}

/// An LM Studio server and the model that it is asked for
#[derive(Debug)]
pub struct LmStudio {
    pub base_url: String,
    pub model: String,
}

/// The prompt for a function that stands alone.
pub open spec fn plain_prompt(prompt: Seq<char>, signature: Seq<char>) -> Seq<char> {
    prompt + "\n\nImplement this function:\n"@ + signature
        + "\n\nProvide the complete function implementation."@
}

/// The prompt for code that is written into a context.
pub open spec fn context_prompt(
    prompt: Seq<char>,
    signature: Seq<char>,
    context: Seq<char>,
) -> Seq<char> {
    prompt + "\n\nContext (already provided, do not repeat):\n"@ + context
        + "\n\nImplement this:\n"@ + signature
        + "\n\nProvide ONLY the implementation, not the context."@
}

/// The full prompt for code generation.
pub open spec fn prompt_of(
    prompt: Seq<char>,
    signature: Seq<char>,
    context: Seq<char>,
) -> Seq<char> {
    if context.len() == 0 {
        plain_prompt(prompt, signature)
    } else {
        context_prompt(prompt, signature, context)
    }
}

/// Builds the full prompt for code generation.
pub fn build_code_prompt(prompt: &str, signature: &str, context: &str) -> (s: String)
    ensures
        s@ == prompt_of(prompt@, signature@, context@),
{
    let mut s = prompt.to_owned();
    if context.is_empty() {
        s.append("\n\nImplement this function:\n");
        s.append(signature);
        s.append("\n\nProvide the complete function implementation.");
    } else {
        s.append("\n\nContext (already provided, do not repeat):\n");
        s.append(context);
        s.append("\n\nImplement this:\n");
        s.append(signature);
        s.append("\n\nProvide ONLY the implementation, not the context.");
    }
    s
}

/// A line that begins or ends a code block.
pub open spec fn is_fence(line: Seq<char>) -> bool {
    begins(trim_of(line), "```"@)
}

/// The lines before the next fence.
pub open spec fn until_fence(lines: Seq<Seq<char>>) -> Seq<Seq<char>>
    decreases lines.len(),
{
    if lines.len() == 0 || is_fence(lines.first()) {
        Seq::empty()
    } else {
        seq![lines.first()] + until_fence(lines.drop_first())
    }
}

/// The lines of the first code block.
pub open spec fn first_block(lines: Seq<Seq<char>>) -> Seq<Seq<char>>
    decreases lines.len(),
{
    if lines.len() == 0 {
        Seq::empty()
    } else if is_fence(lines.first()) {
        until_fence(lines.drop_first())
    } else {
        first_block(lines.drop_first())
    }
}

/// The code in a response: the lines of its first code block, or the whole response without
/// the white space around it where it has no such block.
pub open spec fn code_in(response: Seq<char>) -> Seq<char> {
    let whole = trim_of(response);
    let block = first_block(lines_of(whole));
    if holds(whole, "```"@) && block.len() > 0 {
        joined(block, "\n"@)
    } else {
        whole
    }
}

/// Extracts the code from a response (handles markdown code blocks).
pub fn extract_code(response: &str) -> (code: String)
    ensures
        code@ == code_in(response@),
{
    let whole = trim(response);
    if contains(whole.as_str(), "```") {
        let lines = split_lines(whole.as_str());
        let ghost source = lines_of(whole@);
        let mut in_block = false;
        let mut block: Vec<String> = Vec::new();
        let mut i: usize = 0;
        assert(source.skip(0) =~= source);
        assert(texts(block@) =~= Seq::<Seq<char>>::empty());
        while i < lines.len()
            invariant_except_break
                i <= lines@.len(),
                texts(lines@) == source,
                !in_block ==> block@.len() == 0,
                first_block(source) == texts(block@) + if in_block {
                    until_fence(source.skip(i as int))
                } else {
                    first_block(source.skip(i as int))
                },
            ensures
                first_block(source) == texts(block@),
            decreases lines@.len() - i,
        {
            let line = &lines[i];
            let ghost before = texts(block@);
            let ghost rest = source.skip(i as int);
            proof {
                assert(rest.first() == line@);
                assert(rest.drop_first() =~= source.skip(i + 1));
            }
            if starts_with(trim(line.as_str()).as_str(), "```") {
                if in_block {
                    assert(before + until_fence(rest) =~= before);
                    break;
                } else {
                    in_block = true;
                }
            } else if in_block {
                block.push(line.clone());
                assert(texts(block@) =~= before.push(line@));
                assert(before + until_fence(rest) =~= before.push(line@) + until_fence(
                    source.skip(i + 1),
                ));
            }
            i += 1;
            proof {
                if i == lines@.len() {
                    assert(texts(block@) + until_fence(source.skip(i as int)) =~= texts(block@));
                    assert(texts(block@) + first_block(source.skip(i as int)) =~= texts(block@));
                }
            }
        }
        assert(texts(block@).len() == block@.len());
        if block.len() > 0 {
            return join(&block, "\n");
        }
    }
    whole
}

/// A response without the mark of a code block is taken as code, without the white space
/// around it.
pub proof fn plain_response_is_kept(response: Seq<char>)
    requires
        !holds(trim_of(response), "```"@),
    ensures
        code_in(response) == trim_of(response),
{
}

/// A response that consists of one code block: a fence with whatever follows it on its line,
/// the lines of the block, and a fence.
pub open spec fn fenced(info: Seq<char>, lines: Seq<Seq<char>>) -> Seq<char> {
    "```"@ + info + "\n"@ + joined(lines, "\n"@) + "\n```"@
}

/// A line that a code block gives back as it is: not a fence, no line feed in it, and no
/// carriage return at its end.
pub open spec fn block_line(line: Seq<char>) -> bool {
    &&& one_line(line)
    &&& !is_fence(line)
    &&& line.len() > 0 ==> line.last() != '\r'
}

/// The lines of a block that a fence follows, read from the text.
proof fn lemma_block_lines(lines: Seq<Seq<char>>)
    requires
        lines.len() > 0,
        forall|i: int| 0 <= i < lines.len() ==> block_line(#[trigger] lines[i]),
    ensures
        lines_of(joined(lines, seq!['\n']) + seq!['\n'] + "```"@) == lines + seq!["```"@],
    decreases lines.len(),
{
    let feed = seq!['\n'];
    let fence = "```"@;
    reveal_strlit("```");
    assert(block_line(lines[0]));
    if lines.len() == 1 {
        first_line(lines[0], fence);
        only_line(fence);
        assert(seq![without_return(lines[0])] + seq![fence] =~= lines + seq![fence]);
    } else {
        let rest = lines.drop_first();
        joined_front(lines, feed);
        assert forall|i: int| 0 <= i < rest.len() implies block_line(#[trigger] rest[i]) by {
            assert(rest[i] == lines[i + 1]);
        }
        lemma_block_lines(rest);
        let tail = joined(rest, feed) + feed + fence;
        assert(joined(lines, feed) + feed + fence =~= lines[0] + feed + tail);
        first_line(lines[0], tail);
        assert(seq![lines[0]] + (rest + seq![fence]) =~= lines + seq![fence]);
    }
}

/// Where a fence follows lines that are none, those lines are the block.
proof fn lemma_until_fence(lines: Seq<Seq<char>>)
    requires
        forall|i: int| 0 <= i < lines.len() ==> block_line(#[trigger] lines[i]),
    ensures
        until_fence(lines + seq!["```"@]) == lines,
    decreases lines.len(),
{
    let fence = "```"@;
    reveal_strlit("```");
    let all = lines + seq![fence];
    if lines.len() == 0 {
        trim_keeps(fence);
        assert(fence.subrange(0, 3) =~= fence);
        assert(is_fence(all.first()));
    } else {
        let rest = lines.drop_first();
        assert forall|i: int| 0 <= i < rest.len() implies block_line(#[trigger] rest[i]) by {
            assert(rest[i] == lines[i + 1]);
        }
        lemma_until_fence(rest);
        assert(block_line(lines[0]));
        assert(all.drop_first() =~= rest + seq![fence]);
        assert(seq![lines[0]] + rest =~= lines);
    }
}

/// How a code block is put together: its opening line, its lines and its closing fence.
proof fn lemma_fenced_text(info: Seq<char>, lines: Seq<Seq<char>>)
    ensures
        "\n"@ == seq!['\n'],
        fenced(info, lines) == ("```"@ + info) + seq!['\n'] + (joined(lines, seq!['\n']) + seq![
            '\n',
        ] + "```"@),
        trim_of(fenced(info, lines)) == fenced(info, lines),
        holds(fenced(info, lines), "```"@),
{
    let fence = "```"@;
    let feed = seq!['\n'];
    let whole = fenced(info, lines);
    reveal_strlit("```");
    reveal_strlit("\n");
    reveal_strlit("\n```");
    assert("\n"@ =~= feed);
    assert("\n```"@ =~= feed + fence);
    let body = joined(lines, feed);
    assert(whole =~= (fence + info) + feed + (body + feed + fence));
    assert(whole[0] == fence[0]);
    assert(whole.last() == fence[2]);
    trim_keeps(whole);
    let rest = info + feed + (body + feed + fence);
    middle_is_held(Seq::empty(), fence, rest);
    assert(Seq::empty() + fence + rest =~= whole);
}

/// The lines of a code block's text.
proof fn lemma_fenced_lines(info: Seq<char>, lines: Seq<Seq<char>>)
    requires
        one_line(info),
        lines.len() > 0,
        forall|i: int| 0 <= i < lines.len() ==> block_line(#[trigger] lines[i]),
    ensures
        lines_of(fenced(info, lines)) == seq![without_return("```"@ + info)] + (lines + seq![
            "```"@,
        ]),
{
    let opening = "```"@ + info;
    let tail = joined(lines, seq!['\n']) + seq!['\n'] + "```"@;
    lemma_opening_line(info);
    assert(lines_of(tail) == lines + seq!["```"@]) by {
        lemma_block_lines(lines);
    }
    first_line(opening, tail);
    assert(fenced(info, lines) == opening + seq!['\n'] + tail) by {
        lemma_fenced_text(info, lines);
    }
}

/// A fence and what follows it on its line are one line.
proof fn lemma_opening_line(info: Seq<char>)
    requires
        one_line(info),
    ensures
        one_line("```"@ + info),
{
    reveal_strlit("```");
    let s = "```"@ + info;
    assert forall|i: int| 0 <= i < s.len() implies #[trigger] s[i] != '\n' by {
        if i >= 3 {
            assert(s[i] == info[i - 3]);
        }
    }
}

/// The first block of those lines.
proof fn lemma_fenced_block(info: Seq<char>, lines: Seq<Seq<char>>)
    requires
        forall|i: int| 0 <= i < lines.len() ==> block_line(#[trigger] lines[i]),
    ensures
        first_block(seq![without_return("```"@ + info)] + (lines + seq!["```"@])) == lines,
{
    let opening = "```"@ + info;
    let first = without_return(opening);
    let rest = lines + seq!["```"@];
    let all = seq![first] + rest;
    assert(opening.subrange(0, "```"@.len() as int) =~= "```"@);
    lemma_fence_begins(opening);
    lemma_until_fence(lines);
    assert(all.first() == first);
    assert(all.drop_first() =~= rest);
}

/// Code that a model puts into one code block comes out as it went in.
pub proof fn fenced_code_comes_back(info: Seq<char>, lines: Seq<Seq<char>>)
    requires
        one_line(info),
        lines.len() > 0,
        forall|i: int| 0 <= i < lines.len() ==> block_line(#[trigger] lines[i]),
    ensures
        code_in(fenced(info, lines)) == joined(lines, "\n"@),
{
    lemma_fenced_text(info, lines);
    lemma_fenced_lines(info, lines);
    lemma_fenced_block(info, lines);
}

/// A line that begins with a fence is one, even without the carriage return at its end.
proof fn lemma_fence_begins(line: Seq<char>)
    requires
        begins(line, "```"@),
    ensures
        is_fence(without_return(line)),
{
    reveal_strlit("```");
    let cut = without_return(line);
    let t = trim_of(cut);
    assert(line.subrange(0, 3) == "```"@);
    assert(line.subrange(0, 3)[0] == line[0] && line.subrange(0, 3)[1] == line[1] && line.subrange(
        0,
        3,
    )[2] == line[2]);
    assert(cut.len() >= 3 && cut[0] == '`' && cut[1] == '`' && cut[2] == '`');
    lemma_trim_end_keeps_head(cut, 2);
    assert(t.subrange(0, 3) =~= "```"@);
}

/// Trimming the end keeps everything up to a character that is not white space.
proof fn lemma_trim_end_keeps_head(s: Seq<char>, k: int)
    requires
        0 <= k < s.len(),
        !white_space(s[k]),
    ensures
        crate::text::trim_end_of(s).len() > k,
        crate::text::trim_end_of(s).take(k + 1) == s.take(k + 1),
    decreases s.len(),
{
    if white_space(s.last()) {
        lemma_trim_end_keeps_head(s.drop_last(), k);
        assert(s.drop_last().take(k + 1) =~= s.take(k + 1));
    }
}

/// No line of the text is a fence.
pub open spec fn fence_free(text: Seq<char>) -> bool {
    forall|i: int| 0 <= i < lines_of(text).len() ==> !is_fence(#[trigger] lines_of(text)[i])
}

/// The lines before the next fence are among the lines, and none of them is a fence.
proof fn lemma_until_fence_lines(lines: Seq<Seq<char>>)
    ensures
        forall|i: int|
            0 <= i < until_fence(lines).len() ==> !is_fence(#[trigger] until_fence(lines)[i])
                && until_fence(lines)[i] == lines[i],
        until_fence(lines).len() <= lines.len(),
    decreases lines.len(),
{
    if lines.len() > 0 && !is_fence(lines.first()) {
        let rest = lines.drop_first();
        lemma_until_fence_lines(rest);
        assert forall|i: int| 0 <= i < until_fence(lines).len() implies !is_fence(
            #[trigger] until_fence(lines)[i],
        ) && until_fence(lines)[i] == lines[i] by {
            if i > 0 {
                assert(until_fence(lines)[i] == until_fence(rest)[i - 1]);
                assert(rest[i - 1] == lines[i]);
            }
        }
    }
}

/// No line of the first code block is a fence or holds a line feed.
proof fn lemma_block_is_plain(lines: Seq<Seq<char>>)
    requires
        forall|i: int| 0 <= i < lines.len() ==> one_line(#[trigger] lines[i]),
    ensures
        forall|i: int|
            0 <= i < first_block(lines).len() ==> !is_fence(#[trigger] first_block(lines)[i])
                && one_line(first_block(lines)[i]),
    decreases lines.len(),
{
    if lines.len() > 0 {
        let rest = lines.drop_first();
        assert forall|i: int| 0 <= i < rest.len() implies one_line(#[trigger] rest[i]) by {
            assert(rest[i] == lines[i + 1]);
        }
        lemma_until_fence_lines(rest);
        lemma_block_is_plain(rest);
        let block = first_block(lines);
        assert forall|i: int| 0 <= i < block.len() implies !is_fence(#[trigger] block[i])
            && one_line(block[i]) by {
            if is_fence(lines.first()) {
                assert(block == until_fence(rest));
                assert(until_fence(rest)[i] == rest[i]);
            } else {
                assert(block == first_block(rest));
                assert(!is_fence(first_block(rest)[i]));
            }
        }
    }
}

/// Lines of which none is a fence have no code block.
proof fn lemma_no_fence_no_block(lines: Seq<Seq<char>>)
    requires
        forall|i: int| 0 <= i < lines.len() ==> !is_fence(#[trigger] lines[i]),
    ensures
        first_block(lines).len() == 0,
    decreases lines.len(),
{
    if lines.len() > 0 {
        assert(!is_fence(lines[0]));
        let rest = lines.drop_first();
        assert forall|i: int| 0 <= i < rest.len() implies !is_fence(#[trigger] rest[i]) by {
            assert(rest[i] == lines[i + 1]);
        }
        lemma_no_fence_no_block(rest);
    }
}

/// A text whose first line is no fence has none where the rest has none.
proof fn lemma_fence_free_front(text: Seq<char>, line: Seq<char>, rest: Seq<char>)
    requires
        lines_of(text) == seq![line] + lines_of(rest),
    ensures
        fence_free(text) <==> !is_fence(line) && fence_free(rest),
{
    let lines = lines_of(text);
    if fence_free(text) {
        assert(lines[0] == line);
        assert forall|i: int| 0 <= i < lines_of(rest).len() implies !is_fence(
            #[trigger] lines_of(rest)[i],
        ) by {
            assert(lines[i + 1] == lines_of(rest)[i]);
        }
    }
    if !is_fence(line) && fence_free(rest) {
        assert forall|i: int| 0 <= i < lines.len() implies !is_fence(#[trigger] lines[i]) by {
            if i > 0 {
                assert(lines[i] == lines_of(rest)[i - 1]);
            }
        }
    }
}

/// Lines of which none is a fence make up a text without fences.
proof fn lemma_joined_fence_free(lines: Seq<Seq<char>>)
    requires
        forall|i: int|
            0 <= i < lines.len() ==> !is_fence(#[trigger] lines[i]) && one_line(lines[i]),
    ensures
        fence_free(joined(lines, seq!['\n'])),
    decreases lines.len(),
{
    let feed = seq!['\n'];
    if lines.len() == 1 {
        assert(!is_fence(lines[0]) && one_line(lines[0]));
        if lines[0].len() > 0 {
            only_line(lines[0]);
        }
    } else if lines.len() > 1 {
        let rest = lines.drop_first();
        assert forall|i: int| 0 <= i < rest.len() implies !is_fence(#[trigger] rest[i]) && one_line(
            rest[i],
        ) by {
            assert(rest[i] == lines[i + 1]);
        }
        lemma_joined_fence_free(rest);
        joined_front(lines, feed);
        assert(!is_fence(lines[0]) && one_line(lines[0]));
        first_line(lines[0], joined(rest, feed));
        trim_drops_return(lines[0]);
        lemma_fence_free_front(
            joined(lines, feed),
            without_return(lines[0]),
            joined(rest, feed),
        );
    }
}

/// Cutting white space off the front brings no fence about.
proof fn lemma_fence_free_tail(w: char, text: Seq<char>)
    requires
        white_space(w),
        fence_free(seq![w] + text),
    ensures
        fence_free(text),
{
    let whole = seq![w] + text;
    if text.len() == 0 {
    } else if w == '\n' {
        first_line(Seq::empty(), text);
        assert(Seq::<char>::empty() + seq!['\n'] + text =~= whole);
        lemma_fence_free_front(whole, without_return(Seq::empty()), text);
    } else {
        break_is_first(text);
        let k = break_at(text);
        let head = text.take(k);
        let longer = seq![w] + head;
        trim_drops_first(w, head);
        trim_drops_return(head);
        trim_drops_return(longer);
        assert(one_line(longer)) by {
            assert forall|i: int| 0 <= i < longer.len() implies #[trigger] longer[i] != '\n' by {
                if i > 0 {
                    assert(longer[i] == head[i - 1]);
                }
            }
        }
        if k < text.len() {
            let rest = text.skip(k + 1);
            first_line(head, rest);
            assert(head + seq!['\n'] + rest =~= text);
            first_line(longer, rest);
            assert(longer + seq!['\n'] + rest =~= whole);
            lemma_fence_free_front(whole, without_return(longer), rest);
            lemma_fence_free_front(text, without_return(head), rest);
        } else {
            assert(head =~= text);
            only_line(text);
            only_line(whole);
            assert(!is_fence(lines_of(whole)[0]));
        }
    }
}

/// Cutting white space off the end brings no fence about.
proof fn lemma_fence_free_head(text: Seq<char>, w: char)
    requires
        white_space(w),
        fence_free(text.push(w)),
    ensures
        fence_free(text),
    decreases text.len(),
{
    let whole = text.push(w);
    if text.len() > 0 {
        break_is_first(text);
        let k = break_at(text);
        let head = text.take(k);
        if k < text.len() {
            let rest = text.skip(k + 1);
            first_line(head, rest);
            assert(head + seq!['\n'] + rest =~= text);
            first_line(head, rest.push(w));
            assert(head + seq!['\n'] + rest.push(w) =~= whole);
            lemma_fence_free_front(whole, without_return(head), rest.push(w));
            lemma_fence_free_head(rest, w);
            lemma_fence_free_front(text, without_return(head), rest);
        } else {
            assert(head =~= text);
            only_line(text);
            trim_drops_last(text, w);
            trim_drops_return(text);
            if w == '\n' {
                first_line(text, Seq::empty());
                assert(text + seq!['\n'] + Seq::empty() =~= whole);
                assert(!is_fence(lines_of(whole)[0]));
            } else {
                assert forall|i: int| 0 <= i < whole.len() implies #[trigger] whole[i] != '\n' by {
                    if i < text.len() {
                        assert(whole[i] == head[i]);
                    }
                }
                only_line(whole);
                assert(!is_fence(lines_of(whole)[0]));
            }
        }
    }
}

/// Trimming brings no fence about.
proof fn lemma_trim_fence_free(text: Seq<char>)
    requires
        fence_free(text),
    ensures
        fence_free(trim_of(text)),
    decreases text.len(),
{
    if text.len() > 0 && white_space(text.first()) {
        assert(seq![text.first()] + text.drop_first() =~= text);
        lemma_fence_free_tail(text.first(), text.drop_first());
        lemma_trim_fence_free(text.drop_first());
        trim_drops_first(text.first(), text.drop_first());
    } else if text.len() > 0 && white_space(text.last()) {
        assert(text.drop_last().push(text.last()) =~= text);
        lemma_fence_free_head(text.drop_last(), text.last());
        lemma_trim_fence_free(text.drop_last());
        trim_drops_last(text.drop_last(), text.last());
    } else {
        trim_keeps(text);
    }
}

/// Extracting code a second time only cuts off the white space around it: what was extracted
/// has no code block any more.
pub proof fn extracting_twice_only_trims(response: Seq<char>)
    ensures
        code_in(code_in(response)) == trim_of(code_in(response)),
{
    let whole = trim_of(response);
    let lines = lines_of(whole);
    let block = first_block(lines);
    if holds(whole, "```"@) && block.len() > 0 {
        reveal_strlit("\n");
        assert("\n"@ =~= seq!['\n']);
        lines_have_no_feed(whole);
        lemma_block_is_plain(lines);
        lemma_joined_fence_free(block);
        lemma_trim_fence_free(code_in(response));
        lemma_no_fence_no_block(lines_of(trim_of(code_in(response))));
    } else {
        trim_twice(response);
    }
}

/// A prompt holds what the task asks for, the signature, and the context where there is one.
pub proof fn prompt_holds_the_task(prompt: Seq<char>, signature: Seq<char>, context: Seq<char>)
    ensures
        holds(prompt_of(prompt, signature, context), prompt),
        holds(prompt_of(prompt, signature, context), signature),
        holds(prompt_of(prompt, signature, context), context),
{
    let s = prompt_of(prompt, signature, context);
    if context.len() == 0 {
        let a = "\n\nImplement this function:\n"@;
        let b = "\n\nProvide the complete function implementation."@;
        middle_is_held(Seq::empty(), prompt, a + signature + b);
        assert(Seq::empty() + prompt + (a + signature + b) =~= s);
        middle_is_held(prompt + a, signature, b);
        middle_is_held(Seq::empty(), context, s);
        assert(Seq::empty() + context + s =~= s);
    } else {
        let a = "\n\nContext (already provided, do not repeat):\n"@;
        let b = "\n\nImplement this:\n"@;
        let c = "\n\nProvide ONLY the implementation, not the context."@;
        middle_is_held(Seq::empty(), prompt, a + context + b + signature + c);
        assert(Seq::empty() + prompt + (a + context + b + signature + c) =~= s);
        middle_is_held(prompt + a, context, b + signature + c);
        assert((prompt + a) + context + (b + signature + c) =~= s);
        middle_is_held(prompt + a + context + b, signature, c);
    }
}

/// A status that reports success.
pub open spec fn is_success(status: u16) -> bool {
    200 <= status < 300
}

/// The response that a chat response holds: its first choice, or nothing where it has none.
pub open spec fn response_matches(chat: ChatResponse, latency_ms: u64, r: ModelResponse) -> bool {
    &&& r.latency_ms == latency_ms
    &&& if chat.choices@.len() > 0 {
        &&& r.content@ == chat.choices@[0].message.content@
        &&& opt_text(r.finish_reason) == opt_text(chat.choices@[0].finish_reason)
    } else {
        &&& r.content@ == Seq::<char>::empty()
        &&& r.finish_reason is None
    }
    &&& match chat.usage {
        Some(u) => r.input_tokens == u.prompt_tokens && r.output_tokens == u.completion_tokens,
        None => r.input_tokens is None && r.output_tokens is None,
    }
}

/// The response that a chat response holds.
pub fn model_response(chat: &ChatResponse, latency_ms: u64) -> (r: ModelResponse)
    ensures
        response_matches(*chat, latency_ms, r),
{
    let mut content = String::new();
    let mut finish_reason: Option<String> = None;
    if chat.choices.len() > 0 {
        content = chat.choices[0].message.content.clone();
        finish_reason = chat.choices[0].finish_reason.clone();
    }
    let (input_tokens, output_tokens) = match &chat.usage {
        Some(u) => (u.prompt_tokens, u.completion_tokens),
        None => (None, None),
    };
    ModelResponse { content, input_tokens, output_tokens, finish_reason, latency_ms }
}

/// What is said of a reply that does not report success.
pub open spec fn refusal(status: Seq<char>, body: Seq<char>) -> Seq<char> {
    "LM Studio returned error "@ + status + ": "@ + body
}

/// Reads the server's reply to a chat request. `status_text` is how the status is shown,
/// and `decode` reads the body of a reply that reports success.
pub fn read_reply<E, F: Fn(&str) -> Result<ChatResponse, E>>(
    status: u16,
    status_text: &str,
    body: &str,
    decode: &F,
    latency_ms: u64,
) -> (r: Result<ModelResponse, ReplyError<E>>)
    requires
        total(*decode),
    ensures
        !is_success(status) ==> (r matches Err(ReplyError::Status(said)) && said@ == refusal(
            status_text@,
            body@,
        )),
        is_success(status) ==> exists|answer: Result<ChatResponse, E>|
            {
                &&& #[trigger] answers(*decode, body@, answer)
                &&& match answer {
                    Ok(chat) => r matches Ok(response) && response_matches(
                        chat,
                        latency_ms,
                        response,
                    ),
                    Err(e) => r == Err::<ModelResponse, ReplyError<E>>(ReplyError::Unreadable(e)),
                }
            },
{
    if !(200 <= status && status < 300) {
        let mut said = "LM Studio returned error ".to_owned();
        said.append(status_text);
        said.append(": ");
        said.append(body);
        return Err(ReplyError::Status(said));
    }
    let answer = decode(body);
    assert(answers(*decode, body@, answer));
    match answer {
        Ok(chat) => Ok(model_response(&chat, latency_ms)),
        Err(e) => Err(ReplyError::Unreadable(e)),
    }
}

/// Whether a server is available, from the status it answered with, if it answered.
pub fn is_healthy(status: Option<u16>) -> (r: bool)
    ensures
        r == (status matches Some(s) && is_success(s)),
{
    match status {
        Some(s) => 200 <= s && s < 300,
        None => false,
    }
}

impl LmStudio {
    pub fn new(base_url: &str, model: &str) -> (lm: LmStudio)
        ensures
            lm.base_url@ == base_url@,
            lm.model@ == model@,
    {
        LmStudio { base_url: base_url.to_owned(), model: model.to_owned() }
    }

    /// The name of the model.
    pub fn name(&self) -> (s: &str)
        ensures
            s@ == self.model@,
    {
        self.model.as_str()
    }

    /// Where chat requests go.
    pub fn chat_url(&self) -> (s: String)
        ensures
            s@ == self.base_url@ + "/chat/completions"@,
    {
        let mut s = self.base_url.clone();
        s.append("/chat/completions");
        s
    }

    /// Where the server lists its models.
    pub fn models_url(&self) -> (s: String)
        ensures
            s@ == self.base_url@ + "/models"@,
    {
        let mut s = self.base_url.clone();
        s.append("/models");
        s
    }

    /// The request that asks the model for an answer to a prompt.
    pub fn chat_request(&self, prompt: &str, max_tokens: u32, seed: Option<u64>) -> (r: ChatRequest)
        ensures
            r.model@ == self.model@,
            r.messages@.len() == 2,
            r.messages@[0].role@ == "system"@,
            r.messages@[0].content@ == SYSTEM_PROMPT@,
            r.messages@[1].role@ == "user"@,
            r.messages@[1].content@ == prompt@,
            r.max_tokens == max_tokens,
            !r.stream,
            r.seed == seed,
    {
        let mut messages: Vec<Message> = Vec::new();
        messages.push(Message { role: "system".to_owned(), content: SYSTEM_PROMPT.to_owned() });
        messages.push(Message { role: "user".to_owned(), content: prompt.to_owned() });
        ChatRequest { model: self.model.clone(), messages, max_tokens, stream: false, seed }
    }
}

} // verus!
