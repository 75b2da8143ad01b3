//! Retrieval-augmented answering: the found documents are written into a
//! context, the context into a system prompt, and the prompt and the
//! question into a chat request; the model's answer is returned with the
//! documents it was given.
use vstd::prelude::*;
use vstd::string::*;

use crate::models::{ChatMessage, ChatRequest, ChatResponse, SearchResult};
use crate::numeric::{decimal, decimal_chars};
use crate::ollama::{spec_options, OllamaOptions};

verus! {

/// The sampling temperature of answer requests: 0.7, as the bit pattern of
/// an `f32`.
pub const RAG_TEMPERATURE_BITS: u32 = 0x3F33_3333u32;

/// An answer, the documents it was based on, and the model that gave it.
#[derive(Debug, Clone)]
pub struct RagResponse {
    pub answer: String,
    pub sources: Vec<SearchResult>,
    pub model: String,
}

/// The context text of one document: its number (counting from 1), its
/// score label, its source file, and its text.
pub open spec fn context_entry(
    number: nat,
    score_label: Seq<char>,
    source_file: Seq<char>,
    text: Seq<char>,
) -> Seq<char> {
    "\n[Document "@ + decimal_chars(number) + "] (Score: "@ + score_label + ", Source: "@
        + source_file + ")\n"@ + text + "\n"@
}

/// The context text of the first `n` documents, in order.
pub open spec fn context_prefix(results: Seq<SearchResult>, score_labels: Seq<String>, n: nat) -> Seq<
    char,
>
    decreases n,
{
    if n == 0 {
        Seq::empty()
    } else {
        let i = n - 1;
        context_prefix(results, score_labels, (n - 1) as nat) + context_entry(
            n,
            score_labels[i]@,
            results[i].source_file@,
            results[i].text@,
        )
    }
}

/// The words that open the system prompt, before the context.
pub open spec fn prompt_preamble() -> Seq<char> {
    "You are a helpful assistant that answers questions based on the provided context. Use the following documents to answer the user's question. If the answer cannot be found in the context, say so.\n\nContext:"@
}

/// The system prompt for a context.
pub open spec fn spec_system_prompt(context: Seq<char>) -> Seq<char> {
    prompt_preamble() + context + "\n"@
}

/// Writes the documents into one context text, each with its number (from
/// 1), its score label, its source file and its text.
/// `score_labels[i]` is the score of `results[i]` written with four decimals.
pub fn build_context(results: &Vec<SearchResult>, score_labels: &Vec<String>) -> (context: String)
    requires
        score_labels@.len() == results@.len(),
    ensures
        context@ == context_prefix(results@, score_labels@, results@.len()),
{
    let mut context = String::new();
    let mut i: usize = 0;
    while i < results.len()
        invariant
            i <= results@.len(),
            score_labels@.len() == results@.len(),
            context@ == context_prefix(results@, score_labels@, i as nat),
        decreases results@.len() - i,
    {
        let result = &results[i];
        let number = decimal(i as u64 + 1);
        context.append("\n[Document ");
        context.append(number.as_str());
        context.append("] (Score: ");
        context.append(score_labels[i].as_str());
        context.append(", Source: ");
        context.append(result.source_file.as_str());
        context.append(")\n");
        context.append(result.text.as_str());
        context.append("\n");
        i = i + 1;
    }
    context
}

/// The system prompt that tells the model to answer from the context.
pub fn system_prompt(context: &str) -> (prompt: String)
    ensures
        prompt@ == spec_system_prompt(context@),
        prompt@.len() == prompt_preamble().len() + context@.len() + 1,
        prompt@.subrange(0, prompt_preamble().len() as int) == prompt_preamble(),
        prompt@.subrange(
            prompt_preamble().len() as int,
            (prompt_preamble().len() + context@.len()) as int,
        ) == context@,
        prompt@.last() == '\n',
{
    proof {
        lemma_system_prompt_keeps_context(context@);
    }
    let mut prompt = String::from_str(
        "You are a helpful assistant that answers questions based on the provided context. Use the following documents to answer the user's question. If the answer cannot be found in the context, say so.\n\nContext:",
    );
    prompt.append(context);
    prompt.append("\n");
    prompt
}

/// The chat request that asks `model` the question over the context: a
/// system message with the prompt, then a user message with the question, at
/// temperature 0.7 and with no token limit.
pub fn answer_request(question: &str, model: &str, context: &str) -> (request: ChatRequest)
    ensures
        request.model@ == model@,
        request.messages@.len() == 2,
        request.messages@[0].role@ == "system"@,
        request.messages@[0].content@ == spec_system_prompt(context@),
        request.messages@[1].role@ == "user"@,
        request.messages@[1].content@ == question@,
        request.temperature_bits == Some(RAG_TEMPERATURE_BITS),
        request.max_tokens is None,
{
    let prompt = system_prompt(context);
    ChatRequest::new(model).add_message(ChatMessage::system(prompt.as_str())).add_message(
        ChatMessage::user(question),
    ).with_temperature(RAG_TEMPERATURE_BITS)
}

/// The answer of a RAG query: the model's message as the answer, the found
/// documents as its sources, and the name of the model that answered.
pub fn rag_response(response: ChatResponse, sources: Vec<SearchResult>) -> (rag: RagResponse)
    ensures
        rag.answer@ == response.content@,
        rag.sources@ == sources@,
        rag.model@ == response.model@,
{
    RagResponse { answer: response.content, sources, model: response.model }
}

/// The context of the first `n` documents does not depend on the documents
/// after them: adding documents at the end only adds entries at the end of
/// the context.
pub proof fn lemma_context_prefix_stable(
    results: Seq<SearchResult>,
    score_labels: Seq<String>,
    n: nat,
)
    requires
        n <= results.len(),
        n <= score_labels.len(),
    ensures
        context_prefix(results.take(n as int), score_labels.take(n as int), n) == context_prefix(
            results,
            score_labels,
            n,
        ),
{
    lemma_context_prefix_agree(results.take(n as int), score_labels.take(n as int), results, score_labels, n);
}

/// Two document lists that agree on their first `n` entries have the same
/// context for those entries.
proof fn lemma_context_prefix_agree(
    r1: Seq<SearchResult>,
    l1: Seq<String>,
    r2: Seq<SearchResult>,
    l2: Seq<String>,
    n: nat,
)
    requires
        n <= r1.len() && n <= r2.len() && n <= l1.len() && n <= l2.len(),
        forall|i: int| 0 <= i < n ==> r1[i] == r2[i] && l1[i] == l2[i],
    ensures
        context_prefix(r1, l1, n) == context_prefix(r2, l2, n),
    decreases n,
{
    if n > 0 {
        lemma_context_prefix_agree(r1, l1, r2, l2, (n - 1) as nat);
        assert(r1[n - 1] == r2[n - 1] && l1[n - 1] == l2[n - 1]);
    }
}

/// The context of `n + 1` documents is the context of the first `n`
/// followed by the entry of document `n + 1`, which carries the number
/// `n + 1` (its position, counted from 1), its score label, its source file
/// and its text.
pub proof fn lemma_context_entry_numbered_by_position(
    results: Seq<SearchResult>,
    score_labels: Seq<String>,
    n: nat,
)
    requires
        n < results.len(),
        n < score_labels.len(),
    ensures
        context_prefix(results, score_labels, n + 1) == context_prefix(results, score_labels, n)
            + "\n[Document "@ + decimal_chars(n + 1) + "] (Score: "@ + score_labels[n as int]@
            + ", Source: "@ + results[n as int].source_file@ + ")\n"@ + results[n as int].text@
            + "\n"@,
{
}

/// The context depends only on the position, source file and text of each
/// document and on its score label: results that differ in anything else
/// (their ids, scores or collections) give the same context.
pub proof fn lemma_context_ignores_other_fields(
    r1: Seq<SearchResult>,
    r2: Seq<SearchResult>,
    score_labels: Seq<String>,
    n: nat,
)
    requires
        n <= r1.len(),
        n <= r2.len(),
        n <= score_labels.len(),
        forall|i: int|
            0 <= i < n ==> #[trigger] r1[i].source_file@ == r2[i].source_file@ && r1[i].text@
                == r2[i].text@,
    ensures
        context_prefix(r1, score_labels, n) == context_prefix(r2, score_labels, n),
    decreases n,
{
    if n > 0 {
        lemma_context_ignores_other_fields(r1, r2, score_labels, (n - 1) as nat);
        assert(r1[n - 1].source_file@ == r2[n - 1].source_file@);
    }
}

/// The system prompt holds the whole context: the preamble, then the
/// context unchanged, then a newline.
pub proof fn lemma_system_prompt_keeps_context(context: Seq<char>)
    ensures
        spec_system_prompt(context).len() == prompt_preamble().len() + context.len() + 1,
        spec_system_prompt(context).subrange(0, prompt_preamble().len() as int)
            == prompt_preamble(),
        spec_system_prompt(context).subrange(
            prompt_preamble().len() as int,
            (prompt_preamble().len() + context.len()) as int,
        ) == context,
        spec_system_prompt(context).last() == '\n',
{
    let p = spec_system_prompt(context);
    let k = prompt_preamble().len() as int;
    reveal_strlit("\n");
    assert(p.subrange(0, k) =~= prompt_preamble());
    assert(p.subrange(k, k + context.len()) =~= context);
}

/// Every answer request reaches the chat server with generation options:
/// the temperature 0.7 and no token limit.
pub proof fn lemma_answer_request_options()
    ensures
        spec_options(Some(RAG_TEMPERATURE_BITS), None) == Some(
            OllamaOptions { temperature_bits: Some(RAG_TEMPERATURE_BITS), num_predict: None },
        ),
{
}

} // verus!
