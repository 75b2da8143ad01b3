//! The values that pass between the search, the chat model and the caller.
//!
//! Scores and temperatures are IEEE-754 single-precision numbers; they are
//! carried here by their bit patterns (`f32::to_bits`), which the library
//! hands on unchanged and never computes with.
use vstd::prelude::*;
use vstd::string::*;

verus! {

/// One document found by a vector search.
#[derive(Debug, Clone)]
pub struct SearchResult {
    pub id: u64,
    /// The similarity score, as the bit pattern of an `f32`.
    pub score_bits: u32,
    pub text: String,
    pub source_file: String,
    pub collection: String,
}

/// A search request: the text to look for, how many results to return at
/// most, and an optional lowest score.
#[derive(Debug, Clone)]
pub struct SearchQuery {
    pub text: String,
    pub limit: u64,
    /// The lowest score to accept, as the bit pattern of an `f32`.
    pub score_threshold_bits: Option<u32>,
}

impl SearchQuery {
    /// A query for `text` with at most `limit` results and no score threshold.
    pub fn new(text: &str, limit: u64) -> (query: SearchQuery)
        ensures
            query.text@ == text@,
            query.limit == limit,
            query.score_threshold_bits is None,
    {
        SearchQuery { text: String::from_str(text), limit, score_threshold_bits: None }
    }

    /// The same query, keeping only results scored at least the threshold
    /// (given as the bit pattern of an `f32`).
    pub fn with_threshold(self, threshold_bits: u32) -> (query: SearchQuery)
        ensures
            query.text == self.text,
            query.limit == self.limit,
            query.score_threshold_bits == Some(threshold_bits),
    {
        let mut query = self;
        query.score_threshold_bits = Some(threshold_bits);
        query
    }
}

/// One message of a chat: who speaks (`system`, `user`) and what is said.
#[derive(Debug, Clone)]
pub struct ChatMessage {
    pub role: String,
    pub content: String,
}

impl ChatMessage {
    /// A message with the `system` role.
    pub fn system(content: &str) -> (message: ChatMessage)
        ensures
            message.role@ == "system"@,
            message.content@ == content@,
    {
        ChatMessage { role: String::from_str("system"), content: String::from_str(content) }
    }

    /// A message with the `user` role.
    pub fn user(content: &str) -> (message: ChatMessage)
        ensures
            message.role@ == "user"@,
            message.content@ == content@,
    {
        ChatMessage { role: String::from_str("user"), content: String::from_str(content) }
    }
}

/// A request to a chat model.
#[derive(Debug, Clone)]
pub struct ChatRequest {
    pub model: String,
    pub messages: Vec<ChatMessage>,
    /// The sampling temperature, as the bit pattern of an `f32`.
    pub temperature_bits: Option<u32>,
    pub max_tokens: Option<u32>,
}

impl ChatRequest {
    /// A request to `model` with no messages, no temperature and no token limit.
    pub fn new(model: &str) -> (request: ChatRequest)
        ensures
            request.model@ == model@,
            request.messages@.len() == 0,
            request.temperature_bits is None,
            request.max_tokens is None,
    {
        ChatRequest {
            model: String::from_str(model),
            messages: Vec::new(),
            temperature_bits: None,
            max_tokens: None,
        }
    }

    /// The same request with `message` added after the others.
    pub fn add_message(self, message: ChatMessage) -> (request: ChatRequest)
        ensures
            request.model == self.model,
            request.messages@ == self.messages@.push(message),
            request.temperature_bits == self.temperature_bits,
            request.max_tokens == self.max_tokens,
    {
        let mut request = self;
        request.messages.push(message);
        request
    }

    /// The same request with the given temperature (the bit pattern of an `f32`).
    pub fn with_temperature(self, temperature_bits: u32) -> (request: ChatRequest)
        ensures
            request.model == self.model,
            request.messages == self.messages,
            request.temperature_bits == Some(temperature_bits),
            request.max_tokens == self.max_tokens,
    {
        let mut request = self;
        request.temperature_bits = Some(temperature_bits);
        request
    }
}

/// What a chat model answered, and which model answered.
#[derive(Debug, Clone)]
pub struct ChatResponse {
    pub content: String,
    pub model: String,
}

} // verus!
