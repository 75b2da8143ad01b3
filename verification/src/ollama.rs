//! The chat model server's side of a chat: the request body it is sent, and
//! how its reply becomes a chat response.
use vstd::prelude::*;
use vstd::string::*;

use crate::http::{HttpReply, ServiceError};
use crate::models::{ChatRequest, ChatResponse};

verus! {

/// Where the chat model server is reached.
pub struct OllamaClient {
    pub base_url: String,
}

/// One message of the request body.
pub struct OllamaMessage {
    pub role: String,
    pub content: String,
}

/// Generation options of the request body; each is left out when unset.
#[derive(Debug, Clone, Copy, PartialEq, Eq, Structural)]
pub struct OllamaOptions {
    /// The sampling temperature, as the bit pattern of an `f32`.
    pub temperature_bits: Option<u32>,
    /// The most tokens to generate.
    pub num_predict: Option<u32>,
}

/// The body of a chat request to the server.
pub struct OllamaChatRequest {
    pub model: String,
    pub messages: Vec<OllamaMessage>,
    pub stream: bool,
    pub options: Option<OllamaOptions>,
}

/// The message of a chat reply.
pub struct OllamaResponseMessage {
    pub content: String,
}

/// The body of a chat reply.
pub struct OllamaChatResponse {
    pub message: OllamaResponseMessage,
    pub model: String,
}

/// The options sent for a temperature and a token limit: none when both are
/// unset, else both, each as given.
pub open spec fn spec_options(temperature_bits: Option<u32>, max_tokens: Option<u32>) -> Option<
    OllamaOptions,
> {
    if temperature_bits is Some || max_tokens is Some {
        Some(OllamaOptions { temperature_bits, num_predict: max_tokens })
    } else {
        None
    }
}

/// The address that chat requests are posted to.
pub open spec fn spec_chat_url(base_url: Seq<char>) -> Seq<char> {
    base_url + "/api/chat"@
}

/// Options are sent exactly when a temperature or a token limit is set, and
/// then the temperature and the token limit are each sent as set, the one
/// whatever the other is.
pub proof fn lemma_options_carry_each_setting(temperature_bits: Option<u32>, max_tokens: Option<u32>)
    ensures
        spec_options(temperature_bits, max_tokens) is Some <==> (temperature_bits is Some
            || max_tokens is Some),
        spec_options(temperature_bits, max_tokens) matches Some(o) ==> o.temperature_bits
            == temperature_bits && o.num_predict == max_tokens,
        forall|t: Option<u32>, m: u32|
            #[trigger] spec_options(t, Some(m)) == Some(
                OllamaOptions { temperature_bits: t, num_predict: Some(m) },
            ),
        forall|t: u32, m: Option<u32>|
            #[trigger] spec_options(Some(t), m) == Some(
                OllamaOptions { temperature_bits: Some(t), num_predict: m },
            ),
        spec_options(None, None) is None,
{
}

impl OllamaClient {
    /// The client of the server at `base_url`.
    pub fn new(base_url: &str) -> (client: OllamaClient)
        ensures
            client.base_url@ == base_url@,
    {
        OllamaClient { base_url: String::from_str(base_url) }
    }

    /// The address that chat requests are posted to.
    pub fn chat_url(&self) -> (url: String)
        ensures
            url@ == spec_chat_url(self.base_url@),
    {
        let mut url = self.base_url.clone();
        url.append("/api/chat");
        url
    }

    /// The body sent for a chat request: the same model and messages, in
    /// order, a single (not streamed) reply, and the options that are set.
    pub fn chat_request(request: ChatRequest) -> (body: OllamaChatRequest)
        ensures
            body.model@ == request.model@,
            body.stream == false,
            body.messages@.len() == request.messages@.len(),
            forall|i: int|
                0 <= i < request.messages@.len() ==> {
                    &&& (#[trigger] body.messages@[i]).role@ == request.messages@[i].role@
                    &&& body.messages@[i].content@ == request.messages@[i].content@
                },
            body.options == spec_options(request.temperature_bits, request.max_tokens),
            body.options is Some <==> (request.temperature_bits is Some || request.max_tokens is Some),
            body.options matches Some(o) ==> o.temperature_bits == request.temperature_bits
                && o.num_predict == request.max_tokens,
    {
        proof {
            lemma_options_carry_each_setting(request.temperature_bits, request.max_tokens);
        }
        let mut messages: Vec<OllamaMessage> = Vec::new();
        let mut i: usize = 0;
        while i < request.messages.len()
            invariant
                i <= request.messages@.len(),
                messages@.len() == i,
                forall|j: int|
                    0 <= j < i ==> {
                        &&& (#[trigger] messages@[j]).role@ == request.messages@[j].role@
                        &&& messages@[j].content@ == request.messages@[j].content@
                    },
            decreases request.messages@.len() - i,
        {
            let message = &request.messages[i];
            messages.push(
                OllamaMessage { role: message.role.clone(), content: message.content.clone() },
            );
            i = i + 1;
        }
        let options = if request.temperature_bits.is_some() || request.max_tokens.is_some() {
            Some(
                OllamaOptions {
                    temperature_bits: request.temperature_bits,
                    num_predict: request.max_tokens,
                },
            )
        } else {
            None
        };
        OllamaChatRequest { model: request.model, messages, stream: false, options }
    }

    /// Completes a chat with the server's reply: a refused request is an
    /// error that keeps the status and the body; otherwise the reply's message
    /// and model name.
    pub fn chat(&self, reply: HttpReply<OllamaChatResponse>) -> (res: Result<ChatResponse, ServiceError>)
        ensures
            match reply {
                HttpReply::Failure { status, body } => res matches Err(
                    ServiceError::OllamaRejected { status: s, body: b },
                ) && s == status && b@ == body@,
                HttpReply::Success(r) => res matches Ok(response) && response.content@
                    == r.message.content@ && response.model@ == r.model@,
            },
    {
        match reply {
            HttpReply::Failure { status, body } => Err(ServiceError::OllamaRejected { status, body }),
            HttpReply::Success(r) => Ok(ChatResponse { content: r.message.content, model: r.model }),
        }
    }
}

} // verus!
