use orion_rs::cli::{parse_command, text_preview, Command};
use orion_rs::http::{HttpReply, ServiceError};
use orion_rs::models::{ChatMessage, ChatRequest, ChatResponse, SearchResult};
use orion_rs::ollama::{OllamaChatResponse, OllamaClient, OllamaOptions, OllamaResponseMessage};
use orion_rs::rag_service::{
    answer_request, build_context, rag_response, system_prompt, RAG_TEMPERATURE_BITS,
};

fn result(id: u64, score: f32, text: &str, source: &str) -> SearchResult {
    SearchResult {
        id,
        score_bits: score.to_bits(),
        text: text.to_string(),
        source_file: source.to_string(),
        collection: "banking_statement".to_string(),
    }
}

fn labels(results: &[SearchResult]) -> Vec<String> {
    results.iter().map(|r| format!("{:.4}", f32::from_bits(r.score_bits))).collect()
}

#[test]
fn context_numbers_documents_from_one() {
    let results = vec![
        result(0, 0.8542, "first text", "statement.json"),
        result(1, 0.7234, "second text", "other.json"),
    ];
    let context = build_context(&results, &labels(&results));
    assert_eq!(
        context,
        "\n[Document 1] (Score: 0.8542, Source: statement.json)\nfirst text\n\
         \n[Document 2] (Score: 0.7234, Source: other.json)\nsecond text\n"
    );
}

#[test]
fn context_of_no_documents_is_empty() {
    assert_eq!(build_context(&Vec::new(), &Vec::new()), "");
}

#[test]
fn context_grows_by_one_entry_per_document() {
    let mut results = Vec::new();
    for i in 0..12u64 {
        results.push(result(i, 0.5, "t", "s"));
    }
    let context = build_context(&results, &labels(&results));
    let shorter = build_context(&results[..11].to_vec(), &labels(&results[..11]));
    assert_eq!(context, format!("{}\n[Document 12] (Score: 0.5000, Source: s)\nt\n", shorter));
}

#[test]
fn prompt_wraps_the_context() {
    let prompt = system_prompt("CTX");
    assert_eq!(
        prompt,
        "You are a helpful assistant that answers questions based on the provided context. \
         Use the following documents to answer the user's question. \
         If the answer cannot be found in the context, say so.\n\nContext:CTX\n"
    );
}

#[test]
fn temperature_constant_is_seven_tenths() {
    assert_eq!(RAG_TEMPERATURE_BITS, 0.7f32.to_bits());
}

#[test]
fn answer_request_has_system_then_user_message() {
    let request = answer_request("What is the balance?", "seallm:7b", "CTX");
    assert_eq!(request.model, "seallm:7b");
    assert_eq!(request.messages.len(), 2);
    assert_eq!(request.messages[0].role, "system");
    assert_eq!(request.messages[0].content, system_prompt("CTX"));
    assert_eq!(request.messages[1].role, "user");
    assert_eq!(request.messages[1].content, "What is the balance?");
    assert_eq!(request.temperature_bits.map(f32::from_bits), Some(0.7));
    assert_eq!(request.max_tokens, None);
}

#[test]
fn answer_request_reaches_the_server_with_options() {
    let request = answer_request("q", "m", "c");
    let body = OllamaClient::chat_request(request);
    assert_eq!(
        body.options,
        Some(OllamaOptions { temperature_bits: Some(0.7f32.to_bits()), num_predict: None })
    );
    assert!(!body.stream);
    assert_eq!(body.model, "m");
}

#[test]
fn chat_request_options_only_when_set() {
    let plain = ChatRequest::new("m").add_message(ChatMessage::user("hi"));
    assert_eq!(plain.messages.len(), 1);
    let body = OllamaClient::chat_request(plain);
    assert_eq!(body.options, None);
    assert_eq!(body.messages.len(), 1);
    assert_eq!(body.messages[0].role, "user");
    assert_eq!(body.messages[0].content, "hi");

    let mut limited = ChatRequest::new("m");
    limited.max_tokens = Some(64);
    let body = OllamaClient::chat_request(limited);
    assert_eq!(body.options, Some(OllamaOptions { temperature_bits: None, num_predict: Some(64) }));
}

#[test]
fn chat_request_keeps_message_order() {
    let request = ChatRequest::new("m")
        .add_message(ChatMessage::system("s"))
        .add_message(ChatMessage::user("u"))
        .with_temperature(0.2f32.to_bits());
    let body = OllamaClient::chat_request(request);
    let roles: Vec<&str> = body.messages.iter().map(|m| m.role.as_str()).collect();
    assert_eq!(roles, vec!["system", "user"]);
    assert_eq!(body.messages[0].content, "s");
    assert_eq!(body.options.unwrap().temperature_bits, Some(0.2f32.to_bits()));
}

#[test]
fn ollama_addresses() {
    let client = OllamaClient::new("http://localhost:11434");
    assert_eq!(client.base_url, "http://localhost:11434");
    assert_eq!(client.chat_url(), "http://localhost:11434/api/chat");
}

#[test]
fn ollama_reply_becomes_chat_response() {
    let client = OllamaClient::new("http://localhost:11434");
    let reply = HttpReply::Success(OllamaChatResponse {
        message: OllamaResponseMessage { content: "The balance is 10.".to_string() },
        model: "seallm:7b".to_string(),
    });
    let response = client.chat(reply).unwrap();
    assert_eq!(response.content, "The balance is 10.");
    assert_eq!(response.model, "seallm:7b");
}

#[test]
fn ollama_refusal_keeps_status_and_body() {
    let client = OllamaClient::new("http://localhost:11434");
    let reply = HttpReply::Failure { status: 500, body: "model not found".to_string() };
    match client.chat(reply) {
        Err(ServiceError::OllamaRejected { status, body }) => {
            assert_eq!(status, 500);
            assert_eq!(body, "model not found");
        }
        other => panic!("unexpected {:?}", other),
    }
}

#[test]
fn rag_response_returns_the_sources() {
    let sources = vec![result(4, 0.9, "t", "s")];
    let response = ChatResponse { content: "answer".to_string(), model: "typhoon:13b".to_string() };
    let rag = rag_response(response, sources);
    assert_eq!(rag.answer, "answer");
    assert_eq!(rag.model, "typhoon:13b");
    assert_eq!(rag.sources.len(), 1);
    assert_eq!(rag.sources[0].id, 4);
}

#[test]
fn command_defaults_to_search() {
    match parse_command(None, None) {
        Command::Search { query } => {
            assert_eq!(query.text, "balance");
            assert_eq!(query.limit, 10);
            assert_eq!(query.score_threshold_bits, None);
        }
        _ => panic!("expected search"),
    }
    assert!(matches!(parse_command(Some("search".to_string()), None), Command::Search { .. }));
    assert!(matches!(parse_command(Some("RAG".to_string()), None), Command::Search { .. }));
}

#[test]
fn command_rag_mode() {
    match parse_command(Some("rag".to_string()), None) {
        Command::Rag { question, num_results } => {
            assert_eq!(question, "What is the balance information?");
            assert_eq!(num_results, 5);
        }
        _ => panic!("expected rag"),
    }
    match parse_command(Some("rag".to_string()), Some("ยอดเงินคงเหลือ?".to_string())) {
        Command::Rag { question, .. } => assert_eq!(question, "ยอดเงินคงเหลือ?"),
        _ => panic!("expected rag"),
    }
}

#[test]
fn preview_takes_leading_characters() {
    assert_eq!(text_preview("abcdef", 3), "abc");
    assert_eq!(text_preview("ab", 100), "ab");
    assert_eq!(text_preview("", 5), "");
    assert_eq!(text_preview("ยอดเงิน", 2), "ยอ");
}
