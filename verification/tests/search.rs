use orion_rs::http::{is_success, HttpReply, ServiceError};
use orion_rs::models::SearchQuery;
use orion_rs::payload::{Payload, PayloadValue};
use orion_rs::vector_db::{QdrantClient, QdrantScoredPoint};

fn text(s: &str) -> PayloadValue {
    PayloadValue::Text(s.to_string())
}

fn as_text(v: Option<&PayloadValue>) -> Option<String> {
    match v {
        Some(PayloadValue::Text(s)) => Some(s.clone()),
        Some(PayloadValue::Other) => Some("<other>".to_string()),
        None => None,
    }
}

#[test]
fn payload_reads_back_what_was_written() {
    let mut payload = Payload::new();
    assert!(payload.get(&"text".to_string()).is_none());
    payload.insert("text".to_string(), text("hello"));
    payload.insert("page".to_string(), PayloadValue::Other);
    assert_eq!(as_text(payload.get(&"text".to_string())), Some("hello".to_string()));
    assert_eq!(as_text(payload.get(&"page".to_string())), Some("<other>".to_string()));
    payload.insert("text".to_string(), text("bye"));
    assert_eq!(as_text(payload.get(&"text".to_string())), Some("bye".to_string()));
    assert_eq!(as_text(payload.get(&"page".to_string())), Some("<other>".to_string()));
    assert!(payload.get(&"missing".to_string()).is_none());
}

#[test]
fn status_success_is_the_2xx_class() {
    assert!(!is_success(199));
    assert!(is_success(200));
    assert!(is_success(204));
    assert!(is_success(299));
    assert!(!is_success(300));
    assert!(!is_success(404));
    assert!(!is_success(500));
}

#[test]
fn search_query_builder() {
    let query = SearchQuery::new("balance", 10);
    assert_eq!(query.text, "balance");
    assert_eq!(query.limit, 10);
    assert_eq!(query.score_threshold_bits, None);
    let query = query.with_threshold(0.5f32.to_bits());
    assert_eq!(query.text, "balance");
    assert_eq!(query.limit, 10);
    assert_eq!(query.score_threshold_bits.map(f32::from_bits), Some(0.5));
}

#[test]
fn qdrant_addresses() {
    let client = QdrantClient::new("localhost", 6333, "banking_statement");
    assert_eq!(client.base_url, "http://localhost:6333");
    assert_eq!(client.collection_name, "banking_statement");
    assert_eq!(
        client.search_url(),
        "http://localhost:6333/collections/banking_statement/points/search"
    );
    let client = QdrantClient::new("10.0.0.2", 0, "c");
    assert_eq!(client.base_url, "http://10.0.0.2:0");
}

#[test]
fn point_fields_default_when_missing() {
    let client = QdrantClient::new("localhost", 6333, "banking_statement");
    let point = QdrantScoredPoint { id: 3, score_bits: 0.25f32.to_bits(), payload: Payload::new() };
    let result = client.parse_scored_point(&point);
    assert_eq!(result.id, 3);
    assert_eq!(f32::from_bits(result.score_bits), 0.25);
    assert_eq!(result.text, "");
    assert_eq!(result.source_file, "unknown");
    assert_eq!(result.collection, "banking_statement");
}

#[test]
fn point_fields_that_are_not_strings_default_too() {
    let client = QdrantClient::new("localhost", 6333, "banking_statement");
    let mut payload = Payload::new();
    payload.insert("text".to_string(), PayloadValue::Other);
    payload.insert("source_file".to_string(), PayloadValue::Other);
    payload.insert("collection".to_string(), PayloadValue::Other);
    let point = QdrantScoredPoint { id: 1, score_bits: 0, payload };
    let result = client.parse_scored_point(&point);
    assert_eq!(result.text, "");
    assert_eq!(result.source_file, "unknown");
    assert_eq!(result.collection, "banking_statement");
}

#[test]
fn point_fields_from_payload() {
    let client = QdrantClient::new("localhost", 6333, "banking_statement");
    let mut payload = Payload::new();
    payload.insert("text".to_string(), text("data_type: Array"));
    payload.insert("source_file".to_string(), text("statement.json"));
    payload.insert("collection".to_string(), text("other_collection"));
    let point = QdrantScoredPoint { id: 0, score_bits: 0.8542f32.to_bits(), payload };
    let result = client.parse_scored_point(&point);
    assert_eq!(result.text, "data_type: Array");
    assert_eq!(result.source_file, "statement.json");
    assert_eq!(result.collection, "other_collection");
    assert_eq!(f32::from_bits(result.score_bits), 0.8542);
}

#[test]
fn search_keeps_points_in_order() {
    let client = QdrantClient::new("localhost", 6333, "banking_statement");
    let mut points = Vec::new();
    for id in [5u64, 2, 9] {
        let mut payload = Payload::new();
        payload.insert("text".to_string(), text(&format!("doc {}", id)));
        points.push(QdrantScoredPoint { id, score_bits: (id as f32).to_bits(), payload });
    }
    let results = client.search(HttpReply::Success(points)).unwrap();
    assert_eq!(results.len(), 3);
    assert_eq!(results.iter().map(|r| r.id).collect::<Vec<_>>(), vec![5, 2, 9]);
    assert_eq!(results[1].text, "doc 2");
    assert_eq!(f32::from_bits(results[2].score_bits), 9.0);
}

#[test]
fn search_with_no_points_is_empty() {
    let client = QdrantClient::new("localhost", 6333, "c");
    assert!(client.search(HttpReply::Success(Vec::new())).unwrap().is_empty());
}

#[test]
fn search_refusal_keeps_status_and_body() {
    let client = QdrantClient::new("localhost", 6333, "c");
    let reply = HttpReply::Failure { status: 404, body: "Collection not found".to_string() };
    match client.search(reply) {
        Err(ServiceError::QdrantRejected { status, body }) => {
            assert_eq!(status, 404);
            assert_eq!(body, "Collection not found");
        }
        other => panic!("unexpected {:?}", other),
    }
}

#[test]
fn search_request_asks_for_payloads() {
    let request = QdrantClient::search_request(10, None);
    assert_eq!(request.limit, 10);
    assert!(request.with_payload);
    assert_eq!(request.score_threshold_bits, None);
    let request = QdrantClient::search_request(5, Some(0.5f32.to_bits()));
    assert_eq!(request.limit, 5);
    assert_eq!(request.score_threshold_bits, Some(0.5f32.to_bits()));
}
