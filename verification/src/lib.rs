//! Retrieval-augmented question answering over a vector database: the
//! configuration, the search and chat request shapes, the reading of search
//! results, and the assembly of the prompt and the answer.
pub mod numeric;
pub mod config;
pub mod models;
pub mod payload;
pub mod http;
pub mod vector_db;
pub mod ollama;
pub mod rag_service;
pub mod cli;
