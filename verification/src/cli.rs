//! What the command line asks for, and how long result texts are shown.
use vstd::prelude::*;
use vstd::string::*;

use crate::models::SearchQuery;

verus! {

/// What the program is asked to do.
pub enum Command {
    /// Answer `question` from the `num_results` best matching documents.
    Rag { question: String, num_results: u64 },
    /// List the documents that match a query.
    Search { query: SearchQuery },
}

/// The question asked when none is given.
pub open spec fn default_question() -> Seq<char> {
    "What is the balance information?"@
}

/// The text searched for in search mode.
pub open spec fn default_search_text() -> Seq<char> {
    "balance"@
}

/// Reads the command from the first two program arguments: the mode, then
/// (in `rag` mode) the question. Any mode other than `rag`, or none, searches
/// for `balance` with at most 10 results; `rag` answers the question (by
/// default `What is the balance information?`) from 5 documents.
pub fn parse_command(mode: Option<String>, question: Option<String>) -> (command: Command)
    ensures
        match command {
            Command::Rag { question: q, num_results } => {
                &&& mode matches Some(m) && m@ == "rag"@
                &&& num_results == 5
                &&& q@ == match question {
                    Some(given) => given@,
                    None => default_question(),
                }
            },
            Command::Search { query } => {
                &&& !(mode matches Some(m) && m@ == "rag"@)
                &&& query.text@ == default_search_text()
                &&& query.limit == 10
                &&& query.score_threshold_bits is None
            },
        },
{
    let rag = String::from_str("rag");
    let is_rag = match &mode {
        Some(m) => *m == rag,
        None => false,
    };
    if is_rag {
        let question = match question {
            Some(q) => q,
            None => String::from_str("What is the balance information?"),
        };
        Command::Rag { question, num_results: 5 }
    } else {
        Command::Search { query: SearchQuery::new("balance", 10) }
    }
}

/// The first `max_chars` characters of `text` (all of it when shorter), as
/// shown in result listings.
pub fn text_preview(text: &str, max_chars: usize) -> (preview: String)
    ensures
        preview@ == text@.take(if max_chars < text@.len() { max_chars as int } else { text@.len() as int }),
{
    let len = text.unicode_len();
    let end = if max_chars < len {
        max_chars
    } else {
        len
    };
    String::from_str(text.substring_char(0, end))
}

} // verus!
