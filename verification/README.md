# orion_rs

Vector search and retrieval-augmented answering over a Qdrant collection,
with answers from a chat model served by Ollama.

- `src/` is the verified library (Verus): settings (`config`), decimal text
  (`numeric`), the values passed around (`models`), point payloads
  (`payload`), reply status and service errors (`http`), the search side
  (`vector_db`), the chat side (`ollama`), prompt and answer assembly
  (`rag_service`) and the command line (`cli`).
- `app/` is the program around it: environment and arguments, the HTTP calls,
  JSON, the embedding model, and printing.
- `tests/` runs the library on concrete values.

Scores and temperatures are `f32` values; the library carries them as their
bit patterns and never computes with them.
