# helixir

Verified core of a graph-based memory for language-model agents.

- `src/llm/extractor.rs`: the records an extraction yields, the prompts sent to
  the model (`LlmExtractor::build_system_prompt`, `extraction_request`) and how a
  reply settles into a result (`ExtractionResult::from_parsed`).
- `src/toolkit/tooling_manager/helpers.rs`: character-safe truncation, the
  queries run against the memory graph and the decisions taken on their replies,
  including the rewrite of a memory as a state machine (`MemoryUpdate`).
- `src/toolkit/tooling_manager/types.rs`: result records and `ToolingError`.
- `app/`: serde forms of the records, the model call and the graph calls.
