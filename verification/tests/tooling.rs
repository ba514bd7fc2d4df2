use helixir::toolkit::tooling_manager::helpers::{
    concept_link_query, database_outcome, memory_type_from_lookup, memory_type_query,
    safe_truncate, user_creation_query, user_lookup_query, DbQuery, MemoryUpdate, UpdateAction,
    UpdateStage, UPDATED_CERTAINTY, UPDATED_IMPORTANCE,
};
use helixir::toolkit::tooling_manager::types::{ChainNode, ToolingError};

const T1: &str = "2025-01-01T00:00:00+00:00";
const T2: &str = "2025-01-01T00:00:01+00:00";
const T3: &str = "2025-01-01T00:00:02+00:00";
const MODEL: &str = "text-embedding-3-small";

fn s(text: &str) -> String {
    text.to_string()
}

#[test]
fn truncate_shorter_than_text() {
    assert_eq!(safe_truncate("hello world", 5), "hello");
}

#[test]
fn truncate_never_splits_a_character() {
    assert_eq!(safe_truncate("héllo wörld", 2), "hé");
    assert_eq!(safe_truncate("日本語のテキスト", 3), "日本語");
}

#[test]
fn truncate_longer_than_text_keeps_everything() {
    assert_eq!(safe_truncate("abc", 50), "abc");
    assert_eq!(safe_truncate("abc", 3), "abc");
}

#[test]
fn truncate_to_zero_and_empty() {
    assert_eq!(safe_truncate("abc", 0), "");
    assert_eq!(safe_truncate("", 10), "");
}

#[test]
fn truncate_twice_is_truncate_once() {
    let once = safe_truncate("a long text to cut short", 7);
    assert_eq!(safe_truncate(&once, 7), once);
}

#[test]
fn query_names() {
    assert_eq!(memory_type_query("m1").name(), "getMemory");
    assert_eq!(user_lookup_query("u1").name(), "getUser");
    assert_eq!(user_creation_query("u1", None).unwrap().name(), "addUser");
    assert_eq!(concept_link_query("m1", "c1", 5).name(), "linkMemoryToInstanceOf");
    let (_, first) = MemoryUpdate::start(s("m1"), s("new"), s(T1), s(MODEL));
    assert_eq!(first.name(), "updateMemory");
    assert_eq!(DbQuery::DeleteMemoryEmbedding { memory_id: s("m1") }.name(), "deleteMemoryEmbedding");
    assert_eq!(DbQuery::AddMemoryEmbedding { memory_id: s("m1"), embedding_model: s(MODEL), created_at: s(T2) }.name(), "addMemoryEmbedding");
}

#[test]
fn memory_type_lookup_query() {
    assert_eq!(memory_type_query("mem_42"), DbQuery::GetMemory { memory_id: s("mem_42") });
}

#[test]
fn memory_type_from_lookups() {
    assert_eq!(memory_type_from_lookup(Some(Some(s("preference")))), Some(s("preference")));
    assert_eq!(memory_type_from_lookup(Some(Some(s("")))), None);
    assert_eq!(memory_type_from_lookup(Some(None)), None);
    assert_eq!(memory_type_from_lookup(None), None);
}

#[test]
fn existing_user_is_not_created_again() {
    assert_eq!(user_lookup_query("alice"), DbQuery::GetUser { user_id: s("alice") });
    assert_eq!(user_creation_query("alice", Some(true)), None);
}

#[test]
fn missing_user_is_created_named_by_its_id() {
    let expected = Some(DbQuery::AddUser { user_id: s("alice"), name: s("alice") });
    assert_eq!(user_creation_query("alice", Some(false)), expected);
    assert_eq!(user_creation_query("alice", None), expected);
}

#[test]
fn concept_link_carries_confidence() {
    assert_eq!(
        concept_link_query("m1", "concept_skill", 85),
        DbQuery::LinkMemoryToInstanceOf {
            memory_id: s("m1"),
            concept_id: s("concept_skill"),
            confidence: 85,
        }
    );
    assert_eq!(
        concept_link_query("m1", "c", i32::MIN),
        DbQuery::LinkMemoryToInstanceOf { memory_id: s("m1"), concept_id: s("c"), confidence: -2147483648 }
    );
}

#[test]
fn database_failures_become_database_errors() {
    assert_eq!(database_outcome(Ok(())), Ok(()));
    assert_eq!(database_outcome(Err(s("timeout"))), Err(ToolingError::Database(s("timeout"))));
}

#[test]
fn error_messages() {
    let cases = [
        (ToolingError::Embedding(s("x")), "Embedding failed: x"),
        (ToolingError::Extraction(s("x")), "Extraction failed: x"),
        (ToolingError::Chunking(s("x")), "Chunking failed: x"),
        (ToolingError::Entity(s("x")), "Entity operation failed: x"),
        (ToolingError::Ontology(s("x")), "Ontology operation failed: x"),
        (ToolingError::Reasoning(s("x")), "Reasoning operation failed: x"),
        (ToolingError::Memory(s("x")), "Memory operation failed: x"),
        (ToolingError::Search(s("x")), "Search failed: x"),
        (ToolingError::Database(s("connection refused")), "Database error: connection refused"),
    ];
    for (error, text) in cases {
        assert_eq!(error.to_string(), text);
    }
}

#[test]
fn update_starts_with_content() {
    let (update, first) = MemoryUpdate::start(s("m1"), s("Prefers Go now"), s(T1), s(MODEL));
    assert_eq!(
        update,
        MemoryUpdate { memory_id: s("m1"), embedding_model: s(MODEL), stage: UpdateStage::Updating }
    );
    assert_eq!(
        first,
        DbQuery::UpdateMemory {
            memory_id: s("m1"),
            content: s("Prefers Go now"),
            certainty: 90,
            importance: 75,
            updated_at: s(T1),
        }
    );
    assert_eq!(UPDATED_CERTAINTY, 90);
    assert_eq!(UPDATED_IMPORTANCE, 75);
    assert!(!update.is_finished());
}

#[test]
fn update_happy_path() {
    let (mut update, _) = MemoryUpdate::start(s("m1"), s("c"), s(T1), s(MODEL));
    assert_eq!(
        update.advance(Ok(None), s(T2)),
        UpdateAction::Run(DbQuery::DeleteMemoryEmbedding { memory_id: s("m1") })
    );
    assert_eq!(update.advance(Ok(None), s(T2)), UpdateAction::Run(DbQuery::GetMemory { memory_id: s("m1") }));
    assert_eq!(
        update.advance(Ok(Some(s("internal-7"))), s(T2)),
        UpdateAction::Run(DbQuery::AddMemoryEmbedding {
            memory_id: s("internal-7"),
            embedding_model: s(MODEL),
            created_at: s(T2),
        })
    );
    assert!(!update.is_finished());
    assert_eq!(update.advance(Ok(None), s(T2)), UpdateAction::Finish(Ok(())));
    assert!(update.is_finished());
}

#[test]
fn update_failure_stops_with_database_error() {
    let (mut update, _) = MemoryUpdate::start(s("m1"), s("c"), s(T1), s(MODEL));
    assert_eq!(
        update.advance(Err(s("no such memory")), s(T2)),
        UpdateAction::Finish(Err(ToolingError::Database(s("no such memory"))))
    );
    assert!(update.is_finished());
}

#[test]
fn update_tolerates_embedding_failures() {
    let (mut update, _) = MemoryUpdate::start(s("m1"), s("c"), s(T1), s(MODEL));
    assert!(matches!(update.advance(Ok(None), s(T2)), UpdateAction::Run(_)));
    assert_eq!(
        update.advance(Err(s("no embedding")), s(T2)),
        UpdateAction::Run(DbQuery::GetMemory { memory_id: s("m1") })
    );
    assert_eq!(
        update.advance(Err(s("lookup failed")), s(T3)),
        UpdateAction::Run(DbQuery::AddMemoryEmbedding {
            memory_id: s("m1"),
            embedding_model: s(MODEL),
            created_at: s(T3),
        })
    );
    assert_eq!(update.advance(Err(s("store failed")), s(T2)), UpdateAction::Finish(Ok(())));
}

#[test]
fn chain_node_fields() {
    let node = ChainNode { memory_id: s("m"), content: s("c"), relation: s("BECAUSE"), depth: 2 };
    assert_eq!(node.clone(), node);
}

#[test]
fn finished_update_stays_finished() {
    let (mut update, _) = MemoryUpdate::start(s("m1"), s("c"), s(T1), s(MODEL));
    let _ = update.advance(Err(s("down")), s(T2));
    assert_eq!(update.advance(Ok(None), s(T3)), UpdateAction::Finish(Ok(())));
    assert!(update.is_finished());
}
