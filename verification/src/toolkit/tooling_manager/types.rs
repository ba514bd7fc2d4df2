use std::collections::HashMap;
use vstd::prelude::*;

verus! {

/// Declares `serde_json::Value`, the JSON value kept in result metadata, as an
/// opaque type: values of it are only carried, and nothing is claimed of them.
#[verifier::external_type_specification]
#[verifier::external_body]
pub struct ExJsonValue(serde_json::Value);

/// What adding a memory did.
pub struct AddMemoryResult {
    pub added: Vec<String>,
    pub updated: Vec<String>,
    pub deleted: Vec<String>,
    pub skipped: usize,
    pub entities_extracted: usize,
    pub reasoning_relations_created: usize,
    pub chunks_created: usize,
    pub metadata: HashMap<String, serde_json::Value>,
}

/// One step of a reasoning chain.
#[derive(Debug, Clone, PartialEq, Eq)]
pub struct ChainNode {
    pub memory_id: String,
    pub content: String,
    pub relation: String,
    pub depth: usize,
}

/// A failure of the memory toolkit. Each variant carries the message of the
/// failure that caused it.
#[derive(Debug, Clone, PartialEq, Eq)]
pub enum ToolingError {
    Embedding(String),
    Extraction(String),
    Chunking(String),
    Entity(String),
    Ontology(String),
    Reasoning(String),
    Memory(String),
    Search(String),
    Database(String),
}

/// The text that introduces the message of an error of the given variant.
pub open spec fn error_prefix(e: ToolingError) -> Seq<char> {
    match e {
        ToolingError::Embedding(_) => "Embedding failed: "@,
        ToolingError::Extraction(_) => "Extraction failed: "@,
        ToolingError::Chunking(_) => "Chunking failed: "@,
        ToolingError::Entity(_) => "Entity operation failed: "@,
        ToolingError::Ontology(_) => "Ontology operation failed: "@,
        ToolingError::Reasoning(_) => "Reasoning operation failed: "@,
        ToolingError::Memory(_) => "Memory operation failed: "@,
        ToolingError::Search(_) => "Search failed: "@,
        ToolingError::Database(_) => "Database error: "@,
    }
}

impl ToolingError {
    /// The message that the error carries.
    pub open spec fn cause(&self) -> Seq<char> {
        match self {
            ToolingError::Embedding(m) => m@,
            ToolingError::Extraction(m) => m@,
            ToolingError::Chunking(m) => m@,
            ToolingError::Entity(m) => m@,
            ToolingError::Ontology(m) => m@,
            ToolingError::Reasoning(m) => m@,
            ToolingError::Memory(m) => m@,
            ToolingError::Search(m) => m@,
            ToolingError::Database(m) => m@,
        }
    }

    /// The error as text: what failed, then the message it carries.
    pub fn to_string(&self) -> (text: String)
        ensures
            text@ == error_prefix(*self) + self.cause(),
            text@.len() >= self.cause().len(),
            text@.skip(text@.len() - self.cause().len()) == self.cause(),
    {
        let (prefix, cause) = match self {
            ToolingError::Embedding(m) => ("Embedding failed: ", m),
            ToolingError::Extraction(m) => ("Extraction failed: ", m),
            ToolingError::Chunking(m) => ("Chunking failed: ", m),
            ToolingError::Entity(m) => ("Entity operation failed: ", m),
            ToolingError::Ontology(m) => ("Ontology operation failed: ", m),
            ToolingError::Reasoning(m) => ("Reasoning operation failed: ", m),
            ToolingError::Memory(m) => ("Memory operation failed: ", m),
            ToolingError::Search(m) => ("Search failed: ", m),
            ToolingError::Database(m) => ("Database error: ", m),
        };
        let text = String::from_str(prefix).concat(cause.as_str());
        assert(text@.skip(text@.len() - self.cause().len()) =~= self.cause());
        text
    }
}

} // verus!
