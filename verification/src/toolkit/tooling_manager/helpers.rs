use vstd::prelude::*;

use super::types::ToolingError;

verus! {

/// The first `max_chars` characters of `s`, or all of `s` where it is shorter.
pub open spec fn truncated(s: Seq<char>, max_chars: nat) -> Seq<char> {
    if max_chars < s.len() {
        s.take(max_chars as int)
    } else {
        s
    }
}

/// Cuts `s` after at most `max_chars` characters, never inside a character.
pub fn safe_truncate(s: &str, max_chars: usize) -> (cut: String)
    ensures
        cut@ == truncated(s@, max_chars as nat),
        cut@.len() == (if max_chars < s@.len() {
            max_chars as nat
        } else {
            s@.len()
        }),
        cut@.is_prefix_of(s@),
{
    let len = s.unicode_len();
    let end = if max_chars < len {
        max_chars
    } else {
        len
    };
    let cut = String::from_str(s.substring_char(0, end));
    assert(s@.subrange(0, len as int) =~= s@);
    cut
}

/// A cut text is the start of the text, `max_chars` characters long or the
/// whole text where that is shorter; cutting it again at the same length
/// changes nothing.
pub proof fn lemma_truncation_is_prefix(s: Seq<char>, max_chars: nat)
    ensures
        truncated(s, max_chars).len() == (if max_chars < s.len() {
            max_chars
        } else {
            s.len()
        }),
        truncated(s, max_chars).is_prefix_of(s),
        truncated(truncated(s, max_chars), max_chars) == truncated(s, max_chars),
{
}

/// A query of the memory graph, with its parameters. `S` is the type of the
/// text parameters: `String` in code, `Seq<char>` in contracts.
#[derive(Debug, Clone, PartialEq, Eq)]
pub enum DbQuery<S> {
    GetMemory { memory_id: S },
    GetUser { user_id: S },
    AddUser { user_id: S, name: S },
    LinkMemoryToInstanceOf { memory_id: S, concept_id: S, confidence: i64 },
    UpdateMemory { memory_id: S, content: S, certainty: i64, importance: i64, updated_at: S },
    DeleteMemoryEmbedding { memory_id: S },
    /// The vector itself is added by whoever runs the query.
    AddMemoryEmbedding { memory_id: S, embedding_model: S, created_at: S },
}

impl View for DbQuery<String> {
    type V = DbQuery<Seq<char>>;

    open spec fn view(&self) -> DbQuery<Seq<char>> {
        match self {
            DbQuery::GetMemory { memory_id } => DbQuery::GetMemory { memory_id: memory_id@ },
            DbQuery::GetUser { user_id } => DbQuery::GetUser { user_id: user_id@ },
            DbQuery::AddUser { user_id, name } => DbQuery::AddUser {
                user_id: user_id@,
                name: name@,
            },
            DbQuery::LinkMemoryToInstanceOf { memory_id, concept_id, confidence } =>
                DbQuery::LinkMemoryToInstanceOf {
                memory_id: memory_id@,
                concept_id: concept_id@,
                confidence: *confidence,
            },
            DbQuery::UpdateMemory { memory_id, content, certainty, importance, updated_at } =>
                DbQuery::UpdateMemory {
                memory_id: memory_id@,
                content: content@,
                certainty: *certainty,
                importance: *importance,
                updated_at: updated_at@,
            },
            DbQuery::DeleteMemoryEmbedding { memory_id } => DbQuery::DeleteMemoryEmbedding {
                memory_id: memory_id@,
            },
            DbQuery::AddMemoryEmbedding { memory_id, embedding_model, created_at } =>
                DbQuery::AddMemoryEmbedding {
                memory_id: memory_id@,
                embedding_model: embedding_model@,
                created_at: created_at@,
            },
        }
    }
}

/// The name under which the graph knows a query.
pub open spec fn query_name(q: DbQuery<Seq<char>>) -> Seq<char> {
    match q {
        DbQuery::GetMemory { .. } => "getMemory"@,
        DbQuery::GetUser { .. } => "getUser"@,
        DbQuery::AddUser { .. } => "addUser"@,
        DbQuery::LinkMemoryToInstanceOf { .. } => "linkMemoryToInstanceOf"@,
        DbQuery::UpdateMemory { .. } => "updateMemory"@,
        DbQuery::DeleteMemoryEmbedding { .. } => "deleteMemoryEmbedding"@,
        DbQuery::AddMemoryEmbedding { .. } => "addMemoryEmbedding"@,
    }
}

/// Which kind of query `q` is, by the order of the variants.
pub open spec fn query_kind(q: DbQuery<Seq<char>>) -> int {
    match q {
        DbQuery::GetMemory { .. } => 0,
        DbQuery::GetUser { .. } => 1,
        DbQuery::AddUser { .. } => 2,
        DbQuery::LinkMemoryToInstanceOf { .. } => 3,
        DbQuery::UpdateMemory { .. } => 4,
        DbQuery::DeleteMemoryEmbedding { .. } => 5,
        DbQuery::AddMemoryEmbedding { .. } => 6,
    }
}

/// Queries of different kinds have different names, and a query's name does
/// not depend on its parameters.
pub proof fn lemma_query_names_tell_kinds_apart(a: DbQuery<Seq<char>>, b: DbQuery<Seq<char>>)
    ensures
        query_name(a) == query_name(b) <==> query_kind(a) == query_kind(b),
{
    reveal_strlit("getMemory");
    reveal_strlit("getUser");
    reveal_strlit("addUser");
    reveal_strlit("linkMemoryToInstanceOf");
    reveal_strlit("updateMemory");
    reveal_strlit("deleteMemoryEmbedding");
    reveal_strlit("addMemoryEmbedding");
    if query_kind(a) != query_kind(b) {
        assert(query_name(a)[0] != query_name(b)[0] || query_name(a).len() != query_name(b).len()
            || query_name(a)[3] != query_name(b)[3]);
    }
}

impl DbQuery<String> {
    /// The name under which the graph knows this query.
    pub fn name(&self) -> (name: &'static str)
        ensures
            name@ == query_name(self@),
    {
        match self {
            DbQuery::GetMemory { .. } => "getMemory",
            DbQuery::GetUser { .. } => "getUser",
            DbQuery::AddUser { .. } => "addUser",
            DbQuery::LinkMemoryToInstanceOf { .. } => "linkMemoryToInstanceOf",
            DbQuery::UpdateMemory { .. } => "updateMemory",
            DbQuery::DeleteMemoryEmbedding { .. } => "deleteMemoryEmbedding",
            DbQuery::AddMemoryEmbedding { .. } => "addMemoryEmbedding",
        }
    }
}

/// The lookup that reads the type of a memory.
pub fn memory_type_query(memory_id: &str) -> (query: DbQuery<String>)
    ensures
        query@ == (DbQuery::GetMemory { memory_id: memory_id@ }),
{
    DbQuery::GetMemory { memory_id: String::from_str(memory_id) }
}

/// The type of a memory, given what its lookup gave: `None` where the lookup
/// failed, `Some(None)` where it found no memory, `Some(Some(t))` where the
/// memory has type `t`. An empty type counts as no type.
pub fn memory_type_from_lookup(lookup: Option<Option<String>>) -> (memory_type: Option<String>)
    ensures
        memory_type == (match lookup {
            Some(Some(t)) => if t@.len() > 0 {
                Some(t)
            } else {
                None
            },
            _ => None,
        }),
{
    match lookup {
        Some(Some(t)) => if t.as_str().is_empty() {
            None
        } else {
            Some(t)
        },
        _ => None,
    }
}

/// The lookup that tells whether a user exists.
pub fn user_lookup_query(user_id: &str) -> (query: DbQuery<String>)
    ensures
        query@ == (DbQuery::GetUser { user_id: user_id@ }),
{
    DbQuery::GetUser { user_id: String::from_str(user_id) }
}

/// The query that creates a user, given what the user's lookup gave:
/// `Some(found)` where it answered, `None` where it failed. A user is created,
/// named by its id, unless the lookup found it.
pub fn user_creation_query(user_id: &str, lookup: Option<bool>) -> (query: Option<
    DbQuery<String>,
>)
    ensures
        lookup == Some(true) ==> query is None,
        lookup != Some(true) ==> (query matches Some(q) && q@ == (DbQuery::AddUser {
            user_id: user_id@,
            name: user_id@,
        })),
{
    match lookup {
        Some(true) => None,
        _ => Some(
            DbQuery::AddUser { user_id: String::from_str(user_id), name: String::from_str(user_id) },
        ),
    }
}

/// The query that files a memory under a concept with the given confidence.
pub fn concept_link_query(memory_id: &str, concept_id: &str, confidence: i32) -> (query: DbQuery<
    String,
>)
    ensures
        query@ == (DbQuery::LinkMemoryToInstanceOf {
            memory_id: memory_id@,
            concept_id: concept_id@,
            confidence: confidence as i64,
        }),
{
    DbQuery::LinkMemoryToInstanceOf {
        memory_id: String::from_str(memory_id),
        concept_id: String::from_str(concept_id),
        confidence: confidence as i64,
    }
}

/// The outcome of a query whose failure fails the operation: a failure with
/// message `m` becomes a database error carrying `m`.
pub fn database_outcome(outcome: Result<(), String>) -> (result: Result<(), ToolingError>)
    ensures
        outcome is Ok ==> result is Ok,
        outcome matches Err(m) ==> result == Err::<(), ToolingError>(ToolingError::Database(m)),
{
    match outcome {
        Ok(()) => Ok(()),
        Err(m) => Err(ToolingError::Database(m)),
    }
}

/// Certainty given to a memory whose content was rewritten.
pub const UPDATED_CERTAINTY: i64 = 90;

/// Importance given to a memory whose content was rewritten.
pub const UPDATED_IMPORTANCE: i64 = 75;

/// Where the rewrite of a memory stands: which query's reply it waits for.
#[derive(Debug, Clone, Copy, PartialEq, Eq, Structural)]
pub enum UpdateStage {
    /// Waits for the reply to the update of the content.
    Updating,
    /// Waits for the reply to the removal of the old embedding.
    RemovingEmbedding,
    /// Waits for the reply to the lookup of the memory's internal id.
    ResolvingId,
    /// Waits for the reply to the storing of the new embedding.
    StoringEmbedding,
    /// Done.
    Finished,
}

/// What the rewrite of a memory does next.
#[derive(Debug, PartialEq, Eq)]
pub enum UpdateAction {
    /// Run this query and hand its reply back.
    Run(DbQuery<String>),
    /// Stop, with this result.
    Finish(Result<(), ToolingError>),
}

/// The rewrite of a memory's content and embedding, as a sequence of queries.
/// Replies are handed back as `Ok(None)` for a success, `Ok(Some(id))` for a
/// lookup that found the memory's internal id, `Err(m)` for a failure, each
/// together with the time at which it came back.
#[derive(Debug, PartialEq, Eq)]
pub struct MemoryUpdate {
    pub memory_id: String,
    /// Name of the model that made the new embedding.
    pub embedding_model: String,
    pub stage: UpdateStage,
}

/// What one reply, which came back at time `now`, does to the rewrite of a
/// memory: the next state and action. Only a failed update of the content
/// fails the rewrite; the embedding is stored under the internal id where the
/// lookup found one, else under the memory's own id, with the model's name and
/// the time at which the lookup's reply came back.
pub open spec fn update_step(
    update: MemoryUpdate,
    reply: Result<Option<String>, String>,
    now: String,
) -> (MemoryUpdate, UpdateAction) {
    let m = update.memory_id;
    let at = |stage: UpdateStage| MemoryUpdate { stage, ..update };
    match update.stage {
        UpdateStage::Updating => match reply {
            Err(e) => (
                at(UpdateStage::Finished),
                UpdateAction::Finish(Err(ToolingError::Database(e))),
            ),
            Ok(_) => (
                at(UpdateStage::RemovingEmbedding),
                UpdateAction::Run(DbQuery::DeleteMemoryEmbedding { memory_id: m }),
            ),
        },
        UpdateStage::RemovingEmbedding => (
            at(UpdateStage::ResolvingId),
            UpdateAction::Run(DbQuery::GetMemory { memory_id: m }),
        ),
        UpdateStage::ResolvingId => {
            let id = match reply {
                Ok(Some(id)) => id,
                _ => m,
            };
            (
                at(UpdateStage::StoringEmbedding),
                UpdateAction::Run(
                    DbQuery::AddMemoryEmbedding {
                        memory_id: id,
                        embedding_model: update.embedding_model,
                        created_at: now,
                    },
                ),
            )
        },
        UpdateStage::StoringEmbedding | UpdateStage::Finished => (
            at(UpdateStage::Finished),
            UpdateAction::Finish(Ok(())),
        ),
    }
}

impl MemoryUpdate {
    /// Starts the rewrite of a memory with `new_content`, at time `updated_at`,
    /// for an embedding made by `embedding_model`: the first query updates the
    /// content, with the certainty and importance of a rewritten memory and the
    /// time of the update.
    pub fn start(
        memory_id: String,
        new_content: String,
        updated_at: String,
        embedding_model: String,
    ) -> (started: (MemoryUpdate, DbQuery<String>))
        ensures
            started.0 == (MemoryUpdate { memory_id, embedding_model, stage: UpdateStage::Updating }),
            started.1 == (DbQuery::UpdateMemory {
                memory_id,
                content: new_content,
                certainty: UPDATED_CERTAINTY,
                importance: UPDATED_IMPORTANCE,
                updated_at,
            }),
    {
        let query = DbQuery::UpdateMemory {
            memory_id: memory_id.clone(),
            content: new_content,
            certainty: UPDATED_CERTAINTY,
            importance: UPDATED_IMPORTANCE,
            updated_at,
        };
        (MemoryUpdate { memory_id, embedding_model, stage: UpdateStage::Updating }, query)
    }

    /// Whether the rewrite is done.
    pub fn is_finished(&self) -> (finished: bool)
        ensures
            finished == (self.stage == UpdateStage::Finished),
    {
        self.stage == UpdateStage::Finished
    }

    /// Hands back the reply to the last query, which came back at time `now`,
    /// and says what to do next. A finished rewrite stays finished.
    pub fn advance(&mut self, reply: Result<Option<String>, String>, now: String) -> (action:
        UpdateAction)
        ensures
            (*final(self), action) == update_step(*old(self), reply, now),
    {
        match self.stage {
            UpdateStage::Updating => match reply {
                Err(e) => {
                    self.stage = UpdateStage::Finished;
                    UpdateAction::Finish(Err(ToolingError::Database(e)))
                },
                Ok(_) => {
                    self.stage = UpdateStage::RemovingEmbedding;
                    UpdateAction::Run(DbQuery::DeleteMemoryEmbedding { memory_id: self.memory_id.clone() })
                },
            },
            UpdateStage::RemovingEmbedding => {
                self.stage = UpdateStage::ResolvingId;
                UpdateAction::Run(DbQuery::GetMemory { memory_id: self.memory_id.clone() })
            },
            UpdateStage::ResolvingId => {
                let id = match reply {
                    Ok(Some(id)) => id,
                    _ => self.memory_id.clone(),
                };
                self.stage = UpdateStage::StoringEmbedding;
                UpdateAction::Run(
                    DbQuery::AddMemoryEmbedding {
                        memory_id: id,
                        embedding_model: self.embedding_model.clone(),
                        created_at: now,
                    },
                )
            },
            _ => {
                self.stage = UpdateStage::Finished;
                UpdateAction::Finish(Ok(()))
            },
        }
    }
}

/// A rewrite whose update of the content fails stops at once with a database
/// error that carries the failure's message, and runs no further query.
pub proof fn lemma_update_failure_stops(
    memory_id: String,
    embedding_model: String,
    failure: String,
    now: String,
)
    ensures
        update_step(
            MemoryUpdate { memory_id, embedding_model, stage: UpdateStage::Updating },
            Err(failure),
            now,
        ) == (
            MemoryUpdate { memory_id, embedding_model, stage: UpdateStage::Finished },
            UpdateAction::Finish(Err(ToolingError::Database(failure))),
        ),
{
}

/// Once the content is updated, the rewrite removes the old embedding, looks up
/// the memory's internal id, stores the new embedding under the id found (or
/// under the memory's own id where the lookup found none or failed), with the
/// model's name and the time at which the lookup's reply came back, and
/// finishes with success, whatever the replies to these three queries.
pub proof fn lemma_update_after_content_succeeds(
    memory_id: String,
    embedding_model: String,
    updated: Result<Option<String>, String>,
    removed: Result<Option<String>, String>,
    looked_up: Result<Option<String>, String>,
    stored: Result<Option<String>, String>,
    t1: String,
    t2: String,
    t3: String,
    t4: String,
)
    requires
        updated is Ok,
    ensures
        ({
            let u0 = MemoryUpdate { memory_id, embedding_model, stage: UpdateStage::Updating };
            let (u1, a1) = update_step(u0, updated, t1);
            let (u2, a2) = update_step(u1, removed, t2);
            let (u3, a3) = update_step(u2, looked_up, t3);
            let (u4, a4) = update_step(u3, stored, t4);
            let id = match looked_up {
                Ok(Some(id)) => id,
                _ => memory_id,
            };
            &&& a1 == UpdateAction::Run(DbQuery::DeleteMemoryEmbedding { memory_id })
            &&& u1.stage != UpdateStage::Finished
            &&& a2 == UpdateAction::Run(DbQuery::GetMemory { memory_id })
            &&& u2.stage != UpdateStage::Finished
            &&& a3 == UpdateAction::Run(
                DbQuery::AddMemoryEmbedding { memory_id: id, embedding_model, created_at: t3 },
            )
            &&& u3.stage != UpdateStage::Finished
            &&& a4 == UpdateAction::Finish(Ok(()))
            &&& u4 == (MemoryUpdate { memory_id, embedding_model, stage: UpdateStage::Finished })
        }),
{
}

} // verus!
