use vstd::prelude::*;

verus! {

/// Opening of the extraction instructions: the task and the schema of `memories`.
pub const SCHEMA_HEADER: &'static str = r#"You are a memory extraction system. Analyze the text and extract structured information.

Output JSON with this structure:
{
  "memories": [
    {
      "text": "atomic fact or preference",
      "memory_type": "fact|preference|goal|opinion|experience",
      "certainty": 80,
      "importance": 50,
      "entities": ["entity_id1", "entity_id2"]
    }
  ]"#;

/// Schema of `entities`, used when entities are asked for.
pub const ENTITY_SCHEMA: &'static str = r#",
  "entities": [
    {
      "id": "unique_id",
      "name": "Entity Name",
      "type": "person|organization|location|concept|system"
    }
  ]"#;

/// An always-empty `entities` list, used when entities are not asked for.
pub const NO_ENTITIES: &'static str = r#",
  "entities": []"#;

/// Schema of `relations`, used when relations are asked for.
pub const RELATION_SCHEMA: &'static str = r#",
  "relations": [
    {
      "from_memory_index": 0,
      "to_memory_index": 1,
      "relation_type": "IMPLIES|BECAUSE|CONTRADICTS|SUPPORTS",
      "strength": 80,
      "confidence": 80,
      "explanation": "Why this relation exists"
    }
  ]"#;

/// Guidance on the relation types, following the relation schema.
pub const RELATION_GUIDE: &'static str = r#"

Relations use INDICES into the memories array (0-based).
Relation types:
- IMPLIES: memory A logically leads to or suggests memory B
- BECAUSE: memory A is the reason/cause for memory B
- CONTRADICTS: memory A conflicts with memory B
- SUPPORTS: memory A provides evidence for memory B

Always look for causal and logical connections between extracted memories. If the text contains cause-effect, reasoning, or contradictions, you MUST extract them as relations."#;

/// An always-empty `relations` list, used when relations are not asked for.
pub const NO_RELATIONS: &'static str = r#",
  "relations": []"#;

/// Closing of the extraction instructions.
pub const CLOSING_INSTRUCTION: &'static str = "\n}\n\nExtract atomic, standalone facts. Each memory should be self-contained.";

/// Text put in front of the user's text in the user prompt.
pub const USER_PROMPT_PREFIX: &'static str = "Extract information from this text:\n\n";

/// Response format asked of the model.
pub const RESPONSE_FORMAT: &'static str = "json_object";

/// The system prompt for the given choice of sections, as text.
pub open spec fn system_prompt_text(extract_entities: bool, extract_relations: bool) -> Seq<char> {
    SCHEMA_HEADER@ + (if extract_entities {
        ENTITY_SCHEMA@
    } else {
        NO_ENTITIES@
    }) + (if extract_relations {
        RELATION_SCHEMA@ + RELATION_GUIDE@
    } else {
        NO_RELATIONS@
    }) + CLOSING_INSTRUCTION@
}

/// The user prompt for a text, as text.
pub open spec fn user_prompt_text(text: Seq<char>) -> Seq<char> {
    USER_PROMPT_PREFIX@ + text
}

/// What the model extracted from a text.
#[derive(Debug, Clone)]
pub struct ExtractionResult {
    pub memories: Vec<ExtractedMemory>,
    pub entities: Vec<ExtractedEntity>,
    pub relations: Vec<ExtractedRelation>,
}

/// One atomic memory.
#[derive(Debug, Clone)]
pub struct ExtractedMemory {
    pub text: String,
    pub memory_type: String,
    pub certainty: i32,
    pub importance: i32,
    pub entities: Vec<String>,
}

/// A named entity.
#[derive(Debug, Clone)]
pub struct ExtractedEntity {
    pub id: String,
    pub name: String,
    pub entity_type: String,
}

/// A reasoning relation between two memories.
#[derive(Debug, Clone)]
pub struct ExtractedRelation {
    pub from_memory_index: Option<usize>,
    pub to_memory_index: Option<usize>,
    pub from_memory_content: String,
    pub to_memory_content: String,
    pub relation_type: String,
    pub strength: i32,
    pub confidence: i32,
    pub explanation: String,
}

/// Strength of a relation whose strength the model left out.
pub fn default_strength() -> (strength: i32)
    ensures
        strength == 80,
{
    80
}

/// Confidence of a relation whose confidence the model left out.
pub fn default_confidence() -> (confidence: i32)
    ensures
        confidence == 80,
{
    80
}

impl ExtractionResult {
    /// A result that holds nothing.
    pub fn empty() -> (result: Self)
        ensures
            result.memories@.len() == 0,
            result.entities@.len() == 0,
            result.relations@.len() == 0,
    {
        ExtractionResult { memories: Vec::new(), entities: Vec::new(), relations: Vec::new() }
    }

    /// The result of an extraction, given what parsing the model's reply gave:
    /// the parsed value, or an empty result where the reply did not parse.
    pub fn from_parsed(parsed: Option<ExtractionResult>) -> (result: Self)
        ensures
            parsed matches Some(p) ==> result == p,
            parsed is None ==> {
                &&& result.memories@.len() == 0
                &&& result.entities@.len() == 0
                &&& result.relations@.len() == 0
            },
    {
        match parsed {
            Some(p) => p,
            None => ExtractionResult::empty(),
        }
    }
}

/// What to ask of the model for one extraction.
pub struct ExtractionRequest {
    pub system_prompt: String,
    pub user_prompt: String,
    pub response_format: &'static str,
}

/// Extracts memories, entities and relations from text with a language model.
pub struct LlmExtractor<P> {
    provider: P,
}

impl<P> LlmExtractor<P> {
    /// The provider this extractor asks.
    pub closed spec fn spec_provider(&self) -> P {
        self.provider
    }

    #[must_use]
    pub fn new(provider: P) -> (extractor: Self)
        ensures
            extractor.spec_provider() == provider,
    {
        LlmExtractor { provider }
    }

    /// The provider this extractor asks.
    pub fn provider(&self) -> (provider: &P)
        ensures
            *provider == self.spec_provider(),
    {
        &self.provider
    }

    /// The system prompt: the task, the schema of `memories`, the schema of
    /// `entities` or an empty list, the schema and guide of `relations` or an
    /// empty list, and the closing instruction, in this order.
    pub fn build_system_prompt(&self, extract_entities: bool, extract_relations: bool) -> (prompt:
        String)
        ensures
            prompt@ == system_prompt_text(extract_entities, extract_relations),
    {
        let mut prompt = String::from_str(SCHEMA_HEADER);
        if extract_entities {
            prompt.append(ENTITY_SCHEMA);
        } else {
            prompt.append(NO_ENTITIES);
        }
        if extract_relations {
            prompt.append(RELATION_SCHEMA);
            prompt.append(RELATION_GUIDE);
        } else {
            prompt.append(NO_RELATIONS);
        }
        prompt.append(CLOSING_INSTRUCTION);
        prompt
    }

    /// The prompts and response format to send for one extraction of `text`.
    pub fn extraction_request(
        &self,
        text: &str,
        extract_entities: bool,
        extract_relations: bool,
    ) -> (request: ExtractionRequest)
        ensures
            request.system_prompt@ == system_prompt_text(extract_entities, extract_relations),
            request.user_prompt@ == user_prompt_text(text@),
            request.user_prompt@.len() == USER_PROMPT_PREFIX@.len() + text@.len(),
            request.user_prompt@.take(USER_PROMPT_PREFIX@.len() as int) == USER_PROMPT_PREFIX@,
            request.user_prompt@.skip(USER_PROMPT_PREFIX@.len() as int) == text@,
            request.response_format@ == RESPONSE_FORMAT@,
    {
        let system_prompt = self.build_system_prompt(extract_entities, extract_relations);
        let user_prompt = String::from_str(USER_PROMPT_PREFIX).concat(text);
        ExtractionRequest { system_prompt, user_prompt, response_format: RESPONSE_FORMAT }
    }
}

/// Length of the entity section of the system prompt.
pub open spec fn entity_section_len(extract_entities: bool) -> int {
    if extract_entities {
        ENTITY_SCHEMA@.len() as int
    } else {
        NO_ENTITIES@.len() as int
    }
}

/// The user prompt is the fixed prefix followed by the whole text, however long
/// the text is: nothing of it is cut, and different texts give different
/// prompts.
pub proof fn lemma_user_prompt_carries_whole_text(text: Seq<char>, other: Seq<char>)
    ensures
        user_prompt_text(text).len() == USER_PROMPT_PREFIX@.len() + text.len(),
        user_prompt_text(text).take(USER_PROMPT_PREFIX@.len() as int) == USER_PROMPT_PREFIX@,
        user_prompt_text(text).skip(USER_PROMPT_PREFIX@.len() as int) == text,
        user_prompt_text(text) == user_prompt_text(other) ==> text == other,
{
    let n = USER_PROMPT_PREFIX@.len() as int;
    assert(user_prompt_text(text).take(n) =~= USER_PROMPT_PREFIX@);
    assert(user_prompt_text(text).skip(n) =~= text);
    assert(user_prompt_text(other).skip(n) =~= other);
}

/// The system prompt opens with the schema header and ends with the closing
/// instruction whatever is asked for; the entity section right after the
/// header is the entity schema exactly when entities are asked for and does not
/// depend on whether relations are; what follows it (the relation section and
/// the closing) does not depend on whether entities are asked for, and holds
/// the relation schema and guide exactly when relations are asked for.
pub proof fn lemma_system_prompt_sections(e: bool, r: bool, e2: bool, r2: bool)
    ensures
        ({
            let p = system_prompt_text(e, r);
            let h = SCHEMA_HEADER@.len() as int;
            let c = CLOSING_INSTRUCTION@.len() as int;
            let tail = p.skip(h + entity_section_len(e));
            &&& p.take(h) == SCHEMA_HEADER@
            &&& p.skip(p.len() - c) == CLOSING_INSTRUCTION@
            &&& p.subrange(h, h + entity_section_len(e)) == (if e {
                ENTITY_SCHEMA@
            } else {
                NO_ENTITIES@
            })
            &&& tail.take(tail.len() - c) == (if r {
                RELATION_SCHEMA@ + RELATION_GUIDE@
            } else {
                NO_RELATIONS@
            })
            &&& p.take(h + entity_section_len(e)) == system_prompt_text(e, r2).take(
                h + entity_section_len(e),
            )
            &&& tail == system_prompt_text(e2, r).skip(h + entity_section_len(e2))
        }),
{
    let h = SCHEMA_HEADER@.len() as int;
    let c = CLOSING_INSTRUCTION@.len() as int;
    let ent = |x: bool|
        if x {
            ENTITY_SCHEMA@
        } else {
            NO_ENTITIES@
        };
    let rel = |x: bool|
        if x {
            RELATION_SCHEMA@ + RELATION_GUIDE@
        } else {
            NO_RELATIONS@
        };
    let p = system_prompt_text(e, r);
    assert(p == SCHEMA_HEADER@ + ent(e) + rel(r) + CLOSING_INSTRUCTION@);
    assert(system_prompt_text(e, r2) == SCHEMA_HEADER@ + ent(e) + rel(r2) + CLOSING_INSTRUCTION@);
    assert(system_prompt_text(e2, r) == SCHEMA_HEADER@ + ent(e2) + rel(r) + CLOSING_INSTRUCTION@);
    assert(p.take(h) =~= SCHEMA_HEADER@);
    assert(p.skip(p.len() - c) =~= CLOSING_INSTRUCTION@);
    assert(p.subrange(h, h + entity_section_len(e)) =~= ent(e));
    assert(p.skip(h + entity_section_len(e)) =~= rel(r) + CLOSING_INSTRUCTION@);
    assert(system_prompt_text(e2, r).skip(h + entity_section_len(e2)) =~= rel(r)
        + CLOSING_INSTRUCTION@);
    let tail = p.skip(h + entity_section_len(e));
    assert(tail.take(tail.len() - c) =~= rel(r));
    assert(p.take(h + entity_section_len(e)) =~= SCHEMA_HEADER@ + ent(e));
    assert(system_prompt_text(e, r2).take(h + entity_section_len(e)) =~= SCHEMA_HEADER@ + ent(e));
}

} // verus!
