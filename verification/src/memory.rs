//! Memories of the memory server as the rest of the application reads them.

use vstd::prelude::*;
use vstd::string::*;
use crate::persona::Persona;
use crate::text::{chars_of, decimal, push_decimal, push_range};
use crate::time::Timestamp;

verus! {

/// What kind of memory an entry is.
#[derive(Debug, Clone, Copy, PartialEq, Eq, Structural)]
pub enum MemoryType {
    Question,
    Request,
    Information,
}

impl MemoryType {
    /// The kind in words, as it is shown.
    pub fn label(&self) -> (l: &'static str)
        ensures
            l@ == match *self {
                MemoryType::Question => "Question"@,
                MemoryType::Request => "Request"@,
                MemoryType::Information => "Information"@,
            },
    {
        match self {
            MemoryType::Question => "Question",
            MemoryType::Request => "Request",
            MemoryType::Information => "Information",
        }
    }
}

/// The kind of a memory whose record names none.
pub fn default_memory_type() -> (t: MemoryType)
    ensures
        t == MemoryType::Information,
{
    MemoryType::Information
}

/// A search sent to the memory server.
#[derive(Debug, Clone)]
pub struct SearchRequest {
    pub query: String,
    pub as_actor: String,
    pub limit: Option<u32>,
    pub tags: Option<Vec<String>>,
    pub memory_type: Option<MemoryType>,
}

impl Default for SearchRequest {
    fn default() -> (r: Self)
        ensures
            r.query@.len() == 0,
            r.as_actor@.len() == 0,
            r.limit is None,
            r.tags is None,
            r.memory_type is None,
    {
        SearchRequest {
            query: String::new(),
            as_actor: String::new(),
            limit: None,
            tags: None,
            memory_type: None,
        }
    }
}

impl SearchRequest {
    /// The search the memory view sends for the text of its search field:
    /// at most 25 memories of any kind and tag, asked for as this application.
    pub fn for_query(query: String) -> (r: Self)
        ensures
            r.query@ == query@,
            r.as_actor@ == "persona-ui"@,
            r.limit == Some(25u32),
            r.tags is None,
            r.memory_type is None,
    {
        SearchRequest {
            query,
            as_actor: String::from_str("persona-ui"),
            limit: Some(25),
            tags: None,
            memory_type: None,
        }
    }
}

/// Who stored a memory, when, and under which tags.
#[derive(Debug, Clone)]
pub struct MemoryMetadata {
    pub created_at: Timestamp,
    pub created_by: String,
    pub tags: Vec<String>,
}

/// A memory as the server hands it out.
#[derive(Debug, Clone)]
pub struct RawMemory {
    pub id: String,
    pub content: String,
    pub memory_type: MemoryType,
    pub metadata: MemoryMetadata,
}

/// A memory with its metadata beside its content, as it is shown.
#[derive(Debug, Clone)]
pub struct Memory {
    pub id: String,
    pub content: String,
    pub created_at: Timestamp,
    pub created_by: String,
    pub tags: Vec<String>,
    pub memory_type: MemoryType,
}

/// The answer to a search.
#[derive(Debug, Clone)]
pub struct SearchResponse {
    pub success: bool,
    pub data: Vec<RawMemory>,
}

/// The answer to a request for one memory.
#[derive(Debug, Clone)]
pub struct GetMemoryResponse {
    pub memory: RawMemory,
}

impl From<RawMemory> for Memory {
    /// The memory with its metadata laid beside its content.
    fn from(raw: RawMemory) -> (m: Memory)
        ensures
            m.id == raw.id,
            m.content == raw.content,
            m.memory_type == raw.memory_type,
            m.created_at == raw.metadata.created_at,
            m.created_by == raw.metadata.created_by,
            m.tags == raw.metadata.tags,
    {
        Memory {
            id: raw.id,
            content: raw.content,
            memory_type: raw.memory_type,
            created_at: raw.metadata.created_at,
            created_by: raw.metadata.created_by,
            tags: raw.metadata.tags,
        }
    }
}

impl vstd::std_specs::convert::FromSpecImpl<RawMemory> for Memory {
    open spec fn obeys_from_spec() -> bool {
        true
    }

    open spec fn from_spec(raw: RawMemory) -> Memory {
        Memory {
            id: raw.id,
            content: raw.content,
            memory_type: raw.memory_type,
            created_at: raw.metadata.created_at,
            created_by: raw.metadata.created_by,
            tags: raw.metadata.tags,
        }
    }
}

/// The memories of a search's answer, in its order.
pub fn memories_of(response: SearchResponse) -> (r: Vec<Memory>)
    ensures
        r@.len() == response.data@.len(),
        forall|i: int|
            0 <= i < r@.len() ==> #[trigger] r@[i] == <Memory as vstd::std_specs::convert::FromSpec<
                RawMemory,
            >>::from_spec(response.data@[i]),
{
    let ghost all = response.data@;
    let mut rest = response.data;
    let mut stack: Vec<Memory> = Vec::new();
    while rest.len() > 0
        invariant
            rest@.len() + stack@.len() == all.len(),
            forall|i: int| 0 <= i < rest@.len() ==> rest@[i] == all[i],
            forall|i: int|
                0 <= i < stack@.len() ==> #[trigger] stack@[i] == <Memory as vstd::std_specs::convert::FromSpec<
                    RawMemory,
                >>::from_spec(all[all.len() - 1 - i]),
        decreases rest@.len(),
    {
        let raw = rest.pop().unwrap();
        stack.push(Memory::from(raw));
    }
    let mut out: Vec<Memory> = Vec::new();
    while stack.len() > 0
        invariant
            out@.len() + stack@.len() == all.len(),
            forall|i: int|
                0 <= i < stack@.len() ==> #[trigger] stack@[i] == <Memory as vstd::std_specs::convert::FromSpec<
                    RawMemory,
                >>::from_spec(all[all.len() - 1 - i]),
            forall|i: int|
                0 <= i < out@.len() ==> #[trigger] out@[i] == <Memory as vstd::std_specs::convert::FromSpec<
                    RawMemory,
                >>::from_spec(all[i]),
        decreases stack@.len(),
    {
        let m = stack.pop().unwrap();
        out.push(m);
    }
    out
}

/// What can go wrong when the memory server is asked.
#[derive(Debug)]
pub enum BerryError {
    /// The request did not get through; the words are the transport's.
    Http(String),
    /// The server answered with a status that is no success.
    Server { status: u16, message: String },
    /// The answer could not be read.
    Parse(String),
}

impl BerryError {
    /// The error in words, in contracts.
    pub open spec fn text(self) -> Seq<char> {
        match self {
            BerryError::Http(m) => "HTTP error: "@ + m@,
            BerryError::Server { status, message } => "Server error: "@ + decimal(status as nat)
                + " - "@ + message@,
            BerryError::Parse(m) => "Parse error: "@ + m@,
        }
    }

    /// The error in words.
    pub fn message(&self) -> (m: String)
        ensures
            m@ == self.text(),
    {
        match self {
            BerryError::Http(e) => {
                let mut out = String::from_str("HTTP error: ");
                out.append(e.as_str());
                out
            },
            BerryError::Server { status, message } => {
                let mut out = String::from_str("Server error: ");
                push_decimal(&mut out, *status);
                out.append(" - ");
                out.append(message.as_str());
                out
            },
            BerryError::Parse(e) => {
                let mut out = String::from_str("Parse error: ");
                out.append(e.as_str());
                out
            },
        }
    }
}

/// Whether a status is a success: one of 200 to 299.
pub open spec fn is_success(status: u16) -> bool {
    200 <= status < 300
}

/// What an answer of the server amounts to: its body where the status is a
/// success, a server error with the status and the body otherwise.
pub fn check_status(status: u16, body: String) -> (r: Result<String, BerryError>)
    ensures
        match r {
            Ok(b) => is_success(status) && b@ == body@,
            Err(e) => !is_success(status) && (e matches BerryError::Server { status: s, message: m }
                && s == status && m@ == body@),
        },
{
    if 200 <= status && status < 300 {
        Ok(body)
    } else {
        Err(BerryError::Server { status, message: body })
    }
}

/// The address under which the server hands out memory `id`.
pub fn memory_url(base_url: &str, id: &str) -> (url: String)
    ensures
        url@ == base_url@ + "/v1/memory/"@ + id@,
{
    let mut url = String::from_str(base_url);
    url.append("/v1/memory/");
    url.append(id);
    url
}

/// The address under which the server takes searches.
pub fn search_url(base_url: &str) -> (url: String)
    ensures
        url@ == base_url@ + "/v1/search"@,
{
    let mut url = String::from_str(base_url);
    url.append("/v1/search");
    url
}

/// The knowledge base of one persona.
#[derive(Debug, Clone)]
pub struct PersonaKnowledgebase {
    pub persona_id: String,
    pub persona_name: String,
    pub path: String,
}

/// A source of memories that the memory view lists: the memory server, or
/// the knowledge base of a persona.
#[derive(Debug)]
pub enum MemoryCategory {
    Berry,
    Knowledgebase(PersonaKnowledgebase),
}

/// A category in contracts.
pub enum CategoryView {
    Berry,
    Knowledgebase { persona_id: Seq<char>, persona_name: Seq<char>, path: Seq<char> },
}

impl View for MemoryCategory {
    type V = CategoryView;

    open spec fn view(&self) -> CategoryView {
        match self {
            MemoryCategory::Berry => CategoryView::Berry,
            MemoryCategory::Knowledgebase(kb) => CategoryView::Knowledgebase {
                persona_id: kb.persona_id@,
                persona_name: kb.persona_name@,
                path: kb.path@,
            },
        }
    }
}

impl Clone for MemoryCategory {
    fn clone(&self) -> (r: Self)
        ensures
            r@ == self@,
    {
        match self {
            MemoryCategory::Berry => MemoryCategory::Berry,
            MemoryCategory::Knowledgebase(kb) => MemoryCategory::Knowledgebase(
                PersonaKnowledgebase {
                    persona_id: kb.persona_id.clone(),
                    persona_name: kb.persona_name.clone(),
                    path: kb.path.clone(),
                },
            ),
        }
    }
}

impl MemoryCategory {
    /// The name the category is listed under.
    pub fn label(&self) -> (l: String)
        ensures
            l@ == match self@ {
                CategoryView::Berry => "Berry"@,
                CategoryView::Knowledgebase { persona_name, .. } => persona_name,
            },
    {
        match self {
            MemoryCategory::Berry => String::from_str("Berry"),
            MemoryCategory::Knowledgebase(kb) => kb.persona_name.clone(),
        }
    }

    /// A key that tells the category from every other.
    pub fn id(&self) -> (k: String)
        ensures
            k@ == match self@ {
                CategoryView::Berry => "berry"@,
                CategoryView::Knowledgebase { persona_id, .. } => "kb-"@ + persona_id,
            },
    {
        match self {
            MemoryCategory::Berry => String::from_str("berry"),
            MemoryCategory::Knowledgebase(kb) => {
                let mut k = String::from_str("kb-");
                k.append(kb.persona_id.as_str());
                k
            },
        }
    }

    /// Whether two categories are the same source.
    pub fn same_as(&self, other: &MemoryCategory) -> (b: bool)
        ensures
            b == (self@ == other@),
    {
        match (self, other) {
            (MemoryCategory::Berry, MemoryCategory::Berry) => true,
            (MemoryCategory::Knowledgebase(a), MemoryCategory::Knowledgebase(b)) => {
                crate::text::str_eq(a.persona_id.as_str(), b.persona_id.as_str())
                    && crate::text::str_eq(a.persona_name.as_str(), b.persona_name.as_str())
                    && crate::text::str_eq(a.path.as_str(), b.path.as_str())
            },
            _ => false,
        }
    }
}

/// The categories for the first `n` personas: the memory server, then the
/// knowledge base of each of them that has one, in their order.
pub open spec fn categories_of(personas: Seq<Persona>, n: int) -> Seq<CategoryView>
    decreases n,
{
    if n <= 0 {
        seq![CategoryView::Berry]
    } else {
        let before = categories_of(personas, n - 1);
        match personas[n - 1].knowledgebase_path {
            Some(path) => before.push(
                CategoryView::Knowledgebase {
                    persona_id: personas[n - 1].id@,
                    persona_name: personas[n - 1].name@,
                    path: path@,
                },
            ),
            None => before,
        }
    }
}

/// The categories that the memory view lists for `personas`.
pub fn build_categories(personas: &Vec<Persona>) -> (r: Vec<MemoryCategory>)
    ensures
        r@.map_values(|c: MemoryCategory| c@) == categories_of(personas@, personas@.len() as int),
{
    let mut categories: Vec<MemoryCategory> = Vec::new();
    categories.push(MemoryCategory::Berry);
    proof {
        assert(categories@.map_values(|c: MemoryCategory| c@) =~= categories_of(personas@, 0));
    }
    let mut i: usize = 0;
    while i < personas.len()
        invariant
            i <= personas@.len(),
            categories@.map_values(|c: MemoryCategory| c@) == categories_of(personas@, i as int),
        decreases personas@.len() - i,
    {
        let ghost before = categories@;
        match &personas[i].knowledgebase_path {
            Some(path) => {
                categories.push(
                    MemoryCategory::Knowledgebase(
                        PersonaKnowledgebase {
                            persona_id: personas[i].id.clone(),
                            persona_name: personas[i].name.clone(),
                            path: path.clone(),
                        },
                    ),
                );
                proof {
                    assert(categories@.map_values(|c: MemoryCategory| c@) =~= before.map_values(
                        |c: MemoryCategory| c@,
                    ).push(categories@.last()@));
                }
            },
            None => {},
        }
        i += 1;
    }
    categories
}

/// How far the loading of something has come.
#[derive(Debug)]
pub enum LoadingState<T> {
    Idle,
    Loading,
    Loaded(T),
    Error(String),
}

/// What the memory view shows for the state of its memories: a notice
/// while they load, the error in words, a notice that there are none, or
/// the table.
#[derive(Debug, Clone, Copy, PartialEq, Eq, Structural)]
pub enum MemoryContent {
    LoadingNotice,
    ErrorNotice,
    EmptyNotice,
    Table,
}

/// What the memory view shows for the state of its memories.
pub fn memory_content(state: &LoadingState<Vec<Memory>>) -> (c: MemoryContent)
    ensures
        c == match *state {
            LoadingState::Idle => MemoryContent::LoadingNotice,
            LoadingState::Loading => MemoryContent::LoadingNotice,
            LoadingState::Error(_) => MemoryContent::ErrorNotice,
            LoadingState::Loaded(v) => if v@.len() == 0 {
                MemoryContent::EmptyNotice
            } else {
                MemoryContent::Table
            },
        },
{
    match state {
        LoadingState::Idle => MemoryContent::LoadingNotice,
        LoadingState::Loading => MemoryContent::LoadingNotice,
        LoadingState::Error(_) => MemoryContent::ErrorNotice,
        LoadingState::Loaded(v) => if v.len() == 0 {
            MemoryContent::EmptyNotice
        } else {
            MemoryContent::Table
        },
    }
}

/// The state of the memories after a search came back.
pub fn loaded(result: Result<Vec<Memory>, BerryError>) -> (s: LoadingState<Vec<Memory>>)
    ensures
        match result {
            Ok(v) => s == LoadingState::Loaded(v),
            Err(e) => s matches LoadingState::Error(m) && m@ == e.text(),
        },
{
    match result {
        Ok(v) => LoadingState::Loaded(v),
        Err(e) => LoadingState::Error(e.message()),
    }
}

/// The first `n` characters of `s`, or all of it where it has fewer.
pub open spec fn head(s: Seq<char>, n: int) -> Seq<char> {
    if s.len() <= n {
        s
    } else {
        s.take(n)
    }
}

/// The first `n` characters of `text`: the part of an identifier that a
/// table or a title shows.
pub fn preview(text: &str, n: usize) -> (r: String)
    ensures
        r@ == head(text@, n as int),
{
    let chars = chars_of(text);
    let end = if chars.len() <= n {
        chars.len()
    } else {
        n
    };
    let mut out = String::new();
    push_range(&mut out, &chars, 0, end);
    proof {
        assert(chars@.subrange(0, end as int) =~= head(text@, n as int));
        assert(Seq::<char>::empty() + chars@.subrange(0, end as int) =~= chars@.subrange(
            0,
            end as int,
        ));
    }
    out
}

/// What a table shows of a memory's content: its first 60 characters,
/// followed by three dots where the content is longer than 60 bytes.
pub open spec fn content_preview_text(content: Seq<char>) -> Seq<char> {
    head(content, 60) + if vstd::utf8::encode_utf8(content).len() > 60 {
        "..."@
    } else {
        Seq::<char>::empty()
    }
}

/// What a table shows of a memory's content.
pub fn content_preview(content: &str) -> (r: String)
    ensures
        r@ == content_preview_text(content@),
{
    let mut out = preview(content, 60);
    if content.as_bytes().len() > 60 {
        out.append("...");
    } else {
        assert(out@ + Seq::<char>::empty() =~= out@);
    }
    out
}

/// The first `n` tags with a comma and a space between them.
pub open spec fn joined(tags: Seq<String>, n: int) -> Seq<char>
    decreases n,
{
    if n <= 0 {
        Seq::empty()
    } else if n == 1 {
        tags[0]@
    } else {
        joined(tags, n - 1) + ", "@ + tags[n - 1]@
    }
}

/// What is shown for the tags of a memory: `none` where it has no tag,
/// else the tags with a comma and a space between them.
pub fn tags_display(tags: &Vec<String>, none: &str) -> (r: String)
    ensures
        r@ == if tags@.len() == 0 {
            none@
        } else {
            joined(tags@, tags@.len() as int)
        },
{
    if tags.len() == 0 {
        return String::from_str(none);
    }
    let mut out = String::from_str(tags[0].as_str());
    let mut i: usize = 1;
    while i < tags.len()
        invariant
            1 <= i <= tags@.len(),
            out@ == joined(tags@, i as int),
        decreases tags@.len() - i,
    {
        out.append(", ");
        out.append(tags[i].as_str());
        i += 1;
    }
    out
}

} // verus!
