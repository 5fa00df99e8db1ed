use persona_ui::memory::{
    content_preview, preview, tags_display, build_categories, check_status, default_memory_type, loaded, memories_of, memory_content,
    memory_url, search_url, BerryError, LoadingState, Memory, MemoryCategory, MemoryContent,
    MemoryMetadata, MemoryType, PersonaKnowledgebase, RawMemory, SearchRequest, SearchResponse,
};
use persona_ui::persona::Persona;
use persona_ui::time::Timestamp;

#[test]
fn memory_type_labels() {
    assert_eq!(MemoryType::Question.label(), "Question");
    assert_eq!(MemoryType::Request.label(), "Request");
    assert_eq!(MemoryType::Information.label(), "Information");
}

#[test]
fn memory_type_defaults_to_information() {
    assert_eq!(default_memory_type(), MemoryType::Information);
}

#[test]
fn default_search_request_is_empty() {
    let r = SearchRequest::default();
    assert_eq!(r.query, "");
    assert_eq!(r.as_actor, "");
    assert_eq!(r.limit, None);
    assert!(r.tags.is_none());
    assert_eq!(r.memory_type, None);
}

#[test]
fn search_for_query_asks_for_25() {
    let r = SearchRequest::for_query("rust".to_string());
    assert_eq!(r.query, "rust");
    assert_eq!(r.as_actor, "persona-ui");
    assert_eq!(r.limit, Some(25));
    assert!(r.tags.is_none());
    assert_eq!(r.memory_type, None);
}

fn raw(id: &str, kind: MemoryType) -> RawMemory {
    RawMemory {
        id: id.to_string(),
        content: format!("content of {}", id),
        memory_type: kind,
        metadata: MemoryMetadata {
            created_at: Timestamp { secs: 1_700_000_000, nanos: 42 },
            created_by: "ada".to_string(),
            tags: vec!["x".to_string(), "y".to_string()],
        },
    }
}

#[test]
fn memory_is_the_raw_memory_flattened() {
    let m = Memory::from(raw("m1", MemoryType::Request));
    assert_eq!(m.id, "m1");
    assert_eq!(m.content, "content of m1");
    assert_eq!(m.memory_type, MemoryType::Request);
    assert_eq!(m.created_at, Timestamp { secs: 1_700_000_000, nanos: 42 });
    assert_eq!(m.created_by, "ada");
    assert_eq!(m.tags, vec!["x", "y"]);
}

#[test]
fn search_answer_keeps_its_order() {
    let response = SearchResponse {
        success: true,
        data: vec![raw("a", MemoryType::Question), raw("b", MemoryType::Information), raw("c", MemoryType::Request)],
    };
    let memories = memories_of(response);
    let ids: Vec<&str> = memories.iter().map(|m| m.id.as_str()).collect();
    assert_eq!(ids, vec!["a", "b", "c"]);
    assert_eq!(memories[2].memory_type, MemoryType::Request);
    assert!(memories_of(SearchResponse { success: true, data: Vec::new() }).is_empty());
}

#[test]
fn berry_errors_in_words() {
    assert_eq!(BerryError::Http("timed out".to_string()).message(), "HTTP error: timed out");
    assert_eq!(BerryError::Parse("EOF".to_string()).message(), "Parse error: EOF");
    for (status, text) in [(0u16, "0"), (7, "7"), (10, "10"), (404, "404"), (500, "500"), (9999, "9999"), (65535, "65535"), (1000, "1000")] {
        let e = BerryError::Server { status, message: "boom".to_string() };
        assert_eq!(e.message(), format!("Server error: {} - boom", text));
    }
}

#[test]
fn only_2xx_is_success() {
    for status in [200u16, 201, 204, 299] {
        assert_eq!(check_status(status, "body".to_string()).ok(), Some("body".to_string()));
    }
    for status in [0u16, 100, 199, 300, 301, 404, 500, 65535] {
        match check_status(status, "why".to_string()) {
            Err(BerryError::Server { status: s, message }) => {
                assert_eq!(s, status);
                assert_eq!(message, "why");
            }
            other => panic!("expected a server error for {}, got {:?}", status, other),
        }
    }
}

#[test]
fn server_addresses() {
    assert_eq!(memory_url("http://localhost:4114", "abc"), "http://localhost:4114/v1/memory/abc");
    assert_eq!(memory_url("", ""), "/v1/memory/");
    assert_eq!(search_url("http://localhost:4114"), "http://localhost:4114/v1/search");
}

fn persona(id: &str, name: &str, kb: Option<&str>) -> Persona {
    Persona {
        id: id.to_string(),
        name: name.to_string(),
        file_path: String::new(),
        avatar_url: None,
        knowledgebase_path: kb.map(|s| s.to_string()),
    }
}

#[test]
fn categories_are_berry_and_the_knowledge_bases() {
    let only = build_categories(&Vec::new());
    assert_eq!(only.len(), 1);
    assert!(matches!(only[0], MemoryCategory::Berry));

    let cats = build_categories(&vec![
        persona("a", "Ada", Some("/kb/a")),
        persona("b", "Bob", None),
        persona("c", "Cy", Some("/kb/c")),
    ]);
    let ids: Vec<String> = cats.iter().map(|c| c.id()).collect();
    assert_eq!(ids, vec!["berry", "kb-a", "kb-c"]);
    let labels: Vec<String> = cats.iter().map(|c| c.label()).collect();
    assert_eq!(labels, vec!["Berry", "Ada", "Cy"]);
    match &cats[2] {
        MemoryCategory::Knowledgebase(kb) => assert_eq!(kb.path, "/kb/c"),
        other => panic!("expected a knowledge base, got {:?}", other),
    }
}

#[test]
fn categories_compare_by_their_fields() {
    let kb = |id: &str, name: &str, path: &str| {
        MemoryCategory::Knowledgebase(PersonaKnowledgebase {
            persona_id: id.to_string(),
            persona_name: name.to_string(),
            path: path.to_string(),
        })
    };
    assert!(MemoryCategory::Berry.same_as(&MemoryCategory::Berry));
    assert!(kb("a", "A", "/a").same_as(&kb("a", "A", "/a").clone()));
    assert!(!kb("a", "A", "/a").same_as(&kb("b", "A", "/a")));
    assert!(!kb("a", "A", "/a").same_as(&kb("a", "B", "/a")));
    assert!(!kb("a", "A", "/a").same_as(&kb("a", "A", "/b")));
    assert!(!kb("a", "A", "/a").same_as(&MemoryCategory::Berry));
    assert!(!MemoryCategory::Berry.same_as(&kb("a", "A", "/a")));
}

#[test]
fn memory_view_content_follows_the_loading_state() {
    assert_eq!(memory_content(&LoadingState::Idle), MemoryContent::LoadingNotice);
    assert_eq!(memory_content(&LoadingState::Loading), MemoryContent::LoadingNotice);
    assert_eq!(memory_content(&LoadingState::Error("x".to_string())), MemoryContent::ErrorNotice);
    assert_eq!(memory_content(&LoadingState::Loaded(Vec::new())), MemoryContent::EmptyNotice);
    let one = vec![Memory::from(raw("a", MemoryType::Question))];
    assert_eq!(memory_content(&LoadingState::Loaded(one)), MemoryContent::Table);
}

#[test]
fn search_result_becomes_the_loading_state() {
    match loaded(Ok(vec![Memory::from(raw("a", MemoryType::Question))])) {
        LoadingState::Loaded(v) => assert_eq!(v.len(), 1),
        other => panic!("expected loaded memories, got {:?}", other),
    }
    match loaded(Err(BerryError::Server { status: 503, message: "down".to_string() })) {
        LoadingState::Error(m) => assert_eq!(m, "Server error: 503 - down"),
        other => panic!("expected an error, got {:?}", other),
    }
}

#[test]
fn previews_cut_by_characters() {
    assert_eq!(preview("0123456789abcdef", 8), "01234567");
    assert_eq!(preview("0123456789abcdef", 12), "0123456789ab");
    assert_eq!(preview("short", 8), "short");
    assert_eq!(preview("", 8), "");
    assert_eq!(preview("\u{e9}\u{e9}\u{e9}", 2), "\u{e9}\u{e9}");
    assert_eq!(preview("abc", 0), "");
}

fn reference_preview(content: &str) -> String {
    content.chars().take(60).collect::<String>() + if content.len() > 60 { "..." } else { "" }
}

#[test]
fn content_preview_marks_long_content() {
    let sixty = "x".repeat(60);
    assert_eq!(content_preview(&sixty), sixty);
    assert_eq!(content_preview(&"x".repeat(61)), format!("{}...", sixty));
    assert_eq!(content_preview(""), "");
    let accents = "\u{e9}".repeat(31);
    assert_eq!(content_preview(&accents), format!("{}...", accents));
    for input in ["", "a", &"ab".repeat(30), &"ab".repeat(31), &"\u{20ac}".repeat(20), &"\u{20ac}".repeat(21), &"\u{20ac}".repeat(70)] {
        assert_eq!(content_preview(input), reference_preview(input), "for {:?}", input);
    }
}

#[test]
fn tags_are_joined_or_dashed() {
    assert_eq!(tags_display(&Vec::new(), "-"), "-");
    assert_eq!(tags_display(&Vec::new(), "None"), "None");
    assert_eq!(tags_display(&vec!["a".to_string()], "-"), "a");
    assert_eq!(tags_display(&vec!["a".to_string(), "b c".to_string(), "".to_string()], "-"), "a, b c, ");
}
