use persona_ui::persona::{has_markdown_extension, FrontmatterError, Persona, PersonaFrontmatter};
use persona_ui::text::{is_space_char, str_eq};

fn reference_frontmatter(content: &str) -> Result<String, &'static str> {
    let content = content.trim_start();
    if !content.starts_with("---") {
        return Err("No YAML frontmatter found");
    }
    let after_first = &content[3..];
    match after_first.find("---") {
        Some(end) => Ok(after_first[..end].to_string()),
        None => Err("Unclosed frontmatter"),
    }
}

fn reference_name(content: &str) -> Option<String> {
    for line in content.lines() {
        let trimmed = line.trim();
        if trimmed.starts_with("# ") {
            return Some(trimmed[2..].trim().to_string());
        }
    }
    None
}

#[test]
fn frontmatter_is_what_stands_between_the_fences() {
    let text = "---\npersona_id: writer\navatar_url: http://x/y.png\n---\n# Writer\n";
    assert_eq!(
        Persona::extract_frontmatter(text),
        Ok("\npersona_id: writer\navatar_url: http://x/y.png\n".to_string())
    );
    assert_eq!(Persona::extract_frontmatter("\n\n  ---a---b---"), Ok("a".to_string()));
    assert_eq!(Persona::extract_frontmatter("------"), Ok(String::new()));
    assert_eq!(Persona::extract_frontmatter("------ x"), Ok(String::new()));
    assert_eq!(Persona::extract_frontmatter("----- x"), Err(FrontmatterError::Unclosed));
}

#[test]
fn frontmatter_errors() {
    assert_eq!(Persona::extract_frontmatter(""), Err(FrontmatterError::Missing));
    assert_eq!(Persona::extract_frontmatter("# Title\n---\nid\n---"), Err(FrontmatterError::Missing));
    assert_eq!(Persona::extract_frontmatter("--"), Err(FrontmatterError::Missing));
    assert_eq!(Persona::extract_frontmatter("---"), Err(FrontmatterError::Unclosed));
    assert_eq!(Persona::extract_frontmatter("---\npersona_id: x\n--"), Err(FrontmatterError::Unclosed));
    assert_eq!(Persona::extract_frontmatter("----"), Err(FrontmatterError::Unclosed));
    assert_eq!(FrontmatterError::Missing.message(), "No YAML frontmatter found");
    assert_eq!(FrontmatterError::Unclosed.message(), "Unclosed frontmatter");
}

#[test]
fn frontmatter_agrees_with_the_string_methods() {
    let inputs = [
        "", " ", "---", "------", "---\n---", "  \t\n---\nid: a\n---\nrest---", "x---y---",
        "\u{a0}\u{2003}---k: v---", "---\u{e9}\u{20ac}---", "--- -- - ---", "-- ---a---",
        "\u{feff}---a---", "---a--", "---a-\u{2d}-", "\r\n---\r\nid: 1\r\n---\r\n",
    ];
    for input in inputs {
        let got = Persona::extract_frontmatter(input).map_err(|e| e.message());
        assert_eq!(got, reference_frontmatter(input), "for {:?}", input);
    }
}

#[test]
fn name_is_the_first_heading() {
    assert_eq!(
        Persona::extract_name("---\nid: a\n---\n\n# The Writer\n\n# Second\n"),
        Some("The Writer".to_string())
    );
    assert_eq!(Persona::extract_name("  #   Padded title  \t\n"), Some("Padded title".to_string()));
    assert_eq!(Persona::extract_name("## Not this\n#Nor this\n# This"), Some("This".to_string()));
    assert_eq!(Persona::extract_name("intro\r\n# Windows\r\nmore"), Some("Windows".to_string()));
    assert_eq!(Persona::extract_name("# # nested"), Some("# nested".to_string()));
}

#[test]
fn name_is_absent_without_a_heading() {
    assert_eq!(Persona::extract_name(""), None);
    assert_eq!(Persona::extract_name("\n\n"), None);
    assert_eq!(Persona::extract_name("#"), None);
    assert_eq!(Persona::extract_name("# "), None);
    assert_eq!(Persona::extract_name("#\nTitle"), None);
    assert_eq!(Persona::extract_name("text # Title"), None);
    assert_eq!(Persona::extract_name("#\tTitle"), None);
}

#[test]
fn name_agrees_with_the_string_methods() {
    let inputs = [
        "", "#", "# ", "#  ", "# a", " # a ", "#\u{a0}a", "# \u{a0}a\u{2003}", "\u{3000}# x",
        "a\n# b\n# c", "a\r\n# b\r\n", "# \n# real", "#  \n\n#\n# z", "# a\u{b}b", "\n# x\n",
        "#a\n #  \u{e9}t\u{e9} \n", "# \r", "x\u{2028}# y", "# tail\n\n\n", "\t#\t \n# k",
    ];
    for input in inputs {
        assert_eq!(Persona::extract_name(input), reference_name(input), "for {:?}", input);
    }
}

#[test]
fn white_space_is_what_the_standard_library_says() {
    for u in 0u32..0x3100 {
        if let Some(c) = char::from_u32(u) {
            assert_eq!(is_space_char(c), c.is_whitespace(), "for U+{:04X}", u);
        }
    }
    assert!(!is_space_char('\u{feff}'));
    assert!(!is_space_char('\u{10ffff}'));
}

#[test]
fn strings_compare_by_their_characters() {
    assert!(str_eq("", ""));
    assert!(str_eq("writer", "writer"));
    assert!(str_eq("\u{e9}t\u{e9}", "\u{e9}t\u{e9}"));
    assert!(!str_eq("writer", "writes"));
    assert!(!str_eq("writer", "write"));
    assert!(!str_eq("", "a"));
    assert!(!str_eq("e\u{301}", "\u{e9}"));
}

#[test]
fn persona_clone_keeps_every_field() {
    let p = Persona {
        id: "a".to_string(),
        name: "A".to_string(),
        file_path: "/p/a.md".to_string(),
        avatar_url: Some("http://x".to_string()),
        knowledgebase_path: Some("/p/kb".to_string()),
    };
    let q = p.clone();
    assert_eq!(
        (q.id, q.name, q.file_path, q.avatar_url, q.knowledgebase_path),
        (p.id, p.name, p.file_path, p.avatar_url, p.knowledgebase_path)
    );
}

fn reference_title(stem: &str) -> String {
    stem.replace('-', " ")
        .split_whitespace()
        .map(|word| {
            let mut chars = word.chars();
            match chars.next() {
                Some(c) => c.to_uppercase().collect::<String>() + chars.as_str(),
                None => String::new(),
            }
        })
        .collect::<Vec<_>>()
        .join(" ")
}

#[test]
fn name_from_stem_capitalises_each_word() {
    assert_eq!(Persona::name_from_stem(Some("code-helper")), "Code Helper");
    assert_eq!(Persona::name_from_stem(Some("writer")), "Writer");
    assert_eq!(Persona::name_from_stem(Some("--a--b  c-")), "A B C");
    assert_eq!(Persona::name_from_stem(Some("already Upper")), "Already Upper");
    assert_eq!(Persona::name_from_stem(Some("snake_case")), "Snake_case");
    assert_eq!(Persona::name_from_stem(Some("\u{df}eta-\u{e9}t\u{e9}")), "SSeta \u{c9}t\u{e9}");
    assert_eq!(Persona::name_from_stem(Some("")), "");
    assert_eq!(Persona::name_from_stem(Some(" - ")), "");
    assert_eq!(Persona::name_from_stem(None), "Unknown");
}

#[test]
fn name_from_stem_agrees_with_the_string_methods() {
    let inputs = [
        "", "a", "-", "a-", "-a", "a-b", "a--b", "a b\tc", "x\u{a0}y", "1st-place", "\u{1c6}-\u{fb01}",
        "UPPER-lower", "trailing ", " leading", "a_b-c d", "\u{3000}wide\u{3000}", "-\u{e9}-",
    ];
    for input in inputs {
        assert_eq!(Persona::name_from_stem(Some(input)), reference_title(input), "for {:?}", input);
    }
}

#[test]
fn markdown_files_are_told_by_their_extension() {
    for name in ["a.md", "writer.md", "a.b.md", "..md", "\u{e9}.md", " .md"] {
        assert!(has_markdown_extension(name), "{:?}", name);
    }
    for name in ["", ".md", "md", "a.MD", "a.md ", "a.mdx", "a.txt", "amd", "a.m", "a.md.bak"] {
        assert!(!has_markdown_extension(name), "{:?}", name);
    }
}

#[test]
fn persona_is_assembled_from_its_parts() {
    let meta = PersonaFrontmatter {
        persona_id: "writer".to_string(),
        avatar_url: Some("http://x/a.png".to_string()),
        knowledgebase_dir: Some("kb".to_string()),
    };
    let p = Persona::from_parts(
        meta,
        "---\npersona_id: writer\n---\n# The Writer\n",
        Some("writer-file"),
        "/p/writer-file.md".to_string(),
        Some("/p/kb".to_string()),
    );
    assert_eq!(p.id, "writer");
    assert_eq!(p.name, "The Writer");
    assert_eq!(p.file_path, "/p/writer-file.md");
    assert_eq!(p.avatar_url.as_deref(), Some("http://x/a.png"));
    assert_eq!(p.knowledgebase_path.as_deref(), Some("/p/kb"));

    let meta = PersonaFrontmatter { persona_id: "w".to_string(), avatar_url: None, knowledgebase_dir: None };
    let q = Persona::from_parts(meta, "no heading", Some("code-helper"), "/p/x.md".to_string(), None);
    assert_eq!(q.name, "Code Helper");
    assert_eq!(q.avatar_url, None);
    assert_eq!(q.knowledgebase_path, None);

    let meta = PersonaFrontmatter { persona_id: "w".to_string(), avatar_url: None, knowledgebase_dir: None };
    let r = Persona::from_parts(meta, "", None, "".to_string(), None);
    assert_eq!(r.name, "Unknown");
}

fn named(id: &str, name: &str) -> Persona {
    Persona {
        id: id.to_string(),
        name: name.to_string(),
        file_path: String::new(),
        avatar_url: None,
        knowledgebase_path: None,
    }
}

#[test]
fn personas_sort_by_name_and_keep_ties_in_order() {
    let input = vec![
        named("1", "delta"), named("2", "Alpha"), named("3", "alpha"), named("4", ""),
        named("5", "delta"), named("6", "alp"), named("7", "\u{e9}cole"), named("8", "Alpha"),
    ];
    let expected = {
        let mut v: Vec<(String, String)> =
            input.iter().map(|p| (p.name.clone(), p.id.clone())).collect();
        v.sort_by(|a, b| a.0.cmp(&b.0));
        v
    };
    let sorted = Persona::sort_by_name(input);
    let got: Vec<(String, String)> = sorted.iter().map(|p| (p.name.clone(), p.id.clone())).collect();
    assert_eq!(got, expected);
    let ids: Vec<&str> = sorted.iter().map(|p| p.id.as_str()).collect();
    assert_eq!(ids, vec!["4", "2", "8", "6", "3", "1", "5", "7"]);
    assert!(Persona::sort_by_name(Vec::new()).is_empty());
}
