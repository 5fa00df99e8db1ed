use persona_ui::app::{ActiveContent, App};
use persona_ui::panel::{PanelContent, PersonaPanel, TerminalHeaderBarEvent};
use persona_ui::persona::Persona;
use persona_ui::pty::{agent_command, initial_size, resize_size};
use persona_ui::registry::{SessionRegistry, SpawnRequest, TerminalHeaderBar};
use persona_ui::session::{ConversationView, SpawnError, ViewContent};
use persona_ui::state::NavigationView;

fn persona(id: &str, name: &str) -> Persona {
    Persona {
        id: id.to_string(),
        name: name.to_string(),
        file_path: format!("/personas/{}.md", id),
        avatar_url: None,
        knowledgebase_path: None,
    }
}

fn argv(request: &SpawnRequest) -> Vec<String> {
    request.command.get_argv().iter().map(|a| a.to_str().unwrap().to_string()).collect()
}

fn sorted(mut ids: Vec<String>) -> Vec<String> {
    ids.sort();
    ids
}

#[test]
fn agent_command_names_the_persona() {
    let cmd = agent_command("writer", false, "/work");
    let args: Vec<String> =
        cmd.get_argv().iter().map(|a| a.to_str().unwrap().to_string()).collect();
    assert_eq!(args, vec!["opencode", "--agent", "writer"]);
    assert_eq!(cmd.get_cwd().unwrap().to_str().unwrap(), "/work");
}

#[test]
fn agent_command_continues_on_request() {
    let cmd = agent_command("writer", true, ".");
    let args: Vec<String> =
        cmd.get_argv().iter().map(|a| a.to_str().unwrap().to_string()).collect();
    assert_eq!(args, vec!["opencode", "--agent", "writer", "--continue"]);
    assert_eq!(cmd.get_cwd().unwrap().to_str().unwrap(), ".");
}

#[test]
fn initial_size_is_80_by_24() {
    let size = initial_size();
    assert_eq!((size.cols, size.rows, size.pixel_width, size.pixel_height), (80, 24, 0, 0));
}

#[test]
fn resize_size_keeps_sixteen_bits() {
    let size = resize_size(132, 43);
    assert_eq!((size.cols, size.rows, size.pixel_width, size.pixel_height), (132, 43, 0, 0));
    let size = resize_size(65535, 65536);
    assert_eq!((size.cols, size.rows), (65535, 0));
    let size = resize_size(65536 + 80, 3 * 65536 + 24);
    assert_eq!((size.cols, size.rows), (80, 24));
}

#[test]
fn session_starts_then_runs() {
    let mut s = ConversationView::new(persona("a", "A"), 7);
    assert_eq!(s.handle(), 7);
    assert_eq!(s.persona().id, "a");
    assert!(s.is_starting());
    assert_eq!(s.pty_handle(), None);
    assert!(s.error().is_none());
    assert!(matches!(s.render(), ViewContent::Loading));
    assert!(s.resize(100, 30).is_none());
    assert_eq!(s.focus(), None);

    s.spawn_finished(Ok(()));
    assert!(!s.is_starting());
    assert_eq!(s.pty_handle(), Some(7));
    assert_eq!(s.focus(), Some(7));
    assert!(s.error().is_none());
    let (handle, size) = s.resize(100, 30).unwrap();
    assert_eq!(handle, 7);
    assert_eq!((size.cols, size.rows), (100, 30));
}

#[test]
fn focus_is_requested_once() {
    let mut s = ConversationView::new(persona("a", "A"), 1);
    assert!(matches!(s.render(), ViewContent::Loading));
    s.spawn_finished(Ok(()));
    assert!(matches!(s.render(), ViewContent::Terminal { handle: 1, focus: true }));
    assert!(matches!(s.render(), ViewContent::Terminal { handle: 1, focus: false }));
    assert!(matches!(s.render(), ViewContent::Terminal { handle: 1, focus: false }));
}

#[test]
fn each_spawn_error_fails_the_session() {
    let errors = vec![
        SpawnError::Allocation("out of ptys".to_string()),
        SpawnError::Spawn("No such file or directory".to_string()),
        SpawnError::StreamDetachment("cannot take writer".to_string()),
    ];
    let texts = vec![
        "Failed to spawn terminal: out of ptys",
        "Failed to spawn terminal: No such file or directory",
        "Failed to spawn terminal: cannot take writer",
    ];
    for (e, text) in errors.into_iter().zip(texts) {
        let mut s = ConversationView::new(persona("a", "A"), 3);
        s.spawn_finished(Err(e));
        assert!(!s.is_starting());
        assert_eq!(s.pty_handle(), None);
        assert_eq!(s.error().map(|m| m.as_str()), Some(text));
        match s.render() {
            ViewContent::Error(m) => assert_eq!(m, text),
            other => panic!("expected the error text, got {:?}", other),
        }
        assert!(s.resize(80, 24).is_none());
    }
}

#[test]
fn a_second_report_is_ignored() {
    let mut s = ConversationView::new(persona("a", "A"), 3);
    s.spawn_finished(Err(SpawnError::Spawn("boom".to_string())));
    s.spawn_finished(Ok(()));
    assert_eq!(s.pty_handle(), None);
    assert_eq!(s.error().map(|m| m.as_str()), Some("Failed to spawn terminal: boom"));

    let mut t = ConversationView::new(persona("a", "A"), 4);
    t.spawn_finished(Ok(()));
    t.spawn_finished(Err(SpawnError::Spawn("late".to_string())));
    assert_eq!(t.pty_handle(), Some(4));
    assert!(t.error().is_none());
}

#[test]
fn spawn_error_message_is_the_text() {
    assert_eq!(SpawnError::Allocation("a".to_string()).message(), "a");
    assert_eq!(SpawnError::Spawn("b".to_string()).message(), "b");
    assert_eq!(SpawnError::StreamDetachment("c".to_string()).message(), "c");
}

#[test]
fn header_bar_toggles() {
    let mut bar = TerminalHeaderBar::new("Ada".to_string(), false);
    assert_eq!(bar.persona_name(), "Ada");
    assert!(!bar.is_expanded());
    assert_eq!(bar.tooltip(), "Expand terminal");
    bar.set_expanded(true);
    assert!(bar.is_expanded());
    assert_eq!(bar.tooltip(), "Collapse sidebar");
    assert_eq!(bar.persona_name(), "Ada");
}

#[test]
fn ensure_spawns_once_per_persona() {
    let mut reg = SessionRegistry::new();
    assert_eq!(reg.len(), 0);
    let a = persona("a", "A");
    let first = reg.ensure_or_get(&a, true, "/work", false).expect("a spawn request");
    assert_eq!(first.handle, 0);
    assert_eq!(argv(&first), vec!["opencode", "--agent", "a", "--continue"]);
    assert_eq!(first.command.get_cwd().unwrap().to_str().unwrap(), "/work");
    assert_eq!((first.size.cols, first.size.rows), (80, 24));
    assert!(reg.contains("a"));
    assert_eq!(reg.len(), 1);
    assert!(reg.get("a").unwrap().conversation.is_starting());
    assert_eq!(reg.get("a").unwrap().header.persona_name(), "A");

    assert!(reg.ensure_or_get(&a, true, "/work", false).is_none());
    assert!(reg.ensure_or_get(&a, false, "/elsewhere", true).is_none());
    assert_eq!(reg.len(), 1);
    assert_eq!(reg.get("a").unwrap().conversation.handle(), 0);
    assert_eq!(reg.active_ids(), vec!["a"]);
}

#[test]
fn report_reaches_the_session_of_its_handle() {
    let mut reg = SessionRegistry::new();
    let a = reg.ensure_or_get(&persona("a", "A"), false, ".", false).unwrap();
    let b = reg.ensure_or_get(&persona("b", "B"), false, ".", false).unwrap();
    assert_eq!((a.handle, b.handle), (0, 1));
    assert!(reg.spawn_finished(b.handle, Ok(())));
    assert!(reg.get("a").unwrap().conversation.is_starting());
    assert_eq!(reg.get("b").unwrap().conversation.pty_handle(), Some(1));
    assert!(!reg.spawn_finished(b.handle, Ok(())));
    assert!(!reg.spawn_finished(17, Ok(())));
    assert!(reg.spawn_finished(a.handle, Ok(())));
    assert_eq!(reg.get("a").unwrap().conversation.pty_handle(), Some(0));
}

#[test]
fn spawn_failure_is_local_to_its_session() {
    let mut reg = SessionRegistry::new();
    let p = reg.ensure_or_get(&persona("p", "P"), false, ".", false).unwrap();
    assert!(reg.spawn_finished(p.handle, Err(SpawnError::Spawn("not found".to_string()))));
    assert_eq!(
        reg.get("p").unwrap().conversation.error().map(|m| m.as_str()),
        Some("Failed to spawn terminal: not found")
    );
    assert_eq!(reg.get("p").unwrap().conversation.pty_handle(), None);

    let q = reg.ensure_or_get(&persona("q", "Q"), false, ".", false).expect("q still spawns");
    assert_eq!(argv(&q), vec!["opencode", "--agent", "q"]);
    assert!(reg.spawn_finished(q.handle, Ok(())));
    assert_eq!(reg.get("q").unwrap().conversation.pty_handle(), Some(q.handle));
    assert!(reg.ensure_or_get(&persona("p", "P"), false, ".", false).is_none());
    assert_eq!(sorted(reg.active_ids()), vec!["p", "q"]);
}

#[test]
fn destroy_releases_the_handle_for_good() {
    let mut reg = SessionRegistry::new();
    let a = persona("a", "A");
    let first = reg.ensure_or_get(&a, false, ".", false).unwrap();
    reg.spawn_finished(first.handle, Ok(()));
    let gone = reg.destroy("a").expect("the destroyed session");
    assert_eq!(gone.conversation.handle(), first.handle);
    assert_eq!(gone.conversation.pty_handle(), Some(first.handle));
    assert!(!reg.contains("a"));
    assert!(reg.get("a").is_none());
    assert!(reg.destroy("a").is_none());
    assert!(reg.active_ids().is_empty());

    let second = reg.ensure_or_get(&a, false, ".", false).expect("a fresh spawn");
    assert_ne!(second.handle, first.handle);
    assert_eq!(second.handle, 1);
    assert!(reg.get("a").unwrap().conversation.is_starting());
    assert!(!reg.spawn_finished(first.handle, Ok(())));
    assert!(reg.get("a").unwrap().conversation.is_starting());
}

#[test]
fn report_after_destroy_is_not_taken() {
    let mut reg = SessionRegistry::new();
    let a = reg.ensure_or_get(&persona("a", "A"), false, ".", false).unwrap();
    assert!(reg.destroy("a").is_some());
    assert!(!reg.spawn_finished(a.handle, Ok(())));
    assert_eq!(reg.len(), 0);
}

#[test]
fn destroy_all_leaves_no_session() {
    let mut reg = SessionRegistry::new();
    for id in ["a", "b", "c"] {
        let r = reg.ensure_or_get(&persona(id, id), false, ".", false).unwrap();
        reg.spawn_finished(r.handle, Ok(()));
    }
    assert_eq!(sorted(reg.active_ids()), vec!["a", "b", "c"]);
    let gone = reg.destroy_all();
    assert_eq!(gone.len(), 3);
    let mut handles: Vec<u64> = gone.iter().map(|s| s.conversation.handle()).collect();
    handles.sort();
    assert_eq!(handles, vec![0, 1, 2]);
    assert_eq!(reg.len(), 0);
    assert!(reg.active_ids().is_empty());
    assert!(!reg.contains("a"));
    assert!(reg.destroy_all().is_empty());
    let next = reg.ensure_or_get(&persona("a", "a"), false, ".", false).unwrap();
    assert_eq!(next.handle, 3);
}

#[test]
fn registry_render_and_resize_follow_the_session() {
    let mut reg = SessionRegistry::new();
    assert!(reg.render("a").is_none());
    assert!(reg.resize("a", 80, 24).is_none());
    assert!(!reg.set_expanded("a", true));
    let a = reg.ensure_or_get(&persona("a", "A"), false, ".", false).unwrap();
    assert!(matches!(reg.render("a"), Some(ViewContent::Loading)));
    assert!(reg.resize("a", 120, 40).is_none());
    reg.spawn_finished(a.handle, Ok(()));
    assert!(matches!(reg.render("a"), Some(ViewContent::Terminal { handle: 0, focus: true })));
    assert!(matches!(reg.render("a"), Some(ViewContent::Terminal { handle: 0, focus: false })));
    let (handle, size) = reg.resize("a", 120, 40).unwrap();
    assert_eq!((handle, size.cols, size.rows), (0, 120, 40));
    assert!(reg.set_expanded("a", true));
    assert!(reg.get("a").unwrap().header.is_expanded());
}

#[test]
fn app_open_twice_gives_one_tab_and_one_session() {
    let p = persona("p", "P");
    let mut app = App::new(vec![p.clone()], "/work".to_string());
    let request = app.open_conversation(&p).expect("the first call spawns");
    assert_eq!(argv(&request), vec!["opencode", "--agent", "p"]);
    assert_eq!(request.command.get_cwd().unwrap().to_str().unwrap(), "/work");
    assert!(app.open_conversation(&p).is_none());
    assert_eq!(app.state().open_tabs.len(), 1);
    assert_eq!(app.state().active_tab_index, Some(0));
    assert_eq!(app.conversations().len(), 1);
    assert_eq!(app.conversations().active_ids(), vec!["p"]);
}

#[test]
fn app_close_destroys_the_session_of_the_tab() {
    let a = persona("a", "A");
    let b = persona("b", "B");
    let mut app = App::new(vec![a.clone(), b.clone()], ".".to_string());
    let ra = app.open_conversation(&a).unwrap();
    let rb = app.open_conversation(&b).unwrap();
    app.spawn_finished(ra.handle, Ok(()));
    app.spawn_finished(rb.handle, Ok(()));
    assert!(app.close_conversation(5).is_none());
    assert_eq!(app.state().open_tabs.len(), 2);
    let gone = app.close_conversation(0).expect("the session of a");
    assert_eq!(gone.conversation.persona().id, "a");
    assert_eq!(gone.conversation.handle(), ra.handle);
    assert_eq!(app.state().open_tabs.len(), 1);
    assert_eq!(app.state().open_tabs[0].persona_id, "b");
    assert_eq!(app.state().active_tab_index, Some(0));
    assert_eq!(app.conversations().active_ids(), vec!["b"]);
}

#[test]
fn app_draws_the_active_conversation() {
    let a = persona("a", "A");
    let b = persona("b", "B");
    let mut app = App::new(vec![a.clone(), b.clone()], ".".to_string());
    assert!(matches!(app.render_active_conversation(), ActiveContent::Empty));
    app.select_persona(&a);
    match app.render_active_conversation() {
        ActiveContent::SessionButtons { label } => assert_eq!(label, "Start session with A"),
        other => panic!("expected the session buttons, got {:?}", other),
    }
    assert_eq!(app.conversations().len(), 0);
    let ra = app.start_session(&a, true).expect("a spawn request");
    assert_eq!(argv(&ra), vec!["opencode", "--agent", "a", "--continue"]);
    assert!(app.start_session(&a, false).is_none());
    assert!(app.open_conversation(&a).is_none());
    assert_eq!(app.state().open_tabs.len(), 1);
    let rb = app.open_conversation(&b).unwrap();
    assert!(matches!(
        app.render_active_conversation(),
        ActiveContent::Conversation(ViewContent::Loading)
    ));
    app.spawn_finished(rb.handle, Err(SpawnError::Allocation("no pty".to_string())));
    match app.render_active_conversation() {
        ActiveContent::Conversation(ViewContent::Error(m)) => {
            assert_eq!(m, "Failed to spawn terminal: no pty")
        }
        other => panic!("expected the error of b, got {:?}", other),
    }
    app.spawn_finished(ra.handle, Ok(()));
    app.select_tab(0);
    assert!(matches!(
        app.render_active_conversation(),
        ActiveContent::Conversation(ViewContent::Terminal { handle: 0, focus: true })
    ));
    assert!(matches!(
        app.render_active_conversation(),
        ActiveContent::Conversation(ViewContent::Terminal { handle: 0, focus: false })
    ));
}

#[test]
fn app_shutdown_destroys_every_session() {
    let a = persona("a", "A");
    let b = persona("b", "B");
    let mut app = App::new(vec![a.clone(), b.clone()], ".".to_string());
    app.open_conversation(&a);
    app.open_conversation(&b);
    let gone = app.shutdown();
    assert_eq!(gone.len(), 2);
    assert_eq!(app.conversations().len(), 0);
    assert!(app.conversations().active_ids().is_empty());
    assert_eq!(app.state().open_tabs.len(), 2);
}

#[test]
fn app_set_view_keeps_tabs() {
    let a = persona("a", "A");
    let mut app = App::new(vec![a.clone()], ".".to_string());
    app.open_conversation(&a);
    app.set_view(NavigationView::Settings);
    assert_eq!(app.state().current_view, NavigationView::Settings);
    assert_eq!(app.state().open_tabs.len(), 1);
}

#[test]
fn panel_offers_new_or_continued_session() {
    let p = persona("p", "Paula");
    let mut panel = PersonaPanel::new(vec![p.clone()], "/work".to_string());
    assert_eq!(panel.personas().len(), 1);
    assert!(matches!(panel.render_conversation_area(), PanelContent::Empty));
    panel.select_persona(p.clone());
    match panel.render_conversation_area() {
        PanelContent::SessionButtons { label } => assert_eq!(label, "Start session with Paula"),
        other => panic!("expected the session buttons, got {:?}", other),
    }
    let request = panel.start_session(&p, true).expect("a spawn request");
    assert_eq!(argv(&request), vec!["opencode", "--agent", "p", "--continue"]);
    assert!(panel.start_session(&p, false).is_none());
    assert_eq!(panel.active_session_ids(), vec!["p"]);
    match panel.render_conversation_area() {
        PanelContent::Session { title, is_expanded, content } => {
            assert_eq!(title, "Paula");
            assert!(!is_expanded);
            assert!(matches!(content, ViewContent::Loading));
        }
        other => panic!("expected the session, got {:?}", other),
    }
    panel.spawn_finished(request.handle, Ok(()));
    match panel.render_conversation_area() {
        PanelContent::Session { content, .. } => {
            assert!(matches!(content, ViewContent::Terminal { handle: 0, focus: true }))
        }
        other => panic!("expected the session, got {:?}", other),
    }
}

#[test]
fn panel_expansion_follows_the_selected_session() {
    let p = persona("p", "P");
    let q = persona("q", "Q");
    let mut panel = PersonaPanel::new(vec![p.clone(), q.clone()], ".".to_string());
    assert_eq!(panel.sidebar_width(), 300);
    panel.select_persona(p.clone());
    panel.start_session(&p, false);
    panel.toggle_expanded("p");
    assert!(panel.is_expanded());
    assert_eq!(panel.sidebar_width(), 0);
    assert!(panel.sessions().get("p").unwrap().header.is_expanded());

    panel.select_persona(q.clone());
    assert!(!panel.is_expanded());
    panel.select_persona(p.clone());
    assert!(panel.is_expanded());

    let gone = panel.close_session("p").expect("the session of p");
    assert_eq!(gone.conversation.handle(), 0);
    assert!(!panel.is_expanded());
    assert!(panel.active_session_ids().is_empty());
    assert!(panel.close_session("p").is_none());
    let again = panel.start_session(&p, false).expect("a fresh spawn");
    assert_eq!(again.handle, 1);
}

#[test]
fn panel_shutdown_destroys_every_session() {
    let p = persona("p", "P");
    let q = persona("q", "Q");
    let mut panel = PersonaPanel::new(vec![p.clone(), q.clone()], ".".to_string());
    panel.start_session(&p, false);
    panel.start_session(&q, true);
    panel.toggle_expanded("q");
    let mut handles: Vec<u64> = panel.shutdown().iter().map(|s| s.conversation.handle()).collect();
    handles.sort();
    assert_eq!(handles, vec![0, 1]);
    assert!(panel.active_session_ids().is_empty());
    assert!(!panel.is_expanded());
    assert!(panel.shutdown().is_empty());
}

#[test]
fn a_failed_session_is_replaced_by_a_fresh_one() {
    let p = persona("p", "P");
    let mut panel = PersonaPanel::new(vec![p.clone()], "/work".to_string());
    let first = panel.start_session(&p, false).unwrap();
    panel.spawn_finished(first.handle, Err(SpawnError::Spawn("not found".to_string())));
    assert!(panel.start_session(&p, false).is_none());
    assert!(panel.sessions().get("p").unwrap().conversation.error().is_some());

    let (old, request) = panel.restart_session(&p, true);
    assert_eq!(old.expect("the failed session").conversation.handle(), first.handle);
    let request = request.expect("a fresh spawn");
    assert_ne!(request.handle, first.handle);
    assert_eq!(argv(&request), vec!["opencode", "--agent", "p", "--continue"]);
    assert!(panel.sessions().get("p").unwrap().conversation.is_starting());
    assert!(!panel.spawn_finished(first.handle, Ok(())));
    assert!(panel.spawn_finished(request.handle, Ok(())));
    assert_eq!(panel.sessions().get("p").unwrap().conversation.pty_handle(), Some(request.handle));

    let mut reg = SessionRegistry::new();
    let (none, fresh) = reg.replace(&p, false, ".", false);
    assert!(none.is_none());
    assert_eq!(fresh.unwrap().handle, 0);
}

#[test]
fn header_bar_events_toggle_and_close() {
    let p = persona("p", "P");
    let mut panel = PersonaPanel::new(vec![p.clone()], ".".to_string());
    panel.select_persona(p.clone());
    panel.start_session(&p, false);
    assert!(panel.on_header_event("p", TerminalHeaderBarEvent::ToggleExpanded).is_none());
    assert!(panel.is_expanded());
    assert!(panel.on_header_event("p", TerminalHeaderBarEvent::ToggleExpanded).is_none());
    assert!(!panel.is_expanded());
    panel.toggle_expanded("p");
    let gone = panel.on_header_event("p", TerminalHeaderBarEvent::CloseSession);
    assert_eq!(gone.expect("the closed session").conversation.handle(), 0);
    assert!(!panel.is_expanded());
    assert!(panel.on_header_event("p", TerminalHeaderBarEvent::CloseSession).is_none());
}
