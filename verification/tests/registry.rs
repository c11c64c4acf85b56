use dev_toolbox::app::{Action, App, InputEvent, LoopState};
use dev_toolbox::db::Database;
use dev_toolbox::models::github::{Organization, Repository};
use dev_toolbox::tools::repo_explorer::CachedRepository;
use dev_toolbox::tools::{
    Completion, JwtDecoderTool, KeyCode, KeyInput, OrgResearchTool, RepoExplorerTool, Tool,
    ToolSlot, UnicodeInspectorTool,
};

fn key(code: KeyCode) -> InputEvent {
    InputEvent::Key(KeyInput { code, ctrl: false })
}

fn ctrl(c: char) -> InputEvent {
    InputEvent::Key(KeyInput { code: KeyCode::Char(c), ctrl: true })
}

fn toolbox() -> App<ToolSlot> {
    App::standard()
}

#[test]
fn standard_toolbox_is_what_registering_gives() {
    let mut app: App<ToolSlot> = App::new();
    assert_eq!(app.tool_count(), 0);
    app.register(ToolSlot::Org(OrgResearchTool::new()));
    app.register(ToolSlot::Repo(RepoExplorerTool::new()));
    app.register(ToolSlot::Unicode(UnicodeInspectorTool::new()));
    app.register(ToolSlot::Jwt(JwtDecoderTool::new()));
    let mut standard = App::standard();
    assert_eq!(standard.tool_count(), 4);
    assert_eq!(standard.active_index(), 0);
    assert_eq!(standard.tab_titles(), app.tab_titles());
    for _ in 0..4 {
        assert_eq!(standard.active(), app.active());
        app.advance();
        standard.advance();
    }
}

#[test]
fn readiness_reaches_the_inspector_and_stays() {
    let mut app = toolbox();
    let db = Database::new();
    app.select_at(2);
    assert!(app.render().unwrap().banner.is_some());
    app.reference_ready();
    assert!(app.render().unwrap().banner.is_none());
    app.dispatch(key(KeyCode::Char('A')), 80, &db);
    app.dispatch(key(KeyCode::Enter), 80, &db);
    app.reference_ready();
    assert!(app.render().unwrap().banner.is_none());
    match app.active().unwrap() {
        ToolSlot::Unicode(t) => {
            assert!(t.is_ready());
            assert_eq!(t.text(), "A");
        }
        _ => panic!("the third tool is the character inspector"),
    }
    assert_eq!(app.message(), "Analyzed 0 graphemes");
}

#[test]
fn three_tools_four_advances() {
    let mut app: App<JwtDecoderTool> = App::new();
    app.register(JwtDecoderTool::new());
    app.register(JwtDecoderTool::new());
    app.register(JwtDecoderTool::new());
    let mut seen = Vec::new();
    for _ in 0..4 {
        app.advance();
        seen.push(app.active_index());
    }
    assert_eq!(seen, vec![1, 2, 0, 1]);
}

#[test]
fn advance_cycles_back_to_start() {
    let mut app = toolbox();
    assert_eq!(app.active_index(), 0);
    for _ in 0..app.tool_count() {
        app.advance();
        assert!(app.active_index() < app.tool_count());
    }
    assert_eq!(app.active_index(), 0);
}

#[test]
fn advance_without_tools_changes_nothing() {
    let mut app: App<ToolSlot> = App::new();
    app.advance();
    assert_eq!(app.active_index(), 0);
    assert!(app.active().is_none());
    assert!(app.render().is_none());
}

#[test]
fn new_toolbox_is_idle_with_welcome() {
    let app = toolbox();
    assert_eq!(app.state(), LoopState::Idle);
    assert_eq!(
        app.message(),
        "Welcome to Dev-Toolbox! Press 'q' to quit, 'Tab' to switch tools."
    );
    assert_eq!(
        app.tab_titles(),
        vec!["Org Research", "Repo Explorer", "Unicode Inspector", "JWT Decoder"]
    );
}

#[test]
fn select_at_clamps_to_last_tool() {
    let mut app = toolbox();
    app.select_at(2);
    assert_eq!(app.active_index(), 2);
    app.select_at(17);
    assert_eq!(app.active_index(), 3);
    app.select_at(0);
    assert_eq!(app.active_index(), 0);
}

#[test]
fn tab_key_moves_to_next_tool() {
    let mut app = toolbox();
    let db = Database::new();
    let action = app.dispatch(key(KeyCode::Tab), 80, &db);
    assert_eq!(action, Action::Continue);
    assert_eq!(app.active_index(), 1);
    assert_eq!(app.active().unwrap().name(), "Repo Explorer");
}

#[test]
fn click_on_tab_bar_selects_tab() {
    let mut app = toolbox();
    let db = Database::new();
    // 80 columns shared by four tabs: 20 columns each.
    app.dispatch(InputEvent::Click { row: 1, column: 45 }, 80, &db);
    assert_eq!(app.active_index(), 2);
    app.dispatch(InputEvent::Click { row: 1, column: 0 }, 80, &db);
    assert_eq!(app.active_index(), 0);
    // 83 columns: a click in the last three columns still falls on the last tab.
    app.dispatch(InputEvent::Click { row: 1, column: 82 }, 83, &db);
    assert_eq!(app.active_index(), 3);
}

#[test]
fn click_elsewhere_or_on_narrow_screen_is_ignored() {
    let mut app = toolbox();
    let db = Database::new();
    app.dispatch(InputEvent::Click { row: 2, column: 45 }, 80, &db);
    assert_eq!(app.active_index(), 0);
    app.dispatch(InputEvent::Click { row: 1, column: 2 }, 3, &db);
    assert_eq!(app.active_index(), 0);
}

#[test]
fn quit_binding_ends_the_loop() {
    let mut app = toolbox();
    let db = Database::new();
    let action = app.dispatch(ctrl('q'), 80, &db);
    assert_eq!(action, Action::Quit);
    assert_eq!(app.state(), LoopState::ShuttingDown);
    // Nothing is dispatched after the loop has ended.
    let action = app.dispatch(key(KeyCode::Tab), 80, &db);
    assert_eq!(action, Action::Continue);
    assert_eq!(app.active_index(), 0);
    assert_eq!(app.state(), LoopState::ShuttingDown);
}

#[test]
fn copy_binding_hands_out_the_status() {
    let mut app = toolbox();
    let db = Database::new();
    let action = app.dispatch(ctrl('c'), 80, &db);
    assert_eq!(
        action,
        Action::Copy(
            "Welcome to Dev-Toolbox! Press 'q' to quit, 'Tab' to switch tools.".to_string()
        )
    );
    // Nothing is claimed before the copy has ended.
    assert_eq!(
        app.message(),
        "Welcome to Dev-Toolbox! Press 'q' to quit, 'Tab' to switch tools."
    );
    assert_eq!(app.state(), LoopState::Handling);
    assert!(app.is_copying());
    app.finish_copy(Ok(()));
    assert_eq!(app.message(), "Copied to clipboard!");
    assert_eq!(app.state(), LoopState::Idle);
    assert!(!app.is_copying());
}

#[test]
fn failed_copy_becomes_the_status() {
    let mut app = toolbox();
    let db = Database::new();
    app.dispatch(key(KeyCode::Char('x')), 80, &db);
    app.select_at(2);
    let action = app.dispatch(ctrl('c'), 80, &db);
    assert_eq!(action, Action::Copy("Input updated".to_string()));
    // The end of other work is not taken for the end of the copy.
    app.complete(Completion::Exported);
    assert_eq!(app.state(), LoopState::Handling);
    assert_eq!(app.message(), "Input updated");
    app.finish_copy(Err("no clipboard on this machine".to_string()));
    assert_eq!(app.message(), "no clipboard on this machine");
    assert_eq!(app.state(), LoopState::Idle);
    assert!(!app.is_copying());
    assert_eq!(app.active_index(), 2);
    assert_eq!(app.tool_count(), 4);
    // The loop goes on.
    assert_eq!(app.dispatch(key(KeyCode::Tab), 80, &db), Action::Continue);
    assert_eq!(app.active_index(), 3);
}

#[test]
fn end_of_a_copy_that_was_not_asked_for_is_ignored() {
    let mut app = toolbox();
    let db = Database::new();
    app.finish_copy(Ok(()));
    assert_eq!(
        app.message(),
        "Welcome to Dev-Toolbox! Press 'q' to quit, 'Tab' to switch tools."
    );
    assert_eq!(app.state(), LoopState::Idle);
    // While a search is on its way the end of a copy changes nothing.
    app.dispatch(key(KeyCode::Enter), 80, &db);
    assert_eq!(app.state(), LoopState::Handling);
    app.finish_copy(Err("late".to_string()));
    assert_eq!(app.state(), LoopState::Handling);
    assert!(!app.is_copying());
    app.complete(Completion::Organizations(vec![]));
    assert_eq!(app.message(), "Found 0 organizations");
}

#[test]
fn plain_q_goes_to_the_tool() {
    let mut app = toolbox();
    let db = Database::new();
    let action = app.dispatch(key(KeyCode::Char('q')), 80, &db);
    assert_eq!(action, Action::Continue);
    assert_eq!(app.state(), LoopState::Idle);
    assert_eq!(app.message(), "Input updated");
    match app.active().unwrap() {
        ToolSlot::Org(t) => assert_eq!(t.parent_org(), "q"),
        _ => panic!("the first tool is the organization search"),
    }
}

#[test]
fn tool_error_becomes_status_and_loop_stays_idle() {
    let mut app = toolbox();
    let db = Database::new();
    app.select_at(3);
    app.dispatch(key(KeyCode::Char('x')), 80, &db);
    let action = app.dispatch(key(KeyCode::Enter), 80, &db);
    assert_eq!(action, Action::Continue);
    assert_eq!(app.message(), "Invalid JWT format");
    assert_eq!(app.state(), LoopState::Idle);
    match app.active().unwrap() {
        ToolSlot::Jwt(t) => {
            assert_eq!(t.input(), "x");
            assert_eq!(t.header(), None);
            assert_eq!(t.payload(), None);
        }
        _ => panic!("the fourth tool is the token decoder"),
    }
}

#[test]
fn search_puts_loop_into_handling_until_completed() {
    let mut app = toolbox();
    let db = Database::new();
    for c in "rust".chars() {
        app.dispatch(key(KeyCode::Char(c)), 80, &db);
    }
    let action = app.dispatch(key(KeyCode::Enter), 80, &db);
    assert_eq!(
        action,
        Action::Fetch("https://api.github.com/search/users?q=org:rust +type:org".to_string())
    );
    assert_eq!(app.state(), LoopState::Handling);
    // Events are not dispatched while the work is outstanding.
    let ignored = app.dispatch(key(KeyCode::Tab), 80, &db);
    assert_eq!(ignored, Action::Continue);
    assert_eq!(app.active_index(), 0);

    let found = vec![Organization {
        login: "rust-lang".to_string(),
        url: "https://api.github.com/users/rust-lang".to_string(),
        email: None,
        website_url: None,
    }];
    app.complete(Completion::Organizations(found));
    assert_eq!(app.state(), LoopState::Idle);
    assert_eq!(app.message(), "Found 1 organizations");
}

#[test]
fn failed_search_reports_and_returns_to_idle() {
    let mut app = toolbox();
    let db = Database::new();
    app.dispatch(key(KeyCode::Enter), 80, &db);
    app.complete(Completion::Rejected("403 Forbidden".to_string()));
    assert_eq!(app.state(), LoopState::Idle);
    assert_eq!(app.message(), "GitHub API error: 403 Forbidden");
    match app.active().unwrap() {
        ToolSlot::Org(t) => {
            assert!(!t.is_loading());
            assert!(t.results().is_empty());
        }
        _ => panic!("the first tool is the organization search"),
    }
}

#[test]
fn completion_outside_handling_is_ignored() {
    let mut app = toolbox();
    app.complete(Completion::Exported);
    assert_eq!(app.state(), LoopState::Idle);
    assert_eq!(
        app.message(),
        "Welcome to Dev-Toolbox! Press 'q' to quit, 'Tab' to switch tools."
    );
}

#[test]
fn export_round_trip() {
    let mut app = toolbox();
    let db = Database::new();
    app.select_at(2);
    let action = app.dispatch(ctrl('e'), 80, &db);
    assert_eq!(action, Action::Export("unicode_results.json".to_string()));
    assert_eq!(app.state(), LoopState::Handling);
    app.complete(Completion::Exported);
    assert_eq!(app.message(), "Exported to unicode_results.json");
    assert_eq!(app.state(), LoopState::Idle);

    let action = app.dispatch(ctrl('e'), 80, &db);
    assert_eq!(action, Action::Export("unicode_results.json".to_string()));
    app.complete(Completion::Failed("disk full".to_string()));
    assert_eq!(app.message(), "disk full");
    assert_eq!(app.state(), LoopState::Idle);
}

#[test]
fn save_cache_of_fresh_toolbox_writes_nothing() {
    let app = toolbox();
    let mut db = Database::new();
    assert_eq!(app.save_cache(&mut db), Ok(()));
    assert_eq!(db.count_repos(), 0);
    assert_eq!(db.count_chars(), 0);
    assert_eq!(db.count_blocks(), 0);
}

fn cached(name: &str, payload: &str) -> CachedRepository {
    CachedRepository {
        repository: Repository {
            name: name.to_string(),
            stargazers_count: 0,
            language: None,
            created_at: String::new(),
            updated_at: String::new(),
            pushed_at: String::new(),
            releases: vec![],
            description: None,
        },
        payload: payload.to_string(),
    }
}

#[test]
fn save_cache_has_every_tool_save_in_tab_order() {
    let reader = Database::new();
    let mut first = RepoExplorerTool::new();
    first.handle_input(KeyInput { code: KeyCode::Char('a'), ctrl: false }, &reader).unwrap();
    first.store_results(vec![cached("one", "first"), cached("two", "first")]);
    let mut second = RepoExplorerTool::new();
    second.handle_input(KeyInput { code: KeyCode::Char('a'), ctrl: false }, &reader).unwrap();
    second.store_results(vec![cached("one", "second")]);

    let mut app: App<ToolSlot> = App::new();
    app.register(ToolSlot::Repo(first));
    app.register(ToolSlot::Jwt(JwtDecoderTool::new()));
    app.register(ToolSlot::Repo(second));

    let mut db = Database::new();
    assert_eq!(app.save_cache(&mut db), Ok(()));
    let rows: Vec<(String, String)> =
        db.repos().into_iter().map(|r| (r.name, r.payload)).collect();
    assert_eq!(
        rows,
        vec![("two".to_string(), "first".to_string()), ("one".to_string(), "second".to_string())]
    );
}

#[test]
fn save_cache_without_tools_succeeds() {
    let app: App<ToolSlot> = App::new();
    let mut db = Database::new();
    assert_eq!(app.save_cache(&mut db), Ok(()));
    assert_eq!(db.count_repos(), 0);
}

#[test]
fn name_lookup_goes_out_and_comes_back() {
    let mut app = toolbox();
    let db = Database::new();
    app.select_at(2);
    app.dispatch(key(KeyCode::Down), 80, &db);
    app.dispatch(key(KeyCode::Down), 80, &db);
    for c in "latin".chars() {
        app.dispatch(key(KeyCode::Char(c)), 80, &db);
    }
    let action = app.dispatch(ctrl('l'), 80, &db);
    assert_eq!(action, Action::Lookup("%latin%".to_string()));
    assert_eq!(app.state(), LoopState::Handling);
    assert_eq!(app.message(), "Input updated");
    app.complete(Completion::Failed("no such table: unicode_chars".to_string()));
    assert_eq!(app.message(), "no such table: unicode_chars");
    assert_eq!(app.state(), LoopState::Idle);
    let action = app.dispatch(ctrl('l'), 80, &db);
    assert_eq!(action, Action::Lookup("%latin%".to_string()));
    app.complete(Completion::Characters(vec![]));
    assert_eq!(app.message(), "Found 0 characters");
    assert_eq!(app.state(), LoopState::Idle);
}
