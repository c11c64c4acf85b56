use dev_toolbox::config::Config;
use dev_toolbox::db::{Database, RepoRecord};
use dev_toolbox::importer::{ImportError, ImportOutcome, SeedSource};
use dev_toolbox::models::github::{Organization, Repository};
use dev_toolbox::models::unicode::UnicodeChar;
use dev_toolbox::tools::jwt_decoder::decode_segment;
use dev_toolbox::tools::repo_explorer::CachedRepository;
use dev_toolbox::tools::unicode_inspector::{analyze_clusters, lookup_key};
use dev_toolbox::tools::{
    export_status, Completion, Field, JwtDecoderTool, KeyCode, KeyInput, OrgResearchTool, Reply,
    RepoExplorerTool, Tool, ToolError, ToolView, UnicodeInspectorTool,
};
use dev_toolbox::db::StorageError;

fn key(code: KeyCode) -> KeyInput {
    KeyInput { code, ctrl: false }
}

fn ctrl(c: char) -> KeyInput {
    KeyInput { code: KeyCode::Char(c), ctrl: true }
}

fn status(text: &str) -> Result<Reply, ToolError> {
    Ok(Reply::Status(text.to_string()))
}

fn type_text<T: Tool>(tool: &mut T, db: &Database, text: &str) {
    for c in text.chars() {
        assert_eq!(tool.handle_input(key(KeyCode::Char(c)), db), status("Input updated"));
    }
}

fn field(title: &str, text: &str) -> Field {
    Field { title: title.to_string(), text: text.to_string() }
}

fn seeded() -> Database {
    let mut db = Database::new();
    for (cp, name) in [
        ("0041", "LATIN CAPITAL LETTER A"),
        ("0042", "LATIN CAPITAL LETTER B"),
        ("0065", "LATIN SMALL LETTER E"),
        ("00FF", "LATIN SMALL LETTER Y WITH DIAERESIS"),
        ("0301", "COMBINING ACUTE ACCENT"),
        ("1F600", "GRINNING FACE"),
    ] {
        db.upsert_char(UnicodeChar {
            codepoint: cp.to_string(),
            name: name.to_string(),
            block: "Block".to_string(),
        });
    }
    db
}

// ------------------------------------------------------------------ token decoder

const TOKEN: &str = "eyJhbGciOiJIUzI1NiIsInR5cCI6IkpXVCJ9.eyJzdWIiOiIxMjM0NTY3ODkwIiwibmFtZSI6IkpvaG4gRG9lIiwiaWF0IjoxNTE2MjM5MDIyfQ.c2ln";

#[test]
fn jwt_decodes_header_and_payload() {
    let db = Database::new();
    let mut tool = JwtDecoderTool::new();
    type_text(&mut tool, &db, TOKEN);
    assert_eq!(tool.handle_input(key(KeyCode::Enter), &db), status("Decoded JWT"));
    assert_eq!(tool.header(), Some("{\"alg\":\"HS256\",\"typ\":\"JWT\"}"));
    assert_eq!(
        tool.payload(),
        Some("{\"iat\":1516239022,\"name\":\"John Doe\",\"sub\":\"1234567890\"}")
    );
    assert_eq!(tool.input(), TOKEN);
}

#[test]
fn jwt_segment_decoding() {
    assert_eq!(decode_segment("e30"), Ok("{}".to_string()));
    assert_eq!(decode_segment("WzEsIDIsICAzXQ"), Ok("[1,2,3]".to_string()));
    assert_eq!(decode_segment("e30="), Err(ToolError::Encoding));
    assert_eq!(decode_segment("e-_0"), Err(ToolError::Encoding));
    assert_eq!(decode_segment("bm90IGpzb24"), Err(ToolError::Json));
    assert_eq!(decode_segment(""), Err(ToolError::Json));
}

#[test]
fn jwt_with_wrong_number_of_parts_is_rejected() {
    let db = Database::new();
    let mut tool = JwtDecoderTool::new();
    type_text(&mut tool, &db, "e30.e30");
    let before = format!("{:?}", tool);
    assert_eq!(tool.handle_input(key(KeyCode::Enter), &db), Err(ToolError::InvalidFormat));
    assert_eq!(format!("{:?}", tool), before);
    type_text(&mut tool, &db, ".x.y");
    assert_eq!(tool.decode_jwt(), Err(ToolError::InvalidFormat));
}

#[test]
fn jwt_failure_keeps_earlier_result() {
    let db = Database::new();
    let mut tool = JwtDecoderTool::new();
    type_text(&mut tool, &db, "e30.WzFd.sig");
    assert_eq!(tool.handle_input(key(KeyCode::Enter), &db), status("Decoded JWT"));
    assert_eq!(tool.header(), Some("{}"));
    assert_eq!(tool.payload(), Some("[1]"));
    // Spoil the third part only: still fine. Then spoil the second part.
    for _ in 0.."WzFd.sig".len() {
        assert_eq!(tool.handle_input(key(KeyCode::Backspace), &db), status("Removed character"));
    }
    type_text(&mut tool, &db, "bm90IGpzb24.sig");
    let before = format!("{:?}", tool);
    assert_eq!(tool.handle_input(key(KeyCode::Enter), &db), Err(ToolError::Json));
    assert_eq!(format!("{:?}", tool), before);
    assert_eq!(tool.header(), Some("{}"));
    assert_eq!(tool.payload(), Some("[1]"));
}

#[test]
fn jwt_accept_takes_both_parts_or_neither() {
    let mut tool = JwtDecoderTool::new();
    assert_eq!(
        tool.accept(Ok("{}".to_string()), Err(ToolError::Encoding)),
        Err(ToolError::Encoding)
    );
    assert_eq!(tool.header(), None);
    assert_eq!(tool.accept(Err(ToolError::Json), Err(ToolError::Encoding)), Err(ToolError::Json));
    assert_eq!(tool.payload(), None);
    assert_eq!(
        tool.accept(Ok("{}".to_string()), Ok("[]".to_string())),
        Ok("Decoded JWT".to_string())
    );
    assert_eq!(tool.header(), Some("{}"));
    assert_eq!(tool.payload(), Some("[]"));
}

#[test]
fn jwt_editing_and_other_keys() {
    let db = Database::new();
    let mut tool = JwtDecoderTool::new();
    assert_eq!(tool.handle_input(key(KeyCode::Backspace), &db), status("Removed character"));
    assert_eq!(tool.input(), "");
    type_text(&mut tool, &db, "ab");
    assert_eq!(tool.handle_input(ctrl('x'), &db), status("Input updated"));
    assert_eq!(tool.input(), "abx");
    assert_eq!(tool.handle_input(key(KeyCode::Backspace), &db), status("Removed character"));
    assert_eq!(tool.input(), "ab");
    assert_eq!(tool.handle_input(key(KeyCode::Up), &db), status(""));
    assert_eq!(tool.handle_input(key(KeyCode::Other), &db), status(""));
    assert_eq!(tool.resume(Completion::Exported), Err(ToolError::Unexpected));
    assert_eq!(tool.name(), "JWT Decoder");
}

#[test]
fn jwt_rendering() {
    let db = Database::new();
    let mut tool = JwtDecoderTool::new();
    type_text(&mut tool, &db, "e30.WzFd.");
    assert_eq!(
        tool.render(),
        ToolView {
            banner: None,
            fields: vec![field("JWT Input", "e30.WzFd.")],
            results_title: "JWT Results".to_string(),
            lines: vec!["Header: None".to_string(), "Payload: None".to_string()],
        }
    );
    tool.handle_input(key(KeyCode::Enter), &db).unwrap();
    assert_eq!(tool.render().lines, vec!["Header: {}".to_string(), "Payload: [1]".to_string()]);
}

// ------------------------------------------------------------------ organization search

fn org(login: &str) -> Organization {
    Organization {
        login: login.to_string(),
        url: format!("https://api.github.com/users/{}", login),
        email: None,
        website_url: Some("https://example.org".to_string()),
    }
}

#[test]
fn org_search_address() {
    let db = Database::new();
    let mut tool = OrgResearchTool::new();
    assert_eq!(tool.handle_input(key(KeyCode::Down), &db), status("Switched field"));
    type_text(&mut tool, &db, "verus");
    assert_eq!(
        tool.handle_input(key(KeyCode::Enter), &db),
        Ok(Reply::Fetch("https://api.github.com/search/users?q=verus+type:org".to_string()))
    );
    assert!(tool.is_loading());
    assert_eq!(tool.resume(Completion::Organizations(vec![])), Ok("Found 0 organizations".to_string()));
    assert!(!tool.is_loading());
    assert_eq!(tool.handle_input(key(KeyCode::Up), &db), status("Switched field"));
    type_text(&mut tool, &db, "acme");
    assert_eq!(
        tool.fetch_orgs(),
        "https://api.github.com/search/users?q=org:acme verus+type:org"
    );
}

#[test]
fn org_results_are_replaced_on_success_only() {
    let db = Database::new();
    let mut tool = OrgResearchTool::new();
    tool.handle_input(key(KeyCode::Enter), &db).unwrap();
    assert_eq!(
        tool.resume(Completion::Organizations(vec![org("a"), org("b")])),
        Ok("Found 2 organizations".to_string())
    );
    assert_eq!(tool.results(), &vec![org("a"), org("b")]);
    type_text(&mut tool, &db, "p");
    let before = format!("{:?}", tool);

    tool.handle_input(key(KeyCode::Enter), &db).unwrap();
    assert_eq!(
        tool.resume(Completion::Rejected("500 Internal Server Error".to_string())),
        Err(ToolError::Remote("500 Internal Server Error".to_string()))
    );
    assert_eq!(format!("{:?}", tool), before);

    tool.handle_input(key(KeyCode::Enter), &db).unwrap();
    assert_eq!(
        tool.resume(Completion::Failed("connection reset".to_string())),
        Err(ToolError::Outside("connection reset".to_string()))
    );
    assert_eq!(format!("{:?}", tool), before);
    assert_eq!(tool.results(), &vec![org("a"), org("b")]);
}

#[test]
fn org_fields_and_toggle() {
    let db = Database::new();
    let mut tool = OrgResearchTool::new();
    assert_eq!(tool.handle_input(key(KeyCode::Up), &db), status("Switched field"));
    assert_eq!(tool.current_field(), 0);
    type_text(&mut tool, &db, "ab");
    tool.handle_input(key(KeyCode::Down), &db).unwrap();
    type_text(&mut tool, &db, "cd");
    tool.handle_input(key(KeyCode::Down), &db).unwrap();
    tool.handle_input(key(KeyCode::Down), &db).unwrap();
    assert_eq!(tool.current_field(), 2);
    type_text(&mut tool, &db, "zz");
    assert_eq!(tool.handle_input(key(KeyCode::Backspace), &db), status("No action"));
    assert_eq!(tool.parent_org(), "ab");
    assert_eq!(tool.search_term(), "cd");
    tool.handle_input(key(KeyCode::Up), &db).unwrap();
    assert_eq!(tool.handle_input(key(KeyCode::Backspace), &db), status("Removed character"));
    assert_eq!(tool.search_term(), "c");
    assert_eq!(tool.handle_input(ctrl('a'), &db), status("Allow No Parent: true"));
    assert!(tool.allow_no_parent());
    assert_eq!(tool.handle_input(ctrl('a'), &db), status("Allow No Parent: false"));
    assert_eq!(
        tool.handle_input(ctrl('e'), &db),
        Ok(Reply::Export("org_results.json".to_string()))
    );
    assert_eq!(tool.resume(Completion::Exported), Ok("Exported to org_results.json".to_string()));
    assert_eq!(tool.handle_input(key(KeyCode::Tab), &db), status(""));
    assert_eq!(tool.name(), "Org Research");
}

#[test]
fn org_rendering() {
    let db = Database::new();
    let mut tool = OrgResearchTool::new();
    type_text(&mut tool, &db, "acme");
    tool.handle_input(key(KeyCode::Enter), &db).unwrap();
    assert_eq!(
        tool.render(),
        ToolView {
            banner: Some("Searching GitHub Organizations...".to_string()),
            fields: vec![],
            results_title: String::new(),
            lines: vec![],
        }
    );
    tool.resume(Completion::Organizations(vec![org("acme-labs"), org("acme-inc")])).unwrap();
    assert_eq!(
        tool.render(),
        ToolView {
            banner: None,
            fields: vec![
                field("Parent Org", "acme"),
                field("Search Term", ""),
                field("Allow No Parent", "No"),
            ],
            results_title: "Org Results".to_string(),
            lines: vec!["acme-labs".to_string(), "acme-inc".to_string()],
        }
    );
}

// ------------------------------------------------------------------ repository browser

fn cached(name: &str, payload: &str) -> CachedRepository {
    CachedRepository {
        repository: Repository {
            name: name.to_string(),
            stargazers_count: 3,
            language: Some("Rust".to_string()),
            created_at: String::new(),
            updated_at: String::new(),
            pushed_at: String::new(),
            releases: vec![],
            description: None,
        },
        payload: payload.to_string(),
    }
}

#[test]
fn repo_keys() {
    let db = Database::new();
    let mut tool = RepoExplorerTool::new();
    type_text(&mut tool, &db, "octo");
    assert_eq!(tool.handle_input(key(KeyCode::Backspace), &db), status("Removed character"));
    assert_eq!(tool.input(), "oct");
    assert_eq!(
        tool.handle_input(key(KeyCode::Enter), &db),
        status("Repository fetching not implemented")
    );
    assert_eq!(
        tool.handle_input(ctrl('e'), &db),
        Ok(Reply::Export("repo_results.json".to_string()))
    );
    assert_eq!(tool.resume(Completion::Exported), Ok("Exported to repo_results.json".to_string()));
    assert_eq!(tool.resume(Completion::Organizations(vec![])), Err(ToolError::Unexpected));
    assert_eq!(tool.handle_input(key(KeyCode::Down), &db), status(""));
    assert_eq!(tool.input(), "oct");
    assert_eq!(tool.name(), "Repo Explorer");
}

#[test]
fn repo_save_cache_upserts_each_result() {
    let mut db = Database::new();
    db.upsert_repo(RepoRecord {
        owner: "octo".to_string(),
        name: "one".to_string(),
        payload: "old".to_string(),
    });
    let mut tool = RepoExplorerTool::new();
    assert_eq!(tool.save_cache(&mut db), Ok(()));
    assert_eq!(db.count_repos(), 1);

    type_text(&mut tool, &db, "octo");
    tool.store_results(vec![cached("one", "{\"n\":1}"), cached("two", "{\"n\":2}")]);
    assert_eq!(tool.results().len(), 2);
    assert_eq!(tool.save_cache(&mut db), Ok(()));
    let rows = db.repos();
    assert_eq!(rows.len(), 2);
    assert_eq!(rows[0].name, "one");
    assert_eq!(rows[0].payload, "{\"n\":1}");
    assert_eq!(rows[1].owner, "octo");
    assert_eq!(rows[1].name, "two");
    assert_eq!(
        tool.render(),
        ToolView {
            banner: None,
            fields: vec![field("Repo Input", "octo")],
            results_title: "Repo Results".to_string(),
            lines: vec!["one".to_string(), "two".to_string()],
        }
    );
}

// ------------------------------------------------------------------ character inspector

fn ready_inspector() -> UnicodeInspectorTool {
    let mut tool = UnicodeInspectorTool::new();
    tool.mark_ready();
    tool
}

fn focus(tool: &mut UnicodeInspectorTool, db: &Database, field: usize) {
    for _ in 0..4 {
        tool.handle_input(key(KeyCode::Up), db).unwrap();
    }
    for _ in 0..field {
        tool.handle_input(key(KeyCode::Down), db).unwrap();
    }
    assert_eq!(tool.current_field(), field);
}

#[test]
fn unicode_lookup_by_codepoint() {
    let db = seeded();
    let mut tool = ready_inspector();
    focus(&mut tool, &db, 1);
    type_text(&mut tool, &db, "U+41");
    assert_eq!(tool.handle_input(ctrl('l'), &db), status("Found 1 characters"));
    assert_eq!(tool.results().len(), 1);
    assert_eq!(tool.results()[0].name, "LATIN CAPITAL LETTER A");
    for _ in 0..2 {
        tool.handle_input(key(KeyCode::Backspace), &db).unwrap();
    }
    type_text(&mut tool, &db, "99");
    assert_eq!(tool.codepoint(), "U+99");
    assert_eq!(tool.handle_input(ctrl('l'), &db), status("Found 0 characters"));
    assert!(tool.results().is_empty());
}

#[test]
fn unicode_lookup_uppercases_the_codepoint() {
    let db = seeded();
    let mut tool = ready_inspector();
    focus(&mut tool, &db, 1);
    type_text(&mut tool, &db, "1f600");
    assert_eq!(tool.handle_input(ctrl('l'), &db), status("Found 1 characters"));
    assert_eq!(tool.results()[0].name, "GRINNING FACE");
    // The ligature of two small letters f is two capital letters F in upper case.
    let mut tool = ready_inspector();
    focus(&mut tool, &db, 1);
    type_text(&mut tool, &db, "\u{fb00}");
    assert_eq!(tool.handle_input(ctrl('l'), &db), status("Found 1 characters"));
    assert_eq!(tool.results()[0].codepoint, "00FF");
}

#[test]
fn unicode_invalid_codepoint_changes_nothing() {
    let db = seeded();
    let mut tool = ready_inspector();
    focus(&mut tool, &db, 1);
    type_text(&mut tool, &db, "41");
    tool.handle_input(ctrl('l'), &db).unwrap();
    type_text(&mut tool, &db, "zz");
    let before = format!("{:?}", tool);
    assert_eq!(tool.handle_input(ctrl('l'), &db), Err(ToolError::InvalidCodepoint));
    assert_eq!(format!("{:?}", tool), before);
    assert_eq!(tool.results().len(), 1);
    assert_eq!(tool.lookup_codepoint(&db), Err(ToolError::InvalidCodepoint));
    assert_eq!(tool.results().len(), 1);
}

#[test]
fn unicode_lookup_key() {
    assert_eq!(lookup_key("41"), Ok("0041".to_string()));
    assert_eq!(lookup_key("+1F600"), Ok("1F600".to_string()));
    assert_eq!(lookup_key("000041"), Ok("0041".to_string()));
    assert_eq!(lookup_key(""), Err(ToolError::InvalidCodepoint));
    assert_eq!(lookup_key("U+41"), Err(ToolError::InvalidCodepoint));
    assert_eq!(lookup_key("100000000"), Err(ToolError::InvalidCodepoint));
}

fn row(codepoint: &str, name: &str) -> UnicodeChar {
    UnicodeChar {
        codepoint: codepoint.to_string(),
        name: name.to_string(),
        block: "Block".to_string(),
    }
}

#[test]
fn unicode_lookup_by_name_asks_for_the_rows() {
    let db = seeded();
    let mut tool = ready_inspector();
    focus(&mut tool, &db, 2);
    type_text(&mut tool, &db, "capital");
    assert_eq!(tool.name_input(), "capital");
    assert_eq!(tool.lookup_name(), "%capital%");
    let before = format!("{:?}", tool);
    assert_eq!(tool.handle_input(ctrl('l'), &db), Ok(Reply::Lookup("%capital%".to_string())));
    // Asking changes nothing; the rows that come back replace the results.
    assert_eq!(format!("{:?}", tool), before);
    let rows = vec![row("0041", "LATIN CAPITAL LETTER A"), row("0042", "LATIN CAPITAL LETTER B")];
    assert_eq!(tool.resume(Completion::Characters(rows)), Ok("Found 2 characters".to_string()));
    assert_eq!(tool.results()[0].codepoint, "0041");
    assert_eq!(tool.results()[1].codepoint, "0042");
    assert_eq!(tool.accept_rows(vec![]), "Found 0 characters");
    assert!(tool.results().is_empty());
}

#[test]
fn unicode_failed_lookup_by_name_changes_nothing() {
    let db = seeded();
    let mut tool = ready_inspector();
    focus(&mut tool, &db, 1);
    type_text(&mut tool, &db, "41");
    tool.handle_input(ctrl('l'), &db).unwrap();
    assert_eq!(tool.results().len(), 1);
    for _ in 0..2 {
        tool.handle_input(key(KeyCode::Backspace), &db).unwrap();
    }
    focus(&mut tool, &db, 2);
    type_text(&mut tool, &db, "x");
    let before = format!("{:?}", tool);
    assert_eq!(tool.handle_input(ctrl('l'), &db), Ok(Reply::Lookup("%x%".to_string())));
    assert_eq!(
        tool.resume(Completion::Failed("LIKE or GLOB pattern too complex".to_string())),
        Err(ToolError::Outside("LIKE or GLOB pattern too complex".to_string()))
    );
    assert_eq!(format!("{:?}", tool), before);
    assert_eq!(tool.resume(Completion::Organizations(vec![])), Err(ToolError::Unexpected));
    assert_eq!(format!("{:?}", tool), before);
}

#[test]
fn tools_refuse_rows_they_did_not_ask_for() {
    let db = Database::new();
    let mut org = OrgResearchTool::new();
    org.handle_input(key(KeyCode::Enter), &db).unwrap();
    assert_eq!(org.resume(Completion::Characters(vec![])), Err(ToolError::Unexpected));
    assert!(!org.is_loading());
    let mut repo = RepoExplorerTool::new();
    assert_eq!(repo.resume(Completion::Characters(vec![])), Err(ToolError::Unexpected));
    let mut jwt = JwtDecoderTool::new();
    assert_eq!(jwt.resume(Completion::Characters(vec![])), Err(ToolError::Unexpected));
}

#[test]
fn unicode_lookup_without_input() {
    let db = seeded();
    let mut tool = ready_inspector();
    assert_eq!(tool.handle_input(ctrl('l'), &db), status("No lookup input"));
}

#[test]
fn unicode_analysis_takes_first_character_of_each_cluster() {
    let db = seeded();
    let mut tool = ready_inspector();
    // "e" with a combining accent is one cluster; only its first character is looked up.
    type_text(&mut tool, &db, "Ae\u{301}\u{1F600}?");
    assert_eq!(tool.text(), "Ae\u{301}\u{1F600}?");
    assert_eq!(tool.handle_input(key(KeyCode::Enter), &db), status("Analyzed 3 graphemes"));
    let found: Vec<&str> = tool.results().iter().map(|r| r.codepoint.as_str()).collect();
    assert_eq!(found, vec!["0041", "0065", "1F600"]);
    assert_eq!(tool.analyze_text(&db), "Analyzed 3 graphemes");
}

#[test]
fn unicode_analysis_of_given_clusters() {
    let db = seeded();
    let clusters = vec!["B".to_string(), String::new(), "\u{301}x".to_string(), "zz".to_string()];
    let found = analyze_clusters(&db, &clusters);
    let codes: Vec<&str> = found.iter().map(|r| r.codepoint.as_str()).collect();
    assert_eq!(codes, vec!["0042", "0301"]);
    assert!(analyze_clusters(&db, &vec![]).is_empty());
}

#[test]
fn unicode_fields_and_toggle() {
    let db = Database::new();
    let mut tool = ready_inspector();
    type_text(&mut tool, &db, "t");
    focus(&mut tool, &db, 1);
    type_text(&mut tool, &db, "c");
    focus(&mut tool, &db, 2);
    type_text(&mut tool, &db, "n");
    focus(&mut tool, &db, 3);
    type_text(&mut tool, &db, "x");
    assert_eq!(tool.handle_input(key(KeyCode::Backspace), &db), status("No action"));
    tool.handle_input(key(KeyCode::Down), &db).unwrap();
    assert_eq!(tool.current_field(), 3);
    assert_eq!((tool.text(), tool.codepoint(), tool.name_input()), ("t", "c", "n"));
    for f in [2, 1, 0] {
        focus(&mut tool, &db, f);
        assert_eq!(tool.handle_input(key(KeyCode::Backspace), &db), status("Removed character"));
    }
    assert_eq!((tool.text(), tool.codepoint(), tool.name_input()), ("", "", ""));
    assert_eq!(tool.handle_input(ctrl('a'), &db), status("Sequential Mode: true"));
    assert!(tool.sequential());
    assert_eq!(tool.handle_input(ctrl('a'), &db), status("Sequential Mode: false"));
    assert_eq!(
        tool.handle_input(ctrl('e'), &db),
        Ok(Reply::Export("unicode_results.json".to_string()))
    );
    assert_eq!(
        tool.resume(Completion::Exported),
        Ok("Exported to unicode_results.json".to_string())
    );
    assert_eq!(tool.handle_input(key(KeyCode::Other), &db), status(""));
    assert_eq!(tool.name(), "Unicode Inspector");
    let mut db = Database::new();
    assert_eq!(tool.save_cache(&mut db), Ok(()));
}

#[test]
fn unicode_shows_notice_until_import_is_over() {
    let mut db = Database::new();
    let mut tool = UnicodeInspectorTool::new();
    assert!(!tool.is_ready());
    assert_eq!(
        tool.render(),
        ToolView {
            banner: Some("Loading Unicode data...".to_string()),
            fields: vec![],
            results_title: String::new(),
            lines: vec![],
        }
    );
    let chars = SeedSource::Text(
        "0041;LATIN CAPITAL LETTER A;Basic Latin\n0042;LATIN CAPITAL LETTER B;Basic Latin"
            .to_string(),
    );
    assert_eq!(tool.import(&mut db, &chars, &SeedSource::Missing), Some(ImportOutcome::Imported));
    assert!(tool.is_ready());
    assert_eq!(tool.import(&mut db, &chars, &SeedSource::Missing), None);

    // Every later step still sees the data as ready.
    tool.handle_input(key(KeyCode::Down), &db).unwrap();
    type_text(&mut tool, &db, "0041");
    assert_eq!(tool.handle_input(ctrl('l'), &db), status("Found 1 characters"));
    assert!(tool.is_ready());
    assert_eq!(
        tool.render(),
        ToolView {
            banner: None,
            fields: vec![
                field("Unicode Input", ""),
                field("Codepoint", "0041"),
                field("Name", ""),
                field("Sequential Mode", "No"),
            ],
            results_title: "Unicode Results".to_string(),
            lines: vec!["U+0041 LATIN CAPITAL LETTER A (Basic Latin)".to_string()],
        }
    );
    let found = tool.results();
    assert_eq!(found.len(), 1);
    assert_eq!(found[0].name, "LATIN CAPITAL LETTER A");
}

#[test]
fn unicode_is_ready_after_an_import_that_was_given_up() {
    let mut db = Database::new();
    let mut tool = UnicodeInspectorTool::new();
    assert_eq!(
        tool.import(&mut db, &SeedSource::Missing, &SeedSource::Unreadable),
        Some(ImportOutcome::Aborted(ImportError::BlocksUnreadable))
    );
    assert!(tool.is_ready());
    assert_eq!(tool.render().banner, None);
}

// ------------------------------------------------------------------ shared

#[test]
fn error_messages() {
    assert_eq!(ToolError::InvalidFormat.message(), "Invalid JWT format");
    assert_eq!(ToolError::Encoding.message(), "Invalid base64 in token");
    assert_eq!(ToolError::Json.message(), "Invalid JSON in token");
    assert_eq!(ToolError::InvalidCodepoint.message(), "Invalid code point");
    assert_eq!(
        ToolError::Remote("404 Not Found".to_string()).message(),
        "GitHub API error: 404 Not Found"
    );
    assert_eq!(ToolError::Outside("timed out".to_string()).message(), "timed out");
    assert_eq!(
        ToolError::Storage(StorageError::TransactionOpen).message(),
        "A transaction is already open"
    );
    assert_eq!(
        ToolError::Storage(StorageError::NoTransaction).message(),
        "No transaction is open"
    );
    assert_eq!(ToolError::Unexpected.message(), "Unexpected completion");
}

#[test]
fn export_status_of_each_completion() {
    assert_eq!(export_status("f.json", Completion::Exported), Ok("Exported to f.json".to_string()));
    assert_eq!(
        export_status("f.json", Completion::Organizations(vec![])),
        Err(ToolError::Unexpected)
    );
    assert_eq!(
        export_status("f.json", Completion::Characters(vec![])),
        Err(ToolError::Unexpected)
    );
    assert_eq!(
        export_status("f.json", Completion::Rejected("401".to_string())),
        Err(ToolError::Remote("401".to_string()))
    );
    assert_eq!(
        export_status("f.json", Completion::Failed("no space".to_string())),
        Err(ToolError::Outside("no space".to_string()))
    );
}

#[test]
fn default_settings() {
    let config = Config::default_with_paths(Some("/data".to_string()));
    assert_eq!(config.unicode_data_path, "UnicodeData.txt");
    assert_eq!(config.blocks_path, "Blocks.txt");
    assert_eq!(config.cache_db_path, "/data/dev-toolbox/cache.db");
    assert_eq!(config.github_api_base_url, "https://api.github.com");
}

#[test]
fn default_settings_without_a_data_directory() {
    let config = Config::default_with_paths(None);
    assert_eq!(
        config,
        Config {
            unicode_data_path: "UnicodeData.txt".to_string(),
            blocks_path: "Blocks.txt".to_string(),
            cache_db_path: "./dev-toolbox/cache.db".to_string(),
            github_api_base_url: "https://api.github.com".to_string(),
        }
    );
    assert_eq!(Config::default_cache_directory(None), "./dev-toolbox");
}

#[test]
fn default_cache_path_joins_as_paths_are_joined() {
    for dir in ["/home/u/.local/share", "/data/", "", ".", "relative/dir", "/"] {
        let expected = std::path::PathBuf::from(dir).join("dev-toolbox").join("cache.db");
        let config = Config::default_with_paths(Some(dir.to_string()));
        assert_eq!(config.cache_db_path, expected.to_string_lossy(), "{:?}", dir);
        let expected = std::path::PathBuf::from(dir).join("dev-toolbox");
        assert_eq!(
            Config::default_cache_directory(Some(dir.to_string())),
            expected.to_string_lossy(),
            "{:?}",
            dir
        );
    }
}
