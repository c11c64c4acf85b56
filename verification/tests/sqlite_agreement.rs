use dev_toolbox::db::{Database, Record, RepoRecord};
use dev_toolbox::models::unicode::UnicodeChar;
use rusqlite::Connection;

#[test]
fn upsert_agrees_with_sqlite_insert_or_replace() {
    let conn = Connection::open_in_memory().unwrap();
    conn.execute(
        "CREATE TABLE repos (username TEXT NOT NULL, name TEXT NOT NULL, data TEXT NOT NULL, PRIMARY KEY (username, name))",
        [],
    )
    .unwrap();
    let writes = [
        ("a", "b", "1"),
        ("a", "c", "2"),
        ("b", "b", "3"),
        ("a", "b", "4"),
        ("", "", "5"),
        ("a", "c", "6"),
        ("ab", "", "7"),
        ("a", "b", "8"),
        ("", "", "9"),
    ];
    let mut db = Database::new();
    for (owner, name, payload) in writes {
        let affected = conn
            .execute(
                "INSERT OR REPLACE INTO repos (username, name, data) VALUES (?1, ?2, ?3)",
                [owner, name, payload],
            )
            .unwrap();
        let written = db.upsert_repo(RepoRecord {
            owner: owner.to_string(),
            name: name.to_string(),
            payload: payload.to_string(),
        });
        assert_eq!(written, affected);

        let mut stmt = conn.prepare("SELECT username, name, data FROM repos ORDER BY rowid").unwrap();
        let stored: Vec<RepoRecord> = stmt
            .query_map([], |row| {
                Ok(RepoRecord { owner: row.get(0)?, name: row.get(1)?, payload: row.get(2)? })
            })
            .unwrap()
            .map(|r| r.unwrap())
            .collect();
        assert_eq!(db.repos(), stored);
        assert_eq!(db.count_repos(), stored.len());
    }
}

#[test]
fn codepoint_lookup_agrees_with_sqlite_equality() {
    let conn = Connection::open_in_memory().unwrap();
    conn.execute(
        "CREATE TABLE unicode_chars (codepoint TEXT PRIMARY KEY, name TEXT NOT NULL, block TEXT NOT NULL)",
        [],
    )
    .unwrap();
    let mut db = Database::new();
    for (cp, name) in [("0041", "A"), ("0061", "a"), ("00e9", "lower"), ("00E9", "upper"), ("41", "short")] {
        conn.execute(
            "INSERT OR REPLACE INTO unicode_chars (codepoint, name, block) VALUES (?1, ?2, ?3)",
            [cp, name, "B"],
        )
        .unwrap();
        db.upsert_char(UnicodeChar {
            codepoint: cp.to_string(),
            name: name.to_string(),
            block: "B".to_string(),
        });
    }
    for wanted in ["0041", "0061", "00e9", "00E9", "41", "0042", "", "004"] {
        let mut stmt = conn
            .prepare("SELECT codepoint, name, block FROM unicode_chars WHERE codepoint = ?1")
            .unwrap();
        let stored: Vec<UnicodeChar> = stmt
            .query_map([wanted], |row| {
                Ok(UnicodeChar { codepoint: row.get(0)?, name: row.get(1)?, block: row.get(2)? })
            })
            .unwrap()
            .map(|r| r.unwrap())
            .collect();
        assert_eq!(db.chars_by_codepoint(wanted), stored, "{:?}", wanted);
    }
}

#[test]
fn records_compare_by_key_and_copy_whole() {
    let a = RepoRecord { owner: "o".to_string(), name: "n".to_string(), payload: "1".to_string() };
    let b = RepoRecord { owner: "o".to_string(), name: "n".to_string(), payload: "2".to_string() };
    let c = RepoRecord { owner: "o".to_string(), name: "m".to_string(), payload: "1".to_string() };
    assert!(a.same_key(&b));
    assert!(!a.same_key(&c));
    assert_eq!(b.duplicate(), b);
    let x = UnicodeChar { codepoint: "0041".to_string(), name: "A".to_string(), block: "L".to_string() };
    let y = UnicodeChar { codepoint: "0041".to_string(), name: "B".to_string(), block: "M".to_string() };
    assert!(x.same_key(&y));
    assert_eq!(y.duplicate(), y);
}
