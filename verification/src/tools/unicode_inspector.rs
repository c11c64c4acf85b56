//! The character inspector: it looks characters up in the reference data of
//! the cache store, by the text they stand in and by code point, and asks for
//! the rows whose name holds a typed text.

use crate::db::{chars_with_codepoint, Database, TablesView};
use crate::importer::{
    import_outcome, import_result, run_import, ImportOutcome, ImportPhase, ImportState,
    SeedSource,
};
use crate::models::unicode::{CharRow, UnicodeChar};
use crate::text::{
    decimal, format_decimal, format_hex4, hex4, parse_hex, parse_hex_u32, strip_leading,
    strip_leading_text, string_from, to_chars, uppercase,
};
use crate::tools::{
    bool_string, bool_text, export_resume, export_status, without_last, yes_no, yes_no_string,
    Completion, CompletionView, Drawing, Field, KeyCode, KeyInput, Reply, ReplyView, Tool,
    ToolError, ToolErrorView, ToolView,
};
use crate::views::views;
use vstd::prelude::*;
use vstd::string::StringExecFns;

verus! {

/// The extended grapheme clusters of a text, in order, as the Unicode text
/// segmentation rules give them. The rules are tables of the Unicode
/// standard; they are named here, not restated.
pub uninterp spec fn grapheme_clusters(text: Seq<char>) -> Seq<Seq<char>>;

/// `UnicodeSegmentation::graphemes` of the unicode-segmentation crate, with
/// extended clusters: the clusters of the text in order, each as a string of
/// its own. The result depends on the text alone.
#[verifier::external_body]
fn graphemes(text: &str) -> (clusters: Vec<String>)
    ensures
        views(clusters@) == grapheme_clusters(text@),
{
    unicode_segmentation::UnicodeSegmentation::graphemes(text, true).map(|g| g.to_owned()).collect()
}

/// The character inspector.
#[derive(Debug, PartialEq, Eq)]
pub struct UnicodeInspectorTool {
    text: String,
    codepoint: String,
    name: String,
    current_field: usize,
    results: Vec<UnicodeChar>,
    sequential: bool,
    import: ImportState,
}

/// The state of the character inspector as plain values.
pub struct UnicodeState {
    pub text: Seq<char>,
    pub codepoint: Seq<char>,
    pub name: Seq<char>,
    /// The input box that takes the keys: 0 the text, 1 the code point, 2
    /// the name, 3 the toggle.
    pub current_field: nat,
    pub results: Seq<CharRow>,
    pub sequential: bool,
    /// How far the import of the reference data has come.
    pub phase: ImportPhase,
}

impl UnicodeState {
    /// The state of a new inspector: empty inputs, no results, and the
    /// import of the reference data not started.
    pub open spec fn fresh() -> UnicodeState {
        UnicodeState {
            text: Seq::empty(),
            codepoint: Seq::empty(),
            name: Seq::empty(),
            current_field: 0,
            results: Seq::empty(),
            sequential: false,
            phase: ImportPhase::NotStarted,
        }
    }
}

impl View for UnicodeInspectorTool {
    type V = UnicodeState;

    closed spec fn view(&self) -> UnicodeState {
        UnicodeState {
            text: self.text@,
            codepoint: self.codepoint@,
            name: self.name@,
            current_field: self.current_field as nat,
            results: views(self.results@),
            sequential: self.sequential,
            phase: self.import.spec_phase(),
        }
    }
}

/// The key under which the store holds the code point that `upper` writes:
/// the number in hexadecimal with at least four digits. `None` when `upper`
/// is not a hexadecimal number of 32 bits.
pub open spec fn codepoint_key(upper: Seq<char>) -> Option<Seq<char>> {
    match parse_hex(upper) {
        Some(n) => Some(hex4(n as nat)),
        None => None,
    }
}

/// What stands in the code point box, made ready for reading: without
/// leading `U+`, in upper case.
pub open spec fn normalized(input: Seq<char>) -> Seq<char> {
    uppercase(strip_leading(input, "U+"@))
}

/// The pattern that finds the names holding `name` anywhere: in a pattern
/// `%` stands for any run of characters.
pub open spec fn name_pattern(name: Seq<char>) -> Seq<char> {
    "%"@ + name + "%"@
}

/// The rows found for a run of grapheme clusters: for each cluster, in
/// order, the rows stored under the code point of its first character.
pub open spec fn analysis(chars: Seq<CharRow>, clusters: Seq<Seq<char>>) -> Seq<CharRow>
    decreases clusters.len(),
{
    if clusters.len() == 0 {
        Seq::empty()
    } else {
        let before = analysis(chars, clusters.drop_last());
        let cluster = clusters.last();
        if cluster.len() > 0 {
            before + chars_with_codepoint(chars, hex4(cluster[0] as u32 as nat))
        } else {
            before
        }
    }
}

/// The status after a lookup that found `n` rows.
pub open spec fn found_text(n: nat) -> Seq<char> {
    "Found "@ + decimal(n) + " characters"@
}

/// The status after an analysis that found `n` rows.
pub open spec fn analyzed_text(n: nat) -> Seq<char> {
    "Analyzed "@ + decimal(n) + " graphemes"@
}

/// The line that shows one row.
pub open spec fn result_line(row: CharRow) -> Seq<char> {
    "U+"@ + row.codepoint + " "@ + row.name + " ("@ + row.block + ")"@
}

/// What the inspector shows in the state `s`: a notice while the reference
/// data are not ready, and the input boxes and results once they are.
pub open spec fn unicode_drawing(s: UnicodeState) -> Drawing {
    if s.phase != ImportPhase::Done {
        Drawing {
            banner: Some("Loading Unicode data..."@),
            fields: Seq::empty(),
            results_title: Seq::empty(),
            lines: Seq::empty(),
        }
    } else {
        Drawing {
            banner: None,
            fields: seq![
                ("Unicode Input"@, s.text),
                ("Codepoint"@, s.codepoint),
                ("Name"@, s.name),
                ("Sequential Mode"@, yes_no(s.sequential)),
            ],
            results_title: "Unicode Results"@,
            lines: s.results.map_values(|r: CharRow| result_line(r)),
        }
    }
}

/// The state and the answer after a lookup by code point.
pub open spec fn codepoint_lookup(s: UnicodeState, chars: Seq<CharRow>) -> (
    UnicodeState,
    Result<ReplyView, ToolErrorView>,
) {
    match codepoint_key(normalized(s.codepoint)) {
        None => (s, Err(ToolErrorView::InvalidCodepoint)),
        Some(key) => {
            let found = chars_with_codepoint(chars, key);
            (UnicodeState { results: found, ..s }, Ok(ReplyView::Status(found_text(found.len()))))
        },
    }
}

/// The state and the answer after the end of outside work. The rows of a
/// lookup by name replace the results; anything else leaves the state
/// alone.
pub open spec fn unicode_resume(s: UnicodeState, completion: CompletionView) -> (
    UnicodeState,
    Result<Seq<char>, ToolErrorView>,
) {
    match completion {
        CompletionView::Characters(rows) => (
            UnicodeState { results: rows, ..s },
            Ok(found_text(rows.len())),
        ),
        _ => (s, export_resume("unicode_results.json"@, completion)),
    }
}

/// The state and the answer after a key press, over the character table
/// `chars` of the store.
pub open spec fn unicode_step(s: UnicodeState, key: KeyInput, chars: Seq<CharRow>) -> (
    UnicodeState,
    Result<ReplyView, ToolErrorView>,
) {
    match key.code {
        KeyCode::Up => (
            UnicodeState {
                current_field: if s.current_field > 0 {
                    (s.current_field - 1) as nat
                } else {
                    0
                },
                ..s
            },
            Ok(ReplyView::Status("Switched field"@)),
        ),
        KeyCode::Down => (
            UnicodeState {
                current_field: if s.current_field >= 3 {
                    3
                } else {
                    s.current_field + 1
                },
                ..s
            },
            Ok(ReplyView::Status("Switched field"@)),
        ),
        KeyCode::Enter => {
            let found = analysis(chars, grapheme_clusters(s.text));
            (
                UnicodeState { results: found, ..s },
                Ok(ReplyView::Status(analyzed_text(found.len()))),
            )
        },
        KeyCode::Char(c) => if c == 'a' && key.ctrl {
            (
                UnicodeState { sequential: !s.sequential, ..s },
                Ok(ReplyView::Status("Sequential Mode: "@ + bool_text(!s.sequential))),
            )
        } else if c == 'l' && key.ctrl {
            if s.codepoint.len() > 0 {
                codepoint_lookup(s, chars)
            } else if s.name.len() > 0 {
                (s, Ok(ReplyView::Lookup(name_pattern(s.name))))
            } else {
                (s, Ok(ReplyView::Status("No lookup input"@)))
            }
        } else if c == 'e' && key.ctrl {
            (s, Ok(ReplyView::Export("unicode_results.json"@)))
        } else if s.current_field == 0 {
            (UnicodeState { text: s.text.push(c), ..s }, Ok(ReplyView::Status("Input updated"@)))
        } else if s.current_field == 1 {
            (
                UnicodeState { codepoint: s.codepoint.push(c), ..s },
                Ok(ReplyView::Status("Input updated"@)),
            )
        } else if s.current_field == 2 {
            (UnicodeState { name: s.name.push(c), ..s }, Ok(ReplyView::Status("Input updated"@)))
        } else {
            (s, Ok(ReplyView::Status("Input updated"@)))
        },
        KeyCode::Backspace => if s.current_field == 0 {
            (
                UnicodeState { text: without_last(s.text), ..s },
                Ok(ReplyView::Status("Removed character"@)),
            )
        } else if s.current_field == 1 {
            (
                UnicodeState { codepoint: without_last(s.codepoint), ..s },
                Ok(ReplyView::Status("Removed character"@)),
            )
        } else if s.current_field == 2 {
            (
                UnicodeState { name: without_last(s.name), ..s },
                Ok(ReplyView::Status("Removed character"@)),
            )
        } else {
            (s, Ok(ReplyView::Status("No action"@)))
        },
        _ => (s, Ok(ReplyView::Status(Seq::empty()))),
    }
}

/// No key press takes readiness back: the phase of the import is the same
/// after every step, and a tool that is ready shows its data, not the notice.
pub proof fn lemma_step_keeps_readiness(s: UnicodeState, key: KeyInput, chars: Seq<CharRow>)
    ensures
        unicode_step(s, key, chars).0.phase == s.phase,
        s.phase == ImportPhase::Done ==> unicode_drawing(unicode_step(s, key, chars).0).banner
            is None,
{
}

/// The key under which the store holds the code point that `upper` writes.
pub fn lookup_key(upper: &str) -> (r: Result<String, ToolError>)
    ensures
        r is Ok == codepoint_key(upper@) is Some,
        r matches Ok(key) ==> codepoint_key(upper@) == Some(key@),
        r matches Err(e) ==> e == ToolError::InvalidCodepoint,
{
    let chars = to_chars(upper);
    match parse_hex_u32(&chars) {
        Some(n) => Ok(format_hex4(n)),
        None => Err(ToolError::InvalidCodepoint),
    }
}

/// The rows of the store for a run of grapheme clusters: for each cluster,
/// in order, the rows stored under the code point of its first character.
pub fn analyze_clusters(db: &Database, clusters: &Vec<String>) -> (found: Vec<UnicodeChar>)
    ensures
        views(found@) == analysis(db@.chars, views(clusters@)),
{
    let ghost all = views(clusters@);
    let mut found: Vec<UnicodeChar> = Vec::new();
    let mut i: usize = 0;
    assert(views(found@) == Seq::<CharRow>::empty());
    while i < clusters.len()
        invariant
            i <= clusters.len(),
            all == views(clusters@),
            views(found@) == analysis(db@.chars, all.take(i as int)),
        decreases clusters.len() - i,
    {
        assert(all.take(i + 1).drop_last() == all.take(i as int));
        assert(all.take(i + 1).last() == clusters[i as int]@);
        let cluster = to_chars(clusters[i].as_str());
        if cluster.len() > 0 {
            let key = format_hex4(cluster[0] as u32);
            let mut rows = db.chars_by_codepoint(key.as_str());
            let ghost before = views(found@);
            let ghost added = views(rows@);
            found.append(&mut rows);
            assert(views(found@) == before + added);
        }
        i += 1;
    }
    assert(all.take(clusters.len() as int) == all);
    found
}

fn result_line_exec(row: &UnicodeChar) -> (line: String)
    ensures
        line@ == result_line(row@),
{
    let mut line = "U+".to_owned();
    line.append(row.codepoint.as_str());
    line.append(" ");
    line.append(row.name.as_str());
    line.append(" (");
    line.append(row.block.as_str());
    line.append(")");
    line
}

fn found_status(n: usize) -> (s: String)
    ensures
        s@ == found_text(n as nat),
{
    let mut s = "Found ".to_owned();
    let count = format_decimal(n);
    s.append(count.as_str());
    s.append(" characters");
    s
}

impl UnicodeInspectorTool {
    /// An inspector with empty inputs, no results, and the import of the
    /// reference data not started.
    pub fn new() -> (t: UnicodeInspectorTool)
        ensures
            t@ == UnicodeState::fresh(),
    {
        let t = UnicodeInspectorTool {
            text: String::new(),
            codepoint: String::new(),
            name: String::new(),
            current_field: 0,
            results: Vec::new(),
            sequential: false,
            import: ImportState::new(),
        };
        assert(views(t.results@) == Seq::<CharRow>::empty());
        t
    }

    /// The text typed so far.
    pub fn text(&self) -> (s: &str)
        ensures
            s@ == self@.text,
    {
        self.text.as_str()
    }

    /// The code point typed so far.
    pub fn codepoint(&self) -> (s: &str)
        ensures
            s@ == self@.codepoint,
    {
        self.codepoint.as_str()
    }

    /// The name typed so far.
    pub fn name_input(&self) -> (s: &str)
        ensures
            s@ == self@.name,
    {
        self.name.as_str()
    }

    /// The input box that takes the keys.
    pub fn current_field(&self) -> (f: usize)
        ensures
            f == self@.current_field,
    {
        self.current_field
    }

    /// Whether sequential mode is on.
    pub fn sequential(&self) -> (b: bool)
        ensures
            b == self@.sequential,
    {
        self.sequential
    }

    /// The rows of the last lookup.
    pub fn results(&self) -> (r: &Vec<UnicodeChar>)
        ensures
            views(r@) == self@.results,
    {
        &self.results
    }

    /// Whether the import of the reference data is over.
    pub fn is_ready(&self) -> (b: bool)
        ensures
            b == (self@.phase == ImportPhase::Done),
    {
        self.import.ready()
    }

    /// Marks the import of the reference data as over, when it ran
    /// elsewhere. Readiness is never taken back.
    pub fn mark_ready(&mut self)
        ensures
            final(self)@ == (UnicodeState { phase: ImportPhase::Done, ..old(self)@ }),
            *final(self) == old(self).informed(),
    {
        self.import.start();
        self.import.finish();
        proof {
            self.import.lemma_done();
        }
    }

    /// A tool that has learnt of the end of the import is ready, and is
    /// otherwise as before.
    pub proof fn lemma_informed(&self)
        ensures
            self.informed()@ == (UnicodeState { phase: ImportPhase::Done, ..self@ }),
    {
        self.import.lemma_done();
    }

    /// Imports the reference data into the store, once. Inputs and results
    /// are left alone. A second call runs nothing and returns `None`.
    pub fn import(&mut self, db: &mut Database, chars: &SeedSource, blocks: &SeedSource) -> (ran:
        Option<ImportOutcome>)
        requires
            old(db).wf(),
        ensures
            final(db).wf(),
            final(db).is_open() == old(db).is_open(),
            final(db).is_open() ==> final(db).at_begin() == old(db).at_begin(),
            old(self)@.phase == ImportPhase::NotStarted ==> {
                &&& final(self)@ == (UnicodeState { phase: ImportPhase::Done, ..old(self)@ })
                &&& ran == Some(import_outcome(old(db)@, old(db).is_open(), *chars, *blocks))
                &&& final(db)@ == import_result(old(db)@, old(db).is_open(), *chars, *blocks)
            },
            old(self)@.phase != ImportPhase::NotStarted ==> {
                &&& *final(self) == *old(self)
                &&& ran is None
                &&& final(db)@ == old(db)@
            },
    {
        run_import(&mut self.import, db, chars, blocks)
    }

    /// Looks the typed text up: the rows for the first character of each of
    /// its grapheme clusters replace the results.
    pub fn analyze_text(&mut self, db: &Database) -> (status: String)
        ensures
            final(self)@ == (UnicodeState {
                results: analysis(db@.chars, grapheme_clusters(old(self)@.text)),
                ..old(self)@
            }),
            status@ == analyzed_text(final(self)@.results.len()),
    {
        let clusters = graphemes(self.text.as_str());
        let found = analyze_clusters(db, &clusters);
        let mut status = "Analyzed ".to_owned();
        let count = format_decimal(found.len());
        status.append(count.as_str());
        status.append(" graphemes");
        self.results = found;
        status
    }

    /// Looks the typed code point up: the rows stored under it replace the
    /// results. A code point that cannot be read changes nothing.
    pub fn lookup_codepoint(&mut self, db: &Database) -> (r: Result<String, ToolError>)
        ensures
            ({
                let (after, reply) = codepoint_lookup(old(self)@, db@.chars);
                &&& final(self)@ == after
                &&& match r {
                    Ok(status) => reply == Ok::<ReplyView, ToolErrorView>(
                        ReplyView::Status(status@),
                    ),
                    Err(e) => reply == Err::<ReplyView, ToolErrorView>(e@),
                }
            }),
            r is Err ==> *final(self) == *old(self),
    {
        let typed = to_chars(self.codepoint.as_str());
        let prefix: Vec<char> = vec!['U', '+'];
        proof {
            reveal_strlit("U+");
            assert(prefix@ == "U+"@);
        }
        let stripped = strip_leading_text(&typed, &prefix);
        let text = string_from(&stripped);
        let upper = text.as_str().to_uppercase();
        match lookup_key(upper.as_str()) {
            Err(e) => Err(e),
            Ok(key) => {
                let found = db.chars_by_codepoint(key.as_str());
                let status = found_status(found.len());
                self.results = found;
                Ok(status)
            },
        }
    }

    /// The pattern of the lookup by the typed name: it finds the names that
    /// hold the typed name anywhere.
    pub fn lookup_name(&self) -> (pattern: String)
        ensures
            pattern@ == name_pattern(self@.name),
    {
        let mut pattern = "%".to_owned();
        pattern.append(self.name.as_str());
        pattern.append("%");
        pattern
    }

    /// Takes the rows that a lookup by name found: they replace the results.
    pub fn accept_rows(&mut self, rows: Vec<UnicodeChar>) -> (status: String)
        ensures
            final(self)@ == (UnicodeState { results: views(rows@), ..old(self)@ }),
            status@ == found_text(rows@.len()),
    {
        let status = found_status(rows.len());
        self.results = rows;
        status
    }
}

impl Tool for UnicodeInspectorTool {
    open spec fn spec_name(&self) -> Seq<char> {
        "Unicode Inspector"@
    }

    open spec fn spec_render(&self) -> Drawing {
        unicode_drawing(self@)
    }

    open spec fn settled(&self) -> Self {
        *self
    }

    open spec fn handles(
        &self,
        key: KeyInput,
        tables: TablesView,
        after: Self,
        reply: Result<ReplyView, ToolErrorView>,
    ) -> bool {
        (after@, reply) == unicode_step(self@, key, tables.chars)
    }

    open spec fn resumes(
        &self,
        completion: CompletionView,
        after: Self,
        status: Result<Seq<char>, ToolErrorView>,
    ) -> bool {
        (after@, status) == unicode_resume(self@, completion)
    }

    open spec fn cached(&self, tables: TablesView) -> TablesView {
        tables
    }

    open spec fn save_failure(&self, tables: TablesView) -> Option<ToolErrorView> {
        None
    }

    closed spec fn informed(&self) -> Self {
        UnicodeInspectorTool {
            text: self.text,
            codepoint: self.codepoint,
            name: self.name,
            current_field: self.current_field,
            results: self.results,
            sequential: self.sequential,
            import: ImportState::done(),
        }
    }

    fn name(&self) -> (n: &'static str) {
        "Unicode Inspector"
    }

    fn render(&self) -> (v: ToolView) {
        if !self.import.ready() {
            let v = ToolView {
                banner: Some("Loading Unicode data...".to_owned()),
                fields: Vec::new(),
                results_title: String::new(),
                lines: Vec::new(),
            };
            assert(v@.fields == Seq::<(Seq<char>, Seq<char>)>::empty());
            assert(v@.lines == Seq::<Seq<char>>::empty());
            return v;
        }
        let mut fields: Vec<Field> = Vec::new();
        fields.push(Field { title: "Unicode Input".to_owned(), text: self.text.clone() });
        fields.push(Field { title: "Codepoint".to_owned(), text: self.codepoint.clone() });
        fields.push(Field { title: "Name".to_owned(), text: self.name.clone() });
        let toggle = yes_no_string(self.sequential);
        fields.push(Field { title: "Sequential Mode".to_owned(), text: toggle.to_owned() });
        let ghost rows = views(self.results@);
        let mut lines: Vec<String> = Vec::new();
        let mut i: usize = 0;
        while i < self.results.len()
            invariant
                i <= self.results.len(),
                rows == views(self.results@),
                views(lines@) == rows.take(i as int).map_values(|r: CharRow| result_line(r)),
            decreases self.results.len() - i,
        {
            let ghost before = views(lines@);
            let line = result_line_exec(&self.results[i]);
            lines.push(line);
            assert(views(lines@) == before.push(line@));
            assert(rows.take(i + 1) == rows.take(i as int).push(rows[i as int]));
            i += 1;
        }
        assert(rows.take(self.results.len() as int) == rows);
        let v = ToolView {
            banner: None,
            fields,
            results_title: "Unicode Results".to_owned(),
            lines,
        };
        assert(v@.fields == unicode_drawing(self@).fields);
        v
    }

    fn handle_input(&mut self, key: KeyInput, db: &Database) -> (r: Result<Reply, ToolError>) {
        match key.code {
            KeyCode::Up => {
                if self.current_field > 0 {
                    self.current_field = self.current_field - 1;
                }
                Ok(Reply::Status("Switched field".to_owned()))
            },
            KeyCode::Down => {
                if self.current_field >= 3 {
                    self.current_field = 3;
                } else {
                    self.current_field = self.current_field + 1;
                }
                Ok(Reply::Status("Switched field".to_owned()))
            },
            KeyCode::Enter => {
                let status = self.analyze_text(db);
                Ok(Reply::Status(status))
            },
            KeyCode::Char(c) => {
                if c == 'a' && key.ctrl {
                    self.sequential = !self.sequential;
                    let mut status = "Sequential Mode: ".to_owned();
                    status.append(bool_string(self.sequential));
                    Ok(Reply::Status(status))
                } else if c == 'l' && key.ctrl {
                    if !self.codepoint.as_str().is_empty() {
                        match self.lookup_codepoint(db) {
                            Ok(status) => Ok(Reply::Status(status)),
                            Err(e) => Err(e),
                        }
                    } else if !self.name.as_str().is_empty() {
                        Ok(Reply::Lookup(self.lookup_name()))
                    } else {
                        Ok(Reply::Status("No lookup input".to_owned()))
                    }
                } else if c == 'e' && key.ctrl {
                    Ok(Reply::Export("unicode_results.json".to_owned()))
                } else {
                    if self.current_field == 0 {
                        self.text.push(c);
                    } else if self.current_field == 1 {
                        self.codepoint.push(c);
                    } else if self.current_field == 2 {
                        self.name.push(c);
                    }
                    Ok(Reply::Status("Input updated".to_owned()))
                }
            },
            KeyCode::Backspace => {
                if self.current_field == 0 {
                    self.text.pop();
                    Ok(Reply::Status("Removed character".to_owned()))
                } else if self.current_field == 1 {
                    self.codepoint.pop();
                    Ok(Reply::Status("Removed character".to_owned()))
                } else if self.current_field == 2 {
                    self.name.pop();
                    Ok(Reply::Status("Removed character".to_owned()))
                } else {
                    Ok(Reply::Status("No action".to_owned()))
                }
            },
            _ => Ok(Reply::Status(String::new())),
        }
    }

    fn resume(&mut self, completion: Completion) -> (r: Result<String, ToolError>) {
        match completion {
            Completion::Characters(rows) => Ok(self.accept_rows(rows)),
            other => export_status("unicode_results.json", other),
        }
    }

    fn reference_ready(&mut self) {
        self.mark_ready();
    }

    fn save_cache(&self, db: &mut Database) -> (r: Result<(), ToolError>)
        ensures
            r is Ok,
    {
        Ok(())
    }
}

} // verus!
