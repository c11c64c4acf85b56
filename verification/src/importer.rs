//! The one-shot import of the character reference data into the cache store,
//! and the readiness state that the importer leaves for the render path.
//!
//! The seed data are two line-oriented texts with fields separated by
//! semicolons. The import writes nothing when the character table already
//! holds rows, and otherwise writes every well-formed line of both texts in one
//! transaction, or nothing at all.

use crate::db::{
    apply, chars_with_codepoint, last_with_key, lemma_apply, lemma_codepoint_rows,
    lemma_upsert, Database, Row, StorageError, TablesView,
};
use crate::models::unicode::{BlockRow, CharRow, UnicodeBlock, UnicodeChar};
use crate::text::{
    lines, split, split_lines, split_text, string_from, to_chars, trim, trim_text,
};
use crate::views::views;
use vstd::prelude::*;

verus! {

// ---------------------------------------------------------------------------
// Readiness
// ---------------------------------------------------------------------------

/// How far the import has come.
#[derive(Debug, Clone, Copy, PartialEq, Eq, Structural)]
pub enum ImportPhase {
    NotStarted,
    Running,
    Done,
}

/// What the importer does to its state.
#[derive(Debug, Clone, Copy, PartialEq, Eq, Structural)]
pub enum ImportStep {
    /// The importer starts, if it has not started before.
    Start,
    /// The importer ends, with or without data.
    Finish,
}

/// The phase after a step. The phase only moves forward, and `Done` is never
/// left.
pub open spec fn next_phase(phase: ImportPhase, step: ImportStep) -> ImportPhase {
    match (phase, step) {
        (ImportPhase::NotStarted, ImportStep::Start) => ImportPhase::Running,
        (ImportPhase::Running, ImportStep::Finish) => ImportPhase::Done,
        (p, _) => p,
    }
}

/// The phase after a run of steps.
pub open spec fn phase_after(phase: ImportPhase, steps: Seq<ImportStep>) -> ImportPhase
    decreases steps.len(),
{
    if steps.len() == 0 {
        phase
    } else {
        next_phase(phase_after(phase, steps.drop_last()), steps.last())
    }
}

/// Once the import is done it stays done, whatever steps follow: a reader
/// that has seen readiness never sees it taken back.
pub proof fn lemma_done_is_final(steps: Seq<ImportStep>)
    ensures
        phase_after(ImportPhase::Done, steps) == ImportPhase::Done,
    decreases steps.len(),
{
    if steps.len() > 0 {
        lemma_done_is_final(steps.drop_last());
    }
}

/// The readiness state of the reference data.
#[derive(Debug, Clone, Copy, PartialEq, Eq, Structural)]
pub struct ImportState {
    phase: ImportPhase,
}

impl ImportState {
    /// The phase of the import.
    pub closed spec fn spec_phase(&self) -> ImportPhase {
        self.phase
    }

    /// Whether the import is over.
    pub open spec fn is_ready(&self) -> bool {
        self.spec_phase() == ImportPhase::Done
    }

    /// The state after an import.
    pub closed spec fn done() -> ImportState {
        ImportState { phase: ImportPhase::Done }
    }

    /// The state after an import is ready, and no other state is.
    pub proof fn lemma_done(&self)
        ensures
            Self::done().is_ready(),
            self.is_ready() ==> *self == Self::done(),
    {
    }

    /// The state before any import.
    pub fn new() -> (s: ImportState)
        ensures
            s.spec_phase() == ImportPhase::NotStarted,
    {
        ImportState { phase: ImportPhase::NotStarted }
    }

    /// The phase of the import.
    pub fn phase(&self) -> (p: ImportPhase)
        ensures
            p == self.spec_phase(),
    {
        self.phase
    }

    /// Whether the import is over, with or without data.
    pub fn ready(&self) -> (r: bool)
        ensures
            r == self.is_ready(),
    {
        match self.phase {
            ImportPhase::Done => true,
            _ => false,
        }
    }

    /// Marks the start of the import. Returns whether this call started it:
    /// an import that is running or done is not started again.
    pub fn start(&mut self) -> (started: bool)
        ensures
            final(self).spec_phase() == next_phase(old(self).spec_phase(), ImportStep::Start),
            started == (old(self).spec_phase() == ImportPhase::NotStarted),
    {
        match self.phase {
            ImportPhase::NotStarted => {
                self.phase = ImportPhase::Running;
                true
            },
            _ => false,
        }
    }

    /// Marks the end of a running import.
    pub fn finish(&mut self)
        ensures
            final(self).spec_phase() == next_phase(old(self).spec_phase(), ImportStep::Finish),
    {
        match self.phase {
            ImportPhase::Running => {
                self.phase = ImportPhase::Done;
            },
            _ => {},
        }
    }
}

// ---------------------------------------------------------------------------
// Seed data
// ---------------------------------------------------------------------------

/// The character row that a line of the character data holds: its first
/// three fields. A line with fewer fields holds none.
pub open spec fn char_line(line: Seq<char>) -> Option<CharRow> {
    let fields = split(line, seq![';']);
    if fields.len() >= 3 {
        Some(CharRow { codepoint: fields[0], name: fields[1], block: fields[2] })
    } else {
        None
    }
}

/// The block row that a line of the block data holds. The line has two
/// fields: a range, written as two code points with `..` between them, and
/// the name. Empty lines, lines that start with `#` and lines of another
/// shape hold none.
pub open spec fn block_line(line: Seq<char>) -> Option<BlockRow> {
    if line.len() == 0 || line[0] == '#' {
        None
    } else {
        let parts = split(line, seq![';']);
        if parts.len() != 2 {
            None
        } else {
            let range = split(trim(parts[0]), seq!['.', '.']);
            if range.len() != 2 {
                None
            } else {
                Some(
                    BlockRow { name: trim(parts[1]), range_start: range[0], range_end: range[1] },
                )
            }
        }
    }
}

/// A record that a line of seed data can hold.
pub trait SeedRecord: View + Sized {
    /// The row that a line holds, if it holds one.
    spec fn row_of(line: Seq<char>) -> Option<Self::V>;

    /// Reads one line.
    fn parse_line(line: &Vec<char>) -> (r: Option<Self>)
        ensures
            r is Some == Self::row_of(line@) is Some,
            r matches Some(record) ==> Self::row_of(line@) == Some(record@),
    ;
}

/// The rows that a run of lines holds, in the order of the lines. A line
/// that holds no row is passed over.
pub open spec fn rows_in<R: SeedRecord>(lines: Seq<Seq<char>>) -> Seq<R::V>
    decreases lines.len(),
{
    if lines.len() == 0 {
        Seq::empty()
    } else {
        let before = rows_in::<R>(lines.drop_last());
        match R::row_of(lines.last()) {
            Some(row) => before.push(row),
            None => before,
        }
    }
}

/// The character rows that a seed text holds.
pub open spec fn char_rows(text: Seq<char>) -> Seq<CharRow> {
    rows_in::<UnicodeChar>(lines(text))
}

/// The block rows that a seed text holds.
pub open spec fn block_rows(text: Seq<char>) -> Seq<BlockRow> {
    rows_in::<UnicodeBlock>(lines(text))
}

/// Reads one line of the character data.
pub fn parse_char_line(line: &Vec<char>) -> (r: Option<UnicodeChar>)
    ensures
        r is Some == char_line(line@) is Some,
        r matches Some(c) ==> char_line(line@) == Some(c@),
{
    let sep: Vec<char> = vec![';'];
    assert(sep@ == seq![';']);
    let fields = split_text(line, &sep);
    assert(views(fields@).len() == fields.len());
    if fields.len() >= 3 {
        assert(views(fields@)[0] == fields[0]@);
        assert(views(fields@)[1] == fields[1]@);
        assert(views(fields@)[2] == fields[2]@);
        Some(
            UnicodeChar {
                codepoint: string_from(&fields[0]),
                name: string_from(&fields[1]),
                block: string_from(&fields[2]),
            },
        )
    } else {
        None
    }
}

/// Reads one line of the block data.
pub fn parse_block_line(line: &Vec<char>) -> (r: Option<UnicodeBlock>)
    ensures
        r is Some == block_line(line@) is Some,
        r matches Some(b) ==> block_line(line@) == Some(b@),
{
    if line.len() == 0 || line[0] == '#' {
        return None;
    }
    let sep: Vec<char> = vec![';'];
    assert(sep@ == seq![';']);
    let parts = split_text(line, &sep);
    assert(views(parts@).len() == parts.len());
    if parts.len() != 2 {
        return None;
    }
    assert(views(parts@)[0] == parts[0]@);
    assert(views(parts@)[1] == parts[1]@);
    let dots: Vec<char> = vec!['.', '.'];
    assert(dots@ == seq!['.', '.']);
    let first = trim_text(&parts[0]);
    let range = split_text(&first, &dots);
    assert(views(range@).len() == range.len());
    if range.len() != 2 {
        return None;
    }
    assert(views(range@)[0] == range[0]@);
    assert(views(range@)[1] == range[1]@);
    let name = trim_text(&parts[1]);
    Some(
        UnicodeBlock {
            name: string_from(&name),
            range_start: string_from(&range[0]),
            range_end: string_from(&range[1]),
        },
    )
}

impl SeedRecord for UnicodeChar {
    open spec fn row_of(line: Seq<char>) -> Option<CharRow> {
        char_line(line)
    }

    fn parse_line(line: &Vec<char>) -> (r: Option<UnicodeChar>) {
        parse_char_line(line)
    }
}

impl SeedRecord for UnicodeBlock {
    open spec fn row_of(line: Seq<char>) -> Option<BlockRow> {
        block_line(line)
    }

    fn parse_line(line: &Vec<char>) -> (r: Option<UnicodeBlock>) {
        parse_block_line(line)
    }
}

/// Reads seed data: one record for each line that holds one, in the order of
/// the lines.
fn parse_rows<R: SeedRecord>(text: &str) -> (rows: Vec<R>)
    ensures
        views(rows@) == rows_in::<R>(lines(text@)),
{
    let chars = to_chars(text);
    let all = split_lines(&chars);
    let ghost ls = views(all@);
    let mut rows: Vec<R> = Vec::new();
    let mut i: usize = 0;
    assert(views(rows@) == Seq::<R::V>::empty());
    while i < all.len()
        invariant
            i <= all.len(),
            ls == views(all@),
            ls.len() == all.len(),
            views(rows@) == rows_in::<R>(ls.take(i as int)),
        decreases all.len() - i,
    {
        assert(ls.take(i + 1).drop_last() == ls.take(i as int));
        assert(ls.take(i + 1).last() == all[i as int]@);
        let ghost before = views(rows@);
        match R::parse_line(&all[i]) {
            Some(record) => {
                rows.push(record);
                assert(views(rows@) == before.push(record@));
            },
            None => {},
        }
        i += 1;
    }
    assert(ls.take(all.len() as int) == ls);
    rows
}

/// Reads the character data: one row for each line with at least three
/// fields, in the order of the lines.
pub fn parse_chars(text: &str) -> (rows: Vec<UnicodeChar>)
    ensures
        views(rows@) == char_rows(text@),
{
    parse_rows(text)
}

/// Reads the block data: one row for each well-formed line, in the order of
/// the lines.
pub fn parse_blocks(text: &str) -> (rows: Vec<UnicodeBlock>)
    ensures
        views(rows@) == block_rows(text@),
{
    parse_rows(text)
}

// ---------------------------------------------------------------------------
// The import
// ---------------------------------------------------------------------------

/// One seed text as the reader of the files hands it over.
#[derive(Debug, PartialEq, Eq)]
pub enum SeedSource {
    /// There is no such file: nothing to import from it.
    Missing,
    /// The file is there and could not be read.
    Unreadable,
    /// The text of the file.
    Text(String),
}

impl SeedSource {
    /// The text to import: none for a missing file.
    pub open spec fn text(&self) -> Seq<char> {
        match self {
            SeedSource::Text(t) => t@,
            _ => Seq::empty(),
        }
    }
}

/// Why an import was given up.
#[derive(Debug, Clone, Copy, PartialEq, Eq, Structural)]
pub enum ImportError {
    /// The character data could not be read.
    CharsUnreadable,
    /// The block data could not be read.
    BlocksUnreadable,
    /// The store refused the transaction.
    Storage(StorageError),
}

/// How an import ended.
#[derive(Debug, Clone, Copy, PartialEq, Eq, Structural)]
pub enum ImportOutcome {
    /// The character table held rows already: nothing was written.
    Skipped,
    /// Every row of both texts was written and committed.
    Imported,
    /// The import was given up and the store is as it was before.
    Aborted(ImportError),
}

/// How an import into `tables` ends.
pub open spec fn import_outcome(
    tables: TablesView,
    open: bool,
    chars: SeedSource,
    blocks: SeedSource,
) -> ImportOutcome {
    if tables.chars.len() > 0 {
        ImportOutcome::Skipped
    } else if open {
        ImportOutcome::Aborted(ImportError::Storage(StorageError::TransactionOpen))
    } else if chars is Unreadable {
        ImportOutcome::Aborted(ImportError::CharsUnreadable)
    } else if blocks is Unreadable {
        ImportOutcome::Aborted(ImportError::BlocksUnreadable)
    } else {
        ImportOutcome::Imported
    }
}

/// The tables after an import into `tables`: with every row of both texts
/// when the import goes through, and unchanged otherwise.
pub open spec fn import_result(
    tables: TablesView,
    open: bool,
    chars: SeedSource,
    blocks: SeedSource,
) -> TablesView {
    if import_outcome(tables, open, chars, blocks) == ImportOutcome::Imported {
        TablesView {
            repos: tables.repos,
            chars: apply(tables.chars, char_rows(chars.text())),
            blocks: apply(tables.blocks, block_rows(blocks.text())),
        }
    } else {
        tables
    }
}

/// An import into a character table that holds rows writes nothing.
pub proof fn lemma_import_idempotent(
    tables: TablesView,
    open: bool,
    chars: SeedSource,
    blocks: SeedSource,
)
    requires
        tables.chars.len() > 0,
    ensures
        import_outcome(tables, open, chars, blocks) == ImportOutcome::Skipped,
        import_result(tables, open, chars, blocks) == tables,
{
}

/// A second import writes nothing: once an import has written at least one
/// character row, every later import, whatever its seed data, is skipped and
/// leaves the tables as they are.
pub proof fn lemma_import_twice(
    tables: TablesView,
    chars: SeedSource,
    blocks: SeedSource,
    open_again: bool,
    chars_again: SeedSource,
    blocks_again: SeedSource,
)
    requires
        tables.wf(),
        import_outcome(tables, false, chars, blocks) == ImportOutcome::Imported,
        char_rows(chars.text()).len() > 0,
    ensures
        ({
            let after = import_result(tables, false, chars, blocks);
            &&& import_outcome(after, open_again, chars_again, blocks_again)
                == ImportOutcome::Skipped
            &&& import_result(after, open_again, chars_again, blocks_again) == after
        }),
{
    let rows = char_rows(chars.text());
    lemma_apply(tables.chars, rows.drop_last(), rows.last().key());
    lemma_upsert(apply(tables.chars, rows.drop_last()), rows.last());
}

/// An import is all or nothing: the tables afterwards are the tables before,
/// or the tables before with every row of both texts written. Whenever the
/// import does not go through they are the tables before.
pub proof fn lemma_import_atomic(
    tables: TablesView,
    open: bool,
    chars: SeedSource,
    blocks: SeedSource,
)
    ensures
        import_outcome(tables, open, chars, blocks) != ImportOutcome::Imported ==> import_result(
            tables,
            open,
            chars,
            blocks,
        ) == tables,
        import_outcome(tables, open, chars, blocks) == ImportOutcome::Imported ==> import_result(
            tables,
            open,
            chars,
            blocks,
        ) == (TablesView {
            repos: tables.repos,
            chars: apply(tables.chars, char_rows(chars.text())),
            blocks: apply(tables.blocks, block_rows(blocks.text())),
        }),
{
}

/// After an import that went through, a lookup by code point finds exactly
/// one row when some line of the character data holds the code point, the
/// row of the last such line, and no row otherwise.
pub proof fn lemma_lookup_after_import(
    tables: TablesView,
    chars: SeedSource,
    blocks: SeedSource,
    codepoint: Seq<char>,
)
    requires
        tables.wf(),
        import_outcome(tables, false, chars, blocks) == ImportOutcome::Imported,
    ensures
        import_result(tables, false, chars, blocks).wf(),
        chars_with_codepoint(import_result(tables, false, chars, blocks).chars, codepoint) == (
        match last_with_key(char_rows(chars.text()), codepoint) {
            Some(row) => seq![row],
            None => Seq::empty(),
        }),
{
    let after = import_result(tables, false, chars, blocks);
    assert(tables.chars == Seq::<CharRow>::empty());
    lemma_apply(tables.chars, char_rows(chars.text()), codepoint);
    lemma_apply(tables.blocks, block_rows(blocks.text()), Seq::<char>::empty());
    lemma_codepoint_rows(after.chars, codepoint);
}

/// Imports the reference data into the store.
///
/// Nothing is written when the character table holds rows. Otherwise the rows
/// of the character data, then those of the block data, are written in one
/// transaction. When a text turns out to be unreadable, or the store has a
/// transaction open already, the import is given up and the store is left as
/// it was.
pub fn import_reference_data(
    db: &mut Database,
    chars: &SeedSource,
    blocks: &SeedSource,
) -> (outcome: ImportOutcome)
    requires
        old(db).wf(),
    ensures
        final(db).wf(),
        outcome == import_outcome(old(db)@, old(db).is_open(), *chars, *blocks),
        final(db)@ == import_result(old(db)@, old(db).is_open(), *chars, *blocks),
        final(db).is_open() == old(db).is_open(),
        final(db).is_open() ==> final(db).at_begin() == old(db).at_begin(),
{
    if db.count_chars() > 0 {
        return ImportOutcome::Skipped;
    }
    match db.begin() {
        Err(e) => {
            return ImportOutcome::Aborted(ImportError::Storage(e));
        },
        Ok(_) => {},
    }
    match chars {
        SeedSource::Missing => {
            assert(char_rows(chars.text()) == Seq::<CharRow>::empty()) by {
                assert(lines(Seq::<char>::empty()) == Seq::<Seq<char>>::empty());
            }
        },
        SeedSource::Unreadable => {
            let undone = db.rollback();
            return ImportOutcome::Aborted(ImportError::CharsUnreadable);
        },
        SeedSource::Text(t) => {
            let rows = parse_chars(t.as_str());
            db.upsert_chars(&rows);
        },
    }
    match blocks {
        SeedSource::Missing => {
            assert(block_rows(blocks.text()) == Seq::<BlockRow>::empty()) by {
                assert(lines(Seq::<char>::empty()) == Seq::<Seq<char>>::empty());
            }
        },
        SeedSource::Unreadable => {
            let undone = db.rollback();
            return ImportOutcome::Aborted(ImportError::BlocksUnreadable);
        },
        SeedSource::Text(t) => {
            let rows = parse_blocks(t.as_str());
            db.upsert_blocks(&rows);
        },
    }
    let done = db.commit();
    ImportOutcome::Imported
}

/// Runs the import once. A state that has left `NotStarted` runs nothing and
/// returns `None`; otherwise the import runs, and the state is `Done` when it
/// returns, whether data were written or not.
pub fn run_import(
    state: &mut ImportState,
    db: &mut Database,
    chars: &SeedSource,
    blocks: &SeedSource,
) -> (ran: Option<ImportOutcome>)
    requires
        old(db).wf(),
    ensures
        final(db).wf(),
        final(db).is_open() == old(db).is_open(),
        final(db).is_open() ==> final(db).at_begin() == old(db).at_begin(),
        old(state).spec_phase() == ImportPhase::NotStarted ==> {
            &&& final(state).is_ready()
            &&& ran == Some(import_outcome(old(db)@, old(db).is_open(), *chars, *blocks))
            &&& final(db)@ == import_result(old(db)@, old(db).is_open(), *chars, *blocks)
        },
        old(state).spec_phase() != ImportPhase::NotStarted ==> {
            &&& *final(state) == *old(state)
            &&& ran is None
            &&& final(db)@ == old(db)@
        },
{
    if !state.start() {
        return None;
    }
    let outcome = import_reference_data(db, chars, blocks);
    state.finish();
    Some(outcome)
}

} // verus!
