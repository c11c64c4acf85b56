//! The cache store: three keyed tables with last-write-wins rows, and
//! transactions that either commit every write made since `begin` or leave the
//! tables as they were.
//!
//! A table is seen as the sequence of its rows, oldest write first. No two
//! rows of a table share a key.

use crate::models::unicode::{BlockRow, CharRow, UnicodeBlock, UnicodeChar};
use crate::views::views;
use vstd::prelude::*;

verus! {

// ---------------------------------------------------------------------------
// Rows and keys
// ---------------------------------------------------------------------------

/// A row that is found by a key.
pub trait Row {
    type Key;

    /// The key of the row.
    spec fn key(&self) -> Self::Key;
}

impl Row for CharRow {
    type Key = Seq<char>;

    open spec fn key(&self) -> Seq<char> {
        self.codepoint
    }
}

impl Row for BlockRow {
    type Key = Seq<char>;

    open spec fn key(&self) -> Seq<char> {
        self.name
    }
}

/// A cached repository: the account that owns it, its name, and the payload
/// kept for it.
#[derive(Debug, PartialEq, Eq)]
pub struct RepoRecord {
    pub owner: String,
    pub name: String,
    pub payload: String,
}

/// A `RepoRecord` as plain text columns.
pub struct RepoRow {
    pub owner: Seq<char>,
    pub name: Seq<char>,
    pub payload: Seq<char>,
}

impl View for RepoRecord {
    type V = RepoRow;

    open spec fn view(&self) -> RepoRow {
        RepoRow { owner: self.owner@, name: self.name@, payload: self.payload@ }
    }
}

impl Row for RepoRow {
    type Key = (Seq<char>, Seq<char>);

    open spec fn key(&self) -> (Seq<char>, Seq<char>) {
        (self.owner, self.name)
    }
}

/// No two rows share a key.
pub open spec fn unique_keys<V: Row>(rows: Seq<V>) -> bool {
    forall|i: int, j: int| 0 <= i < j < rows.len() ==> rows[i].key() != rows[j].key()
}

/// Whether some row has the key `k`.
pub open spec fn has_key<V: Row>(rows: Seq<V>, k: V::Key) -> bool {
    exists|i: int| 0 <= i < rows.len() && rows[i].key() == k
}

/// The rows whose key is not `k`, in their order.
pub open spec fn without_key<V: Row>(rows: Seq<V>, k: V::Key) -> Seq<V>
    decreases rows.len(),
{
    if rows.len() == 0 {
        rows
    } else if rows.last().key() == k {
        without_key(rows.drop_last(), k)
    } else {
        without_key(rows.drop_last(), k).push(rows.last())
    }
}

/// The table after `row` is written: a row with the same key is replaced, and
/// the written row is the newest.
pub open spec fn upsert<V: Row>(rows: Seq<V>, row: V) -> Seq<V> {
    without_key(rows, row.key()).push(row)
}

/// The table after the rows are written one after the other.
pub open spec fn apply<V: Row>(table: Seq<V>, rows: Seq<V>) -> Seq<V>
    decreases rows.len(),
{
    if rows.len() == 0 {
        table
    } else {
        upsert(apply(table, rows.drop_last()), rows.last())
    }
}

/// The rows that satisfy `keep`, in their order.
pub open spec fn select<V>(rows: Seq<V>, keep: spec_fn(V) -> bool) -> Seq<V>
    decreases rows.len(),
{
    if rows.len() == 0 {
        rows
    } else if keep(rows.last()) {
        select(rows.drop_last(), keep).push(rows.last())
    } else {
        select(rows.drop_last(), keep)
    }
}

/// The character rows with the code point `codepoint`, in their order.
pub open spec fn chars_with_codepoint(rows: Seq<CharRow>, codepoint: Seq<char>) -> Seq<CharRow> {
    select(rows, |r: CharRow| r.codepoint == codepoint)
}

/// Removing a key that no row has changes nothing.
pub proof fn lemma_without_absent<V: Row>(rows: Seq<V>, k: V::Key)
    requires
        !has_key(rows, k),
    ensures
        without_key(rows, k) == rows,
    decreases rows.len(),
{
    if rows.len() > 0 {
        assert(rows.last().key() != k);
        assert forall|i: int| 0 <= i < rows.drop_last().len() implies rows.drop_last()[i].key()
            != k by {
            assert(rows[i].key() != k);
        }
        lemma_without_absent(rows.drop_last(), k);
        assert(rows.drop_last().push(rows.last()) == rows);
    }
}

/// In a table with unique keys, removing the key of row `i` removes that row
/// and no other.
pub proof fn lemma_without_at<V: Row>(rows: Seq<V>, i: int)
    requires
        unique_keys(rows),
        0 <= i < rows.len(),
    ensures
        without_key(rows, rows[i].key()) == rows.remove(i),
    decreases rows.len(),
{
    let k = rows[i].key();
    let front = rows.drop_last();
    if i == rows.len() - 1 {
        assert forall|j: int| 0 <= j < front.len() implies front[j].key() != k by {
            assert(rows[j].key() != rows[i].key());
        }
        lemma_without_absent(front, k);
        assert(rows.remove(i) == front);
    } else {
        assert(rows.last().key() != k);
        assert(unique_keys(front)) by {
            assert forall|a: int, b: int| 0 <= a < b < front.len() implies front[a].key()
                != front[b].key() by {
                assert(rows[a].key() != rows[b].key());
            }
        }
        assert(front[i] == rows[i]);
        lemma_without_at(front, i);
        assert(front.remove(i).push(rows.last()) == rows.remove(i));
    }
}

/// Writing a row keeps the keys unique, leaves exactly one row with the
/// written key, and that row is the written one.
pub proof fn lemma_upsert<V: Row>(rows: Seq<V>, row: V)
    requires
        unique_keys(rows),
    ensures
        unique_keys(upsert(rows, row)),
        upsert(rows, row).last() == row,
        forall|i: int|
            0 <= i < upsert(rows, row).len() - 1 ==> (#[trigger] upsert(rows, row)[i]).key()
                != row.key(),
        has_key(rows, row.key()) ==> upsert(rows, row).len() == rows.len(),
        !has_key(rows, row.key()) ==> upsert(rows, row).len() == rows.len() + 1,
{
    let k = row.key();
    if has_key(rows, k) {
        let i = choose|i: int| 0 <= i < rows.len() && rows[i].key() == k;
        lemma_without_at(rows, i);
        let rest = rows.remove(i);
        assert forall|a: int| 0 <= a < rest.len() implies (#[trigger] rest[a]).key() != k by {
            if a < i {
                assert(rest[a] == rows[a]);
                assert(rows[a].key() != rows[i].key());
            } else {
                assert(rest[a] == rows[a + 1]);
                assert(rows[i].key() != rows[a + 1].key());
            }
        }
        assert forall|a: int, b: int| 0 <= a < b < rest.len() implies rest[a].key()
            != rest[b].key() by {
            let a2 = if a < i {
                a
            } else {
                a + 1
            };
            let b2 = if b < i {
                b
            } else {
                b + 1
            };
            assert(rows[a2].key() != rows[b2].key());
        }
    } else {
        lemma_without_absent(rows, k);
    }
}

/// Writing two rows with one key, one after the other, leaves what writing
/// the second alone leaves.
pub proof fn lemma_upsert_twice<V: Row>(rows: Seq<V>, first: V, second: V)
    requires
        unique_keys(rows),
        first.key() == second.key(),
    ensures
        upsert(upsert(rows, first), second) == upsert(rows, second),
{
    let k = first.key();
    let mid = upsert(rows, first);
    lemma_upsert(rows, first);
    let front = without_key(rows, k);
    assert(mid.drop_last() == front);
    assert(!has_key(front, k)) by {
        if has_key(front, k) {
            let i = choose|i: int| 0 <= i < front.len() && front[i].key() == k;
            assert(mid[i] == front[i]);
        }
    }
    lemma_without_absent(front, k);
    assert(without_key(mid, k) == without_key(front, k));
}

/// Last write wins: after two writes under one key, exactly one row has that
/// key, and it is the row written last.
pub proof fn lemma_last_write_wins<V: Row>(rows: Seq<V>, first: V, second: V)
    requires
        unique_keys(rows),
        first.key() == second.key(),
    ensures
        ({
            let table = upsert(upsert(rows, first), second);
            &&& unique_keys(table)
            &&& table.len() > 0
            &&& table.last() == second
            &&& forall|i: int|
                0 <= i < table.len() && (#[trigger] table[i]).key() == second.key() ==> i
                    == table.len() - 1
        }),
{
    lemma_upsert_twice(rows, first, second);
    lemma_upsert(rows, second);
}

/// The newest row with the key `k`, if there is one.
pub open spec fn last_with_key<V: Row>(rows: Seq<V>, k: V::Key) -> Option<V>
    decreases rows.len(),
{
    if rows.len() == 0 {
        None
    } else if rows.last().key() == k {
        Some(rows.last())
    } else {
        last_with_key(rows.drop_last(), k)
    }
}

/// A key that no row has is not found, and a key that is not found no row
/// has.
pub proof fn lemma_last_with_key<V: Row>(rows: Seq<V>, k: V::Key)
    ensures
        last_with_key(rows, k) is Some <==> has_key(rows, k),
        last_with_key(rows, k) matches Some(r) ==> r.key() == k && rows.contains(r),
    decreases rows.len(),
{
    if rows.len() > 0 {
        let front = rows.drop_last();
        lemma_last_with_key(front, k);
        if rows.last().key() == k {
            assert(rows[rows.len() - 1].key() == k);
        } else {
            if has_key(front, k) {
                let i = choose|i: int| 0 <= i < front.len() && front[i].key() == k;
                assert(rows[i].key() == k);
            }
            if has_key(rows, k) {
                let i = choose|i: int| 0 <= i < rows.len() && rows[i].key() == k;
                assert(front[i].key() == k);
            }
            if last_with_key(front, k) is Some {
                let r = last_with_key(front, k)->0;
                let i = choose|i: int| 0 <= i < front.len() && front[i] == r;
                assert(rows[i] == r);
            }
        }
    }
}

/// Taking a key out of a table takes it out of what lookups find, and
/// changes no other lookup.
pub proof fn lemma_without_key_lookup<V: Row>(rows: Seq<V>, k: V::Key, other: V::Key)
    ensures
        last_with_key(without_key(rows, k), other) == (if other == k {
            None
        } else {
            last_with_key(rows, other)
        }),
    decreases rows.len(),
{
    if rows.len() > 0 {
        let front = rows.drop_last();
        lemma_without_key_lookup(front, k, other);
        if rows.last().key() != k {
            let kept = without_key(front, k).push(rows.last());
            assert(kept.drop_last() == without_key(front, k));
        }
    }
}

/// After a write, a lookup of the written key finds the written row, and
/// every other lookup finds what it found before.
pub proof fn lemma_upsert_lookup<V: Row>(rows: Seq<V>, row: V, other: V::Key)
    ensures
        last_with_key(upsert(rows, row), other) == (if other == row.key() {
            Some(row)
        } else {
            last_with_key(rows, other)
        }),
{
    lemma_without_key_lookup(rows, row.key(), other);
    assert(upsert(rows, row).drop_last() == without_key(rows, row.key()));
}

/// Writing rows one after the other keeps the keys unique. A lookup
/// afterwards finds the newest of the written rows with its key, and what
/// was there before when no written row has the key.
pub proof fn lemma_apply<V: Row>(table: Seq<V>, rows: Seq<V>, k: V::Key)
    requires
        unique_keys(table),
    ensures
        unique_keys(apply(table, rows)),
        last_with_key(apply(table, rows), k) == (match last_with_key(rows, k) {
            Some(r) => Some(r),
            None => last_with_key(table, k),
        }),
    decreases rows.len(),
{
    if rows.len() > 0 {
        lemma_apply(table, rows.drop_last(), k);
        lemma_upsert(apply(table, rows.drop_last()), rows.last());
        lemma_upsert_lookup(apply(table, rows.drop_last()), rows.last(), k);
    }
}

/// In a table with unique keys, the rows with a code point are the one row
/// that a lookup finds, or none.
pub proof fn lemma_codepoint_rows(rows: Seq<CharRow>, codepoint: Seq<char>)
    requires
        unique_keys(rows),
    ensures
        chars_with_codepoint(rows, codepoint) == (match last_with_key(rows, codepoint) {
            Some(r) => seq![r],
            None => Seq::empty(),
        }),
    decreases rows.len(),
{
    let keep = |r: CharRow| r.codepoint == codepoint;
    if rows.len() > 0 {
        let front = rows.drop_last();
        assert(unique_keys(front)) by {
            assert forall|a: int, b: int| 0 <= a < b < front.len() implies front[a].key()
                != front[b].key() by {
                assert(rows[a].key() != rows[b].key());
            }
        }
        lemma_codepoint_rows(front, codepoint);
        if rows.last().key() == codepoint {
            assert(!has_key(front, codepoint)) by {
                if has_key(front, codepoint) {
                    let i = choose|i: int| 0 <= i < front.len() && front[i].key() == codepoint;
                    assert(rows[i].key() != rows[rows.len() - 1].key());
                }
            }
            lemma_last_with_key(front, codepoint);
            assert(select(front, keep) == Seq::<CharRow>::empty());
            assert(select(rows, keep) == seq![rows.last()]);
        }
    }
}

// ---------------------------------------------------------------------------
// Records
// ---------------------------------------------------------------------------

/// A record of a table: a value that stands for a row, can be compared with
/// another by key, and can be copied.
pub trait Record: View + Sized where Self::V: Row {
    /// Whether the two records have the same key.
    fn same_key(&self, other: &Self) -> (r: bool)
        ensures
            r == (self@.key() == other@.key()),
    ;

    /// A record that stands for the same row.
    fn duplicate(&self) -> (r: Self)
        ensures
            r@ == self@,
    ;
}

impl Record for RepoRecord {
    fn same_key(&self, other: &Self) -> (r: bool) {
        self.owner == other.owner && self.name == other.name
    }

    fn duplicate(&self) -> (r: Self) {
        RepoRecord {
            owner: self.owner.clone(),
            name: self.name.clone(),
            payload: self.payload.clone(),
        }
    }
}

impl Record for UnicodeChar {
    fn same_key(&self, other: &Self) -> (r: bool) {
        self.codepoint == other.codepoint
    }

    fn duplicate(&self) -> (r: Self) {
        UnicodeChar {
            codepoint: self.codepoint.clone(),
            name: self.name.clone(),
            block: self.block.clone(),
        }
    }
}

impl Record for UnicodeBlock {
    fn same_key(&self, other: &Self) -> (r: bool) {
        self.name == other.name
    }

    fn duplicate(&self) -> (r: Self) {
        UnicodeBlock {
            name: self.name.clone(),
            range_start: self.range_start.clone(),
            range_end: self.range_end.clone(),
        }
    }
}

/// Writes a record into a table: a record with the same key is taken out, and
/// the written record is put at the end.
fn write<R: Record>(table: &mut Vec<R>, record: R) where R::V: Row
    requires
        unique_keys(views(old(table)@)),
    ensures
        unique_keys(views(final(table)@)),
        views(final(table)@) == upsert(views(old(table)@), record@),
{
    let ghost rows = views(table@);
    let mut i: usize = 0;
    let mut found: Option<usize> = None;
    while i < table.len()
        invariant_except_break
            i <= table.len(),
            found is None,
            forall|j: int| 0 <= j < i ==> rows[j].key() != record@.key(),
        invariant
            views(table@) == rows,
            rows.len() == table.len(),
        ensures
            views(table@) == rows,
            rows.len() == table.len(),
            found matches Some(p) ==> p < rows.len() && rows[p as int].key() == record@.key(),
            found is None ==> !has_key(rows, record@.key()),
        decreases table.len() - i,
    {
        assert(rows[i as int] == table[i as int]@);
        if table[i].same_key(&record) {
            found = Some(i);
            break;
        }
        i += 1;
    }
    proof {
        lemma_upsert(rows, record@);
    }
    match found {
        Some(p) => {
            proof {
                lemma_without_at(rows, p as int);
            }
            table.remove(p);
            assert(views(table@) == rows.remove(p as int));
        },
        None => {
            proof {
                lemma_without_absent(rows, record@.key());
            }
        },
    }
    let ghost before = views(table@);
    table.push(record);
    assert(views(table@) == before.push(record@));
}

/// Writes copies of the records into a table, one after the other.
fn write_all<R: Record>(table: &mut Vec<R>, records: &Vec<R>) where R::V: Row
    requires
        unique_keys(views(old(table)@)),
    ensures
        unique_keys(views(final(table)@)),
        views(final(table)@) == apply(views(old(table)@), views(records@)),
{
    let ghost all = views(records@);
    let mut i: usize = 0;
    while i < records.len()
        invariant
            i <= records.len(),
            all == views(records@),
            unique_keys(views(table@)),
            views(table@) == apply(views(old(table)@), all.take(i as int)),
        decreases records.len() - i,
    {
        assert(all.take(i + 1).drop_last() == all.take(i as int));
        assert(all.take(i + 1).last() == records[i as int]@);
        write(table, records[i].duplicate());
        i += 1;
    }
    assert(all.take(records.len() as int) == all);
}

/// A copy of every record of a table, in order.
fn copy_all<R: Record>(table: &Vec<R>) -> (out: Vec<R>) where R::V: Row
    ensures
        views(out@) == views(table@),
{
    let mut out: Vec<R> = Vec::new();
    let mut i: usize = 0;
    while i < table.len()
        invariant
            i <= table.len(),
            views(out@) == views(table@.take(i as int)),
        decreases table.len() - i,
    {
        let c = table[i].duplicate();
        let ghost before = views(out@);
        out.push(c);
        assert(views(out@) == before.push(c@));
        assert(table@.take(i + 1) == table@.take(i as int).push(table@[i as int]));
        assert(views(table@.take(i + 1)) == views(table@.take(i as int)).push(
            table@[i as int]@,
        ));
        i += 1;
    }
    assert(table@.take(table.len() as int) == table@);
    out
}

// ---------------------------------------------------------------------------
// The store
// ---------------------------------------------------------------------------

/// The three tables of the store.
struct Tables {
    repos: Vec<RepoRecord>,
    chars: Vec<UnicodeChar>,
    blocks: Vec<UnicodeBlock>,
}

/// The tables as sequences of rows, oldest write first.
pub struct TablesView {
    pub repos: Seq<RepoRow>,
    pub chars: Seq<CharRow>,
    pub blocks: Seq<BlockRow>,
}

impl TablesView {
    /// Tables without rows.
    pub open spec fn empty() -> TablesView {
        TablesView { repos: Seq::empty(), chars: Seq::empty(), blocks: Seq::empty() }
    }

    /// In each table, no two rows share a key.
    pub open spec fn wf(self) -> bool {
        &&& unique_keys(self.repos)
        &&& unique_keys(self.chars)
        &&& unique_keys(self.blocks)
    }
}

impl View for Tables {
    type V = TablesView;

    closed spec fn view(&self) -> TablesView {
        TablesView {
            repos: views(self.repos@),
            chars: views(self.chars@),
            blocks: views(self.blocks@),
        }
    }
}

/// What can go wrong in the store.
#[derive(Debug, Clone, Copy, PartialEq, Eq, Structural)]
pub enum StorageError {
    /// `begin` was called while a transaction was open.
    TransactionOpen,
    /// `commit` or `rollback` was called without an open transaction.
    NoTransaction,
}

/// The cache store.
pub struct Database {
    tables: Tables,
    saved: Option<Tables>,
}

impl View for Database {
    type V = TablesView;

    /// The rows that a reader sees now.
    closed spec fn view(&self) -> TablesView {
        self.tables@
    }
}

impl Tables {
    fn duplicate(&self) -> (r: Tables)
        ensures
            r@ == self@,
    {
        Tables {
            repos: copy_all(&self.repos),
            chars: copy_all(&self.chars),
            blocks: copy_all(&self.blocks),
        }
    }
}

impl Database {
    /// The tables hold unique keys, and so does the state kept for a
    /// rollback.
    pub closed spec fn wf(&self) -> bool {
        &&& self.tables@.wf()
        &&& self.saved matches Some(t) ==> t@.wf()
    }

    /// Whether a transaction is open.
    pub closed spec fn is_open(&self) -> bool {
        self.saved is Some
    }

    /// The rows as they were when the open transaction began.
    pub closed spec fn at_begin(&self) -> TablesView
        recommends
            self.is_open(),
    {
        self.saved->0@
    }

    /// A well-formed store has well-formed tables.
    pub proof fn lemma_wf(&self)
        requires
            self.wf(),
        ensures
            self@.wf(),
            self.is_open() ==> self.at_begin().wf(),
    {
    }

    /// A store with the three tables, all empty, and no open transaction.
    pub fn new() -> (db: Database)
        ensures
            db.wf(),
            db@ == TablesView::empty(),
            !db.is_open(),
    {
        let db = Database {
            tables: Tables { repos: Vec::new(), chars: Vec::new(), blocks: Vec::new() },
            saved: None,
        };
        assert(db.tables@.repos == Seq::<RepoRow>::empty());
        assert(db.tables@.chars == Seq::<CharRow>::empty());
        assert(db.tables@.blocks == Seq::<BlockRow>::empty());
        db
    }

    /// Whether a transaction is open.
    pub fn in_transaction(&self) -> (r: bool)
        ensures
            r == self.is_open(),
    {
        self.saved.is_some()
    }

    /// Opens a transaction. Fails, and changes nothing, when one is open.
    pub fn begin(&mut self) -> (r: Result<(), StorageError>)
        requires
            old(self).wf(),
        ensures
            final(self).wf(),
            final(self)@ == old(self)@,
            old(self).is_open() ==> r == Err::<(), StorageError>(StorageError::TransactionOpen)
                && final(self).is_open() && final(self).at_begin() == old(self).at_begin(),
            !old(self).is_open() ==> r is Ok && final(self).is_open() && final(self).at_begin()
                == old(self)@,
    {
        if self.saved.is_some() {
            return Err(StorageError::TransactionOpen);
        }
        let copy = self.tables.duplicate();
        self.saved = Some(copy);
        Ok(())
    }

    /// Closes the open transaction and keeps every write made in it. Fails,
    /// and changes nothing, when none is open.
    pub fn commit(&mut self) -> (r: Result<(), StorageError>)
        requires
            old(self).wf(),
        ensures
            final(self).wf(),
            final(self)@ == old(self)@,
            !final(self).is_open(),
            old(self).is_open() ==> r is Ok,
            !old(self).is_open() ==> r == Err::<(), StorageError>(StorageError::NoTransaction),
    {
        if self.saved.is_none() {
            return Err(StorageError::NoTransaction);
        }
        self.saved = None;
        Ok(())
    }

    /// Closes the open transaction and undoes every write made in it. Fails,
    /// and changes nothing, when none is open.
    pub fn rollback(&mut self) -> (r: Result<(), StorageError>)
        requires
            old(self).wf(),
        ensures
            final(self).wf(),
            !final(self).is_open(),
            old(self).is_open() ==> r is Ok && final(self)@ == old(self).at_begin(),
            !old(self).is_open() ==> r == Err::<(), StorageError>(StorageError::NoTransaction)
                && final(self)@ == old(self)@,
    {
        match self.saved.take() {
            None => Err(StorageError::NoTransaction),
            Some(t) => {
                self.tables = t;
                Ok(())
            },
        }
    }

    /// Writes a repository row; a row with the same owner and name is
    /// replaced. Returns the number of rows written, which is one.
    pub fn upsert_repo(&mut self, record: RepoRecord) -> (affected: usize)
        requires
            old(self).wf(),
        ensures
            affected == 1,
            final(self).wf(),
            final(self)@ == (TablesView { repos: upsert(old(self)@.repos, record@), ..old(self)@ }),
            final(self).is_open() == old(self).is_open(),
            final(self).is_open() ==> final(self).at_begin() == old(self).at_begin(),
    {
        write(&mut self.tables.repos, record);
        1
    }

    /// Writes a character row; a row with the same code point is replaced.
    /// Returns the number of rows written, which is one.
    pub fn upsert_char(&mut self, record: UnicodeChar) -> (affected: usize)
        requires
            old(self).wf(),
        ensures
            affected == 1,
            final(self).wf(),
            final(self)@ == (TablesView { chars: upsert(old(self)@.chars, record@), ..old(self)@ }),
            final(self).is_open() == old(self).is_open(),
            final(self).is_open() ==> final(self).at_begin() == old(self).at_begin(),
    {
        write(&mut self.tables.chars, record);
        1
    }

    /// Writes a block row; a row with the same name is replaced. Returns the
    /// number of rows written, which is one.
    pub fn upsert_block(&mut self, record: UnicodeBlock) -> (affected: usize)
        requires
            old(self).wf(),
        ensures
            affected == 1,
            final(self).wf(),
            final(self)@ == (TablesView {
                blocks: upsert(old(self)@.blocks, record@),
                ..old(self)@
            }),
            final(self).is_open() == old(self).is_open(),
            final(self).is_open() ==> final(self).at_begin() == old(self).at_begin(),
    {
        write(&mut self.tables.blocks, record);
        1
    }

    /// Writes character rows one after the other, as `upsert_char` writes
    /// each. Returns the number of rows written.
    pub fn upsert_chars(&mut self, records: &Vec<UnicodeChar>) -> (affected: usize)
        requires
            old(self).wf(),
        ensures
            affected == records@.len(),
            final(self).wf(),
            final(self)@ == (TablesView {
                chars: apply(old(self)@.chars, views(records@)),
                ..old(self)@
            }),
            final(self).is_open() == old(self).is_open(),
            final(self).is_open() ==> final(self).at_begin() == old(self).at_begin(),
    {
        write_all(&mut self.tables.chars, records);
        records.len()
    }

    /// Writes block rows one after the other, as `upsert_block` writes each.
    /// Returns the number of rows written.
    pub fn upsert_blocks(&mut self, records: &Vec<UnicodeBlock>) -> (affected: usize)
        requires
            old(self).wf(),
        ensures
            affected == records@.len(),
            final(self).wf(),
            final(self)@ == (TablesView {
                blocks: apply(old(self)@.blocks, views(records@)),
                ..old(self)@
            }),
            final(self).is_open() == old(self).is_open(),
            final(self).is_open() ==> final(self).at_begin() == old(self).at_begin(),
    {
        write_all(&mut self.tables.blocks, records);
        records.len()
    }

    /// The number of character rows.
    pub fn count_chars(&self) -> (n: usize)
        ensures
            n == self@.chars.len(),
    {
        self.tables.chars.len()
    }

    /// The number of block rows.
    pub fn count_blocks(&self) -> (n: usize)
        ensures
            n == self@.blocks.len(),
    {
        self.tables.blocks.len()
    }

    /// The number of repository rows.
    pub fn count_repos(&self) -> (n: usize)
        ensures
            n == self@.repos.len(),
    {
        self.tables.repos.len()
    }

    /// The character rows with the code point `codepoint`, oldest write
    /// first.
    pub fn chars_by_codepoint(&self, codepoint: &str) -> (found: Vec<UnicodeChar>)
        ensures
            views(found@) == chars_with_codepoint(self@.chars, codepoint@),
    {
        let wanted = codepoint.to_owned();
        let ghost keep = |r: CharRow| r.codepoint == codepoint@;
        let ghost rows = self.tables@.chars;
        let mut found: Vec<UnicodeChar> = Vec::new();
        let mut i: usize = 0;
        while i < self.tables.chars.len()
            invariant
                i <= self.tables.chars.len(),
                rows == self.tables@.chars,
                rows.len() == self.tables.chars.len(),
                wanted@ == codepoint@,
                keep == (|r: CharRow| r.codepoint == codepoint@),
                views(found@) == select(rows.take(i as int), keep),
            decreases self.tables.chars.len() - i,
        {
            let r = &self.tables.chars[i];
            assert(rows[i as int] == r@);
            assert(rows.take(i + 1).drop_last() == rows.take(i as int));
            let ghost before = views(found@);
            if r.codepoint == wanted {
                let c = r.duplicate();
                found.push(c);
                assert(views(found@) == before.push(c@));
            }
            i += 1;
        }
        assert(rows.take(rows.len() as int) == rows);
        found
    }

    /// A copy of every repository row, oldest write first.
    pub fn repos(&self) -> (rows: Vec<RepoRecord>)
        ensures
            views(rows@) == self@.repos,
    {
        copy_all(&self.tables.repos)
    }

    /// A copy of every character row, oldest write first.
    pub fn chars(&self) -> (rows: Vec<UnicodeChar>)
        ensures
            views(rows@) == self@.chars,
    {
        copy_all(&self.tables.chars)
    }

    /// A copy of every block row, oldest write first.
    pub fn blocks(&self) -> (rows: Vec<UnicodeBlock>)
        ensures
            views(rows@) == self@.blocks,
    {
        copy_all(&self.tables.blocks)
    }
}

} // verus!
