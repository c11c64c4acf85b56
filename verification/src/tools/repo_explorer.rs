//! The repository browser: it collects the name of an account and keeps the
//! repositories of the session for the cache.

use crate::db::{apply, Database, RepoRecord, RepoRow, TablesView};
use crate::models::github::{Repository, RepositoryRow};
use crate::tools::{
    export_resume, export_status, without_last, Completion, CompletionView, Drawing, Field,
    KeyCode, KeyInput, Reply, ReplyView, Tool, ToolError, ToolErrorView, ToolView,
};
use crate::views::views;
use vstd::prelude::*;

verus! {

/// A repository together with the payload that the cache keeps for it.
#[derive(Debug, PartialEq, Eq)]
pub struct CachedRepository {
    pub repository: Repository,
    pub payload: String,
}

/// A `CachedRepository` as plain values: the whole repository and its
/// payload.
pub struct CachedRow {
    pub repository: RepositoryRow,
    pub payload: Seq<char>,
}

impl View for CachedRepository {
    type V = CachedRow;

    open spec fn view(&self) -> CachedRow {
        CachedRow { repository: self.repository@, payload: self.payload@ }
    }
}

/// The repository browser.
#[derive(Debug, PartialEq, Eq)]
pub struct RepoExplorerTool {
    input: String,
    results: Vec<CachedRepository>,
}

/// The state of the repository browser as plain values.
pub struct RepoState {
    pub input: Seq<char>,
    pub results: Seq<CachedRow>,
}

impl RepoState {
    /// The state of a new browser: empty input, no results.
    pub open spec fn fresh() -> RepoState {
        RepoState { input: Seq::empty(), results: Seq::empty() }
    }
}

impl View for RepoExplorerTool {
    type V = RepoState;

    closed spec fn view(&self) -> RepoState {
        RepoState { input: self.input@, results: views(self.results@) }
    }
}

/// The names of a list of repositories, in order.
pub open spec fn names(results: Seq<CachedRow>) -> Seq<Seq<char>> {
    results.map_values(|r: CachedRow| r.repository.name)
}

/// The cache rows for the repositories of one owner, in order.
pub open spec fn cache_rows(owner: Seq<char>, results: Seq<CachedRow>) -> Seq<RepoRow> {
    results.map_values(
        |r: CachedRow| RepoRow { owner: owner, name: r.repository.name, payload: r.payload },
    )
}

/// What the browser shows in the state `s`.
pub open spec fn repo_drawing(s: RepoState) -> Drawing {
    Drawing {
        banner: None,
        fields: seq![("Repo Input"@, s.input)],
        results_title: "Repo Results"@,
        lines: names(s.results),
    }
}

/// The state and the answer after a key press.
pub open spec fn repo_step(s: RepoState, key: KeyInput) -> (RepoState, ReplyView) {
    match key.code {
        KeyCode::Enter => (s, ReplyView::Status("Repository fetching not implemented"@)),
        KeyCode::Char(c) => if c == 'e' && key.ctrl {
            (s, ReplyView::Export("repo_results.json"@))
        } else {
            (RepoState { input: s.input.push(c), ..s }, ReplyView::Status("Input updated"@))
        },
        KeyCode::Backspace => (
            RepoState { input: without_last(s.input), ..s },
            ReplyView::Status("Removed character"@),
        ),
        _ => (s, ReplyView::Status(Seq::empty())),
    }
}

impl RepoExplorerTool {
    /// A browser with empty input and no results.
    pub fn new() -> (t: RepoExplorerTool)
        ensures
            t@ == RepoState::fresh(),
    {
        let t = RepoExplorerTool { input: String::new(), results: Vec::new() };
        assert(views(t.results@) == Seq::<CachedRow>::empty());
        t
    }

    /// The account name typed so far.
    pub fn input(&self) -> (s: &str)
        ensures
            s@ == self@.input,
    {
        self.input.as_str()
    }

    /// The repositories of the session.
    pub fn results(&self) -> (r: &Vec<CachedRepository>)
        ensures
            views(r@) == self@.results,
    {
        &self.results
    }

    /// Replaces the repositories of the session.
    pub fn store_results(&mut self, results: Vec<CachedRepository>)
        ensures
            final(self)@ == (RepoState { results: views(results@), ..old(self)@ }),
    {
        self.results = results;
    }

    /// Fetching repositories is not available: the status says so and nothing
    /// changes.
    pub fn fetch_repos(&mut self) -> (status: String)
        ensures
            *final(self) == *old(self),
            status@ == "Repository fetching not implemented"@,
    {
        "Repository fetching not implemented".to_owned()
    }
}

impl Tool for RepoExplorerTool {
    open spec fn spec_name(&self) -> Seq<char> {
        "Repo Explorer"@
    }

    open spec fn spec_render(&self) -> Drawing {
        repo_drawing(self@)
    }

    open spec fn settled(&self) -> Self {
        *self
    }

    open spec fn handles(
        &self,
        key: KeyInput,
        tables: TablesView,
        after: Self,
        reply: Result<ReplyView, ToolErrorView>,
    ) -> bool {
        reply matches Ok(answer) && (after@, answer) == repo_step(self@, key)
    }

    open spec fn resumes(
        &self,
        completion: CompletionView,
        after: Self,
        status: Result<Seq<char>, ToolErrorView>,
    ) -> bool {
        after == *self && status == export_resume("repo_results.json"@, completion)
    }

    open spec fn cached(&self, tables: TablesView) -> TablesView {
        TablesView { repos: apply(tables.repos, cache_rows(self@.input, self@.results)), ..tables }
    }

    open spec fn save_failure(&self, tables: TablesView) -> Option<ToolErrorView> {
        None
    }

    open spec fn informed(&self) -> Self {
        *self
    }

    fn name(&self) -> (n: &'static str) {
        "Repo Explorer"
    }

    fn render(&self) -> (v: ToolView) {
        let mut fields: Vec<Field> = Vec::new();
        fields.push(Field { title: "Repo Input".to_owned(), text: self.input.clone() });
        let mut lines: Vec<String> = Vec::new();
        let mut i: usize = 0;
        while i < self.results.len()
            invariant
                i <= self.results.len(),
                views(lines@) == names(views(self.results@).take(i as int)),
            decreases self.results.len() - i,
        {
            let ghost before = views(lines@);
            let ghost rows = views(self.results@);
            let name = self.results[i].repository.name.clone();
            lines.push(name);
            assert(views(lines@) == before.push(name@));
            assert(rows.take(i + 1) == rows.take(i as int).push(rows[i as int]));
            assert(names(rows.take(i + 1)) == names(rows.take(i as int)).push(
                rows[i as int].repository.name,
            ));
            i += 1;
        }
        assert(views(self.results@).take(self.results.len() as int) == views(self.results@));
        let v = ToolView { banner: None, fields, results_title: "Repo Results".to_owned(), lines };
        assert(v@.fields == repo_drawing(self@).fields);
        v
    }

    fn handle_input(&mut self, key: KeyInput, db: &Database) -> (r: Result<Reply, ToolError>) {
        match key.code {
            KeyCode::Enter => {
                let status = self.fetch_repos();
                Ok(Reply::Status(status))
            },
            KeyCode::Char(c) => {
                if c == 'e' && key.ctrl {
                    Ok(Reply::Export("repo_results.json".to_owned()))
                } else {
                    self.input.push(c);
                    Ok(Reply::Status("Input updated".to_owned()))
                }
            },
            KeyCode::Backspace => {
                self.input.pop();
                Ok(Reply::Status("Removed character".to_owned()))
            },
            _ => Ok(Reply::Status(String::new())),
        }
    }

    fn resume(&mut self, completion: Completion) -> (r: Result<String, ToolError>) {
        export_status("repo_results.json", completion)
    }

    fn reference_ready(&mut self) {
    }

    /// Writes one row for each repository of the session, under the account
    /// name typed; a row of the same account and name is replaced.
    fn save_cache(&self, db: &mut Database) -> (r: Result<(), ToolError>)
        ensures
            r is Ok,
    {
        let ghost all = cache_rows(self@.input, self@.results);
        let mut i: usize = 0;
        while i < self.results.len()
            invariant
                i <= self.results.len(),
                all == cache_rows(self@.input, self@.results),
                all.len() == self.results.len(),
                db.wf(),
                db@ == (TablesView {
                    repos: apply(old(db)@.repos, all.take(i as int)),
                    ..old(db)@
                }),
                db.is_open() == old(db).is_open(),
                db.is_open() ==> db.at_begin() == old(db).at_begin(),
            decreases self.results.len() - i,
        {
            let entry = &self.results[i];
            let record = RepoRecord {
                owner: self.input.clone(),
                name: entry.repository.name.clone(),
                payload: entry.payload.clone(),
            };
            assert(views(self.results@)[i as int] == entry@);
            assert(all.take(i + 1).drop_last() == all.take(i as int));
            assert(all.take(i + 1).last() == record@);
            db.upsert_repo(record);
            i += 1;
        }
        assert(all.take(self.results.len() as int) == all);
        Ok(())
    }
}

} // verus!
