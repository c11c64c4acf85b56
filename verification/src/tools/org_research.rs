//! The organization search: it collects a parent organization and a search
//! term, asks for the search to be sent, and keeps the organizations that
//! come back.

use crate::db::{Database, TablesView};
use crate::models::github::{logins, OrgRow, Organization};
use crate::text::{decimal, format_decimal};
use crate::tools::{
    bool_string, bool_text, without_last, yes_no, yes_no_string, Completion, CompletionView,
    Drawing, Field, KeyCode, KeyInput, Reply, ReplyView, Tool, ToolError, ToolErrorView,
    ToolView,
};
use crate::views::views;
use vstd::prelude::*;
use vstd::string::StringExecFns;

verus! {

/// The organization search.
#[derive(Debug, PartialEq, Eq)]
pub struct OrgResearchTool {
    parent_org: String,
    search_term: String,
    current_field: usize,
    allow_no_parent: bool,
    results: Vec<Organization>,
    loading: bool,
}

/// The state of the organization search as plain values.
pub struct OrgState {
    pub parent_org: Seq<char>,
    pub search_term: Seq<char>,
    /// The input box that takes the keys: 0 the parent, 1 the term, 2 the
    /// toggle.
    pub current_field: nat,
    pub allow_no_parent: bool,
    pub results: Seq<OrgRow>,
    /// Whether a search is on its way.
    pub loading: bool,
}

impl OrgState {
    /// The state of a new search: empty inputs, no results, nothing on its
    /// way.
    pub open spec fn fresh() -> OrgState {
        OrgState {
            parent_org: Seq::empty(),
            search_term: Seq::empty(),
            current_field: 0,
            allow_no_parent: false,
            results: Seq::empty(),
            loading: false,
        }
    }
}

impl View for OrgResearchTool {
    type V = OrgState;

    closed spec fn view(&self) -> OrgState {
        OrgState {
            parent_org: self.parent_org@,
            search_term: self.search_term@,
            current_field: self.current_field as nat,
            allow_no_parent: self.allow_no_parent,
            results: views(self.results@),
            loading: self.loading,
        }
    }
}

/// The search query: the term alone, or the term within a parent.
pub open spec fn search_query(parent: Seq<char>, term: Seq<char>) -> Seq<char> {
    if parent.len() == 0 {
        term
    } else {
        "org:"@ + parent + " "@ + term
    }
}

/// The address of the search for a query.
pub open spec fn search_url(query: Seq<char>) -> Seq<char> {
    "https://api.github.com/search/users?q="@ + query + "+type:org"@
}

/// The status after a search that found `n` organizations.
pub open spec fn found_text(n: nat) -> Seq<char> {
    "Found "@ + decimal(n) + " organizations"@
}

/// What the search shows in the state `s`.
pub open spec fn org_drawing(s: OrgState) -> Drawing {
    if s.loading {
        Drawing {
            banner: Some("Searching GitHub Organizations..."@),
            fields: Seq::empty(),
            results_title: Seq::empty(),
            lines: Seq::empty(),
        }
    } else {
        Drawing {
            banner: None,
            fields: seq![
                ("Parent Org"@, s.parent_org),
                ("Search Term"@, s.search_term),
                ("Allow No Parent"@, yes_no(s.allow_no_parent)),
            ],
            results_title: "Org Results"@,
            lines: logins(s.results),
        }
    }
}

/// The state and the answer after a key press.
pub open spec fn org_step(s: OrgState, key: KeyInput) -> (OrgState, ReplyView) {
    match key.code {
        KeyCode::Up => (
            OrgState {
                current_field: if s.current_field > 0 {
                    (s.current_field - 1) as nat
                } else {
                    0
                },
                ..s
            },
            ReplyView::Status("Switched field"@),
        ),
        KeyCode::Down => (
            OrgState {
                current_field: if s.current_field >= 2 {
                    2
                } else {
                    s.current_field + 1
                },
                ..s
            },
            ReplyView::Status("Switched field"@),
        ),
        KeyCode::Enter => (
            OrgState { loading: true, ..s },
            ReplyView::Fetch(search_url(search_query(s.parent_org, s.search_term))),
        ),
        KeyCode::Char(c) => if c == 'a' && key.ctrl {
            (
                OrgState { allow_no_parent: !s.allow_no_parent, ..s },
                ReplyView::Status("Allow No Parent: "@ + bool_text(!s.allow_no_parent)),
            )
        } else if c == 'e' && key.ctrl {
            (s, ReplyView::Export("org_results.json"@))
        } else if s.current_field == 0 {
            (
                OrgState { parent_org: s.parent_org.push(c), ..s },
                ReplyView::Status("Input updated"@),
            )
        } else if s.current_field == 1 {
            (
                OrgState { search_term: s.search_term.push(c), ..s },
                ReplyView::Status("Input updated"@),
            )
        } else {
            (s, ReplyView::Status("Input updated"@))
        },
        KeyCode::Backspace => if s.current_field == 0 {
            (
                OrgState { parent_org: without_last(s.parent_org), ..s },
                ReplyView::Status("Removed character"@),
            )
        } else if s.current_field == 1 {
            (
                OrgState { search_term: without_last(s.search_term), ..s },
                ReplyView::Status("Removed character"@),
            )
        } else {
            (s, ReplyView::Status("No action"@))
        },
        _ => (s, ReplyView::Status(Seq::empty())),
    }
}

/// The state and the answer after outside work has ended. An answer with
/// organizations replaces the results; anything else leaves inputs and
/// results alone. No search is on its way afterwards.
pub open spec fn org_resume(s: OrgState, completion: CompletionView) -> (
    OrgState,
    Result<Seq<char>, ToolErrorView>,
) {
    match completion {
        CompletionView::Organizations(items) => (
            OrgState { results: items, loading: false, ..s },
            Ok(found_text(items.len())),
        ),
        CompletionView::Rejected(status) => (
            OrgState { loading: false, ..s },
            Err(ToolErrorView::Remote(status)),
        ),
        CompletionView::Failed(text) => (
            OrgState { loading: false, ..s },
            Err(ToolErrorView::Outside(text)),
        ),
        CompletionView::Exported => (
            OrgState { loading: false, ..s },
            Ok("Exported to org_results.json"@),
        ),
        CompletionView::Characters(_) => (
            OrgState { loading: false, ..s },
            Err(ToolErrorView::Unexpected),
        ),
    }
}

impl OrgResearchTool {
    /// A search with empty inputs, no results, and nothing on its way.
    pub fn new() -> (t: OrgResearchTool)
        ensures
            t@ == OrgState::fresh(),
    {
        let t = OrgResearchTool {
            parent_org: String::new(),
            search_term: String::new(),
            current_field: 0,
            allow_no_parent: false,
            results: Vec::new(),
            loading: false,
        };
        assert(views(t.results@) == Seq::<OrgRow>::empty());
        t
    }

    /// The state with no search on its way is the state with its `loading`
    /// mark cleared and nothing else changed.
    pub proof fn lemma_settled(&self)
        ensures
            self.settled()@ == (OrgState { loading: false, ..self@ }),
    {
    }

    /// The parent organization typed so far.
    pub fn parent_org(&self) -> (s: &str)
        ensures
            s@ == self@.parent_org,
    {
        self.parent_org.as_str()
    }

    /// The search term typed so far.
    pub fn search_term(&self) -> (s: &str)
        ensures
            s@ == self@.search_term,
    {
        self.search_term.as_str()
    }

    /// The input box that takes the keys.
    pub fn current_field(&self) -> (f: usize)
        ensures
            f == self@.current_field,
    {
        self.current_field
    }

    /// Whether a search without a parent is allowed.
    pub fn allow_no_parent(&self) -> (b: bool)
        ensures
            b == self@.allow_no_parent,
    {
        self.allow_no_parent
    }

    /// Whether a search is on its way.
    pub fn is_loading(&self) -> (b: bool)
        ensures
            b == self@.loading,
    {
        self.loading
    }

    /// The organizations of the last search.
    pub fn results(&self) -> (r: &Vec<Organization>)
        ensures
            views(r@) == self@.results,
    {
        &self.results
    }

    /// Starts a search: marks it as on its way and returns its address.
    pub fn fetch_orgs(&mut self) -> (url: String)
        ensures
            final(self)@ == (OrgState { loading: true, ..old(self)@ }),
            url@ == search_url(search_query(old(self)@.parent_org, old(self)@.search_term)),
    {
        self.loading = true;
        let mut url = "https://api.github.com/search/users?q=".to_owned();
        if self.parent_org.as_str().is_empty() {
            url.append(self.search_term.as_str());
        } else {
            url.append("org:");
            url.append(self.parent_org.as_str());
            url.append(" ");
            url.append(self.search_term.as_str());
        }
        url.append("+type:org");
        url
    }
}

impl Tool for OrgResearchTool {
    open spec fn spec_name(&self) -> Seq<char> {
        "Org Research"@
    }

    open spec fn spec_render(&self) -> Drawing {
        org_drawing(self@)
    }

    closed spec fn settled(&self) -> Self {
        OrgResearchTool {
            parent_org: self.parent_org,
            search_term: self.search_term,
            current_field: self.current_field,
            allow_no_parent: self.allow_no_parent,
            results: self.results,
            loading: false,
        }
    }

    open spec fn handles(
        &self,
        key: KeyInput,
        tables: TablesView,
        after: Self,
        reply: Result<ReplyView, ToolErrorView>,
    ) -> bool {
        reply matches Ok(answer) && (after@, answer) == org_step(self@, key)
    }

    open spec fn resumes(
        &self,
        completion: CompletionView,
        after: Self,
        status: Result<Seq<char>, ToolErrorView>,
    ) -> bool {
        (after@, status) == org_resume(self@, completion)
    }

    open spec fn cached(&self, tables: TablesView) -> TablesView {
        tables
    }

    open spec fn save_failure(&self, tables: TablesView) -> Option<ToolErrorView> {
        None
    }

    open spec fn informed(&self) -> Self {
        *self
    }

    fn name(&self) -> (n: &'static str) {
        "Org Research"
    }

    fn render(&self) -> (v: ToolView) {
        if self.loading {
            let v = ToolView {
                banner: Some("Searching GitHub Organizations...".to_owned()),
                fields: Vec::new(),
                results_title: String::new(),
                lines: Vec::new(),
            };
            assert(v@.fields == Seq::<(Seq<char>, Seq<char>)>::empty());
            assert(v@.lines == Seq::<Seq<char>>::empty());
            return v;
        }
        let mut fields: Vec<Field> = Vec::new();
        fields.push(Field { title: "Parent Org".to_owned(), text: self.parent_org.clone() });
        fields.push(Field { title: "Search Term".to_owned(), text: self.search_term.clone() });
        let toggle = yes_no_string(self.allow_no_parent);
        fields.push(Field { title: "Allow No Parent".to_owned(), text: toggle.to_owned() });
        let mut lines: Vec<String> = Vec::new();
        let mut i: usize = 0;
        while i < self.results.len()
            invariant
                i <= self.results.len(),
                views(lines@) == logins(views(self.results@).take(i as int)),
            decreases self.results.len() - i,
        {
            let ghost before = views(lines@);
            let ghost rows = views(self.results@);
            let login = self.results[i].login.clone();
            lines.push(login);
            assert(views(lines@) == before.push(login@));
            assert(rows.take(i + 1) == rows.take(i as int).push(rows[i as int]));
            assert(logins(rows.take(i + 1)) == logins(rows.take(i as int)).push(
                rows[i as int].login,
            ));
            i += 1;
        }
        assert(views(self.results@).take(self.results.len() as int) == views(self.results@));
        let v = ToolView { banner: None, fields, results_title: "Org Results".to_owned(), lines };
        assert(v@.fields == org_drawing(self@).fields);
        v
    }

    fn handle_input(&mut self, key: KeyInput, db: &Database) -> (r: Result<Reply, ToolError>) {
        match key.code {
            KeyCode::Up => {
                if self.current_field > 0 {
                    self.current_field = self.current_field - 1;
                }
                Ok(Reply::Status("Switched field".to_owned()))
            },
            KeyCode::Down => {
                if self.current_field >= 2 {
                    self.current_field = 2;
                } else {
                    self.current_field = self.current_field + 1;
                }
                Ok(Reply::Status("Switched field".to_owned()))
            },
            KeyCode::Enter => {
                let url = self.fetch_orgs();
                Ok(Reply::Fetch(url))
            },
            KeyCode::Char(c) => {
                if c == 'a' && key.ctrl {
                    self.allow_no_parent = !self.allow_no_parent;
                    let mut status = "Allow No Parent: ".to_owned();
                    status.append(bool_string(self.allow_no_parent));
                    Ok(Reply::Status(status))
                } else if c == 'e' && key.ctrl {
                    Ok(Reply::Export("org_results.json".to_owned()))
                } else {
                    if self.current_field == 0 {
                        self.parent_org.push(c);
                    } else if self.current_field == 1 {
                        self.search_term.push(c);
                    }
                    Ok(Reply::Status("Input updated".to_owned()))
                }
            },
            KeyCode::Backspace => {
                if self.current_field == 0 {
                    self.parent_org.pop();
                    Ok(Reply::Status("Removed character".to_owned()))
                } else if self.current_field == 1 {
                    self.search_term.pop();
                    Ok(Reply::Status("Removed character".to_owned()))
                } else {
                    Ok(Reply::Status("No action".to_owned()))
                }
            },
            _ => Ok(Reply::Status(String::new())),
        }
    }

    fn resume(&mut self, completion: Completion) -> (r: Result<String, ToolError>) {
        self.loading = false;
        match completion {
            Completion::Organizations(items) => {
                let mut status = "Found ".to_owned();
                let count = format_decimal(items.len());
                status.append(count.as_str());
                status.append(" organizations");
                self.results = items;
                Ok(status)
            },
            Completion::Rejected(status) => Err(ToolError::Remote(status)),
            Completion::Failed(text) => Err(ToolError::Outside(text)),
            Completion::Exported => Ok("Exported to org_results.json".to_owned()),
            Completion::Characters(_) => Err(ToolError::Unexpected),
        }
    }

    fn reference_ready(&mut self) {
    }

    fn save_cache(&self, db: &mut Database) -> (r: Result<(), ToolError>)
        ensures
            r is Ok,
    {
        Ok(())
    }
}

} // verus!
