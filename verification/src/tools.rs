//! The contract that every tool meets, and what tools and the event loop
//! exchange: key input, replies, completions of outside work, and what a
//! tool wants drawn.

use crate::db::{Database, StorageError, TablesView};
use crate::models::github::{OrgRow, Organization};
use crate::models::unicode::{CharRow, UnicodeChar};
use crate::views::views;
use vstd::prelude::*;
use vstd::string::StringExecFns;

pub mod jwt_decoder;
pub mod org_research;
pub mod repo_explorer;
pub mod slot;
pub mod unicode_inspector;

pub use jwt_decoder::JwtDecoderTool;
pub use org_research::OrgResearchTool;
pub use repo_explorer::RepoExplorerTool;
pub use slot::ToolSlot;
pub use unicode_inspector::UnicodeInspectorTool;

verus! {

/// The key of a key press.
#[derive(Debug, Clone, Copy, PartialEq, Eq, Structural)]
pub enum KeyCode {
    Char(char),
    Backspace,
    Enter,
    Tab,
    Up,
    Down,
    /// Any other key.
    Other,
}

/// A key press: the key, and whether the control key was held.
#[derive(Debug, Clone, Copy, PartialEq, Eq, Structural)]
pub struct KeyInput {
    pub code: KeyCode,
    pub ctrl: bool,
}

/// Why a tool could not carry out a step.
#[derive(Debug, PartialEq, Eq)]
pub enum ToolError {
    /// The token does not have three parts.
    InvalidFormat,
    /// A part of the token is not base64.
    Encoding,
    /// A part of the token does not decode to a JSON document.
    Json,
    /// The code point is not a hexadecimal number of 32 bits.
    InvalidCodepoint,
    /// The remote service answered with a status other than success.
    Remote(String),
    /// Outside work failed; the text says how.
    Outside(String),
    /// The store refused an operation.
    Storage(StorageError),
    /// A completion arrived that the tool had not asked for.
    Unexpected,
}

/// A `ToolError` with its texts as plain values.
pub enum ToolErrorView {
    InvalidFormat,
    Encoding,
    Json,
    InvalidCodepoint,
    Remote(Seq<char>),
    Outside(Seq<char>),
    Storage(StorageError),
    Unexpected,
}

impl View for ToolError {
    type V = ToolErrorView;

    open spec fn view(&self) -> ToolErrorView {
        match self {
            ToolError::InvalidFormat => ToolErrorView::InvalidFormat,
            ToolError::Encoding => ToolErrorView::Encoding,
            ToolError::Json => ToolErrorView::Json,
            ToolError::InvalidCodepoint => ToolErrorView::InvalidCodepoint,
            ToolError::Remote(s) => ToolErrorView::Remote(s@),
            ToolError::Outside(s) => ToolErrorView::Outside(s@),
            ToolError::Storage(e) => ToolErrorView::Storage(*e),
            ToolError::Unexpected => ToolErrorView::Unexpected,
        }
    }
}

/// The status text that reports an error.
pub open spec fn error_text(e: ToolErrorView) -> Seq<char> {
    match e {
        ToolErrorView::InvalidFormat => "Invalid JWT format"@,
        ToolErrorView::Encoding => "Invalid base64 in token"@,
        ToolErrorView::Json => "Invalid JSON in token"@,
        ToolErrorView::InvalidCodepoint => "Invalid code point"@,
        ToolErrorView::Remote(status) => "GitHub API error: "@ + status,
        ToolErrorView::Outside(text) => text,
        ToolErrorView::Storage(StorageError::TransactionOpen) => "A transaction is already open"@,
        ToolErrorView::Storage(StorageError::NoTransaction) => "No transaction is open"@,
        ToolErrorView::Unexpected => "Unexpected completion"@,
    }
}

impl ToolError {
    /// The status text that reports this error.
    pub fn message(&self) -> (s: String)
        ensures
            s@ == error_text(self@),
    {
        match self {
            ToolError::InvalidFormat => "Invalid JWT format".to_owned(),
            ToolError::Encoding => "Invalid base64 in token".to_owned(),
            ToolError::Json => "Invalid JSON in token".to_owned(),
            ToolError::InvalidCodepoint => "Invalid code point".to_owned(),
            ToolError::Remote(status) => {
                let mut s = "GitHub API error: ".to_owned();
                s.append(status.as_str());
                s
            },
            ToolError::Outside(text) => text.clone(),
            ToolError::Storage(StorageError::TransactionOpen) => {
                "A transaction is already open".to_owned()
            },
            ToolError::Storage(StorageError::NoTransaction) => "No transaction is open".to_owned(),
            ToolError::Unexpected => "Unexpected completion".to_owned(),
        }
    }
}

/// What a tool answers to a key press.
#[derive(Debug, PartialEq, Eq)]
pub enum Reply {
    /// The step is over; the text is the new status.
    Status(String),
    /// The tool waits for the answer to a request to this address.
    Fetch(String),
    /// The tool wants its results written to the file of this name.
    Export(String),
    /// The tool waits for the character rows of the cache file whose name
    /// matches this pattern.
    Lookup(String),
}

/// A `Reply` with its texts as plain values.
pub enum ReplyView {
    Status(Seq<char>),
    Fetch(Seq<char>),
    Export(Seq<char>),
    Lookup(Seq<char>),
}

impl View for Reply {
    type V = ReplyView;

    open spec fn view(&self) -> ReplyView {
        match self {
            Reply::Status(s) => ReplyView::Status(s@),
            Reply::Fetch(s) => ReplyView::Fetch(s@),
            Reply::Export(s) => ReplyView::Export(s@),
            Reply::Lookup(s) => ReplyView::Lookup(s@),
        }
    }
}

/// The end of outside work that a tool asked for.
#[derive(Debug, PartialEq, Eq)]
pub enum Completion {
    /// The results were written to the file.
    Exported,
    /// The remote service answered with these organizations.
    Organizations(Vec<Organization>),
    /// The cache file answered a lookup with these character rows.
    Characters(Vec<UnicodeChar>),
    /// The remote service answered with this status, which is not success.
    Rejected(String),
    /// The work failed; the text says how.
    Failed(String),
}

/// A `Completion` as plain values.
pub enum CompletionView {
    Exported,
    Organizations(Seq<OrgRow>),
    Characters(Seq<CharRow>),
    Rejected(Seq<char>),
    Failed(Seq<char>),
}

impl View for Completion {
    type V = CompletionView;

    open spec fn view(&self) -> CompletionView {
        match self {
            Completion::Exported => CompletionView::Exported,
            Completion::Organizations(items) => CompletionView::Organizations(views(items@)),
            Completion::Characters(rows) => CompletionView::Characters(views(rows@)),
            Completion::Rejected(status) => CompletionView::Rejected(status@),
            Completion::Failed(text) => CompletionView::Failed(text@),
        }
    }
}

/// The result of a step of a tool, with its texts as plain values.
pub open spec fn outcome_view<T: View>(r: Result<T, ToolError>) -> Result<T::V, ToolErrorView> {
    match r {
        Ok(t) => Ok(t@),
        Err(e) => Err(e@),
    }
}

/// A text without its last character; the empty text stays empty.
pub open spec fn without_last(s: Seq<char>) -> Seq<char> {
    if s.len() > 0 {
        s.drop_last()
    } else {
        s
    }
}

/// `true` or `false`, written out.
pub open spec fn bool_text(b: bool) -> Seq<char> {
    if b {
        "true"@
    } else {
        "false"@
    }
}

/// `Yes` or `No`.
pub open spec fn yes_no(b: bool) -> Seq<char> {
    if b {
        "Yes"@
    } else {
        "No"@
    }
}

/// `true` or `false`, written out.
pub fn bool_string(b: bool) -> (s: &'static str)
    ensures
        s@ == bool_text(b),
{
    if b {
        "true"
    } else {
        "false"
    }
}

/// `Yes` or `No`.
pub fn yes_no_string(b: bool) -> (s: &'static str)
    ensures
        s@ == yes_no(b),
{
    if b {
        "Yes"
    } else {
        "No"
    }
}

/// What a tool answers to the end of an export, and to the end of work it
/// has not asked for: the status of an export to `file`, the error of work
/// that failed, and `Unexpected` for the rows of a search or a lookup.
pub open spec fn export_resume(file: Seq<char>, completion: CompletionView) -> Result<
    Seq<char>,
    ToolErrorView,
> {
    match completion {
        CompletionView::Exported => Ok("Exported to "@ + file),
        CompletionView::Organizations(_) => Err(ToolErrorView::Unexpected),
        CompletionView::Characters(_) => Err(ToolErrorView::Unexpected),
        CompletionView::Rejected(status) => Err(ToolErrorView::Remote(status)),
        CompletionView::Failed(text) => Err(ToolErrorView::Outside(text)),
    }
}

/// The answer of a tool to the end of an export, and to the end of work it
/// has not asked for.
pub fn export_status(file: &str, completion: Completion) -> (r: Result<String, ToolError>)
    ensures
        outcome_view(r) == export_resume(file@, completion@),
{
    match completion {
        Completion::Exported => {
            let mut status = "Exported to ".to_owned();
            status.append(file);
            Ok(status)
        },
        Completion::Organizations(_) => Err(ToolError::Unexpected),
        Completion::Characters(_) => Err(ToolError::Unexpected),
        Completion::Rejected(status) => Err(ToolError::Remote(status)),
        Completion::Failed(text) => Err(ToolError::Outside(text)),
    }
}

/// One titled box of a tool's screen.
#[derive(Debug, PartialEq, Eq)]
pub struct Field {
    pub title: String,
    pub text: String,
}

impl View for Field {
    type V = (Seq<char>, Seq<char>);

    open spec fn view(&self) -> (Seq<char>, Seq<char>) {
        (self.title@, self.text@)
    }
}

/// What a tool wants drawn in its region of the screen.
#[derive(Debug, PartialEq, Eq)]
pub struct ToolView {
    /// Shown alone, in place of everything else, while work is outstanding.
    pub banner: Option<String>,
    /// The input boxes, from top to bottom, each with its title.
    pub fields: Vec<Field>,
    /// The title of the results box.
    pub results_title: String,
    /// The lines of the results box.
    pub lines: Vec<String>,
}

/// A `ToolView` as plain values.
pub struct Drawing {
    pub banner: Option<Seq<char>>,
    pub fields: Seq<(Seq<char>, Seq<char>)>,
    pub results_title: Seq<char>,
    pub lines: Seq<Seq<char>>,
}

impl View for ToolView {
    type V = Drawing;

    open spec fn view(&self) -> Drawing {
        Drawing {
            banner: match self.banner {
                Some(b) => Some(b@),
                None => None,
            },
            fields: views(self.fields@),
            results_title: self.results_title@,
            lines: views(self.lines@),
        }
    }
}

/// An interactive module of the toolbox.
///
/// A tool owns its inputs and results. It reads the store when it takes a
/// key, and writes to it only when it saves its cache.
pub trait Tool: Sized {
    /// The name shown on the tool's tab.
    spec fn spec_name(&self) -> Seq<char>;

    /// What the tool wants drawn in its present state.
    spec fn spec_render(&self) -> Drawing;

    /// The state once outstanding work is over, whatever its end.
    spec fn settled(&self) -> Self;

    /// Whether a key press in this state, over the given tables of the
    /// store, may leave the tool in the state `after` with the answer `reply`.
    spec fn handles(
        &self,
        key: KeyInput,
        tables: TablesView,
        after: Self,
        reply: Result<ReplyView, ToolErrorView>,
    ) -> bool;

    /// Whether the end of outside work in this state may leave the tool in
    /// the state `after` with the answer `status`.
    spec fn resumes(
        &self,
        completion: CompletionView,
        after: Self,
        status: Result<Seq<char>, ToolErrorView>,
    ) -> bool;

    /// The tables of the store after the tool has tried to save its cache
    /// into `tables`, whether the save went through or not.
    spec fn cached(&self, tables: TablesView) -> TablesView;

    /// The error with which saving the cache into `tables` fails; `None` when
    /// the save goes through.
    spec fn save_failure(&self, tables: TablesView) -> Option<ToolErrorView>;

    /// The state after the tool has learnt that the reference data of the
    /// store are ready.
    spec fn informed(&self) -> Self;

    /// The name shown on the tool's tab.
    fn name(&self) -> (n: &'static str)
        ensures
            n@ == self.spec_name(),
    ;

    /// What to draw for the tool. The state is only read.
    fn render(&self) -> (v: ToolView)
        ensures
            v@ == self.spec_render(),
    ;

    /// Takes one key press. A step that fails leaves the tool as it was. The
    /// name of the tool never changes.
    fn handle_input(&mut self, key: KeyInput, db: &Database) -> (r: Result<Reply, ToolError>)
        ensures
            old(self).handles(key, db@, *final(self), outcome_view(r)),
            r is Err ==> *final(self) == *old(self),
            final(self).spec_name() == old(self).spec_name(),
    ;

    /// Takes the end of outside work that an earlier reply asked for. A
    /// failure leaves the inputs and results of the tool as they were.
    fn resume(&mut self, completion: Completion) -> (r: Result<String, ToolError>)
        ensures
            old(self).resumes(completion@, *final(self), outcome_view(r)),
            r is Err ==> *final(self) == old(self).settled(),
            final(self).spec_name() == old(self).spec_name(),
    ;

    /// Tells the tool that the import of the reference data is over. Telling
    /// it again changes nothing more.
    fn reference_ready(&mut self)
        ensures
            *final(self) == old(self).informed(),
            final(self).informed() == *final(self),
            final(self).spec_name() == old(self).spec_name(),
    ;

    /// Writes the results of the session to the store. Without results
    /// nothing is written. The save goes through unless the tool names an
    /// error for these tables, and then fails with that error.
    fn save_cache(&self, db: &mut Database) -> (r: Result<(), ToolError>)
        requires
            old(db).wf(),
        ensures
            final(db).wf(),
            final(db).is_open() == old(db).is_open(),
            final(db).is_open() ==> final(db).at_begin() == old(db).at_begin(),
            final(db)@ == self.cached(old(db)@),
            match r {
                Ok(_) => self.save_failure(old(db)@) is None,
                Err(e) => self.save_failure(old(db)@) == Some(e@),
            },
    ;
}

} // verus!
