//! The tool registry, the dispatcher and the states of the event loop.
//!
//! The registry holds the tools in tab order with a cursor on the active one.
//! The dispatcher takes one input event at a time: the reserved bindings are
//! served first, every other key goes to the active tool. Work that the loop
//! must do outside (copying to the clipboard, sending a request, writing a
//! file, reading the cache file) is handed back as an `Action`; its end
//! comes in through `complete`, and for a copy through `finish_copy`.

use crate::db::{Database, TablesView};
use crate::tools::jwt_decoder::JwtState;
use crate::tools::org_research::OrgState;
use crate::tools::repo_explorer::RepoState;
use crate::tools::unicode_inspector::UnicodeState;
use crate::tools::{
    error_text, outcome_view, Completion, JwtDecoderTool, KeyCode, KeyInput, OrgResearchTool,
    Reply, ReplyView, RepoExplorerTool, Tool, ToolError, ToolErrorView, ToolSlot, ToolView,
    UnicodeInspectorTool,
};
use vstd::arithmetic::div_mod::{
    lemma_add_mod_noop, lemma_mod_add_multiples_vanish, lemma_mod_twice, lemma_small_mod,
};
use vstd::prelude::*;

verus! {

/// The state of the event loop.
#[derive(Debug, Clone, Copy, PartialEq, Eq, Structural)]
pub enum LoopState {
    /// Waiting for the next input.
    Idle,
    /// Outside work for the active tool is on its way.
    Handling,
    /// The loop has ended; nothing is dispatched any more.
    ShuttingDown,
}

/// An input event as the loop reads it.
#[derive(Debug, Clone, Copy, PartialEq, Eq, Structural)]
pub enum InputEvent {
    /// A key press.
    Key(KeyInput),
    /// The left button pressed at a row and column of the screen.
    Click { row: u16, column: u16 },
    /// Anything else.
    Other,
}

/// What the loop has to do after a dispatch.
#[derive(Debug, PartialEq, Eq)]
pub enum Action {
    /// Draw and read the next event.
    Continue,
    /// Leave the loop.
    Quit,
    /// Put this text on the clipboard and hand the end to `finish_copy`.
    Copy(String),
    /// Send a request to this address and hand its end to `complete`.
    Fetch(String),
    /// Write the results of the active tool to the file of this name and
    /// hand the end to `complete`.
    Export(String),
    /// Read from the cache file the character rows whose name matches this
    /// pattern and hand them to `complete`.
    Lookup(String),
}

/// An `Action` with its texts as plain values.
pub enum ActionView {
    Continue,
    Quit,
    Copy(Seq<char>),
    Fetch(Seq<char>),
    Export(Seq<char>),
    Lookup(Seq<char>),
}

impl View for Action {
    type V = ActionView;

    open spec fn view(&self) -> ActionView {
        match self {
            Action::Continue => ActionView::Continue,
            Action::Quit => ActionView::Quit,
            Action::Copy(s) => ActionView::Copy(s@),
            Action::Fetch(s) => ActionView::Fetch(s@),
            Action::Export(s) => ActionView::Export(s@),
            Action::Lookup(s) => ActionView::Lookup(s@),
        }
    }
}

/// Where the dispatcher sends an event.
pub enum Route {
    /// Nowhere: nothing changes.
    Ignore,
    /// The quit binding ends the loop.
    Quit,
    /// The copy binding asks for the status to be put on the clipboard.
    Copy,
    /// The next-tool key moves the cursor forward.
    Next,
    /// A click on the tab bar puts the cursor on this tab.
    Select(nat),
    /// Any other key goes to the active tool.
    Forward(KeyInput),
}

/// The tab that a click at `column` falls on, when the tab bar of a screen
/// `width` columns wide is shared evenly by `count` tabs: never beyond the
/// last tab.
pub open spec fn tab_at(column: nat, width: nat, count: nat) -> nat
    recommends
        count > 0,
        width / count > 0,
{
    let tab = column / (width / count);
    if tab >= count {
        (count - 1) as nat
    } else {
        tab
    }
}

/// Where an event goes, in a loop in `state` with `count` tools on a screen
/// `width` columns wide. Events reach the dispatcher only while the loop is
/// idle; the reserved bindings come before the tools.
pub open spec fn route(state: LoopState, count: nat, width: nat, event: InputEvent) -> Route {
    if state != LoopState::Idle {
        Route::Ignore
    } else {
        match event {
            InputEvent::Key(key) => if key.ctrl && key.code == KeyCode::Char('q') {
                Route::Quit
            } else if key.ctrl && key.code == KeyCode::Char('c') {
                Route::Copy
            } else if count == 0 {
                Route::Ignore
            } else if key.code == KeyCode::Tab {
                Route::Next
            } else {
                Route::Forward(key)
            },
            InputEvent::Click { row, column } => if row == 1 && count > 0 && width / count > 0 {
                Route::Select(tab_at(column as nat, width, count))
            } else {
                Route::Ignore
            },
            InputEvent::Other => Route::Ignore,
        }
    }
}

/// The status, the state of the loop and the action after the active tool
/// has answered a key: a status replaces the message, a request for outside
/// work puts the loop into `Handling`, and an error becomes the message and
/// leaves the loop idle.
pub open spec fn after_reply(message: Seq<char>, reply: Result<ReplyView, ToolErrorView>) -> (
    Seq<char>,
    LoopState,
    ActionView,
) {
    match reply {
        Ok(ReplyView::Status(s)) => (s, LoopState::Idle, ActionView::Continue),
        Ok(ReplyView::Fetch(url)) => (message, LoopState::Handling, ActionView::Fetch(url)),
        Ok(ReplyView::Export(file)) => (message, LoopState::Handling, ActionView::Export(file)),
        Ok(ReplyView::Lookup(pattern)) => (
            message,
            LoopState::Handling,
            ActionView::Lookup(pattern),
        ),
        Err(e) => (error_text(e), LoopState::Idle, ActionView::Continue),
    }
}

/// No answer of a tool ends the loop: after a key has gone to a tool the loop
/// is idle or waits for outside work, and an error leaves it idle.
pub proof fn lemma_reply_never_shuts_down(
    message: Seq<char>,
    reply: Result<ReplyView, ToolErrorView>,
)
    ensures
        after_reply(message, reply).1 != LoopState::ShuttingDown,
        reply is Err ==> after_reply(message, reply).1 == LoopState::Idle,
{
}

/// The outcome of a copy with the text of its failure as a plain value.
pub open spec fn copy_view(outcome: Result<(), String>) -> Result<(), Seq<char>> {
    match outcome {
        Ok(_) => Ok(()),
        Err(text) => Err(text@),
    }
}

/// The status after a copy to the clipboard has ended: the notice when it
/// went through, and the text of the failure when it did not.
pub open spec fn after_copy(outcome: Result<(), Seq<char>>) -> Seq<char> {
    match outcome {
        Ok(_) => "Copied to clipboard!"@,
        Err(text) => text,
    }
}

/// The status after outside work has ended.
pub open spec fn after_completion(status: Result<Seq<char>, ToolErrorView>) -> Seq<char> {
    match status {
        Ok(s) => s,
        Err(e) => error_text(e),
    }
}

/// The cursor after one advance from `index` in a registry of `count` tools:
/// the next tool, and the first tool after the last.
pub open spec fn next_index(index: nat, count: nat) -> nat
    recommends
        count > 0,
{
    (index + 1) % count
}

/// The cursor after `n` advances from `index` in a registry of `count`
/// tools.
pub open spec fn advanced(index: nat, count: nat, n: nat) -> nat
    decreases n,
{
    if n == 0 {
        index
    } else {
        next_index(advanced(index, count, (n - 1) as nat), count)
    }
}

/// After any number of advances the cursor is on a tool.
pub proof fn lemma_advance_in_range(index: nat, count: nat, n: nat)
    requires
        index < count,
    ensures
        advanced(index, count, n) < count,
    decreases n,
{
    if n > 0 {
        lemma_advance_in_range(index, count, (n - 1) as nat);
    }
}

/// `n` advances move the cursor `n` places forward, around the end.
pub proof fn lemma_advance_sum(index: nat, count: nat, n: nat)
    requires
        index < count,
    ensures
        advanced(index, count, n) == (index + n) % count,
    decreases n,
{
    let c = count as int;
    if n == 0 {
        lemma_small_mod(index, count);
    } else {
        lemma_advance_sum(index, count, (n - 1) as nat);
        lemma_add_mod_noop(index + n - 1, 1, c);
        lemma_add_mod_noop((index + n - 1) % c, 1, c);
        lemma_mod_twice(index + n - 1, c);
    }
}

/// As many advances as there are tools bring the cursor back to where it
/// was; from the first tool, back to the first tool.
pub proof fn lemma_advance_cycles(index: nat, count: nat)
    requires
        index < count,
    ensures
        advanced(index, count, count) == index,
        advanced(0, count, count) == 0,
{
    lemma_advance_sum(index, count, count);
    lemma_advance_sum(0, count, count);
    lemma_mod_add_multiples_vanish(index as int, count as int);
    lemma_mod_add_multiples_vanish(0, count as int);
    lemma_small_mod(index, count);
    lemma_small_mod(0, count);
}

/// How saving the caches of the tools into `tables` goes: the tables of the
/// store afterwards, and the error of the first tool that fails. Every tool
/// saves, in tab order, whether a tool before it has failed or not.
pub open spec fn save_run<T: Tool>(tools: Seq<T>, tables: TablesView) -> (
    TablesView,
    Option<ToolErrorView>,
)
    decreases tools.len(),
{
    if tools.len() == 0 {
        (tables, None)
    } else {
        let before = save_run(tools.drop_last(), tables);
        (
            tools.last().cached(before.0),
            if before.1 is Some {
                before.1
            } else {
                tools.last().save_failure(before.0)
            },
        )
    }
}

/// Every tool saves: the tables after the first `i + 1` tools are what tool
/// `i` leaves of the tables after the first `i`, whether a tool before it
/// has failed or not.
pub proof fn lemma_save_run_every_tool<T: Tool>(tools: Seq<T>, tables: TablesView, i: int)
    requires
        0 <= i < tools.len(),
    ensures
        save_run(tools.take(i + 1), tables).0 == tools[i].cached(
            save_run(tools.take(i), tables).0,
        ),
{
    assert(tools.take(i + 1).drop_last() == tools.take(i));
    assert(tools.take(i + 1).last() == tools[i]);
}

/// The error of a run is the error of the first tool that fails: once the
/// first `n` tools have given an error, the tools after them do not change
/// it.
pub proof fn lemma_save_run_first_error<T: Tool>(tools: Seq<T>, tables: TablesView, n: int)
    requires
        0 <= n <= tools.len(),
        save_run(tools.take(n), tables).1 is Some,
    ensures
        save_run(tools, tables).1 == save_run(tools.take(n), tables).1,
    decreases tools.len(),
{
    if n == tools.len() {
        assert(tools.take(n) == tools);
    } else {
        assert(tools.drop_last().take(n) == tools.take(n));
        lemma_save_run_first_error(tools.drop_last(), tables, n);
    }
}

/// Without tools, and with tools none of which names an error, every save
/// goes through.
pub proof fn lemma_save_run_succeeds<T: Tool>(tools: Seq<T>, tables: TablesView)
    requires
        forall|i: int, t: TablesView|
            0 <= i < tools.len() ==> (#[trigger] tools[i].save_failure(t)) is None,
    ensures
        save_run(tools, tables).1 is None,
    decreases tools.len(),
{
    if tools.len() > 0 {
        let front = tools.drop_last();
        assert forall|i: int, t: TablesView| 0 <= i < front.len() implies (#[trigger] front[i]
            .save_failure(t)) is None by {
            assert(front[i] == tools[i]);
        }
        lemma_save_run_succeeds(front, tables);
        assert(tools.last() == tools[tools.len() - 1]);
    }
}

/// The names of the tools, in tab order.
pub open spec fn names<T: Tool>(tools: Seq<T>) -> Seq<Seq<char>> {
    tools.map_values(|t: T| t.spec_name())
}

/// The toolbox: the registry of tools with its cursor, the status message,
/// and the state of the event loop.
pub struct App<T: Tool> {
    tab_index: usize,
    tools: Vec<T>,
    message: String,
    state: LoopState,
    copying: bool,
}

impl<T: Tool> App<T> {
    /// The tools, in tab order.
    pub closed spec fn spec_tools(&self) -> Seq<T> {
        self.tools@
    }

    /// The index of the active tool.
    pub closed spec fn spec_active(&self) -> nat {
        self.tab_index as nat
    }

    /// The status message.
    pub closed spec fn spec_message(&self) -> Seq<char> {
        self.message@
    }

    /// The state of the event loop.
    pub closed spec fn spec_state(&self) -> LoopState {
        self.state
    }

    /// Whether the outside work that the loop waits for is a copy to the
    /// clipboard.
    pub closed spec fn spec_copying(&self) -> bool {
        self.copying
    }

    /// The cursor is on a tool, or at 0 while there is none; and a copy is
    /// waited for only while outside work is on its way.
    pub open spec fn wf(&self) -> bool {
        &&& if self.spec_tools().len() == 0 {
            self.spec_active() == 0
        } else {
            self.spec_active() < self.spec_tools().len()
        }
        &&& self.spec_copying() ==> self.spec_state() == LoopState::Handling
    }

    /// A toolbox without tools, idle, with the welcome message.
    pub fn new() -> (app: App<T>)
        ensures
            app.wf(),
            app.spec_tools() == Seq::<T>::empty(),
            app.spec_active() == 0,
            app.spec_message()
                == "Welcome to Dev-Toolbox! Press 'q' to quit, 'Tab' to switch tools."@,
            app.spec_state() == LoopState::Idle,
            !app.spec_copying(),
    {
        App {
            tab_index: 0,
            tools: Vec::new(),
            message: "Welcome to Dev-Toolbox! Press 'q' to quit, 'Tab' to switch tools.".to_owned(),
            state: LoopState::Idle,
            copying: false,
        }
    }

    /// Appends a tool as the last tab. The cursor stays where it is.
    pub fn register(&mut self, tool: T)
        requires
            old(self).wf(),
        ensures
            final(self).wf(),
            final(self).spec_tools() == old(self).spec_tools().push(tool),
            final(self).spec_active() == old(self).spec_active(),
            final(self).spec_message() == old(self).spec_message(),
            final(self).spec_state() == old(self).spec_state(),
            final(self).spec_copying() == old(self).spec_copying(),
    {
        self.tools.push(tool);
    }

    /// The number of tools.
    pub fn tool_count(&self) -> (n: usize)
        ensures
            n == self.spec_tools().len(),
    {
        self.tools.len()
    }

    /// The index of the active tool.
    pub fn active_index(&self) -> (i: usize)
        ensures
            i == self.spec_active(),
    {
        self.tab_index
    }

    /// The active tool; `None` while there is no tool.
    pub fn active(&self) -> (t: Option<&T>)
        requires
            self.wf(),
        ensures
            self.spec_tools().len() == 0 ==> t is None,
            self.spec_tools().len() > 0 ==> t == Some(
                &self.spec_tools()[self.spec_active() as int],
            ),
    {
        if self.tools.len() == 0 {
            None
        } else {
            Some(&self.tools[self.tab_index])
        }
    }

    /// The status message.
    pub fn message(&self) -> (s: &str)
        ensures
            s@ == self.spec_message(),
    {
        self.message.as_str()
    }

    /// The state of the event loop.
    pub fn state(&self) -> (s: LoopState)
        ensures
            s == self.spec_state(),
    {
        self.state
    }

    /// Whether the outside work that the loop waits for is a copy to the
    /// clipboard.
    pub fn is_copying(&self) -> (b: bool)
        ensures
            b == self.spec_copying(),
    {
        self.copying
    }

    /// The labels of the tabs: the names of the tools, in tab order.
    pub fn tab_titles(&self) -> (titles: Vec<&'static str>)
        ensures
            titles@.len() == self.spec_tools().len(),
            forall|i: int|
                0 <= i < titles@.len() ==> (#[trigger] titles@[i])@
                    == self.spec_tools()[i].spec_name(),
    {
        let mut titles: Vec<&'static str> = Vec::new();
        let mut i: usize = 0;
        while i < self.tools.len()
            invariant
                i <= self.tools.len(),
                titles@.len() == i,
                forall|j: int|
                    0 <= j < i ==> (#[trigger] titles@[j])@ == self.tools@[j].spec_name(),
            decreases self.tools.len() - i,
        {
            titles.push(self.tools[i].name());
            i += 1;
        }
        titles
    }

    /// What to draw for the active tool; `None` while there is no tool.
    pub fn render(&self) -> (v: Option<ToolView>)
        requires
            self.wf(),
        ensures
            self.spec_tools().len() == 0 ==> v is None,
            self.spec_tools().len() > 0 ==> (v matches Some(view) && view@
                == self.spec_tools()[self.spec_active() as int].spec_render()),
    {
        if self.tools.len() == 0 {
            None
        } else {
            Some(self.tools[self.tab_index].render())
        }
    }

    /// Moves the cursor to the next tool, and from the last tool to the
    /// first. Without tools nothing changes.
    pub fn advance(&mut self)
        requires
            old(self).wf(),
        ensures
            final(self).wf(),
            final(self).spec_tools() == old(self).spec_tools(),
            final(self).spec_message() == old(self).spec_message(),
            final(self).spec_state() == old(self).spec_state(),
            final(self).spec_copying() == old(self).spec_copying(),
            old(self).spec_tools().len() > 0 ==> final(self).spec_active() == next_index(
                old(self).spec_active(),
                old(self).spec_tools().len(),
            ),
            old(self).spec_tools().len() == 0 ==> final(self).spec_active() == 0,
    {
        if self.tools.len() > 0 {
            self.tab_index = (self.tab_index + 1) % self.tools.len();
        }
    }

    /// Puts the cursor on the tool at `position`, or on the last tool when
    /// there is none at that position. Without tools nothing changes.
    pub fn select_at(&mut self, position: usize)
        requires
            old(self).wf(),
        ensures
            final(self).wf(),
            final(self).spec_tools() == old(self).spec_tools(),
            final(self).spec_message() == old(self).spec_message(),
            final(self).spec_state() == old(self).spec_state(),
            final(self).spec_copying() == old(self).spec_copying(),
            final(self).spec_active() == (if old(self).spec_tools().len() == 0 {
                0
            } else if position >= old(self).spec_tools().len() {
                (old(self).spec_tools().len() - 1) as nat
            } else {
                position as nat
            }),
    {
        if self.tools.len() > 0 {
            if position >= self.tools.len() {
                self.tab_index = self.tools.len() - 1;
            } else {
                self.tab_index = position;
            }
        }
    }

    /// Takes one input event on a screen `width` columns wide.
    ///
    /// While the loop is idle, the quit binding (control and `q`) ends the
    /// loop, the copy binding (control and `c`) asks for the status to be
    /// copied and waits for the end of the copy, the tab key moves to the
    /// next tool, a click on the tab bar selects a tool, and every other key
    /// goes to the active tool. A tool's error becomes the status message and
    /// changes nothing else: no tool, and not the state of the loop.
    pub fn dispatch(&mut self, event: InputEvent, width: u16, db: &Database) -> (action: Action)
        requires
            old(self).wf(),
        ensures
            final(self).wf(),
            final(self).spec_tools().len() == old(self).spec_tools().len(),
            names(final(self).spec_tools()) == names(old(self).spec_tools()),
            match route(
                old(self).spec_state(),
                old(self).spec_tools().len(),
                width as nat,
                event,
            ) {
                Route::Ignore => {
                    &&& *final(self) == *old(self)
                    &&& action@ == ActionView::Continue
                },
                Route::Quit => {
                    &&& final(self).spec_state() == LoopState::ShuttingDown
                    &&& !final(self).spec_copying()
                    &&& final(self).spec_tools() == old(self).spec_tools()
                    &&& final(self).spec_active() == old(self).spec_active()
                    &&& final(self).spec_message() == old(self).spec_message()
                    &&& action@ == ActionView::Quit
                },
                Route::Copy => {
                    &&& final(self).spec_state() == LoopState::Handling
                    &&& final(self).spec_copying()
                    &&& final(self).spec_tools() == old(self).spec_tools()
                    &&& final(self).spec_active() == old(self).spec_active()
                    &&& final(self).spec_message() == old(self).spec_message()
                    &&& action@ == ActionView::Copy(old(self).spec_message())
                },
                Route::Next => {
                    &&& final(self).spec_state() == LoopState::Idle
                    &&& !final(self).spec_copying()
                    &&& final(self).spec_tools() == old(self).spec_tools()
                    &&& final(self).spec_active() == next_index(
                        old(self).spec_active(),
                        old(self).spec_tools().len(),
                    )
                    &&& final(self).spec_message() == old(self).spec_message()
                    &&& action@ == ActionView::Continue
                },
                Route::Select(tab) => {
                    &&& final(self).spec_state() == LoopState::Idle
                    &&& !final(self).spec_copying()
                    &&& final(self).spec_tools() == old(self).spec_tools()
                    &&& final(self).spec_active() == tab
                    &&& final(self).spec_message() == old(self).spec_message()
                    &&& action@ == ActionView::Continue
                },
                Route::Forward(key) => {
                    let i = old(self).spec_active() as int;
                    &&& final(self).spec_active() == old(self).spec_active()
                    &&& !final(self).spec_copying()
                    &&& forall|j: int|
                        0 <= j < old(self).spec_tools().len() && j != i
                            ==> final(self).spec_tools()[j] == old(self).spec_tools()[j]
                    &&& exists|reply: Result<ReplyView, ToolErrorView>|
                        {
                            &&& #[trigger] old(self).spec_tools()[i].handles(
                                key,
                                db@,
                                final(self).spec_tools()[i],
                                reply,
                            )
                            &&& (final(self).spec_message(), final(self).spec_state(), action@)
                                == after_reply(old(self).spec_message(), reply)
                            &&& reply is Err ==> final(self).spec_tools() == old(self).spec_tools()
                        }
                },
            },
    {
        match self.state {
            LoopState::Idle => {},
            _ => {
                return Action::Continue;
            },
        }
        match event {
            InputEvent::Other => Action::Continue,
            InputEvent::Click { row, column } => {
                let count = self.tools.len();
                if row == 1 && count > 0 {
                    let tab_width = width as usize / count;
                    if tab_width > 0 {
                        self.select_at(column as usize / tab_width);
                    }
                }
                Action::Continue
            },
            InputEvent::Key(key) => {
                let is_q = match key.code {
                    KeyCode::Char(c) => c == 'q',
                    _ => false,
                };
                let is_c = match key.code {
                    KeyCode::Char(c) => c == 'c',
                    _ => false,
                };
                let is_tab = match key.code {
                    KeyCode::Tab => true,
                    _ => false,
                };
                if key.ctrl && is_q {
                    self.state = LoopState::ShuttingDown;
                    Action::Quit
                } else if key.ctrl && is_c {
                    self.state = LoopState::Handling;
                    self.copying = true;
                    Action::Copy(self.message.clone())
                } else if self.tools.len() == 0 {
                    Action::Continue
                } else if is_tab {
                    self.advance();
                    Action::Continue
                } else {
                    let i = self.tab_index;
                    let ghost before = self.tools@;
                    let mut tool = self.tools.remove(i);
                    let reply = tool.handle_input(key, db);
                    let ghost answer = outcome_view(reply);
                    let ghost after_tool = tool;
                    self.tools.insert(i, tool);
                    assert(forall|j: int|
                        0 <= j < before.len() && j != i ==> self.tools@[j] == before[j]);
                    assert(self.tools@[i as int] == after_tool);
                    assert(names(self.tools@) == names(before));
                    assert(before[i as int].handles(key, db@, self.tools@[i as int], answer));
                    assert(reply is Err ==> self.tools@ == before);
                    match reply {
                        Ok(Reply::Status(s)) => {
                            self.message = s;
                            Action::Continue
                        },
                        Ok(Reply::Fetch(url)) => {
                            self.state = LoopState::Handling;
                            Action::Fetch(url)
                        },
                        Ok(Reply::Export(file)) => {
                            self.state = LoopState::Handling;
                            Action::Export(file)
                        },
                        Ok(Reply::Lookup(pattern)) => {
                            self.state = LoopState::Handling;
                            Action::Lookup(pattern)
                        },
                        Err(e) => {
                            self.message = e.message();
                            Action::Continue
                        },
                    }
                }
            },
        }
    }

    /// Takes the end of the outside work that the last dispatch asked for on
    /// behalf of the active tool, and hands it to that tool. The tool's
    /// status, or the text of its error, becomes the message, and the loop is
    /// idle again. Outside of `Handling`, and while a copy is waited for,
    /// nothing changes.
    pub fn complete(&mut self, completion: Completion)
        requires
            old(self).wf(),
        ensures
            final(self).wf(),
            final(self).spec_tools().len() == old(self).spec_tools().len(),
            names(final(self).spec_tools()) == names(old(self).spec_tools()),
            final(self).spec_active() == old(self).spec_active(),
            old(self).spec_state() != LoopState::Handling || old(self).spec_copying()
                || old(self).spec_tools().len() == 0 ==> *final(self) == *old(self),
            old(self).spec_state() == LoopState::Handling && !old(self).spec_copying()
                && old(self).spec_tools().len() > 0 ==> {
                let i = old(self).spec_active() as int;
                &&& final(self).spec_state() == LoopState::Idle
                &&& !final(self).spec_copying()
                &&& forall|j: int|
                    0 <= j < old(self).spec_tools().len() && j != i
                        ==> final(self).spec_tools()[j] == old(self).spec_tools()[j]
                &&& exists|status: Result<Seq<char>, ToolErrorView>|
                    {
                        &&& #[trigger] old(self).spec_tools()[i].resumes(
                            completion@,
                            final(self).spec_tools()[i],
                            status,
                        )
                        &&& final(self).spec_message() == after_completion(status)
                        &&& status is Err ==> final(self).spec_tools()[i]
                            == old(self).spec_tools()[i].settled()
                    }
            },
    {
        match self.state {
            LoopState::Handling => {},
            _ => {
                return ;
            },
        }
        if self.copying || self.tools.len() == 0 {
            return ;
        }
        let i = self.tab_index;
        let ghost before = self.tools@;
        let mut tool = self.tools.remove(i);
        let status = tool.resume(completion);
        let ghost answer = outcome_view(status);
        let ghost after_tool = tool;
        self.tools.insert(i, tool);
        assert(forall|j: int| 0 <= j < before.len() && j != i ==> self.tools@[j] == before[j]);
        assert(self.tools@[i as int] == after_tool);
        assert(names(self.tools@) == names(before));
        assert(before[i as int].resumes(completion@, self.tools@[i as int], answer));
        match status {
            Ok(s) => {
                self.message = s;
            },
            Err(e) => {
                self.message = e.message();
            },
        }
        self.state = LoopState::Idle;
    }

    /// Takes the end of the copy that the last dispatch asked for. The notice
    /// of the copy, or the text of its failure, becomes the message, and the
    /// loop is idle again. A failed copy changes nothing else. While no copy
    /// is waited for nothing changes.
    pub fn finish_copy(&mut self, outcome: Result<(), String>)
        requires
            old(self).wf(),
        ensures
            final(self).wf(),
            !old(self).spec_copying() ==> *final(self) == *old(self),
            old(self).spec_copying() ==> {
                &&& final(self).spec_state() == LoopState::Idle
                &&& !final(self).spec_copying()
                &&& final(self).spec_tools() == old(self).spec_tools()
                &&& final(self).spec_active() == old(self).spec_active()
                &&& final(self).spec_message() == after_copy(copy_view(outcome))
            },
    {
        if !self.copying {
            return ;
        }
        match outcome {
            Ok(_) => {
                self.message = "Copied to clipboard!".to_owned();
            },
            Err(text) => {
                self.message = text;
            },
        }
        self.state = LoopState::Idle;
        self.copying = false;
    }

    /// Tells every tool that the import of the reference data is over.
    /// Nothing else changes.
    pub fn reference_ready(&mut self)
        requires
            old(self).wf(),
        ensures
            final(self).wf(),
            final(self).spec_tools() == old(self).spec_tools().map_values(|t: T| t.informed()),
            names(final(self).spec_tools()) == names(old(self).spec_tools()),
            final(self).spec_active() == old(self).spec_active(),
            final(self).spec_message() == old(self).spec_message(),
            final(self).spec_state() == old(self).spec_state(),
            final(self).spec_copying() == old(self).spec_copying(),
    {
        let ghost before = self.tools@;
        let mut i: usize = 0;
        while i < self.tools.len()
            invariant
                i <= self.tools.len(),
                self.tools@.len() == before.len(),
                self.tab_index == old(self).tab_index,
                self.message == old(self).message,
                self.state == old(self).state,
                self.copying == old(self).copying,
                forall|j: int| 0 <= j < i ==> self.tools@[j] == (#[trigger] before[j]).informed(),
                forall|j: int| i <= j < before.len() ==> self.tools@[j] == before[j],
                forall|j: int|
                    0 <= j < before.len() ==> (#[trigger] self.tools@[j]).spec_name()
                        == before[j].spec_name(),
            decreases self.tools.len() - i,
        {
            let mut tool = self.tools.remove(i);
            tool.reference_ready();
            self.tools.insert(i, tool);
            i += 1;
        }
        assert(self.tools@ == before.map_values(|t: T| t.informed()));
        assert(names(self.tools@) == names(before));
    }

    /// Has every tool save its cache, in tab order. A tool that fails does
    /// not keep the tools after it from saving. The call succeeds when every
    /// tool does, and without tools; otherwise it returns the error of the
    /// first tool that failed.
    pub fn save_cache(&self, db: &mut Database) -> (r: Result<(), ToolError>)
        requires
            old(db).wf(),
        ensures
            final(db).wf(),
            final(db).is_open() == old(db).is_open(),
            final(db).is_open() ==> final(db).at_begin() == old(db).at_begin(),
            final(db)@ == save_run(self.spec_tools(), old(db)@).0,
            match r {
                Ok(_) => save_run(self.spec_tools(), old(db)@).1 is None,
                Err(e) => save_run(self.spec_tools(), old(db)@).1 == Some(e@),
            },
    {
        let mut first: Option<ToolError> = None;
        let mut i: usize = 0;
        while i < self.tools.len()
            invariant
                i <= self.tools.len(),
                db.wf(),
                db.is_open() == old(db).is_open(),
                db.is_open() ==> db.at_begin() == old(db).at_begin(),
                save_run(self.tools@.take(i as int), old(db)@).0 == db@,
                save_run(self.tools@.take(i as int), old(db)@).1 == (match first {
                    Some(e) => Some(e@),
                    None => None::<ToolErrorView>,
                }),
            decreases self.tools.len() - i,
        {
            assert(self.tools@.take(i + 1).drop_last() == self.tools@.take(i as int));
            assert(self.tools@.take(i + 1).last() == self.tools@[i as int]);
            match self.tools[i].save_cache(db) {
                Ok(_) => {},
                Err(e) => {
                    if first.is_none() {
                        first = Some(e);
                    }
                },
            }
            i += 1;
        }
        assert(self.tools@.take(self.tools.len() as int) == self.tools@);
        match first {
            None => Ok(()),
            Some(e) => Err(e),
        }
    }
}

/// Whether `tools` are the four tools of the toolbox in their tab order, each
/// in the state of a new tool.
pub open spec fn standard_tools(tools: Seq<ToolSlot>) -> bool {
    &&& tools.len() == 4
    &&& tools[0] matches ToolSlot::Org(t) && t@ == OrgState::fresh()
    &&& tools[1] matches ToolSlot::Repo(t) && t@ == RepoState::fresh()
    &&& tools[2] matches ToolSlot::Unicode(t) && t@ == UnicodeState::fresh()
    &&& tools[3] matches ToolSlot::Jwt(t) && t@ == JwtState::fresh()
}

impl App<ToolSlot> {
    /// The toolbox with its four tools: the organization search, the
    /// repository browser, the character inspector and the token decoder, in
    /// this order, with the first one active.
    pub fn standard() -> (app: App<ToolSlot>)
        ensures
            app.wf(),
            standard_tools(app.spec_tools()),
            app.spec_active() == 0,
            app.spec_message()
                == "Welcome to Dev-Toolbox! Press 'q' to quit, 'Tab' to switch tools."@,
            app.spec_state() == LoopState::Idle,
            !app.spec_copying(),
    {
        let mut app: App<ToolSlot> = App::new();
        app.register(ToolSlot::Org(OrgResearchTool::new()));
        app.register(ToolSlot::Repo(RepoExplorerTool::new()));
        app.register(ToolSlot::Unicode(UnicodeInspectorTool::new()));
        app.register(ToolSlot::Jwt(JwtDecoderTool::new()));
        app
    }
}

} // verus!
