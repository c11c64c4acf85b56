//! The closed set of tools that the toolbox ships, as one type, so that a
//! registry can hold tools of different kinds.

use crate::db::{Database, TablesView};
use crate::tools::{
    Completion, CompletionView, Drawing, JwtDecoderTool, KeyInput, OrgResearchTool, Reply,
    ReplyView, RepoExplorerTool, Tool, ToolError, ToolErrorView, ToolView,
    UnicodeInspectorTool,
};
use vstd::prelude::*;

verus! {

/// One of the tools of the toolbox.
#[derive(Debug, PartialEq, Eq)]
pub enum ToolSlot {
    Org(OrgResearchTool),
    Repo(RepoExplorerTool),
    Unicode(UnicodeInspectorTool),
    Jwt(JwtDecoderTool),
}

impl Tool for ToolSlot {
    open spec fn spec_name(&self) -> Seq<char> {
        match self {
            ToolSlot::Org(t) => t.spec_name(),
            ToolSlot::Repo(t) => t.spec_name(),
            ToolSlot::Unicode(t) => t.spec_name(),
            ToolSlot::Jwt(t) => t.spec_name(),
        }
    }

    open spec fn spec_render(&self) -> Drawing {
        match self {
            ToolSlot::Org(t) => t.spec_render(),
            ToolSlot::Repo(t) => t.spec_render(),
            ToolSlot::Unicode(t) => t.spec_render(),
            ToolSlot::Jwt(t) => t.spec_render(),
        }
    }

    open spec fn settled(&self) -> Self {
        match self {
            ToolSlot::Org(t) => ToolSlot::Org(t.settled()),
            ToolSlot::Repo(t) => ToolSlot::Repo(t.settled()),
            ToolSlot::Unicode(t) => ToolSlot::Unicode(t.settled()),
            ToolSlot::Jwt(t) => ToolSlot::Jwt(t.settled()),
        }
    }

    open spec fn handles(
        &self,
        key: KeyInput,
        tables: TablesView,
        after: Self,
        reply: Result<ReplyView, ToolErrorView>,
    ) -> bool {
        match (self, after) {
            (ToolSlot::Org(t), ToolSlot::Org(a)) => t.handles(key, tables, a, reply),
            (ToolSlot::Repo(t), ToolSlot::Repo(a)) => t.handles(key, tables, a, reply),
            (ToolSlot::Unicode(t), ToolSlot::Unicode(a)) => t.handles(key, tables, a, reply),
            (ToolSlot::Jwt(t), ToolSlot::Jwt(a)) => t.handles(key, tables, a, reply),
            _ => false,
        }
    }

    open spec fn resumes(
        &self,
        completion: CompletionView,
        after: Self,
        status: Result<Seq<char>, ToolErrorView>,
    ) -> bool {
        match (self, after) {
            (ToolSlot::Org(t), ToolSlot::Org(a)) => t.resumes(completion, a, status),
            (ToolSlot::Repo(t), ToolSlot::Repo(a)) => t.resumes(completion, a, status),
            (ToolSlot::Unicode(t), ToolSlot::Unicode(a)) => t.resumes(completion, a, status),
            (ToolSlot::Jwt(t), ToolSlot::Jwt(a)) => t.resumes(completion, a, status),
            _ => false,
        }
    }

    open spec fn cached(&self, tables: TablesView) -> TablesView {
        match self {
            ToolSlot::Org(t) => t.cached(tables),
            ToolSlot::Repo(t) => t.cached(tables),
            ToolSlot::Unicode(t) => t.cached(tables),
            ToolSlot::Jwt(t) => t.cached(tables),
        }
    }

    open spec fn save_failure(&self, tables: TablesView) -> Option<ToolErrorView> {
        match self {
            ToolSlot::Org(t) => t.save_failure(tables),
            ToolSlot::Repo(t) => t.save_failure(tables),
            ToolSlot::Unicode(t) => t.save_failure(tables),
            ToolSlot::Jwt(t) => t.save_failure(tables),
        }
    }

    open spec fn informed(&self) -> Self {
        match self {
            ToolSlot::Org(t) => ToolSlot::Org(t.informed()),
            ToolSlot::Repo(t) => ToolSlot::Repo(t.informed()),
            ToolSlot::Unicode(t) => ToolSlot::Unicode(t.informed()),
            ToolSlot::Jwt(t) => ToolSlot::Jwt(t.informed()),
        }
    }

    fn name(&self) -> (n: &'static str) {
        match self {
            ToolSlot::Org(t) => t.name(),
            ToolSlot::Repo(t) => t.name(),
            ToolSlot::Unicode(t) => t.name(),
            ToolSlot::Jwt(t) => t.name(),
        }
    }

    fn render(&self) -> (v: ToolView) {
        match self {
            ToolSlot::Org(t) => t.render(),
            ToolSlot::Repo(t) => t.render(),
            ToolSlot::Unicode(t) => t.render(),
            ToolSlot::Jwt(t) => t.render(),
        }
    }

    fn handle_input(&mut self, key: KeyInput, db: &Database) -> (r: Result<Reply, ToolError>) {
        match self {
            ToolSlot::Org(t) => t.handle_input(key, db),
            ToolSlot::Repo(t) => t.handle_input(key, db),
            ToolSlot::Unicode(t) => t.handle_input(key, db),
            ToolSlot::Jwt(t) => t.handle_input(key, db),
        }
    }

    fn resume(&mut self, completion: Completion) -> (r: Result<String, ToolError>) {
        match self {
            ToolSlot::Org(t) => t.resume(completion),
            ToolSlot::Repo(t) => t.resume(completion),
            ToolSlot::Unicode(t) => t.resume(completion),
            ToolSlot::Jwt(t) => t.resume(completion),
        }
    }

    fn reference_ready(&mut self) {
        match self {
            ToolSlot::Org(t) => t.reference_ready(),
            ToolSlot::Repo(t) => t.reference_ready(),
            ToolSlot::Unicode(t) => t.reference_ready(),
            ToolSlot::Jwt(t) => t.reference_ready(),
        }
    }

    fn save_cache(&self, db: &mut Database) -> (r: Result<(), ToolError>) {
        match self {
            ToolSlot::Org(t) => t.save_cache(db),
            ToolSlot::Repo(t) => t.save_cache(db),
            ToolSlot::Unicode(t) => t.save_cache(db),
            ToolSlot::Jwt(t) => t.save_cache(db),
        }
    }
}

} // verus!
