//! The project a command works in.
use vstd::prelude::*;
use crate::state::store::RoadmapStore;
use crate::text::{trim_prefix_all, trim_start_all};

verus! {

/// The path that `std::path::Path::join` makes of a base and a part.
pub uninterp spec fn path_join(base: Seq<char>, part: Seq<char>) -> Seq<char>;

/// Joining a part to a base path on a Unix target: an absolute part (one
/// that starts with `/`) replaces the base; otherwise the part follows the
/// base, after a `/` unless the base already ends with one. Of an empty base
/// only the name is known.
pub open spec fn joined(base: Seq<char>, part: Seq<char>) -> Seq<char> {
    if part.len() > 0 && part[0] == '/' {
        part
    } else if base.len() > 0 && base.last() == '/' {
        base + part
    } else if base.len() > 0 {
        base + "/"@ + part
    } else {
        path_join(base, part)
    }
}

/// Calls `std::path::Path::new(base).join(part)` and renders the result as a
/// string.
///
/// The result is a function of the two paths alone. As the documentation of
/// `PathBuf::push` gives it for Unix, where a path is absolute when it starts
/// with `/`: an absolute part replaces the base, and otherwise the part is
/// adjoined with a separator unless the base already ends with one. The
/// rendering is lossless, both paths being UTF-8. Joining to an empty base is
/// left unstated, and the contract speaks of Unix targets only.
#[verifier::external_body]
fn join_path(base: &str, part: &str) -> (r: String)
    ensures
        r@ == path_join(base@, part@),
        r@ == joined(base@, part@),
{
    std::path::Path::new(base).join(part).to_string_lossy().into_owned()
}

/// A project: its root directory and the store of its roadmap.
pub struct DddContext {
    pub store: RoadmapStore,
    pub project_root: String,
}

impl DddContext {
    /// The project rooted at `project_root`, whose roadmap is
    /// `project_docs/roadmap.json` under it.
    pub fn for_root(project_root: String) -> (r: Self)
        ensures
            r.project_root == project_root,
            r.store.path_view() == joined(joined(project_root@, "project_docs"@), "roadmap.json"@),
    {
        let docs = join_path(project_root.as_str(), "project_docs");
        let roadmap = join_path(docs.as_str(), "roadmap.json");
        DddContext { store: RoadmapStore::new(roadmap.as_str()), project_root }
    }

    /// The project's documents directory.
    pub fn docs_dir(&self) -> (r: String)
        ensures
            r@ == joined(self.project_root@, "project_docs"@),
    {
        join_path(self.project_root.as_str(), "project_docs")
    }

    /// Resolves a document path: every leading `@project_docs/` is stripped
    /// and the rest is taken under the documents directory.
    pub fn resolve_path(&self, path: &str) -> (r: String)
        ensures
            r@ == joined(
                joined(self.project_root@, "project_docs"@),
                trim_prefix_all(path@, "@project_docs/"@),
            ),
    {
        let rest = trim_start_all(path, "@project_docs/");
        let docs = join_path(self.project_root.as_str(), "project_docs");
        join_path(docs.as_str(), rest.as_str())
    }

    /// A directory or file under the documents directory.
    pub fn docs_entry(&self, part: &str) -> (r: String)
        ensures
            r@ == joined(joined(self.project_root@, "project_docs"@), part@),
    {
        let docs = join_path(self.project_root.as_str(), "project_docs");
        join_path(docs.as_str(), part)
    }

    /// A directory or file under the project root.
    pub fn root_entry(&self, part: &str) -> (r: String)
        ensures
            r@ == joined(self.project_root@, part@),
    {
        join_path(self.project_root.as_str(), part)
    }
}

} // verus!
