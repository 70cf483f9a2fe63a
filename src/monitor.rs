use vstd::prelude::*;
use vstd::string::StrSliceExecFns;

use crate::error::Error;
use crate::monorepo::MonorepoState;

verus! {

/// The kind of a filesystem change notification.
#[derive(Debug, Clone, Copy, PartialEq, Eq, Structural)]
pub enum FsEventKind {
    Any,
    Access,
    Create,
    Modify,
    Remove,
    Other,
}

/// A filesystem change notification, with the affected paths canonicalized where they still
/// exist.
#[derive(Debug)]
pub struct FsEvent {
    pub kind: FsEventKind,
    pub paths: Vec<String>,
}

/// Which event paths count as touching the watched target.
#[derive(Debug, Clone, Copy, PartialEq, Eq, Structural)]
pub enum TargetMatch {
    /// Only the target path itself.
    ExactPath,
    /// The target path and everything below it.
    WithinTree,
}

/// Whether an event of this kind can change the configuration on disk.
pub open spec fn is_change_kind(kind: FsEventKind) -> bool {
    kind is Create || kind is Modify || kind is Remove
}

/// Whether `path` lies strictly below the directory `dir`.
pub open spec fn is_below(path: Seq<char>, dir: Seq<char>) -> bool {
    &&& dir.len() < path.len()
    &&& path.subrange(0, dir.len() as int) == dir
    &&& (dir.len() > 0 && dir.last() == '/') || path[dir.len() as int] == '/'
}

/// Whether `path` touches `target` under the matching policy `target_match`.
pub open spec fn path_targets(path: Seq<char>, target: Seq<char>, target_match: TargetMatch) -> bool {
    match target_match {
        TargetMatch::ExactPath => path == target,
        TargetMatch::WithinTree => path == target || is_below(path, target),
    }
}

/// Whether some path of an event touches `target`.
pub open spec fn paths_target(
    paths: Seq<Seq<char>>,
    target: Seq<char>,
    target_match: TargetMatch,
) -> bool {
    exists|i: int| 0 <= i < paths.len() && path_targets(#[trigger] paths[i], target, target_match)
}

/// Whether `path` lies strictly below the directory `dir`.
fn is_below_exec(path: &str, dir: &str) -> (r: bool)
    ensures
        r == is_below(path@, dir@),
{
    let path_len = path.unicode_len();
    let dir_len = dir.unicode_len();
    if dir_len >= path_len {
        return false;
    }
    let mut i: usize = 0;
    while i < dir_len
        invariant
            dir_len == dir@.len(),
            path_len == path@.len(),
            dir_len < path_len,
            0 <= i <= dir_len,
            forall|j: int| 0 <= j < i ==> path@[j] == dir@[j],
        decreases dir_len - i,
    {
        if path.get_char(i) != dir.get_char(i) {
            assert(path@.subrange(0, dir_len as int)[i as int] != dir@[i as int]);
            return false;
        }
        i = i + 1;
    }
    assert(path@.subrange(0, dir_len as int) =~= dir@);
    (dir_len > 0 && dir.get_char(dir_len - 1) == '/') || path.get_char(dir_len) == '/'
}

/// Keeps a shared monorepo snapshot fresh: decides which filesystem events call for a rebuild,
/// and puts the outcome of a rebuild into the cache.
pub struct MonitorMonorepoStateAdapter {
    root_directory: String,
    target: String,
    target_match: TargetMatch,
}

impl MonitorMonorepoStateAdapter {
    pub closed spec fn root_directory_spec(&self) -> Seq<char> {
        self.root_directory@
    }

    pub closed spec fn target_spec(&self) -> Seq<char> {
        self.target@
    }

    pub closed spec fn target_match_spec(&self) -> TargetMatch {
        self.target_match
    }

    /// Whether an event of `kind` touching `paths` calls for a rebuild.
    pub open spec fn rebuild_wanted(&self, kind: FsEventKind, paths: Seq<Seq<char>>) -> bool {
        is_change_kind(kind) && paths_target(paths, self.target_spec(), self.target_match_spec())
    }

    /// An adapter for the monorepo rooted at `root_directory` that rebuilds when `target`
    /// (canonical, most often the root configuration file) is touched.
    pub fn new(root_directory: String, target: String, target_match: TargetMatch) -> (r: Self)
        ensures
            r.root_directory_spec() == root_directory@,
            r.target_spec() == target@,
            r.target_match_spec() == target_match,
    {
        Self { root_directory, target, target_match }
    }

    pub fn root_directory(&self) -> (r: &String)
        ensures
            r@ == self.root_directory_spec(),
    {
        &self.root_directory
    }

    pub fn target(&self) -> (r: &String)
        ensures
            r@ == self.target_spec(),
    {
        &self.target
    }

    /// Whether an event of this kind can change the configuration: creations, modifications
    /// and removals can; accesses and other notifications cannot.
    pub fn should_invalidate_cache(kind: FsEventKind) -> (r: bool)
        ensures
            r == is_change_kind(kind),
    {
        match kind {
            FsEventKind::Create => true,
            FsEventKind::Modify => true,
            FsEventKind::Remove => true,
            _ => false,
        }
    }

    /// Whether some path of the event touches the watched target.
    pub fn is_event_targeting_path(&self, event: &FsEvent) -> (r: bool)
        ensures
            r == paths_target(event.paths.deep_view(), self.target_spec(), self.target_match_spec()),
    {
        let ghost paths = event.paths.deep_view();
        let mut i: usize = 0;
        while i < event.paths.len()
            invariant
                0 <= i <= event.paths.len(),
                paths == event.paths.deep_view(),
                forall|j: int|
                    0 <= j < i ==> !path_targets(
                        #[trigger] paths[j],
                        self.target_spec(),
                        self.target_match_spec(),
                    ),
            decreases event.paths.len() - i,
        {
            let path = &event.paths[i];
            let hit = match self.target_match {
                TargetMatch::ExactPath => *path == self.target,
                TargetMatch::WithinTree => *path == self.target || is_below_exec(
                    path.as_str(),
                    self.target.as_str(),
                ),
            };
            if hit {
                assert(path_targets(paths[i as int], self.target_spec(), self.target_match_spec()));
                return true;
            }
            i = i + 1;
        }
        false
    }

    /// Whether the event calls for a rebuild: a change of kind, on the watched target.
    pub fn wants_rebuild(&self, event: &FsEvent) -> (r: bool)
        ensures
            r == self.rebuild_wanted(event.kind, event.paths.deep_view()),
    {
        Self::should_invalidate_cache(event.kind) && self.is_event_targeting_path(event)
    }

    /// Puts the outcome of a rebuild into the cache. A new snapshot replaces the old one whole;
    /// a failure leaves the cache as it was and is handed back for the error sink.
    pub fn install(
        &self,
        cache: &mut Option<MonorepoState>,
        rebuilt: Result<MonorepoState, Error>,
    ) -> (r: Option<Error>)
        ensures
            rebuilt is Ok ==> *final(cache) == Some(rebuilt->Ok_0) && r is None,
            rebuilt is Err ==> *final(cache) == *old(cache) && r == Some(rebuilt->Err_0),
    {
        match rebuilt {
            Ok(monorepo_state) => {
                *cache = Some(monorepo_state);
                None
            },
            Err(error) => Some(error),
        }
    }
}

/// An event that touches no watched path never calls for a rebuild, whatever its kind.
pub proof fn lemma_irrelevant_event_ignored(
    adapter: MonitorMonorepoStateAdapter,
    kind: FsEventKind,
    paths: Seq<Seq<char>>,
)
    requires
        forall|i: int|
            0 <= i < paths.len() ==> !path_targets(
                #[trigger] paths[i],
                adapter.target_spec(),
                adapter.target_match_spec(),
            ),
    ensures
        !adapter.rebuild_wanted(kind, paths),
{
}

} // verus!
