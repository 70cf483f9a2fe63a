use vstd::prelude::*;

use crate::config::{PackageConfig, PackageConfigView, TaskConfig, TaskConfigView};

verus! {

/// A task as the daemon keeps it: its configuration plus whether its outputs are known fresh.
#[derive(Debug)]
pub struct TaskState {
    pub depends_on: Vec<String>,
    pub input_files: Vec<String>,
    pub is_synched: bool,
    pub name: String,
    pub stringified_options: String,
}

pub struct TaskStateView {
    pub depends_on: Seq<Seq<char>>,
    pub input_files: Seq<Seq<char>>,
    pub is_synched: bool,
    pub name: Seq<char>,
    pub stringified_options: Seq<char>,
}

impl View for TaskState {
    type V = TaskStateView;

    open spec fn view(&self) -> TaskStateView {
        TaskStateView {
            depends_on: self.depends_on.deep_view(),
            input_files: self.input_files.deep_view(),
            is_synched: self.is_synched,
            name: self.name@,
            stringified_options: self.stringified_options@,
        }
    }
}

impl TaskState {
    pub fn new(
        depends_on: Vec<String>,
        input_files: Vec<String>,
        is_synched: bool,
        name: String,
        stringified_options: String,
    ) -> (r: Self)
        ensures
            r.depends_on == depends_on,
            r.input_files == input_files,
            r.is_synched == is_synched,
            r.name == name,
            r.stringified_options == stringified_options,
    {
        Self { depends_on, input_files, is_synched, name, stringified_options }
    }
}

/// The state a freshly configured task starts in: everything copied, not yet synched.
pub open spec fn task_state_of(config: TaskConfigView) -> TaskStateView {
    TaskStateView {
        depends_on: config.depends_on,
        input_files: config.input_files,
        is_synched: false,
        name: config.name,
        stringified_options: config.stringified_options,
    }
}

pub fn task_config_to_task_state(task_config: TaskConfig) -> (r: TaskState)
    ensures
        r@ == task_state_of(task_config@),
{
    TaskState::new(
        task_config.depends_on,
        task_config.input_files,
        false,
        task_config.name,
        task_config.stringified_options,
    )
}

/// A package as the daemon keeps it, identified by its canonical root.
#[derive(Debug)]
pub struct PackageState {
    pub name: String,
    pub root: String,
    pub tasks: Vec<TaskState>,
}

pub struct PackageStateView {
    pub name: Seq<char>,
    pub root: Seq<char>,
    pub tasks: Seq<TaskStateView>,
}

impl View for PackageState {
    type V = PackageStateView;

    open spec fn view(&self) -> PackageStateView {
        PackageStateView {
            name: self.name@,
            root: self.root@,
            tasks: self.tasks@.map_values(|t: TaskState| t@),
        }
    }
}

impl PackageState {
    pub fn new(name: String, root: String, tasks: Vec<TaskState>) -> (r: Self)
        ensures
            r.name == name,
            r.root == root,
            r.tasks == tasks,
    {
        Self { name, root, tasks }
    }
}

/// The state of the package whose configuration was found under `root`.
pub open spec fn package_state_of(root: Seq<char>, config: PackageConfigView) -> PackageStateView {
    PackageStateView {
        name: config.name,
        root,
        tasks: config.tasks.map_values(|t: TaskConfigView| task_state_of(t)),
    }
}

/// Turns the configuration found in the canonical directory `root` into a package state.
pub fn package_config_to_package_state(root: String, package_config: PackageConfig) -> (r:
    PackageState)
    ensures
        r@ == package_state_of(root@, package_config@),
{
    let PackageConfig { name, root: _, tasks: task_configs } = package_config;
    let mut tasks: Vec<TaskState> = Vec::new();
    let mut rest: Vec<TaskConfig> = task_configs;
    while rest.len() > 0
        invariant
            tasks@.len() + rest@.len() == package_config.tasks@.len(),
            rest@ == package_config.tasks@.subrange(
                tasks@.len() as int,
                package_config.tasks@.len() as int,
            ),
            forall|j: int|
                0 <= j < tasks@.len() ==> #[trigger] tasks@[j]@ == task_state_of(
                    package_config.tasks@[j]@,
                ),
        decreases rest.len(),
    {
        let task_config = rest.remove(0);
        tasks.push(task_config_to_task_state(task_config));
    }
    let r = PackageState::new(name, root, tasks);
    assert(r@.tasks =~= package_config@.tasks.map_values(|t: TaskConfigView| task_state_of(t)));
    r
}

/// A sequence without repeats holds each of its elements at exactly one index.
proof fn lemma_index_of_unique<A>(s: Seq<A>, i: int)
    requires
        s.no_duplicates(),
        0 <= i < s.len(),
    ensures
        s.index_of(s[i]) == i,
{
    let j = s.index_of(s[i]);
    assert(0 <= j < s.len() && s[j] == s[i]);
}

/// Package states keyed by their canonical roots; no two entries share a root.
#[derive(Debug)]
pub struct PackageStateMap {
    entries: Vec<PackageState>,
}

impl PackageStateMap {
    /// The roots of the entries, in the order the entries are held.
    pub closed spec fn roots(&self) -> Seq<Seq<char>> {
        self.entries@.map_values(|p: PackageState| p.root@)
    }

    #[verifier::type_invariant]
    spec fn roots_unique(&self) -> bool {
        self.roots().no_duplicates()
    }

    pub fn new() -> (r: Self)
        ensures
            r@ == Map::<Seq<char>, PackageStateView>::empty(),
    {
        let r = Self { entries: Vec::new() };
        assert(r@ =~= Map::<Seq<char>, PackageStateView>::empty());
        r
    }

    /// Adds a package under its root, replacing any package already held there.
    pub fn insert(&mut self, package_state: PackageState)
        ensures
            final(self)@ == old(self)@.insert(package_state@.root, package_state@),
    {
        proof {
            use_type_invariant(&*self);
        }
        let ghost old_roots = self.roots();
        let ghost key = package_state@.root;
        let mut i: usize = 0;
        while i < self.entries.len()
            invariant
                0 <= i <= self.entries.len(),
                self.roots() == old_roots,
                old_roots.no_duplicates(),
                key == package_state@.root,
                self.entries@ == old(self).entries@,
                forall|j: int| 0 <= j < i ==> old_roots[j] != key,
            decreases self.entries.len() - i,
        {
            if self.entries[i].root == package_state.root {
                let ghost before = self.entries@;
                let ghost target = old(self)@.insert(key, package_state@);
                let ghost pv = package_state@;
                let mut taken = PackageStateMap::new();
                std::mem::swap(self, &mut taken);
                let PackageStateMap { mut entries } = taken;
                entries.set(i, package_state);
                assert(entries@.map_values(|p: PackageState| p.root@) =~= old_roots);
                *self = PackageStateMap { entries };
                proof {
                    assert(self.roots() =~= old_roots);
                    assert(old_roots[i as int] == key);
                    assert forall|k: Seq<char>| #[trigger] self@.contains_key(k) implies self@[k]
                        == target[k] by {
                        let j = old_roots.index_of(k);
                        assert(0 <= j < old_roots.len() && old_roots[j] == k);
                        if j != i {
                            assert(old_roots[j] != old_roots[i as int]);
                            assert(self.entries@[j] == before[j]);
                        } else {
                            assert(self.entries@[j]@ == pv);
                        }
                    };
                    assert(self@.dom() =~= target.dom());
                    assert(self@ =~= target);
                }
                return;
            }
            assert(old_roots[i as int] == self.entries@[i as int].root@);
            i = i + 1;
        }
        let ghost before = self.entries@;
        let ghost pv = package_state@;
        let mut taken = PackageStateMap::new();
        std::mem::swap(self, &mut taken);
        let PackageStateMap { mut entries } = taken;
        entries.push(package_state);
        assert(entries@.map_values(|p: PackageState| p.root@) =~= old_roots.push(key));
        *self = PackageStateMap { entries };
        proof {
            let target = old(self)@.insert(key, pv);
            let new_roots = self.roots();
            assert(new_roots =~= old_roots.push(key));
            assert forall|k: Seq<char>| #[trigger] self@.contains_key(k) implies self@[k]
                == target[k] by {
                let j = new_roots.index_of(k);
                assert(0 <= j < new_roots.len() && new_roots[j] == k);
                if k != key {
                    assert(j < old_roots.len());
                    assert(old_roots[j] == k);
                    lemma_index_of_unique(old_roots, j);
                    assert(self.entries@[j] == before[j]);
                } else {
                    assert(j == old_roots.len());
                    assert(self.entries@[j]@ == pv);
                }
            };
            assert forall|k: Seq<char>| #[trigger] new_roots.contains(k) == (old_roots.contains(k)
                || k == key) by {
                if old_roots.contains(k) {
                    let j = old_roots.index_of(k);
                    assert(new_roots[j] == k);
                }
                if k == key {
                    assert(new_roots[old_roots.len() as int] == key);
                }
                if new_roots.contains(k) {
                    let j = new_roots.index_of(k);
                    if j < old_roots.len() {
                        assert(old_roots[j] == k);
                    }
                }
            };
            assert(self@.dom() =~= target.dom());
            assert(self@ =~= target);
        }
    }

    /// The package held under `root`, if any.
    pub fn get(&self, root: &String) -> (r: Option<&PackageState>)
        ensures
            r is Some <==> self@.contains_key(root@),
            r is Some ==> r->0@ == self@[root@],
    {
        proof {
            use_type_invariant(self);
        }
        let mut i: usize = 0;
        while i < self.entries.len()
            invariant
                0 <= i <= self.entries.len(),
                self.roots().no_duplicates(),
                forall|j: int| 0 <= j < i ==> self.roots()[j] != root@,
            decreases self.entries.len() - i,
        {
            if self.entries[i].root == *root {
                proof {
                    lemma_index_of_unique(self.roots(), i as int);
                }
                return Some(&self.entries[i]);
            }
            i = i + 1;
        }
        None
    }

    /// How many packages are held.
    pub fn len(&self) -> (r: usize)
        ensures
            r == self@.len(),
    {
        proof {
            use_type_invariant(self);
            assert(self@.dom() =~= self.roots().to_set());
            self.roots().unique_seq_to_set();
        }
        self.entries.len()
    }
}

impl View for PackageStateMap {
    type V = Map<Seq<char>, PackageStateView>;

    closed spec fn view(&self) -> Map<Seq<char>, PackageStateView> {
        Map::new(
            |k: Seq<char>| self.roots().contains(k),
            |k: Seq<char>| self.entries@[self.roots().index_of(k)]@,
        )
    }
}

} // verus!
