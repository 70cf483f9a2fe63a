use vstd::prelude::*;

verus! {

/// Whether two lists of strings hold the same strings in the same order.
pub fn same_strings(a: &Vec<String>, b: &Vec<String>) -> (r: bool)
    ensures
        r == (a.deep_view() == b.deep_view()),
{
    if a.len() != b.len() {
        assert(a.deep_view().len() != b.deep_view().len());
        return false;
    }
    let mut i: usize = 0;
    while i < a.len()
        invariant
            a.len() == b.len(),
            0 <= i <= a.len(),
            forall|j: int| 0 <= j < i ==> a@[j]@ == b@[j]@,
        decreases a.len() - i,
    {
        if a[i] != b[i] {
            assert(a.deep_view()[i as int] != b.deep_view()[i as int]);
            return false;
        }
        i = i + 1;
    }
    assert(a.deep_view() =~= b.deep_view());
    true
}

/// The root configuration of a monorepo: where its packages live.
#[derive(Debug)]
pub struct GlobalConfig {
    pub package_directories: Vec<String>,
}

pub struct GlobalConfigView {
    pub package_directories: Seq<Seq<char>>,
}

impl View for GlobalConfig {
    type V = GlobalConfigView;

    open spec fn view(&self) -> GlobalConfigView {
        GlobalConfigView { package_directories: self.package_directories.deep_view() }
    }
}

impl GlobalConfig {
    pub fn new(package_directories: Vec<String>) -> (r: Self)
        ensures
            r.package_directories == package_directories,
            r@.package_directories == package_directories.deep_view(),
    {
        Self { package_directories }
    }
}

impl PartialEq for GlobalConfig {
    fn eq(&self, other: &GlobalConfig) -> (r: bool) {
        same_strings(&self.package_directories, &other.package_directories)
    }
}

impl vstd::std_specs::cmp::PartialEqSpecImpl for GlobalConfig {
    open spec fn obeys_eq_spec() -> bool {
        true
    }

    open spec fn eq_spec(&self, other: &GlobalConfig) -> bool {
        self@ == other@
    }
}

/// One build task of a package, as its configuration file declares it.
#[derive(Debug)]
pub struct TaskConfig {
    pub depends_on: Vec<String>,
    pub input_files: Vec<String>,
    pub name: String,
    /// The task's options exactly as written in the file, never interpreted.
    pub stringified_options: String,
}

pub struct TaskConfigView {
    pub depends_on: Seq<Seq<char>>,
    pub input_files: Seq<Seq<char>>,
    pub name: Seq<char>,
    pub stringified_options: Seq<char>,
}

impl View for TaskConfig {
    type V = TaskConfigView;

    open spec fn view(&self) -> TaskConfigView {
        TaskConfigView {
            depends_on: self.depends_on.deep_view(),
            input_files: self.input_files.deep_view(),
            name: self.name@,
            stringified_options: self.stringified_options@,
        }
    }
}

impl TaskConfig {
    pub fn new(
        depends_on: Vec<String>,
        input_files: Vec<String>,
        name: String,
        stringified_options: String,
    ) -> (r: Self)
        ensures
            r.depends_on == depends_on,
            r.input_files == input_files,
            r.name == name,
            r.stringified_options == stringified_options,
    {
        Self { depends_on, input_files, name, stringified_options }
    }
}

impl PartialEq for TaskConfig {
    fn eq(&self, other: &TaskConfig) -> (r: bool) {
        same_strings(&self.depends_on, &other.depends_on) && same_strings(
            &self.input_files,
            &other.input_files,
        ) && self.name == other.name && self.stringified_options == other.stringified_options
    }
}

impl vstd::std_specs::cmp::PartialEqSpecImpl for TaskConfig {
    open spec fn obeys_eq_spec() -> bool {
        true
    }

    open spec fn eq_spec(&self, other: &TaskConfig) -> bool {
        self@ == other@
    }
}

/// The configuration of one package: its name, its root and its tasks.
#[derive(Debug)]
pub struct PackageConfig {
    pub name: String,
    pub root: String,
    pub tasks: Vec<TaskConfig>,
}

pub struct PackageConfigView {
    pub name: Seq<char>,
    pub root: Seq<char>,
    pub tasks: Seq<TaskConfigView>,
}

impl View for PackageConfig {
    type V = PackageConfigView;

    open spec fn view(&self) -> PackageConfigView {
        PackageConfigView {
            name: self.name@,
            root: self.root@,
            tasks: self.tasks@.map_values(|t: TaskConfig| t@),
        }
    }
}

impl PackageConfig {
    pub fn new(name: String, root: String, tasks: Vec<TaskConfig>) -> (r: Self)
        ensures
            r.name == name,
            r.root == root,
            r.tasks == tasks,
    {
        Self { name, root, tasks }
    }
}

impl PartialEq for PackageConfig {
    fn eq(&self, other: &PackageConfig) -> (r: bool) {
        if self.name != other.name || self.root != other.root || self.tasks.len()
            != other.tasks.len() {
            assert(self@.name != other@.name || self@.root != other@.root || self@.tasks.len()
                != other@.tasks.len());
            return false;
        }
        let mut i: usize = 0;
        while i < self.tasks.len()
            invariant
                self.tasks.len() == other.tasks.len(),
                0 <= i <= self.tasks.len(),
                forall|j: int| 0 <= j < i ==> self.tasks@[j]@ == other.tasks@[j]@,
            decreases self.tasks.len() - i,
        {
            if self.tasks[i] != other.tasks[i] {
                assert(self@.tasks[i as int] != other@.tasks[i as int]);
                return false;
            }
            i = i + 1;
        }
        assert(self@.tasks =~= other@.tasks);
        true
    }
}

impl vstd::std_specs::cmp::PartialEqSpecImpl for PackageConfig {
    open spec fn obeys_eq_spec() -> bool {
        true
    }

    open spec fn eq_spec(&self, other: &PackageConfig) -> bool {
        self@ == other@
    }
}

} // verus!
