use vstd::prelude::*;

use crate::config::{
    GlobalConfig, GlobalConfigView, PackageConfig, PackageConfigView, TaskConfig, TaskConfigView,
};
use crate::error::Error;
use crate::json::{
    json_array_items, json_object_members, json_string_value, parse_array_items,
    parse_object_members, parse_string, JsonMember,
};

verus! {

/// The text of the value of the first member named `key`, looking from index `i` on.
pub open spec fn member_value_from(
    members: Seq<(Seq<char>, Seq<char>)>,
    key: Seq<char>,
    i: int,
) -> Option<Seq<char>>
    decreases members.len() - i,
{
    if i < 0 || i >= members.len() {
        None
    } else if members[i].0 == key {
        Some(members[i].1)
    } else {
        member_value_from(members, key, i + 1)
    }
}

/// The text of the value of the member named `key`, if the object has one.
pub open spec fn member_value(members: Seq<(Seq<char>, Seq<char>)>, key: Seq<char>) -> Option<
    Seq<char>,
> {
    member_value_from(members, key, 0)
}

/// The strings of a JSON array whose items are all strings.
pub open spec fn string_list_of(text: Seq<char>) -> Option<Seq<Seq<char>>> {
    match json_array_items(text) {
        None => None,
        Some(items) => if forall|i: int|
            0 <= i < items.len() ==> (#[trigger] json_string_value(items[i])) is Some {
            Some(items.map_values(|item: Seq<char>| json_string_value(item)->0))
        } else {
            None
        },
    }
}

/// The root configuration that a JSON text describes: an object whose member
/// `packageDirectories` is an array of strings; other members are ignored.
pub open spec fn global_config_of(text: Seq<char>) -> Option<GlobalConfigView> {
    match json_object_members(text) {
        None => None,
        Some(members) => match member_value(members, "packageDirectories"@) {
            None => None,
            Some(raw) => match string_list_of(raw) {
                None => None,
                Some(directories) => Some(GlobalConfigView { package_directories: directories }),
            },
        },
    }
}

/// The task that a JSON text describes: an object with the string arrays `depends_on` and
/// `inputFiles`, the string `name`, and `options` of any shape, kept as written.
pub open spec fn task_config_of(text: Seq<char>) -> Option<TaskConfigView> {
    match json_object_members(text) {
        None => None,
        Some(m) => match (
            member_value(m, "depends_on"@),
            member_value(m, "inputFiles"@),
            member_value(m, "name"@),
            member_value(m, "options"@),
        ) {
            (Some(d), Some(f), Some(n), Some(o)) => match (
                string_list_of(d),
                string_list_of(f),
                json_string_value(n),
            ) {
                (Some(dv), Some(fv), Some(nv)) => Some(
                    TaskConfigView {
                        depends_on: dv,
                        input_files: fv,
                        name: nv,
                        stringified_options: o,
                    },
                ),
                _ => None,
            },
            _ => None,
        },
    }
}

/// The tasks of a JSON array whose items all describe tasks.
pub open spec fn task_list_of(text: Seq<char>) -> Option<Seq<TaskConfigView>> {
    match json_array_items(text) {
        None => None,
        Some(items) => if forall|i: int|
            0 <= i < items.len() ==> (#[trigger] task_config_of(items[i])) is Some {
            Some(items.map_values(|item: Seq<char>| task_config_of(item)->0))
        } else {
            None
        },
    }
}

/// The package configuration that a JSON text describes: an object with the strings `name`
/// and `root` and the array `tasks`.
pub open spec fn package_config_of(text: Seq<char>) -> Option<PackageConfigView> {
    match json_object_members(text) {
        None => None,
        Some(m) => match (member_value(m, "name"@), member_value(m, "root"@), member_value(
            m,
            "tasks"@,
        )) {
            (Some(n), Some(r), Some(t)) => match (
                json_string_value(n),
                json_string_value(r),
                task_list_of(t),
            ) {
                (Some(nv), Some(rv), Some(tv)) => Some(
                    PackageConfigView { name: nv, root: rv, tasks: tv },
                ),
                _ => None,
            },
            _ => None,
        },
    }
}

pub open spec fn members_view(members: Seq<JsonMember>) -> Seq<(Seq<char>, Seq<char>)> {
    members.map_values(|m: JsonMember| m@)
}

/// The text of the value of the member named `key`.
fn find_member(members: &Vec<JsonMember>, key: &str) -> (r: Option<String>)
    ensures
        r is Some <==> member_value(members_view(members@), key@) is Some,
        r is Some ==> member_value(members_view(members@), key@) == Some(r->0@),
{
    let ghost mv = members_view(members@);
    let wanted: String = key.to_owned();
    let mut i: usize = 0;
    while i < members.len()
        invariant
            0 <= i <= members.len(),
            mv == members_view(members@),
            wanted@ == key@,
            member_value(mv, key@) == member_value_from(mv, key@, i as int),
        decreases members.len() - i,
    {
        if members[i].key == wanted {
            return Some(members[i].raw_value.clone());
        }
        i = i + 1;
    }
    None
}

fn missing_member(key: &str) -> (r: Error)
    ensures
        r.code() is Malformed,
{
    Error::malformed(key.to_owned())
}

/// Decodes a JSON array of strings.
fn decode_string_list(text: &str) -> (r: Result<Vec<String>, Error>)
    ensures
        r is Ok <==> string_list_of(text@) is Some,
        r is Ok ==> string_list_of(text@) == Some(r->Ok_0.deep_view()),
        r is Err ==> r->Err_0.code() is Malformed,
{
    let items = match parse_array_items(text) {
        Ok(items) => items,
        Err(detail) => return Err(Error::malformed(detail)),
    };
    let ghost iv = items.deep_view();
    let mut strings: Vec<String> = Vec::new();
    let mut i: usize = 0;
    while i < items.len()
        invariant
            0 <= i <= items.len(),
            iv == items.deep_view(),
            json_array_items(text@) == Some(iv),
            strings@.len() == i,
            forall|j: int| 0 <= j < i ==> (#[trigger] json_string_value(iv[j])) is Some,
            forall|j: int| 0 <= j < i ==> json_string_value(iv[j]) == Some(#[trigger] strings@[j]@),
        decreases items.len() - i,
    {
        match parse_string(items[i].as_str()) {
            Ok(s) => {
                strings.push(s);
            },
            Err(detail) => {
                assert(json_string_value(iv[i as int]) is None);
                return Err(Error::malformed(detail));
            },
        }
        i = i + 1;
    }
    assert(strings.deep_view() =~= iv.map_values(|item: Seq<char>| json_string_value(item)->0));
    Ok(strings)
}

/// The root configuration file as JSON lays it out.
pub struct GlobalConfigSerdeJson {
    pub package_directories: Vec<String>,
}

impl View for GlobalConfigSerdeJson {
    type V = GlobalConfigView;

    open spec fn view(&self) -> GlobalConfigView {
        GlobalConfigView { package_directories: self.package_directories.deep_view() }
    }
}

/// One task of a package configuration file as JSON lays it out.
pub struct TaskConfigSerdeJson {
    pub depends_on: Vec<String>,
    pub input_files: Vec<String>,
    pub name: String,
    pub stringified_options: String,
}

impl View for TaskConfigSerdeJson {
    type V = TaskConfigView;

    open spec fn view(&self) -> TaskConfigView {
        TaskConfigView {
            depends_on: self.depends_on.deep_view(),
            input_files: self.input_files.deep_view(),
            name: self.name@,
            stringified_options: self.stringified_options@,
        }
    }
}

/// A package configuration file as JSON lays it out.
pub struct PackageConfigSerdeJson {
    pub name: String,
    pub root: String,
    pub tasks: Vec<TaskConfigSerdeJson>,
}

impl View for PackageConfigSerdeJson {
    type V = PackageConfigView;

    open spec fn view(&self) -> PackageConfigView {
        PackageConfigView {
            name: self.name@,
            root: self.root@,
            tasks: self.tasks@.map_values(|t: TaskConfigSerdeJson| t@),
        }
    }
}

/// Reads the root configuration out of its JSON text.
pub fn global_config_serde_json_from_str(text: &str) -> (r: Result<GlobalConfigSerdeJson, Error>)
    ensures
        r is Ok <==> global_config_of(text@) is Some,
        r is Ok ==> global_config_of(text@) == Some(r->Ok_0@),
        r is Err ==> r->Err_0.code() is Malformed,
{
    let members = match parse_object_members(text) {
        Ok(members) => members,
        Err(detail) => return Err(Error::malformed(detail)),
    };
    let raw = match find_member(&members, "packageDirectories") {
        Some(raw) => raw,
        None => return Err(missing_member("packageDirectories")),
    };
    let package_directories = decode_string_list(raw.as_str())?;
    Ok(GlobalConfigSerdeJson { package_directories })
}

/// Reads one task out of its JSON text.
pub fn task_config_serde_json_from_str(text: &str) -> (r: Result<TaskConfigSerdeJson, Error>)
    ensures
        r is Ok <==> task_config_of(text@) is Some,
        r is Ok ==> task_config_of(text@) == Some(r->Ok_0@),
        r is Err ==> r->Err_0.code() is Malformed,
{
    let members = match parse_object_members(text) {
        Ok(members) => members,
        Err(detail) => return Err(Error::malformed(detail)),
    };
    let raw_depends_on = match find_member(&members, "depends_on") {
        Some(raw) => raw,
        None => return Err(missing_member("depends_on")),
    };
    let raw_input_files = match find_member(&members, "inputFiles") {
        Some(raw) => raw,
        None => return Err(missing_member("inputFiles")),
    };
    let raw_name = match find_member(&members, "name") {
        Some(raw) => raw,
        None => return Err(missing_member("name")),
    };
    let stringified_options = match find_member(&members, "options") {
        Some(raw) => raw,
        None => return Err(missing_member("options")),
    };
    let depends_on = decode_string_list(raw_depends_on.as_str())?;
    let input_files = decode_string_list(raw_input_files.as_str())?;
    let name = match parse_string(raw_name.as_str()) {
        Ok(name) => name,
        Err(detail) => return Err(Error::malformed(detail)),
    };
    Ok(TaskConfigSerdeJson { depends_on, input_files, name, stringified_options })
}

/// Reads a package configuration out of its JSON text.
pub fn package_config_serde_json_from_str(text: &str) -> (r: Result<
    PackageConfigSerdeJson,
    Error,
>)
    ensures
        r is Ok <==> package_config_of(text@) is Some,
        r is Ok ==> package_config_of(text@) == Some(r->Ok_0@),
        r is Err ==> r->Err_0.code() is Malformed,
{
    let members = match parse_object_members(text) {
        Ok(members) => members,
        Err(detail) => return Err(Error::malformed(detail)),
    };
    let raw_name = match find_member(&members, "name") {
        Some(raw) => raw,
        None => return Err(missing_member("name")),
    };
    let raw_root = match find_member(&members, "root") {
        Some(raw) => raw,
        None => return Err(missing_member("root")),
    };
    let raw_tasks = match find_member(&members, "tasks") {
        Some(raw) => raw,
        None => return Err(missing_member("tasks")),
    };
    let name = match parse_string(raw_name.as_str()) {
        Ok(name) => name,
        Err(detail) => return Err(Error::malformed(detail)),
    };
    let root = match parse_string(raw_root.as_str()) {
        Ok(root) => root,
        Err(detail) => return Err(Error::malformed(detail)),
    };
    let items = match parse_array_items(raw_tasks.as_str()) {
        Ok(items) => items,
        Err(detail) => return Err(Error::malformed(detail)),
    };
    let ghost iv = items.deep_view();
    let mut tasks: Vec<TaskConfigSerdeJson> = Vec::new();
    let mut i: usize = 0;
    while i < items.len()
        invariant
            0 <= i <= items.len(),
            iv == items.deep_view(),
            json_array_items(raw_tasks@) == Some(iv),
            json_object_members(text@) == Some(members_view(members@)),
            member_value(members_view(members@), "tasks"@) == Some(raw_tasks@),
            tasks@.len() == i,
            forall|j: int| 0 <= j < i ==> (#[trigger] task_config_of(iv[j])) is Some,
            forall|j: int| 0 <= j < i ==> task_config_of(iv[j]) == Some(#[trigger] tasks@[j]@),
        decreases items.len() - i,
    {
        match task_config_serde_json_from_str(items[i].as_str()) {
            Ok(task) => {
                tasks.push(task);
            },
            Err(error) => {
                assert(task_config_of(iv[i as int]) is None);
                return Err(error);
            },
        }
        i = i + 1;
    }
    let r = PackageConfigSerdeJson { name, root, tasks };
    assert(r@.tasks =~= iv.map_values(|item: Seq<char>| task_config_of(item)->0));
    Ok(r)
}

pub fn global_config_serde_json_to_global_config_conversion(
    global_config_serde_json: GlobalConfigSerdeJson,
) -> (r: GlobalConfig)
    ensures
        r@ == global_config_serde_json@,
{
    GlobalConfig::new(global_config_serde_json.package_directories)
}

pub fn task_config_serde_json_to_task_config_conversion(
    task_config_serde_json: TaskConfigSerdeJson,
) -> (r: TaskConfig)
    ensures
        r@ == task_config_serde_json@,
{
    TaskConfig::new(
        task_config_serde_json.depends_on,
        task_config_serde_json.input_files,
        task_config_serde_json.name,
        task_config_serde_json.stringified_options,
    )
}

pub fn package_config_serde_json_to_package_config_conversion(
    package_config_serde_json: PackageConfigSerdeJson,
) -> (r: PackageConfig)
    ensures
        r@ == package_config_serde_json@,
{
    let PackageConfigSerdeJson { name, root, tasks: task_jsons } = package_config_serde_json;
    let ghost source = task_jsons@;
    let mut tasks: Vec<TaskConfig> = Vec::new();
    let mut rest: Vec<TaskConfigSerdeJson> = task_jsons;
    while rest.len() > 0
        invariant
            tasks@.len() + rest@.len() == source.len(),
            rest@ == source.subrange(tasks@.len() as int, source.len() as int),
            forall|j: int| 0 <= j < tasks@.len() ==> #[trigger] tasks@[j]@ == source[j]@,
        decreases rest.len(),
    {
        let task_json = rest.remove(0);
        tasks.push(task_config_serde_json_to_task_config_conversion(task_json));
    }
    let r = PackageConfig::new(name, root, tasks);
    assert(r@.tasks =~= package_config_serde_json@.tasks);
    r
}

/// Parses the contents of a root configuration file.
pub fn global_config_build(stringified_global_config: String) -> (r: Result<GlobalConfig, Error>)
    ensures
        r is Ok <==> global_config_of(stringified_global_config@) is Some,
        r is Ok ==> global_config_of(stringified_global_config@) == Some(r->Ok_0@),
        r is Err ==> r->Err_0.code() is Malformed,
{
    let global_config_serde_json = global_config_serde_json_from_str(
        stringified_global_config.as_str(),
    )?;
    Ok(global_config_serde_json_to_global_config_conversion(global_config_serde_json))
}

/// Parses the contents of a package configuration file.
pub fn package_config_build(stringified_package_config: String) -> (r: Result<
    PackageConfig,
    Error,
>)
    ensures
        r is Ok <==> package_config_of(stringified_package_config@) is Some,
        r is Ok ==> package_config_of(stringified_package_config@) == Some(r->Ok_0@),
        r is Err ==> r->Err_0.code() is Malformed,
{
    let package_config_serde_json = package_config_serde_json_from_str(
        stringified_package_config.as_str(),
    )?;
    Ok(package_config_serde_json_to_package_config_conversion(package_config_serde_json))
}

/// Parses the root configuration from what reading its file gave; a failed read is passed on.
pub fn parse_global_config_adapt(global_config_raw: Result<String, Error>) -> (r: Result<
    GlobalConfig,
    Error,
>)
    ensures
        global_config_raw is Err ==> r == Err::<GlobalConfig, Error>(global_config_raw->Err_0),
        global_config_raw is Ok ==> (r is Ok <==> global_config_of(global_config_raw->Ok_0@) is Some),
        r is Ok ==> global_config_of(global_config_raw->Ok_0@) == Some(r->Ok_0@),
        global_config_raw is Ok && r is Err ==> r->Err_0.code() is Malformed,
{
    match global_config_raw {
        Ok(text) => global_config_build(text),
        Err(error) => Err(error),
    }
}

/// Parses a package configuration from what reading its file gave; a failed read is passed on.
pub fn parse_package_config_adapt(package_config_raw: Result<String, Error>) -> (r: Result<
    PackageConfig,
    Error,
>)
    ensures
        package_config_raw is Err ==> r == Err::<PackageConfig, Error>(package_config_raw->Err_0),
        package_config_raw is Ok ==> (r is Ok <==> package_config_of(package_config_raw->Ok_0@) is Some),
        r is Ok ==> package_config_of(package_config_raw->Ok_0@) == Some(r->Ok_0@),
        package_config_raw is Ok && r is Err ==> r->Err_0.code() is Malformed,
{
    match package_config_raw {
        Ok(text) => package_config_build(text),
        Err(error) => Err(error),
    }
}

} // verus!
