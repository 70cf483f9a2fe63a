use vstd::prelude::*;

use crate::config::{GlobalConfig, GlobalConfigView};
use crate::config_json::{
    global_config_of, package_config_of, parse_global_config_adapt, parse_package_config_adapt,
};
use crate::error::Error;
use crate::state::{
    package_config_to_package_state, package_state_of, PackageState, PackageStateMap,
    PackageStateView,
};

verus! {

/// A snapshot of the whole monorepo: replaced as a whole, never edited in place.
#[derive(Debug)]
pub struct MonorepoState {
    pub global_config: GlobalConfig,
    pub package_path_to_state_map: PackageStateMap,
    pub root_directory: String,
}

pub struct MonorepoStateView {
    pub global_config: GlobalConfigView,
    pub packages: Map<Seq<char>, PackageStateView>,
    pub root_directory: Seq<char>,
}

impl View for MonorepoState {
    type V = MonorepoStateView;

    open spec fn view(&self) -> MonorepoStateView {
        MonorepoStateView {
            global_config: self.global_config@,
            packages: self.package_path_to_state_map@,
            root_directory: self.root_directory@,
        }
    }
}

impl MonorepoState {
    pub fn new(
        global_config: GlobalConfig,
        package_path_to_state_map: PackageStateMap,
        root_directory: String,
    ) -> (r: Self)
        ensures
            r.global_config == global_config,
            r.package_path_to_state_map == package_path_to_state_map,
            r.root_directory == root_directory,
    {
        Self { global_config, package_path_to_state_map, root_directory }
    }
}

/// A package directory, already canonicalized, with what reading its configuration file gave.
#[derive(Debug)]
pub struct PackageSource {
    pub directory: String,
    pub contents: Result<String, Error>,
}

impl PackageSource {
    pub fn new(directory: String, contents: Result<String, Error>) -> (r: Self)
        ensures
            r.directory == directory,
            r.contents == contents,
    {
        Self { directory, contents }
    }
}

/// The package that a source yields, if its file was read and its contents parse.
pub open spec fn package_source_state(source: PackageSource) -> Option<PackageStateView> {
    match source.contents {
        Ok(text) => match package_config_of(text@) {
            Some(config) => Some(package_state_of(source.directory@, config)),
            None => None,
        },
        Err(_) => None,
    }
}

/// The packages of a list of sources, keyed by directory: a source that fails is left out,
/// and of two sources with one directory the later wins.
pub open spec fn package_map_of(sources: Seq<PackageSource>) -> Map<Seq<char>, PackageStateView>
    decreases sources.len(),
{
    if sources.len() == 0 {
        Map::empty()
    } else {
        let rest = package_map_of(sources.drop_last());
        match package_source_state(sources.last()) {
            Some(p) => rest.insert(p.root, p),
            None => rest,
        }
    }
}

/// The packages of a list of package states, keyed by root; the later of two equal roots wins.
pub open spec fn states_map_of(states: Seq<PackageStateView>) -> Map<Seq<char>, PackageStateView>
    decreases states.len(),
{
    if states.len() == 0 {
        Map::empty()
    } else {
        states_map_of(states.drop_last()).insert(states.last().root, states.last())
    }
}

/// Builds the state of the package in the canonical directory `directory` from what reading
/// its configuration file gave; a failed read is passed on.
pub fn package_state_build(directory: String, package_config_raw: Result<String, Error>) -> (r:
    Result<PackageState, Error>)
    ensures
        package_config_raw is Err ==> r is Err && r->Err_0 == package_config_raw->Err_0,
        package_config_raw is Ok ==> (r is Ok <==> package_config_of(package_config_raw->Ok_0@)
            is Some),
        package_config_raw is Ok && r is Err ==> r->Err_0.code() is Malformed,
        r is Ok ==> r->Ok_0@ == package_state_of(
            directory@,
            package_config_of(package_config_raw->Ok_0@)->0,
        ),
{
    let package_config = parse_package_config_adapt(package_config_raw)?;
    Ok(package_config_to_package_state(directory, package_config))
}

/// Keys package states by their roots; the later of two equal roots wins.
pub fn package_states_to_package_path_to_state_map(package_states: Vec<PackageState>) -> (r:
    PackageStateMap)
    ensures
        r@ == states_map_of(package_states@.map_values(|p: PackageState| p@)),
{
    let ghost all = package_states@;
    let mut map = PackageStateMap::new();
    let mut rest = package_states;
    let ghost mut i: int = 0;
    while rest.len() > 0
        invariant
            0 <= i <= all.len(),
            i + rest@.len() == all.len(),
            rest@ == all.subrange(i as int, all.len() as int),
            map@ == states_map_of(all.subrange(0, i as int).map_values(|p: PackageState| p@)),
        decreases rest.len(),
    {
        let package_state = rest.remove(0);
        proof {
            let done = all.subrange(0, i as int + 1).map_values(|p: PackageState| p@);
            assert(done.drop_last() =~= all.subrange(0, i as int).map_values(
                |p: PackageState| p@,
            ));
            assert(done.last() == package_state@);
        }
        map.insert(package_state);
        proof {
            i = i + 1;
        }
    }
    assert(all.subrange(0, i as int) =~= all);
    map
}

/// Assembles a snapshot from package states that are already built.
pub fn create_monorepo_state_interaction(
    global_config: GlobalConfig,
    package_states: Vec<PackageState>,
    root_directory: String,
) -> (r: MonorepoState)
    ensures
        r@ == (MonorepoStateView {
            global_config: global_config@,
            packages: states_map_of(package_states@.map_values(|p: PackageState| p@)),
            root_directory: root_directory@,
        }),
{
    let package_path_to_state_map = package_states_to_package_path_to_state_map(package_states);
    MonorepoState::new(global_config, package_path_to_state_map, root_directory)
}

/// Builds a snapshot from a parsed root configuration and the sources of its packages. A root
/// configuration that failed fails the build; a package that fails is left out.
pub fn monorepo_state_build(
    root_directory: String,
    global_config: Result<GlobalConfig, Error>,
    package_sources: Vec<PackageSource>,
) -> (r: Result<MonorepoState, Error>)
    ensures
        global_config is Err ==> r is Err && r->Err_0 == global_config->Err_0,
        global_config is Ok ==> r is Ok && r->Ok_0@ == (MonorepoStateView {
            global_config: global_config->Ok_0@,
            packages: package_map_of(package_sources@),
            root_directory: root_directory@,
        }),
{
    let global_config = global_config?;
    let ghost all = package_sources@;
    let mut map = PackageStateMap::new();
    let mut rest = package_sources;
    let ghost mut i: int = 0;
    while rest.len() > 0
        invariant
            0 <= i <= all.len(),
            i + rest@.len() == all.len(),
            rest@ == all.subrange(i as int, all.len() as int),
            map@ == package_map_of(all.subrange(0, i as int)),
        decreases rest.len(),
    {
        let source = rest.remove(0);
        proof {
            let done = all.subrange(0, i as int + 1);
            assert(done.drop_last() =~= all.subrange(0, i as int));
            assert(done.last() == source);
        }
        let PackageSource { directory, contents } = source;
        match package_state_build(directory, contents) {
            Ok(package_state) => {
                map.insert(package_state);
            },
            Err(_) => {},
        }
        proof {
            i = i + 1;
        }
    }
    assert(all.subrange(0, i as int) =~= all);
    Ok(MonorepoState::new(global_config, map, root_directory))
}

/// Builds a snapshot from what reading the root configuration file and the package
/// configuration files gave.
pub fn parse_monorepo_state_interaction(
    root_directory: String,
    global_config_raw: Result<String, Error>,
    package_sources: Vec<PackageSource>,
) -> (r: Result<MonorepoState, Error>)
    ensures
        global_config_raw is Err ==> r is Err && r->Err_0 == global_config_raw->Err_0,
        global_config_raw is Ok ==> (r is Ok <==> global_config_of(global_config_raw->Ok_0@)
            is Some),
        global_config_raw is Ok && r is Err ==> r->Err_0.code() is Malformed,
        r is Ok ==> r->Ok_0@ == (MonorepoStateView {
            global_config: global_config_of(global_config_raw->Ok_0@)->0,
            packages: package_map_of(package_sources@),
            root_directory: root_directory@,
        }),
{
    monorepo_state_build(
        root_directory,
        parse_global_config_adapt(global_config_raw),
        package_sources,
    )
}

/// A build keys its packages by exactly those directories whose configuration file was read
/// and parsed.
pub proof fn lemma_package_keys_are_parsed_directories(sources: Seq<PackageSource>)
    ensures
        forall|k: Seq<char>|
            #[trigger] package_map_of(sources).contains_key(k) <==> exists|i: int|
                0 <= i < sources.len() && sources[i].directory@ == k && package_source_state(
                    sources[i],
                ) is Some,
    decreases sources.len(),
{
    if sources.len() > 0 {
        let init = sources.drop_last();
        lemma_package_keys_are_parsed_directories(init);
        assert forall|k: Seq<char>|
            #[trigger] package_map_of(sources).contains_key(k) <==> exists|i: int|
                0 <= i < sources.len() && sources[i].directory@ == k && package_source_state(
                    sources[i],
                ) is Some by {
            if package_map_of(init).contains_key(k) {
                let i = choose|i: int|
                    0 <= i < init.len() && init[i].directory@ == k && package_source_state(
                        init[i],
                    ) is Some;
                assert(sources[i] == init[i]);
            }
            if exists|i: int|
                0 <= i < sources.len() && sources[i].directory@ == k && package_source_state(
                    sources[i],
                ) is Some {
                let i = choose|i: int|
                    0 <= i < sources.len() && sources[i].directory@ == k && package_source_state(
                        sources[i],
                    ) is Some;
                if i < init.len() {
                    assert(init[i] == sources[i]);
                }
            }
        };
    }
}

/// Whether two lists of sources hold the same reads: the same directories, the same texts,
/// and failures in the same places.
pub open spec fn same_reads(a: Seq<PackageSource>, b: Seq<PackageSource>) -> bool {
    &&& a.len() == b.len()
    &&& forall|i: int|
        0 <= i < a.len() ==> {
            &&& (#[trigger] a[i]).directory@ == b[i].directory@
            &&& a[i].contents is Ok <==> b[i].contents is Ok
            &&& a[i].contents is Ok ==> a[i].contents->Ok_0@ == b[i].contents->Ok_0@
        }
}

/// Building twice from unchanged files gives equal snapshots: the packages depend on nothing
/// but the directories, the texts that were read and which reads failed.
pub proof fn lemma_build_is_idempotent(a: Seq<PackageSource>, b: Seq<PackageSource>)
    requires
        same_reads(a, b),
    ensures
        package_map_of(a) == package_map_of(b),
    decreases a.len(),
{
    if a.len() > 0 {
        lemma_build_is_idempotent(a.drop_last(), b.drop_last());
        assert(a.last() == a[a.len() - 1]);
        assert(package_source_state(a.last()) == package_source_state(b.last()));
    }
}

} // verus!
