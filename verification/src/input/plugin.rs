//! What is known of a plugin.

use crate::input::layout::RunPluginLocation;
use crate::outside::{
    agree, bytes_with_file_name, file_name, file_name_bytes, joined, joined_bytes, path_bytes,
    path_from_text, same_path, with_file_name, with_suffix,
};
use std::path::PathBuf;
use vstd::prelude::*;
use vstd::utf8::encode_utf8;

verus! {

/// Type of the plugin. Defaults to Pane.
#[derive(Clone, Copy, Debug, PartialEq, Eq, Structural)]
pub enum PluginType {
    /// Starts immediately when the program is started and runs without a visible pane
    Headless,
    /// Runs once per pane declared inside a layout file, in the tab of the given index
    Pane(Option<usize>),
}

impl Default for PluginType {
    fn default() -> (run: Self)
        ensures
            run == PluginType::Pane(None),
    {
        PluginType::Pane(None)
    }
}

/// Plugin metadata
#[derive(Debug)]
pub struct PluginConfig {
    /// Path of the plugin, see [`PluginConfig::resolve_wasm_bytes`] for resolution semantics
    pub path: PathBuf,
    /// Plugin type
    pub run: PluginType,
    /// Allow command execution from plugin
    pub _allow_exec_host_cmd: bool,
    /// Where the plugin was asked for
    pub location: RunPluginLocation,
}

impl Clone for PluginConfig {
    fn clone(&self) -> (same: Self)
        ensures
            same == *self,
    {
        PluginConfig {
            path: self.path.clone(),
            run: self.run,
            _allow_exec_host_cmd: self._allow_exec_host_cmd,
            location: self.location.clone(),
        }
    }
}

impl PartialEq for PluginConfig {
    fn eq(&self, other: &Self) -> (same: bool) {
        same_path(&self.path, &other.path) && self.run == other.run && self._allow_exec_host_cmd
            == other._allow_exec_host_cmd && self.location == other.location
    }
}

impl vstd::std_specs::cmp::PartialEqSpecImpl for PluginConfig {
    open spec fn obeys_eq_spec() -> bool {
        true
    }

    open spec fn eq_spec(&self, other: &Self) -> bool {
        self.same_as(*other)
    }
}

/// A path with a ".wasm" extension added to its file name. A path without a file name stays as it
/// is.
pub open spec fn bytes_with_wasm(path: Seq<u8>) -> Seq<u8> {
    match file_name_bytes(path) {
        Some(name) => bytes_with_file_name(path, name + encode_utf8(".wasm"@)),
        None => path,
    }
}

/// Adds a ".wasm" extension to the file name of a path.
pub fn with_wasm(path: &PathBuf) -> (changed: PathBuf)
    ensures
        path_bytes(changed) == bytes_with_wasm(path_bytes(*path)),
{
    match file_name(path) {
        Some(name) => with_file_name(path, &with_suffix(&name, ".wasm")),
        None => path.clone(),
    }
}

/// The places in which a plugin is looked for, in their order: its path as an absolute path, that
/// with a ".wasm" extension added, and its path within the plugin directory with a ".wasm"
/// extension added.
pub open spec fn lookup_places(plugin_dir: Seq<u8>, path: Seq<u8>) -> Seq<Seq<u8>> {
    let absolute = joined_bytes(encode_utf8("/"@), path);
    seq![absolute, bytes_with_wasm(absolute), bytes_with_wasm(joined_bytes(plugin_dir, path))]
}

/// Whether reading each of `places` with `read` has come to nothing.
pub open spec fn all_unreadable<F: Fn(&PathBuf) -> Option<Vec<u8>>>(
    read: F,
    places: Seq<PathBuf>,
) -> bool {
    forall|i: int|
        0 <= i < places.len() ==> call_ensures(read, (&#[trigger] places[i],), None::<Vec<u8>>)
}

/// Whether the place at `k` is to be read: all those before it have come to nothing.
pub open spec fn may_read<F: Fn(&PathBuf) -> Option<Vec<u8>>>(
    read: F,
    places: Seq<PathBuf>,
    k: int,
) -> bool {
    0 <= k < places.len() && all_unreadable(read, places.take(k))
}

/// Whether reading the places of `places` with `read` came out as `outcome`: with what the first
/// place that could be read holds, after all places before it could not, or with nothing where
/// none could.
pub open spec fn first_readable<F: Fn(&PathBuf) -> Option<Vec<u8>>>(
    read: F,
    places: Seq<PathBuf>,
    outcome: Option<Vec<u8>>,
) -> bool {
    match outcome {
        Some(bytes) => exists|k: int| #[trigger]
            may_read(read, places, k) && call_ensures(read, (&places[k],), Some(bytes)),
        None => all_unreadable(read, places),
    }
}

/// Reads places one after the other with `read`, and returns what the first that can be read
/// holds. The closure has to accept these places and no others, each once those before it have
/// come to nothing.
pub fn read_first<F: Fn(&PathBuf) -> Option<Vec<u8>>>(
    places: &Vec<PathBuf>,
    read: F,
) -> (bytes: Option<Vec<u8>>)
    requires
        forall|k: int| #[trigger]
            may_read(read, places@, k) ==> call_requires(read, (&places@[k],)),
    ensures
        first_readable(read, places@, bytes),
{
    let mut i: usize = 0;
    while i < places.len()
        invariant
            i <= places@.len(),
            all_unreadable(read, places@.take(i as int)),
            forall|k: int| #[trigger]
                may_read(read, places@, k) ==> call_requires(read, (&places@[k],)),
        decreases places@.len() - i,
    {
        proof {
            assert(may_read(read, places@, i as int));
        }
        let found = read(&places[i]);
        if found.is_some() {
            proof {
                assert(call_ensures(read, (&places@[i as int],), Some(found->0)));
            }
            return found;
        }
        proof {
            let done = places@.take(i + 1);
            assert forall|j: int| 0 <= j < done.len() implies call_ensures(
                read,
                (&#[trigger] done[j],),
                None::<Vec<u8>>,
            ) by {
                if j < i {
                    assert(done[j] == places@.take(i as int)[j]);
                }
            }
        }
        i = i + 1;
    }
    proof {
        assert(places@.take(i as int) =~= places@);
    }
    None
}

impl PluginConfig {
    /// Whether two configurations say the same.
    pub open spec fn same_as(self, other: Self) -> bool {
        &&& agree(self.path, other.path)
        &&& self.run == other.run
        &&& self._allow_exec_host_cmd == other._allow_exec_host_cmd
        &&& self.location.same_as(other.location)
    }

    /// Returns the places in which the plugin is looked for, in their order. If the path is
    /// "tab-bar" and the plugin directory "/home/bob/.zellij/plugins", they are these:
    ///
    /// ```bash
    ///   /tab-bar
    ///   /tab-bar.wasm
    ///   /home/bob/.zellij/plugins/tab-bar.wasm
    /// ```
    pub fn lookup_chain(&self, plugin_dir: &PathBuf) -> (places: Vec<PathBuf>)
        ensures
            places@.map_values(|place: PathBuf| path_bytes(place)) == lookup_places(
                path_bytes(*plugin_dir),
                path_bytes(self.path),
            ),
    {
        let absolute = joined(&path_from_text("/"), &self.path);
        let absolute_wasm = with_wasm(&absolute);
        let mut places: Vec<PathBuf> = Vec::new();
        places.push(absolute);
        places.push(absolute_wasm);
        places.push(with_wasm(&joined(plugin_dir, &self.path)));
        proof {
            assert(places@.map_values(|place: PathBuf| path_bytes(place)) =~= lookup_places(
                path_bytes(*plugin_dir),
                path_bytes(self.path),
            ));
        }
        places
    }

    /// Resolve wasm plugin bytes for the plugin path and given plugin directory. Attempts to first
    /// resolve the plugin path as an absolute path, then adds a ".wasm" extension to the path and
    /// resolves that, finally the plugin directory joined with the path with an appended ".wasm"
    /// extension is used. The places, which [`PluginConfig::lookup_chain`] gives, are read with
    /// `read`, which has to accept these places and no others, each once those before it have come
    /// to nothing.
    pub fn resolve_wasm_bytes<F: Fn(&PathBuf) -> Option<Vec<u8>>>(
        &self,
        plugin_dir: &PathBuf,
        read: F,
    ) -> (bytes: Option<Vec<u8>>)
        requires
            forall|places: Vec<PathBuf>, k: int|
                call_ensures(PluginConfig::lookup_chain, (self, plugin_dir), places)
                    && #[trigger] may_read(read, places@, k) ==> call_requires(
                    read,
                    (&places@[k],),
                ),
        ensures
            exists|places: Seq<PathBuf>| #[trigger]
                first_readable(read, places, bytes) && places.map_values(
                    |place: PathBuf| path_bytes(place),
                ) == lookup_places(path_bytes(*plugin_dir), path_bytes(self.path)),
    {
        let places = self.lookup_chain(plugin_dir);
        let bytes = read_first(&places, read);
        proof {
            assert(first_readable(read, places@, bytes));
        }
        bytes
    }

    /// Sets the tab index inside of the plugin type of the run field.
    pub fn set_tab_index(&mut self, tab_index: usize)
        ensures
            final(self).run == old(self).run.in_tab(tab_index),
            final(self).path == old(self).path,
            final(self)._allow_exec_host_cmd == old(self)._allow_exec_host_cmd,
            final(self).location == old(self).location,
    {
        match self.run {
            PluginType::Pane(_) => {
                self.run = PluginType::Pane(Some(tab_index));
            },
            PluginType::Headless => {},
        }
    }
}

impl PluginType {
    /// The type after the tab index has been set: panes take it, and what has no pane has no tab.
    pub open spec fn in_tab(self, tab_index: usize) -> PluginType {
        match self {
            PluginType::Pane(_) => PluginType::Pane(Some(tab_index)),
            PluginType::Headless => PluginType::Headless,
        }
    }
}

/// Of two tab indices that are set one after the other, the later counts.
pub proof fn law_last_tab_index_counts(run: PluginType, first: usize, second: usize)
    ensures
        run.in_tab(first).in_tab(second) == run.in_tab(second),
{
}

/// A plugin's configuration is equal to itself, and so to a clone of it.
pub proof fn law_config_equals_itself(config: PluginConfig)
    ensures
        config.same_as(config),
{
}

/// Configurations are equal only where they agree in each of the four things that they say.
pub proof fn law_equal_configs_agree_in_all(one: PluginConfig, other: PluginConfig)
    ensures
        one.run != other.run ==> !one.same_as(other),
        one._allow_exec_host_cmd != other._allow_exec_host_cmd ==> !one.same_as(other),
        !agree(one.path, other.path) ==> !one.same_as(other),
        !one.location.same_as(other.location) ==> !one.same_as(other),
        one.run == other.run && one._allow_exec_host_cmd == other._allow_exec_host_cmd && agree(
            one.path,
            other.path,
        ) && one.location.same_as(other.location) ==> one.same_as(other),
{
}

/// A pane takes every tab index that is set, whichever it had. What is headless stays so.
pub proof fn law_panes_take_the_tab_index(run: PluginType, tab_index: usize)
    ensures
        run is Pane ==> run.in_tab(tab_index) is Pane && run.in_tab(tab_index)->Pane_0 == Some(
            tab_index,
        ),
        run is Headless ==> run.in_tab(tab_index) is Headless,
{
}

/// A ".wasm" extension goes behind the whole file name of a path, whatever that holds, and leaves
/// the rest of the path alone.
pub proof fn law_extension_goes_behind_the_file_name(path: PathBuf, changed: PathBuf)
    requires
        call_ensures(with_wasm, (&path,), changed),
    ensures
        file_name_bytes(path_bytes(path)) is Some ==> path_bytes(changed) == bytes_with_file_name(
            path_bytes(path),
            file_name_bytes(path_bytes(path))->0 + encode_utf8(".wasm"@),
        ),
        file_name_bytes(path_bytes(path)) is None ==> path_bytes(changed) == path_bytes(path),
{
}

/// A plugin is looked for in three places: at its whole path as seen from the root, there with the
/// extension added, and at its whole path within the plugin directory with the extension added.
pub proof fn law_plugin_is_looked_for_at_its_path(
    config: PluginConfig,
    plugin_dir: PathBuf,
    places: Vec<PathBuf>,
    within: PathBuf,
    first_with_wasm: PathBuf,
    within_with_wasm: PathBuf,
)
    requires
        call_ensures(PluginConfig::lookup_chain, (&config, &plugin_dir), places),
        path_bytes(within) == joined_bytes(path_bytes(plugin_dir), path_bytes(config.path)),
        call_ensures(with_wasm, (&places@[0],), first_with_wasm),
        call_ensures(with_wasm, (&within,), within_with_wasm),
    ensures
        places@.len() == 3,
        path_bytes(places@[0]) == joined_bytes(encode_utf8("/"@), path_bytes(config.path)),
        path_bytes(places@[1]) == path_bytes(first_with_wasm),
        path_bytes(places@[2]) == path_bytes(within_with_wasm),
{
    let bytes = places@.map_values(|place: PathBuf| path_bytes(place));
    assert(bytes.len() == 3);
    assert(bytes[0] == path_bytes(places@[0]));
    assert(bytes[1] == path_bytes(places@[1]));
    assert(bytes[2] == path_bytes(places@[2]));
}

/// The places of a lookup hang together: the first is the whole path as seen from the root, and
/// the others have the extension behind the file names of that and of the path within the plugin
/// directory.
pub proof fn law_places_hang_together(plugin_dir: Seq<u8>, path: Seq<u8>)
    ensures
        ({
            let places = lookup_places(plugin_dir, path);
            let within = joined_bytes(plugin_dir, path);
            &&& places.len() == 3
            &&& places[0] == joined_bytes(encode_utf8("/"@), path)
            &&& file_name_bytes(places[0]) is None ==> places[1] == places[0]
            &&& file_name_bytes(places[0]) is Some ==> places[1] == bytes_with_file_name(
                places[0],
                file_name_bytes(places[0])->0 + encode_utf8(".wasm"@),
            )
            &&& file_name_bytes(within) is None ==> places[2] == within
            &&& file_name_bytes(within) is Some ==> places[2] == bytes_with_file_name(
                within,
                file_name_bytes(within)->0 + encode_utf8(".wasm"@),
            )
        }),
{
}

/// What is read first is what the first place that can be read holds: where something was read,
/// some place held it and all before it came to nothing, and where nothing was, all did.
pub proof fn law_first_readable_place_counts<F: Fn(&PathBuf) -> Option<Vec<u8>>>(
    places: Vec<PathBuf>,
    read: F,
    bytes: Option<Vec<u8>>,
)
    requires
        call_ensures(read_first::<F>, (&places, read), bytes),
    ensures
        bytes is Some ==> exists|k: int|
            {
                &&& 0 <= k < places@.len()
                &&& call_ensures(read, (&#[trigger] places@[k],), bytes)
                &&& forall|j: int|
                    0 <= j < k ==> call_ensures(read, (&#[trigger] places@[j],), None::<Vec<u8>>)
            },
        bytes is None ==> forall|j: int|
            0 <= j < places@.len() ==> call_ensures(
                read,
                (&#[trigger] places@[j],),
                None::<Vec<u8>>,
            ),
{
    law_first_readable_came_first(places@, read, bytes);
}

/// An outcome is that of the first readable place where some place gave it and all before it came
/// to nothing, or where it is nothing and all places came to nothing; and a place may be read once
/// all before it have come to nothing.
pub proof fn law_first_readable_came_first<F: Fn(&PathBuf) -> Option<Vec<u8>>>(
    places: Seq<PathBuf>,
    read: F,
    bytes: Option<Vec<u8>>,
)
    ensures
        bytes is Some ==> (first_readable(read, places, bytes) <==> exists|k: int|
            {
                &&& 0 <= k < places.len()
                &&& call_ensures(read, (&#[trigger] places[k],), bytes)
                &&& forall|j: int|
                    0 <= j < k ==> call_ensures(read, (&#[trigger] places[j],), None::<Vec<u8>>)
            }),
        bytes is None ==> (first_readable(read, places, bytes) <==> forall|j: int|
            0 <= j < places.len() ==> call_ensures(
                read,
                (&#[trigger] places[j],),
                None::<Vec<u8>>,
            )),
        forall|k: int| #[trigger]
            may_read(read, places, k) <==> 0 <= k < places.len() && forall|j: int|
                0 <= j < k ==> call_ensures(read, (&#[trigger] places[j],), None::<Vec<u8>>),
{
    assert forall|k: int| #[trigger] may_read(read, places, k) <==> 0 <= k < places.len()
        && forall|j: int|
        0 <= j < k ==> call_ensures(read, (&#[trigger] places[j],), None::<Vec<u8>>) by {
        if 0 <= k < places.len() {
            let earlier = places.take(k);
            if all_unreadable(read, earlier) {
                assert forall|j: int| 0 <= j < k implies call_ensures(
                    read,
                    (&#[trigger] places[j],),
                    None::<Vec<u8>>,
                ) by {
                    assert(earlier[j] == places[j]);
                }
            }
            if forall|j: int|
                0 <= j < k ==> call_ensures(read, (&#[trigger] places[j],), None::<Vec<u8>>) {
                assert forall|j: int| 0 <= j < earlier.len() implies call_ensures(
                    read,
                    (&#[trigger] earlier[j],),
                    None::<Vec<u8>>,
                ) by {
                    assert(earlier[j] == places[j]);
                }
            }
        }
    }
    if bytes is Some {
        assert(bytes == Some(bytes->0));
        if exists|k: int|
            {
                &&& 0 <= k < places.len()
                &&& call_ensures(read, (&#[trigger] places[k],), bytes)
                &&& forall|j: int|
                    0 <= j < k ==> call_ensures(read, (&#[trigger] places[j],), None::<Vec<u8>>)
            } {
            let k = choose|k: int|
                {
                    &&& 0 <= k < places.len()
                    &&& call_ensures(read, (&#[trigger] places[k],), bytes)
                    &&& forall|j: int|
                        0 <= j < k ==> call_ensures(
                            read,
                            (&#[trigger] places[j],),
                            None::<Vec<u8>>,
                        )
                };
            assert(may_read(read, places, k));
        }
        if first_readable(read, places, bytes) {
            let k = choose|k: int| #[trigger]
                may_read(read, places, k) && call_ensures(read, (&places[k],), Some(bytes->0));
            assert(call_ensures(read, (&places[k],), bytes));
        }
    }
}

/// Resolving a plugin reads the places of its lookup chain in their order: where something was
/// read, one of the three places held it and all before it came to nothing, and where nothing was,
/// all three did.
pub proof fn law_resolving_follows_the_lookup_chain<F: Fn(&PathBuf) -> Option<Vec<u8>>>(
    config: PluginConfig,
    plugin_dir: PathBuf,
    read: F,
    bytes: Option<Vec<u8>>,
)
    requires
        call_ensures(
            PluginConfig::resolve_wasm_bytes::<F>,
            (&config, &plugin_dir, read),
            bytes,
        ),
    ensures
        exists|places: Seq<PathBuf>|
            {
                &&& #[trigger] first_readable(read, places, bytes)
                &&& places.len() == 3
                &&& forall|i: int|
                    0 <= i < 3 ==> path_bytes(#[trigger] places[i]) == lookup_places(
                        path_bytes(plugin_dir),
                        path_bytes(config.path),
                    )[i]
            },
{
    let places = choose|places: Seq<PathBuf>| #[trigger]
        first_readable(read, places, bytes) && places.map_values(
            |place: PathBuf| path_bytes(place),
        ) == lookup_places(path_bytes(plugin_dir), path_bytes(config.path));
    let all = places.map_values(|place: PathBuf| path_bytes(place));
    assert(all.len() == 3);
    assert forall|i: int| 0 <= i < 3 implies path_bytes(#[trigger] places[i]) == lookup_places(
        path_bytes(plugin_dir),
        path_bytes(config.path),
    )[i] by {
        assert(all[i] == path_bytes(places[i]));
    }
}

/// Where the plugin's whole path, as seen from the root, can be read, what it holds is what is
/// resolved.
pub proof fn law_path_itself_is_read_first<F: Fn(&PathBuf) -> Option<Vec<u8>>>(
    config: PluginConfig,
    plugin_dir: PathBuf,
    read: F,
    bytes: Option<Vec<u8>>,
)
    requires
        call_ensures(
            PluginConfig::resolve_wasm_bytes::<F>,
            (&config, &plugin_dir, read),
            bytes,
        ),
        forall|place: &PathBuf|
            path_bytes(*place) == joined_bytes(encode_utf8("/"@), path_bytes(config.path))
                ==> !(#[trigger] call_ensures(read, (place,), None::<Vec<u8>>)),
    ensures
        bytes is Some,
        exists|place: &PathBuf|
            path_bytes(*place) == joined_bytes(encode_utf8("/"@), path_bytes(config.path))
                && #[trigger] call_ensures(read, (place,), bytes),
{
    law_resolving_follows_the_lookup_chain(config, plugin_dir, read, bytes);
    let places = choose|places: Seq<PathBuf>|
        {
            &&& #[trigger] first_readable(read, places, bytes)
            &&& places.len() == 3
            &&& forall|i: int|
                0 <= i < 3 ==> path_bytes(#[trigger] places[i]) == lookup_places(
                    path_bytes(plugin_dir),
                    path_bytes(config.path),
                )[i]
        };
    let root = &places[0];
    assert(path_bytes(*root) == joined_bytes(encode_utf8("/"@), path_bytes(config.path)));
    assert(!call_ensures(read, (root,), None::<Vec<u8>>));
    law_first_readable_came_first(places, read, bytes);
    assert(bytes is Some) by {
        if bytes is None {
            assert(call_ensures(read, (&places[0],), None::<Vec<u8>>));
        }
    }
    let k = choose|k: int|
        {
            &&& 0 <= k < places.len()
            &&& call_ensures(read, (&#[trigger] places[k],), bytes)
            &&& forall|j: int|
                0 <= j < k ==> call_ensures(read, (&#[trigger] places[j],), None::<Vec<u8>>)
        };
    if k > 0 {
        assert(call_ensures(read, (&places[0],), None::<Vec<u8>>));
    }
    assert(call_ensures(read, (root,), bytes));
}

} // verus!
