//! Cross-component laws of the synchronization model, stated over the
//! same specification functions that the executable contracts use.

use vstd::prelude::*;
use crate::codec::{lemma_config_round_trip, spec_config_json, spec_parse_config_text};
use crate::config::{spec_initial_config, spec_sentinel_id};
use crate::modules::{
    spec_is_module_file_name, spec_module_stem, spec_selected_modules, EntryKind, PkgEntryView,
};
use crate::pull::{spec_pull_configuration, EditorStateView};
use crate::push::{spec_actions, UpdateView};

verus! {

/// The directory entries that the module files written by a pull present
/// to a later enumeration, in the written order.
pub open spec fn spec_pulled_entries(modules: Seq<(Seq<char>, Seq<char>)>) -> Seq<PkgEntryView> {
    modules.map_values(
        |m: (Seq<char>, Seq<char>)| PkgEntryView { file_name: m.0 + ".luau"@, kind: EntryKind::File },
    )
}

/// Module discovery over exactly the files a pull wrote recovers every
/// module name, in the written order.
pub proof fn lemma_modules_round_trip(modules: Seq<(Seq<char>, Seq<char>)>)
    requires
        forall|k: int| 0 <= k < modules.len() ==> (#[trigger] modules[k].0).len() > 0,
    ensures
        spec_selected_modules(spec_pulled_entries(modules)) == modules.map_values(
            |m: (Seq<char>, Seq<char>)| (m.0, m.0 + ".luau"@),
        ),
    decreases modules.len(),
{
    reveal_strlit(".luau");
    let pairs = |m: (Seq<char>, Seq<char>)| (m.0, m.0 + ".luau"@);
    if modules.len() == 0 {
        assert(spec_pulled_entries(modules) =~= Seq::<PkgEntryView>::empty());
        assert(spec_selected_modules(spec_pulled_entries(modules)) =~= modules.map_values(pairs));
    } else {
        let prefix = modules.drop_last();
        lemma_modules_round_trip(prefix);
        let last = modules.last();
        let f = last.0 + ".luau"@;
        assert(f.len() >= 6);
        assert(f.skip(f.len() - 5) =~= ".luau"@);
        assert(spec_is_module_file_name(f));
        assert(spec_module_stem(f) =~= last.0);
        assert(spec_pulled_entries(modules).drop_last() =~= spec_pulled_entries(prefix));
        assert(spec_pulled_entries(modules).last() == (PkgEntryView {
            file_name: f,
            kind: EntryKind::File,
        }));
        assert(spec_selected_modules(spec_pulled_entries(modules)) == spec_selected_modules(
            spec_pulled_entries(prefix),
        ).push((spec_module_stem(f), f)));
        assert(modules.map_values(pairs) =~= prefix.map_values(pairs).push((last.0, f)));
        assert(spec_selected_modules(spec_pulled_entries(modules)) =~= modules.map_values(pairs));
    }
}

/// The pull/push round trip: pushing a directory that a pull has just
/// produced, with no local edits, reconstructs the pulled snapshot
/// exactly — the configuration written to `fumosync.json` reads back
/// intact, discovery over the written module files recovers every module
/// name, and the assembled action sequence carries exactly the
/// snapshot's name, whitelist, visibility, description, main source and
/// modules, in order. Each module name must be non-empty: a module named
/// by the empty string is written as the file `.luau`, which discovery
/// does not recognize.
pub proof fn lemma_pull_push_round_trip(script_id: Seq<char>, state: EditorStateView)
    requires
        forall|k: int| 0 <= k < state.modules.len() ==> (#[trigger] state.modules[k].0).len() > 0,
    ensures
        spec_parse_config_text(spec_config_json(spec_pull_configuration(script_id, state)))
            == Option::Some(spec_pull_configuration(script_id, state)),
        spec_selected_modules(spec_pulled_entries(state.modules)) == state.modules.map_values(
            |m: (Seq<char>, Seq<char>)| (m.0, m.0 + ".luau"@),
        ),
        ({
            let acts = spec_actions(
                spec_pull_configuration(script_id, state),
                state.description,
                state.main_source,
                state.modules,
            );
            &&& acts.len() == 5 + state.modules.len()
            &&& acts[0] == UpdateView::Name(state.name)
            &&& acts[1] == UpdateView::Whitelist(state.whitelist)
            &&& acts[2] == UpdateView::Publicity(state.is_public)
            &&& acts[3] == UpdateView::Description(state.description)
            &&& acts[4] == UpdateView::MainSource(state.main_source)
            &&& forall|k: int|
                0 <= k < state.modules.len() ==> acts[5 + k] == (UpdateView::Module {
                    name: (#[trigger] state.modules[k]).0,
                    source: state.modules[k].1,
                })
        }),
{
    lemma_config_round_trip(spec_pull_configuration(script_id, state));
    lemma_modules_round_trip(state.modules);
}

/// The sentinel invariant: a directory produced purely by the
/// initializer carries the sentinel identifier, and one produced by a
/// pull of any real (non-sentinel) identifier never does.
pub proof fn lemma_sentinel_invariant(
    dir_name: Option<Seq<char>>,
    script_id: Seq<char>,
    state: EditorStateView,
)
    requires
        script_id != spec_sentinel_id(),
    ensures
        spec_initial_config(dir_name).script_id == spec_sentinel_id(),
        spec_pull_configuration(script_id, state).script_id != spec_sentinel_id(),
{
}

} // verus!
