//! Pull planning: how a fetched remote editor state is materialized into
//! local files and a linked configuration.
//!
//! A pull first stands up the skeleton of a fresh init, then overwrites
//! the synced files with the fetched state; the surrounding application
//! performs the fetch and the writes, aborting on the first failure.

use vstd::prelude::*;
use vstd::string::StringExecFns;
use crate::codec::{encode_configuration, spec_config_json};
use crate::config::{ConfigView, Configuration};
use crate::error::Error;
use crate::init::{PlannedFile, PlannedFileView};
use crate::push::clone_string_vec;

verus! {

/// Mathematical view of an [`EditorState`].
pub struct EditorStateView {
    pub name: Seq<char>,
    pub description: Seq<char>,
    pub whitelist: Seq<Seq<char>>,
    pub is_public: bool,
    pub main_source: Seq<char>,
    pub modules: Seq<(Seq<char>, Seq<char>)>,
}

/// The remote editor state of a project, as fetched by the client:
/// name, description, whitelist, visibility, main source, and the
/// `(name, source)` modules in the fetched order.
#[derive(Debug, Clone, PartialEq, Eq)]
pub struct EditorState {
    pub name: String,
    pub description: String,
    pub whitelist: Vec<String>,
    pub is_public: bool,
    pub main_source: String,
    pub modules: Vec<(String, String)>,
}

impl View for EditorState {
    type V = EditorStateView;

    open spec fn view(&self) -> EditorStateView {
        EditorStateView {
            name: self.name@,
            description: self.description@,
            whitelist: self.whitelist.deep_view(),
            is_public: self.is_public,
            main_source: self.main_source@,
            modules: self.modules.deep_view(),
        }
    }
}

/// The configuration a pull persists: the fetched name, whitelist and
/// visibility, bound to the given remote identifier.
pub open spec fn spec_pull_configuration(script_id: Seq<char>, s: EditorStateView) -> ConfigView {
    ConfigView {
        script_name: s.name,
        script_id,
        whitelist: s.whitelist,
        is_public: s.is_public,
    }
}

/// The file name of a module under the module directory.
pub open spec fn spec_module_path(name: Seq<char>) -> Seq<char> {
    "pkg/"@ + name + ".luau"@
}

/// The file writes of a pull: the description into `README.md`, the main
/// source into `init.server.luau`, the linked configuration into
/// `fumosync.json`, and each module into `pkg/<name>.luau`.
pub open spec fn spec_pull_files(script_id: Seq<char>, s: EditorStateView) -> Seq<
    PlannedFileView,
> {
    seq![
        PlannedFileView { path: "README.md"@, contents: s.description },
        PlannedFileView { path: "init.server.luau"@, contents: s.main_source },
        PlannedFileView {
            path: "fumosync.json"@,
            contents: spec_config_json(spec_pull_configuration(script_id, s)),
        },
    ] + s.modules.map_values(
        |m: (Seq<char>, Seq<char>)| PlannedFileView { path: spec_module_path(m.0), contents: m.1 },
    )
}

/// Builds the configuration a pull persists.
pub fn pull_configuration(script_id: String, state: &EditorState) -> (r: Configuration)
    ensures
        r@ == spec_pull_configuration(script_id@, state@),
{
    Configuration {
        script_name: state.name.clone(),
        script_id,
        whitelist: clone_string_vec(&state.whitelist),
        is_public: state.is_public,
    }
}

/// Builds the ordered file writes of a pull from the fetched state. The
/// writes overwrite files of the fresh skeleton; any one of them may be
/// reordered, but all must succeed for the pull to succeed.
pub fn pull_plan(script_id: String, state: EditorState) -> (r: Vec<PlannedFile>)
    ensures
        r.deep_view() == spec_pull_files(script_id@, state@),
{
    let ghost sv = state@;
    let ghost idv = script_id@;
    let config = pull_configuration(script_id, &state);
    let mut r: Vec<PlannedFile> = Vec::new();
    r.push(PlannedFile { path: "README.md".to_owned(), contents: state.description });
    r.push(PlannedFile { path: "init.server.luau".to_owned(), contents: state.main_source });
    r.push(
        PlannedFile { path: "fumosync.json".to_owned(), contents: encode_configuration(&config) },
    );
    let ghost head = r.deep_view();
    proof {
        assert(head =~= spec_pull_files(idv, sv).take(3));
    }
    let modules = state.modules;
    let n = modules.len();
    let mut i: usize = 0;
    while i < n
        invariant
            i <= n,
            n == modules.len(),
            modules.deep_view() == sv.modules,
            n == sv.modules.len(),
            r@.len() == 3 + i as int,
            r.deep_view() =~= head + sv.modules.take(i as int).map_values(
                |m: (Seq<char>, Seq<char>)| PlannedFileView {
                    path: spec_module_path(m.0),
                    contents: m.1,
                },
            ),
        decreases n - i,
    {
        let ghost a0 = r.deep_view();
        let mut path = String::new();
        path.append("pkg/");
        path.append(modules[i].0.as_str());
        path.append(".luau");
        let contents = modules[i].1.clone();
        r.push(PlannedFile { path, contents });
        proof {
            let mv = PlannedFileView {
                path: spec_module_path(sv.modules[i as int].0),
                contents: sv.modules[i as int].1,
            };
            assert(r.deep_view() =~= a0.push(mv));
            assert(sv.modules.take(i + 1).drop_last() =~= sv.modules.take(i as int));
            assert(sv.modules.take(i + 1).map_values(
                |m: (Seq<char>, Seq<char>)| PlannedFileView {
                    path: spec_module_path(m.0),
                    contents: m.1,
                },
            ) =~= sv.modules.take(i as int).map_values(
                |m: (Seq<char>, Seq<char>)| PlannedFileView {
                    path: spec_module_path(m.0),
                    contents: m.1,
                },
            ).push(mv));
        }
        i = i + 1;
    }
    proof {
        assert(sv.modules.take(n as int) =~= sv.modules);
        assert(head + sv.modules.map_values(
            |m: (Seq<char>, Seq<char>)| PlannedFileView {
                path: spec_module_path(m.0),
                contents: m.1,
            },
        ) =~= spec_pull_files(idv, sv));
    }
    r
}

/// Wraps an init-phase failure of a pull so the caller can always tell
/// it from a fetch-phase failure, keeping the inner cause.
pub fn wrap_init_error(e: Error) -> (r: Error)
    ensures
        r matches Error::ProjectDidntInitialize(inner) && *inner == e,
{
    Error::ProjectDidntInitialize(Box::new(e))
}

} // verus!
