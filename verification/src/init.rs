//! Initializer planning: the directories, scaffold files and fresh
//! configuration that stand up a brand-new local project.
//!
//! The plan is pure data; the surrounding application creates the target
//! directory, then each planned subdirectory, then writes each planned
//! file, in order, aborting on the first failure without rolling back.

use vstd::prelude::*;
use vstd::string::StringExecFns;
use crate::codec::{encode_configuration, spec_config_json};
use crate::config::{spec_initial_config, Configuration};
use crate::error::Error;

verus! {

/// Mathematical view of a [`PlannedFile`].
pub struct PlannedFileView {
    pub path: Seq<char>,
    pub contents: Seq<char>,
}

/// One file write of a plan: a path relative to the project directory,
/// with `/` as the separator, and the full contents to write.
#[derive(Debug, Clone, PartialEq, Eq)]
pub struct PlannedFile {
    pub path: String,
    pub contents: String,
}

impl View for PlannedFile {
    type V = PlannedFileView;

    open spec fn view(&self) -> PlannedFileView {
        PlannedFileView { path: self.path@, contents: self.contents@ }
    }
}

impl DeepView for PlannedFile {
    type V = PlannedFileView;

    open spec fn deep_view(&self) -> PlannedFileView {
        self@
    }
}

/// The plan of a fresh init: the subdirectories to create inside the
/// target directory, then the files to write, in order.
#[derive(Debug, Clone, PartialEq, Eq)]
pub struct InitPlan {
    pub subdirs: Vec<String>,
    pub files: Vec<PlannedFile>,
}

/// The static editor-settings scaffold.
pub open spec fn spec_settings_text() -> Seq<char> {
    "{\n\t\"luau-lsp.types.robloxSecurityLevel\": \"None\",\n\t\"luau-lsp.types.definitionFiles\": [\"types.d.luau\"]\n}"@
}

/// The static entry-point stub.
pub open spec fn spec_entry_stub_text() -> Seq<char> {
    "-- you can require packages with requireM(\"path\") where path is a file inside of pkg (no extension)"@
}

/// The static README stub.
pub open spec fn spec_readme_stub_text() -> Seq<char> {
    "# stuff here"@
}

/// The static type-declaration scaffold.
pub open spec fn spec_types_text() -> Seq<char> {
    "declare loadstringEnabled: boolean\ndeclare owner: Player\ndeclare arguments: { any }\n\ndeclare isolatedStorage: {\n  get: (name: string) -> any,\n  set: (name: string, value: any?) -> ()\n}\n\ndeclare immediateSignals: boolean\ndeclare NLS: (source: string, parent: Instance?) -> LocalScript\ndeclare requireM: (moduleName: string) -> any\n\ndeclare LoadAssets: (assetId: number) -> {\n  Get: (asset: string) -> Instance,\n  Exists: (asset: string) -> boolean,\n  GetNames: () -> { string },\n  GetArray: () -> { Instance },\n  GetDictionary: () -> { [string]: Instance }\n}"@
}

/// Whether an init may proceed against a target directory.
pub open spec fn spec_init_allowed(target_exists: bool) -> bool {
    !target_exists
}

/// The initializer's precondition: the target directory must not already
/// exist; a target that does is refused with a distinct error, so that a
/// repeated init never merges into or re-scaffolds an existing directory.
pub fn ensure_target_absent(target_path: String, target_exists: bool) -> (r: Result<(), Error>)
    ensures
        r is Ok <==> spec_init_allowed(target_exists),
        r matches Result::Err(e) ==> e == Error::DirectoryAlreadyExists(target_path),
{
    if target_exists {
        Result::Err(Error::DirectoryAlreadyExists(target_path))
    } else {
        Result::Ok(())
    }
}

/// Builds the plan of a fresh init: create `pkg/` and `.vscode/`, then
/// write the editor settings, the entry-point stub, the README stub, the
/// type declarations, and a fresh configuration named after the target
/// directory's final path segment (`"unknown"` where it has none), with
/// the sentinel identifier, an empty whitelist and private visibility.
pub fn init_plan(dir_name: Option<String>) -> (r: InitPlan)
    ensures
        r.subdirs.deep_view() == seq!["pkg"@, ".vscode"@],
        r.files@.len() == 5,
        r.files@[0]@ == (PlannedFileView {
            path: ".vscode/settings.json"@,
            contents: spec_settings_text(),
        }),
        r.files@[1]@ == (PlannedFileView {
            path: "init.server.luau"@,
            contents: spec_entry_stub_text(),
        }),
        r.files@[2]@ == (PlannedFileView {
            path: "README.md"@,
            contents: spec_readme_stub_text(),
        }),
        r.files@[3]@ == (PlannedFileView { path: "types.d.luau"@, contents: spec_types_text() }),
        r.files@[4]@ == (PlannedFileView {
            path: "fumosync.json"@,
            contents: spec_config_json(spec_initial_config(match dir_name {
                Option::Some(n) => Option::Some(n@),
                Option::None => Option::<Seq<char>>::None,
            })),
        }),
{
    let mut subdirs: Vec<String> = Vec::new();
    subdirs.push("pkg".to_owned());
    subdirs.push(".vscode".to_owned());
    proof {
        assert(subdirs.deep_view() =~= seq!["pkg"@, ".vscode"@]);
    }
    let config = Configuration::initial(dir_name);
    let mut files: Vec<PlannedFile> = Vec::new();
    files.push(
        PlannedFile {
            path: ".vscode/settings.json".to_owned(),
            contents:
                "{\n\t\"luau-lsp.types.robloxSecurityLevel\": \"None\",\n\t\"luau-lsp.types.definitionFiles\": [\"types.d.luau\"]\n}".to_owned(),
        },
    );
    files.push(
        PlannedFile {
            path: "init.server.luau".to_owned(),
            contents:
                "-- you can require packages with requireM(\"path\") where path is a file inside of pkg (no extension)".to_owned(),
        },
    );
    files.push(PlannedFile { path: "README.md".to_owned(), contents: "# stuff here".to_owned() });
    files.push(
        PlannedFile {
            path: "types.d.luau".to_owned(),
            contents:
                "declare loadstringEnabled: boolean\ndeclare owner: Player\ndeclare arguments: { any }\n\ndeclare isolatedStorage: {\n  get: (name: string) -> any,\n  set: (name: string, value: any?) -> ()\n}\n\ndeclare immediateSignals: boolean\ndeclare NLS: (source: string, parent: Instance?) -> LocalScript\ndeclare requireM: (moduleName: string) -> any\n\ndeclare LoadAssets: (assetId: number) -> {\n  Get: (asset: string) -> Instance,\n  Exists: (asset: string) -> boolean,\n  GetNames: () -> { string },\n  GetArray: () -> { Instance },\n  GetDictionary: () -> { [string]: Instance }\n}".to_owned(),
        },
    );
    files.push(
        PlannedFile { path: "fumosync.json".to_owned(), contents: encode_configuration(&config) },
    );
    InitPlan { subdirs, files }
}

} // verus!
