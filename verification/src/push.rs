//! Push planning: the ordered sequence of remote update actions that
//! propagates local edits to the remote project.
//!
//! A push submits, in one call, the metadata actions first (name,
//! whitelist, visibility), then the bulk content actions (description,
//! main source), then one module action per discovered module in
//! discovery order.

use vstd::prelude::*;
use crate::codec::{parse_configuration, spec_parse_config_text};
use crate::config::{Configuration, ConfigView};
use crate::error::Error;

verus! {

/// Mathematical view of an [`EditorUpdate`].
pub enum UpdateView {
    Name(Seq<char>),
    Whitelist(Seq<Seq<char>>),
    Publicity(bool),
    Description(Seq<char>),
    MainSource(Seq<char>),
    Module { name: Seq<char>, source: Seq<char> },
}

/// One discrete remote mutation submitted during a push.
#[derive(Debug, Clone, PartialEq, Eq)]
pub enum EditorUpdate {
    /// Rename the remote project.
    Name(String),
    /// Replace the access whitelist.
    Whitelist(Vec<String>),
    /// Set the visibility flag.
    Publicity(bool),
    /// Replace the description.
    Description(String),
    /// Replace the main source.
    MainSource(String),
    /// Upsert one named module's source.
    Module { name: String, source: String },
}

impl View for EditorUpdate {
    type V = UpdateView;

    open spec fn view(&self) -> UpdateView {
        match self {
            EditorUpdate::Name(s) => UpdateView::Name(s@),
            EditorUpdate::Whitelist(w) => UpdateView::Whitelist(w.deep_view()),
            EditorUpdate::Publicity(b) => UpdateView::Publicity(*b),
            EditorUpdate::Description(s) => UpdateView::Description(s@),
            EditorUpdate::MainSource(s) => UpdateView::MainSource(s@),
            EditorUpdate::Module { name, source } => UpdateView::Module {
                name: name@,
                source: source@,
            },
        }
    }
}

impl DeepView for EditorUpdate {
    type V = UpdateView;

    open spec fn deep_view(&self) -> UpdateView {
        self@
    }
}

/// The action sequence of one push: metadata first, then bulk content,
/// then one module action per module, in the given order.
pub open spec fn spec_actions(
    cfg: ConfigView,
    description: Seq<char>,
    main_source: Seq<char>,
    modules: Seq<(Seq<char>, Seq<char>)>,
) -> Seq<UpdateView> {
    seq![
        UpdateView::Name(cfg.script_name),
        UpdateView::Whitelist(cfg.whitelist),
        UpdateView::Publicity(cfg.is_public),
        UpdateView::Description(description),
        UpdateView::MainSource(main_source),
    ] + modules.map_values(|m: (Seq<char>, Seq<char>)| UpdateView::Module { name: m.0, source: m.1 })
}

/// Clones a vector of strings, keeping its contents exactly.
pub(crate) fn clone_string_vec(v: &Vec<String>) -> (r: Vec<String>)
    ensures
        r.deep_view() == v.deep_view(),
{
    let mut r: Vec<String> = Vec::new();
    let n = v.len();
    let mut i: usize = 0;
    while i < n
        invariant
            i <= n,
            n == v.len(),
            r@.len() == i as int,
            r.deep_view() =~= v.deep_view().take(i as int),
        decreases n - i,
    {
        r.push(v[i].clone());
        proof {
            assert(r.deep_view() =~= v.deep_view().take(i as int + 1));
        }
        i = i + 1;
    }
    proof {
        assert(v.deep_view().take(n as int) =~= v.deep_view());
    }
    r
}

/// Assembles the ordered action sequence of one push from the
/// configuration, the local description and main source, and the
/// discovered `(name, source)` modules: `[Name, Whitelist, Publicity,
/// Description, MainSource, Module, Module, ...]` with the modules in the
/// given order.
pub fn assemble_actions(
    config: &Configuration,
    description: String,
    main_source: String,
    modules: Vec<(String, String)>,
) -> (r: Vec<EditorUpdate>)
    ensures
        r.deep_view() == spec_actions(config@, description@, main_source@, modules.deep_view()),
{
    let mut r: Vec<EditorUpdate> = Vec::new();
    r.push(EditorUpdate::Name(config.script_name.clone()));
    r.push(EditorUpdate::Whitelist(clone_string_vec(&config.whitelist)));
    r.push(EditorUpdate::Publicity(config.is_public));
    r.push(EditorUpdate::Description(description));
    r.push(EditorUpdate::MainSource(main_source));
    let n = modules.len();
    let mut i: usize = 0;
    while i < n
        invariant
            i <= n,
            n == modules.len(),
            r@.len() == 5 + i as int,
            r.deep_view() =~= spec_actions(
                config@,
                description@,
                main_source@,
                modules.deep_view().take(i as int),
            ),
        decreases n - i,
    {
        let ghost a0 = r.deep_view();
        let (name, source) = (modules[i].0.clone(), modules[i].1.clone());
        r.push(EditorUpdate::Module { name, source });
        proof {
            let mv = UpdateView::Module {
                name: modules@[i as int].0@,
                source: modules@[i as int].1@,
            };
            assert(r.deep_view() =~= a0.push(mv));
            assert(modules.deep_view().take(i + 1).drop_last() =~= modules.deep_view().take(
                i as int,
            ));
            assert(modules.deep_view().take(i + 1).map_values(
                |m: (Seq<char>, Seq<char>)| UpdateView::Module { name: m.0, source: m.1 },
            ) =~= modules.deep_view().take(i as int).map_values(
                |m: (Seq<char>, Seq<char>)| UpdateView::Module { name: m.0, source: m.1 },
            ).push(mv));
            assert(spec_actions(
                config@,
                description@,
                main_source@,
                modules.deep_view().take(i as int + 1),
            ) =~= a0.push(mv));
        }
        i = i + 1;
    }
    proof {
        assert(modules.deep_view().take(n as int) =~= modules.deep_view());
    }
    r
}

/// The decision core of one push: reads the configuration out of the
/// text of `fumosync.json` and assembles the full action sequence, or
/// fails fast with the deserialization error before anything is sent.
/// On success the result carries the remote identifier to address and
/// the actions to submit in one call.
pub fn build_push(
    config_text: &str,
    description: String,
    main_source: String,
    modules: Vec<(String, String)>,
) -> (r: Result<(String, Vec<EditorUpdate>), Error>)
    ensures
        match spec_parse_config_text(config_text@) {
            Option::Some(c) => r matches Result::Ok(p) && p.0@ == c.script_id
                && p.1.deep_view() == spec_actions(
                c,
                description@,
                main_source@,
                modules.deep_view(),
            ),
            Option::None => r matches Result::Err(e) && e == Error::Deserialize,
        },
{
    let config = match parse_configuration(config_text) {
        Result::Ok(c) => c,
        Result::Err(e) => {
            return Result::Err(e);
        },
    };
    let script_id = config.script_id.clone();
    let actions = assemble_actions(&config, description, main_source, modules);
    Result::Ok((script_id, actions))
}

} // verus!
