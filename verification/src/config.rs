//! The persisted configuration: the single descriptor binding a local
//! project directory to a remote project identity (`fumosync.json`).

use vstd::prelude::*;

verus! {

/// Mathematical view of a [`Configuration`]: its fields as sequences.
pub struct ConfigView {
    pub script_name: Seq<char>,
    pub script_id: Seq<char>,
    pub whitelist: Seq<Seq<char>>,
    pub is_public: bool,
}

/// The contents of `fumosync.json`: display name, remote identifier,
/// access whitelist and visibility of the linked remote project.
#[derive(Debug, Clone, PartialEq, Eq)]
pub struct Configuration {
    pub script_name: String,
    pub script_id: String,
    pub whitelist: Vec<String>,
    pub is_public: bool,
}

impl View for Configuration {
    type V = ConfigView;

    open spec fn view(&self) -> ConfigView {
        ConfigView {
            script_name: self.script_name@,
            script_id: self.script_id@,
            whitelist: self.whitelist.deep_view(),
            is_public: self.is_public,
        }
    }
}

/// The placeholder remote identifier denoting a project scaffolded locally
/// but never linked to a real remote project.
pub open spec fn spec_sentinel_id() -> Seq<char> {
    "???"@
}

/// The configuration a fresh init persists: the name is the target
/// directory's final path segment where one exists, the identifier is the
/// unlinked sentinel, the whitelist is empty and the project is private.
pub open spec fn spec_initial_config(dir_name: Option<Seq<char>>) -> ConfigView {
    ConfigView {
        script_name: match dir_name {
            Option::Some(n) => n,
            Option::None => "unknown"@,
        },
        script_id: spec_sentinel_id(),
        whitelist: Seq::empty(),
        is_public: false,
    }
}

impl Configuration {
    /// Builds the configuration a fresh init persists; `dir_name` is the
    /// final path segment of the target directory, if it has one.
    pub fn initial(dir_name: Option<String>) -> (r: Configuration)
        ensures
            r@ == spec_initial_config(match dir_name {
                Option::Some(n) => Option::Some(n@),
                Option::None => Option::<Seq<char>>::None,
            }),
    {
        let script_name = match dir_name {
            Option::Some(n) => n,
            Option::None => "unknown".to_owned(),
        };
        let r = Configuration {
            script_name,
            script_id: "???".to_owned(),
            whitelist: Vec::new(),
            is_public: false,
        };
        proof {
            assert(r.whitelist.deep_view() =~= Seq::<Seq<char>>::empty());
        }
        r
    }

    /// Whether this configuration is linked to a real remote project,
    /// i.e. its identifier is not the unlinked sentinel.
    pub fn is_linked(&self) -> (r: bool)
        ensures
            r == (self@.script_id != spec_sentinel_id()),
    {
        proof {
            reveal_strlit("???");
        }
        let id = self.script_id.as_str();
        if id.unicode_len() != 3 {
            return true;
        }
        let c0 = id.get_char(0);
        let c1 = id.get_char(1);
        let c2 = id.get_char(2);
        let eq = c0 == '?' && c1 == '?' && c2 == '?';
        proof {
            if eq {
                assert(self@.script_id =~= spec_sentinel_id());
            }
        }
        !eq
    }
}

} // verus!
