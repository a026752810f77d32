//! Where the plugin finds the host's files and keeps its own.
use vstd::prelude::*;
use crate::state::opt_bytes;
use crate::text::{join, join_path, push_bytes, push_str, str_bytes, utf8};

verus! {

/// The host's home: `$CODEX_HOME`, else `$HOME/.codex`; none when neither is set.
pub open spec fn home_spec(codex_home: Option<Seq<u8>>, home: Option<Seq<u8>>) -> Option<Seq<u8>> {
    match codex_home {
        Some(c) => Some(c),
        None => match home {
            Some(h) => Some(join_path(h, utf8(".codex"@))),
            None => None,
        },
    }
}

/// The host's home from the values of `CODEX_HOME` and `HOME`.
pub fn home(codex_home: Option<Vec<u8>>, user_home: Option<Vec<u8>>) -> (r: Option<Vec<u8>>)
    ensures
        opt_bytes(r) == home_spec(opt_bytes(codex_home), opt_bytes(user_home)),
{
    match codex_home {
        Some(c) => Some(c),
        None => match user_home {
            Some(h) => Some(join(h.as_slice(), str_bytes(".codex").as_slice())),
            None => None,
        },
    }
}

/// `base/rel` for a fixed relative path `rel`.
pub fn under(base: &[u8], rel: &str) -> (r: Vec<u8>)
    ensures
        r@ == join_path(base@, utf8(rel@)),
{
    join(base, str_bytes(rel).as_slice())
}

/// The host's configuration file.
pub fn config_file(home: &[u8]) -> (r: Vec<u8>)
    ensures
        r@ == join_path(home@, utf8("config.toml"@)),
{
    under(home, "config.toml")
}

/// The host's model catalog cache.
pub fn catalog_cache(home: &[u8]) -> (r: Vec<u8>)
    ensures
        r@ == join_path(home@, utf8("models_cache.json"@)),
{
    under(home, "models_cache.json")
}

/// The catalog overlay, in the state directory.
pub fn overlay_file(state_dir: &[u8]) -> (r: Vec<u8>)
    ensures
        r@ == join_path(state_dir@, utf8("models-overlay.json"@)),
{
    under(state_dir, "models-overlay.json")
}

/// The record that the plugin owns the configuration, in the state directory.
pub fn ownership_file(state_dir: &[u8]) -> (r: Vec<u8>)
    ensures
        r@ == join_path(state_dir@, utf8("config-ownership.json"@)),
{
    under(state_dir, "config-ownership.json")
}

/// The directory of project maps.
pub fn maps_dir(home: &[u8]) -> (r: Vec<u8>)
    ensures
        r@ == join_path(home@, utf8("project-maps"@)),
{
    under(home, "project-maps")
}

/// The map of the project named `hash`: `<home>/project-maps/<hash>.md`.
pub fn map_file(home: &[u8], hash: &[u8]) -> (r: Vec<u8>)
    ensures
        r@ == join_path(join_path(home@, utf8("project-maps"@)), hash@ + utf8(".md"@)),
{
    let d = maps_dir(home);
    let mut name: Vec<u8> = Vec::new();
    push_bytes(&mut name, hash);
    push_str(&mut name, ".md");
    join(d.as_slice(), name.as_slice())
}

/// The stock host binary.
pub fn stock_binary(home: &[u8]) -> (r: Vec<u8>)
    ensures
        r@ == join_path(home@, utf8("packages/standalone/current/bin/codex"@)),
{
    under(home, "packages/standalone/current/bin/codex")
}

/// The plugin's data directory: `$PLUGIN_DATA`, else under the host's home.
pub fn plugin_data(plugin_data_var: Option<Vec<u8>>, home: &[u8]) -> (r: Vec<u8>)
    ensures
        r@ == match opt_bytes(plugin_data_var) {
            Some(d) => d,
            None => join_path(home@, utf8("plugins/data/compactveteran-compactveteran"@)),
        },
{
    match plugin_data_var {
        Some(d) => d,
        None => under(home, "plugins/data/compactveteran-compactveteran"),
    }
}

/// The project sources that a map lists when they exist, in order: the agent
/// notes, the roadmaps and the readme of the repository at `root`, then the
/// project-truth registry under the host's home.
pub open spec fn source_candidates_spec(root: Seq<u8>, home: Seq<u8>) -> Seq<Seq<u8>> {
    seq![
        join_path(root, utf8("AGENTS.md"@)),
        join_path(root, utf8("ROADMAP.md"@)),
        join_path(root, utf8("PRODUCT_ROADMAP.md"@)),
        join_path(root, utf8("README.md"@)),
        join_path(home, utf8("project-truth/registry.toml"@)),
    ]
}

/// The project sources that a map lists when they exist, in order.
pub fn source_candidates(root: &[u8], home: &[u8]) -> (r: Vec<Vec<u8>>)
    ensures
        r@.map_values(|p: Vec<u8>| p@) == source_candidates_spec(root@, home@),
{
    let mut r: Vec<Vec<u8>> = Vec::new();
    r.push(under(root, "AGENTS.md"));
    r.push(under(root, "ROADMAP.md"));
    r.push(under(root, "PRODUCT_ROADMAP.md"));
    r.push(under(root, "README.md"));
    r.push(under(home, "project-truth/registry.toml"));
    assert(r@.map_values(|p: Vec<u8>| p@) =~= source_candidates_spec(root@, home@));
    r
}

} // verus!
