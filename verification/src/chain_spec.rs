//! The chain specifications the node knows by name, and how it picks one.

use crate::genesis::{dev_runtime_preset, local_testnet_runtime_preset, preset_name_list, preset_patch};
use vstd::prelude::*;

verus! {

/// The kind of a chain.
#[derive(Debug, Clone, Copy, PartialEq, Eq, Structural)]
pub enum ChainType {
    /// A development chain that runs on a single node.
    Development,
    /// A local testnet of several nodes.
    Local,
}

/// What a chain specification is built from: the runtime code, the chain's
/// name and id, its kind and the genesis preset of the runtime it uses.
pub struct ChainSpecSettings<'a> {
    pub code: &'a [u8],
    pub name: &'static str,
    pub id: &'static str,
    pub chain_type: ChainType,
    pub genesis_preset: &'static str,
}

/// The error when the node was built without the runtime's wasm code.
pub open spec fn missing_wasm_message() -> Seq<char> {
    "Development wasm not available"@
}

fn missing_wasm() -> (e: String)
    ensures
        e@ == missing_wasm_message(),
{
    "Development wasm not available".to_owned()
}

/// The single-node development chain: named "Development" with id "dev",
/// using the development preset. Fails without the runtime's code.
pub fn development_chain_spec<'a>(wasm_binary: Option<&'a [u8]>) -> (r: Result<ChainSpecSettings<'a>, String>)
    ensures
        match wasm_binary {
            Some(code) => r is Ok && r->Ok_0.code@ == code@ && r->Ok_0.name@ == "Development"@
                && r->Ok_0.id@ == "dev"@ && r->Ok_0.chain_type == ChainType::Development
                && r->Ok_0.genesis_preset@ == "development"@,
            None => r is Err && r->Err_0@ == missing_wasm_message(),
        },
{
    match wasm_binary {
        Some(code) => Ok(ChainSpecSettings {
            code,
            name: "Development",
            id: "dev",
            chain_type: ChainType::Development,
            genesis_preset: dev_runtime_preset(),
        }),
        None => Err(missing_wasm()),
    }
}

/// The multi-node local testnet: named "Local Testnet" with id
/// "local_testnet", using the local-testnet preset. Fails without the
/// runtime's code.
pub fn local_chain_spec<'a>(wasm_binary: Option<&'a [u8]>) -> (r: Result<ChainSpecSettings<'a>, String>)
    ensures
        match wasm_binary {
            Some(code) => r is Ok && r->Ok_0.code@ == code@ && r->Ok_0.name@ == "Local Testnet"@
                && r->Ok_0.id@ == "local_testnet"@ && r->Ok_0.chain_type == ChainType::Local
                && r->Ok_0.genesis_preset@ == "local_testnet"@,
            None => r is Err && r->Err_0@ == missing_wasm_message(),
        },
{
    match wasm_binary {
        Some(code) => Ok(ChainSpecSettings {
            code,
            name: "Local Testnet",
            id: "local_testnet",
            chain_type: ChainType::Local,
            genesis_preset: local_testnet_runtime_preset(),
        }),
        None => Err(missing_wasm()),
    }
}

/// Where the node takes the chain specification named on its command line from.
#[derive(Debug, Clone, Copy, PartialEq, Eq, Structural)]
pub enum SpecSource {
    /// The built-in development chain.
    Development,
    /// The built-in local testnet.
    LocalTestnet,
    /// A JSON file at the given path.
    File,
}

/// The source of the chain specification with this id.
pub open spec fn spec_source_of(id: Seq<char>) -> SpecSource {
    if id == "dev"@ {
        SpecSource::Development
    } else if id == ""@ || id == "local"@ {
        SpecSource::LocalTestnet
    } else {
        SpecSource::File
    }
}

/// "dev" names the development chain, "local" or nothing the local testnet,
/// and anything else a path to a chain-spec file.
pub fn spec_source(id: &str) -> (s: SpecSource)
    ensures
        s == spec_source_of(id@),
{
    let id = id.to_owned();
    if id == "dev".to_owned() {
        SpecSource::Development
    } else if id == "".to_owned() || id == "local".to_owned() {
        SpecSource::LocalTestnet
    } else {
        SpecSource::File
    }
}

/// Both built-in chain specifications name a preset that the runtime lists
/// and has.
pub proof fn lemma_chain_specs_use_listed_presets()
    ensures
        preset_name_list().contains("development"@),
        preset_name_list().contains("local_testnet"@),
        preset_patch("development"@) is Some,
        preset_patch("local_testnet"@) is Some,
{
    assert(preset_name_list()[0] == "development"@);
    assert(preset_name_list()[1] == "local_testnet"@);
}

/// "dev" and only "dev" names the development chain; "local" and the empty id
/// and only they name the local testnet; every other id is a file path.
pub proof fn lemma_spec_sources(id: Seq<char>)
    ensures
        spec_source_of(id) == SpecSource::Development <==> id == "dev"@,
        spec_source_of(id) == SpecSource::LocalTestnet <==> (id == ""@ || id == "local"@),
        spec_source_of(id) == SpecSource::File <==> (id != "dev"@ && id != ""@ && id != "local"@),
        missing_wasm_message() == "Development wasm not available"@,
{
    reveal_strlit("dev");
    reveal_strlit("");
    reveal_strlit("local");
    assert("dev"@.len() == 3 && ""@.len() == 0 && "local"@.len() == 5);
}

} // verus!
