//! The node's decisions: what the command line asks for, which benchmarks the
//! build allows, and which services a full node starts.

use crate::keys::{dev_account_names, sr25519_dev_public, sr25519_public_of};
use crate::era::{benchmark_era, benchmark_period, mortal_era};
use crate::runtime::{AccountId, Balance, BLOCK_HASH_COUNT, EXISTENTIAL_DEPOSIT, SPEC_VERSION, TRANSACTION_VERSION};
use vstd::prelude::*;

verus! {

/// The name the node reports for its implementation.
pub fn impl_name() -> (name: &'static str)
    ensures
        name@ == "Substrate Node"@,
{
    "Substrate Node"
}

/// Where users of the node find support.
pub fn support_url() -> (url: &'static str)
    ensures
        url@ == "support.anonymous.an"@,
{
    "support.anonymous.an"
}

/// The first year of the node's copyright notice.
pub fn copyright_start_year() -> (year: i32)
    ensures
        year == 2017,
{
    2017
}

/// How often GRANDPA produces a justification: every 512 blocks.
pub const GRANDPA_JUSTIFICATION_PERIOD: u32 = 512;

/// How often GRANDPA gossips, in milliseconds.
pub const GRANDPA_GOSSIP_MILLIS: u64 = 333;

/// The buffer size of the telemetry worker.
pub const TELEMETRY_BUFFER_SIZE: usize = 16;

/// The node reports telemetry when telemetry endpoints are configured and
/// there is at least one.
pub fn telemetry_wanted(endpoint_count: Option<usize>) -> (wanted: bool)
    ensures
        wanted == (endpoint_count is Some && endpoint_count->0 > 0),
{
    match endpoint_count {
        Some(n) => n > 0,
        None => false,
    }
}

/// The parts of a node's configuration that decide which services it runs.
#[derive(Debug, Clone, Copy, PartialEq, Eq, Structural)]
pub struct NodeSettings {
    /// The node is an authority (a validator).
    pub is_authority: bool,
    /// Offchain workers are enabled.
    pub offchain_worker_enabled: bool,
    /// GRANDPA is disabled.
    pub disable_grandpa: bool,
}

/// The services a full node starts, and how it configures them.
#[derive(Debug, Clone, Copy, PartialEq, Eq, Structural)]
pub struct ServicePlan {
    pub start_offchain_workers: bool,
    pub offchain_workers_validate: bool,
    pub offchain_http_requests: bool,
    pub start_aura: bool,
    pub start_grandpa_voter: bool,
    pub grandpa_uses_keystore: bool,
    pub grandpa_observer_enabled: bool,
    pub grandpa_justification_period: u32,
    pub grandpa_gossip_millis: u64,
}

/// The plan of a full node: offchain workers run when enabled (as validators
/// on an authority, with HTTP requests allowed); an authority authors blocks
/// with AURA; the GRANDPA voter runs unless disabled, with the keystore only
/// on an authority and never as an observer.
pub open spec fn full_node_plan(s: NodeSettings) -> ServicePlan {
    ServicePlan {
        start_offchain_workers: s.offchain_worker_enabled,
        offchain_workers_validate: s.is_authority,
        offchain_http_requests: true,
        start_aura: s.is_authority,
        start_grandpa_voter: !s.disable_grandpa,
        grandpa_uses_keystore: s.is_authority,
        grandpa_observer_enabled: false,
        grandpa_justification_period: GRANDPA_JUSTIFICATION_PERIOD,
        grandpa_gossip_millis: GRANDPA_GOSSIP_MILLIS,
    }
}

/// Decides which services a full node starts.
pub fn plan_full_node(settings: NodeSettings) -> (plan: ServicePlan)
    ensures
        plan == full_node_plan(settings),
{
    ServicePlan {
        start_offchain_workers: settings.offchain_worker_enabled,
        offchain_workers_validate: settings.is_authority,
        offchain_http_requests: true,
        start_aura: settings.is_authority,
        start_grandpa_voter: !settings.disable_grandpa,
        grandpa_uses_keystore: settings.is_authority,
        grandpa_observer_enabled: false,
        grandpa_justification_period: GRANDPA_JUSTIFICATION_PERIOD,
        grandpa_gossip_millis: GRANDPA_GOSSIP_MILLIS,
    }
}

/// Only an authority authors blocks, and a node that authors blocks also
/// signs GRANDPA votes unless GRANDPA is disabled; a node that is not an
/// authority never touches its keystore for consensus.
pub proof fn lemma_only_authorities_use_keys(s: NodeSettings)
    ensures
        full_node_plan(s).start_aura <==> s.is_authority,
        full_node_plan(s).start_aura && full_node_plan(s).start_grandpa_voter ==> full_node_plan(s).grandpa_uses_keystore,
        !s.is_authority ==> !full_node_plan(s).start_aura && !full_node_plan(s).grandpa_uses_keystore,
{
}

/// The node's subcommands.
#[derive(Debug, Clone, Copy, PartialEq, Eq, Structural)]
pub enum SubcommandKind {
    Key,
    BuildSpec,
    CheckBlock,
    ExportBlocks,
    ExportState,
    ImportBlocks,
    PurgeChain,
    Revert,
    Benchmark,
    ChainInfo,
}

/// How the node carries out what the command line asks.
#[derive(Debug, Clone, Copy, PartialEq, Eq, Structural)]
pub enum Execution {
    /// Run the command at once, without a runner.
    Direct,
    /// Run the command to completion on a runner.
    Blocking,
    /// Run the command as a task on a runner, beside the node's task manager.
    Background,
    /// Start the node and run it until it exits.
    FullNode,
}

/// The execution of each subcommand; no subcommand starts the node.
pub open spec fn execution_of(sub: Option<SubcommandKind>) -> Execution {
    match sub {
        None => Execution::FullNode,
        Some(SubcommandKind::Key) => Execution::Direct,
        Some(SubcommandKind::BuildSpec) => Execution::Blocking,
        Some(SubcommandKind::PurgeChain) => Execution::Blocking,
        Some(SubcommandKind::Benchmark) => Execution::Blocking,
        Some(SubcommandKind::ChainInfo) => Execution::Blocking,
        Some(_) => Execution::Background,
    }
}

/// Decides how the node carries out a subcommand, or starts when there is none.
pub fn execution(sub: Option<SubcommandKind>) -> (e: Execution)
    ensures
        e == execution_of(sub),
{
    match sub {
        None => Execution::FullNode,
        Some(SubcommandKind::Key) => Execution::Direct,
        Some(SubcommandKind::BuildSpec) => Execution::Blocking,
        Some(SubcommandKind::PurgeChain) => Execution::Blocking,
        Some(SubcommandKind::Benchmark) => Execution::Blocking,
        Some(SubcommandKind::ChainInfo) => Execution::Blocking,
        Some(_) => Execution::Background,
    }
}

/// The subcommands that open the chain's client (the node's partial
/// components) before they run: those that check, export, import or revert
/// blocks or state. `Benchmark` decides per benchmark.
pub open spec fn opens_client(sub: SubcommandKind) -> bool {
    match sub {
        SubcommandKind::CheckBlock => true,
        SubcommandKind::ExportBlocks => true,
        SubcommandKind::ExportState => true,
        SubcommandKind::ImportBlocks => true,
        SubcommandKind::Revert => true,
        _ => false,
    }
}

/// Whether a subcommand opens the chain's client before it runs.
pub fn subcommand_opens_client(sub: SubcommandKind) -> (b: bool)
    ensures
        b == opens_client(sub),
{
    match sub {
        SubcommandKind::CheckBlock => true,
        SubcommandKind::ExportBlocks => true,
        SubcommandKind::ExportState => true,
        SubcommandKind::ImportBlocks => true,
        SubcommandKind::Revert => true,
        _ => false,
    }
}

/// Every subcommand that opens the client runs in the background, beside the
/// task manager that the client came with.
pub proof fn lemma_client_commands_run_in_background(sub: SubcommandKind)
    ensures
        opens_client(sub) <==> execution_of(Some(sub)) == Execution::Background,
{
}

/// The benchmarks the node can run.
#[derive(Debug, Clone, Copy, PartialEq, Eq, Structural)]
pub enum BenchmarkKind {
    Pallet,
    Storage,
    Overhead,
    Block,
    Extrinsic,
    Machine,
}

/// The error when pallet benchmarks were not built in.
pub open spec fn pallet_benchmarks_missing() -> Seq<char> {
    "Runtime benchmarking wasn't enabled when building the node. You can enable it with `--features runtime-benchmarks`."@
}

/// The error when storage benchmarks were not built in.
pub open spec fn storage_benchmarks_missing() -> Seq<char> {
    "Storage benchmarking can be enabled with `--features runtime-benchmarks`."@
}

/// Pallet and storage benchmarks need the `runtime-benchmarks` feature; the
/// others always run.
pub fn benchmark_gate(kind: BenchmarkKind, runtime_benchmarks: bool) -> (r: Result<(), String>)
    ensures
        kind == BenchmarkKind::Pallet && !runtime_benchmarks ==> r is Err && r->Err_0@ == pallet_benchmarks_missing(),
        kind == BenchmarkKind::Storage && !runtime_benchmarks ==> r is Err && r->Err_0@ == storage_benchmarks_missing(),
        r is Err <==> !runtime_benchmarks && (kind == BenchmarkKind::Pallet || kind == BenchmarkKind::Storage),
{
    if runtime_benchmarks {
        return Ok(());
    }
    match kind {
        BenchmarkKind::Pallet => Err(
            "Runtime benchmarking wasn't enabled when building the node. You can enable it with `--features runtime-benchmarks`.".to_owned(),
        ),
        BenchmarkKind::Storage => Err("Storage benchmarking can be enabled with `--features runtime-benchmarks`.".to_owned()),
        _ => Ok(()),
    }
}

/// The benchmarks that open the chain's client: all but the pallet and
/// machine benchmarks.
pub open spec fn benchmark_opens_client_spec(kind: BenchmarkKind) -> bool {
    kind != BenchmarkKind::Pallet && kind != BenchmarkKind::Machine
}

/// Whether a benchmark opens the chain's client before it runs.
pub fn benchmark_opens_client(kind: BenchmarkKind) -> (b: bool)
    ensures
        b == benchmark_opens_client_spec(kind),
{
    match kind {
        BenchmarkKind::Pallet => false,
        BenchmarkKind::Machine => false,
        _ => true,
    }
}

/// The seed name of the account that signs benchmark extrinsics.
pub fn benchmark_signer() -> (name: &'static str)
    ensures
        name@ == "Bob"@,
{
    "Bob"
}

/// The transfer that the extrinsic benchmark repeats: the existential deposit
/// to Alice.
pub fn benchmark_transfer() -> (t: (AccountId, Balance))
    ensures
        t.0@ == sr25519_dev_public("Alice"@),
        t.1 == EXISTENTIAL_DEPOSIT,
{
    assert(dev_account_names()[0] == "Alice"@);
    (sr25519_public_of("Alice"), EXISTENTIAL_DEPOSIT)
}

/// The transaction-extension values of a benchmark extrinsic.
#[derive(Debug, Clone, Copy, PartialEq, Eq, Structural)]
pub struct BenchmarkExtension {
    /// The period of the extrinsic's mortal era.
    pub era_period: u64,
    /// The phase of the extrinsic's mortal era.
    pub era_phase: u64,
    /// The signer's nonce.
    pub nonce: u32,
    /// The tip paid to the block author.
    pub tip: u128,
    /// Whether the metadata hash is checked.
    pub check_metadata_hash: bool,
    /// The runtime's spec version, signed along.
    pub spec_version: u32,
    /// The runtime's transaction version, signed along.
    pub transaction_version: u32,
}

/// The extension values of a benchmark extrinsic with `nonce`, signed at
/// `best_block`: a mortal era sized by the runtime's block-hash count, no
/// tip, no metadata-hash check, and the runtime's current versions.
pub fn benchmark_extension(nonce: u32, best_block: u32) -> (x: BenchmarkExtension)
    ensures
        (x.era_period, x.era_phase) == mortal_era(benchmark_period(BLOCK_HASH_COUNT), best_block as u64),
        x.nonce == nonce,
        x.tip == 0,
        !x.check_metadata_hash,
        x.spec_version == SPEC_VERSION,
        x.transaction_version == TRANSACTION_VERSION,
{
    let (era_period, era_phase) = benchmark_era(BLOCK_HASH_COUNT, best_block);
    BenchmarkExtension {
        era_period,
        era_phase,
        nonce,
        tip: 0,
        check_metadata_hash: false,
        spec_version: SPEC_VERSION,
        transaction_version: TRANSACTION_VERSION,
    }
}

/// What each service of a full node depends on: offchain workers run exactly
/// when enabled (validating exactly on an authority, always allowed HTTP);
/// AURA authoring runs exactly on an authority; the GRANDPA voter runs exactly
/// when GRANDPA is not disabled, whatever the role, uses the keystore exactly
/// on an authority and is never an observer; justifications every 512 blocks
/// and gossip every 333 ms.
pub proof fn lemma_full_node_services(s: NodeSettings)
    ensures
        full_node_plan(s).start_offchain_workers <==> s.offchain_worker_enabled,
        full_node_plan(s).offchain_workers_validate <==> s.is_authority,
        full_node_plan(s).offchain_http_requests,
        full_node_plan(s).start_aura <==> s.is_authority,
        full_node_plan(s).start_grandpa_voter <==> !s.disable_grandpa,
        full_node_plan(s).grandpa_uses_keystore <==> s.is_authority,
        !full_node_plan(s).grandpa_observer_enabled,
        full_node_plan(s).grandpa_justification_period == 512,
        full_node_plan(s).grandpa_gossip_millis == 333,
{
}

/// How each subcommand runs: only `key` runs without a runner; `build-spec`,
/// `purge-chain`, `benchmark` and `chain-info` run to completion on a runner;
/// `check-block`, `export-blocks`, `export-state`, `import-blocks` and
/// `revert` run in the background; and only no subcommand starts the node.
pub proof fn lemma_subcommand_executions(sub: SubcommandKind)
    ensures
        execution_of(None) == Execution::FullNode,
        execution_of(Some(sub)) != Execution::FullNode,
        execution_of(Some(sub)) == Execution::Direct <==> sub == SubcommandKind::Key,
        execution_of(Some(sub)) == Execution::Blocking <==> (sub == SubcommandKind::BuildSpec
            || sub == SubcommandKind::PurgeChain || sub == SubcommandKind::Benchmark
            || sub == SubcommandKind::ChainInfo),
        execution_of(Some(sub)) == Execution::Background <==> (sub == SubcommandKind::CheckBlock
            || sub == SubcommandKind::ExportBlocks || sub == SubcommandKind::ExportState
            || sub == SubcommandKind::ImportBlocks || sub == SubcommandKind::Revert),
        opens_client(sub) <==> (sub == SubcommandKind::CheckBlock || sub == SubcommandKind::ExportBlocks
            || sub == SubcommandKind::ExportState || sub == SubcommandKind::ImportBlocks
            || sub == SubcommandKind::Revert),
{
}

/// Exactly the pallet and machine benchmarks run without the chain's client;
/// the block, storage, overhead and extrinsic benchmarks open it.
pub proof fn lemma_benchmarks_opening_client(kind: BenchmarkKind)
    ensures
        !benchmark_opens_client_spec(BenchmarkKind::Pallet),
        !benchmark_opens_client_spec(BenchmarkKind::Machine),
        benchmark_opens_client_spec(BenchmarkKind::Block),
        benchmark_opens_client_spec(BenchmarkKind::Storage),
        benchmark_opens_client_spec(BenchmarkKind::Overhead),
        benchmark_opens_client_spec(BenchmarkKind::Extrinsic),
        benchmark_opens_client_spec(kind) <==> (kind == BenchmarkKind::Block || kind == BenchmarkKind::Storage
            || kind == BenchmarkKind::Overhead || kind == BenchmarkKind::Extrinsic),
{
}

/// The error texts of the benchmark gate.
pub proof fn lemma_benchmark_gate_messages()
    ensures
        pallet_benchmarks_missing()
            == "Runtime benchmarking wasn't enabled when building the node. You can enable it with `--features runtime-benchmarks`."@,
        storage_benchmarks_missing() == "Storage benchmarking can be enabled with `--features runtime-benchmarks`."@,
{
}

} // verus!
