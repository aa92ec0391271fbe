use ag_coin::chain_spec::{development_chain_spec, local_chain_spec, spec_source, ChainType, SpecSource};
use ag_coin::era::benchmark_era;
use ag_coin::node::{
    benchmark_extension, benchmark_gate, benchmark_opens_client, benchmark_signer, benchmark_transfer, copyright_start_year, execution,
    impl_name, plan_full_node, subcommand_opens_client, support_url, telemetry_wanted, BenchmarkKind, Execution,
    NodeSettings, SubcommandKind, GRANDPA_JUSTIFICATION_PERIOD,
};
use ag_coin::rpc::FullDeps;
use ag_coin::runtime::{BLOCK_HASH_COUNT, EXISTENTIAL_DEPOSIT};
use std::sync::Arc;

#[test]
fn development_spec_settings() {
    let code = [0u8, 97, 115, 109];
    let s = development_chain_spec(Some(&code[..])).unwrap();
    assert_eq!(s.code, &code[..]);
    assert_eq!(s.name, "Development");
    assert_eq!(s.id, "dev");
    assert_eq!(s.chain_type, ChainType::Development);
    assert_eq!(s.genesis_preset, "development");
}

#[test]
fn local_spec_settings() {
    let code = [1u8, 2, 3];
    let s = local_chain_spec(Some(&code[..])).unwrap();
    assert_eq!(s.name, "Local Testnet");
    assert_eq!(s.id, "local_testnet");
    assert_eq!(s.chain_type, ChainType::Local);
    assert_eq!(s.genesis_preset, "local_testnet");
}

#[test]
fn specs_need_wasm() {
    assert_eq!(development_chain_spec(None).err().unwrap(), "Development wasm not available");
    assert_eq!(local_chain_spec(None).err().unwrap(), "Development wasm not available");
}

#[test]
fn spec_sources() {
    assert_eq!(spec_source("dev"), SpecSource::Development);
    assert_eq!(spec_source("local"), SpecSource::LocalTestnet);
    assert_eq!(spec_source(""), SpecSource::LocalTestnet);
    assert_eq!(spec_source("./spec.json"), SpecSource::File);
    assert_eq!(spec_source("Dev"), SpecSource::File);
}

#[test]
fn cli_metadata() {
    assert_eq!(impl_name(), "Substrate Node");
    assert_eq!(support_url(), "support.anonymous.an");
    assert_eq!(copyright_start_year(), 2017);
}

#[test]
fn telemetry_only_with_endpoints() {
    assert!(!telemetry_wanted(None));
    assert!(!telemetry_wanted(Some(0)));
    assert!(telemetry_wanted(Some(2)));
}

#[test]
fn authority_plan() {
    let p = plan_full_node(NodeSettings { is_authority: true, offchain_worker_enabled: true, disable_grandpa: false });
    assert!(p.start_aura && p.start_grandpa_voter && p.grandpa_uses_keystore && p.start_offchain_workers);
    assert!(p.offchain_workers_validate && p.offchain_http_requests && !p.grandpa_observer_enabled);
    assert_eq!(p.grandpa_justification_period, 512);
    assert_eq!(GRANDPA_JUSTIFICATION_PERIOD, 512);
    assert_eq!(p.grandpa_gossip_millis, 333);
}

#[test]
fn full_node_plan_without_grandpa() {
    let p = plan_full_node(NodeSettings { is_authority: false, offchain_worker_enabled: false, disable_grandpa: true });
    assert!(!p.start_aura && !p.start_grandpa_voter && !p.grandpa_uses_keystore && !p.start_offchain_workers);
    assert!(!p.offchain_workers_validate);
}

#[test]
fn command_execution() {
    assert_eq!(execution(None), Execution::FullNode);
    assert_eq!(execution(Some(SubcommandKind::Key)), Execution::Direct);
    assert_eq!(execution(Some(SubcommandKind::BuildSpec)), Execution::Blocking);
    assert_eq!(execution(Some(SubcommandKind::Revert)), Execution::Background);
    assert_eq!(execution(Some(SubcommandKind::ChainInfo)), Execution::Blocking);
    assert!(subcommand_opens_client(SubcommandKind::ImportBlocks));
    assert!(!subcommand_opens_client(SubcommandKind::PurgeChain));
}

#[test]
fn benchmark_gates() {
    assert_eq!(
        benchmark_gate(BenchmarkKind::Pallet, false).err().unwrap(),
        "Runtime benchmarking wasn't enabled when building the node. You can enable it with `--features runtime-benchmarks`."
    );
    assert_eq!(
        benchmark_gate(BenchmarkKind::Storage, false).err().unwrap(),
        "Storage benchmarking can be enabled with `--features runtime-benchmarks`."
    );
    assert!(benchmark_gate(BenchmarkKind::Pallet, true).is_ok());
    assert!(benchmark_gate(BenchmarkKind::Machine, false).is_ok());
    assert!(benchmark_opens_client(BenchmarkKind::Overhead));
    assert!(!benchmark_opens_client(BenchmarkKind::Machine));
}

#[test]
fn benchmark_era_for_runtime() {
    assert_eq!(benchmark_era(BLOCK_HASH_COUNT, 5000), (2048, 5000 % 2048));
    assert_eq!(benchmark_era(BLOCK_HASH_COUNT, 0), (2048, 0));
    let e = sp_runtime::generic::Era::mortal(2048, 5000);
    assert_eq!(e, sp_runtime::generic::Era::Mortal(2048, 904));
}

#[test]
fn benchmark_era_edge_counts() {
    // 0 rounds up to 1, half is 0, clamped to 4.
    assert_eq!(benchmark_era(0, 7), (4, 3));
    // Overflowing power of two falls back to a period of 2, clamped to 4.
    assert_eq!(benchmark_era(u32::MAX, 10), (4, 2));
    // A long period quantizes the phase.
    assert_eq!(benchmark_era(1 << 17, 12345), (65536, 12336));
}

#[test]
fn benchmark_accounts() {
    assert_eq!(benchmark_signer(), "Bob");
    let (dest, value) = benchmark_transfer();
    assert_eq!(dest, sp_keyring::Sr25519Keyring::Alice.to_raw_public());
    assert_eq!(value, EXISTENTIAL_DEPOSIT);
}

#[test]
fn full_deps_share_client_and_pool() {
    let d = FullDeps { client: Arc::new(1u8), pool: Arc::new("pool") };
    assert_eq!(*d.client, 1);
    assert_eq!(*d.pool, "pool");
}

#[test]
fn benchmark_extension_values() {
    let x = benchmark_extension(7, 3000);
    assert_eq!((x.era_period, x.era_phase), (2048, 952));
    assert_eq!(x.nonce, 7);
    assert_eq!(x.tip, 0);
    assert!(!x.check_metadata_hash);
    assert_eq!((x.spec_version, x.transaction_version), (100, 1));
}

#[test]
fn benchmark_era_never_exceeds_block_hash_count() {
    for count in (4u32..5000).chain([65_535, 65_536, 131_072, 131_073, 1 << 31, (1 << 31) + 1, u32::MAX]) {
        let (period, phase) = benchmark_era(count, 123_456);
        assert!(period <= count as u64, "count {count}");
        assert!(phase < period);
    }
    // Below four blocks the shortest era is longer than the hashes kept.
    assert_eq!(benchmark_era(3, 0).0, 4);
}
