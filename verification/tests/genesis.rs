use ag_coin::genesis::{
    development_config_genesis, genesis_patch_json, get_preset, local_config_genesis, preset_names,
    testnet_genesis, GenesisPatch, ENDOWMENT, GRANDPA_WEIGHT,
};
use sp_core::crypto::Ss58Codec;
use sp_keyring::{Ed25519Keyring, Sr25519Keyring};

fn sr(k: Sr25519Keyring) -> [u8; 32] {
    k.to_raw_public()
}

fn ss58(k: Sr25519Keyring) -> String {
    k.to_account_id().to_string()
}

fn ed_ss58(k: Ed25519Keyring) -> String {
    k.public().to_ss58check()
}

#[test]
fn endowment_is_two_to_the_sixtieth() {
    assert_eq!(ENDOWMENT, 1u128 << 60);
    assert_eq!(ENDOWMENT, 1_152_921_504_606_846_976);
    assert_eq!(GRANDPA_WEIGHT, 1);
}

#[test]
fn testnet_genesis_builds_patch() {
    let a = [1u8; 32];
    let b = [2u8; 32];
    let c = [3u8; 32];
    let p = testnet_genesis(vec![(a, b), (c, a)], vec![b, c], a);
    assert_eq!(p.balances, vec![(b, ENDOWMENT), (c, ENDOWMENT)]);
    assert_eq!(p.aura_authorities, vec![a, c]);
    assert_eq!(p.grandpa_authorities, vec![(b, 1), (a, 1)]);
    assert_eq!(p.sudo_key, Some(a));
}

#[test]
fn testnet_genesis_empty_lists() {
    let r = [9u8; 32];
    let p = testnet_genesis(vec![], vec![], r);
    assert!(p.balances.is_empty());
    assert!(p.aura_authorities.is_empty());
    assert!(p.grandpa_authorities.is_empty());
    assert_eq!(p.sudo_key, Some(r));
}

#[test]
fn development_genesis_uses_alice() {
    let p = development_config_genesis();
    let alice = sr(Sr25519Keyring::Alice);
    assert_eq!(p.aura_authorities, vec![alice]);
    assert_eq!(p.grandpa_authorities, vec![(Ed25519Keyring::Alice.to_raw_public(), 1)]);
    assert_eq!(p.sudo_key, Some(alice));
    let endowed: Vec<[u8; 32]> = p.balances.iter().map(|e| e.0).collect();
    assert_eq!(
        endowed,
        vec![alice, sr(Sr25519Keyring::Bob), sr(Sr25519Keyring::AliceStash), sr(Sr25519Keyring::BobStash)]
    );
    assert!(p.balances.iter().all(|e| e.1 == ENDOWMENT));
}

#[test]
fn local_genesis_endows_all_but_one_and_two() {
    let p = local_config_genesis();
    let expected: Vec<[u8; 32]> = Sr25519Keyring::iter()
        .filter(|v| v != &Sr25519Keyring::One && v != &Sr25519Keyring::Two)
        .map(|v| v.to_raw_public())
        .collect();
    let endowed: Vec<[u8; 32]> = p.balances.iter().map(|e| e.0).collect();
    assert_eq!(endowed.len(), 12);
    assert_eq!(endowed, expected);
    assert_eq!(p.aura_authorities, vec![sr(Sr25519Keyring::Alice), sr(Sr25519Keyring::Bob)]);
    assert_eq!(
        p.grandpa_authorities,
        vec![(Ed25519Keyring::Alice.to_raw_public(), 1), (Ed25519Keyring::Bob.to_raw_public(), 1)]
    );
    assert_eq!(p.sudo_key, Some(sr(Sr25519Keyring::Alice)));
}

#[test]
fn development_preset_json_text() {
    let json = get_preset(&"development".to_string()).expect("development preset");
    let text = String::from_utf8(json).unwrap();
    let expected = format!(
        "{{\"aura\":{{\"authorities\":[\"{a}\"]}},\"balances\":{{\"balances\":[[\"{a}\",1152921504606846976],[\"{b}\",1152921504606846976],[\"{as_}\",1152921504606846976],[\"{bs}\",1152921504606846976]]}},\"grandpa\":{{\"authorities\":[[\"{ae}\",1]]}},\"sudo\":{{\"key\":\"{a}\"}}}}",
        a = ss58(Sr25519Keyring::Alice),
        b = ss58(Sr25519Keyring::Bob),
        as_ = ss58(Sr25519Keyring::AliceStash),
        bs = ss58(Sr25519Keyring::BobStash),
        ae = ed_ss58(Ed25519Keyring::Alice),
    );
    assert_eq!(text, expected);
    assert!(text.contains("5GrwvaEF5zXb26Fz9rcQpDWS57CtERHpNehXCPcNoHGKutQY"));
}

#[test]
fn local_preset_json_parses() {
    let json = get_preset(&"local_testnet".to_string()).expect("local preset");
    let v: serde_json::Value = serde_json::from_slice(&json).unwrap();
    let balances = v["balances"]["balances"].as_array().unwrap();
    assert_eq!(balances.len(), 12);
    assert_eq!(balances[0][0].as_str().unwrap(), ss58(Sr25519Keyring::Alice));
    assert_eq!(balances[11][0].as_str().unwrap(), ss58(Sr25519Keyring::FerdieStash));
    assert_eq!(balances[3][1].as_u64().unwrap(), 1u64 << 60);
    let aura = v["aura"]["authorities"].as_array().unwrap();
    assert_eq!(aura.len(), 2);
    assert_eq!(aura[1].as_str().unwrap(), ss58(Sr25519Keyring::Bob));
    assert_eq!(v["grandpa"]["authorities"][1][0].as_str().unwrap(), ed_ss58(Ed25519Keyring::Bob));
    assert_eq!(v["grandpa"]["authorities"][1][1].as_u64().unwrap(), 1);
    assert_eq!(v["sudo"]["key"].as_str().unwrap(), ss58(Sr25519Keyring::Alice));
}

#[test]
fn unknown_preset_is_none() {
    assert!(get_preset(&"staging".to_string()).is_none());
    assert!(get_preset(&"".to_string()).is_none());
    assert!(get_preset(&"Development".to_string()).is_none());
}

#[test]
fn preset_names_are_development_and_local_testnet() {
    let names = preset_names();
    assert_eq!(names, vec!["development".to_string(), "local_testnet".to_string()]);
    for n in names {
        assert!(get_preset(&n).is_some());
    }
}

#[test]
fn patch_json_without_sudo_and_empty_lists() {
    let p = GenesisPatch { balances: vec![], aura_authorities: vec![], grandpa_authorities: vec![], sudo_key: None };
    let text = String::from_utf8(genesis_patch_json(&p)).unwrap();
    assert_eq!(
        text,
        "{\"aura\":{\"authorities\":[]},\"balances\":{\"balances\":[]},\"grandpa\":{\"authorities\":[]},\"sudo\":{\"key\":null}}"
    );
}

#[test]
fn patch_json_numbers_in_decimal() {
    let k = Sr25519Keyring::Charlie.to_raw_public();
    let p = GenesisPatch {
        balances: vec![(k, 0), (k, 9), (k, 10), (k, u128::MAX)],
        aura_authorities: vec![],
        grandpa_authorities: vec![(k, u64::MAX)],
        sudo_key: None,
    };
    let v: serde_json::Value = serde_json::from_slice(&genesis_patch_json(&p)).unwrap();
    let text = String::from_utf8(genesis_patch_json(&p)).unwrap();
    assert!(text.contains(",0],"));
    assert!(text.contains(",9],"));
    assert!(text.contains(",10],"));
    assert!(text.contains(",340282366920938463463374607431768211455]"));
    assert!(text.contains(",18446744073709551615]"));
    assert_eq!(v["balances"]["balances"][2][0].as_str().unwrap(), ss58(Sr25519Keyring::Charlie));
}
