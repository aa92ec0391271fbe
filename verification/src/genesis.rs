//! Genesis presets: the initial balances, consensus authorities and sudo key
//! of the development and local-testnet chains, and their JSON patch.

use crate::json::{comma_joined, decimal, lemma_comma_joined_step, push_bytes, push_decimal, push_text, quoted, text};
use crate::keys::{
    dev_account_names, ed25519_dev_public, ed25519_public_of, sr25519_dev_public, sr25519_keyring_names,
    sr25519_public_of, ss58_encode, ss58_text,
};
use crate::runtime::{AccountId, AuraId, Balance, GrandpaId, EXISTENTIAL_DEPOSIT, SS58_PREFIX};
use vstd::prelude::*;

verus! {

/// The balance given to every endowed account at genesis: 2^60.
pub const ENDOWMENT: Balance = 1u128 << 60;

/// The voting weight of every GRANDPA authority at genesis.
pub const GRANDPA_WEIGHT: u64 = 1;

/// The abstract genesis patch: keys as byte sequences.
pub struct GenesisPatchView {
    pub balances: Seq<(Seq<u8>, u128)>,
    pub aura_authorities: Seq<Seq<u8>>,
    pub grandpa_authorities: Seq<(Seq<u8>, u64)>,
    pub sudo_key: Option<Seq<u8>>,
}

/// The part of the runtime's genesis configuration that a preset sets: the
/// endowed balances, the AURA and GRANDPA authorities and the sudo key.
pub struct GenesisPatch {
    pub balances: Vec<(AccountId, Balance)>,
    pub aura_authorities: Vec<AuraId>,
    pub grandpa_authorities: Vec<(GrandpaId, u64)>,
    pub sudo_key: Option<AccountId>,
}

/// The keys as byte sequences.
pub open spec fn key_views(keys: Seq<[u8; 32]>) -> Seq<Seq<u8>> {
    keys.map_values(|k: [u8; 32]| k@)
}

/// Balance entries with their keys as byte sequences.
pub open spec fn balance_views(entries: Seq<([u8; 32], u128)>) -> Seq<(Seq<u8>, u128)> {
    entries.map_values(|e: ([u8; 32], u128)| (e.0@, e.1))
}

/// Weighted entries with their keys as byte sequences.
pub open spec fn weight_views(entries: Seq<([u8; 32], u64)>) -> Seq<(Seq<u8>, u64)> {
    entries.map_values(|e: ([u8; 32], u64)| (e.0@, e.1))
}

/// Authority pairs with their keys as byte sequences.
pub open spec fn authority_views(pairs: Seq<([u8; 32], [u8; 32])>) -> Seq<(Seq<u8>, Seq<u8>)> {
    pairs.map_values(|p: ([u8; 32], [u8; 32])| (p.0@, p.1@))
}

impl View for GenesisPatch {
    type V = GenesisPatchView;

    open spec fn view(&self) -> GenesisPatchView {
        GenesisPatchView {
            balances: balance_views(self.balances@),
            aura_authorities: key_views(self.aura_authorities@),
            grandpa_authorities: weight_views(self.grandpa_authorities@),
            sudo_key: match self.sudo_key {
                Some(k) => Some(k@),
                None => None,
            },
        }
    }
}

/// The patch of a test network: every endowed account gets `ENDOWMENT`, the
/// first key of each authority pair is an AURA authority, the second a GRANDPA
/// authority of weight one, and `root` is the sudo key.
pub open spec fn testnet_patch(
    authorities: Seq<(Seq<u8>, Seq<u8>)>,
    endowed: Seq<Seq<u8>>,
    root: Seq<u8>,
) -> GenesisPatchView {
    GenesisPatchView {
        balances: endowed.map_values(|k: Seq<u8>| (k, ENDOWMENT)),
        aura_authorities: authorities.map_values(|a: (Seq<u8>, Seq<u8>)| a.0),
        grandpa_authorities: authorities.map_values(|a: (Seq<u8>, Seq<u8>)| (a.1, GRANDPA_WEIGHT)),
        sudo_key: Some(root),
    }
}

/// Builds the genesis patch of a test network.
pub fn testnet_genesis(
    initial_authorities: Vec<(AuraId, GrandpaId)>,
    endowed_accounts: Vec<AccountId>,
    root: AccountId,
) -> (patch: GenesisPatch)
    ensures
        patch@ == testnet_patch(authority_views(initial_authorities@), key_views(endowed_accounts@), root@),
{
    let mut balances: Vec<(AccountId, Balance)> = Vec::new();
    for i in 0..endowed_accounts.len()
        invariant
            balances@.len() == i,
            forall|j: int| 0 <= j < i ==> #[trigger] balances@[j] == (endowed_accounts@[j], ENDOWMENT),
    {
        balances.push((endowed_accounts[i], ENDOWMENT));
    }
    let mut aura: Vec<AuraId> = Vec::new();
    let mut grandpa: Vec<(GrandpaId, u64)> = Vec::new();
    for i in 0..initial_authorities.len()
        invariant
            aura@.len() == i,
            grandpa@.len() == i,
            forall|j: int| 0 <= j < i ==> #[trigger] aura@[j] == initial_authorities@[j].0,
            forall|j: int| 0 <= j < i ==> #[trigger] grandpa@[j] == (initial_authorities@[j].1, GRANDPA_WEIGHT),
    {
        aura.push(initial_authorities[i].0);
        grandpa.push((initial_authorities[i].1, GRANDPA_WEIGHT));
    }
    let patch = GenesisPatch {
        balances,
        aura_authorities: aura,
        grandpa_authorities: grandpa,
        sudo_key: Some(root),
    };
    let ghost expected = testnet_patch(authority_views(initial_authorities@), key_views(endowed_accounts@), root@);
    assert(patch@.balances =~= expected.balances);
    assert(patch@.aura_authorities =~= expected.aura_authorities);
    assert(patch@.grandpa_authorities =~= expected.grandpa_authorities);
    patch
}

/// The development chain: Alice is the only authority and the sudo key, and
/// Alice, Bob and their stash accounts are endowed.
pub open spec fn development_patch() -> GenesisPatchView {
    testnet_patch(
        seq![(sr25519_dev_public("Alice"@), ed25519_dev_public("Alice"@))],
        seq![
            sr25519_dev_public("Alice"@),
            sr25519_dev_public("Bob"@),
            sr25519_dev_public("Alice//stash"@),
            sr25519_dev_public("Bob//stash"@),
        ],
        sr25519_dev_public("Alice"@),
    )
}

/// Whether a development account is endowed on the local testnet: all are but
/// `One` and `Two`.
pub open spec fn endowed_on_local_testnet(name: Seq<char>) -> bool {
    name != "One"@ && name != "Two"@
}

/// The names of a list that are endowed on the local testnet, in order.
pub open spec fn local_endowed(names: Seq<Seq<char>>) -> Seq<Seq<char>>
    decreases names.len(),
{
    if names.len() == 0 {
        Seq::empty()
    } else if endowed_on_local_testnet(names.last()) {
        local_endowed(names.drop_last()).push(names.last())
    } else {
        local_endowed(names.drop_last())
    }
}

/// The local testnet: Alice and Bob are the authorities, Alice is the sudo
/// key, and every development account but `One` and `Two` is endowed.
pub open spec fn local_testnet_patch() -> GenesisPatchView {
    testnet_patch(
        seq![
            (sr25519_dev_public("Alice"@), ed25519_dev_public("Alice"@)),
            (sr25519_dev_public("Bob"@), ed25519_dev_public("Bob"@)),
        ],
        local_endowed(dev_account_names()).map_values(|n: Seq<char>| sr25519_dev_public(n)),
        sr25519_dev_public("Alice"@),
    )
}

/// The genesis patch of the single-node development chain.
pub fn development_config_genesis() -> (patch: GenesisPatch)
    ensures
        patch@ == development_patch(),
{
    assert(dev_account_names()[0] == "Alice"@);
    assert(dev_account_names()[1] == "Bob"@);
    assert(dev_account_names()[6] == "Alice//stash"@);
    assert(dev_account_names()[7] == "Bob//stash"@);
    let alice = sr25519_public_of("Alice");
    let authorities = vec![(alice, ed25519_public_of("Alice"))];
    let endowed = vec![alice, sr25519_public_of("Bob"), sr25519_public_of("Alice//stash"), sr25519_public_of("Bob//stash")];
    let patch = testnet_genesis(authorities, endowed, alice);
    assert(authority_views(authorities@) =~= seq![(sr25519_dev_public("Alice"@), ed25519_dev_public("Alice"@))]);
    assert(key_views(endowed@) =~= seq![
        sr25519_dev_public("Alice"@),
        sr25519_dev_public("Bob"@),
        sr25519_dev_public("Alice//stash"@),
        sr25519_dev_public("Bob//stash"@),
    ]);
    patch
}

/// The genesis patch of the two-authority local testnet.
pub fn local_config_genesis() -> (patch: GenesisPatch)
    ensures
        patch@ == local_testnet_patch(),
{
    assert(dev_account_names()[0] == "Alice"@);
    assert(dev_account_names()[1] == "Bob"@);
    let names = sr25519_keyring_names();
    let ghost all = dev_account_names();
    let one = "One".to_owned();
    let two = "Two".to_owned();
    let mut endowed: Vec<AccountId> = Vec::new();
    for i in 0..names.len()
        invariant
            names@.map_values(|s: &str| s@) == all,
            all == dev_account_names(),
            one@ == "One"@,
            two@ == "Two"@,
            endowed@.len() == local_endowed(all.take(i as int)).len(),
            forall|j: int| 0 <= j < endowed@.len()
                ==> (#[trigger] endowed@[j])@ == sr25519_dev_public(local_endowed(all.take(i as int))[j]),
    {
        let name: &str = names[i];
        assert(names@.map_values(|s: &str| s@)[i as int] == name@);
        assert(all.take(i + 1).drop_last() =~= all.take(i as int));
        assert(all.take(i + 1).last() == name@);
        let owned = name.to_owned();
        if !(owned == one) && !(owned == two) {
            assert(all[i as int] == name@);
            endowed.push(sr25519_public_of(name));
        }
    }
    assert(all.take(names.len() as int) =~= all);
    let alice = sr25519_public_of("Alice");
    let bob = sr25519_public_of("Bob");
    let authorities = vec![(alice, ed25519_public_of("Alice")), (bob, ed25519_public_of("Bob"))];
    let patch = testnet_genesis(authorities, endowed, alice);
    assert(authority_views(authorities@) =~= seq![
        (sr25519_dev_public("Alice"@), ed25519_dev_public("Alice"@)),
        (sr25519_dev_public("Bob"@), ed25519_dev_public("Bob"@)),
    ]);
    assert(key_views(endowed@) =~= local_endowed(dev_account_names()).map_values(|n: Seq<char>| sr25519_dev_public(n)));
    patch
}

/// A key in the patch: the quoted SS58 text of the key under the chain's prefix.
pub open spec fn address_json(key: Seq<u8>) -> Seq<u8> {
    quoted(ss58_text(key, SS58_PREFIX as u16))
}

/// A `[key, amount]` pair in the patch.
pub open spec fn entry_json(key: Seq<u8>, amount: nat) -> Seq<u8> {
    text("[") + address_json(key) + text(",") + decimal(amount) + text("]")
}

/// The JSON of each key.
pub open spec fn address_items(keys: Seq<Seq<u8>>) -> Seq<Seq<u8>> {
    keys.map_values(|k: Seq<u8>| address_json(k))
}

/// The JSON of each balance entry.
pub open spec fn balance_items(entries: Seq<(Seq<u8>, u128)>) -> Seq<Seq<u8>> {
    entries.map_values(|e: (Seq<u8>, u128)| entry_json(e.0, e.1 as nat))
}

/// The JSON of each weighted authority.
pub open spec fn weight_items(entries: Seq<(Seq<u8>, u64)>) -> Seq<Seq<u8>> {
    entries.map_values(|e: (Seq<u8>, u64)| entry_json(e.0, e.1 as nat))
}

/// The JSON of the sudo key: its address, or `null`.
pub open spec fn sudo_json(key: Option<Seq<u8>>) -> Seq<u8> {
    match key {
        Some(k) => address_json(k),
        None => text("null"),
    }
}

/// The compact JSON text of a genesis patch, with the pallets' keys in
/// lexicographic order: `aura`, `balances`, `grandpa`, `sudo`.
pub open spec fn patch_json(p: GenesisPatchView) -> Seq<u8> {
    text("{\"aura\":{\"authorities\":[") + comma_joined(address_items(p.aura_authorities))
        + text("]},\"balances\":{\"balances\":[") + comma_joined(balance_items(p.balances))
        + text("]},\"grandpa\":{\"authorities\":[") + comma_joined(weight_items(p.grandpa_authorities))
        + text("]},\"sudo\":{\"key\":") + sudo_json(p.sudo_key) + text("}}")
}

fn push_address(out: &mut Vec<u8>, key: &[u8; 32])
    ensures
        final(out)@ == old(out)@ + address_json(key@),
{
    let t = ss58_encode(key, SS58_PREFIX as u16);
    push_text(out, "\"");
    push_bytes(out, t.as_slice());
    push_text(out, "\"");
    assert(out@ =~= old(out)@ + address_json(key@));
}

fn push_entry(out: &mut Vec<u8>, key: &[u8; 32], amount: u128)
    ensures
        final(out)@ == old(out)@ + entry_json(key@, amount as nat),
{
    push_text(out, "[");
    push_address(out, key);
    push_text(out, ",");
    push_decimal(out, amount);
    push_text(out, "]");
    assert(out@ =~= old(out)@ + entry_json(key@, amount as nat));
}

fn push_addresses(out: &mut Vec<u8>, keys: &Vec<[u8; 32]>)
    ensures
        final(out)@ == old(out)@ + comma_joined(address_items(key_views(keys@))),
{
    let ghost items = address_items(key_views(keys@));
    for i in 0..keys.len()
        invariant
            items == address_items(key_views(keys@)),
            out@ == old(out)@ + comma_joined(items.take(i as int)),
    {
        proof {
            lemma_comma_joined_step(items, i as int);
        }
        if i > 0 {
            push_text(out, ",");
        }
        push_address(out, &keys[i]);
        assert(items[i as int] == address_json(keys@[i as int]@));
        assert(out@ =~= old(out)@ + comma_joined(items.take(i + 1)));
    }
    assert(items.take(keys.len() as int) =~= items);
}

fn push_balances(out: &mut Vec<u8>, entries: &Vec<([u8; 32], u128)>)
    ensures
        final(out)@ == old(out)@ + comma_joined(balance_items(balance_views(entries@))),
{
    let ghost items = balance_items(balance_views(entries@));
    for i in 0..entries.len()
        invariant
            items == balance_items(balance_views(entries@)),
            out@ == old(out)@ + comma_joined(items.take(i as int)),
    {
        proof {
            lemma_comma_joined_step(items, i as int);
        }
        if i > 0 {
            push_text(out, ",");
        }
        push_entry(out, &entries[i].0, entries[i].1);
        assert(items[i as int] == entry_json(entries@[i as int].0@, entries@[i as int].1 as nat));
        assert(out@ =~= old(out)@ + comma_joined(items.take(i + 1)));
    }
    assert(items.take(entries.len() as int) =~= items);
}

fn push_weights(out: &mut Vec<u8>, entries: &Vec<([u8; 32], u64)>)
    ensures
        final(out)@ == old(out)@ + comma_joined(weight_items(weight_views(entries@))),
{
    let ghost items = weight_items(weight_views(entries@));
    for i in 0..entries.len()
        invariant
            items == weight_items(weight_views(entries@)),
            out@ == old(out)@ + comma_joined(items.take(i as int)),
    {
        proof {
            lemma_comma_joined_step(items, i as int);
        }
        if i > 0 {
            push_text(out, ",");
        }
        push_entry(out, &entries[i].0, entries[i].1 as u128);
        assert(items[i as int] == entry_json(entries@[i as int].0@, entries@[i as int].1 as nat));
        assert(out@ =~= old(out)@ + comma_joined(items.take(i + 1)));
    }
    assert(items.take(entries.len() as int) =~= items);
}

/// Encodes a genesis patch as compact JSON.
pub fn genesis_patch_json(patch: &GenesisPatch) -> (json: Vec<u8>)
    ensures
        json@ == patch_json(patch@),
{
    let mut out: Vec<u8> = Vec::new();
    push_text(&mut out, "{\"aura\":{\"authorities\":[");
    push_addresses(&mut out, &patch.aura_authorities);
    push_text(&mut out, "]},\"balances\":{\"balances\":[");
    push_balances(&mut out, &patch.balances);
    push_text(&mut out, "]},\"grandpa\":{\"authorities\":[");
    push_weights(&mut out, &patch.grandpa_authorities);
    push_text(&mut out, "]},\"sudo\":{\"key\":");
    match &patch.sudo_key {
        Some(k) => push_address(&mut out, k),
        None => push_text(&mut out, "null"),
    }
    push_text(&mut out, "}}");
    assert(out@ =~= patch_json(patch@));
    out
}

/// Returns `sp_genesis_builder::DEV_RUNTIME_PRESET`, which the crate defines as
/// `"development"`.
#[verifier::external_body]
pub(crate) fn dev_runtime_preset() -> (name: &'static str)
    ensures
        name@ == "development"@,
{
    sp_genesis_builder::DEV_RUNTIME_PRESET
}

/// Returns `sp_genesis_builder::LOCAL_TESTNET_RUNTIME_PRESET`, which the crate
/// defines as `"local_testnet"`.
#[verifier::external_body]
pub(crate) fn local_testnet_runtime_preset() -> (name: &'static str)
    ensures
        name@ == "local_testnet"@,
{
    sp_genesis_builder::LOCAL_TESTNET_RUNTIME_PRESET
}

/// The patch of the preset with this name, if the runtime has one.
pub open spec fn preset_patch(id: Seq<char>) -> Option<GenesisPatchView> {
    if id == "development"@ {
        Some(development_patch())
    } else if id == "local_testnet"@ {
        Some(local_testnet_patch())
    } else {
        None
    }
}

/// The names of the presets the runtime offers, in order.
pub open spec fn preset_name_list() -> Seq<Seq<char>> {
    seq!["development"@, "local_testnet"@]
}

/// The JSON patch of the named preset, or `None` for an unknown name.
pub fn get_preset(id: &String) -> (json: Option<Vec<u8>>)
    ensures
        match preset_patch(id@) {
            Some(p) => json is Some && json->0@ == patch_json(p),
            None => json is None,
        },
{
    let dev = dev_runtime_preset().to_owned();
    let local = local_testnet_runtime_preset().to_owned();
    let patch = if *id == dev {
        development_config_genesis()
    } else if *id == local {
        local_config_genesis()
    } else {
        return None;
    };
    Some(genesis_patch_json(&patch))
}

/// The names of the presets the runtime offers.
pub fn preset_names() -> (names: Vec<String>)
    ensures
        names@.map_values(|s: String| s@) == preset_name_list(),
{
    let names = vec![dev_runtime_preset().to_owned(), local_testnet_runtime_preset().to_owned()];
    assert(names@.map_values(|s: String| s@) =~= preset_name_list());
    names
}

/// Every name that `preset_names` lists has a preset, and no other name has one.
pub proof fn lemma_presets_are_the_listed_names(id: Seq<char>)
    ensures
        preset_patch(id) is Some <==> preset_name_list().contains(id),
{
    if id == "development"@ {
        assert(preset_name_list()[0] == id);
    } else if id == "local_testnet"@ {
        assert(preset_name_list()[1] == id);
    }
}

/// Every account that a test network endows starts with more than the
/// existential deposit, so it exists from genesis on.
pub proof fn lemma_endowment_keeps_accounts_alive(
    authorities: Seq<(Seq<u8>, Seq<u8>)>,
    endowed: Seq<Seq<u8>>,
    root: Seq<u8>,
)
    ensures
        forall|i: int| 0 <= i < endowed.len()
            ==> #[trigger] testnet_patch(authorities, endowed, root).balances[i].1 > EXISTENTIAL_DEPOSIT,
        testnet_patch(authorities, endowed, root).balances.len() == endowed.len(),
{
    assert(ENDOWMENT == 1_152_921_504_606_846_976u128) by (bit_vector);
}

/// In a test network the AURA and the GRANDPA authorities are paired one to
/// one: the same number of each, the i-th of both from the i-th pair, and all
/// GRANDPA weights equal to one.
pub proof fn lemma_authorities_paired(
    authorities: Seq<(Seq<u8>, Seq<u8>)>,
    endowed: Seq<Seq<u8>>,
    root: Seq<u8>,
)
    ensures
        ({
            let p = testnet_patch(authorities, endowed, root);
            &&& p.aura_authorities.len() == p.grandpa_authorities.len()
            &&& p.aura_authorities.len() == authorities.len()
            &&& forall|i: int| 0 <= i < authorities.len() ==> #[trigger] p.aura_authorities[i] == authorities[i].0
                && p.grandpa_authorities[i] == (authorities[i].1, 1u64)
        }),
{
}

/// The local testnet endows exactly the first twelve development accounts
/// (Alice to Ferdie and their stash accounts): all but `One` and `Two`.
pub proof fn lemma_local_testnet_endows_well_known_accounts()
    ensures
        local_endowed(dev_account_names()) == dev_account_names().take(12),
{
    reveal_strlit("Alice");
    reveal_strlit("Bob");
    reveal_strlit("Charlie");
    reveal_strlit("Dave");
    reveal_strlit("Eve");
    reveal_strlit("Ferdie");
    reveal_strlit("Alice//stash");
    reveal_strlit("Bob//stash");
    reveal_strlit("Charlie//stash");
    reveal_strlit("Dave//stash");
    reveal_strlit("Eve//stash");
    reveal_strlit("Ferdie//stash");
    reveal_strlit("One");
    reveal_strlit("Two");
    let all = dev_account_names();
    let first = all.take(12);
    assert("One"@[0] == 'O' && "Two"@[0] == 'T');
    assert(all[0][0] == 'A' && all[1][0] == 'B' && all[2][0] == 'C' && all[3][0] == 'D');
    assert(all[4][0] == 'E' && all[5][0] == 'F' && all[6][0] == 'A' && all[7][0] == 'B');
    assert(all[8][0] == 'C' && all[9][0] == 'D' && all[10][0] == 'E' && all[11][0] == 'F');
    assert forall|i: int| 0 <= i < first.len() implies endowed_on_local_testnet(#[trigger] first[i]) by {
        assert(first[i] == all[i]);
        assert(i == 0 || i == 1 || i == 2 || i == 3 || i == 4 || i == 5 || i == 6 || i == 7 || i == 8 || i == 9
            || i == 10 || i == 11);
        assert(all[i][0] != 'O' && all[i][0] != 'T');
    }
    lemma_local_endowed_keeps_all(first);
    let two_off = all.drop_last();
    assert(two_off.drop_last() =~= first);
    assert(two_off.last() == "One"@);
    assert(all.last() == "Two"@);
    assert(local_endowed(all) == local_endowed(two_off));
    assert(local_endowed(two_off) == local_endowed(first));
}

/// A list whose names are all endowed on the local testnet is kept whole.
proof fn lemma_local_endowed_keeps_all(names: Seq<Seq<char>>)
    requires
        forall|i: int| 0 <= i < names.len() ==> endowed_on_local_testnet(#[trigger] names[i]),
    ensures
        local_endowed(names) == names,
    decreases names.len(),
{
    if names.len() > 0 {
        let rest = names.drop_last();
        assert forall|i: int| 0 <= i < rest.len() implies endowed_on_local_testnet(#[trigger] rest[i]) by {
            assert(rest[i] == names[i]);
        }
        lemma_local_endowed_keeps_all(rest);
        assert(names.last() == names[names.len() - 1]);
        assert(rest.push(names.last()) =~= names);
    }
}

/// Each view keeps the order and the values of the entries it is made from:
/// the i-th key view is the i-th key's bytes, and the i-th entry view is the
/// i-th entry's key bytes with the same amount.
pub proof fn lemma_views_keep_entries(
    keys: Seq<[u8; 32]>,
    balances: Seq<([u8; 32], u128)>,
    weights: Seq<([u8; 32], u64)>,
    pairs: Seq<([u8; 32], [u8; 32])>,
)
    ensures
        key_views(keys).len() == keys.len(),
        forall|i: int| 0 <= i < keys.len() ==> #[trigger] key_views(keys)[i] == keys[i]@,
        balance_views(balances).len() == balances.len(),
        forall|i: int| 0 <= i < balances.len() ==> #[trigger] balance_views(balances)[i] == (balances[i].0@, balances[i].1),
        weight_views(weights).len() == weights.len(),
        forall|i: int| 0 <= i < weights.len() ==> #[trigger] weight_views(weights)[i] == (weights[i].0@, weights[i].1),
        authority_views(pairs).len() == pairs.len(),
        forall|i: int| 0 <= i < pairs.len() ==> #[trigger] authority_views(pairs)[i] == (pairs[i].0@, pairs[i].1@),
{
}

/// A test network endows exactly the given accounts, in order, each with
/// 2^60, and nothing else; its sudo key is the root account.
pub proof fn lemma_every_endowed_account_gets_the_endowment(
    authorities: Seq<(Seq<u8>, Seq<u8>)>,
    endowed: Seq<Seq<u8>>,
    root: Seq<u8>,
)
    ensures
        testnet_patch(authorities, endowed, root).balances.len() == endowed.len(),
        forall|i: int| 0 <= i < endowed.len()
            ==> #[trigger] testnet_patch(authorities, endowed, root).balances[i] == (endowed[i], 1_152_921_504_606_846_976u128),
        testnet_patch(authorities, endowed, root).sudo_key == Some(root),
{
    assert(ENDOWMENT == 1_152_921_504_606_846_976u128) by (bit_vector);
}

/// The development chain: Alice alone is the AURA authority, Alice's ed25519
/// key alone the GRANDPA authority with weight one, Alice the sudo key, and
/// Alice, Bob, Alice//stash and Bob//stash are endowed in that order.
pub proof fn lemma_development_preset()
    ensures
        ({
            let p = development_patch();
            &&& p.aura_authorities == seq![sr25519_dev_public("Alice"@)]
            &&& p.grandpa_authorities == seq![(ed25519_dev_public("Alice"@), 1u64)]
            &&& p.sudo_key == Some(sr25519_dev_public("Alice"@))
            &&& p.balances.len() == 4
            &&& p.balances[0] == (sr25519_dev_public("Alice"@), 1_152_921_504_606_846_976u128)
            &&& p.balances[1] == (sr25519_dev_public("Bob"@), 1_152_921_504_606_846_976u128)
            &&& p.balances[2] == (sr25519_dev_public("Alice//stash"@), 1_152_921_504_606_846_976u128)
            &&& p.balances[3] == (sr25519_dev_public("Bob//stash"@), 1_152_921_504_606_846_976u128)
        }),
{
    assert(ENDOWMENT == 1_152_921_504_606_846_976u128) by (bit_vector);
    let p = development_patch();
    assert(p.aura_authorities =~= seq![sr25519_dev_public("Alice"@)]);
    assert(p.grandpa_authorities =~= seq![(ed25519_dev_public("Alice"@), 1u64)]);
}

/// The local testnet: Alice then Bob are the AURA authorities, their ed25519
/// keys the GRANDPA authorities with weight one, Alice the sudo key, and the
/// first twelve development accounts (all but `One` and `Two`) are endowed in
/// their order, each with 2^60.
pub proof fn lemma_local_testnet_preset()
    ensures
        ({
            let p = local_testnet_patch();
            &&& p.aura_authorities == seq![sr25519_dev_public("Alice"@), sr25519_dev_public("Bob"@)]
            &&& p.grandpa_authorities == seq![(ed25519_dev_public("Alice"@), 1u64), (ed25519_dev_public("Bob"@), 1u64)]
            &&& p.sudo_key == Some(sr25519_dev_public("Alice"@))
            &&& p.balances.len() == 12
            &&& forall|i: int| 0 <= i < 12 ==> #[trigger] p.balances[i]
                == (sr25519_dev_public(dev_account_names()[i]), 1_152_921_504_606_846_976u128)
        }),
{
    assert(ENDOWMENT == 1_152_921_504_606_846_976u128) by (bit_vector);
    lemma_local_testnet_endows_well_known_accounts();
    let p = local_testnet_patch();
    assert(p.aura_authorities =~= seq![sr25519_dev_public("Alice"@), sr25519_dev_public("Bob"@)]);
    assert(p.grandpa_authorities =~= seq![(ed25519_dev_public("Alice"@), 1u64), (ed25519_dev_public("Bob"@), 1u64)]);
    assert forall|i: int| 0 <= i < 12 implies #[trigger] p.balances[i]
        == (sr25519_dev_public(dev_account_names()[i]), 1_152_921_504_606_846_976u128) by {
        assert(local_endowed(dev_account_names())[i] == dev_account_names().take(12)[i]);
    }
}

/// The presets by name: "development" gives the development patch,
/// "local_testnet" the local-testnet patch, and both are listed in that order.
pub proof fn lemma_presets_by_name()
    ensures
        preset_patch("development"@) == Some(development_patch()),
        preset_patch("local_testnet"@) == Some(local_testnet_patch()),
        preset_name_list() == seq!["development"@, "local_testnet"@],
{
    reveal_strlit("development");
    reveal_strlit("local_testnet");
    assert("development"@.len() == 11);
    assert("local_testnet"@.len() == 13);
    assert("local_testnet"@ != "development"@);
}

/// The JSON items of a patch, one per entry and in the entries' order: the
/// i-th item is the quoted SS58 text of the i-th key, or `[` that text `,`
/// the i-th amount in decimal `]`.
pub proof fn lemma_items_follow_entries(
    keys: Seq<Seq<u8>>,
    balances: Seq<(Seq<u8>, u128)>,
    weights: Seq<(Seq<u8>, u64)>,
)
    ensures
        address_items(keys).len() == keys.len(),
        forall|i: int| 0 <= i < keys.len() ==> #[trigger] address_items(keys)[i]
            == text("\"") + ss58_text(keys[i], 42u16) + text("\""),
        balance_items(balances).len() == balances.len(),
        forall|i: int| 0 <= i < balances.len() ==> #[trigger] balance_items(balances)[i]
            == text("[") + text("\"") + ss58_text(balances[i].0, 42u16) + text("\"") + text(",")
                + decimal(balances[i].1 as nat) + text("]"),
        weight_items(weights).len() == weights.len(),
        forall|i: int| 0 <= i < weights.len() ==> #[trigger] weight_items(weights)[i]
            == text("[") + text("\"") + ss58_text(weights[i].0, 42u16) + text("\"") + text(",")
                + decimal(weights[i].1 as nat) + text("]"),
{
    assert forall|i: int| 0 <= i < keys.len() implies #[trigger] address_items(keys)[i]
        == text("\"") + ss58_text(keys[i], 42u16) + text("\"") by {
    }
    assert forall|i: int| 0 <= i < balances.len() implies #[trigger] balance_items(balances)[i]
        == text("[") + text("\"") + ss58_text(balances[i].0, 42u16) + text("\"") + text(",")
            + decimal(balances[i].1 as nat) + text("]") by {
        assert(balance_items(balances)[i] =~= text("[") + text("\"") + ss58_text(balances[i].0, 42u16) + text("\"")
            + text(",") + decimal(balances[i].1 as nat) + text("]"));
    }
    assert forall|i: int| 0 <= i < weights.len() implies #[trigger] weight_items(weights)[i]
        == text("[") + text("\"") + ss58_text(weights[i].0, 42u16) + text("\"") + text(",")
            + decimal(weights[i].1 as nat) + text("]") by {
        assert(weight_items(weights)[i] =~= text("[") + text("\"") + ss58_text(weights[i].0, 42u16) + text("\"")
            + text(",") + decimal(weights[i].1 as nat) + text("]"));
    }
}

/// The layout of a patch's JSON: the AURA keys, the balance entries, the
/// GRANDPA entries and the sudo key (or `null`), each list joined by commas,
/// under the keys `aura`, `balances`, `grandpa` and `sudo`.
pub proof fn lemma_patch_json_layout(p: GenesisPatchView)
    ensures
        patch_json(p) == text("{\"aura\":{\"authorities\":[") + comma_joined(address_items(p.aura_authorities))
            + text("]},\"balances\":{\"balances\":[") + comma_joined(balance_items(p.balances))
            + text("]},\"grandpa\":{\"authorities\":[") + comma_joined(weight_items(p.grandpa_authorities))
            + text("]},\"sudo\":{\"key\":") + (match p.sudo_key {
                Some(k) => text("\"") + ss58_text(k, 42u16) + text("\""),
                None => text("null"),
            }) + text("}}"),
{
}

} // verus!
