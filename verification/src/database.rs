//! Bootstrapping the engine's in-memory database from a sparse prestate
//! snapshot: for each account first its storage slots, then its balance,
//! nonce, code and code hash.

use vstd::prelude::*;
use crate::primitives::{zero_hash_bytes, Address, B256, U256};

verus! {

/// What a prestate snapshot reports of one account. A field that is absent
/// stands for the chain's default: no balance, nonce 0, no code, no storage.
#[derive(Clone, Debug)]
pub struct AccountDetails {
    pub balance: Option<U256>,
    pub nonce: Option<u64>,
    pub code: Option<Vec<u8>>,
    pub storage: Option<Vec<(U256, U256)>>,
}

/// One account of a snapshot, under its address.
pub type PrestateEntry = (Address, AccountDetails);

/// What the database knows of an account, as plain values.
pub ghost struct AccountRecord {
    pub balance: nat,
    pub nonce: u64,
    pub code_hash: Seq<u8>,
    pub code: Option<Seq<u8>>,
}

/// `revm::database::CacheDB`, the engine's caching database.
#[verifier::external_type_specification]
#[verifier::external_body]
#[verifier::reject_recursive_types(ExtDB)]
pub struct ExCacheDB<ExtDB>(revm::database::CacheDB<ExtDB>);

/// `revm::database::EmptyDBTyped`, the database without contents that a
/// `CacheDB` falls back on.
#[verifier::external_type_specification]
#[verifier::external_body]
#[verifier::reject_recursive_types(E)]
pub struct ExEmptyDBTyped<E>(revm::database::EmptyDBTyped<E>);

/// `revm::state::Bytecode`, contract code after analysis.
#[verifier::external_type_specification]
#[verifier::external_body]
pub struct ExBytecode(revm::state::Bytecode);

/// The accounts that `db` has cached in a state other than "not existing",
/// each under the 20 bytes of its address, with the bytes of its code as they
/// were before analysis.
pub uninterp spec fn db_accounts(db: revm::database::InMemoryDB) -> Map<Seq<u8>, AccountRecord>;

/// The storage slots that `db` has cached, each under the bytes of its
/// account's address and its key.
pub uninterp spec fn db_storage(db: revm::database::InMemoryDB) -> Map<(Seq<u8>, nat), nat>;

/// The accounts of a database that has cached nothing.
pub open spec fn no_accounts() -> Map<Seq<u8>, AccountRecord> {
    Map::empty()
}

/// The storage of a database that has cached nothing.
pub open spec fn no_storage() -> Map<(Seq<u8>, nat), nat> {
    Map::empty()
}

/// The bytes that `code` was made from, without the padding that analysis
/// adds: what `Bytecode::original_byte_slice` of `revm` returns.
pub uninterp spec fn bytecode_bytes(code: revm::state::Bytecode) -> Seq<u8>;

/// The Keccak-256 hash of `bytes`, as `alloy_primitives::keccak256` computes it.
pub uninterp spec fn keccak256(bytes: Seq<u8>) -> Seq<u8>;

/// The Keccak-256 hash of the empty byte string, which stands for "no code".
pub open spec fn keccak_empty_bytes() -> Seq<u8> {
    seq![
        0xc5u8, 0xd2u8, 0x46u8, 0x01u8, 0x86u8, 0xf7u8, 0x23u8, 0x3cu8,
        0x92u8, 0x7eu8, 0x7du8, 0xb2u8, 0xdcu8, 0xc7u8, 0x03u8, 0xc0u8,
        0xe5u8, 0x00u8, 0xb6u8, 0x53u8, 0xcau8, 0x82u8, 0x27u8, 0x3bu8,
        0x7bu8, 0xfau8, 0xd8u8, 0x04u8, 0x5du8, 0x85u8, 0xa4u8, 0x70u8,
    ]
}

/// Raw code that the engine accepts. Code that begins with the delegation
/// marker `0xef01` must be a delegation designator: 23 bytes, version 0.
pub open spec fn is_raw_code(code: Seq<u8>) -> bool {
    code.len() >= 2 && code[0] == 0xef && code[1] == 0x01 ==> code.len() == 23 && code[2] == 0
}

/// The code hash that the database keeps for an account that is inserted with
/// `code_hash` and `code`: the empty-code hash is replaced by the hash of
/// code that is not empty, and a hash of all zeros by the empty-code hash.
pub open spec fn stored_code_hash(code_hash: Seq<u8>, code: Option<Seq<u8>>) -> Seq<u8> {
    let rehashed = match code {
        Some(c) if c.len() > 0 && code_hash == keccak_empty_bytes() => keccak256(c),
        _ => code_hash,
    };
    if rehashed == zero_hash_bytes() {
        keccak_empty_bytes()
    } else {
        rehashed
    }
}

/// `alloy_primitives::keccak256`. The hash is a function of the bytes alone,
/// and that of the empty string is the constant that `revm` documents as
/// `KECCAK_EMPTY`.
#[verifier::external_body]
fn keccak256_hash(bytes: &Vec<u8>) -> (r: B256)
    ensures
        r.0@ == keccak256(bytes@),
        bytes@.len() == 0 ==> r.0@ == keccak_empty_bytes(),
{
    B256(revm::primitives::keccak256(bytes).0)
}

/// `Bytecode::new_raw` of `revm`: analyses a copy of `code`. The outside
/// function stops on a malformed delegation designator.
#[verifier::external_body]
fn new_raw_bytecode(code: &Vec<u8>) -> (r: revm::state::Bytecode)
    requires
        is_raw_code(code@),
    ensures
        bytecode_bytes(r) == code@,
{
    revm::state::Bytecode::new_raw(revm::primitives::Bytes::copy_from_slice(code))
}

/// `InMemoryDB::default` of `revm`: a database that has cached nothing.
#[verifier::external_body]
fn new_database() -> (db: revm::database::InMemoryDB)
    ensures
        db_accounts(db) == no_accounts(),
        db_storage(db) == no_storage(),
{
    revm::database::InMemoryDB::default()
}

/// `CacheDB::insert_account_storage` of `revm`: sets one slot. An account that
/// was not cached is cached as not existing, so the accounts stay as they were.
#[verifier::external_body]
fn insert_account_storage(
    db: &mut revm::database::InMemoryDB,
    address: &Address,
    slot: &U256,
    value: &U256,
)
    ensures
        db_accounts(*final(db)) == db_accounts(*old(db)),
        db_storage(*final(db)) == db_storage(*old(db)).insert(
            (address.0@, slot.value()),
            value.value(),
        ),
{
    let _ = db.insert_account_storage(
        revm::primitives::Address::from(address.0),
        revm::primitives::U256::from_limbs(slot.limbs),
        revm::primitives::U256::from_limbs(value.limbs),
    );
}

/// `CacheDB::insert_account_info` of `revm`: replaces what is known of the
/// account, settles its code hash, and leaves all storage as it was.
#[verifier::external_body]
fn insert_account_info(
    db: &mut revm::database::InMemoryDB,
    address: &Address,
    balance: &U256,
    nonce: u64,
    code_hash: &B256,
    code: Option<revm::state::Bytecode>,
)
    ensures
        db_accounts(*final(db)) == db_accounts(*old(db)).insert(
            address.0@,
            AccountRecord {
                balance: balance.value(),
                nonce,
                code_hash: stored_code_hash(code_hash.0@, bytes_of(code)),
                code: bytes_of(code),
            },
        ),
        db_storage(*final(db)) == db_storage(*old(db)),
{
    db.insert_account_info(
        revm::primitives::Address::from(address.0),
        revm::state::AccountInfo {
            balance: revm::primitives::U256::from_limbs(balance.limbs),
            nonce,
            code_hash: revm::primitives::B256::from(code_hash.0),
            account_id: None,
            code,
        },
    );
}

/// The bytes of code that may be absent.
pub open spec fn bytes_of(code: Option<revm::state::Bytecode>) -> Option<Seq<u8>> {
    match code {
        Some(c) => Some(bytecode_bytes(c)),
        None => None,
    }
}

/// A code hash as the database settles it: all zeros becomes the empty-code
/// hash, anything else stays.
pub open spec fn settled(code_hash: Seq<u8>) -> Seq<u8> {
    if code_hash == zero_hash_bytes() {
        keccak_empty_bytes()
    } else {
        code_hash
    }
}

/// The code hash that a snapshot entry with `code` is inserted with: the hash
/// of the code, or the empty-code hash where the entry has none.
pub open spec fn code_hash_for(code: Option<Vec<u8>>) -> Seq<u8> {
    match code {
        Some(c) => keccak256(c@),
        None => keccak_empty_bytes(),
    }
}

/// The storage slots that a snapshot entry reports, in its order.
pub open spec fn slots_of(details: AccountDetails) -> Seq<(U256, U256)> {
    match details.storage {
        Some(slots) => slots@,
        None => Seq::empty(),
    }
}

/// The code bytes that a snapshot entry reports.
pub open spec fn code_of(details: AccountDetails) -> Option<Seq<u8>> {
    match details.code {
        Some(c) => Some(c@),
        None => None,
    }
}

/// What the database knows of an account after it was inserted from
/// `details` with `code_hash`: absent fields at their defaults.
pub open spec fn record_of(details: AccountDetails, code_hash: Seq<u8>) -> AccountRecord {
    AccountRecord {
        balance: match details.balance {
            Some(b) => b.value(),
            None => 0,
        },
        nonce: match details.nonce {
            Some(n) => n,
            None => 0,
        },
        code_hash: stored_code_hash(code_hash, code_of(details)),
        code: code_of(details),
    }
}

/// `storage` after `slots` were set for `address` one after the other.
pub open spec fn slots_onto(
    storage: Map<(Seq<u8>, nat), nat>,
    address: Seq<u8>,
    slots: Seq<(U256, U256)>,
) -> Map<(Seq<u8>, nat), nat>
    decreases slots.len(),
{
    if slots.len() == 0 {
        storage
    } else {
        slots_onto(storage, address, slots.drop_last()).insert(
            (address, slots.last().0.value()),
            slots.last().1.value(),
        )
    }
}

/// The accounts of the database that is built from `prestate`.
pub open spec fn accounts_of(prestate: Seq<PrestateEntry>) -> Map<Seq<u8>, AccountRecord>
    decreases prestate.len(),
{
    if prestate.len() == 0 {
        no_accounts()
    } else {
        accounts_of(prestate.drop_last()).insert(
            prestate.last().0.0@,
            record_of(prestate.last().1, code_hash_for(prestate.last().1.code)),
        )
    }
}

/// The storage of the database that is built from `prestate`.
pub open spec fn storage_of(prestate: Seq<PrestateEntry>) -> Map<(Seq<u8>, nat), nat>
    decreases prestate.len(),
{
    if prestate.len() == 0 {
        no_storage()
    } else {
        slots_onto(
            storage_of(prestate.drop_last()),
            prestate.last().0.0@,
            slots_of(prestate.last().1),
        )
    }
}

/// Every piece of code in `prestate` is raw code that the engine accepts.
pub open spec fn all_code_is_raw(prestate: Seq<PrestateEntry>) -> bool {
    forall|i: int|
        #![trigger prestate[i]]
        0 <= i < prestate.len() ==> (prestate[i].1.code matches Some(c) ==> is_raw_code(c@))
}

/// Setting slots for one address adds keys for that address only, and only
/// the keys that the slots name.
pub proof fn lemma_slots_onto_keys(
    storage: Map<(Seq<u8>, nat), nat>,
    address: Seq<u8>,
    slots: Seq<(U256, U256)>,
    at: (Seq<u8>, nat),
)
    ensures
        slots_onto(storage, address, slots).contains_key(at) <==> storage.contains_key(at) || (at.0
            == address && exists|j: int|
            0 <= j < slots.len() && (#[trigger] slots[j]).0.value() == at.1),
    decreases slots.len(),
{
    if slots.len() > 0 {
        let rest = slots.drop_last();
        lemma_slots_onto_keys(storage, address, rest, at);
        if at.0 == address {
            if exists|j: int| 0 <= j < slots.len() && (#[trigger] slots[j]).0.value() == at.1 {
                let j = choose|j: int| 0 <= j < slots.len() && (#[trigger] slots[j]).0.value() == at.1;
                if j < rest.len() {
                    assert(rest[j] == slots[j]);
                }
            }
            if exists|j: int| 0 <= j < rest.len() && (#[trigger] rest[j]).0.value() == at.1 {
                let j = choose|j: int| 0 <= j < rest.len() && (#[trigger] rest[j]).0.value() == at.1;
                assert(slots[j] == rest[j]);
            }
        }
    }
}

/// The database holds an account for an address exactly when the snapshot has
/// an entry for it: one account per address of the snapshot, and no other.
pub proof fn lemma_one_account_per_address(prestate: Seq<PrestateEntry>, address: Seq<u8>)
    ensures
        accounts_of(prestate).contains_key(address) <==> exists|i: int|
            0 <= i < prestate.len() && (#[trigger] prestate[i]).0.0@ == address,
    decreases prestate.len(),
{
    if prestate.len() > 0 {
        let rest = prestate.drop_last();
        lemma_one_account_per_address(rest, address);
        if exists|i: int| 0 <= i < prestate.len() && (#[trigger] prestate[i]).0.0@ == address {
            let i = choose|i: int| 0 <= i < prestate.len() && (#[trigger] prestate[i]).0.0@ == address;
            if i < rest.len() {
                assert(rest[i] == prestate[i]);
            }
        }
        if exists|i: int| 0 <= i < rest.len() && (#[trigger] rest[i]).0.0@ == address {
            let i = choose|i: int| 0 <= i < rest.len() && (#[trigger] rest[i]).0.0@ == address;
            assert(prestate[i] == rest[i]);
        }
    }
}

/// Of an address that the snapshot does not name the database holds nothing:
/// no account and no storage slot.
pub proof fn lemma_absent_address_has_nothing(prestate: Seq<PrestateEntry>, address: Seq<u8>)
    requires
        forall|i: int| 0 <= i < prestate.len() ==> (#[trigger] prestate[i]).0.0@ != address,
    ensures
        !accounts_of(prestate).contains_key(address),
        forall|key: nat| !storage_of(prestate).contains_key((address, key)),
    decreases prestate.len(),
{
    lemma_one_account_per_address(prestate, address);
    if prestate.len() > 0 {
        let rest = prestate.drop_last();
        assert forall|i: int| 0 <= i < rest.len() implies (#[trigger] rest[i]).0.0@ != address by {
            assert(rest[i] == prestate[i]);
        }
        lemma_absent_address_has_nothing(rest, address);
        assert forall|key: nat| !storage_of(prestate).contains_key((address, key)) by {
            lemma_slots_onto_keys(
                storage_of(rest),
                prestate.last().0.0@,
                slots_of(prestate.last().1),
                (address, key),
            );
        }
    }
}

/// The account that the database holds for an address is the one that the
/// last entry for that address describes, absent fields at their defaults.
pub proof fn lemma_last_entry_decides(prestate: Seq<PrestateEntry>, i: int)
    requires
        0 <= i < prestate.len(),
        forall|j: int| i < j < prestate.len() ==> (#[trigger] prestate[j]).0.0@ != prestate[i].0.0@,
    ensures
        accounts_of(prestate).contains_key(prestate[i].0.0@),
        accounts_of(prestate)[prestate[i].0.0@] == record_of(
            prestate[i].1,
            code_hash_for(prestate[i].1.code),
        ),
    decreases prestate.len(),
{
    if i < prestate.len() - 1 {
        let rest = prestate.drop_last();
        assert(rest[i] == prestate[i]);
        assert forall|j: int| i < j < rest.len() implies (#[trigger] rest[j]).0.0@
            != rest[i].0.0@ by {
            assert(rest[j] == prestate[j]);
        }
        lemma_last_entry_decides(rest, i);
        let _ = prestate[prestate.len() - 1];
    }
}

/// The code hash of an account that was built from a snapshot entry: the
/// empty-code hash where the entry has no code, else the settled hash of its
/// code.
pub proof fn lemma_snapshot_code_hash(details: AccountDetails)
    ensures
        record_of(details, code_hash_for(details.code)).code_hash == (match details.code {
            Some(c) => settled(keccak256(c@)),
            None => keccak_empty_bytes(),
        }),
{
    assert(keccak_empty_bytes()[0] == 0xc5u8);
    assert(zero_hash_bytes()[0] == 0u8);
}

/// Tells whether `code` is raw code that the engine accepts.
pub fn check_raw_code(code: &Vec<u8>) -> (ok: bool)
    ensures
        ok == is_raw_code(code@),
{
    if code.len() >= 2 && code[0] == 0xef && code[1] == 0x01 {
        code.len() == 23 && code[2] == 0
    } else {
        true
    }
}

/// Tells whether every piece of code in `prestate` is raw code that the
/// engine accepts.
pub fn check_prestate_code(prestate: &Vec<PrestateEntry>) -> (ok: bool)
    ensures
        ok == all_code_is_raw(prestate@),
{
    let mut i: usize = 0;
    while i < prestate.len()
        invariant
            i <= prestate.len(),
            forall|j: int|
                #![trigger prestate@[j]]
                0 <= j < i ==> (prestate@[j].1.code matches Some(c) ==> is_raw_code(c@)),
        decreases prestate.len() - i,
    {
        match &prestate[i].1.code {
            Some(c) => {
                if !check_raw_code(c) {
                    return false;
                }
            },
            None => {},
        }
        i = i + 1;
    }
    true
}

/// The hash of the empty byte string.
pub fn keccak_empty() -> (r: B256)
    ensures
        r.0@ == keccak_empty_bytes(),
{
    let r = B256(
        [
            0xc5, 0xd2, 0x46, 0x01, 0x86, 0xf7, 0x23, 0x3c,
            0x92, 0x7e, 0x7d, 0xb2, 0xdc, 0xc7, 0x03, 0xc0,
            0xe5, 0x00, 0xb6, 0x53, 0xca, 0x82, 0x27, 0x3b,
            0x7b, 0xfa, 0xd8, 0x04, 0x5d, 0x85, 0xa4, 0x70,
        ],
    );
    proof {
        assert(r.0@ =~= keccak_empty_bytes());
    }
    r
}

/// The code hash that an account with `code` is inserted with.
pub fn code_hash_of(code: &Option<Vec<u8>>) -> (r: B256)
    ensures
        r.0@ == code_hash_for(*code),
{
    match code {
        Some(c) => keccak256_hash(c),
        None => keccak_empty(),
    }
}

/// Installs one account of a snapshot: first each of its storage slots, then
/// its balance, nonce and code under `code_hash`.
pub fn insert_account(
    db: &mut revm::database::InMemoryDB,
    address: &Address,
    details: &AccountDetails,
    code_hash: &B256,
)
    requires
        details.code matches Some(c) ==> is_raw_code(c@),
    ensures
        db_storage(*final(db)) == slots_onto(db_storage(*old(db)), address.0@, slots_of(*details)),
        db_accounts(*final(db)) == db_accounts(*old(db)).insert(
            address.0@,
            record_of(*details, code_hash.0@),
        ),
{
    let ghost storage_before = db_storage(*db);
    let ghost accounts_before = db_accounts(*db);
    match &details.storage {
        Some(slots) => {
            let mut j: usize = 0;
            while j < slots.len()
                invariant
                    j <= slots.len(),
                    db_accounts(*db) == accounts_before,
                    db_storage(*db) == slots_onto(storage_before, address.0@, slots@.take(j as int)),
                decreases slots.len() - j,
            {
                proof {
                    assert(slots@.take(j + 1).drop_last() =~= slots@.take(j as int));
                }
                insert_account_storage(db, address, &slots[j].0, &slots[j].1);
                j = j + 1;
            }
            proof {
                assert(slots@.take(j as int) =~= slots@);
            }
        },
        None => {},
    }
    let balance = match details.balance {
        Some(b) => b,
        None => U256::zero(),
    };
    let nonce = match details.nonce {
        Some(n) => n,
        None => 0,
    };
    let code = match &details.code {
        Some(c) => Some(new_raw_bytecode(c)),
        None => None,
    };
    insert_account_info(db, address, &balance, nonce, code_hash, code);
}

/// Builds the engine's database from a prestate snapshot, entry by entry.
/// Where two entries name one address, the later one decides balance, nonce
/// and code, and the slots of both are set.
pub fn create_in_memory_database_from_prestate_trace(prestate_tracer_result: Vec<PrestateEntry>) -> (db:
    revm::database::InMemoryDB)
    requires
        all_code_is_raw(prestate_tracer_result@),
    ensures
        db_accounts(db) == accounts_of(prestate_tracer_result@),
        db_storage(db) == storage_of(prestate_tracer_result@),
{
    let mut database = new_database();
    let mut i: usize = 0;
    while i < prestate_tracer_result.len()
        invariant
            i <= prestate_tracer_result.len(),
            all_code_is_raw(prestate_tracer_result@),
            db_accounts(database) == accounts_of(prestate_tracer_result@.take(i as int)),
            db_storage(database) == storage_of(prestate_tracer_result@.take(i as int)),
        decreases prestate_tracer_result.len() - i,
    {
        proof {
            assert(prestate_tracer_result@.take(i + 1).drop_last()
                =~= prestate_tracer_result@.take(i as int));
            let _ = prestate_tracer_result@[i as int];
        }
        let entry = &prestate_tracer_result[i];
        let code_hash = code_hash_of(&entry.1.code);
        insert_account(&mut database, &entry.0, &entry.1, &code_hash);
        i = i + 1;
    }
    proof {
        assert(prestate_tracer_result@.take(i as int) =~= prestate_tracer_result@);
    }
    database
}

} // verus!
