use vstd::prelude::*;
use crate::primitives::{Address, AccountInfo, U256, B256};

verus! {

/// The execution backend: a `revm::EVM` over an in-memory account database, `revm::db::CacheDB`
/// over `EmptyDB`. Nothing inside it is visible to the proofs; they speak of it through
/// `backend_accounts` and `backend_attached`. Transactions are run on `evm` by the caller.
#[verifier::external_body]
pub struct Backend {
    pub evm: revm::EVM<revm::db::CacheDB<revm::db::EmptyDB>>,
}

/// The account records that the backend's database holds, by address.
pub uninterp spec fn backend_accounts(backend: Backend) -> Map<Address, AccountInfo>;

/// Whether the backend has its database attached.
pub uninterp spec fn backend_attached(backend: Backend) -> bool;

/// The account records of a backend in which nothing was provisioned yet.
pub open spec fn no_accounts() -> Map<Address, AccountInfo> {
    Map::empty()
}

/// What a lookup of `address` in `accounts` gives.
pub open spec fn lookup(accounts: Map<Address, AccountInfo>, address: Address) -> Option<
    AccountInfo,
> {
    if accounts.dom().contains(address) {
        Some(accounts[address])
    } else {
        None
    }
}

/// Makes a backend with `revm::EVM::new`, `revm::db::CacheDB::new` over an `EmptyDB`, and
/// `EVM::database`. The database is attached and holds no account.
#[verifier::external_body]
pub(crate) fn new_backend() -> (backend: Backend)
    ensures
        backend_attached(backend),
        backend_accounts(backend) == no_accounts(),
{
    let mut evm = revm::EVM::new();
    evm.database(revm::db::CacheDB::new(revm::db::EmptyDB {}));
    Backend { evm }
}

/// Calls `CacheDB::insert_account_info` with `AccountInfo::default()`: the record at
/// `address` becomes that of a fresh account, and no other record changes.
#[verifier::external_body]
pub(crate) fn insert_fresh_account(backend: &mut Backend, address: Address)
    requires
        backend_attached(*old(backend)),
    ensures
        backend_attached(*final(backend)),
        backend_accounts(*final(backend)) == backend_accounts(*old(backend)).insert(
            address,
            AccountInfo::fresh(),
        ),
{
    let key = revm::primitives::B160::from_slice(
        &[&address.high.to_be_bytes()[..], &address.low.to_be_bytes()[..]].concat(),
    );
    backend.evm.db().unwrap().insert_account_info(key, revm::primitives::AccountInfo::default());
}

/// Reads the record at `address` from the database's `accounts` map, as `HashMap::get` gives it.
#[verifier::external_body]
pub(crate) fn read_account(backend: &Backend, address: Address) -> (info: Option<AccountInfo>)
    requires
        backend_attached(*backend),
    ensures
        info == lookup(backend_accounts(*backend), address),
{
    let key = revm::primitives::B160::from_slice(
        &[&address.high.to_be_bytes()[..], &address.low.to_be_bytes()[..]].concat(),
    );
    let info = &backend.evm.db.as_ref()?.accounts.get(&key)?.info;
    let (balance, hash) = (info.balance.to_be_bytes::<32>(), info.code_hash.0);
    let half = |bytes: &[u8]| u128::from_be_bytes(bytes.try_into().unwrap());
    Some(AccountInfo {
        balance: U256 { high: half(&balance[..16]), low: half(&balance[16..]) },
        nonce: info.nonce,
        code_hash: B256 { high: half(&hash[..16]), low: half(&hash[16..]) },
    })
}

} // verus!
