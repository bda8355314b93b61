//! The orchestration pipeline: six strictly ordered stages that provision
//! a supply record, issue exactly one unit of it, and attach metadata and
//! a master-edition cap.
//!
//! Every stage is a pure step: it takes the ledger and returns either the
//! successor ledger or the error that aborts the whole transaction.  A
//! caller commits by adopting the returned ledger, so a failing stage
//! leaves the store exactly as it was — the all-or-nothing semantics of
//! the enclosing runtime.
//!
//! Each executable stage is pinned to an open spec function that decides,
//! for every input, both whether the stage succeeds and which error it
//! reports otherwise.

use vstd::prelude::*;

use crate::addresses::{
    spec_edition_address, spec_metadata_address, spec_owner_storage_address, Address,
    edition_address, metadata_address, owner_storage_address,
};
use crate::ledger::Ledger;
use crate::model::{
    Account, AccountData, AccountDataV, AccountV, Creator, EditionRecord, MetadataRecord,
    MetadataRecordV, MintError, OwnerStorageRecord, SupplyRecord, ASSOCIATED_TOKEN_PROGRAM_KEY,
    CREATOR_SHARE, MAX_PRINT_SUPPLY, MAX_SYMBOL_LEN, MAX_TITLE_LEN, MAX_URI_LEN,
    METADATA_PROGRAM_KEY, RENT_EDITION, RENT_METADATA, RENT_OWNER_STORAGE, RENT_SUPPLY,
    RENT_SYSVAR_KEY, RENT_TOTAL, SELLER_FEE_BASIS_POINTS, SUPPLY_RECORD_SIZE, SYSTEM_PROGRAM_KEY,
    TOKEN_PROGRAM_KEY,
};

verus! {

/// The mathematical image of a ledger.
pub type LedgerMap = Map<Address, AccountV>;

/// The account references a caller hands to `mint`, together with which
/// of them signed the transaction.
#[derive(PartialEq, Eq, Structural, Clone, Copy, Debug)]
pub struct MintNft {
    /// Derived metadata-record address, computed off-ledger by the caller.
    pub metadata: Address,
    /// Derived master-edition address.
    pub master_edition: Address,
    /// Fresh identity of the future supply record.
    pub mint: Address,
    /// Derived owner-storage address.
    pub token_account: Address,
    /// The authority: funder, mint, freeze and update authority in one.
    pub mint_authority: Address,
    /// The rent oracle account.
    pub rent: Address,
    /// The base ledger system program.
    pub system_program: Address,
    /// The token program that owns supply records.
    pub token_program: Address,
    /// The associated-account program that owns owner storage.
    pub associated_token_program: Address,
    /// The metadata program.
    pub token_metadata_program: Address,
    /// Whether the fresh supply identity signed the transaction.
    pub mint_signed: bool,
    /// Whether the authority signed the transaction.
    pub mint_authority_signed: bool,
}

/// Whether `a` holds a plain balance-only account at `l`.
pub open spec fn spec_is_wallet(l: LedgerMap, a: Address) -> bool {
    l.contains_key(a) && l[a].data is Wallet
}

/// The supply record stored at `a`, if one is there.
pub open spec fn spec_supply_record_at(l: LedgerMap, a: Address) -> Option<SupplyRecord> {
    if l.contains_key(a) && l[a].data is Supply {
        Some(l[a].data->Supply_0)
    } else {
        None
    }
}

/// Stage 1, account provisioning: allocate raw storage of the supply
/// record's size at the fresh identity `supply`, funded by `authority`.
/// The funding check is made against the combined rent-exempt minimum of
/// all four records, so that a transaction that could not complete is
/// refused before it creates anything.
pub open spec fn spec_provision_account(
    l: LedgerMap,
    supply: Address,
    authority: Address,
    authority_signed: bool,
    supply_signed: bool,
) -> Result<LedgerMap, MintError> {
    if !authority_signed || !supply_signed {
        Err(MintError::Unauthorized)
    } else if !supply.is_signer_capable() {
        Err(MintError::Unauthorized)
    } else if l.contains_key(supply) {
        Err(MintError::AddressAlreadyInUse)
    } else if !spec_is_wallet(l, authority) {
        Err(MintError::AccountMismatch)
    } else if l[authority].balance < RENT_TOTAL {
        Err(MintError::InsufficientFunds)
    } else {
        Ok(
            l.insert(
                authority,
                AccountV { balance: (l[authority].balance - RENT_SUPPLY) as u64, data: AccountDataV::Wallet },
            ).insert(
                supply,
                AccountV {
                    balance: RENT_SUPPLY,
                    data: AccountDataV::Raw { size: SUPPLY_RECORD_SIZE, owner_program: TOKEN_PROGRAM_KEY },
                },
            ),
        )
    }
}

/// Stage 2, supply initialization: turn the provisioned raw storage into
/// a zero-decimal, zero-issued supply record whose mint and freeze
/// authority are both `authority`.
pub open spec fn spec_initialize_supply(
    l: LedgerMap,
    supply: Address,
    authority: Address,
) -> Result<LedgerMap, MintError> {
    if !l.contains_key(supply) {
        Err(MintError::AccountMismatch)
    } else if l[supply].data is Supply {
        Err(MintError::AlreadyInitialized)
    } else if !(l[supply].data matches AccountDataV::Raw { size, owner_program }
        && size == SUPPLY_RECORD_SIZE && owner_program == TOKEN_PROGRAM_KEY) {
        Err(MintError::AccountMismatch)
    } else {
        Ok(
            l.insert(
                supply,
                AccountV {
                    balance: l[supply].balance,
                    data: AccountDataV::Supply(
                        SupplyRecord {
                            decimals: 0,
                            mint_authority: Some(authority),
                            freeze_authority: Some(authority),
                            issued: 0,
                        },
                    ),
                },
            ),
        )
    }
}

/// Stage 3, owner-account resolution: check the caller-supplied
/// `token_account` against the deterministic derivation and create the
/// owner storage if it is absent.  A pre-existing, correctly typed owner
/// storage is accepted unchanged, so the stage is idempotent.
pub open spec fn spec_resolve_owner_storage(
    l: LedgerMap,
    token_account: Address,
    owner: Address,
    supply: Address,
    payer: Address,
    payer_signed: bool,
) -> Result<LedgerMap, MintError> {
    if spec_owner_storage_address(owner, supply) != Some(token_account) {
        Err(MintError::AccountMismatch)
    } else if spec_supply_record_at(l, supply) is None {
        Err(MintError::AccountMismatch)
    } else if l.contains_key(token_account) {
        if l[token_account].data matches AccountDataV::OwnerStorage(os)
            && os.owner == owner && os.supply == supply {
            Ok(l)
        } else {
            Err(MintError::AccountMismatch)
        }
    } else if !payer_signed {
        Err(MintError::Unauthorized)
    } else if !spec_is_wallet(l, payer) {
        Err(MintError::AccountMismatch)
    } else if l[payer].balance < RENT_OWNER_STORAGE {
        Err(MintError::InsufficientFunds)
    } else {
        Ok(
            l.insert(
                payer,
                AccountV { balance: (l[payer].balance - RENT_OWNER_STORAGE) as u64, data: AccountDataV::Wallet },
            ).insert(
                token_account,
                AccountV {
                    balance: RENT_OWNER_STORAGE,
                    data: AccountDataV::OwnerStorage(
                        OwnerStorageRecord { owner, supply, amount: 0 },
                    ),
                },
            ),
        )
    }
}

/// Stage 4, issuance: mint exactly one unit into the owner storage,
/// incrementing both the storage's balance and the record's issued-units
/// counter.  Only the recorded mint authority may do this.
pub open spec fn spec_issue_unit(
    l: LedgerMap,
    supply: Address,
    token_account: Address,
    signer: Address,
    signer_signed: bool,
) -> Result<LedgerMap, MintError> {
    if !signer_signed {
        Err(MintError::Unauthorized)
    } else if spec_supply_record_at(l, supply) is None {
        Err(MintError::AccountMismatch)
    } else if !(l.contains_key(token_account)
        && (l[token_account].data matches AccountDataV::OwnerStorage(os) && os.supply == supply)) {
        Err(MintError::AccountMismatch)
    } else if spec_supply_record_at(l, supply)->Some_0.mint_authority != Some(signer) {
        Err(MintError::Unauthorized)
    } else if spec_supply_record_at(l, supply)->Some_0.issued == u64::MAX
        || l[token_account].data->OwnerStorage_0.amount == u64::MAX {
        Err(MintError::SupplyOverflow)
    } else {
        let record = spec_supply_record_at(l, supply)->Some_0;
        let storage = l[token_account].data->OwnerStorage_0;
        Ok(
            l.insert(
                supply,
                AccountV {
                    balance: l[supply].balance,
                    data: AccountDataV::Supply(
                        SupplyRecord { issued: (record.issued + 1) as u64, ..record },
                    ),
                },
            ).insert(
                token_account,
                AccountV {
                    balance: l[token_account].balance,
                    data: AccountDataV::OwnerStorage(
                        OwnerStorageRecord { amount: (storage.amount + 1) as u64, ..storage },
                    ),
                },
            ),
        )
    }
}

/// The fixed creator list of this flow: the authority alone, verified,
/// with the whole revenue share.
pub open spec fn spec_creator_list(authority: Address) -> Seq<Creator> {
    seq![Creator { identity: authority, verified: true, share: CREATOR_SHARE }]
}

/// Stage 5, metadata registration: attach the display data to the supply
/// record at the derived metadata address.  Over-length strings are a
/// validation failure of the metadata program, surfaced uninterpreted.
pub open spec fn spec_register_metadata(
    l: LedgerMap,
    metadata: Address,
    supply: Address,
    authority: Address,
    authority_signed: bool,
    title: Seq<char>,
    symbol: Seq<char>,
    uri: Seq<char>,
) -> Result<LedgerMap, MintError> {
    if !authority_signed {
        Err(MintError::Unauthorized)
    } else if spec_metadata_address(supply) != Some(metadata) {
        Err(MintError::AccountMismatch)
    } else if l.contains_key(metadata) {
        Err(MintError::AlreadyInitialized)
    } else if spec_supply_record_at(l, supply) is None {
        Err(MintError::AccountMismatch)
    } else if spec_supply_record_at(l, supply)->Some_0.mint_authority != Some(authority) {
        Err(MintError::Unauthorized)
    } else if title.len() > MAX_TITLE_LEN || symbol.len() > MAX_SYMBOL_LEN
        || uri.len() > MAX_URI_LEN {
        Err(MintError::DelegatedCallFailed)
    } else if !spec_is_wallet(l, authority) {
        Err(MintError::AccountMismatch)
    } else if l[authority].balance < RENT_METADATA {
        Err(MintError::InsufficientFunds)
    } else {
        Ok(
            l.insert(
                authority,
                AccountV { balance: (l[authority].balance - RENT_METADATA) as u64, data: AccountDataV::Wallet },
            ).insert(
                metadata,
                AccountV {
                    balance: RENT_METADATA,
                    data: AccountDataV::Metadata(
                        MetadataRecordV {
                            title,
                            symbol,
                            uri,
                            update_authority: authority,
                            creators: spec_creator_list(authority),
                            seller_fee_basis_points: SELLER_FEE_BASIS_POINTS,
                            is_mutable: true,
                            collection: None,
                        },
                    ),
                },
            ),
        )
    }
}

/// Stage 6, edition registration: stamp the master-edition record, with
/// the fixed maximum print count, onto the supply record.  On success the
/// record's mint authority is revoked, fixing the supply forever.
pub open spec fn spec_register_master_edition(
    l: LedgerMap,
    master_edition: Address,
    metadata: Address,
    supply: Address,
    authority: Address,
    authority_signed: bool,
) -> Result<LedgerMap, MintError> {
    if !authority_signed {
        Err(MintError::Unauthorized)
    } else if spec_edition_address(supply) != Some(master_edition) {
        Err(MintError::AccountMismatch)
    } else if spec_metadata_address(supply) != Some(metadata) {
        Err(MintError::AccountMismatch)
    } else if l.contains_key(master_edition) {
        Err(MintError::AlreadyInitialized)
    } else if spec_supply_record_at(l, supply) is None {
        Err(MintError::AccountMismatch)
    } else if !(l.contains_key(metadata) && l[metadata].data is Metadata) {
        Err(MintError::PreconditionFailed)
    } else if spec_supply_record_at(l, supply)->Some_0.mint_authority != Some(authority) {
        Err(MintError::Unauthorized)
    } else if spec_supply_record_at(l, supply)->Some_0.issued != 1 {
        Err(MintError::PreconditionFailed)
    } else if !spec_is_wallet(l, authority) {
        Err(MintError::AccountMismatch)
    } else if l[authority].balance < RENT_EDITION {
        Err(MintError::InsufficientFunds)
    } else {
        let record = spec_supply_record_at(l, supply)->Some_0;
        Ok(
            l.insert(
                authority,
                AccountV { balance: (l[authority].balance - RENT_EDITION) as u64, data: AccountDataV::Wallet },
            ).insert(
                supply,
                AccountV {
                    balance: l[supply].balance,
                    data: AccountDataV::Supply(
                        SupplyRecord { mint_authority: None, ..record },
                    ),
                },
            ).insert(
                master_edition,
                AccountV {
                    balance: RENT_EDITION,
                    data: AccountDataV::Edition(
                        EditionRecord { max_prints: MAX_PRINT_SUPPLY, prints: 0 },
                    ),
                },
            ),
        )
    }
}

/// Whether the collaborator program references in `accounts` are the
/// expected ones.
pub open spec fn spec_programs_ok(accounts: MintNft) -> bool {
    &&& accounts.system_program == Address::Key(SYSTEM_PROGRAM_KEY)
    &&& accounts.token_program == Address::Key(TOKEN_PROGRAM_KEY)
    &&& accounts.associated_token_program == Address::Key(ASSOCIATED_TOKEN_PROGRAM_KEY)
    &&& accounts.token_metadata_program == Address::Key(METADATA_PROGRAM_KEY)
    &&& accounts.rent == Address::Key(RENT_SYSVAR_KEY)
}

/// The whole pipeline: the six stages run strictly top to bottom, each on
/// the ledger the previous one produced; the first failure aborts the
/// transaction with its error.
pub open spec fn spec_mint(
    l: LedgerMap,
    accounts: MintNft,
    title: Seq<char>,
    symbol: Seq<char>,
    uri: Seq<char>,
) -> Result<LedgerMap, MintError> {
    if !spec_programs_ok(accounts) {
        Err(MintError::AccountMismatch)
    } else {
        match spec_provision_account(
            l,
            accounts.mint,
            accounts.mint_authority,
            accounts.mint_authority_signed,
            accounts.mint_signed,
        ) {
            Err(e) => Err(e),
            Ok(l1) => match spec_initialize_supply(l1, accounts.mint, accounts.mint_authority) {
                Err(e) => Err(e),
                Ok(l2) => match spec_resolve_owner_storage(
                    l2,
                    accounts.token_account,
                    accounts.mint_authority,
                    accounts.mint,
                    accounts.mint_authority,
                    accounts.mint_authority_signed,
                ) {
                    Err(e) => Err(e),
                    Ok(l3) => match spec_issue_unit(
                        l3,
                        accounts.mint,
                        accounts.token_account,
                        accounts.mint_authority,
                        accounts.mint_authority_signed,
                    ) {
                        Err(e) => Err(e),
                        Ok(l4) => match spec_register_metadata(
                            l4,
                            accounts.metadata,
                            accounts.mint,
                            accounts.mint_authority,
                            accounts.mint_authority_signed,
                            title,
                            symbol,
                            uri,
                        ) {
                            Err(e) => Err(e),
                            Ok(l5) => spec_register_master_edition(
                                l5,
                                accounts.master_edition,
                                accounts.metadata,
                                accounts.mint,
                                accounts.mint_authority,
                                accounts.mint_authority_signed,
                            ),
                        },
                    },
                },
            },
        }
    }
}

fn wallet_balance(l: &Ledger, a: Address) -> (r: Option<u64>)
    requires
        l.wf(),
    ensures
        match r {
            Some(b) => spec_is_wallet(l@, a) && b == l@[a].balance,
            None => !spec_is_wallet(l@, a),
        },
{
    match l.account_at(a) {
        Some(acc) => match &acc.data {
            AccountData::Wallet => Some(acc.balance),
            _ => None,
        },
        None => None,
    }
}

/// Account provisioning, executable: see `spec_provision_account`.
pub fn provision_account(
    l: &Ledger,
    supply: Address,
    authority: Address,
    authority_signed: bool,
    supply_signed: bool,
) -> (r: Result<Ledger, MintError>)
    requires
        l.wf(),
    ensures
        (match r {
            Ok(l2) => l2.wf() && spec_provision_account(l@, supply, authority, authority_signed, supply_signed)
                == Ok::<LedgerMap, MintError>(l2@),
            Err(e) => spec_provision_account(l@, supply, authority, authority_signed, supply_signed)
                == Err::<LedgerMap, MintError>(e),
        }),
{
    if !authority_signed || !supply_signed {
        return Err(MintError::Unauthorized);
    }
    let signer_capable = match supply {
        Address::Key(_) => true,
        _ => false,
    };
    if !signer_capable {
        return Err(MintError::Unauthorized);
    }
    if l.contains_address(supply) {
        return Err(MintError::AddressAlreadyInUse);
    }
    let bal = match wallet_balance(l, authority) {
        Some(b) => b,
        None => {
            return Err(MintError::AccountMismatch);
        },
    };
    if bal < RENT_TOTAL {
        return Err(MintError::InsufficientFunds);
    }
    let l1 = l.put(authority, Account { balance: bal - RENT_SUPPLY, data: AccountData::Wallet });
    let l2 = l1.put(
        supply,
        Account {
            balance: RENT_SUPPLY,
            data: AccountData::Raw { size: SUPPLY_RECORD_SIZE, owner_program: TOKEN_PROGRAM_KEY },
        },
    );
    Ok(l2)
}

/// Supply initialization, executable: see `spec_initialize_supply`.
pub fn initialize_supply(l: &Ledger, supply: Address, authority: Address) -> (r: Result<
    Ledger,
    MintError,
>)
    requires
        l.wf(),
    ensures
        (match r {
            Ok(l2) => l2.wf() && spec_initialize_supply(l@, supply, authority)
                == Ok::<LedgerMap, MintError>(l2@),
            Err(e) => spec_initialize_supply(l@, supply, authority) == Err::<LedgerMap, MintError>(e),
        }),
{
    let acc = match l.account_at(supply) {
        Some(acc) => acc,
        None => {
            return Err(MintError::AccountMismatch);
        },
    };
    let balance = acc.balance;
    match &acc.data {
        AccountData::Supply(_) => Err(MintError::AlreadyInitialized),
        AccountData::Raw { size, owner_program } => {
            if *size == SUPPLY_RECORD_SIZE && *owner_program == TOKEN_PROGRAM_KEY {
                let record = SupplyRecord {
                    decimals: 0,
                    mint_authority: Some(authority),
                    freeze_authority: Some(authority),
                    issued: 0,
                };
                Ok(l.put(supply, Account { balance, data: AccountData::Supply(record) }))
            } else {
                Err(MintError::AccountMismatch)
            }
        },
        _ => Err(MintError::AccountMismatch),
    }
}

/// Owner-account resolution, executable: see `spec_resolve_owner_storage`.
pub fn resolve_owner_storage(
    l: &Ledger,
    token_account: Address,
    owner: Address,
    supply: Address,
    payer: Address,
    payer_signed: bool,
) -> (r: Result<Ledger, MintError>)
    requires
        l.wf(),
    ensures
        (match r {
            Ok(l2) => l2.wf() && spec_resolve_owner_storage(l@, token_account, owner, supply, payer, payer_signed)
                == Ok::<LedgerMap, MintError>(l2@),
            Err(e) => spec_resolve_owner_storage(l@, token_account, owner, supply, payer, payer_signed)
                == Err::<LedgerMap, MintError>(e),
        }),
{
    let derived_ok = match owner_storage_address(owner, supply) {
        Some(d) => d == token_account,
        None => false,
    };
    if !derived_ok {
        return Err(MintError::AccountMismatch);
    }
    let supply_ok = match l.account_at(supply) {
        Some(acc) => match &acc.data {
            AccountData::Supply(_) => true,
            _ => false,
        },
        None => false,
    };
    if !supply_ok {
        return Err(MintError::AccountMismatch);
    }
    match l.account_at(token_account) {
        Some(acc) => match &acc.data {
            AccountData::OwnerStorage(os) => {
                if os.owner == owner && os.supply == supply {
                    Ok(l.dup())
                } else {
                    Err(MintError::AccountMismatch)
                }
            },
            _ => Err(MintError::AccountMismatch),
        },
        None => {
            if !payer_signed {
                return Err(MintError::Unauthorized);
            }
            let bal = match wallet_balance(l, payer) {
                Some(b) => b,
                None => {
                    return Err(MintError::AccountMismatch);
                },
            };
            if bal < RENT_OWNER_STORAGE {
                return Err(MintError::InsufficientFunds);
            }
            let l1 = l.put(
                payer,
                Account { balance: bal - RENT_OWNER_STORAGE, data: AccountData::Wallet },
            );
            let l2 = l1.put(
                token_account,
                Account {
                    balance: RENT_OWNER_STORAGE,
                    data: AccountData::OwnerStorage(
                        OwnerStorageRecord { owner, supply, amount: 0 },
                    ),
                },
            );
            Ok(l2)
        },
    }
}

/// Issuance, executable: see `spec_issue_unit`.
pub fn issue_unit(
    l: &Ledger,
    supply: Address,
    token_account: Address,
    signer: Address,
    signer_signed: bool,
) -> (r: Result<Ledger, MintError>)
    requires
        l.wf(),
    ensures
        (match r {
            Ok(l2) => l2.wf() && spec_issue_unit(l@, supply, token_account, signer, signer_signed)
                == Ok::<LedgerMap, MintError>(l2@),
            Err(e) => spec_issue_unit(l@, supply, token_account, signer, signer_signed)
                == Err::<LedgerMap, MintError>(e),
        }),
{
    if !signer_signed {
        return Err(MintError::Unauthorized);
    }
    let (record, supply_balance) = match l.account_at(supply) {
        Some(acc) => match &acc.data {
            AccountData::Supply(s) => (*s, acc.balance),
            _ => {
                return Err(MintError::AccountMismatch);
            },
        },
        None => {
            return Err(MintError::AccountMismatch);
        },
    };
    let (storage, storage_balance) = match l.account_at(token_account) {
        Some(acc) => match &acc.data {
            AccountData::OwnerStorage(os) => {
                if os.supply == supply {
                    (*os, acc.balance)
                } else {
                    return Err(MintError::AccountMismatch);
                }
            },
            _ => {
                return Err(MintError::AccountMismatch);
            },
        },
        None => {
            return Err(MintError::AccountMismatch);
        },
    };
    let authorized = match record.mint_authority {
        Some(a) => a == signer,
        None => false,
    };
    if !authorized {
        return Err(MintError::Unauthorized);
    }
    if record.issued == u64::MAX || storage.amount == u64::MAX {
        return Err(MintError::SupplyOverflow);
    }
    let l1 = l.put(
        supply,
        Account {
            balance: supply_balance,
            data: AccountData::Supply(SupplyRecord { issued: record.issued + 1, ..record }),
        },
    );
    let l2 = l1.put(
        token_account,
        Account {
            balance: storage_balance,
            data: AccountData::OwnerStorage(
                OwnerStorageRecord { amount: storage.amount + 1, ..storage },
            ),
        },
    );
    Ok(l2)
}

/// Metadata registration, executable: see `spec_register_metadata`.
pub fn register_metadata(
    l: &Ledger,
    metadata: Address,
    supply: Address,
    authority: Address,
    authority_signed: bool,
    title: String,
    symbol: String,
    uri: String,
) -> (r: Result<Ledger, MintError>)
    requires
        l.wf(),
    ensures
        (match r {
            Ok(l2) => l2.wf() && spec_register_metadata(l@, metadata, supply, authority, authority_signed, title@, symbol@, uri@)
                == Ok::<LedgerMap, MintError>(l2@),
            Err(e) => spec_register_metadata(l@, metadata, supply, authority, authority_signed, title@, symbol@, uri@)
                == Err::<LedgerMap, MintError>(e),
        }),
{
    if !authority_signed {
        return Err(MintError::Unauthorized);
    }
    let derived_ok = match metadata_address(supply) {
        Some(d) => d == metadata,
        None => false,
    };
    if !derived_ok {
        return Err(MintError::AccountMismatch);
    }
    if l.contains_address(metadata) {
        return Err(MintError::AlreadyInitialized);
    }
    let record = match l.account_at(supply) {
        Some(acc) => match &acc.data {
            AccountData::Supply(s) => *s,
            _ => {
                return Err(MintError::AccountMismatch);
            },
        },
        None => {
            return Err(MintError::AccountMismatch);
        },
    };
    let authorized = match record.mint_authority {
        Some(a) => a == authority,
        None => false,
    };
    if !authorized {
        return Err(MintError::Unauthorized);
    }
    if title.as_str().unicode_len() > MAX_TITLE_LEN || symbol.as_str().unicode_len()
        > MAX_SYMBOL_LEN || uri.as_str().unicode_len() > MAX_URI_LEN {
        return Err(MintError::DelegatedCallFailed);
    }
    let bal = match wallet_balance(l, authority) {
        Some(b) => b,
        None => {
            return Err(MintError::AccountMismatch);
        },
    };
    if bal < RENT_METADATA {
        return Err(MintError::InsufficientFunds);
    }
    let mut creators: Vec<Creator> = Vec::new();
    creators.push(Creator { identity: authority, verified: true, share: CREATOR_SHARE });
    proof {
        assert(creators@ =~= spec_creator_list(authority));
    }
    let meta = MetadataRecord {
        title,
        symbol,
        uri,
        update_authority: authority,
        creators,
        seller_fee_basis_points: SELLER_FEE_BASIS_POINTS,
        is_mutable: true,
        collection: None,
    };
    let l1 = l.put(authority, Account { balance: bal - RENT_METADATA, data: AccountData::Wallet });
    let l2 = l1.put(metadata, Account { balance: RENT_METADATA, data: AccountData::Metadata(meta) });
    Ok(l2)
}

/// Edition registration, executable: see `spec_register_master_edition`.
pub fn register_master_edition(
    l: &Ledger,
    master_edition: Address,
    metadata: Address,
    supply: Address,
    authority: Address,
    authority_signed: bool,
) -> (r: Result<Ledger, MintError>)
    requires
        l.wf(),
    ensures
        (match r {
            Ok(l2) => l2.wf() && spec_register_master_edition(l@, master_edition, metadata, supply, authority, authority_signed)
                == Ok::<LedgerMap, MintError>(l2@),
            Err(e) => spec_register_master_edition(l@, master_edition, metadata, supply, authority, authority_signed)
                == Err::<LedgerMap, MintError>(e),
        }),
{
    if !authority_signed {
        return Err(MintError::Unauthorized);
    }
    let edition_ok = match edition_address(supply) {
        Some(d) => d == master_edition,
        None => false,
    };
    if !edition_ok {
        return Err(MintError::AccountMismatch);
    }
    let metadata_ok = match metadata_address(supply) {
        Some(d) => d == metadata,
        None => false,
    };
    if !metadata_ok {
        return Err(MintError::AccountMismatch);
    }
    if l.contains_address(master_edition) {
        return Err(MintError::AlreadyInitialized);
    }
    let (record, supply_balance) = match l.account_at(supply) {
        Some(acc) => match &acc.data {
            AccountData::Supply(s) => (*s, acc.balance),
            _ => {
                return Err(MintError::AccountMismatch);
            },
        },
        None => {
            return Err(MintError::AccountMismatch);
        },
    };
    let metadata_present = match l.account_at(metadata) {
        Some(acc) => match &acc.data {
            AccountData::Metadata(_) => true,
            _ => false,
        },
        None => false,
    };
    if !metadata_present {
        return Err(MintError::PreconditionFailed);
    }
    let authorized = match record.mint_authority {
        Some(a) => a == authority,
        None => false,
    };
    if !authorized {
        return Err(MintError::Unauthorized);
    }
    if record.issued != 1 {
        return Err(MintError::PreconditionFailed);
    }
    let bal = match wallet_balance(l, authority) {
        Some(b) => b,
        None => {
            return Err(MintError::AccountMismatch);
        },
    };
    if bal < RENT_EDITION {
        return Err(MintError::InsufficientFunds);
    }
    let l1 = l.put(authority, Account { balance: bal - RENT_EDITION, data: AccountData::Wallet });
    let l2 = l1.put(
        supply,
        Account {
            balance: supply_balance,
            data: AccountData::Supply(SupplyRecord { mint_authority: None, ..record }),
        },
    );
    let l3 = l2.put(
        master_edition,
        Account {
            balance: RENT_EDITION,
            data: AccountData::Edition(EditionRecord { max_prints: MAX_PRINT_SUPPLY, prints: 0 }),
        },
    );
    Ok(l3)
}

/// The entry point: runs the six stages strictly top to bottom on the
/// given ledger and returns the committed successor ledger, or the error
/// of the first failing stage, in which case the caller's ledger stands
/// untouched — the mint either fully exists afterwards or not at all.
pub fn mint(
    ledger: &Ledger,
    accounts: &MintNft,
    metadata_title: String,
    metadata_symbol: String,
    metadata_uri: String,
) -> (r: Result<Ledger, MintError>)
    requires
        ledger.wf(),
    ensures
        (match r {
            Ok(l2) => l2.wf() && spec_mint(ledger@, *accounts, metadata_title@, metadata_symbol@, metadata_uri@)
                == Ok::<LedgerMap, MintError>(l2@),
            Err(e) => spec_mint(ledger@, *accounts, metadata_title@, metadata_symbol@, metadata_uri@)
                == Err::<LedgerMap, MintError>(e),
        }),
{
    let programs_ok = accounts.system_program == Address::Key(SYSTEM_PROGRAM_KEY)
        && accounts.token_program == Address::Key(TOKEN_PROGRAM_KEY)
        && accounts.associated_token_program == Address::Key(ASSOCIATED_TOKEN_PROGRAM_KEY)
        && accounts.token_metadata_program == Address::Key(METADATA_PROGRAM_KEY)
        && accounts.rent == Address::Key(RENT_SYSVAR_KEY);
    if !programs_ok {
        return Err(MintError::AccountMismatch);
    }
    let l1 = match provision_account(
        ledger,
        accounts.mint,
        accounts.mint_authority,
        accounts.mint_authority_signed,
        accounts.mint_signed,
    ) {
        Ok(l) => l,
        Err(e) => {
            return Err(e);
        },
    };
    let l2 = match initialize_supply(&l1, accounts.mint, accounts.mint_authority) {
        Ok(l) => l,
        Err(e) => {
            return Err(e);
        },
    };
    let l3 = match resolve_owner_storage(
        &l2,
        accounts.token_account,
        accounts.mint_authority,
        accounts.mint,
        accounts.mint_authority,
        accounts.mint_authority_signed,
    ) {
        Ok(l) => l,
        Err(e) => {
            return Err(e);
        },
    };
    let l4 = match issue_unit(
        &l3,
        accounts.mint,
        accounts.token_account,
        accounts.mint_authority,
        accounts.mint_authority_signed,
    ) {
        Ok(l) => l,
        Err(e) => {
            return Err(e);
        },
    };
    let l5 = match register_metadata(
        &l4,
        accounts.metadata,
        accounts.mint,
        accounts.mint_authority,
        accounts.mint_authority_signed,
        metadata_title,
        metadata_symbol,
        metadata_uri,
    ) {
        Ok(l) => l,
        Err(e) => {
            return Err(e);
        },
    };
    match register_master_edition(
        &l5,
        accounts.master_edition,
        accounts.metadata,
        accounts.mint,
        accounts.mint_authority,
        accounts.mint_authority_signed,
    ) {
        Ok(l) => Ok(l),
        Err(e) => Err(e),
    }
}

} // verus!
