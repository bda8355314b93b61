use erkamons::addresses::{edition_address, metadata_address, owner_storage_address, Address};
use erkamons::ledger::Ledger;
use erkamons::model::{
    Account, AccountData, MintError, ASSOCIATED_TOKEN_PROGRAM_KEY, CREATOR_SHARE,
    MAX_PRINT_SUPPLY, METADATA_PROGRAM_KEY, RENT_EDITION, RENT_METADATA, RENT_OWNER_STORAGE,
    RENT_SUPPLY, RENT_SYSVAR_KEY, RENT_TOTAL, SELLER_FEE_BASIS_POINTS, SUPPLY_RECORD_SIZE,
    SYSTEM_PROGRAM_KEY, TOKEN_PROGRAM_KEY,
};
use erkamons::pipeline::{
    initialize_supply, issue_unit, mint, provision_account, register_master_edition,
    register_metadata, resolve_owner_storage, MintNft,
};

const AUTHORITY: Address = Address::Key(1);
const MINT: Address = Address::Key(2);

fn funded_ledger(balance: u64) -> Ledger {
    Ledger::new().put(AUTHORITY, Account { balance, data: AccountData::Wallet })
}

fn accounts() -> MintNft {
    MintNft {
        metadata: metadata_address(MINT).unwrap(),
        master_edition: edition_address(MINT).unwrap(),
        mint: MINT,
        token_account: owner_storage_address(AUTHORITY, MINT).unwrap(),
        mint_authority: AUTHORITY,
        rent: Address::Key(RENT_SYSVAR_KEY),
        system_program: Address::Key(SYSTEM_PROGRAM_KEY),
        token_program: Address::Key(TOKEN_PROGRAM_KEY),
        associated_token_program: Address::Key(ASSOCIATED_TOKEN_PROGRAM_KEY),
        token_metadata_program: Address::Key(METADATA_PROGRAM_KEY),
        mint_signed: true,
        mint_authority_signed: true,
    }
}

fn run_mint(ledger: &Ledger, a: &MintNft) -> Result<Ledger, MintError> {
    mint(
        ledger,
        a,
        String::from("Erkamon #1"),
        String::from("ERK"),
        String::from("https://example.test/1.json"),
    )
}

#[test]
fn successful_mint_final_state() {
    let ledger = funded_ledger(40_000_000);
    let a = accounts();
    let out = run_mint(&ledger, &a).unwrap();

    let supply = out.account_at(a.mint).unwrap();
    assert_eq!(supply.balance, RENT_SUPPLY);
    match &supply.data {
        AccountData::Supply(r) => {
            assert_eq!(r.decimals, 0);
            assert_eq!(r.issued, 1);
            assert_eq!(r.mint_authority, None);
            assert_eq!(r.freeze_authority, Some(AUTHORITY));
        },
        _ => panic!("supply record expected"),
    }

    let storage = out.account_at(a.token_account).unwrap();
    assert_eq!(storage.balance, RENT_OWNER_STORAGE);
    match &storage.data {
        AccountData::OwnerStorage(os) => {
            assert_eq!(os.owner, AUTHORITY);
            assert_eq!(os.supply, MINT);
            assert_eq!(os.amount, 1);
        },
        _ => panic!("owner storage expected"),
    }

    let metadata = out.account_at(a.metadata).unwrap();
    assert_eq!(metadata.balance, RENT_METADATA);
    match &metadata.data {
        AccountData::Metadata(m) => {
            assert_eq!(m.title, "Erkamon #1");
            assert_eq!(m.symbol, "ERK");
            assert_eq!(m.uri, "https://example.test/1.json");
            assert_eq!(m.update_authority, AUTHORITY);
            assert_eq!(m.creators.len(), 1);
            assert_eq!(m.creators[0].identity, AUTHORITY);
            assert!(m.creators[0].verified);
            assert_eq!(m.creators[0].share, CREATOR_SHARE);
            assert_eq!(m.seller_fee_basis_points, SELLER_FEE_BASIS_POINTS);
            assert!(m.is_mutable);
            assert_eq!(m.collection, None);
        },
        _ => panic!("metadata record expected"),
    }

    let edition = out.account_at(a.master_edition).unwrap();
    assert_eq!(edition.balance, RENT_EDITION);
    match &edition.data {
        AccountData::Edition(e) => {
            assert_eq!(e.max_prints, MAX_PRINT_SUPPLY);
            assert_eq!(e.prints, 0);
        },
        _ => panic!("master edition expected"),
    }

    let wallet = out.account_at(AUTHORITY).unwrap();
    assert_eq!(wallet.balance, 40_000_000 - RENT_TOTAL);
}

#[test]
fn rerun_fails_already_in_use_and_state_stands() {
    let ledger = funded_ledger(80_000_000);
    let a = accounts();
    let first = run_mint(&ledger, &a).unwrap();
    let again = run_mint(&first, &a);
    assert_eq!(again.unwrap_err(), MintError::AddressAlreadyInUse);
    // The first run's state stands: the failing run produced no ledger.
    match &first.account_at(a.mint).unwrap().data {
        AccountData::Supply(r) => assert_eq!(r.issued, 1),
        _ => panic!("supply record expected"),
    }
}

#[test]
fn edition_before_issuance_is_precondition_failed() {
    let ledger = funded_ledger(40_000_000);
    let a = accounts();
    let l1 = provision_account(&ledger, MINT, AUTHORITY, true, true).unwrap();
    let l2 = initialize_supply(&l1, MINT, AUTHORITY).unwrap();
    // Issued units are still zero: the edition must be refused.
    let r = register_master_edition(&l2, a.master_edition, a.metadata, MINT, AUTHORITY, true);
    assert_eq!(r.unwrap_err(), MintError::PreconditionFailed);
}

#[test]
fn metadata_after_failed_initialization_is_account_mismatch() {
    let ledger = funded_ledger(40_000_000);
    let a = accounts();
    // Provisioned but never initialized: the storage is still raw.
    let l1 = provision_account(&ledger, MINT, AUTHORITY, true, true).unwrap();
    let r = register_metadata(
        &l1,
        a.metadata,
        MINT,
        AUTHORITY,
        true,
        String::from("Erkamon #1"),
        String::from("ERK"),
        String::from("https://example.test/1.json"),
    );
    assert_eq!(r.unwrap_err(), MintError::AccountMismatch);
}

#[test]
fn unsigned_transaction_is_unauthorized() {
    let ledger = funded_ledger(40_000_000);
    let mut a = accounts();
    a.mint_authority_signed = false;
    assert_eq!(run_mint(&ledger, &a).unwrap_err(), MintError::Unauthorized);
    // Zero state mutation: the authority wallet is untouched.
    assert_eq!(ledger.account_at(AUTHORITY).unwrap().balance, 40_000_000);
    assert!(ledger.account_at(MINT).is_none());
}

#[test]
fn unsigned_stages_are_unauthorized() {
    let ledger = funded_ledger(40_000_000);
    let a = accounts();
    let l1 = provision_account(&ledger, MINT, AUTHORITY, true, true).unwrap();
    let l2 = initialize_supply(&l1, MINT, AUTHORITY).unwrap();
    assert_eq!(
        provision_account(&ledger, MINT, AUTHORITY, false, true).unwrap_err(),
        MintError::Unauthorized
    );
    assert_eq!(
        resolve_owner_storage(&l2, a.token_account, AUTHORITY, MINT, AUTHORITY, false)
            .unwrap_err(),
        MintError::Unauthorized
    );
    let l3 = resolve_owner_storage(&l2, a.token_account, AUTHORITY, MINT, AUTHORITY, true)
        .unwrap();
    assert_eq!(
        issue_unit(&l3, MINT, a.token_account, AUTHORITY, false).unwrap_err(),
        MintError::Unauthorized
    );
}

#[test]
fn wrong_signer_is_unauthorized() {
    let ledger = funded_ledger(40_000_000);
    let a = accounts();
    let l1 = provision_account(&ledger, MINT, AUTHORITY, true, true).unwrap();
    let l2 = initialize_supply(&l1, MINT, AUTHORITY).unwrap();
    let l3 = resolve_owner_storage(&l2, a.token_account, AUTHORITY, MINT, AUTHORITY, true)
        .unwrap();
    let intruder = Address::Key(77);
    assert_eq!(
        issue_unit(&l3, MINT, a.token_account, intruder, true).unwrap_err(),
        MintError::Unauthorized
    );
}

#[test]
fn underfunded_mint_fails_at_provisioning() {
    let ledger = funded_ledger(RENT_TOTAL - 1);
    let a = accounts();
    assert_eq!(run_mint(&ledger, &a).unwrap_err(), MintError::InsufficientFunds);
    // No record was created.
    assert!(ledger.account_at(a.mint).is_none());
    assert!(ledger.account_at(a.token_account).is_none());
    assert!(ledger.account_at(a.metadata).is_none());
    assert!(ledger.account_at(a.master_edition).is_none());
}

#[test]
fn exactly_combined_rent_suffices() {
    let ledger = funded_ledger(RENT_TOTAL);
    let a = accounts();
    let out = run_mint(&ledger, &a).unwrap();
    assert_eq!(out.account_at(AUTHORITY).unwrap().balance, 0);
}

#[test]
fn double_initialization_is_already_initialized() {
    let ledger = funded_ledger(40_000_000);
    let l1 = provision_account(&ledger, MINT, AUTHORITY, true, true).unwrap();
    let l2 = initialize_supply(&l1, MINT, AUTHORITY).unwrap();
    assert_eq!(
        initialize_supply(&l2, MINT, AUTHORITY).unwrap_err(),
        MintError::AlreadyInitialized
    );
}

#[test]
fn double_metadata_registration_is_already_initialized() {
    let ledger = funded_ledger(80_000_000);
    let a = accounts();
    let out = run_mint(&ledger, &a).unwrap();
    let r = register_metadata(
        &out,
        a.metadata,
        MINT,
        AUTHORITY,
        true,
        String::from("Erkamon #1"),
        String::from("ERK"),
        String::from("https://example.test/1.json"),
    );
    assert_eq!(r.unwrap_err(), MintError::AlreadyInitialized);
}

#[test]
fn owner_storage_resolution_is_idempotent() {
    let ledger = funded_ledger(40_000_000);
    let a = accounts();
    let l1 = provision_account(&ledger, MINT, AUTHORITY, true, true).unwrap();
    let l2 = initialize_supply(&l1, MINT, AUTHORITY).unwrap();
    let l3 = resolve_owner_storage(&l2, a.token_account, AUTHORITY, MINT, AUTHORITY, true)
        .unwrap();
    let balance_after_create = l3.account_at(AUTHORITY).unwrap().balance;
    // A second resolution accepts the existing storage without charging.
    let l4 = resolve_owner_storage(&l3, a.token_account, AUTHORITY, MINT, AUTHORITY, true)
        .unwrap();
    assert_eq!(l4.account_at(AUTHORITY).unwrap().balance, balance_after_create);
    match &l4.account_at(a.token_account).unwrap().data {
        AccountData::OwnerStorage(os) => assert_eq!(os.amount, 0),
        _ => panic!("owner storage expected"),
    }
}

#[test]
fn pre_existing_storage_with_wrong_owner_is_account_mismatch() {
    let ledger = funded_ledger(40_000_000);
    let a = accounts();
    let l1 = provision_account(&ledger, MINT, AUTHORITY, true, true).unwrap();
    let l2 = initialize_supply(&l1, MINT, AUTHORITY).unwrap();
    // Something else already sits at the derived owner-storage address.
    let stranger = Account {
        balance: RENT_OWNER_STORAGE,
        data: AccountData::OwnerStorage(erkamons::model::OwnerStorageRecord {
            owner: Address::Key(42),
            supply: MINT,
            amount: 0,
        }),
    };
    let l2b = l2.put(a.token_account, stranger);
    assert_eq!(
        resolve_owner_storage(&l2b, a.token_account, AUTHORITY, MINT, AUTHORITY, true)
            .unwrap_err(),
        MintError::AccountMismatch
    );
}

#[test]
fn raw_storage_of_wrong_size_is_account_mismatch() {
    let ledger = funded_ledger(40_000_000);
    let undersized = Account {
        balance: RENT_SUPPLY,
        data: AccountData::Raw { size: SUPPLY_RECORD_SIZE - 1, owner_program: TOKEN_PROGRAM_KEY },
    };
    let l1 = ledger.put(MINT, undersized);
    assert_eq!(
        initialize_supply(&l1, MINT, AUTHORITY).unwrap_err(),
        MintError::AccountMismatch
    );
}

#[test]
fn wrong_owner_storage_address_is_account_mismatch() {
    let ledger = funded_ledger(40_000_000);
    let mut a = accounts();
    a.token_account = Address::Key(99);
    assert_eq!(run_mint(&ledger, &a).unwrap_err(), MintError::AccountMismatch);
}

#[test]
fn wrong_program_reference_is_account_mismatch() {
    let ledger = funded_ledger(40_000_000);
    let mut a = accounts();
    a.token_program = Address::Key(99);
    assert_eq!(run_mint(&ledger, &a).unwrap_err(), MintError::AccountMismatch);
}

#[test]
fn issuance_at_counter_cap_is_supply_overflow() {
    let supply_at_cap = Account {
        balance: RENT_SUPPLY,
        data: AccountData::Supply(erkamons::model::SupplyRecord {
            decimals: 0,
            mint_authority: Some(AUTHORITY),
            freeze_authority: Some(AUTHORITY),
            issued: u64::MAX,
        }),
    };
    let a = accounts();
    let storage = Account {
        balance: RENT_OWNER_STORAGE,
        data: AccountData::OwnerStorage(erkamons::model::OwnerStorageRecord {
            owner: AUTHORITY,
            supply: MINT,
            amount: 0,
        }),
    };
    let ledger = funded_ledger(40_000_000).put(MINT, supply_at_cap).put(a.token_account, storage);
    assert_eq!(
        issue_unit(&ledger, MINT, a.token_account, AUTHORITY, true).unwrap_err(),
        MintError::SupplyOverflow
    );
}

#[test]
fn over_length_title_is_delegated_call_failure() {
    let ledger = funded_ledger(40_000_000);
    let a = accounts();
    let long_title: String = std::iter::repeat('x').take(33).collect();
    let r = mint(
        &ledger,
        &a,
        long_title,
        String::from("ERK"),
        String::from("https://example.test/1.json"),
    );
    assert_eq!(r.unwrap_err(), MintError::DelegatedCallFailed);
}

#[test]
fn provisioning_raw_storage_shape() {
    let ledger = funded_ledger(40_000_000);
    let l1 = provision_account(&ledger, MINT, AUTHORITY, true, true).unwrap();
    let raw = l1.account_at(MINT).unwrap();
    assert_eq!(raw.balance, RENT_SUPPLY);
    match raw.data {
        AccountData::Raw { size, owner_program } => {
            assert_eq!(size, SUPPLY_RECORD_SIZE);
            assert_eq!(owner_program, TOKEN_PROGRAM_KEY);
        },
        _ => panic!("raw storage expected"),
    }
    assert_eq!(l1.account_at(AUTHORITY).unwrap().balance, 40_000_000 - RENT_SUPPLY);
}

#[test]
fn unsigned_fresh_identity_is_unauthorized() {
    let ledger = funded_ledger(40_000_000);
    let mut a = accounts();
    a.mint_signed = false;
    assert_eq!(run_mint(&ledger, &a).unwrap_err(), MintError::Unauthorized);
}
