//! Laws of the pipeline, proved once and for all over the spec functions
//! that the executable stages are pinned to.

use vstd::prelude::*;

use crate::addresses::{
    lemma_derived_addresses_distinct, spec_edition_address, spec_metadata_address,
    spec_owner_storage_address, Address,
};
use crate::model::{
    shares_total, AccountDataV, Creator, MintError, MAX_PRINT_SUPPLY, MAX_SYMBOL_LEN,
    MAX_TITLE_LEN, MAX_URI_LEN, RENT_TOTAL, SELLER_FEE_BASIS_POINTS,
};
use crate::pipeline::{
    spec_creator_list, spec_initialize_supply, spec_is_wallet, spec_issue_unit, spec_mint,
    spec_programs_ok, spec_provision_account, spec_register_master_edition,
    spec_register_metadata, spec_resolve_owner_storage, spec_supply_record_at, LedgerMap, MintNft,
};

verus! {

/// Every successful run leaves: a supply record with zero decimals,
/// exactly one issued unit and its mint authority revoked; owner storage
/// for the authority holding the unit (balance one whenever the storage
/// did not pre-exist); a metadata record carrying exactly the supplied
/// title, symbol and URI with the single verified full-share creator; and
/// a master edition with the fixed print cap and no prints yet.  The
/// creator shares sum to the whole, as the metadata program demands, and
/// on a fresh run the authority has paid exactly the combined rent.
pub proof fn lemma_mint_success_state(
    l: LedgerMap,
    accounts: MintNft,
    title: Seq<char>,
    symbol: Seq<char>,
    uri: Seq<char>,
)
    requires
        spec_mint(l, accounts, title, symbol, uri) is Ok,
    ensures
        ({
            let m = spec_mint(l, accounts, title, symbol, uri)->Ok_0;
            &&& m.contains_key(accounts.mint)
            &&& (m[accounts.mint].data matches AccountDataV::Supply(r)
                && r.decimals == 0 && r.issued == 1 && r.mint_authority is None
                && r.freeze_authority == Some(accounts.mint_authority))
            &&& m.contains_key(accounts.token_account)
            &&& (m[accounts.token_account].data matches AccountDataV::OwnerStorage(os)
                && os.owner == accounts.mint_authority && os.supply == accounts.mint
                && (!l.contains_key(accounts.token_account) ==> os.amount == 1))
            &&& m.contains_key(accounts.metadata)
            &&& (m[accounts.metadata].data matches AccountDataV::Metadata(md)
                && md.title == title && md.symbol == symbol && md.uri == uri
                && md.update_authority == accounts.mint_authority
                && md.creators == spec_creator_list(accounts.mint_authority)
                && md.seller_fee_basis_points == SELLER_FEE_BASIS_POINTS
                && md.is_mutable && md.collection is None
                && shares_total(md.creators) == 100)
            &&& m.contains_key(accounts.master_edition)
            &&& (m[accounts.master_edition].data matches AccountDataV::Edition(e)
                && e.max_prints == MAX_PRINT_SUPPLY && e.prints == 0)
            &&& m.contains_key(accounts.mint_authority)
            &&& m[accounts.mint_authority].data is Wallet
            &&& (!l.contains_key(accounts.token_account)
                ==> m[accounts.mint_authority].balance == l[accounts.mint_authority].balance
                    - RENT_TOTAL)
        }),
{
    let l1 = spec_provision_account(
        l,
        accounts.mint,
        accounts.mint_authority,
        accounts.mint_authority_signed,
        accounts.mint_signed,
    )->Ok_0;
    let l2 = spec_initialize_supply(l1, accounts.mint, accounts.mint_authority)->Ok_0;
    let l3 = spec_resolve_owner_storage(
        l2,
        accounts.token_account,
        accounts.mint_authority,
        accounts.mint,
        accounts.mint_authority,
        accounts.mint_authority_signed,
    )->Ok_0;
    let l4 = spec_issue_unit(
        l3,
        accounts.mint,
        accounts.token_account,
        accounts.mint_authority,
        accounts.mint_authority_signed,
    )->Ok_0;
    let l5 = spec_register_metadata(
        l4,
        accounts.metadata,
        accounts.mint,
        accounts.mint_authority,
        accounts.mint_authority_signed,
        title,
        symbol,
        uri,
    )->Ok_0;
    let m = spec_register_master_edition(
        l5,
        accounts.master_edition,
        accounts.metadata,
        accounts.mint,
        accounts.mint_authority,
        accounts.mint_authority_signed,
    )->Ok_0;
    assert(spec_mint(l, accounts, title, symbol, uri)->Ok_0 == m);
    assert(spec_creator_list(accounts.mint_authority).drop_last() =~= Seq::<Creator>::empty());
    assert(shares_total(Seq::<Creator>::empty()) == 0);
    assert(shares_total(spec_creator_list(accounts.mint_authority)) == 100);
    assert(accounts.metadata != accounts.mint_authority);
    assert(accounts.master_edition != accounts.mint_authority);
    assert(l2.contains_key(accounts.token_account) == l.contains_key(accounts.token_account));
}

/// Re-running the identical pipeline against the same supply-record
/// identity fails at account provisioning: the identity already has
/// storage.  No successor ledger exists for a failing run, so the state
/// of the first run stands unchanged.
pub proof fn lemma_rerun_fails(
    l: LedgerMap,
    accounts: MintNft,
    title: Seq<char>,
    symbol: Seq<char>,
    uri: Seq<char>,
)
    requires
        spec_mint(l, accounts, title, symbol, uri) is Ok,
    ensures
        spec_mint(
            spec_mint(l, accounts, title, symbol, uri)->Ok_0,
            accounts,
            title,
            symbol,
            uri,
        ) == Err::<LedgerMap, MintError>(MintError::AddressAlreadyInUse),
{
    let m = spec_mint(l, accounts, title, symbol, uri)->Ok_0;
    lemma_mint_success_state(l, accounts, title, symbol, uri);
    assert(m.contains_key(accounts.mint));
}

/// Requesting the master edition while the supply record still shows
/// zero issued units violates the ordering of the pipeline, whether or
/// not the metadata record is in place yet.
pub proof fn lemma_edition_before_issuance(
    l: LedgerMap,
    master_edition: Address,
    metadata: Address,
    supply: Address,
    authority: Address,
)
    requires
        spec_edition_address(supply) == Some(master_edition),
        spec_metadata_address(supply) == Some(metadata),
        !l.contains_key(master_edition),
        spec_supply_record_at(l, supply) matches Some(r) && r.issued == 0
            && r.mint_authority == Some(authority),
    ensures
        spec_register_master_edition(l, master_edition, metadata, supply, authority, true)
            == Err::<LedgerMap, MintError>(MintError::PreconditionFailed),
{
}

/// Registering metadata against a supply record whose initialization
/// never happened (the storage is still raw, or absent altogether) is an
/// account mismatch.
pub proof fn lemma_metadata_needs_initialized_supply(
    l: LedgerMap,
    metadata: Address,
    supply: Address,
    authority: Address,
    title: Seq<char>,
    symbol: Seq<char>,
    uri: Seq<char>,
)
    requires
        spec_metadata_address(supply) == Some(metadata),
        !l.contains_key(metadata),
        spec_supply_record_at(l, supply) is None,
    ensures
        spec_register_metadata(l, metadata, supply, authority, true, title, symbol, uri)
            == Err::<LedgerMap, MintError>(MintError::AccountMismatch),
{
}

/// Without the authority's signature every stage that requires one fails
/// with `Unauthorized`; owner-account resolution requires it exactly when
/// it would have to create the storage.  A failing stage yields no
/// successor ledger, so nothing is mutated.
pub proof fn lemma_unsigned_is_unauthorized(
    l: LedgerMap,
    token_account: Address,
    metadata: Address,
    master_edition: Address,
    supply: Address,
    authority: Address,
    supply_signed: bool,
    title: Seq<char>,
    symbol: Seq<char>,
    uri: Seq<char>,
)
    ensures
        spec_provision_account(l, supply, authority, false, supply_signed)
            == Err::<LedgerMap, MintError>(MintError::Unauthorized),
        spec_issue_unit(l, supply, token_account, authority, false)
            == Err::<LedgerMap, MintError>(MintError::Unauthorized),
        spec_register_metadata(l, metadata, supply, authority, false, title, symbol, uri)
            == Err::<LedgerMap, MintError>(MintError::Unauthorized),
        spec_register_master_edition(l, master_edition, metadata, supply, authority, false)
            == Err::<LedgerMap, MintError>(MintError::Unauthorized),
        (spec_owner_storage_address(authority, supply) == Some(token_account)
            && spec_supply_record_at(l, supply) is Some && !l.contains_key(token_account))
            ==> spec_resolve_owner_storage(l, token_account, authority, supply, authority, false)
            == Err::<LedgerMap, MintError>(MintError::Unauthorized),
{
}

/// A whole transaction submitted without the authority's signature fails
/// with `Unauthorized` before anything is provisioned.
pub proof fn lemma_unsigned_mint_is_unauthorized(
    l: LedgerMap,
    accounts: MintNft,
    title: Seq<char>,
    symbol: Seq<char>,
    uri: Seq<char>,
)
    requires
        spec_programs_ok(accounts),
        !accounts.mint_authority_signed,
    ensures
        spec_mint(l, accounts, title, symbol, uri)
            == Err::<LedgerMap, MintError>(MintError::Unauthorized),
{
}

/// Funding the authority with less than the combined rent-exempt minimum
/// of all four records aborts the pipeline at account provisioning with
/// `InsufficientFunds`; no record is created.
pub proof fn lemma_underfunded_mint_fails(
    l: LedgerMap,
    accounts: MintNft,
    title: Seq<char>,
    symbol: Seq<char>,
    uri: Seq<char>,
)
    requires
        spec_programs_ok(accounts),
        accounts.mint_authority_signed,
        accounts.mint_signed,
        accounts.mint is Key,
        !l.contains_key(accounts.mint),
        spec_is_wallet(l, accounts.mint_authority),
        l[accounts.mint_authority].balance < RENT_TOTAL,
    ensures
        spec_mint(l, accounts, title, symbol, uri)
            == Err::<LedgerMap, MintError>(MintError::InsufficientFunds),
{
}

/// Success is owed: against fresh, correctly derived, fully funded and
/// fully signed inputs the pipeline succeeds.
pub proof fn lemma_mint_succeeds(
    l: LedgerMap,
    accounts: MintNft,
    title: Seq<char>,
    symbol: Seq<char>,
    uri: Seq<char>,
)
    requires
        spec_programs_ok(accounts),
        accounts.mint_authority_signed,
        accounts.mint_signed,
        accounts.mint is Key,
        accounts.mint_authority is Key,
        !l.contains_key(accounts.mint),
        spec_is_wallet(l, accounts.mint_authority),
        l[accounts.mint_authority].balance >= RENT_TOTAL,
        spec_owner_storage_address(accounts.mint_authority, accounts.mint)
            == Some(accounts.token_account),
        spec_metadata_address(accounts.mint) == Some(accounts.metadata),
        spec_edition_address(accounts.mint) == Some(accounts.master_edition),
        !l.contains_key(accounts.token_account),
        !l.contains_key(accounts.metadata),
        !l.contains_key(accounts.master_edition),
        title.len() <= MAX_TITLE_LEN,
        symbol.len() <= MAX_SYMBOL_LEN,
        uri.len() <= MAX_URI_LEN,
    ensures
        spec_mint(l, accounts, title, symbol, uri) is Ok,
{
    lemma_derived_addresses_distinct(accounts.mint_authority, accounts.mint);
    assert(accounts.mint_authority != accounts.mint);
    assert(spec_provision_account(
        l,
        accounts.mint,
        accounts.mint_authority,
        accounts.mint_authority_signed,
        accounts.mint_signed,
    ) is Ok);
}


} // verus!
