//! The data model of the minting flow: the records the pipeline creates,
//! the error taxonomy, and the fixed parameters baked into the flow.

use vstd::prelude::*;

use crate::addresses::Address;

verus! {

/// Byte size of a supply record's storage.
pub const SUPPLY_RECORD_SIZE: u64 = 82;

/// Rent-exempt minimum balance for a supply record's storage.
pub const RENT_SUPPLY: u64 = 10_000_000;

/// Rent-exempt minimum balance for an owner-storage record.
pub const RENT_OWNER_STORAGE: u64 = 2_039_280;

/// Rent-exempt minimum balance for a metadata record.
pub const RENT_METADATA: u64 = 15_616_720;

/// Rent-exempt minimum balance for a master-edition record.
pub const RENT_EDITION: u64 = 2_853_600;

/// Combined rent-exempt minimum for all four records the pipeline creates.
pub const RENT_TOTAL: u64 = RENT_SUPPLY + RENT_OWNER_STORAGE + RENT_METADATA + RENT_EDITION;

/// Longest title the metadata program accepts.
pub const MAX_TITLE_LEN: usize = 32;

/// Longest symbol the metadata program accepts.
pub const MAX_SYMBOL_LEN: usize = 10;

/// Longest content-locator URI the metadata program accepts.
pub const MAX_URI_LEN: usize = 200;

/// Maximum print count stamped on the master edition.
pub const MAX_PRINT_SUPPLY: u64 = 10_000;

/// Royalty fee in basis points written into every metadata record.
pub const SELLER_FEE_BASIS_POINTS: u16 = 0;

/// Revenue share of the single creator entry.
pub const CREATOR_SHARE: u8 = 100;

/// Key of the base ledger system program.
pub const SYSTEM_PROGRAM_KEY: u64 = 11;

/// Key of the generic token program that owns supply records.
pub const TOKEN_PROGRAM_KEY: u64 = 12;

/// Key of the associated-account program that owns owner storage.
pub const ASSOCIATED_TOKEN_PROGRAM_KEY: u64 = 13;

/// Key of the metadata program.
pub const METADATA_PROGRAM_KEY: u64 = 14;

/// Key of the rent oracle account.
pub const RENT_SYSVAR_KEY: u64 = 15;

/// Why the pipeline aborted.  Any failure discards the whole transaction.
#[derive(PartialEq, Eq, Structural, Clone, Copy, Debug)]
pub enum MintError {
    /// The funder's balance does not cover the storage to be created.
    InsufficientFunds,
    /// The fresh supply-record identity already has storage.
    AddressAlreadyInUse,
    /// The record at a derived address already exists.
    AlreadyInitialized,
    /// A wrong derived address, or storage of the wrong size or owner.
    AccountMismatch,
    /// A required signature is missing or the signer is not the authority.
    Unauthorized,
    /// An ordering invariant was violated, e.g. an edition was requested
    /// before issuance.
    PreconditionFailed,
    /// Issuing one more unit would overflow the issued-units counter.
    SupplyOverflow,
    /// A collaborator program failed for a reason this pipeline does not
    /// interpret, e.g. an over-length metadata string.
    DelegatedCallFailed,
}

/// One entry of a metadata record's creator list.
#[derive(PartialEq, Eq, Structural, Clone, Copy, Debug)]
pub struct Creator {
    pub identity: Address,
    pub verified: bool,
    pub share: u8,
}

/// The fungible-unit-supply configuration of the asset.
#[derive(PartialEq, Eq, Structural, Clone, Copy, Debug)]
pub struct SupplyRecord {
    pub decimals: u8,
    pub mint_authority: Option<Address>,
    pub freeze_authority: Option<Address>,
    pub issued: u64,
}

/// Balance of one owner in one supply record.
#[derive(PartialEq, Eq, Structural, Clone, Copy, Debug)]
pub struct OwnerStorageRecord {
    pub owner: Address,
    pub supply: Address,
    pub amount: u64,
}

/// Display data attached to a supply record.
#[derive(Debug)]
pub struct MetadataRecord {
    pub title: String,
    pub symbol: String,
    pub uri: String,
    pub update_authority: Address,
    pub creators: Vec<Creator>,
    pub seller_fee_basis_points: u16,
    pub is_mutable: bool,
    pub collection: Option<Address>,
}

/// Master-edition record: fixes the print cap of the asset.
#[derive(PartialEq, Eq, Structural, Clone, Copy, Debug)]
pub struct EditionRecord {
    pub max_prints: u64,
    pub prints: u64,
}

/// Contents of one ledger account.
#[derive(Debug)]
pub enum AccountData {
    /// A plain balance-holding account with no record in it.
    Wallet,
    /// Provisioned but uninitialized storage of a given byte size, owned by
    /// a given program.
    Raw { size: u64, owner_program: u64 },
    Supply(SupplyRecord),
    OwnerStorage(OwnerStorageRecord),
    Metadata(MetadataRecord),
    Edition(EditionRecord),
}

/// One ledger account: its balance and its contents.
#[derive(Debug)]
pub struct Account {
    pub balance: u64,
    pub data: AccountData,
}

/// Mathematical image of a metadata record: strings as character
/// sequences, the creator list as a sequence.
pub struct MetadataRecordV {
    pub title: Seq<char>,
    pub symbol: Seq<char>,
    pub uri: Seq<char>,
    pub update_authority: Address,
    pub creators: Seq<Creator>,
    pub seller_fee_basis_points: u16,
    pub is_mutable: bool,
    pub collection: Option<Address>,
}

/// Mathematical image of an account's contents.
pub enum AccountDataV {
    Wallet,
    Raw { size: u64, owner_program: u64 },
    Supply(SupplyRecord),
    OwnerStorage(OwnerStorageRecord),
    Metadata(MetadataRecordV),
    Edition(EditionRecord),
}

/// Mathematical image of one ledger account.
pub struct AccountV {
    pub balance: u64,
    pub data: AccountDataV,
}

impl View for MetadataRecord {
    type V = MetadataRecordV;

    open spec fn view(&self) -> MetadataRecordV {
        MetadataRecordV {
            title: self.title@,
            symbol: self.symbol@,
            uri: self.uri@,
            update_authority: self.update_authority,
            creators: self.creators@,
            seller_fee_basis_points: self.seller_fee_basis_points,
            is_mutable: self.is_mutable,
            collection: self.collection,
        }
    }
}

impl View for AccountData {
    type V = AccountDataV;

    open spec fn view(&self) -> AccountDataV {
        match self {
            AccountData::Wallet => AccountDataV::Wallet,
            AccountData::Raw { size, owner_program } => (AccountDataV::Raw {
                size: *size,
                owner_program: *owner_program,
            }),
            AccountData::Supply(s) => AccountDataV::Supply(*s),
            AccountData::OwnerStorage(o) => AccountDataV::OwnerStorage(*o),
            AccountData::Metadata(m) => AccountDataV::Metadata(m@),
            AccountData::Edition(e) => AccountDataV::Edition(*e),
        }
    }
}

impl View for Account {
    type V = AccountV;

    open spec fn view(&self) -> AccountV {
        AccountV { balance: self.balance, data: self.data@ }
    }
}

/// Sum of the revenue shares of a creator list.
pub open spec fn shares_total(creators: Seq<Creator>) -> int
    decreases creators.len(),
{
    if creators.len() == 0 {
        0
    } else {
        shares_total(creators.drop_last()) + creators.last().share
    }
}

impl Account {
    /// A structural copy: same balance, same contents.
    pub fn dup(&self) -> (r: Account)
        ensures
            r@ == self@,
    {
        let data = match &self.data {
            AccountData::Wallet => AccountData::Wallet,
            AccountData::Raw { size, owner_program } => (AccountData::Raw {
                size: *size,
                owner_program: *owner_program,
            }),
            AccountData::Supply(s) => AccountData::Supply(*s),
            AccountData::OwnerStorage(o) => AccountData::OwnerStorage(*o),
            AccountData::Metadata(m) => AccountData::Metadata(m.dup()),
            AccountData::Edition(e) => AccountData::Edition(*e),
        };
        Account { balance: self.balance, data }
    }
}

impl MetadataRecord {
    /// A structural copy of the record.
    pub fn dup(&self) -> (r: MetadataRecord)
        ensures
            r@ == self@,
    {
        let mut creators: Vec<Creator> = Vec::new();
        let mut i: usize = 0;
        while i < self.creators.len()
            invariant
                i <= self.creators.len(),
                creators@ == self.creators@.subrange(0, i as int),
            decreases self.creators.len() - i,
        {
            creators.push(self.creators[i]);
            proof {
                assert(creators@ =~= self.creators@.subrange(0, i + 1 as int));
            }
            i = i + 1;
        }
        proof {
            assert(creators@ =~= self.creators@);
        }
        MetadataRecord {
            title: self.title.clone(),
            symbol: self.symbol.clone(),
            uri: self.uri.clone(),
            update_authority: self.update_authority,
            creators,
            seller_fee_basis_points: self.seller_fee_basis_points,
            is_mutable: self.is_mutable,
            collection: self.collection,
        }
    }
}

} // verus!
