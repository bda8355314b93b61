//! Delegated-call messages for the metadata program, built through the
//! metadata program's own client crate.
//!
//! The two builders are pure: they assemble and serialize an instruction
//! from their arguments alone.  They stand behind trusted wrappers; the
//! verified function `mint_instructions` fixes the parameters of this
//! flow (single verified creator with the whole share, zero royalty fee,
//! mutable metadata, the fixed print cap) and validates its inputs, and
//! says exactly on which inputs a pair of messages is produced.

use vstd::prelude::*;

use crate::model::{
    MintError, CREATOR_SHARE, MAX_PRINT_SUPPLY, MAX_SYMBOL_LEN, MAX_TITLE_LEN, MAX_URI_LEN,
    SELLER_FEE_BASIS_POINTS,
};

verus! {

#[verifier::external_type_specification]
#[verifier::external_body]
pub struct ExPubkey(solana_program::pubkey::Pubkey);

#[verifier::external_type_specification]
#[verifier::external_body]
pub struct ExInstruction(solana_program::instruction::Instruction);

#[verifier::external_type_specification]
#[verifier::external_body]
pub struct ExDataV2(mpl_token_metadata::types::DataV2);

/// Relies on solana_program's Pubkey::new_from_array: a key is exactly
/// 32 bytes; the conversion from a 32-byte vector cannot fail.
#[verifier::external_body]
fn pubkey_from_bytes(b: &Vec<u8>) -> solana_program::pubkey::Pubkey
    requires
        b@.len() == 32,
{
    solana_program::pubkey::Pubkey::new_from_array(b.as_slice().try_into().unwrap())
}

/// Relies on mpl_token_metadata's DataV2: a plain record of the display
/// fields; this builds it with a single creator and no collection and no
/// uses, moving the arguments in unchanged.  The length bounds keep the
/// later serialization of the record infallible.
#[verifier::external_body]
fn metadata_args(
    title: String,
    symbol: String,
    uri: String,
    creator: solana_program::pubkey::Pubkey,
    creator_verified: bool,
    creator_share: u8,
    seller_fee_basis_points: u16,
) -> mpl_token_metadata::types::DataV2
    requires
        title@.len() <= MAX_TITLE_LEN,
        symbol@.len() <= MAX_SYMBOL_LEN,
        uri@.len() <= MAX_URI_LEN,
{
    let one = mpl_token_metadata::types::Creator {
        address: creator,
        verified: creator_verified,
        share: creator_share,
    };
    mpl_token_metadata::types::DataV2 {
        name: title,
        symbol,
        uri,
        seller_fee_basis_points,
        creators: Some(vec![one]),
        collection: None,
        uses: None,
    }
}

/// Relies on mpl_token_metadata's CreateMetadataAccountV3::instruction:
/// it serializes the given accounts and display data into the metadata
/// program's create-metadata message, from its arguments alone.  Within
/// this crate every `data` value comes from `metadata_args`, whose
/// bounded fields keep the serialization infallible.
#[verifier::external_body]
fn create_metadata_instruction(
    metadata: solana_program::pubkey::Pubkey,
    mint: solana_program::pubkey::Pubkey,
    mint_authority: solana_program::pubkey::Pubkey,
    payer: solana_program::pubkey::Pubkey,
    update_authority: solana_program::pubkey::Pubkey,
    update_authority_is_signer: bool,
    system_program: solana_program::pubkey::Pubkey,
    rent: solana_program::pubkey::Pubkey,
    data: mpl_token_metadata::types::DataV2,
    is_mutable: bool,
) -> solana_program::instruction::Instruction {
    let accounts = mpl_token_metadata::instructions::CreateMetadataAccountV3 {
        metadata,
        mint,
        mint_authority,
        payer,
        update_authority: (update_authority, update_authority_is_signer),
        system_program,
        rent: Some(rent),
    };
    let args = mpl_token_metadata::instructions::CreateMetadataAccountV3InstructionArgs {
        data,
        is_mutable,
        collection_details: None,
    };
    accounts.instruction(args)
}

/// Relies on mpl_token_metadata's CreateMasterEditionV3::instruction:
/// it serializes the given accounts and print cap into the metadata
/// program's create-master-edition message, from its arguments alone.
#[verifier::external_body]
fn create_master_edition_instruction(
    edition: solana_program::pubkey::Pubkey,
    mint: solana_program::pubkey::Pubkey,
    update_authority: solana_program::pubkey::Pubkey,
    mint_authority: solana_program::pubkey::Pubkey,
    payer: solana_program::pubkey::Pubkey,
    metadata: solana_program::pubkey::Pubkey,
    token_program: solana_program::pubkey::Pubkey,
    system_program: solana_program::pubkey::Pubkey,
    rent: solana_program::pubkey::Pubkey,
    max_supply: u64,
) -> solana_program::instruction::Instruction {
    let accounts = mpl_token_metadata::instructions::CreateMasterEditionV3 {
        edition,
        mint,
        update_authority,
        mint_authority,
        payer,
        metadata,
        token_program,
        system_program,
        rent: Some(rent),
    };
    let args = mpl_token_metadata::instructions::CreateMasterEditionV3InstructionArgs {
        max_supply: Some(max_supply),
    };
    accounts.instruction(args)
}

/// Builds the two delegated-call messages of stages five and six — the
/// create-metadata message and the create-master-edition message — with
/// the fixed parameters of this flow.  Succeeds exactly when every key
/// is 32 bytes long and the display strings are within the metadata
/// program's limits; over-length keys are an account mismatch, an
/// over-length string is the metadata program's own validation failure.
pub fn mint_instructions(
    metadata_key: &Vec<u8>,
    master_edition_key: &Vec<u8>,
    mint_key: &Vec<u8>,
    authority_key: &Vec<u8>,
    token_program_key: &Vec<u8>,
    system_program_key: &Vec<u8>,
    rent_key: &Vec<u8>,
    title: String,
    symbol: String,
    uri: String,
) -> (r: Result<
    (solana_program::instruction::Instruction, solana_program::instruction::Instruction),
    MintError,
>)
    ensures
        r is Ok <==> ({
            &&& metadata_key@.len() == 32
            &&& master_edition_key@.len() == 32
            &&& mint_key@.len() == 32
            &&& authority_key@.len() == 32
            &&& token_program_key@.len() == 32
            &&& system_program_key@.len() == 32
            &&& rent_key@.len() == 32
            &&& title@.len() <= MAX_TITLE_LEN
            &&& symbol@.len() <= MAX_SYMBOL_LEN
            &&& uri@.len() <= MAX_URI_LEN
        }),
        r matches Err(e) ==> (e == MintError::AccountMismatch || e
            == MintError::DelegatedCallFailed),
        (r is Err && metadata_key@.len() == 32 && master_edition_key@.len() == 32
            && mint_key@.len() == 32 && authority_key@.len() == 32
            && token_program_key@.len() == 32 && system_program_key@.len() == 32
            && rent_key@.len() == 32) ==> r == Err::<
            (solana_program::instruction::Instruction, solana_program::instruction::Instruction),
            MintError,
        >(MintError::DelegatedCallFailed),
{
    if metadata_key.len() != 32 || master_edition_key.len() != 32 || mint_key.len() != 32
        || authority_key.len() != 32 || token_program_key.len() != 32
        || system_program_key.len() != 32 || rent_key.len() != 32 {
        return Err(MintError::AccountMismatch);
    }
    if title.as_str().unicode_len() > MAX_TITLE_LEN || symbol.as_str().unicode_len()
        > MAX_SYMBOL_LEN || uri.as_str().unicode_len() > MAX_URI_LEN {
        return Err(MintError::DelegatedCallFailed);
    }
    let metadata = pubkey_from_bytes(metadata_key);
    let master_edition = pubkey_from_bytes(master_edition_key);
    let mint = pubkey_from_bytes(mint_key);
    let authority = pubkey_from_bytes(authority_key);
    let token_program = pubkey_from_bytes(token_program_key);
    let system_program = pubkey_from_bytes(system_program_key);
    let rent = pubkey_from_bytes(rent_key);
    let data = metadata_args(
        title,
        symbol,
        uri,
        authority,
        true,
        CREATOR_SHARE,
        SELLER_FEE_BASIS_POINTS,
    );
    let create_metadata = create_metadata_instruction(
        metadata,
        mint,
        authority,
        authority,
        authority,
        false,
        system_program,
        rent,
        data,
        true,
    );
    let create_edition = create_master_edition_instruction(
        master_edition,
        mint,
        authority,
        authority,
        authority,
        metadata,
        token_program,
        system_program,
        rent,
        MAX_PRINT_SUPPLY,
    );
    Ok((create_metadata, create_edition))
}

} // verus!
