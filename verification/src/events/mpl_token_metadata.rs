//! Events of the token-metadata program and the rows that they yield.

use vstd::prelude::*;
use crate::row::{Row, RowKey, RowView};

verus! {

/// A metadata account was created for a mint.
#[derive(Clone, Debug, PartialEq, Eq)]
pub struct CreateMetadataAccountV3 {
    pub metadata: String,
    pub mint: String,
    pub update_authority: String,
    pub is_mutable: bool,
    pub name: String,
    pub symbol: String,
    pub uri: String,
    pub seller_fee_basis_points: u32,
}

/// The kinds of instruction of which only the name is recorded.
#[derive(Clone, Copy, Debug, PartialEq, Eq, Structural)]
pub enum OtherInstruction {
    ApproveCollectionAuthority,
    ApproveUseAuthority,
    BubblegumSetCollectionSize,
    Burn,
    BurnEditionNft,
    BurnNft,
    CloseEscrowAccount,
    ConvertMasterEditionV1ToV2,
    Create,
    CreateEscrowAccount,
    CreateMasterEdition,
    CreateMasterEditionV3,
    CreateMetadataAccount,
    CreateMetadataAccountV2,
    Delegate,
    DeprecatedCreateMasterEdition,
    DeprecatedCreateReservationList,
    DeprecatedMintNewEditionFromMasterEditionViaPrintingToken,
    DeprecatedMintPrintingTokens,
    DeprecatedMintPrintingTokensViaToken,
    DeprecatedSetReservationList,
    FreezeDelegatedAccount,
    Lock,
    Migrate,
    MintNewEditionFromMasterEditionViaToken,
    MintNewEditionFromMasterEditionViaVaultProxy,
    PuffMetadata,
    RemoveCreatorVerification,
    Revoke,
    RevokeCollectionAuthority,
    RevokeUseAuthority,
    SetAndVerifyCollection,
    SetAndVerifySizedCollectionItem,
    SetTokenStandard,
    SignMetadata,
    ThawDelegatedAccount,
    Transfer,
    TransferOutOfEscrow,
    Unlock,
    Unverify,
    UnverifyCollection,
    UnverifySizedCollectionItem,
    Update,
    UpdateMetadataAccount,
    UpdateMetadataAccountV2,
    UpdatePrimarySaleHappenedViaToken,
    Utilize,
    Print,
    Verify,
    Mint,
    SetCollectionSize,
    Collect,
    Use,
    VerifySizedCollectionItem,
    VerifyCollection,
    Resize,
    CloseAccounts,
}

impl OtherInstruction {
    /// The name under which the kind is recorded.
    pub open spec fn name(self) -> Seq<char> {
        match self {
            OtherInstruction::ApproveCollectionAuthority => "approve_collection_authority"@,
            OtherInstruction::ApproveUseAuthority => "approve_use_authority"@,
            OtherInstruction::BubblegumSetCollectionSize => "bubblegum_set_collection_size"@,
            OtherInstruction::Burn => "burn"@,
            OtherInstruction::BurnEditionNft => "burn_edition_nft"@,
            OtherInstruction::BurnNft => "burn_nft"@,
            OtherInstruction::CloseEscrowAccount => "close_escrow_account"@,
            OtherInstruction::ConvertMasterEditionV1ToV2 => "convert_master_edition_v1_to_v2"@,
            OtherInstruction::Create => "create"@,
            OtherInstruction::CreateEscrowAccount => "create_escrow_account"@,
            OtherInstruction::CreateMasterEdition => "create_master_edition"@,
            OtherInstruction::CreateMasterEditionV3 => "create_master_edition_v3"@,
            OtherInstruction::CreateMetadataAccount => "create_metadata_account"@,
            OtherInstruction::CreateMetadataAccountV2 => "create_metadata_account_v2"@,
            OtherInstruction::Delegate => "delegate"@,
            OtherInstruction::DeprecatedCreateMasterEdition => "deprecated_create_master_edition"@,
            OtherInstruction::DeprecatedCreateReservationList => "deprecated_create_reservation_list"@,
            OtherInstruction::DeprecatedMintNewEditionFromMasterEditionViaPrintingToken => "deprecated_mint_new_edition_from_master_edition_via_printing_token"@,
            OtherInstruction::DeprecatedMintPrintingTokens => "deprecated_mint_printing_tokens"@,
            OtherInstruction::DeprecatedMintPrintingTokensViaToken => "deprecated_mint_printing_tokens_via_token"@,
            OtherInstruction::DeprecatedSetReservationList => "deprecated_set_reservation_list"@,
            OtherInstruction::FreezeDelegatedAccount => "freeze_delegated_account"@,
            OtherInstruction::Lock => "lock"@,
            OtherInstruction::Migrate => "migrate"@,
            OtherInstruction::MintNewEditionFromMasterEditionViaToken => "mint_new_edition_from_master_edition_via_token"@,
            OtherInstruction::MintNewEditionFromMasterEditionViaVaultProxy => "mint_new_edition_from_master_edition_via_vault_proxy"@,
            OtherInstruction::PuffMetadata => "puff_metadata"@,
            OtherInstruction::RemoveCreatorVerification => "remove_creator_verification"@,
            OtherInstruction::Revoke => "revoke"@,
            OtherInstruction::RevokeCollectionAuthority => "revoke_collection_authority"@,
            OtherInstruction::RevokeUseAuthority => "revoke_use_authority"@,
            OtherInstruction::SetAndVerifyCollection => "set_and_verify_collection"@,
            OtherInstruction::SetAndVerifySizedCollectionItem => "set_and_verify_sized_collection_item"@,
            OtherInstruction::SetTokenStandard => "set_token_standard"@,
            OtherInstruction::SignMetadata => "sign_metadata"@,
            OtherInstruction::ThawDelegatedAccount => "thaw_delegated_account"@,
            OtherInstruction::Transfer => "transfer"@,
            OtherInstruction::TransferOutOfEscrow => "transfer_out_of_escrow"@,
            OtherInstruction::Unlock => "unlock"@,
            OtherInstruction::Unverify => "unverify"@,
            OtherInstruction::UnverifyCollection => "unverify_collection"@,
            OtherInstruction::UnverifySizedCollectionItem => "unverify_sized_collection_item"@,
            OtherInstruction::Update => "update"@,
            OtherInstruction::UpdateMetadataAccount => "update_metadata_account"@,
            OtherInstruction::UpdateMetadataAccountV2 => "update_metadata_account_v2"@,
            OtherInstruction::UpdatePrimarySaleHappenedViaToken => "update_primary_sale_happened_via_token"@,
            OtherInstruction::Utilize => "utilize"@,
            OtherInstruction::Print => "print"@,
            OtherInstruction::Verify => "verify"@,
            OtherInstruction::Mint => "mint"@,
            OtherInstruction::SetCollectionSize => "set_collection_size"@,
            OtherInstruction::Collect => "collect"@,
            OtherInstruction::Use => "use"@,
            OtherInstruction::VerifySizedCollectionItem => "verify_sized_collection_item"@,
            OtherInstruction::VerifyCollection => "verify_collection"@,
            OtherInstruction::Resize => "resize"@,
            OtherInstruction::CloseAccounts => "close_accounts"@,
        }
    }

    /// The name under which the kind is recorded.
    pub fn recorded_name(self) -> (name: &'static str)
        ensures
            name@ == self.name(),
    {
        match self {
            OtherInstruction::ApproveCollectionAuthority => "approve_collection_authority",
            OtherInstruction::ApproveUseAuthority => "approve_use_authority",
            OtherInstruction::BubblegumSetCollectionSize => "bubblegum_set_collection_size",
            OtherInstruction::Burn => "burn",
            OtherInstruction::BurnEditionNft => "burn_edition_nft",
            OtherInstruction::BurnNft => "burn_nft",
            OtherInstruction::CloseEscrowAccount => "close_escrow_account",
            OtherInstruction::ConvertMasterEditionV1ToV2 => "convert_master_edition_v1_to_v2",
            OtherInstruction::Create => "create",
            OtherInstruction::CreateEscrowAccount => "create_escrow_account",
            OtherInstruction::CreateMasterEdition => "create_master_edition",
            OtherInstruction::CreateMasterEditionV3 => "create_master_edition_v3",
            OtherInstruction::CreateMetadataAccount => "create_metadata_account",
            OtherInstruction::CreateMetadataAccountV2 => "create_metadata_account_v2",
            OtherInstruction::Delegate => "delegate",
            OtherInstruction::DeprecatedCreateMasterEdition => "deprecated_create_master_edition",
            OtherInstruction::DeprecatedCreateReservationList => "deprecated_create_reservation_list",
            OtherInstruction::DeprecatedMintNewEditionFromMasterEditionViaPrintingToken => "deprecated_mint_new_edition_from_master_edition_via_printing_token",
            OtherInstruction::DeprecatedMintPrintingTokens => "deprecated_mint_printing_tokens",
            OtherInstruction::DeprecatedMintPrintingTokensViaToken => "deprecated_mint_printing_tokens_via_token",
            OtherInstruction::DeprecatedSetReservationList => "deprecated_set_reservation_list",
            OtherInstruction::FreezeDelegatedAccount => "freeze_delegated_account",
            OtherInstruction::Lock => "lock",
            OtherInstruction::Migrate => "migrate",
            OtherInstruction::MintNewEditionFromMasterEditionViaToken => "mint_new_edition_from_master_edition_via_token",
            OtherInstruction::MintNewEditionFromMasterEditionViaVaultProxy => "mint_new_edition_from_master_edition_via_vault_proxy",
            OtherInstruction::PuffMetadata => "puff_metadata",
            OtherInstruction::RemoveCreatorVerification => "remove_creator_verification",
            OtherInstruction::Revoke => "revoke",
            OtherInstruction::RevokeCollectionAuthority => "revoke_collection_authority",
            OtherInstruction::RevokeUseAuthority => "revoke_use_authority",
            OtherInstruction::SetAndVerifyCollection => "set_and_verify_collection",
            OtherInstruction::SetAndVerifySizedCollectionItem => "set_and_verify_sized_collection_item",
            OtherInstruction::SetTokenStandard => "set_token_standard",
            OtherInstruction::SignMetadata => "sign_metadata",
            OtherInstruction::ThawDelegatedAccount => "thaw_delegated_account",
            OtherInstruction::Transfer => "transfer",
            OtherInstruction::TransferOutOfEscrow => "transfer_out_of_escrow",
            OtherInstruction::Unlock => "unlock",
            OtherInstruction::Unverify => "unverify",
            OtherInstruction::UnverifyCollection => "unverify_collection",
            OtherInstruction::UnverifySizedCollectionItem => "unverify_sized_collection_item",
            OtherInstruction::Update => "update",
            OtherInstruction::UpdateMetadataAccount => "update_metadata_account",
            OtherInstruction::UpdateMetadataAccountV2 => "update_metadata_account_v2",
            OtherInstruction::UpdatePrimarySaleHappenedViaToken => "update_primary_sale_happened_via_token",
            OtherInstruction::Utilize => "utilize",
            OtherInstruction::Print => "print",
            OtherInstruction::Verify => "verify",
            OtherInstruction::Mint => "mint",
            OtherInstruction::SetCollectionSize => "set_collection_size",
            OtherInstruction::Collect => "collect",
            OtherInstruction::Use => "use",
            OtherInstruction::VerifySizedCollectionItem => "verify_sized_collection_item",
            OtherInstruction::VerifyCollection => "verify_collection",
            OtherInstruction::Resize => "resize",
            OtherInstruction::CloseAccounts => "close_accounts",
        }
    }
}

/// What one token-metadata instruction did.
#[derive(Clone, Debug, PartialEq, Eq)]
pub enum MplTokenMetadataEvent {
    CreateMetadataAccountV3(CreateMetadataAccountV3),
    /// An instruction of a kind that gets no table of its own.
    Other(OtherInstruction),
}

/// The row of a token-metadata event. An event of a kind without a table of
/// its own goes to the shared table, with the kind's name in the `type` column.
pub open spec fn mpl_token_metadata_row(event: MplTokenMetadataEvent, key: RowKey) -> RowView {
    match event {
        MplTokenMetadataEvent::CreateMetadataAccountV3(e) => RowView::new(
            "mpl_token_metadata_create_metadata_account_v3_events"@,
            key,
        )
            .text("metadata"@, e.metadata@)
            .text("mint"@, e.mint@)
            .text("update_authority"@, e.update_authority@)
            .boolean("is_mutable"@, e.is_mutable)
            .text("name"@, e.name@)
            .text("symbol"@, e.symbol@)
            .text("uri"@, e.uri@)
            .unsigned("seller_fee_basis_points"@, e.seller_fee_basis_points as u64),
        MplTokenMetadataEvent::Other(kind) => RowView::new("mpl_token_metadata_other_events"@, key)
            .text("type"@, kind.name()),
    }
}

/// Materializes what the token-metadata decoder returned for an instruction:
/// one row keyed by the instruction, in the table of the event's kind or in
/// the shared table; no row where the decoder returned no event.
pub fn parse_mpl_token_metadata_instruction(
    decoded: Option<MplTokenMetadataEvent>,
    slot: u64,
    transaction_index: u32,
    instruction_index: i32,
) -> (row: Option<Row>)
    ensures
        match decoded {
            Some(event) => row matches Some(r) && r@ == mpl_token_metadata_row(
                event,
                RowKey::Instruction { slot, transaction_index, instruction_index },
            ),
            None => row is None,
        },
{
    let event = match decoded {
        Some(event) => event,
        None => {
            return None;
        },
    };
    let key = RowKey::Instruction { slot, transaction_index, instruction_index };
    let row = match event {
        MplTokenMetadataEvent::CreateMetadataAccountV3(e) => {
            let mut row = Row::new("mpl_token_metadata_create_metadata_account_v3_events", key);
            row.set_text("metadata", e.metadata);
            row.set_text("mint", e.mint);
            row.set_text("update_authority", e.update_authority);
            row.set_boolean("is_mutable", e.is_mutable);
            row.set_text("name", e.name);
            row.set_text("symbol", e.symbol);
            row.set_text("uri", e.uri);
            row.set_unsigned("seller_fee_basis_points", e.seller_fee_basis_points as u64);
            row
        },
        MplTokenMetadataEvent::Other(kind) => {
            let mut row = Row::new("mpl_token_metadata_other_events", key);
            row.set_text("type", kind.recorded_name().to_owned());
            row
        },
    };
    Some(row)
}

} // verus!
