//! The supported on-chain programs and their addresses.

use vstd::prelude::*;
use crate::pubkey::Pubkey;

verus! {

/// Address of the system program, `11111111111111111111111111111111`.
pub const SYSTEM_PROGRAM_ID: [u8; 32] = [
    0, 0, 0, 0, 0, 0, 0, 0, 0, 0, 0, 0, 0, 0, 0, 0,
    0, 0, 0, 0, 0, 0, 0, 0, 0, 0, 0, 0, 0, 0, 0, 0,
];

/// Address of the fungible-token program,
/// `TokenkegQfeZyiNwAJbNbGKPFXCWuBvf9Ss623VQ5DA`.
pub const TOKEN_PROGRAM_ID: [u8; 32] = [
    6, 221, 246, 225, 215, 101, 161, 147, 217, 203, 225, 70, 206, 235, 121, 172,
    28, 180, 133, 237, 95, 91, 55, 145, 58, 140, 245, 133, 126, 255, 0, 169,
];

/// Address of the Raydium AMM program,
/// `675kPX9MHTjS2zt1qfr1NYHuzeLXfQM9H24wFSUt1Mp8`.
pub const RAYDIUM_AMM_PROGRAM_ID: [u8; 32] = [
    75, 217, 73, 196, 54, 2, 195, 63, 32, 119, 144, 237, 22, 163, 82, 76,
    161, 185, 151, 92, 241, 33, 162, 169, 12, 255, 236, 125, 248, 182, 138, 205,
];

/// Address of the pump.fun launchpad program,
/// `6EF8rrecthR5Dkzon8Nwu78hRvfCKubJ14M5uBEwF6P`.
pub const PUMPFUN_PROGRAM_ID: [u8; 32] = [
    1, 86, 224, 246, 147, 102, 90, 207, 68, 219, 21, 104, 191, 23, 91, 170,
    81, 137, 203, 151, 245, 210, 255, 59, 101, 93, 43, 182, 253, 109, 24, 176,
];

/// Address of the token-metadata program,
/// `metaqbxxUerdq28cj1RbAWkYQm3ybzjb6a8bt518x1s`.
pub const MPL_TOKEN_METADATA_PROGRAM_ID: [u8; 32] = [
    11, 112, 101, 177, 227, 209, 124, 69, 56, 157, 82, 127, 107, 4, 195, 205,
    88, 184, 108, 115, 26, 160, 253, 181, 73, 182, 209, 188, 3, 248, 41, 70,
];

/// A program whose instructions yield rows.
#[derive(Clone, Copy, Debug, PartialEq, Eq, Structural)]
pub enum ProgramFamily {
    RaydiumAmm,
    SplToken,
    SystemProgram,
    Pumpfun,
    MplTokenMetadata,
}

impl ProgramFamily {
    /// The address of the program.
    pub open spec fn address(self) -> Seq<u8> {
        match self {
            ProgramFamily::RaydiumAmm => RAYDIUM_AMM_PROGRAM_ID@,
            ProgramFamily::SplToken => TOKEN_PROGRAM_ID@,
            ProgramFamily::SystemProgram => SYSTEM_PROGRAM_ID@,
            ProgramFamily::Pumpfun => PUMPFUN_PROGRAM_ID@,
            ProgramFamily::MplTokenMetadata => MPL_TOKEN_METADATA_PROGRAM_ID@,
        }
    }

    /// The address of the program.
    pub fn program_id(self) -> (key: Pubkey)
        ensures
            key@ == self.address(),
    {
        match self {
            ProgramFamily::RaydiumAmm => Pubkey::new(RAYDIUM_AMM_PROGRAM_ID),
            ProgramFamily::SplToken => Pubkey::new(TOKEN_PROGRAM_ID),
            ProgramFamily::SystemProgram => Pubkey::new(SYSTEM_PROGRAM_ID),
            ProgramFamily::Pumpfun => Pubkey::new(PUMPFUN_PROGRAM_ID),
            ProgramFamily::MplTokenMetadata => Pubkey::new(MPL_TOKEN_METADATA_PROGRAM_ID),
        }
    }
}

/// The supported program that lives at an address, if one does.
pub open spec fn family_of(address: Seq<u8>) -> Option<ProgramFamily> {
    if address == RAYDIUM_AMM_PROGRAM_ID@ {
        Some(ProgramFamily::RaydiumAmm)
    } else if address == TOKEN_PROGRAM_ID@ {
        Some(ProgramFamily::SplToken)
    } else if address == SYSTEM_PROGRAM_ID@ {
        Some(ProgramFamily::SystemProgram)
    } else if address == PUMPFUN_PROGRAM_ID@ {
        Some(ProgramFamily::Pumpfun)
    } else if address == MPL_TOKEN_METADATA_PROGRAM_ID@ {
        Some(ProgramFamily::MplTokenMetadata)
    } else {
        None
    }
}

/// Selects the supported program by exact address match. An address of no
/// supported program selects none.
pub fn classify(program_id: &Pubkey) -> (family: Option<ProgramFamily>)
    ensures
        family == family_of(program_id@),
{
    if program_id.same(&Pubkey::new(RAYDIUM_AMM_PROGRAM_ID)) {
        Some(ProgramFamily::RaydiumAmm)
    } else if program_id.same(&Pubkey::new(TOKEN_PROGRAM_ID)) {
        Some(ProgramFamily::SplToken)
    } else if program_id.same(&Pubkey::new(SYSTEM_PROGRAM_ID)) {
        Some(ProgramFamily::SystemProgram)
    } else if program_id.same(&Pubkey::new(PUMPFUN_PROGRAM_ID)) {
        Some(ProgramFamily::Pumpfun)
    } else if program_id.same(&Pubkey::new(MPL_TOKEN_METADATA_PROGRAM_ID)) {
        Some(ProgramFamily::MplTokenMetadata)
    } else {
        None
    }
}

/// The five addresses differ from each other, so every supported program is
/// selected by its own address.
pub proof fn lemma_family_of_address(family: ProgramFamily)
    ensures
        family_of(family.address()) == Some(family),
{
}

} // verus!
