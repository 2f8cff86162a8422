use solana_rows::programs::{
    classify, ProgramFamily, MPL_TOKEN_METADATA_PROGRAM_ID, PUMPFUN_PROGRAM_ID,
    RAYDIUM_AMM_PROGRAM_ID, SYSTEM_PROGRAM_ID, TOKEN_PROGRAM_ID,
};
use solana_rows::pubkey::Pubkey;

const FAMILIES: [(ProgramFamily, [u8; 32], &str); 5] = [
    (ProgramFamily::RaydiumAmm, RAYDIUM_AMM_PROGRAM_ID, "675kPX9MHTjS2zt1qfr1NYHuzeLXfQM9H24wFSUt1Mp8"),
    (ProgramFamily::SplToken, TOKEN_PROGRAM_ID, "TokenkegQfeZyiNwAJbNbGKPFXCWuBvf9Ss623VQ5DA"),
    (ProgramFamily::SystemProgram, SYSTEM_PROGRAM_ID, "11111111111111111111111111111111"),
    (ProgramFamily::Pumpfun, PUMPFUN_PROGRAM_ID, "6EF8rrecthR5Dkzon8Nwu78hRvfCKubJ14M5uBEwF6P"),
    (
        ProgramFamily::MplTokenMetadata,
        MPL_TOKEN_METADATA_PROGRAM_ID,
        "metaqbxxUerdq28cj1RbAWkYQm3ybzjb6a8bt518x1s",
    ),
];

#[test]
fn program_addresses_read_as_their_well_known_texts() {
    for (family, bytes, text) in FAMILIES {
        assert_eq!(Pubkey::new(bytes).to_base58(), text);
        assert_eq!(family.program_id(), Pubkey::new(bytes));
        assert_eq!(Pubkey::from_base58(text), Some(Pubkey::new(bytes)));
    }
}

#[test]
fn classify_selects_by_exact_address() {
    for (family, bytes, _) in FAMILIES {
        assert_eq!(classify(&Pubkey::new(bytes)), Some(family));
        let mut near = bytes;
        near[31] ^= 1;
        assert_eq!(classify(&Pubkey::new(near)), None);
        let mut far = bytes;
        far[0] ^= 0x80;
        assert_eq!(classify(&Pubkey::new(far)), None);
    }
    assert_eq!(classify(&Pubkey::new([9; 32])), None);
}

#[test]
fn base58_text_agrees_with_the_codec() {
    let mut bytes = [0u8; 32];
    for (i, b) in bytes.iter_mut().enumerate() {
        *b = (i * 7 + 3) as u8;
    }
    let key = Pubkey::new(bytes);
    let text = key.to_base58();
    assert_eq!(text, bs58::encode(bytes).into_string());
    assert_ne!(text.as_bytes(), &bytes[..]);
    assert_eq!(Pubkey::from_base58(&text), Some(key));
}

#[test]
fn from_base58_refuses_what_is_no_address() {
    assert_eq!(Pubkey::from_base58("hello world"), None); // not base58
    assert_eq!(Pubkey::from_base58("he11owor1d"), None); // base58, but not 32 bytes
    assert_eq!(Pubkey::from_base58(""), None);
    assert_eq!(Pubkey::from_base58("0OIl"), None);
    assert_eq!(Pubkey::from_base58("1111111111111111111111111111111"), None); // 31 bytes
    assert_eq!(Pubkey::from_base58("111111111111111111111111111111111"), None); // 33 bytes
}

#[test]
fn from_bytes_takes_exactly_32_bytes() {
    let bytes: Vec<u8> = (0..32).collect();
    let key = Pubkey::from_bytes(&bytes).unwrap();
    assert_eq!(&key.bytes[..], &bytes[..]);
    assert_eq!(Pubkey::from_bytes(&bytes[..31]), None);
    assert_eq!(Pubkey::from_bytes(&[0u8; 33]), None);
    assert_eq!(Pubkey::from_bytes(&[]), None);
}

#[test]
fn same_compares_all_bytes() {
    let one = Pubkey::new([7; 32]);
    assert!(one.same(&Pubkey::new([7; 32])));
    for i in 0..32 {
        let mut bytes = [7u8; 32];
        bytes[i] = 8;
        assert!(!one.same(&Pubkey::new(bytes)));
    }
}
