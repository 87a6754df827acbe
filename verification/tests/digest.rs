use skynt_pow::bytes::{leading_u128, nonce_le_bytes};
use skynt_pow::{
    chained_pow, challenge_digest, hex_encode_8, meets_target, recursive_pow, rehash, same_bytes,
    POW_CHAIN_ROUNDS,
};

fn seed() -> [u8; 32] {
    let mut s = [0u8; 32];
    for i in 0..32 {
        s[i] = i as u8;
    }
    s
}

fn miner() -> [u8; 32] {
    let mut m = [0u8; 32];
    for i in 0..32 {
        m[i] = 0xA0 + (i % 16) as u8;
    }
    m
}

fn unhex(text: &str) -> [u8; 32] {
    let mut out = [0u8; 32];
    for i in 0..32 {
        out[i] = u8::from_str_radix(&text[2 * i..2 * i + 2], 16).unwrap();
    }
    out
}

fn digest_with_leading(value: u128) -> [u8; 32] {
    let mut d = [0xEEu8; 32];
    d[..16].copy_from_slice(&value.to_be_bytes());
    d
}

#[test]
fn nonce_bytes_are_little_endian() {
    assert_eq!(nonce_le_bytes(0), [0u8; 8]);
    assert_eq!(nonce_le_bytes(1), [1, 0, 0, 0, 0, 0, 0, 0]);
    assert_eq!(nonce_le_bytes(0x0102_0304_0506_0708), [8, 7, 6, 5, 4, 3, 2, 1]);
    assert_eq!(nonce_le_bytes(u64::MAX), [0xFF; 8]);
    for n in [7u64, 255, 256, 65_535, 1 << 40, u64::MAX - 1] {
        assert_eq!(nonce_le_bytes(n), n.to_le_bytes());
    }
}

#[test]
fn leading_number_is_big_endian() {
    assert_eq!(leading_u128(&[0u8; 32]), 0);
    assert_eq!(leading_u128(&[0xFF; 32]), u128::MAX);
    let mut d = [0u8; 32];
    d[15] = 5;
    d[16] = 0xFF;
    assert_eq!(leading_u128(&d), 5);
    d[0] = 1;
    assert_eq!(leading_u128(&d), (1u128 << 120) + 5);
    let h = unhex("abc797e9094b0e6fa81a98047bebf00165dbe4302aa6359bee0733b3894635b8");
    assert_eq!(leading_u128(&h), 228334335460957164888148967864350273537);
}

#[test]
fn leading_number_ignores_the_last_sixteen_bytes() {
    let a = digest_with_leading(77);
    let mut b = a;
    for i in 16..32 {
        b[i] = 0;
    }
    assert_eq!(leading_u128(&a), 77);
    assert_eq!(leading_u128(&b), 77);
}

#[test]
fn challenge_digest_is_sha256_of_seed_nonce_miner() {
    assert_eq!(
        challenge_digest(&seed(), 7, &miner()),
        unhex("abc797e9094b0e6fa81a98047bebf00165dbe4302aa6359bee0733b3894635b8")
    );
    assert_eq!(
        challenge_digest(&[0u8; 32], 0, &[0u8; 32]),
        unhex("834a709ba2534ebe3ee1397fd4f7bd288b2acc1d20a08d6c862dcd99b6f04400")
    );
    assert_eq!(
        challenge_digest(&seed(), 27, &miner()),
        unhex("003b0385cb6a969c72b69d5d82ae97c67a087795b62781a5fa149ae8e78a7480")
    );
}

#[test]
fn challenge_digest_agrees_with_the_hash_of_the_three_parts() {
    for nonce in [0u64, 1, 27, 257, u64::MAX] {
        let s = seed();
        let m = miner();
        let le = nonce.to_le_bytes();
        let direct = anchor_lang::solana_program::hash::hashv(&[&s[..], &le[..], &m[..]]);
        assert_eq!(challenge_digest(&s, nonce, &m), direct.to_bytes());
    }
}

#[test]
fn challenge_digest_depends_on_every_input() {
    let base = challenge_digest(&seed(), 7, &miner());
    assert_ne!(challenge_digest(&seed(), 8, &miner()), base);
    assert_ne!(challenge_digest(&miner(), 7, &miner()), base);
    assert_ne!(challenge_digest(&seed(), 7, &seed()), base);
    assert_ne!(base, seed());
    assert_ne!(base, miner());
}

#[test]
fn chained_digest_known_values() {
    assert_eq!(
        chained_pow(42, &miner(), 0),
        unhex("8b36141861558cc647d45914f168358afbed5b7a9d17d1ac1da82bd7078ff8e8")
    );
    assert_eq!(
        chained_pow(42, &miner(), 1),
        unhex("c6e34c17bdb0010b307ac7cad66c2724ba9a9de2c9926e92fb4de01a287ecd57")
    );
    assert_eq!(
        chained_pow(42, &miner(), 16),
        unhex("5d0140498914952bad19441b438a8b546f0a938f9f2320ef21076659e026e472")
    );
}

#[test]
fn recursive_pow_uses_the_named_round_count() {
    assert_eq!(POW_CHAIN_ROUNDS, 16);
    assert_eq!(recursive_pow(42, &miner()), chained_pow(42, &miner(), POW_CHAIN_ROUNDS));
    assert_eq!(
        recursive_pow(42, &miner()),
        unhex("5d0140498914952bad19441b438a8b546f0a938f9f2320ef21076659e026e472")
    );
    assert_eq!(leading_u128(&recursive_pow(42, &miner())), 123624699805150537556091949327495891796);
}

#[test]
fn rehash_applies_one_round_at_a_time() {
    let first = chained_pow(42, &miner(), 0);
    assert_eq!(rehash(first, 0), first);
    assert_eq!(rehash(first, 1), chained_pow(42, &miner(), 1));
    assert_eq!(rehash(rehash(first, 5), 11), chained_pow(42, &miner(), 16));
    let plain = anchor_lang::solana_program::hash::hashv(&[&first[..]]).to_bytes();
    assert_eq!(rehash(first, 1), plain);
}

#[test]
fn target_minus_one_is_accepted_and_target_is_not() {
    for target in [1u128, 2, 5, 1 << 64, 1 << 120, u128::MAX] {
        assert!(meets_target(&digest_with_leading(target - 1), target));
        assert!(!meets_target(&digest_with_leading(target), target));
    }
    for target in [1u128, 5, 1 << 120] {
        assert!(!meets_target(&digest_with_leading(target + 1), target));
        assert!(!meets_target(&digest_with_leading(u128::MAX), target));
    }
}

#[test]
fn a_zero_target_accepts_nothing() {
    assert!(!meets_target(&[0u8; 32], 0));
    assert!(!meets_target(&digest_with_leading(1), 0));
    assert!(meets_target(&[0u8; 32], 1));
}

#[test]
fn same_bytes_compares_all_thirty_two() {
    assert!(same_bytes(&seed(), &seed()));
    assert!(!same_bytes(&seed(), &miner()));
    let mut other = seed();
    other[31] ^= 1;
    assert!(!same_bytes(&seed(), &other));
    other = seed();
    other[0] ^= 0x80;
    assert!(!same_bytes(&seed(), &other));
}

#[test]
fn hex_shows_eight_bytes_at_most() {
    assert_eq!(hex_encode_8(&[]), "");
    assert_eq!(hex_encode_8(&[0x00, 0xFF, 0x1a]), "00ff1a");
    assert_eq!(hex_encode_8(&[0x09, 0x0a, 0x9f, 0xa0]), "090a9fa0");
    assert_eq!(hex_encode_8(&[1, 2, 3, 4, 5, 6, 7, 8]), "0102030405060708");
    assert_eq!(hex_encode_8(&[1, 2, 3, 4, 5, 6, 7, 8, 9]), "0102030405060708...");
    assert_eq!(hex_encode_8(&seed()), "0001020304050607...");
    assert_eq!(hex_encode_8(&miner()), "a0a1a2a3a4a5a6a7...");
}
