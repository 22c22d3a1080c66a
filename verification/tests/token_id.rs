use universal_nft::token_id::{generate_token_id, leading_word_of};
use universal_nft::Pubkey;

fn key_with_prefix(prefix: [u8; 8]) -> Pubkey {
    let mut bytes = [0u8; 32];
    bytes[..8].copy_from_slice(&prefix);
    Pubkey::new_from_array(bytes)
}

fn by_shifts(prefix: [u8; 8], height: u64, counter: u64) -> Option<u64> {
    let word = u64::from_le_bytes(prefix);
    let low = (word >> 16) & 0x0000_00FF_FFFF_FFFF;
    low.checked_add(height << 32)?.checked_add(counter)
}

#[test]
fn leading_word_is_little_endian() {
    let key = key_with_prefix([0x11, 0x22, 0x33, 0x44, 0x55, 0x66, 0x77, 0x88]);
    assert_eq!(leading_word_of(&key), 0x8877_6655_4433_2211);
}

#[test]
fn leading_word_ignores_the_tail() {
    let mut bytes = [0xffu8; 32];
    bytes[..8].copy_from_slice(&[1, 0, 0, 0, 0, 0, 0, 0]);
    assert_eq!(leading_word_of(&Pubkey::new_from_array(bytes)), 1);
}

#[test]
fn token_id_exact_value() {
    let key = key_with_prefix([0x11, 0x22, 0x33, 0x44, 0x55, 0x66, 0x77, 0x88]);
    assert_eq!(generate_token_id(&key, 5, 1), Some(0x7c_6655_4434));
    assert_eq!(generate_token_id(&key, 5, 1), Some(534_292_808_756));
}

#[test]
fn token_id_drops_low_sixteen_bits_of_the_unit() {
    let a = key_with_prefix([0xaa, 0xbb, 0, 0, 0, 0, 0, 0]);
    let b = key_with_prefix([0, 0, 0, 0, 0, 0, 0, 0]);
    assert_eq!(generate_token_id(&a, 0, 9), Some(9));
    assert_eq!(generate_token_id(&a, 0, 9), generate_token_id(&b, 0, 9));
}

#[test]
fn token_id_keeps_forty_bits_of_the_unit() {
    let key = key_with_prefix([0, 0, 0xff, 0xff, 0xff, 0xff, 0xff, 0xff]);
    assert_eq!(generate_token_id(&key, 0, 0), Some(0xff_ffff_ffff));
}

#[test]
fn token_id_height_uses_low_thirty_two_bits() {
    let key = key_with_prefix([0; 8]);
    assert_eq!(generate_token_id(&key, 1 << 32, 3), Some(3));
    assert_eq!(generate_token_id(&key, (1 << 32) + 2, 3), Some((2u64 << 32) + 3));
}

#[test]
fn token_id_terms_are_added_not_merged() {
    let key = key_with_prefix([0, 0, 0, 0, 0, 0, 1, 0]);
    // unit term is 1 << 32, which overlaps the height term
    assert_eq!(generate_token_id(&key, 1, 0), Some(2u64 << 32));
}

#[test]
fn token_id_overflow_gives_none() {
    let key = key_with_prefix([0, 0, 0xff, 0xff, 0xff, 0xff, 0xff, 0xff]);
    assert_eq!(generate_token_id(&key, 0xffff_ffff, 0), None);
    let zero = key_with_prefix([0; 8]);
    assert_eq!(generate_token_id(&zero, 0xffff_ffff, 0xffff_ffff), Some(u64::MAX));
    assert_eq!(generate_token_id(&zero, 0xffff_ffff, 0x1_0000_0000), None);
    assert_eq!(generate_token_id(&zero, 0, u64::MAX), Some(u64::MAX));
}

#[test]
fn token_id_agrees_with_shift_and_mask() {
    let prefixes: [[u8; 8]; 4] = [
        [0; 8],
        [0xff; 8],
        [1, 2, 3, 4, 5, 6, 7, 8],
        [0x80, 0x40, 0x20, 0x10, 0x08, 0x04, 0x02, 0x01],
    ];
    let heights: [u64; 5] = [0, 1, 12345, 0xffff_ffff, u64::MAX];
    let counters: [u64; 4] = [0, 1, 77, u64::MAX];
    for prefix in prefixes {
        for height in heights {
            for counter in counters {
                let key = key_with_prefix(prefix);
                assert_eq!(
                    generate_token_id(&key, height, counter),
                    by_shifts(prefix, height, counter)
                );
            }
        }
    }
}

#[test]
fn consecutive_counters_give_distinct_ids() {
    let key = key_with_prefix([9, 9, 9, 9, 9, 9, 9, 9]);
    let mut seen: Vec<u64> = Vec::new();
    for counter in 1..50u64 {
        let id = generate_token_id(&key, 1000, counter).unwrap();
        assert!(!seen.contains(&id));
        seen.push(id);
    }
}

#[test]
fn different_triples_can_share_an_id() {
    let a = key_with_prefix([0, 0, 1, 0, 0, 0, 0, 0]);
    let b = key_with_prefix([0, 0, 0, 0, 0, 0, 0, 0]);
    assert_eq!(generate_token_id(&a, 7, 1), generate_token_id(&b, 7, 2));
}

#[test]
fn pubkey_same_compares_bytes() {
    let a = Pubkey::new_from_array([3; 32]);
    let b = Pubkey::new_from_array([3; 32]);
    let mut other = [3u8; 32];
    other[31] = 4;
    let c = Pubkey::new_from_array(other);
    assert!(a.same(&b));
    assert!(!a.same(&c));
    assert_eq!(a.to_bytes(), [3u8; 32]);
    assert_eq!(a, b);
    assert_ne!(a, c);
}
