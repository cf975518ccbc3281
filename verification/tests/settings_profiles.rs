use lib::profile_identity::generate_profile_guid;

fn fnv(seed: u64, parts: &[&[u8]]) -> u64 {
    let mut hash = seed;
    for part in parts {
        for byte in *part {
            hash ^= u64::from(*byte);
            hash = hash.wrapping_mul(0x0000_0100_0000_01b3);
        }
    }
    hash
}

#[test]
fn generated_guid_hashes_name_and_source_both_ways() {
    let guid = generate_profile_guid("Ubuntu", Some("Windows.Terminal.Wsl"));
    let first = fnv(0xcbf2_9ce4_8422_2325, &[b"Ubuntu", &[0], b"Windows.Terminal.Wsl"]).to_be_bytes();
    let second = fnv(0x8422_2325_cbf2_9ce4, &[b"Windows.Terminal.Wsl", &[0], b"Ubuntu"]).to_be_bytes();
    let mut expected = [0u8; 16];
    expected[..8].copy_from_slice(&first);
    expected[8..].copy_from_slice(&second);
    expected[6] = (expected[6] & 0x0f) | 0x50;
    expected[8] = (expected[8] & 0x3f) | 0x80;
    assert_eq!(guid, expected);
}

#[test]
fn generated_guid_is_deterministic_and_source_sensitive() {
    let plain = generate_profile_guid("cmd", None);
    assert_eq!(plain, generate_profile_guid("cmd", None));
    assert_eq!(plain, generate_profile_guid("cmd", Some("")));
    assert_ne!(plain, generate_profile_guid("cmd", Some("source")));
    assert_eq!(plain[6] >> 4, 5);
    assert_eq!(plain[8] >> 6, 2);
}
