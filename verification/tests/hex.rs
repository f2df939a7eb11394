use arc_tree::hex::to_hex;

#[test]
fn zero_is_one_digit() {
    assert_eq!(to_hex(0), "0x0");
}

#[test]
fn single_digits() {
    assert_eq!(to_hex(9), "0x9");
    assert_eq!(to_hex(10), "0xa");
    assert_eq!(to_hex(15), "0xf");
}

#[test]
fn two_digits_and_more() {
    assert_eq!(to_hex(16), "0x10");
    assert_eq!(to_hex(255), "0xff");
    assert_eq!(to_hex(256), "0x100");
    assert_eq!(to_hex(0x29954022ed), "0x29954022ed");
}

#[test]
fn largest_value() {
    assert_eq!(to_hex(u64::MAX), "0xffffffffffffffff");
}

#[test]
fn no_leading_zeros() {
    assert_eq!(to_hex(0x0000_0000_0000_0abc), "0xabc");
}

#[test]
fn agrees_with_the_formatter() {
    let samples: [u64; 8] = [
        0,
        1,
        0xdead_beef,
        0x1234_5678_9abc_def0,
        0x8000_0000_0000_0000,
        4096,
        0xfedc_ba98,
        u64::MAX - 1,
    ];
    for n in samples {
        assert_eq!(to_hex(n), format!("{:#x}", n));
    }
}

#[test]
fn different_hashes_have_different_names() {
    let samples: [u64; 6] = [0, 1, 16, 0x10_0000_0000, u64::MAX, 0xf0];
    for a in samples {
        for b in samples {
            assert_eq!(to_hex(a) == to_hex(b), a == b);
        }
    }
}

#[test]
fn every_name_begins_with_the_prefix() {
    for n in [0u64, 7, 0xabcdef, u64::MAX] {
        assert!(arc_tree::roots::starts_with_hex_prefix(&to_hex(n)));
    }
}
