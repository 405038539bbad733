use eot::gas::keys::{address_bytes, pad_bytes_left, storage_key_bytes, word_to_bytes};
use eot::ranking::rank_descending;
use eot::text::{
    copy_lines, decimal_string, join_lines, push_decimal, push_decimal_wide, push_hex2, push_line,
    push_lines,
};

#[test]
fn decimal_numerals() {
    for n in [0u64, 1, 9, 10, 11, 99, 100, 101, 255, 256, 21000, 1_000_000, u64::MAX] {
        assert_eq!(decimal_string(n), n.to_string());
        let mut s = "x=".to_string();
        push_decimal(&mut s, n);
        assert_eq!(s, format!("x={}", n));
    }
    let mut s = String::new();
    push_decimal_wide(&mut s, u128::MAX);
    assert_eq!(s, u128::MAX.to_string());
}

#[test]
fn hexadecimal_bytes() {
    for b in 0..=255u8 {
        let mut s = "0x".to_string();
        push_hex2(&mut s, b);
        assert_eq!(s, format!("0x{:02x}", b));
    }
}

#[test]
fn lists_of_lines() {
    let mut out = vec!["a".to_string()];
    push_line(&mut out, "b".to_string());
    push_lines(&mut out, vec!["c".to_string(), "d".to_string()]);
    push_lines(&mut out, vec![]);
    assert_eq!(out, vec!["a", "b", "c", "d"]);
    assert_eq!(copy_lines(&out), out);
    assert_eq!(join_lines(&out, "; "), "a; b; c; d");
    assert_eq!(join_lines(&out[..1].to_vec(), "; "), "a");
    assert_eq!(join_lines(&vec![], "; "), "");
    assert_eq!(join_lines(&vec!["".to_string(), "".to_string()], "-"), "-");
}

#[test]
fn keys_and_addresses_of_operands() {
    for w in [0u64, 1, 0x123, 0x0102030405060708, u64::MAX] {
        assert_eq!(word_to_bytes(w), w.to_be_bytes().to_vec());
        let mut key = vec![0u8; 32];
        key[24..].copy_from_slice(&w.to_be_bytes());
        assert_eq!(storage_key_bytes(w), key);
        let mut address = vec![0u8; 20];
        address[12..].copy_from_slice(&w.to_be_bytes());
        assert_eq!(address_bytes(w), address);
    }
    assert_eq!(pad_bytes_left(&[1, 2, 3], 5), vec![0, 0, 1, 2, 3]);
    assert_eq!(pad_bytes_left(&[1, 2, 3], 3), vec![1, 2, 3]);
    assert_eq!(pad_bytes_left(&[1, 2, 3], 2), vec![2, 3]);
    assert_eq!(pad_bytes_left(&[1, 2, 3], 0), Vec::<u8>::new());
    assert_eq!(pad_bytes_left(&[], 2), vec![0, 0]);
}

#[test]
fn ranking_is_descending_and_stable() {
    assert_eq!(rank_descending(&vec![]), Vec::<usize>::new());
    assert_eq!(rank_descending(&vec![5]), vec![0]);
    assert_eq!(rank_descending(&vec![1, 2, 3]), vec![2, 1, 0]);
    assert_eq!(rank_descending(&vec![3, 2, 1]), vec![0, 1, 2]);
    assert_eq!(rank_descending(&vec![2, 2, 2]), vec![0, 1, 2]);
    assert_eq!(
        rank_descending(&vec![3, 5, 3, 9, 5, 0, 9]),
        vec![3, 6, 1, 4, 0, 2, 5]
    );
    // Against the stable sort of the standard library.
    let keys: Vec<u64> = (0..200u64).map(|i| (i * 7919 + 13) % 17).collect();
    let mut expected: Vec<usize> = (0..keys.len()).collect();
    expected.sort_by(|a, b| keys[*b].cmp(&keys[*a]));
    assert_eq!(rank_descending(&keys), expected);
}
