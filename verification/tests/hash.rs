use vibe_codebase::dependency_set::DependencySet;
use vibe_codebase::hash::DefinitionHash;

#[test]
fn from_hex_decodes_sixty_four_digits() {
    let text = "ff00".repeat(16);
    let mut bytes = [0u8; 32];
    for i in 0..16 {
        bytes[2 * i] = 0xff;
    }
    assert_eq!(DefinitionHash::from_hex(&text), Some(DefinitionHash(bytes)));
}

#[test]
fn from_hex_takes_both_cases() {
    let lower = "0123456789abcdef".repeat(4);
    let upper = "0123456789ABCDEF".repeat(4);
    let mixed = "0123456789aBcDeF".repeat(4);
    let expected = [0x01, 0x23, 0x45, 0x67, 0x89, 0xab, 0xcd, 0xef].repeat(4);
    let decoded = DefinitionHash::from_hex(&lower).unwrap();
    assert_eq!(decoded.0.to_vec(), expected);
    assert_eq!(DefinitionHash::from_hex(&upper), Some(decoded));
    assert_eq!(DefinitionHash::from_hex(&mixed), Some(decoded));
}

#[test]
fn from_hex_refuses_other_lengths() {
    assert_eq!(DefinitionHash::from_hex(&String::new()), None);
    assert_eq!(DefinitionHash::from_hex(&"ab".repeat(31)), None);
    assert_eq!(DefinitionHash::from_hex(&"ab".repeat(33)), None);
    assert_eq!(DefinitionHash::from_hex(&"a".repeat(63)), None);
    assert_eq!(DefinitionHash::from_hex(&"a".repeat(65)), None);
}

#[test]
fn from_hex_refuses_other_characters() {
    assert_eq!(DefinitionHash::from_hex(&"0g".repeat(32)), None);
    assert_eq!(DefinitionHash::from_hex(&" 0".repeat(32)), None);
    assert_eq!(DefinitionHash::from_hex(&format!("{}0x", "00".repeat(31))), None);
    assert_eq!(DefinitionHash::from_hex(&"é".repeat(32)), None);
    assert_eq!(DefinitionHash::from_hex(&"é".repeat(64)), None);
}

#[test]
fn same_compares_every_byte() {
    let a = DefinitionHash([5; 32]);
    let mut last = [5u8; 32];
    last[31] = 6;
    let mut first = [5u8; 32];
    first[0] = 6;
    assert!(a.same(&DefinitionHash([5; 32])));
    assert!(!a.same(&DefinitionHash(last)));
    assert!(!a.same(&DefinitionHash(first)));
}

#[test]
fn dependency_set_holds_each_hash_once() {
    let mut set = DependencySet::new();
    assert!(set.is_empty());
    assert_eq!(set.len(), 0);
    set.insert(DefinitionHash([1; 32]));
    set.insert(DefinitionHash([2; 32]));
    set.insert(DefinitionHash([1; 32]));
    assert!(!set.is_empty());
    assert_eq!(set.len(), 2);
    assert!(set.contains(&DefinitionHash([1; 32])));
    assert!(set.contains(&DefinitionHash([2; 32])));
    assert!(!set.contains(&DefinitionHash([3; 32])));
    assert_eq!(set.to_vec(), vec![DefinitionHash([1; 32]), DefinitionHash([2; 32])]);
}
