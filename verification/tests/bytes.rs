use sft_minter::bytes::{append_bytes, copy_bytes, same_bytes};
use sft_minter::setup::build_attributes;

#[test]
fn copy_bytes_copies() {
    assert_eq!(copy_bytes(&vec![1, 2, 3]), vec![1, 2, 3]);
    assert_eq!(copy_bytes(&vec![]), Vec::<u8>::new());
}

#[test]
fn append_bytes_appends() {
    let mut buffer = vec![1u8, 2];
    append_bytes(&mut buffer, &vec![3, 4]);
    assert_eq!(buffer, vec![1, 2, 3, 4]);
    append_bytes(&mut buffer, &vec![]);
    assert_eq!(buffer, vec![1, 2, 3, 4]);
}

#[test]
fn same_bytes_compares() {
    assert!(same_bytes(&vec![], &vec![]));
    assert!(same_bytes(&vec![1, 2], &vec![1, 2]));
    assert!(!same_bytes(&vec![1, 2], &vec![1, 3]));
    assert!(!same_bytes(&vec![1, 2], &vec![1]));
    assert!(!same_bytes(&vec![], &vec![0]));
}

#[test]
fn build_attributes_joins_the_parts() {
    let attributes = build_attributes(&b"x,y".to_vec(), &b"Qm".to_vec(), &b"meta.json".to_vec());
    assert_eq!(attributes, b"tags:x,y;metadata:Qm/meta.json".to_vec());
}
