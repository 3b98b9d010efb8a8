use first_cli::process::key_bundle::KeyBundle;

#[test]
fn single_bundle_holds_one_blob() {
    let bundle = KeyBundle::single("only", vec![1, 2, 3]);
    assert_eq!(bundle.len(), 1);
    assert!(bundle.contains_key("only"));
    assert!(!bundle.contains_key("other"));
    assert!(!bundle.contains_key(""));
    assert_eq!(bundle.get("only"), Some(&vec![1u8, 2, 3]));
    assert_eq!(bundle.get("other"), None);
}

#[test]
fn pair_bundle_holds_two_blobs() {
    let bundle = KeyBundle::pair("first", vec![1], "second", vec![2, 2]);
    assert_eq!(bundle.len(), 2);
    assert_eq!(bundle.get("first"), Some(&vec![1u8]));
    assert_eq!(bundle.get("second"), Some(&vec![2u8, 2]));
    assert_eq!(bundle.get("third"), None);
    assert!(bundle.contains_key("first"));
    assert!(bundle.contains_key("second"));
    assert!(!bundle.contains_key("firs"));
}

#[test]
fn entries_come_in_the_order_of_generation() {
    let bundle = KeyBundle::pair("first", vec![1], "second", vec![]);
    let entries = bundle.entries();
    assert_eq!(entries.len(), 2);
    assert_eq!(entries[0].name, "first");
    assert_eq!(entries[0].bytes, vec![1u8]);
    assert_eq!(entries[1].name, "second");
    assert_eq!(entries[1].bytes, Vec::<u8>::new());
}
