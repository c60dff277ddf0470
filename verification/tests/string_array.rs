use wasi_common::string_array::StringArray;

#[test]
fn push_accumulates_elements_and_sizes() {
    let mut a = StringArray::new();
    assert_eq!(a.number_elements(), 0);
    assert_eq!(a.cumulative_size(), 0);
    a.push("prog").unwrap();
    a.push("").unwrap();
    a.push("arg one").unwrap();
    assert_eq!(a.number_elements(), 3);
    // each element costs its byte length plus one terminator
    assert_eq!(a.cumulative_size(), 5 + 1 + 8);
    assert_eq!(a.get(0).unwrap().as_slice(), b"prog");
    assert_eq!(a.get(1).unwrap().as_slice(), b"");
    assert_eq!(a.get(2).unwrap().as_slice(), b"arg one");
    assert!(a.get(3).is_none());
}

#[test]
fn non_ascii_arguments_keep_their_utf8_bytes() {
    let mut a = StringArray::new();
    a.push("caf\u{e9}").unwrap();
    assert_eq!(a.number_elements(), 1);
    assert_eq!(a.get(0).unwrap().as_slice(), "caf\u{e9}".as_bytes());
    assert_eq!(a.cumulative_size(), 6);
}
