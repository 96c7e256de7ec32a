//! Strings: comparison and assembly.
use stripe_api::text::{bytes_eq, join2, join3, join4, owned, str_eq};

#[test]
fn equal_strings() {
    assert!(str_eq("", ""));
    assert!(str_eq("deleted", "deleted"));
    assert!(str_eq("é✓", "é✓"));
    assert!(!str_eq("deleted", "delete"));
    assert!(!str_eq("deleted", "Deleted"));
    assert!(!str_eq("a", ""));
    assert!(!str_eq("é", "e"));
}

#[test]
fn equal_bytes() {
    assert!(bytes_eq(&[], &[]));
    assert!(bytes_eq(&[1, 2, 3], &[1, 2, 3]));
    assert!(!bytes_eq(&[1, 2, 3], &[1, 2, 4]));
    assert!(!bytes_eq(&[1, 2, 3], &[1, 2]));
}

#[test]
fn joined_paths() {
    assert_eq!(owned("x"), "x");
    assert_eq!(join2("/customers/", "cus_1"), "/customers/cus_1");
    assert_eq!(join3("/customers/", "cus_1", "/discount"), "/customers/cus_1/discount");
    assert_eq!(join4("/a/", "b", "/c/", "d"), "/a/b/c/d");
    assert_eq!(join4("", "", "", ""), "");
}
