use plumeimpactor::accounts::{account_order, selected_index};

fn emails(v: &[&str]) -> Vec<String> {
    v.iter().map(|s| s.to_string()).collect()
}

#[test]
fn accounts_listed_by_address() {
    let e = emails(&["zed@x.io", "amy@x.io", "Bob@x.io", "amy@a.io"]);
    let order = account_order(&e);
    let listed: Vec<&str> = order.iter().map(|&i| e[i].as_str()).collect();
    assert_eq!(listed, vec!["Bob@x.io", "amy@a.io", "amy@x.io", "zed@x.io"]);
}

#[test]
fn equal_addresses_keep_their_order() {
    let e = emails(&["b", "a", "b", "a"]);
    assert_eq!(account_order(&e), vec![1, 3, 0, 2]);
}

#[test]
fn empty_list_has_empty_order() {
    assert!(account_order(&Vec::new()).is_empty());
}

#[test]
fn selected_account_position() {
    let e = emails(&["c@x", "a@x", "b@x"]);
    let order = account_order(&e);
    assert_eq!(selected_index(&e, &order, Some(&"c@x".to_string())), Some(2));
    assert_eq!(selected_index(&e, &order, Some(&"a@x".to_string())), Some(0));
    assert_eq!(selected_index(&e, &order, Some(&"q@x".to_string())), None);
    assert_eq!(selected_index(&e, &order, None), None);
}

#[test]
fn non_ascii_sorts_after_ascii() {
    let e = emails(&["\u{e9}cole", "zoo"]);
    assert_eq!(account_order(&e), vec![1, 0]);
}
