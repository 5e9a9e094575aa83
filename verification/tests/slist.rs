use miniblink::types::net::Slist;

#[test]
fn test_slist() {
    let slist = Slist::from_nodes(vec![Some("Are".to_string()), Some("You".to_string())]);

    let mut slist_iter = slist.into_iter();
    assert_eq!(slist_iter.next(), Some("Are".into()));
    assert_eq!(slist_iter.next(), Some("You".into()));
}

#[test]
fn slist() {
    let slist = Slist::from_nodes(vec![Some("Are".to_string()), Some("You".to_string())]);

    let mut slist_iter = slist.into_iter();
    assert_eq!(slist_iter.next(), Some("Are".into()));
    assert_eq!(slist_iter.next(), Some("You".into()));
}

#[test]
fn slist_ends_after_last_node() {
    let slist = Slist::from_nodes(vec![Some("Host: a".to_string())]);
    let mut iter = slist.into_iter();
    assert_eq!(iter.next(), Some("Host: a".to_string()));
    assert_eq!(iter.next(), None);
    assert_eq!(iter.next(), None);
}

#[test]
fn slist_node_without_data_yields_empty_string_unless_last() {
    let slist = Slist::from_nodes(vec![None, Some("b".to_string()), None]);
    let mut iter = slist.into_iter();
    assert_eq!(iter.next(), Some(String::new()));
    assert_eq!(iter.next(), Some("b".to_string()));
    assert_eq!(iter.next(), None);
}

#[test]
fn slist_empty_and_to_strings() {
    let empty = Slist::from_nodes(vec![]);
    assert_eq!(empty.len(), 0);
    assert_eq!(empty.into_iter().next(), None);
    let two = Slist::from_nodes(vec![Some("x".to_string()), Some("y".to_string())]);
    assert_eq!(two.len(), 2);
    assert_eq!(two.to_strings(), vec!["x".to_string(), "y".to_string()]);
}
