use reload_engine::history::ReloadHistory;

#[test]
fn publish_appends_matching_tags() {
    let mut h = ReloadHistory::new('a', 32);
    assert_eq!(h.len(), 1);
    assert_eq!(h.publish(32, 'b'), Ok(1));
    assert_eq!(h.publish(32, 'c'), Ok(2));
    assert_eq!(*h.current(), 'c');
    assert_eq!(h.get(0), Some(&'a'));
    assert_eq!(h.get(1), Some(&'b'));
    assert_eq!(h.get(3), None);
}

#[test]
fn publish_refuses_other_tags() {
    let mut h = ReloadHistory::new('a', 32);
    assert_eq!(h.publish(40, 'x'), Err(32));
    assert_eq!(h.publish(0, 'y'), Err(32));
    assert_eq!(h.len(), 1);
    assert_eq!(*h.current(), 'a');
    assert_eq!(h.current_tag(), 32);
}
