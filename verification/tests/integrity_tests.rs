use runbot_desktop::integrity::{no_repeated_pair, no_repeated_text};
use runbot_desktop::records::{IndexEntry, ShadowEntry};
use runbot_desktop::requests::save_request;
use runbot_desktop::rows::{count_marked, first_marked, order_newest_first, page_bounds};
use runbot_desktop::storage::{save_message, MirrorStore};

fn filled() -> MirrorStore {
    let mut store = MirrorStore::new();
    save_message(&mut store, "{\"localMessageId\":\"a\",\"time\":1,\"post_type\":\"message\"}")
        .unwrap();
    save_message(&mut store, "{\"localMessageId\":\"b\",\"time\":2,\"post_type\":\"message\"}")
        .unwrap();
    save_request(
        &mut store,
        "{\"id\":\"r\",\"time\":1,\"request_type\":\"friend\",\"user_id\":1,\"user_name\":\"u\",\"flag\":\"f\"}",
    )
    .unwrap();
    save_request(
        &mut store,
        "{\"id\":\"q\",\"time\":1,\"request_type\":\"group\",\"user_id\":1,\"user_name\":\"u\",\"flag\":\"g\",\"group_id\":4}",
    )
    .unwrap();
    store
}

#[test]
fn stores_made_by_saving_are_well_formed() {
    assert!(MirrorStore::new().is_well_formed());
    assert!(filled().is_well_formed());
}

#[test]
fn repeated_keys_are_found() {
    let mut store = filled();
    let copy = store.messages[0].clone();
    store.messages.push(copy);
    assert!(!store.is_well_formed());

    let mut store = filled();
    store.shadow.push(ShadowEntry { rowid: 1, local_message_id: "z".to_string() });
    assert!(!store.is_well_formed());

    let mut store = filled();
    store.shadow.push(ShadowEntry { rowid: 3, local_message_id: "a".to_string() });
    store.next_rowid = 4;
    assert!(!store.is_well_formed());

    let mut store = filled();
    store.shadow.push(ShadowEntry { rowid: 3, local_message_id: "z".to_string() });
    assert!(!store.is_well_formed());
    store.next_rowid = 4;
    assert!(store.is_well_formed());

    let mut store = filled();
    let entry: IndexEntry = store.index[1].clone();
    store.index.push(entry);
    assert!(!store.is_well_formed());

    let mut store = filled();
    let mut request = store.requests[0].clone();
    request.user_id = 99;
    store.requests.push(request);
    assert!(!store.is_well_formed());

    let mut store = filled();
    let mut request = store.requests[1].clone();
    request.id = "other".to_string();
    store.requests.push(request);
    assert!(!store.is_well_formed());

    let mut store = filled();
    store.next_rowid = 0;
    assert!(!store.is_well_formed());
}

#[test]
fn repetition_checks() {
    assert!(no_repeated_text(&vec![]));
    assert!(no_repeated_text(&vec!["a".to_string(), "b".to_string()]));
    assert!(!no_repeated_text(&vec!["a".to_string(), "b".to_string(), "a".to_string()]));
    assert!(no_repeated_pair(&vec![(1, None), (1, Some(1)), (2, None), (1, Some(2))]));
    assert!(!no_repeated_pair(&vec![(1, None), (2, None), (1, None)]));
    assert!(!no_repeated_pair(&vec![(1, Some(3)), (1, Some(3))]));
}

#[test]
fn order_is_latest_first_and_stable() {
    assert_eq!(order_newest_first(&vec![]), Vec::<usize>::new());
    assert_eq!(order_newest_first(&vec![10, 30, 20, 30, -5]), vec![1, 3, 2, 0, 4]);
    assert_eq!(order_newest_first(&vec![1, 1, 1]), vec![0, 1, 2]);
    assert_eq!(order_newest_first(&vec![i64::MIN, i64::MAX]), vec![1, 0]);
}

#[test]
fn pages_and_marks() {
    assert_eq!(page_bounds(10, None, None), (0, 10));
    assert_eq!(page_bounds(250, None, None), (0, 100));
    assert_eq!(page_bounds(250, None, Some(200)), (200, 250));
    assert_eq!(page_bounds(10, Some(3), Some(2)), (2, 5));
    assert_eq!(page_bounds(10, Some(3), Some(9)), (9, 10));
    assert_eq!(page_bounds(10, Some(3), Some(10)), (10, 10));
    assert_eq!(page_bounds(10, Some(0), Some(2)), (2, 2));
    assert_eq!(page_bounds(10, Some(2147483647), Some(2147483647)), (10, 10));
    assert_eq!(page_bounds(10, Some(2147483648), Some(2147483648)), (10, 10));
    assert_eq!(page_bounds(1, None, Some(3000000000)), (1, 1));
    assert_eq!(page_bounds(10, Some(u32::MAX), None), (0, 10));
    assert_eq!(page_bounds(10, Some(u32::MAX), Some(4)), (4, 10));
    assert_eq!(first_marked(&vec![false, true, true]), Some(1));
    assert_eq!(first_marked(&vec![false, false]), None);
    assert_eq!(count_marked(&vec![true, false, true]), 2);
    assert_eq!(count_marked(&vec![]), 0);
}
