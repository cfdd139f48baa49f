use runbot_desktop::records::RelationshipRequest;
use runbot_desktop::requests::{
    clear_history_requests, delete_request, get_requests, get_unread_request_count,
    mark_request_read, parse_request, save_request, update_request_status,
};
use runbot_desktop::storage::{Field, MirrorStore, StoreError};

fn friend(id: &str, time: i64, user: i64, flag: &str) -> String {
    format!(
        "{{\"id\":\"{}\",\"time\":{},\"request_type\":\"friend\",\"user_id\":{},\"user_name\":\"u\",\"comment\":\"c\",\"flag\":\"{}\",\"group_id\":null}}",
        id, time, user, flag
    )
}

fn group(id: &str, time: i64, user: i64, group: i64, flag: &str) -> String {
    format!(
        "{{\"id\":\"{}\",\"time\":{},\"request_type\":\"group\",\"sub_type\":\"add\",\"user_id\":{},\"user_name\":\"u\",\"flag\":\"{}\",\"group_id\":{},\"group_name\":\"g\",\"status\":\"accepted\",\"is_read\":true}}",
        id, time, user, flag, group
    )
}

#[test]
fn second_request_of_a_peer_supersedes_the_first() {
    let mut store = MirrorStore::new();
    save_request(&mut store, &friend("friend_t1_1", 1, 7, "t1")).unwrap();
    save_request(&mut store, &friend("friend_t2_2", 2, 7, "t2")).unwrap();
    let rows = get_requests(&store, &None, None, None);
    assert_eq!(rows.len(), 1);
    assert_eq!(rows[0].flag, "t2");
    assert_eq!(rows[0].id, "friend_t2_2");
    assert_eq!(rows[0].timestamp, 2);
}

#[test]
fn superseding_resets_status_and_read_flag() {
    let mut store = MirrorStore::new();
    save_request(&mut store, &friend("a", 1, 7, "t1")).unwrap();
    update_request_status(&mut store, "t1", "accepted");
    mark_request_read(&mut store, "t1");
    assert_eq!(store.requests[0].status, "accepted");
    assert!(store.requests[0].is_read);
    save_request(&mut store, &friend("b", 2, 7, "t2")).unwrap();
    assert_eq!(store.requests.len(), 1);
    assert_eq!(store.requests[0].status, "pending");
    assert!(!store.requests[0].is_read);
    save_request(&mut store, &group("c", 3, 7, 9, "t3")).unwrap();
    assert_eq!(store.requests.len(), 2);
    save_request(&mut store, &group("d", 4, 7, 9, "t4")).unwrap();
    assert_eq!(store.requests.len(), 2);
    assert_eq!(store.requests[1].status, "accepted");
    assert!(store.requests[1].is_read);
    assert_eq!(store.requests[1].flag, "t4");
}

#[test]
fn a_request_with_a_known_id_replaces_that_request() {
    let mut store = MirrorStore::new();
    save_request(&mut store, &friend("same", 1, 7, "t1")).unwrap();
    save_request(&mut store, &friend("same", 2, 8, "t2")).unwrap();
    assert_eq!(store.requests.len(), 1);
    assert_eq!(store.requests[0].user_id, 8);
}

#[test]
fn parse_request_reads_members_and_defaults() {
    let row = parse_request(&friend("a", 1, 7, "t1")).unwrap();
    assert_eq!(
        row,
        RelationshipRequest {
            id: "a".to_string(),
            timestamp: 1,
            request_type: "friend".to_string(),
            sub_type: None,
            user_id: 7,
            user_name: "u".to_string(),
            nickname: None,
            comment: "c".to_string(),
            flag: "t1".to_string(),
            group_id: None,
            group_name: None,
            status: "pending".to_string(),
            is_read: false,
        }
    );
    let row = parse_request(&group("b", 2, 7, 9, "t2")).unwrap();
    assert_eq!(row.sub_type, Some("add".to_string()));
    assert_eq!(row.comment, "");
    assert_eq!(row.group_id, Some(9));
    assert_eq!(row.group_name, Some("g".to_string()));
    assert_eq!(row.status, "accepted");
    assert!(row.is_read);
}

#[test]
fn parse_request_names_what_is_missing() {
    assert_eq!(parse_request("[").unwrap_err(), StoreError::InvalidJson);
    assert_eq!(parse_request("{}").unwrap_err(), StoreError::MissingField(Field::Id));
    assert_eq!(parse_request("{\"id\":\"a\"}").unwrap_err(), StoreError::MissingField(Field::Time));
    assert_eq!(
        parse_request("{\"id\":\"a\",\"time\":1}").unwrap_err(),
        StoreError::MissingField(Field::RequestType)
    );
    assert_eq!(
        parse_request("{\"id\":\"a\",\"time\":1,\"request_type\":\"friend\"}").unwrap_err(),
        StoreError::MissingField(Field::UserId)
    );
    assert_eq!(
        parse_request("{\"id\":\"a\",\"time\":1,\"request_type\":\"friend\",\"user_id\":1}")
            .unwrap_err(),
        StoreError::MissingField(Field::UserName)
    );
    assert_eq!(
        parse_request(
            "{\"id\":\"a\",\"time\":1,\"request_type\":\"friend\",\"user_id\":1,\"user_name\":\"u\"}"
        )
        .unwrap_err(),
        StoreError::MissingField(Field::Flag)
    );
    let mut store = MirrorStore::new();
    assert_eq!(save_request(&mut store, "{}"), Err(StoreError::MissingField(Field::Id)));
    assert!(store.requests.is_empty());
}

#[test]
fn requests_are_listed_latest_first_by_status() {
    let mut store = MirrorStore::new();
    save_request(&mut store, &friend("a", 10, 1, "t1")).unwrap();
    save_request(&mut store, &friend("b", 30, 2, "t2")).unwrap();
    save_request(&mut store, &group("c", 20, 3, 9, "t3")).unwrap();
    let ids = |rows: Vec<RelationshipRequest>| -> Vec<String> {
        rows.iter().map(|r| r.id.clone()).collect()
    };
    assert_eq!(ids(get_requests(&store, &None, None, None)), vec!["b", "c", "a"]);
    assert_eq!(ids(get_requests(&store, &Some("pending".to_string()), None, None)), vec!["b", "a"]);
    assert_eq!(ids(get_requests(&store, &Some("accepted".to_string()), None, None)), vec!["c"]);
    assert_eq!(ids(get_requests(&store, &None, Some(1), Some(1))), vec!["c"]);
    assert!(get_requests(&store, &Some("rejected".to_string()), None, None).is_empty());
    assert!(get_requests(&store, &None, None, Some(3000000000)).is_empty());
    assert!(get_requests(&store, &None, None, Some(3)).is_empty());
    assert_eq!(ids(get_requests(&store, &None, Some(u32::MAX), Some(2))), vec!["a"]);
}

#[test]
fn unread_count_delete_and_clear() {
    let mut store = MirrorStore::new();
    save_request(&mut store, &friend("a", 10, 1, "t1")).unwrap();
    save_request(&mut store, &friend("b", 30, 2, "t2")).unwrap();
    save_request(&mut store, &group("c", 20, 3, 9, "t3")).unwrap();
    assert_eq!(get_unread_request_count(&store), 2);
    mark_request_read(&mut store, "t1");
    assert_eq!(get_unread_request_count(&store), 1);
    update_request_status(&mut store, "t2", "rejected");
    assert_eq!(get_unread_request_count(&store), 0);
    assert_eq!(clear_history_requests(&mut store), 2);
    assert_eq!(store.requests.len(), 1);
    assert_eq!(store.requests[0].id, "a");
    assert_eq!(clear_history_requests(&mut store), 0);
    delete_request(&mut store, "nope");
    assert_eq!(store.requests.len(), 1);
    delete_request(&mut store, "t1");
    assert!(store.requests.is_empty());
}
