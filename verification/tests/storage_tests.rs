use runbot_desktop::history::{
    check_message_recalled, cleanup_old_messages, delete_message, get_message_stats, get_messages,
    mark_message_recalled, search_messages, update_message_content, update_message_id,
};
use runbot_desktop::storage::{parse_message, save_message, Field, MirrorStore, StoreError};

fn payload(id: &str, time: i64, text: &str) -> String {
    format!(
        "{{\"localMessageId\":\"{}\",\"time\":{},\"post_type\":\"message\",\"user_id\":42,\"message\":\"{}\",\"raw_message\":\"{}\"}}",
        id, time, text, text
    )
}

fn member(text: &str, key: &str) -> serde_json::Value {
    let doc: serde_json::Value = serde_json::from_str(text).unwrap();
    doc[key].clone()
}

#[test]
fn saved_message_is_listed_and_a_foreign_recall_leaves_it() {
    let mut store = MirrorStore::new();
    let id = save_message(
        &mut store,
        "{\"localMessageId\":\"a1\",\"time\":1000,\"post_type\":\"message\",\"user_id\":42,\"message\":\"hi\"}",
    )
    .unwrap();
    assert_eq!(id, "a1");
    let rows = get_messages(&store, None, None, &None, None, None);
    assert_eq!(rows.len(), 1);
    assert_eq!(member(&rows[0], "message"), serde_json::Value::from("hi"));
    assert_eq!(member(&rows[0], "recalled"), serde_json::Value::from(false));
    assert!(!mark_message_recalled(&mut store, 555));
    let rows = get_messages(&store, None, None, &None, None, None);
    assert_eq!(rows.len(), 1);
    assert_eq!(member(&rows[0], "recalled"), serde_json::Value::from(false));
    assert_eq!(store.messages[0].message_id, None);
}

#[test]
fn save_refuses_malformed_payloads() {
    let mut store = MirrorStore::new();
    assert_eq!(save_message(&mut store, "not json"), Err(StoreError::InvalidJson));
    assert_eq!(
        save_message(&mut store, "{\"time\":1,\"post_type\":\"message\"}"),
        Err(StoreError::MissingField(Field::LocalMessageId))
    );
    assert_eq!(
        save_message(&mut store, "{\"localMessageId\":\"a\",\"post_type\":\"message\"}"),
        Err(StoreError::MissingField(Field::Time))
    );
    assert_eq!(
        save_message(&mut store, "{\"localMessageId\":\"a\",\"time\":1}"),
        Err(StoreError::MissingField(Field::PostType))
    );
    assert_eq!(
        save_message(&mut store, "{\"localMessageId\":7,\"time\":1,\"post_type\":\"message\"}"),
        Err(StoreError::MissingField(Field::LocalMessageId))
    );
    assert!(store.messages.is_empty());
    assert!(store.shadow.is_empty());
    assert!(store.index.is_empty());
}

#[test]
fn error_messages_name_the_missing_member() {
    assert_eq!(StoreError::InvalidJson.message(), "解析 JSON 失败");
    assert_eq!(
        StoreError::MissingField(Field::LocalMessageId).message(),
        "缺少 localMessageId 字段"
    );
    assert_eq!(StoreError::MissingField(Field::Flag).message(), "缺少 flag 字段");
    assert_eq!(StoreError::ShadowFull.message(), "插入 rowid 映射失败");
    assert_eq!(StoreError::Serialize.message(), "序列化消息数据失败");
    assert_eq!(StoreError::Search.message(), "执行搜索失败");
}

#[test]
fn parse_message_reads_every_member() {
    let row = parse_message(
        "{\"localMessageId\":\"m\",\"time\":5,\"post_type\":\"message\",\"message_type\":\"group\",\"user_id\":1,\"group_id\":2,\"message_id\":3,\"message\":\"a\",\"raw_message\":\"b\"}",
    )
    .unwrap();
    assert_eq!(row.local_message_id, "m");
    assert_eq!(row.timestamp, 5);
    assert_eq!(row.post_type, "message");
    assert_eq!(row.message_type, Some("group".to_string()));
    assert_eq!(row.user_id, Some(1));
    assert_eq!(row.group_id, Some(2));
    assert_eq!(row.message_id, Some(3));
    assert_eq!(row.content, Some("a".to_string()));
    assert_eq!(row.raw_message, Some("b".to_string()));
    assert!(!row.recalled);
}

#[test]
fn second_save_replaces_the_row_and_keeps_the_surrogate_id() {
    let mut store = MirrorStore::new();
    save_message(&mut store, &payload("a1", 1000, "first")).unwrap();
    save_message(&mut store, &payload("b2", 1001, "other")).unwrap();
    let rowid = store.shadow[0].rowid;
    save_message(&mut store, &payload("a1", 1002, "second")).unwrap();
    assert_eq!(store.messages.len(), 2);
    assert_eq!(store.shadow.len(), 2);
    assert_eq!(store.index.len(), 2);
    assert_eq!(store.shadow[0].local_message_id, "a1");
    assert_eq!(store.shadow[0].rowid, rowid);
    assert_eq!(store.shadow[1].rowid, rowid + 1);
    assert_eq!(store.next_rowid, rowid + 2);
    let entry = store.index.iter().find(|e| e.rowid == rowid).unwrap();
    assert_eq!(entry.content, "second");
    assert_eq!(entry.user_id, 42);
    assert_eq!(entry.group_id, 0);
}

#[test]
fn search_goes_by_the_latest_saved_content() {
    let mut store = MirrorStore::new();
    save_message(&mut store, &payload("a1", 1000, "apple")).unwrap();
    save_message(&mut store, &payload("b2", 1001, "banana")).unwrap();
    assert_eq!(search_messages(&store, "apple", None, None).unwrap().len(), 1);
    save_message(&mut store, &payload("a1", 1002, "cherry")).unwrap();
    assert!(search_messages(&store, "apple", None, None).unwrap().is_empty());
    let hits = search_messages(&store, "cherry", None, None).unwrap();
    assert_eq!(hits.len(), 1);
    assert_eq!(member(&hits[0], "localMessageId"), serde_json::Value::from("a1"));
    assert_eq!(member(&hits[0], "recalled"), serde_json::Value::from(false));
}

#[test]
fn save_heals_tables_that_disagree() {
    let mut store = MirrorStore::new();
    save_message(&mut store, &payload("a1", 1000, "apple")).unwrap();
    store.index.clear();
    assert!(search_messages(&store, "apple", None, None).unwrap().is_empty());
    save_message(&mut store, &payload("a1", 1000, "apple")).unwrap();
    assert_eq!(search_messages(&store, "apple", None, None).unwrap().len(), 1);
    store.shadow.clear();
    assert!(search_messages(&store, "apple", None, None).unwrap().is_empty());
    save_message(&mut store, &payload("a1", 1000, "apple")).unwrap();
    assert_eq!(search_messages(&store, "apple", None, None).unwrap().len(), 1);
}

#[test]
fn search_matches_whole_words_and_refuses_broken_queries() {
    let mut store = MirrorStore::new();
    save_message(&mut store, &payload("a1", 1000, "hello world")).unwrap();
    assert_eq!(search_messages(&store, "world", None, None).unwrap().len(), 1);
    assert!(search_messages(&store, "wor", None, None).unwrap().is_empty());
    assert_eq!(search_messages(&store, "wor*", None, None).unwrap().len(), 1);
    assert_eq!(search_messages(&store, "\"", None, None), Err(StoreError::Search));
    assert_eq!(search_messages(&MirrorStore::new(), "\"", None, None), Err(StoreError::Search));
}

#[test]
fn search_goes_by_the_replaced_content() {
    let mut store = MirrorStore::new();
    save_message(&mut store, &payload("a1", 1000, "alpha")).unwrap();
    save_message(&mut store, &payload("b2", 1001, "gamma")).unwrap();
    assert_eq!(update_message_content(&mut store, "a1", "beta", "beta"), Ok(true));
    assert_eq!(store.messages[0].content, Some("beta".to_string()));
    assert_eq!(store.messages[0].raw_message, Some("beta".to_string()));
    assert_eq!(member(&store.messages[0].data, "message"), serde_json::Value::from("beta"));
    assert_eq!(member(&store.messages[0].data, "raw_message"), serde_json::Value::from("beta"));
    let hits = search_messages(&store, "beta", None, None).unwrap();
    assert_eq!(hits.len(), 1);
    assert_eq!(member(&hits[0], "localMessageId"), serde_json::Value::from("a1"));
    assert!(search_messages(&store, "alpha", None, None).unwrap().is_empty());
    assert_eq!(search_messages(&store, "gamma", None, None).unwrap().len(), 1);
    assert_eq!(store.index.len(), 2);
    assert_eq!(store.shadow[0].rowid, 1);
    let entry = store.index.iter().find(|e| e.rowid == 1).unwrap();
    assert_eq!(entry.content, "beta");
    assert_eq!(entry.raw_message, "beta");
    assert_eq!(entry.user_id, 42);
    assert_eq!(entry.post_type, "message");
}

#[test]
fn replaced_content_of_a_message_without_surrogate_id_is_not_indexed() {
    let mut store = MirrorStore::new();
    store.next_rowid = i64::MAX;
    assert_eq!(save_message(&mut store, &payload("a1", 1000, "alpha")), Err(StoreError::ShadowFull));
    assert_eq!(update_message_content(&mut store, "a1", "beta", "beta"), Ok(true));
    assert_eq!(store.messages[0].content, Some("beta".to_string()));
    assert!(store.index.is_empty());
    assert!(search_messages(&store, "beta", None, None).unwrap().is_empty());
}

#[test]
fn search_follows_every_write_to_a_message() {
    let mut store = MirrorStore::new();
    save_message(&mut store, &payload("a1", 1000, "one")).unwrap();
    update_message_id(&mut store, "a1", 7).unwrap();
    assert_eq!(search_messages(&store, "one", None, None).unwrap().len(), 1);
    update_message_content(&mut store, "a1", "two", "two").unwrap();
    mark_message_recalled(&mut store, 7);
    assert_eq!(search_messages(&store, "two", None, None).unwrap().len(), 1);
    save_message(&mut store, &payload("a1", 1001, "three")).unwrap();
    update_message_content(&mut store, "a1", "four", "four").unwrap();
    assert!(search_messages(&store, "one", None, None).unwrap().is_empty());
    assert!(search_messages(&store, "two", None, None).unwrap().is_empty());
    assert!(search_messages(&store, "three", None, None).unwrap().is_empty());
    assert_eq!(search_messages(&store, "four", None, None).unwrap().len(), 1);
    assert!(store.is_well_formed());
}

#[test]
fn remote_id_is_written_into_row_and_payload() {
    let mut store = MirrorStore::new();
    save_message(&mut store, &payload("a1", 1000, "apple")).unwrap();
    assert_eq!(update_message_id(&mut store, "a1", 77), Ok(true));
    assert_eq!(store.messages[0].message_id, Some(77));
    assert_eq!(member(&store.messages[0].data, "message_id"), serde_json::Value::from(77));
    assert_eq!(member(&store.messages[0].data, "message"), serde_json::Value::from("apple"));
    assert_eq!(update_message_id(&mut store, "nope", 78), Ok(false));
    assert_eq!(update_message_content(&mut store, "nope", "x", "y"), Ok(false));
    assert_eq!(store.messages[0].message_id, Some(77));
}

#[test]
fn recall_goes_by_remote_id() {
    let mut store = MirrorStore::new();
    save_message(&mut store, &payload("a1", 1000, "apple")).unwrap();
    save_message(&mut store, &payload("b2", 1001, "banana")).unwrap();
    update_message_id(&mut store, "b2", 9).unwrap();
    assert!(check_message_recalled(&store, 9).is_some());
    assert!(check_message_recalled(&store, 10).is_none());
    assert!(mark_message_recalled(&mut store, 9));
    assert!(!store.messages[0].recalled);
    assert!(store.messages[1].recalled);
    assert!(check_message_recalled(&store, 9).unwrap().recalled);
    let rows = get_messages(&store, None, None, &None, None, None);
    assert_eq!(member(&rows[0], "recalled"), serde_json::Value::from(true));
    assert_eq!(member(&rows[1], "recalled"), serde_json::Value::from(false));
    save_message(&mut store, &payload("b2", 1001, "banana")).unwrap();
    assert!(!check_message_recalled(&store, 9).is_some());
}

#[test]
fn listing_is_latest_first_filtered_and_paged() {
    let mut store = MirrorStore::new();
    save_message(&mut store, &payload("a", 10, "one")).unwrap();
    save_message(&mut store, &payload("b", 30, "two")).unwrap();
    save_message(&mut store, &payload("c", 20, "three")).unwrap();
    save_message(&mut store, &payload("d", 30, "four")).unwrap();
    save_message(
        &mut store,
        "{\"localMessageId\":\"n\",\"time\":40,\"post_type\":\"notice\",\"group_id\":5}",
    )
    .unwrap();
    let ids = |rows: Vec<String>| -> Vec<String> {
        rows.iter().map(|r| member(r, "localMessageId").as_str().unwrap().to_string()).collect()
    };
    assert_eq!(ids(get_messages(&store, None, None, &None, None, None)), vec!["n", "b", "d", "c", "a"]);
    assert_eq!(
        ids(get_messages(&store, None, None, &Some("message".to_string()), None, None)),
        vec!["b", "d", "c", "a"]
    );
    assert_eq!(ids(get_messages(&store, None, None, &None, Some(42), None)), vec!["b", "d", "c", "a"]);
    assert_eq!(ids(get_messages(&store, None, None, &None, None, Some(5))), vec!["n"]);
    assert!(get_messages(&store, None, None, &None, Some(42), Some(5)).is_empty());
    assert_eq!(ids(get_messages(&store, Some(2), Some(1), &None, None, None)), vec!["b", "d"]);
    assert_eq!(ids(get_messages(&store, Some(2), Some(4), &None, None, None)), vec!["a"]);
    assert!(get_messages(&store, Some(2), Some(9), &None, None, None).is_empty());
    assert!(get_messages(&store, Some(0), None, &None, None, None).is_empty());
    assert_eq!(get_messages(&store, Some(u32::MAX), None, &None, None, None).len(), 5);
    assert!(get_messages(&store, Some(u32::MAX), Some(u32::MAX), &None, None, None).is_empty());
    assert!(get_messages(&store, None, Some(3000000000), &None, None, None).is_empty());
    assert_eq!(ids(get_messages(&store, Some(3000000000), Some(3), &None, None, None)), vec!["c", "a"]);
}

#[test]
fn listing_without_a_limit_shows_a_hundred() {
    let mut store = MirrorStore::new();
    let mut i: i64 = 0;
    while i < 105 {
        save_message(&mut store, &payload(&format!("m{}", i), i, "x")).unwrap();
        i += 1;
    }
    assert_eq!(get_messages(&store, None, None, &None, None, None).len(), 100);
    assert_eq!(get_messages(&store, None, Some(10), &None, None, None).len(), 95);
}

#[test]
fn payload_that_is_no_object_is_listed_as_it_is() {
    let mut store = MirrorStore::new();
    save_message(&mut store, &payload("a1", 1000, "apple")).unwrap();
    store.messages[0].data = "plain text".to_string();
    assert_eq!(get_messages(&store, None, None, &None, None, None), vec!["plain text"]);
    assert_eq!(update_message_id(&mut store, "a1", 5), Ok(true));
    assert_eq!(store.messages[0].data, "plain text");
    store.messages[0].data = "[1, 2]".to_string();
    assert_eq!(get_messages(&store, None, None, &None, None, None), vec!["[1,2]"]);
    assert_eq!(update_message_content(&mut store, "a1", "x", "y"), Ok(true));
    assert_eq!(store.messages[0].data, "[1, 2]");
}

#[test]
fn delete_removes_row_shadow_and_index() {
    let mut store = MirrorStore::new();
    save_message(&mut store, &payload("a1", 1000, "apple")).unwrap();
    save_message(&mut store, &payload("b2", 1001, "banana")).unwrap();
    delete_message(&mut store, &"a1".to_string());
    assert_eq!(store.messages.len(), 1);
    assert_eq!(store.shadow.len(), 1);
    assert_eq!(store.index.len(), 1);
    assert_eq!(store.messages[0].local_message_id, "b2");
    assert_eq!(store.index[0].content, "banana");
    delete_message(&mut store, &"missing".to_string());
    assert_eq!(store.messages.len(), 1);
    save_message(&mut store, &payload("a1", 1000, "apple")).unwrap();
    assert_eq!(store.shadow[1].rowid, 3);
}

#[test]
fn trim_keeps_the_latest() {
    let mut store = MirrorStore::new();
    save_message(&mut store, &payload("a", 10, "one")).unwrap();
    save_message(&mut store, &payload("b", 30, "two")).unwrap();
    save_message(&mut store, &payload("c", 20, "three")).unwrap();
    assert_eq!(cleanup_old_messages(&mut store, 5), 0);
    assert_eq!(cleanup_old_messages(&mut store, 2), 1);
    assert_eq!(store.messages.len(), 2);
    assert_eq!(store.messages[0].local_message_id, "b");
    assert_eq!(store.messages[1].local_message_id, "c");
    assert_eq!(store.shadow.len(), 2);
    assert_eq!(store.index.len(), 2);
    assert!(search_messages(&store, "one", None, None).unwrap().is_empty());
    assert_eq!(cleanup_old_messages(&mut store, 0), 2);
    assert!(store.messages.is_empty());
    assert!(store.index.is_empty());
}

#[test]
fn stats_count_by_category() {
    let mut store = MirrorStore::new();
    save_message(&mut store, &payload("a", 10, "one")).unwrap();
    save_message(&mut store, &payload("b", 30, "two")).unwrap();
    save_message(&mut store, "{\"localMessageId\":\"n\",\"time\":40,\"post_type\":\"notice\"}")
        .unwrap();
    save_message(&mut store, "{\"localMessageId\":\"r\",\"time\":41,\"post_type\":\"request\"}")
        .unwrap();
    let stats = get_message_stats(&store);
    assert_eq!(stats.total, 4);
    assert_eq!(stats.messages, 2);
    assert_eq!(stats.notices, 1);
}

#[test]
fn surrogate_ids_run_out_after_the_row_is_written() {
    let mut store = MirrorStore::new();
    store.next_rowid = i64::MAX;
    assert_eq!(save_message(&mut store, &payload("a", 10, "one")), Err(StoreError::ShadowFull));
    assert_eq!(store.messages.len(), 1);
    assert!(store.shadow.is_empty());
    assert!(store.index.is_empty());
}
