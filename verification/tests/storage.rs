use pywatt_sdk::cache::file::{cache_file_location, file_cache_stats, increment_file_content, text_byte_sum};
use pywatt_sdk::cache::remote::{
    acknowledged, checked_cache_operation, connection_acknowledged, counter_result, decoded_values, deleted_count,
    encode_stored, flag_result, lock_token, previous_value, stored_value,
};
use pywatt_sdk::cache::server_stats::{memcached_stats, redis_stats, trim_chars};
use pywatt_sdk::cache::{choose_cache_backend, decode_cached_text, CacheBackendSupport, CacheError, CacheType};
use pywatt_sdk::database::proxy::{affected_rows, checked_db_operation, connection_outcome, required_result, transaction_outcome, ProxyDatabaseConnection};
use pywatt_sdk::database::proxy_row::ProxyDatabaseRow;
use pywatt_sdk::database::{postgres_config, DatabaseError, DatabaseType};
use pywatt_sdk::ipc_types::{ServiceResponse, ServiceType};
use pywatt_sdk::json_value::JsonValue;
use std::time::Duration;

fn metric(m: &[(String, String)], k: &str) -> Option<String> {
    m.iter().rev().find(|(a, _)| a == k).map(|(_, v)| v.clone())
}

#[test]
fn cache_files_are_named_by_the_byte_sum_of_their_key() {
    let key = "a".repeat(50);
    assert_eq!(text_byte_sum(&key), 4850);
    let loc = cache_file_location(None, &key);
    assert_eq!(loc.file_name, "12f2");
    assert_eq!(loc.dir1, "12");
    assert_eq!(loc.dir2, "f2");
    let ns = cache_file_location(Some("cache"), &key);
    assert_eq!(ns.file_name, "1520");
    // "abc" sums to 294 = 0x126: the directories come from "0126".
    let short = cache_file_location(None, "abc");
    assert_eq!(short.file_name, "126");
    assert_eq!(short.dir1, "01");
    assert_eq!(short.dir2, "26");
}

#[test]
fn counter_files_are_incremented() {
    assert_eq!(increment_file_content(Some(b"41"), 1), Some((42, b"42".to_vec())));
    assert_eq!(increment_file_content(Some(b""), 1), Some((1, b"1".to_vec())));
    assert_eq!(increment_file_content(Some(b"xyz"), -3), Some((-3, b"-3".to_vec())));
    assert_eq!(increment_file_content(None, 7), Some((7, b"7".to_vec())));
    assert_eq!(increment_file_content(Some(i64::MAX.to_string().as_bytes()), 1), None);
    let (n, bytes) = increment_file_content(Some(b"10"), 5).unwrap();
    assert_eq!(increment_file_content(Some(&bytes), 5), Some((n + 5, b"20".to_vec())));
}

#[test]
fn file_cache_statistics_count_fresh_files() {
    let files = vec![
        (10u64, Some(Duration::from_secs(1))),
        (20u64, Some(Duration::from_secs(100))),
        (5u64, None),
        (7u64, Some(Duration::from_secs(60))),
    ];
    let stats = file_cache_stats(3, 4, &files, &Duration::from_secs(60)).unwrap();
    assert_eq!(stats.item_count, Some(2));
    assert_eq!(stats.memory_used_bytes, Some(17));
    assert_eq!(stats.hits, Some(3));
    assert_eq!(stats.misses, Some(4));
    let huge = vec![(u64::MAX, Some(Duration::from_secs(0))), (1u64, Some(Duration::from_secs(0)))];
    assert!(file_cache_stats(0, 0, &huge, &Duration::from_secs(1)).is_none());
}

#[test]
fn memcached_statistics_are_summed_over_servers() {
    let servers = vec![
        ("s1".to_string(), vec![
            ("curr_items".to_string(), "3".to_string()),
            ("bytes".to_string(), "100".to_string()),
            ("pid".to_string(), "7".to_string()),
        ]),
        ("s2".to_string(), vec![
            ("curr_items".to_string(), "4".to_string()),
            ("bytes".to_string(), "x".to_string()),
        ]),
    ];
    let stats = memcached_stats(1, 2, &servers).unwrap();
    assert_eq!(stats.item_count, Some(7));
    assert_eq!(stats.memory_used_bytes, Some(100));
    assert_eq!(metric(&stats.additional_metrics, "s1.pid"), Some("7".to_string()));
    assert_eq!(stats.additional_metrics.len(), 1);
    let empty = memcached_stats(0, 0, &vec![]).unwrap();
    assert_eq!(empty.item_count, None);
    let overflow = vec![("s".to_string(), vec![
        ("curr_items".to_string(), u64::MAX.to_string()),
        ("curr_items".to_string(), "1".to_string()),
    ])];
    assert!(memcached_stats(0, 0, &overflow).is_none());
}

#[test]
fn redis_info_text_is_parsed() {
    let info = "# Server\r\nredis_version:7.0.0\r\nused_memory:1024\r\n\r\n# Keyspace\r\ndb0:keys=12,expires=0,avg_ttl=0\r\n  role : master  \r\n";
    let stats = redis_stats(5, 6, info);
    assert_eq!(stats.hits, Some(5));
    assert_eq!(stats.misses, Some(6));
    assert_eq!(stats.memory_used_bytes, Some(1024));
    assert_eq!(stats.item_count, Some(12));
    assert_eq!(metric(&stats.additional_metrics, "redis_version"), Some("7.0.0".to_string()));
    assert_eq!(metric(&stats.additional_metrics, "role "), Some(" master".to_string()));
    assert_eq!(stats.additional_metrics.len(), 2);
    let t: String = trim_chars(&" \t x y \u{3000}".chars().collect::<Vec<char>>()).into_iter().collect();
    assert_eq!(t, "x y");
}

#[test]
fn proxy_rows_read_columns() {
    let row = ProxyDatabaseRow::new(vec![
        ("name".to_string(), JsonValue::Text("bob".to_string())),
        ("age".to_string(), JsonValue::Integer(30)),
        ("ok".to_string(), JsonValue::Bool(true)),
        ("blob".to_string(), JsonValue::Text("aGk=".to_string())),
        ("arr".to_string(), JsonValue::Array(vec![Some(104), Some(105)])),
        ("bad".to_string(), JsonValue::Array(vec![Some(300)])),
        ("odd".to_string(), JsonValue::Array(vec![None])),
        ("nul".to_string(), JsonValue::Null),
    ]);
    assert_eq!(row.get_string("name").unwrap(), "bob");
    assert_eq!(row.get_i64("age").unwrap(), 30);
    assert!(row.get_bool("ok").unwrap());
    assert_eq!(row.get_bytes("blob").unwrap(), b"hi".to_vec());
    assert_eq!(row.get_bytes("arr").unwrap(), b"hi".to_vec());
    assert!(matches!(row.get_string("age"), Err(DatabaseError::Query(m)) if m == "Column 'age' is not a string"));
    assert!(matches!(row.get_i64("zzz"), Err(DatabaseError::Query(m)) if m == "Column 'zzz' not found"));
    assert!(matches!(row.get_bool("name"), Err(DatabaseError::Query(m)) if m == "Column 'name' is not a boolean"));
    assert!(matches!(row.get_bytes("bad"), Err(DatabaseError::Query(m)) if m == "Invalid byte value 300 in column 'bad'"));
    assert!(matches!(row.get_bytes("odd"), Err(DatabaseError::Query(m)) if m == "Invalid byte value in column 'odd'"));
    assert!(matches!(row.get_bytes("age"), Err(DatabaseError::Query(m)) if m == "Column 'age' is not bytes"));
    assert!(matches!(row.get_bytes("name"), Err(DatabaseError::Query(m)) if m.starts_with("Column 'name' has invalid base64: ")));
    assert_eq!(row.try_get_string("nul").unwrap(), None);
    assert_eq!(row.try_get_i64("missing").unwrap(), None);
    assert_eq!(row.try_get_bool("ok").unwrap(), Some(true));
    assert_eq!(row.try_get_bytes("nul").unwrap(), None);
    assert_eq!(row.try_get_bytes("blob").unwrap(), Some(b"hi".to_vec()));
    let later = ProxyDatabaseRow::new(vec![
        ("v".to_string(), JsonValue::Integer(1)),
        ("v".to_string(), JsonValue::Integer(2)),
    ]);
    assert_eq!(later.get_i64("v").unwrap(), 2);
}

#[test]
fn proxied_database_answers() {
    let config = postgres_config("localhost", 5432, "db", "u", "p");
    let resp = ServiceResponse { id: "r".to_string(), service_type: ServiceType::Database, success: true, error: None, connection_id: Some("c1".to_string()) };
    let mut conn = ProxyDatabaseConnection::from_response(&config, resp).unwrap();
    assert_eq!(conn.connection_id(), "c1");
    assert_eq!(conn.get_database_type(), DatabaseType::Postgres);
    let tx = conn.begin_transaction(Some(JsonValue::Text("t1".to_string()))).unwrap();
    assert_eq!(tx.transaction_id(), "t1");
    assert_eq!(tx.connection_id(), "c1");
    assert!(matches!(conn.begin_transaction(Some(JsonValue::Integer(1))), Err(DatabaseError::Transaction(m)) if m == "Invalid transaction ID"));
    assert!(matches!(conn.begin_transaction(None), Err(DatabaseError::Transaction(m)) if m == "Failed to begin transaction"));
    assert_eq!(conn.take_active_transactions(), vec!["t1".to_string()]);
    assert!(conn.take_active_transactions().is_empty());
    assert_eq!(affected_rows(Some(JsonValue::Integer(3))).unwrap(), 3);
    assert!(matches!(affected_rows(Some(JsonValue::Integer(-1))), Err(DatabaseError::Query(m)) if m == "Invalid affected rows count"));
    assert!(matches!(affected_rows(None), Err(DatabaseError::Query(m)) if m == "No result from operation"));
    assert!(matches!(required_result::<u8>(None), Err(DatabaseError::Query(m)) if m == "No result from operation"));
    assert!(matches!(checked_db_operation(false, None), Err(DatabaseError::Query(m)) if m == "Unknown error"));
    assert!(matches!(transaction_outcome(false, None), Err(DatabaseError::Transaction(m)) if m == "Unknown transaction error"));
    assert!(matches!(connection_outcome(false, None, "Ping failed"), Err(DatabaseError::Connection(m)) if m == "Ping failed"));
    let refused = ServiceResponse { id: "r".to_string(), service_type: ServiceType::Database, success: false, error: Some("no".to_string()), connection_id: None };
    assert!(matches!(ProxyDatabaseConnection::from_response(&config, refused), Err(DatabaseError::Connection(m)) if m == "no"));
}

#[test]
fn proxied_cache_answers() {
    assert_eq!(stored_value(Some(JsonValue::Text("aGk=".to_string()))).unwrap(), Some(b"hi".to_vec()));
    assert_eq!(stored_value(Some(JsonValue::Array(vec![Some(1), Some(2)]))).unwrap(), Some(vec![1, 2]));
    assert!(matches!(stored_value(Some(JsonValue::Array(vec![Some(1), Some(256)]))), Err(CacheError::Serialization(m)) if m == "Invalid byte value: 256"));
    assert!(matches!(stored_value(Some(JsonValue::Array(vec![None]))), Err(CacheError::Serialization(m)) if m == "Invalid byte value"));
    assert!(matches!(stored_value(Some(JsonValue::Bool(true))), Err(CacheError::Serialization(m)) if m == "Invalid value format"));
    assert!(matches!(stored_value(Some(JsonValue::Text("!!".to_string()))), Err(CacheError::Serialization(m)) if m.starts_with("Invalid base64: ")));
    assert_eq!(stored_value(None).unwrap(), None);
    assert_eq!(stored_value(Some(JsonValue::Null)).unwrap(), None);
    assert!(matches!(previous_value(Some(JsonValue::Array(vec![]))), Err(CacheError::Serialization(m)) if m == "Invalid value format"));
    assert_eq!(previous_value(Some(JsonValue::Text("aGk=".to_string()))).unwrap(), Some(b"hi".to_vec()));
    assert!(!flag_result(None, "delete").unwrap());
    assert!(flag_result(Some(JsonValue::Bool(true)), "exists").unwrap());
    assert!(matches!(flag_result(Some(JsonValue::Object), "delete"), Err(CacheError::Operation(m)) if m == "Invalid delete result"));
    assert_eq!(counter_result(Some(JsonValue::Integer(-5))).unwrap(), -5);
    assert!(matches!(counter_result(Some(JsonValue::Unsigned(u64::MAX))), Err(CacheError::Operation(m)) if m == "Invalid increment result"));
    assert_eq!(deleted_count(Some(JsonValue::Unsigned(u64::MAX))).unwrap(), u64::MAX);
    assert_eq!(deleted_count(None).unwrap(), 0);
    assert_eq!(lock_token(Some(JsonValue::Text("tok".to_string()))).unwrap(), Some("tok".to_string()));
    assert!(matches!(lock_token(Some(JsonValue::Integer(1))), Err(CacheError::Operation(m)) if m == "Invalid lock token format"));
    let decoded = decoded_values(vec![("a".to_string(), "aGk=".to_string())]).unwrap();
    assert_eq!(decoded, vec![("a".to_string(), b"hi".to_vec())]);
    assert!(decoded_values(vec![("a".to_string(), "aGk=".to_string()), ("b".to_string(), "!".to_string())]).is_err());
    assert_eq!(encode_stored(b"hi"), "aGk=");
    assert_eq!(encode_stored(b""), "");
    assert!(matches!(checked_cache_operation(false, None), Err(CacheError::Operation(m)) if m == "Unknown error"));
    assert!(matches!(acknowledged(false, None, "Set operation failed"), Err(CacheError::Operation(m)) if m == "Set operation failed"));
    assert!(matches!(connection_acknowledged(false, Some("down".to_string()), "Ping failed"), Err(CacheError::Connection(m)) if m == "down"));
}

#[test]
fn cache_backends_available_in_this_build() {
    let support = CacheBackendSupport { redis: false, memcached: false, file: true };
    assert_eq!(choose_cache_backend(CacheType::InMemory, support).ok(), Some(CacheType::InMemory));
    assert_eq!(choose_cache_backend(CacheType::File, support).ok(), Some(CacheType::File));
    assert!(matches!(choose_cache_backend(CacheType::Redis, support), Err(CacheError::Configuration(m)) if m == "Redis cache support is not enabled. Enable the 'redis_cache' feature."));
    assert!(matches!(choose_cache_backend(CacheType::Memcached, support), Err(CacheError::Configuration(m)) if m == "Memcached support is not enabled. Enable the 'memcached' feature."));
}

#[test]
fn test_decode_cached_text_valid_and_invalid() {
    assert_eq!(decode_cached_text(b"hi".to_vec()).unwrap(), Some("hi".to_string()));
    match decode_cached_text(vec![0xff, 0x41]) {
        Err(CacheError::Get(m)) => assert!(m.starts_with("Invalid UTF-8: ") && m.len() > 15),
        other => panic!("unexpected {:?}", other),
    }
}
