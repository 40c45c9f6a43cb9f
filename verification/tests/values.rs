use call_router::catalog::CognitionMultiObjectiveProfile;
use call_router::catalog::CognitionSequentialConfig;
use call_router::catalog::DeviceStorageCommand;
use call_router::catalog::DeviceStorageValue;
use call_router::catalog::StorageCommand;
use call_router::catalog::SyncStorageCommand;
use call_router::catalog::SyncStorageValue;
use call_router::catalog::WebsiteOpenGraphData;
use call_router::context::Context;
use call_router::json::Json;
use call_router::storage::InMemoryStorage;
use call_router::storage::NoStorage;
use call_router::storage::Storage;
use call_router::types::is_false;
use call_router::types::is_zero_u32;
use call_router::types::At;
use call_router::types::DevString;

#[test]
fn days_are_added_and_taken_in_seconds() {
    let at = At { UNIX_SECS: 1_000_000 };
    assert_eq!(at.plus_days(2).UNIX_SECS, 1_172_800);
    assert_eq!(at.minus_days(2).UNIX_SECS, 827_200);
    assert_eq!(at.minus_days(-1).UNIX_SECS, 1_086_400);
    assert_eq!(at.plus_days(0), at);
    assert_eq!(At { UNIX_SECS: -5 }.minus_days(1).UNIX_SECS, -86_405);
    let most = i64::MAX / 86_400;
    assert_eq!(At { UNIX_SECS: 0 }.plus_days(most).UNIX_SECS, most * 86_400);
}

#[test]
fn flags_and_counts_are_read() {
    assert!(is_false(&false));
    assert!(!is_false(&true));
    assert!(is_zero_u32(&0));
    assert!(!is_zero_u32(&7));
}

#[test]
fn text_keeps_one_record_for_a_name() {
    let text = DevString::new("m")
        .with("a".to_string(), Json::Bool(true))
        .with("b".to_string(), Json::Null)
        .with("a".to_string(), Json::Bool(false))
        .with_dbg("x".to_string(), "1".to_string())
        .with_dbg("x".to_string(), "2".to_string());
    assert_eq!(text.message, "m");
    assert_eq!(text.records.len(), 2);
    assert_eq!(text.records[0].0, "a");
    assert!(matches!(text.records[0].1, Json::Bool(false)));
    assert_eq!(text.records[1].0, "b");
    assert_eq!(text.records_dbg, vec![("x".to_string(), "2".to_string())]);
    let copy = text.clone();
    assert_eq!(copy.records.len(), 2);
    assert_eq!(copy.records_dbg, text.records_dbg);
}

#[test]
fn later_cause_replaces_earlier_cause() {
    let text = DevString::new("m").because(DevString::new("first")).because(DevString::new("second"));
    assert_eq!(text.cause.as_ref().unwrap().message, "second");
    assert!(text.duplicate().cause.unwrap().cause.is_none());
}

#[test]
fn context_is_made_for_a_session_and_a_request() {
    let ctx = Context::created("s".to_string(), 4, 99);
    assert_eq!((ctx.session_id.as_str(), ctx.request_id, ctx.user_id.clone(), ctx.created_at), ("s", 4, None, 99));
    assert_eq!(Context::created("s".to_string(), 4, -1).created_at, u64::MAX);
    let now = Context::new("s".to_string(), 5);
    assert_eq!(now.request_id, 5);
    assert!(now.user_id.is_none());
    assert!(now.created_at > 1_600_000_000 && now.created_at <= i64::MAX as u64);
    let named = ctx.with_user("u".to_string());
    assert_eq!(named.user_id, Some("u".to_string()));
    assert_eq!((named.session_id.as_str(), named.request_id, named.created_at), ("s", 4, 99));
}

#[test]
fn store_in_memory_keeps_the_last_value_of_a_key() {
    let mut store = InMemoryStorage::new();
    assert_eq!(store.get("a"), None);
    store.set("a", vec![1]);
    store.set("b", vec![2, 3]);
    store.set("a", vec![4]);
    assert_eq!(store.get("a"), Some(vec![4]));
    assert_eq!(store.get("b"), Some(vec![2, 3]));
    store.delete("a");
    store.delete("missing");
    assert_eq!(store.get("a"), None);
    assert_eq!(store.get("b"), Some(vec![2, 3]));
    assert_eq!(InMemoryStorage::default().get("b"), None);
}

#[test]
fn store_that_keeps_nothing_has_nothing() {
    let mut store = NoStorage;
    store.set("a", vec![1]);
    assert_eq!(store.get("a"), None);
    store.delete("a");
    assert_eq!(store.get("a"), None);
}

#[test]
fn defaults_are_as_stated() {
    assert_eq!(CognitionMultiObjectiveProfile::default(), CognitionMultiObjectiveProfile::Default);
    let config = CognitionSequentialConfig::default();
    assert_eq!((config.predicted_next_events, config.transition_motif_cap), (16, 32));
    let og = WebsiteOpenGraphData::default();
    assert!(og.title.is_none() && og.url.is_none() && og.published_time.is_none() && og.section.is_none());
    assert!(og.description.is_none() && og.image.is_none() && og.site_name.is_none() && og.og_type.is_none());
    assert!(og.locale.is_none() && og.author.is_none() && og.modified_time.is_none());
}

#[test]
fn storage_commands_are_unwrapped() {
    let device = DeviceStorageCommand(StorageCommand::Get { key: "k".to_string() });
    assert!(matches!(device.into_storage_command(), StorageCommand::Get { key } if key == "k"));
    let synced = SyncStorageCommand(StorageCommand::SetValue { key: "k".to_string(), value: Some(Json::Null) });
    assert!(matches!(synced.into_storage_command(), StorageCommand::SetValue { key, value: Some(Json::Null) } if key == "k"));
    assert!(matches!(DeviceStorageValue::from(Some(Json::Bool(true))), DeviceStorageValue(Some(Json::Bool(true)))));
    assert!(matches!(SyncStorageValue::from(None), SyncStorageValue(None)));
}
