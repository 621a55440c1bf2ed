use std::collections::BTreeMap;
use zedxa::installation::{
    advance, installation_id, start, Lookup, LookupStep, StoreReply, StoreRequest,
    INSTALLATION_KEY, LEGACY_KEY,
};

type Store = BTreeMap<String, String>;

fn serve(store: &mut Store, request: &StoreRequest, fails: fn(&StoreRequest) -> bool) -> StoreReply {
    if fails(request) {
        return match request {
            StoreRequest::Read { .. } => StoreReply::Read(Err("disk full".to_string())),
            _ => StoreReply::Changed(Err("disk full".to_string())),
        };
    }
    match request {
        StoreRequest::Read { key } => StoreReply::Read(Ok(store.get(key).cloned())),
        StoreRequest::Write { key, value } => {
            store.insert(key.clone(), value.clone());
            StoreReply::Changed(Ok(()))
        }
        StoreRequest::Delete { key } => {
            store.remove(key);
            StoreReply::Changed(Ok(()))
        }
    }
}

fn never(_: &StoreRequest) -> bool {
    false
}

fn run(
    store: &mut Store,
    fails: fn(&StoreRequest) -> bool,
    fresh: Option<&str>,
) -> Result<(String, bool), String> {
    let (mut lookup, mut request) = start();
    loop {
        let reply = serve(store, &request, fails);
        let (next, step) = match fresh {
            Some(fresh) => advance(lookup, reply, fresh.to_string()),
            None => installation_id(lookup, reply),
        };
        lookup = next;
        match step {
            LookupStep::Ask(asked) => request = asked,
            LookupStep::Return(result) => return result,
        }
    }
}

fn store(entries: &[(&str, &str)]) -> Store {
    entries
        .iter()
        .map(|(key, value)| (key.to_string(), value.to_string()))
        .collect()
}

#[test]
fn keys_have_their_names() {
    assert_eq!(INSTALLATION_KEY, "installation_id");
    assert_eq!(LEGACY_KEY, "device_id");
}

#[test]
fn legacy_id_is_migrated() {
    let mut kv = store(&[("device_id", "old"), ("other", "kept")]);
    assert_eq!(run(&mut kv, never, Some("new")), Ok(("old".to_string(), true)));
    assert_eq!(kv, store(&[("installation_id", "old"), ("other", "kept")]));
}

#[test]
fn legacy_id_wins_over_the_current_one() {
    let mut kv = store(&[("device_id", "old"), ("installation_id", "current")]);
    assert_eq!(run(&mut kv, never, Some("new")), Ok(("old".to_string(), true)));
    assert_eq!(kv, store(&[("installation_id", "old")]));
}

#[test]
fn current_id_is_returned_unchanged() {
    let mut kv = store(&[("installation_id", "current")]);
    assert_eq!(run(&mut kv, never, Some("new")), Ok(("current".to_string(), true)));
    assert_eq!(kv, store(&[("installation_id", "current")]));
}

#[test]
fn first_start_stores_the_fresh_id_and_the_second_finds_it() {
    let mut kv = store(&[]);
    assert_eq!(run(&mut kv, never, Some("new")), Ok(("new".to_string(), false)));
    assert_eq!(kv, store(&[("installation_id", "new")]));
    assert_eq!(run(&mut kv, never, Some("newer")), Ok(("new".to_string(), true)));
    assert_eq!(kv, store(&[("installation_id", "new")]));
}

#[test]
fn fresh_ids_are_random_uuids() {
    let mut first_store = store(&[]);
    let mut second_store = store(&[]);
    let (first, known) = run(&mut first_store, never, None).unwrap();
    let (second, _) = run(&mut second_store, never, None).unwrap();
    assert!(!known);
    assert_ne!(first, second);
    let uuid = uuid::Uuid::parse_str(&first).unwrap();
    assert_eq!(uuid.get_version_num(), 4);
    assert_eq!(uuid.to_string(), first);
    assert_eq!(first.len(), 36);
    assert_eq!(first_store, store(&[("installation_id", &first)]));
}

#[test]
fn failed_write_is_returned_and_keeps_the_legacy_id() {
    let mut kv = store(&[("device_id", "old")]);
    let failed = run(&mut kv, |request| matches!(request, StoreRequest::Write { .. }), Some("new"));
    assert_eq!(failed, Err("disk full".to_string()));
    assert_eq!(kv, store(&[("device_id", "old")]));
    assert_eq!(run(&mut kv, never, Some("new")), Ok(("old".to_string(), true)));
}

#[test]
fn failed_delete_is_returned_and_keeps_the_id() {
    let mut kv = store(&[("device_id", "old")]);
    let failed = run(&mut kv, |request| matches!(request, StoreRequest::Delete { .. }), Some("new"));
    assert_eq!(failed, Err("disk full".to_string()));
    assert_eq!(kv, store(&[("device_id", "old"), ("installation_id", "old")]));
    assert_eq!(run(&mut kv, never, Some("new")), Ok(("old".to_string(), true)));
}

#[test]
fn failed_write_of_a_fresh_id_is_returned() {
    let mut kv = store(&[]);
    let failed = run(&mut kv, |request| matches!(request, StoreRequest::Write { .. }), Some("new"));
    assert_eq!(failed, Err("disk full".to_string()));
    assert_eq!(kv, store(&[]));
}

#[test]
fn failed_read_counts_as_nothing_found() {
    let mut kv = store(&[("installation_id", "current")]);
    let fresh = run(&mut kv, |request| matches!(request, StoreRequest::Read { .. }), Some("new"));
    assert_eq!(fresh, Ok(("new".to_string(), false)));
    assert_eq!(kv, store(&[("installation_id", "new")]));
}

#[test]
fn unread_legacy_id_is_kept_for_later() {
    let mut kv = store(&[("device_id", "old")]);
    let legacy_fails =
        |request: &StoreRequest| matches!(request, StoreRequest::Read { key } if key == "device_id");
    assert_eq!(run(&mut kv, legacy_fails, Some("new")), Ok(("new".to_string(), false)));
    assert_eq!(kv, store(&[("device_id", "old"), ("installation_id", "new")]));
    assert_eq!(run(&mut kv, never, Some("newer")), Ok(("old".to_string(), true)));
}

#[test]
fn one_read_that_finds_an_id_is_enough() {
    let mut kv = store(&[("device_id", "old"), ("installation_id", "current")]);
    let legacy_fails =
        |request: &StoreRequest| matches!(request, StoreRequest::Read { key } if key == "device_id");
    assert_eq!(run(&mut kv, legacy_fails, Some("new")), Ok(("current".to_string(), true)));
    let current_fails = |request: &StoreRequest| {
        matches!(request, StoreRequest::Read { key } if key == "installation_id")
    };
    assert_eq!(run(&mut kv, current_fails, Some("new")), Ok(("old".to_string(), true)));
}

#[test]
fn legacy_key_is_read_first() {
    let (lookup, request) = start();
    assert_eq!(lookup, Lookup::ReadingLegacy);
    assert_eq!(request, StoreRequest::Read { key: "device_id".to_string() });
}
