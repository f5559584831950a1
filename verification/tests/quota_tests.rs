use paywall_quota::quota::{
    adopt_limit, ceiling_from, check, clamp_amount, consume, consume_checked, consume_counter,
    counter_from, counter_key, current_used, effective_key, limit_ceiling, map_name, read_counter,
    read_window, request_key, reset, reset_epoch, validate_key, window_key, write_counter,
    write_window, CheckReq, ConsumeReq, Counter,
    ResetReq, CONTRACT_VERSION, DEFAULT_LIMIT_CEILING, MAX_AMOUNT, MAX_LIMIT_CEILING,
    RESET_WINDOW_SECS,
};

const TENANT: [u8; 20] = [
    0x5d, 0xb3, 0x68, 0x1d, 0xf8, 0x5b, 0x9a, 0x69, 0x87, 0x77, 0xa5, 0xaa, 0x60, 0x33, 0x29, 0xda,
    0x86, 0xcd, 0xb5, 0xdc,
];

const DAY: u64 = 86_400;
const NOW: u64 = 1_786_150_000; // within the window starting 1_786_147_200
const EPOCH: u64 = 1_786_147_200;

/// The counter record and window stamp of one key, as the host keeps them.
struct Store {
    record: Option<Vec<u8>>,
    stamp: Option<Vec<u8>>,
}

impl Store {
    fn new() -> Self {
        Store { record: None, stamp: None }
    }

    fn consume_at(&mut self, key: &str, limit: u32, amount: Option<u32>, now: u64) -> paywall_quota::quota::ConsumeResp {
        let counter = read_counter(self.record.as_deref()).unwrap();
        let window = read_window(self.stamp.as_deref());
        let req = ConsumeReq { key: key.to_string(), limit, amount };
        let out = consume(&req, Some(&TENANT), None, counter, window, now).unwrap();
        if let Some(bytes) = out.write {
            self.record = Some(bytes);
        }
        if let Some(bytes) = out.window_write {
            self.stamp = Some(bytes);
        }
        out.resp
    }

    fn consume(&mut self, key: &str, limit: u32, amount: Option<u32>) -> paywall_quota::quota::ConsumeResp {
        self.consume_at(key, limit, amount, NOW)
    }
}

fn counter(used: u64, limit: u64) -> Counter {
    Counter { used, limit }
}

#[test]
fn lib_contract_version_is_semver() {
    let parts: Vec<&str> = CONTRACT_VERSION.split('.').collect();
    assert_eq!(parts.len(), 3);
    for part in parts {
        assert!(part.parse::<u32>().is_ok());
    }
}

#[test]
fn first_touch_adopts_limit() {
    // stored limit 5 and a request for 5 -> 5; a granted consume of 2 from 0
    let limit = adopt_limit(5, 5, DEFAULT_LIMIT_CEILING);
    let (exceeded, used) = consume_counter(0, 2, limit);
    assert_eq!(limit, 5);
    assert_eq!(used, 2);
    assert!(!exceeded);
    // no stored row: the request is adopted
    assert_eq!(adopt_limit(0, 5, DEFAULT_LIMIT_CEILING), 5);
}

#[test]
fn first_touch_limited_ceiling() {
    let limit = adopt_limit(0, 9_999_999, DEFAULT_LIMIT_CEILING);
    assert_eq!(limit, 100_000);
    assert!(limit <= DEFAULT_LIMIT_CEILING);
}

#[test]
fn adopted_limit_never_increases() {
    let limit = adopt_limit(3, 9, DEFAULT_LIMIT_CEILING);
    assert_eq!(limit, 3, "existing stored limit must win over a higher request");
}

#[test]
fn map_name_and_keys() {
    assert_eq!(map_name(&TENANT), "z:5db3681df85b9a698777a5aa603329da86cdb5dc:quotas");
    assert_eq!(
        effective_key(Some(&TENANT), "did:key:z6Mk_app2"),
        Ok("u:5db3681df85b9a698777a5aa603329da86cdb5dc:did:key:z6Mk_app2".to_string())
    );
    assert_eq!(effective_key(None, "app1"), Ok("app1-unbound".to_string()));
    assert_eq!(effective_key(None, "u"), Ok("u-unbound".to_string()));
    assert_eq!(effective_key(Some(&[1]), "u:x"), Ok("u:01:u:x".to_string()));
    assert_eq!(counter_key("k"), "counter:k");
    assert_eq!(window_key("k"), "window:k");
}

#[test]
fn bound_keys_do_not_collide() {
    assert_ne!(effective_key(Some(&[0xab]), "cd:x"), effective_key(Some(&[0xab, 0xcd]), "x"));
    assert_ne!(effective_key(Some(&[1]), "k"), effective_key(Some(&[2]), "k"));
}

#[test]
fn unbound_caller_cannot_name_a_bound_counter() {
    // "u:01:t" + "-unbound" would be bound user 01's key for "t-unbound"
    assert_eq!(
        effective_key(None, "u:01:t"),
        Err("an unbound key may not start with u:".to_string())
    );
    assert_eq!(
        request_key(None, &"u:01:t".to_string()),
        Err("an unbound key may not start with u:".to_string())
    );
    let req = ConsumeReq { key: "u:01:t".to_string(), limit: 3, amount: None };
    assert_eq!(
        consume(&req, None, None, counter(0, 0), None, NOW).unwrap_err(),
        "an unbound key may not start with u:"
    );
    let long = format!("u:{}", "k".repeat(300));
    assert_eq!(request_key(None, &long), Err("key exceeds 256 bytes".to_string()));
}

#[test]
fn ceiling_from_store() {
    assert_eq!(limit_ceiling(None), DEFAULT_LIMIT_CEILING);
    assert_eq!(limit_ceiling(Some(br#"{"ceiling":42}"#)), 42);
    assert_eq!(limit_ceiling(Some(br#"{"ceiling":99999999999}"#)), MAX_LIMIT_CEILING);
    assert_eq!(limit_ceiling(Some(br#"{"ceiling":"10"}"#)), DEFAULT_LIMIT_CEILING);
    assert_eq!(limit_ceiling(Some(b"garbage")), DEFAULT_LIMIT_CEILING);
}

#[test]
fn reset_epoch_window() {
    assert_eq!(reset_epoch(0), 0);
    assert_eq!(reset_epoch(NOW), EPOCH);
    assert_eq!(reset_epoch(86_399), 0);
    assert_eq!(reset_epoch(86_400), 86_400);
    let now = 1_786_233_601u64;
    let e = reset_epoch(now);
    assert!(e <= now && now < e + RESET_WINDOW_SECS && e % RESET_WINDOW_SECS == 0);
}

#[test]
fn amount_clamp() {
    assert_eq!(clamp_amount(None), 1);
    assert_eq!(clamp_amount(Some(0)), 1);
    assert_eq!(clamp_amount(Some(7)), 7);
    assert_eq!(clamp_amount(Some(u32::MAX)), MAX_AMOUNT);
}

#[test]
fn counter_record_round_trip() {
    let c = counter(2, 5);
    let bytes = write_counter(c).unwrap();
    assert_eq!(bytes, br#"{"limit":5,"used":2}"#.to_vec());
    assert_eq!(read_counter(Some(&bytes)), Ok(c));
    let c = counter(0, u64::MAX);
    assert_eq!(read_counter(Some(&write_counter(c).unwrap())), Ok(c));
}

#[test]
fn window_stamp_round_trip() {
    assert_eq!(read_window(None), None);
    let stamp = write_window(EPOCH);
    assert_eq!(stamp, EPOCH.to_le_bytes().to_vec());
    assert_eq!(read_window(Some(&stamp)), Some(EPOCH));
}

#[test]
fn read_counter_edges() {
    assert_eq!(read_counter(None), Ok(counter(0, 0)));
    assert_eq!(read_counter(Some(br#"{"used":4}"#)), Ok(counter(4, 0)));
    assert_eq!(read_counter(Some(br#"{"used":4,"limit":5}"#)), Ok(counter(4, 5)));
    assert_eq!(read_counter(Some(br#"[1,2]"#)), Ok(counter(0, 0)));
    assert!(read_counter(Some(b"{")).is_err());
}

#[test]
fn key_length_limit() {
    assert!(validate_key(&"k".repeat(256)).is_ok());
    assert_eq!(validate_key(&"k".repeat(257)), Err("key exceeds 256 bytes".to_string()));
    let long = CheckReq { key: "k".repeat(300) };
    assert_eq!(check(&long, &TENANT, None, counter(0, 0), None, 0).unwrap_err(), "key exceeds 256 bytes");
    let long = ResetReq { key: "k".repeat(300) };
    assert_eq!(reset(&long, None, counter(0, 0)).unwrap_err(), "key exceeds 256 bytes");
    let long = ConsumeReq { key: "k".repeat(300), limit: 3, amount: None };
    assert_eq!(consume(&long, None, None, counter(0, 0), None, 0).unwrap_err(), "key exceeds 256 bytes");
}

#[test]
fn consume_hard_stop_and_reset() {
    let mut store = Store::new();
    let key = "did:key:z6Mk_app2";
    let r1 = store.consume(key, 3, None);
    assert_eq!((r1.used, r1.limit, r1.remaining, r1.exceeded, r1.at_limit), (1, 3, 2, false, false));
    let r2 = store.consume(key, 3, None);
    assert_eq!((r2.used, r2.remaining), (2, 1));
    let r3 = store.consume(key, 3, None);
    assert_eq!((r3.used, r3.remaining, r3.exceeded, r3.at_limit), (3, 0, false, true));
    assert_eq!(store.record, Some(br#"{"limit":3,"used":3}"#.to_vec()));
    let before = (store.record.clone(), store.stamp.clone());
    let r4 = store.consume(key, 3, None);
    assert_eq!((r4.used, r4.limit, r4.remaining, r4.exceeded, r4.at_limit), (3, 3, 0, true, true));
    assert_eq!((store.record.clone(), store.stamp.clone()), before, "a refused consume stores nothing");
    assert_eq!(r4.key, "u:5db3681df85b9a698777a5aa603329da86cdb5dc:did:key:z6Mk_app2");

    let c = read_counter(store.record.as_deref()).unwrap();
    let w = read_window(store.stamp.as_deref());
    let state = check(&CheckReq { key: key.to_string() }, &TENANT, Some(&TENANT), c, w, NOW).unwrap();
    assert_eq!((state.used, state.limit, state.remaining), (3, 3, 0));
    assert_eq!(state.quota_map, "z:5db3681df85b9a698777a5aa603329da86cdb5dc:quotas");
    assert_eq!(state.reset_epoch_secs, EPOCH);
    assert_eq!(state.key, r4.key);

    let out = reset(&ResetReq { key: key.to_string() }, Some(&TENANT), c).unwrap();
    assert_eq!((out.resp.used, out.resp.limit), (0, 3));
    assert_eq!(out.write, br#"{"limit":3,"used":0}"#.to_vec());
    // resetting again writes the same record
    let again = reset(&ResetReq { key: key.to_string() }, Some(&TENANT), read_counter(Some(&out.write)).unwrap()).unwrap();
    assert_eq!(again.write, out.write);
    assert_eq!((again.resp.used, again.resp.limit), (0, 3));
}

#[test]
fn unstamped_counters_count_as_current() {
    // rows in the plain `{used, limit}` form, with no window stamp
    let c = read_counter(Some(br#"{"used":3,"limit":3}"#)).unwrap();
    let state = check(&CheckReq { key: "did:key:z6Mk_app2".to_string() }, &TENANT, Some(&TENANT), c, None, NOW).unwrap();
    assert_eq!((state.used, state.limit, state.remaining, state.reset_epoch_secs), (3, 3, 0, EPOCH));
    let req = ConsumeReq { key: "did:key:z6Mk_app2".to_string(), limit: 3, amount: None };
    let out = consume(&req, Some(&TENANT), None, c, None, NOW).unwrap();
    assert_eq!((out.resp.used, out.resp.remaining, out.resp.exceeded, out.resp.at_limit), (3, 0, true, true));
    assert!(out.write.is_none() && out.window_write.is_none());

    let c = read_counter(Some(br#"{"used":4,"limit":5}"#)).unwrap();
    let req = ConsumeReq { key: "did:key:z6Mk_app1".to_string(), limit: 5, amount: Some(2) };
    let out = consume(&req, Some(&TENANT), None, c, None, NOW).unwrap();
    assert_eq!((out.resp.used, out.resp.remaining, out.resp.exceeded, out.resp.at_limit), (4, 1, true, false));
    assert!(out.write.is_none());
}

#[test]
fn consume_two_by_two() {
    let mut store = Store::new();
    let r = store.consume("app1", 5, Some(2));
    assert_eq!((r.used, r.limit, r.remaining, r.exceeded), (2, 5, 3, false));
    let r = store.consume("app1", 5, Some(2));
    assert_eq!((r.used, r.remaining), (4, 1));
    let r = store.consume("app1", 5, Some(2));
    assert_eq!((r.used, r.remaining, r.exceeded, r.at_limit), (4, 1, true, false));
}

#[test]
fn counters_roll_over_daily() {
    let mut store = Store::new();
    let r = store.consume("app1", 5, Some(4));
    assert_eq!((r.used, r.exceeded), (4, false));
    assert_eq!(read_window(store.stamp.as_deref()), Some(EPOCH));
    let r = store.consume("app1", 5, Some(2));
    assert!(r.exceeded);
    // the next day the counter starts again from zero, keeping its limit
    let r = store.consume_at("app1", 99, Some(2), NOW + DAY);
    assert_eq!((r.used, r.limit, r.remaining, r.exceeded), (2, 5, 3, false));
    assert_eq!(store.record, Some(br#"{"limit":5,"used":2}"#.to_vec()));
    assert_eq!(read_window(store.stamp.as_deref()), Some(EPOCH + DAY));
    // check in a later window reports nothing used, without writing
    let c = read_counter(store.record.as_deref()).unwrap();
    let w = read_window(store.stamp.as_deref());
    let state = check(&CheckReq { key: "app1".to_string() }, &TENANT, None, c, w, NOW + 3 * DAY).unwrap();
    assert_eq!((state.used, state.limit, state.remaining), (0, 5, 5));
    // still the same day: counting continues
    let r = store.consume_at("app1", 5, Some(3), NOW + DAY + 10);
    assert_eq!((r.used, r.at_limit), (5, true));
}

#[test]
fn current_used_by_window() {
    let c = counter(7, 9);
    assert_eq!(current_used(c, Some(DAY), DAY), 7);
    assert_eq!(current_used(c, Some(DAY), 2 * DAY), 0);
    assert_eq!(current_used(c, Some(DAY), 0), 7);
    assert_eq!(current_used(c, None, 5 * DAY), 7);
}

#[test]
fn consume_first_touch_uses_ceiling() {
    let req = ConsumeReq { key: "k".to_string(), limit: u32::MAX, amount: Some(1) };
    let out = consume(&req, None, Some(br#"{"ceiling":10}"#), counter(0, 0), None, NOW).unwrap();
    assert_eq!(out.resp.limit, 10);
    assert_eq!(out.resp.key, "k-unbound");
    assert_eq!(out.write.unwrap(), br#"{"limit":10,"used":1}"#.to_vec());
    assert_eq!(read_window(Some(&out.window_write.unwrap())), Some(EPOCH));
    let req = ConsumeReq { key: "k".to_string(), limit: 9_999_999, amount: None };
    let out = consume(&req, None, None, counter(0, 0), None, NOW).unwrap();
    assert_eq!((out.resp.limit, out.resp.used), (100_000, 1));
    assert_eq!(out.write.unwrap(), br#"{"limit":100000,"used":1}"#.to_vec());
    let req = ConsumeReq { key: "k".to_string(), limit: 9, amount: None };
    let out = consume(&req, None, None, counter(0, 3), None, NOW).unwrap();
    assert_eq!((out.resp.limit, out.resp.used), (3, 1));
    assert_eq!(out.write.unwrap(), br#"{"limit":3,"used":1}"#.to_vec());
}

#[test]
fn consume_checked_flags_overflow() {
    let req = ConsumeReq { key: "k".to_string(), limit: 1, amount: Some(10) };
    let tampered = counter(u64::MAX - 3, u64::MAX);
    assert!(consume_checked(&req, None, None, tampered, None, NOW).is_none());
    let fine = counter(1, 100);
    let out = consume_checked(&req, None, None, fine, None, NOW).unwrap().unwrap();
    assert_eq!(out.resp.used, 11);
    let out = consume_checked(&req, None, None, fine, Some(0), NOW).unwrap().unwrap();
    assert_eq!(out.resp.used, 10);
    let bad = ConsumeReq { key: "u:ab".to_string(), limit: 1, amount: None };
    assert_eq!(
        consume_checked(&bad, None, None, tampered, None, NOW).unwrap().unwrap_err(),
        "an unbound key may not start with u:"
    );
}

#[test]
fn remaining_reports_wrap_like_a_cast() {
    let state = check(&CheckReq { key: "k".to_string() }, &TENANT, None, counter(0, u64::MAX), None, 0).unwrap();
    assert_eq!(state.remaining, -1);
    let state = check(&CheckReq { key: "k".to_string() }, &TENANT, None, counter(9, 3), None, 0).unwrap();
    assert_eq!(state.remaining, 0);
}

#[test]
fn members_to_values() {
    assert_eq!(ceiling_from(None), DEFAULT_LIMIT_CEILING);
    assert_eq!(ceiling_from(Some(0)), 0);
    assert_eq!(ceiling_from(Some(10_000_000)), 10_000_000);
    assert_eq!(ceiling_from(Some(10_000_001)), MAX_LIMIT_CEILING);
    assert_eq!(counter_from(None, None), counter(0, 0));
    assert_eq!(counter_from(Some(4), Some(5)), counter(4, 5));
}
