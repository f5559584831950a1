use paywall_quota::paywall::{
    budget, budget_from, check_gate, decide, effective_caller, enter_gateway, enter_gateway_reply, map_name,
    pay_for_service, pay_for_service_reply, read_spend, spend_key, validate_amount,
    validate_gate_request, write_spend, GateReq, PayReq, Payment, CONTRACT_VERSION,
    DEFAULT_PER_CALL_CAP_CENTS, DEFAULT_SESSION_BUDGET_CENTS,
};

const TENANT: [u8; 20] = [
    0x5d, 0xb3, 0x68, 0x1d, 0xf8, 0x5b, 0x9a, 0x69, 0x87, 0x77, 0xa5, 0xaa, 0x60, 0x33, 0x29, 0xda,
    0x86, 0xcd, 0xb5, 0xdc,
];

fn gate(caller: &str, label: &str, amount: u64) -> GateReq {
    GateReq { caller: caller.to_string(), label: label.to_string(), amount_cents: amount }
}

#[test]
fn contract_version_is_semver() {
    let parts: Vec<&str> = CONTRACT_VERSION.split('.').collect();
    assert_eq!(parts.len(), 3);
    for part in parts {
        assert!(part.parse::<u32>().is_ok());
    }
}

#[test]
fn decide_under_budget_and_cap_allows() {
    let (allowed, remaining, reason) = decide(25, 0, 500, 50);
    assert!(allowed, "25c under 50c cap and 500c session -> allow: {reason}");
    assert_eq!(remaining, 500);
}

#[test]
fn decide_over_per_call_cap_denies_even_with_headroom() {
    let (allowed, _, reason) = decide(70, 0, 500, 50);
    assert!(!allowed, "70c > 50c cap must be denied: {reason}");
    assert!(reason.contains("exceeds per-call cap"));
}

#[test]
fn decide_at_cap_boundary_allowed() {
    let (allowed, _, _) = decide(50, 0, 500, 50);
    assert!(allowed, "50c == cap is allowed");
}

#[test]
fn decide_over_session_denies() {
    let (allowed, _, reason) = decide(25, 490, 500, 50);
    assert!(!allowed, "spent 490 + 25 > 500 budget: {reason}");
}

#[test]
fn decide_overshoots_session_and_cap_consistently() {
    let (a1, _, _) = decide(400, 50, 500, 50);
    let (a2, _, _) = decide(400, 50, 500, 50);
    assert_eq!(a1, a2);
    assert!(!a1);
}

#[test]
fn decide_reasons_are_exact() {
    assert_eq!(decide(70, 0, 500, 50).2, "amount 70 exceeds per-call cap 50");
    assert_eq!(
        decide(25, 490, 500, 50).2,
        "not enough session budget (490 spent of 500 left: 10)"
    );
    assert_eq!(
        decide(0, 500, 500, 50),
        (false, 0, "not enough session budget (500 spent of 500 left: 0)".to_string())
    );
    assert_eq!(
        decide(0, 600, 500, 50),
        (false, 0, "not enough session budget (600 spent of 500 left: 0)".to_string())
    );
    assert_eq!(decide(10, 0, 500, 50), (true, 500, "under budget".to_string()));
}

#[test]
fn decide_exact_remaining_is_allowed() {
    let (allowed, remaining, _) = decide(10, 490, 500, 50);
    assert!(allowed);
    assert_eq!(remaining, 10);
}

#[test]
fn granted_call_never_overspends() {
    for spent in [0u64, 100, 449, 450, 475, 490, 499, 500, 501] {
        for amount in [0u64, 1, 10, 25, 50, 51] {
            let (allowed, _, _) = decide(amount, spent, 500, 50);
            if allowed {
                assert!(amount <= 50);
                assert!(spent + amount <= 500);
            }
        }
    }
}

#[test]
fn map_name_is_hex_of_tenant() {
    assert_eq!(map_name(&TENANT), "z:5db3681df85b9a698777a5aa603329da86cdb5dc:gate");
    assert_eq!(map_name(&[]), "z::gate");
}

#[test]
fn effective_caller_bound_and_unbound() {
    assert_eq!(
        effective_caller(Some(&TENANT), "spoofed"),
        "did:bound:5db3681df85b9a698777a5aa603329da86cdb5dc"
    );
    assert_eq!(effective_caller(Some(&[0x00, 0xff]), ""), "did:bound:00ff");
    assert_eq!(effective_caller(None, "did:key:z6Mk_test"), "did:key:z6Mk_test-unbound");
}

#[test]
fn bound_caller_ignores_supplied_string() {
    assert_eq!(effective_caller(Some(&[1, 2]), "alice"), effective_caller(Some(&[1, 2]), "bob"));
    assert_ne!(effective_caller(Some(&[1, 2]), "x"), effective_caller(Some(&[1, 3]), "x"));
}

#[test]
fn spend_key_prefix() {
    assert_eq!(spend_key("did:bound:ab"), "spend:did:bound:ab");
}

#[test]
fn spend_round_trip() {
    for cents in [0u64, 1, 255, 256, 60, 123_456_789, u64::MAX] {
        let bytes = write_spend(cents);
        assert_eq!(bytes, cents.to_le_bytes().to_vec());
        assert_eq!(read_spend(Some(&bytes)), cents);
    }
}

#[test]
fn read_spend_short_long_and_absent() {
    assert_eq!(read_spend(None), 0);
    assert_eq!(read_spend(Some(&[])), 0);
    assert_eq!(read_spend(Some(&[0x2c, 0x01])), 300);
    assert_eq!(read_spend(Some(&[1, 0, 0, 0, 0, 0, 0, 0, 9, 9])), 1);
    assert_eq!(read_spend(Some(&[0xff; 8])), u64::MAX);
}

#[test]
fn budget_defaults_and_overrides() {
    assert_eq!(budget(None), Ok((DEFAULT_SESSION_BUDGET_CENTS, DEFAULT_PER_CALL_CAP_CENTS)));
    assert_eq!(budget(Some(b"{}")), Ok((500, 50)));
    assert_eq!(
        budget(Some(br#"{"session_budget_cents":1000,"per_call_cap_cents":75}"#)),
        Ok((1000, 75))
    );
    assert_eq!(budget(Some(br#"{"per_call_cap_cents":7}"#)), Ok((500, 7)));
    assert_eq!(budget(Some(br#"{"session_budget_cents":-3}"#)), Ok((500, 50)));
    assert!(budget(Some(b"not json")).is_err());
}

#[test]
fn gate_request_limits() {
    assert!(validate_gate_request(&gate("c", &"x".repeat(128), 10)).is_ok());
    assert_eq!(
        validate_gate_request(&gate("c", &"x".repeat(129), 10)),
        Err("label exceeds 128 bytes".to_string())
    );
    assert_eq!(
        validate_gate_request(&gate("c", "l", 1_000_001)),
        Err("amount exceeds 1000000 cents".to_string())
    );
    assert!(validate_amount(1_000_000).is_ok());
    // multi-byte characters count by bytes
    assert!(validate_gate_request(&gate("c", &"é".repeat(65), 1)).is_err());
}

#[test]
fn check_gate_answers_live_sequence() {
    let r = check_gate(&gate("x", "resume-rewrite", 25), Some(&TENANT), (500, 50), 0).unwrap();
    assert!(r.allowed);
    assert_eq!(r.label, "resume-rewrite");
    assert_eq!(r.caller_key, "did:bound:5db3681df85b9a698777a5aa603329da86cdb5dc");
    assert_eq!(r.session_spent_cents, 0);
    assert_eq!(r.session_budget_cents, 500);
    assert_eq!(r.session_remaining_cents, 500);
    assert_eq!(r.reason, "under budget");

    let r = check_gate(&gate("x", "video-render", 70), Some(&TENANT), (500, 50), 0).unwrap();
    assert!(!r.allowed);
    assert_eq!(r.reason, "amount 70 exceeds per-call cap 50");

    let r = check_gate(&gate("x", "third", 400), Some(&TENANT), (500, 50), 50).unwrap();
    assert!(!r.allowed);
    assert_eq!(r.session_remaining_cents, 450);
    assert_eq!(r.reason, "amount 400 exceeds per-call cap 50");
}

#[test]
fn check_gate_rejects_bad_request() {
    let long = gate("x", &"l".repeat(200), 1);
    assert_eq!(check_gate(&long, None, (500, 50), 0).unwrap_err(), "label exceeds 128 bytes");
    let big = gate("x", "l", 2_000_000);
    assert_eq!(check_gate(&big, None, (500, 50), 0).unwrap_err(), "amount exceeds 1000000 cents");
}

#[test]
fn enter_gateway_accrues_spend() {
    // first call: 25c from 0
    let req = gate("x", "resume-rewrite", 25);
    let entry = enter_gateway(&req, (500, 50), 0).unwrap();
    assert!(entry.granted);
    let stored = entry.write.unwrap();
    let after = read_spend(Some(&stored));
    assert_eq!(after, 25);
    let resp = enter_gateway_reply(&req, Some(&TENANT), (500, 50), true, after);
    assert!(resp.granted);
    assert_eq!(resp.spent_cents, 25);
    assert_eq!(resp.session_spent_cents, 25);
    assert_eq!(resp.session_remaining_cents, 475);
    assert_eq!(resp.reason, "toll paid");

    // second call: 25c more
    let req2 = gate("x", "resume-rewrite-second", 25);
    let entry = enter_gateway(&req2, (500, 50), after).unwrap();
    let after = read_spend(Some(&entry.write.unwrap()));
    let resp = enter_gateway_reply(&req2, Some(&TENANT), (500, 50), true, after);
    assert_eq!(resp.session_spent_cents, 50);
    assert_eq!(resp.session_remaining_cents, 450);
}

#[test]
fn enter_gateway_denied_stores_nothing() {
    let req = gate("x", "l", 25);
    let entry = enter_gateway(&req, (500, 50), 490).unwrap();
    assert!(!entry.granted);
    assert!(entry.write.is_none());
    let resp = enter_gateway_reply(&req, None, (500, 50), false, 490);
    assert!(!resp.granted);
    assert_eq!(resp.caller_key, "x-unbound");
    assert_eq!(resp.spent_cents, 0);
    assert_eq!(resp.session_spent_cents, 490);
    assert_eq!(resp.session_remaining_cents, 10);
    assert_eq!(resp.reason, "not enough session budget (490 spent of 500 left: 10)");
}

#[test]
fn pay_for_service_mints_intent() {
    let req = PayReq { caller: "ignored".to_string(), amount_cents: 10, currency: None };
    match pay_for_service(&req, Some(&TENANT), (500, 50), 50).unwrap() {
        Payment::Approved { intent, write } => {
            assert_eq!(intent, "pi_enc_50_60");
            let after = read_spend(Some(&write));
            assert_eq!(after, 60);
            let resp = pay_for_service_reply(&req, Some(&TENANT), (500, 50), intent, after);
            assert!(resp.paid);
            assert_eq!(resp.payment_intent, "pi_enc_50_60");
            assert_eq!(resp.amount_cents, 10);
            assert_eq!(resp.currency, "usd");
            assert_eq!(resp.session_remaining_cents, 440);
            assert_eq!(resp.reason, "toll paid");
        }
        Payment::Declined(_) => panic!("10c within budget must be paid"),
    }
}

#[test]
fn pay_for_service_declines_over_cap() {
    let req = PayReq { caller: "me".to_string(), amount_cents: 70, currency: Some("eur".to_string()) };
    match pay_for_service(&req, None, (500, 50), 0).unwrap() {
        Payment::Declined(resp) => {
            assert!(!resp.paid);
            assert_eq!(resp.caller_key, "me-unbound");
            assert_eq!(resp.payment_intent, "pi_MOCK_DECLINED_INSUFFICIENT_BUDGET");
            assert_eq!(resp.currency, "eur");
            assert_eq!(resp.session_remaining_cents, 500);
            assert_eq!(resp.reason, "gate denied: over cap or over session budget");
        }
        Payment::Approved { .. } => panic!("70c over the 50c cap must be declined"),
    }
    let big = PayReq { caller: "me".to_string(), amount_cents: 1_000_001, currency: None };
    assert_eq!(
        pay_for_service(&big, None, (500, 50), 0).err(),
        Some("amount exceeds 1000000 cents".to_string())
    );
}

#[test]
fn all_gates_agree() {
    for (amount, spent) in [(25u64, 0u64), (70, 0), (50, 450), (51, 0), (10, 495), (5, 495)] {
        let (allowed, _, _) = decide(amount, spent, 500, 50);
        let g = check_gate(&gate("c", "l", amount), None, (500, 50), spent).unwrap();
        let e = enter_gateway(&gate("c", "l", amount), (500, 50), spent).unwrap();
        let p = PayReq { caller: "c".to_string(), amount_cents: amount, currency: None };
        let paid = matches!(pay_for_service(&p, None, (500, 50), spent).unwrap(), Payment::Approved { .. });
        assert_eq!(g.allowed, allowed);
        assert_eq!(e.granted, allowed);
        assert_eq!(paid, allowed);
    }
}

#[test]
fn budget_members_to_values() {
    assert_eq!(budget_from(None, None), (500, 50));
    assert_eq!(budget_from(Some(0), None), (0, 50));
    assert_eq!(budget_from(None, Some(1)), (500, 1));
    assert_eq!(budget_from(Some(7), Some(8)), (7, 8));
}

#[test]
fn unbound_caller_never_gets_a_bound_key() {
    let bound = effective_caller(Some(&[0xab]), "x");
    assert_ne!(effective_caller(None, "did:bound:ab"), bound);
    assert_eq!(effective_caller(None, "did:bound:ab"), "did:bound:ab-unbound");
}

#[test]
fn session_spend_is_sum_of_grants() {
    // live run: 25 + 25 granted, 400 denied, 10 paid
    let mut spent = read_spend(None);
    let mut total = 0u64;
    for amount in [25u64, 70, 25, 400, 10, 50, 50, 50, 50, 50, 50, 50, 50, 50] {
        let (allowed, _, _) = decide(amount, spent, 500, 50);
        if allowed {
            let entry = enter_gateway(&gate("c", "l", amount), (500, 50), spent).unwrap();
            spent = read_spend(Some(&entry.write.unwrap()));
            total += amount;
        }
        assert_eq!(spent, total);
        assert!(spent <= 500);
    }
    assert_eq!(total, 460);
    assert_eq!(decide(0, spent, 500, 50).1, 40);
}
