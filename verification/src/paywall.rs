//! Paywall gate for agent tool calls.
//!
//! A call is granted only when its amount is within the per-call cap and
//! within what is left of the caller's session budget. Session spend is kept
//! per caller in the tenant's store under `spend:<caller>` as a little-endian
//! `u64` of cents; the budget lives under `meta:budget` as JSON
//! `{ session_budget_cents, per_call_cap_cents }` (500 and 50 by default).
//! The caller key comes from the identity the host bound to the call, so no
//! caller can spend from another caller's budget.
use vstd::prelude::*;
use crate::text::{bytes_of, decimal, hex_lower, hex_encode, utf8_len, byte_len, push_decimal, lemma_hex_lower_shape, lemma_hex_lower_injective};
use crate::json::{json_u64_field, json_u64_member};
use crate::le::{spec_le_u64_of, spec_le_u64_bytes, le_u64_of, le_u64_bytes, lemma_le_u64_round_trip};

verus! {

/// Version of the paywall contract.
pub const CONTRACT_VERSION: &'static str = "0.2.0";

/// Upper bound any caller can ask for in a single priced call.
pub const MAX_CALL_CENTS: u64 = 1_000_000;

/// Upper bound on the label field echoed into logs and responses.
pub const MAX_LABEL_BYTES: usize = 128;

/// Session budget when the tenant configured none.
pub const DEFAULT_SESSION_BUDGET_CENTS: u64 = 500;

/// Per-call cap when the tenant configured none.
pub const DEFAULT_PER_CALL_CAP_CENTS: u64 = 50;

/// A `check-gate` or `enter-gateway` request.
#[derive(Debug, Clone)]
pub struct GateReq {
    pub caller: String,
    pub label: String,
    pub amount_cents: u64,
}

/// A `pay-for-service` request.
#[derive(Debug, Clone)]
pub struct PayReq {
    pub caller: String,
    pub amount_cents: u64,
    pub currency: Option<String>,
}

/// The answer to `check-gate`.
#[derive(Debug, Clone)]
pub struct GateResp {
    pub allowed: bool,
    pub label: String,
    pub caller_key: String,
    pub session_spent_cents: u64,
    pub session_budget_cents: u64,
    pub session_remaining_cents: u64,
    pub reason: String,
}

/// The answer to `enter-gateway`.
#[derive(Debug, Clone)]
pub struct EnterGatewayResp {
    pub granted: bool,
    pub label: String,
    pub caller_key: String,
    pub spent_cents: u64,
    pub session_spent_cents: u64,
    pub session_remaining_cents: u64,
    pub reason: String,
}

/// The answer to `pay-for-service`.
#[derive(Debug, Clone)]
pub struct PayForServiceResp {
    pub paid: bool,
    pub caller_key: String,
    pub payment_intent: String,
    pub amount_cents: u64,
    pub currency: String,
    pub session_remaining_cents: u64,
    pub reason: String,
}

/// The decision of `enter-gateway`, and when granted the new session spend to
/// store under the caller's spend key.
#[derive(Debug, Clone)]
pub struct GatewayEntry {
    pub granted: bool,
    pub write: Option<Vec<u8>>,
}

/// The decision of `pay-for-service`: declined with its answer, or approved
/// with the minted intent and the new session spend to store under the
/// caller's spend key.
#[derive(Debug, Clone)]
pub enum Payment {
    Declined(PayForServiceResp),
    Approved { intent: String, write: Vec<u8> },
}

/// Name of the tenant's gate map.
pub open spec fn spec_map_name(tenant_did: Seq<u8>) -> Seq<char> {
    "z:"@ + hex_lower(tenant_did) + ":gate"@
}

/// The spend key of a caller: the identity the host bound to the call where
/// there is one, else the supplied caller tagged as unbound.
pub open spec fn spec_effective_caller(bound_did: Option<Seq<u8>>, supplied: Seq<char>) -> Seq<char> {
    match bound_did {
        Some(did) => "did:bound:"@ + hex_lower(did),
        None => supplied + "-unbound"@,
    }
}

/// The storage key of a caller's session spend.
pub open spec fn spec_spend_key(caller: Seq<char>) -> Seq<char> {
    "spend:"@ + caller
}

/// The `(session budget, per-call cap)` that the stored budget document holds;
/// an absent document or member gives the default; `None` where the document
/// is not JSON.
pub open spec fn spec_budget(stored: Option<Seq<u8>>) -> Option<(u64, u64)> {
    match stored {
        None => Some((DEFAULT_SESSION_BUDGET_CENTS, DEFAULT_PER_CALL_CAP_CENTS)),
        Some(bytes) => match (
            json_u64_member(bytes, "session_budget_cents"@),
            json_u64_member(bytes, "per_call_cap_cents"@),
        ) {
            (Some(sb), Some(pc)) => Some(
                (sb.unwrap_or(DEFAULT_SESSION_BUDGET_CENTS), pc.unwrap_or(DEFAULT_PER_CALL_CAP_CENTS)),
            ),
            _ => None,
        },
    }
}

/// The session spend that a stored spend record holds: zero when absent, else
/// the little-endian value of its first (at most) eight bytes.
pub open spec fn spec_read_spend(stored: Option<Seq<u8>>) -> u64 {
    match stored {
        None => 0,
        Some(bytes) => spec_le_u64_of(bytes),
    }
}

/// The stored form of a session spend.
pub open spec fn spec_write_spend(cents: u64) -> Seq<u8> {
    spec_le_u64_bytes(cents)
}

/// What is left of the session budget.
pub open spec fn spec_remaining(spent: u64, session_budget: u64) -> u64 {
    session_budget.saturating_sub(spent)
}

/// The paywall decision: within the per-call cap, within what is left of the
/// session budget, and the session budget not exhausted.
pub open spec fn spec_allowed(amount: u64, spent: u64, session_budget: u64, per_call_cap: u64) -> bool {
    let remaining = spec_remaining(spent, session_budget);
    amount <= per_call_cap && amount <= remaining && remaining != 0
}

/// The reason given with a paywall decision.
pub open spec fn spec_reason(amount: u64, spent: u64, session_budget: u64, per_call_cap: u64) -> Seq<char> {
    let remaining = spec_remaining(spent, session_budget);
    if amount > per_call_cap {
        "amount "@ + decimal(amount as nat) + " exceeds per-call cap "@ + decimal(per_call_cap as nat)
    } else if amount > remaining || remaining == 0 {
        "not enough session budget ("@ + decimal(spent as nat) + " spent of "@ + decimal(
            session_budget as nat,
        ) + " left: "@ + decimal(remaining as nat) + ")"@
    } else {
        "under budget"@
    }
}

/// Whether a label is short enough.
pub open spec fn label_fits(label: Seq<char>) -> bool {
    utf8_len(label) <= MAX_LABEL_BYTES
}

/// The error for an over-long label.
pub open spec fn label_too_long_message() -> Seq<char> {
    "label exceeds "@ + decimal(MAX_LABEL_BYTES as nat) + " bytes"@
}

/// The error for an amount above `MAX_CALL_CENTS`.
pub open spec fn amount_too_large_message() -> Seq<char> {
    "amount exceeds "@ + decimal(MAX_CALL_CENTS as nat) + " cents"@
}

/// The error a gate request gets, if any: first an over-long label, then an
/// amount above `MAX_CALL_CENTS`.
pub open spec fn gate_request_error(req: GateReq) -> Option<Seq<char>> {
    if !label_fits(req.label@) {
        Some(label_too_long_message())
    } else if req.amount_cents > MAX_CALL_CENTS {
        Some(amount_too_large_message())
    } else {
        None
    }
}

/// The payment intent minted for an approved payment.
pub open spec fn spec_intent(caller_key: Seq<char>, spent: u64, amount: u64) -> Seq<char> {
    "pi_enc_"@ + decimal(utf8_len(caller_key) as nat) + "_"@ + decimal((spent + amount) as nat)
}

/// The currency of a payment: `usd` unless the request names one.
pub open spec fn spec_currency(currency: Option<String>) -> Seq<char> {
    match currency {
        Some(c) => c@,
        None => "usd"@,
    }
}

/// Name of the tenant's gate map: `z:<hex of tenant DID>:gate`.
pub fn map_name(tenant_did: &[u8]) -> (name: String)
    ensures
        name@ == spec_map_name(tenant_did@),
{
    let mut name = String::from_str("z:");
    let hex = hex_encode(tenant_did);
    name.append(hex.as_str());
    name.append(":gate");
    name
}

/// The effective caller key. Prefers the host-bound caller DID
/// (`did:bound:<hex>`); falls back to the client-supplied string only when no
/// user context exists, tagged `-unbound` so abuse is auditable.
pub fn effective_caller(bound_did: Option<&[u8]>, supplied: &str) -> (key: String)
    ensures
        key@ == spec_effective_caller(bytes_of(bound_did), supplied@),
{
    match bound_did {
        Some(did) => {
            let mut key = String::from_str("did:bound:");
            let hex = hex_encode(did);
            key.append(hex.as_str());
            key
        },
        None => {
            let mut key = String::from_str(supplied);
            key.append("-unbound");
            key
        },
    }
}

/// The storage key of a caller's session spend: `spend:<caller>`.
pub fn spend_key(caller: &str) -> (skey: String)
    ensures
        skey@ == spec_spend_key(caller@),
{
    let mut skey = String::from_str("spend:");
    skey.append(caller);
    skey
}

/// The `(session budget, per-call cap)` given the configured members (`None`
/// for a member that is absent or not an unsigned integer): defaults 500 and
/// 50 for what is missing.
pub fn budget_from(session_budget: Option<u64>, per_call_cap: Option<u64>) -> (b: (u64, u64))
    ensures
        b == (
            session_budget.unwrap_or(DEFAULT_SESSION_BUDGET_CENTS),
            per_call_cap.unwrap_or(DEFAULT_PER_CALL_CAP_CENTS),
        ),
{
    let sb = match session_budget {
        Some(v) => v,
        None => DEFAULT_SESSION_BUDGET_CENTS,
    };
    let pc = match per_call_cap {
        Some(v) => v,
        None => DEFAULT_PER_CALL_CAP_CENTS,
    };
    (sb, pc)
}

/// The `(session budget, per-call cap)` from the document stored under
/// `meta:budget` (`None` when the key is absent): defaults 500 and 50 for an
/// absent document or member, the parser's error text when it is not JSON.
pub fn budget(stored: Option<&[u8]>) -> (res: Result<(u64, u64), String>)
    ensures
        res is Ok <==> spec_budget(bytes_of(stored)) is Some,
        res matches Ok(b) ==> spec_budget(bytes_of(stored)) == Some(b),
{
    match stored {
        None => Ok((DEFAULT_SESSION_BUDGET_CENTS, DEFAULT_PER_CALL_CAP_CENTS)),
        Some(bytes) => {
            let sb = json_u64_field(bytes, "session_budget_cents")?;
            let pc = json_u64_field(bytes, "per_call_cap_cents")?;
            Ok(budget_from(sb, pc))
        },
    }
}

/// The session spend of a stored spend record (`None` when the key is
/// absent): zero when absent, else the little-endian value of its first (at
/// most) eight bytes.
pub fn read_spend(stored: Option<&[u8]>) -> (spent: u64)
    ensures
        spent == spec_read_spend(bytes_of(stored)),
{
    match stored {
        None => 0,
        Some(bytes) => le_u64_of(bytes),
    }
}

/// The stored form of a session spend: its eight little-endian bytes.
pub fn write_spend(cents: u64) -> (bytes: Vec<u8>)
    ensures
        bytes@ == spec_write_spend(cents),
        bytes@.len() == 8,
{
    le_u64_bytes(cents)
}

/// What a spend record holds is what was written: reading back the stored
/// form of a session spend gives that spend.
pub proof fn lemma_spend_round_trip(cents: u64)
    ensures
        spec_read_spend(Some(spec_write_spend(cents))) == cents,
{
    lemma_le_u64_round_trip(cents);
}

/// The decision shared by every gate path: `(allowed, remaining,
/// reason)`. A call is allowed only within the per-call cap, within what is
/// left of the session budget, and while the session budget is not exhausted;
/// a call within the cap but not within the session budget (or with the
/// budget used up) is refused with the session figures in its reason.
pub fn decide(amount: u64, spent: u64, session_budget: u64, per_call_cap: u64) -> (res: (
    bool,
    u64,
    String,
))
    ensures
        res.0 == spec_allowed(amount, spent, session_budget, per_call_cap),
        res.1 == spec_remaining(spent, session_budget),
        res.2@ == spec_reason(amount, spent, session_budget, per_call_cap),
{
    let remaining = session_budget.saturating_sub(spent);
    if amount > per_call_cap {
        let mut reason = String::from_str("amount ");
        push_decimal(&mut reason, amount);
        reason.append(" exceeds per-call cap ");
        push_decimal(&mut reason, per_call_cap);
        (false, remaining, reason)
    } else if amount > remaining || remaining == 0 {
        let mut reason = String::from_str("not enough session budget (");
        push_decimal(&mut reason, spent);
        reason.append(" spent of ");
        push_decimal(&mut reason, session_budget);
        reason.append(" left: ");
        push_decimal(&mut reason, remaining);
        reason.append(")");
        (false, remaining, reason)
    } else {
        (true, remaining, String::from_str("under budget"))
    }
}

/// A granted call stays within both limits: its amount is within the
/// per-call cap, and the session spend after it is within the session budget.
pub proof fn lemma_granted_within_budget(amount: u64, spent: u64, session_budget: u64, per_call_cap: u64)
    requires
        spec_allowed(amount, spent, session_budget, per_call_cap),
    ensures
        amount <= per_call_cap,
        spent + amount <= session_budget,
        spec_remaining((spent + amount) as u64, session_budget) == spec_remaining(spent, session_budget)
            - amount,
{
}

/// A call over the per-call cap is denied whatever the session headroom, with
/// the cap named in the reason.
pub proof fn lemma_over_cap_denied(amount: u64, spent: u64, session_budget: u64, per_call_cap: u64)
    requires
        amount > per_call_cap,
    ensures
        !spec_allowed(amount, spent, session_budget, per_call_cap),
        spec_reason(amount, spent, session_budget, per_call_cap) == "amount "@ + decimal(
            amount as nat,
        ) + " exceeds per-call cap "@ + decimal(per_call_cap as nat),
{
}

/// Callers bound to different identities never share a spend key, whatever
/// caller strings they supply.
pub proof fn lemma_bound_callers_isolated(did1: Seq<u8>, supplied1: Seq<char>, did2: Seq<u8>, supplied2: Seq<char>)
    requires
        spec_effective_caller(Some(did1), supplied1) == spec_effective_caller(Some(did2), supplied2),
    ensures
        did1 == did2,
{
    reveal_strlit("did:bound:");
    let p = "did:bound:"@;
    let x = p + hex_lower(did1);
    let y = p + hex_lower(did2);
    assert(hex_lower(did1) =~= x.subrange(p.len() as int, x.len() as int));
    assert(hex_lower(did2) =~= y.subrange(p.len() as int, y.len() as int));
    lemma_hex_lower_injective(did1, did2);
}

/// Where the host bound an identity to the call, the supplied caller string
/// plays no part in the spend key: nobody can spend from another caller's
/// budget by naming it.
pub proof fn lemma_bound_caller_ignores_supplied(did: Seq<u8>, supplied1: Seq<char>, supplied2: Seq<char>)
    ensures
        spec_effective_caller(Some(did), supplied1) == spec_effective_caller(Some(did), supplied2),
{
}

/// Checks a gate request: the label is at most `MAX_LABEL_BYTES` bytes and
/// the amount at most `MAX_CALL_CENTS`.
pub fn validate_gate_request(req: &GateReq) -> (res: Result<(), String>)
    ensures
        res is Ok <==> gate_request_error(*req) is None,
        res matches Err(e) ==> gate_request_error(*req) == Some(e@),
{
    if byte_len(&req.label) > MAX_LABEL_BYTES {
        let mut e = String::from_str("label exceeds ");
        push_decimal(&mut e, MAX_LABEL_BYTES as u64);
        e.append(" bytes");
        return Err(e);
    }
    validate_amount(req.amount_cents)
}

/// Checks a priced amount: at most `MAX_CALL_CENTS`.
pub fn validate_amount(amount_cents: u64) -> (res: Result<(), String>)
    ensures
        res is Ok <==> amount_cents <= MAX_CALL_CENTS,
        res matches Err(e) ==> e@ == amount_too_large_message(),
{
    if amount_cents > MAX_CALL_CENTS {
        let mut e = String::from_str("amount exceeds ");
        push_decimal(&mut e, MAX_CALL_CENTS);
        e.append(" cents");
        Err(e)
    } else {
        Ok(())
    }
}

/// Answers `check-gate` without spending: whether the call would be allowed.
/// `budget` is what `budget` gave for the document under `meta:budget`,
/// `spent` what `read_spend` gave for the record under
/// `spend_key(effective_caller(bound_did, req.caller))`.
pub fn check_gate(req: &GateReq, bound_did: Option<&[u8]>, budget: (u64, u64), spent: u64) -> (res:
    Result<GateResp, String>)
    ensures
        res is Err <==> gate_request_error(*req) is Some,
        res matches Err(e) ==> gate_request_error(*req) == Some(e@),
        res matches Ok(r) ==> {
            &&& r.allowed == spec_allowed(req.amount_cents, spent, budget.0, budget.1)
            &&& r.label@ == req.label@
            &&& r.caller_key@ == spec_effective_caller(bytes_of(bound_did), req.caller@)
            &&& r.session_spent_cents == spent
            &&& r.session_budget_cents == budget.0
            &&& r.session_remaining_cents == spec_remaining(spent, budget.0)
            &&& r.reason@ == spec_reason(req.amount_cents, spent, budget.0, budget.1)
        },
{
    validate_gate_request(req)?;
    let (session_budget, per_call_cap) = budget;
    let caller_key = effective_caller(bound_did, req.caller.as_str());
    let (allowed, remaining, reason) = decide(req.amount_cents, spent, session_budget, per_call_cap);
    Ok(GateResp {
        allowed,
        label: req.label.clone(),
        caller_key,
        session_spent_cents: spent,
        session_budget_cents: session_budget,
        session_remaining_cents: remaining,
        reason,
    })
}

/// Decides `enter-gateway` on the same gate as `check-gate`; when granted,
/// hands back the new session spend to store under the caller's spend key.
/// `budget` and `spent` are as for `check_gate`.
pub fn enter_gateway(req: &GateReq, budget: (u64, u64), spent: u64) -> (res: Result<GatewayEntry, String>)
    ensures
        res is Err <==> gate_request_error(*req) is Some,
        res matches Err(e) ==> gate_request_error(*req) == Some(e@),
        res matches Ok(entry) ==> {
            &&& entry.granted == spec_allowed(req.amount_cents, spent, budget.0, budget.1)
            &&& (entry.write is Some <==> entry.granted)
            &&& entry.write matches Some(bytes) ==> bytes@ == spec_write_spend(
                (spent + req.amount_cents) as u64,
            )
        },
{
    validate_gate_request(req)?;
    let (session_budget, per_call_cap) = budget;
    let (granted, _, _) = decide(req.amount_cents, spent, session_budget, per_call_cap);
    let write = if granted {
        Some(write_spend(spent + req.amount_cents))
    } else {
        None
    };
    Ok(GatewayEntry { granted, write })
}

/// Answers `enter-gateway` once the decision is settled: `spent_after` is what
/// `read_spend` gives for the caller's spend record after the write (if any).
/// A denied call gets the paywall reason at `spent_after`.
pub fn enter_gateway_reply(
    req: &GateReq,
    bound_did: Option<&[u8]>,
    budget: (u64, u64),
    granted: bool,
    spent_after: u64,
) -> (r: EnterGatewayResp)
    ensures
        r.granted == granted,
        r.label@ == req.label@,
        r.caller_key@ == spec_effective_caller(bytes_of(bound_did), req.caller@),
        r.spent_cents == if granted {
            req.amount_cents
        } else {
            0
        },
        r.session_spent_cents == spent_after,
        r.session_remaining_cents == spec_remaining(spent_after, budget.0),
        r.reason@ == if granted {
            "toll paid"@
        } else {
            spec_reason(req.amount_cents, spent_after, budget.0, budget.1)
        },
{
    let (session_budget, per_call_cap) = budget;
    let caller_key = effective_caller(bound_did, req.caller.as_str());
    let (_, _, reason) = decide(req.amount_cents, spent_after, session_budget, per_call_cap);
    EnterGatewayResp {
        granted,
        label: req.label.clone(),
        caller_key,
        spent_cents: if granted {
            req.amount_cents
        } else {
            0
        },
        session_spent_cents: spent_after,
        session_remaining_cents: session_budget.saturating_sub(spent_after),
        reason: if granted {
            String::from_str("toll paid")
        } else {
            reason
        },
    }
}

fn currency_of(currency: &Option<String>) -> (c: String)
    ensures
        c@ == spec_currency(*currency),
{
    match currency {
        Some(c) => c.clone(),
        None => String::from_str("usd"),
    }
}

/// Decides `pay-for-service` on the same gate as the other two paths. A
/// declined payment is answered at once and stores nothing; an approved one
/// mints the intent `pi_enc_<caller key length>_<spend after>` and hands back
/// the new session spend to store under the caller's spend key. `budget` and
/// `spent` are as for `check_gate`.
pub fn pay_for_service(req: &PayReq, bound_did: Option<&[u8]>, budget: (u64, u64), spent: u64) -> (res:
    Result<Payment, String>)
    ensures
        res is Err <==> req.amount_cents > MAX_CALL_CENTS,
        res matches Err(e) ==> e@ == amount_too_large_message(),
        res matches Ok(p) ==> {
            let caller_key = spec_effective_caller(bytes_of(bound_did), req.caller@);
            match p {
                Payment::Declined(r) => {
                    &&& !spec_allowed(req.amount_cents, spent, budget.0, budget.1)
                    &&& !r.paid
                    &&& r.caller_key@ == caller_key
                    &&& r.payment_intent@ == "pi_MOCK_DECLINED_INSUFFICIENT_BUDGET"@
                    &&& r.amount_cents == req.amount_cents
                    &&& r.currency@ == spec_currency(req.currency)
                    &&& r.session_remaining_cents == spec_remaining(spent, budget.0)
                    &&& r.reason@ == "gate denied: over cap or over session budget"@
                },
                Payment::Approved { intent, write } => {
                    &&& spec_allowed(req.amount_cents, spent, budget.0, budget.1)
                    &&& intent@ == spec_intent(caller_key, spent, req.amount_cents)
                    &&& intent@ == "pi_enc_"@ + decimal(utf8_len(caller_key) as nat) + "_"@ + decimal(
                        (spent + req.amount_cents) as nat,
                    )
                    &&& write@ == spec_write_spend((spent + req.amount_cents) as u64)
                },
            }
        },
{
    validate_amount(req.amount_cents)?;
    let (session_budget, per_call_cap) = budget;
    let caller_key = effective_caller(bound_did, req.caller.as_str());
    let currency = currency_of(&req.currency);
    let (allowed, _, _) = decide(req.amount_cents, spent, session_budget, per_call_cap);
    if !allowed {
        return Ok(
            Payment::Declined(
                PayForServiceResp {
                    paid: false,
                    caller_key,
                    payment_intent: String::from_str("pi_MOCK_DECLINED_INSUFFICIENT_BUDGET"),
                    amount_cents: req.amount_cents,
                    currency,
                    session_remaining_cents: session_budget.saturating_sub(spent),
                    reason: String::from_str("gate denied: over cap or over session budget"),
                },
            ),
        );
    }
    let total = spent + req.amount_cents;
    let mut intent = String::from_str("pi_enc_");
    push_decimal(&mut intent, byte_len(&caller_key) as u64);
    intent.append("_");
    push_decimal(&mut intent, total);
    Ok(Payment::Approved { intent, write: write_spend(total) })
}

/// Answers an approved `pay-for-service` once the spend is stored:
/// `spent_after` is what `read_spend` gives for the caller's spend record
/// after the write.
pub fn pay_for_service_reply(
    req: &PayReq,
    bound_did: Option<&[u8]>,
    budget: (u64, u64),
    intent: String,
    spent_after: u64,
) -> (r: PayForServiceResp)
    ensures
        r.paid,
        r.caller_key@ == spec_effective_caller(bytes_of(bound_did), req.caller@),
        r.payment_intent@ == intent@,
        r.amount_cents == req.amount_cents,
        r.currency@ == spec_currency(req.currency),
        r.session_remaining_cents == spec_remaining(spent_after, budget.0),
        r.reason@ == "toll paid"@,
{
    PayForServiceResp {
        paid: true,
        caller_key: effective_caller(bound_did, req.caller.as_str()),
        payment_intent: intent,
        amount_cents: req.amount_cents,
        currency: currency_of(&req.currency),
        session_remaining_cents: budget.0.saturating_sub(spent_after),
        reason: String::from_str("toll paid"),
    }
}

/// A granted call accrues exactly its amount: the spend it stores reads back
/// as the spend before plus the amount, and what is left of the session
/// budget drops by the amount.
pub proof fn lemma_grant_accrues(amount: u64, spent: u64, session_budget: u64, per_call_cap: u64)
    requires
        spec_allowed(amount, spent, session_budget, per_call_cap),
    ensures
        spec_read_spend(Some(spec_write_spend((spent + amount) as u64))) == spent + amount,
        spec_remaining((spent + amount) as u64, session_budget) == spec_remaining(spent, session_budget)
            - amount,
        spec_remaining((spent + amount) as u64, session_budget) < spec_remaining(spent, session_budget)
            || amount == 0,
{
    lemma_spend_round_trip((spent + amount) as u64);
}

/// A caller with no bound identity never shares a spend key with a bound
/// caller: bound keys hold no hyphen, unbound keys end in `-unbound`.
pub proof fn lemma_bound_unbound_callers_disjoint(did: Seq<u8>, supplied1: Seq<char>, supplied2: Seq<char>)
    ensures
        spec_effective_caller(Some(did), supplied1) != spec_effective_caller(None, supplied2),
{
    reveal_strlit("did:bound:");
    reveal_strlit("-unbound");
    lemma_hex_lower_shape(did);
    let p = "did:bound:"@;
    let x = spec_effective_caller(Some(did), supplied1);
    let y = spec_effective_caller(None, supplied2);
    let i = supplied2.len() as int;
    assert(y[i] == '-');
    if x.len() == y.len() {
        if i < p.len() {
            assert(x[i] == p[i]);
        } else {
            assert(x[i] == hex_lower(did)[i - p.len()]);
        }
    }
}

/// The session spend after a run of gate calls asking for `amounts` in turn,
/// starting from no stored spend: each call is granted on the paywall
/// decision at the spend before it, and a granted call adds its amount.
pub open spec fn session_spend(amounts: Seq<u64>, session_budget: u64, per_call_cap: u64) -> u64
    decreases amounts.len(),
{
    if amounts.len() == 0 {
        0
    } else {
        let spent = session_spend(amounts.drop_last(), session_budget, per_call_cap);
        let amount = amounts.last();
        if spec_allowed(amount, spent, session_budget, per_call_cap) {
            (spent + amount) as u64
        } else {
            spent
        }
    }
}

/// The sum of the amounts granted in a run of gate calls asking for `amounts`.
pub open spec fn granted_total(amounts: Seq<u64>, session_budget: u64, per_call_cap: u64) -> nat
    decreases amounts.len(),
{
    if amounts.len() == 0 {
        0
    } else {
        let spent = session_spend(amounts.drop_last(), session_budget, per_call_cap);
        let amount = amounts.last();
        granted_total(amounts.drop_last(), session_budget, per_call_cap) + if spec_allowed(
            amount,
            spent,
            session_budget,
            per_call_cap,
        ) {
            amount as nat
        } else {
            0
        }
    }
}

/// Over any run of gate calls from no stored spend, the stored spend is the
/// sum of the granted amounts, never above the session budget, what is left
/// is the budget less that sum, and the stored record reads back as that
/// spend.
pub proof fn lemma_session_spend_is_sum_of_grants(amounts: Seq<u64>, session_budget: u64, per_call_cap: u64)
    ensures
        session_spend(amounts, session_budget, per_call_cap) == granted_total(
            amounts,
            session_budget,
            per_call_cap,
        ),
        session_spend(amounts, session_budget, per_call_cap) <= session_budget,
        spec_remaining(session_spend(amounts, session_budget, per_call_cap), session_budget)
            == session_budget - granted_total(amounts, session_budget, per_call_cap),
        spec_read_spend(Some(spec_write_spend(session_spend(amounts, session_budget, per_call_cap))))
            == session_spend(amounts, session_budget, per_call_cap),
    decreases amounts.len(),
{
    if amounts.len() > 0 {
        lemma_session_spend_is_sum_of_grants(amounts.drop_last(), session_budget, per_call_cap);
    }
    lemma_spend_round_trip(session_spend(amounts, session_budget, per_call_cap));
}

/// The paywall decision in plain arithmetic, for every configured budget and
/// cap: a call is allowed exactly when its amount is within the per-call cap,
/// the caller has spent less than the session budget, and the amount fits in
/// what is left of it.
pub proof fn lemma_allowed_exactly_within_limits(amount: u64, spent: u64, session_budget: u64, per_call_cap: u64)
    ensures
        spec_allowed(amount, spent, session_budget, per_call_cap) <==> (amount <= per_call_cap && spent
            < session_budget && spent + amount <= session_budget),
{
}

/// What is left of the session budget is the budget less the spend, and
/// nothing once the spend reaches the budget.
pub proof fn lemma_remaining_is_headroom(spent: u64, session_budget: u64)
    ensures
        spent <= session_budget ==> spec_remaining(spent, session_budget) == session_budget - spent,
        spent >= session_budget ==> spec_remaining(spent, session_budget) == 0,
{
}

/// The reason agrees with the decision: an allowed call is "under budget"; a
/// call within the cap that is denied names the spend, the budget and what
/// is left of it.
pub proof fn lemma_reason_follows_decision(amount: u64, spent: u64, session_budget: u64, per_call_cap: u64)
    ensures
        amount <= per_call_cap && spent < session_budget && spent + amount <= session_budget
            ==> spec_reason(amount, spent, session_budget, per_call_cap) == "under budget"@,
        amount <= per_call_cap && !(spent < session_budget && spent + amount <= session_budget)
            ==> spec_reason(amount, spent, session_budget, per_call_cap) == "not enough session budget ("@
            + decimal(spent as nat) + " spent of "@ + decimal(session_budget as nat) + " left: "@
            + decimal(if spent <= session_budget { (session_budget - spent) as nat } else { 0 })
            + ")"@,
{
}

/// Each member of the budget document is read on its own: the session budget
/// is the configured one whenever it is configured (else 500), and the
/// per-call cap is the configured one whenever it is configured (else 50),
/// whatever the other member holds. With no document the defaults hold.
pub proof fn lemma_budget_members_independent(doc: Seq<u8>)
    ensures
        spec_budget(None) == Some((500u64, 50u64)),
        json_u64_member(doc, "session_budget_cents"@) is Some && json_u64_member(
            doc,
            "per_call_cap_cents"@,
        ) is Some ==> spec_budget(Some(doc)) is Some,
        json_u64_member(doc, "session_budget_cents"@) is None || json_u64_member(
            doc,
            "per_call_cap_cents"@,
        ) is None ==> spec_budget(Some(doc)) is None,
        forall|n: u64|
            json_u64_member(doc, "session_budget_cents"@) == Some(Some(n)) && json_u64_member(
                doc,
                "per_call_cap_cents"@,
            ) is Some ==> spec_budget(Some(doc)).unwrap().0 == n,
        json_u64_member(doc, "session_budget_cents"@) == Some(None::<u64>) && json_u64_member(
            doc,
            "per_call_cap_cents"@,
        ) is Some ==> spec_budget(Some(doc)).unwrap().0 == 500,
        forall|c: u64|
            json_u64_member(doc, "per_call_cap_cents"@) == Some(Some(c)) && json_u64_member(
                doc,
                "session_budget_cents"@,
            ) is Some ==> spec_budget(Some(doc)).unwrap().1 == c,
        json_u64_member(doc, "per_call_cap_cents"@) == Some(None::<u64>) && json_u64_member(
            doc,
            "session_budget_cents"@,
        ) is Some ==> spec_budget(Some(doc)).unwrap().1 == 50,
{
}

/// An intent is `pi_enc_`, the byte length of the caller key in decimal, `_`,
/// and the spend after the payment in decimal: its first number is fixed by
/// the caller key alone and its second by the spend alone.
pub proof fn lemma_intent_parts(caller_key: Seq<char>, spent: u64, amount: u64)
    ensures
        ({
            let head = "pi_enc_"@ + decimal(utf8_len(caller_key) as nat) + "_"@;
            let intent = spec_intent(caller_key, spent, amount);
            &&& intent.subrange(0, head.len() as int) == head
            &&& intent.subrange(head.len() as int, intent.len() as int) == decimal((spent + amount) as nat)
        }),
{
    let head = "pi_enc_"@ + decimal(utf8_len(caller_key) as nat) + "_"@;
    let intent = spec_intent(caller_key, spent, amount);
    assert(intent =~= head + decimal((spent + amount) as nat));
    assert(intent.subrange(0, head.len() as int) =~= head);
    assert(intent.subrange(head.len() as int, intent.len() as int) =~= decimal((spent + amount) as nat));
}

/// The first number of an intent does not depend on the spend: two payments
/// by one caller share everything up to the spend.
pub proof fn lemma_intent_head_independent_of_spend(caller_key: Seq<char>, spent1: u64, amount1: u64, spent2: u64, amount2: u64)
    ensures
        ({
            let n = ("pi_enc_"@ + decimal(utf8_len(caller_key) as nat) + "_"@).len() as int;
            spec_intent(caller_key, spent1, amount1).subrange(0, n) == spec_intent(
                caller_key,
                spent2,
                amount2,
            ).subrange(0, n)
        }),
{
    lemma_intent_parts(caller_key, spent1, amount1);
    lemma_intent_parts(caller_key, spent2, amount2);
}

} // verus!
