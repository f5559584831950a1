//! Per-caller usage quota counters.
//!
//! Counters live in the tenant's store under `counter:<key>` as JSON
//! `{ used, limit }`; an optional `{ ceiling }` document bounds the limit that
//! a first-touch caller may ask for. A consume that would take a counter past
//! its limit is refused and leaves the stored counter as it was; a reset sets
//! `used` back to zero and keeps the limit. Counters roll over every 24h: a
//! granted consume stamps the start of the current reset window under
//! `window:<key>` (eight little-endian bytes), and a counter whose stamp is
//! from an earlier window counts from zero; a counter with no stamp counts as
//! current. Counters belong to the caller identity that the host bound to
//! the call, and a caller with no bound identity may not use a key of the
//! bound form, so no caller reaches another caller's counter.
use vstd::prelude::*;
use crate::text::{bytes_of, decimal, hex_lower, hex_encode, utf8_len, byte_len, push_decimal, lemma_hex_lower_shape, lemma_hex_lower_injective};
use crate::json::{json_u64_field, json_u64_member, u64_record_json, record_bytes, ordered_names, plain_chars, name_before};
use crate::le::{spec_le_u64_of, spec_le_u64_bytes, le_u64_of, le_u64_bytes, lemma_le_u64_round_trip};

verus! {

/// Version of the quota counter contract.
pub const CONTRACT_VERSION: &'static str = "0.3.0";

/// Default upper bound on any counter's limit, so a first-touch caller can't
/// grant itself `u32::MAX` and neuter the tenant's quota.
pub const DEFAULT_LIMIT_CEILING: u64 = 100_000;

/// Highest ceiling a tenant may configure.
pub const MAX_LIMIT_CEILING: u64 = 10_000_000;

/// Reset window in seconds: counters roll over every 24h.
pub const RESET_WINDOW_SECS: u64 = 86_400;

/// Upper bound on a caller key length in bytes.
pub const MAX_KEY_BYTES: usize = 256;

/// Upper bound on a single consume amount.
pub const MAX_AMOUNT: u64 = 1_000_000_000;

/// A `check` request: the caller's counter key.
#[derive(Debug, Clone)]
pub struct CheckReq {
    pub key: String,
}

/// A `consume` request: the counter key, the limit that a first touch adopts,
/// and the amount to consume (one when absent).
#[derive(Debug, Clone)]
pub struct ConsumeReq {
    pub key: String,
    pub limit: u32,
    pub amount: Option<u32>,
}

/// A `reset` request: the counter key.
#[derive(Debug, Clone)]
pub struct ResetReq {
    pub key: String,
}

/// The answer to `check`.
#[derive(Debug, Clone)]
pub struct CounterState {
    pub key: String,
    pub quota_map: String,
    pub used: u64,
    pub limit: u64,
    pub remaining: i64,
    /// Unix seconds at which the current reset window started.
    pub reset_epoch_secs: u64,
}

/// The answer to `consume`.
#[derive(Debug, Clone)]
pub struct ConsumeResp {
    pub key: String,
    pub used: u64,
    pub limit: u64,
    pub remaining: i64,
    pub exceeded: bool,
    pub at_limit: bool,
}

/// The answer to `reset`.
#[derive(Debug, Clone)]
pub struct ResetResp {
    pub key: String,
    pub used: u64,
    pub limit: u64,
}

/// What a `consume` answers and, when it was granted, the counter record to
/// store under `counter_key(resp.key)` and the window stamp to store under
/// `window_key(resp.key)`.
#[derive(Debug, Clone)]
pub struct ConsumeOutcome {
    pub resp: ConsumeResp,
    pub write: Option<Vec<u8>>,
    pub window_write: Option<Vec<u8>>,
}

/// What a `reset` answers and the counter record to store under
/// `counter_key(resp.key)`.
#[derive(Debug, Clone)]
pub struct ResetOutcome {
    pub resp: ResetResp,
    pub write: Vec<u8>,
}

/// A stored usage counter: what was used and the limit.
#[derive(Debug, Clone, Copy, PartialEq, Eq)]
pub struct Counter {
    pub used: u64,
    pub limit: u64,
}

/// Name of the tenant's quota map.
pub open spec fn spec_map_name(tenant_did: Seq<u8>) -> Seq<char> {
    "z:"@ + hex_lower(tenant_did) + ":quotas"@
}

/// The counter key of a caller: under the identity the host bound to the
/// call where there is one, else the supplied key tagged as unbound.
pub open spec fn spec_effective_key(bound_did: Option<Seq<u8>>, supplied: Seq<char>) -> Seq<char> {
    match bound_did {
        Some(did) => "u:"@ + hex_lower(did) + ":"@ + supplied,
        None => supplied + "-unbound"@,
    }
}

/// Whether a supplied key has the form of a bound key: it starts with `u:`.
pub open spec fn reserved_for_bound(supplied: Seq<char>) -> bool {
    supplied.len() >= 2 && supplied[0] == 'u' && supplied[1] == ':'
}

/// Whether a supplied key may be used: always under a bound identity, and
/// without one only where it does not have the form of a bound key.
pub open spec fn key_admitted(bound_did: Option<Seq<u8>>, supplied: Seq<char>) -> bool {
    bound_did is Some || !reserved_for_bound(supplied)
}

/// The error for a bound-form key without a bound identity.
pub open spec fn reserved_key_message() -> Seq<char> {
    "an unbound key may not start with u:"@
}

/// The storage key of a counter.
pub open spec fn spec_counter_key(key: Seq<char>) -> Seq<char> {
    "counter:"@ + key
}

/// The ceiling on first-touch limits, from the stored `{ ceiling }` document.
pub open spec fn spec_limit_ceiling(stored: Option<Seq<u8>>) -> u64 {
    match stored {
        Some(bytes) => match json_u64_member(bytes, "ceiling"@) {
            Some(Some(n)) => if n < MAX_LIMIT_CEILING { n } else { MAX_LIMIT_CEILING },
            _ => DEFAULT_LIMIT_CEILING,
        },
        None => DEFAULT_LIMIT_CEILING,
    }
}

/// Start of the reset window that holds `now_secs`.
pub open spec fn spec_reset_epoch(now_secs: u64) -> u64 {
    ((now_secs / RESET_WINDOW_SECS) * RESET_WINDOW_SECS) as u64
}

/// The stored bytes of a counter record.
pub open spec fn counter_record(counter: Counter) -> Seq<u8> {
    record_bytes("limit"@, counter.limit, "used"@, counter.used)
}

/// The counter that a stored counter record holds; an absent record is all
/// zero, as is an absent or non-integer member; `None` where the record is
/// not JSON.
pub open spec fn spec_read_counter(stored: Option<Seq<u8>>) -> Option<Counter> {
    match stored {
        None => Some(Counter { used: 0, limit: 0 }),
        Some(bytes) => match (json_u64_member(bytes, "used"@), json_u64_member(bytes, "limit"@)) {
            (Some(used), Some(limit)) => Some(
                Counter { used: used.unwrap_or(0), limit: limit.unwrap_or(0) },
            ),
            _ => None,
        },
    }
}

/// The storage key of a counter's window stamp.
pub open spec fn spec_window_key(key: Seq<char>) -> Seq<char> {
    "window:"@ + key
}

/// The window start that a stored stamp holds (`None` when there is none):
/// the little-endian value of its first (at most) eight bytes.
pub open spec fn spec_read_window(stored: Option<Seq<u8>>) -> Option<u64> {
    match stored {
        Some(bytes) => Some(spec_le_u64_of(bytes)),
        None => None,
    }
}

/// The stored form of a window stamp.
pub open spec fn spec_window_record(window_start: u64) -> Seq<u8> {
    spec_le_u64_bytes(window_start)
}

/// What a counter has used in the reset window starting at `epoch`, given its
/// window stamp: nothing when stamped in an earlier window; what it stores
/// when stamped in this (or a later) window or not stamped at all.
pub open spec fn spec_current_used(counter: Counter, window_start: Option<u64>, epoch: u64) -> u64 {
    match window_start {
        Some(w) => if w < epoch {
            0
        } else {
            counter.used
        },
        None => counter.used,
    }
}

/// The error for an over-long key.
pub open spec fn key_too_long_message() -> Seq<char> {
    "key exceeds "@ + decimal(MAX_KEY_BYTES as nat) + " bytes"@
}

/// Whether a key is short enough.
pub open spec fn key_fits(key: Seq<char>) -> bool {
    utf8_len(key) <= MAX_KEY_BYTES
}

/// The error a request key gets, if any: first an over-long key, then a
/// bound-form key without a bound identity.
pub open spec fn key_error(bound_did: Option<Seq<u8>>, key: Seq<char>) -> Option<Seq<char>> {
    if !key_fits(key) {
        Some(key_too_long_message())
    } else if !key_admitted(bound_did, key) {
        Some(reserved_key_message())
    } else {
        None
    }
}

/// The amount a consume takes: one when absent, clamped to `1..=MAX_AMOUNT`.
pub open spec fn spec_clamp_amount(amount: Option<u32>) -> u64 {
    let a = match amount {
        Some(a) => a as u64,
        None => 1u64,
    };
    if a < 1 {
        1
    } else if a > MAX_AMOUNT {
        MAX_AMOUNT
    } else {
        a
    }
}

/// The limit a counter works with: the stored one, or on first touch (no
/// stored limit) the requested one bounded by the ceiling.
pub open spec fn spec_adopt_limit(stored_limit: u64, requested: u32, ceiling: u64) -> u64 {
    if stored_limit > 0 {
        stored_limit
    } else if (requested as u64) < ceiling {
        requested as u64
    } else {
        ceiling
    }
}

/// Whether consuming `amount` from a counter at `used` passes `limit`
/// (the sum saturating at `u64::MAX`).
pub open spec fn spec_exceeds(used: u64, amount: u64, limit: u64) -> bool {
    used.saturating_add(amount) > limit
}

/// `used` after a consume of `amount` against `limit`.
pub open spec fn spec_used_after(used: u64, amount: u64, limit: u64) -> u64 {
    if spec_exceeds(used, amount, limit) {
        used
    } else {
        (used + amount) as u64
    }
}

/// Whether the sum in a granted consume would not fit in a `u64`.
pub open spec fn consume_overflows(used: u64, amount: u64, limit: u64) -> bool {
    !spec_exceeds(used, amount, limit) && used + amount > u64::MAX
}

/// Name of the tenant's quota map: `z:<hex of tenant DID>:quotas`.
pub fn map_name(tenant_did: &[u8]) -> (name: String)
    ensures
        name@ == spec_map_name(tenant_did@),
{
    let mut name = String::from_str("z:");
    let hex = hex_encode(tenant_did);
    name.append(hex.as_str());
    name.append(":quotas");
    name
}

/// Whether `supplied` has the form of a bound key.
fn is_reserved_for_bound(supplied: &str) -> (r: bool)
    ensures
        r == reserved_for_bound(supplied@),
{
    supplied.unicode_len() >= 2 && supplied.get_char(0) == 'u' && supplied.get_char(1) == ':'
}

/// The effective counter key. Where the host bound a caller DID to the call,
/// the supplied key is prefixed with that DID so no caller can consume or
/// reset another user's counter; otherwise the supplied key is tagged
/// `-unbound`, and a key of the bound form (`u:...`) is refused.
pub fn effective_key(bound_did: Option<&[u8]>, supplied: &str) -> (res: Result<String, String>)
    ensures
        res is Ok <==> key_admitted(bytes_of(bound_did), supplied@),
        res matches Ok(key) ==> key@ == spec_effective_key(bytes_of(bound_did), supplied@),
        res matches Err(e) ==> e@ == reserved_key_message(),
{
    match bound_did {
        Some(did) => {
            let mut key = String::from_str("u:");
            let hex = hex_encode(did);
            key.append(hex.as_str());
            key.append(":");
            key.append(supplied);
            Ok(key)
        },
        None => {
            if is_reserved_for_bound(supplied) {
                return Err(String::from_str("an unbound key may not start with u:"));
            }
            let mut key = String::from_str(supplied);
            key.append("-unbound");
            Ok(key)
        },
    }
}

/// The storage key of a counter: `counter:<key>`.
pub fn counter_key(key: &str) -> (ckey: String)
    ensures
        ckey@ == spec_counter_key(key@),
{
    let mut ckey = String::from_str("counter:");
    ckey.append(key);
    ckey
}

/// The ceiling on first-touch limits given the configured `ceiling` member
/// (`None` when there is none): the configured value capped at
/// `MAX_LIMIT_CEILING`, else the default.
pub fn ceiling_from(configured: Option<u64>) -> (ceiling: u64)
    ensures
        ceiling == match configured {
            Some(n) => if n < MAX_LIMIT_CEILING { n } else { MAX_LIMIT_CEILING },
            None => DEFAULT_LIMIT_CEILING,
        },
        ceiling <= MAX_LIMIT_CEILING,
{
    match configured {
        Some(n) => if n < MAX_LIMIT_CEILING {
            n
        } else {
            MAX_LIMIT_CEILING
        },
        None => DEFAULT_LIMIT_CEILING,
    }
}

/// The ceiling on first-touch limits, from the stored document under
/// `meta:limit_ceiling` (`None` when the key is absent). A configured ceiling
/// is capped at `MAX_LIMIT_CEILING`; anything unreadable gives the default.
pub fn limit_ceiling(stored: Option<&[u8]>) -> (ceiling: u64)
    ensures
        ceiling == spec_limit_ceiling(bytes_of(stored)),
        ceiling <= MAX_LIMIT_CEILING,
{
    match stored {
        Some(bytes) => match json_u64_field(bytes, "ceiling") {
            Ok(configured) => ceiling_from(configured),
            Err(_) => DEFAULT_LIMIT_CEILING,
        },
        None => DEFAULT_LIMIT_CEILING,
    }
}

/// Unix seconds marking the start of the reset window that holds `now_secs`
/// (cluster clock).
pub fn reset_epoch(now_secs: u64) -> (epoch: u64)
    ensures
        epoch == spec_reset_epoch(now_secs),
        epoch <= now_secs,
        now_secs < epoch + RESET_WINDOW_SECS,
        epoch % RESET_WINDOW_SECS == 0,
{
    let epoch = (now_secs / RESET_WINDOW_SECS) * RESET_WINDOW_SECS;
    proof {
        lemma_reset_epoch_window(now_secs);
    }
    epoch
}

/// The counter given the members of its record (`None` for a member that is
/// absent or not an unsigned integer): zero for what is missing.
pub fn counter_from(used: Option<u64>, limit: Option<u64>) -> (counter: Counter)
    ensures
        counter == (Counter { used: used.unwrap_or(0), limit: limit.unwrap_or(0) }),
{
    Counter {
        used: match used {
            Some(u) => u,
            None => 0,
        },
        limit: match limit {
            Some(l) => l,
            None => 0,
        },
    }
}

proof fn lemma_counter_names_ordered()
    ensures
        ordered_names("limit"@, "used"@),
{
    reveal_strlit("limit");
    reveal_strlit("used");
    reveal_with_fuel(plain_chars, 6);
    reveal_with_fuel(name_before, 2);
}

/// The counter of a stored counter record (`None` when the key is absent):
/// all zero for an absent record, zero for an absent member, and the
/// parser's error text when the record is not JSON. A record that
/// `write_counter` wrote reads back as the counter it was written for.
pub fn read_counter(stored: Option<&[u8]>) -> (res: Result<Counter, String>)
    ensures
        res is Ok <==> spec_read_counter(bytes_of(stored)) is Some,
        res matches Ok(counter) ==> spec_read_counter(bytes_of(stored)) == Some(counter),
        forall|counter: Counter|
            #![trigger counter_record(counter)]
            bytes_of(stored) == Some(counter_record(counter)) ==> res == Ok::<Counter, String>(counter),
{
    proof {
        lemma_counter_names_ordered();
    }
    match stored {
        None => Ok(Counter { used: 0, limit: 0 }),
        Some(bytes) => {
            let used = json_u64_field(bytes, "used")?;
            let limit = json_u64_field(bytes, "limit")?;
            Ok(counter_from(used, limit))
        },
    }
}

/// The counter record to store for `counter`: `{"limit":..,"used":..}`;
/// writing it always succeeds.
pub fn write_counter(counter: Counter) -> (res: Result<Vec<u8>, String>)
    ensures
        res is Ok,
        res matches Ok(bytes) ==> bytes@ == counter_record(counter),
{
    proof {
        lemma_counter_names_ordered();
    }
    u64_record_json("limit", counter.limit, "used", counter.used)
}

/// The storage key of a counter's window stamp: `window:<key>`.
pub fn window_key(key: &str) -> (wkey: String)
    ensures
        wkey@ == spec_window_key(key@),
{
    let mut wkey = String::from_str("window:");
    wkey.append(key);
    wkey
}

/// The window start of a stored stamp (`None` when the key is absent).
pub fn read_window(stored: Option<&[u8]>) -> (window_start: Option<u64>)
    ensures
        window_start == spec_read_window(bytes_of(stored)),
{
    match stored {
        Some(bytes) => Some(le_u64_of(bytes)),
        None => None,
    }
}

/// The stamp to store for a window start: its eight little-endian bytes. It
/// reads back as that window start.
pub fn write_window(window_start: u64) -> (bytes: Vec<u8>)
    ensures
        bytes@ == spec_window_record(window_start),
        spec_read_window(Some(bytes@)) == Some(window_start),
{
    proof {
        lemma_le_u64_round_trip(window_start);
    }
    le_u64_bytes(window_start)
}

/// What `counter`, stamped with `window_start`, has used in the reset window
/// starting at `epoch`.
pub fn current_used(counter: Counter, window_start: Option<u64>, epoch: u64) -> (used: u64)
    ensures
        used == spec_current_used(counter, window_start, epoch),
{
    match window_start {
        Some(w) => if w < epoch {
            0
        } else {
            counter.used
        },
        None => counter.used,
    }
}

/// Checks the key length: at most `MAX_KEY_BYTES` bytes.
pub fn validate_key(key: &String) -> (res: Result<(), String>)
    ensures
        res is Ok <==> key_fits(key@),
        res matches Err(e) ==> e@ == key_too_long_message(),
{
    if byte_len(key) > MAX_KEY_BYTES {
        let mut e = String::from_str("key exceeds ");
        push_decimal(&mut e, MAX_KEY_BYTES as u64);
        e.append(" bytes");
        Err(e)
    } else {
        Ok(())
    }
}

/// Checks a request key and gives its effective counter key: the key length
/// first, then a bound-form key without a bound identity.
pub fn request_key(bound_did: Option<&[u8]>, key: &String) -> (res: Result<String, String>)
    ensures
        res is Err <==> key_error(bytes_of(bound_did), key@) is Some,
        res matches Err(e) ==> key_error(bytes_of(bound_did), key@) == Some(e@),
        res matches Ok(k) ==> k@ == spec_effective_key(bytes_of(bound_did), key@),
{
    validate_key(key)?;
    effective_key(bound_did, key.as_str())
}

/// The amount a consume takes: one when absent, clamped to `1..=MAX_AMOUNT`.
pub fn clamp_amount(amount: Option<u32>) -> (a: u64)
    ensures
        a == spec_clamp_amount(amount),
        1 <= a <= MAX_AMOUNT,
{
    let a: u64 = match amount {
        Some(a) => a as u64,
        None => 1,
    };
    if a < 1 {
        1
    } else if a > MAX_AMOUNT {
        MAX_AMOUNT
    } else {
        a
    }
}

/// The limit a counter works with: a stored limit wins; on first touch (no
/// stored limit) the requested limit is adopted, bounded by the ceiling.
pub fn adopt_limit(stored_limit: u64, requested: u32, ceiling: u64) -> (limit: u64)
    ensures
        limit == spec_adopt_limit(stored_limit, requested, ceiling),
        stored_limit > 0 ==> limit == stored_limit,
        stored_limit == 0 ==> limit <= ceiling && limit <= requested,
{
    if stored_limit > 0 {
        stored_limit
    } else if (requested as u64) < ceiling {
        requested as u64
    } else {
        ceiling
    }
}

/// One consume step on a counter at `used` with `limit`: refused (`true`, with
/// `used` unchanged) when `used + amount` passes the limit, else granted with
/// the amount added.
pub fn consume_counter(used: u64, amount: u64, limit: u64) -> (res: (bool, u64))
    requires
        !consume_overflows(used, amount, limit),
    ensures
        res.0 == spec_exceeds(used, amount, limit),
        res.1 == spec_used_after(used, amount, limit),
        res.0 ==> res.1 == used,
        !res.0 ==> res.1 == used + amount && res.1 <= limit,
{
    let exceeded = used.saturating_add(amount) > limit;
    if exceeded {
        (true, used)
    } else {
        (false, used + amount)
    }
}

/// What `consume` answers, before the effective key: `(used, limit, exceeded)`.
pub open spec fn spec_consume(
    req: ConsumeReq,
    ceiling_stored: Option<Seq<u8>>,
    counter: Counter,
    window_start: Option<u64>,
    now_secs: u64,
) -> (u64, u64, bool) {
    let amount = spec_clamp_amount(req.amount);
    let limit = spec_adopt_limit(counter.limit, req.limit, spec_limit_ceiling(ceiling_stored));
    let used = spec_current_used(counter, window_start, spec_reset_epoch(now_secs));
    (spec_used_after(used, amount, limit), limit, spec_exceeds(used, amount, limit))
}

/// The input on which the sum in `consume` would not fit in a `u64`.
pub open spec fn consume_request_overflows(
    req: ConsumeReq,
    ceiling_stored: Option<Seq<u8>>,
    counter: Counter,
    window_start: Option<u64>,
    now_secs: u64,
) -> bool {
    consume_overflows(
        spec_current_used(counter, window_start, spec_reset_epoch(now_secs)),
        spec_clamp_amount(req.amount),
        spec_adopt_limit(counter.limit, req.limit, spec_limit_ceiling(ceiling_stored)),
    )
}

/// What a successful `consume` answers and stores.
pub open spec fn consume_answer(
    req: ConsumeReq,
    bound_did: Option<Seq<u8>>,
    ceiling_stored: Option<Seq<u8>>,
    counter: Counter,
    window_start: Option<u64>,
    now_secs: u64,
    out: ConsumeOutcome,
) -> bool {
    let (used, limit, exceeded) = spec_consume(req, ceiling_stored, counter, window_start, now_secs);
    &&& out.resp.key@ == spec_effective_key(bound_did, req.key@)
    &&& out.resp.used == used
    &&& out.resp.limit == limit
    &&& out.resp.remaining == spec_remaining(used, limit)
    &&& out.resp.exceeded == exceeded
    &&& out.resp.at_limit == (used >= limit)
    &&& (out.write is None <==> exceeded)
    &&& (out.window_write is None <==> exceeded)
    &&& out.write matches Some(bytes) ==> {
        &&& bytes@ == counter_record(Counter { used, limit })
        &&& used <= limit
    }
    &&& out.window_write matches Some(bytes) ==> bytes@ == spec_window_record(
        spec_reset_epoch(now_secs),
    )
}

/// What is left under `limit` at `used`, as the answers report it.
pub open spec fn spec_remaining(used: u64, limit: u64) -> i64 {
    limit.saturating_sub(used) as i64
}

fn remaining_of(used: u64, limit: u64) -> (r: i64)
    ensures
        r == spec_remaining(used, limit),
{
    limit.saturating_sub(used) as i64
}

/// Reports a caller's counter. `counter` is what `read_counter` gave for the
/// record under `counter_key` of the request's effective key,
/// `window_start` what `read_window` gave for its stamp, `now_secs` the
/// cluster clock; a counter stamped in an earlier reset window reports
/// nothing used. Nothing is written.
pub fn check(
    req: &CheckReq,
    tenant_did: &[u8],
    bound_did: Option<&[u8]>,
    counter: Counter,
    window_start: Option<u64>,
    now_secs: u64,
) -> (res: Result<CounterState, String>)
    ensures
        res is Err <==> key_error(bytes_of(bound_did), req.key@) is Some,
        res matches Err(e) ==> key_error(bytes_of(bound_did), req.key@) == Some(e@),
        res matches Ok(state) ==> {
            let used = spec_current_used(counter, window_start, spec_reset_epoch(now_secs));
            &&& state.key@ == spec_effective_key(bytes_of(bound_did), req.key@)
            &&& state.quota_map@ == spec_map_name(tenant_did@)
            &&& state.used == used
            &&& state.limit == counter.limit
            &&& state.remaining == spec_remaining(used, counter.limit)
            &&& state.reset_epoch_secs == spec_reset_epoch(now_secs)
        },
{
    let key = request_key(bound_did, &req.key)?;
    let quota_map = map_name(tenant_did);
    let epoch = reset_epoch(now_secs);
    let used = current_used(counter, window_start, epoch);
    Ok(CounterState {
        key,
        quota_map,
        used,
        limit: counter.limit,
        remaining: remaining_of(used, counter.limit),
        reset_epoch_secs: epoch,
    })
}

/// Consumes from a caller's counter. `ceiling_stored` is the document under
/// `meta:limit_ceiling`, `counter` and `window_start` what `read_counter` and
/// `read_window` gave for the request's effective key, `now_secs` the cluster
/// clock. A counter stamped in an earlier reset window starts again from
/// zero. A granted consume hands back the counter record and the current
/// window's stamp to store; a refused one stores nothing.
pub fn consume(
    req: &ConsumeReq,
    bound_did: Option<&[u8]>,
    ceiling_stored: Option<&[u8]>,
    counter: Counter,
    window_start: Option<u64>,
    now_secs: u64,
) -> (res: Result<ConsumeOutcome, String>)
    requires
        !consume_request_overflows(*req, bytes_of(ceiling_stored), counter, window_start, now_secs),
    ensures
        res is Err <==> key_error(bytes_of(bound_did), req.key@) is Some,
        res matches Err(e) ==> key_error(bytes_of(bound_did), req.key@) == Some(e@),
        res matches Ok(out) ==> consume_answer(
            *req,
            bytes_of(bound_did),
            bytes_of(ceiling_stored),
            counter,
            window_start,
            now_secs,
            out,
        ),
{
    let key = request_key(bound_did, &req.key)?;
    let amount = clamp_amount(req.amount);
    let ceiling = limit_ceiling(ceiling_stored);
    let limit = adopt_limit(counter.limit, req.limit, ceiling);
    let epoch = reset_epoch(now_secs);
    let used = current_used(counter, window_start, epoch);
    let (exceeded, used) = consume_counter(used, amount, limit);
    let (write, window_write) = if !exceeded {
        (Some(write_counter(Counter { used, limit })?), Some(write_window(epoch)))
    } else {
        (None, None)
    };
    let resp = ConsumeResp {
        key,
        used,
        limit,
        remaining: remaining_of(used, limit),
        exceeded,
        at_limit: used >= limit,
    };
    Ok(ConsumeOutcome { resp, write, window_write })
}

/// `consume` on every input: `None` on the one input where its sum would not
/// fit in a `u64` (a tampered store: a stored limit of `u64::MAX` with `used`
/// near it), else what `consume` gives.
pub fn consume_checked(
    req: &ConsumeReq,
    bound_did: Option<&[u8]>,
    ceiling_stored: Option<&[u8]>,
    counter: Counter,
    window_start: Option<u64>,
    now_secs: u64,
) -> (res: Option<Result<ConsumeOutcome, String>>)
    ensures
        res is None <==> key_error(bytes_of(bound_did), req.key@) is None && consume_request_overflows(
            *req,
            bytes_of(ceiling_stored),
            counter,
            window_start,
            now_secs,
        ),
        res matches Some(r) ==> {
            &&& r is Err <==> key_error(bytes_of(bound_did), req.key@) is Some
            &&& r matches Err(e) ==> key_error(bytes_of(bound_did), req.key@) == Some(e@)
            &&& r matches Ok(out) ==> consume_answer(
                *req,
                bytes_of(bound_did),
                bytes_of(ceiling_stored),
                counter,
                window_start,
                now_secs,
                out,
            )
        },
{
    if let Err(e) = request_key(bound_did, &req.key) {
        return Some(Err(e));
    }
    let amount = clamp_amount(req.amount);
    let limit = adopt_limit(counter.limit, req.limit, limit_ceiling(ceiling_stored));
    let used = current_used(counter, window_start, reset_epoch(now_secs));
    if used.saturating_add(amount) <= limit && used > u64::MAX - amount {
        return None;
    }
    Some(consume(req, bound_did, ceiling_stored, counter, window_start, now_secs))
}

/// Resets a caller's counter to zero, keeping its limit. `counter` is what
/// `read_counter` gave for the record under `counter_key` of the request's
/// effective key. A counter at zero counts as zero in every window, so its
/// stamp is left as it is; a second reset writes the same record again.
pub fn reset(req: &ResetReq, bound_did: Option<&[u8]>, counter: Counter) -> (res: Result<
    ResetOutcome,
    String,
>)
    ensures
        res is Err <==> key_error(bytes_of(bound_did), req.key@) is Some,
        res matches Err(e) ==> key_error(bytes_of(bound_did), req.key@) == Some(e@),
        res matches Ok(out) ==> {
            &&& out.resp.key@ == spec_effective_key(bytes_of(bound_did), req.key@)
            &&& out.resp.used == 0
            &&& out.resp.limit == counter.limit
            &&& out.write@ == counter_record(Counter { used: 0, limit: counter.limit })
        },
{
    let key = request_key(bound_did, &req.key)?;
    let write = write_counter(Counter { used: 0, limit: counter.limit })?;
    Ok(ResetOutcome { resp: ResetResp { key, used: 0, limit: counter.limit }, write })
}

/// A consume never takes a counter past its limit: from a counter within its
/// limit, or one stamped in an earlier window, `used` after a consume is
/// within it.
pub proof fn lemma_consume_stays_within_limit(
    counter: Counter,
    window_start: Option<u64>,
    amount: u64,
    limit: u64,
    epoch: u64,
)
    requires
        counter.used <= limit || (window_start matches Some(w) && w < epoch),
    ensures
        spec_used_after(spec_current_used(counter, window_start, epoch), amount, limit) <= limit,
{
}

/// Counters roll over: in a window later than the one a counter was stamped
/// in, it counts from zero, so a consume of an amount within the limit is
/// granted and leaves exactly that amount used.
pub proof fn lemma_new_window_starts_from_zero(counter: Counter, window_start: u64, amount: u64, limit: u64, epoch: u64)
    requires
        window_start < epoch,
    ensures
        spec_current_used(counter, Some(window_start), epoch) == 0,
        amount <= limit ==> !spec_exceeds(0, amount, limit) && spec_used_after(0, amount, limit)
            == amount,
        amount > limit ==> spec_exceeds(0, amount, limit) && spec_used_after(0, amount, limit) == 0,
{
}

/// Within the window a counter was stamped in, and for a counter with no
/// stamp, it counts from what is stored.
pub proof fn lemma_current_window_continues(counter: Counter, epoch: u64)
    ensures
        spec_current_used(counter, Some(epoch), epoch) == counter.used,
        spec_current_used(counter, None, epoch) == counter.used,
{
}

/// A caller with no bound identity never reaches a bound caller's counter: an
/// admitted unbound key differs from every bound key.
pub proof fn lemma_unbound_keys_disjoint(did: Seq<u8>, key1: Seq<char>, key2: Seq<char>)
    requires
        key_admitted(None, key2),
    ensures
        spec_effective_key(Some(did), key1) != spec_effective_key(None, key2),
{
    reveal_strlit("u:");
    reveal_strlit("-unbound");
    let x = spec_effective_key(Some(did), key1);
    let y = spec_effective_key(None, key2);
    assert(x[0] == 'u');
    assert(x[1] == ':');
    if key2.len() >= 2 {
        assert(y[0] == key2[0]);
        assert(y[1] == key2[1]);
    } else if key2.len() == 1 {
        assert(y[1] == '-');
    } else {
        assert(y[0] == '-');
    }
}

/// A refused consume leaves the counter as it was, and a granted one adds
/// exactly the amount.
pub proof fn lemma_consume_refused_or_added(used: u64, amount: u64, limit: u64)
    requires
        !consume_overflows(used, amount, limit),
    ensures
        spec_exceeds(used, amount, limit) ==> spec_used_after(used, amount, limit) == used,
        !spec_exceeds(used, amount, limit) ==> spec_used_after(used, amount, limit) == used + amount,
{
}

/// A first-touch caller never gets a limit above the tenant's ceiling, and no
/// ceiling is above `MAX_LIMIT_CEILING`.
pub proof fn lemma_first_touch_within_ceiling(requested: u32, ceiling_stored: Option<Seq<u8>>)
    ensures
        spec_adopt_limit(0, requested, spec_limit_ceiling(ceiling_stored)) <= spec_limit_ceiling(
            ceiling_stored,
        ),
        spec_limit_ceiling(ceiling_stored) <= MAX_LIMIT_CEILING,
{
}

/// An adopted limit never rises above a stored one: a stored limit wins over
/// any request.
pub proof fn lemma_stored_limit_wins(stored_limit: u64, requested: u32, ceiling: u64)
    requires
        stored_limit > 0,
    ensures
        spec_adopt_limit(stored_limit, requested, ceiling) == stored_limit,
{
}

/// Counters of different bound identities never share a key, and one
/// identity's keys differ for different supplied keys.
pub proof fn lemma_bound_keys_isolated(did1: Seq<u8>, key1: Seq<char>, did2: Seq<u8>, key2: Seq<char>)
    requires
        spec_effective_key(Some(did1), key1) == spec_effective_key(Some(did2), key2),
    ensures
        did1 == did2,
        key1 == key2,
{
    reveal_strlit("u:");
    reveal_strlit(":");
    lemma_hex_lower_shape(did1);
    lemma_hex_lower_shape(did2);
    let h1 = hex_lower(did1);
    let h2 = hex_lower(did2);
    let n1 = h1.len() as int;
    let n2 = h2.len() as int;
    let x = "u:"@ + h1 + ":"@ + key1;
    let y = "u:"@ + h2 + ":"@ + key2;
    if n1 < n2 {
        assert(x[2 + n1] == ':');
        assert(y[2 + n1] == h2[n1]);
    } else if n2 < n1 {
        assert(y[2 + n2] == ':');
        assert(x[2 + n2] == h1[n2]);
    }
    assert(n1 == n2);
    assert(h1 =~= x.subrange(2, 2 + n1));
    assert(h2 =~= y.subrange(2, 2 + n2));
    lemma_hex_lower_injective(did1, did2);
    assert(key1 =~= x.subrange(3 + n1, x.len() as int));
    assert(key2 =~= y.subrange(3 + n2, y.len() as int));
}

/// A reset window starts on a multiple of the window length, at or before
/// the clock, and the clock falls within it.
pub proof fn lemma_reset_epoch_window(now_secs: u64)
    ensures
        spec_reset_epoch(now_secs) <= now_secs < spec_reset_epoch(now_secs) + RESET_WINDOW_SECS,
        spec_reset_epoch(now_secs) % RESET_WINDOW_SECS == 0,
{
    vstd::arithmetic::div_mod::lemma_fundamental_div_mod(now_secs as int, RESET_WINDOW_SECS as int);
    vstd::arithmetic::div_mod::lemma_mod_multiples_basic(
        (now_secs / RESET_WINDOW_SECS) as int,
        RESET_WINDOW_SECS as int,
    );
}

/// A caller with no bound identity is refused exactly the keys that start
/// with `u:`; every other key is admitted (and a bound caller is admitted
/// whatever the key).
pub proof fn lemma_unbound_refused_only_bound_form(key: Seq<char>, did: Seq<u8>)
    ensures
        key_admitted(None, key) <==> !(key.len() >= 2 && key.subrange(0, 2) == "u:"@),
        key_admitted(Some(did), key),
        key_fits(key) && !(key.len() >= 2 && key.subrange(0, 2) == "u:"@) ==> key_error(None, key)
            is None,
{
    reveal_strlit("u:");
    if key.len() >= 2 {
        if key[0] == 'u' && key[1] == ':' {
            assert(key.subrange(0, 2) =~= "u:"@);
        } else {
            assert(key.subrange(0, 2)[0] == key[0]);
            assert(key.subrange(0, 2)[1] == key[1]);
        }
    }
}

/// A configured ceiling is the ceiling, up to `MAX_LIMIT_CEILING`; a missing,
/// non-integer or unreadable one gives `DEFAULT_LIMIT_CEILING`.
pub proof fn lemma_configured_ceiling(doc: Seq<u8>)
    ensures
        spec_limit_ceiling(None) == DEFAULT_LIMIT_CEILING,
        forall|n: u64|
            json_u64_member(doc, "ceiling"@) == Some(Some(n)) && n <= MAX_LIMIT_CEILING
                ==> spec_limit_ceiling(Some(doc)) == n,
        forall|n: u64|
            json_u64_member(doc, "ceiling"@) == Some(Some(n)) && n > MAX_LIMIT_CEILING
                ==> spec_limit_ceiling(Some(doc)) == MAX_LIMIT_CEILING,
        !(json_u64_member(doc, "ceiling"@) matches Some(Some(_))) ==> spec_limit_ceiling(Some(doc))
            == DEFAULT_LIMIT_CEILING,
{
}

/// A first-touch limit is the smaller of the request and the ceiling, so it
/// never exceeds a configured ceiling.
pub proof fn lemma_first_touch_is_min(requested: u32, doc: Seq<u8>)
    ensures
        spec_adopt_limit(0, requested, spec_limit_ceiling(Some(doc))) <= requested,
        spec_adopt_limit(0, requested, spec_limit_ceiling(Some(doc))) == requested
            || spec_adopt_limit(0, requested, spec_limit_ceiling(Some(doc))) == spec_limit_ceiling(
            Some(doc),
        ),
        forall|n: u64|
            json_u64_member(doc, "ceiling"@) == Some(Some(n)) ==> spec_adopt_limit(
                0,
                requested,
                spec_limit_ceiling(Some(doc)),
            ) <= n,
{
}

/// The amount a consume takes: one when none is given, the given one within
/// `1..=MAX_AMOUNT`, one for zero and `MAX_AMOUNT` above it.
pub proof fn lemma_amount_taken(a: u32)
    ensures
        spec_clamp_amount(None) == 1,
        1 <= a && a as u64 <= MAX_AMOUNT ==> spec_clamp_amount(Some(a)) == a as u64,
        a == 0 ==> spec_clamp_amount(Some(a)) == 1,
        a as u64 > MAX_AMOUNT ==> spec_clamp_amount(Some(a)) == MAX_AMOUNT,
{
}

/// A consume is refused exactly when it would take `used` past the limit.
pub proof fn lemma_exceeds_is_past_limit(used: u64, amount: u64, limit: u64)
    requires
        used + amount <= u64::MAX,
    ensures
        spec_exceeds(used, amount, limit) <==> used + amount > limit,
        !spec_exceeds(used, amount, limit) ==> spec_used_after(used, amount, limit) == used + amount,
{
}

/// Each member of a counter record is read on its own, an absent or
/// non-integer one as zero, and an absent record as an empty counter.
pub proof fn lemma_counter_members_independent(doc: Seq<u8>)
    ensures
        spec_read_counter(None) == Some(Counter { used: 0, limit: 0 }),
        forall|u: u64|
            json_u64_member(doc, "used"@) == Some(Some(u)) && json_u64_member(doc, "limit"@) is Some
                ==> spec_read_counter(Some(doc)).unwrap().used == u,
        forall|l: u64|
            json_u64_member(doc, "limit"@) == Some(Some(l)) && json_u64_member(doc, "used"@) is Some
                ==> spec_read_counter(Some(doc)).unwrap().limit == l,
        json_u64_member(doc, "used"@) == Some(None::<u64>) && json_u64_member(doc, "limit"@) is Some
            ==> spec_read_counter(Some(doc)).unwrap().used == 0,
        json_u64_member(doc, "limit"@) == Some(None::<u64>) && json_u64_member(doc, "used"@) is Some
            ==> spec_read_counter(Some(doc)).unwrap().limit == 0,
        json_u64_member(doc, "used"@) is None || json_u64_member(doc, "limit"@) is None
            ==> spec_read_counter(Some(doc)) is None,
{
}

/// What the answers report as left is the limit less what is used, and
/// nothing once the limit is reached.
pub proof fn lemma_remaining_reported(used: u64, limit: u64)
    ensures
        used <= limit && limit - used <= i64::MAX ==> spec_remaining(used, limit) == limit - used,
        used >= limit ==> spec_remaining(used, limit) == 0,
{
}

} // verus!
