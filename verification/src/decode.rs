//! The wire decoder: the incoming half of the message codec. Incoming
//! text is parsed once, behind the trusted wrapper of the `json` module
//! whose outcome the named `parse_of` fixes; everything after that —
//! which discriminator names which frame kind, and which fields each
//! kind carries — is verified logic over the document model, with a
//! contract per function relating its result to the parsed shape. A
//! malformed frame or an unknown discriminator decodes to `None`, which
//! the connection skips and logs; it is never fatal.

use vstd::prelude::*;

use crate::codec::{json_to_text, spec_json_text};
use crate::json::{
    Json, JsonV, jv, jv_fields, jv_list, lemma_jv_fields_index, lemma_jv_list_index, parse_json,
    parse_of,
};
use crate::messages::{Context, Error, Event, Message, State, StateChangedData};

verus! {

/// The first field under this key, in field order.
pub open spec fn spec_assoc(fields: Seq<(Seq<char>, JsonV)>, k: Seq<char>) -> Option<JsonV>
    decreases fields.len(),
{
    if fields.len() == 0 {
        None
    } else if fields[0].0 == k {
        Some(fields[0].1)
    } else {
        spec_assoc(fields.drop_first(), k)
    }
}

/// The field under this key of an object document; nothing otherwise.
pub open spec fn spec_obj_get(d: JsonV, k: Seq<char>) -> Option<JsonV> {
    match d {
        JsonV::Obj(fields) => spec_assoc(fields, k),
        _ => None,
    }
}

/// A required string field.
pub open spec fn spec_get_str(d: JsonV, k: Seq<char>) -> Option<Seq<char>> {
    match spec_obj_get(d, k) {
        Some(JsonV::Str(s)) => Some(s),
        _ => None,
    }
}

/// A required boolean field.
pub open spec fn spec_get_bool(d: JsonV, k: Seq<char>) -> Option<bool> {
    match spec_obj_get(d, k) {
        Some(JsonV::Bool(b)) => Some(b),
        _ => None,
    }
}

/// The value of a decimal digit.
pub open spec fn spec_digit_val(c: char) -> Option<int> {
    if c == '0' {
        Some(0)
    } else if c == '1' {
        Some(1)
    } else if c == '2' {
        Some(2)
    } else if c == '3' {
        Some(3)
    } else if c == '4' {
        Some(4)
    } else if c == '5' {
        Some(5)
    } else if c == '6' {
        Some(6)
    } else if c == '7' {
        Some(7)
    } else if c == '8' {
        Some(8)
    } else if c == '9' {
        Some(9)
    } else {
        None
    }
}

/// The value of decimal digit text; nothing for empty text or any
/// non-digit character.
pub open spec fn spec_num_val(s: Seq<char>) -> Option<int>
    decreases s.len(),
{
    if s.len() == 0 {
        None
    } else if s.len() == 1 {
        spec_digit_val(s[0])
    } else {
        match (spec_num_val(s.drop_last()), spec_digit_val(s.last())) {
            (Some(h), Some(d)) => Some(h * 10 + d),
            _ => None,
        }
    }
}

/// A required unsigned-integer field: a number whose text is plain
/// digits and whose value fits.
pub open spec fn spec_get_u64(d: JsonV, k: Seq<char>) -> Option<u64> {
    match spec_obj_get(d, k) {
        Some(JsonV::Num(t)) => match spec_num_val(t) {
            Some(v) => if 0 <= v <= u64::MAX {
                Some(v as u64)
            } else {
                None
            },
            None => None,
        },
        _ => None,
    }
}

/// An optional string field: missing or `null` is an absent value; a
/// present non-string is a failure (the outer `None`).
pub open spec fn spec_opt_str(d: JsonV, k: Seq<char>) -> Option<Option<Seq<char>>> {
    match spec_obj_get(d, k) {
        None => Some(None),
        Some(JsonV::Null) => Some(None),
        Some(JsonV::Str(s)) => Some(Some(s)),
        Some(_) => None,
    }
}

/// An optional raw payload, carried on as its JSON text: missing or
/// `null` is an absent value.
pub open spec fn spec_opt_raw(d: JsonV, k: Seq<char>) -> Option<Seq<char>> {
    match spec_obj_get(d, k) {
        None => None,
        Some(JsonV::Null) => None,
        Some(x) => Some(spec_json_text(x)),
    }
}

/// A raw payload field that defaults to `null` text when missing.
pub open spec fn spec_raw_field(d: JsonV, k: Seq<char>) -> Seq<char> {
    match spec_obj_get(d, k) {
        None => "null"@,
        Some(x) => spec_json_text(x),
    }
}

/// The character view of an optional string.
pub open spec fn opt_view(o: Option<String>) -> Option<Seq<char>> {
    match o {
        Some(s) => Some(s@),
        None => None,
    }
}

/// Whether a document carries a well-formed context object.
pub open spec fn ctx_ok(d: JsonV) -> bool {
    &&& spec_get_str(d, "id"@) is Some
    &&& spec_opt_str(d, "parent_id"@) is Some
    &&& spec_opt_str(d, "user_id"@) is Some
}

/// The decoded context carries exactly the document's fields.
pub open spec fn ctx_rel(c: Context, d: JsonV) -> bool {
    &&& Some(c.id@) == spec_get_str(d, "id"@)
    &&& Some(opt_view(c.parent_id)) == spec_opt_str(d, "parent_id"@)
    &&& Some(opt_view(c.user_id)) == spec_opt_str(d, "user_id"@)
}

/// Whether a document carries a well-formed entity state.
pub open spec fn state_ok(d: JsonV) -> bool {
    &&& spec_get_str(d, "entity_id"@) is Some
    &&& (spec_obj_get(d, "context"@) matches Some(c) && ctx_ok(c))
    &&& spec_get_str(d, "last_changed"@) is Some
    &&& spec_get_str(d, "last_updated"@) is Some
    &&& spec_get_str(d, "state"@) is Some
}

/// The decoded state carries exactly the document's fields, attributes
/// as their JSON text.
pub open spec fn state_rel(s: State, d: JsonV) -> bool {
    &&& Some(s.entity_id@) == spec_get_str(d, "entity_id"@)
    &&& s.attributes@ == spec_raw_field(d, "attributes"@)
    &&& (spec_obj_get(d, "context"@) matches Some(c) && ctx_rel(s.context, c))
    &&& Some(s.last_changed@) == spec_get_str(d, "last_changed"@)
    &&& Some(s.last_updated@) == spec_get_str(d, "last_updated"@)
    &&& Some(s.state@) == spec_get_str(d, "state"@)
}

/// Whether an optional state field is well formed (missing and `null`
/// both count as absent).
pub open spec fn opt_state_ok(d: JsonV, k: Seq<char>) -> bool {
    match spec_obj_get(d, k) {
        None => true,
        Some(JsonV::Null) => true,
        Some(x) => state_ok(x),
    }
}

/// The decoded optional state matches the optional field.
pub open spec fn opt_state_rel(o: Option<State>, d: JsonV, k: Seq<char>) -> bool {
    match spec_obj_get(d, k) {
        None => o is None,
        Some(JsonV::Null) => o is None,
        Some(x) => o matches Some(s) && state_rel(s, x),
    }
}

/// Whether a document carries a well-formed state-change event.
pub open spec fn event_ok(d: JsonV) -> bool {
    &&& spec_get_str(d, "event_type"@) == Some("state_changed"@)
    &&& (spec_obj_get(d, "data"@) matches Some(data) && {
        &&& spec_get_str(data, "entity_id"@) is Some
        &&& opt_state_ok(data, "old_state"@)
        &&& opt_state_ok(data, "new_state"@)
    })
    &&& (spec_obj_get(d, "context"@) matches Some(c) && ctx_ok(c))
    &&& spec_get_str(d, "origin"@) is Some
    &&& spec_get_str(d, "time_fired"@) is Some
}

/// The decoded event carries exactly the document's fields.
pub open spec fn event_rel(e: Event, d: JsonV) -> bool {
    match e {
        Event::StateChanged { context, data, origin, time_fired } => {
            &&& (spec_obj_get(d, "context"@) matches Some(c) && ctx_rel(context, c))
            &&& (spec_obj_get(d, "data"@) matches Some(dd) && {
                &&& Some(data.entity_id@) == spec_get_str(dd, "entity_id"@)
                &&& opt_state_rel(data.old_state, dd, "old_state"@)
                &&& opt_state_rel(data.new_state, dd, "new_state"@)
            })
            &&& Some(origin@) == spec_get_str(d, "origin"@)
            &&& Some(time_fired@) == spec_get_str(d, "time_fired"@)
        },
    }
}

/// Whether the optional error field of a result is well formed.
pub open spec fn opt_error_ok(d: JsonV, k: Seq<char>) -> bool {
    match spec_obj_get(d, k) {
        None => true,
        Some(JsonV::Null) => true,
        Some(x) => spec_get_str(x, "code"@) is Some && spec_get_str(x, "message"@) is Some,
    }
}

/// The decoded optional error matches the optional field.
pub open spec fn opt_error_rel(o: Option<Error>, d: JsonV, k: Seq<char>) -> bool {
    match spec_obj_get(d, k) {
        None => o is None,
        Some(JsonV::Null) => o is None,
        Some(x) => o matches Some(e) && Some(e.code@) == spec_get_str(x, "code"@) && Some(
            e.message@,
        ) == spec_get_str(x, "message"@),
    }
}

/// Whether a parsed document is a well-formed protocol frame: its
/// `type` field names a known kind and that kind's required fields are
/// present with their required types.
pub open spec fn msg_ok(d: JsonV) -> bool {
    match spec_get_str(d, "type"@) {
        None => false,
        Some(t) => if t == "auth_required"@ {
            spec_get_str(d, "ha_version"@) is Some
        } else if t == "auth"@ {
            spec_get_str(d, "access_token"@) is Some
        } else if t == "auth_ok"@ {
            spec_get_str(d, "ha_version"@) is Some
        } else if t == "auth_invalid"@ {
            spec_get_str(d, "message"@) is Some
        } else if t == "call_service"@ {
            spec_get_u64(d, "id"@) is Some && spec_get_str(d, "domain"@) is Some && spec_get_str(
                d,
                "service"@,
            ) is Some
        } else if t == "result"@ {
            spec_get_u64(d, "id"@) is Some && spec_get_bool(d, "success"@) is Some && opt_error_ok(
                d,
                "error"@,
            )
        } else if t == "subscribe_events"@ {
            spec_get_u64(d, "id"@) is Some && spec_opt_str(d, "event_type"@) is Some
        } else if t == "subscribe_trigger"@ {
            spec_get_u64(d, "id"@) is Some && spec_opt_raw(d, "trigger"@) is Some
        } else if t == "ping"@ {
            spec_get_u64(d, "id"@) is Some
        } else if t == "pong"@ {
            spec_get_u64(d, "id"@) is Some
        } else if t == "event"@ {
            spec_get_u64(d, "id"@) is Some && (spec_obj_get(d, "event"@) matches Some(e)
                && event_ok(e))
        } else if t == "get_states"@ {
            spec_get_u64(d, "id"@) is Some
        } else {
            false
        },
    }
}

/// The decoded frame carries exactly the document's fields, under the
/// kind its discriminator names.
pub open spec fn msg_rel(m: Message, d: JsonV) -> bool {
    match m {
        Message::AuthRequired { ha_version } => {
            &&& spec_get_str(d, "type"@) == Some("auth_required"@)
            &&& Some(ha_version@) == spec_get_str(d, "ha_version"@)
        },
        Message::Auth { access_token } => {
            &&& spec_get_str(d, "type"@) == Some("auth"@)
            &&& Some(access_token@) == spec_get_str(d, "access_token"@)
        },
        Message::AuthOk { ha_version } => {
            &&& spec_get_str(d, "type"@) == Some("auth_ok"@)
            &&& Some(ha_version@) == spec_get_str(d, "ha_version"@)
        },
        Message::AuthInvalid { message } => {
            &&& spec_get_str(d, "type"@) == Some("auth_invalid"@)
            &&& Some(message@) == spec_get_str(d, "message"@)
        },
        Message::CallService { id, domain, service, service_data, target } => {
            &&& spec_get_str(d, "type"@) == Some("call_service"@)
            &&& Some(id) == spec_get_u64(d, "id"@)
            &&& Some(domain@) == spec_get_str(d, "domain"@)
            &&& Some(service@) == spec_get_str(d, "service"@)
            &&& opt_view(service_data) == spec_opt_raw(d, "service_data"@)
            &&& opt_view(target) == spec_opt_raw(d, "target"@)
        },
        Message::Result { id, success, result, error } => {
            &&& spec_get_str(d, "type"@) == Some("result"@)
            &&& Some(id) == spec_get_u64(d, "id"@)
            &&& Some(success) == spec_get_bool(d, "success"@)
            &&& result@ == spec_raw_field(d, "result"@)
            &&& opt_error_rel(error, d, "error"@)
        },
        Message::SubscribeEvents { id, event_type } => {
            &&& spec_get_str(d, "type"@) == Some("subscribe_events"@)
            &&& Some(id) == spec_get_u64(d, "id"@)
            &&& Some(opt_view(event_type)) == spec_opt_str(d, "event_type"@)
        },
        Message::SubscribeTrigger { id, trigger } => {
            &&& spec_get_str(d, "type"@) == Some("subscribe_trigger"@)
            &&& Some(id) == spec_get_u64(d, "id"@)
            &&& Some(trigger@) == spec_opt_raw(d, "trigger"@)
        },
        Message::Ping { id } => {
            &&& spec_get_str(d, "type"@) == Some("ping"@)
            &&& Some(id) == spec_get_u64(d, "id"@)
        },
        Message::Pong { id } => {
            &&& spec_get_str(d, "type"@) == Some("pong"@)
            &&& Some(id) == spec_get_u64(d, "id"@)
        },
        Message::Event { id, event } => {
            &&& spec_get_str(d, "type"@) == Some("event"@)
            &&& Some(id) == spec_get_u64(d, "id"@)
            &&& (spec_obj_get(d, "event"@) matches Some(e) && event_rel(event, e))
        },
        Message::GetStates { id } => {
            &&& spec_get_str(d, "type"@) == Some("get_states"@)
            &&& Some(id) == spec_get_u64(d, "id"@)
        },
    }
}

/// Whether wire text decodes to a protocol frame.
pub open spec fn spec_text_decodes(s: Seq<char>) -> bool {
    parse_of(s) matches Some(d) && msg_ok(d)
}

/// Whether every element of a sequence is a well-formed state.
pub open spec fn states_ok_list(elems: Seq<JsonV>) -> bool
    decreases elems.len(),
{
    if elems.len() == 0 {
        true
    } else {
        state_ok(elems[0]) && states_ok_list(elems.drop_first())
    }
}

/// Whether a parsed document is a well-formed state array.
pub open spec fn states_ok(d: JsonV) -> bool {
    match d {
        JsonV::Arr(elems) => states_ok_list(elems),
        _ => false,
    }
}

/// The decoded states carry exactly the array's elements, in order.
pub open spec fn states_rel(v: Seq<State>, d: JsonV) -> bool {
    match d {
        JsonV::Arr(elems) => v.len() == elems.len() && forall|i: int|
            0 <= i < elems.len() ==> state_rel(#[trigger] v[i], elems[i]),
        _ => false,
    }
}

/// The field under this key, by one pass over the object in field
/// order.
fn obj_get<'a>(j: &'a Json, key: &str) -> (r: Option<&'a Json>)
    ensures
        match r {
            Some(x) => spec_obj_get(jv(*j), key@) == Some(jv(*x)),
            None => spec_obj_get(jv(*j), key@) is None,
        },
{
    match j {
        Json::Obj(fields) => {
            proof {
                lemma_jv_fields_index(fields@);
            }
            proof {
                assert(jv_fields(fields@).skip(0) =~= jv_fields(fields@));
            }
            let k = String::from_str(key);
            let n = fields.len();
            let mut i: usize = 0;
            while i < n
                invariant
                    n == fields@.len(),
                    k@ == key@,
                    i <= n,
                    jv(*j) == JsonV::Obj(jv_fields(fields@)),
                    jv_fields(fields@).len() == fields@.len(),
                    forall|p: int|
                        0 <= p < fields@.len() ==> jv_fields(fields@)[p] == (
                        fields@[p].0@,
                        jv(fields@[p].1),
                        ),
                    spec_assoc(jv_fields(fields@), key@) == spec_assoc(
                        jv_fields(fields@).skip(i as int),
                        key@,
                    ),
                decreases n - i,
            {
                let ghost fs = jv_fields(fields@);
                proof {
                    assert(fs.skip(i as int).len() == n - i);
                    assert(fs.skip(i as int)[0] == fs[i as int]);
                }
                if fields[i].0 == k {
                    proof {
                        assert(fs.skip(i as int)[0].0 == key@);
                        assert(spec_assoc(fs.skip(i as int), key@) == Some(fs[i as int].1));
                        assert(jv(*j) == JsonV::Obj(fs));
                        assert(fs[i as int].1 == jv(fields@[i as int].1));
                    }
                    return Some(&fields[i].1);
                }
                proof {
                    assert(fs.skip(i as int)[0].0 != key@);
                    assert(fs.skip(i as int).drop_first() =~= fs.skip(i + 1 as int));
                }
                i += 1;
            }
            proof {
                assert(jv_fields(fields@).skip(n as int).len() == 0);
            }
            None
        },
        _ => None,
    }
}

/// A required string field, as an owned string.
fn get_str(j: &Json, key: &str) -> (r: Option<String>)
    ensures
        match r {
            Some(s) => spec_get_str(jv(*j), key@) == Some(s@),
            None => spec_get_str(jv(*j), key@) is None,
        },
{
    match obj_get(j, key) {
        Some(Json::Str(s)) => Some(s.clone()),
        _ => None,
    }
}

/// A required boolean field.
fn get_bool(j: &Json, key: &str) -> (r: Option<bool>)
    ensures
        r == spec_get_bool(jv(*j), key@),
{
    match obj_get(j, key) {
        Some(Json::Bool(b)) => Some(*b),
        _ => None,
    }
}

/// The value of one decimal digit character.
fn digit_val(c: char) -> (r: Option<u64>)
    ensures
        match r {
            Some(d) => spec_digit_val(c) == Some(d as int) && d < 10,
            None => spec_digit_val(c) is None,
        },
{
    match c {
        '0' => Some(0),
        '1' => Some(1),
        '2' => Some(2),
        '3' => Some(3),
        '4' => Some(4),
        '5' => Some(5),
        '6' => Some(6),
        '7' => Some(7),
        '8' => Some(8),
        '9' => Some(9),
        _ => None,
    }
}

/// Once a prefix fails to read as digits, the whole text fails.
proof fn lemma_num_val_none(s: Seq<char>, i: int)
    requires
        1 <= i <= s.len(),
        spec_num_val(s.take(i)) is None,
    ensures
        spec_num_val(s) is None,
    decreases s.len() - i,
{
    if i < s.len() {
        assert(s.take(i + 1).drop_last() =~= s.take(i));
        assert(s.take(i + 1).len() == i + 1);
        lemma_num_val_none(s, i + 1);
    } else {
        assert(s.take(i) =~= s);
    }
}

/// Digit text values never shrink as the text grows.
proof fn lemma_num_val_grows(s: Seq<char>, i: int, h: int)
    requires
        1 <= i <= s.len(),
        spec_num_val(s.take(i)) == Some(h),
        h >= 0,
    ensures
        spec_num_val(s) matches Some(x) ==> x >= h,
    decreases s.len() - i,
{
    if i < s.len() {
        assert(s.take(i + 1).drop_last() =~= s.take(i));
        assert(s.take(i + 1).last() == s[i]);
        assert(s.take(i + 1).len() == i + 1);
        match spec_digit_val(s[i]) {
            Some(dv) => {
                assert(spec_num_val(s.take(i + 1)) == Some(h * 10 + dv));
                lemma_num_val_grows(s, i + 1, h * 10 + dv);
            },
            None => {
                assert(spec_num_val(s.take(i + 1)) is None);
                lemma_num_val_none(s, i + 1);
            },
        }
    } else {
        assert(s.take(i) =~= s);
    }
}

/// Reads decimal digit text as an unsigned integer; fails on empty
/// text, any non-digit, or a value that does not fit.
fn parse_u64(s: &str) -> (r: Option<u64>)
    ensures
        match spec_num_val(s@) {
            Some(v) => if 0 <= v <= u64::MAX {
                r == Some(v as u64)
            } else {
                r is None
            },
            None => r is None,
        },
{
    let n = s.unicode_len();
    if n == 0 {
        return None;
    }
    let c0 = s.get_char(0);
    let mut acc: u64 = match digit_val(c0) {
        Some(d) => d,
        None => {
            proof {
                assert(s@.take(1).len() == 1);
                assert(s@.take(1)[0] == s@[0]);
                assert(spec_num_val(s@.take(1)) is None);
                lemma_num_val_none(s@, 1);
            }
            return None;
        },
    };
    proof {
        assert(s@.take(1).len() == 1);
        assert(s@.take(1)[0] == s@[0]);
        assert(spec_num_val(s@.take(1)) == Some(acc as int));
    }
    let mut i: usize = 1;
    while i < n
        invariant
            1 <= i <= n,
            n == s@.len(),
            spec_num_val(s@.take(i as int)) == Some(acc as int),
        decreases n - i,
    {
        let c = s.get_char(i);
        proof {
            assert(s@.take(i + 1 as int).drop_last() =~= s@.take(i as int));
            assert(s@.take(i + 1 as int).last() == s@[i as int]);
            assert(s@.take(i + 1 as int).len() == i + 1);
        }
        match digit_val(c) {
            None => {
                proof {
                    assert(spec_num_val(s@.take(i + 1 as int)) is None);
                    lemma_num_val_none(s@, i + 1 as int);
                }
                return None;
            },
            Some(d) => {
                if acc > u64::MAX / 10 || (acc == u64::MAX / 10 && d > u64::MAX % 10) {
                    proof {
                        let big = (acc as int) * 10 + (d as int);
                        assert(spec_num_val(s@.take(i + 1 as int)) == Some(big));
                        assert(big > u64::MAX);
                        lemma_num_val_grows(s@, i + 1 as int, big);
                    }
                    return None;
                }
                acc = acc * 10 + d;
                proof {
                    assert(spec_num_val(s@.take(i + 1 as int)) == Some(acc as int));
                }
            },
        }
        i += 1;
    }
    proof {
        assert(s@.take(n as int) =~= s@);
    }
    Some(acc)
}

/// A required unsigned-integer field.
fn get_u64(j: &Json, key: &str) -> (r: Option<u64>)
    ensures
        r == spec_get_u64(jv(*j), key@),
{
    match obj_get(j, key) {
        Some(Json::Num(t)) => parse_u64(t.as_str()),
        _ => None,
    }
}

/// An optional string field; the outer `None` is a type failure.
fn get_opt_str(j: &Json, key: &str) -> (r: Option<Option<String>>)
    ensures
        match r {
            Some(o) => spec_opt_str(jv(*j), key@) == Some(opt_view(o)),
            None => spec_opt_str(jv(*j), key@) is None,
        },
{
    match obj_get(j, key) {
        None => Some(None),
        Some(Json::Null) => Some(None),
        Some(Json::Str(s)) => Some(Some(s.clone())),
        Some(_) => None,
    }
}

/// An optional raw payload, rendered as its JSON text.
fn get_opt_raw(j: &Json, key: &str) -> (r: Option<String>)
    ensures
        opt_view(r) == spec_opt_raw(jv(*j), key@),
{
    match obj_get(j, key) {
        None => None,
        Some(Json::Null) => None,
        Some(x) => Some(json_to_text(x)),
    }
}

/// A raw payload field that defaults to `null` text when missing.
fn get_raw_field(j: &Json, key: &str) -> (r: String)
    ensures
        r@ == spec_raw_field(jv(*j), key@),
{
    match obj_get(j, key) {
        None => String::from_str("null"),
        Some(x) => json_to_text(x),
    }
}

/// The context object attached to events and states.
fn decode_context(j: &Json) -> (r: Option<Context>)
    ensures
        (r is Some) == ctx_ok(jv(*j)),
        r matches Some(c) ==> ctx_rel(c, jv(*j)),
{
    let id = match get_str(j, "id") {
        Some(s) => s,
        None => {
            return None;
        },
    };
    let parent_id = match get_opt_str(j, "parent_id") {
        Some(p) => p,
        None => {
            return None;
        },
    };
    let user_id = match get_opt_str(j, "user_id") {
        Some(u) => u,
        None => {
            return None;
        },
    };
    Some(Context { id, parent_id, user_id })
}

/// One entity state object.
fn decode_state(j: &Json) -> (r: Option<State>)
    ensures
        (r is Some) == state_ok(jv(*j)),
        r matches Some(s) ==> state_rel(s, jv(*j)),
{
    let entity_id = match get_str(j, "entity_id") {
        Some(s) => s,
        None => {
            return None;
        },
    };
    let attributes = get_raw_field(j, "attributes");
    let context = match obj_get(j, "context") {
        Some(node) => match decode_context(node) {
            Some(c) => c,
            None => {
                return None;
            },
        },
        None => {
            return None;
        },
    };
    let last_changed = match get_str(j, "last_changed") {
        Some(s) => s,
        None => {
            return None;
        },
    };
    let last_updated = match get_str(j, "last_updated") {
        Some(s) => s,
        None => {
            return None;
        },
    };
    let state = match get_str(j, "state") {
        Some(s) => s,
        None => {
            return None;
        },
    };
    Some(State { entity_id, attributes, context, last_changed, last_updated, state })
}

/// An optional entity state field; the outer `None` is a failure.
fn get_opt_state(j: &Json, key: &str) -> (r: Option<Option<State>>)
    ensures
        (r is Some) == opt_state_ok(jv(*j), key@),
        r matches Some(o) ==> opt_state_rel(o, jv(*j), key@),
{
    match obj_get(j, key) {
        None => Some(None),
        Some(Json::Null) => Some(None),
        Some(x) => match decode_state(x) {
            Some(s) => Some(Some(s)),
            None => None,
        },
    }
}

/// An event object, discriminated by its `event_type` field.
fn decode_event(j: &Json) -> (r: Option<Event>)
    ensures
        (r is Some) == event_ok(jv(*j)),
        r matches Some(e) ==> event_rel(e, jv(*j)),
{
    let kind = match get_str(j, "event_type") {
        Some(s) => s,
        None => {
            return None;
        },
    };
    if !(kind == String::from_str("state_changed")) {
        return None;
    }
    let data_node = match obj_get(j, "data") {
        Some(node) => node,
        None => {
            return None;
        },
    };
    let entity_id = match get_str(data_node, "entity_id") {
        Some(s) => s,
        None => {
            return None;
        },
    };
    let old_state = match get_opt_state(data_node, "old_state") {
        Some(s) => s,
        None => {
            return None;
        },
    };
    let new_state = match get_opt_state(data_node, "new_state") {
        Some(s) => s,
        None => {
            return None;
        },
    };
    let context = match obj_get(j, "context") {
        Some(node) => match decode_context(node) {
            Some(c) => c,
            None => {
                return None;
            },
        },
        None => {
            return None;
        },
    };
    let origin = match get_str(j, "origin") {
        Some(s) => s,
        None => {
            return None;
        },
    };
    let time_fired = match get_str(j, "time_fired") {
        Some(s) => s,
        None => {
            return None;
        },
    };
    Some(
        Event::StateChanged {
            context,
            data: StateChangedData { entity_id, old_state, new_state },
            origin,
            time_fired,
        },
    )
}

/// The optional error object of a failed result.
fn get_opt_error(j: &Json, key: &str) -> (r: Option<Option<Error>>)
    ensures
        (r is Some) == opt_error_ok(jv(*j), key@),
        r matches Some(o) ==> opt_error_rel(o, jv(*j), key@),
{
    match obj_get(j, key) {
        None => Some(None),
        Some(Json::Null) => Some(None),
        Some(x) => {
            let code = match get_str(x, "code") {
                Some(c) => c,
                None => {
                    return None;
                },
            };
            let message = match get_str(x, "message") {
                Some(m) => m,
                None => {
                    return None;
                },
            };
            Some(Some(Error { code, message }))
        },
    }
}

/// One parsed document as a protocol frame.
fn decode_doc(j: &Json) -> (r: Option<Message>)
    ensures
        (r is Some) == msg_ok(jv(*j)),
        r matches Some(m) ==> msg_rel(m, jv(*j)),
{
    let kind = match get_str(j, "type") {
        Some(s) => s,
        None => {
            return None;
        },
    };
    if kind == String::from_str("auth_required") {
        match get_str(j, "ha_version") {
            Some(ha_version) => Some(Message::AuthRequired { ha_version }),
            None => None,
        }
    } else if kind == String::from_str("auth") {
        match get_str(j, "access_token") {
            Some(access_token) => Some(Message::Auth { access_token }),
            None => None,
        }
    } else if kind == String::from_str("auth_ok") {
        match get_str(j, "ha_version") {
            Some(ha_version) => Some(Message::AuthOk { ha_version }),
            None => None,
        }
    } else if kind == String::from_str("auth_invalid") {
        match get_str(j, "message") {
            Some(message) => Some(Message::AuthInvalid { message }),
            None => None,
        }
    } else if kind == String::from_str("call_service") {
        let id = match get_u64(j, "id") {
            Some(i) => i,
            None => {
                return None;
            },
        };
        let domain = match get_str(j, "domain") {
            Some(d) => d,
            None => {
                return None;
            },
        };
        let service = match get_str(j, "service") {
            Some(s) => s,
            None => {
                return None;
            },
        };
        let service_data = get_opt_raw(j, "service_data");
        let target = get_opt_raw(j, "target");
        Some(Message::CallService { id, domain, service, service_data, target })
    } else if kind == String::from_str("result") {
        let id = match get_u64(j, "id") {
            Some(i) => i,
            None => {
                return None;
            },
        };
        let success = match get_bool(j, "success") {
            Some(b) => b,
            None => {
                return None;
            },
        };
        let result = get_raw_field(j, "result");
        let error = match get_opt_error(j, "error") {
            Some(e) => e,
            None => {
                return None;
            },
        };
        Some(Message::Result { id, success, result, error })
    } else if kind == String::from_str("subscribe_events") {
        let id = match get_u64(j, "id") {
            Some(i) => i,
            None => {
                return None;
            },
        };
        let event_type = match get_opt_str(j, "event_type") {
            Some(e) => e,
            None => {
                return None;
            },
        };
        Some(Message::SubscribeEvents { id, event_type })
    } else if kind == String::from_str("subscribe_trigger") {
        let id = match get_u64(j, "id") {
            Some(i) => i,
            None => {
                return None;
            },
        };
        let trigger = match get_opt_raw(j, "trigger") {
            Some(t) => t,
            None => {
                return None;
            },
        };
        Some(Message::SubscribeTrigger { id, trigger })
    } else if kind == String::from_str("ping") {
        match get_u64(j, "id") {
            Some(id) => Some(Message::Ping { id }),
            None => None,
        }
    } else if kind == String::from_str("pong") {
        match get_u64(j, "id") {
            Some(id) => Some(Message::Pong { id }),
            None => None,
        }
    } else if kind == String::from_str("event") {
        let id = match get_u64(j, "id") {
            Some(i) => i,
            None => {
                return None;
            },
        };
        let event_node = match obj_get(j, "event") {
            Some(node) => node,
            None => {
                return None;
            },
        };
        match decode_event(event_node) {
            Some(event) => Some(Message::Event { id, event }),
            None => None,
        }
    } else if kind == String::from_str("get_states") {
        match get_u64(j, "id") {
            Some(id) => Some(Message::GetStates { id }),
            None => None,
        }
    } else {
        None
    }
}

/// Decodes one frame of wire text. The text is parsed once; the frame
/// comes back exactly when the parse succeeds and the document is a
/// well-formed frame, and then carries exactly the document's fields.
pub fn decode_message(text: &str) -> (r: Option<Message>)
    ensures
        match parse_of(text@) {
            None => r is None,
            Some(d) => {
                &&& (r is Some) == msg_ok(d)
                &&& (r matches Some(m) ==> msg_rel(m, d))
            },
        },
{
    match parse_json(text) {
        None => None,
        Some(doc) => decode_doc(&doc),
    }
}

/// Decodes the payload of a full-snapshot result: exactly when the
/// payload parses as an array of well-formed states, the result holds
/// exactly those states, in array order.
pub fn decode_states(payload: &str) -> (r: Option<Vec<State>>)
    ensures
        match parse_of(payload@) {
            None => r is None,
            Some(d) => {
                &&& (r is Some) == states_ok(d)
                &&& (r matches Some(v) ==> states_rel(v@, d))
            },
        },
{
    let doc = match parse_json(payload) {
        Some(d) => d,
        None => {
            return None;
        },
    };
    match &doc {
        Json::Arr(items) => {
            proof {
                lemma_jv_list_index(items@);
            }
            let ghost elems = jv_list(items@);
            proof {
                assert(elems.skip(0) =~= elems);
            }
            let mut states: Vec<State> = Vec::new();
            let n = items.len();
            let mut i: usize = 0;
            while i < n
                invariant
                    n == items@.len(),
                    i <= n,
                    jv(doc) == JsonV::Arr(elems),
                    parse_of(payload@) == Some(jv(doc)),
                    elems == jv_list(items@),
                    elems.len() == items@.len(),
                    forall|k: int| 0 <= k < items@.len() ==> elems[k] == jv(items@[k]),
                    states@.len() == i,
                    states_ok_list(elems) == states_ok_list(elems.skip(i as int)),
                    forall|k: int| 0 <= k < i ==> state_rel(#[trigger] states@[k], elems[k]),
                decreases n - i,
            {
                proof {
                    assert(elems.skip(i as int).len() == n - i);
                    assert(elems.skip(i as int)[0] == elems[i as int]);
                    assert(elems.skip(i as int).drop_first() =~= elems.skip(i + 1 as int));
                    assert(elems[i as int] == jv(items@[i as int]));
                }
                match decode_state(&items[i]) {
                    Some(s) => states.push(s),
                    None => {
                        proof {
                            assert(!state_ok(elems[i as int]));
                            assert(!states_ok_list(elems.skip(i as int)));
                            assert(!states_ok(JsonV::Arr(elems)));
                            assert(jv(doc) == JsonV::Arr(elems));
                        }
                        return None;
                    },
                }
                i += 1;
            }
            proof {
                assert(elems.skip(n as int).len() == 0);
                assert(states_ok_list(elems));
            }
            Some(states)
        },
        _ => None,
    }
}

} // verus!
