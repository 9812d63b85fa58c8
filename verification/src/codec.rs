//! The wire encoder: the outgoing half of the message codec. Each
//! outgoing-capable frame kind is rendered as the tagged JSON object the
//! hub expects, against a character-exact specification. Payloads a
//! caller supplies (service data, targets, triggers) are already JSON
//! text and are spliced in as they are.

use vstd::prelude::*;

use crate::json::{Json, JsonV, jv, jv_fields, jv_list, lemma_jv_fields_index, lemma_jv_list_index};
use crate::messages::Message;
use crate::text::{escape_json, spec_dec_digits, spec_escape, u64_to_dec};

verus! {

broadcast use vstd::std_specs::vec::group_vec_axioms;

/// A JSON string literal holding `s`.
pub open spec fn spec_quoted(s: Seq<char>) -> Seq<char> {
    seq!['"'] + spec_escape(s) + seq!['"']
}

/// The compact text of a document shape: the inverse direction of
/// parsing, for carrying captured payloads onward as JSON text.
pub open spec fn spec_json_text(d: JsonV) -> Seq<char>
    decreases d,
{
    match d {
        JsonV::Null => "null"@,
        JsonV::Bool(b) => if b {
            "true"@
        } else {
            "false"@
        },
        JsonV::Num(t) => t,
        JsonV::Str(s) => spec_quoted(s),
        JsonV::Arr(v) => seq!['['] + spec_items_text(v, true) + seq![']'],
        JsonV::Obj(v) => seq!['{'] + spec_fields_text(v, true) + seq!['}'],
    }
}

/// The comma-separated texts of an array's elements.
pub open spec fn spec_items_text(s: Seq<JsonV>, first: bool) -> Seq<char>
    decreases s,
{
    if s.len() == 0 {
        Seq::empty()
    } else {
        (if first {
            Seq::empty()
        } else {
            seq![',']
        }) + spec_json_text(s[0]) + spec_items_text(s.drop_first(), false)
    }
}

/// The comma-separated `"key":value` texts of an object's fields.
pub open spec fn spec_fields_text(s: Seq<(Seq<char>, JsonV)>, first: bool) -> Seq<char>
    decreases s,
{
    if s.len() == 0 {
        Seq::empty()
    } else {
        (if first {
            Seq::empty()
        } else {
            seq![',']
        }) + spec_quoted(s[0].0) + seq![':'] + spec_json_text(s[0].1) + spec_fields_text(
            s.drop_first(),
            false,
        )
    }
}

/// Appending one element extends the rendered list by a separator and
/// that element's text.
pub proof fn lemma_items_push(s: Seq<JsonV>, x: JsonV, first: bool)
    ensures
        spec_items_text(s.push(x), first) =~= spec_items_text(s, first) + (if first && s.len()
            == 0 {
            Seq::<char>::empty()
        } else {
            seq![',']
        }) + spec_json_text(x),
    decreases s.len(),
{
    let sep0: Seq<char> = if first {
        Seq::empty()
    } else {
        seq![',']
    };
    if s.len() == 0 {
        assert(s.push(x)[0] == x);
        assert(s.push(x).drop_first() =~= Seq::<JsonV>::empty());
        assert(spec_items_text(Seq::<JsonV>::empty(), false) =~= Seq::<char>::empty());
        assert(spec_items_text(s.push(x), first) =~= sep0 + spec_json_text(x));
        assert(spec_items_text(s, first) =~= Seq::<char>::empty());
        assert(spec_items_text(s.push(x), first) =~= spec_items_text(s, first) + sep0
            + spec_json_text(x));
    } else {
        lemma_items_push(s.drop_first(), x, false);
        assert(s.push(x).drop_first() =~= s.drop_first().push(x));
        assert(s.push(x)[0] == s[0]);
        let a = sep0 + spec_json_text(s[0]);
        let b = spec_items_text(s.drop_first(), false);
        let c = seq![','] + spec_json_text(x);
        assert(spec_items_text(s.push(x), first) == a + spec_items_text(
            s.drop_first().push(x),
            false,
        ));
        assert(spec_items_text(s.drop_first().push(x), false) =~= b + c);
        assert(spec_items_text(s.push(x), first) =~= a + (b + c));
        assert(spec_items_text(s, first) == a + b);
        assert(a + (b + c) =~= (a + b) + c);
    }
}

/// Appending one field extends the rendered object by a separator and
/// that field's text.
pub proof fn lemma_fields_push(s: Seq<(Seq<char>, JsonV)>, x: (Seq<char>, JsonV), first: bool)
    ensures
        spec_fields_text(s.push(x), first) =~= spec_fields_text(s, first) + (if first && s.len()
            == 0 {
            Seq::<char>::empty()
        } else {
            seq![',']
        }) + spec_quoted(x.0) + seq![':'] + spec_json_text(x.1),
    decreases s.len(),
{
    let sep0: Seq<char> = if first {
        Seq::empty()
    } else {
        seq![',']
    };
    if s.len() == 0 {
        assert(s.push(x)[0] == x);
        assert(s.push(x).drop_first() =~= Seq::<(Seq<char>, JsonV)>::empty());
        assert(spec_fields_text(Seq::<(Seq<char>, JsonV)>::empty(), false) =~= Seq::<
            char,
        >::empty());
        assert(spec_fields_text(s.push(x), first) =~= sep0 + spec_quoted(x.0) + seq![':']
            + spec_json_text(x.1));
        assert(spec_fields_text(s, first) =~= Seq::<char>::empty());
        assert(spec_fields_text(s.push(x), first) =~= spec_fields_text(s, first) + sep0
            + spec_quoted(x.0) + seq![':'] + spec_json_text(x.1));
    } else {
        lemma_fields_push(s.drop_first(), x, false);
        assert(s.push(x).drop_first() =~= s.drop_first().push(x));
        assert(s.push(x)[0] == s[0]);
        let a = sep0 + spec_quoted(s[0].0) + seq![':'] + spec_json_text(s[0].1);
        let b = spec_fields_text(s.drop_first(), false);
        let c = seq![','] + spec_quoted(x.0) + seq![':'] + spec_json_text(x.1);
        assert(spec_fields_text(s.push(x), first) == a + spec_fields_text(
            s.drop_first().push(x),
            false,
        ));
        assert(spec_fields_text(s.drop_first().push(x), false) =~= b + c);
        assert(spec_fields_text(s.push(x), first) =~= a + (b + c));
        assert(spec_fields_text(s, first) == a + b);
        assert(a + (b + c) =~= (a + b) + c);
    }
}

/// Renders a document as compact JSON text.
pub fn json_to_text(j: &Json) -> (r: String)
    ensures
        r@ =~= spec_json_text(jv(*j)),
    decreases *j,
{
    match j {
        Json::Null => String::from_str("null"),
        Json::Bool(b) => {
            if *b {
                String::from_str("true")
            } else {
                String::from_str("false")
            }
        },
        Json::Num(t) => t.clone(),
        Json::Str(s) => {
            let mut out = String::new();
            append_quoted(&mut out, s.as_str());
            out
        },
        Json::Arr(v) => {
            proof {
                lemma_jv_list_index(v@);
            }
            let mut out = String::new();
            out.push('[');
            let n = v.len();
            let mut i: usize = 0;
            while i < n
                invariant
                    n == v@.len(),
                    i <= n,
                    out@ =~= seq!['['] + spec_items_text(jv_list(v@).take(i as int), true),
                    jv_list(v@).len() == v@.len(),
                    forall|k: int| 0 <= k < v@.len() ==> jv_list(v@)[k] == jv(v@[k]),
                    *j == Json::Arr(*v),
                decreases n - i,
            {
                if i > 0 {
                    out.push(',');
                }
                proof {
                    assert(decreases_to!(*j => j->Arr_0));
                    assert(j->Arr_0 == *v);
                    assert(decreases_to!(*v => v@));
                    assert(decreases_to!(v@ => v@[i as int]));
                    assert(decreases_to!(*j => v@[i as int]));
                }
                let piece = json_to_text(&v[i]);
                out.append(piece.as_str());
                proof {
                    lemma_items_push(jv_list(v@).take(i as int), jv_list(v@)[i as int], true);
                    assert(jv_list(v@).take(i + 1 as int) =~= jv_list(v@).take(i as int).push(
                        jv_list(v@)[i as int],
                    ));
                }
                i += 1;
            }
            out.push(']');
            proof {
                assert(jv_list(v@).take(n as int) =~= jv_list(v@));
            }
            out
        },
        Json::Obj(v) => {
            proof {
                lemma_jv_fields_index(v@);
            }
            let mut out = String::new();
            out.push('{');
            let n = v.len();
            let mut i: usize = 0;
            while i < n
                invariant
                    n == v@.len(),
                    i <= n,
                    out@ =~= seq!['{'] + spec_fields_text(jv_fields(v@).take(i as int), true),
                    jv_fields(v@).len() == v@.len(),
                    forall|k: int|
                        0 <= k < v@.len() ==> jv_fields(v@)[k] == (v@[k].0@, jv(v@[k].1)),
                    *j == Json::Obj(*v),
                decreases n - i,
            {
                if i > 0 {
                    out.push(',');
                }
                append_quoted(&mut out, v[i].0.as_str());
                out.push(':');
                proof {
                    assert(decreases_to!(*j => j->Obj_0));
                    assert(j->Obj_0 == *v);
                    assert(decreases_to!(*v => v@));
                    assert(decreases_to!(v@ => v@[i as int]));
                    assert(decreases_to!(v@[i as int] => v@[i as int].1));
                    assert(decreases_to!(*j => v@[i as int].1));
                }
                let piece = json_to_text(&v[i].1);
                out.append(piece.as_str());
                proof {
                    lemma_fields_push(
                        jv_fields(v@).take(i as int),
                        jv_fields(v@)[i as int],
                        true,
                    );
                    assert(jv_fields(v@).take(i + 1 as int) =~= jv_fields(v@).take(
                        i as int,
                    ).push(jv_fields(v@)[i as int]));
                }
                i += 1;
            }
            out.push('}');
            proof {
                assert(jv_fields(v@).take(n as int) =~= jv_fields(v@));
            }
            out
        },
    }
}

/// A raw JSON payload, or `null` where none was given.
pub open spec fn spec_raw_or_null(p: Option<String>) -> Seq<char> {
    match p {
        Some(s) => s@,
        None => "null"@,
    }
}

/// A quoted string, or `null` where none was given.
pub open spec fn spec_opt_quoted(s: Option<String>) -> Seq<char> {
    match s {
        Some(t) => spec_quoted(t@),
        None => "null"@,
    }
}

/// The wire text of an outgoing-capable frame; `None` for the kinds only
/// the hub may send.
pub open spec fn spec_encode(m: Message) -> Option<Seq<char>> {
    match m {
        Message::Auth { access_token } => Some(
            "{\"type\":\"auth\",\"access_token\":"@ + spec_quoted(access_token@) + "}"@,
        ),
        Message::CallService { id, domain, service, service_data, target } => Some(
            "{\"type\":\"call_service\",\"id\":"@ + spec_dec_digits(id as nat) + ",\"domain\":"@
                + spec_quoted(domain@) + ",\"service\":"@ + spec_quoted(service@)
                + ",\"service_data\":"@ + spec_raw_or_null(service_data) + ",\"target\":"@
                + spec_raw_or_null(target) + "}"@,
        ),
        Message::SubscribeEvents { id, event_type } => Some(
            "{\"type\":\"subscribe_events\",\"id\":"@ + spec_dec_digits(id as nat)
                + ",\"event_type\":"@ + spec_opt_quoted(event_type) + "}"@,
        ),
        Message::SubscribeTrigger { id, trigger } => Some(
            "{\"type\":\"subscribe_trigger\",\"id\":"@ + spec_dec_digits(id as nat)
                + ",\"trigger\":"@ + trigger@ + "}"@,
        ),
        Message::Ping { id } => Some(
            "{\"type\":\"ping\",\"id\":"@ + spec_dec_digits(id as nat) + "}"@,
        ),
        Message::GetStates { id } => Some(
            "{\"type\":\"get_states\",\"id\":"@ + spec_dec_digits(id as nat) + "}"@,
        ),
        _ => None,
    }
}

/// Appends the JSON string literal holding `s`.
fn append_quoted(out: &mut String, s: &str)
    ensures
        final(out)@ =~= old(out)@ + spec_quoted(s@),
{
    out.push('"');
    let body = escape_json(s);
    out.append(body.as_str());
    out.push('"');
}

/// Appends a raw JSON payload, or `null`.
fn append_raw_or_null(out: &mut String, p: &Option<String>)
    ensures
        final(out)@ =~= old(out)@ + spec_raw_or_null(*p),
{
    match p {
        Some(s) => out.append(s.as_str()),
        None => out.append("null"),
    }
}

/// Appends a quoted string, or `null`.
fn append_opt_quoted(out: &mut String, s: &Option<String>)
    ensures
        final(out)@ =~= old(out)@ + spec_opt_quoted(*s),
{
    match s {
        Some(t) => append_quoted(out, t.as_str()),
        None => out.append("null"),
    }
}

/// Encodes an outgoing-capable frame as its wire text; the kinds only
/// the hub may send have none.
pub fn encode_message(m: &Message) -> (r: Option<String>)
    ensures
        (r is Some) == (spec_encode(*m) is Some),
        r matches Some(t) ==> (spec_encode(*m) matches Some(s) && t@ == s),
{
    match m {
        Message::Auth { access_token } => {
            let mut out = String::from_str("{\"type\":\"auth\",\"access_token\":");
            append_quoted(&mut out, access_token.as_str());
            out.append("}");
            Some(out)
        },
        Message::CallService { id, domain, service, service_data, target } => {
            let mut out = String::from_str("{\"type\":\"call_service\",\"id\":");
            let dec = u64_to_dec(*id);
            out.append(dec.as_str());
            out.append(",\"domain\":");
            append_quoted(&mut out, domain.as_str());
            out.append(",\"service\":");
            append_quoted(&mut out, service.as_str());
            out.append(",\"service_data\":");
            append_raw_or_null(&mut out, service_data);
            out.append(",\"target\":");
            append_raw_or_null(&mut out, target);
            out.append("}");
            Some(out)
        },
        Message::SubscribeEvents { id, event_type } => {
            let mut out = String::from_str("{\"type\":\"subscribe_events\",\"id\":");
            let dec = u64_to_dec(*id);
            out.append(dec.as_str());
            out.append(",\"event_type\":");
            append_opt_quoted(&mut out, event_type);
            out.append("}");
            Some(out)
        },
        Message::SubscribeTrigger { id, trigger } => {
            let mut out = String::from_str("{\"type\":\"subscribe_trigger\",\"id\":");
            let dec = u64_to_dec(*id);
            out.append(dec.as_str());
            out.append(",\"trigger\":");
            out.append(trigger.as_str());
            out.append("}");
            Some(out)
        },
        Message::Ping { id } => {
            let mut out = String::from_str("{\"type\":\"ping\",\"id\":");
            let dec = u64_to_dec(*id);
            out.append(dec.as_str());
            out.append("}");
            Some(out)
        },
        Message::GetStates { id } => {
            let mut out = String::from_str("{\"type\":\"get_states\",\"id\":");
            let dec = u64_to_dec(*id);
            out.append(dec.as_str());
            out.append("}");
            Some(out)
        },
        _ => None,
    }
}

} // verus!
