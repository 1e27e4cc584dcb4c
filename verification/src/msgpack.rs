use vstd::prelude::*;
use rmpv::Value as Raw;
use crate::msgpack::MsgPack::{Array, Binary, Boolean, Ext, Integer, Nil, Pairs, Text, F32, F64};
use crate::json::{lower, node_tree};
use crate::payload::{entries_view, finite_bits, items_view, put, Json, Payload};
use crate::text::{decimal, i64_to_decimal, signed_decimal, u64_to_decimal};

verus! {

/// A decoded MessagePack value.
///
/// `Integer` holds the number as an unsigned and as a signed 64-bit
/// integer, each where it fits. `F32` and `F64` hold the bits of the number
/// as a double. `Text` is `None` where the bytes of a string were not UTF-8.
#[derive(Debug, PartialEq, Eq)]
pub enum MsgPack {
    Nil,
    Boolean(bool),
    Integer(Option<u64>, Option<i64>),
    F32(u64),
    F64(u64),
    Text(Option<String>),
    Binary(Vec<u8>),
    Array(Vec<MsgPack>),
    Pairs(Vec<(MsgPack, MsgPack)>),
    Ext(i8, Vec<u8>),
}

/// `rmpv::Value`, known to the verifier by name only.
#[verifier::external_type_specification]
#[verifier::external_body]
pub struct ExRaw(rmpv::Value);

/// The tree that an `rmpv::Value` holds.
pub uninterp spec fn raw_tree(raw: rmpv::Value) -> MsgPack;

/// Takes an `rmpv::Value` apart, variant by variant: an integer is kept as
/// what `as_u64` and `as_i64` give, a float as the bits of what `as_f64`
/// gives (for `F32` the same number as a double), a string as `into_str`.
#[verifier::external_body]
pub(crate) fn lift(raw: rmpv::Value) -> (out: MsgPack)
    ensures
        out == raw_tree(raw),
{
    match raw {
        Raw::Nil => Nil,
        Raw::Boolean(b) => Boolean(b),
        Raw::Integer(i) => Integer(i.as_u64(), i.as_i64()),
        ref x @ Raw::F32(_) => F32(x.as_f64().unwrap().to_bits()),
        Raw::F64(f) => F64(f.to_bits()),
        Raw::String(s) => Text(s.into_str()),
        Raw::Binary(b) => Binary(b),
        Raw::Array(a) => Array(a.into_iter().map(lift).collect()),
        Raw::Map(m) => Pairs(m.into_iter().map(|(k, v)| (lift(k), lift(v))).collect()),
        Raw::Ext(t, b) => Ext(t, b),
    }
}

/// The tree that `rmpv::decode::read_value` reads from the front of the
/// bytes, or the text of its error.
pub uninterp spec fn msgpack_parsed(bytes: Seq<u8>) -> Result<MsgPack, Seq<char>>;

/// The bytes that `rmp_serde::to_vec_named` writes for a tree, or the text
/// of its error.
pub uninterp spec fn msgpack_bytes(tree: Json) -> Result<Seq<u8>, Seq<char>>;

/// The text that `String::from_utf8_lossy` makes of bytes.
pub uninterp spec fn utf8_lossy(bytes: Seq<u8>) -> Seq<char>;

/// `rmpv::decode::read_value` on a byte slice: one value is read from its
/// front and what follows is left unread. An error is handed on as its text.
#[verifier::external_body]
pub(crate) fn read_raw(bytes: &[u8]) -> (out: Result<rmpv::Value, String>)
    ensures
        match out {
            Ok(raw) => msgpack_parsed(bytes@) == Ok::<MsgPack, Seq<char>>(raw_tree(raw)),
            Err(e) => msgpack_parsed(bytes@) == Err::<MsgPack, Seq<char>>(e@),
        },
{
    let mut rest = bytes;
    rmpv::decode::read_value(&mut rest).map_err(|e| e.to_string())
}

/// `rmp_serde::to_vec_named` on a `serde_json::Value`. An error is handed on
/// as its text.
#[verifier::external_body]
pub(crate) fn pack_node(node: &serde_json::Value) -> (out: Result<Vec<u8>, String>)
    ensures
        match out {
            Ok(bytes) => msgpack_bytes(node_tree(*node)) == Ok::<Seq<u8>, Seq<char>>(bytes@),
            Err(e) => msgpack_bytes(node_tree(*node)) == Err::<Seq<u8>, Seq<char>>(e@),
        },
{
    rmp_serde::to_vec_named(node).map_err(|e| e.to_string())
}

/// `String::from_utf8_lossy` on bytes, as an owned string.
#[verifier::external_body]
pub(crate) fn lossy_text(bytes: &Vec<u8>) -> (out: String)
    ensures
        out@ == utf8_lossy(bytes@),
{
    String::from_utf8_lossy(bytes).into_owned()
}

/// The largest magnitude of an integer that is kept as a number: `2^53 - 1`.
pub const MAX_SAFE_INT: u64 = 9_007_199_254_740_991;

/// The text of a decoded string; empty where its bytes were not UTF-8.
pub open spec fn text_or_empty(s: Option<String>) -> Seq<char> {
    match s {
        Some(t) => t@,
        None => Seq::empty(),
    }
}

/// The payload node for a decoded integer: the integer itself while its
/// magnitude is at most `MAX_SAFE_INT`, else its decimal text.
pub open spec fn integer_json(unsigned: Option<u64>, signed: Option<i64>) -> Json {
    match unsigned {
        Some(n) => if n > MAX_SAFE_INT {
            Json::Str(decimal(n as nat))
        } else {
            Json::Int(n as int)
        },
        None => match signed {
            Some(n) => if n < -(MAX_SAFE_INT as int) {
                Json::Str(signed_decimal(n as int))
            } else {
                Json::Int(n as int)
            },
            None => Json::Null,
        },
    }
}

/// The payload node for a decoded float: the number itself when finite, else
/// the integer zero.
pub open spec fn float_json(bits: u64) -> Json {
    if finite_bits(bits) {
        Json::Float(bits)
    } else {
        Json::Int(0)
    }
}

/// The object key that a decoded map key becomes.
pub open spec fn key_text(key: MsgPack) -> Seq<char> {
    match key {
        Text(s) => text_or_empty(s),
        Integer(Some(n), _) => decimal(n as nat),
        Integer(None, Some(n)) => signed_decimal(n as int),
        Boolean(b) => if b {
            "true"@
        } else {
            "false"@
        },
        _ => "unknown"@,
    }
}

/// The payload tree that a decoded MessagePack value stands for.
pub open spec fn to_json(val: MsgPack) -> Json
    decreases val,
{
    match val {
        Nil => Json::Null,
        Boolean(b) => Json::Bool(b),
        Integer(unsigned, signed) => integer_json(unsigned, signed),
        F32(bits) => float_json(bits),
        F64(bits) => float_json(bits),
        Text(s) => Json::Str(text_or_empty(s)),
        Binary(bytes) => Json::Str(utf8_lossy(bytes@)),
        Array(items) => Json::Arr(items_json(items@)),
        Pairs(pairs) => Json::Obj(pairs_json(pairs@)),
        Ext(_, _) => Json::Null,
    }
}

/// The payload trees of the items of a decoded array, in order.
pub open spec fn items_json(items: Seq<MsgPack>) -> Seq<Json>
    decreases items,
{
    if items.len() == 0 {
        Seq::empty()
    } else {
        items_json(items.drop_last()).push(to_json(items.last()))
    }
}

/// The mapping that the pairs of a decoded map stand for: a later pair
/// replaces an earlier one whose key gives the same text.
pub open spec fn pairs_json(pairs: Seq<(MsgPack, MsgPack)>) -> Map<Seq<char>, Json>
    decreases pairs,
{
    if pairs.len() == 0 {
        Map::empty()
    } else {
        pairs_json(pairs.drop_last()).insert(key_text(pairs.last().0), to_json(pairs.last().1))
    }
}

fn integer_to_json(unsigned: Option<u64>, signed: Option<i64>) -> (out: Payload)
    ensures
        out@ == integer_json(unsigned, signed),
{
    match unsigned {
        Some(n) => if n > MAX_SAFE_INT {
            Payload::String(u64_to_decimal(n))
        } else {
            Payload::PosInt(n)
        },
        None => match signed {
            Some(n) => if n < -9_007_199_254_740_991i64 {
                Payload::String(i64_to_decimal(n))
            } else {
                Payload::NegInt(n)
            },
            None => Payload::Null,
        },
    }
}

fn float_to_json(bits: u64) -> (out: Payload)
    ensures
        out@ == float_json(bits),
{
    let exponent: u64 = (bits >> 52) & 0x7FF;
    if exponent != 0x7FF {
        Payload::Float(bits)
    } else {
        Payload::PosInt(0)
    }
}

fn text_of(s: &Option<String>) -> (out: String)
    ensures
        out@ == text_or_empty(*s),
{
    match s {
        Some(t) => t.clone(),
        None => String::new(),
    }
}

fn key_to_string(key: &MsgPack) -> (out: String)
    ensures
        out@ == key_text(*key),
{
    match key {
        Text(s) => text_of(s),
        Integer(Some(n), _) => u64_to_decimal(*n),
        Integer(None, Some(n)) => i64_to_decimal(*n),
        Boolean(b) => if *b {
            "true".to_owned()
        } else {
            "false".to_owned()
        },
        _ => "unknown".to_owned(),
    }
}

/// Turns a decoded MessagePack value into a payload tree. Integers whose
/// magnitude is above `MAX_SAFE_INT` become their decimal text, floats that
/// are not finite become zero, binary data becomes lossy text, map keys
/// become text, and extension values become null.
pub fn msgpack_to_json(val: &MsgPack) -> (out: Payload)
    ensures
        out@ == to_json(*val),
    decreases val,
{
    match val {
        Nil => Payload::Null,
        Boolean(b) => Payload::Bool(*b),
        Integer(unsigned, signed) => integer_to_json(*unsigned, *signed),
        F32(bits) => float_to_json(*bits),
        F64(bits) => float_to_json(*bits),
        Text(s) => Payload::String(text_of(s)),
        Binary(bytes) => Payload::String(lossy_text(bytes)),
        Array(items) => {
            let mut out: Vec<Payload> = Vec::new();
            let mut i: usize = 0;
            while i < items.len()
                invariant
                    i <= items.len(),
                    decreases_to!(*val => *items),
                    items_view(out@) == items_json(items@.take(i as int)),
                decreases items.len() - i,
            {
                proof {
                    assert(decreases_to!(*items => items[i as int]));
                }
                let item = msgpack_to_json(&items[i]);
                let ghost before = out@;
                out.push(item);
                proof {
                    assert(out@.drop_last() =~= before);
                    assert(items@.take(i + 1).drop_last() =~= items@.take(i as int));
                    assert(items@.take(i + 1).last() == items@[i as int]);
                }
                i = i + 1;
            }
            proof {
                assert(items@.take(i as int) =~= items@);
            }
            Payload::Array(out)
        },
        Pairs(pairs) => {
            let mut out: Vec<(String, Payload)> = Vec::new();
            let mut i: usize = 0;
            while i < pairs.len()
                invariant
                    i <= pairs.len(),
                    decreases_to!(*val => *pairs),
                    entries_view(out@) == pairs_json(pairs@.take(i as int)),
                decreases pairs.len() - i,
            {
                proof {
                    assert(decreases_to!(*pairs => pairs[i as int]));
                }
                let key = key_to_string(&pairs[i].0);
                let value = msgpack_to_json(&pairs[i].1);
                put(&mut out, key.as_str(), value);
                proof {
                    assert(pairs@.take(i + 1).drop_last() =~= pairs@.take(i as int));
                    assert(pairs@.take(i + 1).last() == pairs@[i as int]);
                }
                i = i + 1;
            }
            proof {
                assert(pairs@.take(i as int) =~= pairs@);
            }
            Payload::Object(out)
        },
        Ext(_, _) => Payload::Null,
    }
}

/// Reads one MessagePack value from the front of `bytes`.
pub fn from_msgpack_bytes(bytes: &[u8]) -> (out: Result<MsgPack, String>)
    ensures
        match out {
            Ok(tree) => msgpack_parsed(bytes@) == Ok::<MsgPack, Seq<char>>(tree),
            Err(e) => msgpack_parsed(bytes@) == Err::<MsgPack, Seq<char>>(e@),
        },
{
    match read_raw(bytes) {
        Ok(raw) => Ok(lift(raw)),
        Err(e) => Err(e),
    }
}

/// Writes a payload tree as MessagePack, objects as maps with their keys.
pub fn to_msgpack_bytes(p: &Payload) -> (out: Result<Vec<u8>, String>)
    ensures
        match out {
            Ok(bytes) => msgpack_bytes(p@) == Ok::<Seq<u8>, Seq<char>>(bytes@),
            Err(e) => msgpack_bytes(p@) == Err::<Seq<u8>, Seq<char>>(e@),
        },
{
    let node = lower(p);
    pack_node(&node)
}

/// Whether an integer is too large in magnitude to be kept as a number.
pub open spec fn beyond_safe(n: int) -> bool {
    n > MAX_SAFE_INT || n < -(MAX_SAFE_INT as int)
}

/// Whether `q` is the tree `p` with each integer beyond `MAX_SAFE_INT` in
/// magnitude replaced by its decimal text, and nothing else changed.
pub open spec fn comes_back_as(p: Json, q: Json) -> bool
    decreases p,
{
    match p {
        Json::Int(n) => q == (if beyond_safe(n) {
            Json::Str(signed_decimal(n))
        } else {
            Json::Int(n)
        }),
        Json::Arr(items) => {
            &&& q is Arr
            &&& q->Arr_0.len() == items.len()
            &&& forall|i: int|
                0 <= i < items.len() ==> comes_back_as(#[trigger] items[i], q->Arr_0[i])
        },
        Json::Obj(members) => {
            &&& q is Obj
            &&& q->Obj_0.dom() == members.dom()
            &&& forall|k: Seq<char>|
                members.dom().finite() && #[trigger] members.contains_key(k) ==> comes_back_as(
                    members[k],
                    q->Obj_0[k],
                )
        },
        _ => q == p,
    }
}

/// Whether the MessagePack value `m` is the plain form of the payload tree
/// `p`: null as nil, a boolean, integer or float as itself, a string as a
/// UTF-8 string, an array item by item, and an object as a map with one pair
/// for each member, keyed by the member's name as a string.
pub open spec fn mirrors(m: MsgPack, p: Json) -> bool
    decreases m,
{
    match m {
        Nil => p == Json::Null,
        Boolean(b) => p == Json::Bool(b),
        Integer(unsigned, signed) => {
            &&& p is Int
            &&& -0x8000_0000_0000_0000 <= p->Int_0 <= u64::MAX
            &&& unsigned == (if p->Int_0 >= 0 {
                Some(p->Int_0 as u64)
            } else {
                None
            })
            &&& signed == (if p->Int_0 <= i64::MAX {
                Some(p->Int_0 as i64)
            } else {
                None
            })
        },
        F64(bits) => finite_bits(bits) && p == Json::Float(bits),
        Text(s) => s is Some && p == Json::Str(s->Some_0@),
        Array(items) => {
            &&& p is Arr
            &&& p->Arr_0.len() == items@.len()
            &&& forall|i: int|
                0 <= i < items@.len() ==> mirrors(#[trigger] items@[i], p->Arr_0[i])
        },
        Pairs(pairs) => {
            &&& p is Obj
            &&& forall|i: int|
                0 <= i < pairs@.len() ==> {
                    &&& (#[trigger] pairs@[i]).0 is Text
                    &&& pairs@[i].0->Text_0 is Some
                    &&& p->Obj_0.contains_key(key_text(pairs@[i].0))
                    &&& mirrors(pairs@[i].1, p->Obj_0[key_text(pairs@[i].0)])
                }
            &&& forall|i: int, j: int|
                0 <= i < j < pairs@.len() ==> key_text((#[trigger] pairs@[i]).0) != key_text(
                    (#[trigger] pairs@[j]).0,
                )
            &&& forall|k: Seq<char>|
                p->Obj_0.contains_key(k) ==> exists|i: int|
                    0 <= i < pairs@.len() && key_text((#[trigger] pairs@[i]).0) == k
        },
        _ => false,
    }
}

/// `items_json` maps item by item.
pub proof fn lemma_items_json(items: Seq<MsgPack>)
    ensures
        items_json(items).len() == items.len(),
        forall|i: int| 0 <= i < items.len() ==> #[trigger] items_json(items)[i] == to_json(items[i]),
    decreases items.len(),
{
    if items.len() > 0 {
        let front = items.drop_last();
        lemma_items_json(front);
        assert(items_json(items) == items_json(front).push(to_json(items.last())));
        assert forall|i: int| 0 <= i < items.len() implies #[trigger] items_json(items)[i]
            == to_json(items[i]) by {
            if i < front.len() {
                assert(front[i] == items[i]);
            }
        }
    }
}

/// The mapping of a list of pairs has exactly the keys of the pairs, and
/// where no two pairs share a key it holds for each pair what its value
/// stands for.
pub proof fn lemma_pairs_json(pairs: Seq<(MsgPack, MsgPack)>)
    ensures
        forall|k: Seq<char>|
            pairs_json(pairs).contains_key(k) <==> exists|i: int|
                0 <= i < pairs.len() && key_text((#[trigger] pairs[i]).0) == k,
        (forall|i: int, j: int|
            0 <= i < j < pairs.len() ==> key_text((#[trigger] pairs[i]).0) != key_text(
                (#[trigger] pairs[j]).0,
            )) ==> forall|i: int|
            0 <= i < pairs.len() ==> pairs_json(pairs)[key_text((#[trigger] pairs[i]).0)]
                == to_json(pairs[i].1),
        pairs_json(pairs).dom().finite(),
    decreases pairs.len(),
{
    if pairs.len() > 0 {
        let front = pairs.drop_last();
        let n = pairs.len() - 1;
        lemma_pairs_json(front);
        assert(pairs_json(pairs) == pairs_json(front).insert(
            key_text(pairs.last().0),
            to_json(pairs.last().1),
        ));
        assert forall|k: Seq<char>| pairs_json(pairs).contains_key(k) <==> exists|i: int|
            0 <= i < pairs.len() && key_text((#[trigger] pairs[i]).0) == k by {
            if pairs_json(pairs).contains_key(k) {
                if k == key_text(pairs.last().0) {
                    assert(key_text(pairs[n].0) == k);
                } else {
                    let i = choose|i: int|
                        0 <= i < front.len() && key_text((#[trigger] front[i]).0) == k;
                    assert(key_text(pairs[i].0) == k);
                }
            }
            if exists|i: int| 0 <= i < pairs.len() && key_text((#[trigger] pairs[i]).0) == k {
                let i = choose|i: int|
                    0 <= i < pairs.len() && key_text((#[trigger] pairs[i]).0) == k;
                if i < n {
                    assert(key_text(front[i].0) == k);
                }
            }
        }
        if forall|i: int, j: int|
            0 <= i < j < pairs.len() ==> key_text((#[trigger] pairs[i]).0) != key_text(
                (#[trigger] pairs[j]).0,
            ) {
            assert forall|i: int, j: int| 0 <= i < j < front.len() implies key_text(
                (#[trigger] front[i]).0,
            ) != key_text((#[trigger] front[j]).0) by {
                assert(front[i] == pairs[i] && front[j] == pairs[j]);
            }
            assert forall|i: int| 0 <= i < pairs.len() implies pairs_json(pairs)[key_text(
                (#[trigger] pairs[i]).0,
            )] == to_json(pairs[i].1) by {
                if i < n {
                    assert(front[i] == pairs[i]);
                    assert(key_text(pairs[i].0) != key_text(pairs[n].0));
                }
            }
        }
    }
}

/// A payload tree that goes out as its plain MessagePack form comes back
/// from `msgpack_to_json` as itself, except that each integer beyond
/// `MAX_SAFE_INT` in magnitude comes back as its decimal text.
pub proof fn lemma_round_trip(m: MsgPack, p: Json)
    requires
        mirrors(m, p),
    ensures
        comes_back_as(p, to_json(m)),
    decreases m,
{
    match m {
        Array(items) => {
            lemma_items_json(items@);
            let q = items_json(items@);
            assert forall|i: int| 0 <= i < p->Arr_0.len() implies comes_back_as(
                #[trigger] p->Arr_0[i],
                q[i],
            ) by {
                assert(mirrors(items@[i], p->Arr_0[i]));
                lemma_round_trip(items@[i], p->Arr_0[i]);
            }
        },
        Pairs(pairs) => {
            lemma_pairs_json(pairs@);
            let q = pairs_json(pairs@);
            let members = p->Obj_0;
            assert forall|k: Seq<char>| q.contains_key(k) <==> members.contains_key(k) by {
                if q.contains_key(k) {
                    let i = choose|i: int|
                        0 <= i < pairs@.len() && key_text((#[trigger] pairs@[i]).0) == k;
                    assert(members.contains_key(key_text(pairs@[i].0)));
                }
            }
            assert(q.dom() =~= members.dom());
            assert forall|k: Seq<char>|
                members.dom().finite() && #[trigger] members.contains_key(k) implies comes_back_as(
                members[k],
                q[k],
            ) by {
                let i = choose|i: int|
                    0 <= i < pairs@.len() && key_text((#[trigger] pairs@[i]).0) == k;
                assert(mirrors(pairs@[i].1, members[key_text(pairs@[i].0)]));
                lemma_round_trip(pairs@[i].1, members[k]);
            }
        },
        _ => {},
    }
}

} // verus!
