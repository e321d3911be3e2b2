//! The JSON encoding of the payload, as exact bytes.

use vstd::prelude::*;
use crate::numeral::{int_repr, render_i32};
use crate::payload::Payload;

verus! {

/// The bytes of `{"message":"`, the opening of the encoded object.
pub open spec fn obj_open() -> Seq<u8> {
    seq![123u8, 34u8, 109u8, 101u8, 115u8, 115u8, 97u8, 103u8, 101u8, 34u8, 58u8, 34u8]
}

/// The bytes of `","value":`, between the message and the value.
pub open spec fn obj_mid() -> Seq<u8> {
    seq![34u8, 44u8, 34u8, 118u8, 97u8, 108u8, 117u8, 101u8, 34u8, 58u8]
}

/// The whole JSON object for a message and a value:
/// `{"message":"<msg>","value":<v>}`.
pub open spec fn json_body_of(msg: Seq<u8>, v: int) -> Seq<u8> {
    obj_open() + msg + obj_mid() + int_repr(v) + seq![125u8]
}

/// The encoded body is never empty: it opens with `{"message":"`.
pub proof fn lemma_json_body_nonempty(msg: Seq<u8>, v: int)
    ensures
        json_body_of(msg, v).len() > 0,
{
}

/// Where each part of the encoded object stands: the message bytes start at
/// offset 12, a closing quote follows them, and the rendered value follows
/// the fixed middle part.
pub proof fn lemma_json_body_index(m: Seq<u8>, v: int)
    ensures
        json_body_of(m, v).len() == 23 + m.len() + int_repr(v).len(),
        forall|i: int| 0 <= i < m.len() ==> json_body_of(m, v)[12 + i] == #[trigger] m[i],
        json_body_of(m, v)[12 + m.len() as int] == 34,
        forall|j: int|
            0 <= j < int_repr(v).len() ==> json_body_of(m, v)[22 + m.len() + j]
                == #[trigger] int_repr(v)[j],
{
    let o = obj_open();
    let mid = obj_mid();
    let ir = int_repr(v);
    let c = seq![125u8];
    let b = json_body_of(m, v);
    assert forall|i: int| 0 <= i < m.len() implies b[12 + i] == #[trigger] m[i] by {
        assert((o + m)[12 + i] == m[i]);
        assert(((o + m) + mid)[12 + i] == (o + m)[12 + i]);
        assert((((o + m) + mid) + ir)[12 + i] == ((o + m) + mid)[12 + i]);
        assert(b[12 + i] == (((o + m) + mid) + ir)[12 + i]);
    }
    assert(((o + m) + mid)[12 + m.len() as int] == mid[0]);
    assert((((o + m) + mid) + ir)[12 + m.len() as int] == ((o + m) + mid)[12 + m.len() as int]);
    assert(b[12 + m.len() as int] == (((o + m) + mid) + ir)[12 + m.len() as int]);
    assert forall|j: int| 0 <= j < ir.len() implies b[22 + m.len() + j] == #[trigger] ir[j] by {
        assert((((o + m) + mid) + ir)[22 + m.len() + j] == ir[j]);
        assert(b[22 + m.len() + j] == (((o + m) + mid) + ir)[22 + m.len() + j]);
    }
}

/// The encoding is faithful: for messages that need no escaping, equal
/// bodies come only from an equal message and an equal value.
pub proof fn lemma_json_body_injective(m1: Seq<u8>, v1: int, m2: Seq<u8>, v2: int)
    requires
        crate::payload::json_safe(m1),
        crate::payload::json_safe(m2),
        json_body_of(m1, v1) == json_body_of(m2, v2),
    ensures
        m1 == m2,
        v1 == v2,
{
    let b = json_body_of(m1, v1);
    lemma_json_body_index(m1, v1);
    lemma_json_body_index(m2, v2);
    if m1.len() < m2.len() {
        assert(b[12 + m1.len() as int] == 34);
        assert(b[12 + m1.len() as int] == m2[m1.len() as int]);
        assert(false);
    }
    if m2.len() < m1.len() {
        assert(b[12 + m2.len() as int] == 34);
        assert(b[12 + m2.len() as int] == m1[m2.len() as int]);
        assert(false);
    }
    assert forall|i: int| 0 <= i < m1.len() implies m1[i] == m2[i] by {
        assert(b[12 + i] == m1[i]);
        assert(b[12 + i] == m2[i]);
    }
    assert(m1 =~= m2);
    let ir1 = int_repr(v1);
    let ir2 = int_repr(v2);
    assert(ir1.len() == ir2.len());
    assert forall|j: int| 0 <= j < ir1.len() implies ir1[j] == ir2[j] by {
        assert(b[22 + m1.len() + j] == ir1[j]);
        assert(b[22 + m2.len() + j] == ir2[j]);
    }
    assert(ir1 =~= ir2);
    crate::numeral::lemma_int_repr_injective(v1, v2);
}

/// Encodes a payload as JSON, exactly the bytes that `json_body_of` describes.
pub fn render_json(p: &Payload) -> (r: Vec<u8>)
    ensures
        r@ == json_body_of(p.message@, p.value as int),
{
    let mut out: Vec<u8> = Vec::new();
    out.push(123);
    out.push(34);
    out.push(109);
    out.push(101);
    out.push(115);
    out.push(115);
    out.push(97);
    out.push(103);
    out.push(101);
    out.push(34);
    out.push(58);
    out.push(34);
    assert(out@ =~= obj_open());
    let mut i: usize = 0;
    while i < p.message.len()
        invariant
            i <= p.message.len(),
            out@ == obj_open() + p.message@.subrange(0, i as int),
        decreases p.message.len() - i,
    {
        out.push(p.message[i]);
        assert(out@ =~= obj_open() + p.message@.subrange(0, i + 1 as int));
        i += 1;
    }
    assert(p.message@.subrange(0, p.message@.len() as int) =~= p.message@);
    out.push(34);
    out.push(44);
    out.push(34);
    out.push(118);
    out.push(97);
    out.push(108);
    out.push(117);
    out.push(101);
    out.push(34);
    out.push(58);
    assert(out@ =~= obj_open() + p.message@ + obj_mid());
    let mut num: Vec<u8> = render_i32(p.value);
    out.append(&mut num);
    out.push(125);
    assert(out@ =~= json_body_of(p.message@, p.value as int));
    out
}

} // verus!
