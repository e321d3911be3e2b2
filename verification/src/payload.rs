//! The response payload: a message and an integer value.

use vstd::prelude::*;

verus! {

/// Holds exactly when every byte of `s` may stand inside a JSON string
/// without escaping: printable ASCII, no quote, no backslash.
pub open spec fn json_safe(s: Seq<u8>) -> bool {
    forall|i: int| 0 <= i < s.len() ==> 32 <= #[trigger] s[i] <= 126 && s[i] != 34 && s[i] != 92
}

/// The bytes of the fixed greeting message, `Hello from Rust (axum)`.
pub open spec fn hello_message() -> Seq<u8> {
    seq![
        72u8, 101u8, 108u8, 108u8, 111u8, 32u8, 102u8, 114u8, 111u8, 109u8, 32u8, 82u8,
        117u8, 115u8, 116u8, 32u8, 40u8, 97u8, 120u8, 117u8, 109u8, 41u8,
    ]
}

/// The payload of the one endpoint: a text message and an integer value.
pub struct Payload {
    pub message: Vec<u8>,
    pub value: i32,
}

impl Payload {
    /// A payload is well formed when its message needs no JSON escaping.
    pub open spec fn wf(self) -> bool {
        json_safe(self.message@)
    }

    /// Builds a payload, accepting exactly the messages that need no escaping.
    pub fn new(message: Vec<u8>, value: i32) -> (r: Option<Payload>)
        ensures
            json_safe(message@) ==> (r matches Some(p) && p.message@ == message@
                && p.value == value && p.wf()),
            !json_safe(message@) ==> r is None,
    {
        if check_json_safe(&message) {
            Some(Payload { message, value })
        } else {
            None
        }
    }

    /// The fixed payload the service answers with: the greeting and `42`.
    pub fn hello() -> (p: Payload)
        ensures
            p.message@ == hello_message(),
            p.value == 42,
            p.wf(),
    {
        let mut m: Vec<u8> = Vec::new();
        m.push(72);
        m.push(101);
        m.push(108);
        m.push(108);
        m.push(111);
        m.push(32);
        m.push(102);
        m.push(114);
        m.push(111);
        m.push(109);
        m.push(32);
        m.push(82);
        m.push(117);
        m.push(115);
        m.push(116);
        m.push(32);
        m.push(40);
        m.push(97);
        m.push(120);
        m.push(117);
        m.push(109);
        m.push(41);
        assert(m@ =~= hello_message());
        Payload { message: m, value: 42 }
    }
}

/// Decides `json_safe` for a byte string.
pub fn check_json_safe(s: &Vec<u8>) -> (r: bool)
    ensures
        r == json_safe(s@),
{
    let mut i: usize = 0;
    while i < s.len()
        invariant
            i <= s.len(),
            forall|j: int| 0 <= j < i ==> 32 <= #[trigger] s@[j] <= 126 && s@[j] != 34
                && s@[j] != 92,
        decreases s.len() - i,
    {
        let b: u8 = s[i];
        if b < 32 || b > 126 || b == 34 || b == 92 {
            return false;
        }
        i += 1;
    }
    true
}

} // verus!
