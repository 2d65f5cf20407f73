//! Outbound messages. A request is the JSON object
//! `{"id":<id>,"name":"<name>","parameters":<params>}`; this module states its
//! byte form exactly and builds it.

use vstd::prelude::*;

use crate::digits::dec_digits;
use crate::digits::u64_to_dec;
use crate::escape::json_escaped;
use crate::escape::push_json_escaped;

verus! {

/// `{"id":`
pub open spec fn lit_msg_open() -> Seq<u8> {
    seq![123u8, 34u8, 105u8, 100u8, 34u8, 58u8]
}

/// `,"name":"`
pub open spec fn lit_msg_name() -> Seq<u8> {
    seq![44u8, 34u8, 110u8, 97u8, 109u8, 101u8, 34u8, 58u8, 34u8]
}

/// `","parameters":`
pub open spec fn lit_msg_params() -> Seq<u8> {
    seq![34u8, 44u8, 34u8, 112u8, 97u8, 114u8, 97u8, 109u8, 101u8, 116u8, 101u8, 114u8, 115u8, 34u8, 58u8]
}

/// The wire bytes of the request with identifier `id`, command name `name`
/// and parameter object `params` (already-serialized JSON).
pub open spec fn message_bytes(id: nat, name: Seq<u8>, params: Seq<u8>) -> Seq<u8> {
    lit_msg_open() + dec_digits(id) + lit_msg_name() + json_escaped(name) + lit_msg_params()
        + params + seq![125u8]
}

/// Append every byte of `s` to `out`.
pub fn push_all(out: &mut Vec<u8>, s: &[u8])
    ensures
        final(out)@ == old(out)@ + s@,
{
    let mut i: usize = 0;
    while i < s.len()
        invariant
            i <= s@.len(),
            out@ == old(out)@ + s@.subrange(0, i as int),
        decreases s@.len() - i,
    {
        out.push(s[i]);
        i = i + 1;
        assert(out@ =~= old(out)@ + s@.subrange(0, i as int));
    }
    assert(s@.subrange(0, s@.len() as int) =~= s@);
}

/// Build the wire bytes of one request.
pub fn encode_message(id: u64, name: &[u8], params: &[u8]) -> (r: Vec<u8>)
    ensures
        r@ == message_bytes(id as nat, name@, params@),
{
    let mut out: Vec<u8> = Vec::new();
    out.push(123u8);
    out.push(34u8);
    out.push(105u8);
    out.push(100u8);
    out.push(34u8);
    out.push(58u8);
    assert(out@ =~= lit_msg_open());
    let mut digits = u64_to_dec(id);
    push_all(&mut out, digits.as_slice());
    out.push(44u8);
    out.push(34u8);
    out.push(110u8);
    out.push(97u8);
    out.push(109u8);
    out.push(101u8);
    out.push(34u8);
    out.push(58u8);
    out.push(34u8);
    assert(out@ =~= lit_msg_open() + dec_digits(id as nat) + lit_msg_name());
    push_json_escaped(&mut out, name);
    out.push(34u8);
    out.push(44u8);
    out.push(34u8);
    out.push(112u8);
    out.push(97u8);
    out.push(114u8);
    out.push(97u8);
    out.push(109u8);
    out.push(101u8);
    out.push(116u8);
    out.push(101u8);
    out.push(114u8);
    out.push(115u8);
    out.push(34u8);
    out.push(58u8);
    assert(out@ =~= lit_msg_open() + dec_digits(id as nat) + lit_msg_name() + json_escaped(name@)
        + lit_msg_params());
    push_all(&mut out, params);
    out.push(125u8);
    assert(out@ =~= message_bytes(id as nat, name@, params@));
    out
}

/// Identifier monotonicity, made observable: the identifier a request carries
/// is recoverable from its wire bytes, so two requests with equal wire bytes
/// carry the same identifier. Since the k-th request of a session carries
/// identifier k, no two requests of one session ever share their wire form.
pub proof fn lemma_message_id_injective(
    id1: nat,
    name1: Seq<u8>,
    params1: Seq<u8>,
    id2: nat,
    name2: Seq<u8>,
    params2: Seq<u8>,
)
    requires
        message_bytes(id1, name1, params1) == message_bytes(id2, name2, params2),
    ensures
        id1 == id2,
{
    lemma_message_id_recoverable(id1, name1, params1);
    lemma_message_id_recoverable(id2, name2, params2);
    crate::digits::lemma_dec_digits_value(id1);
    crate::digits::lemma_dec_digits_value(id2);
}

/// The digits after the fixed opening of a request are exactly the digits of
/// its identifier.
pub proof fn lemma_message_id_recoverable(id: nat, name: Seq<u8>, params: Seq<u8>)
    ensures
        crate::frame::digits_prefix(
            message_bytes(id, name, params).subrange(
                lit_msg_open().len() as int,
                message_bytes(id, name, params).len() as int,
            ),
        ) == crate::digits::dec_digits(id),
{
    let d = crate::digits::dec_digits(id);
    crate::digits::lemma_dec_digits_wf(id);
    let m = message_bytes(id, name, params);
    let x = lit_msg_name() + json_escaped(name) + lit_msg_params() + params + seq![125u8];
    let r = m.subrange(lit_msg_open().len() as int, m.len() as int);
    assert(r =~= d + x);
    crate::frame::lemma_digits_prefix_concat(d, x);
    assert(x[0] == 44u8);
    assert(crate::frame::digits_prefix(x) =~= Seq::<u8>::empty());
    assert(d + crate::frame::digits_prefix(x) =~= d);
}

/// `{"value":"`
pub open spec fn lit_ctx_open() -> Seq<u8> {
    seq![123u8, 34u8, 118u8, 97u8, 108u8, 117u8, 101u8, 34u8, 58u8, 34u8]
}

/// The parameter object of a context switch: `{"value":"<ctx>"}`. The context
/// name is fixed text and needs no escaping.
pub open spec fn context_params_bytes(ctx: Seq<u8>) -> Seq<u8> {
    lit_ctx_open() + ctx + seq![34u8, 125u8]
}

/// Build the parameter object of a context switch.
pub fn encode_context_params(ctx: &[u8]) -> (r: Vec<u8>)
    ensures
        r@ == context_params_bytes(ctx@),
{
    let mut out: Vec<u8> = Vec::new();
    out.push(123u8);
    out.push(34u8);
    out.push(118u8);
    out.push(97u8);
    out.push(108u8);
    out.push(117u8);
    out.push(101u8);
    out.push(34u8);
    out.push(58u8);
    out.push(34u8);
    assert(out@ =~= lit_ctx_open());
    push_all(&mut out, ctx);
    out.push(34u8);
    out.push(125u8);
    assert(out@ =~= context_params_bytes(ctx@));
    out
}

/// `{"script":"`
pub open spec fn lit_script_open() -> Seq<u8> {
    seq![123u8, 34u8, 115u8, 99u8, 114u8, 105u8, 112u8, 116u8, 34u8, 58u8, 34u8]
}

/// `","args":`
pub open spec fn lit_script_args() -> Seq<u8> {
    seq![34u8, 44u8, 34u8, 97u8, 114u8, 103u8, 115u8, 34u8, 58u8]
}

/// The parameter object of a script execution:
/// `{"script":"<script>","args":<args>}`, with `args` already-serialized JSON.
pub open spec fn script_params_bytes(script: Seq<u8>, args: Seq<u8>) -> Seq<u8> {
    lit_script_open() + json_escaped(script) + lit_script_args() + args + seq![125u8]
}

/// Build the parameter object of a script execution.
pub fn encode_script_params(script: &[u8], args: &[u8]) -> (r: Vec<u8>)
    ensures
        r@ == script_params_bytes(script@, args@),
{
    let mut out: Vec<u8> = Vec::new();
    out.push(123u8);
    out.push(34u8);
    out.push(115u8);
    out.push(99u8);
    out.push(114u8);
    out.push(105u8);
    out.push(112u8);
    out.push(116u8);
    out.push(34u8);
    out.push(58u8);
    out.push(34u8);
    assert(out@ =~= lit_script_open());
    push_json_escaped(&mut out, script);
    out.push(34u8);
    out.push(44u8);
    out.push(34u8);
    out.push(97u8);
    out.push(114u8);
    out.push(103u8);
    out.push(115u8);
    out.push(34u8);
    out.push(58u8);
    assert(out@ =~= lit_script_open() + json_escaped(script@) + lit_script_args());
    push_all(&mut out, args);
    out.push(125u8);
    assert(out@ =~= script_params_bytes(script@, args@));
    out
}

} // verus!
