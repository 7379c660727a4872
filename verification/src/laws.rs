//! The protocol-level laws this codec guarantees, proved once and for all
//! frames, not just for the frames a test happens to pick.

use vstd::prelude::*;

use crate::classify::{spec_classify, WssMessageV};
use crate::envelope::{spec_envelope, MessageV};
use crate::method::{spec_decode_method_tagged, MethodMessageV, ResultResponseV};
use crate::tree::{field_value, lemma_remove_other, FieldSeq, JsonV};

verus! {

/// The envelope field names are pairwise distinct.
proof fn lemma_envelope_keys_distinct()
    ensures
        "method"@ != "params"@,
        "method"@ != "req_id"@,
        "params"@ != "req_id"@,
{
    reveal_strlit("method");
    reveal_strlit("params");
    reveal_strlit("req_id");
    assert(("method"@).len() == 6);
    assert(("params"@).len() == 6);
    assert(("req_id"@).len() == 6);
    assert(("method"@)[0] == 'm');
    assert(("params"@)[0] == 'p');
    assert(("req_id"@)[0] == 'r');
}

/// The result-iff-success discipline of a decoded method reply: on success
/// the error is absent and the result present (absent for the empty-result
/// keepalive); on failure the reply exposes only its error.
pub open spec fn reply_discipline<TV>(r: ResultResponseV<TV>, empty_result: bool) -> bool {
    &&& r.success ==> r.error is None
    &&& r.success && !empty_result ==> r.result is Some
    &&& r.success && empty_result ==> r.result is None
    &&& !r.success ==> r.error is Some && r.result is None
}

/// Which method tags a decoded variant can have come from.
pub open spec fn variant_matches_tag(m: MethodMessageV, tag: Seq<char>) -> bool {
    match m {
        MethodMessageV::AddOrder(_) => tag == "add_order"@,
        MethodMessageV::EditOrder(_) => tag == "edit_order"@,
        MethodMessageV::CancelOrder(_) => tag == "cancel_order"@,
        MethodMessageV::CancelAllOrders(_) => tag == "cancel_all"@,
        MethodMessageV::CancelOnDisconnect(_) => tag == "cancel_all_orders_after"@,
        MethodMessageV::BatchOrder(_) => tag == "batch_add"@,
        MethodMessageV::BatchCancel(_) => tag == "batch_cancel"@,
        MethodMessageV::Subscription(_) => tag == "subscribe"@,
        MethodMessageV::Unsubscription(_) => tag == "unsubscribe"@,
        MethodMessageV::Ping(_) => tag == "Ping"@ || tag == "ping"@,
        MethodMessageV::Pong(_) => tag == "pong"@,
    }
}

/// Every method reply that decodes at all decodes to the variant matching
/// its tag, and obeys the result-iff-success discipline: a successful reply
/// carries its typed result and no error, a failed one exposes only its
/// error.
pub proof fn lemma_method_reply_modes(tag: Seq<char>, fields: FieldSeq)
    requires
        spec_decode_method_tagged(tag, fields) is Ok,
    ensures
        variant_matches_tag(spec_decode_method_tagged(tag, fields)->Ok_0, tag),
        match spec_decode_method_tagged(tag, fields)->Ok_0 {
            MethodMessageV::AddOrder(r) => reply_discipline(r, false),
            MethodMessageV::EditOrder(r) => reply_discipline(r, false),
            MethodMessageV::CancelOrder(r) => reply_discipline(r, false),
            MethodMessageV::CancelAllOrders(r) => reply_discipline(r, false),
            MethodMessageV::CancelOnDisconnect(r) => reply_discipline(r, false),
            MethodMessageV::BatchOrder(r) => reply_discipline(r, false),
            MethodMessageV::BatchCancel(r) => reply_discipline(r, false),
            MethodMessageV::Subscription(r) => reply_discipline(r, false),
            MethodMessageV::Unsubscription(r) => reply_discipline(r, false),
            MethodMessageV::Ping(r) => reply_discipline(r, true),
            MethodMessageV::Pong(_) => true,
        },
{
}

/// The wire form of an envelope omits a logically empty parameter set
/// entirely, and otherwise carries the parameters verbatim — never as an
/// explicit null; the method name and the correlation id are always
/// present.
pub proof fn lemma_envelope_emptiness(m: MessageV<JsonV>)
    ensures
        m.params == JsonV::Null ==> field_value(spec_envelope(m)->Obj_0, "params"@) is None,
        m.params != JsonV::Null ==> field_value(spec_envelope(m)->Obj_0, "params"@) == Some(
            m.params,
        ),
        field_value(spec_envelope(m)->Obj_0, "params"@) != Some(JsonV::Null),
        field_value(spec_envelope(m)->Obj_0, "method"@) == Some(JsonV::Str(m.method)),
        field_value(spec_envelope(m)->Obj_0, "req_id"@) == Some(JsonV::Int(m.req_id)),
{
    lemma_envelope_keys_distinct();
    reveal_with_fuel(field_value, 5);
}

/// Round trip: a subscribe envelope carries its correlation id as an
/// integer field, and any frame that decodes as a subscribe acknowledgement
/// while echoing that field decodes to a method reply whose correlation id
/// equals the one the envelope was built with.
pub proof fn lemma_subscribe_round_trip(params: JsonV, req_id: i64, ack: JsonV)
    requires
        spec_classify(ack) matches Ok(WssMessageV::Method(MethodMessageV::Subscription(_))),
        ack matches JsonV::Obj(f) && field_value(f, "req_id"@) == field_value(
            spec_envelope(MessageV { method: "subscribe"@, params, req_id })->Obj_0,
            "req_id"@,
        ),
    ensures
        spec_classify(ack) matches Ok(WssMessageV::Method(MethodMessageV::Subscription(rr)))
            && rr.req_id == req_id,
{
    lemma_envelope_emptiness(MessageV { method: "subscribe"@, params, req_id });
    lemma_reply_keys_method_distinct();
    lemma_remove_other(ack->Obj_0, "method"@, "req_id"@);
}

/// The correlation id a decoded reply exposes, whatever its tag.
pub open spec fn reply_correlation(m: MethodMessageV) -> i64 {
    match m {
        MethodMessageV::AddOrder(r) => r.req_id,
        MethodMessageV::EditOrder(r) => r.req_id,
        MethodMessageV::CancelOrder(r) => r.req_id,
        MethodMessageV::CancelAllOrders(r) => r.req_id,
        MethodMessageV::CancelOnDisconnect(r) => r.req_id,
        MethodMessageV::BatchOrder(r) => r.req_id,
        MethodMessageV::BatchCancel(r) => r.req_id,
        MethodMessageV::Subscription(r) => r.req_id,
        MethodMessageV::Unsubscription(r) => r.req_id,
        MethodMessageV::Ping(r) => r.req_id,
        MethodMessageV::Pong(p) => p.req_id,
    }
}

/// Every method or error reply yields its correlation id from the current
/// frame alone: the decoded id is the frame's own integer `req_id` field,
/// so a connection manager can resolve waiting callers frame by frame with
/// no look-ahead.
pub proof fn lemma_correlation_is_immediate(v: JsonV)
    requires
        spec_classify(v) is Ok,
        !(spec_classify(v)->Ok_0 is Channel),
    ensures
        v matches JsonV::Obj(f) && field_value(f, "req_id"@) == Some(
            JsonV::Int(
                match spec_classify(v)->Ok_0 {
                    WssMessageV::Method(m) => reply_correlation(m),
                    WssMessageV::Error(e) => e.req_id,
                    WssMessageV::Channel(_) => 0,
                },
            ),
        ),
{
    lemma_reply_keys_method_distinct();
    let f = v->Obj_0;
    lemma_remove_other(f, "method"@, "req_id"@);
    let rest = crate::tree::remove_first(f, "method"@);
    lemma_remove_other(rest, "status"@, "req_id"@);
}

/// `method` and `status` are distinct from the reply field names they share
/// a frame with.
proof fn lemma_reply_keys_method_distinct()
    ensures
        "method"@ != "req_id"@,
        "method"@ != "result"@,
        "method"@ != "error"@,
        "method"@ != "success"@,
        "method"@ != "time_in"@,
        "method"@ != "time_out"@,
        "status"@ != "req_id"@,
{
    reveal_strlit("method");
    reveal_strlit("status");
    reveal_strlit("req_id");
    reveal_strlit("result");
    reveal_strlit("error");
    reveal_strlit("success");
    reveal_strlit("time_in");
    reveal_strlit("time_out");
    assert(("method"@).len() == 6);
    assert(("req_id"@).len() == 6);
    assert(("result"@).len() == 6);
    assert(("error"@).len() == 5);
    assert(("success"@).len() == 7);
    assert(("time_in"@).len() == 7);
    assert(("time_out"@).len() == 8);
    assert(("method"@)[0] == 'm');
    assert(("req_id"@)[0] == 'r');
    assert(("result"@)[0] == 'r');
    assert(("method"@)[2] == 't');
    assert(("req_id"@)[2] == 'q');
    assert(("result"@)[2] == 's');
    assert(("status"@).len() == 6);
    assert(("status"@)[0] == 's');
}

} // verus!
