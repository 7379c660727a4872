//! Outgoing envelopes: subscribe and unsubscribe requests.
//!
//! An envelope carries a fixed method name, typed parameters, and the
//! caller's correlation id.  A logically empty parameter set is omitted from
//! the wire form entirely — never written as an explicit null, which some
//! endpoints treat differently from absence.

use vstd::prelude::*;

use crate::tree::{Json, JsonV};

verus! {

/// An outgoing call envelope.
#[derive(Debug, PartialEq)]
pub struct Message<T> {
    pub method: String,
    pub params: T,
    pub req_id: i64,
}

/// The mathematical mirror of [`Message`].
pub struct MessageV<TV> {
    pub method: Seq<char>,
    pub params: TV,
    pub req_id: i64,
}

impl<T: DeepView> DeepView for Message<T> {
    type V = MessageV<T::V>;

    open spec fn deep_view(&self) -> MessageV<T::V> {
        MessageV { method: self.method@, params: self.params.deep_view(), req_id: self.req_id }
    }
}

impl<T: DeepView> Message<T> {
    /// A subscribe request for the given parameters and correlation id.
    pub fn new_subscription(params: T, req_id: i64) -> (r: Self)
        ensures
            r.deep_view() == (MessageV {
                method: "subscribe"@,
                params: params.deep_view(),
                req_id,
            }),
    {
        Message { method: "subscribe".to_owned(), params, req_id }
    }

    /// An unsubscribe request for the given parameters and correlation id.
    pub fn new_unsubscription(params: T, req_id: i64) -> (r: Self)
        ensures
            r.deep_view() == (MessageV {
                method: "unsubscribe"@,
                params: params.deep_view(),
                req_id,
            }),
    {
        Message { method: "unsubscribe".to_owned(), params, req_id }
    }
}

/// The structural emptiness capability a parameter type provides, so that
/// the codec need not special-case any one type.
pub trait LogicallyEmpty {
    /// What emptiness means for this type.
    spec fn spec_logically_empty(&self) -> bool;

    /// Decide emptiness.
    fn is_logically_empty(&self) -> (b: bool)
        ensures
            b == self.spec_logically_empty(),
    ;
}

impl LogicallyEmpty for Json {
    open spec fn spec_logically_empty(&self) -> bool {
        self.deep_view() == JsonV::Null
    }

    fn is_logically_empty(&self) -> (b: bool) {
        matches!(self, Json::Null)
    }
}

/// The wire form of an envelope: method, then the parameters — present only
/// when they are not logically empty — then the correlation id, copied
/// verbatim.
pub open spec fn spec_envelope(m: MessageV<JsonV>) -> JsonV {
    if m.params == JsonV::Null {
        JsonV::Obj(
            seq![("method"@, JsonV::Str(m.method)), ("req_id"@, JsonV::Int(m.req_id))],
        )
    } else {
        JsonV::Obj(
            seq![
                ("method"@, JsonV::Str(m.method)),
                ("params"@, m.params),
                ("req_id"@, JsonV::Int(m.req_id)),
            ],
        )
    }
}

impl Message<Json> {
    /// Serialize the envelope to its wire tree.
    pub fn encode(self) -> (r: Json)
        ensures
            r.deep_view() == spec_envelope(self.deep_view()),
    {
        let ghost mv = self.deep_view();
        let Message { method, params, req_id } = self;
        let mut fields: Vec<(String, Json)> = Vec::new();
        fields.push(("method".to_owned(), Json::Str(method)));
        if !params.is_logically_empty() {
            fields.push(("params".to_owned(), params));
        }
        fields.push(("req_id".to_owned(), Json::Int(req_id)));
        let r = Json::Obj(fields);
        proof {
            crate::tree::lemma_obj_view(fields);
            assert(fields.deep_view() =~= spec_envelope(mv)->Obj_0);
            assert(r.deep_view() == spec_envelope(mv));
        }
        r
    }
}

} // verus!
