//! Synchronous method replies, dispatched on their explicit method tag.
//!
//! Every reply shape is strict: an unknown or repeated field is a decode
//! error, so exchange schema drift fails loudly instead of dropping data
//! silently.  One keepalive tag is accepted under two wire spellings; the
//! keepalive acknowledgement (`pong`) uses a reduced shape that omits the
//! success/result pair entirely.

use vstd::prelude::*;

use crate::error::DecodeError;
use crate::subscription::{
    decode_subscription, decode_unsubscription, spec_decode_subscription,
    spec_decode_unsubscription, SubscriptionResult, SubscriptionResultV, UnsubscriptionResult,
    UnsubscriptionResultV,
};
use crate::tree::{
    field_value, remaining_after, res_view, spec_opt_str, spec_req_bool, spec_req_i64,
    spec_req_str, str_eq, opt_str, req_bool, req_i64, req_str, FieldSeq, FieldTaker, Json, JsonV,
};

verus! {

/// A full method reply: the result is present exactly on success, the error
/// exactly on failure, and the correlation id is echoed verbatim.
#[derive(Debug, PartialEq)]
pub struct ResultResponse<T> {
    pub result: Option<T>,
    pub error: Option<String>,
    pub success: bool,
    pub req_id: i64,
    pub time_in: String,
    pub time_out: String,
}

/// The mathematical mirror of [`ResultResponse`].
pub struct ResultResponseV<TV> {
    pub result: Option<TV>,
    pub error: Option<Seq<char>>,
    pub success: bool,
    pub req_id: i64,
    pub time_in: Seq<char>,
    pub time_out: Seq<char>,
}

impl<T: DeepView> DeepView for ResultResponse<T> {
    type V = ResultResponseV<T::V>;

    open spec fn deep_view(&self) -> ResultResponseV<T::V> {
        ResultResponseV {
            result: self.result.deep_view(),
            error: self.error.deep_view(),
            success: self.success,
            req_id: self.req_id,
            time_in: self.time_in@,
            time_out: self.time_out@,
        }
    }
}

/// An error reply: selected by its explicit error-status marker, always
/// unsuccessful, always carrying an error description.
#[derive(Debug, PartialEq)]
pub struct ErrorResponse {
    pub error: Option<String>,
    pub method: String,
    pub status: String,
    pub success: bool,
    pub req_id: i64,
    pub time_in: String,
    pub time_out: String,
}

/// The mathematical mirror of [`ErrorResponse`].
pub struct ErrorResponseV {
    pub error: Option<Seq<char>>,
    pub method: Seq<char>,
    pub status: Seq<char>,
    pub success: bool,
    pub req_id: i64,
    pub time_in: Seq<char>,
    pub time_out: Seq<char>,
}

impl DeepView for ErrorResponse {
    type V = ErrorResponseV;

    open spec fn deep_view(&self) -> ErrorResponseV {
        ErrorResponseV {
            error: self.error.deep_view(),
            method: self.method@,
            status: self.status@,
            success: self.success,
            req_id: self.req_id,
            time_in: self.time_in@,
            time_out: self.time_out@,
        }
    }
}

/// A keepalive acknowledgement: the reduced reply shape, with no
/// success/result pair.
#[derive(Debug, PartialEq)]
pub struct PongResponse {
    pub error: Option<String>,
    pub req_id: i64,
    pub time_in: String,
    pub time_out: String,
}

/// The mathematical mirror of [`PongResponse`].
pub struct PongResponseV {
    pub error: Option<Seq<char>>,
    pub req_id: i64,
    pub time_in: Seq<char>,
    pub time_out: Seq<char>,
}

impl DeepView for PongResponse {
    type V = PongResponseV;

    open spec fn deep_view(&self) -> PongResponseV {
        PongResponseV {
            error: self.error.deep_view(),
            req_id: self.req_id,
            time_in: self.time_in@,
            time_out: self.time_out@,
        }
    }
}

/// The warning list a keepalive may carry.
#[derive(Debug, PartialEq)]
pub struct Pong {
    pub warning: Vec<String>,
}

/// The mathematical mirror of [`Pong`].
pub struct PongV {
    pub warning: Seq<Seq<char>>,
}

impl DeepView for Pong {
    type V = PongV;

    open spec fn deep_view(&self) -> PongV {
        PongV { warning: self.warning.deep_view() }
    }
}

/// One decoded method reply, by tag; each tag has its own typed result.
#[derive(Debug, PartialEq)]
pub enum MethodMessage {
    AddOrder(ResultResponse<Json>),
    EditOrder(ResultResponse<Json>),
    CancelOrder(ResultResponse<Json>),
    CancelAllOrders(ResultResponse<Json>),
    CancelOnDisconnect(ResultResponse<Json>),
    BatchOrder(ResultResponse<Vec<Json>>),
    BatchCancel(ResultResponse<Json>),
    Subscription(ResultResponse<SubscriptionResult>),
    Unsubscription(ResultResponse<UnsubscriptionResult>),
    Ping(ResultResponse<Json>),
    Pong(PongResponse),
}

/// The mathematical mirror of [`MethodMessage`].
pub enum MethodMessageV {
    AddOrder(ResultResponseV<JsonV>),
    EditOrder(ResultResponseV<JsonV>),
    CancelOrder(ResultResponseV<JsonV>),
    CancelAllOrders(ResultResponseV<JsonV>),
    CancelOnDisconnect(ResultResponseV<JsonV>),
    BatchOrder(ResultResponseV<Seq<JsonV>>),
    BatchCancel(ResultResponseV<JsonV>),
    Subscription(ResultResponseV<SubscriptionResultV>),
    Unsubscription(ResultResponseV<UnsubscriptionResultV>),
    Ping(ResultResponseV<JsonV>),
    Pong(PongResponseV),
}

impl DeepView for MethodMessage {
    type V = MethodMessageV;

    open spec fn deep_view(&self) -> MethodMessageV {
        match self {
            MethodMessage::AddOrder(r) => MethodMessageV::AddOrder(r.deep_view()),
            MethodMessage::EditOrder(r) => MethodMessageV::EditOrder(r.deep_view()),
            MethodMessage::CancelOrder(r) => MethodMessageV::CancelOrder(r.deep_view()),
            MethodMessage::CancelAllOrders(r) => MethodMessageV::CancelAllOrders(r.deep_view()),
            MethodMessage::CancelOnDisconnect(r) => (MethodMessageV::CancelOnDisconnect(
                r.deep_view(),
            )),
            MethodMessage::BatchOrder(r) => MethodMessageV::BatchOrder(r.deep_view()),
            MethodMessage::BatchCancel(r) => MethodMessageV::BatchCancel(r.deep_view()),
            MethodMessage::Subscription(r) => MethodMessageV::Subscription(r.deep_view()),
            MethodMessage::Unsubscription(r) => MethodMessageV::Unsubscription(r.deep_view()),
            MethodMessage::Ping(r) => MethodMessageV::Ping(r.deep_view()),
            MethodMessage::Pong(r) => MethodMessageV::Pong(r.deep_view()),
        }
    }
}

/// The reply field names are pairwise distinct.
pub proof fn lemma_reply_keys_distinct()
    ensures
        "result"@ != "error"@,
        "result"@ != "success"@,
        "result"@ != "req_id"@,
        "result"@ != "time_in"@,
        "result"@ != "time_out"@,
        "error"@ != "success"@,
        "error"@ != "req_id"@,
        "error"@ != "time_in"@,
        "error"@ != "time_out"@,
        "success"@ != "req_id"@,
        "success"@ != "time_in"@,
        "success"@ != "time_out"@,
        "req_id"@ != "time_in"@,
        "req_id"@ != "time_out"@,
        "time_in"@ != "time_out"@,
{
    reveal_strlit("result");
    reveal_strlit("error");
    reveal_strlit("success");
    reveal_strlit("req_id");
    reveal_strlit("time_in");
    reveal_strlit("time_out");
    assert(("result"@).len() == 6);
    assert(("error"@).len() == 5);
    assert(("success"@).len() == 7);
    assert(("req_id"@).len() == 6);
    assert(("time_in"@).len() == 7);
    assert(("time_out"@).len() == 8);
    assert(("result"@)[2] == 's');
    assert(("req_id"@)[2] == 'q');
    assert(("success"@)[0] == 's');
    assert(("time_in"@)[0] == 't');
}

/// The full reply shape, strict over its six fields, with the
/// result-iff-success discipline.  A keepalive call (`ping`) has an empty
/// result: its result field must be absent or null even on success.
pub open spec fn spec_result_shape(fields: FieldSeq, ping: bool) -> Result<
    ResultResponseV<JsonV>,
    DecodeError,
> {
    if remaining_after(
        fields,
        seq!["result"@, "error"@, "success"@, "req_id"@, "time_in"@, "time_out"@],
    ).len() != 0 {
        Err(DecodeError::StructuralMismatch)
    } else {
        match (
            spec_req_bool(field_value(fields, "success"@)),
            spec_req_i64(field_value(fields, "req_id"@)),
            spec_req_str(field_value(fields, "time_in"@)),
            spec_req_str(field_value(fields, "time_out"@)),
            spec_opt_str(field_value(fields, "error"@)),
        ) {
            (Ok(success), Ok(req_id), Ok(time_in), Ok(time_out), Ok(error)) => {
                let result = match field_value(fields, "result"@) {
                    None => None,
                    Some(JsonV::Null) => None,
                    Some(v) => Some(v),
                };
                if ping && result is Some {
                    Err(DecodeError::StructuralMismatch)
                } else if success && !ping && result is None {
                    Err(DecodeError::StructuralMismatch)
                } else if success && error is Some {
                    Err(DecodeError::StructuralMismatch)
                } else if !success && error is None {
                    Err(DecodeError::StructuralMismatch)
                } else if !success && result is Some {
                    Err(DecodeError::StructuralMismatch)
                } else {
                    Ok(ResultResponseV { result, error, success, req_id, time_in, time_out })
                }
            },
            _ => Err(DecodeError::StructuralMismatch),
        }
    }
}

/// Decode the shared reply shape; the payload stays a raw tree.
fn result_shape(fields: Vec<(String, Json)>, ping: bool) -> (r: Result<
    ResultResponse<Json>,
    DecodeError,
>)
    ensures
        res_view(r) == spec_result_shape(fields.deep_view(), ping),
{
    let mut t = FieldTaker::new(fields);
    proof {
        lemma_reply_keys_distinct();
    }
    let f_result = t.take("result");
    let f_error = t.take("error");
    let f_success = t.take("success");
    let f_req_id = t.take("req_id");
    let f_time_in = t.take("time_in");
    let f_time_out = t.take("time_out");
    proof {
        assert(t.taken() =~= seq![
            "result"@,
            "error"@,
            "success"@,
            "req_id"@,
            "time_in"@,
            "time_out"@,
        ]);
    }
    match t.finish_strict() {
        Err(e) => {
            return Err(e);
        },
        Ok(()) => {},
    }
    let success = match req_bool(f_success) {
        Ok(x) => x,
        Err(e) => {
            return Err(e);
        },
    };
    let req_id = match req_i64(f_req_id) {
        Ok(x) => x,
        Err(e) => {
            return Err(e);
        },
    };
    let time_in = match req_str(f_time_in) {
        Ok(x) => x,
        Err(e) => {
            return Err(e);
        },
    };
    let time_out = match req_str(f_time_out) {
        Ok(x) => x,
        Err(e) => {
            return Err(e);
        },
    };
    let error = match opt_str(f_error) {
        Ok(x) => x,
        Err(e) => {
            return Err(e);
        },
    };
    let result: Option<Json> = match f_result {
        None => None,
        Some(Json::Null) => None,
        Some(v) => Some(v),
    };
    if ping && result.is_some() {
        return Err(DecodeError::StructuralMismatch);
    }
    if success && !ping && result.is_none() {
        return Err(DecodeError::StructuralMismatch);
    }
    if success && error.is_some() {
        return Err(DecodeError::StructuralMismatch);
    }
    if !success && error.is_none() {
        return Err(DecodeError::StructuralMismatch);
    }
    if !success && result.is_some() {
        return Err(DecodeError::StructuralMismatch);
    }
    Ok(ResultResponse { result, error, success, req_id, time_in, time_out })
}

/// The reduced keepalive acknowledgement shape: no success/result pair.
pub open spec fn spec_pong_shape(fields: FieldSeq) -> Result<PongResponseV, DecodeError> {
    if remaining_after(fields, seq!["error"@, "req_id"@, "time_in"@, "time_out"@]).len() != 0 {
        Err(DecodeError::StructuralMismatch)
    } else {
        match (
            spec_req_i64(field_value(fields, "req_id"@)),
            spec_req_str(field_value(fields, "time_in"@)),
            spec_req_str(field_value(fields, "time_out"@)),
            spec_opt_str(field_value(fields, "error"@)),
        ) {
            (Ok(req_id), Ok(time_in), Ok(time_out), Ok(error)) => Ok(
                PongResponseV { error, req_id, time_in, time_out },
            ),
            _ => Err(DecodeError::StructuralMismatch),
        }
    }
}

fn pong_shape(fields: Vec<(String, Json)>) -> (r: Result<PongResponse, DecodeError>)
    ensures
        res_view(r) == spec_pong_shape(fields.deep_view()),
{
    let mut t = FieldTaker::new(fields);
    proof {
        lemma_reply_keys_distinct();
    }
    let f_error = t.take("error");
    let f_req_id = t.take("req_id");
    let f_time_in = t.take("time_in");
    let f_time_out = t.take("time_out");
    proof {
        assert(t.taken() =~= seq!["error"@, "req_id"@, "time_in"@, "time_out"@]);
    }
    match t.finish_strict() {
        Err(e) => {
            return Err(e);
        },
        Ok(()) => {},
    }
    let req_id = match req_i64(f_req_id) {
        Ok(x) => x,
        Err(e) => {
            return Err(e);
        },
    };
    let time_in = match req_str(f_time_in) {
        Ok(x) => x,
        Err(e) => {
            return Err(e);
        },
    };
    let time_out = match req_str(f_time_out) {
        Ok(x) => x,
        Err(e) => {
            return Err(e);
        },
    };
    let error = match opt_str(f_error) {
        Ok(x) => x,
        Err(e) => {
            return Err(e);
        },
    };
    Ok(PongResponse { error, req_id, time_in, time_out })
}

/// An error reply, read off a frame whose method and error-status marker
/// were already taken: strict over the remaining five fields, never
/// successful, always carrying an error description.
pub open spec fn spec_decode_error(tag: Seq<char>, fields: FieldSeq) -> Result<
    ErrorResponseV,
    DecodeError,
> {
    if remaining_after(fields, seq!["error"@, "success"@, "req_id"@, "time_in"@, "time_out"@]).len()
        != 0 {
        Err(DecodeError::StructuralMismatch)
    } else {
        match (
            spec_req_bool(field_value(fields, "success"@)),
            spec_req_i64(field_value(fields, "req_id"@)),
            spec_req_str(field_value(fields, "time_in"@)),
            spec_req_str(field_value(fields, "time_out"@)),
            spec_opt_str(field_value(fields, "error"@)),
        ) {
            (Ok(success), Ok(req_id), Ok(time_in), Ok(time_out), Ok(error)) => if success {
                Err(DecodeError::StructuralMismatch)
            } else if error is None {
                Err(DecodeError::StructuralMismatch)
            } else {
                Ok(
                    ErrorResponseV {
                        error,
                        method: tag,
                        status: "error"@,
                        success: false,
                        req_id,
                        time_in,
                        time_out,
                    },
                )
            },
            _ => Err(DecodeError::StructuralMismatch),
        }
    }
}

/// Decode an error reply; `method` and `status` were already taken off the
/// frame by the classifier.
pub(crate) fn decode_error_reply(method: String, status: String, fields: Vec<(String, Json)>) -> (r:
    Result<ErrorResponse, DecodeError>)
    requires
        status@ == "error"@,
    ensures
        res_view(r) == spec_decode_error(method@, fields.deep_view()),
{
    let mut t = FieldTaker::new(fields);
    proof {
        lemma_reply_keys_distinct();
    }
    let f_error = t.take("error");
    let f_success = t.take("success");
    let f_req_id = t.take("req_id");
    let f_time_in = t.take("time_in");
    let f_time_out = t.take("time_out");
    proof {
        assert(t.taken() =~= seq!["error"@, "success"@, "req_id"@, "time_in"@, "time_out"@]);
    }
    match t.finish_strict() {
        Err(e) => {
            return Err(e);
        },
        Ok(()) => {},
    }
    let success = match req_bool(f_success) {
        Ok(x) => x,
        Err(e) => {
            return Err(e);
        },
    };
    let req_id = match req_i64(f_req_id) {
        Ok(x) => x,
        Err(e) => {
            return Err(e);
        },
    };
    let time_in = match req_str(f_time_in) {
        Ok(x) => x,
        Err(e) => {
            return Err(e);
        },
    };
    let time_out = match req_str(f_time_out) {
        Ok(x) => x,
        Err(e) => {
            return Err(e);
        },
    };
    let error = match opt_str(f_error) {
        Ok(x) => x,
        Err(e) => {
            return Err(e);
        },
    };
    if success {
        return Err(DecodeError::StructuralMismatch);
    }
    if error.is_none() {
        return Err(DecodeError::StructuralMismatch);
    }
    Ok(ErrorResponse { error, method, status, success: false, req_id, time_in, time_out })
}

/// A method reply, by its tag, read off a frame whose method field was
/// already taken.  Unknown tags are an [`DecodeError::UnrecognizedTag`].
pub open spec fn spec_decode_method_tagged(tag: Seq<char>, fields: FieldSeq) -> Result<
    MethodMessageV,
    DecodeError,
> {
    if tag == "add_order"@ {
        match spec_result_shape(fields, false) {
            Ok(rr) => Ok(MethodMessageV::AddOrder(rr)),
            Err(e) => Err(e),
        }
    } else if tag == "edit_order"@ {
        match spec_result_shape(fields, false) {
            Ok(rr) => Ok(MethodMessageV::EditOrder(rr)),
            Err(e) => Err(e),
        }
    } else if tag == "cancel_order"@ {
        match spec_result_shape(fields, false) {
            Ok(rr) => Ok(MethodMessageV::CancelOrder(rr)),
            Err(e) => Err(e),
        }
    } else if tag == "cancel_all"@ {
        match spec_result_shape(fields, false) {
            Ok(rr) => Ok(MethodMessageV::CancelAllOrders(rr)),
            Err(e) => Err(e),
        }
    } else if tag == "cancel_all_orders_after"@ {
        match spec_result_shape(fields, false) {
            Ok(rr) => Ok(MethodMessageV::CancelOnDisconnect(rr)),
            Err(e) => Err(e),
        }
    } else if tag == "batch_add"@ {
        match spec_result_shape(fields, false) {
            Ok(rr) => match rr.result {
                None => Ok(
                    MethodMessageV::BatchOrder(
                        ResultResponseV {
                            result: None,
                            error: rr.error,
                            success: rr.success,
                            req_id: rr.req_id,
                            time_in: rr.time_in,
                            time_out: rr.time_out,
                        },
                    ),
                ),
                Some(JsonV::Arr(items)) => Ok(
                    MethodMessageV::BatchOrder(
                        ResultResponseV {
                            result: Some(items),
                            error: rr.error,
                            success: rr.success,
                            req_id: rr.req_id,
                            time_in: rr.time_in,
                            time_out: rr.time_out,
                        },
                    ),
                ),
                Some(_) => Err(DecodeError::StructuralMismatch),
            },
            Err(e) => Err(e),
        }
    } else if tag == "batch_cancel"@ {
        match spec_result_shape(fields, false) {
            Ok(rr) => Ok(MethodMessageV::BatchCancel(rr)),
            Err(e) => Err(e),
        }
    } else if tag == "subscribe"@ {
        match spec_result_shape(fields, false) {
            Ok(rr) => match rr.result {
                None => Ok(
                    MethodMessageV::Subscription(
                        ResultResponseV {
                            result: None,
                            error: rr.error,
                            success: rr.success,
                            req_id: rr.req_id,
                            time_in: rr.time_in,
                            time_out: rr.time_out,
                        },
                    ),
                ),
                Some(v) => match spec_decode_subscription(v) {
                    Ok(sub) => Ok(
                        MethodMessageV::Subscription(
                            ResultResponseV {
                                result: Some(sub),
                                error: rr.error,
                                success: rr.success,
                                req_id: rr.req_id,
                                time_in: rr.time_in,
                                time_out: rr.time_out,
                            },
                        ),
                    ),
                    Err(e) => Err(e),
                },
            },
            Err(e) => Err(e),
        }
    } else if tag == "unsubscribe"@ {
        match spec_result_shape(fields, false) {
            Ok(rr) => match rr.result {
                None => Ok(
                    MethodMessageV::Unsubscription(
                        ResultResponseV {
                            result: None,
                            error: rr.error,
                            success: rr.success,
                            req_id: rr.req_id,
                            time_in: rr.time_in,
                            time_out: rr.time_out,
                        },
                    ),
                ),
                Some(v) => match spec_decode_unsubscription(v) {
                    Ok(unsub) => Ok(
                        MethodMessageV::Unsubscription(
                            ResultResponseV {
                                result: Some(unsub),
                                error: rr.error,
                                success: rr.success,
                                req_id: rr.req_id,
                                time_in: rr.time_in,
                                time_out: rr.time_out,
                            },
                        ),
                    ),
                    Err(e) => Err(e),
                },
            },
            Err(e) => Err(e),
        }
    } else if tag == "Ping"@ || tag == "ping"@ {
        match spec_result_shape(fields, true) {
            Ok(rr) => Ok(MethodMessageV::Ping(rr)),
            Err(e) => Err(e),
        }
    } else if tag == "pong"@ {
        match spec_pong_shape(fields) {
            Ok(p) => Ok(MethodMessageV::Pong(p)),
            Err(e) => Err(e),
        }
    } else {
        Err(DecodeError::UnrecognizedTag)
    }
}

/// Decode a method reply; the `method` tag was already taken off the frame
/// by the classifier.
pub(crate) fn decode_method_tagged(tag: String, fields: Vec<(String, Json)>) -> (r: Result<
    MethodMessage,
    DecodeError,
>)
    ensures
        res_view(r) == spec_decode_method_tagged(tag@, fields.deep_view()),
{
    if str_eq(tag.as_str(), "add_order") {
        match result_shape(fields, false) {
            Ok(rr) => Ok(MethodMessage::AddOrder(rr)),
            Err(e) => Err(e),
        }
    } else if str_eq(tag.as_str(), "edit_order") {
        match result_shape(fields, false) {
            Ok(rr) => Ok(MethodMessage::EditOrder(rr)),
            Err(e) => Err(e),
        }
    } else if str_eq(tag.as_str(), "cancel_order") {
        match result_shape(fields, false) {
            Ok(rr) => Ok(MethodMessage::CancelOrder(rr)),
            Err(e) => Err(e),
        }
    } else if str_eq(tag.as_str(), "cancel_all") {
        match result_shape(fields, false) {
            Ok(rr) => Ok(MethodMessage::CancelAllOrders(rr)),
            Err(e) => Err(e),
        }
    } else if str_eq(tag.as_str(), "cancel_all_orders_after") {
        match result_shape(fields, false) {
            Ok(rr) => Ok(MethodMessage::CancelOnDisconnect(rr)),
            Err(e) => Err(e),
        }
    } else if str_eq(tag.as_str(), "batch_add") {
        match result_shape(fields, false) {
            Ok(rr) => {
                let ResultResponse { result, error, success, req_id, time_in, time_out } = rr;
                match result {
                    None => Ok(
                        MethodMessage::BatchOrder(
                            ResultResponse { result: None, error, success, req_id, time_in, time_out },
                        ),
                    ),
                    Some(Json::Arr(items)) => {
                        proof {
                            crate::tree::lemma_arr_view(items);
                        }
                        Ok(
                            MethodMessage::BatchOrder(
                                ResultResponse {
                                    result: Some(items),
                                    error,
                                    success,
                                    req_id,
                                    time_in,
                                    time_out,
                                },
                            ),
                        )
                    },
                    Some(_) => Err(DecodeError::StructuralMismatch),
                }
            },
            Err(e) => Err(e),
        }
    } else if str_eq(tag.as_str(), "batch_cancel") {
        match result_shape(fields, false) {
            Ok(rr) => Ok(MethodMessage::BatchCancel(rr)),
            Err(e) => Err(e),
        }
    } else if str_eq(tag.as_str(), "subscribe") {
        match result_shape(fields, false) {
            Ok(rr) => {
                let ResultResponse { result, error, success, req_id, time_in, time_out } = rr;
                match result {
                    None => Ok(
                        MethodMessage::Subscription(
                            ResultResponse { result: None, error, success, req_id, time_in, time_out },
                        ),
                    ),
                    Some(v) => match decode_subscription(v) {
                        Ok(sub) => Ok(
                            MethodMessage::Subscription(
                                ResultResponse {
                                    result: Some(sub),
                                    error,
                                    success,
                                    req_id,
                                    time_in,
                                    time_out,
                                },
                            ),
                        ),
                        Err(e) => Err(e),
                    },
                }
            },
            Err(e) => Err(e),
        }
    } else if str_eq(tag.as_str(), "unsubscribe") {
        match result_shape(fields, false) {
            Ok(rr) => {
                let ResultResponse { result, error, success, req_id, time_in, time_out } = rr;
                match result {
                    None => Ok(
                        MethodMessage::Unsubscription(
                            ResultResponse { result: None, error, success, req_id, time_in, time_out },
                        ),
                    ),
                    Some(v) => match decode_unsubscription(v) {
                        Ok(unsub) => Ok(
                            MethodMessage::Unsubscription(
                                ResultResponse {
                                    result: Some(unsub),
                                    error,
                                    success,
                                    req_id,
                                    time_in,
                                    time_out,
                                },
                            ),
                        ),
                        Err(e) => Err(e),
                    },
                }
            },
            Err(e) => Err(e),
        }
    } else if str_eq(tag.as_str(), "Ping") || str_eq(tag.as_str(), "ping") {
        match result_shape(fields, true) {
            Ok(rr) => Ok(MethodMessage::Ping(rr)),
            Err(e) => Err(e),
        }
    } else if str_eq(tag.as_str(), "pong") {
        match pong_shape(fields) {
            Ok(p) => Ok(MethodMessage::Pong(p)),
            Err(e) => Err(e),
        }
    } else {
        Err(DecodeError::UnrecognizedTag)
    }
}

} // verus!
