//! The message classifier: one inbound frame into one of three families.
//!
//! The top level of a frame carries no explicit discriminator, so the
//! classifier peeks at the discriminating fields, in a load-bearing order: a
//! `channel` field selects a feed message; otherwise a `method` field with
//! the `status`/`"error"` marker selects an error reply, and a `method`
//! field without it selects a method reply.  A more permissive shape tried
//! first would silently swallow frames meant for a stricter one — every
//! method-reply shape is strict and never carries a `status` field, which is
//! what keeps this order and the try-each-shape-in-turn reading equivalent.

use vstd::prelude::*;

use crate::channel::{decode_channel, spec_decode_channel, ChannelMessage, ChannelMessageV};
use crate::error::DecodeError;
use crate::method::{
    decode_error_reply, decode_method_tagged, spec_decode_error, spec_decode_method_tagged,
    ErrorResponse, ErrorResponseV, MethodMessage, MethodMessageV,
};
use crate::parse::{parse_frame, parsed_tree};
use crate::tree::{
    field_value, json_view, lemma_remove_absent, lemma_skip_prefix, remove_first, res_view,
    str_eq, take_field, Json, JsonV,
};

verus! {

/// One decoded inbound frame: a channel feed message, a method reply, or an
/// error reply.
#[derive(Debug, PartialEq)]
pub enum WssMessage {
    Channel(ChannelMessage),
    Method(MethodMessage),
    Error(ErrorResponse),
}

/// The mathematical mirror of [`WssMessage`].
pub enum WssMessageV {
    Channel(ChannelMessageV),
    Method(MethodMessageV),
    Error(ErrorResponseV),
}

impl DeepView for WssMessage {
    type V = WssMessageV;

    open spec fn deep_view(&self) -> WssMessageV {
        match self {
            WssMessage::Channel(c) => WssMessageV::Channel(c.deep_view()),
            WssMessage::Method(m) => WssMessageV::Method(m.deep_view()),
            WssMessage::Error(e) => WssMessageV::Error(e.deep_view()),
        }
    }
}

/// Whether the frame carries the explicit error-status marker.
fn status_is_error(fields: &Vec<(String, Json)>) -> (r: bool)
    ensures
        r == (field_value(fields.deep_view(), "status"@) == Some(JsonV::Str("error"@))),
{
    let ghost dv = fields.deep_view();
    let mut i: usize = 0;
    loop
        invariant
            i <= fields.len(),
            dv == fields.deep_view(),
            forall|j: int| 0 <= j < i ==> (#[trigger] dv[j]).0 != "status"@,
        decreases fields.len() - i,
    {
        proof {
            assert(dv.len() == fields@.len());
        }
        if i == fields.len() {
            proof {
                lemma_skip_prefix(dv, "status"@, dv.len() as int);
            }
            return false;
        }
        let hit = str_eq(fields[i].0.as_str(), "status");
        proof {
            assert(dv[i as int] == (fields@[i as int].0@, json_view(fields@[i as int].1)));
        }
        if hit {
            proof {
                lemma_skip_prefix(dv, "status"@, i as int);
                assert(dv.skip(i as int)[0] == dv[i as int]);
                assert(field_value(dv, "status"@) == Some(dv[i as int].1));
            }
            match &fields[i].1 {
                Json::Str(s) => {
                    return str_eq(s.as_str(), "error");
                },
                _ => {
                    return false;
                },
            }
        }
        i = i + 1;
    }
}

/// The family and content of one parsed frame.
pub open spec fn spec_classify(v: JsonV) -> Result<WssMessageV, DecodeError> {
    match v {
        JsonV::Obj(fields) => match field_value(fields, "channel"@) {
            Some(tag) => match spec_decode_channel(tag, remove_first(fields, "channel"@)) {
                Ok(c) => Ok(WssMessageV::Channel(c)),
                Err(e) => Err(e),
            },
            None => match field_value(fields, "method"@) {
                Some(JsonV::Str(tag)) => {
                    let rest = remove_first(fields, "method"@);
                    if field_value(rest, "status"@) == Some(JsonV::Str("error"@)) {
                        match spec_decode_error(tag, remove_first(rest, "status"@)) {
                            Ok(er) => Ok(WssMessageV::Error(er)),
                            Err(e) => Err(e),
                        }
                    } else {
                        match spec_decode_method_tagged(tag, rest) {
                            Ok(m) => Ok(WssMessageV::Method(m)),
                            Err(e) => Err(e),
                        }
                    }
                },
                Some(_) => Err(DecodeError::StructuralMismatch),
                None => Err(DecodeError::StructuralMismatch),
            },
        },
        _ => Err(DecodeError::StructuralMismatch),
    }
}

/// Classify and decode one parsed frame.
pub fn decode_message(tree: Json) -> (r: Result<WssMessage, DecodeError>)
    ensures
        res_view(r) == spec_classify(tree.deep_view()),
{
    let ghost tv = tree.deep_view();
    match tree {
        Json::Obj(fields) => {
            proof {
                crate::tree::lemma_obj_view(fields);
            }
            let ghost f0 = fields.deep_view();
            let mut fields = fields;
            let chan = take_field(&mut fields, "channel");
            match chan {
                Some(tag) => match decode_channel(tag, fields) {
                    Ok(c) => Ok(WssMessage::Channel(c)),
                    Err(e) => Err(e),
                },
                None => {
                    proof {
                        lemma_remove_absent(f0, "channel"@);
                    }
                    let m = take_field(&mut fields, "method");
                    match m {
                        Some(Json::Str(tag)) => {
                            if status_is_error(&fields) {
                                let st = take_field(&mut fields, "status");
                                match st {
                                    Some(Json::Str(marker)) => match decode_error_reply(
                                        tag,
                                        marker,
                                        fields,
                                    ) {
                                        Ok(er) => Ok(WssMessage::Error(er)),
                                        Err(e) => Err(e),
                                    },
                                    _ => {
                                        proof {
                                            assert(false);
                                        }
                                        Err(DecodeError::StructuralMismatch)
                                    },
                                }
                            } else {
                                match decode_method_tagged(tag, fields) {
                                    Ok(mm) => Ok(WssMessage::Method(mm)),
                                    Err(e) => Err(e),
                                }
                            }
                        },
                        Some(_) => Err(DecodeError::StructuralMismatch),
                        None => Err(DecodeError::StructuralMismatch),
                    }
                },
            }
        },
        _ => Err(DecodeError::StructuralMismatch),
    }
}

/// Classify and decode one inbound frame from its wire text.
///
/// The structured-value parser is given: this function only composes it
/// with [`decode_message`].  A text the parser refuses is a structural
/// mismatch.
pub fn classify_and_decode(raw: &str) -> (r: Result<WssMessage, DecodeError>)
    ensures
        parsed_tree(raw@) is None ==> r == Err::<WssMessage, DecodeError>(
            DecodeError::StructuralMismatch,
        ),
        parsed_tree(raw@) matches Some(v) ==> res_view(r) == spec_classify(v),
{
    match parse_frame(raw) {
        None => Err(DecodeError::StructuralMismatch),
        Some(tree) => decode_message(tree),
    }
}

} // verus!
