//! Asynchronous channel feeds, dispatched on their explicit channel tag.
//!
//! Market-data array channels (trade, candles) carry a possibly-multi-record
//! sequence per frame.  Singular channels (status, ticker, order book) carry
//! one logical record wire-wrapped in a one-element array; they go through
//! the singleton normalizer and fail on an empty wrapper.  Records themselves
//! are carried as trees: their per-channel schemas belong to the payload
//! vocabularies layered on top of this codec.

use vstd::prelude::*;

use crate::error::DecodeError;
use crate::singleton::{flatten_vec, spec_flatten};
use crate::tree::{
    field_value, res_view, spec_req_i64, spec_req_str, str_eq, req_i64, req_str, FieldSeq,
    FieldTaker, Json, JsonV,
};

verus! {

/// A payload logically singular, wire-wrapped in a one-element array.
#[derive(Debug, PartialEq)]
pub struct SingleResponse<T> {
    pub data: T,
}

/// The mathematical mirror of [`SingleResponse`].
pub struct SingleResponseV<TV> {
    pub data: TV,
}

impl<T: DeepView> DeepView for SingleResponse<T> {
    type V = SingleResponseV<T::V>;

    open spec fn deep_view(&self) -> SingleResponseV<T::V> {
        SingleResponseV { data: self.data.deep_view() }
    }
}

/// An ordered, possibly-multi-record market-data payload.
#[derive(Debug, PartialEq)]
pub struct MarketDataResponse<T> {
    pub data: T,
}

/// The mathematical mirror of [`MarketDataResponse`].
pub struct MarketDataResponseV<TV> {
    pub data: TV,
}

impl<T: DeepView> DeepView for MarketDataResponse<T> {
    type V = MarketDataResponseV<T::V>;

    open spec fn deep_view(&self) -> MarketDataResponseV<T::V> {
        MarketDataResponseV { data: self.data.deep_view() }
    }
}

/// Whether a user-data frame is an initial full dump or an increment.
#[derive(Debug, Clone, Copy, PartialEq, Eq, Structural)]
pub enum SnapshotKind {
    Snapshot,
    Update,
}

impl DeepView for SnapshotKind {
    type V = SnapshotKind;

    open spec fn deep_view(&self) -> SnapshotKind {
        *self
    }
}

/// A sequenced user-data frame (executions, balances).
#[derive(Debug, PartialEq)]
pub struct UserDataMessage {
    pub kind: SnapshotKind,
    pub sequence: i64,
    pub data: Vec<Json>,
}

/// The mathematical mirror of [`UserDataMessage`].
pub struct UserDataMessageV {
    pub kind: SnapshotKind,
    pub sequence: i64,
    pub data: Seq<JsonV>,
}

impl DeepView for UserDataMessage {
    type V = UserDataMessageV;

    open spec fn deep_view(&self) -> UserDataMessageV {
        UserDataMessageV {
            kind: self.kind,
            sequence: self.sequence,
            data: self.data.deep_view(),
        }
    }
}

/// One decoded channel feed message, by tag.
#[derive(Debug, PartialEq)]
pub enum ChannelMessage {
    Heartbeat,
    Status(SingleResponse<Json>),
    Execution(UserDataMessage),
    Balance(UserDataMessage),
    Trade(MarketDataResponse<Vec<Json>>),
    Ticker(SingleResponse<Json>),
    Ohlc(MarketDataResponse<Vec<Json>>),
    Instrument(MarketDataResponse<Json>),
    Orderbook(SingleResponse<Json>),
    L3(SingleResponse<Json>),
}

/// The mathematical mirror of [`ChannelMessage`].
pub enum ChannelMessageV {
    Heartbeat,
    Status(SingleResponseV<JsonV>),
    Execution(UserDataMessageV),
    Balance(UserDataMessageV),
    Trade(MarketDataResponseV<Seq<JsonV>>),
    Ticker(SingleResponseV<JsonV>),
    Ohlc(MarketDataResponseV<Seq<JsonV>>),
    Instrument(MarketDataResponseV<JsonV>),
    Orderbook(SingleResponseV<JsonV>),
    L3(SingleResponseV<JsonV>),
}

impl DeepView for ChannelMessage {
    type V = ChannelMessageV;

    open spec fn deep_view(&self) -> ChannelMessageV {
        match self {
            ChannelMessage::Heartbeat => ChannelMessageV::Heartbeat,
            ChannelMessage::Status(s) => ChannelMessageV::Status(s.deep_view()),
            ChannelMessage::Execution(u) => ChannelMessageV::Execution(u.deep_view()),
            ChannelMessage::Balance(u) => ChannelMessageV::Balance(u.deep_view()),
            ChannelMessage::Trade(m) => ChannelMessageV::Trade(m.deep_view()),
            ChannelMessage::Ticker(s) => ChannelMessageV::Ticker(s.deep_view()),
            ChannelMessage::Ohlc(m) => ChannelMessageV::Ohlc(m.deep_view()),
            ChannelMessage::Instrument(m) => ChannelMessageV::Instrument(m.deep_view()),
            ChannelMessage::Orderbook(s) => ChannelMessageV::Orderbook(s.deep_view()),
            ChannelMessage::L3(s) => ChannelMessageV::L3(s.deep_view()),
        }
    }
}

/// The feed field names are pairwise distinct.
pub proof fn lemma_feed_keys_distinct()
    ensures
        "type"@ != "data"@,
        "type"@ != "sequence"@,
        "data"@ != "sequence"@,
{
    reveal_strlit("type");
    reveal_strlit("data");
    reveal_strlit("sequence");
    assert(("type"@).len() == 4);
    assert(("data"@).len() == 4);
    assert(("sequence"@).len() == 8);
    assert(("type"@)[0] == 't');
    assert(("data"@)[0] == 'd');
}

/// A singular payload: its `data` field must be an array, which the
/// singleton normalizer unwraps; an empty wrapper is an
/// [`DecodeError::EmptyPayload`].
pub open spec fn spec_single_payload(v: Option<JsonV>) -> Result<JsonV, DecodeError> {
    match v {
        Some(JsonV::Arr(items)) => spec_flatten(items),
        _ => Err(DecodeError::StructuralMismatch),
    }
}

fn single_payload(v: Option<Json>) -> (r: Result<Json, DecodeError>)
    ensures
        res_view(r) == spec_single_payload(v.deep_view()),
{
    match v {
        Some(Json::Arr(items)) => {
            proof {
                crate::tree::lemma_arr_view(items);
                assert(items@.len() == items.len());
            }
            let ghost dv = items.deep_view();
            match flatten_vec(items) {
                Ok(first) => {
                    proof {
                        assert(first.deep_view() == dv[0]);
                    }
                    Ok(first)
                },
                Err(e) => Err(e),
            }
        },
        _ => Err(DecodeError::StructuralMismatch),
    }
}

/// A sequenced user-data frame: an explicit snapshot/update kind, an array
/// of records, and a sequence number.
pub open spec fn spec_user_data(fields: FieldSeq) -> Result<UserDataMessageV, DecodeError> {
    match spec_req_str(field_value(fields, "type"@)) {
        Ok(k) => if k == "snapshot"@ || k == "update"@ {
            match (field_value(fields, "data"@), spec_req_i64(field_value(fields, "sequence"@))) {
                (Some(JsonV::Arr(items)), Ok(sequence)) => Ok(
                    UserDataMessageV {
                        kind: if k == "snapshot"@ {
                            SnapshotKind::Snapshot
                        } else {
                            SnapshotKind::Update
                        },
                        sequence,
                        data: items,
                    },
                ),
                _ => Err(DecodeError::StructuralMismatch),
            }
        } else {
            Err(DecodeError::StructuralMismatch)
        },
        Err(e) => Err(e),
    }
}

fn user_data(t: FieldTaker) -> (r: Result<UserDataMessage, DecodeError>)
    requires
        t.wf(),
        t.taken() == Seq::<Seq<char>>::empty(),
    ensures
        res_view(r) == spec_user_data(t.orig()),
{
    let mut t = t;
    proof {
        lemma_feed_keys_distinct();
    }
    let tf = t.take("type");
    let k = match req_str(tf) {
        Ok(x) => x,
        Err(e) => {
            return Err(e);
        },
    };
    if str_eq(k.as_str(), "snapshot") || str_eq(k.as_str(), "update") {
        let d = t.take("data");
        match d {
            Some(Json::Arr(items)) => {
                proof {
                    crate::tree::lemma_arr_view(items);
                }
                let sf = t.take("sequence");
                let sequence = match req_i64(sf) {
                    Ok(x) => x,
                    Err(e) => {
                        return Err(e);
                    },
                };
                let kind = if str_eq(k.as_str(), "snapshot") {
                    SnapshotKind::Snapshot
                } else {
                    SnapshotKind::Update
                };
                Ok(UserDataMessage { kind, sequence, data: items })
            },
            _ => Err(DecodeError::StructuralMismatch),
        }
    } else {
        Err(DecodeError::StructuralMismatch)
    }
}

/// One feed message, by its channel tag, read off a frame whose channel
/// field was already taken.  Fields beyond the ones a channel reads are
/// ignored: feeds are not strict-schema, only method replies are.
pub open spec fn spec_decode_channel(tag: JsonV, fields: FieldSeq) -> Result<
    ChannelMessageV,
    DecodeError,
> {
    match tag {
        JsonV::Str(s) => if s == "heartbeat"@ {
            Ok(ChannelMessageV::Heartbeat)
        } else if s == "status"@ {
            match spec_single_payload(field_value(fields, "data"@)) {
                Ok(d) => Ok(ChannelMessageV::Status(SingleResponseV { data: d })),
                Err(e) => Err(e),
            }
        } else if s == "executions"@ {
            match spec_user_data(fields) {
                Ok(u) => Ok(ChannelMessageV::Execution(u)),
                Err(e) => Err(e),
            }
        } else if s == "balances"@ {
            match spec_user_data(fields) {
                Ok(u) => Ok(ChannelMessageV::Balance(u)),
                Err(e) => Err(e),
            }
        } else if s == "trade"@ {
            match field_value(fields, "data"@) {
                Some(JsonV::Arr(items)) => Ok(
                    ChannelMessageV::Trade(MarketDataResponseV { data: items }),
                ),
                _ => Err(DecodeError::StructuralMismatch),
            }
        } else if s == "ticker"@ {
            match spec_single_payload(field_value(fields, "data"@)) {
                Ok(d) => Ok(ChannelMessageV::Ticker(SingleResponseV { data: d })),
                Err(e) => Err(e),
            }
        } else if s == "ohlc"@ {
            match field_value(fields, "data"@) {
                Some(JsonV::Arr(items)) => Ok(
                    ChannelMessageV::Ohlc(MarketDataResponseV { data: items }),
                ),
                _ => Err(DecodeError::StructuralMismatch),
            }
        } else if s == "instrument"@ {
            match field_value(fields, "data"@) {
                Some(d) => Ok(ChannelMessageV::Instrument(MarketDataResponseV { data: d })),
                None => Err(DecodeError::StructuralMismatch),
            }
        } else if s == "book"@ {
            match spec_single_payload(field_value(fields, "data"@)) {
                Ok(d) => Ok(ChannelMessageV::Orderbook(SingleResponseV { data: d })),
                Err(e) => Err(e),
            }
        } else if s == "level3"@ {
            match spec_single_payload(field_value(fields, "data"@)) {
                Ok(d) => Ok(ChannelMessageV::L3(SingleResponseV { data: d })),
                Err(e) => Err(e),
            }
        } else {
            Err(DecodeError::UnrecognizedTag)
        },
        _ => Err(DecodeError::StructuralMismatch),
    }
}

/// Decode a feed message; the `channel` tag value was already taken off the
/// frame by the classifier.
pub(crate) fn decode_channel(tag: Json, fields: Vec<(String, Json)>) -> (r: Result<
    ChannelMessage,
    DecodeError,
>)
    ensures
        res_view(r) == spec_decode_channel(tag.deep_view(), fields.deep_view()),
{
    let ghost tv = tag.deep_view();
    match tag {
        Json::Str(s) => {
            let mut t = FieldTaker::new(fields);
            if str_eq(s.as_str(), "heartbeat") {
                Ok(ChannelMessage::Heartbeat)
            } else if str_eq(s.as_str(), "status") {
                let d = t.take("data");
                match single_payload(d) {
                    Ok(record) => Ok(ChannelMessage::Status(SingleResponse { data: record })),
                    Err(e) => Err(e),
                }
            } else if str_eq(s.as_str(), "executions") {
                match user_data(t) {
                    Ok(u) => Ok(ChannelMessage::Execution(u)),
                    Err(e) => Err(e),
                }
            } else if str_eq(s.as_str(), "balances") {
                match user_data(t) {
                    Ok(u) => Ok(ChannelMessage::Balance(u)),
                    Err(e) => Err(e),
                }
            } else if str_eq(s.as_str(), "trade") {
                let d = t.take("data");
                match d {
                    Some(Json::Arr(items)) => {
                        proof {
                            crate::tree::lemma_arr_view(items);
                        }
                        Ok(ChannelMessage::Trade(MarketDataResponse { data: items }))
                    },
                    _ => Err(DecodeError::StructuralMismatch),
                }
            } else if str_eq(s.as_str(), "ticker") {
                let d = t.take("data");
                match single_payload(d) {
                    Ok(record) => Ok(ChannelMessage::Ticker(SingleResponse { data: record })),
                    Err(e) => Err(e),
                }
            } else if str_eq(s.as_str(), "ohlc") {
                let d = t.take("data");
                match d {
                    Some(Json::Arr(items)) => {
                        proof {
                            crate::tree::lemma_arr_view(items);
                        }
                        Ok(ChannelMessage::Ohlc(MarketDataResponse { data: items }))
                    },
                    _ => Err(DecodeError::StructuralMismatch),
                }
            } else if str_eq(s.as_str(), "instrument") {
                let d = t.take("data");
                match d {
                    Some(v) => Ok(ChannelMessage::Instrument(MarketDataResponse { data: v })),
                    None => Err(DecodeError::StructuralMismatch),
                }
            } else if str_eq(s.as_str(), "book") {
                let d = t.take("data");
                match single_payload(d) {
                    Ok(record) => Ok(ChannelMessage::Orderbook(SingleResponse { data: record })),
                    Err(e) => Err(e),
                }
            } else if str_eq(s.as_str(), "level3") {
                let d = t.take("data");
                match single_payload(d) {
                    Ok(record) => Ok(ChannelMessage::L3(SingleResponse { data: record })),
                    Err(e) => Err(e),
                }
            } else {
                Err(DecodeError::UnrecognizedTag)
            }
        },
        _ => Err(DecodeError::StructuralMismatch),
    }
}

} // verus!
