//! Per-channel acknowledgements returned by subscribe and unsubscribe calls.
//!
//! These are keyed by the same channel vocabulary as the feed decoder but
//! form a separate tag space: what the exchange granted for a call, which
//! may diverge from what was requested (defaults, deprecation warnings).

use vstd::prelude::*;

use crate::error::DecodeError;
use crate::tree::{
    field_value, remaining_after, res_view, spec_opt_bool, spec_opt_i64, spec_opt_str,
    spec_req_i64, spec_req_str, str_eq, opt_bool, opt_i64, opt_str, req_i64, req_str, FieldSeq,
    FieldTaker, Json, JsonV,
};

verus! {

/// What the exchange granted for one subscribe call, by channel.
#[derive(Debug, PartialEq)]
pub enum SubscriptionResult {
    Execution { max_rate_count: Option<i64>, snapshot: Option<bool>, warnings: Option<Vec<String>> },
    Balance { snapshot: Option<bool>, warnings: Option<Vec<String>> },
    Ticker { symbol: String, event_trigger: Option<String>, snapshot: Option<bool> },
    Book { symbol: String, snapshot: Option<bool>, depth: Option<i64>, warnings: Option<Vec<String>> },
    L3 { symbol: String, snapshot: Option<bool>, depth: Option<i64>, warnings: Option<Vec<String>> },
    Ohlc { symbol: Option<String>, snapshot: Option<bool>, warnings: Option<Vec<String>>, interval: i64 },
    Trade { symbol: Option<String>, snapshot: Option<bool>, warnings: Option<Vec<String>> },
    Instrument { snapshot: Option<bool>, warnings: Option<Vec<String>> },
}

/// The mathematical mirror of [`SubscriptionResult`].
pub enum SubscriptionResultV {
    Execution {
        max_rate_count: Option<i64>,
        snapshot: Option<bool>,
        warnings: Option<Seq<Seq<char>>>,
    },
    Balance { snapshot: Option<bool>, warnings: Option<Seq<Seq<char>>> },
    Ticker { symbol: Seq<char>, event_trigger: Option<Seq<char>>, snapshot: Option<bool> },
    Book {
        symbol: Seq<char>,
        snapshot: Option<bool>,
        depth: Option<i64>,
        warnings: Option<Seq<Seq<char>>>,
    },
    L3 {
        symbol: Seq<char>,
        snapshot: Option<bool>,
        depth: Option<i64>,
        warnings: Option<Seq<Seq<char>>>,
    },
    Ohlc {
        symbol: Option<Seq<char>>,
        snapshot: Option<bool>,
        warnings: Option<Seq<Seq<char>>>,
        interval: i64,
    },
    Trade { symbol: Option<Seq<char>>, snapshot: Option<bool>, warnings: Option<Seq<Seq<char>>> },
    Instrument { snapshot: Option<bool>, warnings: Option<Seq<Seq<char>>> },
}

impl DeepView for SubscriptionResult {
    type V = SubscriptionResultV;

    open spec fn deep_view(&self) -> SubscriptionResultV {
        match self {
            SubscriptionResult::Execution { max_rate_count, snapshot, warnings } => (
                SubscriptionResultV::Execution {
                    max_rate_count: *max_rate_count,
                    snapshot: *snapshot,
                    warnings: warnings.deep_view(),
                }
            ),
            SubscriptionResult::Balance { snapshot, warnings } => (SubscriptionResultV::Balance {
                snapshot: *snapshot,
                warnings: warnings.deep_view(),
            }),
            SubscriptionResult::Ticker { symbol, event_trigger, snapshot } => (
                SubscriptionResultV::Ticker {
                    symbol: symbol@,
                    event_trigger: event_trigger.deep_view(),
                    snapshot: *snapshot,
                }
            ),
            SubscriptionResult::Book { symbol, snapshot, depth, warnings } => (
                SubscriptionResultV::Book {
                    symbol: symbol@,
                    snapshot: *snapshot,
                    depth: *depth,
                    warnings: warnings.deep_view(),
                }
            ),
            SubscriptionResult::L3 { symbol, snapshot, depth, warnings } => (
                SubscriptionResultV::L3 {
                    symbol: symbol@,
                    snapshot: *snapshot,
                    depth: *depth,
                    warnings: warnings.deep_view(),
                }
            ),
            SubscriptionResult::Ohlc { symbol, snapshot, warnings, interval } => (
                SubscriptionResultV::Ohlc {
                    symbol: symbol.deep_view(),
                    snapshot: *snapshot,
                    warnings: warnings.deep_view(),
                    interval: *interval,
                }
            ),
            SubscriptionResult::Trade { symbol, snapshot, warnings } => (
                SubscriptionResultV::Trade {
                    symbol: symbol.deep_view(),
                    snapshot: *snapshot,
                    warnings: warnings.deep_view(),
                }
            ),
            SubscriptionResult::Instrument { snapshot, warnings } => (
                SubscriptionResultV::Instrument {
                    snapshot: *snapshot,
                    warnings: warnings.deep_view(),
                }
            ),
        }
    }
}

/// What one unsubscribe call acknowledged: mostly channel identity.
#[derive(Debug, PartialEq)]
pub enum UnsubscriptionResult {
    Execution,
    Balance,
    Ticker { symbol: Option<String> },
    Trade { symbol: Option<String> },
    Book { symbol: Option<String>, depth: Option<i64> },
    L3 { symbol: Option<String> },
    Ohlc { symbol: String, interval: i64 },
    Instrument,
}

/// The mathematical mirror of [`UnsubscriptionResult`].
pub enum UnsubscriptionResultV {
    Execution,
    Balance,
    Ticker { symbol: Option<Seq<char>> },
    Trade { symbol: Option<Seq<char>> },
    Book { symbol: Option<Seq<char>>, depth: Option<i64> },
    L3 { symbol: Option<Seq<char>> },
    Ohlc { symbol: Seq<char>, interval: i64 },
    Instrument,
}

impl DeepView for UnsubscriptionResult {
    type V = UnsubscriptionResultV;

    open spec fn deep_view(&self) -> UnsubscriptionResultV {
        match self {
            UnsubscriptionResult::Execution => UnsubscriptionResultV::Execution,
            UnsubscriptionResult::Balance => UnsubscriptionResultV::Balance,
            UnsubscriptionResult::Ticker { symbol } => (UnsubscriptionResultV::Ticker {
                symbol: symbol.deep_view(),
            }),
            UnsubscriptionResult::Trade { symbol } => (UnsubscriptionResultV::Trade {
                symbol: symbol.deep_view(),
            }),
            UnsubscriptionResult::Book { symbol, depth } => (UnsubscriptionResultV::Book {
                symbol: symbol.deep_view(),
                depth: *depth,
            }),
            UnsubscriptionResult::L3 { symbol } => (UnsubscriptionResultV::L3 {
                symbol: symbol.deep_view(),
            }),
            UnsubscriptionResult::Ohlc { symbol, interval } => (UnsubscriptionResultV::Ohlc {
                symbol: symbol@,
                interval: *interval,
            }),
            UnsubscriptionResult::Instrument => UnsubscriptionResultV::Instrument,
        }
    }
}

/// Every element is a string.
pub open spec fn all_strings(s: Seq<JsonV>) -> bool {
    forall|i: int| 0 <= i < s.len() ==> (#[trigger] s[i]) is Str
}

/// The strings of an all-string sequence.
pub open spec fn strings_of(s: Seq<JsonV>) -> Seq<Seq<char>> {
    Seq::new(s.len(), |i: int| s[i]->Str_0)
}

/// An optional warning list: absent or null reads as none; anything but an
/// array of strings is a mismatch.
pub open spec fn spec_opt_warnings(v: Option<JsonV>) -> Result<
    Option<Seq<Seq<char>>>,
    DecodeError,
> {
    match v {
        None => Ok(None),
        Some(JsonV::Null) => Ok(None),
        Some(JsonV::Arr(s)) => if all_strings(s) {
            Ok(Some(strings_of(s)))
        } else {
            Err(DecodeError::StructuralMismatch)
        },
        _ => Err(DecodeError::StructuralMismatch),
    }
}

pub fn opt_warnings(v: Option<Json>) -> (r: Result<Option<Vec<String>>, DecodeError>)
    ensures
        res_view(r) == spec_opt_warnings(v.deep_view()),
{
    match v {
        None => Ok(None),
        Some(Json::Null) => Ok(None),
        Some(Json::Arr(items)) => {
            let ghost orig = items.deep_view();
            proof {
                crate::tree::lemma_arr_view(items);
                assert(orig.len() == items@.len());
                assert(items@.len() == items.len());
                assert(v.deep_view() == Some(JsonV::Arr(orig)));
            }
            let mut items = items;
            let mut out: Vec<String> = Vec::new();
            let mut taken: usize = 0;
            loop
                invariant
                    v.deep_view() == Some(JsonV::Arr(orig)),
                    orig.len() <= usize::MAX,
                    taken + items.len() == orig.len(),
                    items.deep_view() =~= orig.skip(taken as int),
                    forall|i: int| 0 <= i < taken ==> (#[trigger] orig[i]) is Str,
                    out.deep_view() =~= strings_of(orig.take(taken as int)),
                decreases items.len(),
            {
                proof {
                    assert(items.deep_view().len() == items@.len());
                }
                if items.len() == 0 {
                    proof {
                        assert(taken as int == orig.len());
                        assert(all_strings(orig));
                        assert(orig.take(orig.len() as int) =~= orig);
                        assert(out.deep_view() =~= strings_of(orig));
                        assert(out.deep_view() == strings_of(orig));
                    }
                    return Ok(Some(out));
                }
                let ghost pre = items@;
                let ghost pre_dv = items.deep_view();
                let item = items.remove(0);
                proof {
                    assert(pre.remove(0) =~= pre.skip(1));
                    assert(items@ =~= pre.skip(1));
                    assert forall|k: int| 0 <= k < items@.len() implies #[trigger] items.deep_view()[k]
                        == orig.skip(taken as int + 1)[k] by {
                        assert(items@[k] == pre[k + 1]);
                        assert(items.deep_view()[k] == items@[k].deep_view());
                        assert(pre_dv[k + 1] == pre[k + 1].deep_view());
                        assert(pre_dv[k + 1] == orig.skip(taken as int)[k + 1]);
                    }
                    assert(items.deep_view() =~= orig.skip(taken as int + 1));
                    assert(pre_dv[0] == orig.skip(taken as int)[0]);
                    assert(item.deep_view() == orig[taken as int]);
                }
                match item {
                    Json::Str(s) => {
                        proof {
                            assert(item.deep_view() == JsonV::Str(s@));
                            assert(orig[taken as int]->Str_0 == s@);
                        }
                        let ghost pre_out = out@;
                        let ghost pre_deep = out.deep_view();
                        out.push(s);
                        proof {
                            let goal = strings_of(orig.take(taken as int + 1));
                            assert(pre_deep.len() == pre_out.len());
                            assert(pre_deep.len() == taken as int);
                            assert forall|k: int| 0 <= k < out@.len() implies #[trigger] out.deep_view()[k]
                                == goal[k] by {
                                if k < taken {
                                    assert(out@[k] == pre_out[k]);
                                    assert(out.deep_view()[k] == out@[k].deep_view());
                                    assert(pre_deep[k] == pre_out[k].deep_view());
                                    assert(pre_deep[k] == strings_of(orig.take(taken as int))[k]);
                                    assert(goal[k] == orig.take(taken as int + 1)[k]->Str_0);
                                } else {
                                    assert(out@[k] == s);
                                    assert(out.deep_view()[k] == s@);
                                    assert(goal[k] == orig.take(taken as int + 1)[k]->Str_0);
                                }
                            }
                            assert(out.deep_view() =~= goal);
                        }
                        taken = taken + 1;
                    },
                    _ => {
                        return Err(DecodeError::StructuralMismatch);
                    },
                }
            }
        },
        _ => Err(DecodeError::StructuralMismatch),
    }
}

/// The acknowledgement field names are pairwise distinct.
pub proof fn lemma_ack_keys_distinct()
    ensures
        "channel"@ != "maxratecount"@,
        "channel"@ != "snapshot"@,
        "channel"@ != "warnings"@,
        "channel"@ != "symbol"@,
        "channel"@ != "event_trigger"@,
        "channel"@ != "depth"@,
        "channel"@ != "interval"@,
        "maxratecount"@ != "snapshot"@,
        "maxratecount"@ != "warnings"@,
        "snapshot"@ != "warnings"@,
        "snapshot"@ != "interval"@,
        "warnings"@ != "interval"@,
        "symbol"@ != "event_trigger"@,
        "symbol"@ != "snapshot"@,
        "symbol"@ != "depth"@,
        "symbol"@ != "warnings"@,
        "symbol"@ != "interval"@,
        "event_trigger"@ != "snapshot"@,
        "depth"@ != "snapshot"@,
        "depth"@ != "warnings"@,
        "interval"@ != "depth"@,
{
    reveal_strlit("channel");
    reveal_strlit("maxratecount");
    reveal_strlit("snapshot");
    reveal_strlit("warnings");
    reveal_strlit("symbol");
    reveal_strlit("event_trigger");
    reveal_strlit("depth");
    reveal_strlit("interval");
    assert(("channel"@).len() == 7);
    assert(("maxratecount"@).len() == 12);
    assert(("snapshot"@).len() == 8);
    assert(("warnings"@).len() == 8);
    assert(("symbol"@).len() == 6);
    assert(("event_trigger"@).len() == 13);
    assert(("depth"@).len() == 5);
    assert(("interval"@).len() == 8);
    assert(("snapshot"@)[0] == 's');
    assert(("warnings"@)[0] == 'w');
    assert(("interval"@)[0] == 'i');
}

/// The granted execution-channel acknowledgement.
pub open spec fn spec_sub_execution(fields: FieldSeq) -> Result<SubscriptionResultV, DecodeError> {
    if remaining_after(fields, seq!["channel"@, "maxratecount"@, "snapshot"@, "warnings"@]).len()
        != 0 {
        Err(DecodeError::StructuralMismatch)
    } else {
        match (
            spec_opt_i64(field_value(fields, "maxratecount"@)),
            spec_opt_bool(field_value(fields, "snapshot"@)),
            spec_opt_warnings(field_value(fields, "warnings"@)),
        ) {
            (Ok(max_rate_count), Ok(snapshot), Ok(warnings)) => Ok(
                SubscriptionResultV::Execution { max_rate_count, snapshot, warnings },
            ),
            _ => Err(DecodeError::StructuralMismatch),
        }
    }
}

/// The granted balance-channel acknowledgement.
pub open spec fn spec_sub_balance(fields: FieldSeq) -> Result<SubscriptionResultV, DecodeError> {
    if remaining_after(fields, seq!["channel"@, "snapshot"@, "warnings"@]).len() != 0 {
        Err(DecodeError::StructuralMismatch)
    } else {
        match (
            spec_opt_bool(field_value(fields, "snapshot"@)),
            spec_opt_warnings(field_value(fields, "warnings"@)),
        ) {
            (Ok(snapshot), Ok(warnings)) => Ok(SubscriptionResultV::Balance { snapshot, warnings }),
            _ => Err(DecodeError::StructuralMismatch),
        }
    }
}

/// The granted ticker-channel acknowledgement.
pub open spec fn spec_sub_ticker(fields: FieldSeq) -> Result<SubscriptionResultV, DecodeError> {
    if remaining_after(fields, seq!["channel"@, "symbol"@, "event_trigger"@, "snapshot"@]).len()
        != 0 {
        Err(DecodeError::StructuralMismatch)
    } else {
        match (
            spec_req_str(field_value(fields, "symbol"@)),
            spec_opt_str(field_value(fields, "event_trigger"@)),
            spec_opt_bool(field_value(fields, "snapshot"@)),
        ) {
            (Ok(symbol), Ok(event_trigger), Ok(snapshot)) => Ok(
                SubscriptionResultV::Ticker { symbol, event_trigger, snapshot },
            ),
            _ => Err(DecodeError::StructuralMismatch),
        }
    }
}

/// The granted order-book acknowledgement, at either depth-keyed level.
pub open spec fn spec_sub_book(fields: FieldSeq, l3: bool) -> Result<
    SubscriptionResultV,
    DecodeError,
> {
    if remaining_after(fields, seq!["channel"@, "symbol"@, "snapshot"@, "depth"@, "warnings"@]).len()
        != 0 {
        Err(DecodeError::StructuralMismatch)
    } else {
        match (
            spec_req_str(field_value(fields, "symbol"@)),
            spec_opt_bool(field_value(fields, "snapshot"@)),
            spec_opt_i64(field_value(fields, "depth"@)),
            spec_opt_warnings(field_value(fields, "warnings"@)),
        ) {
            (Ok(symbol), Ok(snapshot), Ok(depth), Ok(warnings)) => if l3 {
                Ok(SubscriptionResultV::L3 { symbol, snapshot, depth, warnings })
            } else {
                Ok(SubscriptionResultV::Book { symbol, snapshot, depth, warnings })
            },
            _ => Err(DecodeError::StructuralMismatch),
        }
    }
}

/// The granted candle-channel acknowledgement.
pub open spec fn spec_sub_ohlc(fields: FieldSeq) -> Result<SubscriptionResultV, DecodeError> {
    if remaining_after(fields, seq!["channel"@, "symbol"@, "snapshot"@, "warnings"@, "interval"@]).len()
        != 0 {
        Err(DecodeError::StructuralMismatch)
    } else {
        match (
            spec_opt_str(field_value(fields, "symbol"@)),
            spec_opt_bool(field_value(fields, "snapshot"@)),
            spec_opt_warnings(field_value(fields, "warnings"@)),
            spec_req_i64(field_value(fields, "interval"@)),
        ) {
            (Ok(symbol), Ok(snapshot), Ok(warnings), Ok(interval)) => Ok(
                SubscriptionResultV::Ohlc { symbol, snapshot, warnings, interval },
            ),
            _ => Err(DecodeError::StructuralMismatch),
        }
    }
}

/// The granted trade-channel acknowledgement.
pub open spec fn spec_sub_trade(fields: FieldSeq) -> Result<SubscriptionResultV, DecodeError> {
    if remaining_after(fields, seq!["channel"@, "symbol"@, "snapshot"@, "warnings"@]).len() != 0 {
        Err(DecodeError::StructuralMismatch)
    } else {
        match (
            spec_opt_str(field_value(fields, "symbol"@)),
            spec_opt_bool(field_value(fields, "snapshot"@)),
            spec_opt_warnings(field_value(fields, "warnings"@)),
        ) {
            (Ok(symbol), Ok(snapshot), Ok(warnings)) => Ok(
                SubscriptionResultV::Trade { symbol, snapshot, warnings },
            ),
            _ => Err(DecodeError::StructuralMismatch),
        }
    }
}

/// The granted instrument-channel acknowledgement.
pub open spec fn spec_sub_instrument(fields: FieldSeq) -> Result<SubscriptionResultV, DecodeError> {
    if remaining_after(fields, seq!["channel"@, "snapshot"@, "warnings"@]).len() != 0 {
        Err(DecodeError::StructuralMismatch)
    } else {
        match (
            spec_opt_bool(field_value(fields, "snapshot"@)),
            spec_opt_warnings(field_value(fields, "warnings"@)),
        ) {
            (Ok(snapshot), Ok(warnings)) => Ok(
                SubscriptionResultV::Instrument { snapshot, warnings },
            ),
            _ => Err(DecodeError::StructuralMismatch),
        }
    }
}

/// What the exchange granted, read off a subscribe acknowledgement tree.
pub open spec fn spec_decode_subscription(v: JsonV) -> Result<SubscriptionResultV, DecodeError> {
    match v {
        JsonV::Obj(fields) => match spec_req_str(field_value(fields, "channel"@)) {
            Ok(tag) => if tag == "executions"@ {
                spec_sub_execution(fields)
            } else if tag == "balances"@ {
                spec_sub_balance(fields)
            } else if tag == "ticker"@ {
                spec_sub_ticker(fields)
            } else if tag == "book"@ || tag == "level3"@ {
                spec_sub_book(fields, tag == "level3"@)
            } else if tag == "ohlc"@ {
                spec_sub_ohlc(fields)
            } else if tag == "trade"@ {
                spec_sub_trade(fields)
            } else if tag == "instrument"@ {
                spec_sub_instrument(fields)
            } else {
                Err(DecodeError::UnrecognizedTag)
            },
            Err(e) => Err(e),
        },
        _ => Err(DecodeError::StructuralMismatch),
    }
}

fn sub_execution(t: FieldTaker) -> (r: Result<SubscriptionResult, DecodeError>)
    requires
        t.wf(),
        t.taken() == seq!["channel"@],
    ensures
        res_view(r) == spec_sub_execution(t.orig()),
{
    let mut t = t;
    proof {
        lemma_ack_keys_distinct();
    }
    let mrc = t.take("maxratecount");
    let snap = t.take("snapshot");
    let warn = t.take("warnings");
    proof {
        assert(t.taken() =~= seq!["channel"@, "maxratecount"@, "snapshot"@, "warnings"@]);
    }
    match t.finish_strict() {
        Err(e) => {
            return Err(e);
        },
        Ok(()) => {},
    }
    let max_rate_count = match opt_i64(mrc) {
        Ok(x) => x,
        Err(e) => {
            return Err(e);
        },
    };
    let snapshot = match opt_bool(snap) {
        Ok(x) => x,
        Err(e) => {
            return Err(e);
        },
    };
    let warnings = match opt_warnings(warn) {
        Ok(x) => x,
        Err(e) => {
            return Err(e);
        },
    };
    Ok(SubscriptionResult::Execution { max_rate_count, snapshot, warnings })
}

fn sub_balance(t: FieldTaker) -> (r: Result<SubscriptionResult, DecodeError>)
    requires
        t.wf(),
        t.taken() == seq!["channel"@],
    ensures
        res_view(r) == spec_sub_balance(t.orig()),
{
    let mut t = t;
    proof {
        lemma_ack_keys_distinct();
    }
    let snap = t.take("snapshot");
    let warn = t.take("warnings");
    proof {
        assert(t.taken() =~= seq!["channel"@, "snapshot"@, "warnings"@]);
    }
    match t.finish_strict() {
        Err(e) => {
            return Err(e);
        },
        Ok(()) => {},
    }
    let snapshot = match opt_bool(snap) {
        Ok(x) => x,
        Err(e) => {
            return Err(e);
        },
    };
    let warnings = match opt_warnings(warn) {
        Ok(x) => x,
        Err(e) => {
            return Err(e);
        },
    };
    Ok(SubscriptionResult::Balance { snapshot, warnings })
}

fn sub_ticker(t: FieldTaker) -> (r: Result<SubscriptionResult, DecodeError>)
    requires
        t.wf(),
        t.taken() == seq!["channel"@],
    ensures
        res_view(r) == spec_sub_ticker(t.orig()),
{
    let mut t = t;
    proof {
        lemma_ack_keys_distinct();
    }
    let sym = t.take("symbol");
    let ev = t.take("event_trigger");
    let snap = t.take("snapshot");
    proof {
        assert(t.taken() =~= seq!["channel"@, "symbol"@, "event_trigger"@, "snapshot"@]);
    }
    match t.finish_strict() {
        Err(e) => {
            return Err(e);
        },
        Ok(()) => {},
    }
    let symbol = match req_str(sym) {
        Ok(x) => x,
        Err(e) => {
            return Err(e);
        },
    };
    let event_trigger = match opt_str(ev) {
        Ok(x) => x,
        Err(e) => {
            return Err(e);
        },
    };
    let snapshot = match opt_bool(snap) {
        Ok(x) => x,
        Err(e) => {
            return Err(e);
        },
    };
    Ok(SubscriptionResult::Ticker { symbol, event_trigger, snapshot })
}

fn sub_book(t: FieldTaker, l3: bool) -> (r: Result<SubscriptionResult, DecodeError>)
    requires
        t.wf(),
        t.taken() == seq!["channel"@],
    ensures
        res_view(r) == spec_sub_book(t.orig(), l3),
{
    let mut t = t;
    proof {
        lemma_ack_keys_distinct();
    }
    let sym = t.take("symbol");
    let snap = t.take("snapshot");
    let dep = t.take("depth");
    let warn = t.take("warnings");
    proof {
        assert(t.taken() =~= seq!["channel"@, "symbol"@, "snapshot"@, "depth"@, "warnings"@]);
    }
    match t.finish_strict() {
        Err(e) => {
            return Err(e);
        },
        Ok(()) => {},
    }
    let symbol = match req_str(sym) {
        Ok(x) => x,
        Err(e) => {
            return Err(e);
        },
    };
    let snapshot = match opt_bool(snap) {
        Ok(x) => x,
        Err(e) => {
            return Err(e);
        },
    };
    let depth = match opt_i64(dep) {
        Ok(x) => x,
        Err(e) => {
            return Err(e);
        },
    };
    let warnings = match opt_warnings(warn) {
        Ok(x) => x,
        Err(e) => {
            return Err(e);
        },
    };
    if l3 {
        Ok(SubscriptionResult::L3 { symbol, snapshot, depth, warnings })
    } else {
        Ok(SubscriptionResult::Book { symbol, snapshot, depth, warnings })
    }
}

fn sub_ohlc(t: FieldTaker) -> (r: Result<SubscriptionResult, DecodeError>)
    requires
        t.wf(),
        t.taken() == seq!["channel"@],
    ensures
        res_view(r) == spec_sub_ohlc(t.orig()),
{
    let mut t = t;
    proof {
        lemma_ack_keys_distinct();
    }
    let sym = t.take("symbol");
    let snap = t.take("snapshot");
    let warn = t.take("warnings");
    let intv = t.take("interval");
    proof {
        assert(t.taken() =~= seq!["channel"@, "symbol"@, "snapshot"@, "warnings"@, "interval"@]);
    }
    match t.finish_strict() {
        Err(e) => {
            return Err(e);
        },
        Ok(()) => {},
    }
    let symbol = match opt_str(sym) {
        Ok(x) => x,
        Err(e) => {
            return Err(e);
        },
    };
    let snapshot = match opt_bool(snap) {
        Ok(x) => x,
        Err(e) => {
            return Err(e);
        },
    };
    let warnings = match opt_warnings(warn) {
        Ok(x) => x,
        Err(e) => {
            return Err(e);
        },
    };
    let interval = match req_i64(intv) {
        Ok(x) => x,
        Err(e) => {
            return Err(e);
        },
    };
    Ok(SubscriptionResult::Ohlc { symbol, snapshot, warnings, interval })
}

fn sub_trade(t: FieldTaker) -> (r: Result<SubscriptionResult, DecodeError>)
    requires
        t.wf(),
        t.taken() == seq!["channel"@],
    ensures
        res_view(r) == spec_sub_trade(t.orig()),
{
    let mut t = t;
    proof {
        lemma_ack_keys_distinct();
    }
    let sym = t.take("symbol");
    let snap = t.take("snapshot");
    let warn = t.take("warnings");
    proof {
        assert(t.taken() =~= seq!["channel"@, "symbol"@, "snapshot"@, "warnings"@]);
    }
    match t.finish_strict() {
        Err(e) => {
            return Err(e);
        },
        Ok(()) => {},
    }
    let symbol = match opt_str(sym) {
        Ok(x) => x,
        Err(e) => {
            return Err(e);
        },
    };
    let snapshot = match opt_bool(snap) {
        Ok(x) => x,
        Err(e) => {
            return Err(e);
        },
    };
    let warnings = match opt_warnings(warn) {
        Ok(x) => x,
        Err(e) => {
            return Err(e);
        },
    };
    Ok(SubscriptionResult::Trade { symbol, snapshot, warnings })
}

fn sub_instrument(t: FieldTaker) -> (r: Result<SubscriptionResult, DecodeError>)
    requires
        t.wf(),
        t.taken() == seq!["channel"@],
    ensures
        res_view(r) == spec_sub_instrument(t.orig()),
{
    let mut t = t;
    proof {
        lemma_ack_keys_distinct();
    }
    let snap = t.take("snapshot");
    let warn = t.take("warnings");
    proof {
        assert(t.taken() =~= seq!["channel"@, "snapshot"@, "warnings"@]);
    }
    match t.finish_strict() {
        Err(e) => {
            return Err(e);
        },
        Ok(()) => {},
    }
    let snapshot = match opt_bool(snap) {
        Ok(x) => x,
        Err(e) => {
            return Err(e);
        },
    };
    let warnings = match opt_warnings(warn) {
        Ok(x) => x,
        Err(e) => {
            return Err(e);
        },
    };
    Ok(SubscriptionResult::Instrument { snapshot, warnings })
}

/// Decode the `result` tree of a subscribe acknowledgement, dispatching on
/// its channel tag.
pub fn decode_subscription(v: Json) -> (r: Result<SubscriptionResult, DecodeError>)
    ensures
        res_view(r) == spec_decode_subscription(v.deep_view()),
{
    match v {
        Json::Obj(fields) => {
            proof {
                crate::tree::lemma_obj_view(fields);
            }
            let mut t = FieldTaker::new(fields);
            let tagj = t.take("channel");
            let tag = match req_str(tagj) {
                Ok(s) => s,
                Err(e) => {
                    return Err(e);
                },
            };
            proof {
                assert(t.taken() =~= seq!["channel"@]);
            }
            if str_eq(tag.as_str(), "executions") {
                sub_execution(t)
            } else if str_eq(tag.as_str(), "balances") {
                sub_balance(t)
            } else if str_eq(tag.as_str(), "ticker") {
                sub_ticker(t)
            } else if str_eq(tag.as_str(), "book") {
                proof {
                    reveal_strlit("book");
                    reveal_strlit("level3");
                    assert(("book"@).len() == 4);
                    assert(("level3"@).len() == 6);
                }
                sub_book(t, false)
            } else if str_eq(tag.as_str(), "level3") {
                sub_book(t, true)
            } else if str_eq(tag.as_str(), "ohlc") {
                sub_ohlc(t)
            } else if str_eq(tag.as_str(), "trade") {
                sub_trade(t)
            } else if str_eq(tag.as_str(), "instrument") {
                sub_instrument(t)
            } else {
                Err(DecodeError::UnrecognizedTag)
            }
        },
        _ => Err(DecodeError::StructuralMismatch),
    }
}

/// What one unsubscribe call acknowledged, read off its `result` tree.
pub open spec fn spec_decode_unsubscription(v: JsonV) -> Result<
    UnsubscriptionResultV,
    DecodeError,
> {
    match v {
        JsonV::Obj(fields) => match spec_req_str(field_value(fields, "channel"@)) {
            Ok(tag) => if tag == "executions"@ {
                if remaining_after(fields, seq!["channel"@]).len() != 0 {
                    Err(DecodeError::StructuralMismatch)
                } else {
                    Ok(UnsubscriptionResultV::Execution)
                }
            } else if tag == "balances"@ {
                if remaining_after(fields, seq!["channel"@]).len() != 0 {
                    Err(DecodeError::StructuralMismatch)
                } else {
                    Ok(UnsubscriptionResultV::Balance)
                }
            } else if tag == "ticker"@ || tag == "trade"@ || tag == "level3"@ {
                if remaining_after(fields, seq!["channel"@, "symbol"@]).len() != 0 {
                    Err(DecodeError::StructuralMismatch)
                } else {
                    match spec_opt_str(field_value(fields, "symbol"@)) {
                        Ok(symbol) => if tag == "ticker"@ {
                            Ok(UnsubscriptionResultV::Ticker { symbol })
                        } else if tag == "trade"@ {
                            Ok(UnsubscriptionResultV::Trade { symbol })
                        } else {
                            Ok(UnsubscriptionResultV::L3 { symbol })
                        },
                        _ => Err(DecodeError::StructuralMismatch),
                    }
                }
            } else if tag == "book"@ {
                if remaining_after(fields, seq!["channel"@, "symbol"@, "depth"@]).len() != 0 {
                    Err(DecodeError::StructuralMismatch)
                } else {
                    match (
                        spec_opt_str(field_value(fields, "symbol"@)),
                        spec_opt_i64(field_value(fields, "depth"@)),
                    ) {
                        (Ok(symbol), Ok(depth)) => Ok(
                            UnsubscriptionResultV::Book { symbol, depth },
                        ),
                        _ => Err(DecodeError::StructuralMismatch),
                    }
                }
            } else if tag == "ohlc"@ {
                if remaining_after(fields, seq!["channel"@, "symbol"@, "interval"@]).len() != 0 {
                    Err(DecodeError::StructuralMismatch)
                } else {
                    match (
                        spec_req_str(field_value(fields, "symbol"@)),
                        spec_req_i64(field_value(fields, "interval"@)),
                    ) {
                        (Ok(symbol), Ok(interval)) => Ok(
                            UnsubscriptionResultV::Ohlc { symbol, interval },
                        ),
                        _ => Err(DecodeError::StructuralMismatch),
                    }
                }
            } else if tag == "instrument"@ {
                if remaining_after(fields, seq!["channel"@]).len() != 0 {
                    Err(DecodeError::StructuralMismatch)
                } else {
                    Ok(UnsubscriptionResultV::Instrument)
                }
            } else {
                Err(DecodeError::UnrecognizedTag)
            },
            Err(e) => Err(e),
        },
        _ => Err(DecodeError::StructuralMismatch),
    }
}

/// Decode the `result` tree of an unsubscribe acknowledgement.
#[verifier::rlimit(100)]
#[verifier::spinoff_prover]
pub fn decode_unsubscription(v: Json) -> (r: Result<UnsubscriptionResult, DecodeError>)
    ensures
        res_view(r) == spec_decode_unsubscription(v.deep_view()),
{
    match v {
        Json::Obj(fields) => {
            proof {
                crate::tree::lemma_obj_view(fields);
            }
            let mut t = FieldTaker::new(fields);
            proof {
                lemma_ack_keys_distinct();
            }
            let tagj = t.take("channel");
            let tag = match req_str(tagj) {
                Ok(s) => s,
                Err(e) => {
                    return Err(e);
                },
            };
            if str_eq(tag.as_str(), "executions") || str_eq(tag.as_str(), "balances") {
                proof {
                    assert(t.taken() =~= seq!["channel"@]);
                }
                match t.finish_strict() {
                    Err(e) => {
                        return Err(e);
                    },
                    Ok(()) => {},
                }
                if str_eq(tag.as_str(), "executions") {
                    Ok(UnsubscriptionResult::Execution)
                } else {
                    Ok(UnsubscriptionResult::Balance)
                }
            } else if str_eq(tag.as_str(), "ticker") || str_eq(tag.as_str(), "trade") || str_eq(
                tag.as_str(),
                "level3",
            ) {
                let sym = t.take("symbol");
                proof {
                    assert(t.taken() =~= seq!["channel"@, "symbol"@]);
                }
                match t.finish_strict() {
                    Err(e) => {
                        return Err(e);
                    },
                    Ok(()) => {},
                }
                let symbol = match opt_str(sym) {
                    Ok(x) => x,
                    Err(e) => {
                        return Err(e);
                    },
                };
                if str_eq(tag.as_str(), "ticker") {
                    Ok(UnsubscriptionResult::Ticker { symbol })
                } else if str_eq(tag.as_str(), "trade") {
                    Ok(UnsubscriptionResult::Trade { symbol })
                } else {
                    Ok(UnsubscriptionResult::L3 { symbol })
                }
            } else if str_eq(tag.as_str(), "book") {
                let sym = t.take("symbol");
                let dep = t.take("depth");
                proof {
                    assert(t.taken() =~= seq!["channel"@, "symbol"@, "depth"@]);
                }
                match t.finish_strict() {
                    Err(e) => {
                        return Err(e);
                    },
                    Ok(()) => {},
                }
                let symbol = match opt_str(sym) {
                    Ok(x) => x,
                    Err(e) => {
                        return Err(e);
                    },
                };
                let depth = match opt_i64(dep) {
                    Ok(x) => x,
                    Err(e) => {
                        return Err(e);
                    },
                };
                Ok(UnsubscriptionResult::Book { symbol, depth })
            } else if str_eq(tag.as_str(), "ohlc") {
                let sym = t.take("symbol");
                let intv = t.take("interval");
                proof {
                    assert(t.taken() =~= seq!["channel"@, "symbol"@, "interval"@]);
                }
                match t.finish_strict() {
                    Err(e) => {
                        return Err(e);
                    },
                    Ok(()) => {},
                }
                let symbol = match req_str(sym) {
                    Ok(x) => x,
                    Err(e) => {
                        return Err(e);
                    },
                };
                let interval = match req_i64(intv) {
                    Ok(x) => x,
                    Err(e) => {
                        return Err(e);
                    },
                };
                Ok(UnsubscriptionResult::Ohlc { symbol, interval })
            } else if str_eq(tag.as_str(), "instrument") {
                proof {
                    assert(t.taken() =~= seq!["channel"@]);
                }
                match t.finish_strict() {
                    Err(e) => {
                        return Err(e);
                    },
                    Ok(()) => {},
                }
                Ok(UnsubscriptionResult::Instrument)
            } else {
                Err(DecodeError::UnrecognizedTag)
            }
        },
        _ => Err(DecodeError::StructuralMismatch),
    }
}

} // verus!
