use vstd::prelude::*;

use crate::error::DecodeFailure;
use crate::json::{get_member, json_of, member, member_of, parse_json, Json};
use crate::number::{
    digits_value, is_decimal, is_decimal_text, is_positive_decimal, is_positive_decimal_text,
    is_u64_text, lemma_index_of_bounds, parse_u64_text,
};

verus! {

/// A normalized market observation.
#[derive(Debug)]
pub struct Tick {
    /// Market identifier, such as `ETH-BTC`.
    pub market: String,
    /// Last trade price, as a decimal numeral.
    pub price: String,
    /// Traded volume, as a decimal numeral.
    pub volume: String,
    /// Exchange the tick comes from.
    pub exchange: String,
    /// Seconds since the epoch.
    pub ts: u64,
}

pub struct TickView {
    pub market: Seq<char>,
    pub price: Seq<char>,
    pub volume: Seq<char>,
    pub exchange: Seq<char>,
    pub ts: u64,
}

impl View for Tick {
    type V = TickView;

    open spec fn view(&self) -> TickView {
        TickView {
            market: self.market@,
            price: self.price@,
            volume: self.volume@,
            exchange: self.exchange@,
            ts: self.ts,
        }
    }
}

/// What one inbound frame amounts to.
#[derive(Debug)]
pub enum Decoded {
    Tick(Tick),
    /// A frame of the protocol itself (welcome, acknowledgment, pong).
    Ack,
    /// A tick whose price or volume is not above zero.
    Dropped,
    Failed(DecodeFailure),
}

pub enum DecodedView {
    Tick(TickView),
    Ack,
    Dropped,
    Failed(DecodeFailure),
}

impl View for Decoded {
    type V = DecodedView;

    open spec fn view(&self) -> DecodedView {
        match self {
            Decoded::Tick(t) => DecodedView::Tick(t@),
            Decoded::Ack => DecodedView::Ack,
            Decoded::Dropped => DecodedView::Dropped,
            Decoded::Failed(f) => DecodedView::Failed(*f),
        }
    }
}

pub open spec fn kucoin() -> Seq<char> {
    seq!['k', 'u', 'c', 'o', 'i', 'n']
}

/// What every tick handed to the consumer satisfies.
pub open spec fn valid_tick(t: TickView) -> bool {
    &&& is_positive_decimal(t.price)
    &&& is_positive_decimal(t.volume)
    &&& t.exchange == kucoin()
    &&& t.market.len() > 0
}

/// A number, or a string holding a decimal numeral.
pub open spec fn numeral_of(j: Json) -> Option<Seq<char>> {
    match j {
        Json::Number(t) => if is_decimal(t@) { Some(t@) } else { None },
        Json::Text(t) => if is_decimal(t@) { Some(t@) } else { None },
        _ => None,
    }
}

/// A whole number of seconds, given as a number or as a string.
pub open spec fn seconds_of(j: Json) -> Option<u64> {
    match j {
        Json::Number(t) => if is_u64_text(t@) { Some(digits_value(t@) as u64) } else { None },
        Json::Text(t) => if is_u64_text(t@) { Some(digits_value(t@) as u64) } else { None },
        _ => None,
    }
}

/// A non-empty string.
pub open spec fn name_of(j: Json) -> Option<Seq<char>> {
    match j {
        Json::Text(t) => if t@.len() > 0 { Some(t@) } else { None },
        _ => None,
    }
}

/// The tick that the `data` member of a frame describes.
pub open spec fn tick_outcome(data: Json) -> DecodedView {
    match member(data, "lastDealPrice"@) {
        None => DecodedView::Failed(DecodeFailure::MissingPrice),
        Some(p) => match numeral_of(p) {
            None => DecodedView::Failed(DecodeFailure::BadPrice),
            Some(price) => match member(data, "vol"@) {
                None => DecodedView::Failed(DecodeFailure::MissingVolume),
                Some(v) => match numeral_of(v) {
                    None => DecodedView::Failed(DecodeFailure::BadVolume),
                    Some(volume) => match member(data, "datetime"@) {
                        None => DecodedView::Failed(DecodeFailure::MissingTimestamp),
                        Some(d) => match seconds_of(d) {
                            None => DecodedView::Failed(DecodeFailure::BadTimestamp),
                            Some(ts) => match member(data, "symbol"@) {
                                None => DecodedView::Failed(DecodeFailure::MissingMarket),
                                Some(s) => match name_of(s) {
                                    None => DecodedView::Failed(DecodeFailure::BadMarket),
                                    Some(market) => if is_positive_decimal(price)
                                        && is_positive_decimal(volume) {
                                        DecodedView::Tick(
                                            TickView {
                                                market,
                                                price,
                                                volume,
                                                exchange: kucoin(),
                                                ts,
                                            },
                                        )
                                    } else {
                                        DecodedView::Dropped
                                    },
                                },
                            },
                        },
                    },
                },
            },
        },
    }
}

/// Whether `data` carries a `bulletToken` string.
pub open spec fn has_credential(data: Json) -> bool {
    member(data, "bulletToken"@) matches Some(Json::Text(_))
}

/// What a parsed frame amounts to: without `data` it is a protocol frame when
/// it has a `type` string; a `data` with a credential is out of place on the
/// stream; any other `data` is read as a tick.
pub open spec fn decode_spec(doc: Option<Json>) -> DecodedView {
    match doc {
        None => DecodedView::Failed(DecodeFailure::NotJson),
        Some(d) => match member(d, "data"@) {
            None => if member(d, "type"@) matches Some(Json::Text(_)) {
                DecodedView::Ack
            } else {
                DecodedView::Failed(DecodeFailure::MissingData)
            },
            Some(data) => if has_credential(data) {
                DecodedView::Failed(DecodeFailure::CredentialPayload)
            } else {
                tick_outcome(data)
            },
        },
    }
}

fn numeral_field(j: &Json) -> (r: Option<String>)
    ensures
        match r {
            Some(t) => numeral_of(*j) == Some(t@),
            None => numeral_of(*j) is None,
        },
{
    match j {
        Json::Number(t) => if is_decimal_text(t.as_str()) { Some(t.clone()) } else { None },
        Json::Text(t) => if is_decimal_text(t.as_str()) { Some(t.clone()) } else { None },
        _ => None,
    }
}

fn seconds_field(j: &Json) -> (r: Option<u64>)
    ensures
        r == seconds_of(*j),
{
    match j {
        Json::Number(t) => parse_u64_text(t.as_str()),
        Json::Text(t) => parse_u64_text(t.as_str()),
        _ => None,
    }
}

fn name_field(j: &Json) -> (r: Option<String>)
    ensures
        match r {
            Some(t) => name_of(*j) == Some(t@),
            None => name_of(*j) is None,
        },
{
    match j {
        Json::Text(t) => if t.as_str().unicode_len() > 0 { Some(t.clone()) } else { None },
        _ => None,
    }
}

/// Reads the tick that `data` describes.
pub fn parse_tick(data: &Json) -> (r: Decoded)
    ensures
        r@ == tick_outcome(*data),
{
    let price = match get_member(data, "lastDealPrice") {
        None => return Decoded::Failed(DecodeFailure::MissingPrice),
        Some(p) => match numeral_field(p) {
            None => return Decoded::Failed(DecodeFailure::BadPrice),
            Some(t) => t,
        },
    };
    let volume = match get_member(data, "vol") {
        None => return Decoded::Failed(DecodeFailure::MissingVolume),
        Some(v) => match numeral_field(v) {
            None => return Decoded::Failed(DecodeFailure::BadVolume),
            Some(t) => t,
        },
    };
    let ts = match get_member(data, "datetime") {
        None => return Decoded::Failed(DecodeFailure::MissingTimestamp),
        Some(d) => match seconds_field(d) {
            None => return Decoded::Failed(DecodeFailure::BadTimestamp),
            Some(s) => s,
        },
    };
    let market = match get_member(data, "symbol") {
        None => return Decoded::Failed(DecodeFailure::MissingMarket),
        Some(s) => match name_field(s) {
            None => return Decoded::Failed(DecodeFailure::BadMarket),
            Some(t) => t,
        },
    };
    if is_positive_decimal_text(price.as_str()) && is_positive_decimal_text(volume.as_str()) {
        let exchange = crate::default_exchange();
        Decoded::Tick(Tick { market, price, volume, exchange, ts })
    } else {
        Decoded::Dropped
    }
}

/// Classifies a parsed frame.
pub fn decode_document(doc: &Option<Json>) -> (r: Decoded)
    ensures
        r@ == decode_spec(*doc),
{
    match doc {
        None => Decoded::Failed(DecodeFailure::NotJson),
        Some(d) => match get_member(d, "data") {
            None => match get_member(d, "type") {
                Some(Json::Text(_)) => Decoded::Ack,
                _ => Decoded::Failed(DecodeFailure::MissingData),
            },
            Some(data) => match get_member(data, "bulletToken") {
                Some(Json::Text(_)) => Decoded::Failed(DecodeFailure::CredentialPayload),
                _ => parse_tick(data),
            },
        },
    }
}

/// Decodes one inbound text frame.
pub fn decode(frame: &str) -> (r: Decoded)
    ensures
        r@ == decode_spec(json_of(frame@)),
        r@ matches DecodedView::Tick(t) ==> valid_tick(t),
{
    let doc = parse_json(frame);
    proof {
        lemma_decoded_ticks_valid(doc);
    }
    decode_document(&doc)
}

/// Every tick that decoding yields has a price and a volume above zero, the
/// exchange `kucoin` and a non-empty market.
pub proof fn lemma_decoded_ticks_valid(doc: Option<Json>)
    ensures
        decode_spec(doc) matches DecodedView::Tick(t) ==> valid_tick(t),
{
}

/// Decoding is a function of the frame's text: the same text gives the same
/// outcome.
pub proof fn lemma_decode_deterministic(f1: Seq<char>, f2: Seq<char>)
    requires
        f1 == f2,
    ensures
        decode_spec(json_of(f1)) == decode_spec(json_of(f2)),
{
}

/// A price or a volume written as zero (`0`, `0.0`, `000.00`) suppresses the
/// tick.
pub proof fn lemma_zero_suppresses(d: Json, data: Json, field: Json, t: String, price_field: bool)
    requires
        member(d, "data"@) == Some(data),
        field == Json::Number(t) || field == Json::Text(t),
        forall|i: int| 0 <= i < t@.len() ==> #[trigger] t@[i] == '0' || t@[i] == '.',
        price_field ==> member(data, "lastDealPrice"@) == Some(field),
        !price_field ==> member(data, "vol"@) == Some(field),
    ensures
        !(decode_spec(Some(d)) is Tick),
{
    lemma_index_of_bounds(t@, 'e', 'E');
    assert(!is_positive_decimal(t@));
}

/// A frame whose `data` has no `datetime` fails to decode.
pub proof fn lemma_missing_timestamp_fails(d: Json, data: Json)
    requires
        member(d, "data"@) == Some(data),
        member(data, "datetime"@) is None,
    ensures
        decode_spec(Some(d)) is Failed,
{
}

proof fn lemma_member_of_push(fields: Seq<(String, Json)>, extra: (String, Json), key: Seq<char>)
    requires
        extra.0@ != key,
    ensures
        member_of(fields.push(extra), key) == member_of(fields, key),
    decreases fields.len(),
{
    if fields.len() > 0 {
        assert(fields.push(extra).drop_first() =~= fields.drop_first().push(extra));
        assert(fields.push(extra)[0] == fields[0]);
        lemma_member_of_push(fields.drop_first(), extra, key);
    } else {
        assert(fields.push(extra)[0] == extra);
        assert(fields.push(extra).drop_first() =~= Seq::<(String, Json)>::empty());
        assert(member_of(Seq::<(String, Json)>::empty(), key) is None);
    }
}

/// A member of `data` that the decoder does not read leaves the outcome as
/// it was.
pub proof fn lemma_unknown_member_ignored(
    d1: Json,
    d2: Json,
    fields: Seq<(String, Json)>,
    extra: (String, Json),
)
    requires
        member(d1, "data"@) matches Some(Json::Object(f1)) && f1@ == fields,
        member(d2, "data"@) matches Some(Json::Object(f2)) && f2@ == fields.push(extra),
        member(d2, "type"@) == member(d1, "type"@),
        extra.0@ != "lastDealPrice"@,
        extra.0@ != "vol"@,
        extra.0@ != "datetime"@,
        extra.0@ != "symbol"@,
        extra.0@ != "bulletToken"@,
    ensures
        decode_spec(Some(d2)) == decode_spec(Some(d1)),
{
    lemma_member_of_push(fields, extra, "lastDealPrice"@);
    lemma_member_of_push(fields, extra, "vol"@);
    lemma_member_of_push(fields, extra, "datetime"@);
    lemma_member_of_push(fields, extra, "symbol"@);
    lemma_member_of_push(fields, extra, "bulletToken"@);
}

} // verus!
