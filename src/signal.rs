//! A trading signal as it arrives on the webhook, and the record stored for it.
use vstd::prelude::*;

use crate::document::{document_text, frame_document, json_of_str, str_json};
use crate::price::{decimal_json, json_of_decimal, Price};

verus! {

/// HTTP status of a signal that was stored.
pub const STATUS_OK: u16 = 200;

/// HTTP status of a signal that the store refused; no detail goes back.
pub const STATUS_INTERNAL_SERVER_ERROR: u16 = 500;

/// A decoded webhook body. `action` is meant to be `buy` or `sell` but any
/// text is carried as it came.
#[derive(Clone, Debug)]
pub struct SignalPayload {
    pub pair: String,
    pub action: String,
    pub price: Price,
    pub source: String,
}

/// One row of the signal table: the four fields of a payload, the raw
/// document (`None` is a null document), and the association to a bot, which
/// nothing sets yet.
#[derive(Clone, Debug)]
pub struct SignalRecord {
    pub pair: String,
    pub action: String,
    pub price: Price,
    pub source: String,
    pub raw_payload: Option<String>,
    pub bot_id: Option<u64>,
}

impl SignalPayload {
    pub open spec fn wf(&self) -> bool {
        self.price.wf()
    }

    /// The JSON object text of the four fields.
    pub open spec fn document(&self) -> Seq<char> {
        document_text(
            json_of_str(self.pair@),
            json_of_str(self.action@),
            json_of_decimal(self.price.mantissa as int, self.price.scale as nat),
            json_of_str(self.source@),
        )
    }

    /// The raw document of this payload. A failed serialization of a field
    /// would give `None`, a null document; for text and decimal fields it
    /// cannot fail.
    pub fn raw_document(&self) -> (r: Option<String>)
        requires
            self.wf(),
        ensures
            r is Some,
            r matches Some(t) ==> t@ == self.document(),
    {
        let pair = str_json(self.pair.as_str());
        let action = str_json(self.action.as_str());
        let price = decimal_json(&self.price);
        let source = str_json(self.source.as_str());
        match (pair, action, price, source) {
            (Some(pair), Some(action), Some(price), Some(source)) => Some(
                frame_document(pair.as_str(), action.as_str(), price.as_str(), source.as_str()),
            ),
            _ => None,
        }
    }
}

impl SignalRecord {
    /// The record of `payload` with the given raw document and no bot.
    pub fn new(payload: SignalPayload, raw_payload: Option<String>) -> (r: SignalRecord)
        ensures
            r.pair@ == payload.pair@,
            r.action@ == payload.action@,
            r.price == payload.price,
            r.source@ == payload.source@,
            r.raw_payload == raw_payload,
            r.bot_id is None,
    {
        SignalRecord {
            pair: payload.pair,
            action: payload.action,
            price: payload.price,
            source: payload.source,
            raw_payload,
            bot_id: None,
        }
    }

    /// The record to store for `payload`: its four fields unchanged, its
    /// document, and no bot.
    pub fn from_payload(payload: SignalPayload) -> (r: SignalRecord)
        requires
            payload.wf(),
        ensures
            r.pair@ == payload.pair@,
            r.action@ == payload.action@,
            r.price == payload.price,
            r.source@ == payload.source@,
            r.bot_id is None,
            r.raw_payload is Some,
            r.raw_payload matches Some(t) ==> t@ == payload.document(),
    {
        let raw = payload.raw_document();
        SignalRecord::new(payload, raw)
    }
}

/// The status that answers a webhook call, from whether the insert succeeded.
pub fn webhook_status(stored: bool) -> (r: u16)
    ensures
        stored ==> r == STATUS_OK,
        !stored ==> r == STATUS_INTERNAL_SERVER_ERROR,
{
    if stored {
        STATUS_OK
    } else {
        STATUS_INTERNAL_SERVER_ERROR
    }
}

} // verus!
