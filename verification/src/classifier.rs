//! Classification of one decoded frame against the closed set of shapes that
//! the exchange sends.

use vstd::prelude::*;
use crate::json::{parse, parsed_value, Json};
use crate::models::{GenericMessage, SymbolTicker};

verus! {

/// What one frame turned out to be.
#[derive(Debug, Clone, PartialEq)]
pub enum ClassifiedEvent {
    /// A ticker record.
    DomainTick(SymbolTicker),
    /// A control message, with the frame's text.
    ControlMessage { message: GenericMessage, raw: String },
    /// A value of no known shape, with the frame's text.
    Unrecognized { raw: String },
}

/// A fault in one frame. None ends a session: the frame is noted and the
/// next one read.
#[derive(Debug, Clone, Copy, PartialEq, Eq)]
pub enum ProtocolError {
    /// The frame is no JSON document.
    MalformedFrame,
    /// The frame is JSON of no known shape.
    UnrecognizedShape,
}

/// The ticker record that a value spells out, if it has every field of one
/// with the right type. Members beyond those are ignored.
pub open spec fn tick_of(value: Json) -> Option<SymbolTicker> {
    match (
        value.unsigned_member("sequence"@),
        value.text_member("symbol"@),
        value.text_member("bestBidPrice"@),
        value.unsigned_member("bestBidSize"@),
        value.text_member("bestAskPrice"@),
        value.unsigned_member("bestAskSize"@),
        value.unsigned_member("ts"@),
    ) {
        (
            Some(sequence),
            Some(symbol),
            Some(best_bid_price),
            Some(best_bid_size),
            Some(best_ask_price),
            Some(best_ask_size),
            Some(ts),
        ) => Some(
            SymbolTicker {
                sequence,
                symbol,
                best_bid_price,
                best_bid_size,
                best_ask_price,
                best_ask_size,
                ts,
            },
        ),
        _ => None,
    }
}

/// The control message that a value spells out: a string `id` and a string
/// `type`.
pub open spec fn control_of(value: Json) -> Option<GenericMessage> {
    match (value.text_member("id"@), value.text_member("type"@)) {
        (Some(id), Some(msg_type)) => Some(GenericMessage { id, msg_type }),
        _ => None,
    }
}

/// `event` is the classification of the unwrapped `value` that came in a
/// frame with the text `raw`: a tick where the value is one, else a control
/// message where it is one, else unrecognized.
pub open spec fn classifies(event: ClassifiedEvent, value: Json, raw: Seq<char>) -> bool {
    match event {
        ClassifiedEvent::DomainTick(tick) => tick_of(value) == Some(tick),
        ClassifiedEvent::ControlMessage { message, raw: text } => {
            &&& tick_of(value) is None
            &&& control_of(value) == Some(message)
            &&& text@ == raw
        },
        ClassifiedEvent::Unrecognized { raw: text } => {
            &&& tick_of(value) is None
            &&& control_of(value) is None
            &&& text@ == raw
        },
    }
}

/// Reads a ticker record off a value.
pub fn read_tick(value: &Json) -> (r: Option<SymbolTicker>)
    ensures
        r == tick_of(*value),
{
    let sequence = value.get_unsigned("sequence");
    let symbol = value.get_text("symbol");
    let best_bid_price = value.get_text("bestBidPrice");
    let best_bid_size = value.get_unsigned("bestBidSize");
    let best_ask_price = value.get_text("bestAskPrice");
    let best_ask_size = value.get_unsigned("bestAskSize");
    let ts = value.get_unsigned("ts");
    match (sequence, symbol, best_bid_price, best_bid_size, best_ask_price, best_ask_size, ts) {
        (
            Some(sequence),
            Some(symbol),
            Some(best_bid_price),
            Some(best_bid_size),
            Some(best_ask_price),
            Some(best_ask_size),
            Some(ts),
        ) => Some(
            SymbolTicker {
                sequence,
                symbol,
                best_bid_price,
                best_bid_size,
                best_ask_price,
                best_ask_size,
                ts,
            },
        ),
        _ => None,
    }
}

/// Reads a control message off a value.
pub fn read_control(value: &Json) -> (r: Option<GenericMessage>)
    ensures
        r == control_of(*value),
{
    match (value.get_text("id"), value.get_text("type")) {
        (Some(id), Some(msg_type)) => Some(GenericMessage { id, msg_type }),
        _ => None,
    }
}

/// Classifies an unwrapped value. The shapes are tried in a fixed order:
/// ticker record, control message, and what is neither is unrecognized.
pub fn classify(value: &Json, raw: &str) -> (event: ClassifiedEvent)
    ensures
        classifies(event, *value, raw@),
{
    match read_tick(value) {
        Some(tick) => ClassifiedEvent::DomainTick(tick),
        None => match read_control(value) {
            Some(message) => ClassifiedEvent::ControlMessage { message, raw: raw.to_owned() },
            None => ClassifiedEvent::Unrecognized { raw: raw.to_owned() },
        },
    }
}

/// Classifies a decoded frame: unwraps the envelope, then classifies the
/// innermost payload.
pub fn classify_value(value: &Json, raw: &str) -> (event: ClassifiedEvent)
    ensures
        classifies(event, value.unwrapped(), raw@),
{
    classify(value.innermost(), raw)
}

/// Decodes and classifies one text frame. A text that is no JSON document
/// is a malformed frame, to be skipped; every other text gives its one
/// classification.
pub fn classify_frame(text: &str) -> (r: Result<ClassifiedEvent, ProtocolError>)
    ensures
        match parsed_value(text@) {
            Some(value) => r matches Ok(event) && classifies(event, value.unwrapped(), text@),
            None => r == Err::<ClassifiedEvent, ProtocolError>(ProtocolError::MalformedFrame),
        },
{
    match parse(text) {
        Some(value) => Ok(classify_value(&value, text)),
        None => Err(ProtocolError::MalformedFrame),
    }
}

impl ClassifiedEvent {
    /// Whether this is the exchange's welcome, after which the session
    /// subscribes.
    pub open spec fn is_welcome(self) -> bool {
        self matches ClassifiedEvent::ControlMessage { message, .. } && message.msg_type@
            == "welcome"@
    }

    /// The fault that this event stands for: a value of no known shape is
    /// one, a tick or a control message is none.
    pub open spec fn fault_of(self) -> Option<ProtocolError> {
        if self is Unrecognized {
            Some(ProtocolError::UnrecognizedShape)
        } else {
            None
        }
    }

    /// The fault to note when this event is delivered, if it is one.
    pub fn fault(&self) -> (r: Option<ProtocolError>)
        ensures
            r == self.fault_of(),
    {
        match self {
            ClassifiedEvent::Unrecognized { .. } => Some(ProtocolError::UnrecognizedShape),
            _ => None,
        }
    }

    /// Tells the welcome message from every other event.
    pub fn welcomes(&self) -> (r: bool)
        ensures
            r == self.is_welcome(),
    {
        match self {
            ClassifiedEvent::ControlMessage { message, .. } => message.msg_type == "welcome".to_owned(),
            _ => false,
        }
    }
}

/// Classification is total and single-valued: any two events that classify
/// one value from one frame are of the same kind and carry the same record,
/// and one of the three kinds always applies.
pub proof fn lemma_classification_total(value: Json, raw: Seq<char>, a: ClassifiedEvent, b: ClassifiedEvent)
    requires
        classifies(a, value, raw),
        classifies(b, value, raw),
    ensures
        a is DomainTick <==> tick_of(value) is Some,
        a is ControlMessage <==> tick_of(value) is None && control_of(value) is Some,
        a is Unrecognized <==> tick_of(value) is None && control_of(value) is None,
        a is DomainTick <==> b is DomainTick,
        a is ControlMessage <==> b is ControlMessage,
        a is Unrecognized <==> b is Unrecognized,
        a is DomainTick ==> a == b,
        a is ControlMessage ==> a->message == b->message,
{
}

} // verus!
