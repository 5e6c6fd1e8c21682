//! Message payloads. The bridge never looks inside one: it hands it on as it came.

use vstd::prelude::*;
use vstd::utf8::{decode_utf8, valid_utf8};

verus! {

/// One message, as a text frame or as a binary frame.
#[derive(Clone, Debug, PartialEq, Eq)]
pub enum Payload {
    Text(String),
    Binary(Vec<u8>),
}

/// What a payload holds: the characters of a text frame, the bytes of a binary one.
pub enum PayloadView {
    Text(Seq<char>),
    Binary(Seq<u8>),
}

impl View for Payload {
    type V = PayloadView;

    open spec fn view(&self) -> PayloadView {
        match self {
            Payload::Text(text) => PayloadView::Text(text@),
            Payload::Binary(data) => PayloadView::Binary(data@),
        }
    }
}

/// The decimal digit for `d`, which is less than ten.
pub open spec fn digit(d: nat) -> char
    recommends
        d < 10,
{
    seq!['0', '1', '2', '3', '4', '5', '6', '7', '8', '9'][d as int]
}

/// `n` written in decimal, without leading zeros.
pub open spec fn decimal(n: nat) -> Seq<char>
    decreases n,
{
    if n < 10 {
        seq![digit(n)]
    } else {
        decimal(n / 10).push(digit(n % 10))
    }
}

/// The text that stands for a binary message holding `data`: the text that the
/// bytes encode where they are UTF-8, and a note of their number where not.
pub open spec fn binary_display(data: Seq<u8>) -> Seq<char> {
    if valid_utf8(data) {
        decode_utf8(data)
    } else {
        "Binary Data<length="@ + decimal(data.len()) + ">"@
    }
}

/// The text that stands for a payload in a log entry.
pub open spec fn display_of(payload: PayloadView) -> Seq<char> {
    match payload {
        PayloadView::Text(text) => text,
        PayloadView::Binary(data) => binary_display(data),
    }
}

/// `Display` of `ws::Message`, on the message that holds what `payload` holds.
///
/// Trusted: a text message is printed as its own text. A binary message is
/// printed as the text that its bytes encode where they are UTF-8, and as
/// `Binary Data<length=N>`, with their number for `N`, where they are not.
#[verifier::external_body]
fn displayed(payload: &Payload) -> (text: String)
    ensures
        text@ == display_of(payload@),
{
    let message = match payload {
        Payload::Text(text) => ws::Message::Text(text.clone()),
        Payload::Binary(data) => ws::Message::Binary(data.clone()),
    };
    message.to_string()
}

impl Payload {
    /// The text that stands for this payload in a log entry.
    pub fn display(&self) -> (text: String)
        ensures
            text@ == display_of(self@),
    {
        displayed(self)
    }
}

} // verus!
