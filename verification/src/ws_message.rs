//! Messages, the raw payloads they are decoded from, and the conversions
//! between the two.

use crate::error::WsErr;
use vstd::prelude::*;
use vstd::std_specs::convert::FromSpecImpl;
use vstd::std_specs::convert::TryFromSpecImpl;
use vstd::string::StrSliceExecFns;
use vstd::utf8::encode_utf8;

verus! {

/// What every kind of message offers, whatever its representation: access to
/// its text or its binary data, and its size. A message can be decoded from a
/// raw [`Payload`], built from bytes and turned into bytes.
pub trait Message: Sized + TryFrom<Payload, Error = WsErr> + Into<Vec<u8>> + From<Vec<u8>> {
    /// The text of the message, for a text message.
    spec fn text(&self) -> Option<Seq<char>>;

    /// The data of the message, for a binary message.
    spec fn binary(&self) -> Option<Seq<u8>>;

    /// The number of bytes that carry the message.
    spec fn size(&self) -> nat;

    /// Returns the message as a string slice, if the message is in text format.
    fn as_text(&self) -> (text: Option<&str>)
        ensures
            match text {
                Some(t) => self.text() == Some(t@),
                None => self.text() is None,
            },
    ;

    /// Returns the message as a string, if the message is in text format.
    fn as_string(&self) -> (text: Option<String>)
        ensures
            match text {
                Some(t) => self.text() == Some(t@),
                None => self.text() is None,
            },
    ;

    /// Returns a copy of the message's bytes, if the message is binary.
    fn as_binary(&self) -> (data: Option<Vec<u8>>)
        ensures
            match data {
                Some(d) => self.binary() == Some(d@),
                None => self.binary() is None,
            },
    ;

    /// Returns true if the message is a string.
    fn is_text(&self) -> (r: bool)
        ensures
            r == self.text() is Some,
    ;

    /// Returns true if the message is binary.
    fn is_binary(&self) -> (r: bool)
        ensures
            r == self.binary() is Some,
    ;

    /// Returns true if the message is empty.
    fn is_empty(&self) -> (r: bool)
        ensures
            r == (self.size() == 0),
    ;

    /// Returns the length of the message in bytes. For binary messages, this
    /// is the length of the vector.
    fn len(&self) -> (n: usize)
        ensures
            n == self.size(),
    ;
}

/// A message as it travels over the connection.
#[derive(Debug, PartialEq, Eq, Hash)]
pub enum WsMessage {
    /// The data of the message is a string.
    Text(String),
    /// The message contains binary data.
    Binary(Vec<u8>),
}

/// The mathematical value of a [`WsMessage`].
pub enum MessageView {
    Text(Seq<char>),
    Binary(Seq<u8>),
}

impl MessageView {
    /// The bytes that carry the message: the UTF-8 encoding of a text, the
    /// data of a binary message.
    pub open spec fn bytes(self) -> Seq<u8> {
        match self {
            MessageView::Text(text) => encode_utf8(text),
            MessageView::Binary(data) => data,
        }
    }

    /// The raw payload that carries the message to the transport.
    pub open spec fn encode(self) -> PayloadView {
        match self {
            MessageView::Text(text) => PayloadView::Text(Some(text)),
            MessageView::Binary(data) => PayloadView::ArrayBuffer(data),
        }
    }
}

impl View for WsMessage {
    type V = MessageView;

    open spec fn view(&self) -> MessageView {
        match self {
            WsMessage::Text(text) => MessageView::Text(text@),
            WsMessage::Binary(data) => MessageView::Binary(data@),
        }
    }
}

impl Clone for WsMessage {
    fn clone(&self) -> (copy: Self)
        ensures
            copy@ == self@,
    {
        match self {
            WsMessage::Text(text) => WsMessage::Text(text.clone()),
            WsMessage::Binary(data) => WsMessage::Binary(data.clone()),
        }
    }
}

/// A text is empty exactly when its UTF-8 encoding is.
pub proof fn lemma_encoding_empty(text: Seq<char>)
    ensures
        encode_utf8(text).len() == 0 <==> text.len() == 0,
{
    if text.len() > 0 {
        assert(encode_utf8(text) == vstd::utf8::encode_scalar(text[0] as u32) + encode_utf8(
            text.drop_first(),
        ));
    }
}

impl Message for WsMessage {
    open spec fn text(&self) -> Option<Seq<char>> {
        match self@ {
            MessageView::Text(text) => Some(text),
            MessageView::Binary(_) => None,
        }
    }

    open spec fn binary(&self) -> Option<Seq<u8>> {
        match self@ {
            MessageView::Text(_) => None,
            MessageView::Binary(data) => Some(data),
        }
    }

    open spec fn size(&self) -> nat {
        self@.bytes().len()
    }

    fn as_text(&self) -> (text: Option<&str>) {
        match self {
            WsMessage::Text(string) => Some(string.as_str()),
            _ => None,
        }
    }

    fn as_string(&self) -> (text: Option<String>) {
        match self {
            WsMessage::Text(string) => Some(string.clone()),
            _ => None,
        }
    }

    fn as_binary(&self) -> (data: Option<Vec<u8>>) {
        match self {
            WsMessage::Binary(vec) => Some(vec.clone()),
            _ => None,
        }
    }

    fn is_text(&self) -> (r: bool) {
        match self {
            WsMessage::Text(_) => true,
            WsMessage::Binary(_) => false,
        }
    }

    fn is_binary(&self) -> (r: bool) {
        match self {
            WsMessage::Text(_) => false,
            WsMessage::Binary(_) => true,
        }
    }

    fn is_empty(&self) -> (r: bool) {
        match self {
            WsMessage::Text(string) => {
                proof {
                    lemma_encoding_empty(string@);
                }
                string.as_str().is_empty()
            },
            WsMessage::Binary(vec) => vec.is_empty(),
        }
    }

    fn len(&self) -> (n: usize) {
        match self {
            WsMessage::Text(string) => string.as_str().as_bytes().len(),
            WsMessage::Binary(vec) => vec.len(),
        }
    }
}

/// What the host hands over when a message arrives, as far as decoding reads it.
#[derive(Debug, PartialEq, Eq)]
pub enum Payload {
    /// A buffer of bytes.
    ArrayBuffer(Vec<u8>),
    /// A string of the host: its text, or `None` where it holds no valid text.
    Text(Option<String>),
    /// A blob, whose bytes cannot be read at once.
    Blob,
    /// Any other kind of data.
    Unknown,
}

/// The mathematical value of a [`Payload`].
pub enum PayloadView {
    ArrayBuffer(Seq<u8>),
    Text(Option<Seq<char>>),
    Blob,
    Unknown,
}

impl PayloadView {
    /// The message that the payload carries, or the reason why it carries none.
    pub open spec fn decode(self) -> Result<MessageView, WsErr> {
        match self {
            PayloadView::ArrayBuffer(data) => Ok(MessageView::Binary(data)),
            PayloadView::Text(Some(text)) => Ok(MessageView::Text(text)),
            PayloadView::Text(None) => Err(WsErr::InvalidEncoding),
            PayloadView::Blob => Err(WsErr::UnsupportedPayload),
            PayloadView::Unknown => Err(WsErr::UnsupportedPayload),
        }
    }
}

impl View for Payload {
    type V = PayloadView;

    open spec fn view(&self) -> PayloadView {
        match self {
            Payload::ArrayBuffer(data) => PayloadView::ArrayBuffer(data@),
            Payload::Text(Some(text)) => PayloadView::Text(Some(text@)),
            Payload::Text(None) => PayloadView::Text(None),
            Payload::Blob => PayloadView::Blob,
            Payload::Unknown => PayloadView::Unknown,
        }
    }
}

/// A byte buffer becomes a binary message and a valid string a text message.
/// A string without valid text is refused with `InvalidEncoding`, a blob or
/// any other kind of data with `UnsupportedPayload`.
impl TryFrom<Payload> for WsMessage {
    type Error = WsErr;

    fn try_from(payload: Payload) -> (r: Result<WsMessage, WsErr>)
        ensures
            match r {
                Ok(msg) => payload@.decode() == Ok::<MessageView, WsErr>(msg@),
                Err(e) => payload@.decode() == Err::<MessageView, WsErr>(e),
            },
    {
        match payload {
            Payload::ArrayBuffer(data) => Ok(WsMessage::Binary(data)),
            Payload::Text(Some(text)) => Ok(WsMessage::Text(text)),
            Payload::Text(None) => Err(WsErr::InvalidEncoding),
            Payload::Blob => Err(WsErr::UnsupportedPayload),
            Payload::Unknown => Err(WsErr::UnsupportedPayload),
        }
    }
}

impl TryFromSpecImpl<Payload> for WsMessage {
    open spec fn obeys_try_from_spec() -> bool {
        true
    }

    open spec fn try_from_spec(payload: Payload) -> Result<WsMessage, WsErr> {
        match payload {
            Payload::ArrayBuffer(data) => Ok(WsMessage::Binary(data)),
            Payload::Text(Some(text)) => Ok(WsMessage::Text(text)),
            Payload::Text(None) => Err(WsErr::InvalidEncoding),
            Payload::Blob => Err(WsErr::UnsupportedPayload),
            Payload::Unknown => Err(WsErr::UnsupportedPayload),
        }
    }
}

/// The payload that carries a message to the transport: a string for a text
/// message, a byte buffer for a binary one.
impl From<WsMessage> for Payload {
    fn from(msg: WsMessage) -> (payload: Payload)
        ensures
            payload@ == msg@.encode(),
    {
        match msg {
            WsMessage::Text(text) => Payload::Text(Some(text)),
            WsMessage::Binary(data) => Payload::ArrayBuffer(data),
        }
    }
}

impl FromSpecImpl<WsMessage> for Payload {
    open spec fn obeys_from_spec() -> bool {
        true
    }

    open spec fn from_spec(msg: WsMessage) -> Payload {
        match msg {
            WsMessage::Text(text) => Payload::Text(Some(text)),
            WsMessage::Binary(data) => Payload::ArrayBuffer(data),
        }
    }
}

/// The bytes of a message: the UTF-8 encoding of a text, the data of a
/// binary message.
impl From<WsMessage> for Vec<u8> {
    fn from(msg: WsMessage) -> (bytes: Vec<u8>)
        ensures
            bytes@ == msg@.bytes(),
    {
        match msg {
            WsMessage::Text(string) => string.as_str().as_bytes_vec(),
            WsMessage::Binary(vec) => vec,
        }
    }
}

impl FromSpecImpl<WsMessage> for Vec<u8> {
    /// A vector is known by its contents only, so `from` promises the
    /// contents of its result and not the vector itself.
    open spec fn obeys_from_spec() -> bool {
        false
    }

    open spec fn from_spec(msg: WsMessage) -> Vec<u8> {
        choose|bytes: Vec<u8>| bytes@ == msg@.bytes()
    }
}

/// Bytes become a binary message.
impl From<Vec<u8>> for WsMessage {
    fn from(vec: Vec<u8>) -> (msg: WsMessage) {
        WsMessage::Binary(vec)
    }
}

impl FromSpecImpl<Vec<u8>> for WsMessage {
    open spec fn obeys_from_spec() -> bool {
        true
    }

    open spec fn from_spec(vec: Vec<u8>) -> WsMessage {
        WsMessage::Binary(vec)
    }
}

/// A string becomes a text message.
impl From<String> for WsMessage {
    fn from(s: String) -> (msg: WsMessage) {
        WsMessage::Text(s)
    }
}

impl FromSpecImpl<String> for WsMessage {
    open spec fn obeys_from_spec() -> bool {
        true
    }

    open spec fn from_spec(s: String) -> WsMessage {
        WsMessage::Text(s)
    }
}

/// The bytes of a message, borrowed.
impl AsRef<[u8]> for WsMessage {
    fn as_ref(&self) -> (bytes: &[u8])
        ensures
            bytes@ == self@.bytes(),
    {
        match self {
            WsMessage::Text(string) => string.as_str().as_bytes(),
            WsMessage::Binary(vec) => vec.as_slice(),
        }
    }
}

/// A message that is encoded for the transport and decoded again is the
/// message it was: a text stays that text and binary data stays that data,
/// the empty string and the empty byte sequence included.
pub proof fn law_round_trip(msg: WsMessage)
    ensures
        <WsMessage as vstd::std_specs::convert::TryFromSpec<Payload>>::try_from_spec(
            <Payload as vstd::std_specs::convert::FromSpec<WsMessage>>::from_spec(msg),
        ) == Ok::<WsMessage, WsErr>(msg),
        msg@.encode().decode() == Ok::<MessageView, WsErr>(msg@),
{
}

/// Which payloads carry a message: a byte buffer and a string with valid
/// text do. A string without valid text is refused with `InvalidEncoding`, a
/// blob or data of unknown kind with `UnsupportedPayload`, and no payload
/// with any other failure.
pub proof fn law_decode_outcomes(payload: PayloadView)
    ensures
        payload.decode() is Ok <==> payload is ArrayBuffer || (payload is Text
            && payload->Text_0 is Some),
        payload.decode() == Err::<MessageView, WsErr>(WsErr::InvalidEncoding) <==> payload
            is Text && payload->Text_0 is None,
        payload.decode() == Err::<MessageView, WsErr>(WsErr::UnsupportedPayload) <==> payload
            is Blob || payload is Unknown,
        payload.decode() is Err ==> payload.decode()->Err_0 == WsErr::InvalidEncoding
            || payload.decode()->Err_0 == WsErr::UnsupportedPayload,
{
}

} // verus!
