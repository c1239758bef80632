//! Messages of the two-way channel: the operator asks the remote unit for a
//! result and finally tells it to finish; the unit answers with text.

use crate::wire::{encode_frame, frame, frame_split, lemma_frame_split, push_text, split_frame,
    text_from,
};
use vstd::prelude::*;
use vstd::utf8::{decode_utf8, encode_utf8, encode_utf8_decode_utf8, encode_utf8_valid_utf8, valid_utf8};

verus! {

/// A request for one result, as a payload of its own.
#[derive(PartialEq, Eq, Debug)]
pub struct GetProphecy {}

/// What travels on the two-way channel.
#[derive(PartialEq, Eq, Debug)]
pub enum Messages {
    /// Host to unit: produce one result.
    GetProphecy,
    /// Host to unit: shut down.
    Finish,
    /// Unit to host: a result.
    ProphecyResult { message: String },
}

/// The value of a two-way channel message.
pub ghost enum ChannelMessage {
    GetProphecy,
    Finish,
    ProphecyResult(Seq<char>),
}

impl View for Messages {
    type V = ChannelMessage;

    open spec fn view(&self) -> ChannelMessage {
        match self {
            Messages::GetProphecy => ChannelMessage::GetProphecy,
            Messages::Finish => ChannelMessage::Finish,
            Messages::ProphecyResult { message } => ChannelMessage::ProphecyResult(message@),
        }
    }
}

impl From<GetProphecy> for Messages {
    fn from(_g: GetProphecy) -> (r: Messages)
        ensures
            r@ == ChannelMessage::GetProphecy,
    {
        Messages::GetProphecy
    }
}

impl vstd::std_specs::convert::FromSpecImpl<GetProphecy> for Messages {
    open spec fn obeys_from_spec() -> bool {
        true
    }

    open spec fn from_spec(v: GetProphecy) -> Messages {
        Messages::GetProphecy
    }
}

pub const TAG_GET: u8 = 1;

pub const TAG_FINISH: u8 = 2;

pub const TAG_RESULT: u8 = 3;

/// The body of the frame that carries `m`: a tag byte, then for a result its
/// UTF-8 text.
pub open spec fn body_of(m: ChannelMessage) -> Seq<u8> {
    match m {
        ChannelMessage::GetProphecy => seq![TAG_GET],
        ChannelMessage::Finish => seq![TAG_FINISH],
        ChannelMessage::ProphecyResult(t) => seq![TAG_RESULT] + encode_utf8(t),
    }
}

/// The message that a frame body holds, if it is well formed.
pub open spec fn parse_body(b: Seq<u8>) -> Option<ChannelMessage> {
    if b.len() == 1 && b[0] == TAG_GET {
        Some(ChannelMessage::GetProphecy)
    } else if b.len() == 1 && b[0] == TAG_FINISH {
        Some(ChannelMessage::Finish)
    } else if b.len() >= 1 && b[0] == TAG_RESULT && valid_utf8(b.subrange(1, b.len() as int)) {
        Some(ChannelMessage::ProphecyResult(decode_utf8(b.subrange(1, b.len() as int))))
    } else {
        None
    }
}

/// The message at the front of `buf` and the bytes its frame takes.
pub open spec fn decoded(buf: Seq<u8>) -> Option<(ChannelMessage, int)> {
    match frame_split(buf) {
        Some((body, n)) => match parse_body(body) {
            Some(m) => Some((m, n)),
            None => None,
        },
        None => None,
    }
}

/// Whether `m` fits in one frame.
pub open spec fn encodable(m: ChannelMessage) -> bool {
    body_of(m).len() <= u32::MAX
}

/// Decoding the encoding of any message, with anything after it, gives the
/// message back and consumes exactly its frame.
pub proof fn lemma_round_trip(m: ChannelMessage, rest: Seq<u8>)
    requires
        encodable(m),
    ensures
        decoded(frame(body_of(m)) + rest) == Some((m, frame(body_of(m)).len() as int)),
{
    let body = body_of(m);
    lemma_frame_split(body, rest);
    if let ChannelMessage::ProphecyResult(t) = m {
        assert(body.subrange(1, body.len() as int) =~= encode_utf8(t));
        encode_utf8_valid_utf8(t);
        encode_utf8_decode_utf8(t);
    }
}

/// What the remote unit does with a message it receives.
#[derive(PartialEq, Eq, Structural, Debug, Clone, Copy)]
pub enum GuestAction {
    /// Stop listening and exit.
    Stop,
    /// Produce one result and send it back.
    SendProphecy,
    /// Nothing.
    Ignore,
}

impl Messages {
    /// The frame that carries this message.
    pub fn encode(&self) -> (r: Vec<u8>)
        requires
            encodable(self@),
        ensures
            r@ == frame(body_of(self@)),
    {
        let mut body: Vec<u8> = Vec::new();
        match self {
            Messages::GetProphecy => body.push(TAG_GET),
            Messages::Finish => body.push(TAG_FINISH),
            Messages::ProphecyResult { message } => {
                body.push(TAG_RESULT);
                push_text(&mut body, message.as_str());
            },
        }
        assert(body@ =~= body_of(self@));
        encode_frame(body.as_slice())
    }

    /// The message at the front of `buf` and the number of bytes its frame
    /// takes; `None` when `buf` does not start with a whole, well-formed frame.
    pub fn decode(buf: &[u8]) -> (r: Option<(Messages, usize)>)
        ensures
            match r {
                Some((m, n)) => decoded(buf@) == Some((m@, n as int)),
                None => decoded(buf@) is None,
            },
    {
        let (body, n) = match split_frame(buf) {
            Some(x) => x,
            None => return None,
        };
        let b = body.as_slice();
        if b.len() == 1 && b[0] == TAG_GET {
            Some((Messages::GetProphecy, n))
        } else if b.len() == 1 && b[0] == TAG_FINISH {
            Some((Messages::Finish, n))
        } else if b.len() >= 1 && b[0] == TAG_RESULT {
            match text_from(b, 1) {
                Some(t) => Some((Messages::ProphecyResult { message: t }, n)),
                None => None,
            }
        } else {
            None
        }
    }

    /// How the remote unit reacts to this message: it stops on `Finish`,
    /// answers `GetProphecy`, and ignores anything else.
    pub fn guest_action(&self) -> (r: GuestAction)
        ensures
            r == match self@ {
                ChannelMessage::Finish => GuestAction::Stop,
                ChannelMessage::GetProphecy => GuestAction::SendProphecy,
                ChannelMessage::ProphecyResult(_) => GuestAction::Ignore,
            },
    {
        match self {
            Messages::Finish => GuestAction::Stop,
            Messages::GetProphecy => GuestAction::SendProphecy,
            Messages::ProphecyResult { .. } => GuestAction::Ignore,
        }
    }

    /// The text that the host shows for this message: a result's text, and
    /// nothing for the other messages.
    pub fn result_text(&self) -> (r: Option<String>)
        ensures
            match self@ {
                ChannelMessage::ProphecyResult(t) => r matches Some(s) && s@ == t,
                _ => r is None,
            },
    {
        match self {
            Messages::ProphecyResult { message } => Some(message.clone()),
            _ => None,
        }
    }
}

} // verus!
