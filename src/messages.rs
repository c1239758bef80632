//! Messages of the progress channel: the remote unit reports how far it got
//! and a line of text to show beside the bar.

use crate::wire::{be_bytes, be_value, encode_frame, frame, frame_split, lemma_be_round_trip,
    lemma_frame_split, push_be_u32, push_text, read_be_u32, split_frame, text_from,
};
use vstd::prelude::*;
use vstd::utf8::{decode_utf8, encode_utf8, encode_utf8_decode_utf8, encode_utf8_valid_utf8, valid_utf8};

verus! {

/// The fraction of a whole task that a progress value of this many
/// millionths stands for: one.
pub const PROGRESS_COMPLETE: u32 = 1_000_000;

/// How far the remote unit got, in millionths of the whole task. Values above
/// `PROGRESS_COMPLETE` may arrive and are read as the whole task.
#[derive(PartialEq, Eq, Debug)]
pub struct Progress {
    pub value: u32,
}

/// A line of text from the remote unit.
#[derive(PartialEq, Eq, Debug)]
pub struct Info {
    pub message: String,
}

/// What the remote unit sends on the progress channel.
#[derive(PartialEq, Eq, Debug)]
pub enum Messages {
    Progress(Progress),
    Info(Info),
}

/// The value of a progress-channel message.
pub ghost enum ProgressMessage {
    Progress(u32),
    Info(Seq<char>),
}

impl View for Messages {
    type V = ProgressMessage;

    open spec fn view(&self) -> ProgressMessage {
        match self {
            Messages::Progress(p) => ProgressMessage::Progress(p.value),
            Messages::Info(i) => ProgressMessage::Info(i.message@),
        }
    }
}

pub const TAG_PROGRESS: u8 = 1;

pub const TAG_INFO: u8 = 2;

/// The body of the frame that carries `m`: a tag byte, then the big-endian
/// value or the UTF-8 text.
pub open spec fn body_of(m: ProgressMessage) -> Seq<u8> {
    match m {
        ProgressMessage::Progress(v) => seq![TAG_PROGRESS] + be_bytes(v),
        ProgressMessage::Info(t) => seq![TAG_INFO] + encode_utf8(t),
    }
}

/// The message that a frame body holds, if it is well formed.
pub open spec fn parse_body(b: Seq<u8>) -> Option<ProgressMessage> {
    if b.len() == 5 && b[0] == TAG_PROGRESS {
        Some(ProgressMessage::Progress(be_value(b.subrange(1, 5))))
    } else if b.len() >= 1 && b[0] == TAG_INFO && valid_utf8(b.subrange(1, b.len() as int)) {
        Some(ProgressMessage::Info(decode_utf8(b.subrange(1, b.len() as int))))
    } else {
        None
    }
}

/// The message at the front of `buf` and the bytes its frame takes.
pub open spec fn decoded(buf: Seq<u8>) -> Option<(ProgressMessage, int)> {
    match frame_split(buf) {
        Some((body, n)) => match parse_body(body) {
            Some(m) => Some((m, n)),
            None => None,
        },
        None => None,
    }
}

/// Whether `m` fits in one frame.
pub open spec fn encodable(m: ProgressMessage) -> bool {
    body_of(m).len() <= u32::MAX
}

/// Decoding the encoding of any message, with anything after it, gives the
/// message back and consumes exactly its frame.
pub proof fn lemma_round_trip(m: ProgressMessage, rest: Seq<u8>)
    requires
        encodable(m),
    ensures
        decoded(frame(body_of(m)) + rest) == Some((m, frame(body_of(m)).len() as int)),
{
    let body = body_of(m);
    lemma_frame_split(body, rest);
    match m {
        ProgressMessage::Progress(v) => {
            lemma_be_round_trip(v);
            assert(body.subrange(1, 5) =~= be_bytes(v));
        },
        ProgressMessage::Info(t) => {
            assert(body.subrange(1, body.len() as int) =~= encode_utf8(t));
            encode_utf8_valid_utf8(t);
            encode_utf8_decode_utf8(t);
        },
    }
}

impl Progress {
    /// The report after `done` of `total` steps: that share of the whole task
    /// in millionths, rounded down.
    pub fn of(done: u32, total: u32) -> (r: Progress)
        requires
            0 < total,
            done <= total,
        ensures
            r.value as int == done as int * PROGRESS_COMPLETE as int / total as int,
            r.value <= PROGRESS_COMPLETE,
    {
        assert(done as u64 * 1_000_000u64 <= 0xffff_ffff_u64 * 1_000_000u64) by (nonlinear_arith);
        let n: u64 = done as u64 * PROGRESS_COMPLETE as u64;
        let v: u64 = n / total as u64;
        assert(v <= PROGRESS_COMPLETE) by (nonlinear_arith)
            requires
                v as int == (done as int * 1_000_000int) / total as int,
                0 < total,
                done <= total,
        ;
        Progress { value: v as u32 }
    }
}

impl Messages {
    /// The frame that carries this message.
    pub fn encode(&self) -> (r: Vec<u8>)
        requires
            encodable(self@),
        ensures
            r@ == frame(body_of(self@)),
    {
        let mut body: Vec<u8> = Vec::new();
        match self {
            Messages::Progress(p) => {
                body.push(TAG_PROGRESS);
                push_be_u32(&mut body, p.value);
            },
            Messages::Info(i) => {
                body.push(TAG_INFO);
                push_text(&mut body, i.message.as_str());
            },
        }
        assert(body@ =~= body_of(self@));
        encode_frame(body.as_slice())
    }

    /// The message at the front of `buf` and the number of bytes its frame
    /// takes; `None` when `buf` does not start with a whole, well-formed frame.
    pub fn decode(buf: &[u8]) -> (r: Option<(Messages, usize)>)
        ensures
            match r {
                Some((m, n)) => decoded(buf@) == Some((m@, n as int)),
                None => decoded(buf@) is None,
            },
    {
        let (body, n) = match split_frame(buf) {
            Some(x) => x,
            None => return None,
        };
        let b = body.as_slice();
        if b.len() == 5 && b[0] == TAG_PROGRESS {
            let v = read_be_u32(b, 1);
            Some((Messages::Progress(Progress { value: v }), n))
        } else if b.len() >= 1 && b[0] == TAG_INFO {
            match text_from(b, 1) {
                Some(t) => Some((Messages::Info(Info { message: t }), n)),
                None => None,
            }
        } else {
            None
        }
    }
}

} // verus!
