use vstd::prelude::*;
use vstd::slice::slice_to_vec;

use crate::filter::accepted;
use crate::filter::accepts;
use crate::filter::Blacklist;
use crate::packet::decode;
use crate::packet::PacketInfo;

verus! {

/// The capture record header of one frame: time stamp, bytes captured, bytes on the wire.
#[derive(Clone, Copy, Debug, PartialEq, Eq, Structural)]
pub struct CaptureHeader {
    pub ts_sec: i64,
    pub ts_usec: i64,
    pub caplen: u32,
    pub len: u32,
}

/// The header of a message on the outbound stream.
#[derive(Clone, Copy, Debug, PartialEq, Eq, Structural)]
pub struct PacketHeader {
    pub ts_sec: u32,
    pub ts_usec: u32,
    pub caplen: u32,
    pub len: u32,
}

/// The raw bytes of a message on the outbound stream.
#[derive(Clone, Debug)]
pub struct PacketData {
    pub data: Vec<u8>,
}

/// One message on the outbound stream: a frame and its capture header.
#[derive(Clone, Debug)]
pub struct Packet {
    pub header: Option<PacketHeader>,
    pub data: Option<PacketData>,
}

/// A message as plain values.
pub ghost struct MessageView {
    pub header: Option<PacketHeader>,
    pub data: Option<Seq<u8>>,
}

impl View for Packet {
    type V = MessageView;

    open spec fn view(&self) -> MessageView {
        MessageView {
            header: self.header,
            data: match self.data {
                Some(d) => Some(d.data@),
                None => None,
            },
        }
    }
}

/// The stream header for a capture header: the time stamp's parts cut to 32 bits.
pub open spec fn header_message(h: CaptureHeader) -> PacketHeader {
    PacketHeader { ts_sec: h.ts_sec as u32, ts_usec: h.ts_usec as u32, caplen: h.caplen, len: h.len }
}

/// The capture header that a stream header stands for.
pub open spec fn header_record(m: PacketHeader) -> CaptureHeader {
    CaptureHeader { ts_sec: m.ts_sec as i64, ts_usec: m.ts_usec as i64, caplen: m.caplen, len: m.len }
}

/// The message that carries a frame.
pub open spec fn message_of(h: CaptureHeader, frame: Seq<u8>) -> MessageView {
    MessageView { header: Some(header_message(h)), data: Some(frame) }
}

/// Builds the outbound message for a frame.
pub fn to_message(header: &CaptureHeader, frame: &[u8]) -> (r: Packet)
    ensures
        r@ == message_of(*header, frame@),
{
    let h = PacketHeader {
        ts_sec: header.ts_sec as u32,
        ts_usec: header.ts_usec as u32,
        caplen: header.caplen,
        len: header.len,
    };
    Packet { header: Some(h), data: Some(PacketData { data: slice_to_vec(frame) }) }
}

/// What the pipeline does with one frame.
#[derive(Clone, Debug)]
pub struct FrameStep {
    /// The decoded frame; `None` where it could not be decoded.
    pub info: Option<PacketInfo>,
    /// Whether the frame is appended to the local capture file.
    pub persist: bool,
    /// The message to send, `None` where the rules turned the frame away.
    pub message: Option<Packet>,
}

/// Whether a frame is sent on: an undecodable one is, a decoded one where the rules
/// accept it.
pub open spec fn forwarded(rules: Option<Blacklist>, frame: Seq<u8>) -> bool {
    match decode(frame) {
        Some(p) => accepted(rules, p),
        None => true,
    }
}

/// Takes one frame through decoding and filtering. The frame is persisted wherever a
/// capture file is open, whatever the decoder and the rules said; it is sent on where
/// it is forwarded.
pub fn process_frame(
    rules: &Option<Blacklist>,
    saving: bool,
    header: &CaptureHeader,
    frame: &[u8],
) -> (r: FrameStep)
    ensures
        match r.info {
            Some(p) => decode(frame@) == Some(p@) && p.wf(),
            None => decode(frame@) is None,
        },
        r.persist == saving,
        r.message is Some <==> forwarded(*rules, frame@),
        r.message matches Some(m) ==> m@ == message_of(*header, frame@),
{
    let info = PacketInfo::from(frame);
    let send = match &info {
        Some(p) => accepts(rules, p),
        None => true,
    };
    let message = if send {
        Some(to_message(header, frame))
    } else {
        None
    };
    FrameStep { info, persist: saving, message }
}

/// Why a received message cannot be turned back into a record.
#[derive(Clone, Copy, Debug, PartialEq, Eq, Structural)]
pub enum ReceiveError {
    MissingHeader,
    MissingData,
}

/// A frame as reconstructed by the collector.
#[derive(Clone, Debug)]
pub struct Record {
    pub header: CaptureHeader,
    pub data: Vec<u8>,
}

/// The record that a message gives: its header and bytes, or the part that is missing.
pub open spec fn received(m: MessageView) -> Result<(CaptureHeader, Seq<u8>), ReceiveError> {
    match m.header {
        None => Err(ReceiveError::MissingHeader),
        Some(h) => match m.data {
            None => Err(ReceiveError::MissingData),
            Some(d) => Ok((header_record(h), d)),
        },
    }
}

/// The collecting end of the stream.
#[derive(Clone, Copy, Debug)]
pub struct PacketService;

impl PacketService {
    /// Reconstructs the capture record that a received message carries.
    pub fn record_of(&self, msg: &Packet) -> (r: Result<Record, ReceiveError>)
        ensures
            match r {
                Ok(rec) => received(msg@) == Ok::<(CaptureHeader, Seq<u8>), ReceiveError>(
                    (rec.header, rec.data@),
                ),
                Err(e) => received(msg@) == Err::<(CaptureHeader, Seq<u8>), ReceiveError>(e),
            },
    {
        let h = match &msg.header {
            Some(h) => h,
            None => return Err(ReceiveError::MissingHeader),
        };
        let d = match &msg.data {
            Some(d) => d,
            None => return Err(ReceiveError::MissingData),
        };
        let header = CaptureHeader {
            ts_sec: h.ts_sec as i64,
            ts_usec: h.ts_usec as i64,
            caplen: h.caplen,
            len: h.len,
        };
        Ok(Record { header, data: d.data.clone() })
    }
}

/// A frame sent to the collector comes back with the same header, where its time stamp
/// fits in 32 bits, and the same bytes, which therefore decode to the same addressing.
pub proof fn lemma_round_trip(h: CaptureHeader, frame: Seq<u8>)
    requires
        0 <= h.ts_sec <= u32::MAX,
        0 <= h.ts_usec <= u32::MAX,
    ensures
        received(message_of(h, frame)) == Ok::<(CaptureHeader, Seq<u8>), ReceiveError>((h, frame)),
        decode(received(message_of(h, frame))->Ok_0.1) == decode(frame),
{
}

} // verus!
