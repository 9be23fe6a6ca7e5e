//! Transport packets as the demultiplexer sees them: a program identifier and
//! a typed payload, together with their mathematical models.

use vstd::prelude::*;

verus! {

/// Stream type by which a program map table declares ADTS-framed AAC audio.
pub const ADTS_AAC: u8 = 0x0F;

/// One entry of a program map table: the declared stream type and the
/// program identifier that carries the stream.
#[derive(Clone, Copy, Debug, PartialEq, Eq, Structural)]
pub struct StreamEntry {
    pub stream_type: u8,
    pub elementary_pid: u16,
}

/// What the stream identifier of an elementary-stream unit says it carries.
#[derive(Clone, Copy, Debug, PartialEq, Eq, Structural)]
pub enum StreamKind {
    Audio,
    Video,
    Other,
}

/// The kind that a stream identifier stands for: `0xC0..=0xDF` is audio,
/// `0xE0..=0xEF` is video, everything else is neither.
pub open spec fn kind_of(stream_id: u8) -> StreamKind {
    if 0xC0 <= stream_id <= 0xDF {
        StreamKind::Audio
    } else if 0xE0 <= stream_id <= 0xEF {
        StreamKind::Video
    } else {
        StreamKind::Other
    }
}

/// Classifies a stream identifier.
pub fn stream_kind(stream_id: u8) -> (kind: StreamKind)
    ensures
        kind == kind_of(stream_id),
{
    if 0xC0 <= stream_id && stream_id <= 0xDF {
        StreamKind::Audio
    } else if 0xE0 <= stream_id && stream_id <= 0xEF {
        StreamKind::Video
    } else {
        StreamKind::Other
    }
}

/// The typed payload of a transport packet.
#[derive(Clone, Debug, PartialEq, Eq)]
pub enum Payload {
    /// A program map table: the stream entries in table order.
    Pmt(Vec<StreamEntry>),
    /// The start of an elementary-stream unit: its stream identifier and the
    /// bytes that follow its header.
    Pes { stream_id: u8, data: Vec<u8> },
    /// Continuation bytes that carry no header of their own.
    Raw(Vec<u8>),
    /// Table or stuffing data that holds no elementary-stream bytes.
    Other,
}

/// One transport packet: the program identifier of its header and the
/// payload, if it has one.
#[derive(Clone, Debug, PartialEq, Eq)]
pub struct Packet {
    pub pid: u16,
    pub payload: Option<Payload>,
}

/// The outcome of one attempt to read a packet from a byte source that has
/// not ended.
#[derive(Clone, Debug, PartialEq, Eq)]
pub enum ReadStep {
    /// A packet was read.
    Packet(Packet),
    /// The bytes read do not form a packet.
    Malformed,
}

/// Model of a [`Payload`].
pub enum PayloadModel {
    Pmt(Seq<StreamEntry>),
    Pes { stream_id: u8, data: Seq<u8> },
    Raw(Seq<u8>),
    Other,
}

/// Model of a [`Packet`].
pub struct PacketModel {
    pub pid: u16,
    pub payload: Option<PayloadModel>,
}

/// Model of a [`ReadStep`].
pub enum ReadModel {
    Packet(PacketModel),
    Malformed,
}

impl View for Payload {
    type V = PayloadModel;

    open spec fn view(&self) -> PayloadModel {
        match *self {
            Payload::Pmt(table) => PayloadModel::Pmt(table@),
            Payload::Pes { stream_id, data } => PayloadModel::Pes { stream_id, data: data@ },
            Payload::Raw(bytes) => PayloadModel::Raw(bytes@),
            Payload::Other => PayloadModel::Other,
        }
    }
}

impl View for Packet {
    type V = PacketModel;

    open spec fn view(&self) -> PacketModel {
        PacketModel {
            pid: self.pid,
            payload: match self.payload {
                Some(payload) => Some(payload@),
                None => None,
            },
        }
    }
}

impl View for ReadStep {
    type V = ReadModel;

    open spec fn view(&self) -> ReadModel {
        match *self {
            ReadStep::Packet(packet) => ReadModel::Packet(packet@),
            ReadStep::Malformed => ReadModel::Malformed,
        }
    }
}

/// The models of a sequence of packets, in order.
pub open spec fn packet_models(packets: Seq<Packet>) -> Seq<PacketModel> {
    Seq::new(packets.len(), |i: int| packets[i]@)
}

/// The models of a sequence of read outcomes, in order.
pub open spec fn read_models(reads: Seq<ReadStep>) -> Seq<ReadModel> {
    Seq::new(reads.len(), |i: int| reads[i]@)
}

impl PacketModel {
    /// The elementary-stream bytes that the packet carries: the data of an
    /// elementary-stream unit or the continuation bytes; nothing otherwise.
    pub open spec fn carried(self) -> Seq<u8> {
        match self.payload {
            Some(PayloadModel::Pes { stream_id, data }) => data,
            Some(PayloadModel::Raw(bytes)) => bytes,
            _ => Seq::empty(),
        }
    }

    /// Whether the payload is a program map table.
    pub open spec fn is_table(self) -> bool {
        self.payload matches Some(PayloadModel::Pmt(_))
    }
}

} // verus!
