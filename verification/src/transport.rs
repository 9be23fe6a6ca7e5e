//! Reading transport packets out of the bytes of a window, and the
//! demultiplexer run over them.

use std::io::Cursor;
use vstd::prelude::*;
use mpeg2ts::ts::{ReadTsPacket, TsPacketReader, TsPayload};
use crate::demux::{
    demux_audio, demux_pid, demux_read, lemma_demux_concat, lemma_readable_concat, readable,
    AudioTrackRegistration,
};
use crate::packet::{Packet, Payload, ReadModel, ReadStep, StreamEntry};

verus! {

/// `std::io::Cursor`, the in-memory byte source that the reader is made
/// over. Nothing is known of what is inside.
#[verifier::external_type_specification]
#[verifier::external_body]
#[verifier::reject_recursive_types(T)]
pub struct ExCursor<T>(Cursor<T>);

/// `mpeg2ts::ts::TsPacketReader`, which holds the byte source and the
/// program map that it has read so far. Nothing is known of what is inside
/// but what [`pending_reads`] names.
#[verifier::external_type_specification]
#[verifier::external_body]
#[verifier::reject_recursive_types(R)]
pub struct ExTsPacketReader<R>(TsPacketReader<R>);

/// The outcomes of the reads that a packet reader made over `raw` yields,
/// one after the other, until it reports the end of the bytes.
pub uninterp spec fn ts_reads(raw: Seq<u8>) -> Seq<ReadModel>;

/// The outcomes that a packet reader has yet to yield before it reports the
/// end of its bytes.
pub uninterp spec fn pending_reads(reader: TsPacketReader<Cursor<&[u8]>>) -> Seq<ReadModel>;

/// `TsPacketReader::new` over a cursor on `raw`. The reader starts at the
/// first byte and knows no program map yet, so what it will yield depends on
/// the bytes alone.
#[verifier::external_body]
fn open_reader(raw: &[u8]) -> (reader: TsPacketReader<Cursor<&[u8]>>)
    ensures
        pending_reads(reader) == ts_reads(raw@),
{
    TsPacketReader::new(Cursor::new(raw))
}

/// `ReadTsPacket::read_ts_packet`. `None` is the end of the bytes. Otherwise
/// the reader yields the first of its pending outcomes and keeps the rest:
/// a packet, with its program identifier and its payload turned into the
/// library's types, or a malformed read where the reader reports an error.
/// Every read that does not report the end consumes at least one byte, so
/// the pending outcomes are finitely many.
#[verifier::external_body]
fn read_step(reader: &mut TsPacketReader<Cursor<&[u8]>>) -> (step: Option<ReadStep>)
    ensures
        match step {
            None => pending_reads(*old(reader)).len() == 0 && pending_reads(*final(reader)).len()
                == 0,
            Some(outcome) => pending_reads(*old(reader)).len() > 0 && outcome@ == pending_reads(
                *old(reader),
            )[0] && pending_reads(*final(reader)) == pending_reads(*old(reader)).skip(1),
        },
{
    match reader.read_ts_packet() {
        Ok(None) => None,
        Ok(Some(packet)) => Some(ReadStep::Packet(Packet {
            pid: packet.header.pid.as_u16(),
            payload: packet.payload.map(|payload| match payload {
                TsPayload::Pmt(pmt) => Payload::Pmt(pmt.table.iter().map(|es| StreamEntry { stream_type: es.stream_type as u8, elementary_pid: es.elementary_pid.as_u16() }).collect()),
                TsPayload::Pes(pes) => Payload::Pes { stream_id: pes.header.stream_id.as_u8(), data: pes.data.to_vec() },
                TsPayload::Raw(bytes) => Payload::Raw(bytes.to_vec()),
                TsPayload::Pat(_) | TsPayload::Null(_) => Payload::Other,
            }),
        })),
        Err(_) => Some(ReadStep::Malformed),
    }
}

/// Extracts the audio bytes of one window of transport-stream bytes.
///
/// The bytes are read packet by packet. Each packet that is read goes
/// through the demultiplexer in arrival order; a read that yields no packet
/// is skipped and reading goes on behind it. The bytes lie in memory, so no
/// read of the source itself can fail and reading ends where the bytes end.
/// `registration` holds the audio stream found in earlier windows and is
/// updated by the program map tables of this one.
pub fn get_ts_audio(raw: &[u8], registration: &mut AudioTrackRegistration) -> (audio: Vec<u8>)
    ensures
        audio@ == demux_audio(old(registration).audio_pid, readable(ts_reads(raw@))),
        final(registration).audio_pid == demux_pid(
            old(registration).audio_pid,
            readable(ts_reads(raw@)),
        ),
{
    let mut reader = open_reader(raw);
    let mut audio: Vec<u8> = Vec::new();
    let ghost start = registration.audio_pid;
    let ghost mut done: Seq<ReadModel> = Seq::empty();
    proof {
        assert(done + pending_reads(reader) =~= pending_reads(reader));
    }
    loop
        invariant
            start == old(registration).audio_pid,
            ts_reads(raw@) == done + pending_reads(reader),
            audio@ == demux_audio(start, readable(done)),
            registration.audio_pid == demux_pid(start, readable(done)),
        decreases pending_reads(reader).len(),
    {
        let ghost pending = pending_reads(reader);
        match read_step(&mut reader) {
            None => {
                assert(done + pending =~= done);
                return audio;
            },
            Some(step) => {
                proof {
                    let one = seq![step@];
                    assert(done + pending =~= (done + one) + pending.skip(1));
                    lemma_readable_concat(done, one);
                    lemma_demux_concat(start, readable(done), readable(one));
                    done = done + one;
                }
                demux_read(&step, registration, &mut audio);
            },
        }
    }
}

} // verus!
