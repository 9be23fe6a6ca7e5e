//! The demultiplexer: follows the program map of a transport stream and
//! extracts the bytes of the one audio stream that it declares.

use vstd::prelude::*;
use crate::packet::{
    packet_models, read_models, Packet, PacketModel, Payload, PayloadModel, ReadModel, ReadStep,
    StreamEntry, ADTS_AAC,
};

verus! {

/// The program identifier of the audio stream that is being extracted, once
/// a program map table has declared one. It outlives the windows: a later
/// table that declares another audio stream replaces it.
#[derive(Clone, Copy, Debug, PartialEq, Eq, Structural)]
pub struct AudioTrackRegistration {
    pub audio_pid: Option<u16>,
}

impl AudioTrackRegistration {
    /// A registration that holds no program identifier yet.
    pub fn new() -> (registration: Self)
        ensures
            registration.audio_pid is None,
    {
        AudioTrackRegistration { audio_pid: None }
    }

    /// The registered program identifier, if any.
    pub fn audio_pid(&self) -> (pid: Option<u16>)
        ensures
            pid == self.audio_pid,
    {
        self.audio_pid
    }

    /// Whether a program map table has declared an audio stream so far.
    pub fn is_set(&self) -> (set: bool)
        ensures
            set == self.audio_pid is Some,
    {
        self.audio_pid.is_some()
    }
}

/// Entry `i` is the first entry of `table` that declares ADTS-AAC audio.
pub open spec fn is_first_audio(table: Seq<StreamEntry>, i: int) -> bool {
    &&& 0 <= i < table.len()
    &&& table[i].stream_type == ADTS_AAC
    &&& forall|j: int| 0 <= j < i ==> (#[trigger] table[j]).stream_type != ADTS_AAC
}

/// The program identifier that a table selects: that of its first ADTS-AAC
/// entry, if it has one.
pub open spec fn selected_pid(table: Seq<StreamEntry>) -> Option<u16> {
    if exists|i: int| is_first_audio(table, i) {
        Some(table[choose|i: int| is_first_audio(table, i)].elementary_pid)
    } else {
        None
    }
}

/// A table has at most one first ADTS-AAC entry.
pub proof fn lemma_first_audio_unique(table: Seq<StreamEntry>, i: int, k: int)
    requires
        is_first_audio(table, i),
        is_first_audio(table, k),
    ensures
        i == k,
{
    if i < k {
        assert(table[i].stream_type != ADTS_AAC);
    } else if k < i {
        assert(table[k].stream_type != ADTS_AAC);
    }
}

/// The first ADTS-AAC entry decides what a table selects.
pub proof fn lemma_selected_is_first(table: Seq<StreamEntry>, i: int)
    requires
        is_first_audio(table, i),
    ensures
        selected_pid(table) == Some(table[i].elementary_pid),
{
    let k = choose|k: int| is_first_audio(table, k);
    lemma_first_audio_unique(table, i, k);
}

/// Scans a program map table in order for its first ADTS-AAC entry.
pub fn select_audio_pid(table: &Vec<StreamEntry>) -> (pid: Option<u16>)
    ensures
        pid == selected_pid(table@),
{
    let mut i: usize = 0;
    while i < table.len()
        invariant
            i <= table.len(),
            forall|j: int| 0 <= j < i ==> (#[trigger] table@[j]).stream_type != ADTS_AAC,
        decreases table.len() - i,
    {
        if table[i].stream_type == ADTS_AAC {
            proof {
                lemma_selected_is_first(table@, i as int);
            }
            return Some(table[i].elementary_pid);
        }
        i += 1;
    }
    proof {
        assert forall|k: int| !is_first_audio(table@, k) by {
            if 0 <= k < table@.len() {
                assert(table@[k].stream_type != ADTS_AAC);
            }
        }
    }
    None
}

/// The registration after a packet: a program map table that declares
/// ADTS-AAC audio replaces it, every other packet leaves it as it was.
pub open spec fn registered(pid: Option<u16>, packet: PacketModel) -> Option<u16> {
    match packet.payload {
        Some(PayloadModel::Pmt(table)) => match selected_pid(table) {
            Some(selected) => Some(selected),
            None => pid,
        },
        _ => pid,
    }
}

/// The bytes that a packet adds to the audio while `pid` is registered: what
/// it carries if it belongs to the registered stream, nothing otherwise.
pub open spec fn extracted(pid: Option<u16>, packet: PacketModel) -> Seq<u8> {
    if pid == Some(packet.pid) {
        packet.carried()
    } else {
        Seq::empty()
    }
}

/// The registration after a sequence of packets, starting from `pid`.
pub open spec fn demux_pid(pid: Option<u16>, packets: Seq<PacketModel>) -> Option<u16>
    decreases packets.len(),
{
    if packets.len() == 0 {
        pid
    } else {
        demux_pid(registered(pid, packets[0]), packets.skip(1))
    }
}

/// The audio bytes that a sequence of packets yields, starting from `pid`:
/// each packet adds what it carries for the stream registered when it
/// arrives, in arrival order.
pub open spec fn demux_audio(pid: Option<u16>, packets: Seq<PacketModel>) -> Seq<u8>
    decreases packets.len(),
{
    if packets.len() == 0 {
        Seq::empty()
    } else {
        extracted(pid, packets[0]) + demux_audio(registered(pid, packets[0]), packets.skip(1))
    }
}

/// What the packets on one fixed stream carry, in arrival order.
pub open spec fn carried_on(pid: Option<u16>, packets: Seq<PacketModel>) -> Seq<u8>
    decreases packets.len(),
{
    if packets.len() == 0 {
        Seq::empty()
    } else {
        extracted(pid, packets[0]) + carried_on(pid, packets.skip(1))
    }
}

/// What a sequence of packets carries, whatever their streams, in arrival
/// order.
pub open spec fn carried_all(packets: Seq<PacketModel>) -> Seq<u8>
    decreases packets.len(),
{
    if packets.len() == 0 {
        Seq::empty()
    } else {
        packets[0].carried() + carried_all(packets.skip(1))
    }
}

/// The packets that a sequence of read outcomes hands to the demultiplexer:
/// malformed reads are passed over and the reads after them still count.
pub open spec fn readable(reads: Seq<ReadModel>) -> Seq<PacketModel>
    decreases reads.len(),
{
    if reads.len() == 0 {
        Seq::empty()
    } else {
        match reads[0] {
            ReadModel::Packet(packet) => seq![packet] + readable(reads.skip(1)),
            ReadModel::Malformed => readable(reads.skip(1)),
        }
    }
}

/// Handles one packet: a program map table may replace the registration; an
/// elementary-stream unit or continuation bytes on the registered stream are
/// appended to `audio`; everything else is dropped.
pub fn demux_packet(
    packet: &Packet,
    registration: &mut AudioTrackRegistration,
    audio: &mut Vec<u8>,
)
    ensures
        final(registration).audio_pid == registered(old(registration).audio_pid, packet@),
        final(audio)@ == old(audio)@ + extracted(old(registration).audio_pid, packet@),
{
    let on_audio_pid = match registration.audio_pid {
        Some(pid) => pid == packet.pid,
        None => false,
    };
    match &packet.payload {
        Some(Payload::Pmt(table)) => {
            match select_audio_pid(table) {
                Some(selected) => {
                    registration.audio_pid = Some(selected);
                },
                None => {},
            }
        },
        Some(Payload::Pes { stream_id: _, data }) => {
            if on_audio_pid {
                audio.extend_from_slice(data.as_slice());
            }
        },
        Some(Payload::Raw(bytes)) => {
            if on_audio_pid {
                audio.extend_from_slice(bytes.as_slice());
            }
        },
        _ => {},
    }
    assert(audio@ =~= old(audio)@ + extracted(old(registration).audio_pid, packet@));
}

/// Demultiplexes a sequence of packets: returns the audio bytes that they
/// yield and leaves in `registration` the stream that is registered after
/// the last of them.
pub fn demux_packets(packets: &Vec<Packet>, registration: &mut AudioTrackRegistration) -> (audio:
    Vec<u8>)
    ensures
        audio@ == demux_audio(old(registration).audio_pid, packet_models(packets@)),
        final(registration).audio_pid == demux_pid(
            old(registration).audio_pid,
            packet_models(packets@),
        ),
{
    let mut audio: Vec<u8> = Vec::new();
    let ghost all = packet_models(packets@);
    let ghost start = registration.audio_pid;
    let mut i: usize = 0;
    proof {
        assert(all.skip(0) =~= all);
        assert(audio@ + demux_audio(start, all) =~= demux_audio(start, all));
    }
    while i < packets.len()
        invariant
            i <= packets.len(),
            all == packet_models(packets@),
            demux_audio(start, all) == audio@ + demux_audio(
                registration.audio_pid,
                all.skip(i as int),
            ),
            demux_pid(start, all) == demux_pid(registration.audio_pid, all.skip(i as int)),
        decreases packets.len() - i,
    {
        proof {
            assert(all.skip(i as int)[0] == packets@[i as int]@);
            assert(all.skip(i as int).skip(1) =~= all.skip(i + 1));
        }
        let ghost before = audio@;
        let ghost pid = registration.audio_pid;
        demux_packet(&packets[i], registration, &mut audio);
        proof {
            let rest = all.skip(i + 1);
            let packet = packets@[i as int]@;
            assert(before + (extracted(pid, packet) + demux_audio(registered(pid, packet), rest))
                =~= (before + extracted(pid, packet)) + demux_audio(registered(pid, packet), rest));
        }
        i += 1;
    }
    assert(all.skip(i as int).len() == 0);
    assert(audio@ + Seq::<u8>::empty() =~= audio@);
    audio
}

/// Handles one read outcome: a packet goes to [`demux_packet`], a malformed
/// read changes nothing.
pub fn demux_read(
    step: &ReadStep,
    registration: &mut AudioTrackRegistration,
    audio: &mut Vec<u8>,
)
    ensures
        final(registration).audio_pid == demux_pid(
            old(registration).audio_pid,
            readable(seq![step@]),
        ),
        final(audio)@ == old(audio)@ + demux_audio(
            old(registration).audio_pid,
            readable(seq![step@]),
        ),
{
    proof {
        lemma_readable_one(step@);
    }
    match step {
        ReadStep::Packet(packet) => {
            proof {
                lemma_demux_one(registration.audio_pid, packet@);
            }
            demux_packet(packet, registration, audio);
        },
        ReadStep::Malformed => {
            assert(audio@ + Seq::<u8>::empty() =~= audio@);
        },
    }
}

/// Demultiplexes a sequence of read outcomes: the packets among them are
/// handled in order, the malformed reads are skipped.
pub fn demux_reads(reads: &Vec<ReadStep>, registration: &mut AudioTrackRegistration) -> (audio:
    Vec<u8>)
    ensures
        audio@ == demux_audio(old(registration).audio_pid, readable(read_models(reads@))),
        final(registration).audio_pid == demux_pid(
            old(registration).audio_pid,
            readable(read_models(reads@)),
        ),
{
    let mut audio: Vec<u8> = Vec::new();
    let ghost all = read_models(reads@);
    let ghost start = registration.audio_pid;
    let mut i: usize = 0;
    proof {
        assert(all.take(0) =~= Seq::empty());
    }
    while i < reads.len()
        invariant
            i <= reads.len(),
            all == read_models(reads@),
            audio@ == demux_audio(start, readable(all.take(i as int))),
            registration.audio_pid == demux_pid(start, readable(all.take(i as int))),
        decreases reads.len() - i,
    {
        proof {
            let done = all.take(i as int);
            let one = seq![reads@[i as int]@];
            assert(all.take(i + 1) =~= done + one);
            lemma_readable_concat(done, one);
            lemma_demux_concat(start, readable(done), readable(one));
        }
        demux_read(&reads[i], registration, &mut audio);
        i += 1;
    }
    assert(all.take(i as int) =~= all);
    audio
}

/// What a single read outcome hands to the demultiplexer.
pub proof fn lemma_readable_one(step: ReadModel)
    ensures
        readable(seq![step]) == match step {
            ReadModel::Packet(packet) => seq![packet],
            ReadModel::Malformed => Seq::empty(),
        },
{
    let reads = seq![step];
    assert(reads.skip(1) =~= Seq::empty());
    assert(readable(reads.skip(1)) =~= Seq::empty());
    match step {
        ReadModel::Packet(packet) => {
            assert(seq![packet] + Seq::<PacketModel>::empty() =~= seq![packet]);
        },
        ReadModel::Malformed => {},
    }
}

/// Demultiplexing a single packet is one step of the state machine.
pub proof fn lemma_demux_one(pid: Option<u16>, packet: PacketModel)
    ensures
        demux_pid(pid, seq![packet]) == registered(pid, packet),
        demux_audio(pid, seq![packet]) == extracted(pid, packet),
{
    let packets = seq![packet];
    assert(packets.skip(1) =~= Seq::empty());
    assert(demux_audio(registered(pid, packet), packets.skip(1)) =~= Seq::empty());
    assert(demux_pid(registered(pid, packet), packets.skip(1)) == registered(pid, packet));
    assert(extracted(pid, packet) + Seq::<u8>::empty() =~= extracted(pid, packet));
}

/// The readable packets of two runs of reads, one after the other, are
/// those of the first followed by those of the second.
pub proof fn lemma_readable_concat(first: Seq<ReadModel>, second: Seq<ReadModel>)
    ensures
        readable(first + second) == readable(first) + readable(second),
    decreases first.len(),
{
    if first.len() == 0 {
        assert(first + second =~= second);
        assert(readable(first) + readable(second) =~= readable(second));
    } else {
        let rest = first.skip(1);
        assert((first + second).skip(1) =~= rest + second);
        assert((first + second)[0] == first[0]);
        lemma_readable_concat(rest, second);
        match first[0] {
            ReadModel::Packet(packet) => {
                assert(seq![packet] + (readable(rest) + readable(second)) =~= (seq![packet]
                    + readable(rest)) + readable(second));
            },
            ReadModel::Malformed => {},
        }
    }
}

/// Demultiplexing two runs of packets one after the other, the second
/// starting from the registration that the first left, is demultiplexing
/// them as one run: the registration carries over from window to window.
pub proof fn lemma_demux_concat(
    pid: Option<u16>,
    first: Seq<PacketModel>,
    second: Seq<PacketModel>,
)
    ensures
        demux_pid(pid, first + second) == demux_pid(demux_pid(pid, first), second),
        demux_audio(pid, first + second) == demux_audio(pid, first) + demux_audio(
            demux_pid(pid, first),
            second,
        ),
    decreases first.len(),
{
    if first.len() == 0 {
        assert(first + second =~= second);
        assert(demux_audio(pid, first) + demux_audio(pid, second) =~= demux_audio(pid, second));
    } else {
        let rest = first.skip(1);
        let next = registered(pid, first[0]);
        assert((first + second).skip(1) =~= rest + second);
        assert((first + second)[0] == first[0]);
        lemma_demux_concat(next, rest, second);
        assert(extracted(pid, first[0]) + (demux_audio(next, rest) + demux_audio(
            demux_pid(next, rest),
            second,
        )) =~= (extracted(pid, first[0]) + demux_audio(next, rest)) + demux_audio(
            demux_pid(next, rest),
            second,
        ));
    }
}

} // verus!
