//! What holds of the demultiplexer over whole sequences of packets.

use vstd::prelude::*;
use crate::demux::{
    carried_all, carried_on, demux_audio, demux_pid, extracted, is_first_audio,
    lemma_selected_is_first, registered, selected_pid,
};
use crate::packet::{PacketModel, PayloadModel, StreamEntry, ADTS_AAC};

verus! {

/// No packet of the sequence holds a program map table.
pub open spec fn table_free(packets: Seq<PacketModel>) -> bool {
    forall|i: int| 0 <= i < packets.len() ==> !(#[trigger] packets[i]).is_table()
}

/// Every packet of the sequence belongs to the stream `pid`.
pub open spec fn all_on(pid: u16, packets: Seq<PacketModel>) -> bool {
    forall|i: int| 0 <= i < packets.len() ==> (#[trigger] packets[i]).pid == pid
}

/// No packet of the sequence belongs to the stream `pid`.
pub open spec fn none_on(pid: u16, packets: Seq<PacketModel>) -> bool {
    forall|i: int| 0 <= i < packets.len() ==> (#[trigger] packets[i]).pid != pid
}

/// Every packet of the sequence starts an elementary-stream unit.
pub open spec fn all_units(packets: Seq<PacketModel>) -> bool {
    forall|i: int|
        0 <= i < packets.len() ==> (#[trigger] packets[i]).payload matches Some(
            PayloadModel::Pes { .. },
        )
}

/// The table declares ADTS-AAC audio exactly once, on the stream `pid`.
pub open spec fn single_audio_entry(table: Seq<StreamEntry>, pid: u16) -> bool {
    exists|k: int|
        {
            &&& 0 <= k < table.len()
            &&& (#[trigger] table[k]).stream_type == ADTS_AAC
            &&& table[k].elementary_pid == pid
            &&& forall|j: int|
                0 <= j < table.len() && j != k ==> (#[trigger] table[j]).stream_type != ADTS_AAC
        }
}

/// A packet that holds the program map table `table`.
pub open spec fn table_packet(pid: u16, table: Seq<StreamEntry>) -> PacketModel {
    PacketModel { pid, payload: Some(PayloadModel::Pmt(table)) }
}

/// While no program map table arrives the registration stays as it is, and
/// the audio is what the packets on the registered stream carry.
pub proof fn lemma_fixed_registration(pid: Option<u16>, packets: Seq<PacketModel>)
    requires
        table_free(packets),
    ensures
        demux_pid(pid, packets) == pid,
        demux_audio(pid, packets) == carried_on(pid, packets),
    decreases packets.len(),
{
    if packets.len() > 0 {
        let rest = packets.skip(1);
        assert(!packets[0].is_table());
        assert(registered(pid, packets[0]) == pid);
        assert forall|i: int| 0 <= i < rest.len() implies !(#[trigger] rest[i]).is_table() by {
            assert(rest[i] == packets[i + 1]);
        }
        lemma_fixed_registration(pid, rest);
    }
}

/// While nothing is registered, nothing is carried over.
pub proof fn lemma_unset_carries_nothing(packets: Seq<PacketModel>)
    ensures
        carried_on(None, packets) == Seq::<u8>::empty(),
    decreases packets.len(),
{
    if packets.len() > 0 {
        lemma_unset_carries_nothing(packets.skip(1));
        assert(extracted(None, packets[0]) + Seq::<u8>::empty() =~= Seq::<u8>::empty());
    }
}

/// Packets of other streams add nothing to the audio of the registered one.
pub proof fn lemma_other_streams_dropped(pid: u16, packets: Seq<PacketModel>)
    requires
        none_on(pid, packets),
    ensures
        carried_on(Some(pid), packets) == Seq::<u8>::empty(),
    decreases packets.len(),
{
    if packets.len() > 0 {
        let rest = packets.skip(1);
        assert(packets[0].pid != pid);
        assert forall|i: int| 0 <= i < rest.len() implies (#[trigger] rest[i]).pid != pid by {
            assert(rest[i] == packets[i + 1]);
        }
        lemma_other_streams_dropped(pid, rest);
        assert(extracted(Some(pid), packets[0]) + Seq::<u8>::empty() =~= Seq::<u8>::empty());
    }
}

/// Of packets that all belong to the registered stream, everything that
/// they carry is kept, in arrival order.
pub proof fn lemma_own_stream_kept(pid: u16, packets: Seq<PacketModel>)
    requires
        all_on(pid, packets),
    ensures
        carried_on(Some(pid), packets) == carried_all(packets),
    decreases packets.len(),
{
    if packets.len() > 0 {
        let rest = packets.skip(1);
        assert(packets[0].pid == pid);
        assert forall|i: int| 0 <= i < rest.len() implies (#[trigger] rest[i]).pid == pid by {
            assert(rest[i] == packets[i + 1]);
        }
        lemma_own_stream_kept(pid, rest);
    }
}

/// A table that declares ADTS-AAC audio exactly once selects that entry.
pub proof fn lemma_single_entry_selected(table: Seq<StreamEntry>, pid: u16)
    requires
        single_audio_entry(table, pid),
    ensures
        selected_pid(table) == Some(pid),
{
    let k = choose|k: int|
        {
            &&& 0 <= k < table.len()
            &&& (#[trigger] table[k]).stream_type == ADTS_AAC
            &&& table[k].elementary_pid == pid
            &&& forall|j: int|
                0 <= j < table.len() && j != k ==> (#[trigger] table[j]).stream_type != ADTS_AAC
        };
    assert(is_first_audio(table, k));
    lemma_selected_is_first(table, k);
}

/// A sequence of packets without a program map table yields no audio when
/// nothing was registered before it, and registers nothing.
pub proof fn lemma_no_table_no_audio(packets: Seq<PacketModel>)
    requires
        table_free(packets),
    ensures
        demux_pid(None, packets) is None,
        demux_audio(None, packets) == Seq::<u8>::empty(),
{
    lemma_fixed_registration(None, packets);
    lemma_unset_carries_nothing(packets);
}

/// After a table that selects the stream `selected`, and until the next
/// table, the audio is what the packets on `selected` carry, whatever was
/// registered before: the last table wins.
pub proof fn lemma_last_table_wins(
    before: Option<u16>,
    pid: u16,
    table: Seq<StreamEntry>,
    selected: u16,
    later: Seq<PacketModel>,
)
    requires
        selected_pid(table) == Some(selected),
        table_free(later),
    ensures
        demux_pid(before, seq![table_packet(pid, table)] + later) == Some(selected),
        demux_audio(before, seq![table_packet(pid, table)] + later) == carried_on(
            Some(selected),
            later,
        ),
{
    let first = table_packet(pid, table);
    let packets = seq![first] + later;
    assert(packets[0] == first);
    assert(packets.skip(1) =~= later);
    assert(registered(before, first) == Some(selected));
    assert(extracted(before, first) =~= Seq::<u8>::empty());
    lemma_fixed_registration(Some(selected), later);
    assert(Seq::<u8>::empty() + carried_on(Some(selected), later) =~= carried_on(
        Some(selected),
        later,
    ));
}

/// A table with exactly one ADTS-AAC entry, followed by elementary-stream
/// units on the stream that the entry names, yields the data of those units
/// joined in arrival order.
pub proof fn lemma_table_then_units(
    before: Option<u16>,
    pid: u16,
    table: Seq<StreamEntry>,
    audio_pid: u16,
    units: Seq<PacketModel>,
)
    requires
        single_audio_entry(table, audio_pid),
        all_on(audio_pid, units),
        all_units(units),
    ensures
        demux_pid(before, seq![table_packet(pid, table)] + units) == Some(audio_pid),
        demux_audio(before, seq![table_packet(pid, table)] + units) == carried_all(units),
{
    lemma_single_entry_selected(table, audio_pid);
    assert forall|i: int| 0 <= i < units.len() implies !(#[trigger] units[i]).is_table() by {
        assert(units[i].payload matches Some(PayloadModel::Pes { .. }));
    }
    lemma_last_table_wins(before, pid, table, audio_pid, units);
    lemma_own_stream_kept(audio_pid, units);
}

/// Once a table has replaced the registered stream by another, packets that
/// still arrive on the old stream add nothing to the audio.
pub proof fn lemma_replaced_stream_dropped(
    replaced: u16,
    pid: u16,
    table: Seq<StreamEntry>,
    selected: u16,
    later: Seq<PacketModel>,
)
    requires
        selected_pid(table) == Some(selected),
        selected != replaced,
        table_free(later),
        all_on(replaced, later),
    ensures
        demux_pid(Some(replaced), seq![table_packet(pid, table)] + later) == Some(selected),
        demux_audio(Some(replaced), seq![table_packet(pid, table)] + later) == Seq::<u8>::empty(),
{
    lemma_last_table_wins(Some(replaced), pid, table, selected, later);
    assert forall|i: int| 0 <= i < later.len() implies (#[trigger] later[i]).pid != selected by {
        assert(later[i].pid == replaced);
    }
    lemma_other_streams_dropped(selected, later);
}

} // verus!
