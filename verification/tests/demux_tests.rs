use live_captions::demux::{
    demux_packet, demux_packets, demux_read, demux_reads, select_audio_pid, AudioTrackRegistration,
};
use live_captions::packet::{stream_kind, Packet, Payload, ReadStep, StreamEntry, StreamKind, ADTS_AAC};

const H264: u8 = 0x1B;

fn entry(stream_type: u8, elementary_pid: u16) -> StreamEntry {
    StreamEntry { stream_type, elementary_pid }
}

fn table(pid: u16, entries: Vec<StreamEntry>) -> Packet {
    Packet { pid, payload: Some(Payload::Pmt(entries)) }
}

fn unit(pid: u16, data: &[u8]) -> Packet {
    Packet { pid, payload: Some(Payload::Pes { stream_id: 0xC0, data: data.to_vec() }) }
}

fn continuation(pid: u16, data: &[u8]) -> Packet {
    Packet { pid, payload: Some(Payload::Raw(data.to_vec())) }
}

#[test]
fn no_table_gives_no_audio() {
    let packets = vec![
        unit(0x101, &[1, 2, 3]),
        continuation(0x101, &[4, 5]),
        Packet { pid: 0, payload: Some(Payload::Other) },
        Packet { pid: 0x1FFF, payload: None },
        unit(0, &[6]),
    ];
    let mut registration = AudioTrackRegistration::new();
    let audio = demux_packets(&packets, &mut registration);
    assert!(audio.is_empty());
    assert_eq!(registration.audio_pid(), None);
    assert!(!registration.is_set());
}

#[test]
fn table_then_units_gives_their_payloads_in_order() {
    let packets = vec![
        table(0x100, vec![entry(H264, 0x110), entry(ADTS_AAC, 0x101)]),
        unit(0x101, &[10, 11, 12]),
        unit(0x101, &[]),
        unit(0x101, &[13]),
        unit(0x101, &[14, 15]),
    ];
    let mut registration = AudioTrackRegistration::new();
    let audio = demux_packets(&packets, &mut registration);
    assert_eq!(audio, vec![10, 11, 12, 13, 14, 15]);
    assert_eq!(registration.audio_pid(), Some(0x101));
    assert!(registration.is_set());
}

#[test]
fn bytes_before_the_table_are_lost() {
    let packets = vec![
        unit(0x101, &[1, 2]),
        table(0x100, vec![entry(ADTS_AAC, 0x101)]),
        unit(0x101, &[3, 4]),
    ];
    let mut registration = AudioTrackRegistration::new();
    assert_eq!(demux_packets(&packets, &mut registration), vec![3, 4]);
}

#[test]
fn other_streams_are_dropped() {
    let packets = vec![
        table(0x100, vec![entry(ADTS_AAC, 0x101), entry(H264, 0x110)]),
        unit(0x110, &[9, 9, 9]),
        unit(0x101, &[1]),
        continuation(0x110, &[8]),
        continuation(0x101, &[2]),
        Packet { pid: 0x101, payload: None },
        Packet { pid: 0x101, payload: Some(Payload::Other) },
    ];
    let mut registration = AudioTrackRegistration::new();
    assert_eq!(demux_packets(&packets, &mut registration), vec![1, 2]);
}

#[test]
fn a_later_table_replaces_the_stream() {
    let packets = vec![
        table(0x100, vec![entry(ADTS_AAC, 0x101)]),
        unit(0x101, &[1, 2]),
        unit(0x102, &[7, 7]),
        table(0x100, vec![entry(ADTS_AAC, 0x102)]),
        unit(0x101, &[3, 4]),
        unit(0x102, &[5, 6]),
    ];
    let mut registration = AudioTrackRegistration::new();
    let audio = demux_packets(&packets, &mut registration);
    assert_eq!(audio, vec![1, 2, 5, 6]);
    assert_eq!(registration.audio_pid(), Some(0x102));
}

#[test]
fn a_table_without_audio_keeps_the_stream() {
    let packets = vec![
        table(0x100, vec![entry(ADTS_AAC, 0x101)]),
        table(0x100, vec![entry(H264, 0x110)]),
        table(0x100, vec![]),
        unit(0x101, &[1]),
    ];
    let mut registration = AudioTrackRegistration::new();
    assert_eq!(demux_packets(&packets, &mut registration), vec![1]);
    assert_eq!(registration.audio_pid(), Some(0x101));
}

#[test]
fn the_video_stream_identifier_does_not_matter_on_the_audio_stream() {
    let packets = vec![
        table(0x100, vec![entry(ADTS_AAC, 0x101)]),
        Packet { pid: 0x101, payload: Some(Payload::Pes { stream_id: 0xE0, data: vec![4, 2] }) },
    ];
    let mut registration = AudioTrackRegistration::new();
    assert_eq!(demux_packets(&packets, &mut registration), vec![4, 2]);
}

#[test]
fn the_registration_carries_over_to_the_next_window() {
    let first = vec![table(0x100, vec![entry(ADTS_AAC, 0x101)]), unit(0x101, &[1])];
    let second = vec![continuation(0x101, &[2, 3]), unit(0x101, &[4])];
    let mut registration = AudioTrackRegistration::new();
    let mut audio = demux_packets(&first, &mut registration);
    audio.extend(demux_packets(&second, &mut registration));

    let mut whole = first.clone();
    whole.extend(second);
    let mut fresh = AudioTrackRegistration::new();
    assert_eq!(audio, demux_packets(&whole, &mut fresh));
    assert_eq!(audio, vec![1, 2, 3, 4]);
    assert_eq!(registration, fresh);
}

#[test]
fn no_packets_give_no_audio() {
    let mut registration = AudioTrackRegistration { audio_pid: Some(0x101) };
    assert!(demux_packets(&vec![], &mut registration).is_empty());
    assert_eq!(registration.audio_pid(), Some(0x101));
}

#[test]
fn the_first_audio_entry_is_selected() {
    assert_eq!(select_audio_pid(&vec![]), None);
    assert_eq!(select_audio_pid(&vec![entry(H264, 0x110)]), None);
    assert_eq!(select_audio_pid(&vec![entry(ADTS_AAC, 0x101)]), Some(0x101));
    assert_eq!(
        select_audio_pid(&vec![entry(H264, 0x110), entry(ADTS_AAC, 0x102), entry(ADTS_AAC, 0x101)]),
        Some(0x102)
    );
    assert_eq!(select_audio_pid(&vec![entry(0xCF, 0x101)]), None);
}

#[test]
fn one_packet_at_a_time() {
    let mut registration = AudioTrackRegistration::new();
    let mut audio = vec![0xAA];
    demux_packet(&unit(0x101, &[1]), &mut registration, &mut audio);
    assert_eq!(audio, vec![0xAA]);
    demux_packet(&table(0x100, vec![entry(ADTS_AAC, 0x101)]), &mut registration, &mut audio);
    assert_eq!(audio, vec![0xAA]);
    assert_eq!(registration.audio_pid(), Some(0x101));
    demux_packet(&unit(0x101, &[1]), &mut registration, &mut audio);
    assert_eq!(audio, vec![0xAA, 1]);
    demux_packet(&table(0x101, vec![entry(ADTS_AAC, 0x103)]), &mut registration, &mut audio);
    assert_eq!(audio, vec![0xAA, 1]);
    assert_eq!(registration.audio_pid(), Some(0x103));
}

#[test]
fn malformed_reads_are_skipped() {
    let reads = vec![
        ReadStep::Malformed,
        ReadStep::Packet(table(0x100, vec![entry(ADTS_AAC, 0x101)])),
        ReadStep::Packet(unit(0x101, &[1, 2])),
        ReadStep::Malformed,
        ReadStep::Malformed,
        ReadStep::Packet(continuation(0x101, &[3])),
    ];
    let mut registration = AudioTrackRegistration::new();
    assert_eq!(demux_reads(&reads, &mut registration), vec![1, 2, 3]);
    assert_eq!(registration.audio_pid(), Some(0x101));

    let mut audio = vec![5];
    demux_read(&ReadStep::Malformed, &mut registration, &mut audio);
    assert_eq!(audio, vec![5]);
    assert_eq!(registration.audio_pid(), Some(0x101));
    demux_read(&ReadStep::Packet(unit(0x101, &[6])), &mut registration, &mut audio);
    assert_eq!(audio, vec![5, 6]);
}

#[test]
fn stream_identifiers_are_classified_by_range() {
    assert_eq!(stream_kind(0xBF), StreamKind::Other);
    assert_eq!(stream_kind(0xC0), StreamKind::Audio);
    assert_eq!(stream_kind(0xDF), StreamKind::Audio);
    assert_eq!(stream_kind(0xE0), StreamKind::Video);
    assert_eq!(stream_kind(0xEF), StreamKind::Video);
    assert_eq!(stream_kind(0xF0), StreamKind::Other);
    assert_eq!(stream_kind(0x00), StreamKind::Other);
    assert_eq!(stream_kind(0xFF), StreamKind::Other);
}
