use midi_m8::midi_file::{
    push_u16, push_u32, push_vari, u16_to_bytes, u32_to_bytes, EncodeError, MidiFile,
    MidiFileFormat, MidiFileTrack, NoteMsg,
};

#[test]
fn test_u32_to_bytes() {
    let mut v: Vec<u8> = vec![];
    push_u32(6, &mut v);
    assert_eq!(v, vec![0, 0, 0, 6]);
}

fn validate_vari(n: u32, bytes: Vec<u8>) {
    let mut v: Vec<u8> = vec![];
    push_vari(n, &mut v).unwrap();
    assert_eq!(v, bytes, "{:#02X} should have been {:#02X?} not {:#02X?}", n, &bytes, &v);
}

#[test]
fn test_push_vari() {
    validate_vari(6, vec![6]);
    validate_vari(0x7F, vec![0x7F]);
    validate_vari(0x80, vec![0x81, 0x00]);
    validate_vari(0xE89, vec![0x9D, 0x09]);
    validate_vari(0x3C0, vec![0x87, 0x40]);
    validate_vari(0x2000, vec![0xC0, 0x00]);
    validate_vari(0x3FFF, vec![0xFF, 0x7F]);
    validate_vari(0x4000, vec![0x81, 0x80, 0x00]);
    validate_vari(0x1FFFFF, vec![0xFF, 0xFF, 0x7F]);
    validate_vari(0x0FFFFFFF, vec![0xFF, 0xFF, 0xFF, 0x7F]);
}

#[test]
fn test_midi_file() {
    let quarter_note: u32 = 960;
    let midi_file = MidiFile {
        format: MidiFileFormat::SimultaniousTracks,
        ticks_per_quarter_note: quarter_note as u16,
        tracks: vec![
            MidiFileTrack {
                name: Some("Track 1".to_string()),
                events: vec![
                    (0, NoteMsg::NoteOn { channel: 0, note: 72, velocity: 100 }),
                    (quarter_note / 8, NoteMsg::NoteOff { channel: 0, note: 72, velocity: 100 }),
                ],
                n_ticks: quarter_note * 4,
            },
            MidiFileTrack {
                name: Some("Track 2".to_string()),
                events: vec![
                    (0, NoteMsg::NoteOn { channel: 0, note: 72, velocity: 100 }),
                    (quarter_note / 8, NoteMsg::NoteOff { channel: 0, note: 72, velocity: 100 }),
                ],
                n_ticks: quarter_note * 4,
            },
        ],
    }
    .to_midi()
    .unwrap();

    assert_eq!(&midi_file, &[0x4d, 0x54, 0x68, 0x64, 0x0, 0x0, 0x0, 0x6, 0x0, 0x1, 0x0, 0x2, 0x3, 0xc0, 0x4d, 0x54, 0x72, 0x6b, 0x0, 0x0, 0x0, 0x18, 0x0, 0xff, 0x3, 0x7, 0x54, 0x72, 0x61, 0x63, 0x6b, 0x20, 0x31, 0x0, 0x90, 0x48, 0x64, 0x78, 0x80, 0x48, 0x64, 0x9d, 0x9, 0xff, 0x2f, 0x0, 0x4d, 0x54, 0x72, 0x6b, 0x0, 0x0, 0x0, 0x18, 0x0, 0xff, 0x3, 0x7, 0x54, 0x72, 0x61, 0x63, 0x6b, 0x20, 0x32, 0x0, 0x90, 0x48, 0x64, 0x78, 0x80, 0x48, 0x64, 0x9d, 0x9, 0xff, 0x2f, 0x0]);
}

#[test]
fn vlq_literal_values() {
    let cases: Vec<(u32, Vec<u8>)> = vec![
        (6, vec![0x06]),
        (0x7F, vec![0x7F]),
        (0x80, vec![0x81, 0x00]),
        (0x2000, vec![0xC0, 0x00]),
        (0x3FFF, vec![0xFF, 0x7F]),
        (0x4000, vec![0x81, 0x80, 0x00]),
        (0x1FFFFF, vec![0xFF, 0xFF, 0x7F]),
        (0x0FFFFFFF, vec![0xFF, 0xFF, 0xFF, 0x7F]),
    ];
    for (n, bytes) in cases {
        let mut v = vec![];
        push_vari(n, &mut v).unwrap();
        assert_eq!(v, bytes);
    }
}

fn decode_vlq(bytes: &[u8]) -> u32 {
    let mut value: u32 = 0;
    for b in bytes {
        value = value * 128 + (*b as u32 & 0x7F);
    }
    value
}

#[test]
fn vlq_round_trip_samples() {
    for n in [0u32, 1, 0x7F, 0x80, 0x3FFF, 0x4000, 0x1F_FFFF, 0x20_0000, 0x0FFF_FFFF, 12345] {
        let mut v = vec![];
        push_vari(n, &mut v).unwrap();
        assert!(v.len() <= 4);
        for b in &v[..v.len() - 1] {
            assert!(*b >= 0x80);
        }
        assert!(v[v.len() - 1] < 0x80);
        assert_eq!(decode_vlq(&v), n);
    }
}

#[test]
fn vlq_too_large_is_refused() {
    let mut v = vec![1u8];
    assert_eq!(
        push_vari(0x1000_0000, &mut v),
        Err(EncodeError::VariableQuantityTooLarge(0x1000_0000))
    );
    assert_eq!(v, vec![1u8]);
}

#[test]
fn big_endian_fields() {
    assert_eq!(u32_to_bytes(0x0102_0304), [1, 2, 3, 4]);
    assert_eq!(u16_to_bytes(0xABCD), [0xAB, 0xCD]);
    let mut v = vec![9u8];
    push_u16(0x0018, &mut v);
    assert_eq!(v, vec![9, 0x00, 0x18]);
}

#[test]
fn ticks_per_quarter_note_limit() {
    let f = MidiFile {
        ticks_per_quarter_note: 0x8000,
        format: MidiFileFormat::SingleTrack,
        tracks: vec![],
    };
    assert_eq!(f.to_midi(), Err(EncodeError::TicksPerQuarterNoteTooLarge(0x8000)));
    let f = MidiFile {
        ticks_per_quarter_note: 0x7FFF,
        format: MidiFileFormat::IndependantTracks,
        tracks: vec![],
    };
    assert_eq!(
        f.to_midi().unwrap(),
        vec![0x4D, 0x54, 0x68, 0x64, 0, 0, 0, 6, 0, 2, 0, 0, 0x7F, 0xFF]
    );
}

#[test]
fn empty_track_chunk() {
    let t = MidiFileTrack { events: vec![], name: None, n_ticks: 96 };
    let mut v = vec![];
    t.extend_midi(&mut v).unwrap();
    assert_eq!(v, vec![0x4D, 0x54, 0x72, 0x6B, 0, 0, 0, 4, 0x61, 0xFF, 0x2F, 0x00]);
}

#[test]
fn long_names_are_cut() {
    let name: String = std::iter::repeat('a').take(200).collect();
    let t = MidiFileTrack { events: vec![], name: Some(name), n_ticks: 0 };
    let mut v = vec![];
    t.extend_midi(&mut v).unwrap();
    assert_eq!(&v[8..12], &[0x00, 0xFF, 0x03, 127]);
    assert_eq!(v.len(), 8 + 4 + 127 + 1 + 3);
}

#[test]
fn note_bytes_are_capped() {
    let t = MidiFileTrack {
        events: vec![(0, NoteMsg::NoteOn { channel: 3, note: 200, velocity: 128 })],
        name: None,
        n_ticks: 0,
    };
    let mut v = vec![];
    t.extend_midi(&mut v).unwrap();
    assert_eq!(&v[8..12], &[0x00, 0x93, 0x7F, 0x7F]);
}

#[test]
fn sort_events_is_stable() {
    let on = |n: u8| NoteMsg::NoteOn { channel: 0, note: n, velocity: 1 };
    let mut t = MidiFileTrack {
        events: vec![(5, on(1)), (2, on(2)), (5, on(3)), (0, on(4)), (2, on(5))],
        name: None,
        n_ticks: 10,
    };
    t.sort_events();
    assert_eq!(t.events, vec![(0, on(4)), (2, on(2)), (2, on(5)), (5, on(1)), (5, on(3))]);
}
