use midi_m8::fx::FXCommand;
use midi_m8::instrument::Instrument;
use midi_m8::midi_file::NoteMsg;
use midi_m8::reader::ParseError;
use midi_m8::settings::{Scale, Theme};
use midi_m8::song::{
    Song, CHAINS_AT, GROOVES_AT, INSTRUMENTS_AT, PHRASES_AT, SCALES_AT, SCALES_END,
    SIZE_PRIOR_TO_2_5, SONG_STEPS_AT, VERSION_SIZE,
};
use midi_m8::song_to_midi::{
    collect_track_events, song_to_midi, song_to_tracks, Config, RenderError,
};

/// A song of the given version with every table empty: no song rows, no
/// chain steps, no phrase notes, no FX, grooves of six ticks.
fn empty_song(major: u8, minor: u8, len: usize) -> Vec<u8> {
    let mut b = vec![0u8; len];
    b[10] = minor << 4;
    b[11] = major;
    for i in 0..32 * 16 {
        b[GROOVES_AT + i] = 6;
    }
    for i in 0..2048 {
        b[SONG_STEPS_AT + i] = 0xFF;
    }
    for p in 0..255 {
        for row in 0..16 {
            let at = PHRASES_AT + p * 144 + row * 9;
            b[at] = 0xFF;
            for k in 3..9 {
                b[at + k] = 0xFF;
            }
        }
    }
    for c in 0..255 {
        for row in 0..16 {
            b[CHAINS_AT + c * 32 + row * 2] = 0xFF;
        }
    }
    b
}

fn set_note(b: &mut Vec<u8>, phrase: usize, row: usize, note: u8, velocity: u8) {
    let at = PHRASES_AT + phrase * 144 + row * 9;
    b[at] = note;
    b[at + 1] = velocity;
}

fn set_groove(b: &mut Vec<u8>, groove: usize, steps: &[u8]) {
    for (i, s) in steps.iter().enumerate() {
        b[GROOVES_AT + groove * 16 + i] = *s;
    }
}

/// Track 1 plays chain 0 at song row 0; chain 0 plays phrase 0.
fn one_chain(b: &mut Vec<u8>) {
    b[SONG_STEPS_AT] = 0;
    b[CHAINS_AT] = 0;
    b[CHAINS_AT + 1] = 0;
}

fn one_track_config(max_len: u32) -> Config {
    let mut cfg = Config::default();
    cfg.tracks = 1..2;
    cfg.max_note_length = [max_len; 8];
    cfg
}

#[test]
fn minimal_song_scenario() {
    let mut b = empty_song(3, 0, SCALES_END);
    one_chain(&mut b);
    set_note(&mut b, 0, 0, 0x10, 0x64);
    let song = Song::read(b).unwrap();
    assert_eq!(song.version.major, 3);

    let cfg = one_track_config(6);
    let tracks = song_to_tracks(&song, &cfg).unwrap();
    assert_eq!(tracks.len(), 1);
    assert_eq!(
        tracks[0].events,
        vec![
            (0, NoteMsg::NoteOn { channel: 0, note: 0x10 + 36, velocity: 0x64 }),
            (6, NoteMsg::NoteOff { channel: 0, note: 0x10 + 36, velocity: 0 }),
        ]
    );
    let bytes = song_to_midi(&song, &cfg).unwrap();
    assert_eq!(
        &bytes[..14],
        &[0x4D, 0x54, 0x68, 0x64, 0x00, 0x00, 0x00, 0x06, 0x00, 0x01, 0x00, 0x01, 0x00, 0x18]
    );
    assert_eq!(&bytes[14..18], b"MTrk");
    let len = u32::from_be_bytes([bytes[18], bytes[19], bytes[20], bytes[21]]) as usize;
    assert_eq!(bytes.len(), 22 + len);
    assert_eq!(&bytes[bytes.len() - 3..], &[0xFF, 0x2F, 0x00]);
}

#[test]
fn minimal_song_default_length_ends_note_at_track_end() {
    let mut b = empty_song(3, 0, SCALES_END);
    one_chain(&mut b);
    set_note(&mut b, 0, 0, 0x10, 0x64);
    let song = Song::read(b).unwrap();
    let mut cfg = Config::default();
    cfg.tracks = 1..2;
    let t = collect_track_events(0, &song, &cfg).unwrap();
    assert_eq!(t.events[1], (96, NoteMsg::NoteOff { channel: 0, note: 0x34, velocity: 0 }));
    assert_eq!(t.n_ticks, 96);
    assert_eq!(t.name, Some("Track 1".to_string()));
}

#[test]
fn max_note_length_caps_note_off() {
    let mut b = empty_song(3, 0, SCALES_END);
    one_chain(&mut b);
    set_groove(&mut b, 0, &[8; 16]);
    set_note(&mut b, 0, 0, 0x20, 0x40);
    set_note(&mut b, 0, 1, 0x22, 0x40);
    let song = Song::read(b).unwrap();
    let t = collect_track_events(0, &song, &one_track_config(4)).unwrap();
    assert_eq!(
        t.events,
        vec![
            (0, NoteMsg::NoteOn { channel: 0, note: 0x44, velocity: 0x40 }),
            (4, NoteMsg::NoteOff { channel: 0, note: 0x44, velocity: 0 }),
            (8, NoteMsg::NoteOn { channel: 0, note: 0x46, velocity: 0x40 }),
            (12, NoteMsg::NoteOff { channel: 0, note: 0x46, velocity: 0 }),
        ]
    );
    assert_eq!(t.n_ticks, 128);
}

#[test]
fn silent_track_has_minimum_length_and_one_end_event() {
    let b = empty_song(3, 0, SCALES_END);
    let song = Song::read(b).unwrap();
    let t = collect_track_events(4, &song, &Config::default()).unwrap();
    assert!(t.events.is_empty());
    assert_eq!(t.n_ticks, 96);
    let mut v = vec![];
    t.extend_midi(&mut v).unwrap();
    // "MTrk", length, name event for "Track 5", delta 97, end of track.
    assert_eq!(&v[8..15], &[0x00, 0xFF, 0x03, 7, b'T', b'r', b'a']);
    assert_eq!(&v[v.len() - 4..], &[97, 0xFF, 0x2F, 0x00]);
    let ends = v.windows(3).filter(|w| *w == [0xFF, 0x2F, 0x00]).count();
    assert_eq!(ends, 1);
}

#[test]
fn events_are_ordered_and_paired() {
    let mut b = empty_song(3, 0, SCALES_END);
    one_chain(&mut b);
    b[CHAINS_AT + 2] = 1;
    b[CHAINS_AT + 3] = 0xFE;
    b[SONG_STEPS_AT + 8] = 0;
    set_groove(&mut b, 0, &[3, 5, 0xFF]);
    for row in [0usize, 3, 4, 9] {
        set_note(&mut b, 0, row, 40 + row as u8, 100);
    }
    set_note(&mut b, 1, 2, 50, 90);
    let song = Song::read(b).unwrap();
    let t = collect_track_events(0, &song, &one_track_config(7)).unwrap();
    let ev = &t.events;
    assert!(!ev.is_empty());
    for w in ev.windows(2) {
        assert!(w[0].0 <= w[1].0);
    }
    for (i, (tick, m)) in ev.iter().enumerate() {
        if let NoteMsg::NoteOff { note, channel, .. } = m {
            assert!(i >= 1);
            match ev[i - 1] {
                (on_tick, NoteMsg::NoteOn { note: n, channel: c, .. }) => {
                    assert_eq!(n, *note);
                    assert_eq!(c, *channel);
                    assert!(on_tick <= *tick);
                }
                _ => panic!("note off without its note on"),
            }
        }
    }
    // Chain transposition 0xFE is -2.
    assert!(ev.contains(&(72, NoteMsg::NoteOn { channel: 0, note: 50 - 2 + 36, velocity: 90 })));
}

#[test]
fn groove_command_switches_groove_last_slot_wins() {
    let mut b = empty_song(3, 0, SCALES_END);
    one_chain(&mut b);
    set_groove(&mut b, 0, &[6; 16]);
    set_groove(&mut b, 1, &[2; 16]);
    set_groove(&mut b, 2, &[10; 16]);
    let at = PHRASES_AT + 3;
    b[at] = 0x03;
    b[at + 1] = 2;
    b[at + 4] = 0x03;
    b[at + 5] = 1;
    set_note(&mut b, 0, 1, 1, 1);
    let song = Song::read(b).unwrap();
    let t = collect_track_events(0, &song, &one_track_config(1000)).unwrap();
    assert_eq!(t.events[0].0, 2);
    assert_eq!(t.events[1].0, 32);
    assert_eq!(t.n_ticks, 96);
}

#[test]
fn groove_out_of_range_is_an_error() {
    let mut b = empty_song(3, 0, SCALES_END);
    one_chain(&mut b);
    b[PHRASES_AT + 3] = 0x03;
    b[PHRASES_AT + 4] = 40;
    let song = Song::read(b).unwrap();
    assert_eq!(
        collect_track_events(0, &song, &Config::default()).err(),
        Some(RenderError::GrooveOutOfRange(40))
    );
    assert_eq!(
        song_to_midi(&song, &Config::default()),
        Err(RenderError::GrooveOutOfRange(40))
    );
}

#[test]
fn empty_groove_is_an_error() {
    let mut b = empty_song(3, 0, SCALES_END);
    one_chain(&mut b);
    set_groove(&mut b, 0, &[0xFF; 16]);
    let song = Song::read(b).unwrap();
    assert_eq!(
        collect_track_events(0, &song, &Config::default()).err(),
        Some(RenderError::EmptyGroove(0))
    );
}

#[test]
fn invalid_track_range_is_an_error() {
    let song = Song::read(empty_song(3, 0, SCALES_END)).unwrap();
    let mut cfg = Config::default();
    cfg.tracks = 0..3;
    assert_eq!(song_to_tracks(&song, &cfg).err(), Some(RenderError::InvalidTrackRange(0, 3)));
    cfg.tracks = 5..10;
    assert_eq!(song_to_tracks(&song, &cfg).err(), Some(RenderError::InvalidTrackRange(5, 10)));
    cfg.tracks = 4..4;
    assert_eq!(song_to_tracks(&song, &cfg).unwrap().len(), 0);
}

#[test]
fn all_tracks_by_default() {
    let song = Song::read(empty_song(3, 0, SCALES_END)).unwrap();
    let bytes = song_to_midi(&song, &Config::default()).unwrap();
    assert_eq!(&bytes[10..12], &[0, 8]);
}

#[test]
fn old_versions_get_chromatic_scales() {
    let mut b = empty_song(2, 4, SIZE_PRIOR_TO_2_5 + VERSION_SIZE);
    assert!(b.len() < SCALES_AT);
    b[20] = b'x';
    let song = Song::read(b).unwrap();
    assert_eq!(song.scales.len(), 16);
    for (i, s) in song.scales.iter().enumerate() {
        assert_eq!(s.number as usize, i);
        assert_eq!(s.name, "CHROMATIC");
        assert_eq!(s.notes.len(), 12);
        for n in &s.notes {
            assert!(n.enabled);
            assert_eq!((n.semitones, n.cents), (0, 0));
        }
    }
}

#[test]
fn new_versions_read_scales() {
    let mut b = empty_song(2, 5, SCALES_END);
    let at = SCALES_AT + 42;
    b[at] = 0b0000_0101;
    b[at + 1] = 0b0000_1000;
    b[at + 2 + 2 * 2] = 3;
    b[at + 3 + 2 * 2] = 50;
    b[at + 26] = b'M';
    b[at + 27] = b'Y';
    let song = Song::read(b).unwrap();
    let s = &song.scales[1];
    assert_eq!(s.number, 1);
    assert_eq!(s.name, "MY");
    let enabled: Vec<bool> = s.notes.iter().map(|n| n.enabled).collect();
    assert_eq!(
        enabled,
        vec![true, false, true, false, false, false, false, false, false, false, false, true]
    );
    assert_eq!((s.notes[2].semitones, s.notes[2].cents), (3, 50));
    assert!(!song.scales[0].notes[0].enabled);
}

#[test]
fn too_short_buffers_are_refused() {
    let b = empty_song(2, 4, SIZE_PRIOR_TO_2_5 + VERSION_SIZE - 1);
    assert_eq!(Song::read(b).err(), Some(ParseError::TooShort));
    let b = empty_song(2, 5, SCALES_END - 1);
    assert_eq!(Song::read(b).err(), Some(ParseError::TooShort));
    assert_eq!(Song::read(vec![]).err(), Some(ParseError::TooShort));
}

#[test]
fn text_fields_are_decoded() {
    let mut b = empty_song(3, 0, SCALES_END);
    b[14..17].copy_from_slice(b"abc");
    b[17] = 0xFF;
    b[18] = b'z';
    b[148..150].copy_from_slice("é".as_bytes());
    let song = Song::read(b).unwrap();
    assert_eq!(song.directory, "abc");
    assert_eq!(song.name, "é");
}

#[test]
fn unterminated_text_is_empty() {
    let mut b = empty_song(3, 0, SCALES_END);
    for i in 0..12 {
        b[148 + i] = b'n';
    }
    let song = Song::read(b).unwrap();
    assert_eq!(song.name, "");
}

#[test]
fn invalid_text_is_an_error() {
    let mut b = empty_song(3, 0, SCALES_END);
    b[14] = 0xC3;
    b[15] = 0x28;
    assert_eq!(Song::read(b).err(), Some(ParseError::InvalidUtf8(14)));
}

#[test]
fn unknown_instrument_kind_is_an_error() {
    let mut b = empty_song(3, 0, SCALES_END);
    b[INSTRUMENTS_AT + 215 * 3] = 7;
    assert_eq!(Song::read(b).err(), Some(ParseError::UnknownInstrumentKind(7)));
}

#[test]
fn fx_commands_round_trip() {
    assert_eq!(FXCommand::from_u8(0x03), FXCommand::GRV);
    assert_eq!(FXCommand::from_u8(0xFF), FXCommand::NONE);
    assert_eq!(FXCommand::from_u8(0x70), FXCommand::Unknown(0x70));
    for b in 0..=255u8 {
        assert_eq!(FXCommand::from_u8(b).to_u8(), b);
    }
    assert_eq!(FXCommand::GRV.name(), "GRV");
}

fn instrument_file(kind: u8) -> Vec<u8> {
    let mut b = vec![0u8; 215 + 14];
    b[10] = 0x40;
    b[11] = 1;
    b[14] = kind;
    b[15..18].copy_from_slice(b"SYN");
    b
}

#[test]
fn instrument_files() {
    let mut b = instrument_file(0x04);
    b[14 + 18] = 5;
    b[14 + 19] = 1;
    b[14 + 23] = 9;
    match Instrument::read(b).unwrap() {
        Instrument::FMSynth(f) => {
            assert_eq!(f.name, "SYN");
            assert_eq!(f.algo, 5);
            assert_eq!(f.operators[0].shape, 1);
            assert_eq!(f.operators[0].ratio, 9);
        }
        _ => panic!("expected an FM synth"),
    }
    let mut b = instrument_file(0x02);
    b[14 + 0x57..14 + 0x57 + 5].copy_from_slice(b"kick\0");
    match Instrument::read(b).unwrap() {
        Instrument::Sampler(s) => assert_eq!(s.sample_path, "kick"),
        _ => panic!("expected a sampler"),
    }
    let mut b = instrument_file(0x03);
    b[14 + 16] = 4;
    b[14 + 22] = 74;
    match Instrument::read(b).unwrap() {
        Instrument::MIDIOut(m) => {
            assert_eq!(m.channel, 4);
            assert_eq!(m.custom_cc[0].number, 74);
        }
        _ => panic!("expected a MIDI output"),
    }
    assert!(matches!(Instrument::read(instrument_file(0xFF)).unwrap(), Instrument::Empty));
    assert_eq!(Instrument::read(instrument_file(9)).err(), Some(ParseError::UnknownInstrumentKind(9)));
    assert_eq!(Instrument::read(vec![0; 228]).err(), Some(ParseError::TooShort));
}

#[test]
fn theme_and_scale_files() {
    let mut b = vec![0u8; 39 + 14];
    b[14] = 1;
    b[15] = 2;
    b[16] = 3;
    b[14 + 36] = 7;
    let t = Theme::read(b).unwrap();
    assert_eq!((t.background.r, t.background.g, t.background.b), (1, 2, 3));
    assert_eq!(t.meter_peak.r, 7);
    assert_eq!(Theme::read(vec![0; 52]).err(), Some(ParseError::TooShort));

    let mut b = vec![0u8; 42 + 14];
    b[14] = 0xFF;
    b[15] = 0x0F;
    b[14 + 26..14 + 29].copy_from_slice(b"MAJ");
    let s = Scale::read(b).unwrap();
    assert_eq!(s.name, "MAJ");
    assert!(s.notes.iter().all(|n| n.enabled));
    assert_eq!(Scale::read(vec![0; 55]).err(), Some(ParseError::TooShort));
}

#[test]
fn settings_blocks_are_read_at_their_offsets() {
    let mut b = empty_song(3, 0, SCALES_END);
    b[142] = 12;
    b[143..147].copy_from_slice(&120.0f32.to_le_bytes());
    b[147] = 3;
    b[160] = 1;
    b[160 + 9] = 5;
    b[187] = 7;
    b[206] = 0xE0;
    b[206 + 2] = 0x11;
    b[206 + 13] = 0x22;
    b[206 + 14] = 0xFF;
    b[0x1A5C1] = 0x33;
    b[0x1A5C1 + 20] = 0x44;
    b[0x1A5FE + 7] = 2;
    b[0x1A5FE + 7 + 6] = 0x55;
    let song = Song::read(b).unwrap();
    assert_eq!(song.transpose, 12);
    assert_eq!(f32::from_bits(song.tempo_bits), 120.0);
    assert_eq!(song.quantize, 3);
    assert!(song.midi_settings.receive_sync);
    assert_eq!(song.midi_settings.track_input_channel[0], 5);
    assert_eq!(song.key, 7);
    assert_eq!(song.mixer_settings.master_volume, 0xE0);
    assert_eq!(song.mixer_settings.track_volume[0], 0x11);
    match song.mixer_settings.analog_input {
        midi_m8::settings::AnalogInputSettings::Stereo(s) => assert_eq!(s.volume, 0x22),
        _ => panic!("expected a stereo input"),
    }
    assert_eq!(song.effects_settings.chorus_mod_depth, 0x33);
    assert_eq!(song.effects_settings.reverb_width, 0x44);
    assert!(song.midi_mappings[0].empty());
    assert!(!song.midi_mappings[1].empty());
    assert_eq!(song.midi_mappings[1].max_value, 0x55);
    assert_eq!(song.grooves[0].active_steps(), &[6u8; 16][..]);
    assert_eq!(song.phrases[254].number, 254);
    assert_eq!(song.tables[255].number, 255);
    assert!(matches!(song.instruments[127], Instrument::WavSynth(_)));
}

#[test]
fn active_steps_stop_at_first_terminator() {
    let mut b = empty_song(3, 0, SCALES_END);
    set_groove(&mut b, 1, &[4, 8, 0xFF, 3]);
    let song = Song::read(b).unwrap();
    assert_eq!(song.grooves[1].active_steps(), &[4u8, 8][..]);
}

#[test]
fn unterminated_track_is_an_error() {
    let mut b = empty_song(3, 0, SCALES_END);
    b[SONG_STEPS_AT + 255 * 8] = 0;
    let song = Song::read(b).unwrap();
    let mut cfg = Config::default();
    cfg.start_from = 255;
    assert_eq!(
        collect_track_events(0, &song, &cfg).err(),
        Some(RenderError::UnterminatedTrack(0))
    );
    assert!(collect_track_events(1, &song, &cfg).is_ok());
    assert_eq!(song_to_midi(&song, &cfg), Err(RenderError::UnterminatedTrack(0)));
}

#[test]
fn decode_errors_come_in_decode_order() {
    let mut b = empty_song(3, 0, SCALES_END);
    b[14] = 0xC3;
    b[15] = 0x28;
    b[INSTRUMENTS_AT] = 9;
    assert_eq!(Song::read(b).err(), Some(ParseError::InvalidUtf8(14)));

    let mut b = empty_song(3, 0, SCALES_END);
    b[INSTRUMENTS_AT + 215 * 2] = 9;
    b[INSTRUMENTS_AT + 215 * 5 + 1] = 0xC3;
    b[INSTRUMENTS_AT + 215 * 5 + 2] = 0x28;
    assert_eq!(Song::read(b).err(), Some(ParseError::UnknownInstrumentKind(9)));

    let mut b = empty_song(3, 0, SCALES_END);
    b[INSTRUMENTS_AT + 215 * 5] = 9;
    b[INSTRUMENTS_AT + 215 * 5 + 1] = 0xC3;
    b[INSTRUMENTS_AT + 215 * 5 + 2] = 0x28;
    assert_eq!(Song::read(b).err(), Some(ParseError::InvalidUtf8(INSTRUMENTS_AT + 215 * 5 + 1)));

    let mut b = empty_song(3, 0, SCALES_END);
    b[SCALES_AT + 42 * 3 + 26] = 0xFE;
    assert_eq!(Song::read(b).err(), Some(ParseError::InvalidUtf8(SCALES_AT + 42 * 3 + 26)));
}
