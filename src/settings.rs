use vstd::prelude::*;
use crate::reader::{Reader, ParseError, text_at, text_valid_at};
use crate::song::{VERSION_SIZE, Version};
use vstd::string::StringExecFns;

verus! {

/// MIDI settings of a song.
#[derive(Debug)]
pub struct MidiSettings {
    pub receive_sync: bool,
    pub receive_transport: u8,
    pub send_sync: bool,
    pub send_transport: u8,
    pub record_note_channel: u8,
    pub record_note_velocity: bool,
    pub record_note_delay_kill_commands: u8,
    pub control_map_channel: u8,
    pub song_row_cue_channel: u8,
    pub track_input_channel: Vec<u8>,
    pub track_input_intrument: Vec<u8>,
    pub track_input_program_change: bool,
    pub track_input_mode: u8,
}

pub const MIDI_SETTINGS_SIZE: usize = 27;

pub open spec fn midi_settings_decoded(m: MidiSettings, b: Seq<u8>, p: int) -> bool {
    &&& m.receive_sync == (b[p] == 1)
    &&& m.receive_transport == b[p + 1]
    &&& m.send_sync == (b[p + 2] == 1)
    &&& m.send_transport == b[p + 3]
    &&& m.record_note_channel == b[p + 4]
    &&& m.record_note_velocity == (b[p + 5] == 1)
    &&& m.record_note_delay_kill_commands == b[p + 6]
    &&& m.control_map_channel == b[p + 7]
    &&& m.song_row_cue_channel == b[p + 8]
    &&& m.track_input_channel@ == b.subrange(p + 9, p + 17)
    &&& m.track_input_intrument@ == b.subrange(p + 17, p + 25)
    &&& m.track_input_program_change == (b[p + 25] == 1)
    &&& m.track_input_mode == b[p + 26]
}

impl MidiSettings {
    pub fn from_reader(reader: &mut Reader) -> (r: Self)
        requires
            old(reader).position + MIDI_SETTINGS_SIZE <= old(reader).buffer@.len(),
        ensures
            midi_settings_decoded(r, old(reader).buffer@, old(reader).position as int),
            final(reader).position == old(reader).position + MIDI_SETTINGS_SIZE,
            final(reader).buffer@ == old(reader).buffer@,
    {
        let receive_sync = reader.read_bool();
        let receive_transport = reader.read();
        let send_sync = reader.read_bool();
        let send_transport = reader.read();
        let record_note_channel = reader.read();
        let record_note_velocity = reader.read_bool();
        let record_note_delay_kill_commands = reader.read();
        let control_map_channel = reader.read();
        let song_row_cue_channel = reader.read();
        let track_input_channel = reader.read_bytes(8);
        let track_input_intrument = reader.read_bytes(8);
        let track_input_program_change = reader.read_bool();
        let track_input_mode = reader.read();
        MidiSettings {
            receive_sync,
            receive_transport,
            send_sync,
            send_transport,
            record_note_channel,
            record_note_velocity,
            record_note_delay_kill_commands,
            control_map_channel,
            song_row_cue_channel,
            track_input_channel,
            track_input_intrument,
            track_input_program_change,
            track_input_mode,
        }
    }
}

/// Mixer levels of one input.
#[derive(PartialEq, Eq, Structural, Debug, Clone, Copy)]
pub struct InputMixerSettings {
    pub volume: u8,
    pub chorus: u8,
    pub delay: u8,
    pub reverb: u8,
}

/// The analog input: one stereo pair or two mono channels.
#[derive(PartialEq, Eq, Structural, Debug, Clone, Copy)]
pub enum AnalogInputSettings {
    Stereo(InputMixerSettings),
    DualMono(InputMixerSettings, InputMixerSettings),
}

/// Mixer settings of a song.
#[derive(Debug)]
pub struct MixerSettings {
    pub master_volume: u8,
    pub master_limit: u8,
    pub track_volume: Vec<u8>,
    pub chorus_volume: u8,
    pub delay_volume: u8,
    pub reverb_volume: u8,
    pub analog_input: AnalogInputSettings,
    pub usb_input: InputMixerSettings,
    pub dj_filter: u8,
    pub dj_peak: u8,
}

pub const MIXER_SETTINGS_SIZE: usize = 32;

/// The analog input block: the second volume byte 0xFF marks a stereo pair.
/// Both mono channels carry the levels stored first.
pub open spec fn analog_input_at(b: Seq<u8>, p: int) -> AnalogInputSettings {
    let left = InputMixerSettings {
        volume: b[p + 13],
        chorus: b[p + 16],
        delay: b[p + 18],
        reverb: b[p + 20],
    };
    if b[p + 14] == 0xFF {
        AnalogInputSettings::Stereo(left)
    } else {
        AnalogInputSettings::DualMono(left, left)
    }
}

pub open spec fn mixer_settings_decoded(m: MixerSettings, b: Seq<u8>, p: int) -> bool {
    &&& m.master_volume == b[p]
    &&& m.master_limit == b[p + 1]
    &&& m.track_volume@ == b.subrange(p + 2, p + 10)
    &&& m.chorus_volume == b[p + 10]
    &&& m.delay_volume == b[p + 11]
    &&& m.reverb_volume == b[p + 12]
    &&& m.analog_input == analog_input_at(b, p)
    &&& m.usb_input == InputMixerSettings {
        volume: b[p + 15],
        chorus: b[p + 22],
        delay: b[p + 23],
        reverb: b[p + 24],
    }
    &&& m.dj_filter == b[p + 25]
    &&& m.dj_peak == b[p + 26]
}

impl MixerSettings {
    pub fn from_reader(reader: &mut Reader) -> (r: Self)
        requires
            old(reader).position + MIXER_SETTINGS_SIZE <= old(reader).buffer@.len(),
        ensures
            mixer_settings_decoded(r, old(reader).buffer@, old(reader).position as int),
            final(reader).position == old(reader).position + MIXER_SETTINGS_SIZE,
            final(reader).buffer@ == old(reader).buffer@,
    {
        let master_volume = reader.read();
        let master_limit = reader.read();
        let track_volume = reader.read_bytes(8);
        let chorus_volume = reader.read();
        let delay_volume = reader.read();
        let reverb_volume = reader.read();
        let analog_volume_l = reader.read();
        let analog_volume_r = reader.read();
        let usb_volume = reader.read();
        let analog_chorus_l = reader.read();
        let _analog_chorus_r = reader.read();
        let analog_delay_l = reader.read();
        let _analog_delay_r = reader.read();
        let analog_reverb_l = reader.read();
        let _analog_reverb_r = reader.read();
        let usb_chorus = reader.read();
        let usb_delay = reader.read();
        let usb_reverb = reader.read();
        let left = InputMixerSettings {
            volume: analog_volume_l,
            chorus: analog_chorus_l,
            delay: analog_delay_l,
            reverb: analog_reverb_l,
        };
        let analog_input = if analog_volume_r == 0xFF {
            AnalogInputSettings::Stereo(left)
        } else {
            AnalogInputSettings::DualMono(left, left)
        };
        let usb_input = InputMixerSettings {
            volume: usb_volume,
            chorus: usb_chorus,
            delay: usb_delay,
            reverb: usb_reverb,
        };
        let dj_filter = reader.read();
        let dj_peak = reader.read();
        reader.skip(5);
        MixerSettings {
            master_volume,
            master_limit,
            track_volume,
            chorus_volume,
            delay_volume,
            reverb_volume,
            analog_input,
            usb_input,
            dj_filter,
            dj_peak,
        }
    }
}

/// Send effects settings of a song.
#[derive(PartialEq, Eq, Structural, Debug, Clone, Copy)]
pub struct EffectsSettings {
    pub chorus_mod_depth: u8,
    pub chorus_mod_freq: u8,
    pub chorus_reverb_send: u8,
    pub delay_hp: u8,
    pub delay_lp: u8,
    pub delay_time_l: u8,
    pub delay_time_r: u8,
    pub delay_feedback: u8,
    pub delay_width: u8,
    pub delay_reverb_send: u8,
    pub reverb_hp: u8,
    pub reverb_lp: u8,
    pub reverb_size: u8,
    pub reverb_damping: u8,
    pub reverb_mod_depth: u8,
    pub reverb_mod_freq: u8,
    pub reverb_width: u8,
}

pub const EFFECTS_SETTINGS_SIZE: usize = 21;

pub open spec fn effects_settings_at(b: Seq<u8>, p: int) -> EffectsSettings {
    EffectsSettings {
        chorus_mod_depth: b[p],
        chorus_mod_freq: b[p + 1],
        chorus_reverb_send: b[p + 2],
        delay_hp: b[p + 6],
        delay_lp: b[p + 7],
        delay_time_l: b[p + 8],
        delay_time_r: b[p + 9],
        delay_feedback: b[p + 10],
        delay_width: b[p + 11],
        delay_reverb_send: b[p + 12],
        reverb_hp: b[p + 14],
        reverb_lp: b[p + 15],
        reverb_size: b[p + 16],
        reverb_damping: b[p + 17],
        reverb_mod_depth: b[p + 18],
        reverb_mod_freq: b[p + 19],
        reverb_width: b[p + 20],
    }
}

impl EffectsSettings {
    pub fn from_reader(reader: &mut Reader) -> (r: Self)
        requires
            old(reader).position + EFFECTS_SETTINGS_SIZE <= old(reader).buffer@.len(),
        ensures
            r == effects_settings_at(old(reader).buffer@, old(reader).position as int),
            final(reader).position == old(reader).position + EFFECTS_SETTINGS_SIZE,
            final(reader).buffer@ == old(reader).buffer@,
    {
        let chorus_mod_depth = reader.read();
        let chorus_mod_freq = reader.read();
        let chorus_reverb_send = reader.read();
        reader.skip(3);
        let delay_hp = reader.read();
        let delay_lp = reader.read();
        let delay_time_l = reader.read();
        let delay_time_r = reader.read();
        let delay_feedback = reader.read();
        let delay_width = reader.read();
        let delay_reverb_send = reader.read();
        reader.skip(1);
        let reverb_hp = reader.read();
        let reverb_lp = reader.read();
        let reverb_size = reader.read();
        let reverb_damping = reader.read();
        let reverb_mod_depth = reader.read();
        let reverb_mod_freq = reader.read();
        let reverb_width = reader.read();
        EffectsSettings {
            chorus_mod_depth,
            chorus_mod_freq,
            chorus_reverb_send,
            delay_hp,
            delay_lp,
            delay_time_l,
            delay_time_r,
            delay_feedback,
            delay_width,
            delay_reverb_send,
            reverb_hp,
            reverb_lp,
            reverb_size,
            reverb_damping,
            reverb_mod_depth,
            reverb_mod_freq,
            reverb_width,
        }
    }
}

/// One MIDI controller mapping.
#[derive(PartialEq, Eq, Structural, Debug, Clone, Copy)]
pub struct MidiMapping {
    pub channel: u8,
    pub control_number: u8,
    pub value: u8,
    pub typ: u8,
    pub param_index: u8,
    pub min_value: u8,
    pub max_value: u8,
}

pub const MIDI_MAPPING_SIZE: usize = 7;

pub open spec fn midi_mapping_at(b: Seq<u8>, p: int) -> MidiMapping {
    MidiMapping {
        channel: b[p],
        control_number: b[p + 1],
        value: b[p + 2],
        typ: b[p + 3],
        param_index: b[p + 4],
        min_value: b[p + 5],
        max_value: b[p + 6],
    }
}

impl MidiMapping {
    pub fn from_reader(reader: &mut Reader) -> (r: Self)
        requires
            old(reader).position + MIDI_MAPPING_SIZE <= old(reader).buffer@.len(),
        ensures
            r == midi_mapping_at(old(reader).buffer@, old(reader).position as int),
            final(reader).position == old(reader).position + MIDI_MAPPING_SIZE,
            final(reader).buffer@ == old(reader).buffer@,
    {
        let channel = reader.read();
        let control_number = reader.read();
        let value = reader.read();
        let typ = reader.read();
        let param_index = reader.read();
        let min_value = reader.read();
        let max_value = reader.read();
        MidiMapping { channel, control_number, value, typ, param_index, min_value, max_value }
    }

    /// A mapping on channel 0 is unused.
    pub fn empty(&self) -> (r: bool)
        ensures
            r == (self.channel == 0),
    {
        self.channel == 0
    }
}

/// A colour.
#[derive(PartialEq, Eq, Structural, Debug, Clone, Copy)]
pub struct RGB {
    pub r: u8,
    pub g: u8,
    pub b: u8,
}

pub open spec fn rgb_at(b: Seq<u8>, p: int) -> RGB {
    RGB { r: b[p], g: b[p + 1], b: b[p + 2] }
}

impl RGB {
    pub fn from_reader(reader: &mut Reader) -> (r: Self)
        requires
            old(reader).position + 3 <= old(reader).buffer@.len(),
        ensures
            r == rgb_at(old(reader).buffer@, old(reader).position as int),
            final(reader).position == old(reader).position + 3,
            final(reader).buffer@ == old(reader).buffer@,
    {
        let r = reader.read();
        let g = reader.read();
        let b = reader.read();
        RGB { r, g, b }
    }
}

/// A colour theme file.
#[derive(PartialEq, Eq, Structural, Debug, Clone, Copy)]
pub struct Theme {
    pub background: RGB,
    pub text_empty: RGB,
    pub text_info: RGB,
    pub text_default: RGB,
    pub text_value: RGB,
    pub text_title: RGB,
    pub play_marker: RGB,
    pub cursor: RGB,
    pub selection: RGB,
    pub scope_slider: RGB,
    pub meter_low: RGB,
    pub meter_mid: RGB,
    pub meter_peak: RGB,
}

pub const THEME_SIZE: usize = 39;

pub open spec fn theme_at(b: Seq<u8>, p: int) -> Theme {
    Theme {
        background: rgb_at(b, p),
        text_empty: rgb_at(b, p + 3),
        text_info: rgb_at(b, p + 6),
        text_default: rgb_at(b, p + 9),
        text_value: rgb_at(b, p + 12),
        text_title: rgb_at(b, p + 15),
        play_marker: rgb_at(b, p + 18),
        cursor: rgb_at(b, p + 21),
        selection: rgb_at(b, p + 24),
        scope_slider: rgb_at(b, p + 27),
        meter_low: rgb_at(b, p + 30),
        meter_mid: rgb_at(b, p + 33),
        meter_peak: rgb_at(b, p + 36),
    }
}

impl Theme {
    /// Decodes a theme file: a version record, then thirteen colours.
    pub fn read(bytes: Vec<u8>) -> (r: Result<Theme, ParseError>)
        ensures
            bytes@.len() < THEME_SIZE + VERSION_SIZE ==> r == Err::<Theme, ParseError>(
                ParseError::TooShort,
            ),
            bytes@.len() >= THEME_SIZE + VERSION_SIZE ==> r == Ok::<Theme, ParseError>(
                theme_at(bytes@, VERSION_SIZE as int),
            ),
    {
        if bytes.len() < THEME_SIZE + VERSION_SIZE {
            return Err(ParseError::TooShort);
        }
        let mut reader = Reader::new(bytes);
        let _version = Version::from_reader(&mut reader);
        Ok(Theme::from_reader(&mut reader))
    }

    pub fn from_reader(reader: &mut Reader) -> (r: Self)
        requires
            old(reader).position + THEME_SIZE <= old(reader).buffer@.len(),
        ensures
            r == theme_at(old(reader).buffer@, old(reader).position as int),
            final(reader).position == old(reader).position + THEME_SIZE,
            final(reader).buffer@ == old(reader).buffer@,
    {
        let background = RGB::from_reader(reader);
        let text_empty = RGB::from_reader(reader);
        let text_info = RGB::from_reader(reader);
        let text_default = RGB::from_reader(reader);
        let text_value = RGB::from_reader(reader);
        let text_title = RGB::from_reader(reader);
        let play_marker = RGB::from_reader(reader);
        let cursor = RGB::from_reader(reader);
        let selection = RGB::from_reader(reader);
        let scope_slider = RGB::from_reader(reader);
        let meter_low = RGB::from_reader(reader);
        let meter_mid = RGB::from_reader(reader);
        let meter_peak = RGB::from_reader(reader);
        Theme {
            background,
            text_empty,
            text_info,
            text_default,
            text_value,
            text_title,
            play_marker,
            cursor,
            selection,
            scope_slider,
            meter_low,
            meter_mid,
            meter_peak,
        }
    }
}

/// The offset of one note of a scale: whether it is played, and its shift
/// in semitones and cents.
#[derive(PartialEq, Eq, Structural, Debug, Clone, Copy)]
pub struct NoteOffset {
    pub enabled: bool,
    pub semitones: u8,
    pub cents: u8,
}

/// A scale: twelve note offsets (C to B) and a name.
#[derive(Debug)]
pub struct Scale {
    pub number: u8,
    pub name: String,
    pub notes: Vec<NoteOffset>,
}

/// Bytes of a scale record: a 16-bit enable mask, twelve offsets, a name.
pub const SCALE_SIZE: usize = 42;
pub const NOTES_PER_OCTAVE: usize = 12;

/// `x` shifted right by `i` bits.
pub open spec fn shr(x: int, i: int) -> int
    decreases i,
{
    if i <= 0 { x } else { shr(x, i - 1) / 2 }
}

pub open spec fn scale_note_at(b: Seq<u8>, p: int, i: int) -> NoteOffset {
    NoteOffset {
        enabled: shr(b[p] + 256 * b[p + 1], i) % 2 == 1,
        semitones: b[p + 2 + 2 * i],
        cents: b[p + 3 + 2 * i],
    }
}

pub open spec fn scale_decodable(b: Seq<u8>, p: int) -> bool {
    text_valid_at(b, p + 26, 16)
}

pub open spec fn scale_decoded(s: Scale, b: Seq<u8>, p: int, n: u8) -> bool {
    &&& s.number == n
    &&& s.name@ == text_at(b, p + 26, 16)
    &&& s.notes@.len() == NOTES_PER_OCTAVE
    &&& forall|i: int| 0 <= i < NOTES_PER_OCTAVE ==> #[trigger] s.notes@[i] == scale_note_at(b, p, i)
}

/// A note that is played and not shifted.
pub open spec fn unshifted_note() -> NoteOffset {
    NoteOffset { enabled: true, semitones: 0, cents: 0 }
}

/// The chromatic scale: every note played, unshifted.
pub open spec fn scale_is_chromatic(s: Scale, n: u8) -> bool {
    &&& s.number == n
    &&& s.name@ == "CHROMATIC"@
    &&& s.notes@.len() == NOTES_PER_OCTAVE
    &&& forall|i: int| 0 <= i < NOTES_PER_OCTAVE ==> #[trigger] s.notes@[i] == unshifted_note()
}

impl Scale {
    /// Decodes a scale file: a version record, then one scale record.
    pub fn read(bytes: Vec<u8>) -> (r: Result<Scale, ParseError>)
        ensures
            bytes@.len() < SCALE_SIZE + VERSION_SIZE ==> r == Err::<Scale, ParseError>(
                ParseError::TooShort,
            ),
            bytes@.len() >= SCALE_SIZE + VERSION_SIZE ==> (r is Ok <==> scale_decodable(
                bytes@,
                VERSION_SIZE as int,
            )),
            r matches Ok(s) ==> scale_decoded(s, bytes@, VERSION_SIZE as int, 0),
            r matches Err(e) ==> e == ParseError::TooShort || e == ParseError::InvalidUtf8(40),
    {
        if bytes.len() < SCALE_SIZE + VERSION_SIZE {
            return Err(ParseError::TooShort);
        }
        let mut reader = Reader::new(bytes);
        let _version = Version::from_reader(&mut reader);
        Scale::from_reader(&mut reader, 0)
    }

    pub fn from_reader(reader: &mut Reader, number: u8) -> (r: Result<Self, ParseError>)
        requires
            old(reader).position + SCALE_SIZE <= old(reader).buffer@.len(),
        ensures
            r is Ok <==> scale_decodable(old(reader).buffer@, old(reader).position as int),
            r matches Ok(s) ==> scale_decoded(
                s,
                old(reader).buffer@,
                old(reader).position as int,
                number,
            ),
            r is Err ==> r == Err::<Scale, ParseError>(
                ParseError::InvalidUtf8((old(reader).position + 26) as usize),
            ),
            final(reader).position == old(reader).position + SCALE_SIZE,
            final(reader).buffer@ == old(reader).buffer@,
    {
        let ghost b = reader.buffer@;
        let ghost p = reader.position as int;
        let lo = reader.read();
        let hi = reader.read();
        let map: u16 = lo as u16 + 256 * hi as u16;
        let mut m: u16 = map;
        let mut notes: Vec<NoteOffset> = Vec::new();
        let mut i: usize = 0;
        while i < NOTES_PER_OCTAVE
            invariant
                reader.buffer@ == b,
                p + SCALE_SIZE <= b.len(),
                map == b[p] + 256 * b[p + 1],
                i <= NOTES_PER_OCTAVE,
                reader.position == p + 2 + 2 * i,
                m as int == shr(map as int, i as int),
                notes@.len() == i,
                forall|j: int| 0 <= j < i ==> #[trigger] notes@[j] == scale_note_at(b, p, j),
            decreases NOTES_PER_OCTAVE - i,
        {
            let enabled = m % 2 == 1;
            let semitones = reader.read();
            let cents = reader.read();
            notes.push(NoteOffset { enabled, semitones, cents });
            m = m / 2;
            i += 1;
        }
        let name = reader.read_string(16);
        match name {
            Ok(name) => Ok(Scale { number, name, notes }),
            Err(e) => Err(e),
        }
    }

    /// The chromatic scale under the given number.
    pub fn chromatic(number: u8) -> (r: Self)
        ensures
            scale_is_chromatic(r, number),
    {
        let mut notes: Vec<NoteOffset> = Vec::new();
        let mut i: usize = 0;
        while i < NOTES_PER_OCTAVE
            invariant
                i <= NOTES_PER_OCTAVE,
                notes@.len() == i,
                forall|j: int| 0 <= j < i ==> #[trigger] notes@[j] == unshifted_note(),
            decreases NOTES_PER_OCTAVE - i,
        {
            notes.push(NoteOffset { enabled: true, semitones: 0, cents: 0 });
            i += 1;
        }
        Scale { number, name: String::from_str("CHROMATIC"), notes }
    }
}

} // verus!
