use vstd::prelude::*;
use crate::reader::{Reader, ParseError, text_at, text_valid_at};
use crate::song::{VERSION_SIZE, Version, version_at, version_at_least};

verus! {

/// An envelope of a synth.
#[derive(PartialEq, Eq, Structural, Debug, Clone, Copy)]
pub struct Envelope {
    pub dest: u8,
    pub amount: u8,
    pub attack: u8,
    pub hold: u8,
    pub decay: u8,
    pub retrigger: u8,
}

pub open spec fn envelope_at(b: Seq<u8>, p: int) -> Envelope {
    Envelope {
        dest: b[p],
        amount: b[p + 1],
        attack: b[p + 2],
        hold: b[p + 3],
        decay: b[p + 4],
        retrigger: b[p + 5],
    }
}

impl Envelope {
    pub fn from_reader(reader: &mut Reader) -> (r: Self)
        requires
            old(reader).position + 6 <= old(reader).buffer@.len(),
        ensures
            r == envelope_at(old(reader).buffer@, old(reader).position as int),
            final(reader).position == old(reader).position + 6,
            final(reader).buffer@ == old(reader).buffer@,
    {
        let dest = reader.read();
        let amount = reader.read();
        let attack = reader.read();
        let hold = reader.read();
        let decay = reader.read();
        let retrigger = reader.read();
        Envelope { dest, amount, attack, hold, decay, retrigger }
    }
}

/// A low-frequency oscillator of a synth.
#[derive(PartialEq, Eq, Structural, Debug, Clone, Copy)]
pub struct LFO {
    pub shape: u8,
    pub dest: u8,
    pub trigger_mode: u8,
    pub freq: u8,
    pub amount: u8,
    pub retrigger: u8,
}

pub open spec fn lfo_at(b: Seq<u8>, p: int) -> LFO {
    LFO {
        shape: b[p],
        dest: b[p + 1],
        trigger_mode: b[p + 2],
        freq: b[p + 3],
        amount: b[p + 4],
        retrigger: b[p + 5],
    }
}

impl LFO {
    pub fn from_reader(reader: &mut Reader) -> (r: Self)
        requires
            old(reader).position + 6 <= old(reader).buffer@.len(),
        ensures
            r == lfo_at(old(reader).buffer@, old(reader).position as int),
            final(reader).position == old(reader).position + 6,
            final(reader).buffer@ == old(reader).buffer@,
    {
        let shape = reader.read();
        let dest = reader.read();
        let trigger_mode = reader.read();
        let freq = reader.read();
        let amount = reader.read();
        let retrigger = reader.read();
        LFO { shape, dest, trigger_mode, freq, amount, retrigger }
    }
}

/// A custom control change of a MIDI output instrument.
#[derive(PartialEq, Eq, Structural, Debug, Clone, Copy)]
pub struct ControlChange {
    pub number: u8,
    pub default_value: u8,
}

pub open spec fn control_change_at(b: Seq<u8>, p: int) -> ControlChange {
    ControlChange { number: b[p], default_value: b[p + 1] }
}

impl ControlChange {
    pub fn from_reader(reader: &mut Reader) -> (r: Self)
        requires
            old(reader).position + 2 <= old(reader).buffer@.len(),
        ensures
            r == control_change_at(old(reader).buffer@, old(reader).position as int),
            final(reader).position == old(reader).position + 2,
            final(reader).buffer@ == old(reader).buffer@,
    {
        let number = reader.read();
        let default_value = reader.read();
        ControlChange { number, default_value }
    }
}

/// An operator of an FM synth.
#[derive(PartialEq, Eq, Structural, Debug, Clone, Copy)]
pub struct Operator {
    pub shape: u8,
    pub ratio: u8,
    pub ratio_fine: u8,
    pub level: u8,
    pub feedback: u8,
    pub retrigger: u8,
    pub mod_a: u8,
    pub mod_b: u8,
}

/// Parameters shared by the synth instruments.
#[derive(Debug)]
pub struct SynthParams {
    pub volume: u8,
    pub pitch: u8,
    pub fine_tune: u8,
    pub filter_type: u8,
    pub filter_cutoff: u8,
    pub filter_res: u8,
    pub amp: u8,
    pub limit: u8,
    pub mixer_pan: u8,
    pub mixer_dry: u8,
    pub mixer_chorus: u8,
    pub mixer_delay: u8,
    pub mixer_reverb: u8,
    pub envelopes: Vec<Envelope>,
    pub lfos: Vec<LFO>,
}

pub const SYNTH_PARAMS_SIZE: usize = 34;

pub open spec fn synth_params_decoded(
    s: SynthParams,
    b: Seq<u8>,
    p: int,
    volume: u8,
    pitch: u8,
    fine_tune: u8,
) -> bool {
    &&& s.volume == volume
    &&& s.pitch == pitch
    &&& s.fine_tune == fine_tune
    &&& s.filter_type == b[p]
    &&& s.filter_cutoff == b[p + 1]
    &&& s.filter_res == b[p + 2]
    &&& s.amp == b[p + 3]
    &&& s.limit == b[p + 4]
    &&& s.mixer_pan == b[p + 5]
    &&& s.mixer_dry == b[p + 6]
    &&& s.mixer_chorus == b[p + 7]
    &&& s.mixer_delay == b[p + 8]
    &&& s.mixer_reverb == b[p + 9]
    &&& s.envelopes@ == seq![envelope_at(b, p + 10), envelope_at(b, p + 16)]
    &&& s.lfos@ == seq![lfo_at(b, p + 22), lfo_at(b, p + 28)]
}

impl SynthParams {
    pub fn from_reader(reader: &mut Reader, volume: u8, pitch: u8, fine_tune: u8) -> (r: Self)
        requires
            old(reader).position + SYNTH_PARAMS_SIZE <= old(reader).buffer@.len(),
        ensures
            synth_params_decoded(
                r,
                old(reader).buffer@,
                old(reader).position as int,
                volume,
                pitch,
                fine_tune,
            ),
            final(reader).position == old(reader).position + SYNTH_PARAMS_SIZE,
            final(reader).buffer@ == old(reader).buffer@,
    {
        let filter_type = reader.read();
        let filter_cutoff = reader.read();
        let filter_res = reader.read();
        let amp = reader.read();
        let limit = reader.read();
        let mixer_pan = reader.read();
        let mixer_dry = reader.read();
        let mixer_chorus = reader.read();
        let mixer_delay = reader.read();
        let mixer_reverb = reader.read();
        let env1 = Envelope::from_reader(reader);
        let env2 = Envelope::from_reader(reader);
        let lfo1 = LFO::from_reader(reader);
        let lfo2 = LFO::from_reader(reader);
        let envelopes = vec![env1, env2];
        let lfos = vec![lfo1, lfo2];
        assert(envelopes@ =~= seq![env1, env2]);
        assert(lfos@ =~= seq![lfo1, lfo2]);
        SynthParams {
            volume,
            pitch,
            fine_tune,
            filter_type,
            filter_cutoff,
            filter_res,
            amp,
            limit,
            mixer_pan,
            mixer_dry,
            mixer_chorus,
            mixer_delay,
            mixer_reverb,
            envelopes,
            lfos,
        }
    }
}

#[derive(Debug)]
pub struct WavSynth {
    pub number: u8,
    pub name: String,
    pub transpose: bool,
    pub table_tick: u8,
    pub synth_params: SynthParams,
    pub shape: u8,
    pub size: u8,
    pub mult: u8,
    pub warp: u8,
    pub mirror: u8,
}

#[derive(Debug)]
pub struct MacroSynth {
    pub number: u8,
    pub name: String,
    pub transpose: bool,
    pub table_tick: u8,
    pub synth_params: SynthParams,
    pub shape: u8,
    pub timbre: u8,
    pub color: u8,
    pub degrade: u8,
    pub redux: u8,
}

#[derive(Debug)]
pub struct Sampler {
    pub number: u8,
    pub name: String,
    pub transpose: bool,
    pub table_tick: u8,
    pub synth_params: SynthParams,
    pub sample_path: String,
    pub play_mode: u8,
    pub slice: u8,
    pub start: u8,
    pub loop_start: u8,
    pub length: u8,
    pub degrade: u8,
}

#[derive(Debug)]
pub struct FMSynth {
    pub number: u8,
    pub name: String,
    pub transpose: bool,
    pub table_tick: u8,
    pub synth_params: SynthParams,
    pub algo: u8,
    pub operators: Vec<Operator>,
    pub mod1: u8,
    pub mod2: u8,
    pub mod3: u8,
    pub mod4: u8,
}

#[derive(Debug)]
pub struct MIDIOut {
    pub number: u8,
    pub name: String,
    pub transpose: bool,
    pub table_tick: u8,
    pub port: u8,
    pub channel: u8,
    pub bank_select: u8,
    pub program_change: u8,
    pub custom_cc: Vec<ControlChange>,
}

/// An instrument slot, by the type byte it starts with.
#[derive(Debug)]
pub enum Instrument {
    WavSynth(WavSynth),
    MacroSynth(MacroSynth),
    Sampler(Sampler),
    MIDIOut(MIDIOut),
    FMSynth(FMSynth),
    Empty,
}

/// Bytes of an instrument slot, whatever its type.
pub const INSTRUMENT_SIZE: usize = 215;
/// Offset of a sampler's sample path within its slot.
pub const SAMPLE_PATH_OFFSET: usize = 0x57;

pub const KIND_WAV_SYNTH: u8 = 0x00;
pub const KIND_MACRO_SYNTH: u8 = 0x01;
pub const KIND_SAMPLER: u8 = 0x02;
pub const KIND_MIDI_OUT: u8 = 0x03;
pub const KIND_FM_SYNTH: u8 = 0x04;
pub const KIND_NONE: u8 = 0xFF;

pub open spec fn kind_known(k: u8) -> bool {
    k <= KIND_FM_SYNTH || k == KIND_NONE
}

/// The slot at `p` can be decoded: a known type byte, a valid name, and for
/// a sampler a valid sample path.
pub open spec fn instrument_decodable(b: Seq<u8>, p: int) -> bool {
    &&& kind_known(b[p])
    &&& text_valid_at(b, p + 1, 12)
    &&& b[p] == KIND_SAMPLER ==> text_valid_at(b, p + SAMPLE_PATH_OFFSET, 128)
}

/// The error decoding the slot at `p` gives, in decode order: its name, its
/// type byte, then a sampler's sample path.
pub open spec fn instrument_error(b: Seq<u8>, p: int) -> Option<ParseError> {
    if !text_valid_at(b, p + 1, 12) {
        Some(ParseError::InvalidUtf8((p + 1) as usize))
    } else if !kind_known(b[p]) {
        Some(ParseError::UnknownInstrumentKind(b[p]))
    } else if b[p] == KIND_SAMPLER && !text_valid_at(b, p + SAMPLE_PATH_OFFSET, 128) {
        Some(ParseError::InvalidUtf8((p + SAMPLE_PATH_OFFSET) as usize))
    } else {
        None
    }
}

/// Where an FM synth's operator ratios start: four operator shapes come
/// first from version 1.4 on.
pub open spec fn fm_ratio_offset(v: Version) -> int {
    if version_at_least(v, 1, 4) { 23 } else { 19 }
}

pub open spec fn fm_operator_at(b: Seq<u8>, p: int, v: Version, i: int) -> Operator {
    let o = p + fm_ratio_offset(v);
    Operator {
        shape: if version_at_least(v, 1, 4) { b[p + 19 + i] } else { 0 },
        ratio: b[o + 2 * i],
        ratio_fine: b[o + 2 * i + 1],
        level: b[o + 8 + 2 * i],
        feedback: b[o + 8 + 2 * i + 1],
        retrigger: 0,
        mod_a: b[o + 16 + i],
        mod_b: b[o + 20 + i],
    }
}

/// `ins` is the slot numbered `n` at `p`, decoded for version `v`.
pub open spec fn instrument_decoded(ins: Instrument, b: Seq<u8>, p: int, n: u8, v: Version) -> bool {
    let name = text_at(b, p + 1, 12);
    let transpose = b[p + 13] == 1;
    let table_tick = b[p + 14];
    match ins {
        Instrument::WavSynth(w) => {
            &&& b[p] == KIND_WAV_SYNTH
            &&& w.number == n && w.name@ == name && w.transpose == transpose
            &&& w.table_tick == table_tick
            &&& w.shape == b[p + 18] && w.size == b[p + 19] && w.mult == b[p + 20]
            &&& w.warp == b[p + 21] && w.mirror == b[p + 22]
            &&& synth_params_decoded(w.synth_params, b, p + 23, b[p + 15], b[p + 16], b[p + 17])
        },
        Instrument::MacroSynth(m) => {
            &&& b[p] == KIND_MACRO_SYNTH
            &&& m.number == n && m.name@ == name && m.transpose == transpose
            &&& m.table_tick == table_tick
            &&& m.shape == b[p + 18] && m.timbre == b[p + 19] && m.color == b[p + 20]
            &&& m.degrade == b[p + 21] && m.redux == b[p + 22]
            &&& synth_params_decoded(m.synth_params, b, p + 23, b[p + 15], b[p + 16], b[p + 17])
        },
        Instrument::Sampler(s) => {
            &&& b[p] == KIND_SAMPLER
            &&& s.number == n && s.name@ == name && s.transpose == transpose
            &&& s.table_tick == table_tick
            &&& s.play_mode == b[p + 18] && s.slice == b[p + 19] && s.start == b[p + 20]
            &&& s.loop_start == b[p + 21] && s.length == b[p + 22] && s.degrade == b[p + 23]
            &&& synth_params_decoded(s.synth_params, b, p + 24, b[p + 15], b[p + 16], b[p + 17])
            &&& s.sample_path@ == text_at(b, p + SAMPLE_PATH_OFFSET, 128)
        },
        Instrument::MIDIOut(m) => {
            &&& b[p] == KIND_MIDI_OUT
            &&& m.number == n && m.name@ == name && m.transpose == transpose
            &&& m.table_tick == table_tick
            &&& m.port == b[p + 15] && m.channel == b[p + 16]
            &&& m.bank_select == b[p + 17] && m.program_change == b[p + 18]
            &&& m.custom_cc@.len() == 8
            &&& forall|i: int| 0 <= i < 8 ==> #[trigger] m.custom_cc@[i] == control_change_at(b, p + 22 + 2 * i)
        },
        Instrument::FMSynth(f) => {
            let o = p + fm_ratio_offset(v);
            &&& b[p] == KIND_FM_SYNTH
            &&& f.number == n && f.name@ == name && f.transpose == transpose
            &&& f.table_tick == table_tick
            &&& f.algo == b[p + 18]
            &&& f.operators@.len() == 4
            &&& forall|i: int| 0 <= i < 4 ==> #[trigger] f.operators@[i] == fm_operator_at(b, p, v, i)
            &&& f.mod1 == b[o + 24] && f.mod2 == b[o + 25] && f.mod3 == b[o + 26] && f.mod4 == b[o + 27]
            &&& synth_params_decoded(f.synth_params, b, o + 28, b[p + 15], b[p + 16], b[p + 17])
        },
        Instrument::Empty => b[p] == KIND_NONE,
    }
}

impl Instrument {
    /// Decodes an instrument file: a version record, then one instrument slot.
    pub fn read(bytes: Vec<u8>) -> (r: Result<Instrument, ParseError>)
        ensures
            bytes@.len() < INSTRUMENT_SIZE + VERSION_SIZE ==> r == Err::<Instrument, ParseError>(
                ParseError::TooShort,
            ),
            bytes@.len() >= INSTRUMENT_SIZE + VERSION_SIZE ==> (r is Ok <==> instrument_decodable(
                bytes@,
                VERSION_SIZE as int,
            )),
            bytes@.len() >= INSTRUMENT_SIZE + VERSION_SIZE ==> r != Err::<Instrument, ParseError>(
                ParseError::TooShort,
            ),
            bytes@.len() >= INSTRUMENT_SIZE + VERSION_SIZE && r is Err ==> r == Err::<Instrument, ParseError>(
                instrument_error(bytes@, VERSION_SIZE as int)->Some_0,
            ),
            r matches Ok(i) ==> instrument_decoded(
                i,
                bytes@,
                VERSION_SIZE as int,
                0,
                version_at(bytes@, 0),
            ),
    {
        if bytes.len() < INSTRUMENT_SIZE + VERSION_SIZE {
            return Err(ParseError::TooShort);
        }
        let mut reader = Reader::new(bytes);
        let version = Version::from_reader(&mut reader);
        Instrument::from_reader(&mut reader, 0, version)
    }

    /// Decodes the slot at the cursor and moves the cursor to the next slot.
    pub fn from_reader(reader: &mut Reader, number: u8, version: Version) -> (r: Result<
        Self,
        ParseError,
    >)
        requires
            old(reader).position + INSTRUMENT_SIZE <= old(reader).buffer@.len(),
        ensures
            r is Ok <==> instrument_decodable(old(reader).buffer@, old(reader).position as int),
            r matches Ok(i) ==> instrument_decoded(
                i,
                old(reader).buffer@,
                old(reader).position as int,
                number,
                version,
            ),
            r is Err ==> r == Err::<Instrument, ParseError>(
                instrument_error(old(reader).buffer@, old(reader).position as int)->Some_0,
            ),
            r != Err::<Instrument, ParseError>(ParseError::TooShort),
            final(reader).position == old(reader).position + INSTRUMENT_SIZE,
            final(reader).buffer@ == old(reader).buffer@,
    {
        let start = reader.pos();
        let len = reader.buffer.len();
        let ghost b = reader.buffer@;
        let kind = reader.read();
        let name = reader.read_string(12);
        let transpose = reader.read_bool();
        let table_tick = reader.read();
        let name = match name {
            Ok(name) => name,
            Err(e) => {
                reader.set_pos(start + INSTRUMENT_SIZE);
                return Err(e);
            },
        };
        if kind == KIND_WAV_SYNTH || kind == KIND_MACRO_SYNTH || kind == KIND_SAMPLER
            || kind == KIND_FM_SYNTH {
            let volume = reader.read();
            let pitch = reader.read();
            let fine_tune = reader.read();
            if kind == KIND_WAV_SYNTH || kind == KIND_MACRO_SYNTH {
                let f1 = reader.read();
                let f2 = reader.read();
                let f3 = reader.read();
                let f4 = reader.read();
                let f5 = reader.read();
                let synth_params = SynthParams::from_reader(reader, volume, pitch, fine_tune);
                reader.set_pos(start + INSTRUMENT_SIZE);
                if kind == KIND_WAV_SYNTH {
                    Ok(
                        Instrument::WavSynth(
                            WavSynth {
                                number,
                                name,
                                transpose,
                                table_tick,
                                synth_params,
                                shape: f1,
                                size: f2,
                                mult: f3,
                                warp: f4,
                                mirror: f5,
                            },
                        ),
                    )
                } else {
                    Ok(
                        Instrument::MacroSynth(
                            MacroSynth {
                                number,
                                name,
                                transpose,
                                table_tick,
                                synth_params,
                                shape: f1,
                                timbre: f2,
                                color: f3,
                                degrade: f4,
                                redux: f5,
                            },
                        ),
                    )
                }
            } else if kind == KIND_SAMPLER {
                let play_mode = reader.read();
                let slice = reader.read();
                let start_point = reader.read();
                let loop_start = reader.read();
                let length = reader.read();
                let degrade = reader.read();
                let synth_params = SynthParams::from_reader(reader, volume, pitch, fine_tune);
                reader.set_pos(start + SAMPLE_PATH_OFFSET);
                let sample_path = reader.read_string(128);
                match sample_path {
                    Ok(sample_path) => Ok(
                        Instrument::Sampler(
                            Sampler {
                                number,
                                name,
                                transpose,
                                table_tick,
                                synth_params,
                                sample_path,
                                play_mode,
                                slice,
                                start: start_point,
                                loop_start,
                                length,
                                degrade,
                            },
                        ),
                    ),
                    Err(e) => Err(e),
                }
            } else {
                let algo = reader.read();
                let mut shapes: Vec<u8> = vec![0, 0, 0, 0];
                if version.at_least(1, 4) {
                    shapes = reader.read_bytes(4);
                }
                let ratios = reader.read_bytes(8);
                let levels = reader.read_bytes(8);
                let mod_a = reader.read_bytes(4);
                let mod_b = reader.read_bytes(4);
                let mut operators: Vec<Operator> = Vec::new();
                let ghost o = start + fm_ratio_offset(version);
                let mut i: usize = 0;
                while i < 4
                    invariant
                        start + INSTRUMENT_SIZE <= b.len(),
                        o == start + fm_ratio_offset(version),
                        shapes@.len() == 4,
                        version_at_least(version, 1, 4) ==> shapes@ == b.subrange(start + 19, start + 23),
                        !version_at_least(version, 1, 4) ==> shapes@ == seq![0u8, 0, 0, 0],
                        ratios@ == b.subrange(o, o + 8),
                        levels@ == b.subrange(o + 8, o + 16),
                        mod_a@ == b.subrange(o + 16, o + 20),
                        mod_b@ == b.subrange(o + 20, o + 24),
                        i <= 4,
                        operators@.len() == i,
                        forall|j: int| 0 <= j < i ==> #[trigger] operators@[j] == fm_operator_at(b, start as int, version, j),
                    decreases 4 - i,
                {
                    operators.push(
                        Operator {
                            shape: shapes[i],
                            ratio: ratios[2 * i],
                            ratio_fine: ratios[2 * i + 1],
                            level: levels[2 * i],
                            feedback: levels[2 * i + 1],
                            retrigger: 0,
                            mod_a: mod_a[i],
                            mod_b: mod_b[i],
                        },
                    );
                    i += 1;
                }
                let mod1 = reader.read();
                let mod2 = reader.read();
                let mod3 = reader.read();
                let mod4 = reader.read();
                let synth_params = SynthParams::from_reader(reader, volume, pitch, fine_tune);
                reader.set_pos(start + INSTRUMENT_SIZE);
                Ok(
                    Instrument::FMSynth(
                        FMSynth {
                            number,
                            name,
                            transpose,
                            table_tick,
                            synth_params,
                            algo,
                            operators,
                            mod1,
                            mod2,
                            mod3,
                            mod4,
                        },
                    ),
                )
            }
        } else if kind == KIND_MIDI_OUT {
            let port = reader.read();
            let channel = reader.read();
            let bank_select = reader.read();
            let program_change = reader.read();
            reader.skip(3);
            let mut custom_cc: Vec<ControlChange> = Vec::new();
            let mut i: usize = 0;
            while i < 8
                invariant
                    reader.buffer@ == b,
                    start + INSTRUMENT_SIZE <= b.len(),
                    i <= 8,
                    reader.position == start + 22 + 2 * i,
                    custom_cc@.len() == i,
                    forall|j: int| 0 <= j < i ==> #[trigger] custom_cc@[j] == control_change_at(b, start + 22 + 2 * j),
                decreases 8 - i,
            {
                custom_cc.push(ControlChange::from_reader(reader));
                i += 1;
            }
            reader.set_pos(start + INSTRUMENT_SIZE);
            Ok(
                Instrument::MIDIOut(
                    MIDIOut {
                        number,
                        name,
                        transpose,
                        table_tick,
                        port,
                        channel,
                        bank_select,
                        program_change,
                        custom_cc,
                    },
                ),
            )
        } else if kind == KIND_NONE {
            reader.set_pos(start + INSTRUMENT_SIZE);
            Ok(Instrument::Empty)
        } else {
            reader.set_pos(start + INSTRUMENT_SIZE);
            Err(ParseError::UnknownInstrumentKind(kind))
        }
    }
}

} // verus!
