use vstd::prelude::*;
use vstd::slice::slice_subrange;
use crate::fx::{FXCommand, fx_command_of};
use crate::reader::{Reader, ParseError, text_at, text_valid_at};
use crate::instrument::{Instrument, instrument_decodable, instrument_decoded, instrument_error};
use crate::settings::{
    EffectsSettings, MidiMapping, MidiSettings, MixerSettings, SCALE_SIZE, Scale,
    effects_settings_at, midi_mapping_at, midi_settings_decoded, mixer_settings_decoded,
    scale_decodable, scale_decoded, scale_is_chromatic,
};

verus! {

/// Firmware version that wrote a file.
#[derive(PartialEq, Eq, Structural, Debug, Clone, Copy)]
pub struct Version {
    pub major: u8,
    pub minor: u8,
    pub patch: u8,
}

/// The version record at `p`: ten bytes of text, then two bytes of packed
/// nibbles (minor and patch in the first, major in the low half of the second).
pub open spec fn version_at(b: Seq<u8>, p: int) -> Version {
    Version {
        major: (b[p + 11] % 16) as u8,
        minor: ((b[p + 10] / 16) % 16) as u8,
        patch: (b[p + 10] % 16) as u8,
    }
}

pub open spec fn version_at_least(v: Version, major: u8, minor: u8) -> bool {
    v.major > major || (v.major == major && v.minor >= minor)
}

/// Size of the version record at the start of every file.
pub const VERSION_SIZE: usize = 14;

impl Version {
    pub fn from_reader(reader: &mut Reader) -> (r: Self)
        requires
            old(reader).position + VERSION_SIZE <= old(reader).buffer@.len(),
        ensures
            r == version_at(old(reader).buffer@, old(reader).position as int),
            final(reader).position == old(reader).position + VERSION_SIZE,
            final(reader).buffer@ == old(reader).buffer@,
    {
        reader.skip(10);
        let lsb = reader.read();
        let msb = reader.read();
        reader.skip(2);
        Version { major: msb % 16, minor: (lsb / 16) % 16, patch: lsb % 16 }
    }

    /// The version is `major.minor` or later.
    pub fn at_least(&self, major: u8, minor: u8) -> (r: bool)
        ensures
            r == version_at_least(*self, major, minor),
    {
        self.major > major || (self.major == major && self.minor >= minor)
    }
}

/// A note number; 0xFF is the empty row.
#[derive(PartialEq, Eq, Structural, Debug, Clone, Copy)]
pub struct Note(pub u8);

/// An FX slot: a command and its value.
#[derive(PartialEq, Eq, Structural, Debug, Clone, Copy)]
pub struct FX {
    pub command: FXCommand,
    pub value: u8,
}

pub open spec fn fx_at(b: Seq<u8>, p: int) -> FX {
    FX { command: fx_command_of(b[p]), value: b[p + 1] }
}

impl FX {
    pub fn from_reader(reader: &mut Reader) -> (r: Self)
        requires
            old(reader).position + 2 <= old(reader).buffer@.len(),
        ensures
            r == fx_at(old(reader).buffer@, old(reader).position as int),
            final(reader).position == old(reader).position + 2,
            final(reader).buffer@ == old(reader).buffer@,
    {
        let command = FXCommand::from_u8(reader.read());
        let value = reader.read();
        FX { command, value }
    }
}

/// One row of a phrase.
#[derive(PartialEq, Eq, Structural, Debug, Clone, Copy)]
pub struct Step {
    pub note: Note,
    pub velocity: u8,
    pub instrument: u8,
    pub fx1: FX,
    pub fx2: FX,
    pub fx3: FX,
}

pub const STEP_SIZE: usize = 9;

pub open spec fn step_at(b: Seq<u8>, p: int) -> Step {
    Step {
        note: Note(b[p]),
        velocity: b[p + 1],
        instrument: b[p + 2],
        fx1: fx_at(b, p + 3),
        fx2: fx_at(b, p + 5),
        fx3: fx_at(b, p + 7),
    }
}

impl Step {
    pub fn from_reader(reader: &mut Reader) -> (r: Self)
        requires
            old(reader).position + STEP_SIZE <= old(reader).buffer@.len(),
        ensures
            r == step_at(old(reader).buffer@, old(reader).position as int),
            final(reader).position == old(reader).position + STEP_SIZE,
            final(reader).buffer@ == old(reader).buffer@,
    {
        let note = Note(reader.read());
        let velocity = reader.read();
        let instrument = reader.read();
        let fx1 = FX::from_reader(reader);
        let fx2 = FX::from_reader(reader);
        let fx3 = FX::from_reader(reader);
        Step { note, velocity, instrument, fx1, fx2, fx3 }
    }
}

/// One row of a table.
#[derive(PartialEq, Eq, Structural, Debug, Clone, Copy)]
pub struct TableStep {
    pub transpose: u8,
    pub velocity: u8,
    pub fx1: FX,
    pub fx2: FX,
    pub fx3: FX,
}

pub const TABLE_STEP_SIZE: usize = 8;

pub open spec fn table_step_at(b: Seq<u8>, p: int) -> TableStep {
    TableStep {
        transpose: b[p],
        velocity: b[p + 1],
        fx1: fx_at(b, p + 2),
        fx2: fx_at(b, p + 4),
        fx3: fx_at(b, p + 6),
    }
}

impl TableStep {
    pub fn from_reader(reader: &mut Reader) -> (r: Self)
        requires
            old(reader).position + TABLE_STEP_SIZE <= old(reader).buffer@.len(),
        ensures
            r == table_step_at(old(reader).buffer@, old(reader).position as int),
            final(reader).position == old(reader).position + TABLE_STEP_SIZE,
            final(reader).buffer@ == old(reader).buffer@,
    {
        let transpose = reader.read();
        let velocity = reader.read();
        let fx1 = FX::from_reader(reader);
        let fx2 = FX::from_reader(reader);
        let fx3 = FX::from_reader(reader);
        TableStep { transpose, velocity, fx1, fx2, fx3 }
    }
}

/// One row of a chain: a phrase (0xFF ends the chain) and a transposition.
#[derive(PartialEq, Eq, Structural, Debug, Clone, Copy)]
pub struct ChainStep {
    pub phrase: u8,
    pub transpose: u8,
}

pub const CHAIN_STEP_SIZE: usize = 2;

pub open spec fn chain_step_at(b: Seq<u8>, p: int) -> ChainStep {
    ChainStep { phrase: b[p], transpose: b[p + 1] }
}

impl ChainStep {
    pub fn from_reader(reader: &mut Reader) -> (r: Self)
        requires
            old(reader).position + CHAIN_STEP_SIZE <= old(reader).buffer@.len(),
        ensures
            r == chain_step_at(old(reader).buffer@, old(reader).position as int),
            final(reader).position == old(reader).position + CHAIN_STEP_SIZE,
            final(reader).buffer@ == old(reader).buffer@,
    {
        let phrase = reader.read();
        let transpose = reader.read();
        ChainStep { phrase, transpose }
    }
}

/// Rows in a phrase, chain, table or groove.
pub const ROWS: usize = 16;

/// A phrase: sixteen rows.
#[derive(Debug)]
pub struct Phrase {
    pub number: u8,
    pub steps: Vec<Step>,
}

pub const PHRASE_SIZE: usize = 144;

/// `ph` is the phrase numbered `n` read at `p`.
pub open spec fn phrase_decoded(ph: Phrase, b: Seq<u8>, p: int, n: u8) -> bool {
    &&& ph.number == n
    &&& ph.steps@.len() == ROWS
    &&& forall|i: int| 0 <= i < ROWS ==> #[trigger] ph.steps@[i] == step_at(b, p + 9 * i)
}

impl Phrase {
    pub fn from_reader(reader: &mut Reader, number: u8) -> (r: Self)
        requires
            old(reader).position + PHRASE_SIZE <= old(reader).buffer@.len(),
        ensures
            phrase_decoded(r, old(reader).buffer@, old(reader).position as int, number),
            final(reader).position == old(reader).position + PHRASE_SIZE,
            final(reader).buffer@ == old(reader).buffer@,
    {
        let ghost b = reader.buffer@;
        let ghost p = reader.position as int;
        let mut steps: Vec<Step> = Vec::new();
        let mut i: usize = 0;
        while i < ROWS
            invariant
                reader.buffer@ == b,
                p + PHRASE_SIZE <= b.len(),
                i <= ROWS,
                reader.position == p + 9 * i,
                steps@.len() == i,
                forall|j: int| 0 <= j < i ==> #[trigger] steps@[j] == step_at(b, p + 9 * j),
            decreases ROWS - i,
        {
            let s = Step::from_reader(reader);
            steps.push(s);
            i += 1;
        }
        Phrase { number, steps }
    }
}

/// A chain: sixteen phrase references.
#[derive(Debug)]
pub struct Chain {
    pub number: u8,
    pub steps: Vec<ChainStep>,
}

pub const CHAIN_SIZE: usize = 32;

pub open spec fn chain_decoded(c: Chain, b: Seq<u8>, p: int, n: u8) -> bool {
    &&& c.number == n
    &&& c.steps@.len() == ROWS
    &&& forall|i: int| 0 <= i < ROWS ==> #[trigger] c.steps@[i] == chain_step_at(b, p + 2 * i)
}

impl Chain {
    pub fn from_reader(reader: &mut Reader, number: u8) -> (r: Self)
        requires
            old(reader).position + CHAIN_SIZE <= old(reader).buffer@.len(),
        ensures
            chain_decoded(r, old(reader).buffer@, old(reader).position as int, number),
            final(reader).position == old(reader).position + CHAIN_SIZE,
            final(reader).buffer@ == old(reader).buffer@,
    {
        let ghost b = reader.buffer@;
        let ghost p = reader.position as int;
        let mut steps: Vec<ChainStep> = Vec::new();
        let mut i: usize = 0;
        while i < ROWS
            invariant
                reader.buffer@ == b,
                p + CHAIN_SIZE <= b.len(),
                i <= ROWS,
                reader.position == p + 2 * i,
                steps@.len() == i,
                forall|j: int| 0 <= j < i ==> #[trigger] steps@[j] == chain_step_at(b, p + 2 * j),
            decreases ROWS - i,
        {
            let s = ChainStep::from_reader(reader);
            steps.push(s);
            i += 1;
        }
        Chain { number, steps }
    }
}

/// A table: sixteen rows.
#[derive(Debug)]
pub struct Table {
    pub number: u8,
    pub steps: Vec<TableStep>,
}

pub const TABLE_SIZE: usize = 128;

pub open spec fn table_decoded(t: Table, b: Seq<u8>, p: int, n: u8) -> bool {
    &&& t.number == n
    &&& t.steps@.len() == ROWS
    &&& forall|i: int| 0 <= i < ROWS ==> #[trigger] t.steps@[i] == table_step_at(b, p + 8 * i)
}

impl Table {
    pub fn from_reader(reader: &mut Reader, number: u8) -> (r: Self)
        requires
            old(reader).position + TABLE_SIZE <= old(reader).buffer@.len(),
        ensures
            table_decoded(r, old(reader).buffer@, old(reader).position as int, number),
            final(reader).position == old(reader).position + TABLE_SIZE,
            final(reader).buffer@ == old(reader).buffer@,
    {
        let ghost b = reader.buffer@;
        let ghost p = reader.position as int;
        let mut steps: Vec<TableStep> = Vec::new();
        let mut i: usize = 0;
        while i < ROWS
            invariant
                reader.buffer@ == b,
                p + TABLE_SIZE <= b.len(),
                i <= ROWS,
                reader.position == p + 8 * i,
                steps@.len() == i,
                forall|j: int| 0 <= j < i ==> #[trigger] steps@[j] == table_step_at(b, p + 8 * j),
            decreases ROWS - i,
        {
            let s = TableStep::from_reader(reader);
            steps.push(s);
            i += 1;
        }
        Table { number, steps }
    }
}

/// A groove: sixteen step lengths in ticks; 0xFF ends the active part.
#[derive(Debug)]
pub struct Groove {
    pub number: u8,
    pub steps: Vec<u8>,
}

pub const GROOVE_SIZE: usize = 16;

pub open spec fn groove_decoded(g: Groove, b: Seq<u8>, p: int, n: u8) -> bool {
    g.number == n && g.steps@ == b.subrange(p, p + 16)
}

/// Index of the first 0xFF at or after `k`, or the length when there is none.
pub open spec fn active_end_from(s: Seq<u8>, k: int) -> int
    decreases s.len() - k,
{
    if k >= s.len() || k < 0 {
        s.len() as int
    } else if s[k] == 0xFF {
        k
    } else {
        active_end_from(s, k + 1)
    }
}

/// The active steps of a groove: those before its first 0xFF, or all of them.
pub open spec fn active_steps_of(s: Seq<u8>) -> Seq<u8> {
    s.subrange(0, active_end_from(s, 0))
}

proof fn lemma_active_end_bounds(s: Seq<u8>, k: int)
    requires
        0 <= k <= s.len(),
    ensures
        k <= active_end_from(s, k) <= s.len(),
        forall|j: int| k <= j < active_end_from(s, k) ==> s[j] != 0xFF,
        active_end_from(s, k) < s.len() ==> s[active_end_from(s, k)] == 0xFF,
    decreases s.len() - k,
{
    if k < s.len() && s[k] != 0xFF {
        lemma_active_end_bounds(s, k + 1);
    }
}

/// The active steps of a groove are the steps before its first 0xFF, or all
/// of them when there is none; they are never empty unless the groove's first
/// step is 0xFF (or it has no steps).
pub proof fn lemma_active_steps_nonempty(g: Groove)
    ensures
        active_steps_of(g.steps@).len() <= g.steps@.len(),
        forall|j: int| 0 <= j < active_steps_of(g.steps@).len() ==> active_steps_of(g.steps@)[j]
            != 0xFF,
        (forall|j: int| 0 <= j < g.steps@.len() ==> g.steps@[j] != 0xFF) ==> active_steps_of(
            g.steps@,
        ) == g.steps@,
        g.steps@.len() >= 1 && g.steps@[0] != 0xFF ==> active_steps_of(g.steps@).len() >= 1,
{
    lemma_active_end_bounds(g.steps@, 0);
    assert(g.steps@.subrange(0, g.steps@.len() as int) =~= g.steps@);
}

impl Groove {
    pub fn from_reader(reader: &mut Reader, number: u8) -> (r: Self)
        requires
            old(reader).position + GROOVE_SIZE <= old(reader).buffer@.len(),
        ensures
            groove_decoded(r, old(reader).buffer@, old(reader).position as int, number),
            final(reader).position == old(reader).position + GROOVE_SIZE,
            final(reader).buffer@ == old(reader).buffer@,
    {
        let steps = reader.read_bytes(GROOVE_SIZE);
        Groove { number, steps }
    }

    /// The steps before the first 0xFF, or all of them when there is none.
    pub fn active_steps(&self) -> (r: &[u8])
        ensures
            r@ == active_steps_of(self.steps@),
    {
        proof {
            lemma_active_end_bounds(self.steps@, 0);
        }
        let mut k: usize = 0;
        while k < self.steps.len() && self.steps[k] != 0xFF
            invariant
                k <= self.steps@.len(),
                active_end_from(self.steps@, k as int) == active_end_from(self.steps@, 0),
            decreases self.steps@.len() - k,
        {
            k += 1;
        }
        slice_subrange(self.steps.as_slice(), 0, k)
    }
}

/// The song grid: 256 rows of 8 tracks, each cell a chain or 0xFF.
#[derive(Debug)]
pub struct SongSteps {
    pub steps: Vec<u8>,
}

pub const TRACKS: usize = 8;
pub const SONG_ROWS: usize = 256;
pub const SONG_STEPS_SIZE: usize = 2048;

impl SongSteps {
    pub fn from_reader(reader: &mut Reader) -> (r: Self)
        requires
            old(reader).position + SONG_STEPS_SIZE <= old(reader).buffer@.len(),
        ensures
            r.steps@ == old(reader).buffer@.subrange(
                old(reader).position as int,
                old(reader).position + SONG_STEPS_SIZE,
            ),
            final(reader).position == old(reader).position + SONG_STEPS_SIZE,
            final(reader).buffer@ == old(reader).buffer@,
    {
        let steps = reader.read_bytes(SONG_STEPS_SIZE);
        SongSteps { steps }
    }
}

/// A decoded song.
#[derive(Debug)]
pub struct Song {
    pub version: Version,
    pub directory: String,
    pub transpose: u8,
    /// The tempo, as the bits of a little-endian IEEE-754 single.
    pub tempo_bits: u32,
    pub quantize: u8,
    pub name: String,
    pub key: u8,
    pub song: SongSteps,
    pub phrases: Vec<Phrase>,
    pub chains: Vec<Chain>,
    pub instruments: Vec<Instrument>,
    pub tables: Vec<Table>,
    pub grooves: Vec<Groove>,
    pub scales: Vec<Scale>,
    pub mixer_settings: MixerSettings,
    pub effects_settings: EffectsSettings,
    pub midi_settings: MidiSettings,
    pub midi_mappings: Vec<MidiMapping>,
}

pub const PHRASES: usize = 255;
pub const CHAINS: usize = 255;
pub const TABLES: usize = 256;
pub const INSTRUMENTS: usize = 128;
pub const GROOVES: usize = 32;
pub const SCALES: usize = 16;
pub const MIDI_MAPPINGS: usize = 128;

/// Song size before version 2.5, not counting the version record.
pub const SIZE_PRIOR_TO_2_5: usize = 0x1A970;
/// Song size from version 2.5 on, not counting the version record.
pub const SIZE: usize = 0x1AD09;

pub const DIRECTORY_AT: usize = 14;
pub const TRANSPOSE_AT: usize = 142;
pub const TEMPO_AT: usize = 143;
pub const QUANTIZE_AT: usize = 147;
pub const NAME_AT: usize = 148;
pub const MIDI_SETTINGS_AT: usize = 160;
pub const KEY_AT: usize = 187;
pub const MIXER_SETTINGS_AT: usize = 206;
pub const GROOVES_AT: usize = 238;
pub const SONG_STEPS_AT: usize = 750;
pub const PHRASES_AT: usize = 2798;
pub const CHAINS_AT: usize = 39518;
pub const TABLES_AT: usize = 47678;
pub const INSTRUMENTS_AT: usize = 80446;
pub const EFFECTS_SETTINGS_AT: usize = 0x1A5C1;
pub const MIDI_MAPPINGS_AT: usize = 0x1A5FE;
pub const SCALES_AT: usize = 0x1AA7E;
/// End of the scale table: reading it needs this many bytes.
pub const SCALES_END: usize = SCALES_AT + SCALES * SCALE_SIZE;

pub open spec fn le_u32_at(b: Seq<u8>, p: int) -> u32 {
    (b[p] + 0x100 * b[p + 1] + 0x1_0000 * b[p + 2] + 0x100_0000 * b[p + 3]) as u32
}

/// The buffer is too short for the layout of the version it declares.
pub open spec fn song_too_short(b: Seq<u8>) -> bool {
    b.len() < SIZE_PRIOR_TO_2_5 + VERSION_SIZE || (version_at_least(version_at(b, 0), 2, 5)
        && b.len() < SCALES_END)
}

/// The buffer decodes: long enough, valid text everywhere, known instruments.
pub open spec fn song_decodable(b: Seq<u8>) -> bool {
    &&& !song_too_short(b)
    &&& text_valid_at(b, DIRECTORY_AT as int, 128)
    &&& text_valid_at(b, NAME_AT as int, 12)
    &&& forall|i: int|
        0 <= i < INSTRUMENTS ==> #[trigger] instrument_decodable(b, INSTRUMENTS_AT + 215 * i)
    &&& version_at_least(version_at(b, 0), 2, 5) ==> forall|i: int|
        0 <= i < SCALES ==> #[trigger] scale_decodable(b, SCALES_AT + 42 * i)
}

/// The first error among the first `n` instrument slots.
pub open spec fn instruments_error(b: Seq<u8>, n: int) -> Option<ParseError>
    decreases n,
{
    if n <= 0 {
        None
    } else {
        match instruments_error(b, n - 1) {
            Some(e) => Some(e),
            None => instrument_error(b, INSTRUMENTS_AT + 215 * (n - 1)),
        }
    }
}

/// The first error among the first `n` scale names.
pub open spec fn scales_error(b: Seq<u8>, n: int) -> Option<ParseError>
    decreases n,
{
    if n <= 0 {
        None
    } else {
        match scales_error(b, n - 1) {
            Some(e) => Some(e),
            None => if scale_decodable(b, SCALES_AT + 42 * (n - 1)) {
                None
            } else {
                Some(ParseError::InvalidUtf8((SCALES_AT + 42 * (n - 1) + 26) as usize))
            },
        }
    }
}

/// The error decoding `b` gives, in decode order: the length, the
/// directory, the name, the instrument slots, then the scale names.
pub open spec fn song_error(b: Seq<u8>) -> Option<ParseError> {
    if song_too_short(b) {
        Some(ParseError::TooShort)
    } else if !text_valid_at(b, DIRECTORY_AT as int, 128) {
        Some(ParseError::InvalidUtf8(DIRECTORY_AT))
    } else if !text_valid_at(b, NAME_AT as int, 12) {
        Some(ParseError::InvalidUtf8(NAME_AT))
    } else if instruments_error(b, INSTRUMENTS as int) is Some {
        instruments_error(b, INSTRUMENTS as int)
    } else if version_at_least(version_at(b, 0), 2, 5) {
        scales_error(b, SCALES as int)
    } else {
        None
    }
}

proof fn lemma_instruments_error_stays(b: Seq<u8>, i: int, n: int)
    requires
        0 <= i <= n,
        instruments_error(b, i) is Some,
    ensures
        instruments_error(b, n) == instruments_error(b, i),
    decreases n - i,
{
    if n > i {
        lemma_instruments_error_stays(b, i, n - 1);
    }
}

proof fn lemma_scales_error_stays(b: Seq<u8>, i: int, n: int)
    requires
        0 <= i <= n,
        scales_error(b, i) is Some,
    ensures
        scales_error(b, n) == scales_error(b, i),
    decreases n - i,
{
    if n > i {
        lemma_scales_error_stays(b, i, n - 1);
    }
}

/// The fixed-size tables the sequencer indexes have their sizes.
pub open spec fn song_wf(s: Song) -> bool {
    &&& s.song.steps@.len() == SONG_STEPS_SIZE
    &&& s.grooves@.len() == GROOVES
    &&& forall|i: int| 0 <= i < GROOVES ==> (#[trigger] s.grooves@[i]).steps@.len() == ROWS
    &&& s.phrases@.len() == PHRASES
    &&& forall|i: int| 0 <= i < PHRASES ==> (#[trigger] s.phrases@[i]).steps@.len() == ROWS
    &&& s.chains@.len() == CHAINS
    &&& forall|i: int| 0 <= i < CHAINS ==> (#[trigger] s.chains@[i]).steps@.len() == ROWS
}

/// `s` holds what the buffer `b` encodes.
pub open spec fn song_decoded(s: Song, b: Seq<u8>) -> bool {
    &&& s.version == version_at(b, 0)
    &&& s.directory@ == text_at(b, DIRECTORY_AT as int, 128)
    &&& s.transpose == b[TRANSPOSE_AT as int]
    &&& s.tempo_bits == le_u32_at(b, TEMPO_AT as int)
    &&& s.quantize == b[QUANTIZE_AT as int]
    &&& s.name@ == text_at(b, NAME_AT as int, 12)
    &&& midi_settings_decoded(s.midi_settings, b, MIDI_SETTINGS_AT as int)
    &&& s.key == b[KEY_AT as int]
    &&& mixer_settings_decoded(s.mixer_settings, b, MIXER_SETTINGS_AT as int)
    &&& s.grooves@.len() == GROOVES
    &&& forall|i: int|
        0 <= i < GROOVES ==> groove_decoded(#[trigger] s.grooves@[i], b, GROOVES_AT + 16 * i, i as u8)
    &&& s.song.steps@ == b.subrange(SONG_STEPS_AT as int, SONG_STEPS_AT + SONG_STEPS_SIZE)
    &&& s.phrases@.len() == PHRASES
    &&& forall|i: int|
        0 <= i < PHRASES ==> phrase_decoded(#[trigger] s.phrases@[i], b, PHRASES_AT + 144 * i, i as u8)
    &&& s.chains@.len() == CHAINS
    &&& forall|i: int|
        0 <= i < CHAINS ==> chain_decoded(#[trigger] s.chains@[i], b, CHAINS_AT + 32 * i, i as u8)
    &&& s.tables@.len() == TABLES
    &&& forall|i: int|
        0 <= i < TABLES ==> table_decoded(#[trigger] s.tables@[i], b, TABLES_AT + 128 * i, i as u8)
    &&& s.instruments@.len() == INSTRUMENTS
    &&& forall|i: int|
        0 <= i < INSTRUMENTS ==> instrument_decoded(
            #[trigger] s.instruments@[i],
            b,
            INSTRUMENTS_AT + 215 * i,
            i as u8,
            s.version,
        )
    &&& s.effects_settings == effects_settings_at(b, EFFECTS_SETTINGS_AT as int)
    &&& s.midi_mappings@.len() == MIDI_MAPPINGS
    &&& forall|i: int|
        0 <= i < MIDI_MAPPINGS ==> #[trigger] s.midi_mappings@[i] == midi_mapping_at(
            b,
            MIDI_MAPPINGS_AT + 7 * i,
        )
    &&& s.scales@.len() == SCALES
    &&& version_at_least(s.version, 2, 5) ==> forall|i: int|
        0 <= i < SCALES ==> scale_decoded(#[trigger] s.scales@[i], b, SCALES_AT + 42 * i, i as u8)
    &&& !version_at_least(s.version, 2, 5) ==> forall|i: int|
        0 <= i < SCALES ==> scale_is_chromatic(#[trigger] s.scales@[i], i as u8)
}

impl Song {
    /// Decodes a song file.
    pub fn read(bytes: Vec<u8>) -> (r: Result<Song, ParseError>)
        ensures
            r is Ok <==> song_decodable(bytes@),
            r == Err::<Song, ParseError>(ParseError::TooShort) <==> song_too_short(bytes@),
            r is Ok <==> song_error(bytes@) is None,
            r is Err ==> r == Err::<Song, ParseError>(song_error(bytes@)->Some_0),
            r matches Ok(s) ==> song_decoded(s, bytes@) && song_wf(s),
    {
        let len = bytes.len();
        if len < SIZE_PRIOR_TO_2_5 + VERSION_SIZE {
            return Err(ParseError::TooShort);
        }
        let mut reader = Reader::new(bytes);
        let version = Version::from_reader(&mut reader);
        if version.at_least(2, 5) && len < SCALES_END {
            return Err(ParseError::TooShort);
        }
        let r = Song::from_reader(&mut reader, version);
        proof {
            if r is Ok {
                let s = r->Ok_0;
                assert forall|i: int| 0 <= i < GROOVES implies (#[trigger] s.grooves@[i]).steps@.len() == ROWS by {
                    assert(groove_decoded(s.grooves@[i], reader.buffer@, GROOVES_AT + 16 * i, i as u8));
                }
                assert forall|i: int| 0 <= i < PHRASES implies (#[trigger] s.phrases@[i]).steps@.len() == ROWS by {
                    assert(phrase_decoded(s.phrases@[i], reader.buffer@, PHRASES_AT + 144 * i, i as u8));
                }
                assert forall|i: int| 0 <= i < CHAINS implies (#[trigger] s.chains@[i]).steps@.len() == ROWS by {
                    assert(chain_decoded(s.chains@[i], reader.buffer@, CHAINS_AT + 32 * i, i as u8));
                }
            }
        }
        r
    }

    fn from_reader(reader: &mut Reader, version: Version) -> (r: Result<Song, ParseError>)
        requires
            old(reader).position == VERSION_SIZE,
            !song_too_short(old(reader).buffer@),
            version == version_at(old(reader).buffer@, 0),
        ensures
            r is Ok <==> song_decodable(old(reader).buffer@),
            r != Err::<Song, ParseError>(ParseError::TooShort),
            r is Ok <==> song_error(old(reader).buffer@) is None,
            r is Err ==> r == Err::<Song, ParseError>(song_error(old(reader).buffer@)->Some_0),
            r matches Ok(s) ==> song_decoded(s, old(reader).buffer@),
            final(reader).buffer@ == old(reader).buffer@,
    {
        let ghost b = reader.buffer@;
        let len = reader.buffer.len();
        let directory = reader.read_string(128);
        let transpose = reader.read();
        let t0 = reader.read();
        let t1 = reader.read();
        let t2 = reader.read();
        let t3 = reader.read();
        let tempo_bits: u32 = t0 as u32 + 0x100 * t1 as u32 + 0x1_0000 * t2 as u32 + 0x100_0000
            * t3 as u32;
        let quantize = reader.read();
        let name = reader.read_string(12);
        let midi_settings = MidiSettings::from_reader(reader);
        let key = reader.read();
        reader.skip(18);
        let mixer_settings = MixerSettings::from_reader(reader);
        let directory = match directory {
            Ok(d) => d,
            Err(e) => {
                return Err(e);
            },
        };
        let name = match name {
            Ok(n) => n,
            Err(e) => {
                return Err(e);
            },
        };

        let mut grooves: Vec<Groove> = Vec::new();
        let mut i: usize = 0;
        while i < GROOVES
            invariant
                reader.buffer@ == b,
                b == old(reader).buffer@,
                len == b.len(),
                !song_too_short(b),
                i <= GROOVES,
                reader.position == GROOVES_AT + 16 * i,
                grooves@.len() == i,
                forall|j: int|
                    0 <= j < i ==> groove_decoded(#[trigger] grooves@[j], b, GROOVES_AT + 16 * j, j as u8),
            decreases GROOVES - i,
        {
            grooves.push(Groove::from_reader(reader, i as u8));
            i += 1;
        }
        let song = SongSteps::from_reader(reader);

        let mut phrases: Vec<Phrase> = Vec::new();
        let mut i: usize = 0;
        while i < PHRASES
            invariant
                reader.buffer@ == b,
                b == old(reader).buffer@,
                len == b.len(),
                !song_too_short(b),
                i <= PHRASES,
                reader.position == PHRASES_AT + 144 * i,
                phrases@.len() == i,
                forall|j: int|
                    0 <= j < i ==> phrase_decoded(#[trigger] phrases@[j], b, PHRASES_AT + 144 * j, j as u8),
            decreases PHRASES - i,
        {
            phrases.push(Phrase::from_reader(reader, i as u8));
            i += 1;
        }

        let mut chains: Vec<Chain> = Vec::new();
        let mut i: usize = 0;
        while i < CHAINS
            invariant
                reader.buffer@ == b,
                b == old(reader).buffer@,
                len == b.len(),
                !song_too_short(b),
                i <= CHAINS,
                reader.position == CHAINS_AT + 32 * i,
                chains@.len() == i,
                forall|j: int|
                    0 <= j < i ==> chain_decoded(#[trigger] chains@[j], b, CHAINS_AT + 32 * j, j as u8),
            decreases CHAINS - i,
        {
            chains.push(Chain::from_reader(reader, i as u8));
            i += 1;
        }

        let mut tables: Vec<Table> = Vec::new();
        let mut i: usize = 0;
        while i < TABLES
            invariant
                reader.buffer@ == b,
                b == old(reader).buffer@,
                len == b.len(),
                !song_too_short(b),
                i <= TABLES,
                reader.position == TABLES_AT + 128 * i,
                tables@.len() == i,
                forall|j: int|
                    0 <= j < i ==> table_decoded(#[trigger] tables@[j], b, TABLES_AT + 128 * j, j as u8),
            decreases TABLES - i,
        {
            tables.push(Table::from_reader(reader, i as u8));
            i += 1;
        }

        let mut instruments: Vec<Instrument> = Vec::new();
        let mut i: usize = 0;
        while i < INSTRUMENTS
            invariant
                reader.buffer@ == b,
                b == old(reader).buffer@,
                len == b.len(),
                !song_too_short(b),
                version == version_at(b, 0),
                text_valid_at(b, DIRECTORY_AT as int, 128),
                text_valid_at(b, NAME_AT as int, 12),
                i <= INSTRUMENTS,
                reader.position == INSTRUMENTS_AT + 215 * i,
                instruments@.len() == i,
                forall|j: int| 0 <= j < i ==> #[trigger] instrument_decodable(b, INSTRUMENTS_AT + 215 * j),
                instruments_error(b, i as int) is None,
                forall|j: int|
                    0 <= j < i ==> instrument_decoded(
                        #[trigger] instruments@[j],
                        b,
                        INSTRUMENTS_AT + 215 * j,
                        j as u8,
                        version,
                    ),
            decreases INSTRUMENTS - i,
        {
            match Instrument::from_reader(reader, i as u8, version) {
                Ok(ins) => instruments.push(ins),
                Err(e) => {
                    assert(!instrument_decodable(b, INSTRUMENTS_AT + 215 * i));
                    assert(instruments_error(b, i + 1) == Some(e));
                    proof {
                        lemma_instruments_error_stays(b, i + 1, INSTRUMENTS as int);
                    }
                    return Err(e);
                },
            }
            i += 1;
        }

        reader.skip(3);
        let effects_settings = EffectsSettings::from_reader(reader);
        reader.set_pos(MIDI_MAPPINGS_AT);
        let mut midi_mappings: Vec<MidiMapping> = Vec::new();
        let mut i: usize = 0;
        while i < MIDI_MAPPINGS
            invariant
                reader.buffer@ == b,
                b == old(reader).buffer@,
                len == b.len(),
                !song_too_short(b),
                i <= MIDI_MAPPINGS,
                reader.position == MIDI_MAPPINGS_AT + 7 * i,
                midi_mappings@.len() == i,
                forall|j: int|
                    0 <= j < i ==> #[trigger] midi_mappings@[j] == midi_mapping_at(b, MIDI_MAPPINGS_AT + 7 * j),
            decreases MIDI_MAPPINGS - i,
        {
            midi_mappings.push(MidiMapping::from_reader(reader));
            i += 1;
        }

        let mut scales: Vec<Scale> = Vec::new();
        if version.at_least(2, 5) {
            reader.set_pos(SCALES_AT);
            let mut i: usize = 0;
            while i < SCALES
                invariant
                    reader.buffer@ == b,
                    b == old(reader).buffer@,
                    version == version_at(b, 0),
                    version_at_least(version, 2, 5),
                    text_valid_at(b, DIRECTORY_AT as int, 128),
                    text_valid_at(b, NAME_AT as int, 12),
                    forall|j: int| 0 <= j < INSTRUMENTS ==> #[trigger] instrument_decodable(b, INSTRUMENTS_AT + 215 * j),
                    instruments_error(b, INSTRUMENTS as int) is None,
                    scales_error(b, i as int) is None,
                    len == b.len(),
                    len >= SCALES_END,
                    i <= SCALES,
                    reader.position == SCALES_AT + 42 * i,
                    scales@.len() == i,
                    forall|j: int| 0 <= j < i ==> #[trigger] scale_decodable(b, SCALES_AT + 42 * j),
                    forall|j: int|
                        0 <= j < i ==> scale_decoded(#[trigger] scales@[j], b, SCALES_AT + 42 * j, j as u8),
                decreases SCALES - i,
            {
                match Scale::from_reader(reader, i as u8) {
                    Ok(s) => scales.push(s),
                    Err(e) => {
                        assert(!scale_decodable(b, SCALES_AT + 42 * i));
                        assert(scales_error(b, i + 1) == Some(e));
                        proof {
                            lemma_scales_error_stays(b, i + 1, SCALES as int);
                        }
                        return Err(e);
                    },
                }
                i += 1;
            }
        } else {
            let mut i: usize = 0;
            while i < SCALES
                invariant
                    i <= SCALES,
                    scales@.len() == i,
                    forall|j: int| 0 <= j < i ==> scale_is_chromatic(#[trigger] scales@[j], j as u8),
                decreases SCALES - i,
            {
                scales.push(Scale::chromatic(i as u8));
                i += 1;
            }
        }

        Ok(
            Song {
                version,
                directory,
                transpose,
                tempo_bits,
                quantize,
                name,
                key,
                song,
                phrases,
                chains,
                instruments,
                tables,
                grooves,
                scales,
                mixer_settings,
                effects_settings,
                midi_settings,
                midi_mappings,
            },
        )
    }
}

/// Before version 2.5 nothing at or after the end of the MIDI mapping table
/// is read: two buffers that agree up to there decode alike, whatever
/// follows (the 2.5 scale table included), and give the same error.
pub proof fn lemma_old_versions_read_no_scale_table(b1: Seq<u8>, b2: Seq<u8>, s: Song)
    requires
        b1.len() >= SIZE_PRIOR_TO_2_5 + VERSION_SIZE,
        b2.len() >= SIZE_PRIOR_TO_2_5 + VERSION_SIZE,
        forall|j: int| 0 <= j < SIZE_PRIOR_TO_2_5 + VERSION_SIZE ==> b1[j] == b2[j],
        !version_at_least(version_at(b1, 0), 2, 5),
    ensures
        song_error(b1) == song_error(b2),
        song_decoded(s, b1) <==> song_decoded(s, b2),
{
    let l = (SIZE_PRIOR_TO_2_5 + VERSION_SIZE) as int;
    assert(b1.subrange(0, l) =~= b2.subrange(0, l));
    assert forall|p: int, n: int| 0 <= p && 0 <= n && p + n <= l implies #[trigger] b1.subrange(p, p + n)
        == b2.subrange(p, p + n) by {
        assert(b1.subrange(p, p + n) =~= b2.subrange(p, p + n));
    }
    assert(text_valid_at(b1, DIRECTORY_AT as int, 128) == text_valid_at(b2, DIRECTORY_AT as int, 128));
    assert(text_valid_at(b1, NAME_AT as int, 12) == text_valid_at(b2, NAME_AT as int, 12));
    assert forall|i: int| 0 <= i < INSTRUMENTS implies #[trigger] instrument_error(b1, INSTRUMENTS_AT + 215 * i)
        == instrument_error(b2, INSTRUMENTS_AT + 215 * i) by {
        let p = INSTRUMENTS_AT + 215 * i;
        assert(b1.subrange(p + 1, p + 1 + 12) == b2.subrange(p + 1, p + 1 + 12));
        assert(b1.subrange(p + 0x57, p + 0x57 + 128) == b2.subrange(p + 0x57, p + 0x57 + 128));
    }
    lemma_instruments_error_equal(b1, b2, INSTRUMENTS as int);
    assert(text_at(b1, DIRECTORY_AT as int, 128) == text_at(b2, DIRECTORY_AT as int, 128));
    assert(text_at(b1, NAME_AT as int, 12) == text_at(b2, NAME_AT as int, 12));
    assert forall|i: int| 0 <= i < INSTRUMENTS implies instrument_decoded(
        #[trigger] s.instruments@[i],
        b1,
        INSTRUMENTS_AT + 215 * i,
        i as u8,
        s.version,
    ) == instrument_decoded(s.instruments@[i], b2, INSTRUMENTS_AT + 215 * i, i as u8, s.version) by {
        let p = INSTRUMENTS_AT + 215 * i;
        assert(b1.subrange(p + 1, p + 1 + 12) == b2.subrange(p + 1, p + 1 + 12));
        assert(b1.subrange(p + 0x57, p + 0x57 + 128) == b2.subrange(p + 0x57, p + 0x57 + 128));
    }
    assert forall|i: int| 0 <= i < PHRASES implies phrase_decoded(#[trigger] s.phrases@[i], b1, PHRASES_AT + 144 * i, i as u8)
        == phrase_decoded(s.phrases@[i], b2, PHRASES_AT + 144 * i, i as u8) by {
    }
    assert forall|i: int| 0 <= i < CHAINS implies chain_decoded(#[trigger] s.chains@[i], b1, CHAINS_AT + 32 * i, i as u8)
        == chain_decoded(s.chains@[i], b2, CHAINS_AT + 32 * i, i as u8) by {
    }
    assert forall|i: int| 0 <= i < TABLES implies table_decoded(#[trigger] s.tables@[i], b1, TABLES_AT + 128 * i, i as u8)
        == table_decoded(s.tables@[i], b2, TABLES_AT + 128 * i, i as u8) by {
    }
    assert forall|i: int| 0 <= i < GROOVES implies groove_decoded(#[trigger] s.grooves@[i], b1, GROOVES_AT + 16 * i, i as u8)
        == groove_decoded(s.grooves@[i], b2, GROOVES_AT + 16 * i, i as u8) by {
        let p = GROOVES_AT + 16 * i;
        assert(b1.subrange(p, p + 16) == b2.subrange(p, p + 16));
    }
    assert(b1.subrange(SONG_STEPS_AT as int, SONG_STEPS_AT + SONG_STEPS_SIZE) == b2.subrange(
        SONG_STEPS_AT as int,
        SONG_STEPS_AT + SONG_STEPS_SIZE,
    ));
    assert(b1.subrange(MIDI_SETTINGS_AT + 9, MIDI_SETTINGS_AT + 9 + 8) == b2.subrange(MIDI_SETTINGS_AT + 9, MIDI_SETTINGS_AT + 9 + 8));
    assert(b1.subrange(MIDI_SETTINGS_AT + 17, MIDI_SETTINGS_AT + 17 + 8) == b2.subrange(MIDI_SETTINGS_AT + 17, MIDI_SETTINGS_AT + 17 + 8));
    assert(b1.subrange(MIXER_SETTINGS_AT + 2, MIXER_SETTINGS_AT + 2 + 8) == b2.subrange(MIXER_SETTINGS_AT + 2, MIXER_SETTINGS_AT + 2 + 8));
}

proof fn lemma_instruments_error_equal(b1: Seq<u8>, b2: Seq<u8>, n: int)
    requires
        0 <= n <= INSTRUMENTS,
        forall|i: int| 0 <= i < INSTRUMENTS ==> #[trigger] instrument_error(b1, INSTRUMENTS_AT + 215 * i)
            == instrument_error(b2, INSTRUMENTS_AT + 215 * i),
    ensures
        instruments_error(b1, n) == instruments_error(b2, n),
    decreases n,
{
    if n > 0 {
        lemma_instruments_error_equal(b1, b2, n - 1);
    }
}

} // verus!
