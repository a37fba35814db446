use vstd::prelude::*;
use crate::fx::FXCommand;
use vstd::string::StringExecFns;
use crate::midi_file::{
    MAX_VARIABLE_QUANTITY, MidiFile, MidiFileFormat, MidiFileTrack, NoteMsg, delta_at,
    events_sorted, final_delta, lemma_events_bytes_len, lemma_vlq_len, midi_file_bytes, prev_tick,
    track_encodable, track_ordered,
};
use crate::song::{
    CHAINS, FX, GROOVES, PHRASES, ROWS, SONG_ROWS, Song, Step, TRACKS, active_steps_of,
    song_wf,
};

verus! {

/// Ticks per quarter note of the produced MIDI files.
pub const TICKS_PER_QUARTER_NOTE: u32 = 24;
/// Shortest track length, in ticks: four quarter notes.
pub const MIN_TRACK_TICKS: u32 = 96;
/// The "no note" value of a note byte, and of the sounding note.
pub const NO_NOTE: u8 = 0xFF;
/// The "end of chain" value of a chain step's phrase, and of a song cell.
pub const END_MARK: u8 = 0xFF;

/// Errors raised while replaying a song.
#[derive(PartialEq, Eq, Structural, Debug, Clone, Copy)]
pub enum RenderError {
    /// A groove command names a groove outside the groove table.
    GrooveOutOfRange(u8),
    /// The active groove has no active steps (its first step is 0xFF).
    EmptyGroove(u8),
    /// The selected tracks are not within 1 to 8.
    InvalidTrackRange(usize, usize),
    /// The track's column of the song grid holds no 0xFF from the start row
    /// to the last row, so its walk runs off the grid.
    UnterminatedTrack(u8),
}

/// The replay state of one track.
pub struct PlayState {
    pub ticks: int,
    pub transpose: int,
    pub groove: int,
    pub last_note: u8,
    pub last_note_tick: int,
    pub events: Seq<(u32, NoteMsg)>,
}

/// A chain step's transposition byte, read as a signed 8-bit value.
pub open spec fn signed_byte(b: u8) -> int {
    if b < 128 { b as int } else { b - 256 }
}

/// The MIDI pitch of a note: note, chain transposition and global
/// transposition added, kept to eight bits.
pub open spec fn pitch_of(note: u8, transpose: int, global: i16) -> u8 {
    ((note + transpose + global) % 256) as u8
}

/// Where the sounding note stops: now, or earlier when that exceeds the
/// longest note allowed.
pub open spec fn note_off_tick(s: PlayState, max_len: u32) -> int {
    if s.ticks <= s.last_note_tick + max_len { s.ticks } else { s.last_note_tick + max_len }
}

pub open spec fn note_off_event(s: PlayState, max_len: u32) -> (u32, NoteMsg) {
    (note_off_tick(s, max_len) as u32, NoteMsg::NoteOff { channel: 0, note: s.last_note, velocity: 0 })
}

/// The note events of one row: the sounding note stops, the row's note starts.
pub open spec fn play_note(s: PlayState, step: Step, global: i16, max_len: u32) -> PlayState {
    if step.note.0 == NO_NOTE {
        s
    } else {
        let events = if s.last_note != NO_NOTE {
            s.events.push(note_off_event(s, max_len))
        } else {
            s.events
        };
        let p = pitch_of(step.note.0, s.transpose, global);
        PlayState {
            last_note: p,
            last_note_tick: s.ticks,
            events: events.push(
                (s.ticks as u32, NoteMsg::NoteOn { channel: 0, note: p, velocity: step.velocity }),
            ),
            ..s
        }
    }
}

/// The groove after one FX slot: a groove command selects its groove.
pub open spec fn apply_fx(g: int, fx: FX) -> Result<int, RenderError> {
    if fx.command == FXCommand::GRV {
        if fx.value < GROOVES { Ok(fx.value as int) } else { Err(RenderError::GrooveOutOfRange(fx.value)) }
    } else {
        Ok(g)
    }
}

/// The groove after a row's three FX slots, read in order; the last groove
/// command wins.
pub open spec fn row_groove(g: int, step: Step) -> Result<int, RenderError> {
    match apply_fx(g, step.fx1) {
        Ok(g1) => match apply_fx(g1, step.fx2) {
            Ok(g2) => apply_fx(g2, step.fx3),
            Err(e) => Err(e),
        },
        Err(e) => Err(e),
    }
}

/// The ticks row `row` lasts under groove `g`.
pub open spec fn groove_ticks_of(song: &Song, g: int, row: int) -> int {
    let active = active_steps_of(song.grooves@[g].steps@);
    active[row % (active.len() as int)] as int
}

/// One phrase row: its notes, its groove commands, then time moves on by
/// the active groove's length for the row.
pub open spec fn play_row(song: &Song, s: PlayState, row: int, step: Step, global: i16, max_len: u32) -> Result<PlayState, RenderError> {
    let s1 = play_note(s, step, global, max_len);
    match row_groove(s1.groove, step) {
        Ok(g) => if active_steps_of(song.grooves@[g].steps@).len() == 0 {
            Err(RenderError::EmptyGroove(g as u8))
        } else {
            Ok(PlayState { groove: g, ticks: s1.ticks + groove_ticks_of(song, g, row), ..s1 })
        },
        Err(e) => Err(e),
    }
}

/// The first `n` rows of a phrase.
pub open spec fn play_phrase_rows(song: &Song, s: PlayState, phrase: int, n: int, global: i16, max_len: u32) -> Result<PlayState, RenderError>
    decreases n,
{
    if n <= 0 {
        Ok(s)
    } else {
        match play_phrase_rows(song, s, phrase, n - 1, global, max_len) {
            Ok(t) => play_row(song, t, n - 1, song.phrases@[phrase].steps@[n - 1], global, max_len),
            Err(e) => Err(e),
        }
    }
}

/// A whole phrase.
pub open spec fn play_phrase(song: &Song, s: PlayState, phrase: int, global: i16, max_len: u32) -> Result<PlayState, RenderError> {
    play_phrase_rows(song, s, phrase, ROWS as int, global, max_len)
}

pub open spec fn note_of(m: NoteMsg) -> u8 {
    match m {
        NoteMsg::NoteOn { note, .. } => note,
        NoteMsg::NoteOff { note, .. } => note,
    }
}

pub open spec fn channel_of(m: NoteMsg) -> u8 {
    match m {
        NoteMsg::NoteOn { channel, .. } => channel,
        NoteMsg::NoteOff { channel, .. } => channel,
    }
}

/// If event `j` is a note off, the event before it is the note on of the
/// same pitch and channel, at the same tick or earlier.
pub open spec fn off_follows_on(evs: Seq<(u32, NoteMsg)>, j: int) -> bool {
    evs[j].1 is NoteOff ==> {
        &&& j >= 1
        &&& evs[j - 1].1 is NoteOn
        &&& note_of(evs[j - 1].1) == note_of(evs[j].1)
        &&& channel_of(evs[j - 1].1) == channel_of(evs[j].1)
        &&& evs[j - 1].0 <= evs[j].0
    }
}

/// Every note off comes right after its own note on.
pub open spec fn offs_follow_ons(evs: Seq<(u32, NoteMsg)>) -> bool {
    forall|j: int| 0 <= j < evs.len() ==> #[trigger] off_follows_on(evs, j)
}

/// What holds of the replay state between rows.
pub open spec fn state_inv(s: PlayState) -> bool {
    &&& events_sorted(s.events)
    &&& offs_follow_ons(s.events)
    &&& events_until(s.events, s.ticks)
    &&& s.ticks <= 0xFFFF_FFFF
    &&& 0 <= s.last_note_tick <= s.ticks
    &&& 0 <= s.groove < GROOVES
    &&& s.last_note != NO_NOTE ==> {
        &&& s.events.len() > 0
        &&& s.events.last().0 == s.last_note_tick
        &&& s.events.last().1 is NoteOn
        &&& note_of(s.events.last().1) == s.last_note
        &&& channel_of(s.events.last().1) == 0
    }
}

struct TrackCtx {
    ticks: u32,
    transpose: i16,
    global_transpose: i16,
    max_note_length: u32,
    groove: usize,
    last_note: u8,
    last_note_tick: u32,
    events: Vec<(u32, NoteMsg)>,
}

impl View for TrackCtx {
    type V = PlayState;

    closed spec fn view(&self) -> PlayState {
        PlayState {
            ticks: self.ticks as int,
            transpose: self.transpose as int,
            groove: self.groove as int,
            last_note: self.last_note,
            last_note_tick: self.last_note_tick as int,
            events: self.events@,
        }
    }
}

/// Largest tick count a track can reach: 256 song rows of 16 chain steps
/// of 16 rows of at most 255 ticks.
pub const TICK_LIMIT: u32 = 16_711_680;
pub const PHRASE_TICK_LIMIT: u32 = 4080;
pub const CHAIN_TICK_LIMIT: u32 = 65280;

impl TrackCtx {
    /// The ticks row `step` lasts under the active groove.
    fn groove_ticks(&self, song: &Song, step: usize) -> (r: Result<u32, RenderError>)
        requires
            song_wf(*song),
            self.groove < GROOVES,
        ensures
            r is Err <==> active_steps_of(song.grooves@[self.groove as int].steps@).len() == 0,
            r is Err ==> r == Err::<u32, RenderError>(RenderError::EmptyGroove(self.groove as u8)),
            r matches Ok(t) ==> t == groove_ticks_of(song, self.groove as int, step as int) && t <= 255,
    {
        let steps = song.grooves[self.groove].active_steps();
        if steps.len() == 0 {
            return Err(RenderError::EmptyGroove(self.groove as u8));
        }
        Ok(steps[step % steps.len()] as u32)
    }

    /// Applies the groove commands of a row's FX slots, in order.
    fn change_groove(&mut self, step: &Step) -> (r: Result<(), RenderError>)
        requires
            old(self).groove < GROOVES,
        ensures
            r is Ok <==> row_groove(old(self).groove as int, *step) is Ok,
            r matches Err(e) ==> row_groove(old(self).groove as int, *step) == Err::<int, RenderError>(e),
            r is Ok ==> final(self)@ == (PlayState {
                groove: row_groove(old(self).groove as int, *step)->Ok_0,
                ..old(self)@
            }),
            final(self).groove < GROOVES,
            final(self).ticks == old(self).ticks,
            final(self).max_note_length == old(self).max_note_length,
            final(self).global_transpose == old(self).global_transpose,
    {
        if step.fx1.command == FXCommand::GRV {
            if (step.fx1.value as usize) < GROOVES {
                self.groove = step.fx1.value as usize;
            } else {
                return Err(RenderError::GrooveOutOfRange(step.fx1.value));
            }
        }
        if step.fx2.command == FXCommand::GRV {
            if (step.fx2.value as usize) < GROOVES {
                self.groove = step.fx2.value as usize;
            } else {
                return Err(RenderError::GrooveOutOfRange(step.fx2.value));
            }
        }
        if step.fx3.command == FXCommand::GRV {
            if (step.fx3.value as usize) < GROOVES {
                self.groove = step.fx3.value as usize;
            } else {
                return Err(RenderError::GrooveOutOfRange(step.fx3.value));
            }
        }
        Ok(())
    }

    /// Stops the sounding note, no later than its longest allowed length.
    fn add_note_off(&mut self, at_tick: u32, channel: u8, note: u8)
        ensures
            final(self).events@ == old(self).events@.push(
                (
                    (if at_tick <= old(self).last_note_tick + old(self).max_note_length {
                        at_tick as int
                    } else {
                        old(self).last_note_tick + old(self).max_note_length
                    }) as u32,
                    NoteMsg::NoteOff { channel, note, velocity: 0 },
                ),
            ),
            final(self)@ == (PlayState { events: final(self).events@, ..old(self)@ }),
            final(self).max_note_length == old(self).max_note_length,
            final(self).global_transpose == old(self).global_transpose,
    {
        let cap: u64 = self.last_note_tick as u64 + self.max_note_length as u64;
        let tick: u32 = if at_tick as u64 <= cap { at_tick } else { cap as u32 };
        self.events.push((tick, NoteMsg::NoteOff { channel, note, velocity: 0 }));
    }

    /// Starts a note, transposed by the chain and the global transposition.
    fn add_note_on(&mut self, at_tick: u32, channel: u8, note: u8, velocity: u8)
        ensures
            final(self)@ == (PlayState {
                last_note: pitch_of(note, old(self).transpose as int, old(self).global_transpose),
                last_note_tick: at_tick as int,
                events: old(self).events@.push(
                    (
                        at_tick,
                        NoteMsg::NoteOn {
                            channel,
                            note: pitch_of(note, old(self).transpose as int, old(self).global_transpose),
                            velocity,
                        },
                    ),
                ),
                ..old(self)@
            }),
            final(self).max_note_length == old(self).max_note_length,
            final(self).global_transpose == old(self).global_transpose,
    {
        let sum: i32 = note as i32 + self.transpose as i32 + self.global_transpose as i32;
        let actual = ((sum + 65536) % 256) as u8;
        assert(actual == pitch_of(note, self.transpose as int, self.global_transpose));
        self.last_note_tick = at_tick;
        self.last_note = actual;
        self.events.push((at_tick, NoteMsg::NoteOn { channel, note: actual, velocity }));
        assert(self@.events =~= old(self).events@.push(
            (at_tick, NoteMsg::NoteOn { channel, note: actual, velocity }),
        ));
    }
}

/// Every event is at tick `t` or earlier.
pub open spec fn events_until(evs: Seq<(u32, NoteMsg)>, t: int) -> bool {
    forall|i: int| 0 <= i < evs.len() ==> (#[trigger] evs[i]).0 <= t
}

proof fn lemma_push_event(evs: Seq<(u32, NoteMsg)>, t: int, e: (u32, NoteMsg))
    requires
        events_sorted(evs),
        offs_follow_ons(evs),
        events_until(evs, e.0 as int),
        e.0 <= t,
        e.1 is NoteOff ==> {
            &&& evs.len() >= 1
            &&& evs.last().1 is NoteOn
            &&& note_of(evs.last().1) == note_of(e.1)
            &&& channel_of(evs.last().1) == channel_of(e.1)
            &&& evs.last().0 <= e.0
        },
    ensures
        events_sorted(evs.push(e)),
        offs_follow_ons(evs.push(e)),
        events_until(evs.push(e), t),
{
    let r = evs.push(e);
    assert forall|i: int, j: int| 0 <= i <= j < r.len() implies r[i].0 <= r[j].0 by {
        if j < evs.len() {
            assert(r[i] == evs[i] && r[j] == evs[j]);
        } else if i < j {
            assert(r[i] == evs[i]);
        }
    }
    assert forall|j: int| 0 <= j < r.len() implies #[trigger] off_follows_on(r, j) by {
        if j < evs.len() {
            assert(off_follows_on(evs, j));
            assert(r[j] == evs[j]);
            if j >= 1 {
                assert(r[j - 1] == evs[j - 1]);
            }
        } else if e.1 is NoteOff {
            assert(r[j - 1] == evs.last());
        }
    }
    assert forall|k: int| 0 <= k < r.len() implies (#[trigger] r[k]).0 <= t by {
        if k < evs.len() {
            assert(r[k] == evs[k]);
        }
    }
}

proof fn lemma_events_until_mono(evs: Seq<(u32, NoteMsg)>, t: int, u: int)
    requires
        events_until(evs, t),
        t <= u,
    ensures
        events_until(evs, u),
{
}

/// A row's notes keep the replay state's invariant.
proof fn lemma_play_note_inv(s: PlayState, step: Step, global: i16, max_len: u32)
    requires
        state_inv(s),
    ensures
        state_inv(play_note(s, step, global, max_len)),
        play_note(s, step, global, max_len).ticks == s.ticks,
        play_note(s, step, global, max_len).groove == s.groove,
        play_note(s, step, global, max_len).transpose == s.transpose,
{
    if step.note.0 != NO_NOTE {
        assert(events_until(s.events, s.ticks));
        let mid = if s.last_note != NO_NOTE {
            let off = note_off_event(s, max_len);
            assert(events_until(s.events, off.0 as int)) by {
                assert forall|i: int| 0 <= i < s.events.len() implies (#[trigger] s.events[i]).0 <= off.0 by {
                    assert(s.events[i].0 <= s.events.last().0);
                }
            }
            lemma_push_event(s.events, s.ticks, off);
            s.events.push(off)
        } else {
            s.events
        };
        let r = play_note(s, step, global, max_len);
        lemma_push_event(mid, s.ticks, r.events.last());
        assert(r.events == mid.push(r.events.last()));
    }
}

proof fn lemma_phrase_rows_err(song: &Song, s: PlayState, phrase: int, i: int, n: int, global: i16, max_len: u32)
    requires
        0 <= i <= n,
        play_phrase_rows(song, s, phrase, i, global, max_len) is Err,
    ensures
        play_phrase_rows(song, s, phrase, n, global, max_len) == play_phrase_rows(song, s, phrase, i, global, max_len),
    decreases n - i,
{
    if n > i {
        lemma_phrase_rows_err(song, s, phrase, i, n - 1, global, max_len);
    }
}

/// Emits the note events of one row.
fn collect_step_notes(ctx: &mut TrackCtx, step: Step)
    requires
        state_inv(old(ctx)@),
    ensures
        final(ctx)@ == play_note(old(ctx)@, step, old(ctx).global_transpose, old(ctx).max_note_length),
        state_inv(final(ctx)@),
        final(ctx).max_note_length == old(ctx).max_note_length,
        final(ctx).global_transpose == old(ctx).global_transpose,
{
    let ghost before = ctx@;
    proof {
        lemma_play_note_inv(before, step, ctx.global_transpose, ctx.max_note_length);
    }
    if step.note.0 != NO_NOTE {
        if ctx.last_note != NO_NOTE {
            ctx.add_note_off(ctx.ticks, 0, ctx.last_note);
        }
        ctx.add_note_on(ctx.ticks, 0, step.note.0, step.velocity);
    }
    assert(ctx@.events =~= play_note(before, step, old(ctx).global_transpose, old(ctx).max_note_length).events);
}

/// Replays one phrase row.
fn collect_row_events(song: &Song, row: usize, step: Step, ctx: &mut TrackCtx) -> (r: Result<(), RenderError>)
    requires
        song_wf(*song),
        state_inv(old(ctx)@),
        old(ctx).ticks <= TICK_LIMIT,
    ensures
        r is Ok <==> play_row(song, old(ctx)@, row as int, step, old(ctx).global_transpose, old(ctx).max_note_length) is Ok,
        r matches Err(e) ==> play_row(song, old(ctx)@, row as int, step, old(ctx).global_transpose, old(ctx).max_note_length) == Err::<PlayState, RenderError>(e),
        r is Ok ==> play_row(song, old(ctx)@, row as int, step, old(ctx).global_transpose, old(ctx).max_note_length) == Ok::<PlayState, RenderError>(final(ctx)@),
        r is Ok ==> state_inv(final(ctx)@),
        r is Ok ==> final(ctx).ticks <= old(ctx).ticks + 255,
        r is Ok ==> final(ctx).events@.len() <= old(ctx).events@.len() + 2,
        final(ctx).max_note_length == old(ctx).max_note_length,
        final(ctx).global_transpose == old(ctx).global_transpose,
{
    collect_step_notes(ctx, step);
    let ghost mid = ctx@;
    match ctx.change_groove(&step) {
        Ok(()) => {},
        Err(e) => {
            return Err(e);
        },
    }
    let t = match ctx.groove_ticks(song, row) {
        Ok(t) => t,
        Err(e) => {
            return Err(e);
        },
    };
    ctx.ticks = ctx.ticks + t;
    proof {
        lemma_events_until_mono(mid.events, mid.ticks, ctx.ticks as int);
    }
    Ok(())
}

/// Replays one phrase.
fn collect_phrase_events(phrase_num: u8, song: &Song, ctx: &mut TrackCtx) -> (r: Result<(), RenderError>)
    requires
        song_wf(*song),
        (phrase_num as int) < PHRASES,
        state_inv(old(ctx)@),
        old(ctx).ticks <= TICK_LIMIT - PHRASE_TICK_LIMIT,
    ensures
        r is Ok <==> play_phrase(song, old(ctx)@, phrase_num as int, old(ctx).global_transpose, old(ctx).max_note_length) is Ok,
        r matches Err(e) ==> play_phrase(song, old(ctx)@, phrase_num as int, old(ctx).global_transpose, old(ctx).max_note_length) == Err::<PlayState, RenderError>(e),
        r is Ok ==> play_phrase(song, old(ctx)@, phrase_num as int, old(ctx).global_transpose, old(ctx).max_note_length) == Ok::<PlayState, RenderError>(final(ctx)@),
        r is Ok ==> state_inv(final(ctx)@),
        r is Ok ==> final(ctx).ticks <= old(ctx).ticks + PHRASE_TICK_LIMIT,
        r is Ok ==> final(ctx).events@.len() <= old(ctx).events@.len() + 32,
        final(ctx).max_note_length == old(ctx).max_note_length,
        final(ctx).global_transpose == old(ctx).global_transpose,
{
    let ghost s0 = ctx@;
    let ghost global = ctx.global_transpose;
    let ghost max_len = ctx.max_note_length;
    let phrase = &song.phrases[phrase_num as usize];
    let mut i: usize = 0;
    while i < ROWS
        invariant
            song_wf(*song),
            (phrase_num as int) < PHRASES,
            *phrase == song.phrases@[phrase_num as int],
            s0 == old(ctx)@,
            global == old(ctx).global_transpose,
            max_len == old(ctx).max_note_length,
            ctx.global_transpose == global,
            ctx.max_note_length == max_len,
            i <= ROWS,
            play_phrase_rows(song, s0, phrase_num as int, i as int, global, max_len) == Ok::<PlayState, RenderError>(ctx@),
            state_inv(ctx@),
            ctx.ticks <= s0.ticks + 255 * i,
            ctx.events@.len() <= s0.events.len() + 2 * i,
            s0.ticks <= TICK_LIMIT - PHRASE_TICK_LIMIT,
        decreases ROWS - i,
    {
        let step = phrase.steps[i];
        let ghost before = ctx@;
        assert(step == song.phrases@[phrase_num as int].steps@[i as int]);
        match collect_row_events(song, i, step, ctx) {
            Ok(()) => {},
            Err(e) => {
                assert(play_row(song, before, i as int, step, global, max_len) == Err::<PlayState, RenderError>(e));
                assert(play_phrase_rows(song, s0, phrase_num as int, i + 1, global, max_len) == Err::<PlayState, RenderError>(e));
                proof {
                    lemma_phrase_rows_err(song, s0, phrase_num as int, i + 1, ROWS as int, global, max_len);
                }
                return Err(e);
            },
        }
        i += 1;
    }
    Ok(())
}

/// The number of live steps of a chain from `k` on: up to its first step
/// whose phrase is 0xFF, or all of them.
pub open spec fn chain_end_from(steps: Seq<crate::song::ChainStep>, k: int) -> int
    decreases steps.len() - k,
{
    if k >= steps.len() || k < 0 {
        steps.len() as int
    } else if steps[k].phrase == END_MARK {
        k
    } else {
        chain_end_from(steps, k + 1)
    }
}

/// The first `n` steps of a chain: each sets the transposition, then plays its phrase.
pub open spec fn play_chain_steps(song: &Song, s: PlayState, chain: int, n: int, global: i16, max_len: u32) -> Result<PlayState, RenderError>
    decreases n,
{
    if n <= 0 {
        Ok(s)
    } else {
        match play_chain_steps(song, s, chain, n - 1, global, max_len) {
            Ok(t) => {
                let cs = song.chains@[chain].steps@[n - 1];
                play_phrase(song, PlayState { transpose: signed_byte(cs.transpose), ..t }, cs.phrase as int, global, max_len)
            },
            Err(e) => Err(e),
        }
    }
}

/// A chain, up to its first empty step.
pub open spec fn play_chain(song: &Song, s: PlayState, chain: int, global: i16, max_len: u32) -> Result<PlayState, RenderError> {
    play_chain_steps(song, s, chain, chain_end_from(song.chains@[chain].steps@, 0), global, max_len)
}

/// The first song row at or after `r` whose cell for `track` is empty, or
/// the end of the grid.
pub open spec fn song_end_from(grid: Seq<u8>, track: int, r: int) -> int
    decreases SONG_ROWS - r,
{
    if r >= SONG_ROWS || r < 0 {
        SONG_ROWS as int
    } else if grid[r * 8 + track] == END_MARK {
        r
    } else {
        song_end_from(grid, track, r + 1)
    }
}

/// The `n` song rows of `track` from row `start` on, each a chain.
pub open spec fn play_song_rows(song: &Song, s: PlayState, track: int, start: int, n: int, global: i16, max_len: u32) -> Result<PlayState, RenderError>
    decreases n,
{
    if n <= 0 {
        Ok(s)
    } else {
        match play_song_rows(song, s, track, start, n - 1, global, max_len) {
            Ok(t) => play_chain(song, t, song.song.steps@[(start + n - 1) * 8 + track] as int, global, max_len),
            Err(e) => Err(e),
        }
    }
}

/// The state a track starts in: no time, no note, the first groove.
pub open spec fn initial_state() -> PlayState {
    PlayState { ticks: 0, transpose: 0, groove: 0, last_note: NO_NOTE, last_note_tick: 0, events: seq![] }
}

/// The replay of `track` (0 to 7) from song row `start`.
/// A column with no 0xFF from `start` on fails once its rows are played.
pub open spec fn play_track(song: &Song, track: int, start: int, global: i16, max_len: u32) -> Result<PlayState, RenderError> {
    let end = song_end_from(song.song.steps@, track, start);
    match play_song_rows(song, initial_state(), track, start, end - start, global, max_len) {
        Ok(s) => if end >= SONG_ROWS {
            Err(RenderError::UnterminatedTrack(track as u8))
        } else {
            Ok(s)
        },
        Err(e) => Err(e),
    }
}

/// The events of a finished track: a sounding note is stopped at the end.
pub open spec fn closing_events(s: PlayState, max_len: u32) -> Seq<(u32, NoteMsg)> {
    if s.last_note != NO_NOTE { s.events.push(note_off_event(s, max_len)) } else { s.events }
}

/// A track lasts at least four quarter notes.
pub open spec fn track_length(s: PlayState) -> int {
    if s.ticks > MIN_TRACK_TICKS { s.ticks } else { MIN_TRACK_TICKS as int }
}

/// The name of track `track` (0 to 7): "Track 1" to "Track 8".
pub open spec fn track_name(track: int) -> Seq<char> {
    if track == 0 { "Track 1"@ }
    else if track == 1 { "Track 2"@ }
    else if track == 2 { "Track 3"@ }
    else if track == 3 { "Track 4"@ }
    else if track == 4 { "Track 5"@ }
    else if track == 5 { "Track 6"@ }
    else if track == 6 { "Track 7"@ }
    else { "Track 8"@ }
}

/// `t` is the MIDI track of `track`'s replay.
pub open spec fn track_rendered(t: MidiFileTrack, song: &Song, track: int, start: int, global: i16, max_len: u32) -> bool {
    match play_track(song, track, start, global, max_len) {
        Ok(s) => {
            &&& t.events@ == closing_events(s, max_len)
            &&& t.n_ticks == track_length(s)
            &&& t.name matches Some(n) && n@ == track_name(track)
        },
        Err(_) => false,
    }
}

proof fn lemma_chain_end_bounds(steps: Seq<crate::song::ChainStep>, k: int)
    requires
        0 <= k <= steps.len(),
    ensures
        k <= chain_end_from(steps, k) <= steps.len(),
    decreases steps.len() - k,
{
    if k < steps.len() && steps[k].phrase != END_MARK {
        lemma_chain_end_bounds(steps, k + 1);
    }
}

proof fn lemma_song_end_bounds(grid: Seq<u8>, track: int, r: int)
    requires
        0 <= r <= SONG_ROWS,
    ensures
        r <= song_end_from(grid, track, r) <= SONG_ROWS,
    decreases SONG_ROWS - r,
{
    if r < SONG_ROWS && grid[r * 8 + track] != END_MARK {
        lemma_song_end_bounds(grid, track, r + 1);
    }
}

proof fn lemma_chain_steps_err(song: &Song, s: PlayState, chain: int, i: int, n: int, global: i16, max_len: u32)
    requires
        0 <= i <= n,
        play_chain_steps(song, s, chain, i, global, max_len) is Err,
    ensures
        play_chain_steps(song, s, chain, n, global, max_len) == play_chain_steps(song, s, chain, i, global, max_len),
    decreases n - i,
{
    if n > i {
        lemma_chain_steps_err(song, s, chain, i, n - 1, global, max_len);
    }
}

proof fn lemma_song_rows_err(song: &Song, s: PlayState, track: int, start: int, i: int, n: int, global: i16, max_len: u32)
    requires
        0 <= i <= n,
        play_song_rows(song, s, track, start, i, global, max_len) is Err,
    ensures
        play_song_rows(song, s, track, start, n, global, max_len) == play_song_rows(song, s, track, start, i, global, max_len),
    decreases n - i,
{
    if n > i {
        lemma_song_rows_err(song, s, track, start, i, n - 1, global, max_len);
    }
}

/// Replays one chain.
fn collect_chain_events(chain_num: u8, song: &Song, ctx: &mut TrackCtx) -> (r: Result<(), RenderError>)
    requires
        song_wf(*song),
        (chain_num as int) < CHAINS,
        state_inv(old(ctx)@),
        old(ctx).ticks <= TICK_LIMIT - CHAIN_TICK_LIMIT,
    ensures
        r is Ok <==> play_chain(song, old(ctx)@, chain_num as int, old(ctx).global_transpose, old(ctx).max_note_length) is Ok,
        r matches Err(e) ==> play_chain(song, old(ctx)@, chain_num as int, old(ctx).global_transpose, old(ctx).max_note_length) == Err::<PlayState, RenderError>(e),
        r is Ok ==> play_chain(song, old(ctx)@, chain_num as int, old(ctx).global_transpose, old(ctx).max_note_length) == Ok::<PlayState, RenderError>(final(ctx)@),
        r is Ok ==> state_inv(final(ctx)@),
        r is Ok ==> final(ctx).ticks <= old(ctx).ticks + CHAIN_TICK_LIMIT,
        r is Ok ==> final(ctx).events@.len() <= old(ctx).events@.len() + 512,
        final(ctx).max_note_length == old(ctx).max_note_length,
        final(ctx).global_transpose == old(ctx).global_transpose,
{
    let ghost s0 = ctx@;
    let ghost global = ctx.global_transpose;
    let ghost max_len = ctx.max_note_length;
    let chain = &song.chains[chain_num as usize];
    let mut k: usize = 0;
    while k < ROWS && chain.steps[k].phrase != END_MARK
        invariant
            song_wf(*song),
            (chain_num as int) < CHAINS,
            *chain == song.chains@[chain_num as int],
            chain.steps@.len() == ROWS,
            s0 == old(ctx)@,
            global == old(ctx).global_transpose,
            max_len == old(ctx).max_note_length,
            ctx.global_transpose == global,
            ctx.max_note_length == max_len,
            k <= ROWS,
            chain_end_from(chain.steps@, k as int) == chain_end_from(chain.steps@, 0),
            play_chain_steps(song, s0, chain_num as int, k as int, global, max_len) == Ok::<PlayState, RenderError>(ctx@),
            state_inv(ctx@),
            ctx.ticks <= s0.ticks + PHRASE_TICK_LIMIT * k,
            ctx.events@.len() <= s0.events.len() + 32 * k,
            s0.ticks <= TICK_LIMIT - CHAIN_TICK_LIMIT,
        decreases ROWS - k,
    {
        let cs = chain.steps[k];
        let t: i16 = if cs.transpose < 128 { cs.transpose as i16 } else { cs.transpose as i16 - 256 };
        ctx.transpose = t;
        let ghost before = ctx@;
        assert(before == PlayState { transpose: signed_byte(cs.transpose), ..play_chain_steps(song, s0, chain_num as int, k as int, global, max_len)->Ok_0 });
        match collect_phrase_events(cs.phrase, song, ctx) {
            Ok(()) => {},
            Err(e) => {
                assert(play_chain_steps(song, s0, chain_num as int, k + 1, global, max_len) == Err::<PlayState, RenderError>(e));
                proof {
                    lemma_chain_end_bounds(chain.steps@, k + 1);
                    lemma_chain_steps_err(song, s0, chain_num as int, k + 1, chain_end_from(chain.steps@, 0), global, max_len);
                }
                return Err(e);
            },
        }
        k += 1;
    }
    Ok(())
}

/// What a conversion is asked for.
#[derive(Debug)]
pub struct Config {
    /// Added to every note number to give its MIDI pitch.
    pub global_transpose: i16,
    /// The longest note of each track, in ticks.
    pub max_note_length: [u32; 8],
    /// The tracks to convert, numbered from 1.
    pub tracks: std::ops::Range<usize>,
    /// The song row to start from.
    pub start_from: u8,
}

/// A note length no song reaches.
pub const UNBOUNDED_NOTE_LENGTH: u32 = 0x7FFF_FFFF;

impl Default for Config {
    fn default() -> (r: Self)
        ensures
            r.global_transpose == 36,
            forall|i: int| 0 <= i < TRACKS ==> r.max_note_length@[i] == UNBOUNDED_NOTE_LENGTH,
            r.tracks.start == 1,
            r.tracks.end == 9,
            r.start_from == 0,
    {
        Config {
            global_transpose: 36,
            max_note_length: [UNBOUNDED_NOTE_LENGTH; 8],
            tracks: 1..9,
            start_from: 0,
        }
    }
}

/// The name of a track, numbered from 0.
fn track_name_string(track: usize) -> (r: String)
    requires
        track < TRACKS,
    ensures
        r@ == track_name(track as int),
{
    if track == 0 {
        String::from_str("Track 1")
    } else if track == 1 {
        String::from_str("Track 2")
    } else if track == 2 {
        String::from_str("Track 3")
    } else if track == 3 {
        String::from_str("Track 4")
    } else if track == 4 {
        String::from_str("Track 5")
    } else if track == 5 {
        String::from_str("Track 6")
    } else if track == 6 {
        String::from_str("Track 7")
    } else {
        String::from_str("Track 8")
    }
}

/// Replays one track (numbered from 0) into a MIDI track.
pub fn collect_track_events(track: usize, song: &Song, cfg: &Config) -> (r: Result<MidiFileTrack, RenderError>)
    requires
        song_wf(*song),
        track < TRACKS,
    ensures
        r is Ok <==> play_track(song, track as int, cfg.start_from as int, cfg.global_transpose, cfg.max_note_length@[track as int]) is Ok,
        r matches Err(e) ==> play_track(song, track as int, cfg.start_from as int, cfg.global_transpose, cfg.max_note_length@[track as int]) == Err::<PlayState, RenderError>(e),
        r is Ok ==> song_end_from(song.song.steps@, track as int, cfg.start_from as int) < SONG_ROWS,
        r matches Ok(t) ==> {
            &&& track_rendered(t, song, track as int, cfg.start_from as int, cfg.global_transpose, cfg.max_note_length@[track as int])
            &&& track_ordered(t)
            &&& offs_follow_ons(t.events@)
            &&& t.n_ticks >= MIN_TRACK_TICKS
            &&& track_encodable(t)
        },
{
    let global = cfg.global_transpose;
    let max_len = cfg.max_note_length[track];
    let start = cfg.start_from as usize;
    let mut ctx = TrackCtx {
        ticks: 0,
        transpose: 0,
        global_transpose: global,
        max_note_length: max_len,
        groove: 0,
        last_note: NO_NOTE,
        last_note_tick: 0,
        events: Vec::new(),
    };
    assert(ctx@.events =~= seq![]);
    assert(ctx@ == initial_state());
    let ghost grid = song.song.steps@;
    let mut row: usize = start;
    while row < SONG_ROWS && song.song.steps[row * 8 + track] != END_MARK
        invariant
            song_wf(*song),
            grid == song.song.steps@,
            track < TRACKS,
            start <= row <= SONG_ROWS,
            start < SONG_ROWS,
            start == cfg.start_from,
            global == cfg.global_transpose,
            max_len == cfg.max_note_length@[track as int],
            ctx.global_transpose == global,
            ctx.max_note_length == max_len,
            song_end_from(grid, track as int, row as int) == song_end_from(grid, track as int, start as int),
            play_song_rows(song, initial_state(), track as int, start as int, row - start, global, max_len) == Ok::<PlayState, RenderError>(ctx@),
            state_inv(ctx@),
            ctx.ticks <= CHAIN_TICK_LIMIT * (row - start),
            ctx.events@.len() <= 512 * (row - start),
        decreases SONG_ROWS - row,
    {
        let cell = song.song.steps[row * 8 + track];
        match collect_chain_events(cell, song, &mut ctx) {
            Ok(()) => {},
            Err(e) => {
                assert(play_song_rows(song, initial_state(), track as int, start as int, row + 1 - start, global, max_len) == Err::<PlayState, RenderError>(e));
                proof {
                    lemma_song_end_bounds(grid, track as int, row + 1);
                    lemma_song_rows_err(song, initial_state(), track as int, start as int, row + 1 - start, song_end_from(grid, track as int, start as int) - start, global, max_len);
                }
                assert(play_track(song, track as int, start as int, global, max_len) == Err::<PlayState, RenderError>(e));
                return Err(e);
            },
        }
        row += 1;
    }
    if row >= SONG_ROWS {
        return Err(RenderError::UnterminatedTrack(track as u8));
    }
    let ghost last = ctx@;
    if ctx.last_note != NO_NOTE {
        proof {
            assert forall|i: int| 0 <= i < last.events.len() implies (#[trigger] last.events[i]).0 <= note_off_tick(last, max_len) by {
                assert(last.events[i].0 <= last.events.last().0);
            }
            lemma_push_event(last.events, last.ticks, note_off_event(last, max_len));
        }
        ctx.add_note_off(ctx.ticks, 0, ctx.last_note);
    }
    assert(ctx.events@ == closing_events(last, max_len));
    let n_ticks: u32 = if ctx.ticks > MIN_TRACK_TICKS { ctx.ticks } else { MIN_TRACK_TICKS };
    let name = track_name_string(track);
    let t = MidiFileTrack { events: ctx.events, name: Some(name), n_ticks };
    assert(prev_tick(t.events@, t.events@.len() as int) <= t.n_ticks) by {
        if t.events@.len() > 0 {
            assert(t.events@[t.events@.len() - 1].0 <= last.ticks);
        }
    }
    proof {
        lemma_bounded_track_encodable(t);
    }
    Ok(t)
}

/// A track whose events are in order, no later than the longest track, and
/// no more than the most a replay makes, can be written.
proof fn lemma_bounded_track_encodable(t: MidiFileTrack)
    requires
        track_ordered(t),
        t.n_ticks <= TICK_LIMIT,
        t.events@.len() <= 131073,
    ensures
        track_encodable(t),
{
    let evs = t.events@;
    assert forall|i: int| 0 <= i < evs.len() implies delta_at(evs, i) <= MAX_VARIABLE_QUANTITY by {
        assert(evs[i].0 <= evs[evs.len() - 1].0);
    }
    lemma_events_bytes_len(evs, evs.len() as int);
    lemma_vlq_len(final_delta(t) as nat);
}

/// The selected tracks are numbered 1 to 8, or none is selected.
pub open spec fn tracks_valid(cfg: Config) -> bool {
    cfg.tracks.start >= cfg.tracks.end || (1 <= cfg.tracks.start && cfg.tracks.end <= TRACKS + 1)
}

/// `v` holds the MIDI tracks of the selected tracks, in order.
pub open spec fn tracks_rendered(v: Seq<MidiFileTrack>, song: &Song, cfg: Config) -> bool {
    &&& v.len() == (if cfg.tracks.start < cfg.tracks.end { cfg.tracks.end - cfg.tracks.start } else { 0 })
    &&& forall|i: int| 0 <= i < v.len() ==> track_rendered(
        #[trigger] v[i],
        song,
        cfg.tracks.start + i - 1,
        cfg.start_from as int,
        cfg.global_transpose,
        cfg.max_note_length@[cfg.tracks.start + i - 1],
    )
}

/// Every selected track replays without error.
pub open spec fn tracks_playable(song: &Song, cfg: Config) -> bool {
    forall|n: int| cfg.tracks.start <= n < cfg.tracks.end ==> (#[trigger] play_track(
        song,
        n - 1,
        cfg.start_from as int,
        cfg.global_transpose,
        cfg.max_note_length@[n - 1],
    )) is Ok
}

/// Replays the selected tracks.
pub fn song_to_tracks(song: &Song, cfg: &Config) -> (r: Result<Vec<MidiFileTrack>, RenderError>)
    requires
        song_wf(*song),
    ensures
        r is Ok <==> tracks_valid(*cfg) && tracks_playable(song, *cfg),
        !tracks_valid(*cfg) ==> r == Err::<Vec<MidiFileTrack>, RenderError>(
            RenderError::InvalidTrackRange(cfg.tracks.start, cfg.tracks.end),
        ),
        r matches Err(e) ==> (tracks_valid(*cfg) ==> exists|n: int|
            cfg.tracks.start <= n < cfg.tracks.end && #[trigger] play_track(
                song,
                n - 1,
                cfg.start_from as int,
                cfg.global_transpose,
                cfg.max_note_length@[n - 1],
            ) == Err::<PlayState, RenderError>(e)),
        r matches Ok(v) ==> tracks_rendered(v@, song, *cfg),
        r matches Ok(v) ==> forall|i: int| 0 <= i < v@.len() ==> {
            &&& track_ordered(#[trigger] v@[i])
            &&& offs_follow_ons(v@[i].events@)
            &&& v@[i].n_ticks >= MIN_TRACK_TICKS
            &&& track_encodable(v@[i])
        },
{
    let start = cfg.tracks.start;
    let end = cfg.tracks.end;
    if start < end && (start == 0 || end > TRACKS + 1) {
        return Err(RenderError::InvalidTrackRange(start, end));
    }
    let mut out: Vec<MidiFileTrack> = Vec::new();
    let mut n: usize = start;
    while n < end
        invariant
            song_wf(*song),
            start == cfg.tracks.start,
            end == cfg.tracks.end,
            tracks_valid(*cfg),
            start <= n,
            start < end ==> n <= end,
            start >= end ==> n == start,
            start < end ==> 1 <= start,
            out@.len() == n - start,
            forall|k: int| start <= k < n ==> (#[trigger] play_track(
                song,
                k - 1,
                cfg.start_from as int,
                cfg.global_transpose,
                cfg.max_note_length@[k - 1],
            )) is Ok,
            forall|i: int| 0 <= i < out@.len() ==> track_rendered(
                #[trigger] out@[i],
                song,
                start + i - 1,
                cfg.start_from as int,
                cfg.global_transpose,
                cfg.max_note_length@[start + i - 1],
            ),
            forall|i: int| 0 <= i < out@.len() ==> {
                &&& track_ordered(#[trigger] out@[i])
                &&& offs_follow_ons(out@[i].events@)
                &&& out@[i].n_ticks >= MIN_TRACK_TICKS
                &&& track_encodable(out@[i])
            },
        decreases end - n,
    {
        match collect_track_events(n - 1, song, cfg) {
            Ok(t) => {
                out.push(t);
            },
            Err(e) => {
                assert(play_track(
                    song,
                    n - 1,
                    cfg.start_from as int,
                    cfg.global_transpose,
                    cfg.max_note_length@[n - 1],
                ) == Err::<PlayState, RenderError>(e));
                return Err(e);
            },
        }
        n += 1;
    }
    assert(out@.len() == (if start < end { end - start } else { 0 }));
    assert forall|i: int| 0 <= i < out@.len() implies track_rendered(
        #[trigger] out@[i],
        song,
        cfg.tracks.start + i - 1,
        cfg.start_from as int,
        cfg.global_transpose,
        cfg.max_note_length@[cfg.tracks.start + i - 1],
    ) by {
        assert(track_rendered(out@[i], song, start + i - 1, cfg.start_from as int, cfg.global_transpose, cfg.max_note_length@[start + i - 1]));
    }
    Ok(out)
}

/// The division and format of the files this library writes.
pub open spec fn song_file(f: MidiFile, song: &Song, cfg: Config) -> bool {
    &&& f.ticks_per_quarter_note == TICKS_PER_QUARTER_NOTE
    &&& f.format == MidiFileFormat::SimultaniousTracks
    &&& tracks_rendered(f.tracks@, song, cfg)
}

/// Converts a song into the bytes of a MIDI file: one track per selected track.
pub fn song_to_midi(song: &Song, cfg: &Config) -> (r: Result<Vec<u8>, RenderError>)
    requires
        song_wf(*song),
    ensures
        r is Ok <==> tracks_valid(*cfg) && tracks_playable(song, *cfg),
        !tracks_valid(*cfg) ==> r == Err::<Vec<u8>, RenderError>(
            RenderError::InvalidTrackRange(cfg.tracks.start, cfg.tracks.end),
        ),
        r matches Err(e) ==> (tracks_valid(*cfg) ==> exists|n: int|
            cfg.tracks.start <= n < cfg.tracks.end && #[trigger] play_track(
                song,
                n - 1,
                cfg.start_from as int,
                cfg.global_transpose,
                cfg.max_note_length@[n - 1],
            ) == Err::<PlayState, RenderError>(e)),
        r matches Ok(b) ==> exists|f: MidiFile| song_file(f, song, *cfg) && b@ == midi_file_bytes(f),
{
    let tracks = match song_to_tracks(song, cfg) {
        Ok(t) => t,
        Err(e) => {
            return Err(e);
        },
    };
    let f = MidiFile {
        ticks_per_quarter_note: TICKS_PER_QUARTER_NOTE as u16,
        format: MidiFileFormat::SimultaniousTracks,
        tracks,
    };
    assert(f.tracks@.len() <= 0xFFFF);
    assert(song_file(f, song, *cfg));
    assert(forall|i: int| 0 <= i < f.tracks@.len() ==> track_encodable(#[trigger] f.tracks@[i]));
    match f.to_midi() {
        Ok(b) => Ok(b),
        Err(_) => {
            // Every replayed track can be written, so this arm is never taken.
            proof {
                assert(false);
            }
            Err(RenderError::InvalidTrackRange(cfg.tracks.start, cfg.tracks.end))
        },
    }
}

/// A track that plays no note is written as its name, a single end-of-track
/// event one tick past its length, and nothing else; its length is at least
/// four quarter notes.
pub proof fn lemma_silent_track(t: MidiFileTrack, song: &Song, track: int, start: int, global: i16, max_len: u32)
    requires
        track_rendered(t, song, track, start, global, max_len),
        t.events@.len() == 0,
    ensures
        t.n_ticks >= MIN_TRACK_TICKS,
        crate::midi_file::track_body(t) == crate::midi_file::name_meta(t.name)
            + crate::midi_file::vlq_bytes(t.n_ticks as nat + 1) + seq![0xFFu8, 0x2F, 0x00],
{
    crate::midi_file::lemma_empty_track_chunk(t);
}

} // verus!
