use vstd::prelude::*;
use vstd::utf8::encode_utf8;

verus! {

/// Largest value a MIDI variable-length quantity can carry (four bytes).
pub const MAX_VARIABLE_QUANTITY: u32 = 0x0FFF_FFFF;

/// Errors raised while encoding a MIDI file.
#[derive(PartialEq, Eq, Structural, Debug, Clone, Copy)]
pub enum EncodeError {
    /// Ticks per quarter note above 0x7FFF (SMPTE time division is not supported).
    TicksPerQuarterNoteTooLarge(u16),
    /// A delta time above the four-byte variable-length range.
    VariableQuantityTooLarge(u32),
    /// A track body longer than its 32-bit length field can state.
    TrackTooLong,
}

/// Big-endian bytes of a 32-bit value.
pub open spec fn be_u32(x: u32) -> Seq<u8> {
    seq![
        (x / 0x100_0000) as u8,
        ((x / 0x1_0000) % 0x100) as u8,
        ((x / 0x100) % 0x100) as u8,
        (x % 0x100) as u8,
    ]
}

/// Big-endian bytes of a 16-bit value.
pub open spec fn be_u16(x: u16) -> Seq<u8> {
    seq![(x / 0x100) as u8, (x % 0x100) as u8]
}

/// The continuation bytes that precede the last byte of a variable-length
/// quantity: seven bits each, most significant group first, top bit set.
pub open spec fn vlq_high(x: nat) -> Seq<u8>
    decreases x,
{
    if x == 0 {
        seq![]
    } else {
        vlq_high(x / 128).push((0x80 + x % 128) as u8)
    }
}

/// The MIDI variable-length quantity encoding of `x`.
pub open spec fn vlq_bytes(x: nat) -> Seq<u8> {
    vlq_high(x / 128).push((x % 128) as u8)
}

/// The value read back from a variable-length quantity: seven bits from each byte.
pub open spec fn vlq_value(s: Seq<u8>) -> nat
    decreases s.len(),
{
    if s.len() == 0 {
        0
    } else {
        vlq_value(s.drop_last()) * 128 + (s.last() % 128) as nat
    }
}

/// Every byte but the last carries the continuation bit.
pub open spec fn vlq_well_formed(s: Seq<u8>) -> bool {
    &&& s.len() >= 1
    &&& forall|i: int| 0 <= i < s.len() - 1 ==> s[i] >= 0x80
    &&& s.last() < 0x80
}

proof fn lemma_vlq_high(x: nat)
    ensures
        vlq_value(vlq_high(x)) == x,
        forall|i: int| 0 <= i < vlq_high(x).len() ==> vlq_high(x)[i] >= 0x80,
    decreases x,
{
    if x != 0 {
        lemma_vlq_high(x / 128);
        let h = vlq_high(x);
        assert(h.drop_last() =~= vlq_high(x / 128));
    }
}

/// Decoding the variable-length encoding of any value gives the value back,
/// and the encoding is well formed.
pub proof fn lemma_vlq_round_trip(n: u32)
    ensures
        vlq_value(vlq_bytes(n as nat)) == n,
        vlq_well_formed(vlq_bytes(n as nat)),
{
    lemma_vlq_high(n as nat / 128);
    let s = vlq_bytes(n as nat);
    assert(s.drop_last() =~= vlq_high(n as nat / 128));
}

proof fn lemma_vlq_high_len(x: nat, k: nat)
    requires
        x < pow128(k),
    ensures
        vlq_high(x).len() <= k,
    decreases k,
{
    if x != 0 && k > 0 {
        lemma_vlq_high_len(x / 128, (k - 1) as nat);
    }
}

pub open spec fn pow128(k: nat) -> nat
    decreases k,
{
    if k == 0 { 1 } else { 128 * pow128((k - 1) as nat) }
}

/// A value that fits a variable-length quantity takes at most four bytes.
pub proof fn lemma_vlq_len(x: nat)
    requires
        x <= MAX_VARIABLE_QUANTITY,
    ensures
        vlq_bytes(x).len() <= 4,
{
    assert(pow128(0) == 1);
    assert(pow128(1) == 128);
    assert(pow128(2) == 0x4000);
    assert(pow128(3) == 0x20_0000);
    assert(x / 128 < 0x20_0000) by (nonlinear_arith)
        requires
            x <= 0x0FFF_FFFF,
    ;
    lemma_vlq_high_len(x / 128, 3);
}

/// The events of a track whose deltas fit take at most seven bytes each.
pub proof fn lemma_events_bytes_len(evs: Seq<(u32, NoteMsg)>, n: int)
    requires
        0 <= n <= evs.len(),
        events_sorted(evs),
        forall|i: int| 0 <= i < n ==> delta_at(evs, i) <= MAX_VARIABLE_QUANTITY,
    ensures
        events_bytes(evs, n).len() <= 7 * n,
    decreases n,
{
    if n > 0 {
        lemma_events_bytes_len(evs, n - 1);
        if n > 1 {
            assert(evs[n - 2].0 <= evs[n - 1].0);
        }
        lemma_vlq_len(delta_at(evs, n - 1) as nat);
    }
}

/// Big-endian bytes of a 32-bit value.
pub fn u32_to_bytes(x: u32) -> (r: [u8; 4])
    ensures
        r@ == be_u32(x),
{
    let r = [
        (x / 0x100_0000) as u8,
        ((x / 0x1_0000) % 0x100) as u8,
        ((x / 0x100) % 0x100) as u8,
        (x % 0x100) as u8,
    ];
    assert(r@ =~= be_u32(x));
    r
}

/// Appends the big-endian bytes of a 32-bit value.
pub fn push_u32(x: u32, v: &mut Vec<u8>)
    ensures
        final(v)@ == old(v)@ + be_u32(x),
{
    let b = u32_to_bytes(x);
    v.push(b[0]);
    v.push(b[1]);
    v.push(b[2]);
    v.push(b[3]);
    assert(final(v)@ =~= old(v)@ + be_u32(x));
}

/// Big-endian bytes of a 16-bit value.
pub fn u16_to_bytes(x: u16) -> (r: [u8; 2])
    ensures
        r@ == be_u16(x),
{
    let r = [(x / 0x100) as u8, (x % 0x100) as u8];
    assert(r@ =~= be_u16(x));
    r
}

/// Appends the big-endian bytes of a 16-bit value.
pub fn push_u16(x: u16, v: &mut Vec<u8>)
    ensures
        final(v)@ == old(v)@ + be_u16(x),
{
    let b = u16_to_bytes(x);
    v.push(b[0]);
    v.push(b[1]);
    assert(final(v)@ =~= old(v)@ + be_u16(x));
}

/// Appends `x` as a MIDI variable-length quantity. Values above
/// `MAX_VARIABLE_QUANTITY` are refused and leave `v` unchanged.
pub fn push_vari(x: u32, v: &mut Vec<u8>) -> (r: Result<(), EncodeError>)
    ensures
        x <= MAX_VARIABLE_QUANTITY ==> r is Ok && final(v)@ == old(v)@ + vlq_bytes(x as nat),
        x > MAX_VARIABLE_QUANTITY ==> r == Err::<(), EncodeError>(
            EncodeError::VariableQuantityTooLarge(x),
        ) && final(v)@ == old(v)@,
{
    let ghost x0 = x as nat;
    if x < 0x80 {
        assert(vlq_bytes(x0) =~= seq![x as u8]);
        v.push(x as u8);
    } else if x < 0x4000 {
        assert(vlq_high(x0 / 128 / 128) =~= seq![]);
        assert(vlq_bytes(x0) =~= seq![(0x80 + (x / 128)) as u8, (x % 128) as u8]);
        v.push((0x80 + (x / 128)) as u8);
        v.push((x % 128) as u8);
    } else if x < 0x20_0000 {
        assert(vlq_high(x0 / 128 / 128 / 128) =~= seq![]);
        assert(vlq_high(x0 / 128 / 128) =~= seq![(0x80 + x0 / 128 / 128 % 128) as u8]);
        assert(vlq_bytes(x0) =~= seq![
            (0x80 + (x / 0x4000)) as u8,
            (0x80 + (x / 128) % 128) as u8,
            (x % 128) as u8,
        ]) by {
            assert(x0 / 128 / 128 == x0 / 0x4000);
        }
        v.push((0x80 + (x / 0x4000)) as u8);
        v.push((0x80 + (x / 128) % 128) as u8);
        v.push((x % 128) as u8);
    } else if x <= MAX_VARIABLE_QUANTITY {
        assert(vlq_high(x0 / 128 / 128 / 128 / 128) =~= seq![]);
        assert(vlq_high(x0 / 128 / 128 / 128) =~= seq![(0x80 + x0 / 128 / 128 / 128 % 128) as u8]);
        assert(vlq_high(x0 / 128 / 128) =~= seq![
            (0x80 + x0 / 128 / 128 / 128 % 128) as u8,
            (0x80 + x0 / 128 / 128 % 128) as u8,
        ]);
        assert(vlq_bytes(x0) =~= seq![
            (0x80 + (x / 0x20_0000)) as u8,
            (0x80 + (x / 0x4000) % 128) as u8,
            (0x80 + (x / 128) % 128) as u8,
            (x % 128) as u8,
        ]) by {
            assert(x0 / 128 / 128 == x0 / 0x4000);
            assert(x0 / 128 / 128 / 128 == x0 / 0x20_0000);
        }
        v.push((0x80 + (x / 0x20_0000)) as u8);
        v.push((0x80 + (x / 0x4000) % 128) as u8);
        v.push((0x80 + (x / 128) % 128) as u8);
        v.push((x % 128) as u8);
    } else {
        return Err(EncodeError::VariableQuantityTooLarge(x));
    }
    assert(final(v)@ =~= old(v)@ + vlq_bytes(x0));
    Ok(())
}

/// A channel-voice note message. Channels are numbered from 0.
#[derive(PartialEq, Eq, Structural, Debug, Clone, Copy)]
pub enum NoteMsg {
    NoteOn { channel: u8, note: u8, velocity: u8 },
    NoteOff { channel: u8, note: u8, velocity: u8 },
}

/// A data byte of a MIDI message: values above 127 are capped.
pub open spec fn data_byte(x: u8) -> u8 {
    if x > 127 { 127 } else { x }
}

/// The channel nibble of a status byte: channels from 15 up are the last channel.
pub open spec fn channel_nibble(c: u8) -> u8 {
    if c > 15 { 15 } else { c }
}

/// The wire bytes of a note message: status, note, velocity.
pub open spec fn note_msg_bytes(m: NoteMsg) -> Seq<u8> {
    match m {
        NoteMsg::NoteOn { channel, note, velocity } => seq![
            (0x90 + channel_nibble(channel)) as u8,
            data_byte(note),
            data_byte(velocity),
        ],
        NoteMsg::NoteOff { channel, note, velocity } => seq![
            (0x80 + channel_nibble(channel)) as u8,
            data_byte(note),
            data_byte(velocity),
        ],
    }
}

/// Relies on midi_msg's `MidiMsg::to_midi` for a channel-voice note on or note
/// off: status 0x90 or 0x80 plus the channel (`Channel::from_u8` maps every
/// value from 15 up to the last channel), then note and velocity capped at 127.
#[verifier::external_body]
fn note_msg_to_midi(m: NoteMsg) -> (r: Vec<u8>)
    ensures
        r@ == note_msg_bytes(m),
{
    let msg = match m {
        NoteMsg::NoteOn { channel, note, velocity } => midi_msg::MidiMsg::ChannelVoice {
            channel: midi_msg::Channel::from_u8(channel),
            msg: midi_msg::ChannelVoiceMsg::NoteOn { note, velocity },
        },
        NoteMsg::NoteOff { channel, note, velocity } => midi_msg::MidiMsg::ChannelVoice {
            channel: midi_msg::Channel::from_u8(channel),
            msg: midi_msg::ChannelVoiceMsg::NoteOff { note, velocity },
        },
    };
    msg.to_midi()
}

/// The format code written in the header chunk.
#[derive(PartialEq, Eq, Structural, Debug, Clone, Copy)]
pub enum MidiFileFormat {
    SingleTrack,
    SimultaniousTracks,
    IndependantTracks,
}

pub open spec fn format_code(f: MidiFileFormat) -> u16 {
    match f {
        MidiFileFormat::SingleTrack => 0,
        MidiFileFormat::SimultaniousTracks => 1,
        MidiFileFormat::IndependantTracks => 2,
    }
}

/// One track of a MIDI file.
#[derive(Debug)]
pub struct MidiFileTrack {
    /// Tick/message pairs. Unlike in the file, the ticks are absolute time
    /// since the start of the track, in ascending order.
    pub events: Vec<(u32, NoteMsg)>,
    /// Name of the track.
    pub name: Option<String>,
    /// Length of the track in ticks.
    pub n_ticks: u32,
}

/// The tick of the event before index `i`, or 0 at the start.
pub open spec fn prev_tick(evs: Seq<(u32, NoteMsg)>, i: int) -> u32 {
    if i <= 0 { 0 } else { evs[i - 1].0 }
}

/// Event ticks never decrease.
pub open spec fn events_sorted(evs: Seq<(u32, NoteMsg)>) -> bool {
    forall|i: int, j: int| 0 <= i <= j < evs.len() ==> evs[i].0 <= evs[j].0
}

/// The delta time written before event `i`.
pub open spec fn delta_at(evs: Seq<(u32, NoteMsg)>, i: int) -> int {
    evs[i].0 - prev_tick(evs, i)
}

/// Delta-time and message bytes of the first `n` events.
pub open spec fn events_bytes(evs: Seq<(u32, NoteMsg)>, n: int) -> Seq<u8>
    decreases n,
{
    if n <= 0 {
        seq![]
    } else {
        events_bytes(evs, n - 1) + vlq_bytes(delta_at(evs, n - 1) as nat) + note_msg_bytes(
            evs[n - 1].1,
        )
    }
}

/// The delta time before the end-of-track event: one past the track length.
pub open spec fn final_delta(t: MidiFileTrack) -> int {
    t.n_ticks - prev_tick(t.events@, t.events@.len() as int) + 1
}

/// The events are in order and the track length reaches the last of them.
pub open spec fn track_ordered(t: MidiFileTrack) -> bool {
    events_sorted(t.events@) && prev_tick(t.events@, t.events@.len() as int) <= t.n_ticks
}

/// Every delta time fits in a variable-length quantity.
pub open spec fn track_deltas_fit(t: MidiFileTrack) -> bool {
    &&& forall|i: int| 0 <= i < t.events@.len() ==> delta_at(t.events@, i) <= MAX_VARIABLE_QUANTITY
    &&& final_delta(t) <= MAX_VARIABLE_QUANTITY
}

/// The leading track-name meta event, the name cut to 127 bytes.
pub open spec fn name_meta(name: Option<String>) -> Seq<u8> {
    match name {
        None => seq![],
        Some(s) => {
            let b = encode_utf8(s@);
            let len: int = if b.len() > 127 { 127 } else { b.len() as int };
            seq![0x00u8, 0xFF, 0x03, len as u8] + b.subrange(0, len)
        },
    }
}

/// The body of a track chunk.
pub open spec fn track_body(t: MidiFileTrack) -> Seq<u8> {
    name_meta(t.name) + events_bytes(t.events@, t.events@.len() as int) + vlq_bytes(
        final_delta(t) as nat,
    ) + seq![0xFFu8, 0x2F, 0x00]
}

/// A whole track chunk: tag, length, body.
pub open spec fn track_chunk(t: MidiFileTrack) -> Seq<u8> {
    seq![0x4Du8, 0x54, 0x72, 0x6B] + be_u32(track_body(t).len() as u32) + track_body(t)
}

/// A track can be written: its deltas fit and its body length fits 32 bits.
pub open spec fn track_encodable(t: MidiFileTrack) -> bool {
    track_deltas_fit(t) && track_body(t).len() <= 0xFFFF_FFFF
}

/// A track with no events is written as its name, one end-of-track event
/// one tick past its length, and nothing else.
pub proof fn lemma_empty_track_chunk(t: MidiFileTrack)
    requires
        t.events@.len() == 0,
    ensures
        track_body(t) == name_meta(t.name) + vlq_bytes(t.n_ticks as nat + 1) + seq![0xFFu8, 0x2F, 0x00],
        track_chunk(t) == seq![0x4Du8, 0x54, 0x72, 0x6B] + be_u32(track_body(t).len() as u32) + track_body(t),
        final_delta(t) >= 1,
{
    assert(events_bytes(t.events@, 0) =~= seq![]);
    assert(name_meta(t.name) + seq![] =~= name_meta(t.name));
}

impl MidiFileTrack {
    /// Appends the track chunk to `v`. On error `v` is left as it was.
    pub fn extend_midi(&self, v: &mut Vec<u8>) -> (r: Result<(), EncodeError>)
        requires
            track_ordered(*self),
        ensures
            r is Ok <==> track_encodable(*self),
            r is Ok ==> final(v)@ == old(v)@ + track_chunk(*self),
            r is Err ==> final(v)@ == old(v)@,
            !track_deltas_fit(*self) ==> r matches Err(EncodeError::VariableQuantityTooLarge(_)),
    {
        let mut body: Vec<u8> = Vec::new();
        match &self.name {
            Some(name) => {
                let bytes = name.as_str().as_bytes();
                let len: usize = if bytes.len() > 127 { 127 } else { bytes.len() };
                body.push(0x00);
                body.push(0xFF);
                body.push(0x03);
                body.push(len as u8);
                let mut i: usize = 0;
                while i < len
                    invariant
                        i <= len <= bytes@.len(),
                        len <= 127,
                        body@ == seq![0x00u8, 0xFF, 0x03, len as u8] + bytes@.subrange(0, i as int),
                    decreases len - i,
                {
                    body.push(bytes[i]);
                    i += 1;
                    assert(body@ =~= seq![0x00u8, 0xFF, 0x03, len as u8] + bytes@.subrange(0, i as int));
                }
            },
            None => {},
        }
        assert(body@ =~= name_meta(self.name));
        let ghost evs = self.events@;
        let mut last_tick: u32 = 0;
        let mut k: usize = 0;
        while k < self.events.len()
            invariant
                evs == self.events@,
                track_ordered(*self),
                k <= evs.len(),
                last_tick == prev_tick(evs, k as int),
                body@ == name_meta(self.name) + events_bytes(evs, k as int),
                forall|i: int| 0 <= i < k ==> delta_at(evs, i) <= MAX_VARIABLE_QUANTITY,
            decreases evs.len() - k,
        {
            let (tick, msg) = self.events[k];
            assert(prev_tick(evs, k as int) <= tick) by {
                if k > 0 {
                    assert(evs[k - 1].0 <= evs[k as int].0);
                }
            }
            let delta = tick - last_tick;
            match push_vari(delta, &mut body) {
                Ok(()) => {},
                Err(e) => {
                    assert(delta_at(evs, k as int) > MAX_VARIABLE_QUANTITY);
                    assert(!track_deltas_fit(*self));
                    return Err(e);
                },
            }
            let m = note_msg_to_midi(msg);
            body.extend_from_slice(m.as_slice());
            last_tick = tick;
            k += 1;
            assert(body@ =~= name_meta(self.name) + events_bytes(evs, k as int));
        }
        let end_delta: u64 = self.n_ticks as u64 - last_tick as u64 + 1;
        if end_delta > MAX_VARIABLE_QUANTITY as u64 {
            return Err(EncodeError::VariableQuantityTooLarge(
                if end_delta > 0xFFFF_FFFF { 0xFFFF_FFFF } else { end_delta as u32 },
            ));
        }
        match push_vari(end_delta as u32, &mut body) {
            Ok(()) => {},
            Err(e) => {
                return Err(e);
            },
        }
        body.push(0xFF);
        body.push(0x2F);
        body.push(0x00);
        assert(body@ =~= track_body(*self));
        if body.len() as u64 > 0xFFFF_FFFF {
            return Err(EncodeError::TrackTooLong);
        }
        v.push(0x4D);
        v.push(0x54);
        v.push(0x72);
        v.push(0x6B);
        push_u32(body.len() as u32, v);
        v.extend_from_slice(body.as_slice());
        assert(final(v)@ =~= old(v)@ + track_chunk(*self));
        Ok(())
    }
}

/// A whole MIDI file.
#[derive(Debug)]
pub struct MidiFile {
    pub ticks_per_quarter_note: u16,
    pub format: MidiFileFormat,
    pub tracks: Vec<MidiFileTrack>,
}

/// Largest ticks-per-quarter-note value; above it the field means SMPTE time.
pub const MAX_TICKS_PER_QUARTER_NOTE: u16 = 0x7FFF;

/// The header chunk.
pub open spec fn header_chunk(f: MidiFile) -> Seq<u8> {
    seq![0x4Du8, 0x54, 0x68, 0x64] + be_u32(6) + be_u16(format_code(f.format)) + be_u16(
        f.tracks@.len() as u16,
    ) + be_u16(f.ticks_per_quarter_note)
}

/// The chunks of the first `n` tracks, one after the other.
pub open spec fn track_chunks(tracks: Seq<MidiFileTrack>, n: int) -> Seq<u8>
    decreases n,
{
    if n <= 0 {
        seq![]
    } else {
        track_chunks(tracks, n - 1) + track_chunk(tracks[n - 1])
    }
}

/// The bytes of a whole file.
pub open spec fn midi_file_bytes(f: MidiFile) -> Seq<u8> {
    header_chunk(f) + track_chunks(f.tracks@, f.tracks@.len() as int)
}

/// A file can be written: its division is representable and each track can be written.
pub open spec fn midi_file_encodable(f: MidiFile) -> bool {
    &&& f.ticks_per_quarter_note <= MAX_TICKS_PER_QUARTER_NOTE
    &&& forall|i: int| 0 <= i < f.tracks@.len() ==> track_encodable(#[trigger] f.tracks@[i])
}

/// Each track's events are in order and the track count fits the header.
pub open spec fn midi_file_ordered(f: MidiFile) -> bool {
    &&& f.tracks@.len() <= 0xFFFF
    &&& forall|i: int| 0 <= i < f.tracks@.len() ==> track_ordered(#[trigger] f.tracks@[i])
}

impl MidiFile {
    /// The bytes of the file.
    pub fn to_midi(&self) -> (r: Result<Vec<u8>, EncodeError>)
        requires
            midi_file_ordered(*self),
        ensures
            r is Ok <==> midi_file_encodable(*self),
            r matches Ok(b) ==> b@ == midi_file_bytes(*self),
            self.ticks_per_quarter_note > MAX_TICKS_PER_QUARTER_NOTE ==> r == Err::<
                Vec<u8>,
                EncodeError,
            >(EncodeError::TicksPerQuarterNoteTooLarge(self.ticks_per_quarter_note)),
    {
        let mut r: Vec<u8> = Vec::new();
        match self.extend_midi(&mut r) {
            Ok(()) => {
                assert(r@ =~= midi_file_bytes(*self));
                Ok(r)
            },
            Err(e) => Err(e),
        }
    }

    /// Appends the bytes of the file to `v`. On error `v` is left as it was.
    pub fn extend_midi(&self, v: &mut Vec<u8>) -> (r: Result<(), EncodeError>)
        requires
            midi_file_ordered(*self),
        ensures
            r is Ok <==> midi_file_encodable(*self),
            r is Ok ==> final(v)@ == old(v)@ + midi_file_bytes(*self),
            r is Err ==> final(v)@ == old(v)@,
            self.ticks_per_quarter_note > MAX_TICKS_PER_QUARTER_NOTE ==> r == Err::<
                (),
                EncodeError,
            >(EncodeError::TicksPerQuarterNoteTooLarge(self.ticks_per_quarter_note)),
    {
        if self.ticks_per_quarter_note > MAX_TICKS_PER_QUARTER_NOTE {
            return Err(EncodeError::TicksPerQuarterNoteTooLarge(self.ticks_per_quarter_note));
        }
        let mut out: Vec<u8> = Vec::new();
        out.push(0x4D);
        out.push(0x54);
        out.push(0x68);
        out.push(0x64);
        push_u32(6, &mut out);
        push_u16(
            match self.format {
                MidiFileFormat::SingleTrack => 0,
                MidiFileFormat::SimultaniousTracks => 1,
                MidiFileFormat::IndependantTracks => 2,
            },
            &mut out,
        );
        push_u16(self.tracks.len() as u16, &mut out);
        push_u16(self.ticks_per_quarter_note, &mut out);
        assert(out@ =~= header_chunk(*self));
        let mut k: usize = 0;
        while k < self.tracks.len()
            invariant
                midi_file_ordered(*self),
                self.ticks_per_quarter_note <= MAX_TICKS_PER_QUARTER_NOTE,
                k <= self.tracks@.len(),
                out@ == header_chunk(*self) + track_chunks(self.tracks@, k as int),
                forall|i: int| 0 <= i < k ==> track_encodable(#[trigger] self.tracks@[i]),
            decreases self.tracks@.len() - k,
        {
            assert(track_ordered(self.tracks@[k as int]));
            match self.tracks[k].extend_midi(&mut out) {
                Ok(()) => {},
                Err(e) => {
                    assert(!track_encodable(self.tracks@[k as int]));
                    return Err(e);
                },
            }
            k += 1;
            assert(out@ =~= header_chunk(*self) + track_chunks(self.tracks@, k as int));
        }
        v.extend_from_slice(out.as_slice());
        assert(final(v)@ =~= old(v)@ + midi_file_bytes(*self));
        Ok(())
    }
}

proof fn lemma_multiset_insert(s: Seq<(u32, NoteMsg)>, i: int, e: (u32, NoteMsg))
    requires
        0 <= i <= s.len(),
    ensures
        s.insert(i, e).to_multiset() =~= s.to_multiset().insert(e),
{
    broadcast use vstd::seq_lib::group_to_multiset_ensures;

    let t = s.insert(i, e);
    assert(t.remove(i) =~= s);
    assert(t[i] == e);
    assert(t.to_multiset().remove(e) =~= s.to_multiset());
    assert(t.contains(e));
    assert(t.to_multiset().count(e) > 0);
    assert forall|x: (u32, NoteMsg)| t.to_multiset().count(x) == s.to_multiset().insert(e).count(x) by {
        if x == e {
            assert(t.to_multiset().remove(e).count(e) == t.to_multiset().count(e) - 1);
        } else {
            assert(t.to_multiset().remove(e).count(x) == t.to_multiset().count(x));
        }
    }
}

/// The events at tick `t`, in their order.
pub open spec fn events_at_tick(s: Seq<(u32, NoteMsg)>, t: u32) -> Seq<(u32, NoteMsg)>
    decreases s.len(),
{
    if s.len() == 0 {
        seq![]
    } else {
        events_at_tick(s.drop_last(), t) + (if s.last().0 == t { seq![s.last()] } else { seq![] })
    }
}

proof fn lemma_events_at_tick_insert(s: Seq<(u32, NoteMsg)>, p: int, e: (u32, NoteMsg), t: u32)
    requires
        0 <= p <= s.len(),
        forall|j: int| p <= j < s.len() ==> s[j].0 > e.0,
    ensures
        events_at_tick(s.insert(p, e), t) == (if e.0 == t {
            events_at_tick(s, t).push(e)
        } else {
            events_at_tick(s, t)
        }),
    decreases s.len(),
{
    let r = s.insert(p, e);
    if p == s.len() {
        assert(r.drop_last() =~= s);
        assert(r.last() == e);
        if e.0 == t {
            assert(events_at_tick(s, t) + seq![e] =~= events_at_tick(s, t).push(e));
        } else {
            assert(events_at_tick(s, t) + seq![] =~= events_at_tick(s, t));
        }
    } else {
        assert(r.drop_last() =~= s.drop_last().insert(p, e));
        assert(r.last() == s.last());
        lemma_events_at_tick_insert(s.drop_last(), p, e, t);
        let tail: Seq<(u32, NoteMsg)> = if s.last().0 == t { seq![s.last()] } else { seq![] };
        if e.0 == t {
            assert(s.last().0 > t);
            assert(events_at_tick(s.drop_last(), t).push(e) + tail =~= (events_at_tick(s.drop_last(), t) + tail).push(e));
        }
    }
}

impl MidiFileTrack {
    /// Sorts the events by tick, keeping events of equal ticks in order.
    pub fn sort_events(&mut self)
        ensures
            events_sorted(final(self).events@),
            final(self).events@.to_multiset() == old(self).events@.to_multiset(),
            forall|t: u32| #[trigger] events_at_tick(final(self).events@, t) == events_at_tick(old(self).events@, t),
            final(self).name == old(self).name,
            final(self).n_ticks == old(self).n_ticks,
    {
        broadcast use vstd::seq_lib::group_to_multiset_ensures;

        let ghost evs = self.events@;
        let mut out: Vec<(u32, NoteMsg)> = Vec::new();
        let mut k: usize = 0;
        while k < self.events.len()
            invariant
                self.events@ == evs,
                self.name == old(self).name,
                self.n_ticks == old(self).n_ticks,
                evs == old(self).events@,
                k <= evs.len(),
                events_sorted(out@),
                out@.to_multiset() == evs.subrange(0, k as int).to_multiset(),
                forall|t: u32| #[trigger] events_at_tick(out@, t) == events_at_tick(evs.subrange(0, k as int), t),
            decreases evs.len() - k,
        {
            let e = self.events[k];
            let mut p: usize = out.len();
            while p > 0 && out[p - 1].0 > e.0
                invariant
                    p <= out@.len(),
                    events_sorted(out@),
                    forall|j: int| p <= j < out@.len() ==> out@[j].0 > e.0,
                decreases p,
            {
                p -= 1;
            }
            let ghost before = out@;
            proof {
                lemma_multiset_insert(before, p as int, e);
            }
            out.insert(p, e);
            assert(out@ == before.insert(p as int, e));
            assert forall|t: u32| #[trigger] events_at_tick(out@, t) == events_at_tick(evs.subrange(0, k + 1), t) by {
                lemma_events_at_tick_insert(before, p as int, e, t);
                let sk = evs.subrange(0, k + 1);
                assert(sk.drop_last() =~= evs.subrange(0, k as int));
                assert(sk.last() == e);
                if e.0 == t {
                    assert(events_at_tick(evs.subrange(0, k as int), t) + seq![e] =~= events_at_tick(evs.subrange(0, k as int), t).push(e));
                } else {
                    assert(events_at_tick(evs.subrange(0, k as int), t) + seq![] =~= events_at_tick(evs.subrange(0, k as int), t));
                }
            }
            assert(evs.subrange(0, k + 1) =~= evs.subrange(0, k as int).push(e));
            proof {
                evs.subrange(0, k as int).to_multiset_ensures();
            }
            assert(evs.subrange(0, k as int).push(e).to_multiset() =~= evs.subrange(0, k as int).to_multiset().insert(e));
            assert forall|i: int, j: int| 0 <= i <= j < out@.len() implies out@[i].0 <= out@[j].0 by {
                if i < p && j > p {
                    assert(out@[i] == before[i] && out@[j] == before[j - 1]);
                } else if i < p && j == p {
                    assert(out@[i] == before[i]);
                    assert(before[p - 1].0 <= e.0);
                    assert(before[i].0 <= before[p - 1].0);
                } else if i == p && j > p {
                    assert(out@[j] == before[j - 1]);
                } else if i < p {
                    assert(out@[i] == before[i] && out@[j] == before[j]);
                } else if i > p {
                    assert(out@[i] == before[i - 1] && out@[j] == before[j - 1]);
                }
            }
            k += 1;
        }
        assert(evs.subrange(0, evs.len() as int) =~= evs);
        self.events = out;
    }
}

} // verus!
