use vstd::prelude::*;
use vstd::string::StringExecFns;
use crate::fx::{FXCommand, fx_command_name};
use crate::song::{Chain, ChainStep, FX, Note, Phrase, ROWS, SongSteps, Step, Table, TableStep, TRACKS, Version};

verus! {

/// The lower-case hexadecimal digit of `d`.
pub open spec fn spec_hex_lower(d: u8) -> &'static str {
    if d == 0 {
        "0"
    } else if d == 1 {
        "1"
    } else if d == 2 {
        "2"
    } else if d == 3 {
        "3"
    } else if d == 4 {
        "4"
    } else if d == 5 {
        "5"
    } else if d == 6 {
        "6"
    } else if d == 7 {
        "7"
    } else if d == 8 {
        "8"
    } else if d == 9 {
        "9"
    } else if d == 10 {
        "a"
    } else if d == 11 {
        "b"
    } else if d == 12 {
        "c"
    } else if d == 13 {
        "d"
    } else if d == 14 {
        "e"
    } else {
        "f"
    }
}

pub fn hex_lower(d: u8) -> (r: &'static str)
    ensures
        r == spec_hex_lower(d),
{
    if d == 0 {
        "0"
    } else if d == 1 {
        "1"
    } else if d == 2 {
        "2"
    } else if d == 3 {
        "3"
    } else if d == 4 {
        "4"
    } else if d == 5 {
        "5"
    } else if d == 6 {
        "6"
    } else if d == 7 {
        "7"
    } else if d == 8 {
        "8"
    } else if d == 9 {
        "9"
    } else if d == 10 {
        "a"
    } else if d == 11 {
        "b"
    } else if d == 12 {
        "c"
    } else if d == 13 {
        "d"
    } else if d == 14 {
        "e"
    } else {
        "f"
    }
}

/// The upper-case hexadecimal digit of `d`.
pub open spec fn spec_hex_upper(d: u8) -> &'static str {
    if d == 0 {
        "0"
    } else if d == 1 {
        "1"
    } else if d == 2 {
        "2"
    } else if d == 3 {
        "3"
    } else if d == 4 {
        "4"
    } else if d == 5 {
        "5"
    } else if d == 6 {
        "6"
    } else if d == 7 {
        "7"
    } else if d == 8 {
        "8"
    } else if d == 9 {
        "9"
    } else if d == 10 {
        "A"
    } else if d == 11 {
        "B"
    } else if d == 12 {
        "C"
    } else if d == 13 {
        "D"
    } else if d == 14 {
        "E"
    } else {
        "F"
    }
}

pub fn hex_upper(d: u8) -> (r: &'static str)
    ensures
        r == spec_hex_upper(d),
{
    if d == 0 {
        "0"
    } else if d == 1 {
        "1"
    } else if d == 2 {
        "2"
    } else if d == 3 {
        "3"
    } else if d == 4 {
        "4"
    } else if d == 5 {
        "5"
    } else if d == 6 {
        "6"
    } else if d == 7 {
        "7"
    } else if d == 8 {
        "8"
    } else if d == 9 {
        "9"
    } else if d == 10 {
        "A"
    } else if d == 11 {
        "B"
    } else if d == 12 {
        "C"
    } else if d == 13 {
        "D"
    } else if d == 14 {
        "E"
    } else {
        "F"
    }
}

/// The name of a pitch class (0 is C).
pub open spec fn spec_note_name(d: u8) -> &'static str {
    if d == 0 {
        "C-"
    } else if d == 1 {
        "C#"
    } else if d == 2 {
        "D-"
    } else if d == 3 {
        "D#"
    } else if d == 4 {
        "E-"
    } else if d == 5 {
        "F-"
    } else if d == 6 {
        "F#"
    } else if d == 7 {
        "G-"
    } else if d == 8 {
        "G#"
    } else if d == 9 {
        "A-"
    } else if d == 10 {
        "A#"
    } else {
        "B-"
    }
}

pub fn note_name(d: u8) -> (r: &'static str)
    ensures
        r == spec_note_name(d),
{
    if d == 0 {
        "C-"
    } else if d == 1 {
        "C#"
    } else if d == 2 {
        "D-"
    } else if d == 3 {
        "D#"
    } else if d == 4 {
        "E-"
    } else if d == 5 {
        "F-"
    } else if d == 6 {
        "F#"
    } else if d == 7 {
        "G-"
    } else if d == 8 {
        "G#"
    } else if d == 9 {
        "A-"
    } else if d == 10 {
        "A#"
    } else {
        "B-"
    }
}

/// A byte as two lower-case hexadecimal digits.
pub open spec fn hex2_text(v: u8) -> Seq<char> {
    spec_hex_lower(v / 16)@ + spec_hex_lower(v % 16)@
}

/// A row number in lower-case hexadecimal, without padding.
pub open spec fn row_text(row: u8) -> Seq<char> {
    if row < 16 { spec_hex_lower(row)@ } else { hex2_text(row) }
}

/// A byte in hexadecimal, or "--" for 0xFF.
pub open spec fn byte_or_blank(v: u8) -> Seq<char> {
    if v == 0xFF { "--"@ } else { hex2_text(v) }
}

/// An octave number (1 to 22) in upper-case hexadecimal, without padding.
pub open spec fn octave_text(v: u8) -> Seq<char> {
    if v < 16 { spec_hex_upper(v)@ } else { spec_hex_upper(v / 16)@ + spec_hex_upper(v % 16)@ }
}

/// A note as the tracker shows it: pitch class and octave, or "---".
pub open spec fn note_text(n: Note) -> Seq<char> {
    if n.0 == 0xFF {
        "---"@
    } else {
        spec_note_name(n.0 % 12)@ + octave_text((n.0 / 12 + 1) as u8)
    }
}

/// An FX slot: command name and value, or "---00" when empty.
pub open spec fn fx_text(fx: FX) -> Seq<char> {
    if fx.command == FXCommand::NONE {
        "---00"@
    } else {
        fx_command_name(fx.command)@ + hex2_text(fx.value)
    }
}

pub open spec fn chain_step_text(cs: ChainStep, row: u8) -> Seq<char> {
    if cs.phrase == 0xFF {
        row_text(row) + " -- 00"@
    } else {
        row_text(row) + " "@ + hex2_text(cs.phrase) + " "@ + hex2_text(cs.transpose)
    }
}

pub open spec fn step_text(s: Step, row: u8) -> Seq<char> {
    row_text(row) + " "@ + note_text(s.note) + " "@ + byte_or_blank(s.velocity) + " "@
        + byte_or_blank(s.instrument) + " "@ + fx_text(s.fx1) + " "@ + fx_text(s.fx2) + " "@
        + fx_text(s.fx3)
}

pub open spec fn table_step_text(s: TableStep, row: u8) -> Seq<char> {
    row_text(row) + " "@ + byte_or_blank(s.transpose) + " "@ + byte_or_blank(s.velocity) + " "@
        + fx_text(s.fx1) + " "@ + fx_text(s.fx2) + " "@ + fx_text(s.fx3)
}

/// A song cell followed by a space.
pub open spec fn cell_text(v: u8) -> Seq<char> {
    if v == 0xFF { "-- "@ } else { hex2_text(v) + " "@ }
}

/// The first `n` cells of the song row starting at `start`.
pub open spec fn cells_text(steps: Seq<u8>, start: int, n: int) -> Seq<char>
    decreases n,
{
    if n <= 0 { seq![] } else { cells_text(steps, start, n - 1) + cell_text(steps[start + n - 1]) }
}

pub open spec fn song_row_text(steps: Seq<u8>, row: u8) -> Seq<char> {
    hex2_text(row) + " "@ + cells_text(steps, row * 8, 8)
}

pub open spec fn song_rows_text(steps: Seq<u8>, start: u8, n: int) -> Seq<char>
    decreases n,
{
    if n <= 0 {
        seq![]
    } else {
        song_rows_text(steps, start, n - 1) + song_row_text(steps, (start + n - 1) as u8) + "\n"@
    }
}

pub open spec fn chain_lines(steps: Seq<ChainStep>, n: int) -> Seq<char>
    decreases n,
{
    if n <= 0 { seq![] } else { chain_lines(steps, n - 1) + chain_step_text(steps[n - 1], (n - 1) as u8) + "\n"@ }
}

pub open spec fn phrase_lines(steps: Seq<Step>, n: int) -> Seq<char>
    decreases n,
{
    if n <= 0 { seq![] } else { phrase_lines(steps, n - 1) + step_text(steps[n - 1], (n - 1) as u8) + "\n"@ }
}

pub open spec fn table_lines(steps: Seq<TableStep>, n: int) -> Seq<char>
    decreases n,
{
    if n <= 0 { seq![] } else { table_lines(steps, n - 1) + table_step_text(steps[n - 1], (n - 1) as u8) + "\n"@ }
}

fn push_hex2(s: &mut String, v: u8)
    ensures
        final(s)@ == old(s)@ + hex2_text(v),
{
    s.append(hex_lower(v / 16));
    s.append(hex_lower(v % 16));
    assert(final(s)@ =~= old(s)@ + hex2_text(v));
}

fn push_row(s: &mut String, row: u8)
    ensures
        final(s)@ == old(s)@ + row_text(row),
{
    if row < 16 {
        s.append(hex_lower(row));
    } else {
        push_hex2(s, row);
    }
}

fn push_byte_or_blank(s: &mut String, v: u8)
    ensures
        final(s)@ == old(s)@ + byte_or_blank(v),
{
    if v == 0xFF {
        s.append("--");
    } else {
        push_hex2(s, v);
    }
}

fn push_note(s: &mut String, n: Note)
    ensures
        final(s)@ == old(s)@ + note_text(n),
{
    if n.0 == 0xFF {
        s.append("---");
    } else {
        s.append(note_name(n.0 % 12));
        let oct: u8 = n.0 / 12 + 1;
        if oct < 16 {
            s.append(hex_upper(oct));
        } else {
            s.append(hex_upper(oct / 16));
            s.append(hex_upper(oct % 16));
        }
        assert(final(s)@ =~= old(s)@ + note_text(n));
    }
}

fn push_fx(s: &mut String, fx: FX)
    ensures
        final(s)@ == old(s)@ + fx_text(fx),
{
    if fx.command == FXCommand::NONE {
        s.append("---00");
    } else {
        s.append(fx.command.name());
        push_hex2(s, fx.value);
        assert(final(s)@ =~= old(s)@ + fx_text(fx));
    }
}

impl ChainStep {
    /// The chain screen's line for this step at `row`.
    pub fn print(&self, row: u8) -> (r: String)
        ensures
            r@ == chain_step_text(*self, row),
    {
        let mut s = String::new();
        push_row(&mut s, row);
        if self.phrase == 0xFF {
            s.append(" -- 00");
        } else {
            s.append(" ");
            push_hex2(&mut s, self.phrase);
            s.append(" ");
            push_hex2(&mut s, self.transpose);
        }
        assert(s@ =~= chain_step_text(*self, row));
        s
    }
}

impl Step {
    /// The phrase screen's line for this step at `row`.
    pub fn print(&self, row: u8) -> (r: String)
        ensures
            r@ == step_text(*self, row),
    {
        let mut s = String::new();
        push_row(&mut s, row);
        s.append(" ");
        push_note(&mut s, self.note);
        s.append(" ");
        push_byte_or_blank(&mut s, self.velocity);
        s.append(" ");
        push_byte_or_blank(&mut s, self.instrument);
        s.append(" ");
        push_fx(&mut s, self.fx1);
        s.append(" ");
        push_fx(&mut s, self.fx2);
        s.append(" ");
        push_fx(&mut s, self.fx3);
        assert(s@ =~= step_text(*self, row));
        s
    }
}

impl TableStep {
    /// The table screen's line for this step at `row`.
    pub fn print(&self, row: u8) -> (r: String)
        ensures
            r@ == table_step_text(*self, row),
    {
        let mut s = String::new();
        push_row(&mut s, row);
        s.append(" ");
        push_byte_or_blank(&mut s, self.transpose);
        s.append(" ");
        push_byte_or_blank(&mut s, self.velocity);
        s.append(" ");
        push_fx(&mut s, self.fx1);
        s.append(" ");
        push_fx(&mut s, self.fx2);
        s.append(" ");
        push_fx(&mut s, self.fx3);
        assert(s@ =~= table_step_text(*self, row));
        s
    }
}

impl SongSteps {
    /// The first sixteen rows of the song screen.
    pub fn print_screen(&self) -> (r: String)
        requires
            self.steps@.len() == 2048,
        ensures
            r@ == "   1  2  3  4  5  6  7  8  \n"@ + song_rows_text(self.steps@, 0, 16),
    {
        self.print_screen_from(0)
    }

    /// Sixteen rows of the song screen from row `start`.
    pub fn print_screen_from(&self, start: u8) -> (r: String)
        requires
            self.steps@.len() == 2048,
            start <= 240,
        ensures
            r@ == "   1  2  3  4  5  6  7  8  \n"@ + song_rows_text(self.steps@, start, 16),
    {
        let mut s = String::from_str("   1  2  3  4  5  6  7  8  \n");
        let mut k: u8 = 0;
        while k < 16
            invariant
                self.steps@.len() == 2048,
                start <= 240,
                k <= 16,
                s@ == "   1  2  3  4  5  6  7  8  \n"@ + song_rows_text(self.steps@, start, k as int),
            decreases 16 - k,
        {
            let line = self.print_row(start + k);
            s.append(line.as_str());
            s.append("\n");
            k += 1;
            assert(s@ =~= "   1  2  3  4  5  6  7  8  \n"@ + song_rows_text(self.steps@, start, k as int));
        }
        s
    }

    /// One row of the song screen: its number, then the eight tracks' cells.
    pub fn print_row(&self, row: u8) -> (r: String)
        requires
            self.steps@.len() == 2048,
        ensures
            r@ == song_row_text(self.steps@, row),
    {
        let start: usize = row as usize * TRACKS;
        let mut s = String::new();
        push_hex2(&mut s, row);
        s.append(" ");
        let mut k: usize = 0;
        while k < TRACKS
            invariant
                self.steps@.len() == 2048,
                start == row * 8,
                k <= TRACKS,
                s@ == hex2_text(row) + " "@ + cells_text(self.steps@, start as int, k as int),
            decreases TRACKS - k,
        {
            let v = self.steps[start + k];
            if v == 0xFF {
                s.append("-- ");
            } else {
                push_hex2(&mut s, v);
                s.append(" ");
            }
            k += 1;
            assert(s@ =~= hex2_text(row) + " "@ + cells_text(self.steps@, start as int, k as int));
        }
        s
    }
}

impl Chain {
    /// The chain screen: a header, then one line per step.
    pub fn print_screen(&self) -> (r: String)
        requires
            self.steps@.len() == ROWS,
        ensures
            r@ == "  PH TSP\n"@ + chain_lines(self.steps@, 16),
    {
        let mut s = String::from_str("  PH TSP\n");
        let mut k: usize = 0;
        while k < ROWS
            invariant
                self.steps@.len() == ROWS,
                k <= ROWS,
                s@ == "  PH TSP\n"@ + chain_lines(self.steps@, k as int),
            decreases ROWS - k,
        {
            let line = self.steps[k].print(k as u8);
            s.append(line.as_str());
            s.append("\n");
            k += 1;
            assert(s@ =~= "  PH TSP\n"@ + chain_lines(self.steps@, k as int));
        }
        s
    }
}

impl Phrase {
    /// The phrase screen: a header, then one line per step.
    pub fn print_screen(&self) -> (r: String)
        requires
            self.steps@.len() == ROWS,
        ensures
            r@ == "  N   V  I  FX1   FX2   FX3  \n"@ + phrase_lines(self.steps@, 16),
    {
        let mut s = String::from_str("  N   V  I  FX1   FX2   FX3  \n");
        let mut k: usize = 0;
        while k < ROWS
            invariant
                self.steps@.len() == ROWS,
                k <= ROWS,
                s@ == "  N   V  I  FX1   FX2   FX3  \n"@ + phrase_lines(self.steps@, k as int),
            decreases ROWS - k,
        {
            let line = self.steps[k].print(k as u8);
            s.append(line.as_str());
            s.append("\n");
            k += 1;
            assert(s@ =~= "  N   V  I  FX1   FX2   FX3  \n"@ + phrase_lines(self.steps@, k as int));
        }
        s
    }
}

impl Table {
    /// The table screen: a header, then one line per step.
    pub fn print_screen(&self) -> (r: String)
        requires
            self.steps@.len() == ROWS,
        ensures
            r@ == "  N  V  FX1   FX2   FX3  \n"@ + table_lines(self.steps@, 16),
    {
        let mut s = String::from_str("  N  V  FX1   FX2   FX3  \n");
        let mut k: usize = 0;
        while k < ROWS
            invariant
                self.steps@.len() == ROWS,
                k <= ROWS,
                s@ == "  N  V  FX1   FX2   FX3  \n"@ + table_lines(self.steps@, k as int),
            decreases ROWS - k,
        {
            let line = self.steps[k].print(k as u8);
            s.append(line.as_str());
            s.append("\n");
            k += 1;
            assert(s@ =~= "  N  V  FX1   FX2   FX3  \n"@ + table_lines(self.steps@, k as int));
        }
        s
    }
}

impl Note {
    /// The note as the tracker shows it, such as "C-4" or "---".
    pub fn print(&self) -> (r: String)
        ensures
            r@ == note_text(*self),
    {
        let mut s = String::new();
        push_note(&mut s, *self);
        assert(s@ =~= note_text(*self));
        s
    }
}

impl FX {
    /// The FX slot as the tracker shows it, such as "GRV01" or "---00".
    pub fn print(&self) -> (r: String)
        ensures
            r@ == fx_text(*self),
    {
        let mut s = String::new();
        push_fx(&mut s, *self);
        assert(s@ =~= fx_text(*self));
        s
    }
}

/// A byte in decimal, without padding.
pub open spec fn decimal_text(v: u8) -> Seq<char> {
    if v < 10 {
        spec_hex_lower(v)@
    } else if v < 100 {
        spec_hex_lower(v / 10)@ + spec_hex_lower(v % 10)@
    } else {
        spec_hex_lower(v / 100)@ + spec_hex_lower((v / 10) % 10)@ + spec_hex_lower(v % 10)@
    }
}

fn push_decimal(s: &mut String, v: u8)
    ensures
        final(s)@ == old(s)@ + decimal_text(v),
{
    if v < 10 {
        s.append(hex_lower(v));
    } else if v < 100 {
        s.append(hex_lower(v / 10));
        s.append(hex_lower(v % 10));
    } else {
        s.append(hex_lower(v / 100));
        s.append(hex_lower((v / 10) % 10));
        s.append(hex_lower(v % 10));
    }
    assert(final(s)@ =~= old(s)@ + decimal_text(v));
}

impl Version {
    /// The version as "major.minor.patch".
    pub fn print(&self) -> (r: String)
        ensures
            r@ == decimal_text(self.major) + "."@ + decimal_text(self.minor) + "."@ + decimal_text(
                self.patch,
            ),
    {
        let mut s = String::new();
        push_decimal(&mut s, self.major);
        s.append(".");
        push_decimal(&mut s, self.minor);
        s.append(".");
        push_decimal(&mut s, self.patch);
        assert(s@ =~= decimal_text(self.major) + "."@ + decimal_text(self.minor) + "."@
            + decimal_text(self.patch));
        s
    }
}

} // verus!
