use midi_m8::fx::FXCommand;
use midi_m8::song::{Chain, ChainStep, Note, Phrase, SongSteps, Step, TableStep, Version, FX};

fn fx(command: FXCommand, value: u8) -> FX {
    FX { command, value }
}

#[test]
fn chain_step_lines() {
    assert_eq!(ChainStep { phrase: 0xFF, transpose: 3 }.print(10), "a -- 00");
    assert_eq!(ChainStep { phrase: 0x1A, transpose: 0xFE }.print(2), "2 1a fe");
}

#[test]
fn step_lines() {
    let s = Step {
        note: Note(0x24),
        velocity: 0x7F,
        instrument: 0xFF,
        fx1: fx(FXCommand::GRV, 1),
        fx2: fx(FXCommand::NONE, 0),
        fx3: fx(FXCommand::I8F, 0xAB),
    };
    assert_eq!(s.print(15), "f C-4 7f -- GRV01 ---00 I8Fab");
    let empty = Step {
        note: Note(0xFF),
        velocity: 0xFF,
        instrument: 0,
        fx1: fx(FXCommand::NONE, 0),
        fx2: fx(FXCommand::NONE, 0),
        fx3: fx(FXCommand::NONE, 0),
    };
    assert_eq!(empty.print(0), "0 --- -- 00 ---00 ---00 ---00");
    let high = Step { note: Note(254), ..empty };
    assert_eq!(high.print(1), "1 D-16 -- 00 ---00 ---00 ---00");
}

#[test]
fn table_step_lines() {
    let t = TableStep {
        transpose: 0x0C,
        velocity: 0xFF,
        fx1: fx(FXCommand::ARP, 0x37),
        fx2: fx(FXCommand::NONE, 0),
        fx3: fx(FXCommand::NONE, 0),
    };
    assert_eq!(t.print(3), "3 0c -- ARP37 ---00 ---00");
}

#[test]
fn song_screen() {
    let mut steps = vec![0xFFu8; 2048];
    steps[8] = 0x00;
    steps[9] = 0x2B;
    let s = SongSteps { steps };
    assert_eq!(s.print_row(1), "01 00 2b -- -- -- -- -- -- ");
    let screen = s.print_screen();
    let lines: Vec<&str> = screen.lines().collect();
    assert_eq!(lines.len(), 17);
    assert_eq!(lines[0], "   1  2  3  4  5  6  7  8  ");
    assert_eq!(lines[2], "01 00 2b -- -- -- -- -- -- ");
    assert!(s.print_screen_from(240).starts_with("   1  2  3  4  5  6  7  8  \nf0 "));
}

#[test]
fn chain_and_phrase_screens() {
    let c = Chain { number: 0, steps: vec![ChainStep { phrase: 0xFF, transpose: 0 }; 16] };
    let screen = c.print_screen();
    assert!(screen.starts_with("  PH TSP\n0 -- 00\n1 -- 00\n"));
    assert_eq!(screen.lines().count(), 17);
    let step = Step {
        note: Note(0xFF),
        velocity: 0xFF,
        instrument: 0xFF,
        fx1: fx(FXCommand::NONE, 0),
        fx2: fx(FXCommand::NONE, 0),
        fx3: fx(FXCommand::NONE, 0),
    };
    let p = Phrase { number: 1, steps: vec![step; 16] };
    let screen = p.print_screen();
    assert!(screen.starts_with("  N   V  I  FX1   FX2   FX3  \n0 --- -- -- ---00 ---00 ---00\n"));
}

#[test]
fn note_and_fx_text() {
    assert_eq!(Note(0).print(), "C-1");
    assert_eq!(Note(13).print(), "C#2");
    assert_eq!(Note(0xFF).print(), "---");
    assert_eq!(fx(FXCommand::TPO, 0x7A).print(), "TPO7a");
    assert_eq!(fx(FXCommand::NONE, 0x12).print(), "---00");
}

#[test]
fn version_text() {
    assert_eq!(Version { major: 3, minor: 12, patch: 0 }.print(), "3.12.0");
    assert_eq!(Version { major: 255, minor: 100, patch: 9 }.print(), "255.100.9");
}
