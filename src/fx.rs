use vstd::prelude::*;

verus! {

/// The command of a phrase or table FX slot.
#[derive(PartialEq, Eq, Structural, Debug, Clone, Copy)]
pub enum FXCommand {
    // Sequencer commands
    ARP,
    CHA,
    DEL,
    GRV,
    HOP,
    KIL,
    RAN,
    RET,
    REP,
    NTH,
    PSL,
    PSN,
    PVB,
    PVX,
    SCA,
    SCG,
    SED,
    SNG,
    TBL,
    THO,
    TIC,
    TPO,
    TSP,
    // FX and mixer commands
    VMV,
    XCM,
    XCF,
    XCW,
    XCR,
    XDT,
    XDF,
    XDW,
    XDR,
    XRS,
    XRD,
    XRM,
    XRF,
    XRW,
    XRZ,
    VCH,
    VCD,
    VRE,
    VT1,
    VT2,
    VT3,
    VT4,
    VT5,
    VT6,
    VT7,
    VT8,
    DJF,
    IVO,
    ICH,
    IDE,
    IRE,
    IV2,
    IC2,
    ID2,
    IR2,
    USB,
    // Instrument commands
    I00,
    I01,
    I02,
    I03,
    I04,
    I05,
    I06,
    I07,
    I08,
    I09,
    I0A,
    I0B,
    I0C,
    I0D,
    I0E,
    I8F,
    I90,
    I91,
    I92,
    I93,
    I94,
    I95,
    I96,
    I97,
    I98,
    I99,
    I9A,
    I9B,
    I9C,
    I9D,
    I9E,
    I9F,
    IA0,
    IA1,
    IA2,
    /// The empty slot (0xFF).
    NONE,
    /// A command byte that names no known command.
    Unknown(u8),
}

/// The command a byte names.
pub open spec fn fx_command_of(b: u8) -> FXCommand {
    match b {
        0x00 => FXCommand::ARP,
        0x01 => FXCommand::CHA,
        0x02 => FXCommand::DEL,
        0x03 => FXCommand::GRV,
        0x04 => FXCommand::HOP,
        0x05 => FXCommand::KIL,
        0x06 => FXCommand::RAN,
        0x07 => FXCommand::RET,
        0x08 => FXCommand::REP,
        0x09 => FXCommand::NTH,
        0x0A => FXCommand::PSL,
        0x0B => FXCommand::PSN,
        0x0C => FXCommand::PVB,
        0x0D => FXCommand::PVX,
        0x0E => FXCommand::SCA,
        0x0F => FXCommand::SCG,
        0x10 => FXCommand::SED,
        0x11 => FXCommand::SNG,
        0x12 => FXCommand::TBL,
        0x13 => FXCommand::THO,
        0x14 => FXCommand::TIC,
        0x15 => FXCommand::TPO,
        0x16 => FXCommand::TSP,
        0x17 => FXCommand::VMV,
        0x18 => FXCommand::XCM,
        0x19 => FXCommand::XCF,
        0x1A => FXCommand::XCW,
        0x1B => FXCommand::XCR,
        0x1C => FXCommand::XDT,
        0x1D => FXCommand::XDF,
        0x1E => FXCommand::XDW,
        0x1F => FXCommand::XDR,
        0x20 => FXCommand::XRS,
        0x21 => FXCommand::XRD,
        0x22 => FXCommand::XRM,
        0x23 => FXCommand::XRF,
        0x24 => FXCommand::XRW,
        0x25 => FXCommand::XRZ,
        0x26 => FXCommand::VCH,
        0x27 => FXCommand::VCD,
        0x28 => FXCommand::VRE,
        0x29 => FXCommand::VT1,
        0x2A => FXCommand::VT2,
        0x2B => FXCommand::VT3,
        0x2C => FXCommand::VT4,
        0x2D => FXCommand::VT5,
        0x2E => FXCommand::VT6,
        0x2F => FXCommand::VT7,
        0x30 => FXCommand::VT8,
        0x31 => FXCommand::DJF,
        0x32 => FXCommand::IVO,
        0x33 => FXCommand::ICH,
        0x34 => FXCommand::IDE,
        0x35 => FXCommand::IRE,
        0x36 => FXCommand::IV2,
        0x37 => FXCommand::IC2,
        0x38 => FXCommand::ID2,
        0x39 => FXCommand::IR2,
        0x3A => FXCommand::USB,
        0x80 => FXCommand::I00,
        0x81 => FXCommand::I01,
        0x82 => FXCommand::I02,
        0x83 => FXCommand::I03,
        0x84 => FXCommand::I04,
        0x85 => FXCommand::I05,
        0x86 => FXCommand::I06,
        0x87 => FXCommand::I07,
        0x88 => FXCommand::I08,
        0x89 => FXCommand::I09,
        0x8A => FXCommand::I0A,
        0x8B => FXCommand::I0B,
        0x8C => FXCommand::I0C,
        0x8D => FXCommand::I0D,
        0x8E => FXCommand::I0E,
        0x8F => FXCommand::I8F,
        0x90 => FXCommand::I90,
        0x91 => FXCommand::I91,
        0x92 => FXCommand::I92,
        0x93 => FXCommand::I93,
        0x94 => FXCommand::I94,
        0x95 => FXCommand::I95,
        0x96 => FXCommand::I96,
        0x97 => FXCommand::I97,
        0x98 => FXCommand::I98,
        0x99 => FXCommand::I99,
        0x9A => FXCommand::I9A,
        0x9B => FXCommand::I9B,
        0x9C => FXCommand::I9C,
        0x9D => FXCommand::I9D,
        0x9E => FXCommand::I9E,
        0x9F => FXCommand::I9F,
        0xA0 => FXCommand::IA0,
        0xA1 => FXCommand::IA1,
        0xA2 => FXCommand::IA2,
        0xFF => FXCommand::NONE,
        _ => FXCommand::Unknown(b),
    }
}

/// The byte of a command.
pub open spec fn fx_command_byte(c: FXCommand) -> u8 {
    match c {
        FXCommand::ARP => 0x00,
        FXCommand::CHA => 0x01,
        FXCommand::DEL => 0x02,
        FXCommand::GRV => 0x03,
        FXCommand::HOP => 0x04,
        FXCommand::KIL => 0x05,
        FXCommand::RAN => 0x06,
        FXCommand::RET => 0x07,
        FXCommand::REP => 0x08,
        FXCommand::NTH => 0x09,
        FXCommand::PSL => 0x0A,
        FXCommand::PSN => 0x0B,
        FXCommand::PVB => 0x0C,
        FXCommand::PVX => 0x0D,
        FXCommand::SCA => 0x0E,
        FXCommand::SCG => 0x0F,
        FXCommand::SED => 0x10,
        FXCommand::SNG => 0x11,
        FXCommand::TBL => 0x12,
        FXCommand::THO => 0x13,
        FXCommand::TIC => 0x14,
        FXCommand::TPO => 0x15,
        FXCommand::TSP => 0x16,
        FXCommand::VMV => 0x17,
        FXCommand::XCM => 0x18,
        FXCommand::XCF => 0x19,
        FXCommand::XCW => 0x1A,
        FXCommand::XCR => 0x1B,
        FXCommand::XDT => 0x1C,
        FXCommand::XDF => 0x1D,
        FXCommand::XDW => 0x1E,
        FXCommand::XDR => 0x1F,
        FXCommand::XRS => 0x20,
        FXCommand::XRD => 0x21,
        FXCommand::XRM => 0x22,
        FXCommand::XRF => 0x23,
        FXCommand::XRW => 0x24,
        FXCommand::XRZ => 0x25,
        FXCommand::VCH => 0x26,
        FXCommand::VCD => 0x27,
        FXCommand::VRE => 0x28,
        FXCommand::VT1 => 0x29,
        FXCommand::VT2 => 0x2A,
        FXCommand::VT3 => 0x2B,
        FXCommand::VT4 => 0x2C,
        FXCommand::VT5 => 0x2D,
        FXCommand::VT6 => 0x2E,
        FXCommand::VT7 => 0x2F,
        FXCommand::VT8 => 0x30,
        FXCommand::DJF => 0x31,
        FXCommand::IVO => 0x32,
        FXCommand::ICH => 0x33,
        FXCommand::IDE => 0x34,
        FXCommand::IRE => 0x35,
        FXCommand::IV2 => 0x36,
        FXCommand::IC2 => 0x37,
        FXCommand::ID2 => 0x38,
        FXCommand::IR2 => 0x39,
        FXCommand::USB => 0x3A,
        FXCommand::I00 => 0x80,
        FXCommand::I01 => 0x81,
        FXCommand::I02 => 0x82,
        FXCommand::I03 => 0x83,
        FXCommand::I04 => 0x84,
        FXCommand::I05 => 0x85,
        FXCommand::I06 => 0x86,
        FXCommand::I07 => 0x87,
        FXCommand::I08 => 0x88,
        FXCommand::I09 => 0x89,
        FXCommand::I0A => 0x8A,
        FXCommand::I0B => 0x8B,
        FXCommand::I0C => 0x8C,
        FXCommand::I0D => 0x8D,
        FXCommand::I0E => 0x8E,
        FXCommand::I8F => 0x8F,
        FXCommand::I90 => 0x90,
        FXCommand::I91 => 0x91,
        FXCommand::I92 => 0x92,
        FXCommand::I93 => 0x93,
        FXCommand::I94 => 0x94,
        FXCommand::I95 => 0x95,
        FXCommand::I96 => 0x96,
        FXCommand::I97 => 0x97,
        FXCommand::I98 => 0x98,
        FXCommand::I99 => 0x99,
        FXCommand::I9A => 0x9A,
        FXCommand::I9B => 0x9B,
        FXCommand::I9C => 0x9C,
        FXCommand::I9D => 0x9D,
        FXCommand::I9E => 0x9E,
        FXCommand::I9F => 0x9F,
        FXCommand::IA0 => 0xA0,
        FXCommand::IA1 => 0xA1,
        FXCommand::IA2 => 0xA2,
        FXCommand::NONE => 0xFF,
        FXCommand::Unknown(b) => b,
    }
}

/// The three-letter name of a command.
pub open spec fn fx_command_name(c: FXCommand) -> &'static str {
    match c {
        FXCommand::ARP => "ARP",
        FXCommand::CHA => "CHA",
        FXCommand::DEL => "DEL",
        FXCommand::GRV => "GRV",
        FXCommand::HOP => "HOP",
        FXCommand::KIL => "KIL",
        FXCommand::RAN => "RAN",
        FXCommand::RET => "RET",
        FXCommand::REP => "REP",
        FXCommand::NTH => "NTH",
        FXCommand::PSL => "PSL",
        FXCommand::PSN => "PSN",
        FXCommand::PVB => "PVB",
        FXCommand::PVX => "PVX",
        FXCommand::SCA => "SCA",
        FXCommand::SCG => "SCG",
        FXCommand::SED => "SED",
        FXCommand::SNG => "SNG",
        FXCommand::TBL => "TBL",
        FXCommand::THO => "THO",
        FXCommand::TIC => "TIC",
        FXCommand::TPO => "TPO",
        FXCommand::TSP => "TSP",
        FXCommand::VMV => "VMV",
        FXCommand::XCM => "XCM",
        FXCommand::XCF => "XCF",
        FXCommand::XCW => "XCW",
        FXCommand::XCR => "XCR",
        FXCommand::XDT => "XDT",
        FXCommand::XDF => "XDF",
        FXCommand::XDW => "XDW",
        FXCommand::XDR => "XDR",
        FXCommand::XRS => "XRS",
        FXCommand::XRD => "XRD",
        FXCommand::XRM => "XRM",
        FXCommand::XRF => "XRF",
        FXCommand::XRW => "XRW",
        FXCommand::XRZ => "XRZ",
        FXCommand::VCH => "VCH",
        FXCommand::VCD => "VCD",
        FXCommand::VRE => "VRE",
        FXCommand::VT1 => "VT1",
        FXCommand::VT2 => "VT2",
        FXCommand::VT3 => "VT3",
        FXCommand::VT4 => "VT4",
        FXCommand::VT5 => "VT5",
        FXCommand::VT6 => "VT6",
        FXCommand::VT7 => "VT7",
        FXCommand::VT8 => "VT8",
        FXCommand::DJF => "DJF",
        FXCommand::IVO => "IVO",
        FXCommand::ICH => "ICH",
        FXCommand::IDE => "IDE",
        FXCommand::IRE => "IRE",
        FXCommand::IV2 => "IV2",
        FXCommand::IC2 => "IC2",
        FXCommand::ID2 => "ID2",
        FXCommand::IR2 => "IR2",
        FXCommand::USB => "USB",
        FXCommand::I00 => "I00",
        FXCommand::I01 => "I01",
        FXCommand::I02 => "I02",
        FXCommand::I03 => "I03",
        FXCommand::I04 => "I04",
        FXCommand::I05 => "I05",
        FXCommand::I06 => "I06",
        FXCommand::I07 => "I07",
        FXCommand::I08 => "I08",
        FXCommand::I09 => "I09",
        FXCommand::I0A => "I0A",
        FXCommand::I0B => "I0B",
        FXCommand::I0C => "I0C",
        FXCommand::I0D => "I0D",
        FXCommand::I0E => "I0E",
        FXCommand::I8F => "I8F",
        FXCommand::I90 => "I90",
        FXCommand::I91 => "I91",
        FXCommand::I92 => "I92",
        FXCommand::I93 => "I93",
        FXCommand::I94 => "I94",
        FXCommand::I95 => "I95",
        FXCommand::I96 => "I96",
        FXCommand::I97 => "I97",
        FXCommand::I98 => "I98",
        FXCommand::I99 => "I99",
        FXCommand::I9A => "I9A",
        FXCommand::I9B => "I9B",
        FXCommand::I9C => "I9C",
        FXCommand::I9D => "I9D",
        FXCommand::I9E => "I9E",
        FXCommand::I9F => "I9F",
        FXCommand::IA0 => "IA0",
        FXCommand::IA1 => "IA1",
        FXCommand::IA2 => "IA2",
        FXCommand::NONE => "---",
        FXCommand::Unknown(_) => "???",
    }
}

impl FXCommand {
    /// The command a byte names: an unlisted byte is kept as `Unknown`.
    pub fn from_u8(u: u8) -> (r: Self)
        ensures
            r == fx_command_of(u),
    {
        match u {
            0x00 => FXCommand::ARP,
            0x01 => FXCommand::CHA,
            0x02 => FXCommand::DEL,
            0x03 => FXCommand::GRV,
            0x04 => FXCommand::HOP,
            0x05 => FXCommand::KIL,
            0x06 => FXCommand::RAN,
            0x07 => FXCommand::RET,
            0x08 => FXCommand::REP,
            0x09 => FXCommand::NTH,
            0x0A => FXCommand::PSL,
            0x0B => FXCommand::PSN,
            0x0C => FXCommand::PVB,
            0x0D => FXCommand::PVX,
            0x0E => FXCommand::SCA,
            0x0F => FXCommand::SCG,
            0x10 => FXCommand::SED,
            0x11 => FXCommand::SNG,
            0x12 => FXCommand::TBL,
            0x13 => FXCommand::THO,
            0x14 => FXCommand::TIC,
            0x15 => FXCommand::TPO,
            0x16 => FXCommand::TSP,
            0x17 => FXCommand::VMV,
            0x18 => FXCommand::XCM,
            0x19 => FXCommand::XCF,
            0x1A => FXCommand::XCW,
            0x1B => FXCommand::XCR,
            0x1C => FXCommand::XDT,
            0x1D => FXCommand::XDF,
            0x1E => FXCommand::XDW,
            0x1F => FXCommand::XDR,
            0x20 => FXCommand::XRS,
            0x21 => FXCommand::XRD,
            0x22 => FXCommand::XRM,
            0x23 => FXCommand::XRF,
            0x24 => FXCommand::XRW,
            0x25 => FXCommand::XRZ,
            0x26 => FXCommand::VCH,
            0x27 => FXCommand::VCD,
            0x28 => FXCommand::VRE,
            0x29 => FXCommand::VT1,
            0x2A => FXCommand::VT2,
            0x2B => FXCommand::VT3,
            0x2C => FXCommand::VT4,
            0x2D => FXCommand::VT5,
            0x2E => FXCommand::VT6,
            0x2F => FXCommand::VT7,
            0x30 => FXCommand::VT8,
            0x31 => FXCommand::DJF,
            0x32 => FXCommand::IVO,
            0x33 => FXCommand::ICH,
            0x34 => FXCommand::IDE,
            0x35 => FXCommand::IRE,
            0x36 => FXCommand::IV2,
            0x37 => FXCommand::IC2,
            0x38 => FXCommand::ID2,
            0x39 => FXCommand::IR2,
            0x3A => FXCommand::USB,
            0x80 => FXCommand::I00,
            0x81 => FXCommand::I01,
            0x82 => FXCommand::I02,
            0x83 => FXCommand::I03,
            0x84 => FXCommand::I04,
            0x85 => FXCommand::I05,
            0x86 => FXCommand::I06,
            0x87 => FXCommand::I07,
            0x88 => FXCommand::I08,
            0x89 => FXCommand::I09,
            0x8A => FXCommand::I0A,
            0x8B => FXCommand::I0B,
            0x8C => FXCommand::I0C,
            0x8D => FXCommand::I0D,
            0x8E => FXCommand::I0E,
            0x8F => FXCommand::I8F,
            0x90 => FXCommand::I90,
            0x91 => FXCommand::I91,
            0x92 => FXCommand::I92,
            0x93 => FXCommand::I93,
            0x94 => FXCommand::I94,
            0x95 => FXCommand::I95,
            0x96 => FXCommand::I96,
            0x97 => FXCommand::I97,
            0x98 => FXCommand::I98,
            0x99 => FXCommand::I99,
            0x9A => FXCommand::I9A,
            0x9B => FXCommand::I9B,
            0x9C => FXCommand::I9C,
            0x9D => FXCommand::I9D,
            0x9E => FXCommand::I9E,
            0x9F => FXCommand::I9F,
            0xA0 => FXCommand::IA0,
            0xA1 => FXCommand::IA1,
            0xA2 => FXCommand::IA2,
            0xFF => FXCommand::NONE,
            _ => FXCommand::Unknown(u),
        }
    }

    /// The byte of the command.
    pub fn to_u8(self) -> (r: u8)
        ensures
            r == fx_command_byte(self),
    {
        match self {
            FXCommand::ARP => 0x00,
            FXCommand::CHA => 0x01,
            FXCommand::DEL => 0x02,
            FXCommand::GRV => 0x03,
            FXCommand::HOP => 0x04,
            FXCommand::KIL => 0x05,
            FXCommand::RAN => 0x06,
            FXCommand::RET => 0x07,
            FXCommand::REP => 0x08,
            FXCommand::NTH => 0x09,
            FXCommand::PSL => 0x0A,
            FXCommand::PSN => 0x0B,
            FXCommand::PVB => 0x0C,
            FXCommand::PVX => 0x0D,
            FXCommand::SCA => 0x0E,
            FXCommand::SCG => 0x0F,
            FXCommand::SED => 0x10,
            FXCommand::SNG => 0x11,
            FXCommand::TBL => 0x12,
            FXCommand::THO => 0x13,
            FXCommand::TIC => 0x14,
            FXCommand::TPO => 0x15,
            FXCommand::TSP => 0x16,
            FXCommand::VMV => 0x17,
            FXCommand::XCM => 0x18,
            FXCommand::XCF => 0x19,
            FXCommand::XCW => 0x1A,
            FXCommand::XCR => 0x1B,
            FXCommand::XDT => 0x1C,
            FXCommand::XDF => 0x1D,
            FXCommand::XDW => 0x1E,
            FXCommand::XDR => 0x1F,
            FXCommand::XRS => 0x20,
            FXCommand::XRD => 0x21,
            FXCommand::XRM => 0x22,
            FXCommand::XRF => 0x23,
            FXCommand::XRW => 0x24,
            FXCommand::XRZ => 0x25,
            FXCommand::VCH => 0x26,
            FXCommand::VCD => 0x27,
            FXCommand::VRE => 0x28,
            FXCommand::VT1 => 0x29,
            FXCommand::VT2 => 0x2A,
            FXCommand::VT3 => 0x2B,
            FXCommand::VT4 => 0x2C,
            FXCommand::VT5 => 0x2D,
            FXCommand::VT6 => 0x2E,
            FXCommand::VT7 => 0x2F,
            FXCommand::VT8 => 0x30,
            FXCommand::DJF => 0x31,
            FXCommand::IVO => 0x32,
            FXCommand::ICH => 0x33,
            FXCommand::IDE => 0x34,
            FXCommand::IRE => 0x35,
            FXCommand::IV2 => 0x36,
            FXCommand::IC2 => 0x37,
            FXCommand::ID2 => 0x38,
            FXCommand::IR2 => 0x39,
            FXCommand::USB => 0x3A,
            FXCommand::I00 => 0x80,
            FXCommand::I01 => 0x81,
            FXCommand::I02 => 0x82,
            FXCommand::I03 => 0x83,
            FXCommand::I04 => 0x84,
            FXCommand::I05 => 0x85,
            FXCommand::I06 => 0x86,
            FXCommand::I07 => 0x87,
            FXCommand::I08 => 0x88,
            FXCommand::I09 => 0x89,
            FXCommand::I0A => 0x8A,
            FXCommand::I0B => 0x8B,
            FXCommand::I0C => 0x8C,
            FXCommand::I0D => 0x8D,
            FXCommand::I0E => 0x8E,
            FXCommand::I8F => 0x8F,
            FXCommand::I90 => 0x90,
            FXCommand::I91 => 0x91,
            FXCommand::I92 => 0x92,
            FXCommand::I93 => 0x93,
            FXCommand::I94 => 0x94,
            FXCommand::I95 => 0x95,
            FXCommand::I96 => 0x96,
            FXCommand::I97 => 0x97,
            FXCommand::I98 => 0x98,
            FXCommand::I99 => 0x99,
            FXCommand::I9A => 0x9A,
            FXCommand::I9B => 0x9B,
            FXCommand::I9C => 0x9C,
            FXCommand::I9D => 0x9D,
            FXCommand::I9E => 0x9E,
            FXCommand::I9F => 0x9F,
            FXCommand::IA0 => 0xA0,
            FXCommand::IA1 => 0xA1,
            FXCommand::IA2 => 0xA2,
            FXCommand::NONE => 0xFF,
            FXCommand::Unknown(b) => b,
        }
    }

    /// The three-letter name of the command.
    pub fn name(self) -> (r: &'static str)
        ensures
            r == fx_command_name(self),
    {
        match self {
            FXCommand::ARP => "ARP",
            FXCommand::CHA => "CHA",
            FXCommand::DEL => "DEL",
            FXCommand::GRV => "GRV",
            FXCommand::HOP => "HOP",
            FXCommand::KIL => "KIL",
            FXCommand::RAN => "RAN",
            FXCommand::RET => "RET",
            FXCommand::REP => "REP",
            FXCommand::NTH => "NTH",
            FXCommand::PSL => "PSL",
            FXCommand::PSN => "PSN",
            FXCommand::PVB => "PVB",
            FXCommand::PVX => "PVX",
            FXCommand::SCA => "SCA",
            FXCommand::SCG => "SCG",
            FXCommand::SED => "SED",
            FXCommand::SNG => "SNG",
            FXCommand::TBL => "TBL",
            FXCommand::THO => "THO",
            FXCommand::TIC => "TIC",
            FXCommand::TPO => "TPO",
            FXCommand::TSP => "TSP",
            FXCommand::VMV => "VMV",
            FXCommand::XCM => "XCM",
            FXCommand::XCF => "XCF",
            FXCommand::XCW => "XCW",
            FXCommand::XCR => "XCR",
            FXCommand::XDT => "XDT",
            FXCommand::XDF => "XDF",
            FXCommand::XDW => "XDW",
            FXCommand::XDR => "XDR",
            FXCommand::XRS => "XRS",
            FXCommand::XRD => "XRD",
            FXCommand::XRM => "XRM",
            FXCommand::XRF => "XRF",
            FXCommand::XRW => "XRW",
            FXCommand::XRZ => "XRZ",
            FXCommand::VCH => "VCH",
            FXCommand::VCD => "VCD",
            FXCommand::VRE => "VRE",
            FXCommand::VT1 => "VT1",
            FXCommand::VT2 => "VT2",
            FXCommand::VT3 => "VT3",
            FXCommand::VT4 => "VT4",
            FXCommand::VT5 => "VT5",
            FXCommand::VT6 => "VT6",
            FXCommand::VT7 => "VT7",
            FXCommand::VT8 => "VT8",
            FXCommand::DJF => "DJF",
            FXCommand::IVO => "IVO",
            FXCommand::ICH => "ICH",
            FXCommand::IDE => "IDE",
            FXCommand::IRE => "IRE",
            FXCommand::IV2 => "IV2",
            FXCommand::IC2 => "IC2",
            FXCommand::ID2 => "ID2",
            FXCommand::IR2 => "IR2",
            FXCommand::USB => "USB",
            FXCommand::I00 => "I00",
            FXCommand::I01 => "I01",
            FXCommand::I02 => "I02",
            FXCommand::I03 => "I03",
            FXCommand::I04 => "I04",
            FXCommand::I05 => "I05",
            FXCommand::I06 => "I06",
            FXCommand::I07 => "I07",
            FXCommand::I08 => "I08",
            FXCommand::I09 => "I09",
            FXCommand::I0A => "I0A",
            FXCommand::I0B => "I0B",
            FXCommand::I0C => "I0C",
            FXCommand::I0D => "I0D",
            FXCommand::I0E => "I0E",
            FXCommand::I8F => "I8F",
            FXCommand::I90 => "I90",
            FXCommand::I91 => "I91",
            FXCommand::I92 => "I92",
            FXCommand::I93 => "I93",
            FXCommand::I94 => "I94",
            FXCommand::I95 => "I95",
            FXCommand::I96 => "I96",
            FXCommand::I97 => "I97",
            FXCommand::I98 => "I98",
            FXCommand::I99 => "I99",
            FXCommand::I9A => "I9A",
            FXCommand::I9B => "I9B",
            FXCommand::I9C => "I9C",
            FXCommand::I9D => "I9D",
            FXCommand::I9E => "I9E",
            FXCommand::I9F => "I9F",
            FXCommand::IA0 => "IA0",
            FXCommand::IA1 => "IA1",
            FXCommand::IA2 => "IA2",
            FXCommand::NONE => "---",
            FXCommand::Unknown(_) => "???",
        }
    }
}

} // verus!
