use vstd::prelude::*;

verus! {

/// Symbolic keys, after the virtual-key codes of the Windows Forms `Keys`
/// enumeration.
#[derive(Clone, Copy, Debug, PartialEq, Eq, Structural)]
pub enum KeyCode {
    A,
    Add,
    Alt,
    Apps,
    B,
    Back,
    C,
    CapsLock,
    Clear,
    ControlKey,
    D,
    D0,
    D1,
    D2,
    D3,
    D4,
    D5,
    D6,
    D7,
    D8,
    D9,
    Decimal,
    Delete,
    Divide,
    Down,
    E,
    End,
    Enter,
    Escape,
    F,
    F1,
    F10,
    F11,
    F12,
    F2,
    F3,
    F4,
    F5,
    F6,
    F7,
    F8,
    F9,
    G,
    H,
    Help,
    Home,
    I,
    Insert,
    J,
    JunjaMode,
    K,
    KeyCode,
    L,
    LaunchApplication1,
    LaunchApplication2,
    LaunchMail,
    LButton,
    LControlKey,
    Left,
    LineFeed,
    LMenu,
    LShiftKey,
    LWin,
    M,
    MButton,
    MediaNextTrack,
    MediaPlayPause,
    MediaPreviousTrack,
    MediaStop,
    Menu,
    Multiply,
    N,
    NumLock,
    NumPad0,
    NumPad1,
    NumPad2,
    NumPad3,
    NumPad4,
    NumPad5,
    NumPad6,
    NumPad7,
    NumPad8,
    NumPad9,
    O,
    P,
    Pa1,
    Packet,
    PageDown,
    PageUp,
    Pause,
    Play,
    Print,
    PrintScreen,
    Q,
    R,
    RButton,
    RControlKey,
    Right,
    RMenu,
    RShiftKey,
    RWin,
    S,
    Scroll,
    Select,
    SelectMedia,
    Separator,
    Shift,
    ShiftKey,
    Space,
    Subtract,
    T,
    Tab,
    U,
    Up,
    V,
    VolumeDown,
    VolumeMute,
    VolumeUp,
    W,
    X,
    XButton1,
    XButton2,
    Y,
    Z,
    Zoom,
}

/// The numeric platform code of each symbolic key.
pub open spec fn code_of(k: KeyCode) -> int {
    match k {
        KeyCode::A => 65,
        KeyCode::Add => 107,
        KeyCode::Alt => 262144,
        KeyCode::Apps => 93,
        KeyCode::B => 66,
        KeyCode::Back => 8,
        KeyCode::C => 67,
        KeyCode::CapsLock => 20,
        KeyCode::Clear => 12,
        KeyCode::ControlKey => 17,
        KeyCode::D => 68,
        KeyCode::D0 => 48,
        KeyCode::D1 => 49,
        KeyCode::D2 => 50,
        KeyCode::D3 => 51,
        KeyCode::D4 => 52,
        KeyCode::D5 => 53,
        KeyCode::D6 => 54,
        KeyCode::D7 => 55,
        KeyCode::D8 => 56,
        KeyCode::D9 => 57,
        KeyCode::Decimal => 110,
        KeyCode::Delete => 46,
        KeyCode::Divide => 111,
        KeyCode::Down => 40,
        KeyCode::E => 69,
        KeyCode::End => 35,
        KeyCode::Enter => 13,
        KeyCode::Escape => 27,
        KeyCode::F => 70,
        KeyCode::F1 => 112,
        KeyCode::F10 => 121,
        KeyCode::F11 => 122,
        KeyCode::F12 => 123,
        KeyCode::F2 => 113,
        KeyCode::F3 => 114,
        KeyCode::F4 => 115,
        KeyCode::F5 => 116,
        KeyCode::F6 => 117,
        KeyCode::F7 => 118,
        KeyCode::F8 => 119,
        KeyCode::F9 => 120,
        KeyCode::G => 71,
        KeyCode::H => 72,
        KeyCode::Help => 47,
        KeyCode::Home => 36,
        KeyCode::I => 73,
        KeyCode::Insert => 45,
        KeyCode::J => 74,
        KeyCode::JunjaMode => 23,
        KeyCode::K => 75,
        KeyCode::KeyCode => 65535,
        KeyCode::L => 76,
        KeyCode::LaunchApplication1 => 182,
        KeyCode::LaunchApplication2 => 183,
        KeyCode::LaunchMail => 180,
        KeyCode::LButton => 1,
        KeyCode::LControlKey => 162,
        KeyCode::Left => 37,
        KeyCode::LineFeed => 10,
        KeyCode::LMenu => 164,
        KeyCode::LShiftKey => 160,
        KeyCode::LWin => 91,
        KeyCode::M => 77,
        KeyCode::MButton => 4,
        KeyCode::MediaNextTrack => 176,
        KeyCode::MediaPlayPause => 179,
        KeyCode::MediaPreviousTrack => 177,
        KeyCode::MediaStop => 178,
        KeyCode::Menu => 18,
        KeyCode::Multiply => 106,
        KeyCode::N => 78,
        KeyCode::NumLock => 144,
        KeyCode::NumPad0 => 96,
        KeyCode::NumPad1 => 97,
        KeyCode::NumPad2 => 98,
        KeyCode::NumPad3 => 99,
        KeyCode::NumPad4 => 100,
        KeyCode::NumPad5 => 101,
        KeyCode::NumPad6 => 102,
        KeyCode::NumPad7 => 103,
        KeyCode::NumPad8 => 104,
        KeyCode::NumPad9 => 105,
        KeyCode::O => 79,
        KeyCode::P => 80,
        KeyCode::Pa1 => 253,
        KeyCode::Packet => 231,
        KeyCode::PageDown => 34,
        KeyCode::PageUp => 33,
        KeyCode::Pause => 19,
        KeyCode::Play => 250,
        KeyCode::Print => 42,
        KeyCode::PrintScreen => 44,
        KeyCode::Q => 81,
        KeyCode::R => 82,
        KeyCode::RButton => 2,
        KeyCode::RControlKey => 163,
        KeyCode::Right => 39,
        KeyCode::RMenu => 165,
        KeyCode::RShiftKey => 161,
        KeyCode::RWin => 92,
        KeyCode::S => 83,
        KeyCode::Scroll => 145,
        KeyCode::Select => 41,
        KeyCode::SelectMedia => 181,
        KeyCode::Separator => 108,
        KeyCode::Shift => 65536,
        KeyCode::ShiftKey => 16,
        KeyCode::Space => 32,
        KeyCode::Subtract => 109,
        KeyCode::T => 84,
        KeyCode::Tab => 9,
        KeyCode::U => 85,
        KeyCode::Up => 38,
        KeyCode::V => 86,
        KeyCode::VolumeDown => 174,
        KeyCode::VolumeMute => 173,
        KeyCode::VolumeUp => 175,
        KeyCode::W => 87,
        KeyCode::X => 88,
        KeyCode::XButton1 => 5,
        KeyCode::XButton2 => 6,
        KeyCode::Y => 89,
        KeyCode::Z => 90,
        KeyCode::Zoom => 251,
    }
}

/// The symbolic key that carries the numeric code `n`, if any does.
pub open spec fn key_of(n: int) -> Option<KeyCode> {
    if exists|k: KeyCode| code_of(k) == n {
        Some(choose|k: KeyCode| code_of(k) == n)
    } else {
        None
    }
}

impl KeyCode {
    /// The symbolic key whose platform code is `val`, if there is one.
    pub fn from_raw(val: usize) -> (r: Option<Self>)
        ensures
            r == key_of(val as int),
    {
        let r = match val {
            65 => Some(Self::A),
            107 => Some(Self::Add),
            262144 => Some(Self::Alt),
            93 => Some(Self::Apps),
            66 => Some(Self::B),
            8 => Some(Self::Back),
            67 => Some(Self::C),
            20 => Some(Self::CapsLock),
            12 => Some(Self::Clear),
            17 => Some(Self::ControlKey),
            68 => Some(Self::D),
            48 => Some(Self::D0),
            49 => Some(Self::D1),
            50 => Some(Self::D2),
            51 => Some(Self::D3),
            52 => Some(Self::D4),
            53 => Some(Self::D5),
            54 => Some(Self::D6),
            55 => Some(Self::D7),
            56 => Some(Self::D8),
            57 => Some(Self::D9),
            110 => Some(Self::Decimal),
            46 => Some(Self::Delete),
            111 => Some(Self::Divide),
            40 => Some(Self::Down),
            69 => Some(Self::E),
            35 => Some(Self::End),
            13 => Some(Self::Enter),
            27 => Some(Self::Escape),
            70 => Some(Self::F),
            112 => Some(Self::F1),
            121 => Some(Self::F10),
            122 => Some(Self::F11),
            123 => Some(Self::F12),
            113 => Some(Self::F2),
            114 => Some(Self::F3),
            115 => Some(Self::F4),
            116 => Some(Self::F5),
            117 => Some(Self::F6),
            118 => Some(Self::F7),
            119 => Some(Self::F8),
            120 => Some(Self::F9),
            71 => Some(Self::G),
            72 => Some(Self::H),
            47 => Some(Self::Help),
            36 => Some(Self::Home),
            73 => Some(Self::I),
            45 => Some(Self::Insert),
            74 => Some(Self::J),
            23 => Some(Self::JunjaMode),
            75 => Some(Self::K),
            65535 => Some(Self::KeyCode),
            76 => Some(Self::L),
            182 => Some(Self::LaunchApplication1),
            183 => Some(Self::LaunchApplication2),
            180 => Some(Self::LaunchMail),
            1 => Some(Self::LButton),
            162 => Some(Self::LControlKey),
            37 => Some(Self::Left),
            10 => Some(Self::LineFeed),
            164 => Some(Self::LMenu),
            160 => Some(Self::LShiftKey),
            91 => Some(Self::LWin),
            77 => Some(Self::M),
            4 => Some(Self::MButton),
            176 => Some(Self::MediaNextTrack),
            179 => Some(Self::MediaPlayPause),
            177 => Some(Self::MediaPreviousTrack),
            178 => Some(Self::MediaStop),
            18 => Some(Self::Menu),
            106 => Some(Self::Multiply),
            78 => Some(Self::N),
            144 => Some(Self::NumLock),
            96 => Some(Self::NumPad0),
            97 => Some(Self::NumPad1),
            98 => Some(Self::NumPad2),
            99 => Some(Self::NumPad3),
            100 => Some(Self::NumPad4),
            101 => Some(Self::NumPad5),
            102 => Some(Self::NumPad6),
            103 => Some(Self::NumPad7),
            104 => Some(Self::NumPad8),
            105 => Some(Self::NumPad9),
            79 => Some(Self::O),
            80 => Some(Self::P),
            253 => Some(Self::Pa1),
            231 => Some(Self::Packet),
            34 => Some(Self::PageDown),
            33 => Some(Self::PageUp),
            19 => Some(Self::Pause),
            250 => Some(Self::Play),
            42 => Some(Self::Print),
            44 => Some(Self::PrintScreen),
            81 => Some(Self::Q),
            82 => Some(Self::R),
            2 => Some(Self::RButton),
            163 => Some(Self::RControlKey),
            39 => Some(Self::Right),
            165 => Some(Self::RMenu),
            161 => Some(Self::RShiftKey),
            92 => Some(Self::RWin),
            83 => Some(Self::S),
            145 => Some(Self::Scroll),
            41 => Some(Self::Select),
            181 => Some(Self::SelectMedia),
            108 => Some(Self::Separator),
            65536 => Some(Self::Shift),
            16 => Some(Self::ShiftKey),
            32 => Some(Self::Space),
            109 => Some(Self::Subtract),
            84 => Some(Self::T),
            9 => Some(Self::Tab),
            85 => Some(Self::U),
            38 => Some(Self::Up),
            86 => Some(Self::V),
            174 => Some(Self::VolumeDown),
            173 => Some(Self::VolumeMute),
            175 => Some(Self::VolumeUp),
            87 => Some(Self::W),
            88 => Some(Self::X),
            5 => Some(Self::XButton1),
            6 => Some(Self::XButton2),
            89 => Some(Self::Y),
            90 => Some(Self::Z),
            251 => Some(Self::Zoom),
            _ => None,
        };
        proof {
            lemma_codes_unique();
            if let Some(k) = r {
                assert(code_of(k) == val as int);
            }
        }
        r
    }

    /// The platform code of this key.
    pub fn to_raw(&self) -> (r: usize)
        ensures
            r == code_of(*self),
    {
        match self {
            Self::A => 65,
            Self::Add => 107,
            Self::Alt => 262144,
            Self::Apps => 93,
            Self::B => 66,
            Self::Back => 8,
            Self::C => 67,
            Self::CapsLock => 20,
            Self::Clear => 12,
            Self::ControlKey => 17,
            Self::D => 68,
            Self::D0 => 48,
            Self::D1 => 49,
            Self::D2 => 50,
            Self::D3 => 51,
            Self::D4 => 52,
            Self::D5 => 53,
            Self::D6 => 54,
            Self::D7 => 55,
            Self::D8 => 56,
            Self::D9 => 57,
            Self::Decimal => 110,
            Self::Delete => 46,
            Self::Divide => 111,
            Self::Down => 40,
            Self::E => 69,
            Self::End => 35,
            Self::Enter => 13,
            Self::Escape => 27,
            Self::F => 70,
            Self::F1 => 112,
            Self::F10 => 121,
            Self::F11 => 122,
            Self::F12 => 123,
            Self::F2 => 113,
            Self::F3 => 114,
            Self::F4 => 115,
            Self::F5 => 116,
            Self::F6 => 117,
            Self::F7 => 118,
            Self::F8 => 119,
            Self::F9 => 120,
            Self::G => 71,
            Self::H => 72,
            Self::Help => 47,
            Self::Home => 36,
            Self::I => 73,
            Self::Insert => 45,
            Self::J => 74,
            Self::JunjaMode => 23,
            Self::K => 75,
            Self::KeyCode => 65535,
            Self::L => 76,
            Self::LaunchApplication1 => 182,
            Self::LaunchApplication2 => 183,
            Self::LaunchMail => 180,
            Self::LButton => 1,
            Self::LControlKey => 162,
            Self::Left => 37,
            Self::LineFeed => 10,
            Self::LMenu => 164,
            Self::LShiftKey => 160,
            Self::LWin => 91,
            Self::M => 77,
            Self::MButton => 4,
            Self::MediaNextTrack => 176,
            Self::MediaPlayPause => 179,
            Self::MediaPreviousTrack => 177,
            Self::MediaStop => 178,
            Self::Menu => 18,
            Self::Multiply => 106,
            Self::N => 78,
            Self::NumLock => 144,
            Self::NumPad0 => 96,
            Self::NumPad1 => 97,
            Self::NumPad2 => 98,
            Self::NumPad3 => 99,
            Self::NumPad4 => 100,
            Self::NumPad5 => 101,
            Self::NumPad6 => 102,
            Self::NumPad7 => 103,
            Self::NumPad8 => 104,
            Self::NumPad9 => 105,
            Self::O => 79,
            Self::P => 80,
            Self::Pa1 => 253,
            Self::Packet => 231,
            Self::PageDown => 34,
            Self::PageUp => 33,
            Self::Pause => 19,
            Self::Play => 250,
            Self::Print => 42,
            Self::PrintScreen => 44,
            Self::Q => 81,
            Self::R => 82,
            Self::RButton => 2,
            Self::RControlKey => 163,
            Self::Right => 39,
            Self::RMenu => 165,
            Self::RShiftKey => 161,
            Self::RWin => 92,
            Self::S => 83,
            Self::Scroll => 145,
            Self::Select => 41,
            Self::SelectMedia => 181,
            Self::Separator => 108,
            Self::Shift => 65536,
            Self::ShiftKey => 16,
            Self::Space => 32,
            Self::Subtract => 109,
            Self::T => 84,
            Self::Tab => 9,
            Self::U => 85,
            Self::Up => 38,
            Self::V => 86,
            Self::VolumeDown => 174,
            Self::VolumeMute => 173,
            Self::VolumeUp => 175,
            Self::W => 87,
            Self::X => 88,
            Self::XButton1 => 5,
            Self::XButton2 => 6,
            Self::Y => 89,
            Self::Z => 90,
            Self::Zoom => 251,
        }
    }
}

/// No two symbolic keys share a numeric code.
pub proof fn lemma_code_unique(a: KeyCode, b: KeyCode)
    ensures
        code_of(a) == code_of(b) ==> a == b,
{
}

proof fn lemma_codes_unique()
    ensures
        forall|a: KeyCode, b: KeyCode| #[trigger] code_of(a) == #[trigger] code_of(b) ==> a == b,
{
    assert forall|a: KeyCode, b: KeyCode| #[trigger] code_of(a) == #[trigger] code_of(b) implies a
        == b by {
        lemma_code_unique(a, b);
    }
}

/// Mapping a key to its code and the code back to a key gives the same key.
pub proof fn lemma_round_trip(k: KeyCode)
    ensures
        key_of(code_of(k)) == Some(k),
{
    lemma_codes_unique();
}

} // verus!
