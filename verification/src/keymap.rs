//! The win32 keyboard map: what physical key code a native scancode
//! stands for, and what key symbol a native virtual-key number stands
//! for, over their 256-entry native range.

use vstd::prelude::*;

use crate::key::{Code, Sym};

verus! {

/// The physical key code a native scancode stands for.
pub open spec fn code_spec(scancode: u32) -> Code {
    match scancode {
        0 => Code::Unknown,
        1 => Code::Escape,
        2 => Code::N1,
        3 => Code::N2,
        4 => Code::N3,
        5 => Code::N4,
        6 => Code::N5,
        7 => Code::N6,
        8 => Code::N7,
        9 => Code::N8,
        10 => Code::N9,
        11 => Code::N0,
        12 => Code::Minus,
        13 => Code::Equals,
        14 => Code::Backspace,
        15 => Code::Tab,
        16 => Code::Q,
        17 => Code::W,
        18 => Code::E,
        19 => Code::R,
        20 => Code::T,
        21 => Code::Y,
        22 => Code::U,
        23 => Code::I,
        24 => Code::O,
        25 => Code::P,
        26 => Code::LeftBracket,
        27 => Code::RightBracket,
        28 => Code::Enter,
        29 => Code::LeftCtrl,
        30 => Code::A,
        31 => Code::S,
        32 => Code::D,
        33 => Code::F,
        34 => Code::G,
        35 => Code::H,
        36 => Code::J,
        37 => Code::K,
        38 => Code::L,
        39 => Code::Semicolon,
        40 => Code::Quote,
        41 => Code::Grave,
        42 => Code::LeftShift,
        43 => Code::UK_Hash,
        44 => Code::Z,
        45 => Code::X,
        46 => Code::C,
        47 => Code::V,
        48 => Code::B,
        49 => Code::N,
        50 => Code::M,
        51 => Code::Comma,
        52 => Code::Period,
        53 => Code::Slash,
        54 => Code::RightShift,
        55 => Code::PrintScreen,
        56 => Code::LeftAlt,
        57 => Code::Space,
        58 => Code::CapsLock,
        59 => Code::F1,
        60 => Code::F2,
        61 => Code::F3,
        62 => Code::F4,
        63 => Code::F5,
        64 => Code::F6,
        65 => Code::F7,
        66 => Code::F8,
        67 => Code::F9,
        68 => Code::F10,
        69 => Code::Kp_NumLock,
        70 => Code::ScrollLock,
        71 => Code::Home,
        72 => Code::Up,
        73 => Code::PageUp,
        74 => Code::Kp_Subtract,
        75 => Code::Left,
        76 => Code::Kp_5,
        77 => Code::Right,
        78 => Code::Kp_Add,
        79 => Code::End,
        80 => Code::Down,
        81 => Code::PageDown,
        82 => Code::Insert,
        83 => Code::Delete,
        84 => Code::Unknown,
        85 => Code::Unknown,
        86 => Code::Kp_Add,
        87 => Code::F11,
        88 => Code::F12,
        89 => Code::Unknown,
        90 => Code::Unknown,
        91 => Code::Unknown,
        92 => Code::Unknown,
        93 => Code::Unknown,
        94 => Code::Unknown,
        95 => Code::Unknown,
        96 => Code::Unknown,
        97 => Code::Unknown,
        98 => Code::Unknown,
        99 => Code::Unknown,
        100 => Code::Unknown,
        101 => Code::Unknown,
        102 => Code::Unknown,
        103 => Code::Unknown,
        104 => Code::Unknown,
        105 => Code::Unknown,
        106 => Code::Unknown,
        107 => Code::Unknown,
        108 => Code::Unknown,
        109 => Code::Unknown,
        110 => Code::Unknown,
        111 => Code::Unknown,
        112 => Code::Unknown,
        113 => Code::Unknown,
        114 => Code::Unknown,
        115 => Code::Unknown,
        116 => Code::Unknown,
        117 => Code::Unknown,
        118 => Code::Unknown,
        119 => Code::Unknown,
        120 => Code::Unknown,
        121 => Code::Unknown,
        122 => Code::Unknown,
        123 => Code::Unknown,
        124 => Code::Unknown,
        125 => Code::Unknown,
        126 => Code::Unknown,
        127 => Code::Unknown,
        128 => Code::Unknown,
        129 => Code::Unknown,
        130 => Code::Unknown,
        131 => Code::Unknown,
        132 => Code::Unknown,
        133 => Code::Unknown,
        134 => Code::Unknown,
        135 => Code::Unknown,
        136 => Code::Unknown,
        137 => Code::Unknown,
        138 => Code::Unknown,
        139 => Code::Unknown,
        140 => Code::Unknown,
        141 => Code::Unknown,
        142 => Code::Unknown,
        143 => Code::Unknown,
        144 => Code::Unknown,
        145 => Code::Unknown,
        146 => Code::Unknown,
        147 => Code::Unknown,
        148 => Code::Unknown,
        149 => Code::Unknown,
        150 => Code::Unknown,
        151 => Code::Unknown,
        152 => Code::Unknown,
        153 => Code::Unknown,
        154 => Code::Unknown,
        155 => Code::Unknown,
        156 => Code::Unknown,
        157 => Code::Unknown,
        158 => Code::Unknown,
        159 => Code::Unknown,
        160 => Code::Unknown,
        161 => Code::Unknown,
        162 => Code::Unknown,
        163 => Code::Unknown,
        164 => Code::Unknown,
        165 => Code::Unknown,
        166 => Code::Unknown,
        167 => Code::Unknown,
        168 => Code::Unknown,
        169 => Code::Unknown,
        170 => Code::Unknown,
        171 => Code::Unknown,
        172 => Code::Unknown,
        173 => Code::Unknown,
        174 => Code::Unknown,
        175 => Code::Unknown,
        176 => Code::Unknown,
        177 => Code::Unknown,
        178 => Code::Unknown,
        179 => Code::Unknown,
        180 => Code::Unknown,
        181 => Code::Unknown,
        182 => Code::Unknown,
        183 => Code::Unknown,
        184 => Code::Unknown,
        185 => Code::Unknown,
        186 => Code::Unknown,
        187 => Code::Unknown,
        188 => Code::Unknown,
        189 => Code::Unknown,
        190 => Code::Unknown,
        191 => Code::Unknown,
        192 => Code::Unknown,
        193 => Code::Unknown,
        194 => Code::Unknown,
        195 => Code::Unknown,
        196 => Code::Unknown,
        197 => Code::Unknown,
        198 => Code::Unknown,
        199 => Code::Unknown,
        200 => Code::Unknown,
        201 => Code::Unknown,
        202 => Code::Unknown,
        203 => Code::Unknown,
        204 => Code::Unknown,
        205 => Code::Unknown,
        206 => Code::Unknown,
        207 => Code::Unknown,
        208 => Code::Unknown,
        209 => Code::Unknown,
        210 => Code::Unknown,
        211 => Code::Unknown,
        212 => Code::Unknown,
        213 => Code::Unknown,
        214 => Code::Unknown,
        215 => Code::Unknown,
        216 => Code::Unknown,
        217 => Code::Unknown,
        218 => Code::Unknown,
        219 => Code::Unknown,
        220 => Code::Unknown,
        221 => Code::Unknown,
        222 => Code::Unknown,
        223 => Code::Unknown,
        224 => Code::Unknown,
        225 => Code::Unknown,
        226 => Code::Unknown,
        227 => Code::Unknown,
        228 => Code::Unknown,
        229 => Code::Unknown,
        230 => Code::Unknown,
        231 => Code::Unknown,
        232 => Code::Unknown,
        233 => Code::Unknown,
        234 => Code::Unknown,
        235 => Code::Unknown,
        236 => Code::Unknown,
        237 => Code::Unknown,
        238 => Code::Unknown,
        239 => Code::Unknown,
        240 => Code::Unknown,
        241 => Code::Unknown,
        242 => Code::Unknown,
        243 => Code::Unknown,
        244 => Code::Unknown,
        245 => Code::Unknown,
        246 => Code::Unknown,
        247 => Code::Unknown,
        248 => Code::Unknown,
        249 => Code::Unknown,
        250 => Code::Unknown,
        251 => Code::Unknown,
        252 => Code::Unknown,
        253 => Code::Unknown,
        254 => Code::Unknown,
        255 => Code::Unknown,
        _ => Code::Unknown,
    }
}

/// The key symbol a native virtual-key number stands for.
pub open spec fn sym_spec(vkey: u32) -> Sym {
    match vkey {
        0 => Sym::Unknown,
        1 => Sym::Unknown,
        2 => Sym::Unknown,
        3 => Sym::Cancel,
        4 => Sym::Unknown,
        5 => Sym::Unknown,
        6 => Sym::Unknown,
        7 => Sym::Unknown,
        8 => Sym::Backspace,
        9 => Sym::Tab,
        10 => Sym::Unknown,
        11 => Sym::Unknown,
        12 => Sym::Clear,
        13 => Sym::Return,
        14 => Sym::Unknown,
        15 => Sym::Unknown,
        16 => Sym::Shift,
        17 => Sym::Ctrl,
        18 => Sym::Alt,
        19 => Sym::Pause,
        20 => Sym::CapsLock,
        21 => Sym::Unknown,
        22 => Sym::Unknown,
        23 => Sym::Unknown,
        24 => Sym::Unknown,
        25 => Sym::Unknown,
        26 => Sym::Unknown,
        27 => Sym::Escape,
        28 => Sym::Unknown,
        29 => Sym::Unknown,
        30 => Sym::Unknown,
        31 => Sym::ModeSwitch,
        32 => Sym::Space,
        33 => Sym::PageUp,
        34 => Sym::PageDown,
        35 => Sym::End,
        36 => Sym::Home,
        37 => Sym::Left,
        38 => Sym::Up,
        39 => Sym::Right,
        40 => Sym::Down,
        41 => Sym::Select,
        42 => Sym::Printer,
        43 => Sym::Execute,
        44 => Sym::Print,
        45 => Sym::Insert,
        46 => Sym::Delete,
        47 => Sym::Help,
        48 => Sym::D0,
        49 => Sym::D1,
        50 => Sym::D2,
        51 => Sym::D3,
        52 => Sym::D4,
        53 => Sym::D5,
        54 => Sym::D6,
        55 => Sym::D7,
        56 => Sym::D8,
        57 => Sym::D9,
        58 => Sym::Unknown,
        59 => Sym::Unknown,
        60 => Sym::Unknown,
        61 => Sym::Unknown,
        62 => Sym::Unknown,
        63 => Sym::Unknown,
        64 => Sym::Unknown,
        65 => Sym::A,
        66 => Sym::B,
        67 => Sym::C,
        68 => Sym::D,
        69 => Sym::E,
        70 => Sym::F,
        71 => Sym::G,
        72 => Sym::H,
        73 => Sym::I,
        74 => Sym::J,
        75 => Sym::K,
        76 => Sym::L,
        77 => Sym::M,
        78 => Sym::N,
        79 => Sym::O,
        80 => Sym::P,
        81 => Sym::Q,
        82 => Sym::R,
        83 => Sym::S,
        84 => Sym::T,
        85 => Sym::U,
        86 => Sym::V,
        87 => Sym::W,
        88 => Sym::X,
        89 => Sym::Y,
        90 => Sym::Z,
        91 => Sym::LeftSuper,
        92 => Sym::RightSuper,
        93 => Sym::Menu,
        94 => Sym::Unknown,
        95 => Sym::Sleep,
        96 => Sym::Kp_0,
        97 => Sym::Kp_1,
        98 => Sym::Kp_2,
        99 => Sym::Kp_3,
        100 => Sym::Kp_4,
        101 => Sym::Kp_5,
        102 => Sym::Kp_6,
        103 => Sym::Kp_7,
        104 => Sym::Kp_8,
        105 => Sym::Kp_9,
        106 => Sym::Kp_Multiply,
        107 => Sym::Kp_Add,
        108 => Sym::Kp_Separator,
        109 => Sym::Kp_Subtract,
        110 => Sym::Kp_Decimal,
        111 => Sym::Kp_Divide,
        112 => Sym::F1,
        113 => Sym::F2,
        114 => Sym::F3,
        115 => Sym::F4,
        116 => Sym::F5,
        117 => Sym::F6,
        118 => Sym::F7,
        119 => Sym::F8,
        120 => Sym::F9,
        121 => Sym::F10,
        122 => Sym::F11,
        123 => Sym::F12,
        124 => Sym::F13,
        125 => Sym::F14,
        126 => Sym::F15,
        127 => Sym::F16,
        128 => Sym::F17,
        129 => Sym::F18,
        130 => Sym::F19,
        131 => Sym::F20,
        132 => Sym::F21,
        133 => Sym::F22,
        134 => Sym::F23,
        135 => Sym::F24,
        136 => Sym::Unknown,
        137 => Sym::Unknown,
        138 => Sym::Unknown,
        139 => Sym::Unknown,
        140 => Sym::Unknown,
        141 => Sym::Unknown,
        142 => Sym::Unknown,
        143 => Sym::Unknown,
        144 => Sym::NumLock,
        145 => Sym::ScrollLock,
        146 => Sym::Unknown,
        147 => Sym::Unknown,
        148 => Sym::Unknown,
        149 => Sym::Unknown,
        150 => Sym::Unknown,
        151 => Sym::Unknown,
        152 => Sym::Unknown,
        153 => Sym::Unknown,
        154 => Sym::Unknown,
        155 => Sym::Unknown,
        156 => Sym::Unknown,
        157 => Sym::Unknown,
        158 => Sym::Unknown,
        159 => Sym::Unknown,
        160 => Sym::LeftShift,
        161 => Sym::RightShift,
        162 => Sym::LeftCtrl,
        163 => Sym::RightCtrl,
        164 => Sym::LeftAlt,
        165 => Sym::RightAlt,
        166 => Sym::Unknown,
        167 => Sym::Unknown,
        168 => Sym::Unknown,
        169 => Sym::Unknown,
        170 => Sym::Unknown,
        171 => Sym::Unknown,
        172 => Sym::Unknown,
        173 => Sym::VolumeMute,
        174 => Sym::VolumeDown,
        175 => Sym::VolumeUp,
        176 => Sym::MediaNext,
        177 => Sym::MediaPrevious,
        178 => Sym::MediaStop,
        179 => Sym::MediaPlay,
        180 => Sym::LaunchMail,
        181 => Sym::LaunchMedia,
        182 => Sym::Launch0,
        183 => Sym::Launch1,
        184 => Sym::Unknown,
        185 => Sym::Unknown,
        186 => Sym::Semicolon,
        187 => Sym::Plus,
        188 => Sym::Comma,
        189 => Sym::Minus,
        190 => Sym::Period,
        191 => Sym::Slash,
        192 => Sym::AsciiTilde,
        193 => Sym::Unknown,
        194 => Sym::Unknown,
        195 => Sym::Unknown,
        196 => Sym::Unknown,
        197 => Sym::Unknown,
        198 => Sym::Unknown,
        199 => Sym::Unknown,
        200 => Sym::Unknown,
        201 => Sym::Unknown,
        202 => Sym::Unknown,
        203 => Sym::Unknown,
        204 => Sym::Unknown,
        205 => Sym::Unknown,
        206 => Sym::Unknown,
        207 => Sym::Unknown,
        208 => Sym::Unknown,
        209 => Sym::Unknown,
        210 => Sym::Unknown,
        211 => Sym::Unknown,
        212 => Sym::Unknown,
        213 => Sym::Unknown,
        214 => Sym::Unknown,
        215 => Sym::Unknown,
        216 => Sym::Unknown,
        217 => Sym::Unknown,
        218 => Sym::Unknown,
        219 => Sym::BracketLeft,
        220 => Sym::Bar,
        221 => Sym::BracketRight,
        222 => Sym::Unknown,
        223 => Sym::Unknown,
        224 => Sym::Unknown,
        225 => Sym::Unknown,
        226 => Sym::Unknown,
        227 => Sym::Unknown,
        228 => Sym::Unknown,
        229 => Sym::Unknown,
        230 => Sym::Unknown,
        231 => Sym::Unknown,
        232 => Sym::Unknown,
        233 => Sym::Unknown,
        234 => Sym::Unknown,
        235 => Sym::Unknown,
        236 => Sym::Unknown,
        237 => Sym::Unknown,
        238 => Sym::Unknown,
        239 => Sym::Unknown,
        240 => Sym::Unknown,
        241 => Sym::Unknown,
        242 => Sym::Unknown,
        243 => Sym::Unknown,
        244 => Sym::Unknown,
        245 => Sym::Unknown,
        246 => Sym::Unknown,
        247 => Sym::Unknown,
        248 => Sym::Unknown,
        249 => Sym::Unknown,
        250 => Sym::Play,
        251 => Sym::Zoom,
        252 => Sym::Unknown,
        253 => Sym::Unknown,
        254 => Sym::Clear,
        255 => Sym::Unknown,
        _ => Sym::Unknown,
    }
}

/// Look up the physical key code of a native scancode.
pub fn code(scancode: u32) -> (r: Code)
    requires
        scancode < 256,
    ensures
        r == code_spec(scancode),
{
    match scancode {
        0 => Code::Unknown,
        1 => Code::Escape,
        2 => Code::N1,
        3 => Code::N2,
        4 => Code::N3,
        5 => Code::N4,
        6 => Code::N5,
        7 => Code::N6,
        8 => Code::N7,
        9 => Code::N8,
        10 => Code::N9,
        11 => Code::N0,
        12 => Code::Minus,
        13 => Code::Equals,
        14 => Code::Backspace,
        15 => Code::Tab,
        16 => Code::Q,
        17 => Code::W,
        18 => Code::E,
        19 => Code::R,
        20 => Code::T,
        21 => Code::Y,
        22 => Code::U,
        23 => Code::I,
        24 => Code::O,
        25 => Code::P,
        26 => Code::LeftBracket,
        27 => Code::RightBracket,
        28 => Code::Enter,
        29 => Code::LeftCtrl,
        30 => Code::A,
        31 => Code::S,
        32 => Code::D,
        33 => Code::F,
        34 => Code::G,
        35 => Code::H,
        36 => Code::J,
        37 => Code::K,
        38 => Code::L,
        39 => Code::Semicolon,
        40 => Code::Quote,
        41 => Code::Grave,
        42 => Code::LeftShift,
        43 => Code::UK_Hash,
        44 => Code::Z,
        45 => Code::X,
        46 => Code::C,
        47 => Code::V,
        48 => Code::B,
        49 => Code::N,
        50 => Code::M,
        51 => Code::Comma,
        52 => Code::Period,
        53 => Code::Slash,
        54 => Code::RightShift,
        55 => Code::PrintScreen,
        56 => Code::LeftAlt,
        57 => Code::Space,
        58 => Code::CapsLock,
        59 => Code::F1,
        60 => Code::F2,
        61 => Code::F3,
        62 => Code::F4,
        63 => Code::F5,
        64 => Code::F6,
        65 => Code::F7,
        66 => Code::F8,
        67 => Code::F9,
        68 => Code::F10,
        69 => Code::Kp_NumLock,
        70 => Code::ScrollLock,
        71 => Code::Home,
        72 => Code::Up,
        73 => Code::PageUp,
        74 => Code::Kp_Subtract,
        75 => Code::Left,
        76 => Code::Kp_5,
        77 => Code::Right,
        78 => Code::Kp_Add,
        79 => Code::End,
        80 => Code::Down,
        81 => Code::PageDown,
        82 => Code::Insert,
        83 => Code::Delete,
        84 => Code::Unknown,
        85 => Code::Unknown,
        86 => Code::Kp_Add,
        87 => Code::F11,
        88 => Code::F12,
        89 => Code::Unknown,
        90 => Code::Unknown,
        91 => Code::Unknown,
        92 => Code::Unknown,
        93 => Code::Unknown,
        94 => Code::Unknown,
        95 => Code::Unknown,
        96 => Code::Unknown,
        97 => Code::Unknown,
        98 => Code::Unknown,
        99 => Code::Unknown,
        100 => Code::Unknown,
        101 => Code::Unknown,
        102 => Code::Unknown,
        103 => Code::Unknown,
        104 => Code::Unknown,
        105 => Code::Unknown,
        106 => Code::Unknown,
        107 => Code::Unknown,
        108 => Code::Unknown,
        109 => Code::Unknown,
        110 => Code::Unknown,
        111 => Code::Unknown,
        112 => Code::Unknown,
        113 => Code::Unknown,
        114 => Code::Unknown,
        115 => Code::Unknown,
        116 => Code::Unknown,
        117 => Code::Unknown,
        118 => Code::Unknown,
        119 => Code::Unknown,
        120 => Code::Unknown,
        121 => Code::Unknown,
        122 => Code::Unknown,
        123 => Code::Unknown,
        124 => Code::Unknown,
        125 => Code::Unknown,
        126 => Code::Unknown,
        127 => Code::Unknown,
        128 => Code::Unknown,
        129 => Code::Unknown,
        130 => Code::Unknown,
        131 => Code::Unknown,
        132 => Code::Unknown,
        133 => Code::Unknown,
        134 => Code::Unknown,
        135 => Code::Unknown,
        136 => Code::Unknown,
        137 => Code::Unknown,
        138 => Code::Unknown,
        139 => Code::Unknown,
        140 => Code::Unknown,
        141 => Code::Unknown,
        142 => Code::Unknown,
        143 => Code::Unknown,
        144 => Code::Unknown,
        145 => Code::Unknown,
        146 => Code::Unknown,
        147 => Code::Unknown,
        148 => Code::Unknown,
        149 => Code::Unknown,
        150 => Code::Unknown,
        151 => Code::Unknown,
        152 => Code::Unknown,
        153 => Code::Unknown,
        154 => Code::Unknown,
        155 => Code::Unknown,
        156 => Code::Unknown,
        157 => Code::Unknown,
        158 => Code::Unknown,
        159 => Code::Unknown,
        160 => Code::Unknown,
        161 => Code::Unknown,
        162 => Code::Unknown,
        163 => Code::Unknown,
        164 => Code::Unknown,
        165 => Code::Unknown,
        166 => Code::Unknown,
        167 => Code::Unknown,
        168 => Code::Unknown,
        169 => Code::Unknown,
        170 => Code::Unknown,
        171 => Code::Unknown,
        172 => Code::Unknown,
        173 => Code::Unknown,
        174 => Code::Unknown,
        175 => Code::Unknown,
        176 => Code::Unknown,
        177 => Code::Unknown,
        178 => Code::Unknown,
        179 => Code::Unknown,
        180 => Code::Unknown,
        181 => Code::Unknown,
        182 => Code::Unknown,
        183 => Code::Unknown,
        184 => Code::Unknown,
        185 => Code::Unknown,
        186 => Code::Unknown,
        187 => Code::Unknown,
        188 => Code::Unknown,
        189 => Code::Unknown,
        190 => Code::Unknown,
        191 => Code::Unknown,
        192 => Code::Unknown,
        193 => Code::Unknown,
        194 => Code::Unknown,
        195 => Code::Unknown,
        196 => Code::Unknown,
        197 => Code::Unknown,
        198 => Code::Unknown,
        199 => Code::Unknown,
        200 => Code::Unknown,
        201 => Code::Unknown,
        202 => Code::Unknown,
        203 => Code::Unknown,
        204 => Code::Unknown,
        205 => Code::Unknown,
        206 => Code::Unknown,
        207 => Code::Unknown,
        208 => Code::Unknown,
        209 => Code::Unknown,
        210 => Code::Unknown,
        211 => Code::Unknown,
        212 => Code::Unknown,
        213 => Code::Unknown,
        214 => Code::Unknown,
        215 => Code::Unknown,
        216 => Code::Unknown,
        217 => Code::Unknown,
        218 => Code::Unknown,
        219 => Code::Unknown,
        220 => Code::Unknown,
        221 => Code::Unknown,
        222 => Code::Unknown,
        223 => Code::Unknown,
        224 => Code::Unknown,
        225 => Code::Unknown,
        226 => Code::Unknown,
        227 => Code::Unknown,
        228 => Code::Unknown,
        229 => Code::Unknown,
        230 => Code::Unknown,
        231 => Code::Unknown,
        232 => Code::Unknown,
        233 => Code::Unknown,
        234 => Code::Unknown,
        235 => Code::Unknown,
        236 => Code::Unknown,
        237 => Code::Unknown,
        238 => Code::Unknown,
        239 => Code::Unknown,
        240 => Code::Unknown,
        241 => Code::Unknown,
        242 => Code::Unknown,
        243 => Code::Unknown,
        244 => Code::Unknown,
        245 => Code::Unknown,
        246 => Code::Unknown,
        247 => Code::Unknown,
        248 => Code::Unknown,
        249 => Code::Unknown,
        250 => Code::Unknown,
        251 => Code::Unknown,
        252 => Code::Unknown,
        253 => Code::Unknown,
        254 => Code::Unknown,
        255 => Code::Unknown,
        _ => Code::Unknown,
    }
}

/// Look up the key symbol of a native virtual-key number.
pub fn sym(vkey: u32) -> (r: Sym)
    requires
        vkey < 256,
    ensures
        r == sym_spec(vkey),
{
    match vkey {
        0 => Sym::Unknown,
        1 => Sym::Unknown,
        2 => Sym::Unknown,
        3 => Sym::Cancel,
        4 => Sym::Unknown,
        5 => Sym::Unknown,
        6 => Sym::Unknown,
        7 => Sym::Unknown,
        8 => Sym::Backspace,
        9 => Sym::Tab,
        10 => Sym::Unknown,
        11 => Sym::Unknown,
        12 => Sym::Clear,
        13 => Sym::Return,
        14 => Sym::Unknown,
        15 => Sym::Unknown,
        16 => Sym::Shift,
        17 => Sym::Ctrl,
        18 => Sym::Alt,
        19 => Sym::Pause,
        20 => Sym::CapsLock,
        21 => Sym::Unknown,
        22 => Sym::Unknown,
        23 => Sym::Unknown,
        24 => Sym::Unknown,
        25 => Sym::Unknown,
        26 => Sym::Unknown,
        27 => Sym::Escape,
        28 => Sym::Unknown,
        29 => Sym::Unknown,
        30 => Sym::Unknown,
        31 => Sym::ModeSwitch,
        32 => Sym::Space,
        33 => Sym::PageUp,
        34 => Sym::PageDown,
        35 => Sym::End,
        36 => Sym::Home,
        37 => Sym::Left,
        38 => Sym::Up,
        39 => Sym::Right,
        40 => Sym::Down,
        41 => Sym::Select,
        42 => Sym::Printer,
        43 => Sym::Execute,
        44 => Sym::Print,
        45 => Sym::Insert,
        46 => Sym::Delete,
        47 => Sym::Help,
        48 => Sym::D0,
        49 => Sym::D1,
        50 => Sym::D2,
        51 => Sym::D3,
        52 => Sym::D4,
        53 => Sym::D5,
        54 => Sym::D6,
        55 => Sym::D7,
        56 => Sym::D8,
        57 => Sym::D9,
        58 => Sym::Unknown,
        59 => Sym::Unknown,
        60 => Sym::Unknown,
        61 => Sym::Unknown,
        62 => Sym::Unknown,
        63 => Sym::Unknown,
        64 => Sym::Unknown,
        65 => Sym::A,
        66 => Sym::B,
        67 => Sym::C,
        68 => Sym::D,
        69 => Sym::E,
        70 => Sym::F,
        71 => Sym::G,
        72 => Sym::H,
        73 => Sym::I,
        74 => Sym::J,
        75 => Sym::K,
        76 => Sym::L,
        77 => Sym::M,
        78 => Sym::N,
        79 => Sym::O,
        80 => Sym::P,
        81 => Sym::Q,
        82 => Sym::R,
        83 => Sym::S,
        84 => Sym::T,
        85 => Sym::U,
        86 => Sym::V,
        87 => Sym::W,
        88 => Sym::X,
        89 => Sym::Y,
        90 => Sym::Z,
        91 => Sym::LeftSuper,
        92 => Sym::RightSuper,
        93 => Sym::Menu,
        94 => Sym::Unknown,
        95 => Sym::Sleep,
        96 => Sym::Kp_0,
        97 => Sym::Kp_1,
        98 => Sym::Kp_2,
        99 => Sym::Kp_3,
        100 => Sym::Kp_4,
        101 => Sym::Kp_5,
        102 => Sym::Kp_6,
        103 => Sym::Kp_7,
        104 => Sym::Kp_8,
        105 => Sym::Kp_9,
        106 => Sym::Kp_Multiply,
        107 => Sym::Kp_Add,
        108 => Sym::Kp_Separator,
        109 => Sym::Kp_Subtract,
        110 => Sym::Kp_Decimal,
        111 => Sym::Kp_Divide,
        112 => Sym::F1,
        113 => Sym::F2,
        114 => Sym::F3,
        115 => Sym::F4,
        116 => Sym::F5,
        117 => Sym::F6,
        118 => Sym::F7,
        119 => Sym::F8,
        120 => Sym::F9,
        121 => Sym::F10,
        122 => Sym::F11,
        123 => Sym::F12,
        124 => Sym::F13,
        125 => Sym::F14,
        126 => Sym::F15,
        127 => Sym::F16,
        128 => Sym::F17,
        129 => Sym::F18,
        130 => Sym::F19,
        131 => Sym::F20,
        132 => Sym::F21,
        133 => Sym::F22,
        134 => Sym::F23,
        135 => Sym::F24,
        136 => Sym::Unknown,
        137 => Sym::Unknown,
        138 => Sym::Unknown,
        139 => Sym::Unknown,
        140 => Sym::Unknown,
        141 => Sym::Unknown,
        142 => Sym::Unknown,
        143 => Sym::Unknown,
        144 => Sym::NumLock,
        145 => Sym::ScrollLock,
        146 => Sym::Unknown,
        147 => Sym::Unknown,
        148 => Sym::Unknown,
        149 => Sym::Unknown,
        150 => Sym::Unknown,
        151 => Sym::Unknown,
        152 => Sym::Unknown,
        153 => Sym::Unknown,
        154 => Sym::Unknown,
        155 => Sym::Unknown,
        156 => Sym::Unknown,
        157 => Sym::Unknown,
        158 => Sym::Unknown,
        159 => Sym::Unknown,
        160 => Sym::LeftShift,
        161 => Sym::RightShift,
        162 => Sym::LeftCtrl,
        163 => Sym::RightCtrl,
        164 => Sym::LeftAlt,
        165 => Sym::RightAlt,
        166 => Sym::Unknown,
        167 => Sym::Unknown,
        168 => Sym::Unknown,
        169 => Sym::Unknown,
        170 => Sym::Unknown,
        171 => Sym::Unknown,
        172 => Sym::Unknown,
        173 => Sym::VolumeMute,
        174 => Sym::VolumeDown,
        175 => Sym::VolumeUp,
        176 => Sym::MediaNext,
        177 => Sym::MediaPrevious,
        178 => Sym::MediaStop,
        179 => Sym::MediaPlay,
        180 => Sym::LaunchMail,
        181 => Sym::LaunchMedia,
        182 => Sym::Launch0,
        183 => Sym::Launch1,
        184 => Sym::Unknown,
        185 => Sym::Unknown,
        186 => Sym::Semicolon,
        187 => Sym::Plus,
        188 => Sym::Comma,
        189 => Sym::Minus,
        190 => Sym::Period,
        191 => Sym::Slash,
        192 => Sym::AsciiTilde,
        193 => Sym::Unknown,
        194 => Sym::Unknown,
        195 => Sym::Unknown,
        196 => Sym::Unknown,
        197 => Sym::Unknown,
        198 => Sym::Unknown,
        199 => Sym::Unknown,
        200 => Sym::Unknown,
        201 => Sym::Unknown,
        202 => Sym::Unknown,
        203 => Sym::Unknown,
        204 => Sym::Unknown,
        205 => Sym::Unknown,
        206 => Sym::Unknown,
        207 => Sym::Unknown,
        208 => Sym::Unknown,
        209 => Sym::Unknown,
        210 => Sym::Unknown,
        211 => Sym::Unknown,
        212 => Sym::Unknown,
        213 => Sym::Unknown,
        214 => Sym::Unknown,
        215 => Sym::Unknown,
        216 => Sym::Unknown,
        217 => Sym::Unknown,
        218 => Sym::Unknown,
        219 => Sym::BracketLeft,
        220 => Sym::Bar,
        221 => Sym::BracketRight,
        222 => Sym::Unknown,
        223 => Sym::Unknown,
        224 => Sym::Unknown,
        225 => Sym::Unknown,
        226 => Sym::Unknown,
        227 => Sym::Unknown,
        228 => Sym::Unknown,
        229 => Sym::Unknown,
        230 => Sym::Unknown,
        231 => Sym::Unknown,
        232 => Sym::Unknown,
        233 => Sym::Unknown,
        234 => Sym::Unknown,
        235 => Sym::Unknown,
        236 => Sym::Unknown,
        237 => Sym::Unknown,
        238 => Sym::Unknown,
        239 => Sym::Unknown,
        240 => Sym::Unknown,
        241 => Sym::Unknown,
        242 => Sym::Unknown,
        243 => Sym::Unknown,
        244 => Sym::Unknown,
        245 => Sym::Unknown,
        246 => Sym::Unknown,
        247 => Sym::Unknown,
        248 => Sym::Unknown,
        249 => Sym::Unknown,
        250 => Sym::Play,
        251 => Sym::Zoom,
        252 => Sym::Unknown,
        253 => Sym::Unknown,
        254 => Sym::Clear,
        255 => Sym::Unknown,
        _ => Sym::Unknown,
    }
}

} // verus!
