//! Keyboard vocabulary: modifier state kept as a bitmask, physical key
//! codes and translated key symbols.

use vstd::prelude::*;

verus! {

pub const MODS_LEFT_CTRL: u32 = 0x0000_0001;

pub const MODS_RIGHT_CTRL: u32 = 0x0000_0002;

pub const MODS_CTRL: u32 = MODS_LEFT_CTRL | MODS_RIGHT_CTRL;

pub const MODS_LEFT_SHIFT: u32 = 0x0000_0004;

pub const MODS_RIGHT_SHIFT: u32 = 0x0000_0008;

pub const MODS_SHIFT: u32 = MODS_LEFT_SHIFT | MODS_RIGHT_SHIFT;

pub const MODS_LEFT_ALT: u32 = 0x0000_0010;

pub const MODS_RIGHT_ALT: u32 = 0x0000_0020;

pub const MODS_ALT: u32 = MODS_LEFT_ALT | MODS_RIGHT_ALT;

pub const MODS_SUPER: u32 = 0x0000_0040;

/// The set of keyboard modifiers currently held down, kept as a bitmask
/// over the `MODS_` constants.
#[derive(Copy, Clone, PartialEq, Eq, Structural, Debug, Hash)]
pub struct Mods {
    pub bits: u32,
}

impl Mods {
    pub fn empty() -> (r: Mods)
        ensures
            r.bits == 0,
    {
        Mods { bits: 0 }
    }

    pub fn from_bits(bits: u32) -> (r: Mods)
        ensures
            r.bits == bits,
    {
        Mods { bits }
    }

    pub fn insert(&mut self, mask: u32)
        ensures
            final(self).bits == old(self).bits | mask,
    {
        self.bits = self.bits | mask;
    }

    pub fn remove(&mut self, mask: u32)
        ensures
            final(self).bits == old(self).bits & !mask,
    {
        self.bits = self.bits & !mask;
    }

    pub fn intersects(&self, mask: u32) -> (r: bool)
        ensures
            r == (self.bits & mask != 0),
    {
        self.bits & mask != 0
    }
}

impl Default for Mods {
    fn default() -> (r: Mods)
        ensures
            r.bits == 0,
    {
        Mods { bits: 0 }
    }
}

} // verus!

verus! {

/// A physical key position (scancode), named after the QWERTY US keymap:
/// the key on an AZERTY keyboard that types "a" is `Code::Q`.
#[allow(non_camel_case_types)]
#[derive(Copy, Clone, PartialEq, Eq, Structural, Debug, Hash)]
pub enum Code {
    NoKey,
    ErrorRollOver,
    POSTFail,
    ErrorUndefined,
    A,
    B,
    C,
    D,
    E,
    F,
    G,
    H,
    I,
    J,
    K,
    L,
    M,
    N,
    O,
    P,
    Q,
    R,
    S,
    T,
    U,
    V,
    W,
    X,
    Y,
    Z,
    N1,
    N2,
    N3,
    N4,
    N5,
    N6,
    N7,
    N8,
    N9,
    N0,
    Enter,
    Escape,
    Backspace,
    Tab,
    Space,
    Minus,
    Equals,
    LeftBracket,
    RightBracket,
    Backslash,
    UK_Hash,
    Semicolon,
    Quote,
    Grave,
    Comma,
    Period,
    Slash,
    CapsLock,
    F1,
    F2,
    F3,
    F4,
    F5,
    F6,
    F7,
    F8,
    F9,
    F10,
    F11,
    F12,
    PrintScreen,
    ScrollLock,
    Pause,
    Insert,
    Home,
    PageUp,
    Delete,
    End,
    PageDown,
    Right,
    Left,
    Down,
    Up,
    Kp_NumLock,
    Kp_Divide,
    Kp_Multiply,
    Kp_Subtract,
    Kp_Add,
    Kp_Enter,
    Kp_1,
    Kp_2,
    Kp_3,
    Kp_4,
    Kp_5,
    Kp_6,
    Kp_7,
    Kp_8,
    Kp_9,
    Kp_0,
    Kp_Period,
    UK_Backslash,
    Kp_Equal,
    F13,
    F14,
    F15,
    F16,
    F17,
    F18,
    F19,
    F20,
    F21,
    F22,
    F23,
    F24,
    Execute,
    Help,
    Menu,
    Select,
    Stop,
    Again,
    Undo,
    Cut,
    Copy,
    Paste,
    Find,
    Mute,
    VolumeUp,
    VolumeDown,
    LockingCapsLock,
    LockingNumLock,
    LockingScrollLock,
    Kp_Comma,
    Kp_EqualSign,
    International1,
    International2,
    International3,
    International4,
    International5,
    International6,
    International7,
    International8,
    International9,
    LANG1,
    LANG2,
    LANG3,
    LANG4,
    LANG5,
    LANG6,
    LANG7,
    LANG8,
    LANG9,
    AltErase,
    SysReq,
    Cancel,
    Clear,
    Prior,
    Return,
    Separator,
    Out,
    Oper,
    ClearAgain,
    CrSelProps,
    ExSel,
    Kp_00,
    Kp_000,
    ThousandsSep,
    DecimalSep,
    CurrencyUnit,
    CurrencySubUnit,
    Kp_LeftParent,
    Kp_RightParent,
    Kp_LeftCurly,
    Kp_RightCurly,
    Kp_Tab,
    Kp_Backspace,
    Kp_A,
    Kp_B,
    Kp_C,
    Kp_D,
    Kp_E,
    Kp_F,
    Kp_XOR,
    Kp_Pow,
    Kp_Percent,
    Kp_LeftAngle,
    Kp_RightAngle,
    Kp_BitAnd,
    Kp_LogicAnd,
    Kp_BitOr,
    Kp_LogicOr,
    Kp_Colon,
    Kp_Hash,
    Kp_Space,
    Kp_At,
    Kp_Not,
    Kp_MemStore,
    Kp_MemRecall,
    Kp_MemClear,
    Kp_MemAdd,
    Kp_MemSubtract,
    Kp_MemMultiply,
    Kp_MemDivide,
    Kp_PlusMinus,
    Kp_Clear,
    Kp_ClearEntry,
    Kp_Binary,
    Kp_Octal,
    Kp_Decimal,
    Kp_Hexadecimal,
    LeftCtrl,
    LeftShift,
    LeftAlt,
    LeftSuper,
    RightCtrl,
    RightShift,
    RightAlt,
    RightSuper,
    Unknown,
}

/// A virtual key: a physical key translated through the active keymap.
#[allow(non_camel_case_types)]
#[derive(Copy, Clone, PartialEq, Eq, Structural, Debug, Hash)]
pub enum Sym {
    NoSym,
    Unknown,
    Escape,
    Tab,
    LeftTab,
    Backspace,
    Return,
    Delete,
    SysRq,
    Pause,
    Clear,
    CapsLock,
    NumLock,
    ScrollLock,
    Left,
    Up,
    Right,
    Down,
    PageUp,
    PageDown,
    Home,
    End,
    Print,
    Insert,
    Menu,
    Help,
    Break,
    F1,
    F2,
    F3,
    F4,
    F5,
    F6,
    F7,
    F8,
    F9,
    F10,
    F11,
    F12,
    F13,
    F14,
    F15,
    F16,
    F17,
    F18,
    F19,
    F20,
    F21,
    F22,
    F23,
    F24,
    Kp_Enter,
    Kp_Delete,
    Kp_Home,
    Kp_Begin,
    Kp_End,
    Kp_PageUp,
    Kp_PageDown,
    Kp_Up,
    Kp_Down,
    Kp_Left,
    Kp_Right,
    Kp_Equal,
    Kp_Multiply,
    Kp_Add,
    Kp_Divide,
    Kp_Subtract,
    Kp_Decimal,
    Kp_Separator,
    Kp_0,
    Kp_1,
    Kp_2,
    Kp_3,
    Kp_4,
    Kp_5,
    Kp_6,
    Kp_7,
    Kp_8,
    Kp_9,
    Dead_grave,
    Dead_acute,
    Dead_circumflex,
    Dead_tilde,
    Dead_macron,
    Dead_breve,
    Dead_abovedot,
    Dead_diaeresis,
    Dead_abovering,
    Dead_doubleacute,
    Dead_caron,
    Dead_cedilla,
    Dead_ogonek,
    Dead_iota,
    Dead_voiced_sound,
    Dead_semivoiced_sound,
    Dead_belowdot,
    Dead_hook,
    Dead_horn,
    Dead_stroke,
    Dead_abovecomma,
    Dead_abovereversedcomma,
    Dead_doublegrave,
    Dead_belowring,
    Dead_belowmacron,
    Dead_belowcircumflex,
    Dead_belowtilde,
    Dead_belowbreve,
    Dead_belowdiaeresis,
    Dead_invertedbreve,
    Dead_belowcomma,
    Dead_currency,
    Dead_lowline,
    Dead_aboveverticalline,
    Dead_belowverticalline,
    Dead_longsolidusoverlay,
    Dead_a,
    Dead_A,
    Dead_e,
    Dead_E,
    Dead_i,
    Dead_I,
    Dead_o,
    Dead_O,
    Dead_u,
    Dead_U,
    Dead_small_schwa,
    Dead_capital_schwa,
    ModeSwitch,
    LeftCtrl,
    RightCtrl,
    LeftShift,
    RightShift,
    LeftMeta,
    RightMeta,
    LeftAlt,
    RightAlt,
    LeftSuper,
    RightSuper,
    Ctrl,
    Shift,
    Meta,
    Alt,
    Super,
    Space,
    Exclam,
    Quotedbl,
    Numbersign,
    Dollar,
    Percent,
    Ampersand,
    Apostrophe,
    ParenLeft,
    ParenRight,
    Asterisk,
    Plus,
    Comma,
    Minus,
    Period,
    Slash,
    D0,
    D1,
    D2,
    D3,
    D4,
    D5,
    D6,
    D7,
    D8,
    D9,
    Colon,
    Semicolon,
    Less,
    Equal,
    Greater,
    Question,
    At,
    A,
    B,
    C,
    D,
    E,
    F,
    G,
    H,
    I,
    J,
    K,
    L,
    M,
    N,
    O,
    P,
    Q,
    R,
    S,
    T,
    U,
    V,
    W,
    X,
    Y,
    Z,
    BracketLeft,
    Backslash,
    BracketRight,
    AsciiCircum,
    Underscore,
    Grave,
    BraceLeft,
    Bar,
    BraceRight,
    AsciiTilde,
    Back,
    Forward,
    Stop,
    Refresh,
    VolumeDown,
    VolumeMute,
    VolumeUp,
    BassBoost,
    BassUp,
    BassDown,
    TrebleUp,
    TrebleDown,
    MediaPlay,
    MediaStop,
    MediaPrevious,
    MediaNext,
    MediaRecord,
    MediaPause,
    MediaTogglePlayPause,
    HomePage,
    Favorites,
    Search,
    Standby,
    OpenUrl,
    MyComputer,
    LaunchMail,
    LaunchMedia,
    Launch0,
    Launch1,
    Launch2,
    Launch3,
    Launch4,
    Launch5,
    Launch6,
    Launch7,
    Launch8,
    Launch9,
    LaunchA,
    LaunchB,
    LaunchC,
    LaunchD,
    LaunchE,
    LaunchF,
    MonBrightnessUp,
    MonBrightnessDown,
    KeyboardLightOnOff,
    KeyboardBrightnessUp,
    KeyboardBrightnessDown,
    PowerOff,
    WakeUp,
    Eject,
    ScreenSaver,
    WWW,
    Memo,
    LightBulb,
    Shop,
    History,
    AddFavorite,
    HotLinks,
    BrightnessAdjust,
    Finance,
    Community,
    AudioRewind,
    BackForward,
    ApplicationLeft,
    ApplicationRight,
    Book,
    CD,
    Calculator,
    ToDoList,
    ClearGrab,
    Close,
    Copy,
    Cut,
    Display,
    DOS,
    Documents,
    Excel,
    Explorer,
    Game,
    Go,
    iTouch,
    LogOff,
    Market,
    Meeting,
    MenuKB,
    MenuPB,
    MySites,
    News,
    OfficeHome,
    Option,
    Paste,
    Phone,
    Calendar,
    Reply,
    Reload,
    RotateWindows,
    RotationPB,
    RotationKB,
    Save,
    Send,
    Spell,
    SplitScreen,
    Support,
    TaskPane,
    Terminal,
    Tools,
    Travel,
    Video,
    Word,
    Xfer,
    ZoomIn,
    ZoomOut,
    Away,
    Messenger,
    WebCam,
    MailForward,
    Pictures,
    Music,
    Battery,
    Bluetooth,
    WLAN,
    UWB,
    AudioForward,
    AudioRepeat,
    AudioRandomPlay,
    Subtitle,
    AudioCycleTrack,
    Time,
    Hibernate,
    View,
    TopMenu,
    PowerDown,
    Suspend,
    ContrastAdjust,
    LaunchG,
    LaunchH,
    TouchpadToggle,
    TouchpadOn,
    TouchpadOff,
    MicMute,
    Red,
    Green,
    Yellow,
    Blue,
    ChannelUp,
    ChannelDown,
    Guide,
    Info,
    Settings,
    MicVolumeUp,
    MicVolumeDown,
    New,
    Open,
    Find,
    Undo,
    Redo,
    MediaLast,
    Select,
    Yes,
    No,
    Cancel,
    Printer,
    Execute,
    Sleep,
    Play,
    Zoom,
    Exit,
    Context1,
    Context2,
    Context3,
    Context4,
    Call,
    Hangup,
    Flip,
    ToggleCallHangup,
    VoiceDial,
    LastNumberRedial,
    Camera,
    CameraFocus,
}

/// The modifier mask that a snapshot of the native left/right modifier
/// keys amounts to, read before each key or mouse event. Both logo keys
/// fold into the one `MODS_SUPER` bit.
pub open spec fn mods_of_keys(
    left_shift: bool,
    left_ctrl: bool,
    left_alt: bool,
    left_logo: bool,
    right_shift: bool,
    right_ctrl: bool,
    right_alt: bool,
    right_logo: bool,
) -> u32 {
    (if left_shift { MODS_LEFT_SHIFT } else { 0 })
    | (if left_ctrl { MODS_LEFT_CTRL } else { 0 })
    | (if left_alt { MODS_LEFT_ALT } else { 0 })
    | (if left_logo { MODS_SUPER } else { 0 })
    | (if right_shift { MODS_RIGHT_SHIFT } else { 0 })
    | (if right_ctrl { MODS_RIGHT_CTRL } else { 0 })
    | (if right_alt { MODS_RIGHT_ALT } else { 0 })
    | (if right_logo { MODS_SUPER } else { 0 })
}

/// Fold a snapshot of the native modifier keys into a modifier mask.
pub fn mods_from_keys(
    left_shift: bool,
    left_ctrl: bool,
    left_alt: bool,
    left_logo: bool,
    right_shift: bool,
    right_ctrl: bool,
    right_alt: bool,
    right_logo: bool,
) -> (r: Mods)
    ensures
        r.bits == mods_of_keys(
            left_shift,
            left_ctrl,
            left_alt,
            left_logo,
            right_shift,
            right_ctrl,
            right_alt,
            right_logo,
        ),
{
    let mut bits: u32 = 0;
    if left_shift {
        bits = bits | MODS_LEFT_SHIFT;
    }
    if left_ctrl {
        bits = bits | MODS_LEFT_CTRL;
    }
    if left_alt {
        bits = bits | MODS_LEFT_ALT;
    }
    if left_logo {
        bits = bits | MODS_SUPER;
    }
    if right_shift {
        bits = bits | MODS_RIGHT_SHIFT;
    }
    if right_ctrl {
        bits = bits | MODS_RIGHT_CTRL;
    }
    if right_alt {
        bits = bits | MODS_RIGHT_ALT;
    }
    if right_logo {
        bits = bits | MODS_SUPER;
    }
    proof {
        lemma_or_zero_chain();
    }
    Mods { bits }
}

proof fn lemma_or_zero_chain()
    ensures
        forall|a: u32| #![trigger (a | 0u32)] a | 0u32 == a,
        forall|a: u32| #![trigger (0u32 | a)] 0u32 | a == a,
{
    assert forall|a: u32| a | 0u32 == a by {
        assert(a | 0u32 == a) by (bit_vector);
    };
    assert forall|a: u32| 0u32 | a == a by {
        assert(0u32 | a == a) by (bit_vector);
    };
}

} // verus!
