//! The registry of predefined terminfo capabilities.
//!
//! Each enumeration lists the capabilities of one section of a compiled
//! terminfo file, in the canonical `terminfo(5)` order.  A value carries no
//! data of its own: it is nothing but an ordinal index into the matching
//! section array.  Extended (user-defined) capabilities are not enumerated
//! here; they are looked up by name instead.

use vstd::prelude::*;

verus! {

/// How many boolean capabilities `terminfo(5)` predefines.
pub const PREDEFINED_BOOLEANS_COUNT: usize = 44;

/// How many numeric capabilities `terminfo(5)` predefines.
pub const PREDEFINED_NUMERICS_COUNT: usize = 39;

/// How many string capabilities `terminfo(5)` predefines.
pub const PREDEFINED_STRINGS_COUNT: usize = 414;

#[derive(Debug, Clone, Copy, PartialEq, Eq, Structural)]
pub enum BooleanField {
    AutoLeftMargin,
    AutoRightMargin,
    NoEscCtlc,
    CeolStandoutGlitch,
    EatNewlineGlitch,
    EraseOverstrike,
    GenericType,
    HardCopy,
    HasMetaKey,
    HasStatusLine,
    InsertNullGlitch,
    MemoryAbove,
    MemoryBelow,
    MoveInsertMode,
    MoveStandoutMode,
    OverStrike,
    StatusLineEscOk,
    DestTabsMagicSmso,
    TildeGlitch,
    TransparentUnderline,
    XonXoff,
    NeedsXonXoff,
    PrtrSilent,
    HardCursor,
    NonRevRmcup,
    NoPadChar,
    NonDestScrollRegion,
    CanChange,
    BackColorErase,
    HueLightnessSaturation,
    ColAddrGlitch,
    CrCancelsMicroMode,
    HasPrintWheel,
    RowAddrGlitch,
    SemiAutoRightMargin,
    CpiChangesRes,
    LpiChangesRes,
    BackspacesWithBs,
    CrtNoScrolling,
    NoCorrectlyWorkingCr,
    GnuHasMetaKey,
    LinefeedIsNewline,
    HasHardwareTabs,
    ReturnDoesClrEol,
}

impl BooleanField {
    /// The ordinal of this capability: its index into the section array
    /// of a compiled terminfo file.
    pub open spec fn ordinal(self) -> int {
        match self {
            BooleanField::AutoLeftMargin => 0,
            BooleanField::AutoRightMargin => 1,
            BooleanField::NoEscCtlc => 2,
            BooleanField::CeolStandoutGlitch => 3,
            BooleanField::EatNewlineGlitch => 4,
            BooleanField::EraseOverstrike => 5,
            BooleanField::GenericType => 6,
            BooleanField::HardCopy => 7,
            BooleanField::HasMetaKey => 8,
            BooleanField::HasStatusLine => 9,
            BooleanField::InsertNullGlitch => 10,
            BooleanField::MemoryAbove => 11,
            BooleanField::MemoryBelow => 12,
            BooleanField::MoveInsertMode => 13,
            BooleanField::MoveStandoutMode => 14,
            BooleanField::OverStrike => 15,
            BooleanField::StatusLineEscOk => 16,
            BooleanField::DestTabsMagicSmso => 17,
            BooleanField::TildeGlitch => 18,
            BooleanField::TransparentUnderline => 19,
            BooleanField::XonXoff => 20,
            BooleanField::NeedsXonXoff => 21,
            BooleanField::PrtrSilent => 22,
            BooleanField::HardCursor => 23,
            BooleanField::NonRevRmcup => 24,
            BooleanField::NoPadChar => 25,
            BooleanField::NonDestScrollRegion => 26,
            BooleanField::CanChange => 27,
            BooleanField::BackColorErase => 28,
            BooleanField::HueLightnessSaturation => 29,
            BooleanField::ColAddrGlitch => 30,
            BooleanField::CrCancelsMicroMode => 31,
            BooleanField::HasPrintWheel => 32,
            BooleanField::RowAddrGlitch => 33,
            BooleanField::SemiAutoRightMargin => 34,
            BooleanField::CpiChangesRes => 35,
            BooleanField::LpiChangesRes => 36,
            BooleanField::BackspacesWithBs => 37,
            BooleanField::CrtNoScrolling => 38,
            BooleanField::NoCorrectlyWorkingCr => 39,
            BooleanField::GnuHasMetaKey => 40,
            BooleanField::LinefeedIsNewline => 41,
            BooleanField::HasHardwareTabs => 42,
            BooleanField::ReturnDoesClrEol => 43,
        }
    }

    /// Executable counterpart of `ordinal`.
    pub fn index(self) -> (r: usize)
        ensures
            r == self.ordinal(),
            r < 44,
    {
        match self {
            BooleanField::AutoLeftMargin => 0,
            BooleanField::AutoRightMargin => 1,
            BooleanField::NoEscCtlc => 2,
            BooleanField::CeolStandoutGlitch => 3,
            BooleanField::EatNewlineGlitch => 4,
            BooleanField::EraseOverstrike => 5,
            BooleanField::GenericType => 6,
            BooleanField::HardCopy => 7,
            BooleanField::HasMetaKey => 8,
            BooleanField::HasStatusLine => 9,
            BooleanField::InsertNullGlitch => 10,
            BooleanField::MemoryAbove => 11,
            BooleanField::MemoryBelow => 12,
            BooleanField::MoveInsertMode => 13,
            BooleanField::MoveStandoutMode => 14,
            BooleanField::OverStrike => 15,
            BooleanField::StatusLineEscOk => 16,
            BooleanField::DestTabsMagicSmso => 17,
            BooleanField::TildeGlitch => 18,
            BooleanField::TransparentUnderline => 19,
            BooleanField::XonXoff => 20,
            BooleanField::NeedsXonXoff => 21,
            BooleanField::PrtrSilent => 22,
            BooleanField::HardCursor => 23,
            BooleanField::NonRevRmcup => 24,
            BooleanField::NoPadChar => 25,
            BooleanField::NonDestScrollRegion => 26,
            BooleanField::CanChange => 27,
            BooleanField::BackColorErase => 28,
            BooleanField::HueLightnessSaturation => 29,
            BooleanField::ColAddrGlitch => 30,
            BooleanField::CrCancelsMicroMode => 31,
            BooleanField::HasPrintWheel => 32,
            BooleanField::RowAddrGlitch => 33,
            BooleanField::SemiAutoRightMargin => 34,
            BooleanField::CpiChangesRes => 35,
            BooleanField::LpiChangesRes => 36,
            BooleanField::BackspacesWithBs => 37,
            BooleanField::CrtNoScrolling => 38,
            BooleanField::NoCorrectlyWorkingCr => 39,
            BooleanField::GnuHasMetaKey => 40,
            BooleanField::LinefeedIsNewline => 41,
            BooleanField::HasHardwareTabs => 42,
            BooleanField::ReturnDoesClrEol => 43,
        }
    }

    /// The capability whose ordinal is `i`, if any.
    pub fn from_index(i: usize) -> (r: Option<BooleanField>)
        ensures
            match r {
                Some(f) => f.ordinal() == i,
                None => i >= 44,
            },
    {
        match i {
            0 => Some(BooleanField::AutoLeftMargin),
            1 => Some(BooleanField::AutoRightMargin),
            2 => Some(BooleanField::NoEscCtlc),
            3 => Some(BooleanField::CeolStandoutGlitch),
            4 => Some(BooleanField::EatNewlineGlitch),
            5 => Some(BooleanField::EraseOverstrike),
            6 => Some(BooleanField::GenericType),
            7 => Some(BooleanField::HardCopy),
            8 => Some(BooleanField::HasMetaKey),
            9 => Some(BooleanField::HasStatusLine),
            10 => Some(BooleanField::InsertNullGlitch),
            11 => Some(BooleanField::MemoryAbove),
            12 => Some(BooleanField::MemoryBelow),
            13 => Some(BooleanField::MoveInsertMode),
            14 => Some(BooleanField::MoveStandoutMode),
            15 => Some(BooleanField::OverStrike),
            16 => Some(BooleanField::StatusLineEscOk),
            17 => Some(BooleanField::DestTabsMagicSmso),
            18 => Some(BooleanField::TildeGlitch),
            19 => Some(BooleanField::TransparentUnderline),
            20 => Some(BooleanField::XonXoff),
            21 => Some(BooleanField::NeedsXonXoff),
            22 => Some(BooleanField::PrtrSilent),
            23 => Some(BooleanField::HardCursor),
            24 => Some(BooleanField::NonRevRmcup),
            25 => Some(BooleanField::NoPadChar),
            26 => Some(BooleanField::NonDestScrollRegion),
            27 => Some(BooleanField::CanChange),
            28 => Some(BooleanField::BackColorErase),
            29 => Some(BooleanField::HueLightnessSaturation),
            30 => Some(BooleanField::ColAddrGlitch),
            31 => Some(BooleanField::CrCancelsMicroMode),
            32 => Some(BooleanField::HasPrintWheel),
            33 => Some(BooleanField::RowAddrGlitch),
            34 => Some(BooleanField::SemiAutoRightMargin),
            35 => Some(BooleanField::CpiChangesRes),
            36 => Some(BooleanField::LpiChangesRes),
            37 => Some(BooleanField::BackspacesWithBs),
            38 => Some(BooleanField::CrtNoScrolling),
            39 => Some(BooleanField::NoCorrectlyWorkingCr),
            40 => Some(BooleanField::GnuHasMetaKey),
            41 => Some(BooleanField::LinefeedIsNewline),
            42 => Some(BooleanField::HasHardwareTabs),
            43 => Some(BooleanField::ReturnDoesClrEol),
            _ => None,
        }
    }
}

#[derive(Debug, Clone, Copy, PartialEq, Eq, Structural)]
pub enum NumericField {
    Columns,
    InitTabs,
    Lines,
    LinesOfMemory,
    MagicCookieGlitch,
    PaddingBaudRate,
    VirtualTerminal,
    WidthStatusLine,
    NumLabels,
    LabelHeight,
    LabelWidth,
    MaxAttributes,
    MaximumWindows,
    MaxColors,
    MaxPairs,
    NoColorVideo,
    BufferCapacity,
    DotVertSpacing,
    DotHorzSpacing,
    MaxMicroAddress,
    MaxMicroJump,
    MicroColSize,
    MicroLineSize,
    NumberOfPins,
    OutputResChar,
    OutputResLine,
    OutputResHorzInch,
    OutputResVertInch,
    PrintRate,
    WideCharSize,
    Buttons,
    BitImageEntwining,
    BitImageType,
    MagicCookieGlitchUl,
    CarriageReturnDelay,
    NewLineDelay,
    BackspaceDelay,
    HorizontalTabDelay,
    NumberOfFunctionKeys,
}

impl NumericField {
    /// The ordinal of this capability: its index into the section array
    /// of a compiled terminfo file.
    pub open spec fn ordinal(self) -> int {
        match self {
            NumericField::Columns => 0,
            NumericField::InitTabs => 1,
            NumericField::Lines => 2,
            NumericField::LinesOfMemory => 3,
            NumericField::MagicCookieGlitch => 4,
            NumericField::PaddingBaudRate => 5,
            NumericField::VirtualTerminal => 6,
            NumericField::WidthStatusLine => 7,
            NumericField::NumLabels => 8,
            NumericField::LabelHeight => 9,
            NumericField::LabelWidth => 10,
            NumericField::MaxAttributes => 11,
            NumericField::MaximumWindows => 12,
            NumericField::MaxColors => 13,
            NumericField::MaxPairs => 14,
            NumericField::NoColorVideo => 15,
            NumericField::BufferCapacity => 16,
            NumericField::DotVertSpacing => 17,
            NumericField::DotHorzSpacing => 18,
            NumericField::MaxMicroAddress => 19,
            NumericField::MaxMicroJump => 20,
            NumericField::MicroColSize => 21,
            NumericField::MicroLineSize => 22,
            NumericField::NumberOfPins => 23,
            NumericField::OutputResChar => 24,
            NumericField::OutputResLine => 25,
            NumericField::OutputResHorzInch => 26,
            NumericField::OutputResVertInch => 27,
            NumericField::PrintRate => 28,
            NumericField::WideCharSize => 29,
            NumericField::Buttons => 30,
            NumericField::BitImageEntwining => 31,
            NumericField::BitImageType => 32,
            NumericField::MagicCookieGlitchUl => 33,
            NumericField::CarriageReturnDelay => 34,
            NumericField::NewLineDelay => 35,
            NumericField::BackspaceDelay => 36,
            NumericField::HorizontalTabDelay => 37,
            NumericField::NumberOfFunctionKeys => 38,
        }
    }

    /// Executable counterpart of `ordinal`.
    pub fn index(self) -> (r: usize)
        ensures
            r == self.ordinal(),
            r < 39,
    {
        match self {
            NumericField::Columns => 0,
            NumericField::InitTabs => 1,
            NumericField::Lines => 2,
            NumericField::LinesOfMemory => 3,
            NumericField::MagicCookieGlitch => 4,
            NumericField::PaddingBaudRate => 5,
            NumericField::VirtualTerminal => 6,
            NumericField::WidthStatusLine => 7,
            NumericField::NumLabels => 8,
            NumericField::LabelHeight => 9,
            NumericField::LabelWidth => 10,
            NumericField::MaxAttributes => 11,
            NumericField::MaximumWindows => 12,
            NumericField::MaxColors => 13,
            NumericField::MaxPairs => 14,
            NumericField::NoColorVideo => 15,
            NumericField::BufferCapacity => 16,
            NumericField::DotVertSpacing => 17,
            NumericField::DotHorzSpacing => 18,
            NumericField::MaxMicroAddress => 19,
            NumericField::MaxMicroJump => 20,
            NumericField::MicroColSize => 21,
            NumericField::MicroLineSize => 22,
            NumericField::NumberOfPins => 23,
            NumericField::OutputResChar => 24,
            NumericField::OutputResLine => 25,
            NumericField::OutputResHorzInch => 26,
            NumericField::OutputResVertInch => 27,
            NumericField::PrintRate => 28,
            NumericField::WideCharSize => 29,
            NumericField::Buttons => 30,
            NumericField::BitImageEntwining => 31,
            NumericField::BitImageType => 32,
            NumericField::MagicCookieGlitchUl => 33,
            NumericField::CarriageReturnDelay => 34,
            NumericField::NewLineDelay => 35,
            NumericField::BackspaceDelay => 36,
            NumericField::HorizontalTabDelay => 37,
            NumericField::NumberOfFunctionKeys => 38,
        }
    }

    /// The capability whose ordinal is `i`, if any.
    pub fn from_index(i: usize) -> (r: Option<NumericField>)
        ensures
            match r {
                Some(f) => f.ordinal() == i,
                None => i >= 39,
            },
    {
        match i {
            0 => Some(NumericField::Columns),
            1 => Some(NumericField::InitTabs),
            2 => Some(NumericField::Lines),
            3 => Some(NumericField::LinesOfMemory),
            4 => Some(NumericField::MagicCookieGlitch),
            5 => Some(NumericField::PaddingBaudRate),
            6 => Some(NumericField::VirtualTerminal),
            7 => Some(NumericField::WidthStatusLine),
            8 => Some(NumericField::NumLabels),
            9 => Some(NumericField::LabelHeight),
            10 => Some(NumericField::LabelWidth),
            11 => Some(NumericField::MaxAttributes),
            12 => Some(NumericField::MaximumWindows),
            13 => Some(NumericField::MaxColors),
            14 => Some(NumericField::MaxPairs),
            15 => Some(NumericField::NoColorVideo),
            16 => Some(NumericField::BufferCapacity),
            17 => Some(NumericField::DotVertSpacing),
            18 => Some(NumericField::DotHorzSpacing),
            19 => Some(NumericField::MaxMicroAddress),
            20 => Some(NumericField::MaxMicroJump),
            21 => Some(NumericField::MicroColSize),
            22 => Some(NumericField::MicroLineSize),
            23 => Some(NumericField::NumberOfPins),
            24 => Some(NumericField::OutputResChar),
            25 => Some(NumericField::OutputResLine),
            26 => Some(NumericField::OutputResHorzInch),
            27 => Some(NumericField::OutputResVertInch),
            28 => Some(NumericField::PrintRate),
            29 => Some(NumericField::WideCharSize),
            30 => Some(NumericField::Buttons),
            31 => Some(NumericField::BitImageEntwining),
            32 => Some(NumericField::BitImageType),
            33 => Some(NumericField::MagicCookieGlitchUl),
            34 => Some(NumericField::CarriageReturnDelay),
            35 => Some(NumericField::NewLineDelay),
            36 => Some(NumericField::BackspaceDelay),
            37 => Some(NumericField::HorizontalTabDelay),
            38 => Some(NumericField::NumberOfFunctionKeys),
            _ => None,
        }
    }
}

#[derive(Debug, Clone, Copy, PartialEq, Eq, Structural)]
pub enum StringField {
    BackTab,
    Bell,
    CarriageReturn,
    ChangeScrollRegion,
    ClearAllTabs,
    ClearScreen,
    ClrEol,
    ClrEos,
    ColumnAddress,
    CommandCharacter,
    CursorAddress,
    CursorDown,
    CursorHome,
    CursorInvisible,
    CursorLeft,
    CursorMemAddress,
    CursorNormal,
    CursorRight,
    CursorToLl,
    CursorUp,
    CursorVisible,
    DeleteCharacter,
    DeleteLine,
    DisStatusLine,
    DownHalfLine,
    EnterAltCharsetMode,
    EnterBlinkMode,
    EnterBoldMode,
    EnterCaMode,
    EnterDeleteMode,
    EnterDimMode,
    EnterInsertMode,
    EnterSecureMode,
    EnterProtectedMode,
    EnterReverseMode,
    EnterStandoutMode,
    EnterUnderlineMode,
    EraseChars,
    ExitAltCharsetMode,
    ExitAttributeMode,
    ExitCaMode,
    ExitDeleteMode,
    ExitInsertMode,
    ExitStandoutMode,
    ExitUnderlineMode,
    FlashScreen,
    FormFeed,
    FromStatusLine,
    Init1string,
    Init2string,
    Init3string,
    InitFile,
    InsertCharacter,
    InsertLine,
    InsertPadding,
    KeyBackspace,
    KeyCatab,
    KeyClear,
    KeyCtab,
    KeyDc,
    KeyDl,
    KeyDown,
    KeyEic,
    KeyEol,
    KeyEos,
    KeyF0,
    KeyF1,
    KeyF10,
    KeyF2,
    KeyF3,
    KeyF4,
    KeyF5,
    KeyF6,
    KeyF7,
    KeyF8,
    KeyF9,
    KeyHome,
    KeyIc,
    KeyIl,
    KeyLeft,
    KeyLl,
    KeyNpage,
    KeyPpage,
    KeyRight,
    KeySf,
    KeySr,
    KeyStab,
    KeyUp,
    KeypadLocal,
    KeypadXmit,
    LabF0,
    LabF1,
    LabF10,
    LabF2,
    LabF3,
    LabF4,
    LabF5,
    LabF6,
    LabF7,
    LabF8,
    LabF9,
    MetaOff,
    MetaOn,
    Newline,
    PadChar,
    ParmDch,
    ParmDeleteLine,
    ParmDownCursor,
    ParmIch,
    ParmIndex,
    ParmInsertLine,
    ParmLeftCursor,
    ParmRightCursor,
    ParmRindex,
    ParmUpCursor,
    PkeyKey,
    PkeyLocal,
    PkeyXmit,
    PrintScreen,
    PrtrOff,
    PrtrOn,
    RepeatChar,
    Reset1string,
    Reset2string,
    Reset3string,
    ResetFile,
    RestoreCursor,
    RowAddress,
    SaveCursor,
    ScrollForward,
    ScrollReverse,
    SetAttributes,
    SetTab,
    SetWindow,
    Tab,
    ToStatusLine,
    UnderlineChar,
    UpHalfLine,
    InitProg,
    KeyA1,
    KeyA3,
    KeyB2,
    KeyC1,
    KeyC3,
    PrtrNon,
    CharPadding,
    AcsChars,
    PlabNorm,
    KeyBtab,
    EnterXonMode,
    ExitXonMode,
    EnterAmMode,
    ExitAmMode,
    XonCharacter,
    XoffCharacter,
    EnaAcs,
    LabelOn,
    LabelOff,
    KeyBeg,
    KeyCancel,
    KeyClose,
    KeyCommand,
    KeyCopy,
    KeyCreate,
    KeyEnd,
    KeyEnter,
    KeyExit,
    KeyFind,
    KeyHelp,
    KeyMark,
    KeyMessage,
    KeyMove,
    KeyNext,
    KeyOpen,
    KeyOptions,
    KeyPrevious,
    KeyPrint,
    KeyRedo,
    KeyReference,
    KeyRefresh,
    KeyReplace,
    KeyRestart,
    KeyResume,
    KeySave,
    KeySuspend,
    KeyUndo,
    KeySbeg,
    KeyScancel,
    KeyScommand,
    KeyScopy,
    KeyScreate,
    KeySdc,
    KeySdl,
    KeySelect,
    KeySend,
    KeySeol,
    KeySexit,
    KeySfind,
    KeyShelp,
    KeyShome,
    KeySic,
    KeySleft,
    KeySmessage,
    KeySmove,
    KeySnext,
    KeySoptions,
    KeySprevious,
    KeySprint,
    KeySredo,
    KeySreplace,
    KeySright,
    KeySrsume,
    KeySsave,
    KeySsuspend,
    KeySundo,
    ReqForInput,
    KeyF11,
    KeyF12,
    KeyF13,
    KeyF14,
    KeyF15,
    KeyF16,
    KeyF17,
    KeyF18,
    KeyF19,
    KeyF20,
    KeyF21,
    KeyF22,
    KeyF23,
    KeyF24,
    KeyF25,
    KeyF26,
    KeyF27,
    KeyF28,
    KeyF29,
    KeyF30,
    KeyF31,
    KeyF32,
    KeyF33,
    KeyF34,
    KeyF35,
    KeyF36,
    KeyF37,
    KeyF38,
    KeyF39,
    KeyF40,
    KeyF41,
    KeyF42,
    KeyF43,
    KeyF44,
    KeyF45,
    KeyF46,
    KeyF47,
    KeyF48,
    KeyF49,
    KeyF50,
    KeyF51,
    KeyF52,
    KeyF53,
    KeyF54,
    KeyF55,
    KeyF56,
    KeyF57,
    KeyF58,
    KeyF59,
    KeyF60,
    KeyF61,
    KeyF62,
    KeyF63,
    ClrBol,
    ClearMargins,
    SetLeftMargin,
    SetRightMargin,
    LabelFormat,
    SetClock,
    DisplayClock,
    RemoveClock,
    CreateWindow,
    GotoWindow,
    Hangup,
    DialPhone,
    QuickDial,
    Tone,
    Pulse,
    FlashHook,
    FixedPause,
    WaitTone,
    User0,
    User1,
    User2,
    User3,
    User4,
    User5,
    User6,
    User7,
    User8,
    User9,
    OrigPair,
    OrigColors,
    InitializeColor,
    InitializePair,
    SetColorPair,
    SetForeground,
    SetBackground,
    ChangeCharPitch,
    ChangeLinePitch,
    ChangeResHorz,
    ChangeResVert,
    DefineChar,
    EnterDoublewideMode,
    EnterDraftQuality,
    EnterItalicsMode,
    EnterLeftwardMode,
    EnterMicroMode,
    EnterNearLetterQuality,
    EnterNormalQuality,
    EnterShadowMode,
    EnterSubscriptMode,
    EnterSuperscriptMode,
    EnterUpwardMode,
    ExitDoublewideMode,
    ExitItalicsMode,
    ExitLeftwardMode,
    ExitMicroMode,
    ExitShadowMode,
    ExitSubscriptMode,
    ExitSuperscriptMode,
    ExitUpwardMode,
    MicroColumnAddress,
    MicroDown,
    MicroLeft,
    MicroRight,
    MicroRowAddress,
    MicroUp,
    OrderOfPins,
    ParmDownMicro,
    ParmLeftMicro,
    ParmRightMicro,
    ParmUpMicro,
    SelectCharSet,
    SetBottomMargin,
    SetBottomMarginParm,
    SetLeftMarginParm,
    SetRightMarginParm,
    SetTopMargin,
    SetTopMarginParm,
    StartBitImage,
    StartCharSetDef,
    StopBitImage,
    StopCharSetDef,
    SubscriptCharacters,
    SuperscriptCharacters,
    TheseCauseCr,
    ZeroMotion,
    CharSetNames,
    KeyMouse,
    MouseInfo,
    ReqMousePos,
    GetMouse,
    SetAForeground,
    SetABackground,
    PkeyPlab,
    DeviceType,
    CodeSetInit,
    Set0DesSeq,
    Set1DesSeq,
    Set2DesSeq,
    Set3DesSeq,
    SetLrMargin,
    SetTbMargin,
    BitImageRepeat,
    BitImageNewline,
    BitImageCarriageReturn,
    ColorNames,
    DefineBitImageRegion,
    EndBitImageRegion,
    SetColorBand,
    SetPageLength,
    DisplayPcChar,
    EnterPcCharsetMode,
    ExitPcCharsetMode,
    EnterScancodeMode,
    ExitScancodeMode,
    PcTermOptions,
    ScancodeEscape,
    AltScancodeEsc,
    EnterHorizontalHlMode,
    EnterLeftHlMode,
    EnterLowHlMode,
    EnterRightHlMode,
    EnterTopHlMode,
    EnterVerticalHlMode,
    SetAAttributes,
    SetPglenInch,
    TermcapInit2,
    TermcapReset,
    LinefeedIfNotLf,
    BackspaceIfNotBs,
    OtherNonFunctionKeys,
    ArrowKeyMap,
    AcsUlcorner,
    AcsLlcorner,
    AcsUrcorner,
    AcsLrcorner,
    AcsLtee,
    AcsRtee,
    AcsBtee,
    AcsTtee,
    AcsHline,
    AcsVline,
    AcsPlus,
    MemoryLock,
    MemoryUnlock,
    BoxChars1,
}

impl StringField {
    /// The ordinal of this capability: its index into the section array
    /// of a compiled terminfo file.
    pub open spec fn ordinal(self) -> int {
        match self {
            StringField::BackTab => 0,
            StringField::Bell => 1,
            StringField::CarriageReturn => 2,
            StringField::ChangeScrollRegion => 3,
            StringField::ClearAllTabs => 4,
            StringField::ClearScreen => 5,
            StringField::ClrEol => 6,
            StringField::ClrEos => 7,
            StringField::ColumnAddress => 8,
            StringField::CommandCharacter => 9,
            StringField::CursorAddress => 10,
            StringField::CursorDown => 11,
            StringField::CursorHome => 12,
            StringField::CursorInvisible => 13,
            StringField::CursorLeft => 14,
            StringField::CursorMemAddress => 15,
            StringField::CursorNormal => 16,
            StringField::CursorRight => 17,
            StringField::CursorToLl => 18,
            StringField::CursorUp => 19,
            StringField::CursorVisible => 20,
            StringField::DeleteCharacter => 21,
            StringField::DeleteLine => 22,
            StringField::DisStatusLine => 23,
            StringField::DownHalfLine => 24,
            StringField::EnterAltCharsetMode => 25,
            StringField::EnterBlinkMode => 26,
            StringField::EnterBoldMode => 27,
            StringField::EnterCaMode => 28,
            StringField::EnterDeleteMode => 29,
            StringField::EnterDimMode => 30,
            StringField::EnterInsertMode => 31,
            StringField::EnterSecureMode => 32,
            StringField::EnterProtectedMode => 33,
            StringField::EnterReverseMode => 34,
            StringField::EnterStandoutMode => 35,
            StringField::EnterUnderlineMode => 36,
            StringField::EraseChars => 37,
            StringField::ExitAltCharsetMode => 38,
            StringField::ExitAttributeMode => 39,
            StringField::ExitCaMode => 40,
            StringField::ExitDeleteMode => 41,
            StringField::ExitInsertMode => 42,
            StringField::ExitStandoutMode => 43,
            StringField::ExitUnderlineMode => 44,
            StringField::FlashScreen => 45,
            StringField::FormFeed => 46,
            StringField::FromStatusLine => 47,
            StringField::Init1string => 48,
            StringField::Init2string => 49,
            StringField::Init3string => 50,
            StringField::InitFile => 51,
            StringField::InsertCharacter => 52,
            StringField::InsertLine => 53,
            StringField::InsertPadding => 54,
            StringField::KeyBackspace => 55,
            StringField::KeyCatab => 56,
            StringField::KeyClear => 57,
            StringField::KeyCtab => 58,
            StringField::KeyDc => 59,
            StringField::KeyDl => 60,
            StringField::KeyDown => 61,
            StringField::KeyEic => 62,
            StringField::KeyEol => 63,
            StringField::KeyEos => 64,
            StringField::KeyF0 => 65,
            StringField::KeyF1 => 66,
            StringField::KeyF10 => 67,
            StringField::KeyF2 => 68,
            StringField::KeyF3 => 69,
            StringField::KeyF4 => 70,
            StringField::KeyF5 => 71,
            StringField::KeyF6 => 72,
            StringField::KeyF7 => 73,
            StringField::KeyF8 => 74,
            StringField::KeyF9 => 75,
            StringField::KeyHome => 76,
            StringField::KeyIc => 77,
            StringField::KeyIl => 78,
            StringField::KeyLeft => 79,
            StringField::KeyLl => 80,
            StringField::KeyNpage => 81,
            StringField::KeyPpage => 82,
            StringField::KeyRight => 83,
            StringField::KeySf => 84,
            StringField::KeySr => 85,
            StringField::KeyStab => 86,
            StringField::KeyUp => 87,
            StringField::KeypadLocal => 88,
            StringField::KeypadXmit => 89,
            StringField::LabF0 => 90,
            StringField::LabF1 => 91,
            StringField::LabF10 => 92,
            StringField::LabF2 => 93,
            StringField::LabF3 => 94,
            StringField::LabF4 => 95,
            StringField::LabF5 => 96,
            StringField::LabF6 => 97,
            StringField::LabF7 => 98,
            StringField::LabF8 => 99,
            StringField::LabF9 => 100,
            StringField::MetaOff => 101,
            StringField::MetaOn => 102,
            StringField::Newline => 103,
            StringField::PadChar => 104,
            StringField::ParmDch => 105,
            StringField::ParmDeleteLine => 106,
            StringField::ParmDownCursor => 107,
            StringField::ParmIch => 108,
            StringField::ParmIndex => 109,
            StringField::ParmInsertLine => 110,
            StringField::ParmLeftCursor => 111,
            StringField::ParmRightCursor => 112,
            StringField::ParmRindex => 113,
            StringField::ParmUpCursor => 114,
            StringField::PkeyKey => 115,
            StringField::PkeyLocal => 116,
            StringField::PkeyXmit => 117,
            StringField::PrintScreen => 118,
            StringField::PrtrOff => 119,
            StringField::PrtrOn => 120,
            StringField::RepeatChar => 121,
            StringField::Reset1string => 122,
            StringField::Reset2string => 123,
            StringField::Reset3string => 124,
            StringField::ResetFile => 125,
            StringField::RestoreCursor => 126,
            StringField::RowAddress => 127,
            StringField::SaveCursor => 128,
            StringField::ScrollForward => 129,
            StringField::ScrollReverse => 130,
            StringField::SetAttributes => 131,
            StringField::SetTab => 132,
            StringField::SetWindow => 133,
            StringField::Tab => 134,
            StringField::ToStatusLine => 135,
            StringField::UnderlineChar => 136,
            StringField::UpHalfLine => 137,
            StringField::InitProg => 138,
            StringField::KeyA1 => 139,
            StringField::KeyA3 => 140,
            StringField::KeyB2 => 141,
            StringField::KeyC1 => 142,
            StringField::KeyC3 => 143,
            StringField::PrtrNon => 144,
            StringField::CharPadding => 145,
            StringField::AcsChars => 146,
            StringField::PlabNorm => 147,
            StringField::KeyBtab => 148,
            StringField::EnterXonMode => 149,
            StringField::ExitXonMode => 150,
            StringField::EnterAmMode => 151,
            StringField::ExitAmMode => 152,
            StringField::XonCharacter => 153,
            StringField::XoffCharacter => 154,
            StringField::EnaAcs => 155,
            StringField::LabelOn => 156,
            StringField::LabelOff => 157,
            StringField::KeyBeg => 158,
            StringField::KeyCancel => 159,
            StringField::KeyClose => 160,
            StringField::KeyCommand => 161,
            StringField::KeyCopy => 162,
            StringField::KeyCreate => 163,
            StringField::KeyEnd => 164,
            StringField::KeyEnter => 165,
            StringField::KeyExit => 166,
            StringField::KeyFind => 167,
            StringField::KeyHelp => 168,
            StringField::KeyMark => 169,
            StringField::KeyMessage => 170,
            StringField::KeyMove => 171,
            StringField::KeyNext => 172,
            StringField::KeyOpen => 173,
            StringField::KeyOptions => 174,
            StringField::KeyPrevious => 175,
            StringField::KeyPrint => 176,
            StringField::KeyRedo => 177,
            StringField::KeyReference => 178,
            StringField::KeyRefresh => 179,
            StringField::KeyReplace => 180,
            StringField::KeyRestart => 181,
            StringField::KeyResume => 182,
            StringField::KeySave => 183,
            StringField::KeySuspend => 184,
            StringField::KeyUndo => 185,
            StringField::KeySbeg => 186,
            StringField::KeyScancel => 187,
            StringField::KeyScommand => 188,
            StringField::KeyScopy => 189,
            StringField::KeyScreate => 190,
            StringField::KeySdc => 191,
            StringField::KeySdl => 192,
            StringField::KeySelect => 193,
            StringField::KeySend => 194,
            StringField::KeySeol => 195,
            StringField::KeySexit => 196,
            StringField::KeySfind => 197,
            StringField::KeyShelp => 198,
            StringField::KeyShome => 199,
            StringField::KeySic => 200,
            StringField::KeySleft => 201,
            StringField::KeySmessage => 202,
            StringField::KeySmove => 203,
            StringField::KeySnext => 204,
            StringField::KeySoptions => 205,
            StringField::KeySprevious => 206,
            StringField::KeySprint => 207,
            StringField::KeySredo => 208,
            StringField::KeySreplace => 209,
            StringField::KeySright => 210,
            StringField::KeySrsume => 211,
            StringField::KeySsave => 212,
            StringField::KeySsuspend => 213,
            StringField::KeySundo => 214,
            StringField::ReqForInput => 215,
            StringField::KeyF11 => 216,
            StringField::KeyF12 => 217,
            StringField::KeyF13 => 218,
            StringField::KeyF14 => 219,
            StringField::KeyF15 => 220,
            StringField::KeyF16 => 221,
            StringField::KeyF17 => 222,
            StringField::KeyF18 => 223,
            StringField::KeyF19 => 224,
            StringField::KeyF20 => 225,
            StringField::KeyF21 => 226,
            StringField::KeyF22 => 227,
            StringField::KeyF23 => 228,
            StringField::KeyF24 => 229,
            StringField::KeyF25 => 230,
            StringField::KeyF26 => 231,
            StringField::KeyF27 => 232,
            StringField::KeyF28 => 233,
            StringField::KeyF29 => 234,
            StringField::KeyF30 => 235,
            StringField::KeyF31 => 236,
            StringField::KeyF32 => 237,
            StringField::KeyF33 => 238,
            StringField::KeyF34 => 239,
            StringField::KeyF35 => 240,
            StringField::KeyF36 => 241,
            StringField::KeyF37 => 242,
            StringField::KeyF38 => 243,
            StringField::KeyF39 => 244,
            StringField::KeyF40 => 245,
            StringField::KeyF41 => 246,
            StringField::KeyF42 => 247,
            StringField::KeyF43 => 248,
            StringField::KeyF44 => 249,
            StringField::KeyF45 => 250,
            StringField::KeyF46 => 251,
            StringField::KeyF47 => 252,
            StringField::KeyF48 => 253,
            StringField::KeyF49 => 254,
            StringField::KeyF50 => 255,
            StringField::KeyF51 => 256,
            StringField::KeyF52 => 257,
            StringField::KeyF53 => 258,
            StringField::KeyF54 => 259,
            StringField::KeyF55 => 260,
            StringField::KeyF56 => 261,
            StringField::KeyF57 => 262,
            StringField::KeyF58 => 263,
            StringField::KeyF59 => 264,
            StringField::KeyF60 => 265,
            StringField::KeyF61 => 266,
            StringField::KeyF62 => 267,
            StringField::KeyF63 => 268,
            StringField::ClrBol => 269,
            StringField::ClearMargins => 270,
            StringField::SetLeftMargin => 271,
            StringField::SetRightMargin => 272,
            StringField::LabelFormat => 273,
            StringField::SetClock => 274,
            StringField::DisplayClock => 275,
            StringField::RemoveClock => 276,
            StringField::CreateWindow => 277,
            StringField::GotoWindow => 278,
            StringField::Hangup => 279,
            StringField::DialPhone => 280,
            StringField::QuickDial => 281,
            StringField::Tone => 282,
            StringField::Pulse => 283,
            StringField::FlashHook => 284,
            StringField::FixedPause => 285,
            StringField::WaitTone => 286,
            StringField::User0 => 287,
            StringField::User1 => 288,
            StringField::User2 => 289,
            StringField::User3 => 290,
            StringField::User4 => 291,
            StringField::User5 => 292,
            StringField::User6 => 293,
            StringField::User7 => 294,
            StringField::User8 => 295,
            StringField::User9 => 296,
            StringField::OrigPair => 297,
            StringField::OrigColors => 298,
            StringField::InitializeColor => 299,
            StringField::InitializePair => 300,
            StringField::SetColorPair => 301,
            StringField::SetForeground => 302,
            StringField::SetBackground => 303,
            StringField::ChangeCharPitch => 304,
            StringField::ChangeLinePitch => 305,
            StringField::ChangeResHorz => 306,
            StringField::ChangeResVert => 307,
            StringField::DefineChar => 308,
            StringField::EnterDoublewideMode => 309,
            StringField::EnterDraftQuality => 310,
            StringField::EnterItalicsMode => 311,
            StringField::EnterLeftwardMode => 312,
            StringField::EnterMicroMode => 313,
            StringField::EnterNearLetterQuality => 314,
            StringField::EnterNormalQuality => 315,
            StringField::EnterShadowMode => 316,
            StringField::EnterSubscriptMode => 317,
            StringField::EnterSuperscriptMode => 318,
            StringField::EnterUpwardMode => 319,
            StringField::ExitDoublewideMode => 320,
            StringField::ExitItalicsMode => 321,
            StringField::ExitLeftwardMode => 322,
            StringField::ExitMicroMode => 323,
            StringField::ExitShadowMode => 324,
            StringField::ExitSubscriptMode => 325,
            StringField::ExitSuperscriptMode => 326,
            StringField::ExitUpwardMode => 327,
            StringField::MicroColumnAddress => 328,
            StringField::MicroDown => 329,
            StringField::MicroLeft => 330,
            StringField::MicroRight => 331,
            StringField::MicroRowAddress => 332,
            StringField::MicroUp => 333,
            StringField::OrderOfPins => 334,
            StringField::ParmDownMicro => 335,
            StringField::ParmLeftMicro => 336,
            StringField::ParmRightMicro => 337,
            StringField::ParmUpMicro => 338,
            StringField::SelectCharSet => 339,
            StringField::SetBottomMargin => 340,
            StringField::SetBottomMarginParm => 341,
            StringField::SetLeftMarginParm => 342,
            StringField::SetRightMarginParm => 343,
            StringField::SetTopMargin => 344,
            StringField::SetTopMarginParm => 345,
            StringField::StartBitImage => 346,
            StringField::StartCharSetDef => 347,
            StringField::StopBitImage => 348,
            StringField::StopCharSetDef => 349,
            StringField::SubscriptCharacters => 350,
            StringField::SuperscriptCharacters => 351,
            StringField::TheseCauseCr => 352,
            StringField::ZeroMotion => 353,
            StringField::CharSetNames => 354,
            StringField::KeyMouse => 355,
            StringField::MouseInfo => 356,
            StringField::ReqMousePos => 357,
            StringField::GetMouse => 358,
            StringField::SetAForeground => 359,
            StringField::SetABackground => 360,
            StringField::PkeyPlab => 361,
            StringField::DeviceType => 362,
            StringField::CodeSetInit => 363,
            StringField::Set0DesSeq => 364,
            StringField::Set1DesSeq => 365,
            StringField::Set2DesSeq => 366,
            StringField::Set3DesSeq => 367,
            StringField::SetLrMargin => 368,
            StringField::SetTbMargin => 369,
            StringField::BitImageRepeat => 370,
            StringField::BitImageNewline => 371,
            StringField::BitImageCarriageReturn => 372,
            StringField::ColorNames => 373,
            StringField::DefineBitImageRegion => 374,
            StringField::EndBitImageRegion => 375,
            StringField::SetColorBand => 376,
            StringField::SetPageLength => 377,
            StringField::DisplayPcChar => 378,
            StringField::EnterPcCharsetMode => 379,
            StringField::ExitPcCharsetMode => 380,
            StringField::EnterScancodeMode => 381,
            StringField::ExitScancodeMode => 382,
            StringField::PcTermOptions => 383,
            StringField::ScancodeEscape => 384,
            StringField::AltScancodeEsc => 385,
            StringField::EnterHorizontalHlMode => 386,
            StringField::EnterLeftHlMode => 387,
            StringField::EnterLowHlMode => 388,
            StringField::EnterRightHlMode => 389,
            StringField::EnterTopHlMode => 390,
            StringField::EnterVerticalHlMode => 391,
            StringField::SetAAttributes => 392,
            StringField::SetPglenInch => 393,
            StringField::TermcapInit2 => 394,
            StringField::TermcapReset => 395,
            StringField::LinefeedIfNotLf => 396,
            StringField::BackspaceIfNotBs => 397,
            StringField::OtherNonFunctionKeys => 398,
            StringField::ArrowKeyMap => 399,
            StringField::AcsUlcorner => 400,
            StringField::AcsLlcorner => 401,
            StringField::AcsUrcorner => 402,
            StringField::AcsLrcorner => 403,
            StringField::AcsLtee => 404,
            StringField::AcsRtee => 405,
            StringField::AcsBtee => 406,
            StringField::AcsTtee => 407,
            StringField::AcsHline => 408,
            StringField::AcsVline => 409,
            StringField::AcsPlus => 410,
            StringField::MemoryLock => 411,
            StringField::MemoryUnlock => 412,
            StringField::BoxChars1 => 413,
        }
    }

    /// Executable counterpart of `ordinal`.
    pub fn index(self) -> (r: usize)
        ensures
            r == self.ordinal(),
            r < 414,
    {
        match self {
            StringField::BackTab => 0,
            StringField::Bell => 1,
            StringField::CarriageReturn => 2,
            StringField::ChangeScrollRegion => 3,
            StringField::ClearAllTabs => 4,
            StringField::ClearScreen => 5,
            StringField::ClrEol => 6,
            StringField::ClrEos => 7,
            StringField::ColumnAddress => 8,
            StringField::CommandCharacter => 9,
            StringField::CursorAddress => 10,
            StringField::CursorDown => 11,
            StringField::CursorHome => 12,
            StringField::CursorInvisible => 13,
            StringField::CursorLeft => 14,
            StringField::CursorMemAddress => 15,
            StringField::CursorNormal => 16,
            StringField::CursorRight => 17,
            StringField::CursorToLl => 18,
            StringField::CursorUp => 19,
            StringField::CursorVisible => 20,
            StringField::DeleteCharacter => 21,
            StringField::DeleteLine => 22,
            StringField::DisStatusLine => 23,
            StringField::DownHalfLine => 24,
            StringField::EnterAltCharsetMode => 25,
            StringField::EnterBlinkMode => 26,
            StringField::EnterBoldMode => 27,
            StringField::EnterCaMode => 28,
            StringField::EnterDeleteMode => 29,
            StringField::EnterDimMode => 30,
            StringField::EnterInsertMode => 31,
            StringField::EnterSecureMode => 32,
            StringField::EnterProtectedMode => 33,
            StringField::EnterReverseMode => 34,
            StringField::EnterStandoutMode => 35,
            StringField::EnterUnderlineMode => 36,
            StringField::EraseChars => 37,
            StringField::ExitAltCharsetMode => 38,
            StringField::ExitAttributeMode => 39,
            StringField::ExitCaMode => 40,
            StringField::ExitDeleteMode => 41,
            StringField::ExitInsertMode => 42,
            StringField::ExitStandoutMode => 43,
            StringField::ExitUnderlineMode => 44,
            StringField::FlashScreen => 45,
            StringField::FormFeed => 46,
            StringField::FromStatusLine => 47,
            StringField::Init1string => 48,
            StringField::Init2string => 49,
            StringField::Init3string => 50,
            StringField::InitFile => 51,
            StringField::InsertCharacter => 52,
            StringField::InsertLine => 53,
            StringField::InsertPadding => 54,
            StringField::KeyBackspace => 55,
            StringField::KeyCatab => 56,
            StringField::KeyClear => 57,
            StringField::KeyCtab => 58,
            StringField::KeyDc => 59,
            StringField::KeyDl => 60,
            StringField::KeyDown => 61,
            StringField::KeyEic => 62,
            StringField::KeyEol => 63,
            StringField::KeyEos => 64,
            StringField::KeyF0 => 65,
            StringField::KeyF1 => 66,
            StringField::KeyF10 => 67,
            StringField::KeyF2 => 68,
            StringField::KeyF3 => 69,
            StringField::KeyF4 => 70,
            StringField::KeyF5 => 71,
            StringField::KeyF6 => 72,
            StringField::KeyF7 => 73,
            StringField::KeyF8 => 74,
            StringField::KeyF9 => 75,
            StringField::KeyHome => 76,
            StringField::KeyIc => 77,
            StringField::KeyIl => 78,
            StringField::KeyLeft => 79,
            StringField::KeyLl => 80,
            StringField::KeyNpage => 81,
            StringField::KeyPpage => 82,
            StringField::KeyRight => 83,
            StringField::KeySf => 84,
            StringField::KeySr => 85,
            StringField::KeyStab => 86,
            StringField::KeyUp => 87,
            StringField::KeypadLocal => 88,
            StringField::KeypadXmit => 89,
            StringField::LabF0 => 90,
            StringField::LabF1 => 91,
            StringField::LabF10 => 92,
            StringField::LabF2 => 93,
            StringField::LabF3 => 94,
            StringField::LabF4 => 95,
            StringField::LabF5 => 96,
            StringField::LabF6 => 97,
            StringField::LabF7 => 98,
            StringField::LabF8 => 99,
            StringField::LabF9 => 100,
            StringField::MetaOff => 101,
            StringField::MetaOn => 102,
            StringField::Newline => 103,
            StringField::PadChar => 104,
            StringField::ParmDch => 105,
            StringField::ParmDeleteLine => 106,
            StringField::ParmDownCursor => 107,
            StringField::ParmIch => 108,
            StringField::ParmIndex => 109,
            StringField::ParmInsertLine => 110,
            StringField::ParmLeftCursor => 111,
            StringField::ParmRightCursor => 112,
            StringField::ParmRindex => 113,
            StringField::ParmUpCursor => 114,
            StringField::PkeyKey => 115,
            StringField::PkeyLocal => 116,
            StringField::PkeyXmit => 117,
            StringField::PrintScreen => 118,
            StringField::PrtrOff => 119,
            StringField::PrtrOn => 120,
            StringField::RepeatChar => 121,
            StringField::Reset1string => 122,
            StringField::Reset2string => 123,
            StringField::Reset3string => 124,
            StringField::ResetFile => 125,
            StringField::RestoreCursor => 126,
            StringField::RowAddress => 127,
            StringField::SaveCursor => 128,
            StringField::ScrollForward => 129,
            StringField::ScrollReverse => 130,
            StringField::SetAttributes => 131,
            StringField::SetTab => 132,
            StringField::SetWindow => 133,
            StringField::Tab => 134,
            StringField::ToStatusLine => 135,
            StringField::UnderlineChar => 136,
            StringField::UpHalfLine => 137,
            StringField::InitProg => 138,
            StringField::KeyA1 => 139,
            StringField::KeyA3 => 140,
            StringField::KeyB2 => 141,
            StringField::KeyC1 => 142,
            StringField::KeyC3 => 143,
            StringField::PrtrNon => 144,
            StringField::CharPadding => 145,
            StringField::AcsChars => 146,
            StringField::PlabNorm => 147,
            StringField::KeyBtab => 148,
            StringField::EnterXonMode => 149,
            StringField::ExitXonMode => 150,
            StringField::EnterAmMode => 151,
            StringField::ExitAmMode => 152,
            StringField::XonCharacter => 153,
            StringField::XoffCharacter => 154,
            StringField::EnaAcs => 155,
            StringField::LabelOn => 156,
            StringField::LabelOff => 157,
            StringField::KeyBeg => 158,
            StringField::KeyCancel => 159,
            StringField::KeyClose => 160,
            StringField::KeyCommand => 161,
            StringField::KeyCopy => 162,
            StringField::KeyCreate => 163,
            StringField::KeyEnd => 164,
            StringField::KeyEnter => 165,
            StringField::KeyExit => 166,
            StringField::KeyFind => 167,
            StringField::KeyHelp => 168,
            StringField::KeyMark => 169,
            StringField::KeyMessage => 170,
            StringField::KeyMove => 171,
            StringField::KeyNext => 172,
            StringField::KeyOpen => 173,
            StringField::KeyOptions => 174,
            StringField::KeyPrevious => 175,
            StringField::KeyPrint => 176,
            StringField::KeyRedo => 177,
            StringField::KeyReference => 178,
            StringField::KeyRefresh => 179,
            StringField::KeyReplace => 180,
            StringField::KeyRestart => 181,
            StringField::KeyResume => 182,
            StringField::KeySave => 183,
            StringField::KeySuspend => 184,
            StringField::KeyUndo => 185,
            StringField::KeySbeg => 186,
            StringField::KeyScancel => 187,
            StringField::KeyScommand => 188,
            StringField::KeyScopy => 189,
            StringField::KeyScreate => 190,
            StringField::KeySdc => 191,
            StringField::KeySdl => 192,
            StringField::KeySelect => 193,
            StringField::KeySend => 194,
            StringField::KeySeol => 195,
            StringField::KeySexit => 196,
            StringField::KeySfind => 197,
            StringField::KeyShelp => 198,
            StringField::KeyShome => 199,
            StringField::KeySic => 200,
            StringField::KeySleft => 201,
            StringField::KeySmessage => 202,
            StringField::KeySmove => 203,
            StringField::KeySnext => 204,
            StringField::KeySoptions => 205,
            StringField::KeySprevious => 206,
            StringField::KeySprint => 207,
            StringField::KeySredo => 208,
            StringField::KeySreplace => 209,
            StringField::KeySright => 210,
            StringField::KeySrsume => 211,
            StringField::KeySsave => 212,
            StringField::KeySsuspend => 213,
            StringField::KeySundo => 214,
            StringField::ReqForInput => 215,
            StringField::KeyF11 => 216,
            StringField::KeyF12 => 217,
            StringField::KeyF13 => 218,
            StringField::KeyF14 => 219,
            StringField::KeyF15 => 220,
            StringField::KeyF16 => 221,
            StringField::KeyF17 => 222,
            StringField::KeyF18 => 223,
            StringField::KeyF19 => 224,
            StringField::KeyF20 => 225,
            StringField::KeyF21 => 226,
            StringField::KeyF22 => 227,
            StringField::KeyF23 => 228,
            StringField::KeyF24 => 229,
            StringField::KeyF25 => 230,
            StringField::KeyF26 => 231,
            StringField::KeyF27 => 232,
            StringField::KeyF28 => 233,
            StringField::KeyF29 => 234,
            StringField::KeyF30 => 235,
            StringField::KeyF31 => 236,
            StringField::KeyF32 => 237,
            StringField::KeyF33 => 238,
            StringField::KeyF34 => 239,
            StringField::KeyF35 => 240,
            StringField::KeyF36 => 241,
            StringField::KeyF37 => 242,
            StringField::KeyF38 => 243,
            StringField::KeyF39 => 244,
            StringField::KeyF40 => 245,
            StringField::KeyF41 => 246,
            StringField::KeyF42 => 247,
            StringField::KeyF43 => 248,
            StringField::KeyF44 => 249,
            StringField::KeyF45 => 250,
            StringField::KeyF46 => 251,
            StringField::KeyF47 => 252,
            StringField::KeyF48 => 253,
            StringField::KeyF49 => 254,
            StringField::KeyF50 => 255,
            StringField::KeyF51 => 256,
            StringField::KeyF52 => 257,
            StringField::KeyF53 => 258,
            StringField::KeyF54 => 259,
            StringField::KeyF55 => 260,
            StringField::KeyF56 => 261,
            StringField::KeyF57 => 262,
            StringField::KeyF58 => 263,
            StringField::KeyF59 => 264,
            StringField::KeyF60 => 265,
            StringField::KeyF61 => 266,
            StringField::KeyF62 => 267,
            StringField::KeyF63 => 268,
            StringField::ClrBol => 269,
            StringField::ClearMargins => 270,
            StringField::SetLeftMargin => 271,
            StringField::SetRightMargin => 272,
            StringField::LabelFormat => 273,
            StringField::SetClock => 274,
            StringField::DisplayClock => 275,
            StringField::RemoveClock => 276,
            StringField::CreateWindow => 277,
            StringField::GotoWindow => 278,
            StringField::Hangup => 279,
            StringField::DialPhone => 280,
            StringField::QuickDial => 281,
            StringField::Tone => 282,
            StringField::Pulse => 283,
            StringField::FlashHook => 284,
            StringField::FixedPause => 285,
            StringField::WaitTone => 286,
            StringField::User0 => 287,
            StringField::User1 => 288,
            StringField::User2 => 289,
            StringField::User3 => 290,
            StringField::User4 => 291,
            StringField::User5 => 292,
            StringField::User6 => 293,
            StringField::User7 => 294,
            StringField::User8 => 295,
            StringField::User9 => 296,
            StringField::OrigPair => 297,
            StringField::OrigColors => 298,
            StringField::InitializeColor => 299,
            StringField::InitializePair => 300,
            StringField::SetColorPair => 301,
            StringField::SetForeground => 302,
            StringField::SetBackground => 303,
            StringField::ChangeCharPitch => 304,
            StringField::ChangeLinePitch => 305,
            StringField::ChangeResHorz => 306,
            StringField::ChangeResVert => 307,
            StringField::DefineChar => 308,
            StringField::EnterDoublewideMode => 309,
            StringField::EnterDraftQuality => 310,
            StringField::EnterItalicsMode => 311,
            StringField::EnterLeftwardMode => 312,
            StringField::EnterMicroMode => 313,
            StringField::EnterNearLetterQuality => 314,
            StringField::EnterNormalQuality => 315,
            StringField::EnterShadowMode => 316,
            StringField::EnterSubscriptMode => 317,
            StringField::EnterSuperscriptMode => 318,
            StringField::EnterUpwardMode => 319,
            StringField::ExitDoublewideMode => 320,
            StringField::ExitItalicsMode => 321,
            StringField::ExitLeftwardMode => 322,
            StringField::ExitMicroMode => 323,
            StringField::ExitShadowMode => 324,
            StringField::ExitSubscriptMode => 325,
            StringField::ExitSuperscriptMode => 326,
            StringField::ExitUpwardMode => 327,
            StringField::MicroColumnAddress => 328,
            StringField::MicroDown => 329,
            StringField::MicroLeft => 330,
            StringField::MicroRight => 331,
            StringField::MicroRowAddress => 332,
            StringField::MicroUp => 333,
            StringField::OrderOfPins => 334,
            StringField::ParmDownMicro => 335,
            StringField::ParmLeftMicro => 336,
            StringField::ParmRightMicro => 337,
            StringField::ParmUpMicro => 338,
            StringField::SelectCharSet => 339,
            StringField::SetBottomMargin => 340,
            StringField::SetBottomMarginParm => 341,
            StringField::SetLeftMarginParm => 342,
            StringField::SetRightMarginParm => 343,
            StringField::SetTopMargin => 344,
            StringField::SetTopMarginParm => 345,
            StringField::StartBitImage => 346,
            StringField::StartCharSetDef => 347,
            StringField::StopBitImage => 348,
            StringField::StopCharSetDef => 349,
            StringField::SubscriptCharacters => 350,
            StringField::SuperscriptCharacters => 351,
            StringField::TheseCauseCr => 352,
            StringField::ZeroMotion => 353,
            StringField::CharSetNames => 354,
            StringField::KeyMouse => 355,
            StringField::MouseInfo => 356,
            StringField::ReqMousePos => 357,
            StringField::GetMouse => 358,
            StringField::SetAForeground => 359,
            StringField::SetABackground => 360,
            StringField::PkeyPlab => 361,
            StringField::DeviceType => 362,
            StringField::CodeSetInit => 363,
            StringField::Set0DesSeq => 364,
            StringField::Set1DesSeq => 365,
            StringField::Set2DesSeq => 366,
            StringField::Set3DesSeq => 367,
            StringField::SetLrMargin => 368,
            StringField::SetTbMargin => 369,
            StringField::BitImageRepeat => 370,
            StringField::BitImageNewline => 371,
            StringField::BitImageCarriageReturn => 372,
            StringField::ColorNames => 373,
            StringField::DefineBitImageRegion => 374,
            StringField::EndBitImageRegion => 375,
            StringField::SetColorBand => 376,
            StringField::SetPageLength => 377,
            StringField::DisplayPcChar => 378,
            StringField::EnterPcCharsetMode => 379,
            StringField::ExitPcCharsetMode => 380,
            StringField::EnterScancodeMode => 381,
            StringField::ExitScancodeMode => 382,
            StringField::PcTermOptions => 383,
            StringField::ScancodeEscape => 384,
            StringField::AltScancodeEsc => 385,
            StringField::EnterHorizontalHlMode => 386,
            StringField::EnterLeftHlMode => 387,
            StringField::EnterLowHlMode => 388,
            StringField::EnterRightHlMode => 389,
            StringField::EnterTopHlMode => 390,
            StringField::EnterVerticalHlMode => 391,
            StringField::SetAAttributes => 392,
            StringField::SetPglenInch => 393,
            StringField::TermcapInit2 => 394,
            StringField::TermcapReset => 395,
            StringField::LinefeedIfNotLf => 396,
            StringField::BackspaceIfNotBs => 397,
            StringField::OtherNonFunctionKeys => 398,
            StringField::ArrowKeyMap => 399,
            StringField::AcsUlcorner => 400,
            StringField::AcsLlcorner => 401,
            StringField::AcsUrcorner => 402,
            StringField::AcsLrcorner => 403,
            StringField::AcsLtee => 404,
            StringField::AcsRtee => 405,
            StringField::AcsBtee => 406,
            StringField::AcsTtee => 407,
            StringField::AcsHline => 408,
            StringField::AcsVline => 409,
            StringField::AcsPlus => 410,
            StringField::MemoryLock => 411,
            StringField::MemoryUnlock => 412,
            StringField::BoxChars1 => 413,
        }
    }

    /// The capability whose ordinal is `i`, if any.
    #[verifier::rlimit(100)]
    #[verifier::spinoff_prover]
    pub fn from_index(i: usize) -> (r: Option<StringField>)
        ensures
            match r {
                Some(f) => f.ordinal() == i,
                None => i >= 414,
            },
    {
        match i {
            0 => Some(StringField::BackTab),
            1 => Some(StringField::Bell),
            2 => Some(StringField::CarriageReturn),
            3 => Some(StringField::ChangeScrollRegion),
            4 => Some(StringField::ClearAllTabs),
            5 => Some(StringField::ClearScreen),
            6 => Some(StringField::ClrEol),
            7 => Some(StringField::ClrEos),
            8 => Some(StringField::ColumnAddress),
            9 => Some(StringField::CommandCharacter),
            10 => Some(StringField::CursorAddress),
            11 => Some(StringField::CursorDown),
            12 => Some(StringField::CursorHome),
            13 => Some(StringField::CursorInvisible),
            14 => Some(StringField::CursorLeft),
            15 => Some(StringField::CursorMemAddress),
            16 => Some(StringField::CursorNormal),
            17 => Some(StringField::CursorRight),
            18 => Some(StringField::CursorToLl),
            19 => Some(StringField::CursorUp),
            20 => Some(StringField::CursorVisible),
            21 => Some(StringField::DeleteCharacter),
            22 => Some(StringField::DeleteLine),
            23 => Some(StringField::DisStatusLine),
            24 => Some(StringField::DownHalfLine),
            25 => Some(StringField::EnterAltCharsetMode),
            26 => Some(StringField::EnterBlinkMode),
            27 => Some(StringField::EnterBoldMode),
            28 => Some(StringField::EnterCaMode),
            29 => Some(StringField::EnterDeleteMode),
            30 => Some(StringField::EnterDimMode),
            31 => Some(StringField::EnterInsertMode),
            32 => Some(StringField::EnterSecureMode),
            33 => Some(StringField::EnterProtectedMode),
            34 => Some(StringField::EnterReverseMode),
            35 => Some(StringField::EnterStandoutMode),
            36 => Some(StringField::EnterUnderlineMode),
            37 => Some(StringField::EraseChars),
            38 => Some(StringField::ExitAltCharsetMode),
            39 => Some(StringField::ExitAttributeMode),
            40 => Some(StringField::ExitCaMode),
            41 => Some(StringField::ExitDeleteMode),
            42 => Some(StringField::ExitInsertMode),
            43 => Some(StringField::ExitStandoutMode),
            44 => Some(StringField::ExitUnderlineMode),
            45 => Some(StringField::FlashScreen),
            46 => Some(StringField::FormFeed),
            47 => Some(StringField::FromStatusLine),
            48 => Some(StringField::Init1string),
            49 => Some(StringField::Init2string),
            50 => Some(StringField::Init3string),
            51 => Some(StringField::InitFile),
            52 => Some(StringField::InsertCharacter),
            53 => Some(StringField::InsertLine),
            54 => Some(StringField::InsertPadding),
            55 => Some(StringField::KeyBackspace),
            56 => Some(StringField::KeyCatab),
            57 => Some(StringField::KeyClear),
            58 => Some(StringField::KeyCtab),
            59 => Some(StringField::KeyDc),
            60 => Some(StringField::KeyDl),
            61 => Some(StringField::KeyDown),
            62 => Some(StringField::KeyEic),
            63 => Some(StringField::KeyEol),
            64 => Some(StringField::KeyEos),
            65 => Some(StringField::KeyF0),
            66 => Some(StringField::KeyF1),
            67 => Some(StringField::KeyF10),
            68 => Some(StringField::KeyF2),
            69 => Some(StringField::KeyF3),
            70 => Some(StringField::KeyF4),
            71 => Some(StringField::KeyF5),
            72 => Some(StringField::KeyF6),
            73 => Some(StringField::KeyF7),
            74 => Some(StringField::KeyF8),
            75 => Some(StringField::KeyF9),
            76 => Some(StringField::KeyHome),
            77 => Some(StringField::KeyIc),
            78 => Some(StringField::KeyIl),
            79 => Some(StringField::KeyLeft),
            80 => Some(StringField::KeyLl),
            81 => Some(StringField::KeyNpage),
            82 => Some(StringField::KeyPpage),
            83 => Some(StringField::KeyRight),
            84 => Some(StringField::KeySf),
            85 => Some(StringField::KeySr),
            86 => Some(StringField::KeyStab),
            87 => Some(StringField::KeyUp),
            88 => Some(StringField::KeypadLocal),
            89 => Some(StringField::KeypadXmit),
            90 => Some(StringField::LabF0),
            91 => Some(StringField::LabF1),
            92 => Some(StringField::LabF10),
            93 => Some(StringField::LabF2),
            94 => Some(StringField::LabF3),
            95 => Some(StringField::LabF4),
            96 => Some(StringField::LabF5),
            97 => Some(StringField::LabF6),
            98 => Some(StringField::LabF7),
            99 => Some(StringField::LabF8),
            100 => Some(StringField::LabF9),
            101 => Some(StringField::MetaOff),
            102 => Some(StringField::MetaOn),
            103 => Some(StringField::Newline),
            104 => Some(StringField::PadChar),
            105 => Some(StringField::ParmDch),
            106 => Some(StringField::ParmDeleteLine),
            107 => Some(StringField::ParmDownCursor),
            108 => Some(StringField::ParmIch),
            109 => Some(StringField::ParmIndex),
            110 => Some(StringField::ParmInsertLine),
            111 => Some(StringField::ParmLeftCursor),
            112 => Some(StringField::ParmRightCursor),
            113 => Some(StringField::ParmRindex),
            114 => Some(StringField::ParmUpCursor),
            115 => Some(StringField::PkeyKey),
            116 => Some(StringField::PkeyLocal),
            117 => Some(StringField::PkeyXmit),
            118 => Some(StringField::PrintScreen),
            119 => Some(StringField::PrtrOff),
            120 => Some(StringField::PrtrOn),
            121 => Some(StringField::RepeatChar),
            122 => Some(StringField::Reset1string),
            123 => Some(StringField::Reset2string),
            124 => Some(StringField::Reset3string),
            125 => Some(StringField::ResetFile),
            126 => Some(StringField::RestoreCursor),
            127 => Some(StringField::RowAddress),
            128 => Some(StringField::SaveCursor),
            129 => Some(StringField::ScrollForward),
            130 => Some(StringField::ScrollReverse),
            131 => Some(StringField::SetAttributes),
            132 => Some(StringField::SetTab),
            133 => Some(StringField::SetWindow),
            134 => Some(StringField::Tab),
            135 => Some(StringField::ToStatusLine),
            136 => Some(StringField::UnderlineChar),
            137 => Some(StringField::UpHalfLine),
            138 => Some(StringField::InitProg),
            139 => Some(StringField::KeyA1),
            140 => Some(StringField::KeyA3),
            141 => Some(StringField::KeyB2),
            142 => Some(StringField::KeyC1),
            143 => Some(StringField::KeyC3),
            144 => Some(StringField::PrtrNon),
            145 => Some(StringField::CharPadding),
            146 => Some(StringField::AcsChars),
            147 => Some(StringField::PlabNorm),
            148 => Some(StringField::KeyBtab),
            149 => Some(StringField::EnterXonMode),
            150 => Some(StringField::ExitXonMode),
            151 => Some(StringField::EnterAmMode),
            152 => Some(StringField::ExitAmMode),
            153 => Some(StringField::XonCharacter),
            154 => Some(StringField::XoffCharacter),
            155 => Some(StringField::EnaAcs),
            156 => Some(StringField::LabelOn),
            157 => Some(StringField::LabelOff),
            158 => Some(StringField::KeyBeg),
            159 => Some(StringField::KeyCancel),
            160 => Some(StringField::KeyClose),
            161 => Some(StringField::KeyCommand),
            162 => Some(StringField::KeyCopy),
            163 => Some(StringField::KeyCreate),
            164 => Some(StringField::KeyEnd),
            165 => Some(StringField::KeyEnter),
            166 => Some(StringField::KeyExit),
            167 => Some(StringField::KeyFind),
            168 => Some(StringField::KeyHelp),
            169 => Some(StringField::KeyMark),
            170 => Some(StringField::KeyMessage),
            171 => Some(StringField::KeyMove),
            172 => Some(StringField::KeyNext),
            173 => Some(StringField::KeyOpen),
            174 => Some(StringField::KeyOptions),
            175 => Some(StringField::KeyPrevious),
            176 => Some(StringField::KeyPrint),
            177 => Some(StringField::KeyRedo),
            178 => Some(StringField::KeyReference),
            179 => Some(StringField::KeyRefresh),
            180 => Some(StringField::KeyReplace),
            181 => Some(StringField::KeyRestart),
            182 => Some(StringField::KeyResume),
            183 => Some(StringField::KeySave),
            184 => Some(StringField::KeySuspend),
            185 => Some(StringField::KeyUndo),
            186 => Some(StringField::KeySbeg),
            187 => Some(StringField::KeyScancel),
            188 => Some(StringField::KeyScommand),
            189 => Some(StringField::KeyScopy),
            190 => Some(StringField::KeyScreate),
            191 => Some(StringField::KeySdc),
            192 => Some(StringField::KeySdl),
            193 => Some(StringField::KeySelect),
            194 => Some(StringField::KeySend),
            195 => Some(StringField::KeySeol),
            196 => Some(StringField::KeySexit),
            197 => Some(StringField::KeySfind),
            198 => Some(StringField::KeyShelp),
            199 => Some(StringField::KeyShome),
            200 => Some(StringField::KeySic),
            201 => Some(StringField::KeySleft),
            202 => Some(StringField::KeySmessage),
            203 => Some(StringField::KeySmove),
            204 => Some(StringField::KeySnext),
            205 => Some(StringField::KeySoptions),
            206 => Some(StringField::KeySprevious),
            207 => Some(StringField::KeySprint),
            208 => Some(StringField::KeySredo),
            209 => Some(StringField::KeySreplace),
            210 => Some(StringField::KeySright),
            211 => Some(StringField::KeySrsume),
            212 => Some(StringField::KeySsave),
            213 => Some(StringField::KeySsuspend),
            214 => Some(StringField::KeySundo),
            215 => Some(StringField::ReqForInput),
            216 => Some(StringField::KeyF11),
            217 => Some(StringField::KeyF12),
            218 => Some(StringField::KeyF13),
            219 => Some(StringField::KeyF14),
            220 => Some(StringField::KeyF15),
            221 => Some(StringField::KeyF16),
            222 => Some(StringField::KeyF17),
            223 => Some(StringField::KeyF18),
            224 => Some(StringField::KeyF19),
            225 => Some(StringField::KeyF20),
            226 => Some(StringField::KeyF21),
            227 => Some(StringField::KeyF22),
            228 => Some(StringField::KeyF23),
            229 => Some(StringField::KeyF24),
            230 => Some(StringField::KeyF25),
            231 => Some(StringField::KeyF26),
            232 => Some(StringField::KeyF27),
            233 => Some(StringField::KeyF28),
            234 => Some(StringField::KeyF29),
            235 => Some(StringField::KeyF30),
            236 => Some(StringField::KeyF31),
            237 => Some(StringField::KeyF32),
            238 => Some(StringField::KeyF33),
            239 => Some(StringField::KeyF34),
            240 => Some(StringField::KeyF35),
            241 => Some(StringField::KeyF36),
            242 => Some(StringField::KeyF37),
            243 => Some(StringField::KeyF38),
            244 => Some(StringField::KeyF39),
            245 => Some(StringField::KeyF40),
            246 => Some(StringField::KeyF41),
            247 => Some(StringField::KeyF42),
            248 => Some(StringField::KeyF43),
            249 => Some(StringField::KeyF44),
            250 => Some(StringField::KeyF45),
            251 => Some(StringField::KeyF46),
            252 => Some(StringField::KeyF47),
            253 => Some(StringField::KeyF48),
            254 => Some(StringField::KeyF49),
            255 => Some(StringField::KeyF50),
            256 => Some(StringField::KeyF51),
            257 => Some(StringField::KeyF52),
            258 => Some(StringField::KeyF53),
            259 => Some(StringField::KeyF54),
            260 => Some(StringField::KeyF55),
            261 => Some(StringField::KeyF56),
            262 => Some(StringField::KeyF57),
            263 => Some(StringField::KeyF58),
            264 => Some(StringField::KeyF59),
            265 => Some(StringField::KeyF60),
            266 => Some(StringField::KeyF61),
            267 => Some(StringField::KeyF62),
            268 => Some(StringField::KeyF63),
            269 => Some(StringField::ClrBol),
            270 => Some(StringField::ClearMargins),
            271 => Some(StringField::SetLeftMargin),
            272 => Some(StringField::SetRightMargin),
            273 => Some(StringField::LabelFormat),
            274 => Some(StringField::SetClock),
            275 => Some(StringField::DisplayClock),
            276 => Some(StringField::RemoveClock),
            277 => Some(StringField::CreateWindow),
            278 => Some(StringField::GotoWindow),
            279 => Some(StringField::Hangup),
            280 => Some(StringField::DialPhone),
            281 => Some(StringField::QuickDial),
            282 => Some(StringField::Tone),
            283 => Some(StringField::Pulse),
            284 => Some(StringField::FlashHook),
            285 => Some(StringField::FixedPause),
            286 => Some(StringField::WaitTone),
            287 => Some(StringField::User0),
            288 => Some(StringField::User1),
            289 => Some(StringField::User2),
            290 => Some(StringField::User3),
            291 => Some(StringField::User4),
            292 => Some(StringField::User5),
            293 => Some(StringField::User6),
            294 => Some(StringField::User7),
            295 => Some(StringField::User8),
            296 => Some(StringField::User9),
            297 => Some(StringField::OrigPair),
            298 => Some(StringField::OrigColors),
            299 => Some(StringField::InitializeColor),
            300 => Some(StringField::InitializePair),
            301 => Some(StringField::SetColorPair),
            302 => Some(StringField::SetForeground),
            303 => Some(StringField::SetBackground),
            304 => Some(StringField::ChangeCharPitch),
            305 => Some(StringField::ChangeLinePitch),
            306 => Some(StringField::ChangeResHorz),
            307 => Some(StringField::ChangeResVert),
            308 => Some(StringField::DefineChar),
            309 => Some(StringField::EnterDoublewideMode),
            310 => Some(StringField::EnterDraftQuality),
            311 => Some(StringField::EnterItalicsMode),
            312 => Some(StringField::EnterLeftwardMode),
            313 => Some(StringField::EnterMicroMode),
            314 => Some(StringField::EnterNearLetterQuality),
            315 => Some(StringField::EnterNormalQuality),
            316 => Some(StringField::EnterShadowMode),
            317 => Some(StringField::EnterSubscriptMode),
            318 => Some(StringField::EnterSuperscriptMode),
            319 => Some(StringField::EnterUpwardMode),
            320 => Some(StringField::ExitDoublewideMode),
            321 => Some(StringField::ExitItalicsMode),
            322 => Some(StringField::ExitLeftwardMode),
            323 => Some(StringField::ExitMicroMode),
            324 => Some(StringField::ExitShadowMode),
            325 => Some(StringField::ExitSubscriptMode),
            326 => Some(StringField::ExitSuperscriptMode),
            327 => Some(StringField::ExitUpwardMode),
            328 => Some(StringField::MicroColumnAddress),
            329 => Some(StringField::MicroDown),
            330 => Some(StringField::MicroLeft),
            331 => Some(StringField::MicroRight),
            332 => Some(StringField::MicroRowAddress),
            333 => Some(StringField::MicroUp),
            334 => Some(StringField::OrderOfPins),
            335 => Some(StringField::ParmDownMicro),
            336 => Some(StringField::ParmLeftMicro),
            337 => Some(StringField::ParmRightMicro),
            338 => Some(StringField::ParmUpMicro),
            339 => Some(StringField::SelectCharSet),
            340 => Some(StringField::SetBottomMargin),
            341 => Some(StringField::SetBottomMarginParm),
            342 => Some(StringField::SetLeftMarginParm),
            343 => Some(StringField::SetRightMarginParm),
            344 => Some(StringField::SetTopMargin),
            345 => Some(StringField::SetTopMarginParm),
            346 => Some(StringField::StartBitImage),
            347 => Some(StringField::StartCharSetDef),
            348 => Some(StringField::StopBitImage),
            349 => Some(StringField::StopCharSetDef),
            350 => Some(StringField::SubscriptCharacters),
            351 => Some(StringField::SuperscriptCharacters),
            352 => Some(StringField::TheseCauseCr),
            353 => Some(StringField::ZeroMotion),
            354 => Some(StringField::CharSetNames),
            355 => Some(StringField::KeyMouse),
            356 => Some(StringField::MouseInfo),
            357 => Some(StringField::ReqMousePos),
            358 => Some(StringField::GetMouse),
            359 => Some(StringField::SetAForeground),
            360 => Some(StringField::SetABackground),
            361 => Some(StringField::PkeyPlab),
            362 => Some(StringField::DeviceType),
            363 => Some(StringField::CodeSetInit),
            364 => Some(StringField::Set0DesSeq),
            365 => Some(StringField::Set1DesSeq),
            366 => Some(StringField::Set2DesSeq),
            367 => Some(StringField::Set3DesSeq),
            368 => Some(StringField::SetLrMargin),
            369 => Some(StringField::SetTbMargin),
            370 => Some(StringField::BitImageRepeat),
            371 => Some(StringField::BitImageNewline),
            372 => Some(StringField::BitImageCarriageReturn),
            373 => Some(StringField::ColorNames),
            374 => Some(StringField::DefineBitImageRegion),
            375 => Some(StringField::EndBitImageRegion),
            376 => Some(StringField::SetColorBand),
            377 => Some(StringField::SetPageLength),
            378 => Some(StringField::DisplayPcChar),
            379 => Some(StringField::EnterPcCharsetMode),
            380 => Some(StringField::ExitPcCharsetMode),
            381 => Some(StringField::EnterScancodeMode),
            382 => Some(StringField::ExitScancodeMode),
            383 => Some(StringField::PcTermOptions),
            384 => Some(StringField::ScancodeEscape),
            385 => Some(StringField::AltScancodeEsc),
            386 => Some(StringField::EnterHorizontalHlMode),
            387 => Some(StringField::EnterLeftHlMode),
            388 => Some(StringField::EnterLowHlMode),
            389 => Some(StringField::EnterRightHlMode),
            390 => Some(StringField::EnterTopHlMode),
            391 => Some(StringField::EnterVerticalHlMode),
            392 => Some(StringField::SetAAttributes),
            393 => Some(StringField::SetPglenInch),
            394 => Some(StringField::TermcapInit2),
            395 => Some(StringField::TermcapReset),
            396 => Some(StringField::LinefeedIfNotLf),
            397 => Some(StringField::BackspaceIfNotBs),
            398 => Some(StringField::OtherNonFunctionKeys),
            399 => Some(StringField::ArrowKeyMap),
            400 => Some(StringField::AcsUlcorner),
            401 => Some(StringField::AcsLlcorner),
            402 => Some(StringField::AcsUrcorner),
            403 => Some(StringField::AcsLrcorner),
            404 => Some(StringField::AcsLtee),
            405 => Some(StringField::AcsRtee),
            406 => Some(StringField::AcsBtee),
            407 => Some(StringField::AcsTtee),
            408 => Some(StringField::AcsHline),
            409 => Some(StringField::AcsVline),
            410 => Some(StringField::AcsPlus),
            411 => Some(StringField::MemoryLock),
            412 => Some(StringField::MemoryUnlock),
            413 => Some(StringField::BoxChars1),
            _ => None,
        }
    }
}

} // verus!
