// The minimal-markup formatter and the escape-sequence composers.

use nixterm::ansi;
use nixterm::ansi::Color;
use nixterm::ansi::GraphicRendition;
use nixterm::kitty;
use nixterm::util::write_u8_ansi;
use nixterm::xterm;

#[test]
fn colors() {
    assert_eq!(
        nixterm::format::format("this is [+fg:red]red[-fg] so is [+fg:rgb(128, 0, 0)]this[-fg]").unwrap(),
        "this is \x1b[31mred\x1b[39m so is \x1b[38;2;128;0;0mthis\x1b[39m"
    );

    assert_eq!(
        nixterm::format::format("this is [+fg : blue]~red~ -- I mean blue[-fg] but this is red [+fg:rgb(128, 52, 52)]this[-fg]").unwrap(),
        "this is \x1b[34m\x1b[9mred\x1b[29m -- I mean blue\x1b[39m but this is red \x1b[38;2;128;52;52mthis\x1b[39m"
    );

    assert_eq!(
        nixterm::format::format("maybe... [+fg:6]cyan[-fg] or should I go with [+fg:15]white[-fg]").unwrap(),
        "maybe... \x1b[36mcyan\x1b[39m or should I go with \x1b[97mwhite\x1b[39m"
    );
}

#[test]
fn glitter() {
    assert_eq!(
        nixterm::format::format("_THIS IS VERY IMPORTANT").unwrap(),
        "\x1b[1mTHIS IS VERY IMPORTANT"
    );

    assert_eq!(
        nixterm::format::format("_THIS IS VERY %IMPOR_TANT%").unwrap(),
        "\x1b[1mTHIS IS VERY \x1b[5mIMPOR\x1b[22mTANT\x1b[25m"
    );

    assert_eq!(
        nixterm::format::format("*fancy* %blinky _text_%").unwrap(),
        "\x1b[3mfancy\x1b[23m \x1b[5mblinky \x1b[1mtext\x1b[22m\x1b[25m"
    );

    assert_eq!(
        nixterm::format::format("_%*~HORRIBLE[-all] ok!").unwrap(),
        "\x1b[1m\x1b[5m\x1b[3m\x1b[9mHORRIBLE\x1b[0m ok!"
    );
}

#[test]
fn format_escapes_and_errors() {
    assert_eq!(nixterm::format::format("a\\_b\\q").unwrap(), "a_b\\q");
    assert!(nixterm::format::format("x[+fg:nosuchcolor]y").is_err());
    assert!(nixterm::format::format("x[+fg:red").is_err());
    assert!(nixterm::format::format("x[-zz]").is_err());
}

#[test]
fn parse_color_forms() {
    assert_eq!(ansi::parse_color("red").unwrap(), Color::Index(1));
    assert_eq!(ansi::parse_color(" blue").unwrap(), Color::Index(4));
    assert_eq!(ansi::parse_color("BRIGHTCYAN").unwrap(), Color::Index(14));
    assert_eq!(ansi::parse_color("15").unwrap(), Color::Index(15));
    assert_eq!(
        ansi::parse_color("rgb(128, 0, 0)").unwrap(),
        Color::Rgb(128, 0, 0)
    );
    assert!(ansi::parse_color("300").is_err());
    assert!(matches!(
        ansi::parse_color("chartreuse-ish"),
        Err(nixterm::errors::ErrorKind::UnknownColorName(_))
    ));
}

#[test]
fn ansi_composers() {
    let mut w = Vec::new();
    ansi::set_foreground(&mut w, Color::Index(1)).unwrap();
    assert_eq!(&w, b"\x1b[31m");

    w.clear();
    ansi::set_foreground(&mut w, Color::Index(15)).unwrap();
    assert_eq!(&w, b"\x1b[97m");

    w.clear();
    ansi::set_foreground(&mut w, Color::Index(200)).unwrap();
    assert_eq!(&w, b"\x1b[38;5;200m");

    w.clear();
    ansi::set_background(&mut w, Color::Index(2)).unwrap();
    assert_eq!(&w, b"\x1b[42m");

    w.clear();
    ansi::set_background(&mut w, Color::Rgb(1, 2, 3)).unwrap();
    assert_eq!(&w, b"\x1b[98;2;1;2;3m");

    w.clear();
    ansi::sgr(&mut w, GraphicRendition::Bold).unwrap();
    assert_eq!(&w, b"\x1b[1m");

    w.clear();
    ansi::cursor_shift_vertical(&mut w, 3).unwrap();
    assert_eq!(&w, b"\x1b[3A");

    w.clear();
    ansi::cursor_shift_vertical(&mut w, -2).unwrap();
    assert_eq!(&w, b"\x1b[2B");

    w.clear();
    ansi::cursor_shift_horizontal(&mut w, 0).unwrap();
    assert_eq!(&w, b"");

    w.clear();
    ansi::cursor_move(&mut w, 4, 7).unwrap();
    assert_eq!(&w, b"\x1b[4;7m");

    w.clear();
    ansi::cursor_set_column(&mut w, 12).unwrap();
    assert_eq!(&w, b"\x1b[12G");
}

#[test]
fn xterm_composers() {
    let mut w = Vec::new();
    xterm::set_title(&mut w, "hello").unwrap();
    assert_eq!(&w, b"\x1b[2;hello\x1b\\");

    w.clear();
    xterm::set_icon(&mut w, "i").unwrap();
    assert_eq!(&w, b"\x1b[1;i\x1b\\");

    w.clear();
    xterm::set_icon_and_title(&mut w, "t").unwrap();
    assert_eq!(&w, b"\x1b[0;t\x1b\\");

    w.clear();
    xterm::reset_title(&mut w).unwrap();
    assert_eq!(&w, b"\x1b[2;\x1b\\");

    w.clear();
    xterm::set_x_property(&mut w, "k", "v").unwrap();
    assert_eq!(&w, b"\x1b[3;k=v\x1b\\");

    w.clear();
    xterm::remove_x_property(&mut w, "k").unwrap();
    assert_eq!(&w, b"\x1b[3;k\x1b\\");

    w.clear();
    xterm::query_x_property(&mut w, "k").unwrap();
    assert_eq!(&w, b"\x1b[3;?k\x1b\\");

    w.clear();
    xterm::query_color(&mut w, 0).unwrap();
    assert_eq!(&w, b"\x1b[4;0;?\x1b\\");
}

#[test]
fn kitty_composers() {
    let mut w = Vec::new();
    kitty::set_underline(&mut w, kitty::Underline::Curly).unwrap();
    assert_eq!(&w, b"\x1b]4:3m");

    w.clear();
    kitty::set_underline_color(&mut w, Color::Index(5)).unwrap();
    assert_eq!(&w, b"\x1b]58;5;5m");

    w.clear();
    kitty::set_underline_color(&mut w, Color::Rgb(9, 8, 7)).unwrap();
    assert_eq!(&w, b"\x1b]58;2;9;8;7m");

    w.clear();
    kitty::reset_underline_color(&mut w).unwrap();
    assert_eq!(&w, b"\x1b]59m");
}

#[test]
fn ansi_decimal_elides_zero() {
    let mut w = Vec::new();
    let n = write_u8_ansi(&mut w, 0);
    assert_eq!(n, 0);
    assert_eq!(&w, b"");

    let n = write_u8_ansi(&mut w, 117);
    assert_eq!(n, 3);
    assert_eq!(&w, b"117");
}
