// The capability-string interpreter: the printf subset, the executor, and
// the word-at-a-time NUL scan.

use nixterm::lang::printf::PrintfArgs;
use nixterm::lang::Argument;
use nixterm::lang::Executor;
use nixterm::terminfo::ArgType;
use nixterm::terminfo::ErrorKind;
use nixterm::util::has_null_byte;

#[test]
fn printf() {
    let mut buffer = Vec::new();
    PrintfArgs::parse(b"s")
        .unwrap()
        .print(&mut buffer, Some(Argument::of_str("Hello World!")))
        .unwrap();
    assert_eq!(&buffer, b"Hello World!");

    buffer.clear();
    PrintfArgs::parse(b"d")
        .unwrap()
        .print(&mut buffer, Some(Argument::from(12)))
        .unwrap();
    assert_eq!(&buffer, b"12");

    buffer.clear();
    PrintfArgs::parse(b": d")
        .unwrap()
        .print(&mut buffer, Some(Argument::from(12)))
        .unwrap();
    assert_eq!(&buffer, b" 12");

    buffer.clear();
    PrintfArgs::parse(b"d")
        .unwrap()
        .print(&mut buffer, Some(Argument::from(i64::MAX)))
        .unwrap();
    assert_eq!(&buffer, b"9223372036854775807");
    buffer.clear();

    PrintfArgs::parse(b":-5d")
        .unwrap()
        .print(&mut buffer, Some(Argument::from(21)))
        .unwrap();
    assert_eq!(&buffer, b"21   ");
    buffer.clear();

    PrintfArgs::parse(b".1d")
        .unwrap()
        .print(&mut buffer, Some(Argument::from(21)))
        .unwrap();
    assert_eq!(&buffer, b"2");
    buffer.clear();

    PrintfArgs::parse(b".4s")
        .unwrap()
        .print(&mut buffer, Some(Argument::of_str("Crop Me")))
        .unwrap();
    assert_eq!(&buffer, b"Crop");
    buffer.clear();

    PrintfArgs::parse(b"9.4s")
        .unwrap()
        .print(&mut buffer, Some(Argument::of_str("Crop Me")))
        .unwrap();
    assert_eq!(&buffer, b"     Crop");
    buffer.clear();

    PrintfArgs::parse(b":-9.4d")
        .unwrap()
        .print(&mut buffer, Some(Argument::from(99)))
        .unwrap();
    assert_eq!(&buffer, b"99       ");
    buffer.clear();

    PrintfArgs::parse(b":-9.4d")
        .unwrap()
        .print(&mut buffer, Some(Argument::from(99999)))
        .unwrap();
    assert_eq!(&buffer, b"9999     ");
}

#[test]
fn simple() {
    let mut buffer = Vec::new();
    Executor::new(b"%p1%p2%+%d")
        .arg(Argument::from(30))
        .arg(Argument::from(2))
        .write(&mut buffer)
        .unwrap();
    assert_eq!(&buffer, b"32");
    buffer.clear();

    Executor::new(b"%{8}%{22}%+%d%'c'%c")
        .write(&mut buffer)
        .unwrap();
    assert_eq!(&buffer, b"30c");
    buffer.clear();

    Executor::new(b"%p1%p2%+/%d%p1%.1d")
        .arg(Argument::from(40))
        .arg(Argument::from(20))
        .write(&mut buffer)
        .unwrap();
    assert_eq!(&buffer, b"/604");
    buffer.clear();

    Executor::new(b"%i%p1%d.%p2%d")
        .arg(Argument::from(1))
        .arg(Argument::from(2))
        .write(&mut buffer)
        .unwrap();
    assert_eq!(&buffer, b"2.3");
    buffer.clear();

    Executor::new(b"%p1%l%p1\"%s\" is %d characters long!")
        .arg(Argument::of_str("Hello World"))
        .write(&mut buffer)
        .unwrap();
    assert_eq!(
        buffer,
        b"\"Hello World\" is 11 characters long!"
            .iter()
            .map(|&c| c)
            .collect::<Vec<u8>>()
    );
    buffer.clear();

    Executor::new(b"%?%p1%tyes!%;")
        .arg(Argument::from(1))
        .write(&mut buffer)
        .unwrap();
    assert_eq!(&buffer, b"yes!");
    buffer.clear();

    Executor::new(b"%?%p1%tyes!%eno!%;")
        .arg(Argument::from(0))
        .write(&mut buffer)
        .unwrap();
    assert_eq!(&buffer, b"no!");
    buffer.clear();

    Executor::new(b"%?%p9%t\\E(0%e\\E(B%;\\E[0%?%p6%t;1%;%?%p2%t;4%;%?%p1%p3%|%t;7%;%?%p4%t;5%;%?%p7%t;8%;m")
        .arg(Argument::from(1))
        .write(&mut buffer)
        .unwrap();
    assert_eq!(buffer, b"\\E(B\\E[0;7m");
    buffer.clear();

    Executor::new(b"\x1b[%?%p1%{8}%<%t3%p1%d%e%p1%{16}%<%t9%p1%{8}%-%d%e38;5;%p1%d%;m")
        .arg(Argument::from(3))
        .write(&mut buffer)
        .unwrap();
    assert_eq!(&String::from_utf8(buffer).unwrap(), "\x1b[33m");
}

#[test]
fn has_null_bytes() {
    assert_eq!(has_null_byte(0xFF00FFFF), true);
    assert_eq!(has_null_byte(!0), false);
    assert_eq!(
        has_null_byte(0b01010101010101010101010101010101010101010101010101010101010101010),
        false
    );
    assert_eq!(
        has_null_byte(0b01010101010101000000101010101010101010101010101010101010101010101),
        false
    );
    assert_eq!(
        has_null_byte(0b01010101010101000001010101010101010101010101010101010101010101010),
        false
    );
    assert_eq!(
        has_null_byte(0b010101010101010000000001110101010101010101010101010101010101010),
        true
    );
}

#[test]
fn conditional_bright_colors() {
    // the second arm of the conditional: a bright color on an 8-color
    // terminal takes the 90-based parameters
    let mut buffer = Vec::new();
    Executor::new(b"\x1b[%?%p1%{8}%<%t3%p1%d%e%p1%{16}%<%t9%p1%{8}%-%d%e38;5;%p1%d%;m")
        .arg(Argument::from(9))
        .write(&mut buffer)
        .unwrap();
    assert_eq!(&buffer, b"\x1b[91m");

    // and the third arm: the 256-color form
    buffer.clear();
    Executor::new(b"\x1b[%?%p1%{8}%<%t3%p1%d%e%p1%{16}%<%t9%p1%{8}%-%d%e38;5;%p1%d%;m")
        .arg(Argument::from(42))
        .write(&mut buffer)
        .unwrap();
    assert_eq!(&buffer, b"\x1b[38;5;42m");
}

#[test]
fn cursor_address_template() {
    let mut buffer = Vec::new();
    Executor::new(b"\x1b[%i%p1%d;%p2%dH")
        .arg(Argument::from(4))
        .arg(Argument::from(10))
        .write(&mut buffer)
        .unwrap();
    assert_eq!(&buffer, b"\x1b[5;11H");
}

#[test]
fn executor_runs_are_identical() {
    let src: &[u8] = b"%p1%p2%+%d and %p1%l%s";
    let mut first = Vec::new();
    Executor::new(src)
        .arg(Argument::from(30))
        .arg(Argument::of_str("xy"))
        .write(&mut first)
        .unwrap_err();
    let mut second = Vec::new();
    Executor::new(src)
        .arg(Argument::from(30))
        .arg(Argument::of_str("xy"))
        .write(&mut second)
        .unwrap_err();
    assert_eq!(first, second);

    let ok: &[u8] = b"%p2%l%d-%p1%d";
    let mut a = Vec::new();
    Executor::new(ok)
        .arg(Argument::from(7))
        .arg(Argument::of_str("four"))
        .write(&mut a)
        .unwrap();
    let mut b = Vec::new();
    Executor::new(ok)
        .arg(Argument::from(7))
        .arg(Argument::of_str("four"))
        .write(&mut b)
        .unwrap();
    assert_eq!(a, b);
    assert_eq!(&a, b"4-7");
}

#[test]
fn executor_string_output() {
    let mut ex = Executor::new(b"%p1%s!");
    ex = ex.arg(Argument::of_str("done"));
    assert_eq!(ex.string().unwrap(), "done!");
}

#[test]
fn executor_argi_slots() {
    let mut buffer = Vec::new();
    Executor::new(b"%p2%d")
        .argi(1, Argument::from(55))
        .write(&mut buffer)
        .unwrap();
    assert_eq!(&buffer, b"55");
}

#[test]
fn missing_argument_renders_null() {
    let mut buffer = Vec::new();
    let mut ex = Executor::new(b"%s");
    ex.write(&mut buffer).unwrap();
    assert_eq!(&buffer, b"(null)");
}

#[test]
fn type_mismatch_is_reported() {
    let mut buffer = Vec::new();
    let err = Executor::new(b"%p1%p2%+%d")
        .arg(Argument::of_str("no"))
        .arg(Argument::from(2))
        .write(&mut buffer)
        .unwrap_err();
    assert_eq!(
        err,
        ErrorKind::UnexpectedArgumentType(ArgType::Integer, ArgType::Str)
    );
}

#[test]
fn parse_errors() {
    let mut buffer = Vec::new();
    assert_eq!(
        Executor::new(b"abc%").write(&mut buffer).unwrap_err(),
        ErrorKind::UnexpectedEof
    );
    assert_eq!(
        Executor::new(b"%p0").write(&mut buffer).unwrap_err(),
        ErrorKind::InvalidArgumentIdentifier
    );
    assert_eq!(
        Executor::new(b"%?%p1%tnever").write(&mut buffer).unwrap_err(),
        ErrorKind::UnexpectedEof
    );
    assert_eq!(
        PrintfArgs::parse(b"").unwrap_err(),
        ErrorKind::BadPrintfSpecifier
    );
    assert_eq!(
        PrintfArgs::parse(b"5.q").unwrap_err(),
        ErrorKind::BadPrecisionSpecified
    );
    assert_eq!(
        PrintfArgs::parse(b"q").unwrap_err(),
        ErrorKind::BadPrintfSpecifier
    );
}

#[test]
fn octal_and_hex_forms() {
    let mut buffer = Vec::new();
    PrintfArgs::parse(b":#o")
        .unwrap()
        .print(&mut buffer, Some(Argument::from(8)))
        .unwrap();
    assert_eq!(&buffer, b"010");

    buffer.clear();
    PrintfArgs::parse(b":#x")
        .unwrap()
        .print(&mut buffer, Some(Argument::from(255)))
        .unwrap();
    assert_eq!(&buffer, b"0xff");

    buffer.clear();
    PrintfArgs::parse(b":#X")
        .unwrap()
        .print(&mut buffer, Some(Argument::from(255)))
        .unwrap();
    assert_eq!(&buffer, b"0XFF");

    buffer.clear();
    PrintfArgs::parse(b":+d")
        .unwrap()
        .print(&mut buffer, Some(Argument::from(31)))
        .unwrap();
    assert_eq!(&buffer, b"+31");

    buffer.clear();
    PrintfArgs::parse(b"d")
        .unwrap()
        .print(&mut buffer, Some(Argument::from(-12)))
        .unwrap();
    assert_eq!(&buffer, b"-12");
}

#[test]
fn division_and_modulo() {
    let mut buffer = Vec::new();
    Executor::new(b"%p1%p2%/%d")
        .arg(Argument::from(60))
        .arg(Argument::from(7))
        .write(&mut buffer)
        .unwrap();
    assert_eq!(&buffer, b"8");

    buffer.clear();
    Executor::new(b"%p1%p2%m%d")
        .arg(Argument::from(60))
        .arg(Argument::from(7))
        .write(&mut buffer)
        .unwrap();
    assert_eq!(&buffer, b"4");

    // division by zero yields zero rather than aborting; and since the
    // formatter emits no digits at all for zero, nothing is printed
    buffer.clear();
    Executor::new(b"%p1%{0}%/%{1}%+%d")
        .arg(Argument::from(60))
        .write(&mut buffer)
        .unwrap();
    assert_eq!(&buffer, b"1");
}

#[test]
fn logic_operators() {
    let mut buffer = Vec::new();
    Executor::new(b"%p1%!%d%p1%~%d")
        .arg(Argument::from(0))
        .write(&mut buffer)
        .unwrap();
    assert_eq!(&buffer, b"1-1");

    buffer.clear();
    Executor::new(b"%p1%{5}%=%d")
        .arg(Argument::from(5))
        .write(&mut buffer)
        .unwrap();
    assert_eq!(&buffer, b"1");

    buffer.clear();
    Executor::new(b"%p1%{5}%>%d")
        .arg(Argument::from(9))
        .write(&mut buffer)
        .unwrap();
    assert_eq!(&buffer, b"1");
}
