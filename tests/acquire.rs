use prompt_input::{
    choose_bool, get_bool, get_i128, get_i16, get_i32, get_i64, get_i8, get_input, get_isize,
    get_number, get_string, get_u128, get_u16, get_u32, get_u64, get_u8, get_usize, trim_text,
    BoolParseError, Command, InputError, Phase, ReadEvent, Step,
};

fn line(s: &str) -> ReadEvent {
    ReadEvent::Line(String::from(s))
}

fn tokens(v: &[&str]) -> Vec<String> {
    v.iter().map(|t| String::from(*t)).collect()
}

fn value<T, E>(step: Step<T, E>) -> T {
    match step {
        Step::Done(Ok(v)) => v,
        _ => panic!("expected a value"),
    }
}

fn is_parse_failure<T, E>(step: &Step<T, E>) -> bool {
    matches!(step, Step::Done(Err(InputError::Parse(_))))
}

fn is_io_failure<T, E>(step: &Step<T, E>) -> bool {
    matches!(step, Step::Done(Err(InputError::Io(_))))
}

/// Feeds the reads in turn, as a console loop would, and reports the result
/// and how many reads were taken.
fn drive_i32(retry: bool, reads: Vec<ReadEvent>) -> (Step<i32, std::num::ParseIntError>, usize) {
    let mut taken = 0;
    for read in reads {
        taken += 1;
        let step = get_i32(retry, read);
        if !matches!(step, Step::Again) {
            return (step, taken);
        }
    }
    (Step::Again, taken)
}

fn drive_bool(retry: bool, reads: Vec<ReadEvent>) -> (Step<bool, BoolParseError>, usize) {
    let trues = tokens(&["y", "yes"]);
    let falses = tokens(&["n", "no"]);
    let mut taken = 0;
    for read in reads {
        taken += 1;
        let step = get_bool(retry, read, &trues, &falses);
        if !matches!(step, Step::Again) {
            return (step, taken);
        }
    }
    (Step::Again, taken)
}

#[test]
fn valid_numbers_parse_on_first_attempt() {
    assert_eq!(value(get_i8(false, line("42\n"))), 42);
    assert_eq!(value(get_i8(true, line("  -128 \r\n"))), -128);
    assert_eq!(value(get_u8(false, line("255"))), 255);
    assert_eq!(value(get_i16(false, line("-32768"))), -32768);
    assert_eq!(value(get_u16(false, line("+65535"))), 65535);
    assert_eq!(value(get_i32(false, line("007"))), 7);
    assert_eq!(value(get_u32(false, line("4294967295"))), 4294967295);
    assert_eq!(value(get_i64(false, line("-9223372036854775808"))), i64::MIN);
    assert_eq!(value(get_u64(false, line("18446744073709551615"))), u64::MAX);
    assert_eq!(value(get_i128(false, line("-170141183460469231731687303715884105728"))), i128::MIN);
    assert_eq!(value(get_u128(false, line("340282366920938463463374607431768211455"))), u128::MAX);
    assert_eq!(value(get_isize(false, line("-1"))), -1);
    assert_eq!(value(get_usize(false, line("12345"))), 12345);
    assert_eq!(value(get_number::<u64>(false, line("\t99\n"))), 99);
    assert_eq!(value(get_input::<i32>(true, line("-0"))), 0);
}

#[test]
fn invalid_numbers_fail_without_retry() {
    assert!(is_parse_failure(&get_i8(false, line("128"))));
    assert!(is_parse_failure(&get_i8(false, line("-129"))));
    assert!(is_parse_failure(&get_u8(false, line("-0"))));
    assert!(is_parse_failure(&get_u8(false, line("-1"))));
    assert!(is_parse_failure(&get_i32(false, line(""))));
    assert!(is_parse_failure(&get_i32(false, line("+"))));
    assert!(is_parse_failure(&get_i32(false, line("-"))));
    assert!(is_parse_failure(&get_i32(false, line("1 2"))));
    assert!(is_parse_failure(&get_i32(false, line("abc"))));
    assert!(is_parse_failure(&get_u64(false, line("18446744073709551616"))));
    assert!(is_parse_failure(&get_u32(false, line("٣"))));
}

#[test]
fn invalid_numbers_ask_again_with_retry() {
    assert!(matches!(get_i8(true, line("300")), Step::Again));
    assert!(matches!(get_u16(true, line("x")), Step::Again));
}

#[test]
fn invalid_line_without_retry_takes_one_read() {
    let (step, taken) = drive_i32(false, vec![line("x"), line("5")]);
    assert!(is_parse_failure(&step));
    assert_eq!(taken, 1);
}

#[test]
fn retry_reads_until_first_valid_line() {
    let (step, taken) = drive_i32(true, vec![line("x"), line("1.5"), line(" 17 "), line("18")]);
    assert_eq!(value(step), 17);
    assert_eq!(taken, 3);
}

#[test]
fn end_of_stream_is_io_failure_with_or_without_retry() {
    let (step, taken) = drive_i32(true, vec![line("x"), ReadEvent::EndOfStream, line("1")]);
    assert!(is_io_failure(&step));
    assert_eq!(taken, 2);
    let (step, taken) = drive_i32(false, vec![ReadEvent::EndOfStream]);
    assert!(is_io_failure(&step));
    assert_eq!(taken, 1);
    match get_u8(true, ReadEvent::EndOfStream) {
        Step::Done(Err(InputError::Io(e))) => {
            assert_eq!(e.kind(), std::io::ErrorKind::UnexpectedEof)
        }
        _ => panic!("expected an I/O failure"),
    }
}

#[test]
fn console_failure_is_forwarded() {
    let read = ReadEvent::Failed(std::io::Error::new(std::io::ErrorKind::BrokenPipe, "pipe"));
    match get_i64(true, read) {
        Step::Done(Err(InputError::Io(e))) => {
            assert_eq!(e.kind(), std::io::ErrorKind::BrokenPipe);
            assert_eq!(e.to_string(), "pipe");
        }
        _ => panic!("expected an I/O failure"),
    }
}

#[test]
fn same_line_twice_gives_same_value() {
    let a = value(get_i16(false, line(" 512\n")));
    let b = value(get_i16(true, line(" 512\n")));
    assert_eq!(a, 512);
    assert_eq!(a, b);
}

#[test]
fn string_reads_are_trimmed() {
    assert_eq!(value(get_string(line("  hello world \n"))), "hello world");
    assert_eq!(value(get_string(line("\n"))), "");
    assert!(is_io_failure(&get_string(ReadEvent::EndOfStream)));
}

#[test]
fn trim_removes_unicode_white_space() {
    assert_eq!(trim_text("\u{3000}\u{a0} a b\t\u{2029}"), "a b");
    assert_eq!(trim_text("   "), "");
    assert_eq!(trim_text(""), "");
    assert_eq!(trim_text("x"), "x");
    assert_eq!(trim_text("\u{200b}x"), "\u{200b}x");
}

#[test]
fn bool_mixed_case_true_token() {
    let (step, taken) = drive_bool(false, vec![line("YES")]);
    assert!(value(step));
    assert_eq!(taken, 1);
}

#[test]
fn bool_false_token_with_white_space() {
    let (step, _) = drive_bool(false, vec![line(" no ")]);
    assert!(!value(step));
}

#[test]
fn bool_unknown_token_without_retry() {
    let (step, taken) = drive_bool(false, vec![line("maybe"), line("y")]);
    match step {
        Step::Done(Err(InputError::Parse(e))) => assert_eq!(e.description(), "Invalid Value"),
        _ => panic!("expected a parse failure"),
    }
    assert_eq!(taken, 1);
}

#[test]
fn bool_unknown_token_then_true_with_retry() {
    let (step, taken) = drive_bool(true, vec![line("maybe"), line("y")]);
    assert!(value(step));
    assert_eq!(taken, 2);
}

#[test]
fn bool_tokens_compare_without_case() {
    let trues = tokens(&["Sim"]);
    let falses = tokens(&["NAO"]);
    assert!(value(get_bool(false, line("sIM\n"), &trues, &falses)));
    assert!(!value(get_bool(false, line("nao"), &trues, &falses)));
    assert!(is_io_failure(&get_bool(false, ReadEvent::EndOfStream, &trues, &falses)));
}

#[test]
fn bool_true_tokens_win_over_false_tokens() {
    let both = tokens(&["1"]);
    assert!(value(get_bool(false, line("1"), &both, &both)));
}

#[test]
fn choose_bool_on_normalised_text() {
    let trues = tokens(&["y"]);
    let falses = tokens(&["n"]);
    assert!(value(choose_bool(false, &String::from("y"), &trues, &falses)));
    assert!(!value(choose_bool(false, &String::from("n"), &trues, &falses)));
    assert!(matches!(choose_bool(true, &String::from("Y"), &trues, &falses), Step::Again));
    assert!(is_parse_failure(&choose_bool(false, &String::from(""), &trues, &falses)));
}

#[test]
fn prompt_is_flushed_before_each_read() {
    let mut phase = Phase::start();
    let mut seen = Vec::new();
    for _ in 0..6 {
        seen.push(phase.command());
        phase = phase.advance();
    }
    assert_eq!(
        seen,
        vec![
            Command::WritePrompt,
            Command::Flush,
            Command::ReadLine,
            Command::WritePrompt,
            Command::Flush,
            Command::ReadLine
        ]
    );
}

#[test]
fn error_headings_and_conversion() {
    let io: InputError<BoolParseError> =
        InputError::from(std::io::Error::new(std::io::ErrorKind::Other, "closed"));
    assert_eq!(io.heading(), "I/O Error");
    let parse: InputError<BoolParseError> = InputError::Parse(BoolParseError("Invalid Value"));
    assert_eq!(parse.heading(), "Parse Error");
}
