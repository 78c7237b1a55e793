use livesplit_core::run::parser::number::{
    digit_of, parse_count, parse_milliseconds, parse_seconds, DecimalError, IntegerError,
};
use livesplit_core::text::{chars_of, lines, split, starts_with, strip_prefix, tail, to_string};
use livesplit_core::run::parser::wsplit::{parse, Error, Parser, OLD_RUN};
use livesplit_core::run::{Image, PERSONAL_BEST};
use livesplit_core::time::{Time, TimeSpan, TimingMethod};

fn real_only(milliseconds: i64) -> Time {
    Time::new().with_real_time(Some(TimeSpan::from_milliseconds(milliseconds)))
}

#[test]
fn end_to_end_example() {
    let parsed = parse("Title=Foo\nAttempts=3\nSplit1,0,59.5,58.0\n", false).unwrap();
    assert!(parsed.icon_paths.is_empty());
    let run = parsed.into_run(Vec::new());
    assert_eq!(run.category_name(), "Foo");
    assert_eq!(run.attempt_count(), 3);
    assert_eq!(run.len(), 1);
    let segment = run.segment(0);
    assert_eq!(segment.name(), "Split1");
    assert_eq!(segment.personal_best_split_time(), real_only(59_500));
    assert_eq!(segment.best_segment_time(), real_only(58_000));
    assert_eq!(segment.comparison(PERSONAL_BEST), real_only(59_500));
    assert_eq!(segment.comparison(OLD_RUN), Time::new());
    assert!(!segment.has_comparison(OLD_RUN));
    assert!(!run.has_custom_comparison(OLD_RUN));
    assert!(run.custom_comparisons().is_empty());
    assert!(segment.icon().is_empty());
}

#[test]
fn rows_become_segments_in_file_order() {
    let source = "Title=Any%\r\nfirst one,1.5,2.25,0.75\r\n\r\nSize=120,25\r\n second ,0,0,0\r\nlast,3,4,5,ignored,fields";
    let run = parse(source, false).unwrap().into_run(Vec::new());
    assert_eq!(run.category_name(), "Any%");
    assert_eq!(run.len(), 3);
    let names: Vec<&str> = run.segments().iter().map(|segment| segment.name()).collect();
    assert_eq!(names, vec!["first one", " second ", "last"]);
    assert_eq!(run.segment(0).comparison(OLD_RUN), real_only(1_500));
    assert_eq!(run.segment(0).personal_best_split_time(), real_only(2_250));
    assert_eq!(run.segment(0).best_segment_time(), real_only(750));
    assert_eq!(run.segment(1).personal_best_split_time(), Time::new());
    assert_eq!(run.segment(1).best_segment_time(), Time::new());
    assert!(!run.segment(1).has_comparison(OLD_RUN));
    assert_eq!(run.segment(2).comparison(OLD_RUN), real_only(3_000));
    assert!(run.has_custom_comparison(OLD_RUN));
    assert_eq!(run.custom_comparisons().len(), 1);
}

#[test]
fn old_run_is_registered_only_with_an_old_time() {
    let without = parse("a,0,1,1\nb,0.0,2,1\n", false).unwrap().run;
    assert!(!without.has_custom_comparison(OLD_RUN));
    let with = parse("a,0,1,1\nb,0.5,2,1\n", false).unwrap().run;
    assert!(with.has_custom_comparison(OLD_RUN));
    assert_eq!(with.segment(1).comparison(OLD_RUN).real_time, Some(TimeSpan::from_milliseconds(500)));
    assert_eq!(with.segment(1).comparison(OLD_RUN).game_time, None);
}

#[test]
fn short_rows_name_the_missing_field() {
    assert_eq!(parse("Split1", false).err(), Some(Error::ExpectedOldTime));
    assert_eq!(parse("Split1,1", false).err(), Some(Error::ExpectedPbTime));
    assert_eq!(parse("Split1,1,2", false).err(), Some(Error::ExpectedBestTime));
    assert_eq!(parse("Title=x\nok,1,2,3\nSplit1,1,2\nlater,1,2,3", false).err(), Some(Error::ExpectedBestTime));
    assert!(parse("Split1,1,2,", false).is_err());
    assert_eq!(parse("Split1,1,2,", false).err(), Some(Error::Time(DecimalError::Empty)));
}

#[test]
fn a_faulty_line_leaves_the_reader_untouched() {
    let mut parser = Parser::new(true);
    assert_eq!(parser.feed_line("Title=Foo"), Ok(()));
    assert_eq!(parser.feed_line("one,1,2,3"), Ok(()));
    assert_eq!(parser.feed_line("two,1,2"), Err(Error::ExpectedBestTime));
    assert_eq!(parser.feed_line("two,1,x,3"), Err(Error::Time(DecimalError::Invalid)));
    assert_eq!(parser.feed_line("Attempts=many"), Err(Error::Attempt(IntegerError::InvalidDigit)));
    assert_eq!(parser.feed_line("Offset=1e"), Err(Error::Time(DecimalError::Invalid)));
    let run = parser.finish().run;
    assert_eq!(run.category_name(), "Foo");
    assert_eq!(run.attempt_count(), 0);
    assert_eq!(run.offset(), TimeSpan::zero());
    assert_eq!(run.len(), 1);
    assert_eq!(run.segment(0).name(), "one");
}

#[test]
fn times_are_read_best_run_first() {
    assert_eq!(parse("s,x,,3", false).err(), Some(Error::Time(DecimalError::Empty)));
    assert_eq!(parse("s,,x,3", false).err(), Some(Error::Time(DecimalError::Invalid)));
    assert_eq!(parse("s,,2,x", false).err(), Some(Error::Time(DecimalError::Invalid)));
    assert_eq!(parse("s,,2,3", false).err(), Some(Error::Time(DecimalError::Empty)));
}

#[test]
fn attempts_are_a_count() {
    assert_eq!(parse("Attempts=42", false).unwrap().run.attempt_count(), 42);
    assert_eq!(parse("Attempts=+7", false).unwrap().run.attempt_count(), 7);
    assert_eq!(parse("Attempts=4294967295", false).unwrap().run.attempt_count(), u32::MAX);
    assert_eq!(parse("Attempts=", false).err(), Some(Error::Attempt(IntegerError::Empty)));
    assert_eq!(parse("Attempts=+", false).err(), Some(Error::Attempt(IntegerError::InvalidDigit)));
    assert_eq!(parse("Attempts=-1", false).err(), Some(Error::Attempt(IntegerError::InvalidDigit)));
    assert_eq!(parse("Attempts=3 ", false).err(), Some(Error::Attempt(IntegerError::InvalidDigit)));
    assert_eq!(parse("Attempts=4294967296", false).err(), Some(Error::Attempt(IntegerError::Overflow)));
    assert_eq!(parse("Attempts=99999999999x", false).err(), Some(Error::Attempt(IntegerError::Overflow)));
}

#[test]
fn offset_is_negated_milliseconds() {
    assert_eq!(parse("Offset=1500", false).unwrap().run.offset(), TimeSpan::from_milliseconds(-1_500));
    assert_eq!(parse("Offset=-250.5", false).unwrap().run.offset(), TimeSpan::from_ticks(2_505_000));
    assert_eq!(parse("Offset=0.00019", false).unwrap().run.offset(), TimeSpan::from_ticks(-1));
    assert_eq!(parse("Offset=", false).unwrap().run.offset(), TimeSpan::zero());
    assert_eq!(parse("Offset=abc", false).err(), Some(Error::Time(DecimalError::Invalid)));
}

#[test]
fn decimal_times_are_cut_to_ticks() {
    let run = parse("s,+.5,1.,0.12345679\nt,-3,99999999999999999999,-99999999999999999999", false).unwrap().run;
    assert_eq!(run.segment(0).comparison(OLD_RUN).real_time, Some(TimeSpan::from_milliseconds(500)));
    assert_eq!(run.segment(0).personal_best_split_time().real_time, Some(TimeSpan::from_seconds(1)));
    assert_eq!(run.segment(0).best_segment_time().real_time, Some(TimeSpan::from_ticks(1_234_567)));
    assert_eq!(run.segment(1).comparison(OLD_RUN).real_time, Some(TimeSpan::from_seconds(-3)));
    assert_eq!(run.segment(1).personal_best_split_time().real_time, Some(TimeSpan::from_ticks(i64::MAX)));
    assert_eq!(run.segment(1).best_segment_time().real_time, Some(TimeSpan::from_ticks(i64::MIN)));
    assert_eq!(run.segment(1).best_segment_time().get(TimingMethod::GameTime), None);
    for bad in [
        ".", "+", "-", "1.2.3", "1;5", " 1", "1 ", "1e", "e5", "1e+", "1e5x", "1e1.5", "0x10", "in", "infinit",
        "infinityy", "na", "1.e", ".e1", "--1", "1_000", "١",
    ] {
        let source = format!("s,0,{},0", bad);
        assert_eq!(parse(&source, false).err(), Some(Error::Time(DecimalError::Invalid)), "{}", bad);
    }
}

#[test]
fn icons_are_never_asked_for_without_permission() {
    let source = "Icons=\"a.png\",\"b.png\"\none,0,1,1\ntwo,0,2,1\n";
    let parsed = parse(source, false).unwrap();
    assert!(parsed.icon_paths.is_empty());
    let run = parsed.into_run(Vec::new());
    assert!(run.segment(0).icon().is_empty() && run.segment(1).icon().is_empty());
}

#[test]
fn icons_are_listed_and_given_by_position() {
    let source = "Icons=\"a.png\",,\"\",x,\"dir/b c.png\"\none,0,1,1\ntwo,0,2,1\n";
    let parsed = parse(source, true).unwrap();
    assert_eq!(
        parsed.icon_paths,
        vec![Some("a.png".to_string()), None, Some(String::new()), None, Some("dir/b c.png".to_string())]
    );
    let run = parsed.into_run(vec![Image::new(vec![1, 2, 3]), Image::default(), Image::new(vec![9])]);
    assert_eq!(run.len(), 2);
    assert_eq!(run.segment(0).icon().data(), &vec![1, 2, 3]);
    assert!(run.segment(1).icon().is_empty());
    assert_eq!(run.segment(0).name(), "one");
    assert_eq!(run.segment(1).personal_best_split_time(), real_only(2_000));
}

#[test]
fn the_last_line_of_icons_counts() {
    let parsed = parse("Icons=\"a\",\"b\"\nIcons=\"c\"\n", true).unwrap();
    assert_eq!(parsed.icon_paths, vec![Some("c".to_string())]);
    assert_eq!(parsed.run.len(), 0);
}

#[test]
fn empty_input_is_an_empty_run() {
    let run = parse("", true).unwrap().run;
    assert!(run.is_empty());
    assert_eq!(run.category_name(), "");
    assert_eq!(run.attempt_count(), 0);
    assert!(run.attempt_history().is_empty());
    let blank = parse("\n\r\n\n", true).unwrap().run;
    assert!(blank.is_empty());
}

#[test]
fn a_carriage_return_without_line_feed_stays() {
    let run = parse("Title=Foo\r", false).unwrap().run;
    assert_eq!(run.category_name(), "Foo\r");
    let run = parse("Title=Foo\r\r\n", false).unwrap().run;
    assert_eq!(run.category_name(), "Foo\r");
}

#[test]
fn text_is_parted_into_lines_and_pieces() {
    let text = chars_of("a,b\r\n\nc,,\r");
    let found: Vec<String> = lines(&text).iter().map(to_string).collect();
    assert_eq!(found, vec!["a,b", "", "c,,\r"]);
    let pieces: Vec<String> = split(&chars_of("c,,\r"), ',').iter().map(to_string).collect();
    assert_eq!(pieces, vec!["c", "", "\r"]);
    assert_eq!(split(&chars_of(""), ',').len(), 1);
    assert!(starts_with(&chars_of("Title=x"), &chars_of("Title=")));
    assert!(!starts_with(&chars_of("Titl"), &chars_of("Title=")));
    assert_eq!(strip_prefix(&chars_of("Title=x"), "Title=").map(|rest| to_string(&rest)), Some("x".to_string()));
    assert_eq!(strip_prefix(&chars_of("title=x"), "Title="), None);
    assert_eq!(to_string(&tail(&chars_of("héllo"), 2)), "llo");
}

#[test]
fn numbers_are_read_from_text() {
    assert_eq!(digit_of('7'), Some(7));
    assert_eq!(digit_of('a'), None);
    assert_eq!(digit_of('٣'), None);
    assert_eq!(parse_count(&chars_of("0012")), Ok(12));
    assert_eq!(parse_seconds(&chars_of("59.5")), Ok(TimeSpan::from_ticks(595_000_000)));
    assert_eq!(parse_seconds(&chars_of("-0.00000019")), Ok(TimeSpan::from_ticks(-1)));
    assert_eq!(parse_milliseconds(&chars_of("1.5")), Ok(TimeSpan::from_ticks(15_000)));
    assert_eq!(parse_seconds(&chars_of("")), Err(DecimalError::Empty));
    assert_eq!(parse_seconds(&chars_of("922337203685.4775807")), Ok(TimeSpan::from_ticks(i64::MAX)));
    assert_eq!(parse_seconds(&chars_of("922337203685.4775808")), Ok(TimeSpan::from_ticks(i64::MAX)));
    assert_eq!(parse_seconds(&chars_of("-922337203685.4775808")), Ok(TimeSpan::from_ticks(i64::MIN)));
    assert_eq!(parse_seconds(&chars_of("-922337203685.4775807")), Ok(TimeSpan::from_ticks(i64::MIN + 1)));
}

#[test]
fn times_may_be_written_with_an_exponent() {
    let cases: [(&str, i64); 16] = [
        ("1e3", 10_000_000_000),
        ("1E3", 10_000_000_000),
        ("1.5e-1", 1_500_000),
        ("+1.5E+1", 150_000_000),
        ("-2.5e0", -25_000_000),
        (".5e1", 50_000_000),
        ("5.e-7", 5),
        ("5e-8", 0),
        ("59.99999999e-0", 599_999_999),
        ("1e-400", 0),
        ("1e400", i64::MAX),
        ("-1e400", i64::MIN),
        ("0e99999999999999999999999999999", 0),
        ("0.0000000000000000000000000001e99999999999999999999999999999", i64::MAX),
        ("12345678901234567890123456789012345678901234567890e-45", 123_456_789_012),
        ("92233720368547758070000000000000000000000000000000e-37", i64::MAX),
    ];
    for (text, ticks) in cases {
        assert_eq!(parse_seconds(&chars_of(text)), Ok(TimeSpan::from_ticks(ticks)), "{}", text);
    }
    assert_eq!(parse_seconds(&chars_of("9223372036854775806e-7")), Ok(TimeSpan::from_ticks(i64::MAX - 1)));
    assert_eq!(parse_milliseconds(&chars_of("2e3")), Ok(TimeSpan::from_seconds(2)));
}

#[test]
fn the_words_for_no_number_and_beyond_all_numbers_are_read() {
    for text in ["inf", "INF", "+Infinity", "infinity", "iNfInItY"] {
        assert_eq!(parse_seconds(&chars_of(text)), Ok(TimeSpan::from_ticks(i64::MAX)), "{}", text);
    }
    for text in ["-inf", "-INFINITY"] {
        assert_eq!(parse_seconds(&chars_of(text)), Ok(TimeSpan::from_ticks(i64::MIN)), "{}", text);
    }
    for text in ["nan", "NaN", "-nan", "+NAN"] {
        assert_eq!(parse_seconds(&chars_of(text)), Ok(TimeSpan::zero()), "{}", text);
    }
    let run = parse("s,nan,inf,-inf", false).unwrap().run;
    assert!(!run.has_custom_comparison(OLD_RUN));
    assert_eq!(run.segment(0).personal_best_split_time().real_time, Some(TimeSpan::from_ticks(i64::MAX)));
    assert_eq!(run.segment(0).best_segment_time().real_time, Some(TimeSpan::from_ticks(i64::MIN)));
}

#[test]
fn loaded_icons_fall_back_to_the_empty_icon() {
    let source = "Icons=\"a.png\",,\"c.png\",\"d.png\"\none,0,1,1\ntwo,0,2,1\nthree,0,3,1\n";
    let parsed = parse(source, true).unwrap();
    assert_eq!(parsed.icon_paths.len(), 4);
    let run = parsed.into_run_with(vec![Some(Image::new(vec![1])), Some(Image::new(vec![2])), None, Some(Image::new(vec![4]))]);
    assert_eq!(run.len(), 3);
    assert_eq!(run.segment(0).icon().data(), &vec![1]);
    assert_eq!(run.segment(1).icon().data(), &vec![2]);
    assert!(run.segment(2).icon().is_empty());
    assert_eq!(run.segment(2).name(), "three");
    let untouched = parse(source, false).unwrap().into_run_with(Vec::new());
    assert!(untouched.segment(0).icon().is_empty());
}
