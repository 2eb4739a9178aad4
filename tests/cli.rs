use catr::numbering::{decimal_digits, line_is_blank, number_lines, LineNumberer, NumberMode};
use catr::split::split_lines;
use catr::{exit_status, resolve, Config, Source};

fn lines_of(text: &str) -> Vec<Vec<u8>> {
    split_lines(text.as_bytes())
}

fn joined(lines: &[Vec<u8>]) -> Vec<u8> {
    let mut out = Vec::new();
    for l in lines {
        out.extend_from_slice(l);
    }
    out
}

fn texts(lines: &[Vec<u8>]) -> Vec<String> {
    lines.iter().map(|l| String::from_utf8(l.clone()).unwrap()).collect()
}

#[test]
fn works() {
    assert!(true);
}

#[test]
fn number_all_scenario() {
    let out = number_lines(NumberMode::All, &lines_of("one\n\ntwo\n"));
    assert_eq!(texts(&out), vec!["1\tone\n", "2\t\n", "3\ttwo\n"]);
}

#[test]
fn number_nonblank_scenario() {
    let out = number_lines(NumberMode::NonBlank, &lines_of("one\n\ntwo\n"));
    assert_eq!(texts(&out), vec!["1\tone\n", "\n", "2\ttwo\n"]);
}

#[test]
fn plain_output_is_input() {
    let text = "alpha\n\n  beta\r\n\r\ngamma";
    let out = number_lines(NumberMode::Plain, &lines_of(text));
    assert_eq!(joined(&out), text.as_bytes().to_vec());
}

#[test]
fn line_count_kept_in_every_mode() {
    let lines = lines_of("a\n\nb\n\n\nc");
    assert_eq!(lines.len(), 6);
    for mode in [NumberMode::All, NumberMode::NonBlank, NumberMode::Plain] {
        assert_eq!(number_lines(mode, &lines).len(), 6);
    }
}

#[test]
fn all_lines_get_their_ordinal() {
    let lines = lines_of("x\ny\n\nz\n");
    let out = number_lines(NumberMode::All, &lines);
    for (i, l) in out.iter().enumerate() {
        let prefix = format!("{}\t", i + 1);
        assert!(l.starts_with(prefix.as_bytes()));
        assert_eq!(&l[prefix.len()..], &lines[i][..]);
    }
}

#[test]
fn nonblank_ordinals_rise_by_one() {
    let out = number_lines(NumberMode::NonBlank, &lines_of("\na\n\r\n\nb\nc\n"));
    assert_eq!(texts(&out), vec!["\n", "1\ta\n", "\r\n", "\n", "2\tb\n", "3\tc\n"]);
}

#[test]
fn unterminated_last_line_is_kept() {
    let lines = lines_of("one\ntwo");
    assert_eq!(texts(&lines), vec!["one\n", "two"]);
    let out = number_lines(NumberMode::All, &lines);
    assert_eq!(texts(&out), vec!["1\tone\n", "2\ttwo"]);
}

#[test]
fn empty_input_has_no_lines() {
    assert!(lines_of("").is_empty());
    assert!(number_lines(NumberMode::All, &Vec::new()).is_empty());
}

#[test]
fn blank_lines() {
    assert!(line_is_blank(b""));
    assert!(line_is_blank(b"\n"));
    assert!(line_is_blank(b"\r\n"));
    assert!(!line_is_blank(b" \n"));
    assert!(!line_is_blank(b"\r"));
    assert!(!line_is_blank(b"x"));
}

#[test]
fn decimal_digits_of_numbers() {
    assert_eq!(decimal_digits(0), b"0".to_vec());
    assert_eq!(decimal_digits(7), b"7".to_vec());
    assert_eq!(decimal_digits(10), b"10".to_vec());
    assert_eq!(decimal_digits(1234), b"1234".to_vec());
    assert_eq!(decimal_digits(usize::MAX), usize::MAX.to_string().into_bytes());
}

#[test]
fn numberer_counts_per_input() {
    let mut n = LineNumberer::new(NumberMode::NonBlank);
    assert_eq!(n.next_number(), 1);
    assert_eq!(n.number_line(b"a\n"), b"1\ta\n".to_vec());
    assert_eq!(n.number_line(b"\n"), b"\n".to_vec());
    assert_eq!(n.next_number(), 2);
    assert_eq!(n.number_line(b"b"), b"2\tb".to_vec());
    let fresh = LineNumberer::new(NumberMode::NonBlank);
    assert_eq!(fresh.next_number(), 1);
    assert_eq!(fresh.mode(), NumberMode::NonBlank);
}

#[test]
fn dash_is_stdin_and_other_names_are_paths() {
    assert!(matches!(resolve("-"), Source::Stdin));
    match resolve("missing.txt") {
        Source::Path(p) => assert_eq!(p, "missing.txt"),
        Source::Stdin => panic!("a path taken for standard input"),
    }
    assert!(matches!(resolve("--"), Source::Path(_)));
    assert!(matches!(resolve(""), Source::Path(_)));
}

#[test]
fn stdin_twice_around_a_missing_file() {
    let specs = ["-", "missing.txt", "-"];
    let mut outputs = Vec::new();
    for spec in specs {
        match resolve(spec) {
            Source::Stdin => {
                let lines = lines_of("a\nb\n");
                outputs.push(texts(&number_lines(NumberMode::Plain, &lines)));
            }
            Source::Path(p) => assert_eq!(p, "missing.txt"),
        }
    }
    assert_eq!(outputs, vec![vec!["a\n", "b\n"], vec!["a\n", "b\n"]]);
}

#[test]
fn numbering_all_wins_over_nonblank() {
    let config = |n: bool, b: bool| Config {
        files: vec!["-".to_string()],
        number_lines: n,
        number_nonblank_lines: b,
    };
    assert_eq!(config(true, true).mode(), NumberMode::All);
    assert_eq!(config(true, false).mode(), NumberMode::All);
    assert_eq!(config(false, true).mode(), NumberMode::NonBlank);
    assert_eq!(config(false, false).mode(), NumberMode::Plain);
}

#[test]
fn exit_status_reports_failures() {
    assert_eq!(exit_status(0), 0);
    assert_eq!(exit_status(1), 1);
    assert_eq!(exit_status(3), 1);
}
