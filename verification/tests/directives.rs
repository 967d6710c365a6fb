use cwextab::decode_extab;
use cwextab::directive::{
    find_space, has_prefix, hex_digit, is_whitespace_char, name_from, parse_directive,
    parse_hex_number, read_source, trim_line, Directive, LineError, TableSource,
};

fn number(size: usize, value: u32) -> Directive {
    Directive { size, value, name: None }
}

fn name(size: usize, name: &str) -> Directive {
    Directive { size, value: 0, name: Some(String::from(name)) }
}

fn lines(text: &[&str]) -> Vec<String> {
    text.iter().map(|l| String::from(*l)).collect()
}

#[test]
fn white_space_is_what_unicode_says() {
    for c in ['\t', '\n', '\u{b}', '\u{c}', '\r', ' ', '\u{85}', '\u{a0}', '\u{1680}', '\u{2000}',
        '\u{2005}', '\u{200a}', '\u{2028}', '\u{2029}', '\u{202f}', '\u{205f}', '\u{3000}']
    {
        assert!(is_whitespace_char(c));
    }
    for c in ['\u{8}', '\u{e}', 'a', '0', '.', '\u{200b}', '\u{1f}', '\u{180e}', '\u{feff}'] {
        assert!(!is_whitespace_char(c));
    }
    for n in 0..=0x3100u32 {
        if let Some(c) = char::from_u32(n) {
            assert_eq!(is_whitespace_char(c), c.is_whitespace());
        }
    }
}

#[test]
fn trimming_removes_white_space_at_both_ends() {
    assert_eq!(trim_line("  .4byte 0x1 \t\r\n"), ".4byte 0x1");
    assert_eq!(trim_line(".4byte  0x1"), ".4byte  0x1");
    assert_eq!(trim_line(""), "");
    assert_eq!(trim_line(" \t "), "");
    assert_eq!(trim_line("\u{3000}a b\u{a0}"), "a b");
    assert_eq!(trim_line("ä "), "ä");
}

#[test]
fn finding_spaces() {
    assert_eq!(find_space(".4byte 0x1 x", 0), 6);
    assert_eq!(find_space(".4byte 0x1 x", 6), 6);
    assert_eq!(find_space(".4byte 0x1 x", 7), 10);
    assert_eq!(find_space(".4byte 0x1 x", 11), 12);
    assert_eq!(find_space("abc", 0), 3);
    assert_eq!(find_space("a\tb", 0), 3);
    assert_eq!(find_space("", 0), 0);
}

#[test]
fn prefixes() {
    assert!(has_prefix(".4byte", ".4byte"));
    assert!(has_prefix(".4bytes", ".4byte"));
    assert!(!has_prefix(".4byt", ".4byte"));
    assert!(!has_prefix(".2byte", ".4byte"));
    assert!(has_prefix("anything", ""));
    assert!(has_prefix("", ""));
    assert!(!has_prefix("", "0x"));
    assert!(!has_prefix("0X10", "0x"));
}

#[test]
fn hexadecimal_digits() {
    assert_eq!(hex_digit('0'), Some(0));
    assert_eq!(hex_digit('9'), Some(9));
    assert_eq!(hex_digit('a'), Some(10));
    assert_eq!(hex_digit('f'), Some(15));
    assert_eq!(hex_digit('A'), Some(10));
    assert_eq!(hex_digit('F'), Some(15));
    for c in ['g', 'G', '/', ':', '@', '`', ' ', '+', '-', '_', 'x'] {
        assert_eq!(hex_digit(c), None);
    }
}

#[test]
fn hexadecimal_numbers() {
    assert_eq!(parse_hex_number("0"), Some(0));
    assert_eq!(parse_hex_number("1F"), Some(0x1F));
    assert_eq!(parse_hex_number("1f"), Some(0x1F));
    assert_eq!(parse_hex_number("+1f"), Some(0x1F));
    assert_eq!(parse_hex_number("80001000"), Some(0x8000_1000));
    assert_eq!(parse_hex_number("FFFFFFFF"), Some(0xFFFF_FFFF));
    assert_eq!(parse_hex_number("0000000000FFFFFFFF"), Some(0xFFFF_FFFF));
    assert_eq!(parse_hex_number("100000000"), None);
    assert_eq!(parse_hex_number("FFFFFFFFF"), None);
    assert_eq!(parse_hex_number(""), None);
    assert_eq!(parse_hex_number("+"), None);
    assert_eq!(parse_hex_number("-1"), None);
    assert_eq!(parse_hex_number("++1"), None);
    assert_eq!(parse_hex_number("1_0"), None);
    assert_eq!(parse_hex_number("0x10"), None);
    assert_eq!(parse_hex_number("12G"), None);
    assert_eq!(parse_hex_number(" 12"), None);
    for text in ["0", "7", "abc", "ABCDEF", "+0", "+", "", "-", "fffffffff", "1g", "0012", "é"] {
        assert_eq!(parse_hex_number(text), u32::from_str_radix(text, 16).ok());
    }
}

#[test]
fn names_with_and_without_quotation_marks() {
    assert_eq!(name_from("dtor"), Ok(String::from("dtor")));
    assert_eq!(name_from("\"dtor\""), Ok(String::from("dtor")));
    assert_eq!(name_from("\"\""), Ok(String::new()));
    assert_eq!(name_from(""), Ok(String::new()));
    assert_eq!(name_from("\"dtor"), Ok(String::from("\"dtor")));
    assert_eq!(name_from("dtor\""), Ok(String::from("dtor\"")));
    assert_eq!(name_from("\""), Err(LineError::InvalidName));
    assert_eq!(name_from("\"dtör\""), Ok(String::from("dtör")));
}

#[test]
fn number_lines() {
    assert_eq!(parse_directive(".4byte 0x80001000"), Ok(number(4, 0x8000_1000)));
    assert_eq!(parse_directive(".2byte 0x0010"), Ok(number(2, 0x10)));
    assert_eq!(parse_directive("\t.4byte 0x1F  \r\n"), Ok(number(4, 0x1F)));
    assert_eq!(parse_directive(".4bytes 0x1"), Ok(number(4, 1)));
    assert_eq!(parse_directive(".2byte 0x12345678"), Ok(number(2, 0x1234_5678)));
    assert_eq!(parse_directive(".4byte 0x10 and more"), Ok(number(4, 0x10)));
    assert_eq!(parse_directive(".4byte 0x+1f"), Ok(number(4, 0x1F)));
}

#[test]
fn name_lines() {
    assert_eq!(parse_directive(".4byte \"__dt__3FooFv\""), Ok(name(4, "__dt__3FooFv")));
    assert_eq!(parse_directive(".4byte __dt__3FooFv"), Ok(name(4, "__dt__3FooFv")));
    assert_eq!(parse_directive(".2byte \"f\""), Ok(name(2, "f")));
    assert_eq!(parse_directive(".4byte 0X10"), Ok(name(4, "0X10")));
    assert_eq!(parse_directive(".4byte  0x10"), Ok(name(4, "")));
    assert_eq!(parse_directive(".4byte \"\""), Ok(name(4, "")));
    assert_eq!(parse_directive(".4byte \"a b\""), Ok(name(4, "\"a")));
}

#[test]
fn lines_that_are_no_directives() {
    assert_eq!(parse_directive(""), Err(LineError::UnknownDirective));
    assert_eq!(parse_directive("   "), Err(LineError::UnknownDirective));
    assert_eq!(parse_directive("4byte 0x1"), Err(LineError::UnknownDirective));
    assert_eq!(parse_directive(".byte 0x1"), Err(LineError::UnknownDirective));
    assert_eq!(parse_directive(".4BYTE 0x1"), Err(LineError::UnknownDirective));
    assert_eq!(parse_directive(".4byte\t0x1"), Err(LineError::MissingValue));
    assert_eq!(parse_directive("# comment"), Err(LineError::UnknownDirective));
    assert_eq!(parse_directive(".4byte"), Err(LineError::MissingValue));
    assert_eq!(parse_directive("  .2byte  "), Err(LineError::MissingValue));
    assert_eq!(parse_directive(".4byte 0x"), Err(LineError::InvalidNumber));
    assert_eq!(parse_directive(".4byte 0xZZ"), Err(LineError::InvalidNumber));
    assert_eq!(parse_directive(".4byte 0x100000000"), Err(LineError::InvalidNumber));
    assert_eq!(parse_directive(".4byte 0x-1"), Err(LineError::InvalidNumber));
    assert_eq!(parse_directive(".4byte \""), Err(LineError::InvalidName));
}

#[test]
fn lines_append_bytes_and_names() {
    let mut source = TableSource::new();
    assert!(source.table_bytes.is_empty());
    assert!(source.func_names.is_empty());
    assert_eq!(source.push_line(".4byte 0x80001000"), Ok(()));
    assert_eq!(source.table_bytes, vec![0x80, 0x00, 0x10, 0x00]);
    assert_eq!(source.push_line(".2byte 0x1234"), Ok(()));
    assert_eq!(source.table_bytes, vec![0x80, 0x00, 0x10, 0x00, 0x12, 0x34]);
    assert_eq!(source.push_line(".2byte 0xABCD1234"), Ok(()));
    assert_eq!(source.table_bytes, vec![0x80, 0x00, 0x10, 0x00, 0x12, 0x34, 0x12, 0x34]);
    assert!(source.func_names.is_empty());
    assert_eq!(source.push_line(".4byte \"dtor\""), Ok(()));
    assert_eq!(source.table_bytes.len(), 12);
    assert_eq!(&source.table_bytes[8..], &[0, 0, 0, 0]);
    assert_eq!(source.func_names, vec![String::from("dtor")]);
    assert_eq!(source.push_line(".2byte other"), Ok(()));
    assert_eq!(source.table_bytes.len(), 14);
    assert_eq!(source.func_names, vec![String::from("dtor"), String::from("other")]);
    let before = source.clone();
    assert_eq!(source.push_line("nonsense"), Err(LineError::UnknownDirective));
    assert_eq!(source, before);
    assert_eq!(source.push_line(".4byte 0xG"), Err(LineError::InvalidNumber));
    assert_eq!(source, before);
}

#[test]
fn reading_stops_at_the_first_bad_line() {
    assert_eq!(
        read_source(&lines(&[".4byte 0x1", ".4byte", "nonsense"])),
        Err(LineError::MissingValue)
    );
    assert_eq!(
        read_source(&lines(&["nonsense", ".4byte"])),
        Err(LineError::UnknownDirective)
    );
    assert_eq!(read_source(&lines(&[".2byte 0x1", ""])), Err(LineError::UnknownDirective));
    let empty = read_source(&[]).unwrap();
    assert!(empty.table_bytes.is_empty());
    assert!(empty.func_names.is_empty());
}

#[test]
fn text_to_report() {
    let text = lines(&[
        ".2byte 0x0810",
        ".2byte 0x0000",
        ".4byte 0x80001000",
        ".2byte 0x0010",
        ".2byte 0x0010",
        ".4byte 0x00000000",
        ".2byte 0x0200",
        ".2byte 0x0010",
        ".4byte \"__dt__3FooFv\"",
        ".2byte 0x8A80",
        ".2byte 0x001F",
        ".4byte __dt__3BarFv",
    ]);
    let source = read_source(&text).unwrap();
    assert_eq!(
        source.table_bytes,
        vec![
            0x08, 0x10, 0x00, 0x00, 0x80, 0x00, 0x10, 0x00, 0x00, 0x10, 0x00, 0x10, 0x00, 0x00,
            0x00, 0x00, 0x02, 0x00, 0x00, 0x10, 0x00, 0x00, 0x00, 0x00, 0x8A, 0x80, 0x00, 0x1F,
            0x00, 0x00, 0x00, 0x00,
        ]
    );
    assert_eq!(source.func_names, lines(&["__dt__3FooFv", "__dt__3BarFv"]));
    let table = decode_extab(&source.table_bytes).unwrap();
    let names: Vec<&str> = source.func_names.iter().map(|s| s.as_str()).collect();
    let expected = "Flag values:\n\
Has Elf Vector: No\n\
Large Frame: No\n\
Has Frame Pointer: Yes\n\
Saved CR: No\n\
Saved GPR range: r31\n\
\n\
PC actions:\n\
PC=80001000:80001040, Action: 000010\n\
\n\
Exception actions:\n\
000010:\n\
Type: DESTROYLOCAL\n\
Local: 0x10(FP)\n\
Dtor: \"__dt__3FooFv\"\n\
000018:\n\
Type: DELETEPOINTER\n\
Pointer: r31)\n\
Dtor: \"__dt__3BarFv\".\n";
    assert_eq!(table.to_string(&names), Ok(String::from(expected)));
    assert_eq!(
        table.to_string(&names[..1]),
        Err(cwextab::ExtabError::MissingFunctionName)
    );
}
