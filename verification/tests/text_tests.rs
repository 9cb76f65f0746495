use runpod_client::text::{chars_of, join_lines, parse_port_list, trimmed, white_space};

#[test]
fn ports_are_split_trimmed_and_filtered() {
    let ports = parse_port_list("8888/http, 22/tcp,,  ,3000 ");
    assert_eq!(ports, vec!["8888/http".to_string(), "22/tcp".to_string(), "3000".to_string()]);
}

#[test]
fn ports_of_empty_text_are_none() {
    assert!(parse_port_list("").is_empty());
    assert!(parse_port_list(" , ,\t").is_empty());
}

#[test]
fn single_port_is_kept() {
    assert_eq!(parse_port_list("8888"), vec!["8888".to_string()]);
}

#[test]
fn trimming_removes_unicode_whitespace() {
    let v: Vec<char> = "\u{3000}\t 80 x\u{2003}\n".chars().collect();
    assert_eq!(trimmed(&v), "80 x");
    let all_space: Vec<char> = " \u{a0} ".chars().collect();
    assert_eq!(trimmed(&all_space), "");
}

#[test]
fn white_space_matches_std() {
    for c in ['\t', '\n', '\u{b}', '\u{c}', '\r', ' ', '\u{85}', '\u{a0}', '\u{1680}', '\u{2000}', '\u{200a}', '\u{2028}', '\u{2029}', '\u{202f}', '\u{205f}', '\u{3000}', 'a', '0', ',', '\u{200b}', '\u{feff}', '\u{180e}'] {
        assert_eq!(white_space(c), c.is_whitespace(), "{:?}", c);
    }
}

#[test]
fn chars_of_keeps_order() {
    assert_eq!(chars_of("héllo"), vec!['h', 'é', 'l', 'l', 'o']);
}

#[test]
fn log_lines_are_joined_with_line_feeds() {
    let lines = vec!["first".to_string(), "second".to_string(), "".to_string(), "fourth".to_string()];
    assert_eq!(join_lines(&lines), "first\nsecond\n\nfourth");
    assert_eq!(join_lines(&vec![]), "");
    assert_eq!(join_lines(&vec!["only".to_string()]), "only");
}
