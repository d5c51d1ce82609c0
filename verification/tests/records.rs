use phrase_upload_keys::lines::split_non_empty_lines;
use phrase_upload_keys::records::{parse_keys, NewKey, ParseError};

fn record(key: &str, string: &str) -> NewKey {
    NewKey { key: key.to_string(), string: string.to_string() }
}

/// Keys and translations as the standard library's line iterator pairs them.
fn by_std_lines(contents: &str) -> Option<Vec<NewKey>> {
    let lines: Vec<&str> = contents.lines().filter(|line| !line.is_empty()).collect();
    if lines.len() % 2 != 0 {
        return None;
    }
    Some(lines.chunks(2).map(|pair| record(pair[0], pair[1])).collect())
}

#[test]
fn two_records_in_file_order() {
    let parsed = parse_keys("keys.txt", "greeting\nHello\nfarewell\nGoodbye\n");
    assert_eq!(parsed, Ok(vec![record("greeting", "Hello"), record("farewell", "Goodbye")]));
}

#[test]
fn last_line_needs_no_line_feed() {
    let parsed = parse_keys("keys.txt", "greeting\nHello");
    assert_eq!(parsed, Ok(vec![record("greeting", "Hello")]));
}

#[test]
fn blank_lines_do_not_count() {
    let parsed = parse_keys("keys.txt", "\n\na\n\n\nb\n\nc\n\n\n\nd\n\n");
    assert_eq!(parsed, Ok(vec![record("a", "b"), record("c", "d")]));
}

#[test]
fn single_line_is_refused_with_the_path() {
    let parsed = parse_keys("some/dir/keys.txt", "onlykey\n");
    assert_eq!(parsed, Err(ParseError { file: "some/dir/keys.txt".to_string() }));
}

#[test]
fn odd_number_of_lines_is_refused() {
    assert!(parse_keys("f", "a\nb\nc").is_err());
    assert!(parse_keys("f", "a\nb\n\nc\n").is_err());
    assert!(parse_keys("f", "a\nb\nc\nd\ne\n").is_err());
}

#[test]
fn blank_line_does_not_stand_for_a_translation() {
    assert_eq!(
        parse_keys("f", "key\n\nnext\nvalue\n"),
        Err(ParseError { file: "f".to_string() })
    );
}

#[test]
fn empty_input_holds_no_record() {
    assert_eq!(parse_keys("f", ""), Ok(vec![]));
    assert_eq!(parse_keys("f", "\n\n\n"), Ok(vec![]));
    assert_eq!(parse_keys("f", "\r\n\r\n"), Ok(vec![]));
}

#[test]
fn carriage_return_before_line_feed_ends_the_line() {
    let parsed = parse_keys("f", "greeting\r\nHello\r\n\r\nfarewell\r\nGoodbye\r\n");
    assert_eq!(parsed, Ok(vec![record("greeting", "Hello"), record("farewell", "Goodbye")]));
}

#[test]
fn only_one_carriage_return_is_taken_off() {
    assert_eq!(split_non_empty_lines("a\r\r\nb"), vec!["a\r".to_string(), "b".to_string()]);
    assert_eq!(split_non_empty_lines("\r\r\n"), vec!["\r".to_string()]);
}

#[test]
fn carriage_return_inside_a_line_stays() {
    assert_eq!(split_non_empty_lines("a\rb\nc"), vec!["a\rb".to_string(), "c".to_string()]);
}

#[test]
fn last_line_without_line_feed_keeps_its_carriage_return() {
    assert_eq!(split_non_empty_lines("a\nb\r"), vec!["a".to_string(), "b\r".to_string()]);
    assert_eq!(split_non_empty_lines("\r"), vec!["\r".to_string()]);
    assert_eq!(parse_keys("f", "k\nv\r"), Ok(vec![record("k", "v\r")]));
}

#[test]
fn lines_keep_spaces_and_letters_of_any_script() {
    let parsed = parse_keys("f", "  grüße \n Grüß Gott, 世界 🌍\n");
    assert_eq!(parsed, Ok(vec![record("  grüße ", " Grüß Gott, 世界 🌍")]));
}

#[test]
fn line_of_spaces_is_not_blank() {
    assert_eq!(parse_keys("f", "key\n \n"), Ok(vec![record("key", " ")]));
}

#[test]
fn split_gives_the_lines_in_order() {
    assert_eq!(
        split_non_empty_lines("one\n\ntwo\r\nthree"),
        vec!["one".to_string(), "two".to_string(), "three".to_string()]
    );
    assert_eq!(split_non_empty_lines(""), Vec::<String>::new());
    assert_eq!(split_non_empty_lines("\n"), Vec::<String>::new());
}

#[test]
fn parsing_agrees_with_the_standard_lines() {
    let inputs = [
        "",
        "\n",
        "a",
        "a\n",
        "a\nb",
        "a\nb\n",
        "a\r\nb\r\n",
        "a\n\nb\n\n",
        "a\rb\nc\n",
        "a\r\r\nb\n",
        "a\nb\r",
        "\r",
        "\r\n",
        "\r\n\r",
        "\n\r\n\r\r\n",
        "k1\nv1\nk2\nv2\nk3\n",
        "k1\nv1\nk2\nv2\nk3\nv3",
        "ключ\nзначение\n\n键\n值\n",
        " \n\t\n",
        "a\n\n\n\n\nb",
    ];
    for contents in inputs.iter() {
        let expected = by_std_lines(contents);
        let parsed = parse_keys("in", contents);
        match expected {
            Some(records) => assert_eq!(parsed, Ok(records), "input {:?}", contents),
            None => assert_eq!(
                parsed,
                Err(ParseError { file: "in".to_string() }),
                "input {:?}",
                contents
            ),
        }
    }
}

#[test]
fn many_records_keep_their_order() {
    let mut contents = String::new();
    let mut expected = Vec::new();
    for i in 0..500 {
        contents.push_str(&format!("key{}\n\nvalue {}\r\n", i, i));
        expected.push(record(&format!("key{}", i), &format!("value {}", i)));
    }
    assert_eq!(parse_keys("big", &contents), Ok(expected));
}
