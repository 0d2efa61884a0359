use astra_receiver::command::{
    is_blank_text, is_whitespace_char, parse_command, split_command, CommandError, CommandLine,
};

fn std_words(line: &str) -> Vec<String> {
    line.split_whitespace().map(|word| word.to_string()).collect()
}

#[test]
fn whitespace_is_the_unicode_property() {
    let mut count: u32 = 0;
    for code in 0u32..=0x10FFFF {
        if let Some(c) = char::from_u32(code) {
            assert_eq!(is_whitespace_char(c), c.is_whitespace(), "U+{:04X}", code);
            if is_whitespace_char(c) {
                count += 1;
            }
        }
    }
    assert_eq!(count, 25);
}

#[test]
fn whitespace_examples() {
    assert!(is_whitespace_char(' '));
    assert!(is_whitespace_char('\t'));
    assert!(is_whitespace_char('\n'));
    assert!(is_whitespace_char('\r'));
    assert!(is_whitespace_char('\u{a0}'));
    assert!(is_whitespace_char('\u{3000}'));
    assert!(!is_whitespace_char('a'));
    assert!(!is_whitespace_char('\u{1c}'));
    assert!(!is_whitespace_char('\u{200b}'));
    assert!(!is_whitespace_char('\u{0}'));
}

#[test]
fn blank_texts() {
    assert!(is_blank_text(""));
    assert!(is_blank_text(" "));
    assert!(is_blank_text(" \t\r\n"));
    assert!(is_blank_text("\u{2003}\u{a0}"));
    assert!(!is_blank_text("a"));
    assert!(!is_blank_text("  a  "));
    assert!(!is_blank_text("\u{200b}"));
}

#[test]
fn blank_agrees_with_trim() {
    let samples: [&str; 8] = ["", " ", "x", " x", "x ", "\t\n", "\u{85}", "\u{85}."];
    for sample in samples {
        assert_eq!(is_blank_text(sample), sample.trim().is_empty(), "{:?}", sample);
    }
}

#[test]
fn split_simple_line() {
    assert_eq!(split_command("echo hi"), vec!["echo".to_string(), "hi".to_string()]);
}

#[test]
fn split_empty_and_blank_lines() {
    assert_eq!(split_command(""), Vec::<String>::new());
    assert_eq!(split_command("   "), Vec::<String>::new());
    assert_eq!(split_command("\t\n"), Vec::<String>::new());
}

#[test]
fn split_single_word() {
    assert_eq!(split_command("ls"), vec!["ls".to_string()]);
    assert_eq!(split_command("  ls"), vec!["ls".to_string()]);
    assert_eq!(split_command("ls  "), vec!["ls".to_string()]);
    assert_eq!(split_command("x"), vec!["x".to_string()]);
}

#[test]
fn split_runs_of_whitespace_count_once() {
    assert_eq!(
        split_command("  ls \t -la\n\n/tmp  "),
        vec!["ls".to_string(), "-la".to_string(), "/tmp".to_string()]
    );
}

#[test]
fn split_keeps_other_characters() {
    assert_eq!(
        split_command("printf \u{e9}t\u{e9}\u{3000}\u{1f600}"),
        vec!["printf".to_string(), "\u{e9}t\u{e9}".to_string(), "\u{1f600}".to_string()]
    );
}

#[test]
fn split_agrees_with_the_standard_library() {
    let samples: [&str; 12] = [
        "",
        " ",
        "a",
        "a b",
        " a  b ",
        "echo hi",
        "sh -c 'echo  x'",
        "\tone\ttwo\tthree\t",
        "a\u{a0}b\u{2028}c",
        "tail -n 5 /var/log/syslog",
        "\u{200b} zero-width",
        "x\r\ny",
    ];
    for sample in samples {
        assert_eq!(split_command(sample), std_words(sample), "{:?}", sample);
    }
}

#[test]
fn split_words_hold_no_whitespace() {
    let words: Vec<String> = split_command(" a\tbc \u{2003} d\n");
    assert_eq!(words.len(), 3);
    for word in &words {
        assert!(!word.is_empty());
        assert!(!word.chars().any(|c| c.is_whitespace()));
    }
}

#[test]
fn parse_program_and_arguments() {
    assert_eq!(
        parse_command("ls -la /tmp"),
        Ok(CommandLine {
            program: "ls".to_string(),
            args: vec!["-la".to_string(), "/tmp".to_string()],
        })
    );
}

#[test]
fn parse_program_alone() {
    assert_eq!(
        parse_command(" uptime "),
        Ok(CommandLine { program: "uptime".to_string(), args: Vec::new() })
    );
}

#[test]
fn parse_rejects_blank_lines() {
    assert_eq!(parse_command(""), Err(CommandError::Empty));
    assert_eq!(parse_command(" "), Err(CommandError::Empty));
    assert_eq!(parse_command(" \t \n "), Err(CommandError::Empty));
    assert_eq!(parse_command("\u{3000}"), Err(CommandError::Empty));
}

#[test]
fn parse_knows_no_quoting() {
    assert_eq!(
        parse_command("echo \"a b\" c\\ d"),
        Ok(CommandLine {
            program: "echo".to_string(),
            args: vec![
                "\"a".to_string(),
                "b\"".to_string(),
                "c\\".to_string(),
                "d".to_string(),
            ],
        })
    );
}
