use shell_core::command::{BuiltinCommand, Command};
use shell_core::token::{is_whitespace, tokenize};

fn strings(items: &[&str]) -> Vec<String> {
    items.iter().map(|s| s.to_string()).collect()
}

#[test]
fn builtin_names_are_recognised() {
    assert_eq!(BuiltinCommand::from_str("exit"), Some(BuiltinCommand::Exit));
    assert_eq!(BuiltinCommand::from_str("echo"), Some(BuiltinCommand::Echo));
    assert_eq!(BuiltinCommand::from_str("type"), Some(BuiltinCommand::Type));
    assert_eq!(BuiltinCommand::from_str("pwd"), Some(BuiltinCommand::Pwd));
    assert_eq!(BuiltinCommand::from_str("cd"), Some(BuiltinCommand::Cd));
}

#[test]
fn other_words_are_no_builtins() {
    for word in ["", "ls", "Echo", "EXIT", "exit ", " exit", "ech", "echoo", "c", "cdd", "pw", "typ", "~"] {
        assert_eq!(BuiltinCommand::from_str(word), None, "{:?}", word);
    }
}

#[test]
fn names_round_trip() {
    for kind in [
        BuiltinCommand::Exit,
        BuiltinCommand::Echo,
        BuiltinCommand::Type,
        BuiltinCommand::Pwd,
        BuiltinCommand::Cd,
    ] {
        assert_eq!(BuiltinCommand::from_str(kind.name()), Some(kind));
    }
    assert_eq!(BuiltinCommand::Pwd.name(), "pwd");
}

#[test]
fn builtin_with_arguments() {
    let command = Command::from_args(&["echo", "a", "b", "c"]);
    assert_eq!(command, Command::Builtin(BuiltinCommand::Echo, strings(&["a", "b", "c"])));
}

#[test]
fn builtin_without_arguments() {
    assert_eq!(Command::from_args(&["pwd"]), Command::Builtin(BuiltinCommand::Pwd, vec![]));
}

#[test]
fn builtin_shadows_whatever_follows() {
    for word in ["exit", "echo", "type", "pwd", "cd"] {
        let command = Command::from_args(&[word, "/bin/echo", "exit", "--", ""]);
        match command {
            Command::Builtin(kind, args) => {
                assert_eq!(kind.name(), word);
                assert_eq!(args, strings(&["/bin/echo", "exit", "--", ""]));
            }
            Command::External(..) => panic!("{} was taken for a program", word),
        }
    }
}

#[test]
fn anything_else_is_external() {
    assert_eq!(
        Command::from_args(&["ls", "-l", "/tmp"]),
        Command::External("ls".to_string(), strings(&["-l", "/tmp"]))
    );
    assert_eq!(
        Command::from_args(&["/bin/echo"]),
        Command::External("/bin/echo".to_string(), vec![])
    );
    assert_eq!(
        Command::from_args(&["Exit", "1"]),
        Command::External("Exit".to_string(), strings(&["1"]))
    );
}

#[test]
fn tokens_of_a_plain_line() {
    assert_eq!(tokenize("echo a b c\n"), vec!["echo", "a", "b", "c"]);
}

#[test]
fn runs_of_white_space_count_once() {
    assert_eq!(tokenize("  echo \t a   b\r\n\tc  "), vec!["echo", "a", "b", "c"]);
    assert_eq!(tokenize("echo\u{3000}a\u{a0}b\u{2003}\u{85}c"), vec!["echo", "a", "b", "c"]);
}

#[test]
fn blank_lines_have_no_tokens() {
    assert!(tokenize("").is_empty());
    assert!(tokenize("\n").is_empty());
    assert!(tokenize(" \t \u{2028} \n").is_empty());
}

#[test]
fn a_single_word_is_one_token() {
    assert_eq!(tokenize("pwd"), vec!["pwd"]);
    assert_eq!(tokenize("x"), vec!["x"]);
    assert_eq!(tokenize(" x"), vec!["x"]);
    assert_eq!(tokenize("x "), vec!["x"]);
}

#[test]
fn tokens_keep_other_characters() {
    assert_eq!(tokenize("a\u{200b}b \"c d\" é|ü"), vec!["a\u{200b}b", "\"c", "d\"", "é|ü"]);
}

#[test]
fn white_space_is_what_the_standard_library_says() {
    let mut code: u32 = 0;
    while code <= 0x10ffff {
        if let Some(c) = char::from_u32(code) {
            assert_eq!(is_whitespace(c), c.is_whitespace(), "U+{:04X}", code);
        }
        code += 1;
    }
}

#[test]
fn tokens_are_what_the_standard_library_splits() {
    let lines = [
        "",
        " ",
        "a",
        "echo  hello   world",
        "\tcd\t..\n",
        "type\u{a0}ls",
        "  leading and trailing  ",
        "ünï cödé\u{2009}wörds\u{1680}here",
        "a\u{b}b\u{c}c\u{1c}d",
    ];
    for line in lines {
        let expected: Vec<&str> = line.split_whitespace().collect();
        assert_eq!(tokenize(line), expected, "{:?}", line);
    }
}

#[test]
fn a_tokenized_line_classifies() {
    let words = tokenize("   cd    /tmp  ");
    assert_eq!(
        Command::from_args(&words),
        Command::Builtin(BuiltinCommand::Cd, strings(&["/tmp"]))
    );
}
