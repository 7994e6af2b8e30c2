use acpx_rs::command::{guardian_command, shell_escape, split_command_line, CommandError};

fn words(text: &str) -> Vec<String> {
    let (command, args) = split_command_line(text).unwrap();
    let mut all = vec![command];
    all.extend(args);
    all
}

#[test]
fn splits_a_command() {
    let (command, args) = split_command_line("agent --acp 'two words' \"a \\\"b\\\"\" c\\ d").unwrap();
    assert_eq!(command, "agent");
    assert_eq!(args, ["--acp", "two words", "a \"b\"", "c d"]);
}

#[test]
fn splits_the_commands_of_known_agents() {
    assert_eq!(words("npx -y @zed-industries/codex-acp"), ["npx", "-y", "@zed-industries/codex-acp"]);
    assert_eq!(
        words("gemini --experimental-acp --yolo -m gemini-3.1-pro-preview"),
        ["gemini", "--experimental-acp", "--yolo", "-m", "gemini-3.1-pro-preview"]
    );
    assert_eq!(words("  your-agent\t--acp \u{3000}"), ["your-agent", "--acp"]);
}

#[test]
fn quotes_join_to_the_word_around_them() {
    assert_eq!(words("a'b c'd"), ["ab cd"]);
    assert_eq!(words("'a'\"b\"c"), ["abc"]);
    assert_eq!(words("'it''s'"), ["its"]);
    assert_eq!(words("'\"' \"'\""), ["\"", "'"]);
}

#[test]
fn an_empty_word_is_no_word() {
    assert_eq!(words("a '' b \"\""), ["a", "b"]);
    assert_eq!(split_command_line("''"), Err(CommandError::Empty));
}

#[test]
fn a_backslash_takes_the_next_character() {
    assert_eq!(words("a\\ b"), ["a b"]);
    assert_eq!(words("\\'a\\\\"), ["'a\\"]);
    assert_eq!(words("'a\\b'"), ["a\\b"]);
    assert_eq!(words("\"a\\b\""), ["ab"]);
    assert_eq!(words("a\\"), ["a\\"]);
    assert_eq!(words("\\"), ["\\"]);
}

#[test]
fn a_command_needs_a_word_and_closed_quotes() {
    for text in ["'", "\"a", "a 'b", "\"a\\\"", "\"a\\"] {
        assert_eq!(split_command_line(text), Err(CommandError::UnterminatedQuote), "{text}");
    }
    for text in ["", " \t\n"] {
        assert_eq!(split_command_line(text), Err(CommandError::Empty));
    }
    assert_eq!(CommandError::UnterminatedQuote.message(), "unterminated quote in agent command");
    assert_eq!(CommandError::Empty.message(), "agent command is empty");
}

#[test]
fn escapes_what_a_shell_would_read() {
    assert_eq!(shell_escape(""), "''");
    assert_eq!(shell_escape("/usr/bin/acpx-rs"), "/usr/bin/acpx-rs");
    assert_eq!(shell_escape("a b"), "'a b'");
    assert_eq!(shell_escape("it's"), "'it'\"'\"'s'");
    for ch in "'\"\\$`!&;|<>(){}".chars() {
        assert!(shell_escape(&format!("a{ch}")).starts_with('\''), "{ch}");
    }
    for text in ["~", "*", "#", "a=b", "%", "[x]", "?"] {
        assert_eq!(shell_escape(text), text);
    }
}

#[test]
fn what_is_escaped_is_read_back() {
    for word in ["a", "a b", "it's", "''", "\\", "\"", "$(rm)", "\n", "a'b\"c\\d e", "\u{3000}"] {
        assert_eq!(words(&shell_escape(word)), [word]);
    }
    let all = ["a b", "it's", "plain", "\\"].map(shell_escape).join(" ");
    assert_eq!(words(&all), ["a b", "it's", "plain", "\\"]);
}

#[test]
fn starts_a_guardian_in_the_background() {
    assert_eq!(
        guardian_command("/bin/acpx", "/home/u/.acpx-rs", "/r.json", "/l.log"),
        "nohup /bin/acpx --home /home/u/.acpx-rs __guard-session --record /r.json >> /l.log 2>&1 < /dev/null &"
    );
    let command = guardian_command("/my bin/acpx", "/it's", "/r", "/l;x");
    assert_eq!(
        words(&command),
        [
            "nohup", "/my bin/acpx", "--home", "/it's", "__guard-session", "--record", "/r", ">>", "/l;x", "2>&1",
            "<", "/dev/null", "&"
        ]
    );
}
