//! Command lines: splitting the command of an agent into words, and writing
//! words so that they are read back unchanged.
use vstd::prelude::*;
use vstd::string::*;

use crate::text::{chars_of, is_white_space, join, joined, views, white_space};

verus! {

/// Why a command line names no program.
#[derive(PartialEq, Eq, Structural, Debug, Clone, Copy)]
pub enum CommandError {
    /// A quote is opened and not closed.
    UnterminatedQuote,
    /// There is no word.
    Empty,
}

impl CommandError {
    /// The message for a user.
    pub open spec fn text(self) -> Seq<char> {
        match self {
            CommandError::UnterminatedQuote => "unterminated quote in agent command"@,
            CommandError::Empty => "agent command is empty"@,
        }
    }

    /// The message for a user.
    pub fn message(&self) -> (text: String)
        ensures
            text@ == self.text(),
    {
        match self {
            CommandError::UnterminatedQuote => "unterminated quote in agent command".to_owned(),
            CommandError::Empty => "agent command is empty".to_owned(),
        }
    }
}

/// The list without the word where the word is empty, with it in front
/// otherwise.
pub open spec fn with_word(word: Seq<char>, rest: Option<Seq<Seq<char>>>) -> Option<
    Seq<Seq<char>>,
> {
    match rest {
        Some(words) => Some(
            if word.len() == 0 {
                words
            } else {
                seq![word] + words
            },
        ),
        None => None,
    }
}

/// The words of `text`, where `word` has been read of the first one and `quote`
/// is the quote that is open; `None` where a quote stays open.
///
/// A backslash takes the next character as it is, except between single quotes;
/// at the end of the text it stands for itself. Between quotes every other
/// character but the closing quote stands for itself. Elsewhere white space ends
/// a word, and a quote opens a quoted part of the word. An empty word is no
/// word, quoted or not.
pub open spec fn words_from(text: Seq<char>, word: Seq<char>, quote: Option<char>) -> Option<
    Seq<Seq<char>>,
>
    decreases text.len(),
{
    if text.len() == 0 {
        if quote is Some {
            None
        } else {
            with_word(word, Some(Seq::empty()))
        }
    } else if text[0] == '\\' && quote != Some('\'') {
        if text.len() == 1 {
            words_from(Seq::empty(), word.push('\\'), quote)
        } else {
            words_from(text.skip(2), word.push(text[1]), quote)
        }
    } else if quote is Some {
        if quote == Some(text[0]) {
            words_from(text.skip(1), word, None)
        } else {
            words_from(text.skip(1), word.push(text[0]), quote)
        }
    } else if text[0] == '\'' || text[0] == '"' {
        words_from(text.skip(1), word, Some(text[0]))
    } else if white_space(text[0]) {
        with_word(word, words_from(text.skip(1), Seq::empty(), None))
    } else {
        words_from(text.skip(1), word.push(text[0]), None)
    }
}

/// The words of a command line; `None` where a quote stays open.
pub open spec fn words_of(text: Seq<char>) -> Option<Seq<Seq<char>>> {
    words_from(text, Seq::empty(), None)
}

/// What a list of words read so far and the words of the rest come to.
spec fn after(words: Seq<Seq<char>>, rest: Option<Seq<Seq<char>>>) -> Option<Seq<Seq<char>>> {
    match rest {
        Some(more) => Some(words + more),
        None => None,
    }
}

/// Splits a command line into the program and its arguments.
pub fn split_command_line(input: &str) -> (split: Result<(String, Vec<String>), CommandError>)
    ensures
        match split {
            Ok((command, args)) => words_of(input@) == Some(seq![command@] + views(args@)),
            Err(CommandError::UnterminatedQuote) => words_of(input@) is None,
            Err(CommandError::Empty) => words_of(input@) == Some(Seq::<Seq<char>>::empty()),
        },
{
    let chars = chars_of(input);
    let mut parts: Vec<String> = Vec::new();
    let mut current = String::new();
    let mut quote: Option<char> = None;
    let mut escaping = false;
    let ghost all = words_of(input@);
    assert(chars@.skip(0) =~= chars@);
    assert(views(parts@) =~= Seq::<Seq<char>>::empty());
    proof {
        let whole = words_of(input@);
        if let Some(words) = whole {
            assert(Seq::<Seq<char>>::empty() + words =~= words);
        }
    }
    for i in 0..chars.len()
        invariant
            chars@ == input@,
            all == words_of(input@),
            escaping ==> quote != Some('\''),
            all == after(
                views(parts@),
                words_from(
                    if escaping {
                        seq!['\\'] + chars@.skip(i as int)
                    } else {
                        chars@.skip(i as int)
                    },
                    current@,
                    quote,
                ),
            ),
    {
        let ch = chars[i];
        let ghost rest = chars@.skip(i as int);
        assert(rest.len() > 0 && rest[0] == ch);
        assert(rest.skip(1) =~= chars@.skip(i + 1));
        assert((seq!['\\'] + rest).skip(2) =~= chars@.skip(i + 1));
        assert(seq!['\\'] + chars@.skip(i + 1) =~= rest || ch != '\\');
        if escaping {
            current.push(ch);
            escaping = false;
        } else if ch == '\\' && quote != Some('\'') {
            escaping = true;
        } else if let Some(active) = quote {
            if ch == active {
                quote = None;
            } else {
                current.push(ch);
            }
        } else if ch == '\'' || ch == '"' {
            quote = Some(ch);
        } else if is_white_space(ch) {
            if current.as_str().is_empty() {
                assert(current@ =~= Seq::<char>::empty());
            } else {
                let ghost before = views(parts@);
                let ghost word = current@;
                let ghost more = words_from(rest.skip(1), Seq::empty(), None);
                parts.push(current);
                current = String::new();
                proof {
                    assert(views(parts@) =~= before.push(word));
                    if let Some(words) = more {
                        assert(before + (seq![word] + words) =~= views(parts@) + words);
                    }
                }
            }
        } else {
            current.push(ch);
        }
    }
    let ghost rest = if escaping {
        seq!['\\']
    } else {
        Seq::<char>::empty()
    };
    proof {
        let end = chars@.skip(chars@.len() as int);
        assert(end =~= Seq::<char>::empty());
        assert(seq!['\\'] + end =~= seq!['\\']);
        assert(all == after(views(parts@), words_from(rest, current@, quote)));
        reveal_with_fuel(words_from, 2);
    }
    if escaping {
        current.push('\\');
    }
    assert(all == after(views(parts@), words_from(Seq::empty(), current@, quote)));
    if quote.is_some() {
        return Err(CommandError::UnterminatedQuote);
    }
    if !current.as_str().is_empty() {
        let ghost before = views(parts@);
        let ghost word = current@;
        parts.push(current);
        proof {
            assert(views(parts@) =~= before.push(word));
            assert(before + (seq![word] + Seq::<Seq<char>>::empty()) =~= views(parts@));
        }
    } else {
        assert(views(parts@) + Seq::<Seq<char>>::empty() =~= views(parts@));
    }
    assert(all == Some(views(parts@)));
    if parts.len() == 0 {
        assert(views(parts@) =~= Seq::<Seq<char>>::empty());
        return Err(CommandError::Empty);
    }
    let ghost words = views(parts@);
    let command = parts.remove(0);
    assert(seq![command@] + views(parts@) =~= words);
    Ok((command, parts))
}

/// The characters that keep a word from being written as it is.
pub open spec fn special(ch: char) -> bool {
    ||| white_space(ch)
    ||| ch == '\'' || ch == '"' || ch == '\\' || ch == '$' || ch == '`' || ch == '!' || ch == '&'
    ||| ch == ';' || ch == '|' || ch == '<' || ch == '>' || ch == '(' || ch == ')' || ch == '{'
    ||| ch == '}'
}

/// Whether the word holds a character that keeps it from being written as it
/// is.
pub open spec fn has_special(word: Seq<char>) -> bool {
    exists|i: int| 0 <= i < word.len() && special(#[trigger] word[i])
}

/// The characters that stand for a single quote between single quotes: the
/// quotes are closed, a single quote follows in double quotes, and the single
/// quotes are opened again.
pub open spec fn quoted_quote() -> Seq<char> {
    seq!['\'', '"', '\'', '"', '\'']
}

/// The text between single quotes that stands for a word.
pub open spec fn quoted_body(word: Seq<char>) -> Seq<char>
    decreases word.len(),
{
    if word.len() == 0 {
        Seq::empty()
    } else if word.last() == '\'' {
        quoted_body(word.drop_last()) + quoted_quote()
    } else {
        quoted_body(word.drop_last()).push(word.last())
    }
}

/// A word as it is written in a command line: as it is where it holds no
/// special character and is not empty, in single quotes otherwise.
pub open spec fn escaped(word: Seq<char>) -> Seq<char> {
    if word.len() > 0 && !has_special(word) {
        word
    } else {
        seq!['\''] + quoted_body(word) + seq!['\'']
    }
}

fn is_special(ch: char) -> (answer: bool)
    ensures
        answer == special(ch),
{
    is_white_space(ch) || ch == '\'' || ch == '"' || ch == '\\' || ch == '$' || ch == '`' || ch == '!'
        || ch == '&' || ch == ';' || ch == '|' || ch == '<' || ch == '>' || ch == '(' || ch == ')'
        || ch == '{' || ch == '}'
}

/// Writes a word so that a command line holds it as one word.
pub fn shell_escape(value: &str) -> (out: String)
    ensures
        out@ == escaped(value@),
{
    let chars = chars_of(value);
    let mut quoting = chars.len() == 0;
    for i in 0..chars.len()
        invariant
            chars@ == value@,
            chars@.len() == 0 ==> quoting,
            chars@.len() > 0 ==> (quoting <==> exists|k: int|
                0 <= k < i && special(#[trigger] chars@[k])),
    {
        if is_special(chars[i]) {
            quoting = true;
        }
    }
    if !quoting {
        return value.to_owned();
    }
    let mut out = String::new();
    out.push('\'');
    assert(value@.take(0) =~= Seq::empty());
    for i in 0..chars.len()
        invariant
            chars@ == value@,
            out@ == seq!['\''] + quoted_body(value@.take(i as int)),
    {
        let ghost before = out@;
        assert(value@.take(i + 1).drop_last() =~= value@.take(i as int));
        if chars[i] == '\'' {
            out.append("'\"'\"'");
            proof {
                reveal_strlit("'\"'\"'");
                assert("'\"'\"'"@ =~= quoted_quote());
            }
        } else {
            out.push(chars[i]);
        }
        assert(out@ =~= seq!['\''] + quoted_body(value@.take(i + 1)));
    }
    assert(value@.take(value@.len() as int) =~= value@);
    out.push('\'');
    assert(out@ =~= seq!['\''] + quoted_body(value@) + seq!['\'']);
    out
}

/// The word can stand in a command line as it is: it is not empty and holds no
/// white space, no quote and no backslash.
pub open spec fn bare(word: Seq<char>) -> bool {
    &&& word.len() > 0
    &&& forall|i: int|
        0 <= i < word.len() ==> !white_space(#[trigger] word[i]) && word[i] != '\'' && word[i] != '"'
            && word[i] != '\\'
}

/// Wherever the text stands outside of quotes, it adds the characters of `word`
/// to the word that is being read.
pub open spec fn spells(text: Seq<char>, word: Seq<char>) -> bool {
    forall|rest: Seq<char>, before: Seq<char>|
        #![trigger words_from(text + rest, before, None)]
        words_from(text + rest, before, None) == words_from(rest, before + word, None)
}

proof fn lemma_bare(word: Seq<char>, rest: Seq<char>, before: Seq<char>)
    requires
        bare(word),
    ensures
        words_from(word + rest, before, None) == words_from(rest, before + word, None),
    decreases word.len(),
{
    let text = word + rest;
    assert(text[0] == word[0]);
    if word.len() == 1 {
        assert(text.skip(1) =~= rest);
        assert(before.push(word[0]) =~= before + word);
    } else {
        let tail = word.drop_first();
        assert(text.skip(1) =~= tail + rest);
        assert forall|i: int| 0 <= i < tail.len() implies !white_space(#[trigger] tail[i]) && tail[i]
            != '\'' && tail[i] != '"' && tail[i] != '\\' by {
            assert(tail[i] == word[i + 1]);
        }
        lemma_bare(tail, rest, before.push(word[0]));
        assert(before.push(word[0]) + tail =~= before + word);
    }
}

proof fn lemma_quoted(word: Seq<char>, rest: Seq<char>, before: Seq<char>)
    ensures
        words_from(quoted_body(word) + rest, before, Some('\'')) == words_from(
            rest,
            before + word,
            Some('\''),
        ),
    decreases word.len(),
{
    if word.len() == 0 {
        assert(quoted_body(word) + rest =~= rest);
        assert(before + word =~= before);
    } else {
        let head = word.drop_last();
        let last = word.last();
        assert(before + head + seq![last] =~= before + word);
        assert((before + head).push(last) =~= before + word);
        if last == '\'' {
            let tail = quoted_quote() + rest;
            assert(quoted_body(word) + rest =~= quoted_body(head) + tail);
            lemma_quoted(head, tail, before);
            let w = before + head;
            assert(tail.skip(1)[0] == '"');
            assert(tail.skip(1).skip(1)[0] == '\'');
            assert(tail.skip(1).skip(1).skip(1)[0] == '"');
            assert(tail.skip(1).skip(1).skip(1).skip(1)[0] == '\'');
            assert(tail.skip(1).skip(1).skip(1).skip(1).skip(1) =~= rest);
            assert(words_from(tail, w, Some('\'')) == words_from(tail.skip(1), w, None));
            assert(words_from(tail.skip(1), w, None) == words_from(
                tail.skip(1).skip(1),
                w,
                Some('"'),
            ));
            assert(words_from(tail.skip(1).skip(1), w, Some('"')) == words_from(
                tail.skip(1).skip(1).skip(1),
                w.push('\''),
                Some('"'),
            ));
            assert(words_from(tail.skip(1).skip(1).skip(1), w.push('\''), Some('"')) == words_from(
                tail.skip(1).skip(1).skip(1).skip(1),
                w.push('\''),
                None,
            ));
            assert(words_from(tail.skip(1).skip(1).skip(1).skip(1), w.push('\''), None)
                == words_from(rest, w.push('\''), Some('\'')));
        } else {
            let tail = seq![last] + rest;
            assert(quoted_body(word) + rest =~= quoted_body(head) + tail);
            lemma_quoted(head, tail, before);
            assert(tail.skip(1) =~= rest);
        }
    }
}

/// What `shell_escape` writes for a word spells that word, whatever the
/// characters of the word are.
pub proof fn law_escaped_spells(word: Seq<char>)
    ensures
        spells(escaped(word), word),
{
    assert forall|rest: Seq<char>, before: Seq<char>|
        #![trigger words_from(escaped(word) + rest, before, None)]
        words_from(escaped(word) + rest, before, None) == words_from(rest, before + word, None) by {
        if word.len() > 0 && !has_special(word) {
            assert forall|i: int| 0 <= i < word.len() implies !white_space(#[trigger] word[i])
                && word[i] != '\'' && word[i] != '"' && word[i] != '\\' by {
                assert(!special(word[i]));
            }
            lemma_bare(word, rest, before);
        } else {
            let text = escaped(word) + rest;
            let tail = seq!['\''] + rest;
            assert(text.skip(1) =~= quoted_body(word) + tail);
            assert(text[0] == '\'');
            lemma_quoted(word, tail, before);
            assert(tail.skip(1) =~= rest);
        }
    }
}

/// A word without white space, quotes and backslashes spells itself.
pub proof fn law_bare_spells(word: Seq<char>)
    requires
        bare(word),
    ensures
        spells(word, word),
{
    assert forall|rest: Seq<char>, before: Seq<char>|
        #![trigger words_from(word + rest, before, None)]
        words_from(word + rest, before, None) == words_from(rest, before + word, None) by {
        lemma_bare(word, rest, before);
    }
}

/// Splitting what `shell_escape` writes for a word that is not empty gives back
/// that word alone.
pub proof fn law_escape_then_split(word: Seq<char>)
    requires
        word.len() > 0,
    ensures
        words_of(escaped(word)) == Some(seq![word]),
{
    law_escaped_spells(word);
    let none = Seq::<char>::empty();
    assert(escaped(word) + none =~= escaped(word));
    assert(none + word =~= word);
    assert(words_from(escaped(word) + none, none, None) == words_from(none, word, None));
    assert(seq![word] + Seq::<Seq<char>>::empty() =~= seq![word]);
}

proof fn lemma_joined_front(texts: Seq<Seq<char>>, separator: Seq<char>)
    requires
        texts.len() >= 2,
    ensures
        joined(texts, separator) == texts[0] + separator + joined(texts.drop_first(), separator),
    decreases texts.len(),
{
    let front = texts.drop_last();
    let rest = texts.drop_first();
    if texts.len() == 2 {
        assert(joined(front, separator) == texts[0]);
        assert(joined(rest, separator) == texts[1]);
    } else {
        lemma_joined_front(front, separator);
        assert(front.drop_first() =~= rest.drop_last());
        assert(joined(texts, separator) =~= texts[0] + separator + joined(rest, separator));
    }
}

/// Texts that spell words, none of them empty, are read back as these words
/// when they are joined with spaces.
pub proof fn law_joined_split(texts: Seq<Seq<char>>, words: Seq<Seq<char>>)
    requires
        texts.len() == words.len(),
        forall|i: int| 0 <= i < texts.len() ==> #[trigger] spells(texts[i], words[i]),
        forall|i: int| 0 <= i < words.len() ==> (#[trigger] words[i]).len() > 0,
    ensures
        words_of(joined(texts, " "@)) == Some(words),
    decreases texts.len(),
{
    reveal_strlit(" ");
    let none = Seq::<char>::empty();
    if texts.len() == 0 {
        assert(words =~= Seq::empty());
    } else {
        let word = words[0];
        assert(spells(texts[0], word));
        assert(none + word =~= word);
        if texts.len() == 1 {
            assert(texts[0] + none =~= texts[0]);
            assert(words_from(texts[0] + none, none, None) == words_from(none, word, None));
            assert(seq![word] + Seq::<Seq<char>>::empty() =~= words);
        } else {
            let more_texts = texts.drop_first();
            let more_words = words.drop_first();
            assert forall|i: int| 0 <= i < more_texts.len() implies #[trigger] spells(
                more_texts[i],
                more_words[i],
            ) by {
                assert(spells(texts[i + 1], words[i + 1]));
            }
            assert forall|i: int| 0 <= i < more_words.len() implies (#[trigger] more_words[i]).len()
                > 0 by {
                assert(words[i + 1].len() > 0);
            }
            law_joined_split(more_texts, more_words);
            lemma_joined_front(texts, " "@);
            let rest = " "@ + joined(more_texts, " "@);
            assert(joined(texts, " "@) =~= texts[0] + rest);
            assert(words_from(texts[0] + rest, none, None) == words_from(rest, word, None));
            assert(rest[0] == ' ');
            assert(rest.skip(1) =~= joined(more_texts, " "@));
            assert(seq![word] + more_words =~= words);
        }
    }
}

/// The words of the shell command that starts the guardian of a session in the
/// background, with its output appended to a log file.
pub open spec fn guardian_words(
    exe: Seq<char>,
    home: Seq<char>,
    record: Seq<char>,
    log: Seq<char>,
) -> Seq<Seq<char>> {
    seq![
        "nohup"@,
        exe,
        "--home"@,
        home,
        "__guard-session"@,
        "--record"@,
        record,
        ">>"@,
        log,
        "2>&1"@,
        "<"@,
        "/dev/null"@,
        "&"@,
    ]
}

/// The shell command that starts the guardian of a session in the background.
pub fn guardian_command(exe: &str, home: &str, record: &str, log: &str) -> (command: String)
    ensures
        command@ == joined(
            guardian_words(escaped(exe@), escaped(home@), escaped(record@), escaped(log@)),
            " "@,
        ),
{
    let words: Vec<String> = vec![
        "nohup".to_owned(),
        shell_escape(exe),
        "--home".to_owned(),
        shell_escape(home),
        "__guard-session".to_owned(),
        "--record".to_owned(),
        shell_escape(record),
        ">>".to_owned(),
        shell_escape(log),
        "2>&1".to_owned(),
        "<".to_owned(),
        "/dev/null".to_owned(),
        "&".to_owned(),
    ];
    assert(views(words@) =~= guardian_words(
        escaped(exe@),
        escaped(home@),
        escaped(record@),
        escaped(log@),
    ));
    join(&words, " ")
}

/// The command that starts a guardian holds each of its paths as one word,
/// whatever characters the path holds.
pub proof fn law_guardian_command(
    exe: Seq<char>,
    home: Seq<char>,
    record: Seq<char>,
    log: Seq<char>,
)
    requires
        exe.len() > 0,
        home.len() > 0,
        record.len() > 0,
        log.len() > 0,
    ensures
        words_of(
            joined(
                guardian_words(escaped(exe), escaped(home), escaped(record), escaped(log)),
                " "@,
            ),
        ) == Some(
            seq![
                "nohup"@,
                exe,
                "--home"@,
                home,
                "__guard-session"@,
                "--record"@,
                record,
                ">>"@,
                log,
                "2>&1"@,
                "<"@,
                "/dev/null"@,
                "&"@,
            ],
        ),
{
    reveal_strlit("nohup");
    reveal_strlit("--home");
    reveal_strlit("__guard-session");
    reveal_strlit("--record");
    reveal_strlit(">>");
    reveal_strlit("2>&1");
    reveal_strlit("<");
    reveal_strlit("/dev/null");
    reveal_strlit("&");
    law_bare_spells("nohup"@);
    law_bare_spells("--home"@);
    law_bare_spells("__guard-session"@);
    law_bare_spells("--record"@);
    law_bare_spells(">>"@);
    law_bare_spells("2>&1"@);
    law_bare_spells("<"@);
    law_bare_spells("/dev/null"@);
    law_bare_spells("&"@);
    law_escaped_spells(exe);
    law_escaped_spells(home);
    law_escaped_spells(record);
    law_escaped_spells(log);
    let texts = guardian_words(escaped(exe), escaped(home), escaped(record), escaped(log));
    let words = guardian_words(exe, home, record, log);
    assert forall|i: int| 0 <= i < texts.len() implies #[trigger] spells(texts[i], words[i]) by {
        if i == 0 || i == 2 || i == 4 || i == 5 || i == 7 || i >= 9 {
            assert(texts[i] == words[i]);
        }
    }
    law_joined_split(texts, words);
}

proof fn lemma_in_quotes(text: Seq<char>, rest: Seq<char>, before: Seq<char>, quote: char)
    requires
        quote == '\'' || quote == '"',
        !text.contains(quote),
        quote == '"' ==> !text.contains('\\'),
    ensures
        words_from(text + rest, before, Some(quote)) == words_from(
            rest,
            before + text,
            Some(quote),
        ),
    decreases text.len(),
{
    if text.len() == 0 {
        assert(text + rest =~= rest);
        assert(before + text =~= before);
    } else {
        let all = text + rest;
        let tail = text.drop_first();
        assert(text.contains(text[0]));
        assert(all.skip(1) =~= tail + rest);
        assert forall|ch: char| tail.contains(ch) implies text.contains(ch) by {
            let k = choose|k: int| 0 <= k < tail.len() && tail[k] == ch;
            assert(text[k + 1] == ch);
        }
        lemma_in_quotes(tail, rest, before.push(text[0]), quote);
        assert(before.push(text[0]) + tail =~= before + text);
    }
}

/// What stands between quotes belongs to the word as it is, white space and the
/// other quote included: between single quotes everything but a single quote,
/// between double quotes everything but a double quote and a backslash. The
/// quotes themselves are no part of it, and a word goes on after them. Quotes that
/// are not closed leave no words.
pub proof fn law_quoted_text(text: Seq<char>, rest: Seq<char>, before: Seq<char>)
    ensures
        !text.contains('\'') ==> words_from(
            seq!['\''] + text + seq!['\''] + rest,
            before,
            None,
        ) == words_from(rest, before + text, None),
        !text.contains('"') && !text.contains('\\') ==> words_from(
            seq!['"'] + text + seq!['"'] + rest,
            before,
            None,
        ) == words_from(rest, before + text, None),
        !text.contains('\'') ==> words_from(seq!['\''] + text, before, None) is None,
        !text.contains('"') && !text.contains('\\') ==> words_from(
            seq!['"'] + text,
            before,
            None,
        ) is None,
{
    let none = Seq::<char>::empty();
    if !text.contains('\'') {
        let all = seq!['\''] + text + seq!['\''] + rest;
        let close = seq!['\''] + rest;
        assert(all.skip(1) =~= text + close);
        lemma_in_quotes(text, close, before, '\'');
        assert(close.skip(1) =~= rest);
        let open = seq!['\''] + text;
        assert(open.skip(1) =~= text + none);
        lemma_in_quotes(text, none, before, '\'');
    }
    if !text.contains('"') && !text.contains('\\') {
        let all = seq!['"'] + text + seq!['"'] + rest;
        let close = seq!['"'] + rest;
        assert(all.skip(1) =~= text + close);
        lemma_in_quotes(text, close, before, '"');
        assert(close.skip(1) =~= rest);
        let open = seq!['"'] + text;
        assert(open.skip(1) =~= text + none);
        lemma_in_quotes(text, none, before, '"');
    }
}

/// A backslash takes the next character as it is, whichever it is, outside of
/// quotes and between double quotes; at the end of the text it stands for itself.
pub proof fn law_backslash(ch: char, rest: Seq<char>, before: Seq<char>)
    ensures
        words_from(seq!['\\', ch] + rest, before, None) == words_from(rest, before.push(ch), None),
        words_from(seq!['\\', ch] + rest, before, Some('"')) == words_from(
            rest,
            before.push(ch),
            Some('"'),
        ),
        words_from(seq!['\\'], before, None) == Some(seq![before.push('\\')]),
        words_from(seq!['\\'], before, Some('"')) is None,
{
    let all = seq!['\\', ch] + rest;
    assert(all.skip(2) =~= rest);
    assert(all[1] == ch);
    reveal_with_fuel(words_from, 2);
    assert(seq![before.push('\\')] + Seq::<Seq<char>>::empty() =~= seq![before.push('\\')]);
}

/// White space outside of quotes ends a word, and so does the end of the text.
/// The word is then one of the words, in its place, unless it is empty.
pub proof fn law_words_end(ch: char, rest: Seq<char>, before: Seq<char>)
    requires
        white_space(ch),
    ensures
        before.len() == 0 ==> words_from(seq![ch] + rest, before, None) == words_of(rest),
        before.len() > 0 ==> (words_from(seq![ch] + rest, before, None) is Some <==> words_of(
            rest,
        ) is Some),
        before.len() > 0 && words_of(rest) is Some ==> words_from(seq![ch] + rest, before, None)
            == Some(seq![before] + words_of(rest)->0),
        words_from(Seq::empty(), before, None) == Some(
            if before.len() == 0 {
                Seq::<Seq<char>>::empty()
            } else {
                seq![before]
            },
        ),
{
    let all = seq![ch] + rest;
    assert(all.skip(1) =~= rest);
    assert(all[0] == ch);
    assert(seq![before] + Seq::<Seq<char>>::empty() =~= seq![before]);
}

/// A word is written as it is where it is not empty and holds no white space and
/// none of the characters that a shell reads; any other word stands between single
/// quotes. There every character stands for itself, and only a single quote is
/// written otherwise: the quotes are closed, it follows in double quotes, and they
/// are opened again.
pub proof fn law_escaped_form(word: Seq<char>, a: Seq<char>, b: Seq<char>, ch: char)
    ensures
        escaped(word) == word <==> word.len() > 0 && forall|i: int|
            0 <= i < word.len() ==> !white_space(#[trigger] word[i]) && !"'\"\\$`!&;|<>(){}"@.contains(
                word[i],
            ),
        escaped(word) != word ==> escaped(word) == seq!['\''] + quoted_body(word) + seq!['\''],
        quoted_body(a + b) == quoted_body(a) + quoted_body(b),
        quoted_body(Seq::empty()) == Seq::<char>::empty(),
        ch != '\'' ==> quoted_body(seq![ch]) == seq![ch],
        quoted_body(seq!['\'']) == "'\"'\"'"@,
{
    reveal_strlit("'\"\\$`!&;|<>(){}");
    reveal_strlit("'\"'\"'");
    let marks = "'\"\\$`!&;|<>(){}"@;
    assert(marks =~= seq![
        '\'', '"', '\\', '$', '`', '!', '&', ';', '|', '<', '>', '(', ')', '{', '}',
    ]);
    assert(marks[0] == '\'' && marks[1] == '"' && marks[2] == '\\' && marks[3] == '$' && marks[4]
        == '`' && marks[5] == '!' && marks[6] == '&' && marks[7] == ';' && marks[8] == '|'
        && marks[9] == '<' && marks[10] == '>' && marks[11] == '(' && marks[12] == ')'
        && marks[13] == '{' && marks[14] == '}');
    assert forall|c: char| #[trigger] special(c) <==> white_space(c) || marks.contains(c) by {
        if marks.contains(c) {
            let k = choose|k: int| 0 <= k < marks.len() && marks[k] == c;
            assert(special(c));
        }
    }
    lemma_quoted_body_grows(word);
    let quoted = seq!['\''] + quoted_body(word) + seq!['\''];
    assert(quoted.len() > word.len());
    if word.len() > 0 && !has_special(word) {
        assert forall|i: int| 0 <= i < word.len() implies !white_space(#[trigger] word[i])
            && !marks.contains(word[i]) by {
            assert(!special(word[i]));
        }
    } else if word.len() > 0 {
        let i = choose|i: int| 0 <= i < word.len() && special(#[trigger] word[i]);
        assert(white_space(word[i]) || marks.contains(word[i]));
    }
    lemma_quoted_body_adds(a, b);
    reveal_with_fuel(quoted_body, 2);
    assert(seq![ch].drop_last() =~= Seq::<char>::empty());
    assert(seq!['\''].drop_last() =~= Seq::<char>::empty());
    assert(Seq::<char>::empty().push(ch) =~= seq![ch]);
    assert(Seq::<char>::empty() + quoted_quote() =~= "'\"'\"'"@);
}

proof fn lemma_quoted_body_grows(word: Seq<char>)
    ensures
        quoted_body(word).len() >= word.len(),
    decreases word.len(),
{
    if word.len() > 0 {
        lemma_quoted_body_grows(word.drop_last());
    }
}

proof fn lemma_quoted_body_adds(a: Seq<char>, b: Seq<char>)
    ensures
        quoted_body(a + b) == quoted_body(a) + quoted_body(b),
    decreases b.len(),
{
    if b.len() == 0 {
        assert(a + b =~= a);
        assert(quoted_body(a) + quoted_body(b) =~= quoted_body(a));
    } else {
        lemma_quoted_body_adds(a, b.drop_last());
        assert((a + b).drop_last() =~= a + b.drop_last());
        assert((a + b).last() == b.last());
        assert(quoted_body(a + b) =~= quoted_body(a) + quoted_body(b));
    }
}

} // verus!
