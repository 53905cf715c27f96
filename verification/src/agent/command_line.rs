//! Runner commands.
use vstd::prelude::*;

use crate::error::{ErrorView, LunaError};
use crate::text::{cat3, chars_of, clone_texts, is_white, joined, texts, white};

verus! {

/// Where the reading of a command stands: the words that are complete, the word
/// that is being read, the quote that is open, whether the last character was a
/// backslash that waits for the next, and whether a word has begun.
pub ghost struct Reading {
    pub words: Seq<Seq<char>>,
    pub current: Seq<char>,
    pub quote: Option<char>,
    pub escaped: bool,
    pub started: bool,
}

/// Nothing read yet.
pub open spec fn unread() -> Reading {
    Reading {
        words: Seq::empty(),
        current: Seq::empty(),
        quote: None,
        escaped: false,
        started: false,
    }
}

/// A character behind a backslash, inside quotes other than its own kind, or with
/// no meaning of its own belongs to the word. White space outside quotes ends the
/// word.
pub open spec fn read_char(r: Reading, c: char) -> Reading {
    let taken = Reading { current: r.current.push(c), escaped: false, started: true, ..r };
    if r.escaped {
        taken
    } else if c == '\\' {
        Reading { escaped: true, started: true, ..r }
    } else if r.quote == Some(c) {
        Reading { quote: None, started: true, ..r }
    } else if r.quote is Some {
        taken
    } else if c == '\'' || c == '"' {
        Reading { quote: Some(c), started: true, ..r }
    } else if white(c) {
        if r.started {
            Reading {
                words: r.words.push(r.current),
                current: Seq::empty(),
                started: false,
                ..r
            }
        } else {
            r
        }
    } else {
        taken
    }
}

/// All of `s`, read from `r` on.
pub open spec fn read_all(r: Reading, s: Seq<char>) -> Reading
    decreases s.len(),
{
    if s.len() == 0 {
        r
    } else {
        read_char(read_all(r, s.drop_last()), s.last())
    }
}

/// The words of a command, or the quote that is still open at its end. A backslash
/// at the very end stands for itself.
pub open spec fn command_words(s: Seq<char>) -> Result<Seq<Seq<char>>, char> {
    let r = read_all(unread(), s);
    let last = if r.escaped {
        r.current.push('\\')
    } else {
        r.current
    };
    match r.quote {
        Some(q) => Err(q),
        None => Ok(
            if r.started {
                r.words.push(last)
            } else {
                r.words
            },
        ),
    }
}

/// The message for an open quote.
pub open spec fn open_quote_error(q: char) -> ErrorView {
    ErrorView::InvalidConfig("runner command has unterminated "@ + seq![q] + " quote"@)
}

/// The words of a command.
pub fn parse_command_words(input: &str) -> (r: Result<Vec<String>, LunaError>)
    ensures
        match r {
            Ok(words) => command_words(input@) == Ok::<Seq<Seq<char>>, char>(texts(words@)),
            Err(e) => command_words(input@) is Err && e@ == open_quote_error(
                command_words(input@)->Err_0,
            ),
        },
{
    let v = chars_of(input);
    let mut words: Vec<String> = Vec::new();
    let mut current = String::new();
    let mut quote: Option<char> = None;
    let mut escaped: bool = false;
    let mut started: bool = false;
    let mut i: usize = 0;
    assert(texts(words@) =~= Seq::<Seq<char>>::empty());
    while i < v.len()
        invariant
            v@ == input@,
            i <= v@.len(),
            read_all(unread(), input@.take(i as int)) == (Reading {
                words: texts(words@),
                current: current@,
                quote,
                escaped,
                started,
            }),
        decreases v@.len() - i,
    {
        let c = v[i];
        let ghost before = read_all(unread(), input@.take(i as int));
        proof {
            assert(input@.take(i + 1).drop_last() =~= input@.take(i as int));
            assert(read_all(unread(), input@.take(i + 1)) == read_char(before, c));
        }
        i = i + 1;
        if escaped {
            current.push(c);
            started = true;
            escaped = false;
        } else if c == '\\' {
            escaped = true;
            started = true;
        } else {
            match quote {
                Some(q) => {
                    if c == q {
                        quote = None;
                    } else {
                        current.push(c);
                    }
                    started = true;
                },
                None => {
                    if c == '\'' || c == '"' {
                        quote = Some(c);
                        started = true;
                    } else if is_white(c) {
                        if started {
                            words.push(current);
                            assert(texts(words@) =~= before.words.push(before.current));
                            current = String::new();
                            started = false;
                        }
                    } else {
                        current.push(c);
                        started = true;
                    }
                },
            }
        }
    }
    assert(input@.take(i as int) =~= input@);
    if escaped {
        current.push('\\');
    }
    if let Some(q) = quote {
        let mut mark = String::new();
        mark.push(q);
        assert(mark@ =~= seq![q]);
        return Err(
            LunaError::InvalidConfig(
                cat3("runner command has unterminated ", mark.as_str(), " quote"),
            ),
        );
    }
    if started {
        let ghost before = texts(words@);
        words.push(current);
        assert(texts(words@) =~= before.push(current@));
    }
    Ok(words)
}

/// Splits a runner command into a program and its arguments, and appends the
/// configured arguments. Only quotes and backslashes have a meaning: variables,
/// globs, pipes, redirections and substitutions are not expanded.
pub fn split_command(command: &str, explicit_args: &[String]) -> (r: Result<
    (String, Vec<String>),
    LunaError,
>)
    ensures
        match command_words(command@) {
            Err(q) => r is Err && r->Err_0@ == open_quote_error(q),
            Ok(words) => if words.len() == 0 {
                r is Err && r->Err_0@ == ErrorView::InvalidConfig(
                    "runner command must be non-empty"@,
                )
            } else {
                &&& r is Ok
                &&& r->Ok_0.0@ == words[0]
                &&& texts(r->Ok_0.1@) == words.skip(1) + texts(explicit_args@)
            },
        },
{
    let mut parts = match parse_command_words(command) {
        Ok(parts) => parts,
        Err(e) => return Err(e),
    };
    assert(texts(parts@).len() == parts@.len());
    if parts.len() == 0 {
        return Err(LunaError::InvalidConfig("runner command must be non-empty".to_owned()));
    }
    let ghost words = texts(parts@);
    let program = parts.remove(0);
    let mut extra = clone_texts(explicit_args);
    parts.append(&mut extra);
    assert(texts(parts@) =~= words.skip(1) + texts(explicit_args@));
    Ok((program, parts))
}

// ---------------------------------------------------------------------------
// Laws
// ---------------------------------------------------------------------------

proof fn read_all_appends(r: Reading, s: Seq<char>, t: Seq<char>)
    ensures
        read_all(r, s + t) == read_all(read_all(r, s), t),
    decreases t.len(),
{
    if t.len() == 0 {
        assert(s + t =~= s);
    } else {
        assert((s + t).drop_last() =~= s + t.drop_last());
        read_all_appends(r, s, t.drop_last());
    }
}

proof fn read_plain(r: Reading, s: Seq<char>)
    requires
        r.quote is None,
        !r.escaped,
        forall|i: int|
            0 <= i < s.len() ==> !white(#[trigger] s[i]) && s[i] != '\\' && s[i] != '\'' && s[i]
                != '"',
    ensures
        read_all(r, s) == (Reading {
            current: r.current + s,
            started: r.started || s.len() > 0,
            ..r
        }),
    decreases s.len(),
{
    if s.len() == 0 {
        assert(r.current + s =~= r.current);
    } else {
        read_plain(r, s.drop_last());
        assert((r.current + s.drop_last()).push(s.last()) =~= r.current + s);
    }
}

/// Between two words, behind the words that are complete.
pub open spec fn between(words: Seq<Seq<char>>) -> Reading {
    Reading { words, ..unread() }
}

/// Behind a word, where nothing has ended it yet.
pub open spec fn behind(words: Seq<Seq<char>>, word: Seq<char>) -> Reading {
    Reading { words, current: word, started: true, ..unread() }
}

/// Whether a text is read as one word, wherever it begins one.
pub open spec fn writes(text: Seq<char>, word: Seq<char>) -> bool {
    forall|words: Seq<Seq<char>>| #[trigger]
        read_all(between(words), text) == behind(words, word)
}

proof fn read_white(words: Seq<Seq<char>>, word: Seq<char>, gap: Seq<char>)
    requires
        gap.len() > 0,
        forall|i: int| 0 <= i < gap.len() ==> white(#[trigger] gap[i]),
    ensures
        read_all(behind(words, word), gap) == between(words.push(word)),
    decreases gap.len(),
{
    let rest = gap.drop_last();
    assert(white(gap[gap.len() - 1]));
    if rest.len() == 0 {
        assert(read_all(behind(words, word), rest) == behind(words, word));
    } else {
        assert forall|i: int| 0 <= i < rest.len() implies white(#[trigger] rest[i]) by {
            assert(rest[i] == gap[i]);
        }
        read_white(words, word, rest);
    }
}

proof fn read_written(written: Seq<Seq<char>>, words: Seq<Seq<char>>, gap: Seq<char>)
    requires
        written.len() == words.len(),
        words.len() > 0,
        forall|i: int| 0 <= i < words.len() ==> writes(#[trigger] written[i], words[i]),
        gap.len() > 0,
        forall|i: int| 0 <= i < gap.len() ==> white(#[trigger] gap[i]),
    ensures
        read_all(unread(), joined(written, gap)) == behind(words.drop_last(), words.last()),
    decreases words.len(),
{
    let rest = words.drop_last();
    let last = words.len() - 1;
    assert(writes(written[last], words[last]));
    if words.len() == 1 {
        assert(rest =~= Seq::<Seq<char>>::empty());
        assert(unread() == between(rest));
    } else {
        let head = written.drop_last();
        assert forall|i: int| 0 <= i < rest.len() implies writes(#[trigger] head[i], rest[i]) by {
            assert(writes(written[i], words[i]));
        }
        read_written(head, rest, gap);
        let before = joined(head, gap);
        read_all_appends(unread(), before, gap);
        read_white(rest.drop_last(), rest.last(), gap);
        assert(rest.drop_last().push(rest.last()) =~= rest);
        read_all_appends(unread(), before + gap, written[last]);
        assert(read_all(between(rest), written[last]) == behind(rest, words[last]));
    }
}

/// Words that are written one behind the other, with white space between them, are
/// read back.
pub proof fn written_words_are_read_back(
    written: Seq<Seq<char>>,
    words: Seq<Seq<char>>,
    gap: Seq<char>,
)
    requires
        written.len() == words.len(),
        forall|i: int| 0 <= i < words.len() ==> writes(#[trigger] written[i], words[i]),
        gap.len() > 0,
        forall|i: int| 0 <= i < gap.len() ==> white(#[trigger] gap[i]),
    ensures
        command_words(joined(written, gap)) == Ok::<Seq<Seq<char>>, char>(words),
{
    if words.len() == 0 {
        assert(words =~= Seq::<Seq<char>>::empty());
        assert(read_all(unread(), joined(written, gap)) == unread());
    } else {
        read_written(written, words, gap);
        assert(words.drop_last().push(words.last()) =~= words);
    }
}

/// A character as it is written inside quotes: the quote itself and a backslash stand
/// behind a backslash.
pub open spec fn shielded_char(q: char, c: char) -> Seq<char> {
    if c == q || c == '\\' {
        seq!['\\', c]
    } else {
        seq![c]
    }
}

/// A text as it is written inside quotes.
pub open spec fn shielded(q: char, s: Seq<char>) -> Seq<char>
    decreases s.len(),
{
    if s.len() == 0 {
        Seq::empty()
    } else {
        shielded(q, s.drop_last()) + shielded_char(q, s.last())
    }
}

/// A word written in quotes.
pub open spec fn in_quotes(q: char, word: Seq<char>) -> Seq<char> {
    seq![q] + shielded(q, word) + seq![q]
}

/// A command line with each word in quotes.
pub open spec fn quoted_line(q: char, words: Seq<Seq<char>>) -> Seq<char> {
    joined(Seq::new(words.len(), |i: int| in_quotes(q, words[i])), seq![' '])
}

proof fn read_one(r: Reading, c: char)
    ensures
        read_all(r, seq![c]) == read_char(r, c),
{
    assert(seq![c].drop_last() =~= Seq::<char>::empty());
    assert(read_all(r, Seq::<char>::empty()) == r);
}

proof fn read_shielded(r: Reading, q: char, s: Seq<char>)
    requires
        q == '\'' || q == '"',
        r.quote == Some(q),
        !r.escaped,
        r.started,
    ensures
        read_all(r, shielded(q, s)) == (Reading { current: r.current + s, ..r }),
    decreases s.len(),
{
    if s.len() == 0 {
        assert(r.current + s =~= r.current);
    } else {
        let rest = s.drop_last();
        let c = s.last();
        read_shielded(r, q, rest);
        let w = read_all(r, shielded(q, rest));
        read_all_appends(r, shielded(q, rest), shielded_char(q, c));
        if c == q || c == '\\' {
            assert(shielded_char(q, c) =~= seq!['\\'] + seq![c]);
            read_all_appends(w, seq!['\\'], seq![c]);
            read_one(w, '\\');
            read_one(read_char(w, '\\'), c);
        } else {
            read_one(w, c);
        }
        assert((r.current + rest).push(c) =~= r.current + s);
    }
}

/// A word in quotes is read back, whatever characters it holds.
pub proof fn quoted_word_is_read_back(q: char, word: Seq<char>)
    requires
        q == '\'' || q == '"',
    ensures
        writes(in_quotes(q, word), word),
        command_words(in_quotes(q, word)) == Ok::<Seq<Seq<char>>, char>(seq![word]),
{
    assert forall|words: Seq<Seq<char>>| #[trigger]
        read_all(between(words), in_quotes(q, word)) == behind(words, word) by {
        let start = between(words);
        read_one(start, q);
        let open = read_char(start, q);
        read_all_appends(start, seq![q], shielded(q, word));
        read_shielded(open, q, word);
        read_all_appends(start, seq![q] + shielded(q, word), seq![q]);
        read_one(read_all(open, shielded(q, word)), q);
        assert(Seq::<char>::empty() + word =~= word);
    }
    written_words_are_read_back(seq![in_quotes(q, word)], seq![word], seq![' ']);
}

/// Any words at all can be written as a command, each in quotes, and are read back.
pub proof fn quoted_line_is_read_back(q: char, words: Seq<Seq<char>>)
    requires
        q == '\'' || q == '"',
    ensures
        command_words(quoted_line(q, words)) == Ok::<Seq<Seq<char>>, char>(words),
{
    let written = Seq::new(words.len(), |i: int| in_quotes(q, words[i]));
    assert forall|i: int| 0 <= i < words.len() implies writes(#[trigger] written[i], words[i]) by {
        quoted_word_is_read_back(q, words[i]);
    }
    written_words_are_read_back(written, words, seq![' ']);
}

/// Whether a word holds no white space, no quote and no backslash.
pub open spec fn plain(word: Seq<char>) -> bool {
    forall|i: int|
        0 <= i < word.len() ==> !white(#[trigger] word[i]) && word[i] != '\\' && word[i] != '\''
            && word[i] != '"'
}

/// Plain words are read as they stand, and white space parts them.
pub proof fn plain_words_are_read_as_they_stand(words: Seq<Seq<char>>, gap: Seq<char>)
    requires
        forall|i: int| 0 <= i < words.len() ==> plain(#[trigger] words[i]) && words[i].len() > 0,
        gap.len() > 0,
        forall|i: int| 0 <= i < gap.len() ==> white(#[trigger] gap[i]),
    ensures
        command_words(joined(words, gap)) == Ok::<Seq<Seq<char>>, char>(words),
{
    assert forall|i: int| 0 <= i < words.len() implies writes(#[trigger] words[i], words[i]) by {
        assert(plain(words[i]));
        assert forall|done: Seq<Seq<char>>| #[trigger]
            read_all(between(done), words[i]) == behind(done, words[i]) by {
            read_plain(between(done), words[i]);
            assert(Seq::<char>::empty() + words[i] =~= words[i]);
        }
    }
    written_words_are_read_back(words, words, gap);
}

/// A quote that is not closed is an error, and is named in it.
pub proof fn open_quote_is_refused(q: char, word: Seq<char>)
    requires
        q == '\'' || q == '"',
    ensures
        command_words(seq![q] + shielded(q, word)) == Err::<Seq<Seq<char>>, char>(q),
        open_quote_error(q) == ErrorView::InvalidConfig(
            "runner command has unterminated "@ + seq![q] + " quote"@,
        ),
{
    read_one(unread(), q);
    read_all_appends(unread(), seq![q], shielded(q, word));
    read_shielded(read_char(unread(), q), q, word);
}

/// A character behind a backslash belongs to the word, whatever it is; and a backslash with
/// nothing behind it stands for itself.
pub proof fn backslash_shields_a_character(word: Seq<char>, c: char)
    requires
        plain(word),
        word.len() > 0,
    ensures
        command_words(word + seq!['\\', c]) == Ok::<Seq<Seq<char>>, char>(seq![word.push(c)]),
        command_words(word + seq!['\\']) == Ok::<Seq<Seq<char>>, char>(seq![word.push('\\')]),
{
    read_plain(unread(), word);
    assert(Seq::<char>::empty() + word =~= word);
    let w = read_all(unread(), word);
    read_all_appends(unread(), word, seq!['\\']);
    read_one(w, '\\');
    let escaped = read_char(w, '\\');
    assert(word + seq!['\\', c] =~= word + seq!['\\'] + seq![c]);
    read_all_appends(unread(), word + seq!['\\'], seq![c]);
    read_one(escaped, c);
    assert(Seq::<Seq<char>>::empty().push(word.push(c)) =~= seq![word.push(c)]);
    assert(Seq::<Seq<char>>::empty().push(word.push('\\')) =~= seq![word.push('\\')]);
}

/// What stands in quotes goes on with the word that it stands behind.
pub proof fn quotes_go_on_with_the_word(q: char, word: Seq<char>, more: Seq<char>)
    requires
        q == '\'' || q == '"',
        plain(word),
        word.len() > 0,
    ensures
        command_words(word + in_quotes(q, more)) == Ok::<Seq<Seq<char>>, char>(seq![word + more]),
{
    read_plain(unread(), word);
    assert(Seq::<char>::empty() + word =~= word);
    let start = read_all(unread(), word);
    let open = read_char(start, q);
    read_one(start, q);
    read_all_appends(start, seq![q], shielded(q, more));
    read_shielded(open, q, more);
    read_all_appends(start, seq![q] + shielded(q, more), seq![q]);
    read_one(read_all(open, shielded(q, more)), q);
    read_all_appends(unread(), word, in_quotes(q, more));
    assert(Seq::<Seq<char>>::empty().push(word + more) =~= seq![word + more]);
}

} // verus!
