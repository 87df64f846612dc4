//! Texts as words of a POSIX shell.

use vstd::prelude::*;
use vstd::string::*;

use crate::text::{chars_of, text_of};

verus! {

/// A text with every single quote replaced.
pub open spec fn quotes_replaced(value: Seq<char>, mark: Seq<char>) -> Seq<char>
    decreases value.len(),
{
    if value.len() == 0 {
        Seq::empty()
    } else {
        quotes_replaced(value.drop_last(), mark) + if value.last() == '\'' {
            mark
        } else {
            seq![value.last()]
        }
    }
}

/// A text between single quotes. A single quote within it ends the quotes, stands escaped
/// and begins new ones.
pub open spec fn shell_literal(value: Seq<char>) -> Seq<char> {
    seq!['\''] + quotes_replaced(value, seq!['\'', '\\', '\'', '\'']) + seq!['\'']
}

/// A text between single quotes. A single quote within it ends the quotes, stands between
/// double quotes and begins new ones.
pub open spec fn shell_word(value: Seq<char>) -> Seq<char> {
    seq!['\''] + quotes_replaced(value, seq!['\'', '"', '\'', '"', '\'']) + seq!['\'']
}

/// Where a shell is in a word.
pub enum ShellMode {
    Plain,
    Escaped,
    Single,
    Double,
}

/// Where one more character of a quoted word takes a shell: the place, and the text so
/// far. Nowhere where a character stands unquoted, or where the shell would expand what it
/// reads.
pub open spec fn shell_step(
    state: Option<(ShellMode, Seq<char>)>,
    c: char,
) -> Option<(ShellMode, Seq<char>)> {
    match state {
        None => None,
        Some((ShellMode::Plain, text)) => if c == '\'' {
            Some((ShellMode::Single, text))
        } else if c == '"' {
            Some((ShellMode::Double, text))
        } else if c == '\\' {
            Some((ShellMode::Escaped, text))
        } else {
            None
        },
        Some((ShellMode::Escaped, text)) => Some((ShellMode::Plain, text.push(c))),
        Some((ShellMode::Single, text)) => if c == '\'' {
            Some((ShellMode::Plain, text))
        } else {
            Some((ShellMode::Single, text.push(c)))
        },
        Some((ShellMode::Double, text)) => if c == '"' {
            Some((ShellMode::Plain, text))
        } else if c == '$' || c == '`' || c == '\\' {
            None
        } else {
            Some((ShellMode::Double, text.push(c)))
        },
    }
}

/// What a shell has read of a quoted word: where it is, and the text so far.
pub open spec fn shell_read(word: Seq<char>) -> Option<(ShellMode, Seq<char>)>
    decreases word.len(),
{
    if word.len() == 0 {
        Some((ShellMode::Plain, Seq::empty()))
    } else {
        shell_step(shell_read(word.drop_last()), word.last())
    }
}

/// One more character of a word.
proof fn shell_reads_on(word: Seq<char>, c: char)
    ensures
        shell_read(word.push(c)) == shell_step(shell_read(word), c),
{
    assert(word.push(c).drop_last() =~= word);
}

proof fn literal_reads_open(value: Seq<char>)
    ensures
        shell_read(seq!['\''] + quotes_replaced(value, seq!['\'', '\\', '\'', '\''])) == Some(
            (ShellMode::Single, value),
        ),
    decreases value.len(),
{
    let mark = seq!['\'', '\\', '\'', '\''];
    let word = seq!['\''] + quotes_replaced(value, mark);
    if value.len() == 0 {
        let none = Seq::<char>::empty();
        shell_reads_on(none, '\'');
        assert(word =~= none.push('\''));
        assert(value =~= none);
    } else {
        let head = value.drop_last();
        let c = value.last();
        literal_reads_open(head);
        let before = seq!['\''] + quotes_replaced(head, mark);
        assert(value =~= head.push(c));
        if c == '\'' {
            let w1 = before.push('\'');
            let w2 = w1.push('\\');
            let w3 = w2.push('\'');
            let w4 = w3.push('\'');
            shell_reads_on(before, '\'');
            shell_reads_on(w1, '\\');
            shell_reads_on(w2, '\'');
            shell_reads_on(w3, '\'');
            assert(word =~= w4);
        } else {
            shell_reads_on(before, c);
            assert(word =~= before.push(c));
        }
    }
}

proof fn word_reads_open(value: Seq<char>)
    ensures
        shell_read(seq!['\''] + quotes_replaced(value, seq!['\'', '"', '\'', '"', '\''])) == Some(
            (ShellMode::Single, value),
        ),
    decreases value.len(),
{
    let mark = seq!['\'', '"', '\'', '"', '\''];
    let word = seq!['\''] + quotes_replaced(value, mark);
    if value.len() == 0 {
        let none = Seq::<char>::empty();
        shell_reads_on(none, '\'');
        assert(word =~= none.push('\''));
        assert(value =~= none);
    } else {
        let head = value.drop_last();
        let c = value.last();
        word_reads_open(head);
        let before = seq!['\''] + quotes_replaced(head, mark);
        assert(value =~= head.push(c));
        if c == '\'' {
            let w1 = before.push('\'');
            let w2 = w1.push('"');
            let w3 = w2.push('\'');
            let w4 = w3.push('"');
            let w5 = w4.push('\'');
            shell_reads_on(before, '\'');
            shell_reads_on(w1, '"');
            shell_reads_on(w2, '\'');
            shell_reads_on(w3, '"');
            shell_reads_on(w4, '\'');
            assert(word =~= w5);
        } else {
            shell_reads_on(before, c);
            assert(word =~= before.push(c));
        }
    }
}

/// A shell reads a literal as the very text that was quoted, and expands nothing in it.
pub proof fn literals_are_read_back(value: Seq<char>)
    ensures
        shell_read(shell_literal(value)) == Some((ShellMode::Plain, value)),
{
    literal_reads_open(value);
    let open = seq!['\''] + quotes_replaced(value, seq!['\'', '\\', '\'', '\'']);
    shell_reads_on(open, '\'');
    assert(shell_literal(value) =~= open.push('\''));
}

/// A shell reads a quoted word as the very text that was quoted, and expands nothing in it.
pub proof fn words_are_read_back(value: Seq<char>)
    ensures
        shell_read(shell_word(value)) == Some((ShellMode::Plain, value)),
{
    word_reads_open(value);
    let open = seq!['\''] + quotes_replaced(value, seq!['\'', '"', '\'', '"', '\'']);
    shell_reads_on(open, '\'');
    assert(shell_word(value) =~= open.push('\''));
}

/// A text with every single quote replaced, between single quotes.
fn quote_with(value: &str, mark: &str) -> (word: String)
    ensures
        word@ == seq!['\''] + quotes_replaced(value@, mark@) + seq!['\''],
{
    let chars = chars_of(value);
    let mark_chars = chars_of(mark);
    let mut word: Vec<char> = Vec::new();
    word.push('\'');
    let mut i: usize = 0;
    assert(word@ =~= seq!['\''] + quotes_replaced(value@.take(0), mark@));
    while i < chars.len()
        invariant
            i <= chars@.len(),
            chars@ == value@,
            mark_chars@ == mark@,
            word@ == seq!['\''] + quotes_replaced(value@.take(i as int), mark@),
        decreases chars.len() - i,
    {
        let ghost before = word@;
        let c = chars[i];
        assert(value@.take(i + 1).drop_last() =~= value@.take(i as int));
        if c == '\'' {
            let mut k: usize = 0;
            while k < mark_chars.len()
                invariant
                    k <= mark_chars@.len(),
                    word@ == before + mark_chars@.take(k as int),
                decreases mark_chars.len() - k,
            {
                word.push(mark_chars[k]);
                assert(word@ =~= before + mark_chars@.take(k + 1));
                k += 1;
            }
            assert(mark_chars@.take(k as int) =~= mark_chars@);
            assert(word@ =~= seq!['\''] + quotes_replaced(value@.take(i + 1), mark@));
        } else {
            word.push(c);
            assert(word@ =~= seq!['\''] + quotes_replaced(value@.take(i + 1), mark@));
        }
        i += 1;
    }
    assert(value@.take(i as int) =~= value@);
    let ghost open = word@;
    word.push('\'');
    assert(word@ =~= open + seq!['\'']);
    text_of(word.as_slice())
}

/// A text as a literal of a shell script.
pub fn quote_literal(value: &str) -> (word: String)
    ensures
        word@ == shell_literal(value@),
{
    proof {
        reveal_strlit("'\\''");
        assert("'\\''"@ =~= seq!['\'', '\\', '\'', '\'']);
    }
    quote_with(value, "'\\''")
}

/// A text as a word of a command line.
pub fn shell_quote(value: &str) -> (word: String)
    ensures
        word@ == shell_word(value@),
{
    proof {
        reveal_strlit("'\"'\"'");
        assert("'\"'\"'"@ =~= seq!['\'', '"', '\'', '"', '\'']);
    }
    quote_with(value, "'\"'\"'")
}

} // verus!
