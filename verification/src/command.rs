//! Command lines: whitespace, blank input and splitting into program and arguments.

use vstd::prelude::*;
use vstd::std_specs::iter::IteratorSpec;

verus! {

/// The code points that count as whitespace: those with the Unicode
/// `White_Space` property.
pub open spec fn is_whitespace(c: char) -> bool {
    let n = c as u32;
    ||| 0x09 <= n <= 0x0D
    ||| n == 0x20
    ||| n == 0x85
    ||| n == 0xA0
    ||| n == 0x1680
    ||| 0x2000 <= n <= 0x200A
    ||| n == 0x2028
    ||| n == 0x2029
    ||| n == 0x202F
    ||| n == 0x205F
    ||| n == 0x3000
}

/// A text is blank when it is empty or holds whitespace only.
pub open spec fn is_blank(s: Seq<char>) -> bool {
    forall|i: int| 0 <= i < s.len() ==> is_whitespace(#[trigger] s[i])
}

/// A word holds at least one character and no whitespace.
pub open spec fn is_word(s: Seq<char>) -> bool {
    &&& s.len() > 0
    &&& forall|i: int| 0 <= i < s.len() ==> !is_whitespace(#[trigger] s[i])
}

/// The words written out in a row, one space between neighbours.
pub open spec fn join_words(words: Seq<Seq<char>>) -> Seq<char>
    decreases words.len(),
{
    if words.len() == 0 {
        Seq::empty()
    } else if words.len() == 1 {
        words[0]
    } else {
        words[0] + seq![' '] + join_words(words.skip(1))
    }
}

/// Length of the longest prefix of `s` that holds no whitespace.
pub open spec fn word_len(s: Seq<char>) -> nat
    decreases s.len(),
{
    if s.len() == 0 || is_whitespace(s[0]) {
        0
    } else {
        1 + word_len(s.skip(1))
    }
}

/// The words of `s`: its maximal runs of characters that are not whitespace,
/// from left to right.
pub open spec fn split_words(s: Seq<char>) -> Seq<Seq<char>>
    decreases s.len(),
{
    if s.len() == 0 {
        Seq::empty()
    } else if is_whitespace(s[0]) {
        split_words(s.skip(1))
    } else {
        proof {
            lemma_word_len_bounds(s);
        }
        seq![s.take(word_len(s) as int)] + split_words(s.skip(word_len(s) as int))
    }
}

/// A command line taken apart: the program to start and what it is given.
#[derive(Clone, Debug, PartialEq, Eq)]
pub struct CommandLine {
    /// The program to start: the first word of the line.
    pub program: String,
    /// What the program is given: the words after the first, in order.
    pub args: Vec<String>,
}

/// What a `CommandLine` holds, as plain texts.
pub ghost struct CommandLineView {
    pub program: Seq<char>,
    pub args: Seq<Seq<char>>,
}

impl View for CommandLine {
    type V = CommandLineView;

    open spec fn view(&self) -> CommandLineView {
        CommandLineView { program: self.program@, args: self.args.deep_view() }
    }
}

impl CommandLine {
    /// A command line is well formed when the program and each argument is a
    /// word: none is empty, none holds whitespace.
    pub open spec fn wf(&self) -> bool {
        &&& is_word(self.program@)
        &&& forall|i: int| 0 <= i < self.args.len() ==> is_word(#[trigger] self.args[i]@)
    }
}

/// Why a command line was turned down.
#[derive(Clone, Copy, Debug, PartialEq, Eq, Structural)]
pub enum CommandError {
    /// The line is empty or holds whitespace only.
    Empty,
}

/// The command that a line that is not blank stands for: its first word is
/// the program, the words after it are the arguments.
pub open spec fn command_of(line: Seq<char>) -> CommandLineView
    recommends
        !is_blank(line),
{
    CommandLineView { program: split_words(line)[0], args: split_words(line).skip(1) }
}

/// The first word of a text is no longer than the text, and it is not empty
/// where the text starts with a character that is not whitespace.
pub proof fn lemma_word_len_bounds(s: Seq<char>)
    ensures
        word_len(s) <= s.len(),
        s.len() > 0 && !is_whitespace(s[0]) ==> word_len(s) > 0,
        forall|i: int| 0 <= i < word_len(s) ==> !is_whitespace(#[trigger] s[i]),
        word_len(s) < s.len() ==> is_whitespace(s[word_len(s) as int]),
    decreases s.len(),
{
    if s.len() == 0 || is_whitespace(s[0]) {
    } else {
        lemma_word_len_bounds(s.skip(1));
        assert forall|i: int| 0 <= i < word_len(s) implies !is_whitespace(#[trigger] s[i]) by {
            if i > 0 {
                assert(s[i] == s.skip(1)[i - 1]);
            }
        }
    }
}

/// A word followed by nothing, or by whitespace, is the first word of the
/// whole text.
pub proof fn lemma_split_leading_word(word: Seq<char>, rest: Seq<char>)
    requires
        is_word(word),
        rest.len() == 0 || is_whitespace(rest[0]),
    ensures
        split_words(word + rest) == seq![word] + split_words(rest),
{
    let s = word + rest;
    lemma_word_len_of_concat(word, rest);
    assert(s.take(word.len() as int) =~= word);
    assert(s.skip(word.len() as int) =~= rest);
}

/// The first word of `word + rest` is `word`, where `word` holds no
/// whitespace and `rest` does not go on with the word.
proof fn lemma_word_len_of_concat(word: Seq<char>, rest: Seq<char>)
    requires
        forall|i: int| 0 <= i < word.len() ==> !is_whitespace(#[trigger] word[i]),
        rest.len() == 0 || is_whitespace(rest[0]),
    ensures
        word_len(word + rest) == word.len(),
    decreases word.len(),
{
    if word.len() > 0 {
        assert((word + rest).skip(1) =~= word.skip(1) + rest);
        assert forall|i: int| 0 <= i < word.skip(1).len() implies !is_whitespace(
            #[trigger] word.skip(1)[i],
        ) by {}
        lemma_word_len_of_concat(word.skip(1), rest);
    }
}

/// Splitting undoes joining: words written out with one space between them
/// split into those words again.
pub proof fn lemma_split_of_joined_words(words: Seq<Seq<char>>)
    requires
        forall|i: int| 0 <= i < words.len() ==> is_word(#[trigger] words[i]),
    ensures
        split_words(join_words(words)) == words,
    decreases words.len(),
{
    if words.len() == 1 {
        lemma_split_leading_word(words[0], Seq::empty());
    } else if words.len() > 1 {
        let tail = words.skip(1);
        let rest = seq![' '] + join_words(tail);
        assert forall|i: int| 0 <= i < tail.len() implies is_word(#[trigger] tail[i]) by {}
        lemma_split_of_joined_words(tail);
        assert(rest.skip(1) =~= join_words(tail));
        lemma_split_leading_word(words[0], rest);
        assert(join_words(words) =~= words[0] + rest);
    }
}

/// Every word that splitting gives holds a character, and no whitespace.
pub proof fn lemma_split_gives_words(s: Seq<char>)
    ensures
        forall|i: int| 0 <= i < split_words(s).len() ==> is_word(#[trigger] split_words(s)[i]),
    decreases s.len(),
{
    if s.len() == 0 {
    } else if is_whitespace(s[0]) {
        lemma_split_gives_words(s.skip(1));
        assert(split_words(s) == split_words(s.skip(1)));
    } else {
        lemma_word_len_bounds(s);
        let n = word_len(s) as int;
        let first = s.take(n);
        let rest = split_words(s.skip(n));
        lemma_split_gives_words(s.skip(n));
        assert(is_word(first)) by {
            assert forall|i: int| 0 <= i < first.len() implies !is_whitespace(
                #[trigger] first[i],
            ) by {}
        }
        assert forall|i: int| 0 <= i < split_words(s).len() implies is_word(
            #[trigger] split_words(s)[i],
        ) by {}
    }
}

/// Splitting gives no word exactly when the text is blank.
pub proof fn lemma_split_empty_iff_blank(s: Seq<char>)
    ensures
        split_words(s).len() == 0 <==> is_blank(s),
    decreases s.len(),
{
    if s.len() == 0 {
    } else if is_whitespace(s[0]) {
        lemma_split_empty_iff_blank(s.skip(1));
        if is_blank(s.skip(1)) {
            assert forall|i: int| 0 <= i < s.len() implies is_whitespace(#[trigger] s[i]) by {
                if i > 0 {
                    assert(s[i] == s.skip(1)[i - 1]);
                }
            }
        }
        if is_blank(s) {
            assert forall|i: int| 0 <= i < s.skip(1).len() implies is_whitespace(
                #[trigger] s.skip(1)[i],
            ) by {}
        }
    } else {
        lemma_word_len_bounds(s);
    }
}

/// Tells whether `c` is a whitespace character.
pub fn is_whitespace_char(c: char) -> (r: bool)
    ensures
        r == is_whitespace(c),
{
    let n: u32 = c as u32;
    (0x09 <= n && n <= 0x0D) || n == 0x20 || n == 0x85 || n == 0xA0 || n == 0x1680 || (0x2000 <= n
        && n <= 0x200A) || n == 0x2028 || n == 0x2029 || n == 0x202F || n == 0x205F || n == 0x3000
}

/// Splits a command line into its words.
pub fn split_command(line: &str) -> (words: Vec<String>)
    ensures
        words.deep_view() == split_words(line@),
        forall|i: int| 0 <= i < words.len() ==> is_word(#[trigger] words[i]@),
{
    let mut words: Vec<String> = Vec::new();
    let mut current: String = String::new();
    let mut chars = line.chars();
    let ghost mut seen: int = 0;
    proof {
        assert(words.deep_view() =~= Seq::<Seq<char>>::empty());
        assert(words.deep_view() + split_words(line@) =~= split_words(line@));
    }
    loop
        invariant
            0 <= seen <= line@.len(),
            chars.remaining() == line@.skip(seen),
            forall|i: int| 0 <= i < current@.len() ==> !is_whitespace(#[trigger] current@[i]),
            split_words(line@) == words.deep_view() + split_words(current@ + line@.skip(seen)),
        ensures
            seen == line@.len(),
        decreases line@.len() - seen,
    {
        let ghost rest = line@.skip(seen);
        let ghost before = words.deep_view();
        let ghost word = current@;
        match chars.next() {
            None => {
                break ;
            },
            Some(c) => {
                proof {
                    seen = seen + 1;
                }
                if is_whitespace_char(c) {
                    if !current.as_str().is_empty() {
                        words.push(current);
                        current = String::new();
                        proof {
                            lemma_split_leading_word(word, rest);
                            assert(words.deep_view() =~= before + seq![word]);
                            assert(before + (seq![word] + split_words(rest.skip(1))) =~= (before
                                + seq![word]) + split_words(rest.skip(1)));
                        }
                    }
                } else {
                    current.push(c);
                    proof {
                        assert(current@ + rest.skip(1) =~= word + rest);
                    }
                }
            },
        }
    }
    proof {
        assert(line@.skip(seen) =~= Seq::<char>::empty());
    }
    let ghost before = words.deep_view();
    let ghost word = current@;
    if !current.as_str().is_empty() {
        words.push(current);
        proof {
            lemma_split_leading_word(word, Seq::<char>::empty());
            assert(words.deep_view() =~= before + seq![word]);
        }
    }
    proof {
        lemma_split_gives_words(line@);
        assert forall|i: int| 0 <= i < words.len() implies is_word(#[trigger] words[i]@) by {
            assert(words[i]@ == words.deep_view()[i]);
        }
    }
    words
}

/// Tells whether a text is blank: empty, or whitespace all through.
pub fn is_blank_text(text: &str) -> (blank: bool)
    ensures
        blank == is_blank(text@),
{
    let mut chars = text.chars();
    let ghost mut seen: int = 0;
    loop
        invariant
            0 <= seen <= text@.len(),
            chars.remaining() == text@.skip(seen),
            is_blank(text@.take(seen)),
        ensures
            seen == text@.len(),
        decreases text@.len() - seen,
    {
        match chars.next() {
            None => {
                break ;
            },
            Some(c) => {
                if !is_whitespace_char(c) {
                    return false;
                }
                proof {
                    seen = seen + 1;
                }
            },
        }
    }
    true
}

/// Takes a command line apart. A blank line is turned down; any other line
/// gives its first word as the program and the words after it as arguments.
pub fn parse_command(line: &str) -> (parsed: Result<CommandLine, CommandError>)
    ensures
        is_blank(line@) ==> parsed == Err::<CommandLine, CommandError>(CommandError::Empty),
        !is_blank(line@) ==> (parsed matches Ok(command) && command@ == command_of(line@)),
        parsed matches Ok(command) ==> command.wf(),
{
    let mut words: Vec<String> = split_command(line);
    proof {
        lemma_split_empty_iff_blank(line@);
    }
    if words.len() == 0 {
        return Err(CommandError::Empty);
    }
    let ghost all = words.deep_view();
    let program: String = words.remove(0);
    proof {
        assert(words.deep_view() =~= all.skip(1));
    }
    Ok(CommandLine { program, args: words })
}

} // verus!
