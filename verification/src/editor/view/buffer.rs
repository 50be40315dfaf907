use vstd::prelude::*;
use vstd::string::StringSliceAdditionalSpecFns;
use vstd::utf8::{decode_utf8, encode_utf8_decode_utf8, valid_utf8};

verus! {

/// The lines of a document, top to bottom. Its view is the sequence of their
/// texts.
pub struct Buffer {
    pub data: Vec<String>,
}

impl View for Buffer {
    type V = Seq<Seq<char>>;

    open spec fn view(&self) -> Seq<Seq<char>> {
        self.data.deep_view()
    }
}

/// The one line of the document that is shown when no file is.
pub const GREETING: &'static str = "Hello, World!";

/// Why a document could not be loaded.
#[derive(Copy, Clone, Debug, PartialEq, Eq, Structural)]
pub enum LoadError {
    /// The bytes are not UTF-8.
    InvalidEncoding,
}

/// How many characters come before the first line feed of `text`; all of
/// them where it has none.
pub open spec fn first_break(text: Seq<char>) -> nat
    decreases text.len(),
{
    if text.len() == 0 || text[0] == '\n' {
        0
    } else {
        1 + first_break(text.skip(1))
    }
}

/// `line` without the carriage return at its end, if it has one there.
pub open spec fn without_return(line: Seq<char>) -> Seq<char> {
    if line.len() > 0 && line.last() == '\r' {
        line.drop_last()
    } else {
        line
    }
}

/// The lines of `text`. A line ends at a line feed, and a carriage return
/// just before that line feed belongs to the ending too. What follows the
/// last line feed is a line of its own if it is not empty, and is kept as it
/// is. So a line feed at the very end adds no empty line, and a text without
/// characters has no lines.
pub open spec fn split_lines(text: Seq<char>) -> Seq<Seq<char>>
    decreases text.len(),
{
    if text.len() == 0 {
        Seq::empty()
    } else {
        let end = first_break(text) as int;
        if end >= text.len() {
            seq![text]
        } else {
            seq![without_return(text.take(end))] + split_lines(text.skip(end + 1))
        }
    }
}

/// Whether `text` holds no line feed.
pub open spec fn unbroken(text: Seq<char>) -> bool {
    forall|i: int| 0 <= i < text.len() ==> text[i] != '\n'
}

/// The first line feed of a text is where a line feed stands with none
/// before it; a text with none breaks at its end.
pub proof fn lemma_first_break_at(text: Seq<char>, at: int)
    requires
        0 <= at <= text.len(),
        unbroken(text.take(at)),
        at == text.len() || text[at] == '\n',
    ensures
        first_break(text) == at,
    decreases at,
{
    if at > 0 {
        assert(text.take(at)[0] == text[0]);
        let rest = text.skip(1);
        let front = rest.take(at - 1);
        assert forall|i: int| 0 <= i < front.len() implies front[i] != '\n' by {
            assert(text.take(at)[i + 1] == front[i]);
        }
        lemma_first_break_at(rest, at - 1);
    }
}

/// A text that starts with an unbroken line and a line feed splits into that
/// line, without its carriage return, and the lines of what follows.
pub proof fn lemma_split_first_line(line: Seq<char>, rest: Seq<char>)
    requires
        unbroken(line),
    ensures
        split_lines(line + seq!['\n'] + rest) == seq![without_return(line)] + split_lines(rest),
{
    let text = line + seq!['\n'] + rest;
    let end = line.len() as int;
    assert(text.take(end) =~= line);
    assert(text[end] == '\n');
    lemma_first_break_at(text, end);
    assert(text.skip(end + 1) =~= rest);
}

/// An unbroken text is a single line, kept as it is, or no line at all when
/// it is empty.
pub proof fn lemma_split_last_line(line: Seq<char>)
    requires
        unbroken(line),
    ensures
        split_lines(line) == if line.len() == 0 {
            Seq::<Seq<char>>::empty()
        } else {
            seq![line]
        },
{
    assert(line.take(line.len() as int) =~= line);
    lemma_first_break_at(line, line.len() as int);
}

/// The text of a file with the given lines: each line but the last is
/// followed by a line feed.
pub open spec fn joined(lines: Seq<Seq<char>>) -> Seq<char>
    decreases lines.len(),
{
    if lines.len() == 0 {
        Seq::empty()
    } else if lines.len() == 1 {
        lines[0]
    } else {
        lines[0] + seq!['\n'] + joined(lines.skip(1))
    }
}

/// Whether splitting gives `line` back when a line feed follows it: it holds
/// no line feed and does not end in a carriage return.
pub open spec fn plain(line: Seq<char>) -> bool {
    unbroken(line) && without_return(line) == line
}

/// Lines joined by line feeds split into the same lines again, provided
/// that each of them is plain and the last is not empty. Of the last line it
/// is enough that it holds no line feed.
pub proof fn lemma_split_joined(lines: Seq<Seq<char>>)
    requires
        forall|i: int| 0 <= i < lines.len() - 1 ==> plain(#[trigger] lines[i]),
        lines.len() > 0 ==> unbroken(lines.last()) && lines.last().len() > 0,
    ensures
        split_lines(joined(lines)) == lines,
    decreases lines.len(),
{
    if lines.len() == 0 {
        assert(split_lines(joined(lines)) =~= lines);
    } else if lines.len() == 1 {
        lemma_split_last_line(lines[0]);
        assert(seq![lines[0]] =~= lines);
    } else {
        let rest = lines.skip(1);
        assert(plain(lines[0]));
        assert forall|i: int| 0 <= i < rest.len() - 1 implies plain(#[trigger] rest[i]) by {
            assert(rest[i] == lines[i + 1]);
        }
        assert(rest.last() == lines.last());
        lemma_split_joined(rest);
        lemma_split_first_line(lines[0], joined(rest));
        assert(seq![lines[0]] + rest =~= lines);
    }
}

/// A line feed at the very end of a text adds no line: plain lines joined by
/// line feeds, with one more line feed after the last, split into the same
/// lines.
pub proof fn lemma_split_joined_with_final_break(lines: Seq<Seq<char>>)
    requires
        lines.len() > 0,
        forall|i: int| 0 <= i < lines.len() ==> plain(#[trigger] lines[i]),
    ensures
        split_lines(joined(lines) + seq!['\n']) == lines,
    decreases lines.len(),
{
    if lines.len() == 1 {
        assert(plain(lines[0]));
        lemma_split_first_line(lines[0], Seq::empty());
        assert(lines[0] + seq!['\n'] + Seq::<char>::empty() =~= joined(lines) + seq!['\n']);
        assert(seq![lines[0]] + Seq::<Seq<char>>::empty() =~= lines);
    } else {
        let rest = lines.skip(1);
        assert(plain(lines[0]));
        assert forall|i: int| 0 <= i < rest.len() implies plain(#[trigger] rest[i]) by {
            assert(rest[i] == lines[i + 1]);
        }
        lemma_split_joined_with_final_break(rest);
        lemma_split_first_line(lines[0], joined(rest) + seq!['\n']);
        assert(lines[0] + seq!['\n'] + (joined(rest) + seq!['\n']) =~= joined(lines) + seq![
            '\n',
        ]);
        assert(seq![lines[0]] + rest =~= lines);
    }
}

/// `String::push` of std: appends the one character `c` to `text`.
#[verifier::external_body]
fn push_char(text: &mut String, c: char)
    ensures
        final(text)@ == old(text)@.push(c),
{
    text.push(c);
}

/// `core::str::Utf8Error` of std: why bytes are not UTF-8. It is passed on
/// and never looked into.
#[verifier::external_type_specification]
#[verifier::external_body]
pub struct ExUtf8Error(core::str::Utf8Error);

/// `core::str::from_utf8` of std: succeeds exactly on UTF-8, and then the
/// text it returns is made of the bytes it was given.
#[verifier::external_body]
fn text_of(bytes: &[u8]) -> (decoded: Result<&str, core::str::Utf8Error>)
    ensures
        decoded is Ok <==> valid_utf8(bytes@),
        decoded matches Ok(text) ==> text.spec_bytes() == bytes@,
{
    core::str::from_utf8(bytes)
}

impl Buffer {
    /// Reads a document from the bytes of a file. The bytes must be UTF-8;
    /// the document then holds the lines of the text they encode.
    pub fn load(contents: &[u8]) -> (loaded: Result<Self, LoadError>)
        ensures
            match loaded {
                Ok(buffer) => valid_utf8(contents@) && buffer@ == split_lines(
                    decode_utf8(contents@),
                ),
                Err(error) => !valid_utf8(contents@) && error == LoadError::InvalidEncoding,
            },
    {
        match text_of(contents) {
            Ok(text) => {
                proof {
                    encode_utf8_decode_utf8(text@);
                }
                Ok(Buffer::from_text(text))
            },
            Err(_) => Err(LoadError::InvalidEncoding),
        }
    }

    /// The document whose lines are the lines of `text`.
    pub fn from_text(text: &str) -> (buffer: Self)
        ensures
            buffer@ == split_lines(text@),
    {
        let mut lines: Vec<String> = Vec::new();
        let mut current = String::new();
        // A carriage return is held back until the next character tells
        // whether it belongs to a line ending.
        let mut held = false;
        let ghost pending: Seq<char> = Seq::empty();
        assert(lines.deep_view() =~= Seq::<Seq<char>>::empty());
        assert(pending + text@.skip(0) =~= text@);
        for c in chars: text.chars()
            invariant
                chars.seq() == text@,
                pending == current@ + (if held {
                    seq!['\r']
                } else {
                    Seq::<char>::empty()
                }),
                unbroken(pending),
                !held ==> current@.len() == 0 || current@.last() != '\r',
                split_lines(text@) == lines.deep_view() + split_lines(
                    pending + text@.skip(chars.index() as int),
                ),
        {
            let ghost at = chars.index() as int;
            let ghost before = lines.deep_view();
            assert(c == text@[at]);
            assert(text@.skip(at) =~= seq![c] + text@.skip(at + 1));
            if c == '\n' {
                proof {
                    assert(pending + text@.skip(at) =~= pending + seq!['\n'] + text@.skip(at + 1));
                    lemma_split_first_line(pending, text@.skip(at + 1));
                    if held {
                        assert(pending.drop_last() =~= current@);
                    }
                    assert(without_return(pending) == current@);
                }
                lines.push(current);
                current = String::new();
                held = false;
                proof {
                    assert(lines.deep_view() =~= before.push(without_return(pending)));
                    assert(before + (seq![without_return(pending)] + split_lines(
                        text@.skip(at + 1),
                    )) =~= lines.deep_view() + split_lines(text@.skip(at + 1)));
                    pending = Seq::empty();
                    assert(pending + text@.skip(at + 1) =~= text@.skip(at + 1));
                    assert(pending =~= current@ + Seq::<char>::empty());
                }
            } else {
                if held {
                    push_char(&mut current, '\r');
                }
                if c == '\r' {
                    held = true;
                } else {
                    push_char(&mut current, c);
                    held = false;
                }
                proof {
                    let longer = pending.push(c);
                    assert(longer + text@.skip(at + 1) =~= pending + text@.skip(at));
                    assert(longer =~= current@ + (if held {
                        seq!['\r']
                    } else {
                        Seq::<char>::empty()
                    }));
                    pending = longer;
                }
            }
        }
        proof {
            assert(text@.skip(text@.len() as int) =~= Seq::<char>::empty());
            assert(pending + text@.skip(text@.len() as int) =~= pending);
            lemma_split_last_line(pending);
        }
        if held {
            push_char(&mut current, '\r');
        }
        assert(current@ =~= pending);
        if !current.as_str().is_empty() {
            let ghost before = lines.deep_view();
            lines.push(current);
            assert(lines.deep_view() =~= before + seq![pending]);
        } else {
            assert(lines.deep_view() + Seq::<Seq<char>>::empty() =~= lines.deep_view());
        }
        Buffer { data: lines }
    }

    /// Whether the document has no lines.
    pub fn is_empty(&self) -> (empty: bool)
        ensures
            empty == (self@.len() == 0),
    {
        self.data.is_empty()
    }
}

impl Default for Buffer {
    /// A document of one line, the greeting.
    fn default() -> (buffer: Self)
        ensures
            buffer@ == seq![GREETING@],
    {
        let mut data: Vec<String> = Vec::new();
        data.push(GREETING.to_owned());
        let buffer = Buffer { data };
        assert(buffer@ =~= seq![GREETING@]);
        buffer
    }
}

} // verus!
