//! Command lines: quoting, display and the commands that panes run.
use crate::store::replans::alphanumeric;
use crate::table::Row;
use crate::text::{chars_of, same_text, text_between};
use vstd::prelude::*;
use vstd::string::*;
use vstd::utf8::*;

verus! {

/// The characters that a shell takes as they stand.
pub open spec fn plain_char(c: char) -> bool {
    alphanumeric(c) || c == '/' || c == '.' || c == '_' || c == '-' || c == ':' || c == '='
}

pub open spec fn plain(s: Seq<char>) -> bool {
    forall|i: int| 0 <= i < s.len() ==> plain_char(#[trigger] s[i])
}

/// A text with every quote closed, escaped and opened again.
pub open spec fn quotes_escaped(s: Seq<char>) -> Seq<char>
    decreases s.len(),
{
    if s.len() == 0 {
        Seq::empty()
    } else if s.last() == '\'' {
        quotes_escaped(s.drop_last()) + seq!['\'', '\\', '\'', '\'']
    } else {
        quotes_escaped(s.drop_last()).push(s.last())
    }
}

/// A text as one word of a command line: as it stands where that is safe, or else in quotes.
pub open spec fn quoted(s: Seq<char>) -> Seq<char> {
    if plain(s) {
        s
    } else {
        seq!['\''] + quotes_escaped(s) + seq!['\'']
    }
}

/// A word as the shell reads it back.
pub fn shell_quote(value: &str) -> (r: String)
    ensures
        r@ == quoted(value@),
{
    let chars = chars_of(value);
    let mut safe = true;
    let mut r = String::new();
    r.push('\'');
    let mut i: usize = 0;
    assert(value@.take(0) =~= Seq::empty());
    assert(r@ =~= seq!['\''] + quotes_escaped(value@.take(0)));
    while i < chars.len()
        invariant
            i <= chars.len(),
            chars@ == value@,
            safe == plain(value@.take(i as int)),
            r@ == seq!['\''] + quotes_escaped(value@.take(i as int)),
        decreases chars.len() - i,
    {
        let c = chars[i];
        let ghost part = value@.take(i + 1);
        assert(part.drop_last() =~= value@.take(i as int));
        assert(part.last() == c);
        let ok = (c >= '0' && c <= '9') || (c >= 'A' && c <= 'Z') || (c >= 'a' && c <= 'z') || c
            == '/' || c == '.' || c == '_' || c == '-' || c == ':' || c == '=';
        assert(plain(part) == (plain(value@.take(i as int)) && plain_char(c))) by {
            if plain(part) {
                assert forall|k: int| 0 <= k < i implies plain_char(
                    #[trigger] value@.take(i as int)[k],
                ) by {
                    assert(part[k] == value@.take(i as int)[k]);
                }
                assert(part[i as int] == c);
            }
            if plain(value@.take(i as int)) && plain_char(c) {
                assert forall|k: int| 0 <= k < part.len() implies plain_char(
                    #[trigger] part[k],
                ) by {
                    if k < i {
                        assert(part[k] == value@.take(i as int)[k]);
                    }
                }
            }
        }
        if !ok {
            safe = false;
        }
        if c == '\'' {
            r.push('\'');
            r.push('\\');
            r.push('\'');
            r.push('\'');
        } else {
            r.push(c);
        }
        assert(r@ =~= seq!['\''] + quotes_escaped(part));
        i = i + 1;
    }
    assert(value@.take(i as int) =~= value@);
    if safe {
        return value.to_owned();
    }
    r.push('\'');
    assert(r@ =~= quoted(value@));
    r
}

/// Words of a command line, with a space between them.
pub open spec fn command_line(words: Seq<Seq<char>>) -> Seq<char>
    decreases words.len(),
{
    if words.len() == 0 {
        Seq::empty()
    } else if words.len() == 1 {
        quoted(words[0])
    } else {
        command_line(words.drop_last()) + " "@ + quoted(words.last())
    }
}

/// A command line with its words quoted.
pub fn display_args(args: &Vec<String>) -> (r: String)
    ensures
        r@ == command_line(args.deep_view()),
{
    let mut r = String::new();
    let mut i: usize = 0;
    assert(args.deep_view().take(0) =~= Seq::empty());
    while i < args.len()
        invariant
            i <= args.len(),
            r@ == command_line(args.deep_view().take(i as int)),
        decreases args.len() - i,
    {
        let ghost part = args.deep_view().take(i + 1);
        assert(part.drop_last() =~= args.deep_view().take(i as int));
        assert(part.last() == args@[i as int]@);
        if i > 0 {
            r.append(" ");
        }
        let word = shell_quote(args[i].as_str());
        let ghost before = r@;
        r.append(word.as_str());
        assert(i == 0 ==> before =~= Seq::empty() && r@ =~= quoted(part[0]));
        i = i + 1;
    }
    assert(args.deep_view().take(i as int) =~= args.deep_view());
    r
}

/// A text as it is shown in a message: one that takes more than 500 bytes is cut after 500
/// characters.
pub open spec fn shortened(s: Seq<char>) -> Seq<char> {
    if encode_utf8(s).len() <= 500 {
        s
    } else {
        s.take(
            if s.len() < 500 {
                s.len() as int
            } else {
                500
            },
        ).push('…')
    }
}

/// The beginning of a long text.
pub fn bounded(value: &str) -> (r: String)
    ensures
        r@ == shortened(value@),
{
    if value.as_bytes().len() <= 500 {
        return value.to_owned();
    }
    let chars = chars_of(value);
    let n: usize = if chars.len() < 500 {
        chars.len()
    } else {
        500
    };
    let mut r = String::new();
    let mut i: usize = 0;
    while i < n
        invariant
            i <= n <= chars.len(),
            chars@ == value@,
            r@ == value@.take(i as int),
        decreases n - i,
    {
        r.push(chars[i]);
        assert(value@.take(i + 1) =~= value@.take(i as int).push(value@[i as int]));
        i = i + 1;
    }
    r.push('…');
    r
}

/// The name of a program whose file was replaced while it ran, without the mark of that.
pub open spec fn without_deleted_mark(path: Seq<char>) -> Option<Seq<char>> {
    if path.len() >= 10 && path.skip(path.len() - 10) == " (deleted)"@ {
        Some(path.take(path.len() - 10))
    } else {
        None
    }
}

/// A path without the mark of a deleted file.
pub fn strip_linux_deleted_exe_suffix(path: &str) -> (r: Option<String>)
    ensures
        r.deep_view() == without_deleted_mark(path@),
{
    proof {
        reveal_strlit(" (deleted)");
    }
    let chars = chars_of(path);
    if chars.len() < 10 {
        return None;
    }
    let n: usize = chars.len() - 10;
    let tail = text_between(&chars, n, chars.len());
    assert(tail@ =~= path@.skip(path@.len() - 10));
    if same_text(tail.as_str(), " (deleted)") {
        let front = text_between(&chars, 0, n);
        assert(front@ =~= path@.take(path@.len() - 10));
        Some(front)
    } else {
        None
    }
}

/// Where a shell stands in a word: outside of quotes, in quotes, or behind a backslash.
pub enum ReadingModel {
    Outside,
    Quoted,
    Escaped,
}

/// What a shell has read of a word, and where it stands.
pub open spec fn shell_reads(word: Seq<char>) -> (Seq<char>, ReadingModel)
    decreases word.len(),
{
    if word.len() == 0 {
        (Seq::empty(), ReadingModel::Outside)
    } else {
        let (read, stand) = shell_reads(word.drop_last());
        let c = word.last();
        match stand {
            ReadingModel::Outside => if c == '\'' {
                (read, ReadingModel::Quoted)
            } else if c == '\\' {
                (read, ReadingModel::Escaped)
            } else {
                (read.push(c), ReadingModel::Outside)
            },
            ReadingModel::Quoted => if c == '\'' {
                (read, ReadingModel::Outside)
            } else {
                (read.push(c), ReadingModel::Quoted)
            },
            ReadingModel::Escaped => (read.push(c), ReadingModel::Outside),
        }
    }
}

/// A quoted text is one word, and a shell reads the text from it: what is not in quotes is made of
/// letters, digits and the marks `/`, `.`, `_`, `-`, `:` and `=` alone.
pub proof fn law_quoted_text_is_read_back(text: Seq<char>)
    ensures
        shell_reads(quoted(text)) == (text, ReadingModel::Outside),
        quoted(text) != text ==> quoted(text).len() >= 2 && quoted(text)[0] == '\''
            && quoted(text).last() == '\'',
        quoted(text) == text ==> forall|i: int|
            0 <= i < text.len() ==> {
                let c = #[trigger] text[i];
                ('0' <= c && c <= '9') || ('A' <= c && c <= 'Z') || ('a' <= c && c <= 'z') || c
                    == '/' || c == '.' || c == '_' || c == '-' || c == ':' || c == '='
            },
{
    if plain(text) {
        lemma_plain_read(text);
    } else {
        lemma_escaped_read(text);
        let open = seq!['\''] + quotes_escaped(text);
        assert(quoted(text).drop_last() =~= open);
        assert(quoted(text).last() == '\'');
        lemma_escaped_len(text);
    }
}

proof fn lemma_escaped_len(text: Seq<char>)
    ensures
        quotes_escaped(text).len() >= text.len(),
    decreases text.len(),
{
    if text.len() > 0 {
        lemma_escaped_len(text.drop_last());
    }
}

proof fn lemma_plain_read(text: Seq<char>)
    requires
        plain(text),
    ensures
        shell_reads(text) == (text, ReadingModel::Outside),
    decreases text.len(),
{
    if text.len() > 0 {
        let rest = text.drop_last();
        assert forall|i: int| 0 <= i < rest.len() implies plain_char(#[trigger] rest[i]) by {
            assert(rest[i] == text[i]);
        }
        lemma_plain_read(rest);
        assert(plain_char(text[text.len() - 1]));
        assert(rest.push(text.last()) =~= text);
    } else {
        assert(text =~= Seq::empty());
    }
}

proof fn lemma_escaped_read(text: Seq<char>)
    ensures
        shell_reads(seq!['\''] + quotes_escaped(text)) == (text, ReadingModel::Quoted),
    decreases text.len(),
{
    let word = seq!['\''] + quotes_escaped(text);
    if text.len() == 0 {
        assert(word.drop_last() =~= Seq::empty());
        assert(word.last() == '\'');
        assert(text =~= Seq::empty());
        assert(shell_reads(word.drop_last()) == (text, ReadingModel::Outside));
    } else {
        let rest = text.drop_last();
        lemma_escaped_read(rest);
        let before = seq!['\''] + quotes_escaped(rest);
        assert(rest.push(text.last()) =~= text);
        if text.last() == '\'' {
            let a = before.push('\'');
            let b = a.push('\\');
            let c = b.push('\'');
            assert(word =~= c.push('\''));
            assert(a.drop_last() =~= before && b.drop_last() =~= a && c.drop_last() =~= b);
            assert(word.drop_last() =~= c);
            assert(shell_reads(a) == (rest, ReadingModel::Outside));
            assert(shell_reads(b) == (rest, ReadingModel::Escaped));
            assert(shell_reads(c) == (text, ReadingModel::Outside));
            assert(shell_reads(word) == (text, ReadingModel::Quoted));
        } else {
            assert(word =~= before.push(text.last()));
            assert(word.drop_last() =~= before);
            assert(shell_reads(word) == (rest.push(text.last()), ReadingModel::Quoted));
        }
    }
}

/// A text in a message is shown whole where it takes up to 500 bytes; else it is a beginning of it, of
/// 500 characters at most, with the mark of what was cut.
pub proof fn law_long_text_is_cut(text: Seq<char>)
    ensures
        encode_utf8(text).len() <= 500 ==> shortened(text) == text,
        encode_utf8(text).len() > 500 ==> {
            let shown = shortened(text);
            &&& shown.last() == '…'
            &&& shown.len() == (if text.len() < 500 {
                text.len() + 1
            } else {
                501
            })
            &&& forall|i: int| 0 <= i < shown.len() - 1 ==> #[trigger] shown[i] == text[i]
        },
{
}

/// The mark of a deleted file is taken off where a path ends in it, and nothing else is.
pub proof fn law_deleted_mark_is_taken_off(path: Seq<char>)
    ensures
        without_deleted_mark(path + " (deleted)"@) == Some(path),
        without_deleted_mark(path) matches Some(rest) ==> path == rest + " (deleted)"@,
{
    reveal_strlit(" (deleted)");
    let marked = path + " (deleted)"@;
    assert(marked.skip(marked.len() - 10) =~= " (deleted)"@);
    assert(marked.take(marked.len() - 10) =~= path);
    if let Some(rest) = without_deleted_mark(path) {
        assert(path =~= rest + " (deleted)"@);
    }
}

} // verus!
