use vstd::prelude::*;

verus! {

broadcast use vstd::string::group_string_axioms;

/// Relies on `String::push`: appends one character at the end.
#[verifier::external_body]
pub(crate) fn push_char(s: &mut String, c: char)
    ensures
        final(s)@ == old(s)@.push(c),
{
    s.push(c);
}

/// The concatenation of a sequence of strings.
pub open spec fn joined(parts: Seq<Seq<char>>) -> Seq<char>
    decreases parts.len(),
{
    if parts.len() == 0 {
        Seq::empty()
    } else {
        joined(parts.drop_last()) + parts.last()
    }
}

pub proof fn lemma_joined_push(parts: Seq<Seq<char>>, part: Seq<char>)
    ensures
        joined(parts.push(part)) == joined(parts) + part,
{
    assert(parts.push(part).drop_last() =~= parts);
}

/// Joining distributes over concatenation.
pub proof fn lemma_joined_concat(a: Seq<Seq<char>>, b: Seq<Seq<char>>)
    ensures
        joined(a + b) == joined(a) + joined(b),
    decreases b.len(),
{
    if b.len() == 0 {
        assert(a + b =~= a);
    } else {
        lemma_joined_concat(a, b.drop_last());
        assert((a + b).drop_last() =~= a + b.drop_last());
    }
}

/// Whether two strings hold the same characters.
pub fn same_text(a: &str, b: &str) -> (r: bool)
    ensures
        r == (a@ == b@),
{
    let n = a.unicode_len();
    if n != b.unicode_len() {
        return false;
    }
    let mut i: usize = 0;
    while i < n
        invariant
            n == a@.len() == b@.len(),
            i <= n,
            forall|j: int| 0 <= j < i ==> a@[j] == b@[j],
        decreases n - i,
    {
        if a.get_char(i) != b.get_char(i) {
            return false;
        }
        i = i + 1;
    }
    assert(a@ =~= b@);
    true
}

/// Splitting after each newline, read left to right: the finished lines
/// (each ending in `'\n'`) and the unfinished tail.
pub open spec fn split_after_newlines(s: Seq<char>) -> (Seq<Seq<char>>, Seq<char>)
    decreases s.len(),
{
    if s.len() == 0 {
        (Seq::empty(), Seq::empty())
    } else {
        let (done, tail) = split_after_newlines(s.drop_last());
        let c = s.last();
        if c == '\n' {
            (done.push(tail.push(c)), Seq::empty())
        } else {
            (done, tail.push(c))
        }
    }
}

/// The lines of `s`, each keeping its line ending; a last line without a
/// newline is kept too, an empty tail is not.
pub open spec fn lines_with_endings(s: Seq<char>) -> Seq<Seq<char>> {
    let (done, tail) = split_after_newlines(s);
    if tail.len() == 0 {
        done
    } else {
        done.push(tail)
    }
}

proof fn lemma_split_after_newlines(s: Seq<char>)
    ensures
        joined(split_after_newlines(s).0) + split_after_newlines(s).1 == s,
        forall|i: int|
            0 <= i < split_after_newlines(s).0.len() ==> #[trigger] split_after_newlines(s).0[i].len() > 0,
    decreases s.len(),
{
    if s.len() > 0 {
        lemma_split_after_newlines(s.drop_last());
        let (done, tail) = split_after_newlines(s.drop_last());
        let c = s.last();
        if c == '\n' {
            lemma_joined_push(done, tail.push(c));
        }
        assert(s =~= s.drop_last().push(c));
    }
}

/// Joining the lines of a text gives the text back, and no line is empty.
pub proof fn lemma_lines_with_endings(s: Seq<char>)
    ensures
        joined(lines_with_endings(s)) == s,
        forall|i: int| 0 <= i < lines_with_endings(s).len() ==> #[trigger] lines_with_endings(s)[i].len() > 0,
{
    lemma_split_after_newlines(s);
    let (done, tail) = split_after_newlines(s);
    if tail.len() == 0 {
        assert(joined(done) + tail =~= joined(done));
    } else {
        lemma_joined_push(done, tail);
    }
}

/// The views of a vector of strings.
pub open spec fn views(v: Seq<String>) -> Seq<Seq<char>> {
    v.map_values(|l: String| l@)
}

/// Splits `text` into lines, each keeping its `'\n'`; the last line may lack
/// one.  Joining the result gives `text` back.
pub fn split_lines_with_endings(text: &str) -> (lines: Vec<String>)
    ensures
        views(lines@) == lines_with_endings(text@),
{
    let mut done: Vec<String> = Vec::new();
    let mut tail = String::new();
    let ghost s = text@;
    for c in it: text.chars()
        invariant
            s == text@,
            it.seq() == s,
            (views(done@), tail@) == split_after_newlines(it.seq().take(it.index() as int)),
    {
        proof {
            assert(it.seq().take(it.index() + 1).drop_last() =~= it.seq().take(it.index() as int));
        }
        push_char(&mut tail, c);
        if c == '\n' {
            let line = tail;
            let ghost before = done@;
            done.push(line);
            tail = String::new();
            proof {
                assert(views(done@) =~= views(before).push(line@));
            }
        }
    }
    assert(s.take(s.len() as int) =~= s);
    if !tail.as_str().is_empty() {
        let ghost before = done@;
        done.push(tail);
        proof {
            assert(views(done@) =~= views(before).push(tail@));
        }
    }
    done
}


/// A line with its ending taken off: a final `'\n'`, and then a `'\r'`
/// before it.
pub open spec fn without_line_ending(line: Seq<char>) -> Seq<char> {
    if line.len() > 0 && line.last() == '\n' {
        let rest = line.drop_last();
        if rest.len() > 0 && rest.last() == '\r' {
            rest.drop_last()
        } else {
            rest
        }
    } else {
        line
    }
}

/// The lines of `s` without their endings, as `str::lines` gives them.
pub open spec fn text_lines(s: Seq<char>) -> Seq<Seq<char>> {
    lines_with_endings(s).map_values(|l: Seq<char>| without_line_ending(l))
}

/// The number of rows a text occupies: its line count, and at least one.
pub open spec fn row_count(s: Seq<char>) -> nat {
    if text_lines(s).len() == 0 {
        1
    } else {
        text_lines(s).len()
    }
}

/// Takes the line ending off one line.
pub fn strip_line_ending(line: &str) -> (r: String)
    ensures
        r@ == without_line_ending(line@),
{
    let n = line.unicode_len();
    if n > 0 && line.get_char(n - 1) == '\n' {
        if n > 1 && line.get_char(n - 2) == '\r' {
            line.substring_char(0, n - 2).to_string()
        } else {
            line.substring_char(0, n - 1).to_string()
        }
    } else {
        line.to_string()
    }
}

/// The first `limit` lines of `text` (all of them if there are fewer),
/// without their endings.
pub fn first_lines(text: &str, limit: usize) -> (lines: Vec<String>)
    ensures
        views(lines@) == text_lines(text@).take(
            if limit < text_lines(text@).len() { limit as int } else { text_lines(text@).len() as int },
        ),
{
    let all = split_lines_with_endings(text);
    let count = if limit < all.len() { limit } else { all.len() };
    let mut lines: Vec<String> = Vec::new();
    for i in 0..count
        invariant
            count <= all@.len(),
            views(all@) == lines_with_endings(text@),
            views(lines@) == text_lines(text@).take(i as int),
    {
        let line = strip_line_ending(all[i].as_str());
        let ghost before = lines@;
        lines.push(line);
        proof {
            assert(views(all@)[i as int] == all@[i as int]@);
            assert(text_lines(text@)[i as int] == without_line_ending(all@[i as int]@));
            assert(views(lines@) =~= views(before).push(line@));
            assert(views(lines@) =~= text_lines(text@).take(i + 1));
        }
    }
    lines
}

/// How many rows `text` needs: its number of lines, and never less than one.
pub fn count_rows(text: &str) -> (n: usize)
    ensures
        n == row_count(text@),
{
    let all = split_lines_with_endings(text);
    if all.len() == 0 {
        1
    } else {
        all.len()
    }
}

/// Index of the last `'.'` in `s`, or -1 when there is none.
pub open spec fn last_dot(s: Seq<char>) -> int
    decreases s.len(),
{
    if s.len() == 0 {
        -1
    } else if s.last() == '.' {
        s.len() - 1
    } else {
        last_dot(s.drop_last())
    }
}

proof fn lemma_last_dot(s: Seq<char>)
    ensures
        -1 <= last_dot(s) < s.len(),
        last_dot(s) >= 0 ==> s[last_dot(s)] == '.',
        forall|j: int| last_dot(s) < j < s.len() ==> s[j] != '.',
    decreases s.len(),
{
    if s.len() > 0 {
        lemma_last_dot(s.drop_last());
        assert forall|j: int| last_dot(s) < j < s.len() implies s[j] != '.' by {
            if j < s.len() - 1 {
                assert(s.drop_last()[j] == s[j]);
            }
        }
    }
}

/// The extension of a file name, as `Path::extension` reads it: what follows
/// the last dot, unless there is no dot, the only dot opens the name, or the
/// name is `..`.
pub open spec fn extension_of(name: Seq<char>) -> Option<Seq<char>> {
    let i = last_dot(name);
    if name == seq!['.', '.'] || i <= 0 {
        None
    } else {
        Some(name.subrange(i + 1, name.len() as int))
    }
}

/// The extension of the file name `name`.
pub fn file_extension(name: &str) -> (r: Option<String>)
    ensures
        r matches Some(e) ==> extension_of(name@) == Some(e@),
        r is None ==> extension_of(name@) is None,
{
    let n = name.unicode_len();
    if n == 2 && name.get_char(0) == '.' && name.get_char(1) == '.' {
        assert(name@ =~= seq!['.', '.']);
        return None;
    }
    let mut i = n;
    while i > 0 && name.get_char(i - 1) != '.'
        invariant
            i <= n == name@.len(),
            forall|j: int| i <= j < n ==> name@[j] != '.',
        decreases i,
    {
        i = i - 1;
    }
    proof {
        lemma_last_dot(name@);
        assert(i == 0 || name@[i - 1] == '.');
        assert(last_dot(name@) == i - 1) by {
            if last_dot(name@) < i - 1 {
                assert(name@[i - 1] == '.');
            }
        }
    }
    if i <= 1 {
        None
    } else {
        Some(name.substring_char(i, n).to_string())
    }
}

/// Two characters that are equal once ASCII letters are lower-cased.
pub open spec fn same_ignoring_ascii_case(a: char, b: char) -> bool {
    a == b || ('A' <= a <= 'Z' && b as u32 == a as u32 + 32) || ('A' <= b <= 'Z' && a as u32 == b
        as u32 + 32)
}

/// Two strings that are equal once ASCII letters are lower-cased, as
/// `str::eq_ignore_ascii_case` compares them.
pub open spec fn equal_ignoring_ascii_case(a: Seq<char>, b: Seq<char>) -> bool {
    a.len() == b.len() && forall|i: int| 0 <= i < a.len() ==> #[trigger] same_ignoring_ascii_case(a[i], b[i])
}

fn chars_equal_ignoring_ascii_case(a: char, b: char) -> (r: bool)
    ensures
        r == same_ignoring_ascii_case(a, b),
{
    let x = a as u32;
    let y = b as u32;
    x == y || (65 <= x && x <= 90 && y == x + 32) || (65 <= y && y <= 90 && x == y + 32)
}

/// Compares two strings, ignoring the case of ASCII letters.
pub fn eq_ignore_ascii_case(a: &str, b: &str) -> (r: bool)
    ensures
        r == equal_ignoring_ascii_case(a@, b@),
{
    let n = a.unicode_len();
    if n != b.unicode_len() {
        return false;
    }
    let mut i: usize = 0;
    while i < n
        invariant
            n == a@.len() == b@.len(),
            i <= n,
            forall|j: int| 0 <= j < i ==> #[trigger] same_ignoring_ascii_case(a@[j], b@[j]),
        decreases n - i,
    {
        if !chars_equal_ignoring_ascii_case(a.get_char(i), b.get_char(i)) {
            return false;
        }
        i = i + 1;
    }
    true
}

} // verus!
