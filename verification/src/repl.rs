//! Reading the lines that the user types: blank lines, unbalanced quotes,
//! words, script lines and completion candidates.
use crate::text::{chars_of, occurs_at, string_of, string_views};
use vstd::prelude::*;
use vstd::string::*;

verus! {

/// Whether `c` has the Unicode `White_Space` property, which is what
/// `char::is_whitespace` tests.
pub open spec fn is_space(c: char) -> bool {
    ('\u{9}' <= c && c <= '\u{d}') || c == ' ' || c == '\u{85}' || c == '\u{a0}' || c
        == '\u{1680}' || ('\u{2000}' <= c && c <= '\u{200a}') || c == '\u{2028}' || c
        == '\u{2029}' || c == '\u{202f}' || c == '\u{205f}' || c == '\u{3000}'
}

/// Whether `c` is white space, as `char::is_whitespace` tells.
pub fn is_whitespace(c: char) -> (res: bool)
    ensures
        res == is_space(c),
{
    ('\u{9}' <= c && c <= '\u{d}') || c == ' ' || c == '\u{85}' || c == '\u{a0}' || c
        == '\u{1680}' || ('\u{2000}' <= c && c <= '\u{200a}') || c == '\u{2028}' || c
        == '\u{2029}' || c == '\u{202f}' || c == '\u{205f}' || c == '\u{3000}'
}

/// Whether the line holds nothing but white space.
pub open spec fn blank(s: Seq<char>) -> bool {
    forall|i: int| 0 <= i < s.len() ==> #[trigger] is_space(s[i])
}

/// Whether `line` is empty once trimmed of white space.
pub fn is_blank(line: &str) -> (res: bool)
    ensures
        res == blank(line@),
{
    let v = chars_of(line);
    let mut i: usize = 0;
    while i < v.len()
        invariant
            v@ == line@,
            i <= v@.len(),
            forall|j: int| 0 <= j < i ==> #[trigger] is_space(v@[j]),
        decreases v.len() - i,
    {
        if !is_whitespace(v[i]) {
            return false;
        }
        i = i + 1;
    }
    true
}

/// The number of double quotes in `s`.
pub open spec fn quote_count(s: Seq<char>) -> nat
    decreases s.len(),
{
    if s.len() == 0 {
        0
    } else {
        quote_count(s.drop_last()) + if s.last() == '"' {
            1nat
        } else {
            0nat
        }
    }
}

/// The double quotes of `s`, in order.
pub open spec fn double_quotes(s: Seq<char>) -> Seq<char> {
    s.filter(|c: char| c == '"')
}

/// The quote count is the number of double quotes in the text, and no
/// other character.
pub proof fn lemma_quote_count_is_double_quotes(s: Seq<char>)
    ensures
        quote_count(s) == double_quotes(s).len(),
    decreases s.len(),
{
    reveal(Seq::filter);
    if s.len() > 0 {
        lemma_quote_count_is_double_quotes(s.drop_last());
    }
}

/// Only double quotes decide whether input is complete: a text without a
/// double quote is complete, and putting any other character anywhere into
/// a text leaves its completeness (and quote count) as it was.
pub proof fn lemma_only_double_quotes_matter(s: Seq<char>, k: int, c: char)
    requires
        0 <= k <= s.len(),
    ensures
        (forall|i: int| 0 <= i < s.len() ==> s[i] != '"') ==> quote_count(s) == 0 && quote_count(s)
            % 2 == 0,
        c != '"' ==> quote_count(s.insert(k, c)) == quote_count(s),
        c == '"' ==> quote_count(s.insert(k, c)) == quote_count(s) + 1,
{
    let p = |x: char| x == '"';
    lemma_quote_count_is_double_quotes(s);
    lemma_quote_count_is_double_quotes(s.insert(k, c));
    if forall|i: int| 0 <= i < s.len() ==> s[i] != '"' {
        s.lemma_all_neg_filter_empty(p);
    }
    let a = s.take(k);
    let b = s.skip(k);
    assert(s =~= a + b);
    assert(s.insert(k, c) =~= a + seq![c] + b);
    Seq::filter_distributes_over_add(a, b, p);
    Seq::filter_distributes_over_add(a, seq![c], p);
    Seq::filter_distributes_over_add(a + seq![c], b, p);
    reveal(Seq::filter);
    assert(seq![c].drop_last() =~= Seq::<char>::empty());
    assert(Seq::<char>::empty().filter(p) =~= Seq::<char>::empty());
    if c == '"' {
        assert(seq![c].filter(p) =~= seq![c]);
    } else {
        assert(seq![c].filter(p) =~= Seq::<char>::empty());
    }
}

/// Whether the input is complete: it holds an even number of double
/// quotes. Input with an odd number waits for another line.
pub fn input_complete(input: &str) -> (res: bool)
    ensures
        res == (quote_count(input@) % 2 == 0),
{
    let v = chars_of(input);
    let mut count: usize = 0;
    let mut i: usize = 0;
    while i < v.len()
        invariant
            v@ == input@,
            i <= v@.len(),
            count == quote_count(v@.take(i as int)),
            count <= i,
        decreases v.len() - i,
    {
        assert(v@.take(i + 1).drop_last() =~= v@.take(i as int));
        if v[i] == '"' {
            count = count + 1;
        }
        i = i + 1;
    }
    assert(v@.take(v@.len() as int) =~= v@);
    count % 2 == 0
}

/// The length of the word that `s` starts with.
pub open spec fn word_len(s: Seq<char>) -> nat
    decreases s.len(),
{
    if s.len() == 0 || is_space(s[0]) {
        0
    } else {
        1 + word_len(s.skip(1))
    }
}

/// The words of `s`: its maximal runs of characters that are not white
/// space, in order, as `str::split_whitespace` yields them.
pub open spec fn words(s: Seq<char>) -> Seq<Seq<char>>
    decreases s.len(),
{
    if s.len() == 0 {
        Seq::empty()
    } else if is_space(s[0]) {
        words(s.skip(1))
    } else {
        proof {
            lemma_word_len_bound(s);
        }
        seq![s.take(word_len(s) as int)] + words(s.skip(word_len(s) as int))
    }
}

proof fn lemma_word_len(s: Seq<char>, k: int)
    requires
        0 <= k <= s.len(),
        forall|j: int| 0 <= j < k ==> !#[trigger] is_space(s[j]),
        k == s.len() || is_space(s[k]),
    ensures
        word_len(s) == k,
    decreases k,
{
    if k > 0 {
        assert forall|j: int| 0 <= j < k - 1 implies !#[trigger] is_space(s.skip(1)[j]) by {
            assert(!is_space(s[j + 1]));
        }
        lemma_word_len(s.skip(1), k - 1);
    }
}

/// A word is no longer than the text, and not empty where the text starts
/// with a character that is not white space.
pub proof fn lemma_word_len_bound(s: Seq<char>)
    ensures
        word_len(s) <= s.len(),
        s.len() > 0 && !is_space(s[0]) ==> word_len(s) > 0,
    decreases s.len(),
{
    if s.len() > 0 && !is_space(s[0]) {
        lemma_word_len_bound(s.skip(1));
    }
}

/// Every word is non-empty and holds no white space.
pub proof fn lemma_words_have_no_space(s: Seq<char>)
    ensures
        forall|i: int| 0 <= i < words(s).len() ==> (#[trigger] words(s)[i]).len() > 0,
        forall|i: int, j: int|
            0 <= i < words(s).len() && 0 <= j < words(s)[i].len() ==> !is_space(
                #[trigger] words(s)[i][j],
            ),
    decreases s.len(),
{
    if s.len() > 0 {
        if is_space(s[0]) {
            lemma_words_have_no_space(s.skip(1));
            assert(words(s) == words(s.skip(1)));
        } else {
            let k = word_len(s) as int;
            lemma_word_len_bound(s);
            lemma_word_prefix(s);
            lemma_words_have_no_space(s.skip(k));
            let rest = words(s.skip(k));
            assert(words(s) == seq![s.take(k)] + rest);
            assert forall|i: int| 0 <= i < words(s).len() implies (#[trigger] words(s)[i]).len() > 0 by {
                if i > 0 {
                    assert(words(s)[i] == rest[i - 1]);
                }
            }
            assert forall|i: int, j: int|
                0 <= i < words(s).len() && 0 <= j < words(s)[i].len() implies !is_space(
                #[trigger] words(s)[i][j],
            ) by {
                if i > 0 {
                    assert(words(s)[i] == rest[i - 1]);
                } else {
                    assert(words(s)[0][j] == s[j]);
                }
            }
        }
    }
}

/// The characters of the word that `s` starts with are not white space.
pub proof fn lemma_word_prefix(s: Seq<char>)
    ensures
        forall|j: int| 0 <= j < word_len(s) ==> !#[trigger] is_space(s[j]),
    decreases s.len(),
{
    if s.len() > 0 && !is_space(s[0]) {
        lemma_word_len_bound(s);
        lemma_word_prefix(s.skip(1));
        assert forall|j: int| 0 <= j < word_len(s) implies !#[trigger] is_space(s[j]) by {
            if j > 0 {
                assert(s[j] == s.skip(1)[j - 1]);
            }
        }
    }
}

/// Splits `s` into its words, as `str::split_whitespace` does.
pub fn split_whitespace(s: &str) -> (res: Vec<String>)
    ensures
        string_views(res@) == words(s@),
{
    let v = chars_of(s);
    let n = v.len();
    let mut res: Vec<String> = Vec::new();
    let mut i: usize = 0;
    assert(s@.skip(0) =~= s@);
    while i < n
        invariant
            v@ == s@,
            n == v@.len(),
            i <= n,
            string_views(res@) + words(s@.skip(i as int)) == words(s@),
        decreases n - i,
    {
        let ghost rest = s@.skip(i as int);
        if is_whitespace(v[i]) {
            assert(rest.skip(1) =~= s@.skip(i + 1));
            i = i + 1;
        } else {
            let mut j: usize = i;
            while j < n && !is_whitespace(v[j])
                invariant
                    v@ == s@,
                    n == v@.len(),
                    i <= j <= n,
                    forall|t: int| i <= t < j ==> !#[trigger] is_space(v@[t]),
                decreases n - j,
            {
                j = j + 1;
            }
            proof {
                assert forall|t: int| 0 <= t < j - i implies !#[trigger] is_space(rest[t]) by {
                    assert(!is_space(v@[i + t]));
                }
                lemma_word_len(rest, j - i);
                assert(rest.skip((j - i) as int) =~= s@.skip(j as int));
                assert(rest.take((j - i) as int) =~= v@.subrange(i as int, j as int));
            }
            let w = string_of(&v, i, j);
            let ghost before = string_views(res@);
            res.push(w);
            assert(string_views(res@) =~= before.push(w@));
            assert(before.push(w@) + words(s@.skip(j as int)) =~= before + words(rest));
            i = j;
        }
    }
    assert(words(s@.skip(n as int)) =~= Seq::<Seq<char>>::empty());
    assert(string_views(res@) =~= words(s@));
    res
}

/// The line of `s` that starts at `start`: up to the next line feed, less
/// a carriage return right before that line feed.
pub open spec fn line_end(s: Seq<char>, start: int) -> int
    decreases s.len() - start,
{
    if start >= s.len() || s[start] == '\n' {
        start
    } else {
        line_end(s, start + 1)
    }
}

/// The lines of `s`, as `str::lines` yields them: split at each line feed,
/// a carriage return before a line feed dropped, and no empty last line
/// after a final line feed.
pub open spec fn lines_from(s: Seq<char>, start: int) -> Seq<Seq<char>>
    decreases s.len() - start,
{
    if start < 0 || start >= s.len() {
        Seq::empty()
    } else {
        let e = line_end(s, start);
        proof {
            lemma_line_end_bounds(s, start);
        }
        let line = s.subrange(start, e);
        let line = if e < s.len() && line.len() > 0 && line.last() == '\r' {
            line.drop_last()
        } else {
            line
        };
        if e < s.len() {
            seq![line] + lines_from(s, e + 1)
        } else {
            seq![line]
        }
    }
}

/// A line ends between its start and the end of the text.
pub proof fn lemma_line_end_bounds(s: Seq<char>, start: int)
    requires
        0 <= start,
    ensures
        start <= s.len() ==> start <= line_end(s, start) <= s.len(),
        start > s.len() ==> line_end(s, start) == start,
    decreases s.len() - start,
{
    if start < s.len() && s[start] != '\n' {
        lemma_line_end_bounds(s, start + 1);
    }
}

proof fn lemma_line_end(s: Seq<char>, start: int, e: int)
    requires
        0 <= start <= e <= s.len(),
        forall|t: int| start <= t < e ==> #[trigger] s[t] != '\n',
        e == s.len() || s[e] == '\n',
    ensures
        line_end(s, start) == e,
    decreases e - start,
{
    if start < e {
        lemma_line_end(s, start + 1, e);
    }
}

/// The lines of a script, as `str::lines` yields them.
pub fn lines(s: &str) -> (res: Vec<String>)
    ensures
        string_views(res@) == lines_from(s@, 0),
{
    let v = chars_of(s);
    let n = v.len();
    let mut res: Vec<String> = Vec::new();
    let mut i: usize = 0;
    while i < n
        invariant
            v@ == s@,
            n == v@.len(),
            i <= n,
            string_views(res@) + lines_from(s@, i as int) == lines_from(s@, 0),
        decreases n - i,
    {
        let mut j: usize = i;
        while j < n && v[j] != '\n'
            invariant
                v@ == s@,
                n == v@.len(),
                i <= j <= n,
                forall|t: int| i <= t < j ==> #[trigger] v@[t] != '\n',
            decreases n - j,
        {
            j = j + 1;
        }
        proof {
            lemma_line_end(s@, i as int, j as int);
        }
        let end = if j < n && j > i && v[j - 1] == '\r' { j - 1 } else { j };
        let line = string_of(&v, i, end);
        let ghost before = string_views(res@);
        res.push(line);
        proof {
            assert(string_views(res@) =~= before.push(line@));
            let full = s@.subrange(i as int, j as int);
            if j < n && j > i && v@[j - 1] == '\r' {
                assert(line@ =~= full.drop_last());
            } else {
                assert(line@ =~= full);
            }
        }
        if j < n {
            assert(before.push(line@) + lines_from(s@, j + 1) =~= before + lines_from(s@, i as int));
            i = j + 1;
        } else {
            assert(lines_from(s@, j as int) =~= Seq::<Seq<char>>::empty());
            assert(before.push(line@) + lines_from(s@, j as int) =~= before + lines_from(s@, i as int));
            i = j;
        }
    }
    assert(string_views(res@) =~= lines_from(s@, 0));
    res
}

/// Where completion stands in the text before the cursor: the words before
/// the word being completed, and that word (empty after a space).
pub open spec fn completion_words(input: Seq<char>) -> (Seq<Seq<char>>, Seq<char>) {
    let ws = words(input);
    if input.len() > 0 && input.last() == ' ' {
        (ws, Seq::empty())
    } else if ws.len() == 0 {
        (ws, Seq::empty())
    } else {
        (ws.drop_last(), ws.last())
    }
}

/// Splits the text before the cursor (which ends at byte `pos` of the
/// line) into the words before the word being completed, that word, and
/// the byte position where it starts.
pub fn completion_context(input: &str, pos: usize) -> (res: (Vec<String>, String, usize))
    ensures
        string_views(res.0@) == completion_words(input@).0,
        res.1@ == completion_words(input@).1,
        res.2 == if pos >= (vstd::utf8::encode_utf8(res.1@).len() as usize) {
            pos - (vstd::utf8::encode_utf8(res.1@).len() as usize)
        } else {
            0
        },
{
    let v = chars_of(input);
    let ends_with_space = v.len() > 0 && v[v.len() - 1] == ' ';
    let mut tokens = split_whitespace(input);
    let current = if ends_with_space {
        String::new()
    } else {
        match tokens.pop() {
            Some(t) => t,
            None => String::new(),
        }
    };
    proof {
        let ws = words(input@);
        if !ends_with_space && ws.len() > 0 {
            assert(string_views(tokens@) =~= ws.drop_last());
        }
    }
    let clen = current.as_str().len();
    let start = if pos >= clen { pos - clen } else { 0 };
    (tokens, current, start)
}

/// The names among `names` that begin with `current`, in order.
pub open spec fn with_prefix(names: Seq<Seq<char>>, current: Seq<char>) -> Seq<Seq<char>> {
    names.filter(|n: Seq<char>| occurs_at(n, 0, current))
}

/// Completion offers exactly the names that begin with the word being
/// completed: an offered name is one of the names and begins with it, and
/// every name that begins with it is offered.
pub proof fn lemma_candidates_are_prefixed_names(names: Seq<Seq<char>>, current: Seq<char>, name: Seq<char>)
    ensures
        with_prefix(names, current).contains(name) <==> (names.contains(name) && occurs_at(
            name,
            0,
            current,
        )),
{
    let p = |n: Seq<char>| occurs_at(n, 0, current);
    let f = names.filter(p);
    assert(with_prefix(names, current) == f);
    if f.contains(name) {
        names.lemma_filter_contains_rev(p, name);
        let i = choose|i: int| 0 <= i < f.len() && f[i] == name;
        names.lemma_filter_pred(p, i);
    }
    if names.contains(name) && occurs_at(name, 0, current) {
        let i = choose|i: int| 0 <= i < names.len() && names[i] == name;
        names.lemma_filter_contains(p, i);
    }
}

/// The candidates that begin with the word being completed, in order.
pub fn matching_candidates(names: &Vec<String>, current: &str) -> (res: Vec<String>)
    ensures
        string_views(res@) == with_prefix(string_views(names@), current@),
{
    let ghost views = string_views(names@);
    let cv = chars_of(current);
    let mut res: Vec<String> = Vec::new();
    let mut i: usize = 0;
    while i < names.len()
        invariant
            views == string_views(names@),
            cv@ == current@,
            i <= names@.len(),
            string_views(res@) == with_prefix(views.take(i as int), current@),
        decreases names.len() - i,
    {
        let nv = chars_of(names[i].as_str());
        let ghost before = string_views(res@);
        proof {
            reveal_with_fuel(Seq::<Seq<char>>::filter, 1);
        }
        assert(views.take(i + 1).drop_last() =~= views.take(i as int));
        assert(views.take(i + 1).last() == names@[i as int]@);
        if crate::text::matches_at(&nv, 0, &cv) {
            res.push(names[i].clone());
            assert(string_views(res@) =~= before.push(names@[i as int]@));
        } else {
            assert(string_views(res@) =~= before);
        }
        i = i + 1;
    }
    assert(views.take(names.len() as int) =~= views);
    res
}

} // verus!
