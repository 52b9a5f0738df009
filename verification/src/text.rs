//! Character-level string helpers with their specifications.
use vstd::prelude::*;
use vstd::string::*;

verus! {

/// Appends one character to a string.
/// Trusted: calls `String::push`, which appends `c` at the end.
#[verifier::external_body]
pub(crate) fn push_char(s: &mut String, c: char)
    ensures
        final(s)@ == old(s)@.push(c),
{
    s.push(c);
}

/// The characters of `s`, in order.
pub fn chars_of(s: &str) -> (v: Vec<char>)
    ensures
        v@ == s@,
{
    let n = s.unicode_len();
    let mut v: Vec<char> = Vec::new();
    let mut i: usize = 0;
    while i < n
        invariant
            n == s@.len(),
            i <= n,
            v@ == s@.take(i as int),
        decreases n - i,
    {
        let c = s.get_char(i);
        v.push(c);
        i = i + 1;
        assert(v@ =~= s@.take(i as int));
    }
    assert(s@.take(n as int) =~= s@);
    v
}

/// A string made of the characters `v[from..to]`.
pub fn string_of(v: &Vec<char>, from: usize, to: usize) -> (s: String)
    requires
        from <= to <= v@.len(),
    ensures
        s@ == v@.subrange(from as int, to as int),
{
    let mut s = String::new();
    let mut i: usize = from;
    while i < to
        invariant
            from <= i <= to <= v@.len(),
            s@ == v@.subrange(from as int, i as int),
        decreases to - i,
    {
        push_char(&mut s, v[i]);
        i = i + 1;
        assert(s@ =~= v@.subrange(from as int, i as int));
    }
    s
}


/// The three dots appended to a shortened text.
pub open spec fn ellipsis() -> Seq<char> {
    seq!['.', '.', '.']
}

/// `s` cut to `max` characters with `...` appended when it is longer than
/// `max`; a negative `max` turns shortening off.
pub open spec fn shortened(max: i32, s: Seq<char>) -> Seq<char> {
    if max < 0 {
        s
    } else if s.len() > max {
        s.take(max as int) + ellipsis()
    } else {
        s
    }
}

/// Shortens `s` to at most `max_len_before_shortening` characters, appending
/// `...` when it was cut; a negative limit leaves `s` as it is.
pub fn shorten(max_len_before_shortening: i32, s: &str) -> (res: String)
    ensures
        res@ == shortened(max_len_before_shortening, s@),
{
    let v = chars_of(s);
    if max_len_before_shortening < 0 {
        return string_of(&v, 0, v.len());
    }
    let max_len = max_len_before_shortening as usize;
    if v.len() > max_len {
        let mut res = string_of(&v, 0, max_len);
        push_char(&mut res, '.');
        push_char(&mut res, '.');
        push_char(&mut res, '.');
        assert(res@ =~= s@.take(max_len as int) + ellipsis());
        res
    } else {
        let res = string_of(&v, 0, v.len());
        assert(res@ =~= s@);
        res
    }
}

/// Shortening twice with the same limit gives what shortening once gives.
pub proof fn lemma_shorten_idempotent(max: i32, s: Seq<char>)
    ensures
        shortened(max, shortened(max, s)) == shortened(max, s),
{
    if max >= 0 && s.len() > max {
        let once = s.take(max as int) + ellipsis();
        assert(once.take(max as int) =~= s.take(max as int));
    }
}

/// A shortened text never has more than the limit plus three characters,
/// and it keeps the text's first characters.
pub proof fn lemma_shorten_bounds(max: i32, s: Seq<char>)
    requires
        max >= 0,
    ensures
        shortened(max, s).len() <= max + 3,
        s.len() <= max ==> shortened(max, s) == s,
        forall|i: int| 0 <= i < max && i < s.len() ==> #[trigger] shortened(max, s)[i] == s[i],
{
}


/// The decimal digit character for `d` (`0 <= d < 10`).
pub open spec fn digit_char(d: int) -> char {
    (d + 48) as char
}

/// Whether `c` is an ASCII decimal digit.
pub open spec fn is_digit(c: char) -> bool {
    '0' <= c && c <= '9'
}

/// The value of the ASCII digit `c`.
pub open spec fn digit_value(c: char) -> int {
    c as int - 48
}

/// The decimal digits of `n`, most significant first, with no leading zeros.
pub open spec fn nat_digits(n: nat) -> Seq<char>
    decreases n,
{
    if n < 10 {
        seq![digit_char(n as int)]
    } else {
        nat_digits(n / 10).push(digit_char(n as int % 10))
    }
}

/// The decimal form of `n`: a `-` for negative numbers, then the digits.
pub open spec fn decimal(n: int) -> Seq<char> {
    if n < 0 {
        seq!['-'] + nat_digits((-n) as nat)
    } else {
        nat_digits(n as nat)
    }
}

/// Whether every character of `s` is a decimal digit.
pub open spec fn all_digits(s: Seq<char>) -> bool {
    forall|i: int| 0 <= i < s.len() ==> #[trigger] is_digit(s[i])
}

/// The value of a string of decimal digits.
pub open spec fn digits_value(s: Seq<char>) -> int
    decreases s.len(),
{
    if s.len() == 0 {
        0
    } else {
        digits_value(s.drop_last()) * 10 + digit_value(s.last())
    }
}

/// The integer that `s` spells: an optional `+` or `-`, then at least one
/// decimal digit and nothing else; `None` for anything else.
pub open spec fn integer_text(s: Seq<char>) -> Option<int> {
    if s.len() > 0 && (s[0] == '-' || s[0] == '+') {
        let d = s.skip(1);
        if d.len() > 0 && all_digits(d) {
            if s[0] == '-' {
                Some(-digits_value(d))
            } else {
                Some(digits_value(d))
            }
        } else {
            None
        }
    } else if s.len() > 0 && all_digits(s) {
        Some(digits_value(s))
    } else {
        None
    }
}

/// The integer that `s` spells when it lies in `lo..=hi`, as `str::parse`
/// reads a fixed-width integer.
pub open spec fn integer_in_range(s: Seq<char>, lo: int, hi: int) -> Option<int> {
    match integer_text(s) {
        Some(v) => if lo <= v <= hi {
            Some(v)
        } else {
            None
        },
        None => None,
    }
}

proof fn lemma_digits_nonneg(s: Seq<char>)
    requires
        all_digits(s),
    ensures
        digits_value(s) >= 0,
    decreases s.len(),
{
    if s.len() > 0 {
        assert(is_digit(s[s.len() - 1]));
        lemma_digits_nonneg(s.drop_last());
    }
}

proof fn lemma_prefix_value_le(s: Seq<char>, i: int)
    requires
        all_digits(s),
        0 <= i <= s.len(),
    ensures
        digits_value(s.take(i)) <= digits_value(s),
    decreases s.len(),
{
    assert(s.take(s.len() as int) =~= s);
    if i < s.len() {
        let p = s.drop_last();
        assert(all_digits(p)) by {
            assert forall|j: int| 0 <= j < p.len() implies #[trigger] is_digit(p[j]) by {
                assert(is_digit(s[j]));
            }
        }
        lemma_prefix_value_le(p, i);
        assert(p.take(i) =~= s.take(i));
        assert(is_digit(s[s.len() - 1]));
        lemma_digits_nonneg(p);
    }
}

proof fn lemma_nat_digits_all_digits(n: nat)
    ensures
        all_digits(nat_digits(n)),
        nat_digits(n).len() > 0,
        digits_value(nat_digits(n)) == n,
    decreases n,
{
    if n < 10 {
        let d = nat_digits(n);
        assert(d.drop_last() =~= Seq::<char>::empty());
        assert(digits_value(Seq::<char>::empty()) == 0);
        assert(digit_value(digit_char(n as int)) == n);
        assert(digits_value(d) == digits_value(d.drop_last()) * 10 + digit_value(d.last()));
        assert(is_digit(d[0]));
    } else {
        lemma_nat_digits_all_digits(n / 10);
        assert(digit_value(digit_char(n as int % 10)) == n % 10);
        assert(nat_digits(n).last() == digit_char(n as int % 10));
        assert((n / 10) * 10 + n % 10 == n);
        let p = nat_digits(n / 10);
        let d = nat_digits(n);
        assert(d.drop_last() =~= p);
        assert(digits_value(d) == digits_value(d.drop_last()) * 10 + digit_value(d.last()));
        assert forall|j: int| 0 <= j < d.len() implies #[trigger] is_digit(d[j]) by {
            if j < p.len() {
                assert(is_digit(p[j]));
            }
        }
    }
}

/// Reading back the decimal form of an integer gives that integer.
pub proof fn lemma_decimal_roundtrip(n: int)
    ensures
        integer_text(decimal(n)) == Some(n),
{
    if n < 0 {
        let m = (-n) as nat;
        lemma_nat_digits_all_digits(m);
        assert(decimal(n).skip(1) =~= nat_digits(m));
    } else {
        lemma_nat_digits_all_digits(n as nat);
        assert(is_digit(nat_digits(n as nat)[0]));
    }
}

fn push_digits(s: &mut String, m: u64)
    ensures
        final(s)@ == old(s)@ + nat_digits(m as nat),
    decreases m,
{
    if m >= 10 {
        push_digits(s, m / 10);
    }
    let d: u64 = m % 10;
    let c = ((d as u8) + 48u8) as char;
    push_char(s, c);
    assert(final(s)@ =~= old(s)@ + nat_digits(m as nat));
}

/// The decimal form of `n`, as `i64::to_string` writes it.
pub fn i64_to_string(n: i64) -> (res: String)
    ensures
        res@ == decimal(n as int),
{
    let mut s = String::new();
    if n < 0 {
        push_char(&mut s, '-');
        let m: u64 = (-(n as i128)) as u64;
        push_digits(&mut s, m);
        assert(s@ =~= decimal(n as int));
    } else {
        push_digits(&mut s, n as u64);
        assert(s@ =~= decimal(n as int));
    }
    s
}

/// Reads `s` as a 64-bit signed integer, as `str::parse::<i64>` does: an
/// optional sign and at least one decimal digit, within `i64`'s range.
pub fn parse_i64(s: &str) -> (res: Option<i64>)
    ensures
        res matches Some(v) ==> integer_in_range(s@, i64::MIN as int, i64::MAX as int) == Some(
            v as int,
        ),
        res is None ==> integer_in_range(s@, i64::MIN as int, i64::MAX as int) is None,
{
    let v = chars_of(s);
    let n = v.len();
    if n == 0 {
        return None;
    }
    let negative = v[0] == '-';
    let start: usize = if v[0] == '-' || v[0] == '+' { 1 } else { 0 };
    if start == n {
        return None;
    }
    let limit: u64 = if negative { 9223372036854775808u64 } else { 9223372036854775807u64 };
    let ghost d = s@.skip(start as int);
    let mut acc: u64 = 0;
    let mut i: usize = start;
    while i < n
        invariant
            v@ == s@,
            n == v@.len(),
            start <= i <= n,
            start < n,
            s@.len() > 0,
            start == (if s@[0] == '-' || s@[0] == '+' { 1usize } else { 0usize }),
            negative == (s@[0] == '-'),
            d == s@.skip(start as int),
            all_digits(d.take(i - start)),
            acc as int == digits_value(d.take(i - start)),
            acc <= limit,
            limit == if negative { 9223372036854775808u64 } else { 9223372036854775807u64 },
        decreases n - i,
    {
        let c = v[i];
        if !('0' <= c && c <= '9') {
            proof {
                assert(d[i - start] == c);
                assert(!is_digit(d[i - start]));
                assert(!all_digits(d));
                if start == 0 {
                    assert(d =~= s@);
                }
                assert(!all_digits(s@));
            }
            return None;
        }
        let dv: u64 = ((c as u32) - 48) as u64;
        assert(d.take(i - start + 1).drop_last() =~= d.take(i - start));
        if acc > (limit - dv) / 10 {
            proof {
                assert(all_digits(d.take(i - start + 1))) by {
                    let t = d.take(i - start + 1);
                    assert forall|j: int| 0 <= j < t.len() implies #[trigger] is_digit(t[j]) by {
                        if j < i - start {
                            assert(is_digit(d.take(i - start)[j]));
                        }
                    }
                }
                assert(digits_value(d.take(i - start + 1)) > limit);
                if all_digits(d) {
                    lemma_prefix_value_le(d, i - start + 1);
                }
                if start == 0 {
                    assert(d =~= s@);
                }
            }
            return None;
        }
        acc = acc * 10 + dv;
        i = i + 1;
        proof {
            let t = d.take(i - start);
            assert forall|j: int| 0 <= j < t.len() implies #[trigger] is_digit(t[j]) by {
                if j < i - 1 - start {
                    assert(is_digit(d.take(i - 1 - start)[j]));
                }
            }
        }
    }
    proof {
        assert(d.take(n - start) =~= d);
        if start == 0 {
            assert(d =~= s@);
        }
    }
    if negative {
        Some((-(acc as i128)) as i64)
    } else {
        Some(acc as i64)
    }
}


/// Whether `a` and `b` hold the same characters.
pub fn str_eq(a: &str, b: &str) -> (res: bool)
    ensures
        res == (a@ == b@),
{
    let av = chars_of(a);
    let bv = chars_of(b);
    if av.len() != bv.len() {
        return false;
    }
    let mut i: usize = 0;
    while i < av.len()
        invariant
            av@ == a@,
            bv@ == b@,
            av@.len() == bv@.len(),
            i <= av@.len(),
            forall|j: int| 0 <= j < i ==> av@[j] == bv@[j],
        decreases av.len() - i,
    {
        if av[i] != bv[i] {
            return false;
        }
        i = i + 1;
    }
    assert(av@ =~= bv@);
    true
}

/// Whether `p` occurs in `v` at index `i`.
pub open spec fn occurs_at(v: Seq<char>, i: int, p: Seq<char>) -> bool {
    0 <= i && i + p.len() <= v.len() && v.subrange(i, i + p.len()) == p
}

/// Whether `p` occurs in `v` at index `i`.
pub fn matches_at(v: &Vec<char>, i: usize, p: &Vec<char>) -> (res: bool)
    ensures
        res == occurs_at(v@, i as int, p@),
{
    if i > v.len() || p.len() > v.len() - i {
        return false;
    }
    let mut j: usize = 0;
    while j < p.len()
        invariant
            i + p@.len() <= v.len(),
            j <= p@.len(),
            forall|k: int| 0 <= k < j ==> v@[i + k] == p@[k],
        decreases p.len() - j,
    {
        if v[i + j] != p[j] {
            assert(v@.subrange(i as int, i + p@.len())[j as int] != p@[j as int]);
            return false;
        }
        j = j + 1;
    }
    assert(v@.subrange(i as int, i + p@.len()) =~= p@);
    true
}

/// Whether `s` begins with `prefix`.
pub fn starts_with(s: &str, prefix: &str) -> (res: bool)
    ensures
        res == occurs_at(s@, 0, prefix@),
{
    let v = chars_of(s);
    let p = chars_of(prefix);
    matches_at(&v, 0, &p)
}

/// `s` with every occurrence of `pat` replaced by `rep`, scanning from the
/// left and never letting two occurrences overlap, as `str::replace` does
/// for a non-empty pattern.
pub open spec fn replaced(s: Seq<char>, pat: Seq<char>, rep: Seq<char>) -> Seq<char>
    decreases s.len(),
{
    if pat.len() == 0 || s.len() < pat.len() {
        s
    } else if s.take(pat.len() as int) == pat {
        rep + replaced(s.skip(pat.len() as int), pat, rep)
    } else {
        seq![s[0]] + replaced(s.skip(1), pat, rep)
    }
}

/// Replaces every non-overlapping occurrence of `pat` in `s`, leftmost
/// first, by `rep`.
pub fn replace(s: &str, pat: &str, rep: &str) -> (res: String)
    requires
        pat@.len() > 0,
    ensures
        res@ == replaced(s@, pat@, rep@),
{
    let sv = chars_of(s);
    let pv = chars_of(pat);
    let rv = chars_of(rep);
    let n = sv.len();
    let m = pv.len();
    let mut out = String::new();
    let mut i: usize = 0;
    assert(s@.skip(0) =~= s@);
    while i < n && m <= n - i
        invariant
            sv@ == s@,
            pv@ == pat@,
            rv@ == rep@,
            n == sv@.len(),
            m == pv@.len(),
            m > 0,
            i <= n,
            out@ + replaced(s@.skip(i as int), pat@, rep@) == replaced(s@, pat@, rep@),
        decreases n - i,
    {
        let ghost rest = s@.skip(i as int);
        if matches_at(&sv, i, &pv) {
            assert(rest.take(m as int) =~= sv@.subrange(i as int, i + m));
            assert(rest.skip(m as int) =~= s@.skip(i + m));
            out.append(rep);
            i = i + m;
            assert(out@ + replaced(s@.skip(i as int), pat@, rep@) =~= replaced(s@, pat@, rep@));
        } else {
            assert(rest.take(m as int) =~= sv@.subrange(i as int, i + m));
            assert(rest.skip(1) =~= s@.skip(i + 1));
            let ghost before = out@;
            push_char(&mut out, sv[i]);
            i = i + 1;
            assert(out@ + replaced(s@.skip(i as int), pat@, rep@) =~= before + (seq![rest[0]]
                + replaced(rest.skip(1), pat@, rep@)));
        }
    }
    let tail = string_of(&sv, i, n);
    let mut res = out;
    assert(s@.skip(i as int) =~= sv@.subrange(i as int, n as int));
    assert(replaced(s@.skip(i as int), pat@, rep@) == s@.skip(i as int));
    res.append(tail.as_str());
    res
}

/// The part of `s` between a leading `open` and a trailing `close`
/// character, when `s` has both and they are different characters of it.
pub open spec fn circumfix_inner(s: Seq<char>, open: char, close: char) -> Option<Seq<char>> {
    if s.len() >= 2 && s[0] == open && s[s.len() - 1] == close {
        Some(s.subrange(1, s.len() - 1))
    } else {
        None
    }
}

/// Strips a leading `open` and a trailing `close` character from `s`, as
/// `str::strip_circumfix` does for one-character affixes.
pub fn strip_circumfix(s: &str, open: char, close: char) -> (res: Option<String>)
    ensures
        res matches Some(r) ==> circumfix_inner(s@, open, close) == Some(r@),
        res is None ==> circumfix_inner(s@, open, close) is None,
{
    let v = chars_of(s);
    let n = v.len();
    if n >= 2 && v[0] == open && v[n - 1] == close {
        Some(string_of(&v, 1, n - 1))
    } else {
        None
    }
}

/// `words` put one after another with `sep` between each two of them.
pub open spec fn joined(words: Seq<Seq<char>>, sep: Seq<char>) -> Seq<char>
    decreases words.len(),
{
    if words.len() == 0 {
        Seq::empty()
    } else if words.len() == 1 {
        words[0]
    } else {
        joined(words.drop_last(), sep) + sep + words.last()
    }
}

/// The views of a list of strings.
pub open spec fn string_views(words: Seq<String>) -> Seq<Seq<char>> {
    words.map_values(|w: String| w@)
}

/// Joins `words` with `sep` between each two of them, as `[String]::join`
/// does.
pub fn join(words: &Vec<String>, sep: &str) -> (res: String)
    ensures
        res@ == joined(string_views(words@), sep@),
{
    let ghost views = string_views(words@);
    let mut res = String::new();
    let mut i: usize = 0;
    while i < words.len()
        invariant
            views == string_views(words@),
            i <= words@.len(),
            res@ == joined(views.take(i as int), sep@),
        decreases words.len() - i,
    {
        assert(views.take(i + 1).drop_last() =~= views.take(i as int));
        if i > 0 {
            res.append(sep);
        }
        res.append(words[i].as_str());
        i = i + 1;
        assert(views.take(i as int).last() == words@[i - 1]@);
        if i == 1 {
            assert(views.take(1)[0] == words@[0]@);
        }
    }
    assert(views.take(words.len() as int) =~= views);
    res
}


/// Replacing a pattern that does not occur leaves the text as it is.
pub proof fn lemma_replace_absent(s: Seq<char>, pat: Seq<char>, rep: Seq<char>)
    requires
        forall|i: int| !#[trigger] occurs_at(s, i, pat),
    ensures
        replaced(s, pat, rep) == s,
    decreases s.len(),
{
    if pat.len() > 0 && s.len() >= pat.len() {
        assert(s.take(pat.len() as int) != pat) by {
            assert(!occurs_at(s, 0, pat));
            assert(s.subrange(0, pat.len() as int) =~= s.take(pat.len() as int));
        }
        let t = s.skip(1);
        assert forall|i: int| !#[trigger] occurs_at(t, i, pat) by {
            if occurs_at(t, i, pat) {
                assert(s.subrange(i + 1, i + 1 + pat.len()) =~= t.subrange(i, i + pat.len()));
                assert(occurs_at(s, i + 1, pat));
            }
        }
        lemma_replace_absent(t, pat, rep);
        assert(seq![s[0]] + t =~= s);
    }
}

} // verus!
