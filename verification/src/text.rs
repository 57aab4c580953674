//! Character-level text utilities with their mathematical models.

use vstd::prelude::*;

verus! {

/// `String::push` appends one character.
pub assume_specification[ String::push ](s: &mut String, ch: char)
    ensures
        final(s)@ == old(s)@.push(ch),
;

/// The decimal digit character for a value below ten.
pub open spec fn digit_char(d: nat) -> char {
    if d == 0 { '0' }
    else if d == 1 { '1' }
    else if d == 2 { '2' }
    else if d == 3 { '3' }
    else if d == 4 { '4' }
    else if d == 5 { '5' }
    else if d == 6 { '6' }
    else if d == 7 { '7' }
    else if d == 8 { '8' }
    else { '9' }
}

/// True for the ASCII digits `0` to `9`.
pub open spec fn is_digit(c: char) -> bool {
    '0' <= c && c <= '9'
}

/// The value of an ASCII digit.
pub open spec fn digit_value(c: char) -> nat {
    ((c as int) - ('0' as int)) as nat
}

/// Decimal digits of a natural number, most significant first, without leading zeros.
pub open spec fn nat_text(n: nat) -> Seq<char>
    decreases n,
{
    if n < 10 {
        seq![digit_char(n)]
    } else {
        nat_text(n / 10).push(digit_char(n % 10))
    }
}

/// Decimal text of an integer, as `Display` writes it: a `-` before negative numbers.
pub open spec fn int_text(i: int) -> Seq<char> {
    if i < 0 {
        seq!['-'] + nat_text((-i) as nat)
    } else {
        nat_text(i as nat)
    }
}

/// The characters of a string slice, one by one.
pub fn chars_of(s: &str) -> (v: Vec<char>)
    ensures
        v@ == s@,
{
    let n: usize = s.unicode_len();
    let mut v: Vec<char> = Vec::new();
    let mut i: usize = 0;
    while i < n
        invariant
            n == s@.len(),
            i <= n,
            v@ == s@.take(i as int),
        decreases n - i,
    {
        v.push(s.get_char(i));
        i = i + 1;
        assert(v@ =~= s@.take(i as int));
    }
    assert(v@ =~= s@);
    v
}

fn digit_to_char(d: u64) -> (c: char)
    requires
        d < 10,
    ensures
        c == digit_char(d as nat),
        is_digit(c),
        digit_value(c) == d,
{
    if d == 0 { '0' }
    else if d == 1 { '1' }
    else if d == 2 { '2' }
    else if d == 3 { '3' }
    else if d == 4 { '4' }
    else if d == 5 { '5' }
    else if d == 6 { '6' }
    else if d == 7 { '7' }
    else if d == 8 { '8' }
    else { '9' }
}

fn push_nat_text(s: &mut String, n: u64)
    ensures
        final(s)@ == old(s)@ + nat_text(n as nat),
    decreases n,
{
    if n >= 10 {
        push_nat_text(s, n / 10);
    }
    let c: char = digit_to_char(n % 10);
    s.push(c);
}

/// Appends the decimal text of `i` to `s`.
pub fn push_int_text(s: &mut String, i: i64)
    ensures
        final(s)@ == old(s)@ + int_text(i as int),
{
    if i < 0 {
        s.push('-');
        let mag: u64 = if i == i64::MIN { 9223372036854775808u64 } else { (-i) as u64 };
        push_nat_text(s, mag);
        assert(final(s)@ =~= old(s)@ + int_text(i as int));
    } else {
        push_nat_text(s, i as u64);
    }
}

/// The decimal text of `i`, as `i.to_string()` gives it.
pub fn int_to_text(i: i64) -> (res: String)
    ensures
        res@ == int_text(i as int),
{
    let mut s: String = String::new();
    push_int_text(&mut s, i);
    assert(s@ =~= int_text(i as int));
    s
}


/// True when every character is an ASCII digit.
pub open spec fn all_digits(s: Seq<char>) -> bool {
    forall|i: int| 0 <= i < s.len() ==> #[trigger] is_digit(s[i])
}

/// The value of a run of decimal digits (zero for the empty run).
pub open spec fn digits_value(s: Seq<char>) -> nat
    decreases s.len(),
{
    if s.len() == 0 {
        0
    } else {
        digits_value(s.drop_last()) * 10 + digit_value(s.last())
    }
}

/// What `str::parse::<i64>` accepts and gives back: an optional `+` or `-`,
/// then at least one ASCII digit and nothing else, with a value that fits in `i64`.
pub open spec fn parse_int_text(s: Seq<char>) -> Option<int> {
    if s.len() == 0 {
        None
    } else {
        let signed = s[0] == '-' || s[0] == '+';
        let body = if signed { s.drop_first() } else { s };
        let magnitude = digits_value(body) as int;
        let v = if s[0] == '-' { -magnitude } else { magnitude };
        if body.len() == 0 || !all_digits(body) || v < i64::MIN || v > i64::MAX {
            None
        } else {
            Some(v)
        }
    }
}

proof fn lemma_digits_value_prefix(s: Seq<char>, k: int)
    requires
        0 <= k <= s.len(),
    ensures
        digits_value(s.take(k)) <= digits_value(s),
    decreases s.len(),
{
    if k < s.len() {
        lemma_digits_value_prefix(s.drop_last(), k);
        assert(s.drop_last().take(k) =~= s.take(k));
    } else {
        assert(s.take(k) =~= s);
    }
}

proof fn lemma_digit_char(d: nat)
    requires
        d < 10,
    ensures
        is_digit(digit_char(d)),
        digit_value(digit_char(d)) == d,
{
}

proof fn lemma_nat_text(n: nat)
    ensures
        nat_text(n).len() >= 1,
        all_digits(nat_text(n)),
        digits_value(nat_text(n)) == n,
    decreases n,
{
    lemma_digit_char(n % 10);
    if n >= 10 {
        lemma_nat_text(n / 10);
        let t = nat_text(n / 10);
        assert(nat_text(n).drop_last() =~= t);
        assert(nat_text(n).last() == digit_char(n % 10));
        assert(n == (n / 10) * 10 + n % 10);
        assert(digits_value(nat_text(n)) == digits_value(t) * 10 + digit_value(digit_char(n % 10)));
        assert forall|i: int| 0 <= i < nat_text(n).len() implies #[trigger] is_digit(nat_text(n)[i]) by {
            if i < t.len() {
                assert(nat_text(n)[i] == t[i]);
            }
        }
    } else {
        assert(nat_text(n).drop_last() =~= Seq::<char>::empty());
        assert(digits_value(Seq::<char>::empty()) == 0);
        assert(digits_value(nat_text(n)) == n);
    }
}

/// Reading back the decimal text of an `i64` gives the same number: the
/// `user_id` cookie written at login names the user it was written for.
pub proof fn lemma_int_text_roundtrip(i: int)
    requires
        i64::MIN <= i <= i64::MAX,
    ensures
        parse_int_text(int_text(i)) == Some(i),
{
    if i < 0 {
        lemma_nat_text((-i) as nat);
        assert((seq!['-'] + nat_text((-i) as nat)).drop_first() =~= nat_text((-i) as nat));
    } else {
        lemma_nat_text(i as nat);
        assert(is_digit(nat_text(i as nat)[0]));
    }
}

/// Parses a decimal `i64` the way `str::parse::<i64>` does.
pub fn parse_i64(s: &str) -> (res: Option<i64>)
    ensures
        match res {
            Some(v) => parse_int_text(s@) == Some(v as int),
            None => parse_int_text(s@) is None,
        },
{
    let v: Vec<char> = chars_of(s);
    let n: usize = v.len();
    if n == 0 {
        return None;
    }
    let first: char = v[0];
    let negative: bool = first == '-';
    let start: usize = if first == '-' || first == '+' { 1 } else { 0 };
    let ghost body: Seq<char> = if start == 1 { s@.drop_first() } else { s@ };
    assert(body =~= s@.subrange(start as int, n as int));
    if start == n {
        return None;
    }
    let mut acc: u128 = 0;
    let mut j: usize = start;
    while j < n
        invariant
            v@ == s@,
            n == v@.len(),
            n > 0,
            start <= j <= n,
            body == (if s@[0] == '-' || s@[0] == '+' { s@.drop_first() } else { s@ }),
            negative == (s@[0] == '-'),
            body =~= s@.subrange(start as int, n as int),
            all_digits(body.take(j - start)),
            acc == digits_value(body.take(j - start)),
            acc <= 9223372036854775808u128,
        decreases n - j,
    {
        let c: char = v[j];
        if !('0' <= c && c <= '9') {
            assert(body[j - start] == c);
            assert(!is_digit(body[j - start]));
            assert(!all_digits(body));
            return None;
        }
        let d: u128 = ((c as u32) - 48) as u128;
        acc = acc * 10 + d;
        j = j + 1;
        assert(body.take(j - start).drop_last() =~= body.take(j - start - 1));
        assert forall|k: int| 0 <= k < body.take(j - start).len() implies #[trigger] is_digit(body.take(j - start)[k]) by {
            if k < j - start - 1 {
                assert(body.take(j - start)[k] == body.take(j - start - 1)[k]);
            }
        }
        if acc > 9223372036854775808u128 {
            proof {
                lemma_digits_value_prefix(body, j - start);
                assert(digits_value(body) > 9223372036854775808);
            }
            return None;
        }
    }
    assert(body.take(n - start) =~= body);
    if negative {
        if acc == 9223372036854775808u128 {
            Some(i64::MIN)
        } else {
            Some(-(acc as i64))
        }
    } else {
        if acc == 9223372036854775808u128 {
            None
        } else {
            Some(acc as i64)
        }
    }
}


/// The Unicode `White_Space` characters, which `char::is_whitespace` accepts.
pub open spec fn is_space(c: char) -> bool {
    ||| ('\u{9}' <= c && c <= '\u{d}')
    ||| c == ' '
    ||| c == '\u{85}'
    ||| c == '\u{a0}'
    ||| c == '\u{1680}'
    ||| ('\u{2000}' <= c && c <= '\u{200a}')
    ||| c == '\u{2028}'
    ||| c == '\u{2029}'
    ||| c == '\u{202f}'
    ||| c == '\u{205f}'
    ||| c == '\u{3000}'
}

/// Whether `c` is white space, as `char::is_whitespace` decides.
pub fn is_whitespace(c: char) -> (res: bool)
    ensures
        res == is_space(c),
{
    ('\u{9}' <= c && c <= '\u{d}') || c == ' ' || c == '\u{85}' || c == '\u{a0}' || c == '\u{1680}'
        || ('\u{2000}' <= c && c <= '\u{200a}') || c == '\u{2028}' || c == '\u{2029}'
        || c == '\u{202f}' || c == '\u{205f}' || c == '\u{3000}'
}

/// `s` without its leading white space.
pub open spec fn trim_start(s: Seq<char>) -> Seq<char>
    decreases s.len(),
{
    if s.len() > 0 && is_space(s[0]) {
        trim_start(s.drop_first())
    } else {
        s
    }
}

/// `s` without its trailing white space.
pub open spec fn trim_end(s: Seq<char>) -> Seq<char>
    decreases s.len(),
{
    if s.len() > 0 && is_space(s.last()) {
        trim_end(s.drop_last())
    } else {
        s
    }
}

/// `s` without leading and trailing white space, as `str::trim` gives it.
pub open spec fn trim(s: Seq<char>) -> Seq<char> {
    trim_end(trim_start(s))
}

/// The pieces of `s` between occurrences of `sep`, as `str::split` yields them
/// (one empty piece for the empty text).
pub open spec fn split_on(s: Seq<char>, sep: char) -> Seq<Seq<char>>
    decreases s.len(),
{
    if s.len() == 0 {
        seq![Seq::<char>::empty()]
    } else {
        let prev = split_on(s.drop_last(), sep);
        if s.last() == sep {
            prev.push(Seq::<char>::empty())
        } else {
            prev.update(prev.len() - 1, prev.last().push(s.last()))
        }
    }
}

/// The pieces joined with `sep` between each two, as `[String]::join` does.
pub open spec fn join(parts: Seq<Seq<char>>, sep: Seq<char>) -> Seq<char>
    decreases parts.len(),
{
    if parts.len() == 0 {
        Seq::<char>::empty()
    } else if parts.len() == 1 {
        parts[0]
    } else {
        join(parts.drop_last(), sep) + sep + parts.last()
    }
}

/// The pieces one after the other.
pub open spec fn concat(parts: Seq<Seq<char>>) -> Seq<char>
    decreases parts.len(),
{
    if parts.len() == 0 {
        Seq::<char>::empty()
    } else {
        concat(parts.drop_last()) + parts.last()
    }
}

/// True when `needle` occurs in `hay` as a contiguous run.
pub open spec fn contains_text(hay: Seq<char>, needle: Seq<char>) -> bool {
    exists|i: int| 0 <= i <= hay.len() - needle.len() && #[trigger] hay.subrange(i, i + needle.len()) == needle
}

/// `s` with every `"` written as `&quot;`.
pub open spec fn escape_quotes(s: Seq<char>) -> Seq<char>
    decreases s.len(),
{
    if s.len() == 0 {
        Seq::<char>::empty()
    } else if s.last() == '"' {
        escape_quotes(s.drop_last()) + "&quot;"@
    } else {
        escape_quotes(s.drop_last()).push(s.last())
    }
}

/// Appends the characters `v[lo..hi]` to `s`.
pub fn push_range(s: &mut String, v: &Vec<char>, lo: usize, hi: usize)
    requires
        lo <= hi <= v@.len(),
    ensures
        final(s)@ == old(s)@ + v@.subrange(lo as int, hi as int),
{
    let mut i: usize = lo;
    while i < hi
        invariant
            lo <= i <= hi <= v@.len(),
            s@ == old(s)@ + v@.subrange(lo as int, i as int),
        decreases hi - i,
    {
        s.push(v[i]);
        i = i + 1;
        assert(s@ =~= old(s)@ + v@.subrange(lo as int, i as int));
    }
}

/// An owned copy of a string slice.
pub fn owned(t: &str) -> (res: String)
    ensures
        res@ == t@,
{
    let mut s: String = String::new();
    s.append(t);
    assert(s@ =~= t@);
    s
}

/// `v` trimmed of white space at both ends.
pub fn trimmed(v: &Vec<char>) -> (res: String)
    ensures
        res@ == trim(v@),
{
    let n: usize = v.len();
    let mut lo: usize = 0;
    assert(v@.subrange(0, n as int) =~= v@);
    while lo < n && is_whitespace(v[lo])
        invariant
            n == v@.len(),
            lo <= n,
            trim_start(v@) == trim_start(v@.subrange(lo as int, n as int)),
        decreases n - lo,
    {
        assert(v@.subrange(lo as int, n as int).drop_first() =~= v@.subrange(lo + 1, n as int));
        lo = lo + 1;
    }
    assert(trim_start(v@) == v@.subrange(lo as int, n as int));
    let mut hi: usize = n;
    while hi > lo && is_whitespace(v[hi - 1])
        invariant
            n == v@.len(),
            lo <= hi <= n,
            trim(v@) == trim_end(v@.subrange(lo as int, hi as int)),
        decreases hi - lo,
    {
        assert(v@.subrange(lo as int, hi as int).drop_last() =~= v@.subrange(lo as int, hi - 1));
        hi = hi - 1;
    }
    assert(trim(v@) == v@.subrange(lo as int, hi as int));
    let mut s: String = String::new();
    push_range(&mut s, v, lo, hi);
    assert(s@ =~= trim(v@));
    s
}

pub proof fn lemma_split_on_nonempty(s: Seq<char>, sep: char)
    ensures
        split_on(s, sep).len() >= 1,
    decreases s.len(),
{
    if s.len() > 0 {
        lemma_split_on_nonempty(s.drop_last(), sep);
    }
}

/// The pieces of `v` between occurrences of `sep`.
pub fn split_chars(v: &Vec<char>, sep: char) -> (res: Vec<Vec<char>>)
    ensures
        res.deep_view() == split_on(v@, sep),
{
    let n: usize = v.len();
    let mut done: Vec<Vec<char>> = Vec::new();
    let mut cur: Vec<char> = Vec::new();
    let mut i: usize = 0;
    assert(v@.take(0) =~= Seq::<char>::empty());
    assert(done.deep_view().push(cur@) =~= split_on(v@.take(0), sep));
    while i < n
        invariant
            n == v@.len(),
            i <= n,
            done.deep_view().push(cur@) == split_on(v@.take(i as int), sep),
        decreases n - i,
    {
        let c: char = v[i];
        let ghost before = done.deep_view();
        let ghost old_cur = cur@;
        assert(v@.take(i + 1).drop_last() =~= v@.take(i as int));
        assert(v@.take(i + 1).last() == c);
        if c == sep {
            done.push(cur);
            cur = Vec::new();
            assert(done@.last().deep_view() =~= old_cur);
            assert(done.deep_view() =~= before.push(old_cur));
            assert(done.deep_view().push(cur@) =~= split_on(v@.take(i + 1), sep));
        } else {
            cur.push(c);
            assert(done.deep_view().push(cur@) =~= before.push(old_cur).update(before.len() as int, old_cur.push(c)));
            assert(done.deep_view().push(cur@) =~= split_on(v@.take(i + 1), sep));
        }
        i = i + 1;
    }
    let ghost before = done.deep_view();
    let ghost last = cur@;
    done.push(cur);
    assert(v@.take(n as int) =~= v@);
    assert(done@.last().deep_view() =~= last);
    assert(done.deep_view() =~= before.push(last));
    done
}

/// The strings of `parts` joined with `sep` between each two.
pub fn join_strings(parts: &Vec<String>, sep: &str) -> (res: String)
    ensures
        res@ == join(parts.deep_view(), sep@),
{
    let mut res: String = String::new();
    let n: usize = parts.len();
    let mut i: usize = 0;
    while i < n
        invariant
            n == parts@.len(),
            i <= n,
            res@ == join(parts.deep_view().take(i as int), sep@),
        decreases n - i,
    {
        let ghost prev = parts.deep_view().take(i as int);
        if i > 0 {
            res.append(sep);
        }
        res.append(parts[i].as_str());
        i = i + 1;
        assert(parts.deep_view().take(i as int).drop_last() =~= prev);
        if i == 1 {
            assert(res@ =~= join(parts.deep_view().take(i as int), sep@));
        }
    }
    assert(parts.deep_view().take(n as int) =~= parts.deep_view());
    res
}

/// The strings of `parts` one after the other.
pub fn concat_strings(parts: &Vec<String>) -> (res: String)
    ensures
        res@ == concat(parts.deep_view()),
{
    let mut res: String = String::new();
    let n: usize = parts.len();
    let mut i: usize = 0;
    while i < n
        invariant
            n == parts@.len(),
            i <= n,
            res@ == concat(parts.deep_view().take(i as int)),
        decreases n - i,
    {
        let ghost prev = parts.deep_view().take(i as int);
        res.append(parts[i].as_str());
        i = i + 1;
        assert(parts.deep_view().take(i as int).drop_last() =~= prev);
    }
    assert(parts.deep_view().take(n as int) =~= parts.deep_view());
    res
}

/// Whether `needle` occurs in `hay`.
pub fn contains(hay: &str, needle: &str) -> (res: bool)
    ensures
        res == contains_text(hay@, needle@),
{
    let h: Vec<char> = chars_of(hay);
    let nd: Vec<char> = chars_of(needle);
    let hn: usize = h.len();
    let nn: usize = nd.len();
    if nn > hn {
        return false;
    }
    let mut i: usize = 0;
    while i <= hn - nn
        invariant
            h@ == hay@,
            nd@ == needle@,
            hn == h@.len(),
            nn == nd@.len(),
            nn <= hn,
            i <= hn - nn + 1,
            forall|k: int| 0 <= k < i ==> #[trigger] h@.subrange(k, k + nn) != nd@,
        decreases hn - nn + 1 - i,
    {
        let mut j: usize = 0;
        let mut same: bool = true;
        while j < nn
            invariant
                h@ == hay@,
                nd@ == needle@,
                hn == h@.len(),
                nn == nd@.len(),
                i + nn <= hn,
                j <= nn,
                same == (forall|m: int| 0 <= m < j ==> h@[i + m] == nd@[m]),
            decreases nn - j,
        {
            if h[i + j] != nd[j] {
                same = false;
            }
            j = j + 1;
        }
        if same {
            assert(h@.subrange(i as int, i + nn) =~= nd@);
            return true;
        }
        assert(h@.subrange(i as int, i + nn)[0] == h@[i as int]);
        assert(exists|m: int| 0 <= m < nn && h@[i + m] != nd@[m]);
        let ghost m = choose|m: int| 0 <= m < nn && h@[i + m] != nd@[m];
        assert(h@.subrange(i as int, i + nn)[m] != nd@[m]);
        i = i + 1;
    }
    false
}

/// `t` with every `"` written as `&quot;`, as `str::replace('"', "&quot;")` gives it.
pub fn escape_quotes_of(t: &str) -> (res: String)
    ensures
        res@ == escape_quotes(t@),
{
    let v: Vec<char> = chars_of(t);
    let n: usize = v.len();
    let mut res: String = String::new();
    let mut i: usize = 0;
    while i < n
        invariant
            n == v@.len(),
            v@ == t@,
            i <= n,
            res@ == escape_quotes(v@.take(i as int)),
        decreases n - i,
    {
        let c: char = v[i];
        assert(v@.take(i + 1).drop_last() =~= v@.take(i as int));
        if c == '"' {
            res.append("&quot;");
        } else {
            res.push(c);
        }
        i = i + 1;
    }
    assert(v@.take(n as int) =~= v@);
    res
}

/// Joining pieces that are all non-empty gives the empty text only for no pieces.
pub proof fn lemma_join_empty(parts: Seq<Seq<char>>, sep: Seq<char>)
    requires
        forall|i: int| 0 <= i < parts.len() ==> #[trigger] parts[i].len() > 0,
    ensures
        join(parts, sep).len() == 0 <==> parts.len() == 0,
    decreases parts.len(),
{
    if parts.len() > 1 {
        assert(parts.last().len() > 0);
    } else if parts.len() == 1 {
        assert(parts[0].len() > 0);
    }
}

/// Whether two texts are the same.
pub fn same_text(a: &str, b: &str) -> (res: bool)
    ensures
        res == (a@ == b@),
{
    let x: Vec<char> = chars_of(a);
    let y: Vec<char> = chars_of(b);
    if x.len() != y.len() {
        return false;
    }
    let n: usize = x.len();
    let mut i: usize = 0;
    while i < n
        invariant
            x@ == a@,
            y@ == b@,
            n == x@.len(),
            n == y@.len(),
            i <= n,
            forall|k: int| 0 <= k < i ==> x@[k] == y@[k],
        decreases n - i,
    {
        if x[i] != y[i] {
            return false;
        }
        i = i + 1;
    }
    assert(x@ =~= y@);
    true
}

} // verus!
