//! Character-level helpers shared by the parsers and the key builders.
use vstd::prelude::*;

verus! {

/// Every character of `s`, in order.
pub fn chars_of(s: &str) -> (v: Vec<char>)
    ensures
        v@ == s@,
{
    let mut v: Vec<char> = Vec::new();
    for c in it: s.chars()
        invariant
            v@ == it.seq().take(it.index() as int),
            it.seq() == s@,
    {
        v.push(c);
    }
    v
}

/// Unicode `White_Space`, the separator set of `str::split_whitespace`.
pub open spec fn is_space(c: char) -> bool {
    let u = c as u32;
    ||| 9 <= u <= 13
    ||| u == 32
    ||| u == 0x85
    ||| u == 0xa0
    ||| u == 0x1680
    ||| 0x2000 <= u <= 0x200a
    ||| u == 0x2028
    ||| u == 0x2029
    ||| u == 0x202f
    ||| u == 0x205f
    ||| u == 0x3000
}

pub fn space(c: char) -> (r: bool)
    ensures
        r == is_space(c),
{
    let u = c as u32;
    (9 <= u && u <= 13) || u == 32 || u == 0x85 || u == 0xa0 || u == 0x1680 || (0x2000 <= u && u
        <= 0x200a) || u == 0x2028 || u == 0x2029 || u == 0x202f || u == 0x205f || u == 0x3000
}

/// The end of the run of non-space characters that starts at `i`.
pub open spec fn word_end(s: Seq<char>, i: int) -> int
    decreases s.len() - i,
{
    if i < 0 || i >= s.len() || is_space(s[i]) {
        i
    } else {
        word_end(s, i + 1)
    }
}

pub proof fn lemma_word_end(s: Seq<char>, i: int)
    requires
        0 <= i <= s.len(),
    ensures
        i <= word_end(s, i) <= s.len(),
        i < s.len() && !is_space(s[i]) ==> i < word_end(s, i),
        forall|k: int| i <= k < word_end(s, i) ==> !is_space(#[trigger] s[k]),
        word_end(s, i) < s.len() ==> is_space(s[word_end(s, i)]),
    decreases s.len() - i,
{
    if i < s.len() && !is_space(s[i]) {
        lemma_word_end(s, i + 1);
    }
}

/// The whitespace-separated words of `s` from position `i` on, as
/// `str::split_whitespace` yields them.
pub open spec fn words_from(s: Seq<char>, i: int) -> Seq<Seq<char>>
    decreases s.len() - i,
{
    if i < 0 || i >= s.len() {
        Seq::empty()
    } else if is_space(s[i]) {
        words_from(s, i + 1)
    } else {
        let j = word_end(s, i);
        proof {
            lemma_word_end(s, i);
        }
        seq![s.subrange(i, j)] + words_from(s, j)
    }
}

pub open spec fn words(s: Seq<char>) -> Seq<Seq<char>> {
    words_from(s, 0)
}

/// The `(start, end)` positions of every word of `v`, in order.
pub fn word_bounds(v: &Vec<char>) -> (r: Vec<(usize, usize)>)
    ensures
        r@.len() == words(v@).len(),
        forall|k: int|
            0 <= k < r@.len() ==> r@[k].0 <= r@[k].1 <= v@.len() && #[trigger] words(v@)[k]
                == v@.subrange(r@[k].0 as int, r@[k].1 as int),
{
    let mut r: Vec<(usize, usize)> = Vec::new();
    let mut i: usize = 0;
    while i < v.len()
        invariant
            i <= v@.len(),
            forall|k: int| 0 <= k < r@.len() ==> (#[trigger] r@[k]).0 <= r@[k].1 <= v@.len(),
            r@.map_values(|p: (usize, usize)| v@.subrange(p.0 as int, p.1 as int)) + words_from(
                v@,
                i as int,
            ) == words(v@),
        decreases v@.len() - i,
    {
        let ghost before = r@;
        if space(v[i]) {
            assert(words_from(v@, i as int) == words_from(v@, i + 1));
            i = i + 1;
        } else {
            let mut j: usize = i + 1;
            while j < v.len() && !space(v[j])
                invariant
                    i < j <= v@.len(),
                    word_end(v@, j as int) == word_end(v@, i as int),
                decreases v@.len() - j,
            {
                j = j + 1;
            }
            assert(word_end(v@, j as int) == j as int);
            assert(words_from(v@, i as int) == seq![v@.subrange(i as int, j as int)]
                + words_from(v@, j as int));
            r.push((i, j));
            assert(r@.map_values(|p: (usize, usize)| v@.subrange(p.0 as int, p.1 as int))
                == before.map_values(|p: (usize, usize)| v@.subrange(p.0 as int, p.1 as int))
                + seq![v@.subrange(i as int, j as int)]);
            i = j;
        }
    }
    assert forall|k: int| 0 <= k < r@.len() implies #[trigger] words(v@)[k] == v@.subrange(
        r@[k].0 as int,
        r@[k].1 as int,
    ) by {
        assert(r@.map_values(|p: (usize, usize)| v@.subrange(p.0 as int, p.1 as int))[k]
            == v@.subrange(r@[k].0 as int, r@[k].1 as int));
    }
    r
}


pub open spec fn is_digit(c: char) -> bool {
    48 <= (c as u32) <= 57
}

pub open spec fn digit_char(d: nat) -> char {
    ((d + 48) as u8) as char
}

/// The value of a run of ASCII digits.
pub open spec fn digits_value(w: Seq<char>) -> nat
    decreases w.len(),
{
    if w.len() == 0 {
        0
    } else {
        digits_value(w.drop_last()) * 10 + ((w.last() as u32) - 48) as nat
    }
}

/// What `str::parse::<u64>` accepts: an optional `+`, then one or more ASCII
/// digits whose value fits in 64 bits.
pub open spec fn all_digits(d: Seq<char>) -> bool {
    forall|i: int| 0 <= i < d.len() ==> is_digit(#[trigger] d[i])
}

pub open spec fn unsigned_part(w: Seq<char>) -> Seq<char> {
    if w.len() > 0 && w[0] == '+' {
        w.drop_first()
    } else {
        w
    }
}

pub open spec fn parse_u64(w: Seq<char>) -> Option<u64> {
    let d = unsigned_part(w);
    if d.len() > 0 && all_digits(d) && digits_value(d) <= u64::MAX {
        Some(digits_value(d) as u64)
    } else {
        None
    }
}

/// The decimal representation of `n`, as `format!("{n}")` writes it.
pub open spec fn decimal(n: nat) -> Seq<char>
    decreases n,
{
    if n < 10 {
        seq![digit_char(n)]
    } else {
        decimal(n / 10).push(digit_char(n % 10))
    }
}

pub fn decimal_chars(n: u64) -> (r: Vec<char>)
    ensures
        r@ == decimal(n as nat),
    decreases n,
{
    let d = ((n % 10) as u8 + 48u8) as char;
    if n < 10 {
        let mut r: Vec<char> = Vec::new();
        r.push(d);
        r
    } else {
        let mut r = decimal_chars(n / 10);
        r.push(d);
        r
    }
}

/// `n` in decimal, as a string.
pub fn decimal_string(n: u64) -> (r: String)
    ensures
        r@ == decimal(n as nat),
    decreases n,
{
    let digits = "0123456789";
    proof {
        reveal_strlit("0123456789");
    }
    let d = (n % 10) as usize;
    let digit = digits.substring_char(d, d + 1);
    assert(digit@ == seq![digit_char(d as nat)]);
    if n < 10 {
        String::from_str(digit)
    } else {
        decimal_string(n / 10).concat(digit)
    }
}

/// Parses `v[a..b]` as `str::parse::<u64>` would.
pub fn parse_u64_at(v: &Vec<char>, a: usize, b: usize) -> (r: Option<u64>)
    requires
        a <= b <= v@.len(),
    ensures
        r == parse_u64(v@.subrange(a as int, b as int)),
{
    let ghost w = v@.subrange(a as int, b as int);
    let mut start = a;
    if a < b && v[a] == '+' {
        start = a + 1;
    }
    let ghost d = v@.subrange(start as int, b as int);
    assert(d == (if w.len() > 0 && w[0] == '+' {
        w.drop_first()
    } else {
        w
    }));
    if start == b {
        return None;
    }
    let mut acc: u64 = 0;
    let mut overflow = false;
    let mut k = start;
    while k < b
        invariant
            a <= start <= k <= b <= v@.len(),
            d == v@.subrange(start as int, b as int),
            w == v@.subrange(a as int, b as int),
            d == (if w.len() > 0 && w[0] == '+' {
                w.drop_first()
            } else {
                w
            }),
            d.len() > 0,
            forall|i: int| 0 <= i < k - start ==> is_digit(#[trigger] d[i]),
            !overflow ==> acc as nat == digits_value(d.take(k - start)),
            overflow ==> digits_value(d.take(k - start)) > u64::MAX,
        decreases b - k,
    {
        let c = v[k];
        assert(d[k - start] == c);
        let u = c as u32;
        if u < 48 || u > 57 {
            assert(!is_digit(d[k - start]));
            return None;
        }
        let ghost prev = d.take(k - start);
        assert(d.take(k - start + 1).drop_last() == prev);
        assert(d.take(k - start + 1).last() == c);
        let digit = (u - 48) as u64;
        if !overflow {
            if acc > (u64::MAX - digit) / 10 {
                overflow = true;
            } else {
                acc = acc * 10 + digit;
            }
        }
        k = k + 1;
    }
    assert(d.take(k - start) == d);
    if overflow {
        None
    } else {
        Some(acc)
    }
}


/// Nothing but whitespace: what `str::trim` reduces to the empty string.
pub open spec fn blank(s: Seq<char>) -> bool {
    forall|i: int| 0 <= i < s.len() ==> is_space(#[trigger] s[i])
}

/// The number of bytes that UTF-8 spends on `c`.
pub open spec fn utf8_width(c: char) -> nat {
    let u = c as u32;
    if u < 0x80 {
        1
    } else if u < 0x800 {
        2
    } else if u < 0x10000 {
        3
    } else {
        4
    }
}

/// The UTF-8 length of `s`, which `str::len` reports.
pub open spec fn byte_len(s: Seq<char>) -> nat
    decreases s.len(),
{
    if s.len() == 0 {
        0
    } else {
        byte_len(s.drop_last()) + utf8_width(s.last())
    }
}

/// A named explanation: not blank and at most `max` bytes long.
pub open spec fn bounded(s: Seq<char>, max: nat) -> bool {
    !blank(s) && byte_len(s) <= max
}

pub fn is_blank(s: &str) -> (r: bool)
    ensures
        r == blank(s@),
{
    let v = chars_of(s);
    let mut i: usize = 0;
    while i < v.len()
        invariant
            v@ == s@,
            i <= v@.len(),
            forall|k: int| 0 <= k < i ==> is_space(#[trigger] v@[k]),
        decreases v@.len() - i,
    {
        if !space(v[i]) {
            return false;
        }
        i = i + 1;
    }
    true
}

/// `s` is at most `max` bytes long in UTF-8.
pub fn fits(s: &str, max: usize) -> (r: bool)
    ensures
        r == (byte_len(s@) <= max),
{
    let v = chars_of(s);
    let mut total: usize = 0;
    let mut over = false;
    let mut i: usize = 0;
    while i < v.len()
        invariant
            v@ == s@,
            i <= v@.len(),
            !over ==> total == byte_len(v@.take(i as int)) && total <= max,
            over ==> byte_len(v@.take(i as int)) > max,
        decreases v@.len() - i,
    {
        let u = v[i] as u32;
        let w: usize = if u < 0x80 {
            1
        } else if u < 0x800 {
            2
        } else if u < 0x10000 {
            3
        } else {
            4
        };
        assert(v@.take(i + 1).drop_last() == v@.take(i as int));
        assert(w == utf8_width(v@.take(i + 1).last()));
        if !over {
            if w > max - total {
                over = true;
            } else {
                total = total + w;
            }
        }
        i = i + 1;
    }
    assert(v@.take(i as int) == v@);
    !over
}

pub fn is_bounded(s: &String, max: usize) -> (r: bool)
    ensures
        r == bounded(s@, max as nat),
{
    !is_blank(s.as_str()) && fits(s.as_str(), max)
}

/// A copy of a list of texts.
pub fn copy_texts(v: &Vec<String>) -> (r: Vec<String>)
    ensures
        r@ == v@,
{
    let mut out: Vec<String> = Vec::new();
    let mut i: usize = 0;
    while i < v.len()
        invariant
            i <= v@.len(),
            out@ == v@.take(i as int),
        decreases v@.len() - i,
    {
        out.push(v[i].clone());
        proof {
            assert(v@.take(i + 1) == v@.take(i as int).push(v@[i as int]));
        }
        i = i + 1;
    }
    proof {
        assert(v@.take(i as int) == v@);
    }
    out
}

/// The two texts are equal.
pub fn same_text(a: &str, b: &str) -> (r: bool)
    ensures
        r == (a@ == b@),
{
    String::from_str(a) == String::from_str(b)
}

/// `a` followed by `b`.
pub fn join(a: &str, b: &str) -> (r: String)
    ensures
        r@ == a@ + b@,
{
    String::from_str(a).concat(b)
}

/// `a`, `/`-free `b`... joined as `a + b + "/" + c`.
pub fn join3(a: &str, b: &str, c: &str) -> (r: String)
    ensures
        r@ == a@ + b@ + "/"@ + c@,
{
    String::from_str(a).concat(b).concat("/").concat(c)
}

/// `s` begins with `p`.
pub open spec fn prefixed(s: Seq<char>, p: Seq<char>) -> bool {
    s.len() >= p.len() && s.take(p.len() as int) == p
}

pub fn has_prefix(s: &str, p: &str) -> (r: bool)
    ensures
        r == prefixed(s@, p@),
{
    let a = chars_of(s);
    let b = chars_of(p);
    if a.len() < b.len() {
        return false;
    }
    let mut i: usize = 0;
    while i < b.len()
        invariant
            a@ == s@,
            b@ == p@,
            b@.len() <= a@.len(),
            i <= b@.len(),
            forall|k: int| 0 <= k < i ==> a@[k] == b@[k],
        decreases b@.len() - i,
    {
        if a[i] != b[i] {
            return false;
        }
        i = i + 1;
    }
    assert(s@.take(p@.len() as int) =~= p@);
    true
}

/// UTF-8 spends at most four bytes on a character.
pub proof fn lemma_byte_len_bound(s: Seq<char>)
    ensures
        byte_len(s) <= 4 * s.len(),
    decreases s.len(),
{
    if s.len() > 0 {
        lemma_byte_len_bound(s.drop_last());
    }
}


/// The first non-space position at or after `i`.
pub open spec fn solid_from(s: Seq<char>, i: int) -> int
    decreases s.len() - i,
{
    if i < 0 || i >= s.len() || !is_space(s[i]) {
        i
    } else {
        solid_from(s, i + 1)
    }
}

/// The end of the text before the trailing spaces that end at `j`.
pub open spec fn solid_until(s: Seq<char>, j: int) -> int
    decreases j,
{
    if j <= 0 || j > s.len() || !is_space(s[j - 1]) {
        j
    } else {
        solid_until(s, j - 1)
    }
}

/// `s` without its leading and trailing whitespace, as `str::trim` gives it.
pub open spec fn trimmed(s: Seq<char>) -> Seq<char> {
    let a = solid_from(s, 0);
    let b = solid_until(s, s.len() as int);
    if b <= a {
        Seq::empty()
    } else {
        s.subrange(a, b)
    }
}

proof fn lemma_solid(s: Seq<char>, i: int, j: int)
    requires
        0 <= i <= s.len(),
        0 <= j <= s.len(),
    ensures
        i <= solid_from(s, i) <= s.len(),
        0 <= solid_until(s, j) <= j,
    decreases s.len() - i + j,
{
    if i < s.len() && is_space(s[i]) {
        lemma_solid(s, i + 1, j);
    }
    if j > 0 && is_space(s[j - 1]) {
        lemma_solid(s, i, j - 1);
    }
}

/// `s` trimmed of whitespace at both ends.
pub fn trim(s: &str) -> (r: String)
    ensures
        r@ == trimmed(s@),
{
    let v = chars_of(s);
    let n = v.len();
    proof {
        lemma_solid(v@, 0, n as int);
    }
    let mut a: usize = 0;
    while a < n && space(v[a])
        invariant
            n == v@.len(),
            a <= n,
            solid_from(v@, a as int) == solid_from(v@, 0),
        decreases n - a,
    {
        a = a + 1;
    }
    let mut b: usize = n;
    while b > 0 && space(v[b - 1])
        invariant
            n == v@.len(),
            b <= n,
            solid_until(v@, b as int) == solid_until(v@, n as int),
        decreases b,
    {
        b = b - 1;
    }
    if b <= a {
        return String::new();
    }
    String::from_str(s.substring_char(a, b))
}

/// Whether text `a` sorts strictly before `b` in the order of `str`: at
/// the first position where they differ, `a` has the smaller character, or
/// `a` is a proper prefix of `b`.
pub open spec fn text_before(a: Seq<char>, b: Seq<char>) -> bool {
    exists|k: int| #![trigger a.subrange(0, k), b.subrange(0, k)] 0 <= k <= a.len() && k <= b.len()
        && a.subrange(0, k) == b.subrange(0, k) && diverges_at(a, b, k)
}

/// `a` and `b`, equal before `k`, put `a` first at `k`.
pub open spec fn diverges_at(a: Seq<char>, b: Seq<char>, k: int) -> bool {
    if k == a.len() {
        k < b.len()
    } else {
        k < b.len() && (a[k] as u32) < (b[k] as u32)
    }
}

/// No text sorts before itself, and the order is transitive.
pub proof fn lemma_text_before(a: Seq<char>, b: Seq<char>, c: Seq<char>)
    ensures
        !text_before(a, a),
        text_before(a, b) && text_before(b, c) ==> text_before(a, c),
        text_before(a, b) ==> a != b && !text_before(b, a),
{
    if text_before(a, a) {
        let k = choose|k: int| 0 <= k <= a.len() && k <= a.len() && a.subrange(0, k) == a.subrange(0, k) && diverges_at(a, a, k);
    }
    if text_before(a, b) {
        let k = choose|k: int| 0 <= k <= a.len() && k <= b.len() && a.subrange(0, k) == b.subrange(0, k) && diverges_at(a, b, k);
        if text_before(b, a) {
            let j = choose|j: int| 0 <= j <= b.len() && j <= a.len() && b.subrange(0, j) == a.subrange(0, j) && diverges_at(b, a, j);
            if j < k {
                assert(a.subrange(0, k)[j] == b.subrange(0, k)[j]);
            } else if k < j {
                assert(a.subrange(0, j)[k] == b.subrange(0, j)[k]);
            }
        }
        if text_before(b, c) {
            let j = choose|j: int| 0 <= j <= b.len() && j <= c.len() && b.subrange(0, j) == c.subrange(0, j) && diverges_at(b, c, j);
            let m = if k < j { k } else { j };
            assert forall|x: int| 0 <= x < m implies a[x] == c[x] by {
                assert(a.subrange(0, k)[x] == b.subrange(0, k)[x]);
                assert(b.subrange(0, j)[x] == c.subrange(0, j)[x]);
            }
            assert(a.subrange(0, m) =~= c.subrange(0, m));
            if k < j {
                assert(b.subrange(0, j)[k] == c.subrange(0, j)[k]);
            } else if j < k {
                assert(a.subrange(0, k)[j] == b.subrange(0, k)[j]);
            }
            assert(diverges_at(a, c, m));
        }
    }
}

/// Whether `a` sorts strictly before `b`.
pub fn text_less(a: &str, b: &str) -> (r: bool)
    ensures
        r == text_before(a@, b@),
{
    let x = chars_of(a);
    let y = chars_of(b);
    let mut i: usize = 0;
    while i < x.len() && i < y.len()
        invariant
            x@ == a@,
            y@ == b@,
            i <= x@.len(),
            i <= y@.len(),
            x@.subrange(0, i as int) == y@.subrange(0, i as int),
        decreases x@.len() - i,
    {
        if x[i] != y[i] {
            let r = (x[i] as u32) < (y[i] as u32);
            proof {
                if r {
                    assert(diverges_at(a@, b@, i as int));
                } else if text_before(a@, b@) {
                    let k = choose|k: int| 0 <= k <= a@.len() && k <= b@.len() && a@.subrange(0, k) == b@.subrange(0, k)
                        && diverges_at(a@, b@, k);
                    if k > i {
                        assert(a@.subrange(0, k)[i as int] == b@.subrange(0, k)[i as int]);
                    } else if k < i {
                        assert(a@.subrange(0, i as int)[k] == b@.subrange(0, i as int)[k]);
                    }
                }
            }
            return r;
        }
        assert(x@.subrange(0, i + 1) =~= x@.subrange(0, i as int).push(x@[i as int]));
        assert(y@.subrange(0, i + 1) =~= y@.subrange(0, i as int).push(y@[i as int]));
        i = i + 1;
    }
    let r = x.len() < y.len();
    proof {
        if r {
            assert(diverges_at(a@, b@, i as int));
        } else if text_before(a@, b@) {
            let k = choose|k: int| 0 <= k <= a@.len() && k <= b@.len() && a@.subrange(0, k) == b@.subrange(0, k)
                && diverges_at(a@, b@, k);
            if k < i {
                assert(a@.subrange(0, i as int)[k] == b@.subrange(0, i as int)[k]);
            }
        }
    }
    r
}

/// Whether the names of `entries` strictly increase: the entries are in
/// name order, each name once.
pub open spec fn in_name_order<T>(entries: Seq<(String, T)>) -> bool {
    forall|i: int, j: int| 0 <= i < j < entries.len() ==> text_before(#[trigger] entries[i].0@, #[trigger] entries[j].0@)
}

/// Whether the names of `entries` strictly increase.
pub fn names_in_order<T>(entries: &Vec<(String, T)>) -> (r: bool)
    ensures
        r == in_name_order(entries@),
{
    if entries.len() == 0 {
        return true;
    }
    let mut i: usize = 1;
    while i < entries.len()
        invariant
            1 <= i <= entries@.len(),
            in_name_order(entries@.take(i as int)),
        decreases entries@.len() - i,
    {
        if !text_less(entries[i - 1].0.as_str(), entries[i].0.as_str()) {
            assert(!in_name_order(entries@)) by {
                assert(!text_before(entries@[i - 1].0@, entries@[i as int].0@));
            }
            return false;
        }
        assert forall|p: int, q: int| 0 <= p < q < i + 1 implies
            text_before(#[trigger] entries@.take(i + 1)[p].0@, #[trigger] entries@.take(i + 1)[q].0@) by {
            if q == i && p < i - 1 {
                assert(text_before(entries@.take(i as int)[p].0@, entries@.take(i as int)[i - 1].0@));
                lemma_text_before(entries@[p].0@, entries@[i - 1].0@, entries@[i as int].0@);
            } else if q < i {
                assert(text_before(entries@.take(i as int)[p].0@, entries@.take(i as int)[q].0@));
            }
        }
        i = i + 1;
    }
    assert(entries@.take(i as int) =~= entries@);
    true
}

/// `a` sorts before `b` where they first differ at `k`.
pub proof fn lemma_before_at(a: Seq<char>, b: Seq<char>, k: int)
    requires
        0 <= k <= a.len(),
        k <= b.len(),
        a.subrange(0, k) == b.subrange(0, k),
        diverges_at(a, b, k),
    ensures
        text_before(a, b),
{
}

/// Entries whose neighbours are each in order are in name order.
pub proof fn lemma_chain_in_order<T>(entries: Seq<(String, T)>)
    requires
        forall|i: int| 0 <= i < entries.len() - 1 ==> #[trigger] neighbours_before(entries, i),
    ensures
        in_name_order(entries),
    decreases entries.len(),
{
    if entries.len() > 1 {
        let front = entries.drop_last();
        assert forall|i: int| 0 <= i < front.len() - 1 implies #[trigger] neighbours_before(front, i) by {
            assert(neighbours_before(entries, i));
        }
        lemma_chain_in_order(front);
        let n = entries.len() - 1;
        assert forall|i: int, j: int| 0 <= i < j < entries.len() implies
            text_before(#[trigger] entries[i].0@, #[trigger] entries[j].0@) by {
            if j < n {
                assert(text_before(front[i].0@, front[j].0@));
            } else {
                assert(neighbours_before(entries, n - 1));
                if i < n - 1 {
                    assert(text_before(front[i].0@, front[n - 1].0@));
                    lemma_text_before(entries[i].0@, entries[n - 1].0@, entries[n].0@);
                }
            }
        }
    }
}

/// The names of entries `i` and `i + 1` are in order.
pub open spec fn neighbours_before<T>(entries: Seq<(String, T)>, i: int) -> bool {
    text_before(entries[i].0@, entries[i + 1].0@)
}

} // verus!
