//! Text helpers over character sequences: whitespace trimming as `str::trim`
//! does it, searching, splitting, decimal parsing as `str::parse` does it for
//! `usize` and `i32`, and the interpretation of a line typed at a prompt.
use vstd::prelude::*;

verus! {

/// The characters that `char::is_whitespace` accepts (Unicode `White_Space`).
pub open spec fn is_space(c: char) -> bool {
    let n = c as u32;
    ||| 9 <= n <= 13
    ||| n == 32
    ||| n == 0x85
    ||| n == 0xA0
    ||| n == 0x1680
    ||| 0x2000 <= n <= 0x200A
    ||| n == 0x2028
    ||| n == 0x2029
    ||| n == 0x202F
    ||| n == 0x205F
    ||| n == 0x3000
}

/// `s` with its leading whitespace removed.
pub open spec fn trim_start(s: Seq<char>) -> Seq<char>
    decreases s.len(),
{
    if s.len() > 0 && is_space(s[0]) {
        trim_start(s.drop_first())
    } else {
        s
    }
}

/// `s` with its trailing whitespace removed.
pub open spec fn trim_end(s: Seq<char>) -> Seq<char>
    decreases s.len(),
{
    if s.len() > 0 && is_space(s.last()) {
        trim_end(s.drop_last())
    } else {
        s
    }
}

/// What `str::trim` gives back.
pub open spec fn trimmed(s: Seq<char>) -> Seq<char> {
    trim_end(trim_start(s))
}

/// Index of the first occurrence of `c` in `s`, or -1.
pub open spec fn index_of_char(s: Seq<char>, c: char) -> int
    decreases s.len(),
{
    if s.len() == 0 {
        -1
    } else if s[0] == c {
        0
    } else {
        let r = index_of_char(s.drop_first(), c);
        if r < 0 {
            -1
        } else {
            r + 1
        }
    }
}

pub open spec fn is_digit(c: char) -> bool {
    '0' <= c <= '9'
}

pub open spec fn all_digits(s: Seq<char>) -> bool {
    forall|i: int| 0 <= i < s.len() ==> #[trigger] is_digit(s[i])
}

/// The number that a string of decimal digits denotes.
pub open spec fn digits_value(s: Seq<char>) -> nat
    decreases s.len(),
{
    if s.len() == 0 {
        0
    } else {
        digits_value(s.drop_last()) * 10 + ((s.last() as u32) - ('0' as u32)) as nat
    }
}

/// What `s.parse::<usize>()` gives back, `None` for any error.
pub open spec fn parsed_usize(s: Seq<char>) -> Option<usize> {
    let d = if s.len() > 0 && s[0] == '+' {
        s.drop_first()
    } else {
        s
    };
    if d.len() > 0 && all_digits(d) && digits_value(d) <= usize::MAX {
        Some(digits_value(d) as usize)
    } else {
        None
    }
}

/// What `s.parse::<i32>()` gives back, `None` for any error.
pub open spec fn parsed_i32(s: Seq<char>) -> Option<i32> {
    if s.len() > 0 && s[0] == '-' {
        let d = s.drop_first();
        if d.len() > 0 && all_digits(d) && digits_value(d) <= 0x8000_0000 {
            Some((0 - digits_value(d)) as i32)
        } else {
            None
        }
    } else {
        let d = if s.len() > 0 && s[0] == '+' {
            s.drop_first()
        } else {
            s
        };
        if d.len() > 0 && all_digits(d) && digits_value(d) <= 0x7fff_ffff {
            Some(digits_value(d) as i32)
        } else {
            None
        }
    }
}

/// `a` lower-cased is `b`, for a `b` that is a lower-case ASCII letter.
pub open spec fn char_lower_is(a: char, b: char) -> bool {
    a == b || ('A' <= a <= 'Z' && (a as u32) + 32 == (b as u32))
}

/// `s.to_lowercase() == t` for a `t` made of lower-case ASCII letters: no
/// character but the two ASCII cases of a letter lower-cases to that letter.
pub open spec fn lower_is(s: Seq<char>, t: Seq<char>) -> bool {
    &&& s.len() == t.len()
    &&& forall|i: int| 0 <= i < s.len() ==> #[trigger] char_lower_is(s[i], t[i])
}

/// The text a prompt hands back for a typed line: the trimmed line, or the
/// default where nothing but whitespace was typed.
pub open spec fn prompt_result(line: Seq<char>, default: Seq<char>) -> Seq<char> {
    if trimmed(line).len() == 0 {
        default
    } else {
        trimmed(line)
    }
}

/// The answer a yes/no question takes from a typed line.
pub open spec fn yes_no_result(line: Seq<char>, default: bool) -> bool {
    let t = trimmed(line);
    if t.len() == 0 {
        default
    } else {
        lower_is(t, "y"@) || lower_is(t, "yes"@)
    }
}

pub proof fn lemma_trim_start_skip(s: Seq<char>, a: int)
    requires
        0 <= a <= s.len(),
        forall|k: int| 0 <= k < a ==> is_space(#[trigger] s[k]),
        a == s.len() || !is_space(s[a]),
    ensures
        trim_start(s) == s.skip(a),
    decreases a,
{
    if a == 0 {
        assert(s.skip(0) =~= s);
    } else {
        let t = s.drop_first();
        assert forall|k: int| 0 <= k < a - 1 implies is_space(#[trigger] t[k]) by {
            assert(t[k] == s[k + 1]);
        }
        if a - 1 < t.len() {
            assert(t[a - 1] == s[a]);
        }
        lemma_trim_start_skip(t, a - 1);
        assert(t.skip(a - 1) =~= s.skip(a));
    }
}

pub proof fn lemma_trim_end_take(s: Seq<char>, b: int)
    requires
        0 <= b <= s.len(),
        forall|k: int| b <= k < s.len() ==> is_space(#[trigger] s[k]),
        b == 0 || !is_space(s[b - 1]),
    ensures
        trim_end(s) == s.take(b),
    decreases s.len() - b,
{
    if b == s.len() {
        assert(s.take(b) =~= s);
    } else {
        let t = s.drop_last();
        assert forall|k: int| b <= k < t.len() implies is_space(#[trigger] t[k]) by {
            assert(t[k] == s[k]);
        }
        if b > 0 {
            assert(t[b - 1] == s[b - 1]);
        }
        lemma_trim_end_take(t, b);
        assert(t.take(b) =~= s.take(b));
    }
}

/// A text that neither starts nor ends with whitespace is its own trim.
pub proof fn lemma_trimmed_unchanged(s: Seq<char>)
    requires
        s.len() > 0,
        !is_space(s[0]),
        !is_space(s.last()),
    ensures
        trimmed(s) == s,
{
}

pub proof fn lemma_index_of_char(s: Seq<char>, c: char)
    ensures
        -1 <= index_of_char(s, c) < s.len(),
        index_of_char(s, c) == -1 <==> (forall|k: int| 0 <= k < s.len() ==> s[k] != c),
        index_of_char(s, c) >= 0 ==> s[index_of_char(s, c)] == c,
        forall|k: int| 0 <= k < index_of_char(s, c) ==> s[k] != c,
    decreases s.len(),
{
    if s.len() > 0 && s[0] != c {
        let t = s.drop_first();
        lemma_index_of_char(t, c);
        assert forall|k: int| 0 <= k < s.len() && (forall|j: int| 0 <= j < t.len() ==> t[j] != c)
            implies s[k] != c by {
            if k > 0 {
                assert(s[k] == t[k - 1]);
            }
        }
        if index_of_char(t, c) == -1 {
            assert forall|k: int| 0 <= k < s.len() implies s[k] != c by {
                if k > 0 {
                    assert(s[k] == t[k - 1]);
                }
            }
        } else {
            assert forall|k: int| 0 <= k < index_of_char(s, c) implies s[k] != c by {
                if k > 0 {
                    assert(s[k] == t[k - 1]);
                }
            }
            assert(t[index_of_char(t, c)] == c);
        }
    }
}

/// The first index of `c` is `i` when `c` stands at `i` and nowhere before.
pub proof fn lemma_index_of_char_at(s: Seq<char>, c: char, i: int)
    requires
        0 <= i < s.len(),
        s[i] == c,
        forall|k: int| 0 <= k < i ==> s[k] != c,
    ensures
        index_of_char(s, c) == i,
{
    lemma_index_of_char(s, c);
}

pub proof fn lemma_digits_value_prefix(s: Seq<char>, k: int)
    requires
        0 <= k <= s.len(),
        all_digits(s),
    ensures
        digits_value(s.take(k)) <= digits_value(s),
    decreases s.len() - k,
{
    if k == s.len() {
        assert(s.take(k) =~= s);
    } else {
        let t = s.drop_last();
        assert(all_digits(t)) by {
            assert forall|i: int| 0 <= i < t.len() implies #[trigger] is_digit(t[i]) by {
                assert(t[i] == s[i]);
                assert(is_digit(s[i]));
            }
        }
        lemma_digits_value_prefix(t, k);
        assert(t.take(k) =~= s.take(k));
        assert(is_digit(s[s.len() - 1]));
        assert(digits_value(s) == digits_value(t) * 10 + ((s.last() as u32) - ('0' as u32)) as nat);
    }
}

pub proof fn lemma_digits_value_push(s: Seq<char>, k: int)
    requires
        0 <= k < s.len(),
    ensures
        digits_value(s.take(k + 1)) == digits_value(s.take(k)) * 10 + ((s[k] as u32) - ('0' as u32)) as nat,
{
    let t = s.take(k + 1);
    assert(t.drop_last() =~= s.take(k));
}

/// `char::is_whitespace`.
pub fn is_space_char(c: char) -> (b: bool)
    ensures
        b == is_space(c),
{
    let n = c as u32;
    (9 <= n && n <= 13) || n == 32 || n == 0x85 || n == 0xA0 || n == 0x1680 || (0x2000 <= n && n
        <= 0x200A) || n == 0x2028 || n == 0x2029 || n == 0x202F || n == 0x205F || n == 0x3000
}

/// The characters of `s`, in order.
pub fn to_chars(s: &str) -> (v: Vec<char>)
    ensures
        v@ == s@,
{
    let mut v: Vec<char> = Vec::new();
    for c in it: s.chars()
        invariant
            v@ == it.seq().take(it.index() as int),
            it.seq() == s@,
    {
        v.push(c);
    }
    v
}

/// Appends `c` to `s` with std's `String::push`, which vstd gives no
/// contract. Trusted, not proved: as std documents it, the text afterwards is
/// the old text followed by `c`.
#[verifier::external_body]
pub(crate) fn push_char(s: &mut String, c: char)
    ensures
        final(s)@ == old(s)@.push(c),
{
    s.push(c);
}

/// The text made of `v[lo..hi]`.
pub fn string_of(v: &Vec<char>, lo: usize, hi: usize) -> (s: String)
    requires
        lo <= hi <= v@.len(),
    ensures
        s@ == v@.subrange(lo as int, hi as int),
{
    let mut s = String::new();
    let mut i = lo;
    while i < hi
        invariant
            lo <= i <= hi,
            hi <= v@.len(),
            s@ == v@.subrange(lo as int, i as int),
        decreases hi - i,
    {
        push_char(&mut s, v[i]);
        i += 1;
        assert(s@ =~= v@.subrange(lo as int, i as int));
    }
    s
}

/// `a` followed by `b`.
pub fn joined(a: &str, b: &str) -> (s: String)
    ensures
        s@ == a@ + b@,
{
    let mut s = a.to_owned();
    s.append(b);
    s
}

/// Whether `v[lo..hi]` is the text `t`.
pub fn range_is(v: &Vec<char>, lo: usize, hi: usize, t: &str) -> (b: bool)
    requires
        lo <= hi <= v@.len(),
    ensures
        b == (v@.subrange(lo as int, hi as int) == t@),
{
    let w = to_chars(t);
    if hi - lo != w.len() {
        return false;
    }
    let mut i: usize = 0;
    while i < w.len()
        invariant
            lo <= hi <= v@.len(),
            w@ == t@,
            hi - lo == w@.len(),
            i <= w@.len(),
            forall|k: int| 0 <= k < i ==> v@[lo + k] == w@[k],
        decreases w@.len() - i,
    {
        if v[lo + i] != w[i] {
            assert(v@.subrange(lo as int, hi as int)[i as int] != t@[i as int]);
            return false;
        }
        i += 1;
    }
    assert(v@.subrange(lo as int, hi as int) =~= t@);
    true
}

/// Bounds of `trimmed(v[lo..hi])` inside `v`.
pub fn trim_bounds(v: &Vec<char>, lo: usize, hi: usize) -> (r: (usize, usize))
    requires
        lo <= hi <= v@.len(),
    ensures
        lo <= r.0 <= r.1 <= hi,
        v@.subrange(r.0 as int, r.1 as int) == trimmed(v@.subrange(lo as int, hi as int)),
{
    let ghost t = v@.subrange(lo as int, hi as int);
    let mut a = lo;
    while a < hi && is_space_char(v[a])
        invariant
            lo <= a <= hi <= v@.len(),
            forall|k: int| lo <= k < a ==> is_space(#[trigger] v@[k]),
        decreases hi - a,
    {
        a += 1;
    }
    proof {
        assert forall|k: int| 0 <= k < a - lo implies is_space(#[trigger] t[k]) by {
            assert(t[k] == v@[lo + k]);
        }
        if a < hi {
            assert(t[a - lo] == v@[a as int]);
        }
        lemma_trim_start_skip(t, a - lo);
        assert(t.skip(a - lo) =~= v@.subrange(a as int, hi as int));
    }
    let mut b = hi;
    while b > a && is_space_char(v[b - 1])
        invariant
            lo <= a <= b <= hi <= v@.len(),
            forall|k: int| b <= k < hi ==> is_space(#[trigger] v@[k]),
        decreases b - a,
    {
        b -= 1;
    }
    proof {
        let u = v@.subrange(a as int, hi as int);
        assert forall|k: int| b - a <= k < u.len() implies is_space(#[trigger] u[k]) by {
            assert(u[k] == v@[a + k]);
        }
        if b > a {
            assert(u[b - a - 1] == v@[b - 1]);
        }
        lemma_trim_end_take(u, b - a);
        assert(u.take(b - a) =~= v@.subrange(a as int, b as int));
    }
    (a, b)
}

/// `s.trim()`, as an owned text.
pub fn trim_text(s: &str) -> (r: String)
    ensures
        r@ == trimmed(s@),
{
    let v = to_chars(s);
    let (a, b) = trim_bounds(&v, 0, v.len());
    assert(v@.subrange(0, v@.len() as int) =~= v@);
    string_of(&v, a, b)
}

/// First index of `c` in `v[lo..hi]`, counted from `lo`.
pub fn find_char(v: &Vec<char>, lo: usize, hi: usize, c: char) -> (r: Option<usize>)
    requires
        lo <= hi <= v@.len(),
    ensures
        match r {
            Some(i) => {
                &&& lo <= i < hi
                &&& index_of_char(v@.subrange(lo as int, hi as int), c) == i - lo
                &&& v@[i as int] == c
                &&& forall|k: int| lo <= k < i ==> v@[k] != c
            },
            None => index_of_char(v@.subrange(lo as int, hi as int), c) == -1,
        },
        r is None <==> forall|k: int| lo <= k < hi ==> v@[k] != c,
{
    let ghost t = v@.subrange(lo as int, hi as int);
    let mut i = lo;
    while i < hi
        invariant
            lo <= i <= hi <= v@.len(),
            t == v@.subrange(lo as int, hi as int),
            forall|k: int| lo <= k < i ==> v@[k] != c,
        decreases hi - i,
    {
        if v[i] == c {
            proof {
                assert forall|k: int| 0 <= k < i - lo implies t[k] != c by {
                    assert(t[k] == v@[lo + k]);
                }
                assert(t[i - lo] == c);
                lemma_index_of_char_at(t, c, i - lo);
            }
            return Some(i);
        }
        i += 1;
    }
    proof {
        lemma_index_of_char(t, c);
        assert forall|k: int| 0 <= k < t.len() implies t[k] != c by {
            assert(t[k] == v@[lo + k]);
        }
    }
    None
}

/// Whether `s` holds the character `c` (`str::contains` with a `char`).
pub fn contains_char(s: &str, c: char) -> (b: bool)
    ensures
        b == s@.contains(c),
{
    let v = to_chars(s);
    let r = find_char(&v, 0, v.len(), c);
    assert(v@.subrange(0, v@.len() as int) =~= v@);
    match r {
        Some(i) => {
            proof {
                lemma_index_of_char(v@.subrange(0, v@.len() as int), c);
            }
            assert(v@[i as int] == c);
            true
        },
        None => {
            assert(!s@.contains(c)) by {
                if s@.contains(c) {
                    let k = choose|k: int| 0 <= k < s@.len() && s@[k] == c;
                    assert(v@[k] == c);
                }
            }
            false
        },
    }
}

/// Value of the decimal digits `v[lo..hi]`, or `None` where it exceeds `limit`.
fn digits_up_to(v: &Vec<char>, lo: usize, hi: usize, limit: usize) -> (r: Option<usize>)
    requires
        lo <= hi <= v@.len(),
        all_digits(v@.subrange(lo as int, hi as int)),
    ensures
        match r {
            Some(n) => n == digits_value(v@.subrange(lo as int, hi as int)) && n <= limit,
            None => digits_value(v@.subrange(lo as int, hi as int)) > limit,
        },
{
    let ghost d = v@.subrange(lo as int, hi as int);
    let mut acc: usize = 0;
    let mut i = lo;
    while i < hi
        invariant
            lo <= i <= hi <= v@.len(),
            d == v@.subrange(lo as int, hi as int),
            all_digits(d),
            acc == digits_value(d.take(i - lo)),
            acc <= limit,
        decreases hi - i,
    {
        let c = v[i];
        proof {
            assert(d[i - lo] == c);
            assert(is_digit(d[i - lo]));
            lemma_digits_value_push(d, i - lo);
        }
        let digit = (c as u32 - '0' as u32) as usize;
        if digit > limit {
            proof {
                lemma_digits_value_prefix(d, i - lo + 1);
            }
            return None;
        }
        if acc > (limit - digit) / 10 {
            proof {
                assert(acc * 10 + digit > limit) by (nonlinear_arith)
                    requires
                        acc > (limit - digit) / 10,
                        digit <= limit,
                ;
                lemma_digits_value_prefix(d, i - lo + 1);
            }
            return None;
        }
        proof {
            assert(acc * 10 + digit <= limit) by (nonlinear_arith)
                requires
                    acc <= (limit - digit) / 10,
                    digit <= limit,
            ;
        }
        acc = acc * 10 + digit;
        i += 1;
    }
    assert(d.take(hi - lo) =~= d);
    Some(acc)
}

/// Whether every character of `v[lo..hi]` is a decimal digit.
fn range_all_digits(v: &Vec<char>, lo: usize, hi: usize) -> (b: bool)
    requires
        lo <= hi <= v@.len(),
    ensures
        b == all_digits(v@.subrange(lo as int, hi as int)),
{
    let ghost d = v@.subrange(lo as int, hi as int);
    let mut i = lo;
    while i < hi
        invariant
            lo <= i <= hi <= v@.len(),
            d == v@.subrange(lo as int, hi as int),
            forall|k: int| 0 <= k < i - lo ==> #[trigger] is_digit(d[k]),
        decreases hi - i,
    {
        let c = v[i];
        if !('0' <= c && c <= '9') {
            assert(d[i - lo] == c);
            assert(!is_digit(d[i - lo]));
            return false;
        }
        assert(d[i - lo] == c);
        i += 1;
    }
    true
}

/// `s.parse::<usize>().ok()`.
pub fn parse_usize(s: &str) -> (r: Option<usize>)
    ensures
        r == parsed_usize(s@),
{
    let v = to_chars(s);
    let start: usize = if v.len() > 0 && v[0] == '+' {
        1
    } else {
        0
    };
    proof {
        if start == 1 {
            assert(v@.subrange(1, v@.len() as int) =~= s@.drop_first());
        } else {
            assert(v@.subrange(0, v@.len() as int) =~= s@);
        }
    }
    if start == v.len() || !range_all_digits(&v, start, v.len()) {
        return None;
    }
    digits_up_to(&v, start, v.len(), usize::MAX)
}

/// `s.parse::<i32>().ok()`.
pub fn parse_i32(s: &str) -> (r: Option<i32>)
    ensures
        r == parsed_i32(s@),
{
    let v = to_chars(s);
    if v.len() > 0 && v[0] == '-' {
        assert(v@.subrange(1, v@.len() as int) =~= s@.drop_first());
        if v.len() == 1 || !range_all_digits(&v, 1, v.len()) {
            return None;
        }
        match digits_up_to(&v, 1, v.len(), 0x8000_0000) {
            Some(n) => {
                let m = n as i64;
                Some((0 - m) as i32)
            },
            None => None,
        }
    } else {
        let start: usize = if v.len() > 0 && v[0] == '+' {
            1
        } else {
            0
        };
        proof {
            if start == 1 {
                assert(v@.subrange(1, v@.len() as int) =~= s@.drop_first());
            } else {
                assert(v@.subrange(0, v@.len() as int) =~= s@);
            }
        }
        if start == v.len() || !range_all_digits(&v, start, v.len()) {
            return None;
        }
        match digits_up_to(&v, start, v.len(), 0x7fff_ffff) {
            Some(n) => Some(n as i32),
            None => None,
        }
    }
}

/// Whether `s` lower-cased is the lower-case ASCII word `t`.
pub fn lower_equals(s: &str, t: &str) -> (b: bool)
    ensures
        b == lower_is(s@, t@),
{
    let v = to_chars(s);
    let w = to_chars(t);
    if v.len() != w.len() {
        return false;
    }
    let mut i: usize = 0;
    while i < v.len()
        invariant
            v@ == s@,
            w@ == t@,
            v@.len() == w@.len(),
            i <= v@.len(),
            forall|k: int| 0 <= k < i ==> #[trigger] char_lower_is(v@[k], w@[k]),
        decreases v@.len() - i,
    {
        let a = v[i];
        let b = w[i];
        let ok = a == b || ('A' <= a && a <= 'Z' && (a as u32) + 32 == (b as u32));
        if !ok {
            assert(!char_lower_is(s@[i as int], t@[i as int]));
            return false;
        }
        assert(char_lower_is(v@[i as int], w@[i as int]));
        i += 1;
    }
    true
}

/// The text a prompt hands back for the typed `line` (`prompt` in the
/// program): the trimmed line, or `default` where the line is blank.
pub fn prompt_answer(line: &str, default: &str) -> (r: String)
    ensures
        r@ == prompt_result(line@, default@),
{
    let t = trim_text(line);
    if t.as_str().is_empty() {
        default.to_owned()
    } else {
        t
    }
}

/// The answer a yes/no question takes from the typed `line` (`ask_yes_no` in
/// the program): the default for a blank line, otherwise yes exactly for
/// `y` or `yes` in any case.
pub fn yes_no_answer(line: &str, default: bool) -> (r: bool)
    ensures
        r == yes_no_result(line@, default),
{
    let t = trim_text(line);
    if t.as_str().is_empty() {
        default
    } else {
        lower_equals(t.as_str(), "y") || lower_equals(t.as_str(), "yes")
    }
}

/// The hint shown after a yes/no question: the default answer in capitals.
pub fn yes_no_hint(default: bool) -> (r: &'static str)
    ensures
        r@ == (if default {
            "Y/n"@
        } else {
            "y/N"@
        }),
{
    if default {
        "Y/n"
    } else {
        "y/N"
    }
}

/// The decimal digit character for `d < 10`.
pub open spec fn digit_char(d: nat) -> char {
    if d == 0 {
        '0'
    } else if d == 1 {
        '1'
    } else if d == 2 {
        '2'
    } else if d == 3 {
        '3'
    } else if d == 4 {
        '4'
    } else if d == 5 {
        '5'
    } else if d == 6 {
        '6'
    } else if d == 7 {
        '7'
    } else if d == 8 {
        '8'
    } else {
        '9'
    }
}

fn digit_of(d: u64) -> (c: char)
    requires
        d < 10,
    ensures
        c == digit_char(d as nat),
{
    if d == 0 {
        '0'
    } else if d == 1 {
        '1'
    } else if d == 2 {
        '2'
    } else if d == 3 {
        '3'
    } else if d == 4 {
        '4'
    } else if d == 5 {
        '5'
    } else if d == 6 {
        '6'
    } else if d == 7 {
        '7'
    } else if d == 8 {
        '8'
    } else {
        '9'
    }
}

/// The decimal notation of `n`, as `to_string` writes it.
pub open spec fn decimal(n: nat) -> Seq<char>
    decreases n,
{
    if n < 10 {
        seq![digit_char(n)]
    } else {
        decimal(n / 10).push(digit_char(n % 10))
    }
}

/// The decimal notation of a signed `n`.
pub open spec fn signed_decimal(n: int) -> Seq<char> {
    if n < 0 {
        seq!['-'] + decimal((0 - n) as nat)
    } else {
        decimal(n as nat)
    }
}

fn push_decimal(s: &mut String, n: u64)
    ensures
        final(s)@ == old(s)@ + decimal(n as nat),
    decreases n,
{
    if n >= 10 {
        push_decimal(s, n / 10);
    }
    let c = digit_of(n % 10);
    push_char(s, c);
    assert(s@ =~= old(s)@ + decimal(n as nat));
}

/// `n.to_string()`.
pub fn usize_text(n: usize) -> (r: String)
    ensures
        r@ == decimal(n as nat),
{
    let mut s = String::new();
    push_decimal(&mut s, n as u64);
    assert(s@ =~= decimal(n as nat));
    s
}

/// `n.to_string()`.
pub fn i32_text(n: i32) -> (r: String)
    ensures
        r@ == signed_decimal(n as int),
{
    let mut s = String::new();
    if n < 0 {
        push_char(&mut s, '-');
        let m = (0 - (n as i64)) as u64;
        push_decimal(&mut s, m);
    } else {
        push_decimal(&mut s, n as u64);
    }
    assert(s@ =~= signed_decimal(n as int));
    s
}

proof fn lemma_decimal_digits(n: nat)
    ensures
        decimal(n).len() > 0,
        all_digits(decimal(n)),
        digits_value(decimal(n)) == n,
        decimal(n)[0] != '+',
    decreases n,
{
    if n < 10 {
        assert(is_digit(decimal(n)[0]));
        assert(decimal(n).drop_last() =~= Seq::<char>::empty());
        assert((digit_char(n) as u32) - ('0' as u32) == n);
        let d = decimal(n);
        assert(digits_value(d.drop_last()) == 0);
        assert(digits_value(d) == digits_value(d.drop_last()) * 10 + ((d.last() as u32) - ('0' as u32)) as nat);
    } else {
        lemma_decimal_digits(n / 10);
        let d = decimal(n);
        assert(d.drop_last() =~= decimal(n / 10));
        assert forall|i: int| 0 <= i < d.len() implies #[trigger] is_digit(d[i]) by {
            if i < d.len() - 1 {
                assert(d[i] == decimal(n / 10)[i]);
            }
        }
        assert((n / 10) * 10 + n % 10 == n) by (nonlinear_arith);
        assert((digit_char(n % 10) as u32) - ('0' as u32) == n % 10);
        assert(d.last() == digit_char(n % 10));
        assert(digits_value(d) == digits_value(d.drop_last()) * 10 + ((d.last() as u32) - ('0' as u32)) as nat);
        assert(digits_value(d) == digits_value(decimal(n / 10)) * 10 + n % 10);
    }
}

/// Writing a number and parsing it back gives the number.
pub proof fn lemma_decimal_parses_back(n: usize)
    ensures
        parsed_usize(decimal(n as nat)) == Some(n),
{
    lemma_decimal_digits(n as nat);
}

/// A number as a command prints it, with its line feed: trimming gives the
/// digits back, and they parse as the number.
pub proof fn lemma_printed_number(n: nat)
    ensures
        trimmed(decimal(n) + seq!['\n']) == decimal(n),
        n <= 0x7fff_ffff ==> parsed_i32(decimal(n)) == Some(n as i32),
        n <= usize::MAX ==> parsed_usize(decimal(n)) == Some(n as usize),
        signed_decimal(n as int) == decimal(n),
{
    lemma_decimal_digits(n);
    let d = decimal(n);
    let s = d + seq!['\n'];
    assert(is_digit(d[0]));
    assert(is_digit(d[d.len() - 1]));
    assert(!is_space(d[0]));
    assert(!is_space(d[d.len() - 1]));
    assert(s[0] == d[0]);
    lemma_trim_start_skip(s, 0);
    assert(s.skip(0) =~= s);
    assert(s[d.len() as int] == '\n');
    assert(is_space('\n'));
    assert(s[d.len() - 1] == d[d.len() - 1]);
    lemma_trim_end_take(s, d.len() as int);
    assert(s.take(d.len() as int) =~= d);
    assert(d[0] != '-');
}

/// Law: a yes/no answer is the default when nothing but whitespace was
/// typed; otherwise it is yes exactly for `y` or `yes` in any mix of cases
/// (with whitespace around), and no for anything else, `n` and `no`
/// included.
pub proof fn lemma_yes_no(line: Seq<char>, default: bool)
    ensures
        trimmed(line).len() == 0 ==> yes_no_result(line, default) == default,
        trimmed(line).len() > 0 ==> (yes_no_result(line, default) <==> {
            let t = trimmed(line);
            ||| t.len() == 1 && (t[0] == 'y' || t[0] == 'Y')
            ||| t.len() == 3 && (t[0] == 'y' || t[0] == 'Y') && (t[1] == 'e' || t[1] == 'E') && (t[2] == 's'
                || t[2] == 'S')
        }),
{
    reveal_strlit("y");
    reveal_strlit("yes");
    let t = trimmed(line);
    if t.len() == 1 {
        assert(lower_is(t, "y"@) == char_lower_is(t[0], "y"@[0]));
    }
    if t.len() == 3 {
        assert(lower_is(t, "yes"@) == (char_lower_is(t[0], "yes"@[0]) && char_lower_is(t[1], "yes"@[1])
            && char_lower_is(t[2], "yes"@[2])));
    }
}

/// Whether `a` and `b` are the same text.
pub fn same_text(a: &str, b: &str) -> (r: bool)
    ensures
        r == (a@ == b@),
{
    let v = to_chars(a);
    assert(v@.subrange(0, v@.len() as int) =~= v@);
    range_is(&v, 0, v.len(), b)
}

/// Index of the line feed that ends the line starting at `pos`, or the length.
pub open spec fn line_end(s: Seq<char>, pos: int) -> int
    decreases s.len() - pos,
{
    if pos < 0 || pos >= s.len() {
        s.len() as int
    } else if s[pos] == '\n' {
        pos
    } else {
        line_end(s, pos + 1)
    }
}

/// The line starting at `pos`, as `str::lines` gives it: without its line
/// feed, and without the carriage return before that line feed.
pub open spec fn line_at(s: Seq<char>, pos: int) -> Seq<char> {
    let e = line_end(s, pos);
    let raw = s.subrange(pos, e);
    if e < s.len() && raw.len() > 0 && raw.last() == '\r' {
        raw.drop_last()
    } else {
        raw
    }
}

pub proof fn lemma_line_end_bounds(s: Seq<char>, pos: int)
    requires
        0 <= pos <= s.len(),
    ensures
        pos <= line_end(s, pos) <= s.len(),
        line_end(s, pos) < s.len() ==> s[line_end(s, pos)] == '\n',
        forall|k: int| pos <= k < line_end(s, pos) ==> s[k] != '\n',
    decreases s.len() - pos,
{
    if pos < s.len() && s[pos] != '\n' {
        lemma_line_end_bounds(s, pos + 1);
    }
}

pub proof fn lemma_line_end_at(s: Seq<char>, pos: int, e: int)
    requires
        0 <= pos <= e <= s.len(),
        forall|k: int| pos <= k < e ==> s[k] != '\n',
        e == s.len() || s[e] == '\n',
    ensures
        line_end(s, pos) == e,
    decreases e - pos,
{
    if pos < e {
        lemma_line_end_at(s, pos + 1, e);
    }
}

/// Bounds of the line that starts at `pos` (line feed and the carriage
/// return before it left out) and of the position after its line feed.
pub fn next_line(v: &Vec<char>, pos: usize) -> (r: (usize, usize))
    requires
        pos < v@.len(),
    ensures
        pos <= r.0 <= r.1,
        r.1 == line_end(v@, pos as int),
        v@.subrange(pos as int, r.0 as int) == line_at(v@, pos as int),
        r.1 <= v@.len(),
{
    proof {
        lemma_line_end_bounds(v@, pos as int);
    }
    let e = match find_char(v, pos, v.len(), '\n') {
        Some(i) => i,
        None => v.len(),
    };
    proof {
        lemma_line_end_at(v@, pos as int, e as int);
    }
    let hi = if e < v.len() && e > pos && v[e - 1] == '\r' {
        e - 1
    } else {
        e
    };
    assert(v@.subrange(pos as int, e as int).len() > 0 ==> v@.subrange(pos as int, e as int).last()
        == v@[e - 1]);
    assert(hi < e ==> v@.subrange(pos as int, hi as int) =~= v@.subrange(pos as int, e as int).drop_last());
    (hi, e)
}

/// The bytes that `c` takes in UTF-8.
pub open spec fn utf8_width(c: char) -> nat {
    let n = c as u32;
    if n < 0x80 {
        1
    } else if n < 0x800 {
        2
    } else if n < 0x10000 {
        3
    } else {
        4
    }
}

/// The length of `s` in UTF-8 bytes (`str::len`).
pub open spec fn byte_len(s: Seq<char>) -> nat
    decreases s.len(),
{
    if s.len() == 0 {
        0
    } else {
        byte_len(s.drop_last()) + utf8_width(s.last())
    }
}

/// The longest beginning of `s` that takes at most `k` bytes.
pub open spec fn byte_prefix(s: Seq<char>, k: nat) -> Seq<char>
    decreases s.len(),
{
    if s.len() == 0 || byte_len(s) <= k {
        s
    } else {
        byte_prefix(s.drop_last(), k)
    }
}

/// A column of a listing: where `s` takes more than `n` bytes, its first
/// `keep` bytes, cut back to the last whole character; else `s` itself.
pub open spec fn column(s: Seq<char>, n: nat, keep: nat) -> Seq<char> {
    if byte_len(s) > n {
        byte_prefix(s, keep)
    } else {
        s
    }
}

/// One more character adds its width.
pub proof fn lemma_byte_len_step(s: Seq<char>, i: int)
    requires
        0 <= i < s.len(),
    ensures
        byte_len(s.take(i + 1)) == byte_len(s.take(i)) + utf8_width(s[i]),
{
    assert(s.take(i + 1).drop_last() =~= s.take(i));
}

/// A longer beginning takes at least as many bytes.
pub proof fn lemma_byte_len_grows(s: Seq<char>, i: int, j: int)
    requires
        0 <= i <= j <= s.len(),
    ensures
        byte_len(s.take(i)) <= byte_len(s.take(j)),
    decreases j - i,
{
    if i < j {
        lemma_byte_len_step(s, j - 1);
        lemma_byte_len_grows(s, i, j - 1);
    }
}

/// The longest beginning within `k` bytes is the one that the next character
/// would take past `k`.
pub proof fn lemma_byte_prefix_at(s: Seq<char>, k: nat, j: int)
    requires
        0 <= j <= s.len(),
        byte_len(s.take(j)) <= k,
        j == s.len() || byte_len(s.take(j + 1)) > k,
    ensures
        byte_prefix(s, k) == s.take(j),
    decreases s.len(),
{
    assert(s.take(s.len() as int) =~= s);
    if s.len() == 0 {
        assert(s.take(j) =~= s);
    } else if byte_len(s) <= k {
        if j < s.len() {
            lemma_byte_len_grows(s, j + 1, s.len() as int);
        }
        assert(s.take(j) =~= s);
    } else {
        let t = s.drop_last();
        assert(j < s.len());
        assert(t.take(j) =~= s.take(j));
        if j < t.len() {
            assert(t.take(j + 1) =~= s.take(j + 1));
        } else {
            assert(t.take(j) =~= t);
        }
        lemma_byte_prefix_at(t, k, j);
    }
}

/// The bytes that `c` takes in UTF-8.
pub fn utf8_width_of(c: char) -> (w: u128)
    ensures
        w == utf8_width(c),
{
    let n = c as u32;
    if n < 0x80 {
        1
    } else if n < 0x800 {
        2
    } else if n < 0x10000 {
        3
    } else {
        4
    }
}

/// A column of a listing (see `column`).
pub fn column_of(s: &str, n: usize, keep: usize) -> (r: String)
    ensures
        r@ == column(s@, n as nat, keep as nat),
{
    let v = to_chars(s);
    assert(v@.take(0) =~= Seq::<char>::empty());
    assert(v@.take(v@.len() as int) =~= v@);
    let mut i: usize = 0;
    let mut b: u128 = 0;
    while i < v.len() && b <= n as u128
        invariant
            v@ == s@,
            i <= v@.len(),
            b == byte_len(v@.take(i as int)),
            b <= n + 4,
        decreases v@.len() - i,
    {
        proof {
            lemma_byte_len_step(v@, i as int);
        }
        b = b + utf8_width_of(v[i]);
        i += 1;
    }
    proof {
        lemma_byte_len_grows(v@, i as int, v@.len() as int);
    }
    if b <= n as u128 {
        assert(v@.subrange(0, v@.len() as int) =~= v@);
        return string_of(&v, 0, v.len());
    }
    let mut j: usize = 0;
    let mut c: u128 = 0;
    while j < v.len() && c + utf8_width_of(v[j]) <= keep as u128
        invariant
            v@ == s@,
            j <= v@.len(),
            c == byte_len(v@.take(j as int)),
            c <= keep,
        decreases v@.len() - j,
    {
        proof {
            lemma_byte_len_step(v@, j as int);
        }
        c = c + utf8_width_of(v[j]);
        j += 1;
    }
    proof {
        if j < v.len() {
            lemma_byte_len_step(v@, j as int);
        }
        lemma_byte_prefix_at(v@, keep as nat, j as int);
    }
    assert(v@.subrange(0, j as int) =~= v@.take(j as int));
    string_of(&v, 0, j)
}

} // verus!
