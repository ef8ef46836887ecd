use vstd::prelude::*;
use vstd::std_specs::iter::IteratorSpec;

verus! {

broadcast use {vstd::string::axiom_spec_iter, vstd::string::next_postcondition};

/// Whether `c` is an ASCII decimal digit.
pub open spec fn is_digit_char(c: char) -> bool {
    '0' <= c && c <= '9'
}

/// Value of a decimal digit character.
pub open spec fn digit_value(c: char) -> nat {
    (c as nat - '0' as nat) as nat
}

pub open spec fn all_digits(d: Seq<char>) -> bool {
    forall|i: int| 0 <= i < d.len() ==> is_digit_char(#[trigger] d[i])
}

/// The number written by a sequence of decimal digits, most significant first.
pub open spec fn digits_value(d: Seq<char>) -> nat
    decreases d.len(),
{
    if d.len() == 0 {
        0
    } else {
        digits_value(d.drop_last()) * 10 + digit_value(d.last())
    }
}

/// The text with one leading `+` or `-` removed, if there is one.
pub open spec fn strip_sign(s: Seq<char>) -> Seq<char> {
    if s.len() > 0 && (s[0] == '+' || s[0] == '-') {
        s.drop_first()
    } else {
        s
    }
}

/// The value of an unsigned decimal: an optional `+`, then one or more digits,
/// no other character (no whitespace), and at most `max`.
pub open spec fn unsigned_value(s: Seq<char>, max: nat) -> Option<nat> {
    let d = if s.len() > 0 && s[0] == '+' { s.drop_first() } else { s };
    if d.len() > 0 && all_digits(d) && digits_value(d) <= max {
        Some(digits_value(d))
    } else {
        None
    }
}

/// Optional text normalization: empty text is absent, any other text is kept as it is.
pub open spec fn optional_text(s: Seq<char>) -> Option<Seq<char>> {
    if s.len() == 0 {
        None
    } else {
        Some(s)
    }
}

/// Normalizing optional text is idempotent: empty text is absent, and text that
/// is kept is kept unchanged when normalized again.
pub proof fn lemma_optional_text_idempotent(s: Seq<char>)
    ensures
        optional_text(s) is None <==> s.len() == 0,
        optional_text(s) matches Some(t) ==> t == s && optional_text(t) == Some(t),
{
}

/// The view of an optional string.
pub open spec fn opt_view(o: Option<String>) -> Option<Seq<char>> {
    match o {
        Some(s) => Some(s@),
        None => None,
    }
}

/// The view of an optional unsigned value.
pub open spec fn opt_nat(o: Option<u64>) -> Option<nat> {
    match o {
        Some(v) => Some(v as nat),
        None => None,
    }
}

/// The characters of `s`, in order.
pub fn chars_of(s: &str) -> (r: Vec<char>)
    ensures
        r@ == s@,
{
    let mut out: Vec<char> = Vec::new();
    let mut it = s.chars();
    let ghost n = s@.len();
    loop
        invariant
            it.remaining() == s@.skip(out@.len() as int),
            out@ == s@.take(out@.len() as int),
            out@.len() <= n,
            n == s@.len(),
        decreases n - out@.len(),
    {
        match it.next() {
            Some(c) => {
                proof {
                    assert(s@.skip(out@.len() as int).drop_first() =~= s@.skip(out@.len() + 1 as int));
                }
                out.push(c);
                proof {
                    assert(out@ =~= s@.take(out@.len() as int));
                }
            },
            None => {
                assert(out@ =~= s@);
                return out;
            },
        }
    }
}

proof fn lemma_digits_value_push(d: Seq<char>, c: char)
    ensures
        digits_value(d.push(c)) == digits_value(d) * 10 + digit_value(c),
{
    assert(d.push(c).drop_last() =~= d);
}

proof fn lemma_digits_value_grows(d: Seq<char>, c: char)
    ensures
        digits_value(d.push(c)) >= digits_value(d),
{
    lemma_digits_value_push(d, c);
    assert(digits_value(d) * 10 >= digits_value(d)) by (nonlinear_arith);
}

/// Reads the digits of `v` from `start` on as a number that is at most `max`.
fn digits_at_most(v: &Vec<char>, start: usize, max: u64) -> (r: Option<u64>)
    requires
        start <= v@.len(),
    ensures
        ({
            let d = v@.skip(start as int);
            match r {
                Some(x) => all_digits(d) && digits_value(d) == x && x <= max,
                None => !all_digits(d) || digits_value(d) > max,
            }
        }),
{
    let mut acc: u64 = 0;
    let mut over = false;
    let mut i = start;
    while i < v.len()
        invariant
            start <= i <= v@.len(),
            all_digits(v@.subrange(start as int, i as int)),
            !over ==> acc as nat == digits_value(v@.subrange(start as int, i as int)) && acc <= max,
            over ==> digits_value(v@.subrange(start as int, i as int)) > max,
        decreases v@.len() - i,
    {
        let c = v[i];
        if !('0' <= c && c <= '9') {
            assert(!all_digits(v@.skip(start as int))) by {
                assert(v@.skip(start as int)[i - start] == c);
            }
            return None;
        }
        let ghost pre = v@.subrange(start as int, i as int);
        assert(v@.subrange(start as int, i + 1) =~= pre.push(c));
        proof {
            lemma_digits_value_push(pre, c);
            lemma_digits_value_grows(pre, c);
        }
        if !over {
            let dv = (c as u32 - '0' as u32) as u64;
            assert(dv as nat == digit_value(c));
            if dv > max || acc > (max - dv) / 10 {
                assert(acc * 10 + dv > max) by (nonlinear_arith)
                    requires dv > max || (dv <= max && acc > (max - dv) / 10), acc >= 0;
                over = true;
            } else {
                assert(acc * 10 + dv <= max) by (nonlinear_arith)
                    requires acc <= (max - dv) / 10, dv <= max;
                acc = acc * 10 + dv;
            }
        }
        i = i + 1;
    }
    assert(v@.subrange(start as int, v@.len() as int) =~= v@.skip(start as int));
    if over {
        None
    } else {
        Some(acc)
    }
}

/// Parses an unsigned decimal no larger than `max`.
pub fn parse_unsigned(s: &str, max: u64) -> (r: Option<u64>)
    ensures
        opt_nat(r) == unsigned_value(s@, max as nat),
{
    let v = chars_of(s);
    let start: usize = if v.len() > 0 && v[0] == '+' { 1 } else { 0 };
    let ghost d = if s@.len() > 0 && s@[0] == '+' { s@.drop_first() } else { s@ };
    assert(v@.skip(start as int) =~= d);
    if start == v.len() {
        return None;
    }
    digits_at_most(&v, start, max)
}

/// Parses text as a `u64`.
pub fn parse_u64(s: &str) -> (r: Option<u64>)
    ensures
        opt_nat(r) == unsigned_value(s@, u64::MAX as nat),
{
    parse_unsigned(s, u64::MAX)
}

/// Parses text as a `u32`.
pub fn parse_u32(s: &str) -> (r: Option<u32>)
    ensures
        match r {
            Some(v) => unsigned_value(s@, u32::MAX as nat) == Some(v as nat),
            None => unsigned_value(s@, u32::MAX as nat) is None,
        },
{
    match parse_unsigned(s, u32::MAX as u64) {
        Some(v) => Some(v as u32),
        None => None,
    }
}

/// Number of decimal digits at the start of `s`.
pub open spec fn leading_digits(s: Seq<char>) -> nat
    decreases s.len(),
{
    if s.len() > 0 && is_digit_char(s[0]) {
        1 + leading_digits(s.drop_first())
    } else {
        0
    }
}

/// An empty exponent part, or `e`/`E`, an optional sign and one or more digits.
pub open spec fn exponent_ok(r: Seq<char>) -> bool {
    r.len() == 0 || ((r[0] == 'e' || r[0] == 'E') && strip_sign(r.drop_first()).len() > 0
        && all_digits(strip_sign(r.drop_first())))
}

/// A finite decimal amount: an optional sign, digits with an optional fraction
/// (at least one digit in all), and an optional exponent. No whitespace.
pub open spec fn is_amount_text(s: Seq<char>) -> bool {
    let t = strip_sign(s);
    let n1 = leading_digits(t);
    let r1 = t.skip(n1 as int);
    if r1.len() > 0 && r1[0] == '.' {
        let f = r1.drop_first();
        let n2 = leading_digits(f);
        n1 + n2 > 0 && exponent_ok(f.skip(n2 as int))
    } else {
        n1 > 0 && exponent_ok(r1)
    }
}

proof fn lemma_skip_step(s: Seq<char>, i: int)
    requires
        0 <= i < s.len(),
    ensures
        s.skip(i).drop_first() =~= s.skip(i + 1),
        s.skip(i)[0] == s[i],
{
}

/// Counts the digits of `v` from `from` on, up to the first other character.
fn count_digits(v: &Vec<char>, from: usize) -> (n: usize)
    requires
        from <= v@.len(),
    ensures
        n as nat == leading_digits(v@.skip(from as int)),
        from + n <= v@.len(),
{
    let mut i = from;
    while i < v.len() && '0' <= v[i] && v[i] <= '9'
        invariant
            from <= i <= v@.len(),
            leading_digits(v@.skip(from as int)) == (i - from) + leading_digits(v@.skip(i as int)),
        decreases v@.len() - i,
    {
        proof {
            lemma_skip_step(v@, i as int);
        }
        i = i + 1;
    }
    if i < v.len() {
        proof {
            lemma_skip_step(v@, i as int);
        }
    }
    i - from
}

/// Whether every character of `v` from `from` on is a digit.
fn all_digits_from(v: &Vec<char>, from: usize) -> (r: bool)
    requires
        from <= v@.len(),
    ensures
        r == all_digits(v@.skip(from as int)),
{
    let mut i = from;
    while i < v.len()
        invariant
            from <= i <= v@.len(),
            all_digits(v@.subrange(from as int, i as int)),
        decreases v@.len() - i,
    {
        if !('0' <= v[i] && v[i] <= '9') {
            assert(v@.skip(from as int)[i - from] == v@[i as int]);
            return false;
        }
        assert(v@.subrange(from as int, i + 1) =~= v@.subrange(from as int, i as int).push(v@[i as int]));
        i = i + 1;
    }
    assert(v@.subrange(from as int, i as int) =~= v@.skip(from as int));
    true
}

/// Whether the characters of `v` from `from` on form an exponent part.
fn exponent_ok_at(v: &Vec<char>, from: usize) -> (r: bool)
    requires
        from <= v@.len(),
    ensures
        r == exponent_ok(v@.skip(from as int)),
{
    let ghost r = v@.skip(from as int);
    if from == v.len() {
        return true;
    }
    proof {
        lemma_skip_step(v@, from as int);
    }
    if !(v[from] == 'e' || v[from] == 'E') {
        return false;
    }
    let mut j = from + 1;
    if j < v.len() && (v[j] == '+' || v[j] == '-') {
        proof {
            lemma_skip_step(v@, j as int);
        }
        j = j + 1;
    }
    assert(strip_sign(r.drop_first()) =~= v@.skip(j as int));
    j < v.len() && all_digits_from(v, j)
}

/// Whether `s` is a finite decimal amount.
pub fn is_amount(s: &str) -> (r: bool)
    ensures
        r == is_amount_text(s@),
{
    let v = chars_of(s);
    let mut i: usize = 0;
    if v.len() > 0 && (v[0] == '+' || v[0] == '-') {
        i = 1;
    }
    assert(strip_sign(s@) =~= v@.skip(i as int));
    let n1 = count_digits(&v, i);
    let k = i + n1;
    assert(strip_sign(s@).skip(n1 as int) =~= v@.skip(k as int));
    if k < v.len() && v[k] == '.' {
        proof {
            lemma_skip_step(v@, k as int);
        }
        let n2 = count_digits(&v, k + 1);
        assert(v@.skip(k + 1 as int).skip(n2 as int) =~= v@.skip(k + 1 + n2));
        (n1 > 0 || n2 > 0) && exponent_ok_at(&v, k + 1 + n2)
    } else {
        if k < v.len() {
            proof {
                lemma_skip_step(v@, k as int);
            }
        }
        n1 > 0 && exponent_ok_at(&v, k)
    }
}

/// Optional text: absent when the input is empty, else the input unchanged.
pub fn normalize_optional_text(input: String) -> (r: Option<String>)
    ensures
        opt_view(r) == optional_text(input@),
{
    if input.as_str().is_empty() {
        None
    } else {
        Some(input)
    }
}

/// Optional number: present exactly when the input parses as a `u64`.
pub fn normalize_optional_u64(input: &str) -> (r: Option<u64>)
    ensures
        opt_nat(r) == unsigned_value(input@, u64::MAX as nat),
{
    parse_u64(input)
}

} // verus!
