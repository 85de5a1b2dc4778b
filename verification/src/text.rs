//! Text helpers. A string is modelled by its sequence of characters, and its
//! size in bytes by the length of its UTF-8 encoding.

use vstd::prelude::*;
use vstd::string::*;
use vstd::utf8::*;

verus! {

/// The characters with the Unicode `White_Space` property.
pub open spec fn is_white(c: char) -> bool {
    let n = c as u32;
    ||| 0x9 <= n <= 0xd
    ||| n == 0x20
    ||| n == 0x85
    ||| n == 0xa0
    ||| n == 0x1680
    ||| 0x2000 <= n <= 0x200a
    ||| n == 0x2028
    ||| n == 0x2029
    ||| n == 0x202f
    ||| n == 0x205f
    ||| n == 0x3000
}

/// `s` without its leading white space.
pub open spec fn trimmed_start(s: Seq<char>) -> Seq<char>
    decreases s.len(),
{
    if s.len() > 0 && is_white(s[0]) {
        trimmed_start(s.drop_first())
    } else {
        s
    }
}

/// `s` without its trailing white space.
pub open spec fn trimmed_end(s: Seq<char>) -> Seq<char>
    decreases s.len(),
{
    if s.len() > 0 && is_white(s.last()) {
        trimmed_end(s.drop_last())
    } else {
        s
    }
}

/// `s` without leading and trailing white space.
pub open spec fn trimmed(s: Seq<char>) -> Seq<char> {
    trimmed_end(trimmed_start(s))
}

/// True of a text that holds nothing but white space.
pub open spec fn is_blank(s: Seq<char>) -> bool {
    trimmed(s).len() == 0
}

/// The size of a text in bytes.
pub open spec fn byte_len(s: Seq<char>) -> nat {
    encode_utf8(s).len()
}

/// `str::trim`: strips the characters with the `White_Space` property from
/// both ends.
pub assume_specification[ str::trim ](s: &str) -> (r: &str)
    ensures
        r@ == trimmed(s@),
;

/// `str::trim_start`: strips the characters with the `White_Space` property
/// from the beginning.
pub assume_specification[ str::trim_start ](s: &str) -> (r: &str)
    ensures
        r@ == trimmed_start(s@),
;

/// `char::is_whitespace`: true of the characters with the `White_Space`
/// property.
pub assume_specification[ char::is_whitespace ](c: char) -> (r: bool)
    ensures
        r == is_white(c),
;

/// `String::push`: appends one character.
pub assume_specification[ std::string::String::push ](s: &mut std::string::String, c: char)
    ensures
        final(s)@ == old(s)@.push(c),
;

/// True when both texts hold the same characters.
pub fn str_eq(a: &str, b: &str) -> (r: bool)
    ensures
        r == (a@ == b@),
{
    let x = a.as_bytes();
    let y = b.as_bytes();
    proof {
        encode_utf8_decode_utf8(a@);
        encode_utf8_decode_utf8(b@);
    }
    if x.len() != y.len() {
        return false;
    }
    let mut i: usize = 0;
    while i < x.len()
        invariant
            i <= x@.len(),
            x@.len() == y@.len(),
            x@ == encode_utf8(a@),
            y@ == encode_utf8(b@),
            forall|k: int| 0 <= k < i ==> x@[k] == y@[k],
        decreases x@.len() - i,
    {
        if x[i] != y[i] {
            return false;
        }
        i = i + 1;
    }
    assert(x@ =~= y@);
    true
}

/// True when `prefix` begins `s`.
pub fn starts_with(s: &str, prefix: &str) -> (r: bool)
    ensures
        r == prefix@.is_prefix_of(s@),
{
    let n: usize = prefix.unicode_len();
    n <= s.unicode_len() && str_eq(s.substring_char(0, n), prefix)
}

/// The bytes of two texts, one after the other, are those of both.
pub proof fn lemma_byte_len_add(a: Seq<char>, b: Seq<char>)
    ensures
        byte_len(a + b) == byte_len(a) + byte_len(b),
    decreases a.len(),
{
    if a.len() == 0 {
        assert(a + b =~= b);
    } else {
        assert((a + b).drop_first() =~= a.drop_first() + b);
        lemma_byte_len_add(a.drop_first(), b);
    }
}

/// The number of bytes that a character takes.
pub open spec fn width(c: char) -> nat {
    let u = c as u32;
    if u < 0x80 {
        1
    } else if u < 0x800 {
        2
    } else if u < 0x10000 {
        3
    } else {
        4
    }
}

/// One more character adds its bytes.
pub proof fn lemma_byte_len_push(s: Seq<char>, c: char)
    ensures
        byte_len(s.push(c)) == byte_len(s) + width(c),
{
    let one = seq![c];
    assert(s.push(c) =~= s + one);
    lemma_byte_len_add(s, one);
    assert(one.drop_first() =~= Seq::<char>::empty());
    assert(encode_utf8(one.drop_first()).len() == 0);
    assert(encode_utf8(one) == encode_scalar(c as u32) + encode_utf8(one.drop_first()));
}

/// The number of bytes that a character takes.
pub fn char_width(c: char) -> (r: usize)
    ensures
        r == width(c),
{
    let u: u32 = c as u32;
    if u < 0x80 {
        1
    } else if u < 0x800 {
        2
    } else if u < 0x10000 {
        3
    } else {
        4
    }
}

/// The number of bytes that `s` takes.
pub fn bytes_len(s: &str) -> (r: usize)
    ensures
        r == byte_len(s@),
{
    s.as_bytes().len()
}

/// True of a text that holds nothing but white space.
pub fn blank(s: &str) -> (r: bool)
    ensures
        r == is_blank(s@),
{
    s.trim().is_empty()
}

/// The characters of `s`.
pub fn chars_of(s: &str) -> (r: Vec<char>)
    ensures
        r@ == s@,
{
    let mut out: Vec<char> = Vec::new();
    for c in it: s.chars()
        invariant
            it.seq() == s@,
            out@ == it.seq().take(it.index() as int),
    {
        out.push(c);
    }
    out
}

/// The text made of the characters `from..to` of `v`.
pub fn string_of(v: &Vec<char>, from: usize, to: usize) -> (r: String)
    requires
        from <= to <= v@.len(),
    ensures
        r@ == v@.subrange(from as int, to as int),
{
    let mut out = String::new();
    let mut i: usize = from;
    while i < to
        invariant
            from <= i <= to <= v@.len(),
            out@ == v@.subrange(from as int, i as int),
        decreases to - i,
    {
        out.push(v[i]);
        i = i + 1;
        assert(out@ =~= v@.subrange(from as int, i as int));
    }
    out
}

/// Both texts, one after the other.
pub fn cat2(a: &str, b: &str) -> (r: String)
    ensures
        r@ == a@ + b@,
{
    a.to_owned().concat(b)
}

/// The three texts, one after the other.
pub fn cat3(a: &str, b: &str, c: &str) -> (r: String)
    ensures
        r@ == a@ + b@ + c@,
{
    a.to_owned().concat(b).concat(c)
}

/// The five texts, one after the other.
pub fn cat5(a: &str, b: &str, c: &str, d: &str, e: &str) -> (r: String)
    ensures
        r@ == a@ + b@ + c@ + d@ + e@,
{
    a.to_owned().concat(b).concat(c).concat(d).concat(e)
}

/// What follows `prefix` in `s`, when `s` begins with it.
pub fn strip_prefix<'a>(s: &'a str, prefix: &str) -> (r: Option<&'a str>)
    ensures
        r is Some <==> prefix@.is_prefix_of(s@),
        r is Some ==> s@ == prefix@ + r->0@,
{
    if starts_with(s, prefix) {
        let n: usize = prefix.unicode_len();
        let rest = s.substring_char(n, s.unicode_len());
        assert(s@ =~= prefix@ + rest@);
        Some(rest)
    } else {
        None
    }
}

/// The index of the first `c` in `s` at or after `from`; the length of `s`
/// when there is none.
pub open spec fn find(s: Seq<char>, c: char, from: int) -> int
    decreases s.len() - from,
{
    if from < 0 || from >= s.len() {
        s.len() as int
    } else if s[from] == c {
        from
    } else {
        find(s, c, from + 1)
    }
}

/// `find` returns the first matching index and nothing before it matches.
pub proof fn lemma_find(s: Seq<char>, c: char, from: int)
    requires
        0 <= from <= s.len(),
    ensures
        from <= find(s, c, from) <= s.len(),
        find(s, c, from) < s.len() ==> s[find(s, c, from)] == c,
        forall|i: int| from <= i < find(s, c, from) ==> s[i] != c,
    decreases s.len() - from,
{
    if from < s.len() && s[from] != c {
        lemma_find(s, c, from + 1);
    }
}

/// An index is `find`'s result when it matches and nothing before it does.
pub proof fn lemma_find_is(s: Seq<char>, c: char, from: int, at: int)
    requires
        0 <= from <= at <= s.len(),
        at < s.len() ==> s[at] == c,
        forall|i: int| from <= i < at ==> s[i] != c,
    ensures
        find(s, c, from) == at,
    decreases at - from,
{
    if from < at {
        lemma_find_is(s, c, from + 1, at);
    }
}

/// The index of the first `c` in `v` at or after `from`, or the length.
pub fn find_char(v: &Vec<char>, c: char, from: usize) -> (r: usize)
    requires
        from <= v@.len(),
    ensures
        r == find(v@, c, from as int),
        from <= r <= v@.len(),
        r < v@.len() ==> v@[r as int] == c,
        forall|i: int| from <= i < r ==> v@[i] != c,
{
    let mut i: usize = from;
    while i < v.len() && v[i] != c
        invariant
            from <= i <= v@.len(),
            forall|k: int| from <= k < i ==> v@[k] != c,
        decreases v@.len() - i,
    {
        i = i + 1;
    }
    proof {
        lemma_find_is(v@, c, from as int, i as int);
    }
    i
}

/// The pieces of `s` between the occurrences of `sep`: one more than there are
/// separators.
pub open spec fn split_on(s: Seq<char>, sep: char) -> Seq<Seq<char>>
    decreases s.len(),
{
    let at = find(s, sep, 0);
    if 0 <= at < s.len() {
        seq![s.take(at)] + split_on(s.skip(at + 1), sep)
    } else {
        seq![s]
    }
}

/// The pieces of `s` between the occurrences of `sep`.
pub fn split(s: &str, sep: char) -> (r: Vec<String>)
    ensures
        r.deep_view() == split_on(s@, sep),
{
    let v = chars_of(s);
    let mut out: Vec<String> = Vec::new();
    let mut start: usize = 0;
    assert(v@.skip(0) =~= v@);
    loop
        invariant
            v@ == s@,
            start <= v@.len(),
            out.deep_view() + split_on(v@.skip(start as int), sep) == split_on(s@, sep),
        decreases v@.len() - start,
    {
        let at: usize = find_char(&v, sep, start);
        let piece = string_of(&v, start, at);
        let ghost rest = v@.skip(start as int);
        proof {
            lemma_find_is(rest, sep, 0, at - start);
            assert(rest.take(at - start) =~= v@.subrange(start as int, at as int));
        }
        let ghost before = out.deep_view();
        out.push(piece);
        assert(out.deep_view() =~= before.push(piece@));
        if at >= v.len() {
            assert(rest =~= piece@);
            assert(out.deep_view() =~= split_on(s@, sep));
            return out;
        }
        proof {
            assert(rest.skip(at - start + 1) =~= v@.skip(at + 1));
            assert(out.deep_view() + split_on(v@.skip(at + 1), sep) =~= before + split_on(rest, sep));
        }
        start = at + 1;
    }
}

/// The decimal digit of a number below ten.
pub open spec fn digit_char(d: nat) -> char {
    ('0' as u32 + d) as char
}

/// The decimal notation of `n`.
pub open spec fn decimal(n: nat) -> Seq<char>
    decreases n,
{
    if n < 10 {
        seq![digit_char(n)]
    } else {
        decimal(n / 10).push(digit_char(n % 10))
    }
}

fn digit(d: u64) -> (c: char)
    requires
        d < 10,
    ensures
        c == digit_char(d as nat),
{
    (48u8 + d as u8) as char
}

/// The decimal notation of `n`.
pub fn decimal_of(n: u64) -> (r: String)
    ensures
        r@ == decimal(n as nat),
    decreases n,
{
    if n < 10 {
        let mut out = String::new();
        out.push(digit(n));
        assert(out@ =~= decimal(n as nat));
        out
    } else {
        let mut out = decimal_of(n / 10);
        out.push(digit(n % 10));
        out
    }
}

/// The characters of `s` that are not white space, in order.
pub open spec fn solid(s: Seq<char>) -> Seq<char>
    decreases s.len(),
{
    if s.len() == 0 {
        Seq::empty()
    } else if is_white(s.last()) {
        solid(s.drop_last())
    } else {
        solid(s.drop_last()).push(s.last())
    }
}

/// The solid characters of two texts in a row.
pub proof fn lemma_solid_add(a: Seq<char>, b: Seq<char>)
    ensures
        solid(a + b) == solid(a) + solid(b),
    decreases b.len(),
{
    if b.len() == 0 {
        assert(a + b =~= a);
        assert(solid(a) + solid(b) =~= solid(a));
    } else {
        assert((a + b).drop_last() =~= a + b.drop_last());
        lemma_solid_add(a, b.drop_last());
        assert(solid(a + b) =~= solid(a) + solid(b));
    }
}

/// Trimming the beginning loses no solid character and no solid beginning.
pub proof fn lemma_trimmed_start(s: Seq<char>)
    ensures
        solid(trimmed_start(s)) == solid(s),
        trimmed_start(s).len() <= s.len(),
        trimmed_start(s).len() > 0 ==> !is_white(trimmed_start(s)[0]),
        s.len() > 0 && !is_white(s[0]) ==> trimmed_start(s) == s,
        trimmed_start(s) == s.skip(s.len() - trimmed_start(s).len()),
        trimmed_start(s).len() > 0 ==> trimmed_start(s).last() == s.last(),
    decreases s.len(),
{
    if s.len() > 0 && is_white(s[0]) {
        let rest = s.drop_first();
        lemma_trimmed_start(rest);
        let head = seq![s[0]];
        assert(s =~= head + rest);
        lemma_solid_add(head, rest);
        assert(head.drop_last() =~= Seq::<char>::empty());
        assert(head.last() == s[0]);
        assert(solid(head) == solid(Seq::<char>::empty()));
        assert(solid(head) + solid(rest) =~= solid(rest));
        assert(trimmed_start(s) =~= s.skip(s.len() - trimmed_start(s).len()));
    } else {
        assert(s =~= s.skip(0));
    }
}

/// Trimming the end loses no solid character, and keeps the beginning.
pub proof fn lemma_trimmed_end(s: Seq<char>)
    ensures
        solid(trimmed_end(s)) == solid(s),
        trimmed_end(s).len() <= s.len(),
        trimmed_end(s) == s.take(trimmed_end(s).len() as int),
        trimmed_end(s).len() > 0 ==> !is_white(trimmed_end(s).last()),
        s.len() > 0 && !is_white(s[0]) ==> trimmed_end(s).len() > 0 && trimmed_end(s)[0] == s[0],
    decreases s.len(),
{
    if s.len() > 0 && is_white(s.last()) {
        lemma_trimmed_end(s.drop_last());
        assert(trimmed_end(s) =~= s.take(trimmed_end(s).len() as int));
    } else {
        assert(s =~= s.take(s.len() as int));
    }
}

/// Trimming loses no solid character; what is left begins and ends with one.
pub proof fn lemma_trimmed(s: Seq<char>)
    ensures
        solid(trimmed(s)) == solid(s),
        trimmed(s).len() <= s.len(),
        trimmed(s).len() > 0 ==> !is_white(trimmed(s)[0]) && !is_white(trimmed(s).last()),
        s.len() > 0 && !is_white(s[0]) ==> trimmed(s).len() > 0,
{
    lemma_trimmed_start(s);
    lemma_trimmed_end(trimmed_start(s));
}

/// True of the characters `0` to `9`.
pub open spec fn is_digit(c: char) -> bool {
    '0' <= c <= '9'
}

/// True of a text of one or more decimal digits.
pub open spec fn is_decimal(s: Seq<char>) -> bool {
    s.len() > 0 && forall|i: int| 0 <= i < s.len() ==> is_digit(#[trigger] s[i])
}

/// The number that decimal digits spell out.
pub open spec fn decimal_value(s: Seq<char>) -> nat
    decreases s.len(),
{
    if s.len() == 0 {
        0
    } else {
        (decimal_value(s.drop_last()) * 10 + (s.last() as u32 - '0' as u32)) as nat
    }
}

/// A longer row of digits is no smaller number.
proof fn lemma_decimal_grows(s: Seq<char>, n: int)
    requires
        0 <= n <= s.len(),
        forall|i: int| 0 <= i < s.len() ==> is_digit(#[trigger] s[i]),
    ensures
        decimal_value(s.take(n)) <= decimal_value(s),
    decreases s.len() - n,
{
    if n < s.len() {
        assert(s.take(n + 1).drop_last() =~= s.take(n));
        assert(is_digit(s[n]));
        assert(s.take(n + 1).last() == s[n]);
        lemma_decimal_grows(s, n + 1);
    } else {
        assert(s.take(n) =~= s);
    }
}

/// The number that the digits from `from` on spell out, when they are nothing
/// but digits, at least one, and the number is below 2^64.
pub fn parse_digits(v: &Vec<char>, from: usize) -> (r: Option<u64>)
    requires
        from <= v@.len(),
    ensures
        r is Some == (is_decimal(v@.skip(from as int)) && decimal_value(v@.skip(from as int))
            <= u64::MAX),
        r is Some ==> r->0 == decimal_value(v@.skip(from as int)),
{
    let ghost s = v@.skip(from as int);
    if from == v.len() {
        return None;
    }
    let mut i: usize = from;
    while i < v.len()
        invariant
            from <= i <= v@.len(),
            s == v@.skip(from as int),
            forall|k: int| 0 <= k < i - from ==> is_digit(#[trigger] s[k]),
        decreases v@.len() - i,
    {
        assert(s[i - from] == v@[i as int]);
        if !('0' <= v[i] && v[i] <= '9') {
            return None;
        }
        i = i + 1;
    }
    let mut value: u64 = 0;
    let mut j: usize = from;
    assert(s.take(0) =~= Seq::<char>::empty());
    while j < v.len()
        invariant
            from <= j <= v@.len(),
            s == v@.skip(from as int),
            forall|k: int| 0 <= k < s.len() ==> is_digit(#[trigger] s[k]),
            value == decimal_value(s.take(j - from)),
        decreases v@.len() - j,
    {
        assert(s[j - from] == v@[j as int]);
        let d: u64 = (v[j] as u32 - '0' as u32) as u64;
        proof {
            let n = j - from;
            assert(s.take(n + 1).drop_last() =~= s.take(n));
            assert(s[n] == v@[j as int]);
            assert(s.take(n + 1).last() == s[n]);
            assert(decimal_value(s.take(n + 1)) == value * 10 + d);
            lemma_decimal_grows(s, n + 1);
        }
        let wide: u128 = value as u128 * 10 + d as u128;
        if wide > u64::MAX as u128 {
            return None;
        }
        value = wide as u64;
        j = j + 1;
    }
    assert(s.take(j - from) =~= s);
    Some(value)
}

/// What a text means as an unsigned integer: decimal digits, with or without a
/// plus sign in front.
pub open spec fn unsigned_of(s: Seq<char>) -> Option<nat> {
    let digits = if s.len() > 0 && s[0] == '+' {
        s.skip(1)
    } else {
        s
    };
    if is_decimal(digits) {
        Some(decimal_value(digits))
    } else {
        None
    }
}

/// What a text means as an unsigned 64-bit integer.
pub fn parse_unsigned(s: &str) -> (r: Option<u64>)
    ensures
        r is Some == (unsigned_of(s@) is Some && unsigned_of(s@)->0 <= u64::MAX),
        r is Some ==> r->0 == unsigned_of(s@)->0,
{
    let v = chars_of(s);
    assert(v@.skip(0) =~= v@);
    if v.len() > 0 && v[0] == '+' {
        parse_digits(&v, 1)
    } else {
        parse_digits(&v, 0)
    }
}

/// What a text means as a signed integer: decimal digits, with or without a
/// sign in front.
pub open spec fn signed_of(s: Seq<char>) -> Option<int> {
    if s.len() > 0 && s[0] == '-' {
        if is_decimal(s.skip(1)) {
            Some(-(decimal_value(s.skip(1)) as int))
        } else {
            None
        }
    } else {
        match unsigned_of(s) {
            Some(n) => Some(n as int),
            None => None,
        }
    }
}

/// What a text means as a signed 64-bit integer.
pub fn parse_signed(s: &str) -> (r: Option<i64>)
    ensures
        r is Some == (signed_of(s@) is Some && i64::MIN <= signed_of(s@)->0 <= i64::MAX),
        r is Some ==> r->0 == signed_of(s@)->0,
{
    let v = chars_of(s);
    if v.len() > 0 && v[0] == '-' {
        match parse_digits(&v, 1) {
            Some(n) => if n < 0x8000_0000_0000_0000 {
                Some(-(n as i64))
            } else if n == 0x8000_0000_0000_0000 {
                Some(i64::MIN)
            } else {
                None
            },
            None => None,
        }
    } else {
        match parse_unsigned(s) {
            Some(n) => if n <= 0x7fff_ffff_ffff_ffff {
                Some(n as i64)
            } else {
                None
            },
            None => None,
        }
    }
}

/// `s` with every occurrence of `pattern`, from the left and without overlap,
/// replaced by `by`.
pub open spec fn replaced(s: Seq<char>, pattern: Seq<char>, by: Seq<char>) -> Seq<char>
    decreases s.len(),
{
    if s.len() == 0 || pattern.len() == 0 {
        s
    } else if pattern.is_prefix_of(s) {
        by + replaced(s.skip(pattern.len() as int), pattern, by)
    } else {
        seq![s[0]] + replaced(s.skip(1), pattern, by)
    }
}

/// True when `p` stands in `v` at `at`.
fn matches_at(v: &Vec<char>, at: usize, p: &Vec<char>) -> (r: bool)
    requires
        at <= v@.len(),
    ensures
        r == p@.is_prefix_of(v@.skip(at as int)),
{
    let n: usize = v.len();
    if p.len() > n - at {
        return false;
    }
    let mut i: usize = 0;
    while i < p.len()
        invariant
            n == v@.len(),
            at + p@.len() <= n,
            i <= p@.len(),
            forall|k: int| 0 <= k < i ==> p@[k] == v@.skip(at as int)[k],
        decreases p@.len() - i,
    {
        if v[at + i] != p[i] {
            assert(v@.skip(at as int)[i as int] != p@[i as int]);
            assert(!p@.is_prefix_of(v@.skip(at as int)));
            return false;
        }
        i = i + 1;
    }
    assert(v@.skip(at as int).take(p@.len() as int) =~= p@);
    assert(p@.is_prefix_of(v@.skip(at as int)));
    true
}

/// `s` with every occurrence of `pattern` replaced by `by`.
pub fn replace(s: &str, pattern: &str, by: &str) -> (r: String)
    requires
        pattern@.len() > 0,
    ensures
        r@ == replaced(s@, pattern@, by@),
{
    let v = chars_of(s);
    let p = chars_of(pattern);
    let mut out = String::new();
    let mut i: usize = 0;
    assert(v@.skip(0) =~= v@);
    assert(out@ + replaced(v@, p@, by@) =~= replaced(v@, p@, by@));
    while i < v.len()
        invariant
            v@ == s@,
            p@ == pattern@,
            p@.len() > 0,
            i <= v@.len(),
            out@ + replaced(v@.skip(i as int), p@, by@) == replaced(s@, pattern@, by@),
        decreases v@.len() - i,
    {
        let ghost rest = v@.skip(i as int);
        let ghost before = out@;
        if matches_at(&v, i, &p) {
            out.append(by);
            i = i + p.len();
            proof {
                assert(rest.skip(p@.len() as int) =~= v@.skip(i as int));
                assert(out@ + replaced(v@.skip(i as int), p@, by@) =~= before + replaced(
                    rest,
                    p@,
                    by@,
                ));
            }
        } else {
            out.push(v[i]);
            i = i + 1;
            proof {
                assert(rest.skip(1) =~= v@.skip(i as int));
                assert(out@ + replaced(v@.skip(i as int), p@, by@) =~= before + replaced(
                    rest,
                    p@,
                    by@,
                ));
            }
        }
    }
    assert(out@ + replaced(v@.skip(i as int), p@, by@) =~= out@);
    out
}

/// A line without the carriage return at its end.
pub open spec fn without_return(s: Seq<char>) -> Seq<char> {
    if s.len() > 0 && s.last() == '\r' {
        s.drop_last()
    } else {
        s
    }
}

/// The lines of a text: what stands between its line feeds, without the empty
/// rest after the last one. A carriage return before a line feed belongs to
/// neither line.
pub open spec fn lines_of(s: Seq<char>) -> Seq<Seq<char>> {
    let pieces = split_on(s, '\n');
    let ended = pieces.drop_last().map_values(|p: Seq<char>| without_return(p));
    if pieces.last().len() == 0 {
        ended
    } else {
        ended.push(pieces.last())
    }
}

proof fn lemma_split_on_some(s: Seq<char>, sep: char)
    ensures
        split_on(s, sep).len() > 0,
    decreases s.len(),
{
    lemma_find(s, sep, 0);
}

/// The lines of a text.
pub fn lines(s: &str) -> (r: Vec<String>)
    ensures
        r.deep_view() == lines_of(s@),
{
    let pieces = split(s, '\n');
    let ghost all = pieces.deep_view();
    proof {
        lemma_split_on_some(s@, '\n');
        assert(all.last() == pieces@.last()@);
    }
    let last: usize = pieces.len() - 1;
    let mut out: Vec<String> = Vec::new();
    let mut i: usize = 0;
    while i < last
        invariant
            i <= last,
            last == pieces@.len() - 1,
            all == pieces.deep_view(),
            out@.len() == i,
            forall|k: int| 0 <= k < i ==> (#[trigger] out@[k])@ == without_return(all[k]),
        decreases last - i,
    {
        let v = chars_of(pieces[i].as_str());
        let n: usize = v.len();
        let end: usize = if n > 0 && v[n - 1] == '\r' {
            n - 1
        } else {
            n
        };
        let line = string_of(&v, 0, end);
        assert(line@ =~= without_return(all[i as int]));
        out.push(line);
        i = i + 1;
    }
    let ghost ended = all.drop_last().map_values(|p: Seq<char>| without_return(p));
    assert(out.deep_view() =~= ended);
    if !pieces[last].as_str().is_empty() {
        out.push(pieces[last].clone());
        assert(out.deep_view() =~= ended.push(all.last()));
    }
    out
}

/// The texts with `sep` between them.
pub open spec fn join(parts: Seq<Seq<char>>, sep: Seq<char>) -> Seq<char>
    decreases parts.len(),
{
    if parts.len() == 0 {
        Seq::empty()
    } else if parts.len() == 1 {
        parts[0]
    } else {
        join(parts.drop_last(), sep) + sep + parts.last()
    }
}

/// The texts with `sep` between them.
pub fn join_texts(parts: &Vec<String>, sep: &str) -> (r: String)
    ensures
        r@ == join(parts.deep_view(), sep@),
{
    let ghost all = parts.deep_view();
    let mut out = String::new();
    let mut i: usize = 0;
    while i < parts.len()
        invariant
            i <= parts@.len(),
            all == parts.deep_view(),
            out@ == join(all.take(i as int), sep@),
        decreases parts@.len() - i,
    {
        proof {
            let next = all.take(i + 1);
            assert(next.drop_last() =~= all.take(i as int));
            assert(next.last() == parts@[i as int]@);
            if i == 0 {
                assert(out@ + parts@[0]@ =~= parts@[0]@);
            }
        }
        if i > 0 {
            out.append(sep);
        }
        out.append(parts[i].as_str());
        i = i + 1;
    }
    assert(all.take(i as int) =~= all);
    out
}

/// The lower-case form of an ASCII letter; any other character as it is.
pub open spec fn lower_char(c: char) -> char {
    if 'A' <= c <= 'Z' {
        (c as u32 + 32) as char
    } else {
        c
    }
}

/// `s` with its ASCII letters in lower case.
pub open spec fn ascii_lower(s: Seq<char>) -> Seq<char> {
    s.map_values(|c: char| lower_char(c))
}

/// `s` with its ASCII letters in lower case.
pub fn to_ascii_lower(s: &str) -> (r: String)
    ensures
        r@ == ascii_lower(s@),
{
    let v = chars_of(s);
    let mut out = String::new();
    let mut i: usize = 0;
    while i < v.len()
        invariant
            i <= v@.len(),
            v@ == s@,
            out@.len() == i,
            forall|k: int| 0 <= k < i ==> out@[k] == lower_char(v@[k]),
        decreases v@.len() - i,
    {
        let c = v[i];
        if 'A' <= c && c <= 'Z' {
            out.push((c as u8 + 32) as char);
        } else {
            out.push(c);
        }
        i = i + 1;
    }
    assert(out@ =~= ascii_lower(s@));
    out
}

/// The first index at or after `from` at which `pattern` stands in `s`; one
/// past the end when there is none.
pub open spec fn find_text(s: Seq<char>, pattern: Seq<char>, from: int) -> int
    decreases s.len() + 1 - from,
{
    if from < 0 || from > s.len() {
        s.len() as int + 1
    } else if pattern.is_prefix_of(s.skip(from)) {
        from
    } else {
        find_text(s, pattern, from + 1)
    }
}

/// True when `pattern` stands somewhere in `s`.
pub open spec fn has_text(s: Seq<char>, pattern: Seq<char>) -> bool {
    find_text(s, pattern, 0) <= s.len()
}

/// The first index at which `pattern` stands in `s`, if it does.
pub proof fn lemma_find_text(s: Seq<char>, pattern: Seq<char>, from: int)
    requires
        0 <= from <= s.len() + 1,
    ensures
        from <= find_text(s, pattern, from) <= s.len() + 1,
        find_text(s, pattern, from) <= s.len() ==> pattern.is_prefix_of(
            s.skip(find_text(s, pattern, from)),
        ),
        find_text(s, pattern, from) <= s.len() ==> find_text(s, pattern, from) + pattern.len()
            <= s.len(),
        forall|i: int|
            from <= i < find_text(s, pattern, from) && i <= s.len() ==> !pattern.is_prefix_of(
                #[trigger] s.skip(i),
            ),
    decreases s.len() + 1 - from,
{
    if from <= s.len() && !pattern.is_prefix_of(s.skip(from)) {
        lemma_find_text(s, pattern, from + 1);
    }
}

/// The first occurrence is no later than any other.
pub proof fn lemma_find_text_before(s: Seq<char>, pattern: Seq<char>, from: int, at: int)
    requires
        0 <= from <= at <= s.len(),
        pattern.is_prefix_of(s.skip(at)),
    ensures
        find_text(s, pattern, from) <= at,
    decreases at - from,
{
    if from < at && !pattern.is_prefix_of(s.skip(from)) {
        lemma_find_text_before(s, pattern, from + 1, at);
    }
}

/// An index is `find_text`'s result when the pattern stands there and nowhere
/// before.
pub proof fn lemma_find_text_is(s: Seq<char>, pattern: Seq<char>, from: int, at: int)
    requires
        0 <= from <= at <= s.len(),
        pattern.is_prefix_of(s.skip(at)),
        forall|i: int| from <= i < at ==> !pattern.is_prefix_of(#[trigger] s.skip(i)),
    ensures
        find_text(s, pattern, from) == at,
    decreases at - from,
{
    if from < at {
        assert(!pattern.is_prefix_of(s.skip(from)));
        lemma_find_text_is(s, pattern, from + 1, at);
    }
}

/// The first index at which `p` stands in `v`, if it does.
pub fn search(v: &Vec<char>, p: &Vec<char>) -> (r: Option<usize>)
    ensures
        r is Some == has_text(v@, p@),
        r is Some ==> r->0 == find_text(v@, p@, 0) && r->0 + p@.len() <= v@.len(),
{
    let n: usize = v.len();
    let mut i: usize = 0;
    loop
        invariant
            n == v@.len(),
            i <= n,
            find_text(v@, p@, 0) == find_text(v@, p@, i as int),
        decreases n - i,
    {
        proof {
            lemma_find_text(v@, p@, i as int);
        }
        if matches_at(v, i, p) {
            return Some(i);
        }
        if i == n {
            return None;
        }
        i = i + 1;
    }
}

/// True when `pattern` stands somewhere in `s`.
pub fn contains(s: &str, pattern: &str) -> (r: bool)
    ensures
        r == has_text(s@, pattern@),
{
    search(&chars_of(s), &chars_of(pattern)).is_some()
}

/// What follows the last `sep` in `s`; all of it when there is none.
pub open spec fn after_last(s: Seq<char>, sep: char) -> Seq<char>
    decreases s.len(),
{
    if s.len() == 0 || s.last() == sep {
        Seq::empty()
    } else {
        after_last(s.drop_last(), sep).push(s.last())
    }
}

proof fn lemma_after_last(s: Seq<char>, sep: char, from: int)
    requires
        0 <= from <= s.len(),
        from > 0 ==> s[from - 1] == sep,
        forall|i: int| from <= i < s.len() ==> s[i] != sep,
    ensures
        after_last(s, sep) == s.skip(from),
    decreases s.len() - from,
{
    if from < s.len() {
        assert(s.last() == s[s.len() - 1]);
        lemma_after_last(s.drop_last(), sep, from);
        assert(s.drop_last().skip(from).push(s.last()) =~= s.skip(from));
    } else {
        assert(s.skip(from) =~= Seq::<char>::empty());
        if s.len() > 0 {
            assert(s.last() == sep);
        }
    }
}

/// What follows the last `sep` in `s`; all of it when there is none.
pub fn rest_after_last(s: &str, sep: char) -> (r: String)
    ensures
        r@ == after_last(s@, sep),
{
    let v = chars_of(s);
    let mut from: usize = v.len();
    while from > 0 && v[from - 1] != sep
        invariant
            from <= v@.len(),
            v@ == s@,
            forall|i: int| from <= i < v@.len() ==> v@[i] != sep,
        decreases from,
    {
        from = from - 1;
    }
    proof {
        lemma_after_last(s@, sep, from as int);
    }
    let n: usize = v.len();
    let r = string_of(&v, from, n);
    assert(v@.subrange(from as int, n as int) =~= s@.skip(from as int));
    r
}

/// What stands before the first `sep` in `s`; all of it when there is none.
pub open spec fn before_first(s: Seq<char>, sep: char) -> Seq<char> {
    s.take(find(s, sep, 0))
}

/// What stands before the first `sep` in `s`; all of it when there is none.
pub fn part_before(s: &str, sep: char) -> (r: String)
    ensures
        r@ == before_first(s@, sep),
{
    let v = chars_of(s);
    let at: usize = find_char(&v, sep, 0);
    let r = string_of(&v, 0, at);
    assert(v@.subrange(0, at as int) =~= s@.take(at as int));
    r
}

/// True when both texts are the same. All bytes are looked at, whether or not
/// a difference was found before.
pub fn same_secret(a: &str, b: &str) -> (r: bool)
    ensures
        r == (a@ == b@),
{
    let x = a.as_bytes();
    let y = b.as_bytes();
    proof {
        encode_utf8_decode_utf8(a@);
        encode_utf8_decode_utf8(b@);
    }
    if x.len() != y.len() {
        return false;
    }
    let mut same = true;
    let mut i: usize = 0;
    while i < x.len()
        invariant
            i <= x@.len(),
            x@.len() == y@.len(),
            same == (forall|k: int| 0 <= k < i ==> x@[k] == y@[k]),
        decreases x@.len() - i,
    {
        same = x[i] == y[i] && same;
        i = i + 1;
    }
    proof {
        if same {
            assert(x@ =~= y@);
        }
    }
    same
}

/// `s` up to its first white space.
pub open spec fn until_white(s: Seq<char>) -> Seq<char>
    decreases s.len(),
{
    if s.len() == 0 || is_white(s[0]) {
        Seq::empty()
    } else {
        seq![s[0]] + until_white(s.drop_first())
    }
}

proof fn lemma_until_white(s: Seq<char>, n: int)
    requires
        0 <= n <= s.len(),
        forall|i: int| 0 <= i < n ==> !is_white(#[trigger] s[i]),
        n < s.len() ==> is_white(s[n]),
    ensures
        until_white(s) == s.take(n),
    decreases n,
{
    if n > 0 {
        let rest = s.drop_first();
        assert forall|i: int| 0 <= i < n - 1 implies !is_white(#[trigger] rest[i]) by {
            assert(rest[i] == s[i + 1]);
        }
        lemma_until_white(rest, n - 1);
        assert(!is_white(s[0]));
        assert(s.take(n) =~= seq![s[0]] + rest.take(n - 1));
    } else {
        assert(s.take(0) =~= Seq::<char>::empty());
    }
}

/// The index of the first white space in `v` at or after `from`, or the length.
pub fn find_white(v: &Vec<char>, from: usize) -> (r: usize)
    requires
        from <= v@.len(),
    ensures
        from <= r <= v@.len(),
        v@.subrange(from as int, r as int) == until_white(v@.skip(from as int)),
{
    let mut i: usize = from;
    while i < v.len() && !v[i].is_whitespace()
        invariant
            from <= i <= v@.len(),
            forall|k: int| from <= k < i ==> !is_white(#[trigger] v@[k]),
        decreases v@.len() - i,
    {
        i = i + 1;
    }
    proof {
        let s = v@.skip(from as int);
        assert forall|k: int| 0 <= k < i - from implies !is_white(#[trigger] s[k]) by {
            assert(s[k] == v@[from + k]);
        }
        if i < v@.len() {
            assert(s[i - from] == v@[i as int]);
        }
        lemma_until_white(s, i - from);
        assert(s.take(i - from) =~= v@.subrange(from as int, i as int));
    }
    i
}

/// The words of a text: what stands between its white space.
pub open spec fn words_of(s: Seq<char>) -> Seq<Seq<char>>
    decreases s.len(),
{
    let start = trimmed_start(s);
    let word = until_white(start);
    if 0 < word.len() <= start.len() <= s.len() {
        seq![word] + words_of(start.skip(word.len() as int))
    } else {
        Seq::empty()
    }
}

proof fn lemma_trimmed_start_at(s: Seq<char>, n: int)
    requires
        0 <= n <= s.len(),
        forall|i: int| 0 <= i < n ==> is_white(#[trigger] s[i]),
        n < s.len() ==> !is_white(s[n]),
    ensures
        trimmed_start(s) == s.skip(n),
    decreases n,
{
    if n > 0 {
        let rest = s.drop_first();
        assert forall|i: int| 0 <= i < n - 1 implies is_white(#[trigger] rest[i]) by {
            assert(rest[i] == s[i + 1]);
        }
        lemma_trimmed_start_at(rest, n - 1);
        assert(is_white(s[0]));
        assert(rest.skip(n - 1) =~= s.skip(n));
    } else {
        assert(s.skip(0) =~= s);
    }
}

/// A word begins where solid characters do, and lies within the text.
proof fn lemma_first_word(s: Seq<char>)
    ensures
        until_white(s).len() <= s.len(),
        until_white(s) == s.take(until_white(s).len() as int),
        s.len() > 0 && !is_white(s[0]) ==> until_white(s).len() > 0,
        until_white(s).len() < s.len() ==> is_white(s[until_white(s).len() as int]),
        forall|i: int| 0 <= i < until_white(s).len() ==> !is_white(#[trigger] s[i]),
    decreases s.len(),
{
    if s.len() > 0 && !is_white(s[0]) {
        let rest = s.drop_first();
        lemma_first_word(rest);
        let n = until_white(s).len() as int;
        assert(until_white(s) =~= s.take(n));
        assert forall|i: int| 0 <= i < n implies !is_white(#[trigger] s[i]) by {
            if i > 0 {
                assert(rest[i - 1] == s[i]);
            }
        }
        if n < s.len() {
            assert(rest[n - 1] == s[n]);
        }
    } else {
        assert(until_white(s) =~= s.take(0));
    }
}

/// Leading white space does not count for the words.
pub proof fn lemma_words_trimmed_start(s: Seq<char>)
    ensures
        words_of(trimmed_start(s)) == words_of(s),
{
    lemma_trimmed_start(s);
    lemma_trimmed_start(trimmed_start(s));
}

/// The words of a text that begins with a solid character: the first one, and
/// those of the rest.
pub proof fn lemma_words_first(s: Seq<char>)
    requires
        s.len() > 0,
        !is_white(s[0]),
    ensures
        0 < until_white(s).len() <= s.len(),
        words_of(s) == seq![until_white(s)] + words_of(s.skip(until_white(s).len() as int)),
{
    lemma_trimmed_start(s);
    lemma_first_word(s);
}

/// A cut at white space goes between the words.
pub proof fn lemma_words_cut(a: Seq<char>, b: Seq<char>)
    requires
        b.len() > 0 ==> is_white(b[0]),
    ensures
        words_of(a + b) == words_of(a) + words_of(b),
    decreases a.len(),
{
    lemma_trimmed_start(a);
    let start = trimmed_start(a);
    let k = a.len() - start.len();
    lemma_trimmed_start_white(a);
    if start.len() == 0 {
        assert forall|i: int| 0 <= i < a.len() implies is_white(#[trigger] (a + b)[i]) by {
            assert((a + b)[i] == a[i]);
        }
        lemma_trimmed_start_skip(a + b, a.len() as int);
        assert((a + b).skip(a.len() as int) =~= b);
        lemma_words_trimmed_start(a + b);
        lemma_words_trimmed_start(b);
        lemma_first_word(start);
        assert(words_of(a) =~= Seq::empty());
        assert(words_of(a) + words_of(b) =~= words_of(b));
    } else {
        assert forall|i: int| 0 <= i < k implies is_white(#[trigger] (a + b)[i]) by {
            assert((a + b)[i] == a[i]);
        }
        lemma_trimmed_start_skip(a + b, k);
        assert((a + b).skip(k) =~= start + b);
        lemma_words_trimmed_start(a + b);
        lemma_words_trimmed_start(start + b);
        lemma_words_trimmed_start(a);
        lemma_first_word(start);
        let n = until_white(start).len() as int;
        let whole = start + b;
        assert forall|i: int| 0 <= i < n implies !is_white(#[trigger] whole[i]) by {
            assert(whole[i] == start[i]);
        }
        lemma_until_white(whole, n);
        assert(whole.take(n) =~= start.take(n));
        assert(whole.skip(n) =~= start.skip(n) + b);
        assert(whole[0] == start[0]);
        lemma_words_first(start);
        lemma_words_first(whole);
        lemma_words_cut(start.skip(n), b);
        assert(words_of(a + b) =~= words_of(a) + words_of(b));
    }
}

/// What is trimmed off the beginning is white space.
proof fn lemma_trimmed_start_white(s: Seq<char>)
    ensures
        forall|i: int|
            0 <= i < s.len() - trimmed_start(s).len() ==> is_white(#[trigger] s[i]),
    decreases s.len(),
{
    if s.len() > 0 && is_white(s[0]) {
        let rest = s.drop_first();
        lemma_trimmed_start_white(rest);
        assert forall|i: int| 0 <= i < s.len() - trimmed_start(s).len() implies is_white(
            #[trigger] s[i],
        ) by {
            if i > 0 {
                assert(rest[i - 1] == s[i]);
            }
        }
    }
}

/// White space at the beginning can be skipped before the rest is trimmed.
proof fn lemma_trimmed_start_skip(s: Seq<char>, n: int)
    requires
        0 <= n <= s.len(),
        forall|i: int| 0 <= i < n ==> is_white(#[trigger] s[i]),
    ensures
        trimmed_start(s) == trimmed_start(s.skip(n)),
    decreases n,
{
    if n > 0 {
        let rest = s.drop_first();
        assert(is_white(s[0]));
        assert forall|i: int| 0 <= i < n - 1 implies is_white(#[trigger] rest[i]) by {
            assert(rest[i] == s[i + 1]);
        }
        lemma_trimmed_start_skip(rest, n - 1);
        assert(rest.skip(n - 1) =~= s.skip(n));
    } else {
        assert(s.skip(0) =~= s);
    }
}

/// White space around a text does not count for its words.
pub proof fn lemma_words_trimmed(s: Seq<char>)
    ensures
        words_of(trimmed(s)) == words_of(s),
{
    lemma_words_trimmed_start(s);
    lemma_words_trimmed_end(trimmed_start(s));
}

proof fn lemma_words_trimmed_end(s: Seq<char>)
    ensures
        words_of(trimmed_end(s)) == words_of(s),
    decreases s.len(),
{
    if s.len() > 0 && is_white(s.last()) {
        let front = s.drop_last();
        let tail = seq![s.last()];
        assert(front + tail =~= s);
        lemma_words_cut(front, tail);
        lemma_trimmed_start_skip(tail, 1);
        assert(tail.skip(1) =~= Seq::<char>::empty());
        lemma_first_word(Seq::<char>::empty());
        assert(words_of(tail) =~= Seq::empty());
        assert(words_of(front) + words_of(tail) =~= words_of(front));
        lemma_words_trimmed_end(front);
    }
}

/// A cut within the first word leaves all other words in the rest.
pub proof fn lemma_words_broken(s: Seq<char>, n: int)
    requires
        0 < n < s.len(),
        forall|i: int| 0 <= i <= n ==> !is_white(#[trigger] s[i]),
    ensures
        until_white(s).len() > n,
        exists|others: Seq<Seq<char>>|
            words_of(s) == seq![until_white(s)] + others && words_of(s.skip(n)) == seq![
                until_white(s.skip(n)),
            ] + others,
{
    lemma_first_word(s);
    let m = until_white(s).len() as int;
    if m <= n {
        assert(is_white(s[m]));
    }
    let rest = s.skip(n);
    assert(rest[0] == s[n]);
    assert forall|i: int| 0 <= i < m - n implies !is_white(#[trigger] rest[i]) by {
        assert(rest[i] == s[i + n]);
    }
    if m < s.len() {
        assert(rest[m - n] == s[m]);
    }
    lemma_until_white(rest, m - n);
    lemma_words_first(s);
    lemma_words_first(rest);
    assert(rest.skip(m - n) =~= s.skip(m));
    let others = words_of(s.skip(m));
    assert(words_of(s) == seq![until_white(s)] + others);
    assert(words_of(rest) == seq![until_white(rest)] + others);
}

/// The words of a text.
pub fn split_words(s: &str) -> (r: Vec<String>)
    ensures
        r.deep_view() == words_of(s@),
{
    let v = chars_of(s);
    let mut out: Vec<String> = Vec::new();
    let mut i: usize = 0;
    assert(v@.skip(0) =~= v@);
    assert(out.deep_view() + words_of(v@) =~= words_of(v@));
    loop
        invariant
            v@ == s@,
            i <= v@.len(),
            out.deep_view() + words_of(v@.skip(i as int)) == words_of(s@),
        decreases v@.len() - i,
    {
        let ghost rest = v@.skip(i as int);
        let from: usize = i;
        let mut start: usize = i;
        while start < v.len() && v[start].is_whitespace()
            invariant
                from <= start <= v@.len(),
                forall|k: int| from <= k < start ==> is_white(#[trigger] v@[k]),
            decreases v@.len() - start,
        {
            start = start + 1;
        }
        proof {
            assert forall|k: int| 0 <= k < start - from implies is_white(#[trigger] rest[k]) by {
                assert(rest[k] == v@[from + k]);
            }
            if start < v@.len() {
                assert(rest[start - from] == v@[start as int]);
            }
            lemma_trimmed_start_at(rest, start - from);
            assert(rest.skip(start - from) =~= v@.skip(start as int));
        }
        let end: usize = find_white(&v, start);
        let ghost before = out.deep_view();
        if start == v.len() {
            proof {
                assert(words_of(rest) =~= Seq::empty());
                assert(out.deep_view() =~= words_of(s@));
            }
            return out;
        }
        proof {
            assert(!is_white(v@[start as int]));
            assert(v@.skip(start as int)[0] == v@[start as int]);
            assert(end > start);
        }
        let word = string_of(&v, start, end);
        out.push(word);
        proof {
            assert(out.deep_view() =~= before.push(word@));
            assert(v@.skip(start as int).skip(word@.len() as int) =~= v@.skip(end as int));
            assert(out.deep_view() + words_of(v@.skip(end as int)) =~= before + words_of(rest));
        }
        i = end;
    }
}

} // verus!
