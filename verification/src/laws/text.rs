//! Texts: numbers read back, what was cut can be joined again, and what was
//! replaced is gone.

use crate::laws::terms::stands_in;
use crate::text::{
    after_last, blank, contains, decimal, decimal_of, decimal_value, find, find_text, is_decimal,
    is_digit, is_white, join, join_texts, lemma_find, lemma_find_text, lemma_find_text_before,
    lemma_trimmed, lemma_words_cut, lemma_words_first, lemma_words_trimmed_start, lines,
    parse_signed, parse_unsigned, part_before, replace, replaced, rest_after_last, solid, split,
    split_on, split_words, to_ascii_lower, trimmed, trimmed_start, unsigned_of, until_white,
    without_return, words_of,
};
use vstd::prelude::*;

verus! {

/// The decimal notation of a number is digits, and means the number.
pub proof fn lemma_decimal_reads_back(n: nat)
    ensures
        is_decimal(decimal(n)),
        decimal_value(decimal(n)) == n,
        unsigned_of(decimal(n)) == Some(n),
        decimal(n).len() > 0,
    decreases n,
{
    let s = decimal(n);
    if n < 10 {
        assert(s.drop_last() =~= Seq::empty());
        assert(is_digit(s[0]));
        assert(decimal_value(s.drop_last()) == 0);
        assert(decimal_value(s) == n);
    } else {
        lemma_decimal_reads_back(n / 10);
        let front = decimal(n / 10);
        assert(s.drop_last() =~= front);
        assert forall|i: int| 0 <= i < s.len() implies is_digit(#[trigger] s[i]) by {
            if i < front.len() {
                assert(s[i] == front[i]);
                assert(is_digit(front[i]));
            }
        }
    }
    assert(is_digit(s[0]));
}

/// A number that is written down reads back as the same number.
pub proof fn law_numbers_read_back(n: u64, written: String, text: &str, read: Option<u64>)
    requires
        call_ensures(decimal_of, (n,), written),
        text@ == written@,
        call_ensures(parse_unsigned, (text,), read),
    ensures
        read == Some(n),
{
    lemma_decimal_reads_back(n as nat);
}

/// So does a number with a sign.
pub proof fn law_signed_numbers_read_back(n: i64, text: &str, read: Option<i64>)
    requires
        text@ == (if n < 0 {
            seq!['-'] + decimal(-n as nat)
        } else {
            decimal(n as nat)
        }),
        call_ensures(parse_signed, (text,), read),
    ensures
        read == Some(n),
{
    if n < 0 {
        lemma_decimal_reads_back(-n as nat);
        assert(text@.skip(1) =~= decimal(-n as nat));
    } else {
        lemma_decimal_reads_back(n as nat);
        assert(is_digit(decimal(n as nat)[0]));
    }
}

/// A text without a separator is its only piece; with a separator and more
/// behind it, it is the first piece before those of the rest.
pub proof fn lemma_split_first(first: Seq<char>, rest: Seq<char>, sep: char)
    requires
        !first.contains(sep),
    ensures
        split_on(first, sep) == seq![first],
        split_on(first + seq![sep] + rest, sep) == seq![first] + split_on(rest, sep),
{
    lemma_find(first, sep, 0);
    let s = first + seq![sep] + rest;
    assert forall|i: int| 0 <= i < first.len() implies s[i] != sep by {
        assert(first.contains(first[i]));
    }
    assert(s[first.len() as int] == sep);
    lemma_find(s, sep, 0);
    let at = find(s, sep, 0);
    assert(at == first.len());
    assert(s.take(at) =~= first);
    assert(s.skip(at + 1) =~= rest);
}

proof fn lemma_split(s: Seq<char>, sep: char)
    ensures
        split_on(s, sep).len() > 0,
        forall|i: int|
            0 <= i < split_on(s, sep).len() ==> !(#[trigger] split_on(s, sep)[i]).contains(sep),
        glued(split_on(s, sep), sep) == s,
    decreases s.len(),
{
    lemma_find(s, sep, 0);
    let at = find(s, sep, 0);
    let all = split_on(s, sep);
    if at < s.len() {
        let head = s.take(at);
        let rest = s.skip(at + 1);
        lemma_split(rest, sep);
        assert(all.drop_first() =~= split_on(rest, sep));
        assert(all[0] == head);
        assert forall|i: int| 0 <= i < all.len() implies !(#[trigger] all[i]).contains(sep) by {
            if i > 0 {
                assert(all[i] == split_on(rest, sep)[i - 1]);
            }
        }
        assert(s =~= head + seq![sep] + rest);
    } else {
        assert(all.drop_first() =~= Seq::empty());
    }
}

/// The pieces with the separator between them.
pub open spec fn glued(pieces: Seq<Seq<char>>, sep: char) -> Seq<char>
    decreases pieces.len(),
{
    if pieces.len() == 0 {
        Seq::empty()
    } else if pieces.len() == 1 {
        pieces[0]
    } else {
        pieces[0] + seq![sep] + glued(pieces.drop_first(), sep)
    }
}

/// The pieces of a text hold no separator, and with the separators between them
/// they are the text again.
pub proof fn law_split_can_be_glued(s: &str, sep: char, pieces: Vec<String>)
    requires
        call_ensures(split, (s, sep), pieces),
    ensures
        pieces@.len() > 0,
        glued(pieces.deep_view(), sep) == s@,
        forall|i: int| 0 <= i < pieces@.len() ==> !(#[trigger] pieces@[i])@.contains(sep),
{
    lemma_split(s@, sep);
    assert(pieces.deep_view().len() == pieces@.len());
    assert forall|i: int| 0 <= i < pieces@.len() implies !(#[trigger] pieces@[i])@.contains(
        sep,
    ) by {
        assert(pieces.deep_view()[i] == pieces@[i]@);
    }
}

/// One more text comes behind the others and a separator; a single text stands
/// alone.
pub proof fn law_join(
    front: &Vec<String>,
    all: &Vec<String>,
    sep: &str,
    joined_front: String,
    joined_all: String,
)
    requires
        call_ensures(join_texts, (front, sep), joined_front),
        call_ensures(join_texts, (all, sep), joined_all),
        all@.len() == front@.len() + 1,
        all.deep_view().drop_last() == front.deep_view(),
    ensures
        front@.len() > 0 ==> joined_all@ == joined_front@ + sep@ + all@.last()@,
        front@.len() == 0 ==> joined_all@ == all@.last()@,
{
    assert(all.deep_view().last() == all@.last()@);
    assert(all.deep_view().len() == all@.len());
}

proof fn lemma_replaced_head(a: Seq<char>, rest: Seq<char>, pattern: Seq<char>, by: Seq<char>)
    requires
        pattern.len() > 0,
        pattern.is_prefix_of(rest),
        forall|i: int|
            0 <= i < a.len() ==> !pattern.is_prefix_of(#[trigger] (a + rest).skip(i)),
    ensures
        replaced(a + rest, pattern, by) == a + by + replaced(
            rest.skip(pattern.len() as int),
            pattern,
            by,
        ),
    decreases a.len(),
{
    let s = a + rest;
    if a.len() == 0 {
        assert(s =~= rest);
        assert(a + by =~= by);
    } else {
        assert(s.skip(0) =~= s);
        assert(!pattern.is_prefix_of(s.skip(0)));
        let b = a.drop_first();
        assert(s.skip(1) =~= b + rest);
        assert forall|i: int| 0 <= i < b.len() implies !pattern.is_prefix_of(
            #[trigger] (b + rest).skip(i),
        ) by {
            assert((b + rest).skip(i) =~= s.skip(i + 1));
            assert(!pattern.is_prefix_of(s.skip(i + 1)));
        }
        lemma_replaced_head(b, rest, pattern, by);
        assert(a =~= seq![s[0]] + b);
        assert(replaced(s, pattern, by) =~= a + by + replaced(
            rest.skip(pattern.len() as int),
            pattern,
            by,
        ));
    }
}

proof fn lemma_replaced_none(s: Seq<char>, pattern: Seq<char>, by: Seq<char>)
    requires
        pattern.len() > 0,
        forall|i: int| 0 <= i < s.len() ==> !pattern.is_prefix_of(#[trigger] s.skip(i)),
    ensures
        replaced(s, pattern, by) == s,
    decreases s.len(),
{
    if s.len() > 0 {
        assert(s.skip(0) =~= s);
        assert(!pattern.is_prefix_of(s.skip(0)));
        let rest = s.skip(1);
        assert forall|i: int| 0 <= i < rest.len() implies !pattern.is_prefix_of(
            #[trigger] rest.skip(i),
        ) by {
            assert(rest.skip(i) =~= s.skip(i + 1));
            assert(!pattern.is_prefix_of(s.skip(i + 1)));
        }
        lemma_replaced_none(rest, pattern, by);
        assert(seq![s[0]] + rest =~= s);
    }
}

/// A text in which the pattern stands nowhere stays as it is.
pub proof fn law_replace_nothing(s: &str, pattern: &str, by: &str, r: String)
    requires
        pattern@.len() > 0,
        call_ensures(replace, (s, pattern, by), r),
        forall|i: int| 0 <= i < s@.len() ==> !pattern@.is_prefix_of(#[trigger] s@.skip(i)),
    ensures
        r@ == s@,
{
    lemma_replaced_none(s@, pattern@, by@);
}

/// The first occurrence of the pattern gives way to the replacement, what stands
/// before it stays, and the rest is treated the same way.
pub proof fn law_replace_first(
    s: &str,
    rest: &str,
    pattern: &str,
    by: &str,
    at: int,
    r: String,
    r_rest: String,
)
    requires
        pattern@.len() > 0,
        0 <= at <= s@.len(),
        pattern@.is_prefix_of(s@.skip(at)),
        forall|i: int| 0 <= i < at ==> !pattern@.is_prefix_of(#[trigger] s@.skip(i)),
        rest@ == s@.skip(at + pattern@.len()),
        call_ensures(replace, (s, pattern, by), r),
        call_ensures(replace, (rest, pattern, by), r_rest),
    ensures
        r@ == s@.take(at) + by@ + r_rest@,
{
    let tail = s@.skip(at);
    assert(s@.take(at) + tail =~= s@);
    assert(tail.skip(pattern@.len() as int) =~= rest@);
    lemma_replaced_head(s@.take(at), tail, pattern@, by@);
}

/// Lower case keeps the length, turns `A` to `Z` into the letter 32 places on,
/// and leaves every other character as it is.
pub proof fn law_lower_case(s: &str, r: String, i: int)
    requires
        call_ensures(to_ascii_lower, (s,), r),
        0 <= i < s@.len(),
    ensures
        r@.len() == s@.len(),
        'A' <= s@[i] <= 'Z' ==> r@[i] as u32 == s@[i] as u32 + 32,
        !('A' <= s@[i] <= 'Z') ==> r@[i] == s@[i],
{
}

/// A text contains another exactly where that one stands somewhere in it.
pub proof fn law_contains(s: &str, part: &str, r: bool)
    requires
        call_ensures(contains, (s, part), r),
    ensures
        r <==> exists|i: int| 0 <= i <= s@.len() && part@.is_prefix_of(#[trigger] s@.skip(i)),
{
    lemma_find_text(s@, part@, 0);
    if r {
        assert(part@.is_prefix_of(s@.skip(find_text(s@, part@, 0))));
    }
    if exists|i: int| 0 <= i <= s@.len() && part@.is_prefix_of(#[trigger] s@.skip(i)) {
        let i = choose|i: int| 0 <= i <= s@.len() && part@.is_prefix_of(#[trigger] s@.skip(i));
        lemma_find_text_before(s@, part@, 0, i);
    }
}

/// What stands before the first separator holds none, and is followed by one or
/// by nothing.
pub proof fn law_part_before(s: &str, sep: char, r: String)
    requires
        call_ensures(part_before, (s, sep), r),
    ensures
        r@.is_prefix_of(s@),
        !r@.contains(sep),
        r@.len() < s@.len() ==> s@[r@.len() as int] == sep,
{
    lemma_find(s@, sep, 0);
}

proof fn lemma_after_last_parts(s: Seq<char>, sep: char)
    ensures
        after_last(s, sep).len() <= s.len(),
        after_last(s, sep) == s.skip(s.len() - after_last(s, sep).len()),
        !after_last(s, sep).contains(sep),
        after_last(s, sep).len() < s.len() ==> s[s.len() - after_last(s, sep).len() - 1] == sep,
    decreases s.len(),
{
    if s.len() > 0 && s.last() != sep {
        let front = s.drop_last();
        lemma_after_last_parts(front, sep);
        let r = after_last(s, sep);
        assert(r =~= s.skip(s.len() - r.len()));
        assert forall|i: int| 0 <= i < r.len() implies r[i] != sep by {
            if i < r.len() - 1 {
                assert(r[i] == after_last(front, sep)[i]);
            }
        }
    } else {
        assert(after_last(s, sep) =~= s.skip(s.len() as int));
    }
}

/// What follows the last separator holds none, and is preceded by one or by
/// nothing.
pub proof fn law_rest_after_last(s: &str, sep: char, r: String)
    requires
        call_ensures(rest_after_last, (s, sep), r),
    ensures
        r@.len() <= s@.len(),
        r@ == s@.skip(s@.len() - r@.len()),
        !r@.contains(sep),
        r@.len() < s@.len() ==> s@[s@.len() - r@.len() - 1] == sep,
{
    lemma_after_last_parts(s@, sep);
}

proof fn lemma_solid(s: Seq<char>)
    ensures
        solid(s).len() == 0 <==> forall|i: int| 0 <= i < s.len() ==> is_white(#[trigger] s[i]),
    decreases s.len(),
{
    if s.len() > 0 {
        let front = s.drop_last();
        lemma_solid(front);
        if solid(s).len() == 0 {
            assert forall|i: int| 0 <= i < s.len() implies is_white(#[trigger] s[i]) by {
                if i < front.len() {
                    assert(front[i] == s[i]);
                }
            }
        }
        if forall|i: int| 0 <= i < s.len() ==> is_white(#[trigger] s[i]) {
            assert forall|i: int| 0 <= i < front.len() implies is_white(#[trigger] front[i]) by {
                assert(front[i] == s[i]);
            }
            assert(is_white(s[s.len() - 1]));
        }
    }
}

/// A text is blank exactly if it holds nothing but white space.
pub proof fn law_blank(s: &str, r: bool)
    requires
        call_ensures(blank, (s,), r),
    ensures
        r <==> forall|i: int| 0 <= i < s@.len() ==> is_white(#[trigger] s@[i]),
{
    lemma_solid(s@);
    lemma_trimmed(s@);
    lemma_solid(trimmed(s@));
    if trimmed(s@).len() > 0 {
        assert(!is_white(trimmed(s@)[0]));
    }
}

/// Each part stands in the joined text, and the first begins it.
pub proof fn lemma_part_of_join(parts: Seq<Seq<char>>, sep: Seq<char>, i: int)
    requires
        0 <= i < parts.len(),
    ensures
        stands_in(parts[i], join(parts, sep)),
        parts[0].is_prefix_of(join(parts, sep)),
    decreases parts.len(),
{
    let all = join(parts, sep);
    let last = parts.last();
    let none = Seq::<char>::empty();
    if parts.len() == 1 {
        assert(all =~= last);
        assert(all =~= (none + last) + none);
    } else {
        let front = parts.drop_last();
        let head = join(front, sep);
        assert(all == head + sep + last);
        lemma_part_of_join(front, sep, 0);
        assert(parts[0].is_prefix_of(all)) by {
            assert(all.take(parts[0].len() as int) =~= head.take(parts[0].len() as int));
        }
        if i == parts.len() - 1 {
            assert(all =~= ((head + sep) + last) + none);
        } else {
            lemma_part_of_join(front, sep, i);
            let (before, after) = choose|before: Seq<char>, after: Seq<char>|
                head == #[trigger] ((before + parts[i]) + after);
            assert(all =~= (before + parts[i]) + (after + (sep + last)));
        }
    }
}

/// What stands in a part stands in the whole.
pub proof fn lemma_stands_in(a: Seq<char>, b: Seq<char>, c: Seq<char>)
    requires
        stands_in(a, b),
        stands_in(b, c),
    ensures
        stands_in(a, c),
{
    let (b1, a1) = choose|before: Seq<char>, after: Seq<char>|
        b == #[trigger] ((before + a) + after);
    let (b2, a2) = choose|before: Seq<char>, after: Seq<char>|
        c == #[trigger] ((before + b) + after);
    assert(c =~= ((b2 + b1) + a) + (a1 + a2));
}

/// A text without white space is its only word, and white space parts words:
/// those before it come first, and then those behind it.
pub proof fn law_words(
    a: &str,
    w: char,
    b: &str,
    all: &str,
    words_a: Vec<String>,
    words_b: Vec<String>,
    words_all: Vec<String>,
)
    requires
        call_ensures(split_words, (a,), words_a),
        call_ensures(split_words, (b,), words_b),
        call_ensures(split_words, (all,), words_all),
        is_white(w),
        all@ == a@ + seq![w] + b@,
    ensures
        words_all.deep_view() == words_a.deep_view() + words_b.deep_view(),
        a@.len() > 0 && (forall|i: int| 0 <= i < a@.len() ==> !is_white(#[trigger] a@[i]))
            ==> words_a.deep_view() == seq![a@],
        a@.len() == 0 ==> words_a@.len() == 0,
{
    let tail = seq![w] + b@;
    assert(all@ =~= a@ + tail);
    lemma_words_cut(a@, tail);
    lemma_words_trimmed_start(tail);
    lemma_words_trimmed_start(b@);
    assert(tail.drop_first() =~= b@);
    assert(trimmed_start(tail) == trimmed_start(b@));
    assert(words_a.deep_view().len() == words_a@.len());
    if a@.len() > 0 && (forall|i: int| 0 <= i < a@.len() ==> !is_white(#[trigger] a@[i])) {
        assert(!is_white(a@[0]));
        lemma_words_first(a@);
        lemma_one_word(a@);
        assert(a@.skip(a@.len() as int) =~= Seq::empty());
        lemma_no_words();
        assert(words_a.deep_view() =~= seq![a@]);
    }
    if a@.len() == 0 {
        assert(a@ =~= Seq::empty());
        lemma_no_words();
    }
}

proof fn lemma_one_word(s: Seq<char>)
    requires
        forall|i: int| 0 <= i < s.len() ==> !is_white(#[trigger] s[i]),
    ensures
        until_white(s) == s,
    decreases s.len(),
{
    if s.len() > 0 {
        let rest = s.drop_first();
        assert forall|i: int| 0 <= i < rest.len() implies !is_white(#[trigger] rest[i]) by {
            assert(rest[i] == s[i + 1]);
        }
        lemma_one_word(rest);
        assert(!is_white(s[0]));
        assert(seq![s[0]] + rest =~= s);
    } else {
        assert(until_white(s) =~= s);
    }
}

proof fn lemma_no_words()
    ensures
        words_of(Seq::empty()) == Seq::<Seq<char>>::empty(),
{
    let s = Seq::<char>::empty();
    assert(trimmed_start(s) == s);
    assert(until_white(s).len() == 0);
}

/// A line feed ends a line: what stands before it is the first line, without a
/// carriage return at its end, and the rest has the others. A text without a
/// line feed is its only line.
pub proof fn law_lines(
    a: &str,
    b: &str,
    all: &str,
    lines_a: Vec<String>,
    lines_b: Vec<String>,
    lines_all: Vec<String>,
)
    requires
        call_ensures(lines, (a,), lines_a),
        call_ensures(lines, (b,), lines_b),
        call_ensures(lines, (all,), lines_all),
        !a@.contains('\n'),
        all@ == a@ + seq!['\n'] + b@,
    ensures
        a@.len() > 0 ==> lines_a.deep_view() == seq![a@],
        a@.len() == 0 ==> lines_a@.len() == 0,
        a@.len() == 0 || a@.last() != '\r' ==> lines_all.deep_view() == seq![a@]
            + lines_b.deep_view(),
        a@.len() > 0 && a@.last() == '\r' ==> lines_all.deep_view() == seq![a@.drop_last()]
            + lines_b.deep_view(),
{
    lemma_split_first(a@, b@, '\n');
    let own = split_on(a@, '\n');
    assert(own.drop_last() =~= Seq::empty());
    assert(lines_a.deep_view().len() == lines_a@.len());
    if a@.len() > 0 {
        assert(lines_a.deep_view() =~= seq![a@]);
    }
    let rest = split_on(b@, '\n');
    lemma_split(b@, '\n');
    let pieces = split_on(all@, '\n');
    assert(pieces == seq![a@] + rest);
    assert(pieces.last() == rest.last());
    assert(pieces.drop_last() =~= seq![a@] + rest.drop_last());
    let bare = |p: Seq<char>| without_return(p);
    assert(pieces.drop_last().map_values(bare) =~= seq![without_return(a@)]
        + rest.drop_last().map_values(bare));
    assert(lines_all.deep_view() =~= seq![without_return(a@)] + lines_b.deep_view());
}

/// What is read as a number is a row of digits, with a sign before it at most.
pub proof fn law_only_numbers_are_read(s: &str, r: Option<u64>, signed: Option<i64>)
    requires
        call_ensures(parse_unsigned, (s,), r),
        call_ensures(parse_signed, (s,), signed),
    ensures
        r is Some ==> s@.len() > 0 && forall|i: int|
            0 < i < s@.len() ==> '0' <= #[trigger] s@[i] <= '9',
        r is Some ==> '0' <= s@[0] <= '9' || s@[0] == '+' && s@.len() > 1,
        signed is Some ==> s@.len() > 0 && forall|i: int|
            0 < i < s@.len() ==> '0' <= #[trigger] s@[i] <= '9',
        signed is Some ==> '0' <= s@[0] <= '9' || (s@[0] == '+' || s@[0] == '-') && s@.len() > 1,
{
    let t = s@.skip(1);
    if r is Some || signed is Some {
        assert forall|i: int| 0 < i < s@.len() implies '0' <= #[trigger] s@[i] <= '9' by {
            if is_decimal(s@) {
                assert(is_digit(s@[i]));
            } else {
                assert(is_decimal(t));
                assert(is_digit(t[i - 1]));
                assert(t[i - 1] == s@[i]);
            }
        }
    }
}

} // verus!
