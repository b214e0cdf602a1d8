//! What can be relied on of texts and numerals.
use vstd::prelude::*;

use crate::number;
use crate::number::{decimal_string, parse_i32, parse_u16, parse_u8};
use crate::text;
use crate::text::{
    before, is_white, lines, same, second_piece, split, to_lower, trim, trim_end, trim_end_char,
    trim_matches_char, words,
};

verus! {

// ---------------------------------------------------------------------------
// Numerals
// ---------------------------------------------------------------------------

/// A numeral of one digit is that digit, and one of many is the numeral of a tenth of the
/// number with the last digit behind it.
pub proof fn law_numerals(n: u64, s: String, t: String)
    requires
        call_ensures(decimal_string, (n,), s),
        call_ensures(decimal_string, (n / 10,), t),
    ensures
        n < 10 ==> s@ == seq![(48 + n) as char],
        n >= 10 ==> s@ == t@.push((48 + n % 10) as char),
{
}

/// A numeral is read as the number that it was written for, where that is not too large, and
/// else not at all; a sign in front counts.
pub proof fn law_numerals_are_read(
    n: nat,
    numeral: &str,
    negative: &str,
    small: Option<u8>,
    large: Option<u16>,
    signed: Option<i32>,
    below: Option<i32>,
)
    requires
        numeral@ == number::decimal(n),
        negative@ == seq!['-'] + number::decimal(n),
        call_ensures(parse_u8, (numeral,), small),
        call_ensures(parse_u16, (numeral,), large),
        call_ensures(parse_i32, (numeral,), signed),
        call_ensures(parse_i32, (negative,), below),
    ensures
        n <= 255 ==> small == Some(n as u8),
        n > 255 ==> small is None,
        n <= 65535 ==> large == Some(n as u16),
        n > 65535 ==> large is None,
        n <= i32::MAX ==> signed == Some(n as i32) && (below matches Some(x) && x == -n),
        n > i32::MAX ==> signed is None,
        n > i32::MAX + 1 ==> below is None,
{
    number::lemma_decimal(n);
    assert(number::is_digit(number::decimal(n)[0]));
    assert(negative@.skip(1) =~= number::decimal(n));
}

/// What is empty, or holds something else than digits behind a sign, is no number.
pub proof fn law_no_numerals(s: &str, i: int, small: Option<u8>, large: Option<u16>, signed: Option<i32>)
    requires
        s@.len() == 0 || (1 <= i < s@.len() && !('0' <= s@[i] && s@[i] <= '9')),
        call_ensures(parse_u8, (s,), small),
        call_ensures(parse_u16, (s,), large),
        call_ensures(parse_i32, (s,), signed),
    ensures
        small is None,
        large is None,
        signed is None,
{
    if s@.len() > 0 {
        assert(!number::is_digit(s@[i]));
        assert(s@.skip(1)[i - 1] == s@[i]);
    }
}

/// A numeral that is aligned to the right has at least the width that was asked for, and
/// nothing but spaces in front of it.
pub proof fn law_alignment(numeral: Seq<char>, width: nat)
    ensures
        ({
            let s = number::right_aligned(numeral, width);
            &&& s.len() == (if numeral.len() < width {
                width
            } else {
                numeral.len()
            })
            &&& s.skip(s.len() - numeral.len()) == numeral
            &&& forall|i: int| 0 <= i < s.len() - numeral.len() ==> #[trigger] s[i] == ' '
        }),
{
    let s = number::right_aligned(numeral, width);
    assert(s.skip(s.len() - numeral.len()) =~= numeral);
}

// ---------------------------------------------------------------------------
// White space
// ---------------------------------------------------------------------------

/// Spaces, tabs and the ends of lines are white; nothing else of ASCII is.
pub proof fn law_white_space(c: char, r: bool)
    requires
        (c as int) < 128,
        call_ensures(is_white, (c,), r),
    ensures
        r <==> c == ' ' || c == '\t' || c == '\n' || c == '\r' || c as int == 11 || c as int == 12,
{
}

/// Every character is white.
pub open spec fn all_white(s: Seq<char>) -> bool {
    forall|i: int| 0 <= i < s.len() ==> text::is_space(#[trigger] s[i])
}

proof fn lemma_start(a: Seq<char>, s: Seq<char>)
    requires
        all_white(a),
    ensures
        text::trimmed_start(a + s) == text::trimmed_start(s),
    decreases a.len(),
{
    if a.len() > 0 {
        assert(text::is_space(a[0]));
        assert((a + s)[0] == a[0]);
        assert((a + s).skip(1) =~= a.skip(1) + s);
        assert forall|i: int| 0 <= i < a.skip(1).len() implies text::is_space(
            #[trigger] a.skip(1)[i],
        ) by {
            assert(text::is_space(a[i + 1]));
        }
        lemma_start(a.skip(1), s);
    } else {
        assert(a + s =~= s);
    }
}

proof fn lemma_end(s: Seq<char>, b: Seq<char>)
    requires
        all_white(b),
    ensures
        text::trimmed_end(s + b) == text::trimmed_end(s),
    decreases b.len(),
{
    if b.len() > 0 {
        assert(text::is_space(b[b.len() - 1]));
        assert((s + b).last() == b.last());
        assert((s + b).drop_last() =~= s + b.drop_last());
        assert forall|i: int| 0 <= i < b.drop_last().len() implies text::is_space(
            #[trigger] b.drop_last()[i],
        ) by {
            assert(text::is_space(b[i]));
        }
        lemma_end(s, b.drop_last());
    } else {
        assert(s + b =~= s);
    }
}

/// To trim a text takes the white space away from around it, and nothing else.
pub proof fn law_trimming(
    s: &str,
    a: Seq<char>,
    core: Seq<char>,
    b: Seq<char>,
    both: String,
    end: String,
)
    requires
        s@ == a + core + b,
        all_white(a),
        all_white(b),
        core.len() > 0 ==> !text::is_space(core[0]) && !text::is_space(core.last()),
        call_ensures(trim, (s,), both),
        call_ensures(trim_end, (s,), end),
    ensures
        both@ == core,
        core.len() > 0 ==> end@ == a + core,
{
    assert(a + core + b =~= a + (core + b));
    lemma_start(a, core + b);
    lemma_end(a + core, b);
    if core.len() > 0 {
        assert((core + b)[0] == core[0]);
        lemma_end(core, b);
        assert((a + core).last() == core.last());
    } else {
        assert(core + b =~= b);
        lemma_all_white(b);
        assert(core =~= Seq::empty());
    }
}

proof fn lemma_all_white(b: Seq<char>)
    requires
        all_white(b),
    ensures
        text::trimmed(b) == Seq::<char>::empty(),
    decreases b.len(),
{
    let none = Seq::<char>::empty();
    assert(b + none =~= b);
    lemma_start(b, none);
}

// ---------------------------------------------------------------------------
// Parts of texts
// ---------------------------------------------------------------------------

/// Two texts are the same exactly if they have the same characters.
pub proof fn law_same_texts(a: &str, b: &str, r: bool)
    requires
        call_ensures(same, (a, b), r),
    ensures
        r <==> (a@.len() == b@.len() && forall|i: int| 0 <= i < a@.len() ==> #[trigger] a@[i] == b@[i]),
{
    if a@.len() == b@.len() && (forall|i: int| 0 <= i < a@.len() ==> #[trigger] a@[i] == b@[i]) {
        assert(a@ =~= b@);
    }
}

/// A character parts a text into what stands in front of it, and what comes of the rest; a
/// text without it is one piece.
pub proof fn law_splitting(a: Seq<char>, sep: char, b: Seq<char>, s: &str, pieces: Vec<String>)
    requires
        !a.contains(sep),
        s@ == a + seq![sep] + b,
        call_ensures(split, (s, sep), pieces),
    ensures
        pieces@.len() == 1 + text::split_on(b, sep).len(),
        pieces@[0]@ == a,
        !b.contains(sep) ==> pieces@.len() == 2 && pieces@[1]@ == b,
        text::split_on(a, sep) == seq![a],
{
    text::lemma_split_on(a, sep, b);
    let all = text::texts(pieces@);
    assert(all.len() == pieces@.len());
    assert(all[0] == pieces@[0]@);
    if !b.contains(sep) {
        assert(all[1] == pieces@[1]@);
    }
}

/// What stands in front of the first place at which a part stands is what is left of a text
/// that is cut off there; and a text without the part is left as it is.
pub proof fn law_cutting_off(s: &str, part: &str, i: int, r: String)
    requires
        call_ensures(before, (s, part), r),
    ensures
        text::occurs_at(s@, part@, i) && (forall|j: int|
            0 <= j < i ==> !text::occurs_at(s@, part@, j)) ==> r@ == s@.take(i),
        (forall|j: int| !text::occurs_at(s@, part@, j)) ==> r@ == s@,
{
    text::lemma_first_bounds(s@, part@, 0);
    if text::occurs_at(s@, part@, i) {
        text::lemma_has_part(s@, part@, i);
    }
}

/// The piece behind the first place at which a part stands goes on to the next such place, or
/// to the end; without such a place there is none.
pub proof fn law_second_piece(s: &str, part: &str, i: int, rest: &str, r: Option<String>, cut: String)
    requires
        call_ensures(second_piece, (s, part), r),
        call_ensures(before, (rest, part), cut),
    ensures
        text::occurs_at(s@, part@, i) && (forall|j: int|
            0 <= j < i ==> !text::occurs_at(s@, part@, j)) && rest@ == s@.skip(
            i + part@.len(),
        ) ==> (r matches Some(t) && t@ == cut@),
        (forall|j: int| !text::occurs_at(s@, part@, j)) ==> r is None,
{
    text::lemma_first_bounds(s@, part@, 0);
    if text::occurs_at(s@, part@, i) {
        text::lemma_has_part(s@, part@, i);
    }
}

// ---------------------------------------------------------------------------
// Lines and words
// ---------------------------------------------------------------------------

/// A line goes on to the next newline; a carriage return in front of that does not belong to
/// it. The rest is parted into lines in the same way, and what follows on the last newline is
/// a line where there is anything.
pub proof fn law_lines(a: Seq<char>, b: Seq<char>)
    requires
        !a.contains('\n'),
    ensures
        text::lines_of(a + seq!['\n'] + b) == seq![
            if a.len() > 0 && a.last() == '\r' {
                a.drop_last()
            } else {
                a
            },
        ] + text::lines_of(b),
        a.len() > 0 ==> text::lines_of(a) == seq![a],
        text::lines_of(Seq::empty()).len() == 0,
{
    let s = a + seq!['\n'] + b;
    assert(s[a.len() as int] == '\n');
    assert(s.contains('\n'));
    let i = s.index_of_first('\n')->0;
    s.index_of_first_ensures('\n');
    assert(i == a.len()) by {
        if i < a.len() {
            assert(a[i] == '\n');
            assert(a.contains('\n'));
        }
    }
    assert(s.take(i) =~= a);
    assert(s.skip(i + 1) =~= b);
}

/// The lines that are handed out are those of the text, in order, and so are the words.
pub proof fn law_lines_and_words(s: &str, all_lines: Vec<String>, all_words: Vec<String>, i: int)
    requires
        call_ensures(lines, (s,), all_lines),
        call_ensures(words, (s,), all_words),
    ensures
        all_lines@.len() == text::lines_of(s@).len(),
        0 <= i < all_lines@.len() ==> all_lines@[i]@ == text::lines_of(s@)[i],
        all_words@.len() == text::words_of(s@).len(),
        0 <= i < all_words@.len() ==> all_words@[i]@ == text::words_of(s@)[i],
{
    assert(text::texts(all_lines@).len() == all_lines@.len());
    assert(text::texts(all_words@).len() == all_words@.len());
    if 0 <= i < all_lines@.len() {
        assert(text::texts(all_lines@)[i] == all_lines@[i]@);
    }
    if 0 <= i < all_words@.len() {
        assert(text::texts(all_words@)[i] == all_words@[i]@);
    }
}

proof fn lemma_word(w: Seq<char>, s: Seq<char>)
    requires
        forall|i: int| 0 <= i < w.len() ==> !text::is_space(#[trigger] w[i]),
        s.len() > 0 ==> text::is_space(s[0]),
    ensures
        text::word_len(w + s) == w.len(),
    decreases w.len(),
{
    if w.len() > 0 {
        assert(!text::is_space(w[0]));
        assert((w + s).skip(1) =~= w.skip(1) + s);
        assert forall|i: int| 0 <= i < w.skip(1).len() implies !text::is_space(
            #[trigger] w.skip(1)[i],
        ) by {
            assert(!text::is_space(w[i + 1]));
        }
        lemma_word(w.skip(1), s);
    } else {
        assert(w + s =~= s);
    }
}

/// White space parts a text into words, however much of it there is: it is passed over in
/// front, and a word goes on to the next of it, or to the end.
pub proof fn law_words(w: Seq<char>, c: char, s: Seq<char>)
    requires
        w.len() > 0,
        forall|i: int| 0 <= i < w.len() ==> !text::is_space(#[trigger] w[i]),
        text::is_space(c),
    ensures
        text::words_of(seq![c] + s) == text::words_of(s),
        text::words_of(w + seq![c] + s) == seq![w] + text::words_of(s),
        text::words_of(w) == seq![w],
        text::words_of(Seq::empty()).len() == 0,
{
    let rest = seq![c] + s;
    assert(rest.skip(1) =~= s);
    assert(w + seq![c] + s =~= w + rest);
    lemma_word(w, rest);
    let all = w + rest;
    assert(!text::is_space(w[0]));
    assert(all[0] == w[0]);
    assert(all.take(w.len() as int) =~= w);
    assert(all.skip(w.len() as int) =~= rest);
    let none = Seq::<char>::empty();
    lemma_word(w, none);
    assert(w + none =~= w);
    assert(w.take(w.len() as int) =~= w);
    assert(w.skip(w.len() as int) =~= none);
    assert(text::words_of(none) =~= Seq::empty());
    assert(seq![w] + text::words_of(none) =~= seq![w]);
}

// ---------------------------------------------------------------------------
// Characters
// ---------------------------------------------------------------------------

/// In lower case each letter from A to Z is the same letter from a to z, and all else stays.
pub proof fn law_lower_case(s: &str, r: String, i: int)
    requires
        call_ensures(to_lower, (s,), r),
        0 <= i < s@.len(),
    ensures
        r@.len() == s@.len(),
        'A' <= s@[i] && s@[i] <= 'Z' ==> r@[i] as int == s@[i] as int + 32,
        !('A' <= s@[i] && s@[i] <= 'Z') ==> r@[i] == s@[i],
{
}

proof fn lemma_trailing(s: Seq<char>, n: nat, c: char)
    requires
        s.len() > 0 ==> s.last() != c,
    ensures
        text::without_trailing(s + Seq::new(n, |i: int| c), c) == s,
    decreases n,
{
    let run = Seq::new(n, |i: int| c);
    if n > 0 {
        assert((s + run).last() == c);
        assert((s + run).drop_last() =~= s + Seq::new((n - 1) as nat, |i: int| c));
        lemma_trailing(s, (n - 1) as nat, c);
    } else {
        assert(s + run =~= s);
    }
}

proof fn lemma_leading(n: nat, s: Seq<char>, c: char)
    requires
        s.len() > 0 ==> s[0] != c,
    ensures
        text::without_leading(Seq::new(n, |i: int| c) + s, c) == s,
    decreases n,
{
    let run = Seq::new(n, |i: int| c);
    if n > 0 {
        assert((run + s)[0] == c);
        assert((run + s).skip(1) =~= Seq::new((n - 1) as nat, |i: int| c) + s);
        lemma_leading((n - 1) as nat, s, c);
    } else {
        assert(run + s =~= s);
    }
}

/// However often a character stands at the end of a text, it is taken away there, and at both
/// ends where that is asked for; what is between stays.
pub proof fn law_taking_away(
    m: nat,
    core: Seq<char>,
    n: nat,
    c: char,
    s: &str,
    t: &str,
    end: String,
    both: String,
)
    requires
        core.len() > 0,
        core[0] != c,
        core.last() != c,
        s@ == core + Seq::new(n, |i: int| c),
        t@ == Seq::new(m, |i: int| c) + (core + Seq::new(n, |i: int| c)),
        call_ensures(trim_end_char, (s, c), end),
        call_ensures(trim_matches_char, (t, c), both),
    ensures
        end@ == core,
        both@ == core,
{
    let tail = core + Seq::new(n, |i: int| c);
    lemma_trailing(core, n, c);
    assert(tail[0] == core[0]);
    lemma_leading(m, tail, c);
}

} // verus!
