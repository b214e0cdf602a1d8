//! Text: the few string operations that the rest of the crate is built on, each
//! stated over sequences of characters.
use vstd::prelude::*;

verus! {

/// `String::push`: appends the character to the end of the string.
pub assume_specification[ String::push ](s: &mut String, c: char)
    ensures
        final(s)@ == old(s)@.push(c),
;

/// The texts of a list of strings.
pub open spec fn texts(v: Seq<String>) -> Seq<Seq<char>> {
    v.map_values(|s: String| s@)
}

/// The characters of a string.
pub fn chars_of(s: &str) -> (v: Vec<char>)
    ensures
        v@ == s@,
{
    let mut v: Vec<char> = Vec::new();
    for c in it: s.chars()
        invariant
            v@ == it.seq().take(it.index()),
            it.seq() == s@,
    {
        v.push(c);
    }
    v
}

/// The string made of characters `from` up to but not including `to`.
pub fn substring(chars: &Vec<char>, from: usize, to: usize) -> (s: String)
    requires
        from <= to <= chars@.len(),
    ensures
        s@ == chars@.subrange(from as int, to as int),
{
    let mut s = String::new();
    let mut i: usize = from;
    while i < to
        invariant
            from <= i <= to <= chars@.len(),
            s@ == chars@.subrange(from as int, i as int),
        decreases to - i,
    {
        s.push(chars[i]);
        i = i + 1;
    }
    s
}

/// Whether two texts are the same.
pub fn same(a: &str, b: &str) -> (r: bool)
    ensures
        r == (a@ == b@),
{
    let x = chars_of(a);
    let y = chars_of(b);
    if x.len() != y.len() {
        return false;
    }
    let mut i: usize = 0;
    while i < x.len()
        invariant
            x@ == a@,
            y@ == b@,
            x@.len() == y@.len(),
            i <= x@.len(),
            forall|j: int| 0 <= j < i ==> x@[j] == y@[j],
        decreases x@.len() - i,
    {
        if x[i] != y[i] {
            return false;
        }
        i = i + 1;
    }
    assert(a@ =~= b@);
    true
}

// ---------------------------------------------------------------------------
// White space
// ---------------------------------------------------------------------------

/// The characters with the Unicode property White_Space.
pub open spec fn is_space(c: char) -> bool {
    let n = c as u32;
    ||| 9 <= n <= 13
    ||| n == 0x20
    ||| n == 0x85
    ||| n == 0xa0
    ||| n == 0x1680
    ||| 0x2000 <= n <= 0x200a
    ||| n == 0x2028
    ||| n == 0x2029
    ||| n == 0x202f
    ||| n == 0x205f
    ||| n == 0x3000
}

/// Whether a character is white space.
pub fn is_white(c: char) -> (r: bool)
    ensures
        r == is_space(c),
{
    let n: u32 = c as u32;
    (9 <= n && n <= 13) || n == 0x20 || n == 0x85 || n == 0xa0 || n == 0x1680 || (0x2000 <= n && n
        <= 0x200a) || n == 0x2028 || n == 0x2029 || n == 0x202f || n == 0x205f || n == 0x3000
}

/// `s` without the white space it begins with.
pub open spec fn trimmed_start(s: Seq<char>) -> Seq<char>
    decreases s.len(),
{
    if s.len() > 0 && is_space(s[0]) {
        trimmed_start(s.skip(1))
    } else {
        s
    }
}

/// `s` without the white space it ends with.
pub open spec fn trimmed_end(s: Seq<char>) -> Seq<char>
    decreases s.len(),
{
    if s.len() > 0 && is_space(s.last()) {
        trimmed_end(s.drop_last())
    } else {
        s
    }
}

/// `s` without the white space at either end.
pub open spec fn trimmed(s: Seq<char>) -> Seq<char> {
    trimmed_end(trimmed_start(s))
}

/// Cuts the white space off both ends.
pub fn trim(s: &str) -> (r: String)
    ensures
        r@ == trimmed(s@),
{
    let v = chars_of(s);
    let mut from: usize = 0;
    assert(s@.skip(0) =~= s@);
    while from < v.len() && is_white(v[from])
        invariant
            v@ == s@,
            from <= v@.len(),
            trimmed_start(s@) == trimmed_start(s@.skip(from as int)),
        decreases v@.len() - from,
    {
        assert(s@.skip(from as int).skip(1) =~= s@.skip(from + 1));
        from = from + 1;
    }
    let ghost t = s@.skip(from as int);
    assert(trimmed_start(s@) == t);
    let mut to: usize = v.len();
    assert(t.take(to - from) =~= t);
    while from < to && is_white(v[to - 1])
        invariant
            v@ == s@,
            t == s@.skip(from as int),
            from <= to <= v@.len(),
            trimmed_end(t) == trimmed_end(t.take(to - from)),
        decreases to,
    {
        assert(t.take(to - from).drop_last() =~= t.take(to - 1 - from));
        to = to - 1;
    }
    assert(trimmed_end(t) == t.take(to - from));
    assert(t.take(to - from) =~= s@.subrange(from as int, to as int));
    substring(&v, from, to)
}

/// Cuts the white space off the end.
pub fn trim_end(s: &str) -> (r: String)
    ensures
        r@ == trimmed_end(s@),
{
    let v = chars_of(s);
    let mut to: usize = v.len();
    assert(s@.take(to as int) =~= s@);
    while 0 < to && is_white(v[to - 1])
        invariant
            v@ == s@,
            to <= v@.len(),
            trimmed_end(s@) == trimmed_end(s@.take(to as int)),
        decreases to,
    {
        assert(s@.take(to as int).drop_last() =~= s@.take(to - 1));
        to = to - 1;
    }
    assert(s@.take(to as int) =~= s@.subrange(0, to as int));
    substring(&v, 0, to)
}

/// A text that neither begins nor ends with white space is its own trimmed form.
pub proof fn lemma_trimmed_id(s: Seq<char>)
    requires
        s.len() > 0 ==> !is_space(s[0]) && !is_space(s.last()),
    ensures
        trimmed(s) == s,
{
}

// ---------------------------------------------------------------------------
// Searching and splitting
// ---------------------------------------------------------------------------

/// `pat` stands in `s` at position `i`.
pub open spec fn occurs_at(s: Seq<char>, pat: Seq<char>, i: int) -> bool {
    0 <= i && i + pat.len() <= s.len() && s.subrange(i, i + pat.len()) == pat
}

/// The first position at or after `from` at which `pat` stands in `s`.
pub open spec fn first_from(s: Seq<char>, pat: Seq<char>, from: int) -> Option<int>
    decreases s.len() - from + 1,
{
    if from < 0 || from > s.len() {
        None
    } else if occurs_at(s, pat, from) {
        Some(from)
    } else {
        first_from(s, pat, from + 1)
    }
}

/// `s` begins with `pat`.
pub open spec fn begins_with(s: Seq<char>, pat: Seq<char>) -> bool {
    occurs_at(s, pat, 0)
}

/// `pat` stands somewhere in `s`.
pub open spec fn has_part(s: Seq<char>, pat: Seq<char>) -> bool {
    first_from(s, pat, 0) is Some
}

/// `has_part` says what its name says.
pub proof fn lemma_has_part(s: Seq<char>, pat: Seq<char>, i: int)
    requires
        occurs_at(s, pat, i),
    ensures
        has_part(s, pat),
        first_from(s, pat, 0)->0 <= i,
        occurs_at(s, pat, first_from(s, pat, 0)->0),
{
    lemma_first_from(s, pat, 0, i);
}

proof fn lemma_first_from(s: Seq<char>, pat: Seq<char>, from: int, i: int)
    requires
        0 <= from <= i,
        occurs_at(s, pat, i),
    ensures
        first_from(s, pat, from) matches Some(k) && from <= k <= i && occurs_at(s, pat, k),
    decreases i - from,
{
    if !occurs_at(s, pat, from) {
        lemma_first_from(s, pat, from + 1, i);
    }
}

fn stands_at(v: &Vec<char>, p: &Vec<char>, i: usize) -> (r: bool)
    requires
        i <= v@.len(),
    ensures
        r == occurs_at(v@, p@, i as int),
{
    if v.len() - i < p.len() {
        return false;
    }
    let mut j: usize = 0;
    while j < p.len()
        invariant
            i + p@.len() <= v.len(),
            j <= p@.len(),
            forall|k: int| 0 <= k < j ==> v@[i + k] == p@[k],
        decreases p@.len() - j,
    {
        if v[i + j] != p[j] {
            assert(v@.subrange(i as int, i + p@.len())[j as int] != p@[j as int]);
            return false;
        }
        j = j + 1;
    }
    assert(v@.subrange(i as int, i + p@.len()) =~= p@);
    true
}

fn search(v: &Vec<char>, p: &Vec<char>, from: usize) -> (r: Option<usize>)
    requires
        from <= v@.len(),
    ensures
        match r {
            Some(k) => first_from(v@, p@, from as int) == Some(k as int),
            None => first_from(v@, p@, from as int) is None,
        },
{
    let mut i: usize = from;
    loop
        invariant
            from <= i <= v@.len(),
            first_from(v@, p@, from as int) == first_from(v@, p@, i as int),
        decreases v@.len() - i,
    {
        if stands_at(v, p, i) {
            return Some(i);
        }
        if i == v.len() {
            assert(first_from(v@, p@, i + 1) is None);
            return None;
        }
        i = i + 1;
    }
}

/// Whether the text begins with `pat`.
pub fn starts_with(s: &str, pat: &str) -> (r: bool)
    ensures
        r == begins_with(s@, pat@),
{
    let v = chars_of(s);
    let p = chars_of(pat);
    stands_at(&v, &p, 0)
}

/// Whether the text holds `pat`.
pub fn contains(s: &str, pat: &str) -> (r: bool)
    ensures
        r == has_part(s@, pat@),
{
    let v = chars_of(s);
    let p = chars_of(pat);
    search(&v, &p, 0).is_some()
}

/// What stands before the first `pat`, or the whole text.
pub open spec fn before_part(s: Seq<char>, pat: Seq<char>) -> Seq<char> {
    match first_from(s, pat, 0) {
        Some(i) => s.take(i),
        None => s,
    }
}

/// Cuts the text off at the first `pat`.
pub fn before(s: &str, pat: &str) -> (r: String)
    ensures
        r@ == before_part(s@, pat@),
{
    let v = chars_of(s);
    let p = chars_of(pat);
    let end: usize = match search(&v, &p, 0) {
        Some(i) => i,
        None => v.len(),
    };
    proof {
        lemma_first_bounds(s@, pat@, 0);
        assert(s@.subrange(0, end as int) =~= before_part(s@, pat@));
    }
    substring(&v, 0, end)
}

/// What is found is an occurrence.
pub proof fn lemma_first_bounds(s: Seq<char>, pat: Seq<char>, from: int)
    requires
        0 <= from,
    ensures
        first_from(s, pat, from) matches Some(k) ==> from <= k && occurs_at(s, pat, k),
    decreases s.len() - from + 1,
{
    if from <= s.len() && !occurs_at(s, pat, from) {
        lemma_first_bounds(s, pat, from + 1);
    }
}

/// What stands between the first `pat` and the one after it, or the end.
pub open spec fn second_part(s: Seq<char>, pat: Seq<char>) -> Option<Seq<char>> {
    match first_from(s, pat, 0) {
        Some(i) => Some(before_part(s.skip(i + pat.len()), pat)),
        None => None,
    }
}

/// The second of the pieces that `pat` parts the text into.
pub fn second_piece(s: &str, pat: &str) -> (r: Option<String>)
    ensures
        match r {
            Some(t) => second_part(s@, pat@) == Some(t@),
            None => second_part(s@, pat@) is None,
        },
{
    let v = chars_of(s);
    let p = chars_of(pat);
    match search(&v, &p, 0) {
        None => None,
        Some(i) => {
            proof {
                lemma_first_bounds(s@, pat@, 0);
            }
            let n: usize = v.len();
            let rest = substring(&v, i + p.len(), n);
            assert(rest@ =~= s@.skip(i + pat@.len()));
            Some(before(rest.as_str(), pat))
        },
    }
}

/// The pieces that the character `sep` parts the text into.
pub open spec fn split_on(s: Seq<char>, sep: char) -> Seq<Seq<char>>
    decreases s.len(),
{
    if !s.contains(sep) {
        seq![s]
    } else {
        let i = s.index_of_first(sep)->0;
        if 0 <= i < s.len() {
            seq![s.take(i)] + split_on(s.skip(i + 1), sep)
        } else {
            seq![s]
        }
    }
}

/// The pieces that the character `sep` parts the text into, in order.
pub fn split(s: &str, sep: char) -> (r: Vec<String>)
    ensures
        texts(r@) == split_on(s@, sep),
        r@.len() >= 1,
{
    let v = chars_of(s);
    let mut r: Vec<String> = Vec::new();
    let mut start: usize = 0;
    let mut i: usize = 0;
    assert(s@.skip(0) =~= s@);
    assert(texts(r@) + split_on(s@, sep) =~= split_on(s@, sep));
    while i < v.len()
        invariant
            v@ == s@,
            start <= i <= v@.len(),
            forall|j: int| start <= j < i ==> v@[j] != sep,
            texts(r@) + split_on(s@.skip(start as int), sep) == split_on(s@, sep),
        decreases v@.len() - i,
    {
        if v[i] == sep {
            let piece = substring(&v, start, i);
            let ghost rest = s@.skip(start as int);
            let ghost done = texts(r@);
            proof {
                assert(rest[i - start] == sep);
                lemma_first_index(rest, sep, i - start);
                assert(rest.take(i - start) =~= piece@);
                assert(rest.skip(i - start + 1) =~= s@.skip(i + 1));
            }
            r.push(piece);
            proof {
                assert(texts(r@) =~= done + seq![piece@]);
                assert((done + seq![piece@]) + split_on(s@.skip(i + 1), sep) =~= done + (
                seq![piece@] + split_on(s@.skip(i + 1), sep)));
            }
            start = i + 1;
        }
        i = i + 1;
    }
    let ghost done = texts(r@);
    let piece = substring(&v, start, v.len());
    proof {
        let rest = s@.skip(start as int);
        assert(rest =~= piece@);
        assert(!rest.contains(sep));
    }
    r.push(piece);
    assert(texts(r@) =~= done + seq![piece@]);
    r
}

proof fn lemma_first_index(s: Seq<char>, c: char, i: int)
    requires
        0 <= i < s.len(),
        s[i] == c,
        forall|j: int| 0 <= j < i ==> s[j] != c,
    ensures
        s.contains(c),
        s.index_of_first(c) == Some(i),
{
    s.index_of_first_ensures(c);
}

/// A text without the separator is its own only piece; in front of it stands a
/// piece of its own.
pub proof fn lemma_split_on(a: Seq<char>, sep: char, b: Seq<char>)
    requires
        !a.contains(sep),
    ensures
        split_on(a, sep) == seq![a],
        split_on(a + seq![sep] + b, sep) == seq![a] + split_on(b, sep),
{
    let s = a + seq![sep] + b;
    assert(s[a.len() as int] == sep);
    assert forall|j: int| 0 <= j < a.len() implies s[j] != sep by {
        assert(s[j] == a[j]);
    }
    lemma_first_index(s, sep, a.len() as int);
    assert(s.take(a.len() as int) =~= a);
    assert(s.skip(a.len() as int + 1) =~= b);
}

/// What does not stand in a text does not stand in a slice of it.
pub proof fn lemma_slice_has_no_part(s: Seq<char>, a: int, b: int, pat: Seq<char>)
    requires
        0 <= a <= b <= s.len(),
        !has_part(s, pat),
    ensures
        !has_part(s.subrange(a, b), pat),
{
    let t = s.subrange(a, b);
    if has_part(t, pat) {
        lemma_first_bounds(t, pat, 0);
        let k = first_from(t, pat, 0)->0;
        assert(s.subrange(a + k, a + k + pat.len()) =~= t.subrange(k, k + pat.len()));
        lemma_has_part(s, pat, a + k);
    }
}

/// What a text is cut off at does not stand in what is left.
pub proof fn lemma_before_part(s: Seq<char>, pat: Seq<char>)
    requires
        pat.len() > 0,
    ensures
        !has_part(before_part(s, pat), pat),
{
    if let Some(i) = first_from(s, pat, 0) {
        lemma_first_bounds(s, pat, 0);
        let t = s.take(i);
        if has_part(t, pat) {
            lemma_first_bounds(t, pat, 0);
            let k = first_from(t, pat, 0)->0;
            assert(s.subrange(k, k + pat.len()) =~= t.subrange(k, k + pat.len()));
            lemma_has_part(s, pat, k);
        }
    }
}

proof fn lemma_trimmed_start(s: Seq<char>) -> (a: int)
    ensures
        0 <= a <= s.len(),
        trimmed_start(s) == s.skip(a),
        trimmed_start(s).len() > 0 ==> !is_space(trimmed_start(s)[0]),
    decreases s.len(),
{
    if s.len() > 0 && is_space(s[0]) {
        let a = lemma_trimmed_start(s.skip(1));
        assert(s.skip(1).skip(a) =~= s.skip(a + 1));
        a + 1
    } else {
        assert(s.skip(0) =~= s);
        0
    }
}

proof fn lemma_trimmed_end(s: Seq<char>) -> (b: int)
    ensures
        0 <= b <= s.len(),
        trimmed_end(s) == s.take(b),
        trimmed_end(s).len() > 0 ==> !is_space(trimmed_end(s).last()),
    decreases s.len(),
{
    if s.len() > 0 && is_space(s.last()) {
        let b = lemma_trimmed_end(s.drop_last());
        assert(s.drop_last().take(b) =~= s.take(b));
        b
    } else {
        assert(s.take(s.len() as int) =~= s);
        s.len() as int
    }
}

/// A text without the white space at its ends is a slice of it, and has none there.
pub proof fn lemma_trimmed(s: Seq<char>) -> (r: (int, int))
    ensures
        0 <= r.0 <= r.1 <= s.len(),
        trimmed(s) == s.subrange(r.0, r.1),
        trimmed(trimmed(s)) == trimmed(s),
{
    let a = lemma_trimmed_start(s);
    let t = trimmed_start(s);
    let b = lemma_trimmed_end(t);
    assert(t.take(b) =~= s.subrange(a, a + b));
    lemma_trimmed_id(trimmed(s));
    (a, a + b)
}

/// Each piece that a character parts a text into is a slice of it, and does not hold the
/// character.
pub proof fn lemma_piece(s: Seq<char>, sep: char, k: int) -> (r: (int, int))
    requires
        0 <= k < split_on(s, sep).len(),
    ensures
        0 <= r.0 <= r.1 <= s.len(),
        split_on(s, sep)[k] == s.subrange(r.0, r.1),
        !split_on(s, sep)[k].contains(sep),
    decreases s.len(),
{
    s.index_of_first_ensures(sep);
    if !s.contains(sep) {
        assert(s.subrange(0, s.len() as int) =~= s);
        (0, s.len() as int)
    } else {
        let i = s.index_of_first(sep)->0;
        let rest = s.skip(i + 1);
        if k == 0 {
            let piece = s.take(i);
            assert(s.subrange(0, i) =~= piece);
            if piece.contains(sep) {
                let j = choose|j: int| 0 <= j < piece.len() && piece[j] == sep;
                assert(s[j] == sep);
            }
            (0, i)
        } else {
            let (a, b) = lemma_piece(rest, sep, k - 1);
            assert(split_on(s, sep)[k] == split_on(rest, sep)[k - 1]);
            assert(rest.subrange(a, b) =~= s.subrange(i + 1 + a, i + 1 + b));
            (i + 1 + a, i + 1 + b)
        }
    }
}

// ---------------------------------------------------------------------------
// Lines and words
// ---------------------------------------------------------------------------

/// A line without the carriage return that it may end with.
pub open spec fn without_cr(s: Seq<char>) -> Seq<char> {
    if s.len() > 0 && s.last() == '\r' {
        s.drop_last()
    } else {
        s
    }
}

/// The lines of a text. Each ends with a newline, with or without a carriage return
/// in front of it, but the last, which may go on to the end of the text.
pub open spec fn lines_of(s: Seq<char>) -> Seq<Seq<char>>
    decreases s.len(),
{
    if s.len() == 0 {
        Seq::empty()
    } else if !s.contains('\n') {
        seq![s]
    } else {
        let i = s.index_of_first('\n')->0;
        if 0 <= i < s.len() {
            seq![without_cr(s.take(i))] + lines_of(s.skip(i + 1))
        } else {
            seq![s]
        }
    }
}

/// The lines of a text, in order.
pub fn lines(s: &str) -> (r: Vec<String>)
    ensures
        texts(r@) == lines_of(s@),
{
    let v = chars_of(s);
    let n: usize = v.len();
    let mut r: Vec<String> = Vec::new();
    let mut start: usize = 0;
    let mut i: usize = 0;
    assert(s@.skip(0) =~= s@);
    assert(texts(r@) + lines_of(s@) =~= lines_of(s@));
    while i < n
        invariant
            v@ == s@,
            n == v@.len(),
            start <= i <= n,
            forall|j: int| start <= j < i ==> v@[j] != '\n',
            texts(r@) + lines_of(s@.skip(start as int)) == lines_of(s@),
        decreases n - i,
    {
        if v[i] == '\n' {
            let end: usize = if i > start && v[i - 1] == '\r' {
                i - 1
            } else {
                i
            };
            let line = substring(&v, start, end);
            let ghost rest = s@.skip(start as int);
            let ghost done = texts(r@);
            proof {
                assert(rest[i - start] == '\n');
                lemma_first_index(rest, '\n', i - start);
                assert(without_cr(rest.take(i - start)) =~= line@);
                assert(rest.skip(i - start + 1) =~= s@.skip(i + 1));
            }
            r.push(line);
            proof {
                assert(texts(r@) =~= done + seq![line@]);
                assert((done + seq![line@]) + lines_of(s@.skip(i + 1)) =~= done + (seq![line@]
                    + lines_of(s@.skip(i + 1))));
            }
            start = i + 1;
        }
        i = i + 1;
    }
    let ghost rest = s@.skip(start as int);
    assert(!rest.contains('\n'));
    if start < n {
        let ghost done = texts(r@);
        let line = substring(&v, start, n);
        assert(rest =~= line@);
        r.push(line);
        assert(texts(r@) =~= done + seq![line@]);
    } else {
        assert(texts(r@) + lines_of(rest) =~= texts(r@));
    }
    r
}

/// How many characters stand in front of the first white space.
pub open spec fn word_len(s: Seq<char>) -> nat
    decreases s.len(),
{
    if s.len() == 0 || is_space(s[0]) {
        0
    } else {
        1 + word_len(s.skip(1))
    }
}

/// The words of a text, which white space parts.
pub open spec fn words_of(s: Seq<char>) -> Seq<Seq<char>>
    decreases s.len(),
{
    if s.len() == 0 {
        Seq::empty()
    } else if is_space(s[0]) {
        words_of(s.skip(1))
    } else {
        let n = word_len(s);
        if 0 < n <= s.len() {
            seq![s.take(n as int)] + words_of(s.skip(n as int))
        } else {
            Seq::empty()
        }
    }
}

proof fn lemma_word_len(s: Seq<char>, n: int)
    requires
        0 <= n <= s.len(),
        forall|j: int| 0 <= j < n ==> !is_space(#[trigger] s[j]),
        n == s.len() || is_space(s[n]),
    ensures
        word_len(s) == n,
    decreases n,
{
    if n > 0 {
        assert(!is_space(s[0]));
        assert forall|j: int| 0 <= j < n - 1 implies !is_space(#[trigger] s.skip(1)[j]) by {
            assert(!is_space(s[j + 1]));
        }
        lemma_word_len(s.skip(1), n - 1);
    }
}

/// The words of a text, in order.
pub fn words(s: &str) -> (r: Vec<String>)
    ensures
        texts(r@) == words_of(s@),
{
    let v = chars_of(s);
    let n: usize = v.len();
    let mut r: Vec<String> = Vec::new();
    let mut i: usize = 0;
    assert(s@.skip(0) =~= s@);
    assert(texts(r@) + words_of(s@) =~= words_of(s@));
    while i < n
        invariant
            v@ == s@,
            n == v@.len(),
            i <= n,
            texts(r@) + words_of(s@.skip(i as int)) == words_of(s@),
        decreases n - i,
    {
        let ghost rest = s@.skip(i as int);
        assert(rest[0] == v@[i as int]);
        if is_white(v[i]) {
            assert(rest.skip(1) =~= s@.skip(i + 1));
            i = i + 1;
        } else {
            let mut j: usize = i;
            while j < n && !is_white(v[j])
                invariant
                    v@ == s@,
                    n == v@.len(),
                    i <= j <= n,
                    rest == s@.skip(i as int),
                    forall|k: int| 0 <= k < j - i ==> !is_space(#[trigger] rest[k]),
                decreases n - j,
            {
                assert(rest[j - i] == v@[j as int]);
                j = j + 1;
            }
            let word = substring(&v, i, j);
            let ghost done = texts(r@);
            proof {
                if j < n {
                    assert(rest[j - i] == v@[j as int]);
                }
                assert(!is_space(rest[0]));
                lemma_word_len(rest, j - i);
                assert(j > i);
                assert(rest.take(j - i) =~= word@);
                assert(rest.skip(j - i) =~= s@.skip(j as int));
            }
            r.push(word);
            proof {
                assert(texts(r@) =~= done + seq![word@]);
                assert((done + seq![word@]) + words_of(s@.skip(j as int)) =~= done + (seq![word@]
                    + words_of(s@.skip(j as int))));
            }
            i = j;
        }
    }
    assert(texts(r@) + words_of(s@.skip(n as int)) =~= texts(r@));
    r
}

/// `s` without the characters `c` that it ends with.
pub open spec fn without_trailing(s: Seq<char>, c: char) -> Seq<char>
    decreases s.len(),
{
    if s.len() > 0 && s.last() == c {
        without_trailing(s.drop_last(), c)
    } else {
        s
    }
}

/// Cuts the characters `c` off the end.
pub fn trim_end_char(s: &str, c: char) -> (r: String)
    ensures
        r@ == without_trailing(s@, c),
{
    let v = chars_of(s);
    let mut to: usize = v.len();
    assert(s@.take(to as int) =~= s@);
    while 0 < to && v[to - 1] == c
        invariant
            v@ == s@,
            to <= v@.len(),
            without_trailing(s@, c) == without_trailing(s@.take(to as int), c),
        decreases to,
    {
        assert(s@.take(to as int).drop_last() =~= s@.take(to - 1));
        to = to - 1;
    }
    assert(s@.take(to as int) =~= s@.subrange(0, to as int));
    substring(&v, 0, to)
}

/// `s` without the characters `c` that it begins with.
pub open spec fn without_leading(s: Seq<char>, c: char) -> Seq<char>
    decreases s.len(),
{
    if s.len() > 0 && s[0] == c {
        without_leading(s.skip(1), c)
    } else {
        s
    }
}

/// `s` without the characters `c` that it begins or ends with.
pub open spec fn without_both(s: Seq<char>, c: char) -> Seq<char> {
    without_trailing(without_leading(s, c), c)
}

/// Cuts the characters `c` off both ends.
pub fn trim_matches_char(s: &str, c: char) -> (r: String)
    ensures
        r@ == without_both(s@, c),
{
    let v = chars_of(s);
    let n: usize = v.len();
    let mut from: usize = 0;
    assert(s@.skip(0) =~= s@);
    while from < n && v[from] == c
        invariant
            v@ == s@,
            n == v@.len(),
            from <= n,
            without_leading(s@, c) == without_leading(s@.skip(from as int), c),
        decreases n - from,
    {
        assert(s@.skip(from as int).skip(1) =~= s@.skip(from + 1));
        from = from + 1;
    }
    assert(s@.skip(from as int) =~= s@.subrange(from as int, n as int));
    let rest = substring(&v, from, n);
    trim_end_char(rest.as_str(), c)
}

/// A letter from A to Z in lower case, and any other character as it is.
pub open spec fn lower_char(c: char) -> char {
    if 'A' <= c && c <= 'Z' {
        (c as u8 + 32) as u8 as char
    } else {
        c
    }
}

/// The text with the letters from A to Z in lower case.
pub open spec fn lowered(s: Seq<char>) -> Seq<char> {
    s.map_values(|c: char| lower_char(c))
}

/// The text with the letters from A to Z in lower case.
pub fn to_lower(s: &str) -> (r: String)
    ensures
        r@ == lowered(s@),
{
    let chars = chars_of(s);
    let mut r = String::new();
    let mut i: usize = 0;
    assert(r@ =~= lowered(s@).take(0));
    while i < chars.len()
        invariant
            chars@ == s@,
            i <= chars@.len(),
            r@ == lowered(s@).take(i as int),
        decreases chars@.len() - i,
    {
        let c = chars[i];
        if 'A' <= c && c <= 'Z' {
            r.push((c as u8 + 32) as char);
        } else {
            r.push(c);
        }
        assert(lowered(s@).take(i + 1) =~= lowered(s@).take(i as int).push(lowered(s@)[i as int]));
        i = i + 1;
    }
    assert(lowered(s@).take(i as int) =~= lowered(s@));
    r
}

// ---------------------------------------------------------------------------
// Bytes
// ---------------------------------------------------------------------------

/// The text that bytes are read as, where each part that is not UTF-8 counts as a
/// replacement character.
pub uninterp spec fn lossy_text(bytes: Seq<u8>) -> Seq<char>;

/// `String::from_utf8_lossy`: the text that the bytes encode where they are UTF-8, and
/// else a text that depends on the bytes alone, which is not stated here.
#[verifier::external_body]
pub(crate) fn from_utf8_lossy(bytes: &[u8]) -> (s: String)
    ensures
        s@ == lossy_text(bytes@),
        vstd::utf8::valid_utf8(bytes@) ==> vstd::utf8::encode_utf8(s@) == bytes@,
{
    String::from_utf8_lossy(bytes).into_owned()
}

} // verus!
