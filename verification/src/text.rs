//! Character-level operations on strings, with their meaning stated over
//! sequences of characters.
use vstd::prelude::*;

verus! {

/// The views of a sequence of strings, one for one.
pub open spec fn views(v: Seq<String>) -> Seq<Seq<char>> {
    v.map_values(|s: String| s@)
}

/// `s` cut at every occurrence of `sep`. The result is never empty: a string
/// without `sep` is its own single piece, and a trailing `sep` is followed
/// by an empty piece.
pub open spec fn split(s: Seq<char>, sep: char) -> Seq<Seq<char>>
    decreases s.len(),
{
    if s.len() == 0 {
        seq![Seq::<char>::empty()]
    } else {
        let before = split(s.drop_last(), sep);
        if s.last() == sep {
            before.push(Seq::<char>::empty())
        } else {
            before.drop_last().push(before.last().push(s.last()))
        }
    }
}

/// The part of `s` behind its last `sep`, or all of `s` where it has none.
pub open spec fn last_piece(s: Seq<char>, sep: char) -> Seq<char> {
    split(s, sep).last()
}

/// `s` cut at its first `sep`: what stands before it, and what stands
/// behind it. Where `s` holds no `sep`, all of `s` and `None`.
pub open spec fn cut_first(s: Seq<char>, sep: char) -> (Seq<char>, Option<Seq<char>>)
    decreases s.len(),
{
    if s.len() == 0 {
        (s, None)
    } else if s[0] == sep {
        (Seq::<char>::empty(), Some(s.skip(1)))
    } else {
        let (head, rest) = cut_first(s.skip(1), sep);
        (seq![s[0]] + head, rest)
    }
}

/// What `str::to_lowercase` makes of a text: its lowercase equivalent by
/// the rules of Unicode.
pub uninterp spec fn lowercase(s: Seq<char>) -> Seq<char>;

/// The pieces joined again, `sep` between neighbours.
pub open spec fn join(pieces: Seq<Seq<char>>, sep: Seq<char>) -> Seq<char>
    decreases pieces.len(),
{
    if pieces.len() == 0 {
        Seq::<char>::empty()
    } else if pieces.len() == 1 {
        pieces[0]
    } else {
        join(pieces.drop_last(), sep) + sep + pieces.last()
    }
}

/// The decimal digit for `d`, which is below ten.
pub open spec fn digit(d: nat) -> char {
    if d == 0 {
        '0'
    } else if d == 1 {
        '1'
    } else if d == 2 {
        '2'
    } else if d == 3 {
        '3'
    } else if d == 4 {
        '4'
    } else if d == 5 {
        '5'
    } else if d == 6 {
        '6'
    } else if d == 7 {
        '7'
    } else if d == 8 {
        '8'
    } else {
        '9'
    }
}

/// The value of a decimal digit, `None` for any other character.
pub open spec fn digit_value(c: char) -> Option<nat> {
    if c == '0' {
        Some(0nat)
    } else if c == '1' {
        Some(1nat)
    } else if c == '2' {
        Some(2nat)
    } else if c == '3' {
        Some(3nat)
    } else if c == '4' {
        Some(4nat)
    } else if c == '5' {
        Some(5nat)
    } else if c == '6' {
        Some(6nat)
    } else if c == '7' {
        Some(7nat)
    } else if c == '8' {
        Some(8nat)
    } else if c == '9' {
        Some(9nat)
    } else {
        None
    }
}

/// `n` written in decimal, without sign or leading zeros.
pub open spec fn decimal(n: nat) -> Seq<char>
    decreases n,
{
    if n < 10 {
        seq![digit(n)]
    } else {
        decimal(n / 10).push(digit(n % 10))
    }
}

/// The number that a run of decimal digits denotes; `None` where a
/// character is no digit. The empty run denotes zero.
pub open spec fn digits_value(s: Seq<char>) -> Option<nat>
    decreases s.len(),
{
    if s.len() == 0 {
        Some(0nat)
    } else {
        match (digits_value(s.drop_last()), digit_value(s.last())) {
            (Some(high), Some(low)) => Some(high * 10 + low),
            _ => None,
        }
    }
}

/// The unsigned number that `s` denotes: an optional `+`, then at least one
/// decimal digit and nothing else.
pub open spec fn unsigned_value(s: Seq<char>) -> Option<nat> {
    let body = if s.len() > 0 && s[0] == '+' {
        s.skip(1)
    } else {
        s
    };
    if body.len() == 0 {
        None
    } else {
        digits_value(body)
    }
}

/// `c` in lower case where it is an ASCII capital, else `c` itself.
pub open spec fn ascii_lower(c: char) -> char {
    if c == 'A' {
        'a'
    } else if c == 'B' {
        'b'
    } else if c == 'C' {
        'c'
    } else if c == 'D' {
        'd'
    } else if c == 'E' {
        'e'
    } else if c == 'F' {
        'f'
    } else if c == 'G' {
        'g'
    } else if c == 'H' {
        'h'
    } else if c == 'I' {
        'i'
    } else if c == 'J' {
        'j'
    } else if c == 'K' {
        'k'
    } else if c == 'L' {
        'l'
    } else if c == 'M' {
        'm'
    } else if c == 'N' {
        'n'
    } else if c == 'O' {
        'o'
    } else if c == 'P' {
        'p'
    } else if c == 'Q' {
        'q'
    } else if c == 'R' {
        'r'
    } else if c == 'S' {
        's'
    } else if c == 'T' {
        't'
    } else if c == 'U' {
        'u'
    } else if c == 'V' {
        'v'
    } else if c == 'W' {
        'w'
    } else if c == 'X' {
        'x'
    } else if c == 'Y' {
        'y'
    } else if c == 'Z' {
        'z'
    } else {
        c
    }
}

/// Whether two texts are equal once ASCII capitals are lowered.
pub open spec fn same_ignoring_ascii_case(a: Seq<char>, b: Seq<char>) -> bool {
    a.map_values(|c: char| ascii_lower(c)) == b.map_values(|c: char| ascii_lower(c))
}

/// Whether two string slices hold the same characters.
pub fn str_eq(a: &str, b: &str) -> (r: bool)
    ensures
        r == (a@ == b@),
{
    let x = a.to_owned();
    let y = b.to_owned();
    x == y
}

/// The characters of `s`, in order.
pub fn chars_of(s: &str) -> (v: Vec<char>)
    ensures
        v@ == s@,
{
    let mut v: Vec<char> = Vec::new();
    for c in it: s.chars()
        invariant
            it.seq() == s@,
            v@ == it.seq().take(it.index()),
    {
        v.push(c);
    }
    v
}

/// Whether `s` begins with `prefix`.
pub fn has_prefix(s: &str, prefix: &str) -> (r: bool)
    ensures
        r == prefix@.is_prefix_of(s@),
{
    let sv = chars_of(s);
    let pv = chars_of(prefix);
    if pv.len() > sv.len() {
        return false;
    }
    let mut i: usize = 0;
    while i < pv.len()
        invariant
            i <= pv.len() <= sv.len(),
            sv@ == s@,
            pv@ == prefix@,
            forall|k: int| 0 <= k < i ==> sv@[k] == pv@[k],
        decreases pv.len() - i,
    {
        if sv[i] != pv[i] {
            return false;
        }
        i += 1;
    }
    true
}

/// Whether `s` ends with `suffix`.
pub fn has_suffix(s: &str, suffix: &str) -> (r: bool)
    ensures
        r == suffix@.is_suffix_of(s@),
{
    let sv = chars_of(s);
    let pv = chars_of(suffix);
    if pv.len() > sv.len() {
        return false;
    }
    let off: usize = sv.len() - pv.len();
    let mut i: usize = 0;
    while i < pv.len()
        invariant
            i <= pv.len() <= sv.len(),
            off == sv.len() - pv.len(),
            sv@ == s@,
            pv@ == suffix@,
            forall|k: int| 0 <= k < i ==> sv@[off + k] == pv@[k],
        decreases pv.len() - i,
    {
        if sv[off + i] != pv[i] {
            return false;
        }
        i += 1;
    }
    true
}

/// Whether `s` begins with the character `c`.
pub fn starts_with_char(s: &str, c: char) -> (r: bool)
    ensures
        r == (s@.len() > 0 && s@[0] == c),
{
    let sv = chars_of(s);
    sv.len() > 0 && sv[0] == c
}

/// Whether `s` ends with the character `c`.
pub fn ends_with_char(s: &str, c: char) -> (r: bool)
    ensures
        r == (s@.len() > 0 && s@.last() == c),
{
    let sv = chars_of(s);
    sv.len() > 0 && sv[sv.len() - 1] == c
}

/// Whether `c` occurs in `s`.
pub fn contains_char(s: &str, c: char) -> (r: bool)
    ensures
        r == s@.contains(c),
{
    let sv = chars_of(s);
    let mut i: usize = 0;
    while i < sv.len()
        invariant
            i <= sv.len(),
            sv@ == s@,
            forall|k: int| 0 <= k < i ==> sv@[k] != c,
        decreases sv.len() - i,
    {
        if sv[i] == c {
            return true;
        }
        i += 1;
    }
    false
}

/// The characters of `s` from position `from` up to, not including, `to`.
pub fn slice_of(s: &str, from: usize, to: usize) -> (r: String)
    requires
        from <= to <= s@.len(),
    ensures
        r@ == s@.subrange(from as int, to as int),
{
    s.substring_char(from, to).to_owned()
}

/// `s` without its first `n` characters.
pub fn skip_chars(s: &str, n: usize) -> (r: String)
    requires
        n <= s@.len(),
    ensures
        r@ == s@.skip(n as int),
{
    let len = s.unicode_len();
    slice_of(s, n, len)
}

/// `s` cut at every `sep`.
pub fn split_at_char(s: &str, sep: char) -> (r: Vec<String>)
    ensures
        views(r@) == split(s@, sep),
        r@.len() >= 1,
{
    let sv = chars_of(s);
    let mut done: Vec<String> = Vec::new();
    let mut start: usize = 0;
    let mut i: usize = 0;
    while i < sv.len()
        invariant
            start <= i <= sv.len(),
            sv@ == s@,
            views(done@) == split(s@.take(i as int), sep).drop_last(),
            split(s@.take(i as int), sep).len() >= 1,
            split(s@.take(i as int), sep).last() == s@.subrange(start as int, i as int),
        decreases sv.len() - i,
    {
        proof {
            let before = s@.take(i as int);
            let now = s@.take(i + 1);
            assert(now.drop_last() =~= before);
        }
        if sv[i] == sep {
            let piece = slice_of(s, start, i);
            let ghost old_done = done@;
            done.push(piece);
            start = i + 1;
            proof {
                assert(views(done@) =~= views(old_done).push(piece@));
            }
        }
        i += 1;
    }
    let piece = slice_of(s, start, i);
    let ghost old_done = done@;
    done.push(piece);
    proof {
        assert(s@.take(i as int) =~= s@);
        assert(views(done@) =~= views(old_done).push(piece@));
    }
    done
}

/// The part of `s` behind its last `sep`.
pub fn last_piece_of(s: &str, sep: char) -> (r: String)
    ensures
        r@ == last_piece(s@, sep),
{
    let mut pieces = split_at_char(s, sep);
    let last = pieces.pop();
    match last {
        Some(p) => p,
        None => String::new(),
    }
}

/// `a` followed by `b`.
pub fn concat(a: &str, b: &str) -> (r: String)
    ensures
        r@ == a@ + b@,
{
    let mut s = a.to_owned();
    s.append(b);
    s
}

/// The pieces joined, `sep` between neighbours.
pub fn join_with(pieces: &Vec<String>, sep: &str) -> (r: String)
    ensures
        r@ == join(views(pieces@), sep@),
{
    let mut out = String::new();
    let mut i: usize = 0;
    while i < pieces.len()
        invariant
            i <= pieces.len(),
            out@ == join(views(pieces@).take(i as int), sep@),
        decreases pieces.len() - i,
    {
        proof {
            let now = views(pieces@).take(i + 1);
            assert(now.drop_last() =~= views(pieces@).take(i as int));
        }
        if i > 0 {
            out.append(sep);
        } else {
            assert(out@ + pieces@[i as int]@ =~= pieces@[i as int]@);
        }
        out.append(pieces[i].as_str());
        i += 1;
    }
    proof {
        assert(views(pieces@).take(pieces@.len() as int) =~= views(pieces@));
    }
    out
}

/// The one-character string of a decimal digit.
fn digit_str(d: u64) -> (r: &'static str)
    requires
        d < 10,
    ensures
        r@ == seq![digit(d as nat)],
{
    proof {
        reveal_strlit("0");
        reveal_strlit("1");
        reveal_strlit("2");
        reveal_strlit("3");
        reveal_strlit("4");
        reveal_strlit("5");
        reveal_strlit("6");
        reveal_strlit("7");
        reveal_strlit("8");
        reveal_strlit("9");
    }
    let r = if d == 0 {
        "0"
    } else if d == 1 {
        "1"
    } else if d == 2 {
        "2"
    } else if d == 3 {
        "3"
    } else if d == 4 {
        "4"
    } else if d == 5 {
        "5"
    } else if d == 6 {
        "6"
    } else if d == 7 {
        "7"
    } else if d == 8 {
        "8"
    } else {
        "9"
    };
    r
}

/// `n` in decimal.
pub fn decimal_string(n: u64) -> (r: String)
    ensures
        r@ == decimal(n as nat),
    decreases n,
{
    if n < 10 {
        digit_str(n).to_owned()
    } else {
        let mut s = decimal_string(n / 10);
        s.append(digit_str(n % 10));
        s
    }
}

/// The value of one decimal digit.
fn digit_of(c: char) -> (r: Option<u64>)
    ensures
        match digit_value(c) {
            Some(d) => r == Some(d as u64) && d < 10,
            None => r is None,
        },
{
    if c == '0' {
        Some(0)
    } else if c == '1' {
        Some(1)
    } else if c == '2' {
        Some(2)
    } else if c == '3' {
        Some(3)
    } else if c == '4' {
        Some(4)
    } else if c == '5' {
        Some(5)
    } else if c == '6' {
        Some(6)
    } else if c == '7' {
        Some(7)
    } else if c == '8' {
        Some(8)
    } else if c == '9' {
        Some(9)
    } else {
        None
    }
}

/// The number that `s` denotes, where it denotes one that fits in 64 bits.
pub fn parse_u64(s: &str) -> (r: Option<u64>)
    ensures
        r == match unsigned_value(s@) {
            Some(n) => if n <= u64::MAX {
                Some(n as u64)
            } else {
                None
            },
            None => None,
        },
{
    let sv = chars_of(s);
    let first: usize = if sv.len() > 0 && sv[0] == '+' {
        1
    } else {
        0
    };
    if first == sv.len() {
        return None;
    }
    let ghost body = s@.skip(first as int);
    let mut acc: u64 = 0;
    let mut i: usize = first;
    proof {
        assert(s@.skip(0) =~= s@);
    }
    while i < sv.len()
        invariant
            first <= i <= sv.len(),
            sv@ == s@,
            body == s@.skip(first as int),
            unsigned_value(s@) == digits_value(body),
            digits_value(body.take(i - first)) == Some(acc as nat),
        decreases sv.len() - i,
    {
        proof {
            let now = body.take(i - first + 1);
            assert(now.drop_last() =~= body.take(i - first));
        }
        let d = match digit_of(sv[i]) {
            Some(d) => d,
            None => {
                proof {
                    lemma_digits_value_prefix(body, i - first + 1);
                }
                return None;
            },
        };
        if acc > (u64::MAX - d) / 10 {
            proof {
                lemma_digits_value_grows(body, i - first + 1);
            }
            return None;
        }
        acc = acc * 10 + d;
        i += 1;
    }
    proof {
        assert(body.take(body.len() as int) =~= body);
    }
    Some(acc)
}

/// Where a prefix of a run denotes nothing, the run denotes nothing.
pub proof fn lemma_digits_value_prefix(s: Seq<char>, n: int)
    requires
        0 <= n <= s.len(),
        digits_value(s.take(n)) is None,
    ensures
        digits_value(s) is None,
    decreases s.len(),
{
    if n < s.len() {
        assert(s.drop_last().take(n) =~= s.take(n));
        lemma_digits_value_prefix(s.drop_last(), n);
    } else {
        assert(s.take(n) =~= s);
    }
}

/// A run of digits denotes at least what each of its prefixes denotes.
pub proof fn lemma_digits_value_grows(s: Seq<char>, n: int)
    requires
        0 <= n <= s.len(),
    ensures
        digits_value(s) matches Some(v) ==> (digits_value(s.take(n)) matches Some(p) && p <= v),
    decreases s.len(),
{
    if n < s.len() {
        assert(s.drop_last().take(n) =~= s.take(n));
        lemma_digits_value_grows(s.drop_last(), n);
    } else {
        assert(s.take(n) =~= s);
    }
}

/// What `cut_first` gives once the first `sep` is known to stand at `i`,
/// or to be missing where `i` is the length.
pub proof fn lemma_cut_first_at(s: Seq<char>, sep: char, i: int)
    requires
        0 <= i <= s.len(),
        forall|k: int| 0 <= k < i ==> s[k] != sep,
        i < s.len() ==> s[i] == sep,
    ensures
        cut_first(s, sep) == if i < s.len() {
            (s.take(i), Some(s.skip(i + 1)))
        } else {
            (s, None::<Seq<char>>)
        },
    decreases i,
{
    if s.len() > 0 && i == 0 {
        assert(s.take(0) =~= Seq::<char>::empty());
    } else if s.len() > 0 {
        let tail = s.skip(1);
        assert forall|k: int| 0 <= k < i - 1 implies tail[k] != sep by {
            assert(tail[k] == s[k + 1]);
        }
        lemma_cut_first_at(tail, sep, i - 1);
        if i < s.len() {
            assert(tail.skip(i) =~= s.skip(i + 1));
        } else {
            assert(seq![s[0]] + tail =~= s);
        }
    }
}

/// `s` cut at its first `sep`.
pub fn cut_at_first(s: &str, sep: char) -> (r: (String, Option<String>))
    ensures
        r.0@ == cut_first(s@, sep).0,
        opt_text(r.1) == cut_first(s@, sep).1,
{
    let sv = chars_of(s);
    let mut i: usize = 0;
    while i < sv.len() && sv[i] != sep
        invariant
            i <= sv.len(),
            sv@ == s@,
            forall|k: int| 0 <= k < i ==> s@[k] != sep,
        decreases sv.len() - i,
    {
        i += 1;
    }
    proof {
        lemma_cut_first_at(s@, sep, i as int);
    }
    if i < sv.len() {
        let head = slice_of(s, 0, i);
        let rest = skip_chars(s, i + 1);
        (head, Some(rest))
    } else {
        (slice_of(s, 0, i), None)
    }
}

/// The view of an optional string.
pub open spec fn opt_text(s: Option<String>) -> Option<Seq<char>> {
    match s {
        Some(t) => Some(t@),
        None => None,
    }
}

/// `str::to_lowercase`: the lowercase equivalent of a text by the rules of
/// Unicode. Claimed: the answer depends on the text alone.
#[verifier::external_body]
fn lower(s: &str) -> (r: String)
    ensures
        r@ == lowercase(s@),
{
    s.to_lowercase()
}

/// `s` in lower case.
pub fn to_lowercase(s: &str) -> (r: String)
    ensures
        r@ == lowercase(s@),
{
    lower(s)
}

/// `c` in lower case where it is an ASCII capital.
fn lower_char(c: char) -> (r: char)
    ensures
        r == ascii_lower(c),
{
    if c == 'A' {
        'a'
    } else if c == 'B' {
        'b'
    } else if c == 'C' {
        'c'
    } else if c == 'D' {
        'd'
    } else if c == 'E' {
        'e'
    } else if c == 'F' {
        'f'
    } else if c == 'G' {
        'g'
    } else if c == 'H' {
        'h'
    } else if c == 'I' {
        'i'
    } else if c == 'J' {
        'j'
    } else if c == 'K' {
        'k'
    } else if c == 'L' {
        'l'
    } else if c == 'M' {
        'm'
    } else if c == 'N' {
        'n'
    } else if c == 'O' {
        'o'
    } else if c == 'P' {
        'p'
    } else if c == 'Q' {
        'q'
    } else if c == 'R' {
        'r'
    } else if c == 'S' {
        's'
    } else if c == 'T' {
        't'
    } else if c == 'U' {
        'u'
    } else if c == 'V' {
        'v'
    } else if c == 'W' {
        'w'
    } else if c == 'X' {
        'x'
    } else if c == 'Y' {
        'y'
    } else if c == 'Z' {
        'z'
    } else {
        c
    }
}

/// Whether two texts are equal once ASCII capitals are lowered.
pub fn eq_ignore_ascii_case(a: &str, b: &str) -> (r: bool)
    ensures
        r == same_ignoring_ascii_case(a@, b@),
{
    let av = chars_of(a);
    let bv = chars_of(b);
    let ghost la = a@.map_values(|c: char| ascii_lower(c));
    let ghost lb = b@.map_values(|c: char| ascii_lower(c));
    if av.len() != bv.len() {
        return false;
    }
    let mut i: usize = 0;
    while i < av.len()
        invariant
            i <= av.len(),
            av.len() == bv.len(),
            av@ == a@,
            bv@ == b@,
            la == a@.map_values(|c: char| ascii_lower(c)),
            lb == b@.map_values(|c: char| ascii_lower(c)),
            forall|k: int| 0 <= k < i ==> la[k] == lb[k],
        decreases av.len() - i,
    {
        if lower_char(av[i]) != lower_char(bv[i]) {
            assert(la[i as int] != lb[i as int]);
            return false;
        }
        i += 1;
    }
    assert(la =~= lb);
    true
}

/// A text is cut into at least one piece.
pub proof fn lemma_split_is_not_empty(s: Seq<char>, sep: char)
    ensures
        split(s, sep).len() >= 1,
    decreases s.len(),
{
    if s.len() > 0 {
        lemma_split_is_not_empty(s.drop_last(), sep);
    }
}

/// A text without the separator is its own single piece.
pub proof fn lemma_split_without_separator(s: Seq<char>, sep: char)
    requires
        !s.contains(sep),
    ensures
        split(s, sep) == seq![s],
    decreases s.len(),
{
    if s.len() > 0 {
        let init = s.drop_last();
        assert forall|k: int| 0 <= k < init.len() implies init[k] != sep by {
            assert(s.contains(s[k]));
        }
        lemma_split_without_separator(init, sep);
        assert(seq![init].drop_last().push(seq![init].last().push(s.last())) =~= seq![s]) by {
            assert(init.push(s.last()) =~= s);
        }
    } else {
        assert(s =~= Seq::<char>::empty());
    }
}

/// Two texts with a separator between them are cut into the pieces of the
/// first and the pieces of the second.
pub proof fn lemma_split_of_both(a: Seq<char>, b: Seq<char>, sep: char)
    ensures
        split(a.push(sep) + b, sep) == split(a, sep) + split(b, sep),
    decreases b.len(),
{
    let whole = a.push(sep) + b;
    if b.len() == 0 {
        assert(whole.drop_last() =~= a);
    } else {
        let init = b.drop_last();
        assert(whole.drop_last() =~= a.push(sep) + init);
        lemma_split_of_both(a, init, sep);
        lemma_split_is_not_empty(init, sep);
        let before = split(a, sep) + split(init, sep);
        if b.last() == sep {
            assert(before.push(Seq::<char>::empty()) =~= split(a, sep) + split(init, sep).push(
                Seq::<char>::empty(),
            ));
        } else {
            assert(before.drop_last().push(before.last().push(b.last())) =~= split(a, sep)
                + split(init, sep).drop_last().push(split(init, sep).last().push(b.last())));
        }
    }
}

} // verus!
