//! Text helpers shared by every record kind: emptiness, splitting on a
//! separator, decimal rendering and parsing of unsigned numbers, lowercase
//! folding and substring search.

use vstd::prelude::*;

verus! {

/// `c` is one of the ASCII characters.
pub open spec fn is_ascii_char(c: char) -> bool {
    (c as u32) < 128
}

/// Every character of `s` is ASCII.
pub open spec fn all_ascii(s: Seq<char>) -> bool {
    forall|i: int| 0 <= i < s.len() ==> is_ascii_char(#[trigger] s[i])
}

/// The lowercase of an ASCII character: `A`..=`Z` become `a`..=`z`,
/// everything else stays as it is.
pub open spec fn ascii_lower(c: char) -> char {
    if 'A' <= c && c <= 'Z' {
        ((c as u32) + 32) as char
    } else {
        c
    }
}

/// What `str::to_lowercase` returns for a text.
pub uninterp spec fn lowercase(s: Seq<char>) -> Seq<char>;

/// Lowercasing `s` into `lower` keeps every run of ASCII characters of `s`,
/// lowercased character by character.
pub open spec fn keeps_ascii_runs(s: Seq<char>, lower: Seq<char>) -> bool {
    forall|i: int, k: int|
        0 <= i <= k <= s.len() && all_ascii(#[trigger] s.subrange(i, k)) ==> contains_text(
            lower,
            s.subrange(i, k).map_values(|c: char| ascii_lower(c)),
        )
}

/// Calls `str::to_lowercase`. Claimed: the result is `lowercase` of the
/// argument; on an all-ASCII text it is the character-wise ASCII lowercase;
/// and in any text each run of ASCII characters comes out as its ASCII
/// lowercase. Unicode maps every ASCII character to exactly one character
/// whatever surrounds it (only `Σ` depends on its neighbours, and it is not
/// ASCII). Nothing more is claimed of the non-ASCII characters.
#[verifier::external_body]
pub(crate) fn to_lowercase(s: &str) -> (res: String)
    ensures
        res@ == lowercase(s@),
        all_ascii(s@) ==> res@ == s@.map_values(|c: char| ascii_lower(c)),
        keeps_ascii_runs(s@, res@),
{
    s.to_lowercase()
}

/// What `Debug` prints for a list of texts (`format!("{:?}", list)`).
pub uninterp spec fn debug_list_text(items: Seq<Seq<char>>) -> Seq<char>;

/// Calls `Debug` on a list of texts through `format!("{:?}", ..)`. Claimed:
/// the text is `debug_list_text` of the items. std does not promise the exact
/// form of `Debug` output, so nothing more is said.
#[verifier::external_body]
pub(crate) fn debug_list(items: &Vec<String>) -> (res: String)
    ensures
        res@ == debug_list_text(items.deep_view()),
{
    format!("{:?}", items)
}

/// The view of an optional text.
pub open spec fn text_option_view(s: Option<String>) -> Option<Seq<char>> {
    match s {
        Some(t) => Some(t@),
        None => None,
    }
}

/// What an optional text contributes to a row: the text, or nothing.
pub open spec fn text_or_empty(s: Option<Seq<char>>) -> Seq<char> {
    match s {
        Some(t) => t,
        None => Seq::empty(),
    }
}

/// Character-wise equality of two texts.
pub fn same_text(a: &str, b: &str) -> (res: bool)
    ensures
        res == (a@ == b@),
{
    let n = a.unicode_len();
    if n != b.unicode_len() {
        return false;
    }
    let mut i: usize = 0;
    while i < n
        invariant
            n == a@.len(),
            n == b@.len(),
            i <= n,
            forall|j: int| 0 <= j < i ==> a@[j] == b@[j],
        decreases n - i,
    {
        if a.get_char(i) != b.get_char(i) {
            return false;
        }
        i += 1;
    }
    assert(a@ =~= b@);
    true
}

/// `None` for an empty field, otherwise the field's text.
pub fn none_if_empty(field: &str) -> (res: Option<String>)
    ensures
        match res {
            None => field@.len() == 0,
            Some(s) => field@.len() > 0 && s@ == field@,
        },
{
    if field.is_empty() {
        None
    } else {
        Some(field.to_owned())
    }
}


/// The pieces that `str::split` yields for a single-character separator:
/// the text cut at every occurrence of `sep`, so an empty text gives one
/// empty piece and each separator adds a piece.
pub open spec fn split_text(s: Seq<char>, sep: char) -> Seq<Seq<char>>
    decreases s.len(),
{
    if s.len() == 0 {
        seq![Seq::empty()]
    } else {
        let pieces = split_text(s.drop_last(), sep);
        if s.last() == sep {
            pieces.push(Seq::empty())
        } else {
            pieces.update(pieces.len() - 1, pieces.last().push(s.last()))
        }
    }
}

/// Splitting always yields at least one piece.
pub proof fn lemma_split_nonempty(s: Seq<char>, sep: char)
    ensures
        split_text(s, sep).len() >= 1,
    decreases s.len(),
{
    if s.len() > 0 {
        lemma_split_nonempty(s.drop_last(), sep);
    }
}

/// The pieces joined back together with `sep` between them.
pub open spec fn join_text(pieces: Seq<Seq<char>>, sep: char) -> Seq<char>
    decreases pieces.len(),
{
    if pieces.len() == 0 {
        Seq::empty()
    } else if pieces.len() == 1 {
        pieces[0]
    } else {
        join_text(pieces.drop_last(), sep).push(sep) + pieces.last()
    }
}

/// Cutting a text at a separator loses nothing: no piece holds the
/// separator, and joining the pieces with it gives the text back.
pub proof fn lemma_split_join(s: Seq<char>, sep: char)
    ensures
        join_text(split_text(s, sep), sep) == s,
        forall|i: int|
            0 <= i < split_text(s, sep).len() ==> !(#[trigger] split_text(s, sep)[i]).contains(sep),
    decreases s.len(),
{
    if s.len() == 0 {
        assert(split_text(s, sep) =~= seq![Seq::<char>::empty()]);
        assert(s =~= Seq::<char>::empty());
    } else {
        let d = s.drop_last();
        let c = s.last();
        lemma_split_join(d, sep);
        lemma_split_nonempty(d, sep);
        let p = split_text(d, sep);
        let q = split_text(s, sep);
        if c == sep {
            assert(q == p.push(Seq::<char>::empty()));
            assert(q.drop_last() =~= p);
            assert(join_text(q, sep) =~= join_text(p, sep).push(sep) + Seq::<char>::empty());
            assert(join_text(q, sep) =~= s);
            assert forall|i: int| 0 <= i < q.len() implies !(#[trigger] q[i]).contains(sep) by {
                if i < p.len() {
                    assert(q[i] == p[i]);
                } else {
                    assert(q[i] =~= Seq::<char>::empty());
                }
            }
        } else {
            let last = p.last().push(c);
            assert(q == p.update(p.len() - 1, last));
            if p.len() == 1 {
                assert(join_text(p, sep) == p[0]);
                assert(p[0] == d);
                assert(p.last() == p[0]);
                assert(q.len() == 1);
                assert(q[0] == last);
                assert(join_text(q, sep) == q[0]);
                assert(s =~= d.push(c));
            } else {
                assert(q.drop_last() =~= p.drop_last());
                assert(join_text(q, sep) =~= join_text(p.drop_last(), sep).push(sep) + last);
                assert(join_text(p, sep) =~= join_text(p.drop_last(), sep).push(sep) + p.last());
                assert(join_text(p, sep) == d);
                assert(s =~= d.push(c));
                assert((join_text(p.drop_last(), sep).push(sep) + p.last()).push(c)
                    =~= join_text(p.drop_last(), sep).push(sep) + last);
                assert(join_text(q, sep) =~= s);
            }
            assert forall|i: int| 0 <= i < q.len() implies !(#[trigger] q[i]).contains(sep) by {
                if i < p.len() - 1 {
                    assert(q[i] == p[i]);
                } else {
                    assert(q[i] == last);
                    assert(!p[p.len() - 1].contains(sep));
                    if last.contains(sep) {
                        let k = choose|k: int| 0 <= k < last.len() && last[k] == sep;
                        if k < p.last().len() {
                            assert(p.last()[k] == sep);
                        }
                    }
                }
            }
        }
    }
}

/// The number of times `c` occurs in `s`.
pub open spec fn count_char(s: Seq<char>, c: char) -> nat
    decreases s.len(),
{
    if s.len() == 0 {
        0
    } else {
        count_char(s.drop_last(), c) + if s.last() == c {
            1nat
        } else {
            0nat
        }
    }
}

/// Splitting gives one more piece than there are separators.
pub proof fn lemma_split_count(s: Seq<char>, sep: char)
    ensures
        split_text(s, sep).len() == count_char(s, sep) + 1,
    decreases s.len(),
{
    if s.len() > 0 {
        lemma_split_count(s.drop_last(), sep);
        lemma_split_nonempty(s.drop_last(), sep);
    }
}

/// A text without the separator is a single piece.
pub proof fn lemma_split_whole(s: Seq<char>, sep: char)
    requires
        !s.contains(sep),
    ensures
        split_text(s, sep) == seq![s],
    decreases s.len(),
{
    if s.len() == 0 {
        assert(s =~= Seq::<char>::empty());
    } else {
        let d = s.drop_last();
        assert(!d.contains(sep)) by {
            if d.contains(sep) {
                let k = choose|k: int| 0 <= k < d.len() && d[k] == sep;
                assert(s[k] == sep);
            }
        }
        assert(s[s.len() - 1] == s.last());
        lemma_split_whole(d, sep);
        assert(d.push(s.last()) =~= s);
        assert(split_text(s, sep) =~= seq![s]);
    }
}

/// Cutting `x`, a separator and `y` gives the pieces of `x` followed by the
/// pieces of `y`.
pub proof fn lemma_split_concat(x: Seq<char>, y: Seq<char>, sep: char)
    ensures
        split_text(x.push(sep) + y, sep) == split_text(x, sep) + split_text(y, sep),
    decreases y.len(),
{
    let s = x.push(sep) + y;
    if y.len() == 0 {
        assert(s =~= x.push(sep));
        assert(s.drop_last() =~= x);
        assert(split_text(s, sep) =~= split_text(x, sep) + split_text(y, sep));
    } else {
        let yd = y.drop_last();
        lemma_split_concat(x, yd, sep);
        lemma_split_nonempty(yd, sep);
        assert(s.drop_last() =~= x.push(sep) + yd);
        assert(s.last() == y.last());
        let p = split_text(x, sep);
        let q = split_text(yd, sep);
        if y.last() == sep {
            assert(split_text(s, sep) =~= p + q.push(Seq::<char>::empty()));
        } else {
            let pq = p + q;
            assert(pq.last() == q.last());
            assert(split_text(s, sep) =~= p + q.update(q.len() - 1, q.last().push(y.last())));
        }
    }
}

/// The text cut at every `sep`, each piece owned.
pub fn split_on(s: &str, sep: char) -> (res: Vec<String>)
    ensures
        res.deep_view() == split_text(s@, sep),
{
    let n = s.unicode_len();
    let mut pieces: Vec<String> = Vec::new();
    let mut start: usize = 0;
    let mut i: usize = 0;
    assert(pieces.deep_view() =~= Seq::<Seq<char>>::empty());
    assert(s@.take(0) =~= Seq::<char>::empty());
    assert(s@.subrange(0, 0) =~= Seq::<char>::empty());
    assert(split_text(s@.take(0), sep) =~~= pieces.deep_view().push(s@.subrange(0, 0)));
    while i < n
        invariant
            n == s@.len(),
            start <= i <= n,
            split_text(s@.take(i as int), sep) == pieces.deep_view().push(
                s@.subrange(start as int, i as int),
            ),
        decreases n - i,
    {
        let c = s.get_char(i);
        proof {
            assert(s@.take(i + 1).drop_last() =~= s@.take(i as int));
            assert(s@.take(i + 1).last() == c);
            lemma_split_nonempty(s@.take(i as int), sep);
        }
        if c == sep {
            let piece = s.substring_char(start, i).to_owned();
            let ghost before = pieces.deep_view();
            pieces.push(piece);
            assert(pieces.deep_view() =~= before.push(piece@));
            start = i + 1;
            assert(s@.subrange(start as int, (i + 1) as int) =~= Seq::<char>::empty());
        } else {
            assert(s@.subrange(start as int, (i + 1) as int) =~= s@.subrange(
                start as int,
                i as int,
            ).push(c));
        }
        i += 1;
    }
    let last = s.substring_char(start, n).to_owned();
    let ghost before = pieces.deep_view();
    pieces.push(last);
    assert(pieces.deep_view() =~= before.push(last@));
    assert(s@.take(n as int) =~= s@);
    pieces
}

/// The character of a decimal digit `0..=9`.
pub open spec fn digit_char(d: nat) -> char {
    ((d + 48) as u32) as char
}

/// The decimal rendering of `n`: no sign, no leading zeros (`0` is `"0"`),
/// as `Display` prints an unsigned integer.
pub open spec fn decimal(n: nat) -> Seq<char>
    decreases n,
{
    if n < 10 {
        seq![digit_char(n)]
    } else {
        decimal(n / 10).push(digit_char(n % 10))
    }
}

fn digit_text(d: u64) -> (res: &'static str)
    requires
        d < 10,
    ensures
        res@ == seq![digit_char(d as nat)],
{
    proof {
        reveal_strlit("0");
        reveal_strlit("1");
        reveal_strlit("2");
        reveal_strlit("3");
        reveal_strlit("4");
        reveal_strlit("5");
        reveal_strlit("6");
        reveal_strlit("7");
        reveal_strlit("8");
        reveal_strlit("9");
    }
    let r = if d == 0 {
        "0"
    } else if d == 1 {
        "1"
    } else if d == 2 {
        "2"
    } else if d == 3 {
        "3"
    } else if d == 4 {
        "4"
    } else if d == 5 {
        "5"
    } else if d == 6 {
        "6"
    } else if d == 7 {
        "7"
    } else if d == 8 {
        "8"
    } else {
        "9"
    };
    assert(r@ =~= seq![digit_char(d as nat)]);
    r
}

/// The decimal rendering of an unsigned number.
pub fn decimal_text(n: u64) -> (res: String)
    ensures
        res@ == decimal(n as nat),
    decreases n,
{
    if n < 10 {
        digit_text(n).to_owned()
    } else {
        let mut s = decimal_text(n / 10);
        s.append(digit_text(n % 10));
        s
    }
}

/// `c` is an ASCII decimal digit.
pub open spec fn is_digit(c: char) -> bool {
    '0' <= c && c <= '9'
}

/// The value of a digit character.
pub open spec fn digit_value(c: char) -> nat {
    ((c as u32) - 48) as nat
}

/// The value of a run of decimal digits, most significant first.
pub open spec fn digits_value(s: Seq<char>) -> nat
    decreases s.len(),
{
    if s.len() == 0 {
        0
    } else {
        digits_value(s.drop_last()) * 10 + digit_value(s.last())
    }
}

/// A text with an optional leading `+` removed.
pub open spec fn unsigned_body(s: Seq<char>) -> Seq<char> {
    if s.len() > 0 && s[0] == '+' {
        s.skip(1)
    } else {
        s
    }
}

/// The value of a text in the form that `str::parse` accepts for an unsigned
/// integer: an optional `+`, then one or more ASCII digits and nothing else.
pub open spec fn unsigned_value(s: Seq<char>) -> Option<nat> {
    let body = unsigned_body(s);
    if body.len() > 0 && (forall|i: int| 0 <= i < body.len() ==> is_digit(#[trigger] body[i])) {
        Some(digits_value(body))
    } else {
        None
    }
}

/// The value of `s` as an unsigned integer no greater than `max`, or `None`
/// where `str::parse` fails (bad form or overflow).
pub open spec fn parsed_unsigned(s: Seq<char>, max: nat) -> Option<nat> {
    match unsigned_value(s) {
        Some(v) => if v <= max {
            Some(v)
        } else {
            None
        },
        None => None,
    }
}

/// Extending a run of digits never lowers its value.
pub proof fn lemma_digits_value_grows(s: Seq<char>, k: int)
    requires
        0 <= k <= s.len(),
    ensures
        digits_value(s.take(k)) <= digits_value(s),
    decreases s.len() - k,
{
    if k < s.len() {
        lemma_digits_value_grows(s, k + 1);
        assert(s.take(k + 1).drop_last() =~= s.take(k));
    } else {
        assert(s.take(k) =~= s);
    }
}

/// Parses `s` as an unsigned integer that must not exceed `max`.
pub fn parse_unsigned(s: &str, max: u64) -> (res: Option<u64>)
    requires
        max <= 0xffff_ffff,
    ensures
        match parsed_unsigned(s@, max as nat) {
            Some(v) => res == Some(v as u64),
            None => res is None,
        },
{
    let n = s.unicode_len();
    let start: usize = if n > 0 && s.get_char(0) == '+' {
        1
    } else {
        0
    };
    let ghost body = unsigned_body(s@);
    assert(body =~= s@.skip(start as int));
    if start == n {
        return None;
    }
    let mut acc: u64 = 0;
    let mut i: usize = start;
    while i < n
        invariant
            n == s@.len(),
            start <= i <= n,
            start < n,
            body =~= s@.skip(start as int),
            body == unsigned_body(s@),
            max <= 0xffff_ffff,
            acc <= max,
            forall|j: int| 0 <= j < i - start ==> is_digit(#[trigger] body[j]),
            acc == digits_value(body.take(i - start)),
        decreases n - i,
    {
        let c = s.get_char(i);
        if !('0' <= c && c <= '9') {
            assert(!is_digit(body[i - start]));
            return None;
        }
        let d = (c as u32 - 48) as u64;
        assert(body.take(i - start + 1).drop_last() =~= body.take(i - start));
        assert(body.take(i - start + 1).last() == c);
        let next = acc * 10 + d;
        if next > max {
            proof {
                lemma_digits_value_grows(body, i - start + 1);
            }
            return None;
        }
        acc = next;
        i += 1;
    }
    assert(body.take(n - start) =~= body);
    Some(acc)
}

/// A decimal rendering reads back as the number it renders: numbers are
/// written to statements in the form they are read from text.
pub proof fn lemma_decimal_parses(n: nat)
    ensures
        unsigned_value(decimal(n)) == Some(n),
        decimal(n).len() > 0,
        forall|i: int| 0 <= i < decimal(n).len() ==> is_digit(#[trigger] decimal(n)[i]),
    decreases n,
{
    if n < 10 {
        assert(decimal(n) =~= seq![digit_char(n)]);
        assert(digit_value(digit_char(n)) == n);
        assert(is_digit(digit_char(n)));
        assert(decimal(n).drop_last() =~= Seq::<char>::empty());
        assert(digits_value(Seq::<char>::empty()) == 0);
        assert(decimal(n).last() == digit_char(n));
        assert(digits_value(decimal(n)) == n);
        assert(unsigned_body(decimal(n)) == decimal(n));
    } else {
        lemma_decimal_parses(n / 10);
        let d = decimal(n / 10);
        assert(decimal(n) == d.push(digit_char(n % 10)));
        assert(decimal(n).drop_last() =~= d);
        assert(digit_value(digit_char(n % 10)) == n % 10);
        assert(digits_value(d) == n / 10) by {
            assert(unsigned_body(d) == d);
        }
        assert((n / 10) * 10 + n % 10 == n);
        assert(digits_value(decimal(n)) == n);
        assert(is_digit(digit_char(n % 10)));
        assert forall|i: int| 0 <= i < decimal(n).len() implies is_digit(
            #[trigger] decimal(n)[i],
        ) by {
            if i < d.len() {
                assert(decimal(n)[i] == d[i]);
            }
        }
        assert(decimal(n)[0] == d[0]);
        assert(unsigned_body(decimal(n)) == decimal(n));
    }
}

/// Parses an unsigned 8-bit number as `str::parse::<u8>` does.
pub fn parse_u8(s: &str) -> (res: Option<u8>)
    ensures
        match parsed_unsigned(s@, 255) {
            Some(v) => res == Some(v as u8),
            None => res is None,
        },
{
    match parse_unsigned(s, 255) {
        Some(v) => Some(v as u8),
        None => None,
    }
}

/// Parses an unsigned 16-bit number as `str::parse::<u16>` does.
pub fn parse_u16(s: &str) -> (res: Option<u16>)
    ensures
        match parsed_unsigned(s@, 65535) {
            Some(v) => res == Some(v as u16),
            None => res is None,
        },
{
    match parse_unsigned(s, 65535) {
        Some(v) => Some(v as u16),
        None => None,
    }
}

/// Parses an unsigned 32-bit number as `str::parse::<u32>` does.
pub fn parse_u32(s: &str) -> (res: Option<u32>)
    ensures
        match parsed_unsigned(s@, 0xffff_ffff) {
            Some(v) => res == Some(v as u32),
            None => res is None,
        },
{
    match parse_unsigned(s, 0xffff_ffff) {
        Some(v) => Some(v as u32),
        None => None,
    }
}

/// `needle` occurs in `hay` as a contiguous run.
pub open spec fn contains_text(hay: Seq<char>, needle: Seq<char>) -> bool {
    exists|i: int|
        0 <= i && i + needle.len() <= hay.len() && #[trigger] hay.subrange(i, i + needle.len())
            == needle
}

fn chars_of(s: &str) -> (res: Vec<char>)
    ensures
        res@ == s@,
{
    let n = s.unicode_len();
    let mut out: Vec<char> = Vec::new();
    let mut i: usize = 0;
    while i < n
        invariant
            n == s@.len(),
            i <= n,
            out@ == s@.take(i as int),
        decreases n - i,
    {
        out.push(s.get_char(i));
        assert(out@ =~= s@.take(i + 1));
        i += 1;
    }
    assert(s@.take(n as int) =~= s@);
    out
}

/// Substring search, as `str::contains` with a text pattern.
pub fn contains(hay: &str, needle: &str) -> (res: bool)
    ensures
        res == contains_text(hay@, needle@),
{
    let h = chars_of(hay);
    let m = chars_of(needle);
    let hn = h.len();
    let mn = m.len();
    if mn > hn {
        return false;
    }
    let mut i: usize = 0;
    while i <= hn - mn
        invariant
            hn == hay@.len(),
            mn == needle@.len(),
            h@ == hay@,
            m@ == needle@,
            mn <= hn,
            i <= hn - mn + 1,
            forall|k: int| 0 <= k < i ==> #[trigger] hay@.subrange(k, k + mn) != needle@,
        decreases hn - mn + 1 - i,
    {
        let mut j: usize = 0;
        let mut same = true;
        while j < mn
            invariant
                hn == hay@.len(),
                mn == needle@.len(),
                h@ == hay@,
                m@ == needle@,
                i + mn <= hn,
                j <= mn,
                same == (forall|t: int| 0 <= t < j ==> hay@[i + t] == needle@[t]),
            decreases mn - j,
        {
            if h[i + j] != m[j] {
                same = false;
            }
            j += 1;
        }
        if same {
            assert(hay@.subrange(i as int, i + mn) =~= needle@);
            return true;
        } else {
            assert(hay@.subrange(i as int, i + mn) != needle@) by {
                let t = choose|t: int| 0 <= t < mn && hay@[i + t] != needle@[t];
                assert(hay@.subrange(i as int, i + mn)[t] == hay@[i + t]);
            }
        }
        i += 1;
    }
    assert forall|k: int| 0 <= k && k + mn <= hn implies #[trigger] hay@.subrange(k, k + mn)
        != needle@ by {}
    false
}

} // verus!
