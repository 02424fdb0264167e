//! Small text functions that the views share: trimming, splitting, decimal numbers and
//! lexicographic comparison, all stated over sequences of characters.
use vstd::prelude::*;
use vstd::string::*;

verus! {

/// The characters with the Unicode property `White_Space`.
pub open spec fn white_space(c: char) -> bool {
    let n = c as u32;
    ||| 0x09 <= n <= 0x0d
    ||| n == 0x20
    ||| n == 0x85
    ||| n == 0xa0
    ||| n == 0x1680
    ||| 0x2000 <= n <= 0x200a
    ||| n == 0x2028
    ||| n == 0x2029
    ||| n == 0x202f
    ||| n == 0x205f
    ||| n == 0x3000
}

/// Whether `c` has the Unicode property `White_Space`.
pub fn is_white_space(c: char) -> (r: bool)
    ensures
        r == white_space(c),
{
    let n: u32 = c as u32;
    (0x09 <= n && n <= 0x0d) || n == 0x20 || n == 0x85 || n == 0xa0 || n == 0x1680 || (0x2000 <= n
        && n <= 0x200a) || n == 0x2028 || n == 0x2029 || n == 0x202f || n == 0x205f || n == 0x3000
}

/// The text without its leading white space.
pub open spec fn trimmed_start(s: Seq<char>) -> Seq<char>
    decreases s.len(),
{
    if s.len() > 0 && white_space(s.first()) {
        trimmed_start(s.drop_first())
    } else {
        s
    }
}

/// The text without its trailing white space.
pub open spec fn trimmed_end(s: Seq<char>) -> Seq<char>
    decreases s.len(),
{
    if s.len() > 0 && white_space(s.last()) {
        trimmed_end(s.drop_last())
    } else {
        s
    }
}

/// The text without its leading and trailing white space.
pub open spec fn trimmed(s: Seq<char>) -> Seq<char> {
    trimmed_end(trimmed_start(s))
}

/// The characters of a text, in order.
pub fn chars_of(s: &str) -> (r: Vec<char>)
    ensures
        r@ == s@,
{
    let mut out: Vec<char> = Vec::new();
    for c in it: s.chars()
        invariant
            out@ == s@.take(it.index() as int),
            it.seq() == s@,
    {
        out.push(c);
        assert(s@.take(it.index() + 1) =~= s@.take(it.index() as int).push(c));
    }
    assert(s@.take(s@.len() as int) =~= s@);
    out
}

proof fn lemma_trimmed_start(s: Seq<char>, i: int)
    requires
        0 <= i <= s.len(),
        forall|k: int| 0 <= k < i ==> white_space(#[trigger] s[k]),
        i == s.len() || !white_space(s[i]),
    ensures
        trimmed_start(s) == s.skip(i),
    decreases i,
{
    if i > 0 {
        let t = s.drop_first();
        assert forall|k: int| 0 <= k < i - 1 implies white_space(#[trigger] t[k]) by {
            assert(t[k] == s[k + 1]);
        }
        lemma_trimmed_start(t, i - 1);
        assert(t.skip(i - 1) =~= s.skip(i));
    } else {
        assert(s.skip(0) =~= s);
    }
}

proof fn lemma_trimmed_end(s: Seq<char>, j: int)
    requires
        0 <= j <= s.len(),
        forall|k: int| j <= k < s.len() ==> white_space(#[trigger] s[k]),
        j == 0 || !white_space(s[j - 1]),
    ensures
        trimmed_end(s) == s.take(j),
    decreases s.len() - j,
{
    if j < s.len() {
        let t = s.drop_last();
        lemma_trimmed_end(t, j);
        assert(t.take(j) =~= s.take(j));
    } else {
        assert(s.take(j) =~= s);
    }
}

/// Removes the white space at both ends.
pub fn trim(s: &str) -> (r: String)
    ensures
        r@ == trimmed(s@),
{
    let chars: Vec<char> = chars_of(s);
    let n: usize = chars.len();
    let mut i: usize = 0;
    while i < n && is_white_space(chars[i])
        invariant
            n == chars@.len(),
            i <= n,
            forall|k: int| 0 <= k < i ==> white_space(#[trigger] chars@[k]),
        decreases n - i,
    {
        i += 1;
    }
    let mut j: usize = n;
    while i < j && is_white_space(chars[j - 1])
        invariant
            n == chars@.len(),
            i <= j <= n,
            forall|k: int| j <= k < n ==> white_space(#[trigger] chars@[k]),
        decreases j,
    {
        j -= 1;
    }
    proof {
        lemma_trimmed_start(s@, i as int);
        let t = s@.skip(i as int);
        assert forall|k: int| j - i <= k < t.len() implies white_space(#[trigger] t[k]) by {
            assert(t[k] == chars@[k + i]);
        }
        lemma_trimmed_end(t, j - i);
        assert(t.take(j - i) =~= s@.subrange(i as int, j as int));
    }
    s.substring_char(i, j).to_string()
}

/// Whether two texts are the same characters.
pub fn same_text(a: &str, b: &str) -> (r: bool)
    ensures
        r == (a@ == b@),
{
    a.to_string() == b.to_string()
}

/// Whether two optional texts are both absent, or both present with the same characters.
pub fn same_optional_text(a: &Option<String>, b: &Option<String>) -> (r: bool)
    ensures
        r == (a.deep_view() == b.deep_view()),
{
    match (a, b) {
        (Some(x), Some(y)) => same_text(x.as_str(), y.as_str()),
        (None, None) => true,
        _ => false,
    }
}

/// How often `c` occurs in a text.
pub open spec fn occurrences(s: Seq<char>, c: char) -> nat
    decreases s.len(),
{
    if s.len() == 0 {
        0
    } else {
        occurrences(s.drop_last(), c) + (if s.last() == c { 1nat } else { 0nat })
    }
}

/// Counts how often `c` occurs in a text.
pub fn count_char(s: &str, c: char) -> (r: usize)
    ensures
        r == occurrences(s@, c),
{
    let chars: Vec<char> = chars_of(s);
    let mut n: usize = 0;
    let mut i: usize = 0;
    assert(chars@.take(0) =~= Seq::<char>::empty());
    while i < chars.len()
        invariant
            i <= chars@.len(),
            n <= i,
            n == occurrences(chars@.take(i as int), c),
        decreases chars@.len() - i,
    {
        assert(chars@.take(i + 1).drop_last() =~= chars@.take(i as int));
        if chars[i] == c {
            n += 1;
        }
        i += 1;
    }
    assert(chars@.take(chars@.len() as int) =~= chars@);
    n
}

/// The character of a decimal digit.
pub open spec fn digit(d: nat) -> char {
    (0x30 + d) as char
}

/// A number in decimal, without leading zeros.
pub open spec fn decimal(n: nat) -> Seq<char>
    decreases n,
{
    if n < 10 {
        seq![digit(n)]
    } else {
        decimal(n / 10).push(digit(n % 10))
    }
}

/// Reading the decimal digits of a number gives the number back, and a number other than zero does
/// not start with a zero.
pub proof fn law_decimal_reads_back(n: nat)
    ensures
        digits_value(decimal(n)) == n,
        all_digits(decimal(n)),
        decimal(n).len() > 0,
        n > 0 ==> decimal(n).first() != '0',
    decreases n,
{
    if n >= 10 {
        law_decimal_reads_back(n / 10);
        assert(decimal(n).drop_last() =~= decimal(n / 10));
    } else {
        reveal_with_fuel(digits_value, 2);
        assert(decimal(n).drop_last() =~= Seq::<char>::empty());
    }
}

fn digit_text(d: u64) -> (r: &'static str)
    requires
        d < 10,
    ensures
        r@ == seq![digit(d as nat)],
{
    proof {
        reveal_strlit("0");
        reveal_strlit("1");
        reveal_strlit("2");
        reveal_strlit("3");
        reveal_strlit("4");
        reveal_strlit("5");
        reveal_strlit("6");
        reveal_strlit("7");
        reveal_strlit("8");
        reveal_strlit("9");
    }
    match d {
        0 => "0",
        1 => "1",
        2 => "2",
        3 => "3",
        4 => "4",
        5 => "5",
        6 => "6",
        7 => "7",
        8 => "8",
        _ => "9",
    }
}

/// Writes a number in decimal.
pub fn decimal_text(n: u64) -> (r: String)
    ensures
        r@ == decimal(n as nat),
    decreases n,
{
    if n < 10 {
        digit_text(n).to_string()
    } else {
        let mut s: String = decimal_text(n / 10);
        s.append(digit_text(n % 10));
        s
    }
}

/// A number in decimal, filled up with leading zeros to at least `width` characters.
pub open spec fn zero_padded(n: nat, width: nat) -> Seq<char> {
    if decimal(n).len() < width {
        Seq::new((width - decimal(n).len()) as nat, |i: int| '0') + decimal(n)
    } else {
        decimal(n)
    }
}

/// Writes a number in decimal with leading zeros up to `width` characters.
pub fn zero_padded_text(n: u64, width: usize) -> (r: String)
    ensures
        r@ == zero_padded(n as nat, width as nat),
{
    let s: String = decimal_text(n);
    let len: usize = s.as_str().unicode_len();
    let mut out: String = String::new();
    let mut i: usize = len;
    proof {
        reveal_strlit("0");
    }
    while i < width
        invariant
            len == decimal(n as nat).len(),
            len <= i,
            i <= width || i == len,
            out@ == Seq::new((i - len) as nat, |k: int| '0'),
            "0"@ =~= seq!['0'],
        decreases width - i,
    {
        out.append("0");
        i += 1;
        assert(out@ =~= Seq::new((i - len) as nat, |k: int| '0'));
    }
    out.append(s.as_str());
    assert(len >= width ==> out@ =~= decimal(n as nat));
    out
}

/// Whether a character is an ASCII decimal digit.
pub open spec fn is_digit(c: char) -> bool {
    '0' <= c <= '9'
}

/// The number that a sequence of decimal digits writes.
pub open spec fn digits_value(s: Seq<char>) -> nat
    decreases s.len(),
{
    if s.len() == 0 {
        0
    } else {
        digits_value(s.drop_last()) * 10 + ((s.last() as u32 - 0x30) as nat)
    }
}

/// Whether every character is a decimal digit.
pub open spec fn all_digits(s: Seq<char>) -> bool {
    forall|i: int| 0 <= i < s.len() ==> is_digit(#[trigger] s[i])
}

/// The text behind an optional plus sign.
pub open spec fn without_plus(s: Seq<char>) -> Seq<char> {
    if s.len() > 0 && s[0] == '+' {
        s.skip(1)
    } else {
        s
    }
}

/// The 32-bit number that a text writes: an optional plus sign, then one or more decimal
/// digits and nothing else.
pub open spec fn parsed_u32(s: Seq<char>) -> Option<u32> {
    let d = without_plus(s);
    if d.len() > 0 && all_digits(d) && digits_value(d) <= u32::MAX {
        Some(digits_value(d) as u32)
    } else {
        None
    }
}

proof fn lemma_digits_value_grows(s: Seq<char>, k: int)
    requires
        0 <= k <= s.len(),
        all_digits(s),
    ensures
        digits_value(s.take(k)) <= digits_value(s),
    decreases s.len() - k,
{
    if k < s.len() {
        lemma_digits_value_grows(s, k + 1);
        assert(s.take(k + 1).drop_last() =~= s.take(k));
    } else {
        assert(s.take(k) =~= s);
    }
}

/// Reads a 32-bit number; anything but an optional plus sign and decimal digits, and a number
/// that does not fit, reads as nothing.
pub fn parse_u32(s: &str) -> (r: Option<u32>)
    ensures
        r == parsed_u32(s@),
{
    let chars: Vec<char> = chars_of(s);
    let start: usize = if chars.len() > 0 && chars[0] == '+' {
        1
    } else {
        0
    };
    let ghost d = chars@.skip(start as int);
    assert(start == 0 ==> d =~= s@);
    if start == chars.len() {
        return None;
    }
    let mut value: u64 = 0;
    let mut i: usize = start;
    assert(d.take(0) =~= Seq::<char>::empty());
    while i < chars.len()
        invariant
            start <= i <= chars@.len(),
            start < chars@.len(),
            d == chars@.skip(start as int),
            s@ == chars@,
            d == without_plus(s@),
            value == digits_value(d.take(i - start)),
            value <= u32::MAX,
            forall|k: int| 0 <= k < i - start ==> is_digit(#[trigger] d[k]),
        decreases chars@.len() - i,
    {
        let c: char = chars[i];
        assert(d[i - start] == c);
        if !('0' <= c && c <= '9') {
            return None;
        }
        assert(d.take(i - start + 1).drop_last() =~= d.take(i - start));
        value = value * 10 + (c as u32 - 0x30) as u64;
        i += 1;
        if value > 0xffff_ffff {
            proof {
                if all_digits(d) {
                    lemma_digits_value_grows(d, i - start);
                }
            }
            return None;
        }
    }
    assert(d.take(d.len() as int) =~= d);
    Some(value as u32)
}

/// Whether a character separates scope names.
pub open spec fn scope_separator(c: char) -> bool {
    c == ' ' || c == ','
}

/// The pieces of a text between its separators, empty ones included.
pub open spec fn scope_pieces(s: Seq<char>) -> Seq<Seq<char>>
    decreases s.len(),
{
    if s.len() == 0 {
        seq![Seq::<char>::empty()]
    } else {
        let before = scope_pieces(s.drop_last());
        if scope_separator(s.last()) {
            before.push(Seq::<char>::empty())
        } else {
            before.drop_last().push(before.last().push(s.last()))
        }
    }
}

/// The scope names in a space or comma separated list, in order: the pieces, trimmed, without
/// the empty ones.
pub open spec fn scope_names(s: Seq<char>) -> Seq<Seq<char>> {
    names_of_pieces(scope_pieces(s))
}

/// The pieces, trimmed, without the empty ones.
pub open spec fn names_of_pieces(pieces: Seq<Seq<char>>) -> Seq<Seq<char>> {
    pieces.map_values(|p: Seq<char>| trimmed(p)).filter(|p: Seq<char>| p.len() > 0)
}

proof fn lemma_names_push(pieces: Seq<Seq<char>>, p: Seq<char>)
    ensures
        names_of_pieces(pieces.push(p)) == (if trimmed(p).len() > 0 {
            names_of_pieces(pieces).push(trimmed(p))
        } else {
            names_of_pieces(pieces)
        }),
{
    let f = |p: Seq<char>| trimmed(p);
    let keep = |p: Seq<char>| p.len() > 0;
    assert(pieces.push(p).map_values(f) =~= pieces.map_values(f).push(trimmed(p)));
    let m = pieces.map_values(f).push(trimmed(p));
    reveal(Seq::filter);
    assert(m.drop_last() =~= pieces.map_values(f));
}

/// Splits a space or comma separated list into its scope names.
pub fn split_scopes(s: &str) -> (r: Vec<String>)
    ensures
        r.deep_view() == scope_names(s@),
{
    let chars: Vec<char> = chars_of(s);
    let n: usize = chars.len();
    let mut out: Vec<String> = Vec::new();
    let mut start: usize = 0;
    let mut i: usize = 0;
    let ghost mut closed: Seq<Seq<char>> = Seq::empty();
    proof {
        reveal(Seq::filter);
        assert(out.deep_view() =~= names_of_pieces(closed));
        assert(s@.take(0) =~= Seq::<char>::empty());
        assert(s@.subrange(0, 0) =~= Seq::<char>::empty());
        assert(closed.push(Seq::<char>::empty()) =~= seq![Seq::<char>::empty()]);
    }
    while i < n
        invariant
            n == chars@.len(),
            chars@ == s@,
            start <= i <= n,
            out.deep_view() == names_of_pieces(closed),
            scope_pieces(s@.take(i as int)) == closed.push(s@.subrange(start as int, i as int)),
        decreases n - i,
    {
        let c: char = chars[i];
        assert(s@.take(i + 1).drop_last() =~= s@.take(i as int));
        if c == ' ' || c == ',' {
            let piece: String = trim(s.substring_char(start, i));
            proof {
                lemma_names_push(closed, s@.subrange(start as int, i as int));
                closed = closed.push(s@.subrange(start as int, i as int));
            }
            let ghost before = out.deep_view();
            if !piece.as_str().is_empty() {
                out.push(piece);
                assert(out.deep_view() =~= before.push(piece@));
            }
            start = i + 1;
            assert(s@.subrange(i + 1, i + 1) =~= Seq::<char>::empty());
        } else {
            proof {
                let open = s@.subrange(start as int, i as int);
                assert(closed.push(open).drop_last() =~= closed);
                assert(open.push(c) =~= s@.subrange(start as int, i + 1));
            }
        }
        i += 1;
    }
    assert(s@.take(n as int) =~= s@);
    let piece: String = trim(s.substring_char(start, n));
    let ghost before = out.deep_view();
    proof {
        lemma_names_push(closed, s@.subrange(start as int, n as int));
    }
    if !piece.as_str().is_empty() {
        out.push(piece);
        assert(out.deep_view() =~= before.push(piece@));
    }
    out
}

proof fn lemma_pieces_hold_no_separator(s: Seq<char>)
    ensures
        scope_pieces(s).len() > 0,
        forall|i: int, j: int|
            0 <= i < scope_pieces(s).len() && 0 <= j < scope_pieces(s)[i].len()
                ==> !scope_separator(#[trigger] scope_pieces(s)[i][j]),
    decreases s.len(),
{
    if s.len() > 0 {
        let before = scope_pieces(s.drop_last());
        let now = scope_pieces(s);
        lemma_pieces_hold_no_separator(s.drop_last());
        assert forall|i: int, j: int|
            0 <= i < now.len() && 0 <= j < now[i].len() implies !scope_separator(
            #[trigger] now[i][j],
        ) by {
            if i < before.len() - 1 {
                assert(now[i] == before[i]);
                assert(!scope_separator(before[i][j]));
            } else if !scope_separator(s.last()) {
                let open = before.last();
                if j < open.len() {
                    assert(!scope_separator(before[before.len() - 1][j]));
                    assert(now[i][j] == open[j]);
                }
            } else if i == before.len() - 1 {
                assert(now[i] == before[i]);
                assert(!scope_separator(before[i][j]));
            }
        }
    }
}

proof fn lemma_trimmed_start_is_suffix(s: Seq<char>) -> (i: int)
    ensures
        0 <= i <= s.len(),
        trimmed_start(s) == s.skip(i),
        forall|k: int| 0 <= k < i ==> white_space(#[trigger] s[k]),
    decreases s.len(),
{
    if s.len() > 0 && white_space(s.first()) {
        let t = s.drop_first();
        let k = lemma_trimmed_start_is_suffix(t);
        assert(t.skip(k) =~= s.skip(k + 1));
        assert forall|m: int| 0 <= m < k + 1 implies white_space(#[trigger] s[m]) by {
            if m > 0 {
                assert(t[m - 1] == s[m]);
            }
        }
        k + 1
    } else {
        assert(s.skip(0) =~= s);
        0
    }
}

proof fn lemma_trimmed_end_is_prefix(s: Seq<char>) -> (j: int)
    ensures
        0 <= j <= s.len(),
        trimmed_end(s) == s.take(j),
        forall|k: int| j <= k < s.len() ==> white_space(#[trigger] s[k]),
    decreases s.len(),
{
    if s.len() > 0 && white_space(s.last()) {
        let t = s.drop_last();
        let k = lemma_trimmed_end_is_prefix(t);
        assert(t.take(k) =~= s.take(k));
        assert forall|m: int| k <= m < s.len() implies white_space(#[trigger] s[m]) by {
            if m < t.len() {
                assert(t[m] == s[m]);
            }
        }
        k
    } else {
        assert(s.take(s.len() as int) =~= s);
        s.len() as int
    }
}

/// A trimmed text is a part of the text that neither starts nor ends with white space; what is
/// before and behind it is white space, and trimming it again leaves it as it is.
pub proof fn law_trimmed_is_inner_part(s: Seq<char>)
    ensures
        exists|i: int, j: int|
            0 <= i <= j <= s.len() && trimmed(s) == #[trigger] s.subrange(i, j) && (forall|k: int|
                0 <= k < i || j <= k < s.len() ==> white_space(#[trigger] s[k])),
        trimmed(s).len() > 0 ==> !white_space(trimmed(s).first()) && !white_space(
            trimmed(s).last(),
        ),
        trimmed(trimmed(s)) == trimmed(s),
{
    let i = lemma_trimmed_start_is_suffix(s);
    let t = trimmed_start(s);
    let j = lemma_trimmed_end_is_prefix(t);
    assert(t.take(j) =~= s.subrange(i, i + j));
    assert forall|k: int| 0 <= k < i || i + j <= k < s.len() implies white_space(
        #[trigger] s[k],
    ) by {
        if k >= i {
            assert(t[k - i] == s[k]);
        }
    }
    lemma_start_not_white(s);
    lemma_end_not_white(t);
    if trimmed(s).len() > 0 {
        assert(trimmed(s).first() == t.first());
    }
}

proof fn lemma_start_not_white(s: Seq<char>)
    ensures
        trimmed_start(s).len() > 0 ==> !white_space(trimmed_start(s).first()),
    decreases s.len(),
{
    if s.len() > 0 && white_space(s.first()) {
        lemma_start_not_white(s.drop_first());
    }
}

proof fn lemma_end_not_white(s: Seq<char>)
    ensures
        trimmed_end(s).len() > 0 ==> !white_space(trimmed_end(s).last()),
    decreases s.len(),
{
    if s.len() > 0 && white_space(s.last()) {
        lemma_end_not_white(s.drop_last());
    }
}

/// Every scope name of a list is a non-empty text without separators and without white space at
/// its ends.
pub proof fn law_scope_names_are_clean(s: Seq<char>, i: int)
    requires
        0 <= i < scope_names(s).len(),
    ensures
        scope_names(s)[i].len() > 0,
        trimmed(scope_names(s)[i]) == scope_names(s)[i],
        forall|j: int|
            0 <= j < scope_names(s)[i].len() ==> !scope_separator(#[trigger] scope_names(s)[i][j]),
{
    let pieces = scope_pieces(s);
    let all = pieces.map_values(|p: Seq<char>| trimmed(p));
    let keep = |p: Seq<char>| p.len() > 0;
    let name = scope_names(s)[i];
    all.lemma_filter_pred(keep, i);
    assert(all.filter(keep).contains(name));
    all.lemma_filter_contains_rev(keep, name);
    let k = choose|k: int| 0 <= k < all.len() && all[k] == name;
    assert(name == trimmed(pieces[k]));
    law_trimmed_is_inner_part(pieces[k]);
    lemma_pieces_hold_no_separator(s);
    let (a, b) = choose|a: int, b: int|
        0 <= a <= b <= pieces[k].len() && trimmed(pieces[k]) == #[trigger] pieces[k].subrange(a, b);
    assert forall|j: int| 0 <= j < name.len() implies !scope_separator(#[trigger] name[j]) by {
        assert(name[j] == pieces[k][a + j]);
    }
}

/// Whether a text comes before another one or is the same, in the order of a dictionary whose
/// alphabet is all characters by their code points.
pub open spec fn text_le(a: Seq<char>, b: Seq<char>) -> bool
    decreases a.len(),
{
    if a.len() == 0 {
        true
    } else if b.len() == 0 {
        false
    } else if a.first() != b.first() {
        a.first() < b.first()
    } else {
        text_le(a.drop_first(), b.drop_first())
    }
}

/// The order of texts is total: of two texts one comes before the other, and both only if they are
/// the same text.
pub proof fn law_text_order_is_total(a: Seq<char>, b: Seq<char>)
    ensures
        text_le(a, b) || text_le(b, a),
        text_le(a, b) && text_le(b, a) <==> a == b,
    decreases a.len(),
{
    if a.len() == 0 || b.len() == 0 {
        assert(a.len() == b.len() ==> a =~= b);
    } else {
        law_text_order_is_total(a.drop_first(), b.drop_first());
        assert(a =~= seq![a.first()] + a.drop_first());
        assert(b =~= seq![b.first()] + b.drop_first());
    }
}

/// The order of texts is transitive.
pub proof fn law_text_order_is_transitive(a: Seq<char>, b: Seq<char>, c: Seq<char>)
    requires
        text_le(a, b),
        text_le(b, c),
    ensures
        text_le(a, c),
    decreases a.len(),
{
    if a.len() > 0 && a.first() == b.first() && b.first() == c.first() {
        law_text_order_is_transitive(a.drop_first(), b.drop_first(), c.drop_first());
    }
}

/// Whether a text comes before another one or is the same.
pub fn not_after(a: &str, b: &str) -> (r: bool)
    ensures
        r == text_le(a@, b@),
{
    let x: Vec<char> = chars_of(a);
    let y: Vec<char> = chars_of(b);
    let mut i: usize = 0;
    assert(x@.skip(0) =~= x@ && y@.skip(0) =~= y@);
    while i < x.len() && i < y.len() && x[i] == y[i]
        invariant
            i <= x@.len(),
            i <= y@.len(),
            text_le(x@, y@) == text_le(x@.skip(i as int), y@.skip(i as int)),
        decreases x@.len() - i,
    {
        assert(x@.skip(i as int).drop_first() =~= x@.skip(i + 1));
        assert(y@.skip(i as int).drop_first() =~= y@.skip(i + 1));
        i += 1;
    }
    if i == x.len() {
        true
    } else if i == y.len() {
        false
    } else {
        x[i] < y[i]
    }
}

/// A character occurs in a text as often as it is among the characters of the text.
pub proof fn law_occurrences_count_characters(s: Seq<char>, c: char)
    ensures
        occurrences(s, c) == s.to_multiset().count(c),
    decreases s.len(),
{
    broadcast use vstd::seq_lib::group_to_multiset_ensures;

    if s.len() > 0 {
        law_occurrences_count_characters(s.drop_last(), c);
        assert(s =~= s.drop_last().push(s.last()));
    }
}

proof fn lemma_leading_zeros_read(n: nat, s: Seq<char>)
    ensures
        digits_value(Seq::new(n, |i: int| '0') + s) == digits_value(s),
    decreases s.len(), n,
{
    let zeros = Seq::new(n, |i: int| '0');
    let t = zeros + s;
    if s.len() > 0 {
        lemma_leading_zeros_read(n, s.drop_last());
        assert(t.drop_last() =~= zeros + s.drop_last());
    } else if n > 0 {
        let m = (n - 1) as nat;
        lemma_leading_zeros_read(m, s);
        assert(t.drop_last() =~= Seq::new(m, |i: int| '0') + s);
    } else {
        assert(t =~= s);
    }
}

/// Filling a number up with zeros keeps its value, makes it at least as wide as asked for, and
/// leaves it alone if it is wide enough already.
pub proof fn law_zero_padding_keeps_the_number(n: nat, width: nat)
    ensures
        digits_value(zero_padded(n, width)) == n,
        all_digits(zero_padded(n, width)),
        zero_padded(n, width).len() == (if decimal(n).len() < width {
            width
        } else {
            decimal(n).len()
        }),
        decimal(n).is_suffix_of(zero_padded(n, width)),
{
    law_decimal_reads_back(n);
    let d = decimal(n);
    if d.len() < width {
        let k = (width - d.len()) as nat;
        lemma_leading_zeros_read(k, d);
        assert(zero_padded(n, width) =~= Seq::new(k, |i: int| '0') + d);
        assert(zero_padded(n, width).subrange(k as int, width as int) =~= d);
    } else {
        assert(d.subrange(0, d.len() as int) =~= d);
    }
}

/// A number that fits is read from its decimal digits, with leading zeros and a plus sign or
/// without, and a number that does not fit is not read.
pub proof fn law_written_numbers_are_read(n: nat, width: nat)
    ensures
        ({
            let expected = if n <= 0xffff_ffff {
                Some(n as u32)
            } else {
                None
            };
            &&& parsed_u32(decimal(n)) == expected
            &&& parsed_u32(zero_padded(n, width)) == expected
            &&& parsed_u32(seq!['+'] + decimal(n)) == expected
        }),
{
    law_decimal_reads_back(n);
    law_zero_padding_keeps_the_number(n, width);
    let d = decimal(n);
    let z = zero_padded(n, width);
    assert(is_digit(d[0]) && is_digit(z[0]));
    assert((seq!['+'] + d).skip(1) =~= d);
}

/// A text without digits, or with a character that is not a digit anywhere but for a plus sign at
/// its start, is not read as a number.
pub proof fn law_other_texts_are_not_numbers(s: Seq<char>)
    ensures
        (forall|i: int| 0 <= i < s.len() ==> !('0' <= #[trigger] s[i] <= '9')) ==> parsed_u32(s)
            is None,
        (exists|i: int|
            0 <= i < s.len() && !('0' <= #[trigger] s[i] <= '9') && !(i == 0 && s[i] == '+'))
            ==> parsed_u32(s) is None,
{
    let d = without_plus(s);
    if parsed_u32(s) is Some {
        assert(is_digit(d[0]));
        if s[0] == '+' {
            assert(d[0] == s[1]);
        }
        assert forall|i: int|
            0 <= i < s.len() && !('0' <= #[trigger] s[i] <= '9') implies i == 0 && s[i] == '+' by {
            if s[0] == '+' {
                if i > 0 {
                    assert(is_digit(d[i - 1]));
                }
            } else {
                assert(is_digit(d[i]));
            }
        }
    }
}

proof fn lemma_pieces_of_joined(a: Seq<char>, c: char, b: Seq<char>)
    requires
        scope_separator(c),
    ensures
        scope_pieces(a.push(c) + b) == scope_pieces(a) + scope_pieces(b),
    decreases b.len(),
{
    let s = a.push(c) + b;
    lemma_pieces_hold_no_separator(b);
    if b.len() == 0 {
        assert(s =~= a.push(c));
        assert(s.drop_last() =~= a);
        assert(scope_pieces(s) =~= scope_pieces(a) + scope_pieces(b));
    } else {
        let rest = b.drop_last();
        lemma_pieces_of_joined(a, c, rest);
        lemma_pieces_hold_no_separator(rest);
        assert(s.drop_last() =~= a.push(c) + rest);
        assert(scope_pieces(s) =~= scope_pieces(a) + scope_pieces(b));
    }
}

/// The scope names of two lists that are joined with a space or a comma are those of the first and
/// then those of the second.
pub proof fn law_scope_lists_are_joined(a: Seq<char>, c: char, b: Seq<char>)
    requires
        c == ' ' || c == ',',
    ensures
        scope_names(a + seq![c] + b) == scope_names(a) + scope_names(b),
{
    let f = |p: Seq<char>| trimmed(p);
    let keep = |p: Seq<char>| p.len() > 0;
    let x = scope_pieces(a);
    let y = scope_pieces(b);
    lemma_pieces_of_joined(a, c, b);
    assert(a + seq![c] + b =~= a.push(c) + b);
    assert((x + y).map_values(f) =~= x.map_values(f) + y.map_values(f));
    Seq::filter_distributes_over_add(x.map_values(f), y.map_values(f), keep);
}

proof fn lemma_one_piece(s: Seq<char>)
    requires
        forall|i: int| 0 <= i < s.len() ==> !scope_separator(#[trigger] s[i]),
    ensures
        scope_pieces(s) == seq![s],
    decreases s.len(),
{
    if s.len() > 0 {
        lemma_one_piece(s.drop_last());
        assert(s.drop_last().push(s.last()) =~= s);
        assert(scope_pieces(s) =~= seq![s]);
    } else {
        assert(s =~= Seq::<char>::empty());
    }
}

/// A text without spaces and commas is one scope name, without the white space around it, and none
/// if it is blank.
pub proof fn law_single_scope_name(s: Seq<char>)
    requires
        forall|i: int| 0 <= i < s.len() ==> #[trigger] s[i] != ' ' && s[i] != ',',
    ensures
        scope_names(s) == (if trimmed(s).len() > 0 {
            seq![trimmed(s)]
        } else {
            Seq::empty()
        }),
{
    lemma_one_piece(s);
    lemma_names_push(Seq::empty(), s);
    assert(Seq::<Seq<char>>::empty().push(s) =~= seq![s]);
    reveal(Seq::filter);
    assert(names_of_pieces(Seq::empty()) =~= Seq::<Seq<char>>::empty());
    assert(Seq::<Seq<char>>::empty().push(trimmed(s)) =~= seq![trimmed(s)]);
}

/// Which of two texts comes first is decided by the characters at the first place where they
/// differ; a text that is the start of the other one comes first.
pub proof fn law_first_difference_decides(a: Seq<char>, b: Seq<char>, i: int)
    requires
        0 <= i <= a.len(),
        0 <= i <= b.len(),
        a.take(i) == b.take(i),
    ensures
        i < a.len() && i < b.len() && a[i] != b[i] ==> (text_le(a, b) <==> a[i] < b[i]),
        i == a.len() ==> text_le(a, b),
        i == b.len() && i < a.len() ==> !text_le(a, b),
    decreases i,
{
    if i > 0 {
        assert(a[0] == a.take(i)[0] && b[0] == b.take(i)[0]);
        let x = a.drop_first();
        let y = b.drop_first();
        assert(x.take(i - 1) =~= a.take(i).drop_first());
        assert(y.take(i - 1) =~= b.take(i).drop_first());
        law_first_difference_decides(x, y, i - 1);
    }
}

} // verus!
