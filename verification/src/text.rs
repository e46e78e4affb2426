//! String building blocks: decimal rendering, joining, and replacing the
//! first occurrence of a pattern.

use vstd::prelude::*;

verus! {

/// The character of a decimal digit `d` (for `d < 10`).
pub open spec fn digit_char(d: nat) -> char {
    if d == 0 {
        '0'
    } else if d == 1 {
        '1'
    } else if d == 2 {
        '2'
    } else if d == 3 {
        '3'
    } else if d == 4 {
        '4'
    } else if d == 5 {
        '5'
    } else if d == 6 {
        '6'
    } else if d == 7 {
        '7'
    } else if d == 8 {
        '8'
    } else {
        '9'
    }
}

fn digit(d: u64) -> (c: char)
    requires
        d < 10,
    ensures
        c == digit_char(d as nat),
{
    if d == 0 {
        '0'
    } else if d == 1 {
        '1'
    } else if d == 2 {
        '2'
    } else if d == 3 {
        '3'
    } else if d == 4 {
        '4'
    } else if d == 5 {
        '5'
    } else if d == 6 {
        '6'
    } else if d == 7 {
        '7'
    } else if d == 8 {
        '8'
    } else {
        '9'
    }
}

/// Decimal digits of a natural number, most significant first, without
/// leading zeros.
pub open spec fn digits(n: nat) -> Seq<char>
    decreases n,
{
    if n < 10 {
        seq![digit_char(n)]
    } else {
        digits(n / 10).push(digit_char(n % 10))
    }
}

/// Decimal rendering of an integer, as `Display` writes it: a leading `-` for
/// negative numbers, then the digits of the magnitude.
pub open spec fn decimal(i: int) -> Seq<char> {
    if i < 0 {
        seq!['-'] + digits((-i) as nat)
    } else {
        digits(i as nat)
    }
}

/// A decimal rendering holds digits and at most a leading minus sign: no
/// other character, such as a tab or a line break, occurs in it.
pub proof fn lemma_decimal_chars(i: int, k: int)
    requires
        0 <= k < decimal(i).len(),
    ensures
        ('0' <= decimal(i)[k] <= '9') || (k == 0 && i < 0 && decimal(i)[k] == '-'),
{
    if i < 0 {
        if k > 0 {
            lemma_digits_chars((-i) as nat, k - 1);
        }
    } else {
        lemma_digits_chars(i as nat, k);
    }
}

proof fn lemma_digits_chars(n: nat, k: int)
    requires
        0 <= k < digits(n).len(),
    ensures
        '0' <= digits(n)[k] <= '9',
    decreases n,
{
    if n >= 10 {
        if k < digits(n / 10).len() {
            lemma_digits_chars(n / 10, k);
        }
    }
}

/// The value of a decimal digit character.
pub open spec fn digit_value(c: char) -> int {
    (c as u32) - ('0' as u32)
}

/// The number that a sequence of decimal digits stands for.
pub open spec fn digits_value(s: Seq<char>) -> int
    decreases s.len(),
{
    if s.len() == 0 {
        0
    } else {
        digits_value(s.drop_last()) * 10 + digit_value(s.last())
    }
}

proof fn lemma_digits_value(n: nat)
    ensures
        digits_value(digits(n)) == n,
        digits(n).len() > 0,
        digits(n).len() > 1 ==> digits(n)[0] != '0',
    decreases n,
{
    lemma_digit_value(n % 10);
    if n >= 10 {
        lemma_digits_value(n / 10);
        assert(digits(n).drop_last() =~= digits(n / 10));
        assert(digits(n).last() == digit_char(n % 10));
        assert(digits_value(digits(n)) == digits_value(digits(n / 10)) * 10 + digit_value(
            digit_char(n % 10),
        ));
        assert(digits(n)[0] == digits(n / 10)[0]);
        assert((n / 10) * 10 + n % 10 == n) by (nonlinear_arith);
        if n / 10 < 10 {
            lemma_digit_value(n / 10);
        } else {
            lemma_digits_value((n / 10) / 10);
            assert(digits(n / 10).len() > 1);
        }
    } else {
        assert(digits(n).drop_last() =~= Seq::<char>::empty());
        assert(digits_value(digits(n)) == digits_value(Seq::<char>::empty()) * 10 + digit_value(
            digit_char(n),
        ));
    }
}

proof fn lemma_digit_value(d: nat)
    requires
        d < 10,
    ensures
        digit_value(digit_char(d)) == d,
        d > 0 ==> digit_char(d) != '0',
{
}

/// A decimal rendering reads back as the number it renders: a minus sign
/// exactly for a negative number, then the digits of the magnitude, with no
/// leading zero.
pub proof fn law_decimal_reads_back(i: int)
    ensures
        decimal(i).len() > 0,
        i < 0 <==> decimal(i)[0] == '-',
        i < 0 ==> digits_value(decimal(i).skip(1)) == -i,
        i >= 0 ==> digits_value(decimal(i)) == i,
        forall|k: int|
            (if i < 0 { 1int } else { 0int }) <= k < decimal(i).len() ==> '0' <= #[trigger] decimal(i)[k] <= '9',
        decimal(i).len() > (if i < 0 { 2int } else { 1int }) ==> decimal(i)[if i < 0 { 1int } else { 0int }] != '0',
{
    if i < 0 {
        lemma_digits_value((-i) as nat);
        assert(decimal(i).skip(1) =~= digits((-i) as nat));
        lemma_digits_chars((-i) as nat, 0);
    } else {
        lemma_digits_value(i as nat);
        lemma_digits_chars(i as nat, 0);
    }
    assert forall|k: int|
        (if i < 0 { 1int } else { 0int }) <= k < decimal(i).len() implies '0' <= #[trigger] decimal(i)[k] <= '9' by {
        lemma_decimal_chars(i, k);
    }
}

/// `String::push`: the contract claims, as std documents, that the
/// character is appended at the end.
#[verifier::external_body]
pub(crate) fn push_char(s: &mut String, c: char)
    ensures
        final(s)@ == old(s)@.push(c),
{
    s.push(c);
}

fn push_digits(s: &mut String, n: u64)
    ensures
        final(s)@ == old(s)@ + digits(n as nat),
    decreases n,
{
    if n >= 10 {
        push_digits(s, n / 10);
    }
    push_char(s, digit(n % 10));
    assert(old(s)@ + digits(n as nat) =~= final(s)@);
}

/// Appends the decimal rendering of `i` to `s`.
pub fn push_decimal(s: &mut String, i: i64)
    ensures
        final(s)@ == old(s)@ + decimal(i as int),
{
    if i < 0 {
        push_char(s, '-');
        let magnitude: u64 = ((-(i + 1)) as u64) + 1;
        push_digits(s, magnitude);
        assert(final(s)@ =~= old(s)@ + decimal(i as int));
    } else {
        push_digits(s, i as u64);
    }
}

/// The decimal rendering of `i`, as `i.to_string()` gives it.
pub fn decimal_string(i: i64) -> (s: String)
    ensures
        s@ == decimal(i as int),
{
    let mut s = String::new();
    push_decimal(&mut s, i);
    assert(s@ =~= decimal(i as int));
    s
}

/// `parts` joined with `sep` between neighbours, as `[..].join(sep)` builds it.
pub open spec fn joined(parts: Seq<Seq<char>>, sep: Seq<char>) -> Seq<char>
    decreases parts.len(),
{
    if parts.len() == 0 {
        Seq::empty()
    } else if parts.len() == 1 {
        parts[0]
    } else {
        joined(parts.drop_last(), sep) + sep + parts.last()
    }
}

/// The character sequences of a list of strings.
pub open spec fn views(v: Seq<String>) -> Seq<Seq<char>> {
    v.map_values(|s: String| s@)
}

/// Where the part at `i` starts in `parts` joined with a separator of
/// `sep_len` characters: after each earlier part and a separator behind each.
pub open spec fn part_start(parts: Seq<Seq<char>>, sep_len: int, i: int) -> int
    decreases i,
{
    if i <= 0 {
        0
    } else {
        part_start(parts, sep_len, i - 1) + parts[i - 1].len() + sep_len
    }
}

proof fn lemma_part_start_prefix(parts: Seq<Seq<char>>, sep_len: int, n: int, i: int)
    requires
        0 <= i <= n <= parts.len(),
    ensures
        part_start(parts.take(n), sep_len, i) == part_start(parts, sep_len, i),
    decreases i,
{
    if i > 0 {
        lemma_part_start_prefix(parts, sep_len, n, i - 1);
    }
}

/// Joining keeps every part, whole and in order: each part stands at its
/// place, the separator stands between each two neighbours, and the text
/// holds nothing more than the parts and those separators.
pub proof fn law_joined_parts(parts: Seq<Seq<char>>, sep: Seq<char>)
    ensures
        parts.len() == 0 ==> joined(parts, sep).len() == 0,
        parts.len() > 0 ==> joined(parts, sep).len() == part_start(
            parts,
            sep.len() as int,
            parts.len() - 1,
        ) + parts.last().len(),
        forall|i: int|
            0 <= i < parts.len() ==> joined(parts, sep).subrange(
                part_start(parts, sep.len() as int, i),
                part_start(parts, sep.len() as int, i) + parts[i].len(),
            ) == parts[i],
        forall|i: int|
            0 < i < parts.len() ==> joined(parts, sep).subrange(
                part_start(parts, sep.len() as int, i) - sep.len(),
                part_start(parts, sep.len() as int, i),
            ) == sep,
{
    lemma_joined_len(parts, sep);
    assert forall|i: int| 0 <= i < parts.len() implies joined(parts, sep).subrange(
        part_start(parts, sep.len() as int, i),
        part_start(parts, sep.len() as int, i) + parts[i].len(),
    ) == parts[i] by {
        lemma_joined_part_at(parts, sep, i);
    }
    assert forall|i: int| 0 < i < parts.len() implies joined(parts, sep).subrange(
        part_start(parts, sep.len() as int, i) - sep.len(),
        part_start(parts, sep.len() as int, i),
    ) == sep by {
        lemma_joined_sep_at(parts, sep, i);
    }
}

proof fn lemma_joined_len(parts: Seq<Seq<char>>, sep: Seq<char>)
    ensures
        parts.len() == 0 ==> joined(parts, sep).len() == 0,
        parts.len() > 0 ==> joined(parts, sep).len() == part_start(
            parts,
            sep.len() as int,
            parts.len() - 1,
        ) + parts.last().len(),
    decreases parts.len(),
{
    let n = parts.len() as int;
    if n >= 2 {
        let init = parts.drop_last();
        lemma_joined_len(init, sep);
        assert(init =~= parts.take(n - 1));
        lemma_part_start_prefix(parts, sep.len() as int, n - 1, n - 2);
    }
}

proof fn lemma_joined_part_at(parts: Seq<Seq<char>>, sep: Seq<char>, i: int)
    requires
        0 <= i < parts.len(),
    ensures
        joined(parts, sep).subrange(
            part_start(parts, sep.len() as int, i),
            part_start(parts, sep.len() as int, i) + parts[i].len(),
        ) == parts[i],
    decreases parts.len(),
{
    let sl = sep.len() as int;
    let n = parts.len() as int;
    let all = joined(parts, sep);
    let a = part_start(parts, sl, i);
    if n == 1 {
        assert(all.subrange(0, parts[0].len() as int) =~= parts[0]);
    } else {
        let init = parts.drop_last();
        let j = joined(init, sep);
        assert(init =~= parts.take(n - 1));
        assert(all == j + sep + parts.last());
        lemma_joined_len(init, sep);
        lemma_part_start_prefix(parts, sl, n - 1, n - 2);
        lemma_part_start_prefix(parts, sl, n - 1, i);
        lemma_part_start_nonneg(parts, sl, i);
        if i < n - 1 {
            lemma_joined_part_at(init, sep, i);
            lemma_joined_bounds(init, sep, i);
            assert(init[i] == parts[i]);
            lemma_subrange_of_prefix(j, sep + parts.last(), a, a + parts[i].len());
            assert(j + sep + parts.last() =~= j + (sep + parts.last()));
        } else {
            assert(a == j.len() + sl);
            assert(all.subrange(a, a + parts[i].len()) =~= parts.last());
        }
    }
}

proof fn lemma_joined_sep_at(parts: Seq<Seq<char>>, sep: Seq<char>, i: int)
    requires
        0 < i < parts.len(),
    ensures
        joined(parts, sep).subrange(
            part_start(parts, sep.len() as int, i) - sep.len(),
            part_start(parts, sep.len() as int, i),
        ) == sep,
    decreases parts.len(),
{
    let sl = sep.len() as int;
    let n = parts.len() as int;
    let all = joined(parts, sep);
    let a = part_start(parts, sl, i);
    let init = parts.drop_last();
    let j = joined(init, sep);
    assert(init =~= parts.take(n - 1));
    assert(all == j + sep + parts.last());
    lemma_joined_len(init, sep);
    lemma_part_start_prefix(parts, sl, n - 1, n - 2);
    lemma_part_start_prefix(parts, sl, n - 1, i);
    lemma_part_start_nonneg(parts, sl, i - 1);
    if i < n - 1 {
        lemma_joined_sep_at(init, sep, i);
        lemma_joined_bounds(init, sep, i);
        lemma_subrange_of_prefix(j, sep + parts.last(), a - sl, a);
        assert(j + sep + parts.last() =~= j + (sep + parts.last()));
    } else {
        assert(a == j.len() + sl);
        assert(all.subrange(a - sl, a) =~= sep);
    }
}

/// Each part of a joined text, and the separator before each part but the
/// first, lies within the text.
pub proof fn lemma_joined_bounds(parts: Seq<Seq<char>>, sep: Seq<char>, i: int)
    requires
        0 <= i < parts.len(),
    ensures
        sep.len() <= part_start(parts, sep.len() as int, i) + if i == 0 {
            sep.len() as int
        } else {
            0
        },
        part_start(parts, sep.len() as int, i) + parts[i].len() <= joined(parts, sep).len(),
    decreases parts.len(),
{
    let sl = sep.len() as int;
    let n = parts.len() as int;
    if i > 0 {
        lemma_part_start_nonneg(parts, sl, i - 1);
    }
    if n >= 2 {
        let init = parts.drop_last();
        assert(init =~= parts.take(n - 1));
        if i < n - 1 {
            lemma_joined_bounds(init, sep, i);
            lemma_part_start_prefix(parts, sl, n - 1, i);
        } else {
            lemma_joined_bounds(init, sep, n - 2);
            lemma_part_start_prefix(parts, sl, n - 1, n - 2);
        }
    }
}

proof fn lemma_subrange_of_prefix(a: Seq<char>, b: Seq<char>, from: int, to: int)
    requires
        0 <= from <= to <= a.len(),
    ensures
        (a + b).subrange(from, to) == a.subrange(from, to),
{
    assert((a + b).subrange(from, to) =~= a.subrange(from, to));
}

proof fn lemma_part_start_nonneg(parts: Seq<Seq<char>>, sep_len: int, i: int)
    requires
        sep_len >= 0,
    ensures
        part_start(parts, sep_len, i) >= 0,
    decreases i,
{
    if i > 0 {
        lemma_part_start_nonneg(parts, sep_len, i - 1);
    }
}

/// Joins `parts` with `sep` between neighbours.
pub fn join_strings(parts: &Vec<String>, sep: &str) -> (res: String)
    ensures
        res@ == joined(views(parts@), sep@),
{
    let mut res = String::new();
    let n = parts.len();
    let mut i: usize = 0;
    while i < n
        invariant
            n == parts@.len(),
            i <= n,
            res@ == joined(views(parts@).take(i as int), sep@),
        decreases n - i,
    {
        proof {
            assert(views(parts@).take(i + 1).drop_last() =~= views(parts@).take(i as int));
        }
        if i > 0 {
            res.append(sep);
        }
        res.append(parts[i].as_str());
        i = i + 1;
    }
    assert(views(parts@).take(n as int) =~= views(parts@));
    res
}

/// The characters of `s`, one by one.
pub fn chars_of(s: &str) -> (v: Vec<char>)
    ensures
        v@ == s@,
{
    let mut v: Vec<char> = Vec::new();
    for c in it: s.chars()
        invariant
            v@ == it.seq().take(it.index() as int),
    {
        v.push(c);
    }
    v
}

/// A string made of the characters `v[from..to]`.
pub fn string_of(v: &Vec<char>, from: usize, to: usize) -> (s: String)
    requires
        from <= to <= v@.len(),
    ensures
        s@ == v@.subrange(from as int, to as int),
{
    let mut s = String::new();
    let mut i = from;
    while i < to
        invariant
            from <= i <= to <= v@.len(),
            s@ == v@.subrange(from as int, i as int),
        decreases to - i,
    {
        push_char(&mut s, v[i]);
        i = i + 1;
        assert(s@ =~= v@.subrange(from as int, i as int));
    }
    s
}

/// Whether `pat` occurs in `s` at position `i`.
pub open spec fn occurs_at(s: Seq<char>, pat: Seq<char>, i: int) -> bool {
    0 <= i && i + pat.len() <= s.len() && s.subrange(i, i + pat.len()) == pat
}

/// The first position at or after `from` where `pat` occurs in `s`.
pub open spec fn first_occurrence_from(s: Seq<char>, pat: Seq<char>, from: int) -> Option<int>
    decreases s.len() + 1 - from,
{
    if from < 0 || from + pat.len() > s.len() {
        None
    } else if occurs_at(s, pat, from) {
        Some(from)
    } else {
        first_occurrence_from(s, pat, from + 1)
    }
}

/// `s` with the first occurrence of `pat` replaced by `rep`, or `s` itself
/// where `pat` does not occur: what `s.replacen(pat, rep, 1)` gives.
pub open spec fn replace_first(s: Seq<char>, pat: Seq<char>, rep: Seq<char>) -> Seq<char> {
    match first_occurrence_from(s, pat, 0) {
        Some(i) => s.subrange(0, i) + rep + s.subrange(i + pat.len(), s.len() as int),
        None => s,
    }
}

proof fn lemma_first_occurrence_skip(s: Seq<char>, pat: Seq<char>, from: int)
    requires
        0 <= from,
        from + pat.len() <= s.len(),
        !occurs_at(s, pat, from),
    ensures
        first_occurrence_from(s, pat, from) == first_occurrence_from(s, pat, from + 1),
{
}

fn matches_at(s: &Vec<char>, pat: &Vec<char>, i: usize) -> (b: bool)
    requires
        i + pat@.len() <= s@.len(),
    ensures
        b == occurs_at(s@, pat@, i as int),
{
    let m = pat.len();
    let sl = s.len();
    let mut j: usize = 0;
    while j < m
        invariant
            m == pat@.len(),
            sl == s@.len(),
            i + m <= s@.len(),
            j <= m,
            forall|k: int| 0 <= k < j ==> s@[i + k] == pat@[k],
        decreases m - j,
    {
        if s[i + j] != pat[j] {
            assert(s@.subrange(i as int, i + m)[j as int] != pat@[j as int]);
            return false;
        }
        j = j + 1;
    }
    assert(s@.subrange(i as int, i + m) =~= pat@);
    true
}

/// Replaces the first occurrence of `pat` in `s` by `rep`.
pub fn replace_first_occurrence(s: &str, pat: &str, rep: &str) -> (res: String)
    ensures
        res@ == replace_first(s@, pat@, rep@),
{
    let sv = chars_of(s);
    let pv = chars_of(pat);
    let n = sv.len();
    let m = pv.len();
    if m > n {
        let res = string_of(&sv, 0, n);
        assert(sv@.subrange(0, n as int) =~= sv@);
        return res;
    }
    let mut i: usize = 0;
    while m <= n - i
        invariant
            n == sv@.len(),
            i <= n,
            m == pv@.len(),
            m <= n,
            sv@ == s@,
            pv@ == pat@,
            first_occurrence_from(s@, pat@, 0) == first_occurrence_from(s@, pat@, i as int),
        decreases n - i,
    {
        if matches_at(&sv, &pv, i) {
            let mut res = string_of(&sv, 0, i);
            res.append(rep);
            let tail = string_of(&sv, i + m, n);
            res.append(tail.as_str());
            return res;
        }
        assert(m > 0) by {
            if m == 0 {
                assert(sv@.subrange(i as int, i as int) =~= pv@);
            }
        }
        proof {
            lemma_first_occurrence_skip(s@, pat@, i as int);
        }
        i = i + 1;
    }
    let res = string_of(&sv, 0, n);
    assert(sv@.subrange(0, n as int) =~= sv@);
    res
}

} // verus!
