//! Verified text utilities: splitting into lines and fields, joining,
//! prefix tests and decimal parsing, as the status parser needs them.

use vstd::prelude::*;

verus! {

/// Relies on `alloc::string::String::push`: appends the character to the
/// end of the string. vstd gives this method no specification.
pub assume_specification[ String::push ](s: &mut String, c: char)
    ensures
        final(s)@ == old(s)@.push(c),
;

/// Index of the first occurrence of `c` in `s`, or `s.len()` if absent.
pub open spec fn first_index_of(s: Seq<char>, c: char) -> int
    decreases s.len(),
{
    if s.len() == 0 {
        0
    } else if s[0] == c {
        0
    } else {
        1 + first_index_of(s.drop_first(), c)
    }
}

/// `first_index_of` is in range, points at `c` when in bounds, and
/// nothing before it is `c`.
pub proof fn lemma_first_index_of(s: Seq<char>, c: char)
    ensures
        0 <= first_index_of(s, c) <= s.len(),
        first_index_of(s, c) < s.len() ==> s[first_index_of(s, c)] == c,
        forall|j: int| 0 <= j < first_index_of(s, c) ==> s[j] != c,
    decreases s.len(),
{
    if s.len() > 0 && s[0] != c {
        lemma_first_index_of(s.drop_first(), c);
        let i = first_index_of(s, c);
        assert(i == 1 + first_index_of(s.drop_first(), c));
        if i < s.len() {
            assert(s[i] == s.drop_first()[i - 1]);
        }
        assert forall|j: int| 0 <= j < i implies s[j] != c by {
            if j > 0 {
                assert(s[j] == s.drop_first()[j - 1]);
            }
        }
    }
}

/// If nothing in `s[0..i]` is `c`, and either `i` is the length or
/// `s[i] == c`, then `i` is the first occurrence.
pub proof fn lemma_first_index_is(s: Seq<char>, c: char, i: int)
    requires
        0 <= i <= s.len(),
        forall|j: int| 0 <= j < i ==> s[j] != c,
        i < s.len() ==> s[i] == c,
    ensures
        first_index_of(s, c) == i,
    decreases s.len(),
{
    if s.len() > 0 && s[0] != c {
        lemma_first_index_is(s.drop_first(), c, i - 1);
    }
}

/// The pieces of `s` between occurrences of `sep`, occurrences removed,
/// empty pieces kept; always at least one piece.
pub open spec fn spec_split(s: Seq<char>, sep: char) -> Seq<Seq<char>>
    decreases s.len(),
    via spec_split_decreases
{
    let i = first_index_of(s, sep);
    if i == s.len() {
        seq![s]
    } else {
        seq![s.subrange(0, i)] + spec_split(s.subrange(i + 1, s.len() as int), sep)
    }
}

#[via_fn]
proof fn spec_split_decreases(s: Seq<char>, sep: char) {
    lemma_first_index_of(s, sep);
}

/// A piece with a trailing carriage return loses it, as text split at
/// line endings does.
pub open spec fn strip_cr(s: Seq<char>) -> Seq<char> {
    if s.len() > 0 && s[s.len() - 1] == '\r' {
        s.drop_last()
    } else {
        s
    }
}

/// The lines of `s`: pieces ending at each newline, the newline removed
/// together with a carriage return just before it; a final piece without
/// a newline stands as it is, and a trailing newline adds no empty line.
pub open spec fn spec_lines(s: Seq<char>) -> Seq<Seq<char>>
    decreases s.len(),
    via spec_lines_decreases
{
    if s.len() == 0 {
        Seq::empty()
    } else {
        let i = first_index_of(s, '\n');
        if i == s.len() {
            seq![s]
        } else {
            seq![strip_cr(s.subrange(0, i))] + spec_lines(s.subrange(i + 1, s.len() as int))
        }
    }
}

#[via_fn]
proof fn spec_lines_decreases(s: Seq<char>) {
    lemma_first_index_of(s, '\n');
}

/// The pieces joined with `sep` between each adjacent pair.
pub open spec fn spec_join(parts: Seq<Seq<char>>, sep: char) -> Seq<char>
    decreases parts.len(),
{
    if parts.len() == 0 {
        Seq::empty()
    } else if parts.len() == 1 {
        parts[0]
    } else {
        parts[0] + seq![sep] + spec_join(parts.drop_first(), sep)
    }
}

/// Appending one more piece appends a separator (unless nothing was
/// there) and the piece.
pub proof fn lemma_join_push(parts: Seq<Seq<char>>, x: Seq<char>, sep: char)
    ensures
        parts.len() == 0 ==> spec_join(parts.push(x), sep) =~= x,
        parts.len() > 0 ==> spec_join(parts.push(x), sep) =~= spec_join(parts, sep) + seq![sep]
            + x,
    decreases parts.len(),
{
    if parts.len() == 0 {
        assert(parts.push(x) =~= seq![x]);
    } else if parts.len() == 1 {
        assert(parts.push(x)[0] == parts[0]);
        assert(parts.push(x).drop_first() =~= seq![x]);
        assert(spec_join(parts.push(x).drop_first(), sep) == x);
        assert(spec_join(parts.push(x), sep) =~= parts[0] + seq![sep] + x);
    } else {
        lemma_join_push(parts.drop_first(), x, sep);
        assert(parts.push(x).drop_first() =~= parts.drop_first().push(x));
        assert(spec_join(parts.push(x), sep) =~= parts[0] + seq![sep] + spec_join(
            parts.drop_first().push(x),
            sep,
        ));
        assert(spec_join(parts.drop_first().push(x), sep) =~= spec_join(
            parts.drop_first(),
            sep,
        ) + seq![sep] + x);
        assert(spec_join(parts, sep) =~= parts[0] + seq![sep] + spec_join(
            parts.drop_first(),
            sep,
        ));
        assert(spec_join(parts.push(x), sep) =~= spec_join(parts, sep) + seq![sep] + x);
    }
}

/// Whether `p` stands at the start of `s`.
pub open spec fn spec_starts_with(s: Seq<char>, p: Seq<char>) -> bool {
    p.len() <= s.len() && s.subrange(0, p.len() as int) == p
}

/// `s` with every copy of the non-empty prefix `p` removed from its
/// start, one after the other.
pub open spec fn spec_trim_prefix(s: Seq<char>, p: Seq<char>) -> Seq<char>
    decreases s.len(),
{
    if p.len() > 0 && spec_starts_with(s, p) {
        spec_trim_prefix(s.subrange(p.len() as int, s.len() as int), p)
    } else {
        s
    }
}

/// `s` with every leading occurrence of the character `c` removed.
pub open spec fn spec_trim_char(s: Seq<char>, c: char) -> Seq<char>
    decreases s.len(),
{
    if s.len() > 0 && s[0] == c {
        spec_trim_char(s.drop_first(), c)
    } else {
        s
    }
}

/// Whether every character of `s` is a decimal digit.
pub open spec fn all_digits(s: Seq<char>) -> bool {
    forall|i: int| 0 <= i < s.len() ==> '0' <= #[trigger] s[i] <= '9'
}

/// Value of a digit character.
pub open spec fn digit_val(c: char) -> nat {
    (c as nat - '0' as nat) as nat
}

/// Numeric value of a sequence of decimal digits, most significant
/// first.
pub open spec fn digits_value(s: Seq<char>) -> nat
    decreases s.len(),
{
    if s.len() == 0 {
        0
    } else {
        digits_value(s.drop_last()) * 10 + digit_val(s[s.len() - 1])
    }
}

/// What parsing `s` as a non-negative decimal number yields when every
/// failure falls back to zero: its value if `s` is one or more digits
/// and the value fits the machine word, zero otherwise.
pub open spec fn spec_parse_usize_or_zero(s: Seq<char>) -> nat {
    if s.len() > 0 && all_digits(s) && digits_value(s) <= usize::MAX {
        digits_value(s)
    } else {
        0
    }
}


/// The non-empty pieces among `parts`, in order.
pub open spec fn spec_nonempty(parts: Seq<Seq<char>>) -> Seq<Seq<char>>
    decreases parts.len(),
{
    if parts.len() == 0 {
        Seq::empty()
    } else {
        spec_nonempty(parts.drop_last()) + (if parts.last().len() > 0 {
            seq![parts.last()]
        } else {
            Seq::<Seq<char>>::empty()
        })
    }
}

/// The whitespace-separated fields of `s`: the non-empty pieces of a
/// split on spaces.
pub open spec fn spec_fields(s: Seq<char>) -> Seq<Seq<char>> {
    spec_nonempty(spec_split(s, ' '))
}

/// The whitespace-separated fields of `s`, as [`spec_fields`]
/// describes them.
pub fn split_fields(s: &str) -> (r: Vec<String>)
    ensures
        r.deep_view() == spec_fields(s@),
{
    let pieces = split_on(s, ' ');
    let mut out: Vec<String> = Vec::new();
    proof {
        assert(out.deep_view() =~= spec_nonempty(pieces.deep_view().subrange(0, 0)));
    }
    let mut i: usize = 0;
    while i < pieces.len()
        invariant
            i <= pieces.len(),
            pieces.deep_view() == spec_split(s@, ' '),
            out.deep_view() == spec_nonempty(pieces.deep_view().subrange(0, i as int)),
        decreases pieces.len() - i,
    {
        let ghost pre = pieces.deep_view().subrange(0, i as int);
        let ghost cur = pieces.deep_view().subrange(0, i + 1);
        proof {
            assert(cur.drop_last() =~= pre);
            assert(cur.last() == pieces.deep_view()[i as int]);
        }
        if str_len(pieces[i].as_str()) > 0 {
            out.push(pieces[i].clone());
            proof {
                assert(out.deep_view() =~= spec_nonempty(pre) + seq![
                    pieces.deep_view()[i as int],
                ]);
            }
        } else {
            proof {
                assert(out.deep_view() =~= spec_nonempty(pre) + Seq::<Seq<char>>::empty());
            }
        }
        i += 1;
    }
    proof {
        assert(pieces.deep_view().subrange(0, pieces.len() as int) =~= pieces.deep_view());
    }
    out
}

/// Number of characters in `s`.
pub fn str_len(s: &str) -> (n: usize)
    ensures
        n == s@.len(),
{
    s.unicode_len()
}

/// Whether two string slices hold the same characters.
pub fn str_eq(a: &str, b: &str) -> (r: bool)
    ensures
        r == (a@ == b@),
{
    let na = a.unicode_len();
    let nb = b.unicode_len();
    if na != nb {
        return false;
    }
    let mut i: usize = 0;
    while i < na
        invariant
            i <= na,
            na == a@.len(),
            na == b@.len(),
            forall|j: int| 0 <= j < i ==> a@[j] == b@[j],
        decreases na - i,
    {
        if a.get_char(i) != b.get_char(i) {
            return false;
        }
        i += 1;
    }
    proof {
        assert(a@ =~= b@);
    }
    true
}

/// Whether `s` starts with the prefix `p`.
pub fn starts_with(s: &str, p: &str) -> (r: bool)
    ensures
        r == spec_starts_with(s@, p@),
{
    let ns = s.unicode_len();
    let np = p.unicode_len();
    if np > ns {
        return false;
    }
    let mut i: usize = 0;
    while i < np
        invariant
            i <= np,
            np <= ns,
            ns == s@.len(),
            np == p@.len(),
            forall|j: int| 0 <= j < i ==> s@[j] == p@[j],
        decreases np - i,
    {
        if s.get_char(i) != p.get_char(i) {
            proof {
                assert(s@.subrange(0, p@.len() as int)[i as int] != p@[i as int]);
            }
            return false;
        }
        i += 1;
    }
    proof {
        assert(s@.subrange(0, p@.len() as int) =~= p@);
    }
    true
}

/// Index of the first occurrence of `c` in `s`, if there is one.
pub fn find_char(s: &str, c: char) -> (r: Option<usize>)
    ensures
        match r {
            Some(i) => i == first_index_of(s@, c) && i < s@.len(),
            None => first_index_of(s@, c) == s@.len(),
        },
{
    let n = s.unicode_len();
    let mut i: usize = 0;
    while i < n
        invariant
            i <= n,
            n == s@.len(),
            forall|j: int| 0 <= j < i ==> s@[j] != c,
        decreases n - i,
    {
        if s.get_char(i) == c {
            proof {
                lemma_first_index_is(s@, c, i as int);
            }
            return Some(i);
        }
        i += 1;
    }
    proof {
        lemma_first_index_is(s@, c, n as int);
    }
    None
}

/// The substring of `s` from `from` (inclusive) to `to` (exclusive),
/// counted in characters, as an owned string.
pub fn substring(s: &str, from: usize, to: usize) -> (r: String)
    requires
        from <= to <= s@.len(),
    ensures
        r@ == s@.subrange(from as int, to as int),
{
    String::from_str(s.substring_char(from, to))
}

/// The lines of `s`, as [`spec_lines`] describes them.
pub fn split_lines(s: &str) -> (r: Vec<String>)
    ensures
        r.deep_view() == spec_lines(s@),
{
    let n = s.unicode_len();
    let mut res: Vec<String> = Vec::new();
    proof {
        assert(s@.subrange(0, n as int) =~= s@);
        assert(res.deep_view() =~= Seq::<Seq<char>>::empty());
        assert(res.deep_view() + spec_lines(s@) =~= spec_lines(s@));
    }
    let mut start: usize = 0;
    let mut i: usize = 0;
    while i < n
        invariant
            start <= i <= n,
            n == s@.len(),
            res.deep_view() + spec_lines(s@.subrange(start as int, n as int)) == spec_lines(s@),
            forall|j: int| start <= j < i ==> s@[j] != '\n',
        decreases n - i,
    {
        if s.get_char(i) == '\n' {
            let ghost rem = s@.subrange(start as int, n as int);
            proof {
                assert forall|j: int| 0 <= j < i - start implies rem[j] != '\n' by {
                    assert(rem[j] == s@[start + j]);
                }
                lemma_first_index_is(rem, '\n', i - start);
            }
            let mut end = i;
            if end > start && s.get_char(end - 1) == '\r' {
                end = end - 1;
            }
            let piece = substring(s, start, end);
            proof {
                assert(rem.subrange(0, i - start) =~= s@.subrange(start as int, i as int));
                if i > start && s@[i as int - 1] == '\r' {
                    assert(strip_cr(rem.subrange(0, i - start)) =~= s@.subrange(
                        start as int,
                        i as int - 1,
                    ));
                } else {
                    assert(strip_cr(rem.subrange(0, i - start)) =~= s@.subrange(
                        start as int,
                        i as int,
                    ));
                }
                assert(piece@ =~= strip_cr(rem.subrange(0, i - start)));
                assert(rem.subrange(i - start + 1, rem.len() as int) =~= s@.subrange(
                    i + 1,
                    n as int,
                ));
            }
            let ghost old_res = res.deep_view();
            res.push(piece);
            proof {
                assert(res.deep_view() =~= old_res.push(piece@));
                assert(spec_lines(rem) =~= seq![piece@] + spec_lines(
                    s@.subrange(i + 1, n as int),
                ));
                assert(res.deep_view() + spec_lines(s@.subrange(i + 1, n as int)) =~= old_res + (
                seq![piece@] + spec_lines(s@.subrange(i + 1, n as int))));
            }
            start = i + 1;
        }
        i += 1;
    }
    let ghost rem = s@.subrange(start as int, n as int);
    if start < n {
        proof {
            assert forall|j: int| 0 <= j < rem.len() implies rem[j] != '\n' by {
                assert(rem[j] == s@[start + j]);
            }
            lemma_first_index_is(rem, '\n', rem.len() as int);
        }
        let piece = substring(s, start, n);
        let ghost old_res = res.deep_view();
        res.push(piece);
        proof {
            assert(spec_lines(rem) =~= seq![piece@]);
            assert(res.deep_view() =~= old_res.push(piece@));
            assert(res.deep_view() =~= old_res + spec_lines(rem));
        }
    } else {
        proof {
            assert(rem =~= Seq::<char>::empty());
            assert(res.deep_view() + spec_lines(rem) =~= res.deep_view());
        }
    }
    res
}

/// The pieces of `s` between occurrences of `sep`, as [`spec_split`]
/// describes them.
pub fn split_on(s: &str, sep: char) -> (r: Vec<String>)
    ensures
        r.deep_view() == spec_split(s@, sep),
        r.len() >= 1,
{
    let n = s.unicode_len();
    let mut res: Vec<String> = Vec::new();
    proof {
        assert(s@.subrange(0, n as int) =~= s@);
        assert(res.deep_view() =~= Seq::<Seq<char>>::empty());
        assert(res.deep_view() + spec_split(s@, sep) =~= spec_split(s@, sep));
    }
    let mut start: usize = 0;
    let mut i: usize = 0;
    while i < n
        invariant
            start <= i <= n,
            n == s@.len(),
            res.deep_view() + spec_split(s@.subrange(start as int, n as int), sep) == spec_split(
                s@,
                sep,
            ),
            forall|j: int| start <= j < i ==> s@[j] != sep,
        decreases n - i,
    {
        if s.get_char(i) == sep {
            let ghost rem = s@.subrange(start as int, n as int);
            proof {
                assert forall|j: int| 0 <= j < i - start implies rem[j] != sep by {
                    assert(rem[j] == s@[start + j]);
                }
                lemma_first_index_is(rem, sep, i - start);
            }
            let piece = substring(s, start, i);
            let ghost old_res = res.deep_view();
            res.push(piece);
            proof {
                assert(piece@ =~= rem.subrange(0, i - start));
                assert(rem.subrange(i - start + 1, rem.len() as int) =~= s@.subrange(
                    i + 1,
                    n as int,
                ));
                assert(res.deep_view() =~= old_res.push(piece@));
                assert(spec_split(rem, sep) =~= seq![piece@] + spec_split(
                    s@.subrange(i + 1, n as int),
                    sep,
                ));
                assert(res.deep_view() + spec_split(s@.subrange(i + 1, n as int), sep) =~= old_res
                    + (seq![piece@] + spec_split(s@.subrange(i + 1, n as int), sep)));
            }
            start = i + 1;
        }
        i += 1;
    }
    let ghost rem = s@.subrange(start as int, n as int);
    proof {
        assert forall|j: int| 0 <= j < rem.len() implies rem[j] != sep by {
            assert(rem[j] == s@[start + j]);
        }
        lemma_first_index_is(rem, sep, rem.len() as int);
    }
    let piece = substring(s, start, n);
    let ghost old_res = res.deep_view();
    res.push(piece);
    proof {
        assert(piece@ =~= rem);
        assert(spec_split(rem, sep) =~= seq![piece@]);
        assert(res.deep_view() =~= old_res.push(piece@));
        assert(res.deep_view() =~= old_res + spec_split(rem, sep));
    }
    res
}

/// The pieces of `parts` from index `from` on, joined with `sep`.
pub fn join_from(parts: &Vec<String>, from: usize, sep: char) -> (r: String)
    requires
        from <= parts.len(),
    ensures
        r@ == spec_join(parts.deep_view().subrange(from as int, parts.len() as int), sep),
{
    let mut r = String::new();
    let mut i = from;
    while i < parts.len()
        invariant
            from <= i <= parts.len(),
            r@ == spec_join(parts.deep_view().subrange(from as int, i as int), sep),
        decreases parts.len() - i,
    {
        let ghost sofar = parts.deep_view().subrange(from as int, i as int);
        if i > from {
            r.push(sep);
        }
        r.append(parts[i].as_str());
        proof {
            lemma_join_push(sofar, parts.deep_view()[i as int], sep);
            assert(parts.deep_view().subrange(from as int, i + 1) =~= sofar.push(
                parts.deep_view()[i as int],
            ));
            if i > from {
                assert(r@ =~= spec_join(sofar, sep) + seq![sep] + parts.deep_view()[i as int]);
            } else {
                assert(sofar.len() == 0);
                assert(r@ =~= parts.deep_view()[i as int]);
            }
        }
        i += 1;
    }
    r
}

/// `s` with every copy of the non-empty prefix `p` removed from its
/// start, one after the other.
pub fn trim_prefix(s: &str, p: &str) -> (r: String)
    requires
        p@.len() > 0,
    ensures
        r@ == spec_trim_prefix(s@, p@),
{
    let np = p.unicode_len();
    let n = s.unicode_len();
    let mut cur = substring(s, 0, n);
    proof {
        assert(s@.subrange(0, n as int) =~= s@);
    }
    while starts_with(cur.as_str(), p)
        invariant
            p@.len() == np,
            np > 0,
            spec_trim_prefix(cur@, p@) == spec_trim_prefix(s@, p@),
        decreases cur@.len(),
    {
        let m = cur.as_str().unicode_len();
        let next = substring(cur.as_str(), np, m);
        proof {
            assert(next@ =~= cur@.subrange(p@.len() as int, cur@.len() as int));
        }
        cur = next;
    }
    cur
}

/// `s` with every leading occurrence of the character `c` removed.
pub fn trim_char(s: &str, c: char) -> (r: String)
    ensures
        r@ == spec_trim_char(s@, c),
{
    let n = s.unicode_len();
    proof {
        assert(s@.subrange(0, n as int) =~= s@);
    }
    let mut i: usize = 0;
    while i < n && s.get_char(i) == c
        invariant
            i <= n,
            n == s@.len(),
            spec_trim_char(s@.subrange(i as int, n as int), c) == spec_trim_char(s@, c),
        decreases n - i,
    {
        proof {
            assert(s@.subrange(i as int, n as int).drop_first() =~= s@.subrange(
                i + 1,
                n as int,
            ));
        }
        i += 1;
    }
    let r = substring(s, i, n);
    proof {
        assert(r@ =~= s@.subrange(i as int, n as int));
    }
    r
}

/// Parse `s` as a non-negative decimal number, zero on any failure
/// (empty, a stray character, or a value too large for the machine
/// word), as [`spec_parse_usize_or_zero`] describes.
pub fn parse_usize_or_zero(s: &str) -> (r: usize)
    ensures
        r == spec_parse_usize_or_zero(s@),
{
    let n = s.unicode_len();
    if n == 0 {
        return 0;
    }
    let mut acc: usize = 0;
    let mut i: usize = 0;
    while i < n
        invariant
            i <= n,
            n == s@.len(),
            n > 0,
            forall|j: int| 0 <= j < i ==> '0' <= #[trigger] s@[j] <= '9',
            acc == digits_value(s@.subrange(0, i as int)),
        decreases n - i,
    {
        let c = s.get_char(i);
        if c < '0' || c > '9' {
            return 0;
        }
        let d = (c as u32 - '0' as u32) as usize;
        if acc > (usize::MAX - d) / 10 {
            // The digits do not fit the machine word; parsing fails and
            // the caller's fallback of zero applies.
            proof {
                lemma_digits_value_grows(s@, i as int);
            }
            return 0;
        }
        let ghost pre = s@.subrange(0, i as int);
        acc = acc * 10 + d;
        proof {
            assert(s@.subrange(0, i + 1).drop_last() =~= pre);
            assert(digits_value(s@.subrange(0, i + 1)) == digits_value(pre) * 10 + digit_val(
                s@[i as int],
            ));
        }
        i += 1;
    }
    proof {
        assert(s@.subrange(0, n as int) =~= s@);
    }
    acc
}

/// If the digits up to `i` already outgrow what one more digit can keep
/// within the machine word, the whole digit string's value is too
/// large.
proof fn lemma_digits_value_grows(s: Seq<char>, i: int)
    requires
        0 <= i < s.len(),
        forall|j: int| 0 <= j < i ==> '0' <= #[trigger] s[j] <= '9',
        '0' <= s[i] <= '9',
        digits_value(s.subrange(0, i)) > (usize::MAX - digit_val(s[i])) / 10,
    ensures
        all_digits(s) ==> digits_value(s) > usize::MAX,
    decreases s.len() - i,
{
    let head = s.subrange(0, i + 1);
    assert(head.drop_last() =~= s.subrange(0, i));
    assert(digits_value(head) == digits_value(s.subrange(0, i)) * 10 + digit_val(s[i]));
    assert(digits_value(head) > usize::MAX) by {
        let v = digits_value(s.subrange(0, i));
        let d = digit_val(s[i]);
        assert(v > (usize::MAX as nat - d) / 10);
        assert(v >= (usize::MAX as nat - d) / 10 + 1);
        assert(((usize::MAX as nat - d) / 10 + 1) * 10 >= usize::MAX as nat - d + 1) by (
        nonlinear_arith);
        assert(v * 10 >= ((usize::MAX as nat - d) / 10 + 1) * 10) by (nonlinear_arith)
            requires
                v >= (usize::MAX as nat - d) / 10 + 1,
        ;
    }
    if i + 1 == s.len() {
        assert(s.subrange(0, i + 1) =~= s);
    } else if all_digits(s) {
        lemma_digits_prefix_monotone(s, i + 1);
    }
}

/// A longer digit string is worth at least its prefix.
proof fn lemma_digits_prefix_monotone(s: Seq<char>, i: int)
    requires
        0 <= i <= s.len(),
        all_digits(s),
    ensures
        digits_value(s) >= digits_value(s.subrange(0, i)),
    decreases s.len() - i,
{
    if i == s.len() {
        assert(s.subrange(0, i) =~= s);
    } else {
        let next = s.subrange(0, i + 1);
        assert(next.drop_last() =~= s.subrange(0, i));
        assert(digits_value(next) == digits_value(s.subrange(0, i)) * 10 + digit_val(s[i]));
        assert(digits_value(next) >= digits_value(s.subrange(0, i))) by (nonlinear_arith)
            requires
                digits_value(next) == digits_value(s.subrange(0, i)) * 10 + digit_val(s[i]),
        ;
        lemma_digits_prefix_monotone(s, i + 1);
    }
}

} // verus!
