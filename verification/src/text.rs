//! Text and path helpers shared by the planners: joining paths, splitting
//! colon separated lists, and searching for characters.

use vstd::prelude::*;
use vstd::string::*;

verus! {

/// The text of each string in a sequence.
pub open spec fn strs(v: Seq<String>) -> Seq<Seq<char>> {
    v.map_values(|s: String| s@)
}

/// The text of an optional string.
pub open spec fn opt_text(o: Option<String>) -> Option<Seq<char>> {
    match o {
        Some(s) => Some(s@),
        None => None,
    }
}

/// `rel` appended to `base` as a relative path: a `/` separates them unless
/// `base` is empty or already ends with one.
pub open spec fn path_join(base: Seq<char>, rel: Seq<char>) -> Seq<char> {
    if base.len() == 0 {
        rel
    } else if base.last() == '/' {
        base + rel
    } else {
        base + seq!['/'] + rel
    }
}

/// Whether `c` occurs in `s`.
pub open spec fn has_char(s: Seq<char>, c: char) -> bool {
    exists|i: int| 0 <= i < s.len() && s[i] == c
}

/// The parts joined with `sep` between consecutive parts.
pub open spec fn join_with(parts: Seq<Seq<char>>, sep: Seq<char>) -> Seq<char>
    decreases parts.len(),
{
    if parts.len() == 0 {
        Seq::empty()
    } else if parts.len() == 1 {
        parts[0]
    } else {
        join_with(parts.drop_last(), sep) + sep + parts.last()
    }
}

/// The pieces of `s` between occurrences of `c`, read from left to right;
/// there is always at least one piece.
pub open spec fn split_on(s: Seq<char>, c: char) -> Seq<Seq<char>>
    decreases s.len(),
{
    if s.len() == 0 {
        seq![Seq::empty()]
    } else {
        let rest = split_on(s.drop_last(), c);
        if s.last() == c {
            rest.push(Seq::empty())
        } else {
            rest.update(rest.len() - 1, rest.last().push(s.last()))
        }
    }
}

pub proof fn lemma_split_on_nonempty(s: Seq<char>, c: char)
    ensures
        split_on(s, c).len() >= 1,
    decreases s.len(),
{
    if s.len() > 0 {
        lemma_split_on_nonempty(s.drop_last(), c);
    }
}

/// Splitting on a character and joining the pieces back with it gives the
/// original text, and no piece holds the character.
pub proof fn lemma_split_then_join(s: Seq<char>, c: char)
    ensures
        join_with(split_on(s, c), seq![c]) == s,
        forall|k: int| 0 <= k < split_on(s, c).len() ==> !has_char(#[trigger] split_on(s, c)[k], c),
    decreases s.len(),
{
    if s.len() > 0 {
        let p = s.drop_last();
        lemma_split_then_join(p, c);
        lemma_split_on_nonempty(p, c);
        let rest = split_on(p, c);
        if s.last() == c {
            let parts = rest.push(Seq::<char>::empty());
            assert(parts.drop_last() =~= rest);
            assert(join_with(parts, seq![c]) =~= s);
            assert forall|k: int| 0 <= k < parts.len() implies !has_char(#[trigger] parts[k], c) by {
                if k < rest.len() {
                    assert(parts[k] == rest[k]);
                }
            }
        } else {
            let last = rest.last().push(s.last());
            let parts = rest.update(rest.len() - 1, last);
            assert forall|k: int| 0 <= k < parts.len() implies !has_char(#[trigger] parts[k], c) by {
                if k < rest.len() - 1 {
                    assert(parts[k] == rest[k]);
                } else {
                    assert(!has_char(rest[k], c));
                    if has_char(last, c) {
                        let j = choose|j: int| 0 <= j < last.len() && last[j] == c;
                        if j < rest[k].len() {
                            assert(rest[k][j] == c);
                        }
                    }
                }
            }
            if rest.len() == 1 {
                assert(parts =~= seq![last]);
                assert(rest =~= seq![rest[0]]);
                assert(join_with(rest, seq![c]) == rest[0]);
                assert(last =~= s);
            } else {
                assert(parts.drop_last() =~= rest.drop_last());
                assert(join_with(parts, seq![c]) =~= join_with(rest.drop_last(), seq![c]) + seq![c]
                    + last);
                assert(join_with(rest, seq![c]) =~= join_with(rest.drop_last(), seq![c]) + seq![c]
                    + rest.last());
                assert(join_with(rest, seq![c]) == p);
                assert(s =~= p.push(s.last()));
                assert(join_with(parts, seq![c]) =~= join_with(rest, seq![c]).push(s.last()));
            }
        }
    }
}

/// A text without the character is a single piece.
pub proof fn lemma_split_without_char(s: Seq<char>, c: char)
    requires
        !has_char(s, c),
    ensures
        split_on(s, c) == seq![s],
    decreases s.len(),
{
    if s.len() > 0 {
        let p = s.drop_last();
        assert(!has_char(p, c)) by {
            if has_char(p, c) {
                let j = choose|j: int| 0 <= j < p.len() && p[j] == c;
                assert(s[j] == c);
            }
        }
        lemma_split_without_char(p, c);
        assert(s.last() != c) by {
            assert(s[s.len() - 1] == s.last());
        }
        assert(p.push(s.last()) =~= s);
    } else {
        assert(s =~= Seq::<char>::empty());
    }
}

/// Splitting at a separator splits the two sides on their own.
pub proof fn lemma_split_concat(x: Seq<char>, y: Seq<char>, c: char)
    ensures
        split_on(x + seq![c] + y, c) == split_on(x, c) + split_on(y, c),
    decreases y.len(),
{
    let s = x + seq![c] + y;
    if y.len() == 0 {
        assert(s.drop_last() =~= x);
        assert(s.last() == c);
        assert(split_on(y, c) == seq![Seq::<char>::empty()]);
        assert(split_on(x, c).push(Seq::<char>::empty()) =~= split_on(x, c) + seq![Seq::<char>::empty()]);
    } else {
        let yp = y.drop_last();
        lemma_split_concat(x, yp, c);
        lemma_split_on_nonempty(yp, c);
        lemma_split_on_nonempty(x, c);
        assert(s.drop_last() =~= x + seq![c] + yp);
        assert(s.last() == y.last());
        let r = split_on(x, c) + split_on(yp, c);
        let yr = split_on(yp, c);
        if y.last() == c {
            assert(r.push(Seq::<char>::empty()) =~= split_on(x, c) + yr.push(Seq::<char>::empty()));
        } else {
            assert(r.last() == yr.last());
            assert(r.update(r.len() - 1, r.last().push(y.last())) =~= split_on(x, c) + yr.update(
                yr.len() - 1,
                yr.last().push(y.last()),
            ));
        }
    }
}

/// Joining parts with a character none of them holds, then splitting on
/// it, gives the parts back.
pub proof fn lemma_join_then_split(parts: Seq<Seq<char>>, c: char)
    requires
        parts.len() >= 1,
        forall|k: int| 0 <= k < parts.len() ==> !has_char(#[trigger] parts[k], c),
    ensures
        split_on(join_with(parts, seq![c]), c) == parts,
    decreases parts.len(),
{
    if parts.len() == 1 {
        lemma_split_without_char(parts[0], c);
        assert(parts =~= seq![parts[0]]);
    } else {
        let init = parts.drop_last();
        lemma_join_then_split(init, c);
        lemma_split_without_char(parts.last(), c);
        lemma_split_concat(join_with(init, seq![c]), parts.last(), c);
        assert(init + seq![parts.last()] =~= parts);
    }
}

/// A fresh string holding the text of a literal.
pub fn owned(s: &str) -> (r: String)
    ensures
        r@ == s@,
{
    String::from_str(s)
}

/// Whether `c` occurs in `s`.
pub fn contains_char(s: &String, c: char) -> (r: bool)
    ensures
        r == has_char(s@, c),
{
    let n = s.unicode_len();
    let mut i: usize = 0;
    while i < n
        invariant
            n == s@.len(),
            i <= n,
            forall|j: int| 0 <= j < i ==> s@[j] != c,
        decreases n - i,
    {
        if s.get_char(i) == c {
            return true;
        }
        i = i + 1;
    }
    false
}

/// Appends `rel` to `base` as a relative path.
pub fn join_path(base: &String, rel: &str) -> (r: String)
    ensures
        r@ == path_join(base@, rel@),
{
    let n = base.unicode_len();
    if n == 0 {
        owned(rel)
    } else if base.get_char(n - 1) == '/' {
        base.clone().concat(rel)
    } else {
        let sep = "/";
        proof {
            reveal_strlit("/");
        }
        base.clone().concat(sep).concat(rel)
    }
}

/// The pieces of `s` between occurrences of `c`.
pub fn split_on_char(s: &String, c: char) -> (r: Vec<String>)
    ensures
        strs(r@) == split_on(s@, c),
{
    let n = s.unicode_len();
    let mut parts: Vec<String> = Vec::new();
    let mut start: usize = 0;
    let mut i: usize = 0;
    proof {
        assert(s@.take(0) =~= Seq::<char>::empty());
        assert(s@.subrange(0, 0) =~= Seq::<char>::empty());
        assert(strs(parts@) =~= Seq::<Seq<char>>::empty());
    }
    while i < n
        invariant
            n == s@.len(),
            start <= i <= n,
            strs(parts@).push(s@.subrange(start as int, i as int)) == split_on(s@.take(i as int), c),
        decreases n - i,
    {
        let ch = s.get_char(i);
        proof {
            assert(s@.take(i + 1).drop_last() =~= s@.take(i as int));
            assert(s@.take(i + 1).last() == ch);
        }
        if ch == c {
            let piece = String::from_str(s.substring_char(start, i));
            proof {
                assert(strs(parts@.push(piece)) =~= strs(parts@).push(piece@));
                assert(s@.subrange(i + 1, i + 1) =~= Seq::<char>::empty());
            }
            parts.push(piece);
            start = i + 1;
        } else {
            proof {
                let prev = split_on(s@.take(i as int), c);
                assert(s@.subrange(start as int, i + 1) =~= s@.subrange(start as int, i as int).push(ch));
                assert(strs(parts@).push(s@.subrange(start as int, i + 1)) =~= prev.update(
                    prev.len() - 1,
                    prev.last().push(ch),
                ));
            }
        }
        i = i + 1;
    }
    let piece = String::from_str(s.substring_char(start, n));
    proof {
        assert(s@.take(n as int) =~= s@);
        assert(strs(parts@.push(piece)) =~= strs(parts@).push(piece@));
    }
    parts.push(piece);
    parts
}

/// The parts joined with `c` between consecutive parts.
pub fn join_on_char(parts: &Vec<String>, sep: &str) -> (r: String)
    ensures
        r@ == join_with(strs(parts@), sep@),
{
    let mut out = String::new();
    let mut i: usize = 0;
    while i < parts.len()
        invariant
            i <= parts.len(),
            out@ == join_with(strs(parts@.take(i as int)), sep@),
        decreases parts.len() - i,
    {
        proof {
            assert(parts@.take(i + 1).drop_last() =~= parts@.take(i as int));
            assert(strs(parts@.take(i + 1)) =~= strs(parts@.take(i as int)).push(parts@[i as int]@));
            assert(strs(parts@.take(i + 1)).drop_last() =~= strs(parts@.take(i as int)));
        }
        if i == 0 {
            out = parts[i].clone();
            proof {
                assert(strs(parts@.take(1)) =~= seq![parts@[0]@]);
            }
        } else {
            out.append(sep);
            out.append(parts[i].as_str());
        }
        i = i + 1;
    }
    proof {
        assert(parts@.take(parts.len() as int) =~= parts@);
    }
    out
}


/// Whether `needle` occurs in `hay` as a contiguous piece.
pub open spec fn has_text(hay: Seq<char>, needle: Seq<char>) -> bool {
    exists|i: int| 0 <= i && i + needle.len() <= hay.len() && #[trigger] hay.subrange(i, i + needle.len()) == needle
}

/// Whether `needle` occurs in `hay`.
pub fn contains_text(hay: &String, needle: &str) -> (r: bool)
    ensures
        r == has_text(hay@, needle@),
{
    let n = hay.unicode_len();
    let target = owned(needle);
    let m = target.unicode_len();
    if m > n {
        return false;
    }
    if m == 0 {
        proof {
            assert(hay@.subrange(0int, 0int + needle@.len()) =~= needle@);
        }
        return true;
    }
    let mut i: usize = 0;
    while i <= n - m
        invariant
            n == hay@.len(),
            m == needle@.len(),
            target@ == needle@,
            0 < m <= n,
            i <= n - m + 1,
            forall|j: int| 0 <= j < i ==> #[trigger] hay@.subrange(j, j + m) != needle@,
        decreases n - m + 1 - i,
    {
        let piece = String::from_str(hay.substring_char(i, i + m));
        if piece == target {
            return true;
        }
        i = i + 1;
    }
    false
}


/// The text of one decimal digit.
pub open spec fn digit_text(d: nat) -> Seq<char> {
    if d == 0 { "0"@ } else if d == 1 { "1"@ } else if d == 2 { "2"@ } else if d == 3 { "3"@ }
    else if d == 4 { "4"@ } else if d == 5 { "5"@ } else if d == 6 { "6"@ } else if d == 7 { "7"@ }
    else if d == 8 { "8"@ } else { "9"@ }
}

/// The decimal text of a number, without leading zeros.
pub open spec fn decimal_text(n: nat) -> Seq<char>
    decreases n,
{
    if n < 10 {
        digit_text(n)
    } else {
        decimal_text(n / 10) + digit_text(n % 10)
    }
}

fn digit_str(d: usize) -> (r: &'static str)
    requires
        d < 10,
    ensures
        r@ == digit_text(d as nat),
{
    if d == 0 { "0" } else if d == 1 { "1" } else if d == 2 { "2" } else if d == 3 { "3" }
    else if d == 4 { "4" } else if d == 5 { "5" } else if d == 6 { "6" } else if d == 7 { "7" }
    else if d == 8 { "8" } else { "9" }
}

/// The decimal text of a number.
pub fn decimal(n: u64) -> (r: String)
    ensures
        r@ == decimal_text(n as nat),
    decreases n,
{
    if n < 10 {
        owned(digit_str(n as usize))
    } else {
        let mut s = decimal(n / 10);
        s.append(digit_str((n % 10) as usize));
        s
    }
}

/// The decimal text of a signed number.
pub open spec fn signed_decimal_text(n: int) -> Seq<char> {
    if n < 0 {
        "-"@ + decimal_text((-n) as nat)
    } else {
        decimal_text(n as nat)
    }
}

pub fn signed_decimal(n: i32) -> (r: String)
    ensures
        r@ == signed_decimal_text(n as int),
{
    if n < 0 {
        let m: u64 = (-(n as i64)) as u64;
        let mut s = owned("-");
        let d = decimal(m);
        s.append(d.as_str());
        s
    } else {
        decimal(n as u64)
    }
}

/// What `std::path::Path::starts_with` answers for a path and a prefix,
/// both given as text: whether the leading components of the path are the
/// components of the prefix (whole components only).
pub uninterp spec fn path_starts_with(path: Seq<char>, prefix: Seq<char>) -> bool;

/// Calls `std::path::Path::starts_with`; its answer is named by
/// `path_starts_with` and nothing more is claimed of it.
#[verifier::external_body]
pub(crate) fn path_starts_with_exec(path: &str, prefix: &str) -> (r: bool)
    ensures
        r == path_starts_with(path@, prefix@),
{
    std::path::Path::new(path).starts_with(prefix)
}

/// Whether `p` begins with `prefix`, as text.
pub open spec fn text_starts_with(p: Seq<char>, prefix: Seq<char>) -> bool {
    p.len() >= prefix.len() && p.subrange(0, prefix.len() as int) == prefix
}

/// Whether a string begins with `prefix`.
pub fn starts_with_text(p: &String, prefix: &str) -> (r: bool)
    ensures
        r == text_starts_with(p@, prefix@),
{
    let n = p.unicode_len();
    let target = owned(prefix);
    let m = target.unicode_len();
    if n < m {
        return false;
    }
    let head = String::from_str(p.substring_char(0, m));
    head == target
}

/// Whether `c` is an ASCII decimal digit.
pub open spec fn is_digit(c: char) -> bool {
    '0' <= c && c <= '9'
}

/// The number that a run of decimal digits denotes.
pub open spec fn digits_value(s: Seq<char>) -> nat
    decreases s.len(),
{
    if s.len() == 0 {
        0
    } else {
        digits_value(s.drop_last()) * 10 + (s.last() as nat - '0' as nat) as nat
    }
}

/// The text without a leading `+`.
pub open spec fn without_plus(s: Seq<char>) -> Seq<char> {
    if s.len() > 0 && s[0] == '+' {
        s.drop_first()
    } else {
        s
    }
}

/// Whether every character is a decimal digit.
pub open spec fn all_digits(d: Seq<char>) -> bool {
    forall|i: int| 0 <= i < d.len() ==> is_digit(#[trigger] d[i])
}

/// What parsing a text as a `u32` gives: an optional `+`, then one or more
/// decimal digits, denoting a number that fits; anything else is refused.
pub open spec fn u32_text_value(s: Seq<char>) -> Option<u32> {
    let d = without_plus(s);
    if d.len() > 0 && all_digits(d) && digits_value(d) <= u32::MAX {
        Some(digits_value(d) as u32)
    } else {
        None
    }
}

proof fn lemma_digits_value_monotone(s: Seq<char>, i: int)
    requires
        0 <= i <= s.len(),
        all_digits(s),
    ensures
        digits_value(s.take(i)) <= digits_value(s),
    decreases s.len() - i,
{
    if i < s.len() {
        lemma_digits_value_monotone(s, i + 1);
        assert(s.take(i + 1).drop_last() =~= s.take(i));
    } else {
        assert(s.take(i) =~= s);
    }
}

/// Parses a text as a `u32`, as `str::parse` does.
pub fn parse_u32_text(s: &str) -> (r: Option<u32>)
    ensures
        r == u32_text_value(s@),
{
    let n = s.unicode_len();
    let mut start: usize = 0;
    if n > 0 && s.get_char(0) == '+' {
        start = 1;
    }
    let ghost d = without_plus(s@);
    if start >= n {
        return None;
    }
    let mut value: u64 = 0;
    let mut i: usize = start;
    while i < n
        invariant
            start <= i <= n,
            n == s@.len(),
            start == s@.len() - d.len(),
            d == s@.subrange(start as int, n as int),
            d == without_plus(s@),
            forall|j: int| 0 <= j < i - start ==> is_digit(#[trigger] d[j]),
            value == digits_value(d.take(i - start)),
            value <= u32::MAX,
        decreases n - i,
    {
        let c = s.get_char(i);
        let ghost k = i - start;
        proof {
            assert(d[k] == c);
        }
        if c < '0' || c > '9' {
            proof {
                assert(!is_digit(d[k]));
                assert(!all_digits(d));
            }
            return None;
        }
        let digit = (c as u32 - '0' as u32) as u64;
        proof {
            assert(d.take(k + 1).drop_last() =~= d.take(k));
            assert(d.take(k + 1).last() == c);
            assert(digits_value(d.take(k + 1)) == digits_value(d.take(k)) * 10 + (c as nat - '0' as nat) as nat);
        }
        value = value * 10 + digit;
        if value > 4294967295 {
            proof {
                if all_digits(d) {
                    lemma_digits_value_monotone(d, k + 1);
                }
            }
            return None;
        }
        i = i + 1;
    }
    proof {
        assert(d.take(i - start) =~= d);
    }
    Some(value as u32)
}

} // verus!
