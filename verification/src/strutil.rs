//! Verified string helpers.
//!
//! Style values, font descriptions and enum keywords arrive from the host as
//! free-form strings. The parsers in this crate work on character vectors,
//! with these helpers supplying containment, splitting, keyword comparison
//! and numeral parsing with exact specifications.

use vstd::prelude::*;

verus! {

/// The characters of `s`, in order.
pub fn chars_of(s: &str) -> (r: Vec<char>)
    ensures
        r@ == s@,
{
    let n: usize = s.unicode_len();
    let mut r: Vec<char> = Vec::new();
    let mut i: usize = 0;
    while i < n
        invariant
            i <= n,
            n == s@.len(),
            r@ =~= s@.take(i as int),
        decreases n - i,
    {
        r.push(s.get_char(i));
        i += 1;
        proof {
            assert(r@ =~= s@.take(i as int));
        }
    }
    proof {
        assert(s@.take(n as int) =~= s@);
    }
    r
}

/// Relies on `String` as `FromIterator<char>`: collecting characters builds
/// the string of exactly those characters.
#[verifier::external_body]
pub fn string_from_chars(v: &Vec<char>) -> (r: String)
    ensures
        r@ == v@,
{
    v.iter().collect()
}

/// The characters of `n` appear in `h` starting at position `i`.
pub open spec fn spec_match_at(h: Seq<char>, n: Seq<char>, i: int) -> bool {
    &&& 0 <= i
    &&& i + n.len() <= h.len()
    &&& forall|j: int| 0 <= j < n.len() ==> h[i + j] == n[j]
}

/// `n` appears somewhere in `h` as a contiguous run.
pub open spec fn spec_contains_seq(h: Seq<char>, n: Seq<char>) -> bool {
    exists|i: int| spec_match_at(h, n, i)
}

/// Whether the characters of `n` appear contiguously in `h` at position `i`.
pub fn match_at(h: &[char], n: &str, i: usize) -> (r: bool)
    requires
        i <= h@.len(),
    ensures
        r == spec_match_at(h@, n@, i as int),
{
    let m: usize = n.unicode_len();
    let hl: usize = h.len();
    if m > hl - i {
        return false;
    }
    let mut j: usize = 0;
    while j < m
        invariant
            j <= m,
            m == n@.len(),
            hl == h@.len(),
            i + m <= hl,
            forall|k: int| 0 <= k < j ==> h@[i + k] == n@[k],
        decreases m - j,
    {
        let idx: usize = i + j;
        if h[idx] != n.get_char(j) {
            return false;
        }
        j += 1;
    }
    true
}

/// Whether `n` occurs as a substring of `h`.
pub fn chars_contain_str(h: &[char], n: &str) -> (r: bool)
    ensures
        r == spec_contains_seq(h@, n@),
{
    let len: usize = h.len();
    let mut i: usize = 0;
    while i < len
        invariant
            i <= len,
            len == h@.len(),
            forall|k: int| 0 <= k < i ==> !spec_match_at(h@, n@, k),
        decreases len - i,
    {
        if match_at(h, n, i) {
            return true;
        }
        i += 1;
    }
    if match_at(h, n, len) {
        return true;
    }
    proof {
        assert forall|k: int| !spec_match_at(h@, n@, k) by {
            if 0 <= k <= len {
                assert(!spec_match_at(h@, n@, k));
            }
        }
    }
    false
}

/// Whether the characters `h` spell exactly the string `n`.
pub fn chars_eq_str(h: &[char], n: &str) -> (r: bool)
    ensures
        r == (h@ == n@),
{
    let m: usize = n.unicode_len();
    if h.len() != m {
        proof {
            assert(h@.len() != n@.len());
        }
        return false;
    }
    let r = match_at(h, n, 0);
    proof {
        if r {
            assert(h@ =~= n@);
        } else {
            assert(h@ != n@);
        }
    }
    r
}

/// Whether the characters `h` start with the string `n`.
pub fn chars_start_with_str(h: &[char], n: &str) -> (r: bool)
    ensures
        r == spec_match_at(h@, n@, 0),
{
    match_at(h, n, 0)
}

/// The pieces of `s` between occurrences of the separator `c`, in order; a
/// string without the separator yields itself as its only piece, so there
/// is always at least one piece.
pub open spec fn spec_split(s: Seq<char>, c: char) -> Seq<Seq<char>>
    decreases s.len(),
{
    if s.len() == 0 {
        seq![s]
    } else if s[0] == c {
        seq![Seq::<char>::empty()] + spec_split(s.skip(1), c)
    } else {
        let r = spec_split(s.skip(1), c);
        seq![seq![s[0]] + r[0]] + r.skip(1)
    }
}

pub proof fn lemma_spec_split_nonempty(s: Seq<char>, c: char)
    ensures
        spec_split(s, c).len() >= 1,
    decreases s.len(),
{
    if s.len() > 0 {
        lemma_spec_split_nonempty(s.skip(1), c);
    }
}

/// Prepending the separator-free run `pre` to `s` extends the first piece of
/// the split of `s` by `pre`.
pub proof fn lemma_spec_split_prepend(pre: Seq<char>, s: Seq<char>, c: char)
    requires
        forall|k: int| 0 <= k < pre.len() ==> pre[k] != c,
    ensures
        spec_split(pre + s, c) =~~= seq![pre + spec_split(s, c)[0]] + spec_split(s, c).skip(1),
    decreases pre.len(),
{
    lemma_spec_split_nonempty(s, c);
    if pre.len() == 0 {
        assert(pre + s =~= s);
        assert(pre + spec_split(s, c)[0] =~= spec_split(s, c)[0]);
        assert(seq![spec_split(s, c)[0]] + spec_split(s, c).skip(1) =~~= spec_split(s, c));
    } else {
        let whole = pre + s;
        assert(whole[0] == pre[0]);
        assert(whole[0] != c);
        assert(whole.skip(1) =~= pre.skip(1) + s);
        lemma_spec_split_prepend(pre.skip(1), s, c);
        let r = spec_split(pre.skip(1) + s, c);
        assert(spec_split(whole, c) == seq![seq![whole[0]] + r[0]] + r.skip(1));
        assert(seq![whole[0]] + (pre.skip(1) + spec_split(s, c)[0]) =~= pre + spec_split(
            s,
            c,
        )[0]);
        assert(r.skip(1) =~~= spec_split(s, c).skip(1));
        assert(seq![whole[0]] + r[0] =~= pre + spec_split(s, c)[0]);
    }
}

pub fn split_chars(s: &[char], c: char) -> (r: Vec<Vec<char>>)
    ensures
        r.deep_view() =~~= spec_split(s@, c),
{
    let len: usize = s.len();
    let mut acc: Vec<Vec<char>> = Vec::new();
    let mut cur: Vec<char> = Vec::new();
    let mut i: usize = 0;
    proof {
        assert(cur@ + s@.skip(0) =~= s@);
        lemma_spec_split_nonempty(s@, c);
        assert(acc.deep_view() + spec_split(s@, c) =~~= spec_split(s@, c));
    }
    while i < len
        invariant
            i <= len,
            len == s@.len(),
            forall|k: int| 0 <= k < cur@.len() ==> cur@[k] != c,
            spec_split(s@, c) =~~= acc.deep_view() + spec_split(cur@ + s@.skip(i as int), c),
        decreases len - i,
    {
        let ch = s[i];
        let ghost old_cur = cur@;
        let ghost rest = s@.skip(i as int);
        proof {
            lemma_spec_split_prepend(old_cur, rest, c);
            assert(old_cur + rest =~= cur@ + s@.skip(i as int));
            assert(rest[0] == s@[i as int]);
            assert(rest.skip(1) =~= s@.skip(i as int + 1));
        }
        if ch == c {
            let ghost old_acc = acc.deep_view();
            acc.push(cur);
            cur = Vec::new();
            proof {
                lemma_spec_split_nonempty(s@.skip(i as int + 1), c);
                assert(spec_split(rest, c) == seq![Seq::<char>::empty()] + spec_split(
                    s@.skip(i as int + 1),
                    c,
                ));
                assert(spec_split(old_cur + rest, c) =~~= seq![old_cur] + spec_split(
                    s@.skip(i as int + 1),
                    c,
                ));
                assert(acc.deep_view() =~~= old_acc.push(old_cur));
                assert(cur@ + s@.skip(i as int + 1) =~= s@.skip(i as int + 1));
                assert(spec_split(s@, c) =~~= acc.deep_view() + spec_split(
                    cur@ + s@.skip(i as int + 1),
                    c,
                ));
            }
        } else {
            cur.push(ch);
            proof {
                let r = spec_split(s@.skip(i as int + 1), c);
                lemma_spec_split_nonempty(s@.skip(i as int + 1), c);
                assert(spec_split(rest, c) == seq![seq![rest[0]] + r[0]] + r.skip(1));
                assert(spec_split(old_cur + rest, c) =~~= seq![old_cur + (seq![rest[0]]
                    + r[0])] + r.skip(1));
                lemma_spec_split_prepend(cur@, s@.skip(i as int + 1), c);
                assert(cur@ + r[0] =~= old_cur + (seq![rest[0]] + r[0]));
                assert(cur@ + s@.skip(i as int + 1) =~= cur@ + s@.skip(i as int + 1));
                assert(spec_split(cur@ + s@.skip(i as int + 1), c) =~~= seq![old_cur + (
                seq![rest[0]] + r[0])] + r.skip(1));
            }
        }
        i += 1;
    }
    proof {
        assert(cur@ + s@.skip(len as int) =~= cur@);
        lemma_spec_split_prepend(cur@, Seq::<char>::empty(), c);
        assert(cur@ + Seq::<char>::empty() =~= cur@);
        assert(spec_split(Seq::<char>::empty(), c) == seq![Seq::<char>::empty()]);
        assert(cur@ + spec_split(Seq::<char>::empty(), c)[0] =~= cur@);
        assert(spec_split(cur@, c) =~~= seq![cur@]);
    }
    let ghost old_acc = acc.deep_view();
    let ghost old_cur = cur@;
    acc.push(cur);
    proof {
        assert(acc.deep_view() =~~= old_acc.push(old_cur));
        assert(acc.deep_view() =~~= spec_split(s@, c));
    }
    acc
}

/// `s` with every non-overlapping occurrence of `pat` removed, scanning
/// left to right.
pub open spec fn spec_remove_all(s: Seq<char>, pat: Seq<char>) -> Seq<char>
    decreases s.len(),
{
    if pat.len() == 0 || s.len() == 0 {
        s
    } else if spec_match_at(s, pat, 0) {
        spec_remove_all(s.skip(pat.len() as int), pat)
    } else {
        seq![s[0]] + spec_remove_all(s.skip(1), pat)
    }
}

pub fn remove_all(s: &[char], pat: &str) -> (r: Vec<char>)
    ensures
        r@ == spec_remove_all(s@, pat@),
{
    let len: usize = s.len();
    let patlen: usize = pat.unicode_len();
    let mut out: Vec<char> = Vec::new();
    if patlen == 0 {
        let mut i: usize = 0;
        while i < len
            invariant
                i <= len,
                len == s@.len(),
                out@ =~= s@.take(i as int),
            decreases len - i,
        {
            out.push(s[i]);
            i += 1;
            proof {
                assert(out@ =~= s@.take(i as int));
            }
        }
        proof {
            assert(s@.take(len as int) =~= s@);
        }
        return out;
    }
    let mut i: usize = 0;
    proof {
        assert(s@.skip(0) =~= s@);
        assert(out@ + spec_remove_all(s@, pat@) =~= spec_remove_all(s@, pat@));
    }
    while i < len
        invariant
            i <= len,
            len == s@.len(),
            patlen == pat@.len(),
            patlen > 0,
            spec_remove_all(s@, pat@) =~= out@ + spec_remove_all(s@.skip(i as int), pat@),
        decreases len - i,
    {
        if match_at(s, pat, i) {
            proof {
                let rest = s@.skip(i as int);
                assert(spec_match_at(rest, pat@, 0)) by {
                    assert forall|j: int| 0 <= j < pat@.len() implies rest[j] == pat@[j] by {
                        assert(spec_match_at(s@, pat@, i as int));
                        assert(s@[i + j] == pat@[j]);
                    }
                }
                assert(rest.skip(pat@.len() as int) =~= s@.skip(i as int + patlen));
                assert(spec_remove_all(rest, pat@) == spec_remove_all(
                    s@.skip(i as int + patlen),
                    pat@,
                ));
            }
            i += patlen;
        } else {
            let ghost old_out = out@;
            proof {
                let rest = s@.skip(i as int);
                assert(rest.len() > 0);
                assert(!spec_match_at(rest, pat@, 0)) by {
                    if spec_match_at(rest, pat@, 0) {
                        assert forall|j: int| 0 <= j < pat@.len() implies s@[i + j] == pat@[j] by {
                            assert(rest[j] == pat@[j]);
                        }
                        assert(spec_match_at(s@, pat@, i as int));
                    }
                }
                assert(rest.skip(1) =~= s@.skip(i as int + 1));
                assert(rest[0] == s@[i as int]);
                assert(spec_remove_all(rest, pat@) == seq![s@[i as int]] + spec_remove_all(
                    s@.skip(i as int + 1),
                    pat@,
                ));
            }
            out.push(s[i]);
            proof {
                assert(out@ + spec_remove_all(s@.skip(i as int + 1), pat@) =~= old_out + (
                seq![s@[i as int]] + spec_remove_all(s@.skip(i as int + 1), pat@)));
            }
            i += 1;
        }
    }
    proof {
        assert(s@.skip(len as int) =~= Seq::<char>::empty());
        assert(spec_remove_all(Seq::<char>::empty(), pat@) =~= Seq::<char>::empty());
        assert(out@ + Seq::<char>::empty() =~= out@);
    }
    out
}

/// ASCII lowercase of one character; other characters pass through.
pub open spec fn spec_ascii_lower_char(c: char) -> char {
    if 'A' <= c <= 'Z' {
        ((c as u8) + 32) as char
    } else {
        c
    }
}

/// `s` with ASCII letters lowered, character by character.
pub fn ascii_lower(s: &[char]) -> (r: Vec<char>)
    ensures
        r@ == s@.map_values(|c: char| spec_ascii_lower_char(c)),
{
    let len: usize = s.len();
    let mut out: Vec<char> = Vec::new();
    let mut i: usize = 0;
    while i < len
        invariant
            i <= len,
            len == s@.len(),
            out@ =~= s@.take(i as int).map_values(|c: char| spec_ascii_lower_char(c)),
        decreases len - i,
    {
        let c = s[i];
        if 'A' <= c && c <= 'Z' {
            out.push(((c as u8) + 32) as char);
        } else {
            out.push(c);
        }
        i += 1;
        proof {
            assert(out@ =~= s@.take(i as int).map_values(
                |c: char| spec_ascii_lower_char(c),
            ));
        }
    }
    proof {
        assert(s@.take(len as int) =~= s@);
    }
    out
}

pub open spec fn spec_is_digit(c: char) -> bool {
    '0' <= c <= '9'
}

pub open spec fn spec_digit_value(c: char) -> int {
    c as int - '0' as int
}

/// All characters are decimal digits and there is at least one.
pub open spec fn spec_all_digits(s: Seq<char>) -> bool {
    s.len() > 0 && forall|k: int| 0 <= k < s.len() ==> spec_is_digit(#[trigger] s[k])
}

/// Value of a digit string read left to right.
pub open spec fn spec_digits_value(s: Seq<char>) -> int
    decreases s.len(),
{
    if s.len() == 0 {
        0
    } else {
        spec_digits_value(s.take(s.len() - 1)) * 10 + spec_digit_value(s[s.len() - 1])
    }
}

proof fn lemma_digits_value_nonneg(s: Seq<char>)
    requires
        forall|k: int| 0 <= k < s.len() ==> spec_is_digit(#[trigger] s[k]),
    ensures
        spec_digits_value(s) >= 0,
    decreases s.len(),
{
    if s.len() > 0 {
        let pre = s.take(s.len() - 1);
        assert(forall|k: int| 0 <= k < pre.len() ==> spec_is_digit(#[trigger] pre[k]));
        lemma_digits_value_nonneg(pre);
        assert(spec_digits_value(pre) * 10 >= 0) by (nonlinear_arith)
            requires
                spec_digits_value(pre) >= 0,
        ;
    }
}

/// A digit run of at most four digits has value at most 9999.
pub proof fn lemma_digits_value_small(s: Seq<char>)
    requires
        forall|k: int| 0 <= k < s.len() ==> spec_is_digit(#[trigger] s[k]),
        s.len() <= 4,
    ensures
        spec_digits_value(s) <= 9999,
        spec_digits_value(s) >= 0,
    decreases s.len(),
{
    lemma_digits_value_nonneg(s);
    if s.len() > 0 {
        let pre = s.take(s.len() - 1);
        assert(forall|k: int| 0 <= k < pre.len() ==> spec_is_digit(#[trigger] pre[k]));
        lemma_digits_value_small_bound(s);
    }
}

/// A digit run's value is less than ten to the power of its length, stated
/// for the lengths the fixed-point parser uses.
pub proof fn lemma_digits_value_small_bound(s: Seq<char>)
    requires
        forall|k: int| 0 <= k < s.len() ==> spec_is_digit(#[trigger] s[k]),
        s.len() <= 4,
    ensures
        s.len() <= 0 ==> spec_digits_value(s) < 1,
        s.len() <= 1 ==> spec_digits_value(s) < 10,
        s.len() <= 2 ==> spec_digits_value(s) < 100,
        s.len() <= 3 ==> spec_digits_value(s) < 1000,
        s.len() <= 4 ==> spec_digits_value(s) < 10000,
    decreases s.len(),
{
    if s.len() > 0 {
        let pre = s.take(s.len() - 1);
        assert(forall|k: int| 0 <= k < pre.len() ==> spec_is_digit(#[trigger] pre[k]));
        lemma_digits_value_small_bound(pre);
        assert(0 <= spec_digit_value(s[s.len() - 1]) <= 9);
    }
}

proof fn lemma_digits_value_monotone(s: Seq<char>, i: int)
    requires
        0 <= i <= s.len(),
        forall|k: int| 0 <= k < s.len() ==> spec_is_digit(#[trigger] s[k]),
    ensures
        spec_digits_value(s.take(i)) <= spec_digits_value(s),
    decreases s.len() - i,
{
    if i == s.len() {
        assert(s.take(i) =~= s);
    } else {
        lemma_digits_value_monotone(s, i + 1);
        let p = s.take(i + 1);
        assert(p.take(p.len() - 1) =~= s.take(i));
        assert(forall|k: int| 0 <= k < s.take(i).len() ==> spec_is_digit(
            #[trigger] s.take(i)[k],
        ));
        lemma_digits_value_nonneg(s.take(i));
        assert(spec_digits_value(s.take(i)) * 10 >= spec_digits_value(s.take(i)))
            by (nonlinear_arith)
            requires
                spec_digits_value(s.take(i)) >= 0,
        ;
    }
}

/// Parses an unsigned decimal numeral. Returns the value exactly when the
/// input is all digits and the value fits in `u32`.
pub fn parse_u32_digits(s: &[char]) -> (r: Option<u32>)
    ensures
        match r {
            Option::Some(v) => spec_all_digits(s@) && spec_digits_value(s@) == v as int,
            Option::None => !spec_all_digits(s@) || spec_digits_value(s@) > u32::MAX as int,
        },
{
    let len: usize = s.len();
    if len == 0 {
        return Option::None;
    }
    let mut val: u64 = 0;
    let mut i: usize = 0;
    while i < len
        invariant
            i <= len,
            len == s@.len(),
            forall|k: int| 0 <= k < i ==> spec_is_digit(#[trigger] s@[k]),
            val as int == spec_digits_value(s@.take(i as int)),
            val <= u32::MAX,
        decreases len - i,
    {
        let c = s[i];
        if c < '0' || c > '9' {
            return Option::None;
        }
        let d: u64 = (c as u32 - '0' as u32) as u64;
        let next: u64 = val * 10 + d;
        proof {
            assert(s@.take(i as int + 1).take(i as int) =~= s@.take(i as int));
        }
        if next > u32::MAX as u64 {
            proof {
                if spec_all_digits(s@) {
                    lemma_digits_value_monotone(s@, i as int + 1);
                }
            }
            return Option::None;
        }
        val = next;
        i += 1;
    }
    proof {
        assert(s@.take(len as int) =~= s@);
    }
    Option::Some(val as u32)
}

/// Value of a signed decimal numeral: an optional sign, then digits.
pub open spec fn spec_signed_numeral_value(s: Seq<char>) -> Option<int> {
    if s.len() > 0 && (s[0] == '-' || s[0] == '+') {
        if spec_all_digits(s.skip(1)) {
            if s[0] == '-' {
                Option::Some(-spec_digits_value(s.skip(1)))
            } else {
                Option::Some(spec_digits_value(s.skip(1)))
            }
        } else {
            Option::None
        }
    } else {
        if spec_all_digits(s) {
            Option::Some(spec_digits_value(s))
        } else {
            Option::None
        }
    }
}

/// Parses a signed decimal numeral into an `i32`. Returns the value exactly
/// when the numeral is well formed and fits.
pub fn parse_i32_chars(s: &[char]) -> (r: Option<i32>)
    ensures
        match r {
            Option::Some(v) => spec_signed_numeral_value(s@) == Option::Some(v as int),
            Option::None => match spec_signed_numeral_value(s@) {
                Option::Some(v) => v > i32::MAX as int || v < i32::MIN as int,
                Option::None => true,
            },
        },
{
    if s.len() == 0 {
        return Option::None;
    }
    let first = s[0];
    if first == '-' || first == '+' {
        let rest = slice_suffix(s, 1);
        match parse_u32_digits(rest) {
            Option::Some(v) => {
                if first == '-' {
                    if v <= i32::MAX as u32 {
                        Option::Some(-(v as i32))
                    } else if v == 0x8000_0000u32 {
                        Option::Some(i32::MIN)
                    } else {
                        Option::None
                    }
                } else {
                    if v <= i32::MAX as u32 {
                        Option::Some(v as i32)
                    } else {
                        Option::None
                    }
                }
            },
            Option::None => Option::None,
        }
    } else {
        match parse_u32_digits(s) {
            Option::Some(v) => {
                if v <= i32::MAX as u32 {
                    Option::Some(v as i32)
                } else {
                    Option::None
                }
            },
            Option::None => Option::None,
        }
    }
}

/// The suffix of `s` starting at `from`.
pub fn slice_suffix(s: &[char], from: usize) -> (r: &[char])
    requires
        from <= s@.len(),
    ensures
        r@ == s@.skip(from as int),
{
    slice_subrange(s, from, s.len())
}

/// The part of `s` from `from` (inclusive) to `to` (exclusive).
pub fn slice_subrange(s: &[char], from: usize, to: usize) -> (r: &[char])
    requires
        from <= to <= s@.len(),
    ensures
        r@ == s@.subrange(from as int, to as int),
{
    vstd::slice::slice_subrange(s, from, to)
}

} // verus!
