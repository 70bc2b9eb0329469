//! Verified utilities on strings: substring search, splitting, trimming,
//! and decimal conversion.  Everything is specified over the character
//! sequence view of `str` and `String`.

use vstd::prelude::*;

verus! {

/// `n` occurs in `h` starting at index `i`.
pub open spec fn is_match_at(h: Seq<char>, n: Seq<char>, i: int) -> bool {
    0 <= i && i + n.len() <= h.len() && h.subrange(i, i + n.len() as int) == n
}

/// `n` occurs somewhere in `h`.
pub open spec fn contains_seq(h: Seq<char>, n: Seq<char>) -> bool {
    exists|i: int| #[trigger] is_match_at(h, n, i)
}

/// Whether `n` occurs in `h` starting exactly at `i`.
fn match_at(h: &str, n: &str, i: usize) -> (r: bool)
    requires
        i + n@.len() <= h@.len(),
    ensures
        r == is_match_at(h@, n@, i as int),
{
    let hl = h.unicode_len();
    let nl = n.unicode_len();
    let mut j: usize = 0;
    while j < nl
        invariant
            i + nl <= hl,
            hl == h@.len(),
            nl == n@.len(),
            0 <= j <= nl,
            forall|k: int| 0 <= k < j ==> h@[i + k] == n@[k],
        decreases nl - j,
    {
        if h.get_char(i + j) != n.get_char(j) {
            assert(h@.subrange(i as int, i + nl as int)[j as int] != n@[j as int]);
            return false;
        }
        j = j + 1;
    }
    assert(h@.subrange(i as int, i + nl as int) =~= n@);
    true
}

/// Index of the first occurrence of `n` in `h`, if any.
pub fn find_str(h: &str, n: &str) -> (r: Option<usize>)
    ensures
        match r {
            Some(i) => is_match_at(h@, n@, i as int) && (forall|j: int|
                0 <= j < i ==> !is_match_at(h@, n@, j)) && first_match(h@, n@) == Some(i as int),
            None => !contains_seq(h@, n@) && first_match(h@, n@) is None,
        },
{
    proof {
        lemma_first_match_props(h@, n@);
    }
    let hl = h.unicode_len();
    let nl = n.unicode_len();
    if nl > hl {
        proof {
            assert(forall|i: int| !is_match_at(h@, n@, i));
            if first_match(h@, n@) is Some {
                assert(contains_seq(h@, n@));
            }
        }
        return None;
    }
    if nl == 0 {
        proof {
            assert(h@.subrange(0, 0) =~= n@);
            assert(is_match_at(h@, n@, 0));
        }
        return Some(0);
    }
    let mut i: usize = 0;
    while i <= hl - nl
        invariant
            1 <= nl <= hl,
            hl == h@.len(),
            nl == n@.len(),
            0 <= i <= hl - nl + 1,
            forall|j: int| 0 <= j < i ==> !is_match_at(h@, n@, j),
        decreases hl + 1 - nl - i,
    {
        if match_at(h, n, i) {
            proof {
                lemma_first_match_props(h@, n@);
                match first_match(h@, n@) {
                    Some(fi) => {
                        if fi < i {
                            assert(!is_match_at(h@, n@, fi));
                        }
                        if i < fi {
                            assert(!is_match_at(h@, n@, i as int));
                        }
                    },
                    None => {
                        assert(contains_seq(h@, n@));
                    },
                }
            }
            return Some(i);
        }
        i = i + 1;
    }
    proof {
        assert(forall|j: int| is_match_at(h@, n@, j) ==> 0 <= j <= hl - nl);
        if first_match(h@, n@) is Some {
            assert(contains_seq(h@, n@));
        }
    }
    None
}

/// Index of the first occurrence of `n` in `h`, if it occurs at all.
pub open spec fn first_match(h: Seq<char>, n: Seq<char>) -> Option<int>
    decreases h.len(),
{
    if is_match_at(h, n, 0) {
        Some(0int)
    } else if h.len() == 0 {
        None
    } else {
        match first_match(h.drop_first(), n) {
            Some(i) => Some(1 + i),
            None => None,
        }
    }
}

proof fn lemma_match_at_shift(h: Seq<char>, n: Seq<char>, j: int)
    requires
        h.len() > 0,
        0 <= j,
    ensures
        is_match_at(h.drop_first(), n, j) == is_match_at(h, n, j + 1),
{
    if j + 1 + n.len() <= h.len() {
        assert(h.drop_first().subrange(j, j + n.len() as int) =~= h.subrange(
            j + 1,
            j + 1 + n.len() as int,
        ));
    }
}

pub proof fn lemma_first_match_props(h: Seq<char>, n: Seq<char>)
    ensures
        match first_match(h, n) {
            Some(i) => is_match_at(h, n, i) && forall|j: int| 0 <= j < i ==> !is_match_at(h, n, j),
            None => !contains_seq(h, n),
        },
    decreases h.len(),
{
    if is_match_at(h, n, 0) {
    } else if h.len() == 0 {
        assert forall|j: int| !is_match_at(h, n, j) by {
            if is_match_at(h, n, j) {
                assert(j == 0);
            }
        }
    } else {
        lemma_first_match_props(h.drop_first(), n);
        match first_match(h.drop_first(), n) {
            Some(i) => {
                lemma_match_at_shift(h, n, i);
                assert forall|j: int| 0 <= j < 1 + i implies !is_match_at(h, n, j) by {
                    if j > 0 {
                        lemma_match_at_shift(h, n, j - 1);
                    }
                }
            },
            None => {
                assert forall|j: int| !is_match_at(h, n, j) by {
                    if is_match_at(h, n, j) {
                        assert(j != 0);
                        assert(j > 0);
                        lemma_match_at_shift(h, n, j - 1);
                        assert(is_match_at(h.drop_first(), n, j - 1));
                        assert(contains_seq(h.drop_first(), n));
                    }
                }
            },
        }
    }
}

/// Whether `n` occurs anywhere in `h`.
pub fn contains_str(h: &str, n: &str) -> (r: bool)
    ensures
        r == contains_seq(h@, n@),
{
    match find_str(h, n) {
        Some(_) => true,
        None => false,
    }
}

/// Each character replaced by its expansion under `f`.
pub open spec fn escape_chars(f: spec_fn(char) -> Seq<char>, s: Seq<char>) -> Seq<char>
    decreases s.len(),
{
    if s.len() == 0 {
        Seq::empty()
    } else {
        f(s[0]) + escape_chars(f, s.drop_first())
    }
}

pub proof fn lemma_escape_chars_push(f: spec_fn(char) -> Seq<char>, s: Seq<char>, c: char)
    ensures
        escape_chars(f, s.push(c)) == escape_chars(f, s) + f(c),
    decreases s.len(),
{
    if s.len() == 0 {
        assert(s.push(c).drop_first() =~= Seq::<char>::empty());
        assert(s.push(c)[0] == c);
        assert(escape_chars(f, s.push(c)) == f(c) + escape_chars(f, Seq::<char>::empty()));
        assert(f(c) + Seq::<char>::empty() =~= Seq::<char>::empty() + f(c));
    } else {
        assert(s.push(c).drop_first() =~= s.drop_first().push(c));
        lemma_escape_chars_push(f, s.drop_first(), c);
        assert(f(s.push(c)[0]) + (escape_chars(f, s.drop_first()) + f(c)) =~= (f(s[0])
            + escape_chars(f, s.drop_first())) + f(c));
    }
}

/// The whitespace characters the trimmers drop.
pub open spec fn is_space(c: char) -> bool {
    c == ' ' || c == '\t' || c == '\n' || c == '\r'
}

pub open spec fn trim_start_spec(s: Seq<char>) -> Seq<char>
    decreases s.len(),
{
    if s.len() > 0 && is_space(s[0]) {
        trim_start_spec(s.drop_first())
    } else {
        s
    }
}

pub open spec fn trim_end_spec(s: Seq<char>) -> Seq<char>
    decreases s.len(),
{
    if s.len() > 0 && is_space(s[s.len() - 1]) {
        trim_end_spec(s.drop_last())
    } else {
        s
    }
}

/// The string without leading and trailing whitespace.
pub open spec fn trim_spec(s: Seq<char>) -> Seq<char> {
    trim_end_spec(trim_start_spec(s))
}

proof fn lemma_trim_start_at(s: Seq<char>, a: int)
    requires
        0 <= a <= s.len(),
        forall|k: int| 0 <= k < a ==> is_space(s[k]),
        a == s.len() || !is_space(s[a]),
    ensures
        trim_start_spec(s) == s.subrange(a, s.len() as int),
    decreases a,
{
    if a == 0 {
        assert(s.subrange(0, s.len() as int) =~= s);
    } else {
        lemma_trim_start_at(s.drop_first(), a - 1);
        assert(s.drop_first().subrange(a - 1, s.drop_first().len() as int) =~= s.subrange(
            a,
            s.len() as int,
        ));
    }
}

proof fn lemma_trim_end_at(s: Seq<char>, b: int)
    requires
        0 <= b <= s.len(),
        forall|k: int| b <= k < s.len() ==> is_space(s[k]),
        b == 0 || !is_space(s[b - 1]),
    ensures
        trim_end_spec(s) == s.subrange(0, b),
    decreases s.len() - b,
{
    if b == s.len() {
        assert(s.subrange(0, b) =~= s);
    } else {
        assert(is_space(s[s.len() - 1]));
        lemma_trim_end_at(s.drop_last(), b);
        assert(s.drop_last().subrange(0, b) =~= s.subrange(0, b));
    }
}

fn is_space_exec(c: char) -> (r: bool)
    ensures
        r == is_space(c),
{
    c == ' ' || c == '\t' || c == '\n' || c == '\r'
}

/// The string without leading and trailing whitespace, as an owned string.
pub fn trim_str(s: &str) -> (r: String)
    ensures
        r@ == trim_spec(s@),
{
    let len = s.unicode_len();
    let mut a: usize = 0;
    while a < len && is_space_exec(s.get_char(a))
        invariant
            len == s@.len(),
            0 <= a <= len,
            forall|k: int| 0 <= k < a ==> is_space(s@[k]),
        decreases len - a,
    {
        a = a + 1;
    }
    let mut b: usize = len;
    while b > a && is_space_exec(s.get_char(b - 1))
        invariant
            len == s@.len(),
            a <= b <= len,
            forall|k: int| b <= k < len ==> is_space(s@[k]),
        decreases b,
    {
        b = b - 1;
    }
    proof {
        lemma_trim_start_at(s@, a as int);
        let t = s@.subrange(a as int, len as int);
        lemma_trim_end_at(t, b - a);
        assert(t.subrange(0, b - a) =~= s@.subrange(a as int, b as int));
    }
    s.substring_char(a, b).to_owned()
}

/// The views of a sequence of strings.
pub open spec fn strings_view(v: Seq<String>) -> Seq<Seq<char>> {
    Seq::new(v.len(), |k: int| v[k]@)
}

/// The views of a sequence of string slices.
pub open spec fn strs_view(v: Seq<&str>) -> Seq<Seq<char>> {
    Seq::new(v.len(), |k: int| v[k]@)
}

/// The parts joined with `sep` between consecutive parts.
pub open spec fn join_seqs(parts: Seq<Seq<char>>, sep: char) -> Seq<char>
    decreases parts.len(),
{
    if parts.len() == 0 {
        Seq::empty()
    } else if parts.len() == 1 {
        parts[0]
    } else {
        parts[0] + seq![sep] + join_seqs(parts.drop_first(), sep)
    }
}

pub proof fn lemma_join_seqs_push(parts: Seq<Seq<char>>, x: Seq<char>, sep: char)
    requires
        parts.len() >= 1,
    ensures
        join_seqs(parts.push(x), sep) == join_seqs(parts, sep) + seq![sep] + x,
    decreases parts.len(),
{
    if parts.len() == 1 {
        assert(parts.push(x).drop_first() =~= seq![x]);
        assert(seq![x].len() == 1);
        assert(seq![x][0] == x);
        assert(join_seqs(seq![x], sep) == x);
        assert(parts.push(x)[0] == parts[0]);
        assert(join_seqs(parts.push(x), sep) == parts[0] + seq![sep] + x);
    } else {
        assert(parts.push(x).drop_first() =~= parts.drop_first().push(x));
        lemma_join_seqs_push(parts.drop_first(), x, sep);
        assert(parts.push(x)[0] + seq![sep] + (join_seqs(parts.drop_first(), sep) + seq![sep] + x)
            =~= (parts[0] + seq![sep] + join_seqs(parts.drop_first(), sep)) + seq![sep] + x);
    }
}

proof fn lemma_join_last_extend(parts: Seq<Seq<char>>, x: Seq<char>, y: Seq<char>, sep: char)
    ensures
        join_seqs(parts.push(x + y), sep) == join_seqs(parts.push(x), sep) + y,
{
    if parts.len() == 0 {
        assert(join_seqs(parts.push(x + y), sep) =~= join_seqs(parts.push(x), sep) + y);
    } else {
        lemma_join_seqs_push(parts, x + y, sep);
        lemma_join_seqs_push(parts, x, sep);
        assert(join_seqs(parts, sep) + seq![sep] + (x + y) =~= (join_seqs(parts, sep) + seq![sep]
            + x) + y);
    }
}

/// Index of the first occurrence of `sep` in `s`, or the length when it
/// does not occur.
pub open spec fn first_index(s: Seq<char>, sep: char) -> int
    decreases s.len(),
{
    if s.len() == 0 {
        0
    } else if s[0] == sep {
        0
    } else {
        1 + first_index(s.drop_first(), sep)
    }
}

pub proof fn lemma_first_index(s: Seq<char>, sep: char)
    ensures
        0 <= first_index(s, sep) <= s.len(),
        first_index(s, sep) < s.len() ==> s[first_index(s, sep)] == sep,
        forall|k: int| 0 <= k < first_index(s, sep) ==> s[k] != sep,
    decreases s.len(),
{
    if s.len() > 0 && s[0] != sep {
        lemma_first_index(s.drop_first(), sep);
        assert forall|k: int| 0 <= k < first_index(s, sep) implies s[k] != sep by {
            if k > 0 {
                assert(s.drop_first()[k - 1] == s[k]);
            }
        }
    }
}

/// `s` split at every occurrence of `sep`.
pub open spec fn split_spec(s: Seq<char>, sep: char) -> Seq<Seq<char>>
    decreases s.len(),
    via split_spec_decreases
{
    let i = first_index(s, sep);
    if i == s.len() {
        seq![s]
    } else {
        seq![s.subrange(0, i)] + split_spec(s.subrange(i + 1, s.len() as int), sep)
    }
}

#[via_fn]
proof fn split_spec_decreases(s: Seq<char>, sep: char) {
    lemma_first_index(s, sep);
}

/// A sequence of `sep`-free parts is recovered exactly by splitting its
/// join.
pub proof fn lemma_split_unique(parts: Seq<Seq<char>>, sep: char)
    requires
        parts.len() >= 1,
        forall|k: int| 0 <= k < parts.len() ==> !(#[trigger] parts[k]).contains(sep),
    ensures
        split_spec(join_seqs(parts, sep), sep) == parts,
    decreases parts.len(),
{
    let s = join_seqs(parts, sep);
    lemma_first_index(s, sep);
    let fi = first_index(s, sep);
    if parts.len() == 1 {
        assert(s == parts[0]);
        if fi < s.len() {
            assert(s[fi] == sep);
            assert(parts[0].contains(sep));
        }
        assert(split_spec(s, sep) =~= parts);
    } else {
        let p0 = parts[0];
        let rest = parts.drop_first();
        assert(s == p0 + seq![sep] + join_seqs(rest, sep));
        let n0 = p0.len() as int;
        assert(s[n0] == sep);
        assert forall|k: int| 0 <= k < n0 implies s[k] != sep by {
            assert(s[k] == p0[k]);
            if p0[k] == sep {
                assert(p0.contains(sep));
            }
        }
        if fi < n0 {
            assert(s[fi] != sep);
        }
        if fi > n0 {
            assert(s[n0] != sep);
        }
        assert(fi == n0);
        assert(s.subrange(0, n0) =~= p0);
        assert(s.subrange(n0 + 1, s.len() as int) =~= join_seqs(rest, sep));
        assert(forall|k: int| 0 <= k < rest.len() ==> !(#[trigger] rest[k]).contains(sep));
        lemma_split_unique(rest, sep);
        assert(split_spec(s, sep) =~= seq![p0] + rest);
        assert(seq![p0] + rest =~= parts);
    }
}

/// Split `s` at every occurrence of `sep`.  The result is `split_spec`:
/// no part holds `sep`, joining the parts back with `sep` restores `s`,
/// and at least one (possibly empty) part always comes back.
pub fn split_on_char(s: &str, sep: char) -> (parts: Vec<String>)
    ensures
        parts@.len() >= 1,
        join_seqs(strings_view(parts@), sep) == s@,
        forall|k: int| 0 <= k < parts@.len() ==> !(#[trigger] parts@[k])@.contains(sep),
        strings_view(parts@) == split_spec(s@, sep),
{
    let len = s.unicode_len();
    let mut parts: Vec<String> = Vec::new();
    let mut cur = String::new();
    let mut i: usize = 0;
    while i < len
        invariant
            len == s@.len(),
            0 <= i <= len,
            join_seqs(strings_view(parts@).push(cur@), sep) == s@.subrange(0, i as int),
            forall|k: int| 0 <= k < parts@.len() ==> !(#[trigger] parts@[k])@.contains(sep),
            !cur@.contains(sep),
        decreases len - i,
    {
        let ghost prev_parts = parts@;
        let ghost prev_cur = cur@;
        let c = s.get_char(i);
        if c == sep {
            parts.push(cur);
            cur = String::new();
            proof {
                assert(strings_view(parts@) =~= strings_view(prev_parts).push(prev_cur));
                lemma_join_seqs_push(strings_view(parts@), cur@, sep);
                assert(join_seqs(strings_view(parts@).push(cur@), sep) =~= s@.subrange(
                    0,
                    i + 1,
                ));
            }
        } else {
            cur.append(s.substring_char(i, i + 1));
            proof {
                assert(s@.subrange(i as int, i + 1) =~= seq![c]);
                assert(cur@ =~= prev_cur + seq![c]);
                lemma_join_last_extend(strings_view(parts@), prev_cur, seq![c], sep);
                assert(join_seqs(strings_view(parts@).push(cur@), sep) =~= s@.subrange(
                    0,
                    i + 1,
                ));
                assert forall|k: int| 0 <= k < cur@.len() implies cur@[k] != sep by {
                    if k < prev_cur.len() {
                        assert(cur@[k] == prev_cur[k]);
                        if prev_cur[k] == sep {
                            assert(prev_cur.contains(sep));
                        }
                    } else {
                        assert(cur@[k] == c);
                    }
                }
                assert(!cur@.contains(sep));
            }
        }
        i = i + 1;
    }
    let ghost prev_parts = parts@;
    let ghost prev_cur = cur@;
    parts.push(cur);
    proof {
        assert(strings_view(parts@) =~= strings_view(prev_parts).push(prev_cur));
        assert(s@.subrange(0, len as int) =~= s@);
        assert forall|k: int| 0 <= k < strings_view(parts@).len() implies !(
        #[trigger] strings_view(parts@)[k]).contains(sep) by {
            assert(strings_view(parts@)[k] == parts@[k]@);
        }
        lemma_split_unique(strings_view(parts@), sep);
    }
    parts
}

/// The parts joined with the separator string `sep` between consecutive
/// parts.
pub open spec fn join_seqs_sep(parts: Seq<Seq<char>>, sep: Seq<char>) -> Seq<char>
    decreases parts.len(),
{
    if parts.len() == 0 {
        Seq::empty()
    } else if parts.len() == 1 {
        parts[0]
    } else {
        parts[0] + sep + join_seqs_sep(parts.drop_first(), sep)
    }
}

proof fn lemma_join_seqs_sep_push(parts: Seq<Seq<char>>, x: Seq<char>, sep: Seq<char>)
    requires
        parts.len() >= 1,
    ensures
        join_seqs_sep(parts.push(x), sep) == join_seqs_sep(parts, sep) + sep + x,
    decreases parts.len(),
{
    if parts.len() == 1 {
        assert(parts.push(x).drop_first() =~= seq![x]);
        assert(seq![x].len() == 1);
        assert(seq![x][0] == x);
        assert(join_seqs_sep(seq![x], sep) == x);
        assert(parts.push(x)[0] == parts[0]);
        assert(join_seqs_sep(parts.push(x), sep) == parts[0] + sep + x);
    } else {
        assert(parts.push(x).drop_first() =~= parts.drop_first().push(x));
        lemma_join_seqs_sep_push(parts.drop_first(), x, sep);
        assert(parts.push(x)[0] + sep + (join_seqs_sep(parts.drop_first(), sep) + sep + x) =~= (
        parts[0] + sep + join_seqs_sep(parts.drop_first(), sep)) + sep + x);
    }
}

/// Join the parts with `sep` between consecutive parts.
pub fn join_with_str(parts: &[String], sep: &str) -> (r: String)
    ensures
        r@ == join_seqs_sep(strings_view(parts@), sep@),
{
    let n = parts.len();
    if n == 0 {
        return String::new();
    }
    let mut r = parts[0].clone();
    let mut k: usize = 1;
    while k < n
        invariant
            n == parts@.len(),
            1 <= k <= n,
            r@ == join_seqs_sep(strings_view(parts@).subrange(0, k as int), sep@),
        decreases n - k,
    {
        r.append(sep);
        r.append(parts[k].as_str());
        proof {
            let v = strings_view(parts@);
            assert(v.subrange(0, k + 1) =~= v.subrange(0, k as int).push(v[k as int]));
            lemma_join_seqs_sep_push(v.subrange(0, k as int), v[k as int], sep@);
            assert(v[k as int] == parts@[k as int]@);
        }
        k = k + 1;
    }
    proof {
        assert(strings_view(parts@).subrange(0, n as int) =~= strings_view(parts@));
        if n == 1 {
            assert(strings_view(parts@).subrange(0, 1)[0] == parts@[0]@);
        }
    }
    r
}

/// The string with every copy of the prefix `p` removed from its front.
pub open spec fn strip_prefixes(s: Seq<char>, p: Seq<char>) -> Seq<char>
    decreases s.len(),
{
    if p.len() > 0 && s.len() >= p.len() && s.subrange(0, p.len() as int) == p {
        strip_prefixes(s.subrange(p.len() as int, s.len() as int), p)
    } else {
        s
    }
}

/// Remove every copy of the prefix `p` from the front of `s`.
pub fn strip_prefixes_str<'a>(s: &'a str, p: &str) -> (r: &'a str)
    requires
        p@.len() > 0,
    ensures
        r@ == strip_prefixes(s@, p@),
{
    let pl = p.unicode_len();
    let mut cur = s;
    let mut cur_len = s.unicode_len();
    while starts_with_str(cur, p)
        invariant
            pl == p@.len(),
            pl > 0,
            cur_len == cur@.len(),
            strip_prefixes(cur@, p@) == strip_prefixes(s@, p@),
        decreases cur_len,
    {
        let ghost old_cur = cur@;
        cur = cur.substring_char(pl, cur_len);
        cur_len = cur_len - pl;
        proof {
            assert(strip_prefixes(old_cur, p@) == strip_prefixes(cur@, p@));
        }
    }
    cur
}

/// The string with every trailing copy of `c` removed.
pub open spec fn strip_suffix_chars(s: Seq<char>, c: char) -> Seq<char>
    decreases s.len(),
{
    if s.len() > 0 && s[s.len() - 1] == c {
        strip_suffix_chars(s.drop_last(), c)
    } else {
        s
    }
}

proof fn lemma_strip_suffix_at(s: Seq<char>, c: char, b: int)
    requires
        0 <= b <= s.len(),
        forall|k: int| b <= k < s.len() ==> s[k] == c,
        b == 0 || s[b - 1] != c,
    ensures
        strip_suffix_chars(s, c) == s.subrange(0, b),
    decreases s.len() - b,
{
    if b == s.len() {
        assert(s.subrange(0, b) =~= s);
    } else {
        lemma_strip_suffix_at(s.drop_last(), c, b);
        assert(s.drop_last().subrange(0, b) =~= s.subrange(0, b));
    }
}

/// Remove every trailing copy of `c` from `s`.
pub fn strip_suffix_chars_str<'a>(s: &'a str, c: char) -> (r: &'a str)
    ensures
        r@ == strip_suffix_chars(s@, c),
{
    let len = s.unicode_len();
    let mut b: usize = len;
    while b > 0 && s.get_char(b - 1) == c
        invariant
            len == s@.len(),
            0 <= b <= len,
            forall|k: int| b <= k < len ==> s@[k] == c,
        decreases b,
    {
        b = b - 1;
    }
    proof {
        lemma_strip_suffix_at(s@, c, b as int);
    }
    s.substring_char(0, b)
}

pub open spec fn is_dec_digit(c: char) -> bool {
    48 <= c as u32 && c as u32 <= 57
}

pub open spec fn dec_digits(s: Seq<char>) -> bool {
    forall|k: int| 0 <= k < s.len() ==> is_dec_digit(#[trigger] s[k])
}

/// The number a digit string denotes.
pub open spec fn dec_val(s: Seq<char>) -> int
    decreases s.len(),
{
    if s.len() == 0 {
        0
    } else {
        dec_val(s.drop_last()) * 10 + (s.last() as u32 - 48)
    }
}

/// The body of a decimal literal: an optional leading `+` is dropped.
pub open spec fn dec_body(s: Seq<char>) -> Seq<char> {
    if s.len() > 0 && s[0] == '+' {
        s.drop_first()
    } else {
        s
    }
}

/// What `str::parse::<u8>` accepts: an optional `+`, then one or more
/// digits denoting a value up to 255.
pub open spec fn is_u8_dec(s: Seq<char>) -> bool {
    dec_body(s).len() > 0 && dec_digits(dec_body(s)) && dec_val(dec_body(s)) <= 255
}

proof fn lemma_dec_val_nonneg(s: Seq<char>)
    requires
        dec_digits(s),
    ensures
        dec_val(s) >= 0,
    decreases s.len(),
{
    if s.len() > 0 {
        assert(dec_digits(s.drop_last())) by {
            assert(forall|k: int| 0 <= k < s.len() - 1 ==> s.drop_last()[k] == #[trigger] s[k]);
        }
        lemma_dec_val_nonneg(s.drop_last());
    }
}

proof fn lemma_dec_val_prefix(s: Seq<char>, j: int)
    requires
        dec_digits(s),
        0 <= j <= s.len(),
    ensures
        dec_val(s) >= dec_val(s.subrange(0, j)),
    decreases s.len() - j,
{
    if j == s.len() {
        assert(s.subrange(0, j) =~= s);
    } else {
        lemma_dec_val_prefix(s, j + 1);
        let p = s.subrange(0, j + 1);
        assert(p.drop_last() =~= s.subrange(0, j));
        assert(dec_digits(p)) by {
            assert(forall|k: int| 0 <= k < p.len() ==> p[k] == #[trigger] s[k]);
        }
        lemma_dec_val_nonneg(p.drop_last());
        assert(dec_val(p) >= dec_val(p.drop_last()));
    }
}

/// Read a decimal byte as `str::parse::<u8>` would; `None` exactly when
/// the string is not an unsigned decimal literal up to 255.
pub fn parse_u8_dec(s: &str) -> (r: Option<u8>)
    ensures
        match r {
            Some(v) => is_u8_dec(s@) && v as int == dec_val(dec_body(s@)),
            None => !is_u8_dec(s@),
        },
{
    let len = s.unicode_len();
    let a: usize = if len > 0 && s.get_char(0) == '+' {
        1
    } else {
        0
    };
    proof {
        if a == 1 {
            assert(dec_body(s@) =~= s@.subrange(1, len as int));
        } else {
            assert(dec_body(s@) =~= s@.subrange(0, len as int));
            assert(s@.subrange(0, len as int) =~= s@);
        }
    }
    let ghost d = dec_body(s@);
    if len - a == 0 {
        return None;
    }
    let mut acc: u32 = 0;
    let mut k: usize = a;
    while k < len
        invariant
            len == s@.len(),
            a <= k <= len,
            d == dec_body(s@),
            d =~= s@.subrange(a as int, len as int),
            acc <= 255,
            acc as int == dec_val(d.subrange(0, k - a)),
            forall|j: int| 0 <= j < k - a ==> is_dec_digit(#[trigger] d[j]),
        decreases len - k,
    {
        let c = s.get_char(k);
        let v = c as u32;
        if !(48 <= v && v <= 57) {
            assert(!is_dec_digit(d[k - a]));
            return None;
        }
        acc = acc * 10 + (v - 48);
        proof {
            let p = d.subrange(0, k - a + 1);
            assert(p.drop_last() =~= d.subrange(0, k - a));
            assert(p.last() == d[k - a]);
            assert(d[k - a] == s@[k as int]);
        }
        if acc > 255 {
            proof {
                if dec_digits(d) {
                    lemma_dec_val_prefix(d, k - a + 1);
                }
            }
            return None;
        }
        k = k + 1;
    }
    proof {
        assert(d.subrange(0, len - a) =~= d);
    }
    Some(acc as u8)
}

/// The digit character for a value below 10.
pub open spec fn dec_char(n: int) -> char {
    if n == 0 { '0' } else if n == 1 { '1' } else if n == 2 { '2' }
    else if n == 3 { '3' } else if n == 4 { '4' } else if n == 5 { '5' }
    else if n == 6 { '6' } else if n == 7 { '7' } else if n == 8 { '8' }
    else { '9' }
}

/// A nonnegative number written in decimal, without leading zeros.
pub open spec fn dec_str(n: int) -> Seq<char>
    decreases n,
{
    if n < 10 {
        seq![dec_char(n)]
    } else {
        dec_str(n / 10).push(dec_char(n % 10))
    }
}

fn dec_char_str(d: u16) -> (r: &'static str)
    requires
        d < 10,
    ensures
        r@ == seq![dec_char(d as int)],
{
    proof {
        reveal_strlit("0");
        reveal_strlit("1");
        reveal_strlit("2");
        reveal_strlit("3");
        reveal_strlit("4");
        reveal_strlit("5");
        reveal_strlit("6");
        reveal_strlit("7");
        reveal_strlit("8");
        reveal_strlit("9");
    }
    match d {
        0 => "0",
        1 => "1",
        2 => "2",
        3 => "3",
        4 => "4",
        5 => "5",
        6 => "6",
        7 => "7",
        8 => "8",
        _ => "9",
    }
}

/// Render a number in decimal.
pub fn u16_to_dec(n: u16) -> (r: String)
    ensures
        r@ == dec_str(n as int),
    decreases n,
{
    if n < 10 {
        dec_char_str(n).to_owned()
    } else {
        let mut s = u16_to_dec(n / 10);
        s.append(dec_char_str(n % 10));
        proof {
            assert(dec_str(n as int / 10).push(dec_char(n as int % 10)) =~= dec_str(
                n as int / 10,
            ) + seq![dec_char(n as int % 10)]);
        }
        s
    }
}

/// `s` split at every occurrence of the separator string `sep`, leftmost
/// occurrence first.
pub open spec fn split_str_spec(s: Seq<char>, sep: Seq<char>) -> Seq<Seq<char>>
    decreases s.len(),
    via split_str_spec_decreases
{
    if sep.len() == 0 {
        seq![s]
    } else {
        match first_match(s, sep) {
            None => seq![s],
            Some(i) => seq![s.subrange(0, i)] + split_str_spec(
                s.subrange(i + sep.len() as int, s.len() as int),
                sep,
            ),
        }
    }
}

#[via_fn]
proof fn split_str_spec_decreases(s: Seq<char>, sep: Seq<char>) {
    lemma_first_match_props(s, sep);
}

/// Split `s` at every occurrence of the separator string `sep`.
pub fn split_on_str(s: &str, sep: &str) -> (parts: Vec<String>)
    requires
        sep@.len() > 0,
    ensures
        strings_view(parts@) == split_str_spec(s@, sep@),
        parts@.len() >= 1,
    decreases s@.len(),
{
    let sl = sep.unicode_len();
    let len = s.unicode_len();
    match find_str(s, sep) {
        None => {
            let mut parts: Vec<String> = Vec::new();
            parts.push(s.to_owned());
            proof {
                assert(strings_view(parts@) =~= split_str_spec(s@, sep@));
            }
            parts
        },
        Some(i) => {
            proof {
                lemma_first_match_props(s@, sep@);
            }
            let head = s.substring_char(0, i).to_owned();
            let rest = s.substring_char(i + sl, len);
            let tail_parts = split_on_str(rest, sep);
            let mut parts: Vec<String> = Vec::new();
            parts.push(head);
            let mut k: usize = 0;
            let tn = tail_parts.len();
            while k < tn
                invariant
                    tn == tail_parts@.len(),
                    0 <= k <= tn,
                    parts@.len() == k + 1,
                    parts@[0]@ == s@.subrange(0, i as int),
                    forall|j: int| 0 <= j < k ==> parts@[j + 1]@ == (#[trigger] tail_parts@[j])@,
                decreases tn - k,
            {
                let p = tail_parts[k].clone();
                parts.push(p);
                k = k + 1;
            }
            proof {
                assert(strings_view(parts@) =~= seq![s@.subrange(0, i as int)] + strings_view(
                    tail_parts@,
                ));
                assert(strings_view(parts@) =~= split_str_spec(s@, sep@));
            }
            parts
        },
    }
}

/// Whether two strings hold the same characters.
pub fn eq_str(a: &str, b: &str) -> (r: bool)
    ensures
        r == (a@ == b@),
{
    let al = a.unicode_len();
    let bl = b.unicode_len();
    if al != bl {
        return false;
    }
    let m = match_at(a, b, 0);
    proof {
        if m {
            assert(a@.subrange(0, al as int) =~= a@);
        } else {
            if a@ == b@ {
                assert(a@.subrange(0, al as int) =~= b@);
            }
        }
    }
    m
}

/// Whether `h` begins with `p`.
pub fn starts_with_str(h: &str, p: &str) -> (r: bool)
    ensures
        r == (p@.len() <= h@.len() && h@.subrange(0, p@.len() as int) == p@),
{
    let hl = h.unicode_len();
    let pl = p.unicode_len();
    if pl > hl {
        return false;
    }
    match_at(h, p, 0)
}

} // verus!
