use vstd::prelude::*;

verus! {

// ---------------------------------------------------------------------------
// Character classes
// ---------------------------------------------------------------------------

/// Whitespace that surrounds tokens in configuration text.
pub open spec fn is_space(c: char) -> bool {
    c == ' ' || c == '\t' || c == '\r'
}

/// Decimal digit.
pub open spec fn is_digit(c: char) -> bool {
    '0' <= c && c <= '9'
}

/// Numeric value of a decimal digit.
pub open spec fn digit_val(c: char) -> nat {
    (c as nat - '0' as nat) as nat
}

/// Executable test matching `is_space`.
pub fn space_char(c: char) -> (r: bool)
    ensures
        r == is_space(c),
{
    c == ' ' || c == '\t' || c == '\r'
}

/// Executable test matching `is_digit`.
pub fn digit_char(c: char) -> (r: bool)
    ensures
        r == is_digit(c),
{
    '0' <= c && c <= '9'
}

// ---------------------------------------------------------------------------
// Equality of strings
// ---------------------------------------------------------------------------

/// Character-wise equality of two string slices.
pub fn str_eq(a: &str, b: &str) -> (r: bool)
    ensures
        r == (a@ == b@),
{
    let la = a.unicode_len();
    let lb = b.unicode_len();
    if la != lb {
        return false;
    }
    let mut i: usize = 0;
    while i < la
        invariant
            la == a@.len(),
            la == b@.len(),
            i <= la,
            forall|k: int| 0 <= k < i ==> a@[k] == b@[k],
        decreases la - i,
    {
        if a.get_char(i) != b.get_char(i) {
            return false;
        }
        i = i + 1;
    }
    proof {
        assert(a@ =~= b@);
    }
    true
}

// ---------------------------------------------------------------------------
// Finding a character
// ---------------------------------------------------------------------------

/// Index of the first occurrence of `c` in `s`, or `s.len()` when absent.
pub open spec fn idx_of(s: Seq<char>, c: char) -> int
    decreases s.len(),
{
    if s.len() == 0 {
        0
    } else if s[0] == c {
        0
    } else {
        1 + idx_of(s.subrange(1, s.len() as int), c)
    }
}

/// `idx_of` points at the first occurrence of the character, or at the end.
pub proof fn lemma_idx_of(s: Seq<char>, c: char)
    ensures
        0 <= idx_of(s, c) <= s.len(),
        idx_of(s, c) < s.len() ==> s[idx_of(s, c)] == c,
        forall|k: int| 0 <= k < idx_of(s, c) ==> s[k] != c,
    decreases s.len(),
{
    if s.len() > 0 && s[0] != c {
        let rest = s.subrange(1, s.len() as int);
        lemma_idx_of(rest, c);
        assert forall|k: int| 0 <= k < idx_of(s, c) implies s[k] != c by {
            if k > 0 {
                assert(rest[k - 1] == s[k]);
            }
        }
    }
}

/// First index of `c` in `s` at or after `from`; `None` when absent there.
pub fn find_char(s: &str, c: char, from: usize) -> (r: Option<usize>)
    requires
        from <= s@.len(),
    ensures
        match r {
            Some(i) => from <= i < s@.len() && s@[i as int] == c && forall|k: int|
                from <= k < i ==> s@[k] != c,
            None => forall|k: int| from <= k < s@.len() ==> s@[k] != c,
        },
{
    let len = s.unicode_len();
    let mut i: usize = from;
    while i < len
        invariant
            from <= i <= len,
            len == s@.len(),
            forall|k: int| from <= k < i ==> s@[k] != c,
        decreases len - i,
    {
        if s.get_char(i) == c {
            return Some(i);
        }
        i = i + 1;
    }
    None
}

// ---------------------------------------------------------------------------
// Trimming surrounding whitespace
// ---------------------------------------------------------------------------

/// `s` without leading whitespace.
pub open spec fn ltrim(s: Seq<char>) -> Seq<char>
    decreases s.len(),
{
    if s.len() > 0 && is_space(s[0]) {
        ltrim(s.subrange(1, s.len() as int))
    } else {
        s
    }
}

/// `s` without trailing whitespace.
pub open spec fn rtrim(s: Seq<char>) -> Seq<char>
    decreases s.len(),
{
    if s.len() > 0 && is_space(s.last()) {
        rtrim(s.drop_last())
    } else {
        s
    }
}

/// `s` without leading and trailing whitespace.
pub open spec fn trim_view(s: Seq<char>) -> Seq<char> {
    rtrim(ltrim(s))
}

/// `ltrim` is the suffix that starts at the first non-space character.
pub proof fn lemma_ltrim_at(s: Seq<char>, i: int)
    requires
        0 <= i <= s.len(),
        forall|k: int| 0 <= k < i ==> is_space(s[k]),
        i < s.len() ==> !is_space(s[i]),
    ensures
        ltrim(s) == s.subrange(i, s.len() as int),
    decreases i,
{
    if i == 0 {
        assert(s.subrange(0, s.len() as int) =~= s);
    } else {
        let rest = s.subrange(1, s.len() as int);
        lemma_ltrim_at(rest, i - 1);
        assert(rest.subrange(i - 1, rest.len() as int) =~= s.subrange(i, s.len() as int));
    }
}

/// `rtrim` is the prefix that ends after the last non-space character.
pub proof fn lemma_rtrim_at(s: Seq<char>, j: int)
    requires
        0 <= j <= s.len(),
        forall|k: int| j <= k < s.len() ==> is_space(s[k]),
        j > 0 ==> !is_space(s[j - 1]),
    ensures
        rtrim(s) == s.subrange(0, j),
    decreases s.len(),
{
    if j == s.len() {
        if s.len() > 0 && is_space(s.last()) {
            assert(false);
        }
        assert(s.subrange(0, s.len() as int) =~= s);
    } else {
        assert(is_space(s.last()));
        lemma_rtrim_at(s.drop_last(), j);
        assert(s.drop_last().subrange(0, j) =~= s.subrange(0, j));
    }
}

/// `s` with surrounding whitespace removed.
pub fn trim(s: &str) -> (r: &str)
    ensures
        r@ == trim_view(s@),
{
    let len = s.unicode_len();
    let mut i: usize = 0;
    while i < len && space_char(s.get_char(i))
        invariant
            i <= len,
            len == s@.len(),
            forall|k: int| 0 <= k < i ==> is_space(s@[k]),
        decreases len - i,
    {
        i = i + 1;
    }
    let mut j: usize = len;
    while j > i && space_char(s.get_char(j - 1))
        invariant
            i <= j <= len,
            len == s@.len(),
            i < len ==> !is_space(s@[i as int]),
            forall|k: int| j <= k < len ==> is_space(s@[k]),
        decreases j,
    {
        j = j - 1;
    }
    proof {
        lemma_ltrim_at(s@, i as int);
        let t = s@.subrange(i as int, len as int);
        if i == len {
            lemma_rtrim_at(t, 0);
        } else {
            lemma_rtrim_at(t, j - i);
        }
        assert(t.subrange(0, j - i) =~= s@.subrange(i as int, j as int));
    }
    s.substring_char(i, j)
}

// ---------------------------------------------------------------------------
// Substring search and replacement
// ---------------------------------------------------------------------------

/// `pat` occurs in `s` at position `i`.
pub open spec fn occurs_at(s: Seq<char>, pat: Seq<char>, i: int) -> bool {
    0 <= i && i + pat.len() <= s.len() && s.subrange(i, i + pat.len()) == pat
}

/// The first position where `pat` occurs in `s`, or `s.len()` when it
/// never does.
pub open spec fn first_sub(s: Seq<char>, pat: Seq<char>) -> int
    decreases s.len(),
{
    if s.len() < pat.len() {
        s.len() as int
    } else if pat.len() == 0 {
        0
    } else if s.subrange(0, pat.len() as int) == pat {
        0
    } else {
        1 + first_sub(s.subrange(1, s.len() as int), pat)
    }
}

/// `first_sub` points at the first occurrence, or at the end.
pub proof fn lemma_first_sub(s: Seq<char>, pat: Seq<char>)
    ensures
        0 <= first_sub(s, pat) <= s.len(),
        first_sub(s, pat) < s.len() ==> occurs_at(s, pat, first_sub(s, pat)),
        forall|k: int| 0 <= k < first_sub(s, pat) ==> !occurs_at(s, pat, k),
    decreases s.len(),
{
    if s.len() < pat.len() {
        assert forall|k: int| 0 <= k < first_sub(s, pat) implies !occurs_at(s, pat, k) by {}
    } else if pat.len() == 0 {
        assert(s.subrange(0, 0) =~= pat);
    } else if s.subrange(0, pat.len() as int) == pat {
    } else {
        let rest = s.subrange(1, s.len() as int);
        lemma_first_sub(rest, pat);
        let i = first_sub(s, pat);
        if i < s.len() {
            // the occurrence in the suffix is one in s, one position later
            assert(rest.subrange(i - 1, i - 1 + pat.len()) =~= s.subrange(i, i + pat.len()));
        }
        assert forall|k: int| 0 <= k < i implies !occurs_at(s, pat, k) by {
            if k == 0 {
                if occurs_at(s, pat, 0) {
                    assert(s.subrange(0, pat.len() as int) == pat);
                }
            } else {
                if occurs_at(s, pat, k) {
                    assert(rest.subrange(k - 1, k - 1 + pat.len()) =~= s.subrange(
                        k,
                        k + pat.len(),
                    ));
                    assert(occurs_at(rest, pat, k - 1));
                }
            }
        }
    }
}

/// `s` with every occurrence of `pat` replaced by `to`, scanning left to
/// right over non-overlapping occurrences.
pub open spec fn replace_all(s: Seq<char>, pat: Seq<char>, to: Seq<char>) -> Seq<char>
    decreases s.len(),
    via replace_all_decreases
{
    if pat.len() == 0 {
        s
    } else {
        let i = first_sub(s, pat);
        if i == s.len() {
            s
        } else {
            s.subrange(0, i) + to + replace_all(
                s.subrange(i + pat.len(), s.len() as int),
                pat,
                to,
            )
        }
    }
}

#[via_fn]
proof fn replace_all_decreases(s: Seq<char>, pat: Seq<char>, to: Seq<char>) {
    lemma_first_sub(s, pat);
}

/// Whether `pat` occurs in `s` at position `i` (both as the verifier sees
/// them).
fn occurs_at_exec(s: &str, pat: &str, i: usize) -> (r: bool)
    requires
        i + pat@.len() <= s@.len(),
    ensures
        r == occurs_at(s@, pat@, i as int),
{
    let slen = s.unicode_len();
    let plen = pat.unicode_len();
    let mut k: usize = 0;
    while k < plen
        invariant
            k <= plen,
            plen == pat@.len(),
            slen == s@.len(),
            i + plen <= slen,
            forall|t: int| 0 <= t < k ==> s@[i + t] == pat@[t],
        decreases plen - k,
    {
        if s.get_char(i + k) != pat.get_char(k) {
            proof {
                if occurs_at(s@, pat@, i as int) {
                    assert(s@.subrange(i as int, i + plen)[k as int] == pat@[k as int]);
                }
            }
            return false;
        }
        k = k + 1;
    }
    proof {
        assert(s@.subrange(i as int, i + plen) =~= pat@);
    }
    true
}

/// The first position at or after `from` where `pat` occurs in `s`.
fn find_sub(s: &str, pat: &str, from: usize) -> (r: Option<usize>)
    requires
        from <= s@.len(),
        pat@.len() >= 1,
    ensures
        match r {
            Some(i) => from <= i && occurs_at(s@, pat@, i as int) && forall|k: int|
                from <= k < i ==> !occurs_at(s@, pat@, k),
            None => forall|k: int| from <= k < s@.len() ==> !occurs_at(s@, pat@, k),
        },
{
    let slen = s.unicode_len();
    let plen = pat.unicode_len();
    if plen > slen || from > slen - plen {
        proof {
            assert forall|k: int| from <= k < s@.len() implies !occurs_at(s@, pat@, k) by {
                if occurs_at(s@, pat@, k) {
                    assert(k + plen <= slen);
                }
            }
        }
        return None;
    }
    let mut i: usize = from;
    while i <= slen - plen
        invariant
            from <= i,
            slen == s@.len(),
            plen == pat@.len(),
            1 <= plen <= slen,
            i <= slen - plen + 1,
            forall|k: int| from <= k < i ==> !occurs_at(s@, pat@, k),
        decreases slen - i,
    {
        if occurs_at_exec(s, pat, i) {
            return Some(i);
        }
        i = i + 1;
    }
    proof {
        assert forall|k: int| from <= k < s@.len() implies !occurs_at(s@, pat@, k) by {
            if occurs_at(s@, pat@, k) {
                assert(k + plen <= slen);
            }
        }
    }
    None
}

/// `s` with every occurrence of `pat` replaced by `to`, scanning left to
/// right over non-overlapping occurrences.
pub fn replace(s: &str, pat: &str, to: &str) -> (r: String)
    requires
        pat@.len() >= 1,
    ensures
        r@ == replace_all(s@, pat@, to@),
{
    let slen = s.unicode_len();
    let mut out = String::new();
    let mut pos: usize = 0;
    proof {
        assert(s@.subrange(0, slen as int) =~= s@);
        assert(out@ + replace_all(s@, pat@, to@) =~= replace_all(s@, pat@, to@));
    }
    loop
        invariant_except_break
            pos <= slen,
            slen == s@.len(),
            pat@.len() >= 1,
            replace_all(s@, pat@, to@) == out@ + replace_all(
                s@.subrange(pos as int, slen as int),
                pat@,
                to@,
            ),
        ensures
            out@ == replace_all(s@, pat@, to@),
        decreases slen - pos,
    {
        let ghost rem = s@.subrange(pos as int, slen as int);
        proof {
            lemma_first_sub(rem, pat@);
        }
        match find_sub(s, pat, pos) {
            Some(i) => {
                proof {
                    // the occurrence at i in s is one at i - pos in the suffix
                    assert(rem.subrange(i - pos, i - pos + pat@.len()) =~= s@.subrange(
                        i as int,
                        i + pat@.len(),
                    ));
                    assert(occurs_at(rem, pat@, i - pos));
                    if first_sub(rem, pat@) < i - pos {
                        let f = first_sub(rem, pat@);
                        assert(occurs_at(rem, pat@, f));
                        assert(rem.subrange(f, f + pat@.len()) =~= s@.subrange(
                            pos + f,
                            pos + f + pat@.len(),
                        ));
                        assert(occurs_at(s@, pat@, pos + f));
                    }
                    assert(first_sub(rem, pat@) == i - pos);
                }
                let piece = s.substring_char(pos, i);
                out.append(piece);
                out.append(to);
                proof {
                    assert(piece@ =~= rem.subrange(0, i - pos));
                }
                let next = i + pat.unicode_len();
                proof {
                    assert(rem.subrange(i - pos + pat@.len(), rem.len() as int) =~= s@.subrange(
                        next as int,
                        slen as int,
                    ));
                    assert(replace_all(rem, pat@, to@) == rem.subrange(0, i - pos) + to@
                        + replace_all(s@.subrange(next as int, slen as int), pat@, to@));
                    assert(replace_all(s@, pat@, to@) =~= out@ + replace_all(
                        s@.subrange(next as int, slen as int),
                        pat@,
                        to@,
                    ));
                }
                pos = next;
            },
            None => {
                proof {
                    if first_sub(rem, pat@) < rem.len() {
                        let f = first_sub(rem, pat@);
                        assert(occurs_at(rem, pat@, f));
                        assert(rem.subrange(f, f + pat@.len()) =~= s@.subrange(
                            pos + f,
                            pos + f + pat@.len(),
                        ));
                        assert(occurs_at(s@, pat@, pos + f));
                    }
                    assert(replace_all(rem, pat@, to@) == rem);
                }
                let tail = s.substring_char(pos, slen);
                out.append(tail);
                proof {
                    assert(tail@ =~= rem);
                    assert(out@ =~= replace_all(s@, pat@, to@));
                }
                break;
            },
        }
    }
    out
}

// ---------------------------------------------------------------------------
// Comma-separated lists
// ---------------------------------------------------------------------------

/// The items of a comma-separated list: each piece trimmed, empty pieces
/// dropped.
pub open spec fn csv_items(s: Seq<char>) -> Seq<Seq<char>>
    decreases s.len(),
    via csv_items_decreases
{
    let i = idx_of(s, ',');
    let piece = trim_view(s.subrange(0, i));
    let head: Seq<Seq<char>> = if piece.len() > 0 {
        seq![piece]
    } else {
        seq![]
    };
    if i == s.len() {
        head
    } else {
        head + csv_items(s.subrange(i + 1, s.len() as int))
    }
}

#[via_fn]
proof fn csv_items_decreases(s: Seq<char>) {
    lemma_idx_of(s, ',');
}

/// Splits a comma-separated list, trimming each item and dropping empty
/// ones.
pub fn split_csv(s: &str) -> (r: Vec<String>)
    ensures
        r@.map_values(|x: String| x@) == csv_items(s@),
{
    let len = s.unicode_len();
    let mut pos: usize = 0;
    let mut items: Vec<String> = Vec::new();
    proof {
        assert(s@.subrange(0, len as int) =~= s@);
        assert(items@.map_values(|x: String| x@) + csv_items(s@) =~= csv_items(s@));
    }
    loop
        invariant_except_break
            pos <= len,
            len == s@.len(),
            csv_items(s@) == items@.map_values(|x: String| x@) + csv_items(
                s@.subrange(pos as int, len as int),
            ),
        ensures
            csv_items(s@) == items@.map_values(|x: String| x@),
        decreases len - pos,
    {
        let ghost rem = s@.subrange(pos as int, len as int);
        let comma = find_char(s, ',', pos);
        let end: usize = match comma {
            Some(i) => i,
            None => len,
        };
        proof {
            lemma_idx_of(rem, ',');
            assert forall|k: int| 0 <= k < rem.len() implies rem[k] == s@[pos + k] by {}
            match comma {
                Some(i) => {
                    if idx_of(rem, ',') < end - pos {
                        assert(s@[pos + idx_of(rem, ',')] == ',');
                    }
                    if idx_of(rem, ',') > end - pos {
                        assert(rem[end - pos] == ',');
                    }
                    assert(idx_of(rem, ',') == end - pos);
                },
                None => {
                    if idx_of(rem, ',') < rem.len() {
                        assert(s@[pos + idx_of(rem, ',')] == ',');
                    }
                    assert(idx_of(rem, ',') == end - pos);
                },
            }
        }
        let piece = trim(s.substring_char(pos, end));
        proof {
            assert(s@.subrange(pos as int, end as int) =~= rem.subrange(0, end - pos));
        }
        let ghost old_items = items@;
        if piece.unicode_len() > 0 {
            items.push(piece.to_owned());
        }
        proof {
            let i = idx_of(rem, ',');
            let head: Seq<Seq<char>> = if trim_view(rem.subrange(0, i)).len() > 0 {
                seq![trim_view(rem.subrange(0, i))]
            } else {
                seq![]
            };
            assert(items@.map_values(|x: String| x@) =~= old_items.map_values(|x: String| x@)
                + head);
            if i == rem.len() {
                assert(csv_items(rem) == head);
                assert(csv_items(s@) =~= items@.map_values(|x: String| x@));
            } else {
                let rem2 = rem.subrange(i + 1, rem.len() as int);
                assert(rem2 =~= s@.subrange(pos + i + 1, len as int));
                assert(csv_items(rem) == head + csv_items(rem2));
                assert(csv_items(s@) =~= items@.map_values(|x: String| x@) + csv_items(rem2));
            }
        }
        match comma {
            Some(i) => {
                pos = i + 1;
            },
            None => {
                break;
            },
        }
    }
    items
}

// ---------------------------------------------------------------------------
// Decimal numbers
// ---------------------------------------------------------------------------

/// `s` is a non-empty run of decimal digits.
pub open spec fn is_dec_str(s: Seq<char>) -> bool {
    s.len() > 0 && forall|i: int| 0 <= i < s.len() ==> is_digit(s[i])
}

/// Value of a run of decimal digits, most significant first.
pub open spec fn dec_val(s: Seq<char>) -> nat
    decreases s.len(),
{
    if s.len() == 0 {
        0
    } else {
        dec_val(s.drop_last()) * 10 + digit_val(s.last())
    }
}

/// Extending a digit string to the right never decreases its value.
proof fn lemma_dec_val_prefix(s: Seq<char>, i: int)
    requires
        0 <= i <= s.len(),
    ensures
        dec_val(s.subrange(0, i)) <= dec_val(s),
    decreases s.len() - i,
{
    if i < s.len() {
        let p = s.subrange(0, i + 1);
        assert(p.drop_last() =~= s.subrange(0, i));
        assert(dec_val(s.subrange(0, i)) <= dec_val(p)) by {
            assert(dec_val(p) == dec_val(s.subrange(0, i)) * 10 + digit_val(p.last()));
            assert(dec_val(s.subrange(0, i)) * 10 >= dec_val(s.subrange(0, i))) by (nonlinear_arith);
        }
        lemma_dec_val_prefix(s, i + 1);
    } else {
        assert(s.subrange(0, i) =~= s);
    }
}

/// Parses a non-empty all-digit string as a `u64`; `None` on any other
/// input and on overflow.
pub fn parse_u64(s: &str) -> (r: Option<u64>)
    ensures
        match r {
            Some(v) => is_dec_str(s@) && v == dec_val(s@),
            None => !is_dec_str(s@) || dec_val(s@) > u64::MAX,
        },
{
    let len = s.unicode_len();
    if len == 0 {
        return None;
    }
    let mut acc: u64 = 0;
    let mut i: usize = 0;
    while i < len
        invariant
            i <= len,
            len == s@.len(),
            len > 0,
            forall|k: int| 0 <= k < i ==> is_digit(s@[k]),
            acc == dec_val(s@.subrange(0, i as int)),
        decreases len - i,
    {
        let c = s.get_char(i);
        if !digit_char(c) {
            return None;
        }
        let d: u64 = (c as u32 - '0' as u32) as u64;
        if acc > (u64::MAX - d) / 10 {
            // The digits read so far already exceed the range.
            proof {
                let p = s@.subrange(0, i + 1);
                assert(p.drop_last() =~= s@.subrange(0, i as int));
                assert(dec_val(p) == acc * 10 + digit_val(c));
                assert(acc * 10 + d > u64::MAX) by (nonlinear_arith)
                    requires
                        acc > (u64::MAX - d) / 10,
                        d <= 9,
                ;
                lemma_dec_val_prefix(s@, i + 1);
            }
            return None;
        }
        proof {
            let p = s@.subrange(0, i + 1);
            assert(p.drop_last() =~= s@.subrange(0, i as int));
            assert(acc * 10 + d <= u64::MAX) by (nonlinear_arith)
                requires
                    acc <= (u64::MAX - d) / 10,
                    d <= 9,
            ;
        }
        acc = acc * 10 + d;
        i = i + 1;
    }
    proof {
        assert(s@.subrange(0, len as int) =~= s@);
    }
    Some(acc)
}

} // verus!
