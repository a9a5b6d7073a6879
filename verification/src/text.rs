//! Character-level utilities shared by the check and client logic:
//! the `/`-delimited tail of a URL, the prefix of an identifier up to
//! its first hyphen, and plain substring search.

use vstd::prelude::*;
use vstd::string::*;

verus! {

/// Everything after the last `/` of `s`, or all of `s` when no `/` occurs.
pub open spec fn last_segment(s: Seq<char>) -> Seq<char>
    decreases s.len(),
{
    if s.len() == 0 {
        s
    } else if s[s.len() - 1] == '/' {
        Seq::empty()
    } else {
        last_segment(s.drop_last()).push(s[s.len() - 1])
    }
}

proof fn lemma_last_segment_subrange(s: Seq<char>, j: int)
    requires
        0 <= j <= s.len(),
        forall|k: int| j <= k < s.len() ==> s[k] != '/',
        j == 0 || s[j - 1] == '/',
    ensures
        last_segment(s) == s.subrange(j, s.len() as int),
    decreases s.len(),
{
    if j == s.len() {
        if s.len() == 0 {
        } else {
            assert(last_segment(s) =~= s.subrange(j, s.len() as int));
        }
    } else {
        let t = s.drop_last();
        lemma_last_segment_subrange(t, j);
        assert(s.subrange(j, s.len() as int) =~= t.subrange(j, t.len() as int).push(
            s[s.len() - 1],
        ));
    }
}

/// A `/`-free token glued after a `/` is exactly what `last_segment` recovers.
pub proof fn lemma_last_segment_after_slash(prefix: Seq<char>, token: Seq<char>)
    requires
        forall|k: int| 0 <= k < token.len() ==> token[k] != '/',
    ensures
        last_segment(prefix.push('/') + token) == token,
{
    let s = prefix.push('/') + token;
    let j = prefix.len() + 1;
    assert(s[j - 1] == '/');
    assert(forall|k: int| j <= k < s.len() ==> s[k] == token[k - j] && s[k] != '/');
    lemma_last_segment_subrange(s, j as int);
    assert(s.subrange(j as int, s.len() as int) =~= token);
}

/// The tail of `s` after its last `/` (all of `s` when there is none).
pub fn tail_after_slash(s: &str) -> (r: String)
    ensures
        r@ == last_segment(s@),
{
    let len = s.unicode_len();
    let mut start: usize = 0;
    let mut i: usize = 0;
    while i < len
        invariant
            i <= len,
            len == s@.len(),
            start <= i,
            start == 0 || s@[start - 1] == '/',
            forall|k: int| start <= k < i ==> s@[k] != '/',
        decreases len - i,
    {
        if s.get_char(i) == '/' {
            start = i + 1;
        }
        i = i + 1;
    }
    proof {
        lemma_last_segment_subrange(s@, start as int);
    }
    let sub = s.substring_char(start, len);
    sub.to_owned()
}

/// The prefix of `s` up to (not including) its first `-`, or all of `s`
/// when no `-` occurs.
pub open spec fn before_hyphen(s: Seq<char>) -> Seq<char>
    decreases s.len(),
{
    if s.len() == 0 {
        s
    } else if s[0] == '-' {
        Seq::empty()
    } else {
        seq![s[0]] + before_hyphen(s.drop_first())
    }
}

proof fn lemma_before_hyphen_subrange(s: Seq<char>, i: int)
    requires
        0 <= i <= s.len(),
        forall|k: int| 0 <= k < i ==> s[k] != '-',
        i == s.len() || s[i] == '-',
    ensures
        before_hyphen(s) == s.subrange(0, i),
    decreases s.len(),
{
    if s.len() == 0 {
        assert(s.subrange(0, 0) =~= s);
    } else if s[0] == '-' {
        assert(s.subrange(0, 0) =~= Seq::<char>::empty());
    } else {
        lemma_before_hyphen_subrange(s.drop_first(), i - 1);
        assert(s.subrange(0, i) =~= seq![s[0]] + s.drop_first().subrange(0, i - 1));
    }
}

/// An identifier without a hyphen is its own hyphen-delimited prefix.
pub proof fn lemma_before_hyphen_whole(s: Seq<char>)
    requires
        forall|k: int| 0 <= k < s.len() ==> s[k] != '-',
    ensures
        before_hyphen(s) == s,
{
    lemma_before_hyphen_subrange(s, s.len() as int);
    assert(s.subrange(0, s.len() as int) =~= s);
}

/// The prefix of `s` up to its first `-` (all of `s` when there is none).
pub fn head_before_hyphen(s: &str) -> (r: String)
    ensures
        r@ == before_hyphen(s@),
{
    let len = s.unicode_len();
    let mut i: usize = 0;
    while i < len
        invariant
            i <= len,
            len == s@.len(),
            forall|k: int| 0 <= k < i ==> s@[k] != '-',
        decreases len - i,
    {
        if s.get_char(i) == '-' {
            proof {
                lemma_before_hyphen_subrange(s@, i as int);
            }
            let sub = s.substring_char(0, i);
            return sub.to_owned();
        }
        i = i + 1;
    }
    proof {
        lemma_before_hyphen_subrange(s@, len as int);
        assert(s@.subrange(0, len as int) =~= s@);
    }
    s.to_owned()
}

/// Relies on `String::from_utf8`: a vector of bytes below 0x80 is valid
/// UTF-8 and decodes to one character per byte.
#[verifier::external_body]
pub(crate) fn ascii_string(bytes: Vec<u8>) -> (r: String)
    requires
        forall|i: int| 0 <= i < bytes@.len() ==> bytes@[i] < 128,
    ensures
        r@.len() == bytes@.len(),
        forall|i: int| 0 <= i < bytes@.len() ==> r@[i] == bytes@[i] as char,
{
    String::from_utf8(bytes).unwrap_or_default()
}

/// The character for decimal digit `d`.
pub open spec fn digit_char(d: nat) -> char {
    ((48 + d) as u8) as char
}

/// The decimal digits of `n`, most significant first, no leading zeros.
pub open spec fn dec_chars(n: nat) -> Seq<char>
    decreases n,
{
    if n < 10 {
        seq![digit_char(n)]
    } else {
        dec_chars(n / 10).push(digit_char(n % 10))
    }
}

spec fn rev_digit_chars(s: Seq<u8>) -> Seq<char>
    decreases s.len(),
{
    if s.len() == 0 {
        Seq::empty()
    } else {
        seq![s.last() as char] + rev_digit_chars(s.drop_last())
    }
}

/// `n` written in decimal.
pub fn u32_dec_string(n: u32) -> (r: String)
    ensures
        r@ == dec_chars(n as nat),
{
    let mut rev: Vec<u8> = Vec::new();
    let mut m: u32 = n;
    while m >= 10
        invariant
            dec_chars(n as nat) == dec_chars(m as nat) + rev_digit_chars(rev@),
            forall|i: int| 0 <= i < rev@.len() ==> #[trigger] rev@[i] < 128,
        decreases m,
    {
        let ghost old_rev = rev@;
        let ghost old_m = m as nat;
        let d: u8 = (m % 10) as u8 + 48;
        rev.push(d);
        m = m / 10;
        proof {
            assert(d as char == digit_char(old_m % 10));
            assert(rev@.drop_last() =~= old_rev);
            lemma_rev_digit_snoc(old_rev, d);
            assert(dec_chars(old_m) == dec_chars(m as nat).push(digit_char(old_m % 10)));
            assert(dec_chars(m as nat) + rev_digit_chars(rev@) =~= dec_chars(n as nat));
        }
    }
    let mut out: Vec<u8> = Vec::new();
    out.push((m as u8) + 48);
    proof {
        assert(((m as u8) + 48) as char == digit_char(m as nat));
        assert(out@.map_values(|b: u8| b as char) =~= dec_chars(m as nat));
    }
    let mut j: usize = rev.len();
    proof {
        assert(rev@.take(j as int) =~= rev@);
        assert(out@.map_values(|b: u8| b as char) + rev_digit_chars(rev@) =~= dec_chars(n as nat));
    }
    while j > 0
        invariant
            j <= rev@.len(),
            forall|i: int| 0 <= i < rev@.len() ==> #[trigger] rev@[i] < 128,
            forall|i: int| 0 <= i < out@.len() ==> #[trigger] out@[i] < 128,
            out@.map_values(|b: u8| b as char) + rev_digit_chars(rev@.take(j as int)) == dec_chars(
                n as nat,
            ),
        decreases j,
    {
        let ghost old_out = out@;
        let d = rev[j - 1];
        out.push(d);
        j = j - 1;
        proof {
            let taken = rev@.take(j + 1);
            assert(taken.last() == rev@[j as int]);
            assert(taken.drop_last() =~= rev@.take(j as int));
            assert(out@.map_values(|b: u8| b as char) =~= old_out.map_values(|b: u8| b as char)
                + seq![d as char]);
            assert(out@.map_values(|b: u8| b as char) + rev_digit_chars(rev@.take(j as int))
                =~= dec_chars(n as nat));
        }
    }
    proof {
        assert(rev@.take(0) =~= Seq::<u8>::empty());
        assert(out@.map_values(|b: u8| b as char) + rev_digit_chars(Seq::empty()) =~= out@.map_values(
            |b: u8| b as char,
        ));
    }
    let r = ascii_string(out);
    proof {
        assert(r@ =~= dec_chars(n as nat));
    }
    r
}

proof fn lemma_rev_digit_snoc(s: Seq<u8>, d: u8)
    ensures
        rev_digit_chars(s.push(d)) == seq![d as char] + rev_digit_chars(s),
{
    assert(s.push(d).last() == d);
    assert(s.push(d).drop_last() =~= s);
}

/// `n` occurs in `h` starting at position `i`.
pub open spec fn contains_at(h: Seq<char>, n: Seq<char>, i: int) -> bool {
    &&& 0 <= i
    &&& i + n.len() <= h.len()
    &&& h.subrange(i, i + n.len() as int) == n
}

/// `n` occurs somewhere in `h` (plain case-sensitive substring match).
pub open spec fn contains_sub(h: Seq<char>, n: Seq<char>) -> bool {
    exists|i: int| contains_at(h, n, i)
}

fn match_at(hay: &str, needle: &str, i: usize) -> (r: bool)
    requires
        i + needle@.len() <= hay@.len(),
    ensures
        r == contains_at(hay@, needle@, i as int),
{
    let hlen = hay.unicode_len();
    let nlen = needle.unicode_len();
    let mut k: usize = 0;
    while k < nlen
        invariant
            k <= nlen,
            hlen == hay@.len(),
            nlen == needle@.len(),
            i + nlen <= hlen,
            forall|t: int| 0 <= t < k ==> hay@[i + t] == needle@[t],
        decreases nlen - k,
    {
        if hay.get_char(i + k) != needle.get_char(k) {
            proof {
                assert(hay@.subrange(i as int, i + nlen as int)[k as int] == hay@[i + k]);
            }
            return false;
        }
        k = k + 1;
    }
    proof {
        assert(hay@.subrange(i as int, i + nlen as int) =~= needle@);
    }
    true
}

/// Whether `needle` occurs in `hay` as a contiguous run of characters.
pub fn str_contains(hay: &str, needle: &str) -> (r: bool)
    ensures
        r == contains_sub(hay@, needle@),
{
    let hlen = hay.unicode_len();
    let nlen = needle.unicode_len();
    if nlen > hlen {
        proof {
            assert(forall|j: int| !contains_at(hay@, needle@, j));
        }
        return false;
    }
    if nlen == 0 {
        proof {
            assert(hay@.subrange(0, 0) =~= needle@);
            assert(contains_at(hay@, needle@, 0));
        }
        return true;
    }
    let mut i: usize = 0;
    while i <= hlen - nlen
        invariant
            1 <= nlen <= hlen,
            hlen == hay@.len(),
            nlen == needle@.len(),
            i <= hlen - nlen + 1,
            forall|j: int| 0 <= j < i ==> !contains_at(hay@, needle@, j),
        decreases hlen - nlen - i + 1,
    {
        if match_at(hay, needle, i) {
            return true;
        }
        i = i + 1;
    }
    proof {
        assert forall|j: int| !contains_at(hay@, needle@, j) by {
            if 0 <= j < i {
            }
        }
    }
    false
}

} // verus!
