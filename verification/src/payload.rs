//! Verified framing of the JSON creation payload: string escaping as a
//! JSON encoder performs it, and the fixed object shape the service
//! expects from a creation request.

use crate::text::{ascii_string, dec_chars, u32_dec_string};
use vstd::prelude::*;
use vstd::string::*;

verus! {

/// The character for hex digit `d`, lower case.
pub open spec fn hex_char(d: u8) -> char {
    if d < 10 {
        ((48 + d) as u8) as char
    } else {
        ((87 + d) as u8) as char
    }
}

/// `c` cannot stand raw inside a JSON string literal.
pub open spec fn escapable(c: char) -> bool {
    c == '"' || c == '\\' || (c as u32) < 32
}

/// How a JSON encoder writes one character inside a string literal:
/// quote and backslash get a backslash, the named control characters
/// their short escapes, other control characters the `\u00XX` form, and
/// everything else stands as itself.
pub open spec fn esc_char(c: char) -> Seq<char> {
    if c == '"' {
        seq!['\\', '"']
    } else if c == '\\' {
        seq!['\\', '\\']
    } else if c == '\u{8}' {
        seq!['\\', 'b']
    } else if c == '\t' {
        seq!['\\', 't']
    } else if c == '\n' {
        seq!['\\', 'n']
    } else if c == '\u{c}' {
        seq!['\\', 'f']
    } else if c == '\r' {
        seq!['\\', 'r']
    } else if (c as u32) < 32 {
        seq!['\\', 'u', '0', '0', hex_char((c as u32 / 16) as u8), hex_char((c as u32 % 16) as u8)]
    } else {
        seq![c]
    }
}

/// The body of a JSON string literal holding the text `s`.
pub open spec fn esc(s: Seq<char>) -> Seq<char>
    decreases s.len(),
{
    if s.len() == 0 {
        Seq::empty()
    } else {
        esc(s.drop_last()) + esc_char(s.last())
    }
}

proof fn lemma_esc_snoc(s: Seq<char>, i: int)
    requires
        0 <= i < s.len(),
    ensures
        esc(s.take(i + 1)) == esc(s.take(i)) + esc_char(s[i]),
{
    let t = s.take(i + 1);
    assert(t.last() == s[i]);
    assert(t.drop_last() =~= s.take(i));
}

proof fn lemma_esc_plain_run(s: Seq<char>, a: int, b: int)
    requires
        0 <= a <= b <= s.len(),
        forall|k: int| a <= k < b ==> !escapable(s[k]),
    ensures
        esc(s.take(b)) == esc(s.take(a)) + s.subrange(a, b),
    decreases b - a,
{
    if a == b {
        assert(esc(s.take(a)) + s.subrange(a, a) =~= esc(s.take(a)));
    } else {
        lemma_esc_plain_run(s, a, b - 1);
        lemma_esc_snoc(s, b - 1);
        assert(!escapable(s[b - 1]));
        assert(esc_char(s[b - 1]) =~= seq![s[b - 1]]);
        assert(esc(s.take(a)) + s.subrange(a, b - 1) + seq![s[b - 1]] =~= esc(s.take(a))
            + s.subrange(a, b));
    }
}

fn hex_byte(d: u8) -> (b: u8)
    requires
        d < 16,
    ensures
        b < 128,
        b as char == hex_char(d),
{
    if d < 10 {
        48 + d
    } else {
        87 + d
    }
}

/// Appends to `out` the body of a JSON string literal holding `s`.
pub fn escape_json_into(out: &mut String, s: &str)
    ensures
        final(out)@ == old(out)@ + esc(s@),
{
    let len = s.unicode_len();
    let mut run: usize = 0;
    let mut i: usize = 0;
    while i < len
        invariant
            run <= i <= len,
            len == s@.len(),
            out@ == old(out)@ + esc(s@.take(run as int)),
            forall|k: int| run <= k < i ==> !escapable(s@[k]),
        decreases len - i,
    {
        let c = s.get_char(i);
        if c == '"' || c == '\\' || (c as u32) < 32 {
            out.append(s.substring_char(run, i));
            proof {
                lemma_esc_plain_run(s@, run as int, i as int);
            }
            if c == '"' {
                out.append("\\\"");
                proof {
                    reveal_strlit("\\\"");
                    assert(("\\\"")@ =~= esc_char(c));
                }
            } else if c == '\\' {
                out.append("\\\\");
                proof {
                    reveal_strlit("\\\\");
                    assert(("\\\\")@ =~= esc_char(c));
                }
            } else if c == '\u{8}' {
                out.append("\\b");
                proof {
                    reveal_strlit("\\b");
                    assert(("\\b")@ =~= esc_char(c));
                }
            } else if c == '\t' {
                out.append("\\t");
                proof {
                    reveal_strlit("\\t");
                    assert(("\\t")@ =~= esc_char(c));
                }
            } else if c == '\n' {
                out.append("\\n");
                proof {
                    reveal_strlit("\\n");
                    assert(("\\n")@ =~= esc_char(c));
                }
            } else if c == '\u{c}' {
                out.append("\\f");
                proof {
                    reveal_strlit("\\f");
                    assert(("\\f")@ =~= esc_char(c));
                }
            } else if c == '\r' {
                out.append("\\r");
                proof {
                    reveal_strlit("\\r");
                    assert(("\\r")@ =~= esc_char(c));
                }
            } else {
                let code: u32 = c as u32;
                let mut hex: Vec<u8> = Vec::new();
                hex.push(hex_byte((code / 16) as u8));
                hex.push(hex_byte((code % 16) as u8));
                let hx = ascii_string(hex);
                out.append("\\u00");
                out.append(hx.as_str());
                proof {
                    reveal_strlit("\\u00");
                    assert(("\\u00")@ + hx@ =~= esc_char(c));
                }
            }
            proof {
                lemma_esc_snoc(s@, i as int);
                assert(out@ =~= old(out)@ + esc(s@.take(i + 1)));
            }
            run = i + 1;
        }
        i = i + 1;
    }
    out.append(s.substring_char(run, len));
    proof {
        lemma_esc_plain_run(s@, run as int, len as int);
        assert(s@.take(len as int) =~= s@);
        assert(out@ =~= old(out)@ + esc(s@));
    }
}

/// The creation payload the service expects: a JSON object with the
/// check's name, cron schedule, grace in seconds, tags, timezone, and
/// `"unique":["name"]` so the service de-duplicates by name.
pub open spec fn add_payload(
    name: Seq<char>,
    schedule: Seq<char>,
    grace_secs: u32,
    tags: Seq<char>,
    tz: Seq<char>,
) -> Seq<char> {
    "{\"grace\":"@ + dec_chars(grace_secs as nat) + ",\"name\":\""@ + esc(name)
        + "\",\"schedule\":\""@ + esc(schedule) + "\",\"tags\":\""@ + esc(tags) + "\",\"tz\":\""@
        + esc(tz) + "\",\"unique\":[\"name\"]}"@
}

/// Writes the creation payload for the given fields.
pub fn build_add_payload(
    name: &str,
    schedule: &str,
    grace_secs: u32,
    tags: &str,
    tz: &str,
) -> (r: String)
    ensures
        r@ == add_payload(name@, schedule@, grace_secs, tags@, tz@),
{
    let mut out = "{\"grace\":".to_owned();
    let g = u32_dec_string(grace_secs);
    out.append(g.as_str());
    out.append(",\"name\":\"");
    escape_json_into(&mut out, name);
    out.append("\",\"schedule\":\"");
    escape_json_into(&mut out, schedule);
    out.append("\",\"tags\":\"");
    escape_json_into(&mut out, tags);
    out.append("\",\"tz\":\"");
    escape_json_into(&mut out, tz);
    out.append("\",\"unique\":[\"name\"]}");
    out
}

} // verus!
