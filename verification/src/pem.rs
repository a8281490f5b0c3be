//! PEM parsing: the textual container of the TLS material.
//!
//! A PEM file is a sequence of lines; sections are bracketed by
//! `-----BEGIN <label>-----` and `-----END <label>-----` lines, and the lines
//! between them hold the section's bytes in base64.  Lines outside a section
//! are ignored.  The grammar here decodes every four-character base64 group
//! independently (padding closes a group), strips one trailing carriage
//! return per line, and keeps a final unterminated line when it is
//! non-empty.  Input that ends inside a section, or a section whose payload
//! is not base64, is rejected.

use vstd::prelude::*;

verus! {

/// The views of a sequence of values, element by element.
pub open spec fn seq_views<T: View>(s: Seq<T>) -> Seq<T::V> {
    Seq::new(s.len(), |i: int| s[i]@)
}

// ---------------------------------------------------------------------------
// Base64
// ---------------------------------------------------------------------------

/// The value of a base64 alphabet character, or -1 for any other character.
pub open spec fn sextet(c: char) -> int {
    let v = c as int;
    if 65 <= v <= 90 {
        v - 65  // 'A' ..= 'Z'
    } else if 97 <= v <= 122 {
        v - 71  // 'a' ..= 'z'
    } else if 48 <= v <= 57 {
        v + 4  // '0' ..= '9'
    } else if v == 43 {
        62  // '+'
    } else if v == 47 {
        63  // '/'
    } else {
        -1
    }
}

/// Decoding of one four-character group; `=` padding may close a group,
/// leaving one or two bytes instead of three.
pub open spec fn decode_group(g: Seq<char>) -> Option<Seq<u8>>
    recommends
        g.len() == 4,
{
    let a = sextet(g[0]);
    let b = sextet(g[1]);
    let c = sextet(g[2]);
    let d = sextet(g[3]);
    if a < 0 || b < 0 {
        None
    } else if g[2] == '=' && g[3] == '=' {
        Some(seq![(a * 4 + b / 16) as u8])
    } else if c < 0 {
        None
    } else if g[3] == '=' {
        Some(seq![(a * 4 + b / 16) as u8, (b % 16 * 16 + c / 4) as u8])
    } else if d < 0 {
        None
    } else {
        Some(
            seq![
                (a * 4 + b / 16) as u8,
                (b % 16 * 16 + c / 4) as u8,
                (c % 4 * 64 + d) as u8,
            ],
        )
    }
}

/// Base64 decoding of a payload: four-character groups decoded independently
/// and concatenated.  A length that is not a multiple of four, or a group
/// that does not decode, rejects the payload.
pub open spec fn b64_decode(s: Seq<char>) -> Option<Seq<u8>>
    decreases s.len(),
{
    if s.len() == 0 {
        Some(Seq::empty())
    } else if s.len() % 4 != 0 {
        None
    } else {
        match b64_decode(s.take(s.len() - 4)) {
            None => None,
            Some(pre) => match decode_group(s.skip(s.len() - 4)) {
                None => None,
                Some(bytes) => Some(pre + bytes),
            },
        }
    }
}

/// A failing group anywhere makes the whole payload fail.
proof fn lemma_group_fail(s: Seq<char>, i: int)
    requires
        s.len() % 4 == 0,
        0 <= i,
        i % 4 == 0,
        i + 4 <= s.len(),
        decode_group(s.subrange(i, i + 4)) matches None,
    ensures
        b64_decode(s) matches None,
    decreases s.len(),
{
    if i + 4 == s.len() {
        assert(s.skip(s.len() - 4) =~= s.subrange(i, i + 4));
    } else {
        assert(s.take(s.len() - 4).subrange(i, i + 4) =~= s.subrange(i, i + 4));
        lemma_group_fail(s.take(s.len() - 4), i);
    }
}

/// The base64 value of a character, when it has one.
fn char_val(c: char) -> (r: Option<u8>)
    ensures
        (r matches Some(v) ==> v as int == sextet(c) && v < 64),
        (r matches None ==> sextet(c) < 0),
{
    let v = c as u32;
    if 65 <= v && v <= 90 {
        Some((v - 65) as u8)
    } else if 97 <= v && v <= 122 {
        Some((v - 71) as u8)
    } else if 48 <= v && v <= 57 {
        Some((v + 4) as u8)
    } else if v == 43 {
        Some(62)
    } else if v == 47 {
        Some(63)
    } else {
        None
    }
}

/// Decodes a whole base64 payload.
fn base64_decode(payload: &Vec<char>) -> (r: Option<Vec<u8>>)
    ensures
        (r matches Some(v) ==> b64_decode(payload@) == Some(v@)),
        (r matches None ==> b64_decode(payload@) matches None),
{
    let n = payload.len();
    if n % 4 != 0 {
        return None;
    }
    let mut out: Vec<u8> = Vec::new();
    let mut i: usize = 0;
    proof {
        assert(payload@.take(0) =~= Seq::<char>::empty());
    }
    while i < n
        invariant
            i <= n,
            n == payload@.len(),
            i % 4 == 0,
            n % 4 == 0,
            b64_decode(payload@.take(i as int)) == Some(out@),
        decreases n - i,
    {
        let ghost group = payload@.subrange(i as int, i + 4);
        let c0 = payload[i];
        let c1 = payload[i + 1];
        let c2 = payload[i + 2];
        let c3 = payload[i + 3];
        proof {
            assert(group[0] == c0 && group[1] == c1 && group[2] == c2 && group[3] == c3);
        }
        let v0 = char_val(c0);
        let v1 = char_val(c1);
        let (a, b) = match (v0, v1) {
            (Some(a), Some(b)) => (a, b),
            _ => {
                proof {
                    lemma_group_fail(payload@, i as int);
                }
                return None;
            },
        };
        if c2 == '=' && c3 == '=' {
            out.push(a * 4 + b / 16);
        } else {
            let cv = match char_val(c2) {
                Some(cv) => cv,
                None => {
                    proof {
                        lemma_group_fail(payload@, i as int);
                    }
                    return None;
                },
            };
            out.push(a * 4 + b / 16);
            if c3 == '=' {
                out.push(b % 16 * 16 + cv / 4);
            } else {
                let dv = match char_val(c3) {
                    Some(dv) => dv,
                    None => {
                        proof {
                            lemma_group_fail(payload@, i as int);
                        }
                        return None;
                    },
                };
                out.push(b % 16 * 16 + cv / 4);
                out.push(cv % 4 * 64 + dv);
            }
        }
        proof {
            assert(payload@.take(i + 4).take(i as int) =~= payload@.take(i as int));
            assert(payload@.take(i + 4).skip(i as int) =~= group);
            assert(out@ =~= b64_decode(payload@.take(i as int)).unwrap() + decode_group(
                group,
            ).unwrap());
        }
        i = i + 4;
    }
    proof {
        assert(payload@.take(n as int) =~= payload@);
    }
    Some(out)
}

// ---------------------------------------------------------------------------
// Lines
// ---------------------------------------------------------------------------

/// A line with one trailing carriage return removed.
pub open spec fn strip_cr(line: Seq<char>) -> Seq<char> {
    if line.len() > 0 && line.last() == '\r' {
        line.drop_last()
    } else {
        line
    }
}

/// The lines of `rest`, `cur` being the unfinished line read so far: split at
/// every newline, carriage returns stripped, a final non-empty unterminated
/// line kept.
pub open spec fn split_rest(rest: Seq<char>, cur: Seq<char>) -> Seq<Seq<char>>
    decreases rest.len(),
{
    if rest.len() == 0 {
        if cur.len() > 0 {
            seq![strip_cr(cur)]
        } else {
            Seq::empty()
        }
    } else if rest.first() == '\n' {
        seq![strip_cr(cur)] + split_rest(rest.drop_first(), Seq::empty())
    } else {
        split_rest(rest.drop_first(), cur.push(rest.first()))
    }
}

/// The lines of a text.
pub open spec fn split_lines(text: Seq<char>) -> Seq<Seq<char>> {
    split_rest(text, Seq::empty())
}

// ---------------------------------------------------------------------------
// The section scanner
// ---------------------------------------------------------------------------

/// The begin line of a section.
pub open spec fn begin_line(label: Seq<char>) -> Seq<char> {
    "-----BEGIN "@ + label + "-----"@
}

/// The end line of a section.
pub open spec fn end_line(label: Seq<char>) -> Seq<char> {
    "-----END "@ + label + "-----"@
}

/// The scanner state: whether a section is open, the base64 characters
/// collected in it, the sections decoded so far, and whether the input has
/// been rejected.
pub struct PemScan {
    pub in_section: bool,
    pub payload: Seq<char>,
    pub sections: Seq<Seq<u8>>,
    pub failed: bool,
}

pub open spec fn scan_init() -> PemScan {
    PemScan { in_section: false, payload: Seq::empty(), sections: Seq::empty(), failed: false }
}

/// One line of the scan.
pub open spec fn scan_line(st: PemScan, line: Seq<char>, label: Seq<char>) -> PemScan {
    if st.failed {
        st
    } else if !st.in_section {
        if line == begin_line(label) {
            PemScan { in_section: true, payload: Seq::empty(), ..st }
        } else {
            st
        }
    } else if line == end_line(label) {
        match b64_decode(st.payload) {
            Some(bytes) => PemScan {
                in_section: false,
                payload: Seq::empty(),
                sections: st.sections.push(bytes),
                failed: false,
            },
            None => PemScan { failed: true, ..st },
        }
    } else {
        PemScan { payload: st.payload + line, ..st }
    }
}

/// The scan of a sequence of lines, first to last.
pub open spec fn scan_lines(lines: Seq<Seq<char>>, label: Seq<char>) -> PemScan
    decreases lines.len(),
{
    if lines.len() == 0 {
        scan_init()
    } else {
        scan_line(scan_lines(lines.drop_last(), label), lines.last(), label)
    }
}

/// What parsing `text` for sections labelled `label` yields: the decoded
/// sections in order, or nothing when a section fails to decode or the text
/// ends inside a section.
pub open spec fn parse_pem_spec(text: Seq<char>, label: Seq<char>) -> Option<Seq<Seq<u8>>> {
    let st = scan_lines(split_lines(text), label);
    if st.failed || st.in_section {
        None
    } else {
        Some(st.sections)
    }
}

/// Whether a collected line equals a marker.
fn line_is(line: &Vec<char>, marker: &str) -> (r: bool)
    ensures
        r == (line@ == marker@),
{
    let m = marker.unicode_len();
    if line.len() != m {
        return false;
    }
    let mut j: usize = 0;
    while j < m
        invariant
            j <= m,
            m == marker@.len(),
            line@.len() == m,
            forall|k: int| 0 <= k < j ==> line@[k] == marker@[k],
        decreases m - j,
    {
        if line[j] != marker.get_char(j) {
            return false;
        }
        j = j + 1;
    }
    proof {
        assert(line@ =~= marker@);
    }
    true
}

/// Parses every `label` section of `text`; the markers are the label's
/// literal begin and end lines.
pub(crate) fn parse_pem(
    text: &str,
    begin_marker: &str,
    end_marker: &str,
    Ghost(label): Ghost<Seq<char>>,
) -> (r: Option<Vec<Vec<u8>>>)
    requires
        begin_marker@ == begin_line(label),
        end_marker@ == end_line(label),
    ensures
        (r matches Some(v) ==> parse_pem_spec(text@, label) == Some(seq_views(v@))),
        (r matches None ==> parse_pem_spec(text@, label) matches None),
{
    let n = text.unicode_len();
    let mut lines: Vec<Vec<char>> = Vec::new();
    let mut cur: Vec<char> = Vec::new();
    let mut i: usize = 0;
    proof {
        assert(text@.skip(0) =~= text@);
        assert(seq_views(lines@) =~= Seq::<Seq<char>>::empty());
    }
    while i < n
        invariant
            i <= n,
            n == text@.len(),
            split_lines(text@) == seq_views(lines@) + split_rest(text@.skip(i as int), cur@),
        decreases n - i,
    {
        let c = text.get_char(i);
        proof {
            assert(text@.skip(i as int).first() == text@[i as int]);
            assert(text@.skip(i as int).drop_first() =~= text@.skip(i + 1));
        }
        if c == '\n' {
            let ghost cur0 = cur@;
            let mut line = cur;
            cur = Vec::new();
            if line.len() > 0 && line[line.len() - 1] == '\r' {
                line.pop();
            }
            proof {
                assert(line@ =~= strip_cr(cur0));
            }
            let ghost before = seq_views(lines@);
            lines.push(line);
            proof {
                assert(seq_views(lines@) =~= before.push(strip_cr(cur0)));
                assert(before.push(strip_cr(cur0)) =~= before + seq![strip_cr(cur0)]);
                assert(seq_views(lines@) + split_rest(text@.skip(i + 1), cur@) =~= before + (
                seq![strip_cr(cur0)] + split_rest(text@.skip(i + 1), Seq::empty())));
            }
        } else {
            cur.push(c);
        }
        i = i + 1;
    }
    proof {
        assert(text@.skip(n as int) =~= Seq::<char>::empty());
    }
    if cur.len() > 0 {
        let ghost cur0 = cur@;
        let mut line = cur;
        if line[line.len() - 1] == '\r' {
            line.pop();
        }
        proof {
            assert(line@ =~= strip_cr(cur0));
        }
        let ghost before = seq_views(lines@);
        lines.push(line);
        proof {
            assert(seq_views(lines@) =~= before.push(strip_cr(cur0)));
            assert(before.push(strip_cr(cur0)) =~= before + seq![strip_cr(cur0)]);
        }
    } else {
        proof {
            assert(seq_views(lines@) + Seq::<Seq<char>>::empty() =~= seq_views(lines@));
        }
    }
    let ghost all_lines = seq_views(lines@);
    proof {
        assert(all_lines == split_lines(text@));
    }
    // Scan the lines.
    let nl = lines.len();
    let mut idx: usize = 0;
    let mut in_section: bool = false;
    let mut payload: Vec<char> = Vec::new();
    let mut sections: Vec<Vec<u8>> = Vec::new();
    let mut failed: bool = false;
    proof {
        assert(all_lines.take(0) =~= Seq::<Seq<char>>::empty());
    }
    while idx < nl
        invariant
            idx <= nl,
            nl == lines@.len(),
            all_lines == seq_views(lines@),
            begin_marker@ == begin_line(label),
            end_marker@ == end_line(label),
            ({
                let st = scan_lines(all_lines.take(idx as int), label);
                st.in_section == in_section && st.payload == payload@ && st.sections == seq_views(
                    sections@,
                ) && st.failed == failed
            }),
        decreases nl - idx,
    {
        proof {
            assert(all_lines.take(idx + 1).drop_last() =~= all_lines.take(idx as int));
            assert(all_lines.take(idx + 1).last() == lines@[idx as int]@);
        }
        let line = &lines[idx];
        if failed {
        } else if !in_section {
            if line_is(line, begin_marker) {
                in_section = true;
                payload = Vec::new();
            }
        } else if line_is(line, end_marker) {
            match base64_decode(&payload) {
                Some(bytes) => {
                    let ghost before = seq_views(sections@);
                    let ghost bytes0 = bytes@;
                    sections.push(bytes);
                    in_section = false;
                    payload = Vec::new();
                    proof {
                        assert(seq_views(sections@) =~= before.push(bytes0));
                    }
                },
                None => {
                    failed = true;
                },
            }
        } else {
            let ghost pay0 = payload@;
            let ll = line.len();
            let mut k: usize = 0;
            while k < ll
                invariant
                    k <= ll,
                    ll == line@.len(),
                    payload@ == pay0 + line@.take(k as int),
                decreases ll - k,
            {
                proof {
                    assert(line@.take(k + 1) =~= line@.take(k as int).push(line@[k as int]));
                }
                payload.push(line[k]);
                k = k + 1;
            }
            proof {
                assert(line@.take(ll as int) =~= line@);
            }
        }
        idx = idx + 1;
    }
    proof {
        assert(all_lines.take(nl as int) =~= all_lines);
    }
    if failed || in_section {
        None
    } else {
        Some(sections)
    }
}

} // verus!
