//! Port negotiation over the backend's standard output: each line is scanned
//! for the fixed marker token; the first line whose token after the marker
//! parses as an unsigned 16-bit integer yields the port, exactly once.

use vstd::prelude::*;

use crate::text::{
    find_at, find_sub, first_token, lemma_find_at_is_match, parse_u16, parse_u16_seq,
    skip_spaces_exec, token_end_exec,
};

verus! {

/// The literal marker the backend prints before its bound port.
pub open spec fn marker_seq() -> Seq<char> {
    "SERVER_PORT:"@
}

/// What one output line yields: the first whitespace-delimited token after
/// the first marker occurrence, parsed as a port; nothing when the marker is
/// absent or the token does not parse.
pub open spec fn scan_line_spec(line: Seq<char>) -> Option<u16> {
    match find_at(line, marker_seq(), 0) {
        Option::None => None,
        Option::Some(i) => parse_u16_seq(first_token(line, i + marker_seq().len())),
    }
}

/// Scan one line of backend output for the port marker.
pub fn scan_port_line(line: &str) -> (r: Option<u16>)
    ensures
        r == scan_line_spec(line@),
{
    proof {
        reveal_strlit("SERVER_PORT:");
    }
    match find_sub(line, "SERVER_PORT:") {
        None => None,
        Some(i) => {
            let slen = line.unicode_len();
            proof {
                lemma_find_at_is_match(line@, marker_seq(), 0);
            }
            let after = i + 12;
            let a = skip_spaces_exec(line, after);
            let b = token_end_exec(line, a);
            let tok = line.substring_char(a, b);
            parse_u16(tok)
        },
    }
}

/// The first-delivery fold over the lines seen so far.
pub open spec fn feed_spec(cur: Option<u16>, line: Seq<char>) -> Option<u16> {
    if cur is Some {
        cur
    } else {
        scan_line_spec(line)
    }
}

/// What a whole stream of lines delivers: the port of the first line that
/// yields one, or nothing.
pub open spec fn scan_lines_spec(lines: Seq<Seq<char>>) -> Option<u16>
    decreases lines.len(),
{
    if lines.len() == 0 {
        None
    } else {
        feed_spec(scan_lines_spec(lines.drop_last()), lines.last())
    }
}

/// The stdout listener's state: the port already delivered, if any. Lines
/// after the first delivery are ignored.
pub struct PortScanner {
    pub found: Option<u16>,
}

impl PortScanner {
    /// A fresh scanner for one spawn attempt.
    pub fn new() -> (r: Self)
        ensures
            r.found is None,
    {
        PortScanner { found: None }
    }

    /// Consume one line. The result is the one-shot delivery: `Some` exactly
    /// when this line turned the scanner from empty to found, so the value is
    /// handed over at most once per scanner.
    pub fn feed(&mut self, line: &str) -> (delivered: Option<u16>)
        ensures
            final(self).found == feed_spec(old(self).found, line@),
            delivered == (if old(self).found is None {
                scan_line_spec(line@)
            } else {
                Option::<u16>::None
            }),
    {
        match self.found {
            Some(_) => None,
            None => {
                let r = scan_port_line(line);
                self.found = r;
                r
            },
        }
    }
}

/// Law: scanning is deterministic in the stream. If line `k` yields a port
/// and no earlier line yields one, the stream delivers exactly that port,
/// whatever follows.
pub proof fn lemma_scan_lines_first(lines: Seq<Seq<char>>, k: int)
    requires
        0 <= k < lines.len(),
        scan_line_spec(lines[k]) is Some,
        forall|j: int| 0 <= j < k ==> scan_line_spec(#[trigger] lines[j]) is None,
    ensures
        scan_lines_spec(lines) == scan_line_spec(lines[k]),
    decreases lines.len(),
{
    if k == lines.len() - 1 {
        lemma_scan_lines_none(lines.drop_last());
    } else {
        lemma_scan_lines_first(lines.drop_last(), k);
    }
}

/// Law: a stream none of whose lines yields a port delivers nothing, so the
/// bounded wait times out.
pub proof fn lemma_scan_lines_none(lines: Seq<Seq<char>>)
    requires
        forall|j: int| 0 <= j < lines.len() ==> scan_line_spec(#[trigger] lines[j]) is None,
    ensures
        scan_lines_spec(lines) is None,
    decreases lines.len(),
{
    if lines.len() > 0 {
        lemma_scan_lines_none(lines.drop_last());
    }
}

} // verus!
