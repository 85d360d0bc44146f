use vstd::prelude::*;
use crate::text::push_char;

verus! {

/// The decimal digits of `n` as ASCII bytes.
pub open spec fn dec_bytes(n: nat) -> Seq<u8>
    decreases n,
{
    if n < 10 {
        seq![(n + 48) as u8]
    } else {
        dec_bytes(n / 10).push(((n % 10) + 48) as u8)
    }
}

/// The text that marks a socket on `port`: a colon and the port number.
pub open spec fn port_pattern(port: u16) -> Seq<u8> {
    seq![58u8] + dec_bytes(port as nat)
}

/// The marker in front of a process id in the socket table.
pub open spec fn pid_marker() -> Seq<u8> {
    seq![112u8, 105u8, 100u8, 61u8]
}

/// The end of the line that starts at `i`: the next newline, or the end of `s`.
pub open spec fn line_end(s: Seq<u8>, i: int) -> int
    decreases s.len() - i,
{
    if i < 0 || i >= s.len() || s[i] == 10u8 {
        i
    } else {
        line_end(s, i + 1)
    }
}

pub open spec fn occurs_at(line: Seq<u8>, pat: Seq<u8>, k: int) -> bool {
    0 <= k && k + pat.len() <= line.len() && line.subrange(k, k + pat.len()) == pat
}

/// The first position at or after `i` where `pat` occurs in `line`, or -1.
pub open spec fn find_from(line: Seq<u8>, pat: Seq<u8>, i: int) -> int
    decreases line.len() + 1 - i,
{
    if i < 0 || i + pat.len() > line.len() {
        -1
    } else if occurs_at(line, pat, i) {
        i
    } else {
        find_from(line, pat, i + 1)
    }
}

pub open spec fn is_digit(b: u8) -> bool {
    48 <= b <= 57
}

/// The run of ASCII digits that starts at `i`.
pub open spec fn digit_run(line: Seq<u8>, i: int) -> Seq<u8>
    decreases line.len() - i,
{
    if 0 <= i < line.len() && is_digit(line[i]) {
        seq![line[i]] + digit_run(line, i + 1)
    } else {
        Seq::empty()
    }
}

/// The process id a line names for `port`: the digits after the first
/// marker, in a line that mentions the port. Empty when there is none.
pub open spec fn line_pid(line: Seq<u8>, port: u16) -> Seq<u8> {
    let m = find_from(line, pid_marker(), 0);
    if find_from(line, port_pattern(port), 0) >= 0 && m >= 0 {
        digit_run(line, m + 4)
    } else {
        Seq::empty()
    }
}

/// The process id named by the first line, from `i` on, that gives one for `port`.
pub open spec fn scan_lines(table: Seq<u8>, i: int, port: u16) -> Seq<u8>
    decreases table.len() + 1 - i,
    via scan_lines_decreases
{
    if i < 0 || i >= table.len() {
        Seq::empty()
    } else {
        let e = line_end(table, i);
        let p = line_pid(table.subrange(i, e), port);
        if p.len() > 0 {
            p
        } else {
            scan_lines(table, e + 1, port)
        }
    }
}

proof fn lemma_line_end(s: Seq<u8>, i: int)
    requires
        0 <= i <= s.len(),
    ensures
        i <= line_end(s, i) <= s.len(),
    decreases s.len() - i,
{
    if i < s.len() && s[i] != 10u8 {
        lemma_line_end(s, i + 1);
    }
}

#[via_fn]
proof fn scan_lines_decreases(table: Seq<u8>, i: int, port: u16) {
    if 0 <= i < table.len() {
        lemma_line_end(table, i);
    }
}

pub open spec fn ascii_text(b: Seq<u8>) -> Seq<char> {
    b.map_values(|x: u8| x as char)
}

/// The process id that the listening-socket table gives for `port`.
pub open spec fn pid_for_port(port: u16, table: Seq<u8>) -> Option<Seq<char>> {
    let p = scan_lines(table, 0, port);
    if p.len() > 0 {
        Some(ascii_text(p))
    } else {
        None
    }
}

fn push_dec_bytes(v: &mut Vec<u8>, n: u16)
    ensures
        final(v)@ == old(v)@ + dec_bytes(n as nat),
    decreases n,
{
    if n >= 10 {
        push_dec_bytes(v, n / 10);
    }
    v.push(((n % 10) + 48) as u8);
    assert(v@ =~= old(v)@ + dec_bytes(n as nat));
}

fn line_end_exec(s: &[u8], i: usize) -> (r: usize)
    requires
        i <= s@.len(),
    ensures
        r as int == line_end(s@, i as int),
        i <= r <= s@.len(),
{
    let mut j = i;
    while j < s.len() && s[j] != 10u8
        invariant
            i <= j <= s@.len(),
            line_end(s@, i as int) == line_end(s@, j as int),
        decreases s@.len() - j,
    {
        j = j + 1;
    }
    j
}

fn matches_at(line: &Vec<u8>, pat: &Vec<u8>, k: usize) -> (r: bool)
    requires
        k + pat@.len() <= line@.len(),
    ensures
        r == occurs_at(line@, pat@, k as int),
{
    let n = line.len();
    let mut j: usize = 0;
    while j < pat.len()
        invariant
            n == line@.len(),
            j <= pat@.len(),
            k + pat@.len() <= line@.len(),
            forall|t: int| 0 <= t < j ==> line@[k + t] == pat@[t],
        decreases pat@.len() - j,
    {
        if line[k + j] != pat[j] {
            assert(line@.subrange(k as int, k + pat@.len())[j as int] != pat@[j as int]);
            return false;
        }
        j = j + 1;
    }
    assert(line@.subrange(k as int, k + pat@.len()) =~= pat@);
    true
}

fn find_exec(line: &Vec<u8>, pat: &Vec<u8>) -> (r: Option<usize>)
    requires
        pat@.len() > 0,
    ensures
        match r {
            Some(k) => k as int == find_from(line@, pat@, 0) && occurs_at(line@, pat@, k as int),
            None => find_from(line@, pat@, 0) == -1,
        },
{
    let mut k: usize = 0;
    if pat.len() > line.len() {
        return None;
    }
    while pat.len() <= line.len() - k
        invariant
            k <= line@.len(),
            0 < pat@.len() <= line@.len(),
            find_from(line@, pat@, 0) == find_from(line@, pat@, k as int),
        decreases line@.len() + 1 - k,
    {
        if matches_at(line, pat, k) {
            return Some(k);
        }
        k = k + 1;
    }
    None
}

fn digit_run_exec(line: &Vec<u8>, start: usize) -> (r: Vec<u8>)
    ensures
        r@ == digit_run(line@, start as int),
{
    let mut r: Vec<u8> = Vec::new();
    let mut j = start;
    while j < line.len() && 48u8 <= line[j] && line[j] <= 57u8
        invariant
            start <= j,
            j <= start || j <= line@.len(),
            digit_run(line@, start as int) == r@ + digit_run(line@, j as int),
        decreases line@.len() - j,
    {
        r.push(line[j]);
        j = j + 1;
        assert(digit_run(line@, start as int) =~= r@ + digit_run(line@, j as int));
    }
    assert(digit_run(line@, start as int) =~= r@);
    r
}

/// Finds the process listening on `port` in the output of a listening-socket
/// listing (`ss -lptn`): the digits after `pid=` on the first line that
/// mentions `:port` and names a process id.
pub fn pid_from_port(port: u16, table: &[u8]) -> (r: Option<String>)
    ensures
        match r {
            Some(p) => pid_for_port(port, table@) == Some(p@),
            None => pid_for_port(port, table@).is_none(),
        },
{
    let mut pat: Vec<u8> = Vec::new();
    pat.push(58u8);
    push_dec_bytes(&mut pat, port);
    assert(pat@ =~= port_pattern(port));
    let marker: Vec<u8> = vec![112u8, 105u8, 100u8, 61u8];
    assert(marker@ =~= pid_marker());
    let mut i: usize = 0;
    while i < table.len()
        invariant
            i <= table@.len(),
            pat@ == port_pattern(port),
            marker@ == pid_marker(),
            scan_lines(table@, 0, port) == scan_lines(table@, i as int, port),
        decreases table@.len() - i,
    {
        let e = line_end_exec(table, i);
        proof {
            lemma_line_end(table@, i as int);
        }
        let mut line: Vec<u8> = Vec::new();
        let mut j = i;
        while j < e
            invariant
                i <= j <= e,
                e <= table@.len(),
                line@ == table@.subrange(i as int, j as int),
            decreases e - j,
        {
            line.push(table[j]);
            j = j + 1;
            assert(line@ =~= table@.subrange(i as int, j as int));
        }
        let found = match find_exec(&line, &pat) {
            Some(_) => match find_exec(&line, &marker) {
                Some(m) => digit_run_exec(&line, m + 4),
                None => Vec::new(),
            },
            None => Vec::new(),
        };
        assert(line@ == table@.subrange(i as int, e as int));
        assert(found@ =~= line_pid(line@, port));
        assert(found@.len() == 0 ==> scan_lines(table@, i as int, port) == scan_lines(
            table@,
            e + 1,
            port,
        ));
        if found.len() > 0 {
            let mut s = String::new();
            let mut t: usize = 0;
            while t < found.len()
                invariant
                    t <= found@.len(),
                    s@ == ascii_text(found@.subrange(0, t as int)),
                decreases found@.len() - t,
            {
                push_char(&mut s, found[t] as char);
                t = t + 1;
                assert(s@ =~= ascii_text(found@.subrange(0, t as int)));
            }
            assert(found@.subrange(0, t as int) =~= found@);
            return Some(s);
        }
        if e == table.len() {
            assert(scan_lines(table@, e as int, port) == scan_lines(table@, e + 1, port));
            i = e;
        } else {
            i = e + 1;
        }
    }
    None
}

} // verus!
