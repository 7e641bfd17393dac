use vstd::prelude::*;
use vstd::slice::slice_subrange;
use crate::net::ip::{field_end, find_field_end, spec_parse_ip, IpV4Addr};

verus! {

/// What is asked to be pinged.
#[derive(Debug, Copy, Clone, PartialEq, Eq, Structural)]
pub enum PingTarget {
    /// Nothing: the command came without an address.
    Missing,
    /// Text that is no IPv4 address.
    Invalid,
    /// This address.
    Addr(IpV4Addr),
}

/// A command of the shell.
#[derive(Debug, PartialEq, Eq)]
pub enum Command {
    /// Stop the kernel with a breakpoint.
    Panic,
    /// Show the lease.
    Ip,
    /// Send an echo request.
    Ping(PingTarget),
    /// Show the ARP table.
    Arp,
    /// Run the application with this name.
    App(Vec<char>),
}

/// Whether `c` is trimmed off the ends of a line.
pub open spec fn is_space(c: char) -> bool {
    c == ' ' || c == '\t' || c == '\n' || c == '\r' || c == '\x0b' || c == '\x0c'
}

/// The first index from `from` on at which `s` holds no space, or the
/// length of `s` where it holds only spaces.
pub open spec fn skip_spaces(s: Seq<char>, from: int) -> int
    decreases s.len() - from,
{
    if from >= s.len() {
        s.len() as int
    } else if !is_space(s[from]) {
        from
    } else {
        skip_spaces(s, from + 1)
    }
}

/// The index behind the last character of `s` before `to` that is no space
/// and not before `lo`, or `lo` where there is none.
pub open spec fn drop_spaces(s: Seq<char>, lo: int, to: int) -> int
    decreases to - lo,
{
    if to <= lo || to > s.len() {
        lo
    } else if !is_space(s[to - 1]) {
        to
    } else {
        drop_spaces(s, lo, to - 1)
    }
}

/// The line without the spaces at its ends.
pub open spec fn trimmed(s: Seq<char>) -> Seq<char> {
    let lo = skip_spaces(s, 0);
    s.subrange(lo, drop_spaces(s, lo, s.len() as int))
}

/// The word `panic`.
pub open spec fn word_panic() -> Seq<char> {
    seq!['p', 'a', 'n', 'i', 'c']
}

/// The word `ip`.
pub open spec fn word_ip() -> Seq<char> {
    seq!['i', 'p']
}

/// The word `ping`.
pub open spec fn word_ping() -> Seq<char> {
    seq!['p', 'i', 'n', 'g']
}

/// The word `arp`.
pub open spec fn word_arp() -> Seq<char> {
    seq!['a', 'r', 'p']
}

/// What is to be pinged by the line `t`, whose first word ends at `e0`:
/// the second word, as an address.
pub open spec fn spec_ping_target(t: Seq<char>, e0: int) -> PingTarget {
    if e0 >= t.len() {
        PingTarget::Missing
    } else {
        match spec_parse_ip(t.subrange(e0 + 1, field_end(t, e0 + 1, ' '))) {
            Some(a) => PingTarget::Addr(a),
            None => PingTarget::Invalid,
        }
    }
}

/// Whether `c` is the command that the line `line` asks for. The words of
/// a line are what single spaces separate, once the spaces at its ends are
/// dropped; the first word names the command, and what is no command of
/// the shell is the name of an application.
pub open spec fn is_command_of(c: Command, line: Seq<char>) -> bool {
    let t = trimmed(line);
    let e0 = field_end(t, 0, ' ');
    let word = t.subrange(0, e0);
    if word == word_panic() {
        c is Panic
    } else if word == word_ip() {
        c is Ip
    } else if word == word_ping() {
        c matches Command::Ping(p) && p == spec_ping_target(t, e0)
    } else if word == word_arp() {
        c is Arp
    } else {
        c matches Command::App(name) && name@ == word
    }
}

/// Drops the spaces at the ends of `line`.
pub fn trim(line: &[char]) -> (r: &[char])
    ensures
        r@ == trimmed(line@),
{
    let n = line.len();
    let mut lo: usize = 0;
    while lo < n && is_space_char(line[lo])
        invariant
            lo <= n,
            n == line@.len(),
            skip_spaces(line@, lo as int) == skip_spaces(line@, 0),
        decreases n - lo,
    {
        lo = lo + 1;
    }
    let mut hi: usize = n;
    while hi > lo && is_space_char(line[hi - 1])
        invariant
            lo <= hi <= n,
            n == line@.len(),
            drop_spaces(line@, lo as int, hi as int) == drop_spaces(line@, lo as int, n as int),
        decreases hi - lo,
    {
        hi = hi - 1;
    }
    slice_subrange(line, lo, hi)
}

/// Whether `c` is trimmed off the ends of a line.
pub fn is_space_char(c: char) -> (r: bool)
    ensures
        r == is_space(c),
{
    c == ' ' || c == '\t' || c == '\n' || c == '\r' || c == '\x0b' || c == '\x0c'
}

/// Whether the characters of `s` up to `to` are those of `word`.
pub fn is_word(s: &[char], to: usize, word: &[char]) -> (r: bool)
    requires
        to <= s@.len(),
    ensures
        r == (s@.subrange(0, to as int) == word@),
{
    if to != word.len() {
        return false;
    }
    let mut i: usize = 0;
    while i < to
        invariant
            i <= to,
            to == word@.len(),
            to <= s@.len(),
            forall|k: int| 0 <= k < i ==> s@[k] == word@[k],
        decreases to - i,
    {
        if s[i] != word[i] {
            assert(s@.subrange(0, to as int)[i as int] != word@[i as int]);
            return false;
        }
        i = i + 1;
    }
    assert(s@.subrange(0, to as int) =~= word@);
    true
}

/// Reads the command that the line `cmdline` asks for.
pub fn parse_command(cmdline: &[char]) -> (r: Command)
    ensures
        is_command_of(r, cmdline@),
{
    let t = trim(cmdline);
    let e0 = find_field_end(t, 0, ' ');
    let panic_word: [char; 5] = ['p', 'a', 'n', 'i', 'c'];
    let ip_word: [char; 2] = ['i', 'p'];
    let ping_word: [char; 4] = ['p', 'i', 'n', 'g'];
    let arp_word: [char; 3] = ['a', 'r', 'p'];
    assert(panic_word@ =~= word_panic());
    assert(ip_word@ =~= word_ip());
    assert(ping_word@ =~= word_ping());
    assert(arp_word@ =~= word_arp());
    if is_word(t, e0, panic_word.as_slice()) {
        Command::Panic
    } else if is_word(t, e0, ip_word.as_slice()) {
        Command::Ip
    } else if is_word(t, e0, ping_word.as_slice()) {
        if e0 >= t.len() {
            Command::Ping(PingTarget::Missing)
        } else {
            let e1 = find_field_end(t, e0 + 1, ' ');
            match IpV4Addr::from_chars(slice_subrange(t, e0 + 1, e1)) {
                Ok(a) => Command::Ping(PingTarget::Addr(a)),
                Err(_) => Command::Ping(PingTarget::Invalid),
            }
        }
    } else if is_word(t, e0, arp_word.as_slice()) {
        Command::Arp
    } else {
        let mut name: Vec<char> = Vec::new();
        let mut i: usize = 0;
        while i < e0
            invariant
                i <= e0 <= t@.len(),
                name@ == t@.subrange(0, i as int),
            decreases e0 - i,
        {
            name.push(t[i]);
            i = i + 1;
            assert(name@ =~= t@.subrange(0, i as int));
        }
        Command::App(name)
    }
}

} // verus!
