//! Which mnemonics take byte-sized immediates.
use crate::text::chars_of;
use vstd::prelude::*;

verus! {

/// ASCII lower case of one character; every other character is kept.
pub open spec fn lower_char(c: char) -> char {
    if 'A' <= c && c <= 'Z' {
        ((c as u32 + 32) as u8) as char
    } else {
        c
    }
}

fn lower_char_exec(c: char) -> (r: char)
    ensures
        r == lower_char(c),
{
    if 'A' <= c && c <= 'Z' {
        ((c as u32 + 32) as u8) as char
    } else {
        c
    }
}

/// `t` (lower case) occurs in `s` at `i`, ignoring ASCII case.
pub open spec fn occurs_at(s: Seq<char>, t: Seq<char>, i: int) -> bool {
    0 <= i && i + t.len() <= s.len() && forall|j: int| 0 <= j < t.len() ==> lower_char(s[i + j]) == t[j]
}

pub open spec fn occurs(s: Seq<char>, t: Seq<char>) -> bool {
    exists|i: int| occurs_at(s, t, i)
}

/// Whether a mnemonic takes byte immediates: a `.b` suffix, or one of the
/// byte-only block copy, block swap, bit jump and relative jump mnemonics.
pub open spec fn byte_sized(command: Seq<char>) -> bool {
    occurs_at(command, seq!['.', 'b'], command.len() - 2) || occurs(command, seq!['m', 'c', 'p', 'y'])
        || occurs(command, seq!['m', 's', 'w', 'p']) || occurs(command, seq!['j', 'b', 'c'])
        || occurs(command, seq!['j', 'b', 's']) || occurs(command, seq!['j', 'r', 'f'])
        || occurs(command, seq!['j', 'r', 'b'])
}

fn occurs_at_exec(s: &Vec<char>, t: &[char], i: usize) -> (r: bool)
    ensures
        r == occurs_at(s@, t@, i as int),
{
    if t.len() > s.len() || i > s.len() - t.len() {
        return false;
    }
    let n = s.len();
    let mut j: usize = 0;
    while j < t.len()
        invariant
            n == s@.len(),
            i + t@.len() <= s@.len(),
            j <= t@.len(),
            forall|k: int| 0 <= k < j ==> lower_char(s@[i + k]) == t@[k],
        decreases t@.len() - j,
    {
        assert(i + j < s@.len());
        if lower_char_exec(s[i + j]) != t[j] {
            return false;
        }
        j = j + 1;
    }
    true
}

fn occurs_exec(s: &Vec<char>, t: &[char]) -> (r: bool)
    ensures
        r == occurs(s@, t@),
{
    let mut i: usize = 0;
    while i < s.len()
        invariant
            i <= s@.len(),
            forall|k: int| 0 <= k < i ==> !occurs_at(s@, t@, k),
        decreases s@.len() - i,
    {
        if occurs_at_exec(s, t, i) {
            return true;
        }
        i = i + 1;
    }
    if occurs_at_exec(s, t, i) {
        return true;
    }
    assert forall|k: int| !occurs_at(s@, t@, k) by {
        if 0 <= k && k <= i {
        }
    }
    false
}

/// Whether `command` takes byte immediates, so that small numbers are bytes.
pub fn expects_bytes(command: &str) -> (r: bool)
    ensures
        r == byte_sized(command@),
{
    let cmd = chars_of(command);
    let n = cmd.len();
    let suffix = n >= 2 && occurs_at_exec(&cmd, &['.', 'b'], n - 2);
    proof {
        assert(['.', 'b']@ == seq!['.', 'b']);
        if n < 2 {
            assert(!occurs_at(cmd@, seq!['.', 'b'], n - 2));
        }
    }
    suffix || occurs_exec(&cmd, &['m', 'c', 'p', 'y']) || occurs_exec(&cmd, &['m', 's', 'w', 'p'])
        || occurs_exec(&cmd, &['j', 'b', 'c']) || occurs_exec(&cmd, &['j', 'b', 's'])
        || occurs_exec(&cmd, &['j', 'r', 'f']) || occurs_exec(&cmd, &['j', 'r', 'b'])
}

} // verus!
