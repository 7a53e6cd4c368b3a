//! Shell-command allow-list checking: a command is admitted only when it is
//! short enough, its program is not denied, and the working directory lies
//! under an allowed root.

use vstd::prelude::*;
use vstd::string::StringSliceAdditionalSpecFns;
use crate::text::{starts_with_sub, str_eq, str_starts_with};

verus! {

/// ASCII whitespace, the separator between a command's program and its
/// arguments.
pub open spec fn is_space(c: char) -> bool {
    c == ' ' || c == '\t' || c == '\n' || c == '\r'
}

/// Position of the first non-space character, meaningful only when one
/// exists.
pub open spec fn first_nonspace(s: Seq<char>) -> int {
    choose|i: int|
        0 <= i < s.len() && !is_space(s[i]) && (forall|k: int| 0 <= k < i ==> is_space(s[k]))
}

/// Position right after the token that starts at `st`: the first space at or
/// past `st`, or the end of the string.
pub open spec fn token_end(s: Seq<char>, st: int) -> int {
    if exists|j: int| st <= j < s.len() && is_space(s[j]) {
        choose|j: int|
            st <= j < s.len() && is_space(s[j]) && (forall|k: int| st <= k < j ==> !is_space(s[k]))
    } else {
        s.len() as int
    }
}

/// The command's program: its first whitespace-separated token, empty when
/// the command is all spaces.
pub open spec fn first_token(s: Seq<char>) -> Seq<char> {
    if forall|i: int| 0 <= i < s.len() ==> is_space(s[i]) {
        Seq::empty()
    } else {
        let st = first_nonspace(s);
        s.subrange(st, token_end(s, st))
    }
}

/// Immutable policy: denied program names, allowed working-directory roots,
/// and the longest admitted command, measured in bytes.
pub struct SecurityPolicy {
    pub denied_programs: Vec<String>,
    pub allowed_directories: Vec<String>,
    pub max_command_length: usize,
}

impl Default for SecurityPolicy {
    /// The stock policy: `rm` and `mkfs` are denied, `/home` and `/tmp` are
    /// the allowed roots, and commands are capped at 1000 bytes.
    fn default() -> (r: Self)
        ensures
            r.denied_programs@.len() == 2,
            r.denied_programs@[0]@ == "rm"@,
            r.denied_programs@[1]@ == "mkfs"@,
            r.allowed_directories@.len() == 2,
            r.allowed_directories@[0]@ == "/home"@,
            r.allowed_directories@[1]@ == "/tmp"@,
            r.max_command_length == 1000,
    {
        let mut denied: Vec<String> = Vec::new();
        denied.push(String::from_str("rm"));
        denied.push(String::from_str("mkfs"));
        let mut allowed: Vec<String> = Vec::new();
        allowed.push(String::from_str("/home"));
        allowed.push(String::from_str("/tmp"));
        SecurityPolicy { denied_programs: denied, allowed_directories: allowed, max_command_length: 1000 }
    }
}

/// Some denied program equals the token.
pub open spec fn is_denied(policy: SecurityPolicy, tok: Seq<char>) -> bool {
    exists|i: int| 0 <= i < policy.denied_programs@.len() && policy.denied_programs@[i]@ == tok
}

/// Some allowed root is a prefix of the working directory.
pub open spec fn dir_allowed(policy: SecurityPolicy, wd: Seq<char>) -> bool {
    exists|i: int|
        0 <= i < policy.allowed_directories@.len() && starts_with_sub(
            wd,
            policy.allowed_directories@[i]@,
        )
}

/// Byte length of a command, as the checker measures it.
pub open spec fn cmd_len(cmd: &str) -> usize {
    cmd.spec_bytes().len() as usize
}

/// The verdict of the checker on a command and working directory.
pub open spec fn command_allowed(policy: SecurityPolicy, cmd: &str, wd: Seq<char>) -> bool {
    &&& cmd_len(cmd) <= policy.max_command_length
    &&& !is_denied(policy, first_token(cmd@))
    &&& dir_allowed(policy, wd)
}

/// The checker around a policy.
pub struct SecurityChecker {
    pub policy: SecurityPolicy,
}

impl SecurityChecker {
    /// A checker with the stock policy.
    pub fn new() -> (r: Self)
        ensures
            r.policy.denied_programs@.len() == 2,
            r.policy.denied_programs@[0]@ == "rm"@,
            r.policy.denied_programs@[1]@ == "mkfs"@,
            r.policy.allowed_directories@.len() == 2,
            r.policy.allowed_directories@[0]@ == "/home"@,
            r.policy.allowed_directories@[1]@ == "/tmp"@,
            r.policy.max_command_length == 1000,
    {
        SecurityChecker { policy: SecurityPolicy::default() }
    }

    /// Check one command: the flag says whether it is allowed, and the
    /// message names the first rule it broke, or reads `OK`.
    pub fn is_command_allowed(&self, command: &str, working_dir: &str) -> (r: (bool, String))
        ensures
            r.0 == command_allowed(self.policy, command, working_dir@),
            cmd_len(command) > self.policy.max_command_length ==> r.1@ == "Command too long"@,
            cmd_len(command) <= self.policy.max_command_length && is_denied(
                self.policy,
                first_token(command@),
            ) ==> r.1@ == "Denied program: "@ + first_token(command@),
            cmd_len(command) <= self.policy.max_command_length && !is_denied(
                self.policy,
                first_token(command@),
            ) && !dir_allowed(self.policy, working_dir@) ==> r.1@ == "Working directory not allowed"@,
            r.0 ==> r.1@ == "OK"@,
    {
        if command.len() > self.policy.max_command_length {
            return (false, String::from_str("Command too long"));
        }
        proof {
            assert(cmd_len(command) <= self.policy.max_command_length);
        }
        let program = extract_first_token(command);
        let mut i: usize = 0;
        let n = self.policy.denied_programs.len();
        while i < n
            invariant
                n == self.policy.denied_programs@.len(),
                i <= n,
                program@ == first_token(command@),
                cmd_len(command) <= self.policy.max_command_length,
                forall|k: int| 0 <= k < i ==> self.policy.denied_programs@[k]@ != program@,
            decreases n - i,
        {
            if str_eq(self.policy.denied_programs[i].as_str(), program) {
                proof {
                    assert(self.policy.denied_programs@[i as int]@ == first_token(command@));
                    assert(is_denied(self.policy, first_token(command@)));
                }
                let mut msg = String::from_str("Denied program: ");
                msg.append(program);
                return (false, msg);
            }
            i = i + 1;
        }
        if !self.dir_is_allowed(working_dir) {
            return (false, String::from_str("Working directory not allowed"));
        }
        (true, String::from_str("OK"))
    }

    /// Does some allowed root lie at the start of the working directory?
    pub fn dir_is_allowed(&self, working_dir: &str) -> (r: bool)
        ensures
            r == dir_allowed(self.policy, working_dir@),
    {
        let mut j: usize = 0;
        let m = self.policy.allowed_directories.len();
        while j < m
            invariant
                m == self.policy.allowed_directories@.len(),
                j <= m,
                forall|k: int|
                    0 <= k < j ==> !starts_with_sub(
                        working_dir@,
                        self.policy.allowed_directories@[k]@,
                    ),
            decreases m - j,
        {
            if str_starts_with(working_dir, self.policy.allowed_directories[j].as_str()) {
                return true;
            }
            j = j + 1;
        }
        false
    }
}

/// The first whitespace-separated token of a command, as a slice of it.
fn extract_first_token(command: &str) -> (r: &str)
    ensures
        r@ == first_token(command@),
{
    let n = command.unicode_len();
    let mut st: usize = 0;
    while st < n && space_char(command.get_char(st))
        invariant
            n == command@.len(),
            st <= n,
            forall|k: int| 0 <= k < st ==> is_space(command@[k]),
        decreases n - st,
    {
        st = st + 1;
    }
    if st == n {
        let empty = command.substring_char(n, n);
        proof {
            assert(empty@ =~= first_token(command@));
        }
        return empty;
    }
    let mut en: usize = st;
    while en < n && !space_char(command.get_char(en))
        invariant
            n == command@.len(),
            st <= en <= n,
            st < n,
            !is_space(command@[st as int]),
            forall|k: int| 0 <= k < st ==> is_space(command@[k]),
            forall|k: int| st <= k < en ==> !is_space(command@[k]),
        decreases n - en,
    {
        en = en + 1;
    }
    let tok = command.substring_char(st, en);
    proof {
        let s = command@;
        assert(first_nonspace(s) == st) by {
            assert(0 <= st < s.len() && !is_space(s[st as int]) && (forall|k: int|
                0 <= k < st ==> is_space(s[k])));
            let fp = first_nonspace(s);
            assert(0 <= fp < s.len() && !is_space(s[fp]) && (forall|k: int|
                0 <= k < fp ==> is_space(s[k])));
        }
        if en < s.len() {
            assert(is_space(s[en as int]));
            assert(token_end(s, st as int) == en) by {
                let te = token_end(s, st as int);
                assert(st <= te < s.len() && is_space(s[te]) && (forall|k: int|
                    st <= k < te ==> !is_space(s[k])));
            }
        } else {
            assert(token_end(s, st as int) == en) by {
                if exists|j: int| st <= j < s.len() && is_space(s[j]) {
                    let j = choose|j: int| st <= j < s.len() && is_space(s[j]);
                    assert(!is_space(s[j]));
                }
            }
        }
        assert(tok@ == first_token(s));
    }
    tok
}

/// Is the character ASCII whitespace?
fn space_char(c: char) -> (r: bool)
    ensures
        r == is_space(c),
{
    c == ' ' || c == '\t' || c == '\n' || c == '\r'
}

} // verus!
