//! Bootstrap decisions: invocation check and bind-address handling.
//!
//! The process must be invoked with exactly two positional arguments, the
//! flag literal `-c` and a directory path.  The bind address comes from a
//! one-line configuration file; if the file is absent the loopback default
//! is used.  Reading the arguments, changing directory and reading the file
//! are the runner's work; the decisions on the values read are made here.

use vstd::prelude::*;

verus! {

/// `s` with every newline character removed.
pub open spec fn strip_newlines_spec(s: Seq<char>) -> Seq<char>
    decreases s.len(),
{
    if s.len() == 0 {
        Seq::empty()
    } else {
        strip_newlines_spec(s.drop_last()) + (if s.last() == '\n' {
            Seq::<char>::empty()
        } else {
            seq![s.last()]
        })
    }
}

/// Remove every newline character from `s`, keeping the rest in order.
pub fn strip_newlines(s: &str) -> (r: String)
    ensures
        r@ == strip_newlines_spec(s@),
{
    let n = s.unicode_len();
    let mut out = String::new();
    let mut i: usize = 0;
    while i < n
        invariant
            i <= n,
            n == s@.len(),
            out@ == strip_newlines_spec(s@.subrange(0, i as int)),
        decreases n - i,
    {
        let c = s.get_char(i);
        if c != '\n' {
            out.append(s.substring_char(i, i + 1));
        }
        proof {
            let prefix = s@.subrange(0, i + 1);
            assert(prefix.drop_last() =~= s@.subrange(0, i as int));
            assert(prefix.last() == s@[i as int]);
            if c != '\n' {
                assert(out@ =~= strip_newlines_spec(prefix));
            } else {
                assert(out@ =~= strip_newlines_spec(prefix));
            }
        }
        i = i + 1;
    }
    proof {
        assert(s@.subrange(0, n as int) =~= s@);
    }
    out
}

/// The bind address the session uses: the configuration line with its
/// newlines removed, or the loopback default where no line could be read.
pub fn host_from_config(line: Option<String>) -> (r: String)
    ensures
        line matches Some(l) ==> r@ == strip_newlines_spec(l@),
        line is None ==> r@ == "127.0.0.1"@,
{
    match line {
        Some(l) => strip_newlines(l.as_str()),
        None => String::from_str("127.0.0.1"),
    }
}

/// The address both listeners bind: the host with port zero, so the
/// operating system assigns each an ephemeral port.
pub fn listen_addr(host: &str) -> (r: String)
    ensures
        r@ == host@ + ":0"@,
{
    String::from_str(host).concat(":0")
}

/// Whether `s` is the required flag literal `-c`.
pub fn flag_matches(s: &str) -> (b: bool)
    ensures
        b == (s@ == "-c"@),
{
    proof {
        reveal_strlit("-c");
    }
    let n = s.unicode_len();
    if n != 2 {
        return false;
    }
    if s.get_char(0) == '-' && s.get_char(1) == 'c' {
        proof {
            assert(s@ =~= "-c"@);
        }
        true
    } else {
        false
    }
}

/// Whether the invocation is acceptable: exactly two positional arguments —
/// three entries counting the program name — with the flag literal `-c`
/// first.
pub fn invocation_ok(args: &Vec<String>) -> (b: bool)
    ensures
        b == (args@.len() == 3 && args@[1]@ == "-c"@),
{
    args.len() == 3 && flag_matches(args[1].as_str())
}

} // verus!
