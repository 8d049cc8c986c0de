use vstd::prelude::*;

use crate::config::strings_view;

verus! {

/// Name of the root filesystem directory, under the working directory, used
/// when none is configured.
pub const DEFAULT_DIR_NAME: &'static str = "container-fs";

/// Hostname and group name used when none is configured.
pub const DEFAULT_CONTAINER_NAME: &'static str = "cfs-container";

/// Process limit used when none is configured, or the configured one does not parse.
pub const DEFAULT_MAX_PIDS: u8 = 20;

/// What the command line asks for.
#[derive(Debug, PartialEq, Eq)]
pub enum Invocation {
    /// Run this command line in a container.
    Run { args: Vec<String> },
    /// Too few arguments were given.
    MissingArguments,
    /// The subcommand is not known.
    Unknown { command: String },
}

/// The mathematical content of an [`Invocation`].
pub enum InvocationView {
    Run { args: Seq<Seq<char>> },
    MissingArguments,
    Unknown { command: Seq<char> },
}

impl View for Invocation {
    type V = InvocationView;

    open spec fn view(&self) -> InvocationView {
        match self {
            Invocation::Run { args } => InvocationView::Run { args: strings_view(args@) },
            Invocation::MissingArguments => InvocationView::MissingArguments,
            Invocation::Unknown { command } => InvocationView::Unknown { command: command@ },
        }
    }
}

/// How the process arguments `args` (the program name first) are read.
pub open spec fn invocation_of(args: Seq<Seq<char>>) -> InvocationView {
    if args.len() < 2 {
        InvocationView::MissingArguments
    } else if args[1] == "run"@ {
        if args.len() < 3 {
            InvocationView::MissingArguments
        } else {
            InvocationView::Run { args: args.subrange(2, args.len() as int) }
        }
    } else {
        InvocationView::Unknown { command: args[1] }
    }
}

/// Reads the process arguments, the program name first.
pub fn parse_invocation(args: &Vec<String>) -> (r: Invocation)
    ensures
        r@ == invocation_of(strings_view(args@)),
{
    if args.len() < 2 {
        return Invocation::MissingArguments;
    }
    let run = String::from_str("run");
    if args[1] != run {
        return Invocation::Unknown { command: args[1].clone() };
    }
    if args.len() < 3 {
        return Invocation::MissingArguments;
    }
    let mut rest: Vec<String> = Vec::new();
    let mut i: usize = 2;
    while i < args.len()
        invariant
            2 <= i <= args@.len(),
            rest@.len() == i - 2,
            forall|j: int| 0 <= j < rest@.len() ==> #[trigger] rest@[j]@ == args@[j + 2]@,
        decreases args@.len() - i,
    {
        rest.push(args[i].clone());
        i = i + 1;
    }
    proof {
        assert(strings_view(rest@) =~= strings_view(args@).subrange(2, args@.len() as int));
    }
    Invocation::Run { args: rest }
}

/// A setting's value: the one given, else the default; `None` when neither is.
pub fn check_var(value: Option<String>, default: Option<&str>) -> (r: Option<String>)
    ensures
        value is Some ==> r is Some && r->Some_0@ == value->Some_0@,
        value is None && default is Some ==> r is Some && r->Some_0@ == default->Some_0@,
        value is None && default is None ==> r is None,
{
    match value {
        Some(v) => Some(v),
        None => match default {
            Some(d) => Some(String::from_str(d)),
            None => None,
        },
    }
}

/// A decimal digit.
pub open spec fn is_digit(c: char) -> bool {
    '0' <= c && c <= '9'
}

/// The number that a string of decimal digits writes.
pub open spec fn digits_value(s: Seq<char>) -> nat
    decreases s.len(),
{
    if s.len() == 0 {
        0
    } else {
        digits_value(s.drop_last()) * 10 + ((s.last() as u32) - ('0' as u32)) as nat
    }
}

/// The digits of `s` once an optional leading `+` is taken off.
pub open spec fn unsigned_digits(s: Seq<char>) -> Seq<char> {
    if s.len() > 0 && s[0] == '+' {
        s.drop_first()
    } else {
        s
    }
}

/// The byte that `s` writes in decimal, as an unsigned integer parse reads it:
/// an optional `+`, then one or more digits, with a value of at most 255.
pub open spec fn parsed_u8(s: Seq<char>) -> Option<u8> {
    let d = unsigned_digits(s);
    if d.len() > 0 && (forall|i: int| 0 <= i < d.len() ==> is_digit(#[trigger] d[i]))
        && digits_value(d) <= 255 {
        Some(digits_value(d) as u8)
    } else {
        None
    }
}

/// Parses a byte in decimal.
pub fn parse_u8(s: &str) -> (r: Option<u8>)
    ensures
        r == parsed_u8(s@),
{
    let n = s.unicode_len();
    let mut i: usize = 0;
    if n > 0 && s.get_char(0) == '+' {
        i = 1;
    }
    let start = i;
    if start == n {
        return None;
    }
    let ghost d = unsigned_digits(s@);
    assert(d =~= s@.subrange(start as int, n as int));
    let mut value: u32 = 0;
    while i < n
        invariant
            start <= i <= n,
            n == s@.len(),
            d == s@.subrange(start as int, n as int),
            d == unsigned_digits(s@),
            d.len() > 0,
            forall|k: int| start <= k < i ==> is_digit(#[trigger] s@[k]),
            value <= 256,
            value == if digits_value(s@.subrange(start as int, i as int)) > 255 {
                256
            } else {
                digits_value(s@.subrange(start as int, i as int))
            },
        decreases n - i,
    {
        let c = s.get_char(i);
        if !('0' <= c && c <= '9') {
            proof {
                assert(d[i - start] == c);
                assert(!is_digit(d[i - start]));
            }
            return None;
        }
        let ghost prefix = s@.subrange(start as int, i as int);
        let ghost next = s@.subrange(start as int, i + 1);
        proof {
            assert(next.drop_last() =~= prefix);
            assert(next.last() == c);
        }
        let digit = (c as u32) - ('0' as u32);
        if value < 256 {
            value = value * 10 + digit;
            if value > 255 {
                value = 256;
            }
        }
        i = i + 1;
    }
    assert(s@.subrange(start as int, n as int) =~= d);
    if value > 255 {
        None
    } else {
        Some(value as u8)
    }
}

/// A byte setting: the given value where it parses, else the default.
pub fn check_var_u8(value: Option<&str>, default: u8) -> (r: u8)
    ensures
        r == match value {
            Some(v) => match parsed_u8(v@) {
                Some(b) => b,
                None => default,
            },
            None => default,
        },
{
    match value {
        Some(v) => match parse_u8(v) {
            Some(b) => b,
            None => default,
        },
        None => default,
    }
}

/// The text of the usage message.
pub open spec fn usage_text() -> Seq<char> {
    "usage: cfs run cmd arg1 arg2 ...\n  you can set the following environment variables:\n  CHROOT_PATH=<path to your root filesystem to run the process inside>\n  CONTAINER_NAME=<name for container hostname>"@
}

/// How to call the tool and which settings it reads.
pub fn usage() -> (r: String)
    ensures
        r@ == usage_text(),
{
    String::from_str(
        "usage: cfs run cmd arg1 arg2 ...\n  you can set the following environment variables:\n  CHROOT_PATH=<path to your root filesystem to run the process inside>\n  CONTAINER_NAME=<name for container hostname>",
    )
}

} // verus!
