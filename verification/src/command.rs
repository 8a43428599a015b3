//! Building Redis commands from verified argument lists.

use vstd::prelude::*;
use crate::outside::{cmd_args, new_cmd, push_arg};

verus! {

/// The texts of a sequence of strings.
pub open spec fn texts(strings: Seq<String>) -> Seq<Seq<char>> {
    strings.map_values(|s: String| s@)
}

/// Appends every string of `args` to `cmd` as an argument of its own, in order.
pub fn push_args(cmd: &mut redis::Cmd, args: &[String])
    ensures
        cmd_args(*final(cmd)) == cmd_args(*old(cmd)) + texts(args@),
{
    let mut i: usize = 0;
    while i < args.len()
        invariant
            0 <= i <= args.len(),
            cmd_args(*cmd) == cmd_args(*old(cmd)) + texts(args@.take(i as int)),
        decreases args.len() - i,
    {
        push_arg(cmd, args[i].as_str());
        proof {
            assert(args@.take(i + 1) == args@.take(i as int).push(args@[i as int]));
            assert(texts(args@.take(i + 1)) =~= texts(args@.take(i as int)).push(args@[i as int]@));
        }
        i = i + 1;
    }
    proof {
        assert(args@.take(args@.len() as int) =~= args@);
    }
}

/// A command whose arguments are `name` followed by `args`.
pub fn command(name: &str, args: &[&str]) -> (cmd: redis::Cmd)
    ensures
        cmd_args(cmd) == seq![name@] + args@.map_values(|a: &str| a@),
{
    let mut cmd = new_cmd(name);
    let mut i: usize = 0;
    while i < args.len()
        invariant
            0 <= i <= args.len(),
            cmd_args(cmd) == seq![name@] + args@.take(i as int).map_values(|a: &str| a@),
        decreases args.len() - i,
    {
        push_arg(&mut cmd, args[i]);
        proof {
            assert(args@.take(i + 1) == args@.take(i as int).push(args@[i as int]));
            assert(args@.take(i + 1).map_values(|a: &str| a@)
                =~= args@.take(i as int).map_values(|a: &str| a@).push(args@[i as int]@));
        }
        i = i + 1;
    }
    proof {
        assert(args@.take(args@.len() as int) =~= args@);
    }
    cmd
}

} // verus!
