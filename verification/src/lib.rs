use vstd::prelude::*;

pub mod cli;
pub mod config;
pub mod manager;

verus! {

/// Joins one path component onto a base path with a `/` separator.
pub fn join_path(base: &str, name: &str) -> (r: String)
    ensures
        r@ == base@ + seq!['/'] + name@,
{
    proof {
        reveal_strlit("/");
    }
    let mut out = String::from_str(base);
    out.append("/");
    out.append(name);
    proof {
        assert(out@ =~= base@ + seq!['/'] + name@);
    }
    out
}

} // verus!
