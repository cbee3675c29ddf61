use vstd::prelude::*;

use crate::errors::SupplyError;

verus! {

/// True when the path begins with the home-directory shorthand `~/`.
pub open spec fn has_home_prefix(path: Seq<u8>) -> bool {
    path.len() >= 2 && path[0] == 126 && path[1] == 47
}

/// A byte-for-byte copy of a byte string.
pub fn copy_bytes(v: &Vec<u8>) -> (r: Vec<u8>)
    ensures
        r@ == v@,
{
    let mut out: Vec<u8> = Vec::new();
    let mut i: usize = 0;
    while i < v.len()
        invariant
            i <= v.len(),
            out@ == v@.take(i as int),
        decreases v.len() - i,
    {
        out.push(v[i]);
        i += 1;
    }
    proof {
        assert(out@ =~= v@);
    }
    out
}

/// Expands the home-directory shorthand at the front of a path: `~/rest`
/// becomes the home directory followed by `/rest`.  A path without the
/// shorthand, or a call without a known home directory, comes back
/// unchanged.  Paths are handled as raw bytes; the caller does any reading
/// of the environment.
pub fn expand_home(path: &Vec<u8>, home: Option<&Vec<u8>>) -> (r: Vec<u8>)
    ensures
        home matches Some(h) ==> (has_home_prefix(path@) ==> r@ == h@ + path@.skip(1)),
        !(home is Some && has_home_prefix(path@)) ==> r@ == path@,
{
    let expandable = path.len() >= 2 && path[0] == 126 && path[1] == 47;
    match home {
        Some(h) => {
            if expandable {
                let mut out = copy_bytes(h);
                let mut j: usize = 1;
                while j < path.len()
                    invariant
                        1 <= j <= path.len(),
                        path@.len() >= 2,
                        out@ == h@ + path@.subrange(1, j as int),
                    decreases path.len() - j,
                {
                    out.push(path[j]);
                    j += 1;
                }
                proof {
                    assert(out@ =~= h@ + path@.skip(1));
                }
                out
            } else {
                copy_bytes(path)
            }
        },
        None => copy_bytes(path),
    }
}

/// Gate on the chain-data path: the caller reports whether the path exists,
/// and a missing path is a configuration error raised before any chain read.
pub fn require_chain_path(path_exists: bool) -> (r: Result<(), SupplyError>)
    ensures
        r is Ok <==> path_exists,
        !path_exists ==> (r matches Err(e) && e is Configuration),
{
    if path_exists {
        Ok(())
    } else {
        Err(SupplyError::Configuration)
    }
}

} // verus!
