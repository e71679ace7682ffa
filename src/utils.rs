//! Defaults for settings fields.
use vstd::prelude::*;

verus! {

/// The default of flags that start enabled.
pub fn default_true() -> (r: bool)
    ensures
        r,
{
    true
}

/// The default display scale, "1".
pub fn default_scale() -> (r: String)
    ensures
        r@ == seq!['1'],
{
    let r = "1".to_owned();
    proof {
        reveal_strlit("1");
    }
    assert(r@ =~= seq!['1']);
    r
}

} // verus!
