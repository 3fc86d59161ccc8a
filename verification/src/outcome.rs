//! Classification of the raw return code of a fork-style primitive.

use vstd::prelude::*;

verus! {

/// Which side of a fork-style operation the current process is on.
///
/// A raw return code of zero means the code runs in the newly created
/// process; any other value means it runs in the original process and
/// carries the new process's identifier.
#[derive(Copy, Clone, Debug, PartialEq, Eq, Structural)]
pub enum ForkResult {
    /// Running in the original process; the payload is the identifier of
    /// the process that was created.
    OnParent(i32),
    /// Running in the newly created process.
    OnChild,
}

impl ForkResult {
    /// Classify a raw fork return code. Negative codes are carried through
    /// unchanged: interpreting them is the host's business, not ours.
    pub fn from_raw(res: i32) -> (r: ForkResult)
        ensures
            res == 0 ==> r == ForkResult::OnChild,
            res != 0 ==> r == ForkResult::OnParent(res),
    {
        if res == 0 {
            ForkResult::OnChild
        } else {
            ForkResult::OnParent(res)
        }
    }
}

/// Convert a decision to the host's integer truthiness convention:
/// `true` becomes 1, `false` becomes 0.
pub fn native_bool(b: bool) -> (r: i32)
    ensures
        b ==> r == 1,
        !b ==> r == 0,
{
    if b {
        1
    } else {
        0
    }
}

} // verus!
