//! Platform-facing helpers that need no platform calls of their own. What
//! actually talks to the operating system lives in the host around the
//! library, which hands in plain values such as the running process list.

use vstd::prelude::*;

verus! {

/// The mathematical content of a process description.
#[verifier::ext_equal]
pub struct ProcessView {
    pub pid: u64,
    pub name: Seq<char>,
}

/// Basic definition of some running process.
#[derive(Debug)]
pub struct Process {
    pub pid: u64,
    pub name: String,
}

impl View for Process {
    type V = ProcessView;

    open spec fn view(&self) -> ProcessView {
        ProcessView { pid: self.pid, name: self.name@ }
    }
}

impl Process {
    /// An exact copy of this process description.
    pub fn duplicate(&self) -> (r: Self)
        ensures
            r == *self,
    {
        Process { pid: self.pid, name: self.name.clone() }
    }
}

/// Counts the wide characters before the terminating nul: the result is the
/// index of the first nul in the slice, or its whole length when none occurs.
pub fn count_u16(u16str: &[u16]) -> (r: usize)
    ensures
        r <= u16str@.len(),
        forall|j: int| 0 <= j < r ==> u16str@[j] != 0,
        r < u16str@.len() ==> u16str@[r as int] == 0,
{
    let mut pos: usize = 0;
    let n = u16str.len();
    while pos < n
        invariant
            pos <= n,
            n == u16str@.len(),
            forall|j: int| 0 <= j < pos ==> u16str@[j] != 0,
        decreases n - pos,
    {
        if u16str[pos] == 0 {
            return pos;
        }
        pos = pos + 1;
    }
    pos
}

/// Whether the system prefers dark colours. Without a platform hook this
/// cannot be observed, so the default answer is no.
pub fn is_dark_mode_active() -> (r: bool)
    ensures
        r == false,
{
    false
}

} // verus!
