use vstd::prelude::*;

verus! {

/// Where the "<" button leads from position `i`: one step back, stopping at the first image.
pub open spec fn step_back(i: nat) -> nat {
    if i > 0 { (i - 1) as nat } else { 0 }
}

/// Where the ">" button leads from position `i` in a list of `len` images:
/// one step forward, stopping at the last image.
pub open spec fn step_forward(i: nat, len: nat) -> nat {
    if i + 1 < len { i + 1 } else { i }
}

/// The position of the image on show within the list of discovered images.
pub struct Selection {
    index: usize,
    len: usize,
}

impl Selection {
    pub closed spec fn index_spec(&self) -> nat {
        self.index as nat
    }

    pub closed spec fn len_spec(&self) -> nat {
        self.len as nat
    }

    /// The position is inside the list whenever the list holds any image.
    pub open spec fn wf(&self) -> bool {
        self.len_spec() == 0 || self.index_spec() < self.len_spec()
    }

    /// A selection at the first of `len` images.
    pub fn new(len: usize) -> (r: Selection)
        ensures
            r.wf(),
            r.index_spec() == 0,
            r.len_spec() == len,
    {
        Selection { index: 0, len }
    }

    pub fn index(&self) -> (r: usize)
        ensures
            r == self.index_spec(),
    {
        self.index
    }

    pub fn len(&self) -> (r: usize)
        ensures
            r == self.len_spec(),
    {
        self.len
    }

    /// The "<" button.
    pub fn step_back(&mut self)
        requires
            old(self).wf(),
        ensures
            final(self).wf(),
            final(self).len_spec() == old(self).len_spec(),
            final(self).index_spec() == step_back(old(self).index_spec()),
    {
        if self.index > 0 {
            self.index = self.index - 1;
        }
    }

    /// The ">" button.
    pub fn step_forward(&mut self)
        requires
            old(self).wf(),
        ensures
            final(self).wf(),
            final(self).len_spec() == old(self).len_spec(),
            final(self).index_spec() == step_forward(old(self).index_spec(), old(self).len_spec()),
    {
        if self.len > 0 && self.index < self.len - 1 {
            self.index = self.index + 1;
        }
    }
}

/// Where `n` presses of "<" lead from position `i`.
pub open spec fn back_times(i: nat, n: nat) -> nat
    decreases n,
{
    if n == 0 { i } else { step_back(back_times(i, (n - 1) as nat)) }
}

/// Where `n` presses of ">" lead from position `i` in a list of `len` images.
pub open spec fn forward_times(i: nat, len: nat, n: nat) -> nat
    decreases n,
{
    if n == 0 { i } else { step_forward(forward_times(i, len, (n - 1) as nat), len) }
}

/// Pressing "<" any number of times from a position inside the list goes back
/// one place per press and stops at the first image: the position never leaves
/// the list and never goes below zero.
pub proof fn lemma_back_times(i: nat, len: nat, n: nat)
    requires
        i < len,
    ensures
        back_times(i, n) == if n <= i { (i - n) as nat } else { 0 },
        0 <= back_times(i, n) < len,
    decreases n,
{
    if n > 0 {
        lemma_back_times(i, len, (n - 1) as nat);
    }
}

/// Pressing ">" any number of times from a position inside the list goes
/// forward one place per press and stops at the last image: the position
/// never reaches the length of the list.
pub proof fn lemma_forward_times(i: nat, len: nat, n: nat)
    requires
        i < len,
    ensures
        forward_times(i, len, n) == if i + n < len { i + n } else { (len - 1) as nat },
        forward_times(i, len, n) < len,
    decreases n,
{
    if n > 0 {
        lemma_forward_times(i, len, (n - 1) as nat);
    }
}

} // verus!
