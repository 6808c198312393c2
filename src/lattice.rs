//! Closed ranges of integer sample numbers. A grid of positions `n·Δx` or of
//! wave numbers `n·Δk` is the lattice of its `n`, both ends included; the
//! spacing is applied by the caller.
use vstd::prelude::*;

verus! {

/// The integers `first..=last`.
#[derive(Debug, Clone, Copy, PartialEq, Eq, Structural)]
pub struct Lattice {
    first: i64,
    last: i64,
}

impl View for Lattice {
    type V = Seq<int>;

    /// The sample numbers in increasing order.
    open spec fn view(&self) -> Seq<int> {
        Seq::new((self.spec_last() - self.spec_first() + 1) as nat, |i: int| self.spec_first() + i)
    }
}

impl Lattice {
    pub closed spec fn spec_first(&self) -> int {
        self.first as int
    }

    pub closed spec fn spec_last(&self) -> int {
        self.last as int
    }

    /// Not empty, a centre that fits in an `i32` and a radius that fits in a
    /// `u16`.
    pub open spec fn wf(&self) -> bool {
        &&& self.spec_first() <= self.spec_last()
        &&& self.spec_last() - self.spec_first() <= 2 * u16::MAX
        &&& i32::MIN - u16::MAX <= self.spec_first()
        &&& self.spec_last() <= i32::MAX + u16::MAX
    }

    /// The lattice `-half..=half`, of `2·half + 1` points centred on zero.
    pub fn symmetric(half: u16) -> (r: Lattice)
        ensures
            r.wf(),
            r.spec_first() == -(half as int),
            r.spec_last() == half as int,
            r@.len() == 2 * half + 1,
    {
        Lattice { first: -(half as i64), last: half as i64 }
    }

    /// The lattice `center - radius..=center + radius`.
    pub fn centered(center: i32, radius: u16) -> (r: Lattice)
        ensures
            r.wf(),
            r.spec_first() == center - radius,
            r.spec_last() == center + radius,
            r@.len() == 2 * radius + 1,
    {
        Lattice { first: center as i64 - radius as i64, last: center as i64 + radius as i64 }
    }

    /// The number of points.
    pub fn len(&self) -> (r: usize)
        requires
            self.wf(),
        ensures
            r == self@.len(),
    {
        (self.last - self.first) as usize + 1
    }

    /// The sample number of point `i`.
    pub fn offset(&self, i: usize) -> (r: i64)
        requires
            self.wf(),
            i < self@.len(),
        ensures
            r == self@[i as int],
    {
        self.first + i as i64
    }

    /// All sample numbers, in increasing order.
    pub fn offsets(&self) -> (r: Vec<i64>)
        requires
            self.wf(),
        ensures
            r@.len() == self@.len(),
            forall|i: int| 0 <= i < r@.len() ==> #[trigger] r@[i] == self@[i],
    {
        let n = self.len();
        let mut r: Vec<i64> = Vec::new();
        for i in 0..n
            invariant
                self.wf(),
                n == self@.len(),
                r@.len() == i,
                forall|j: int| 0 <= j < i ==> #[trigger] r@[j] == self@[j],
        {
            r.push(self.offset(i));
        }
        r
    }
}

} // verus!
