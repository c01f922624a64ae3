//! Work shapes: how many work-items a dispatch covers and how they are
//! grouped.

use vstd::prelude::*;
use crate::error::ComputeError;

verus! {

/// A one-, two- or three-dimensional extent, counted in work-items.
#[derive(Debug, Clone, Copy, PartialEq, Eq, Structural)]
pub enum Extent {
    One(usize),
    Two(usize, usize),
    Three(usize, usize, usize),
}

/// `local` is positive and divides `global`.
pub open spec fn divides(local: int, global: int) -> bool {
    local > 0 && global % local == 0
}

/// The least multiple of `local` that is not below `extent`.
pub open spec fn round_up(extent: int, local: int) -> int
    recommends
        extent >= 0,
        local > 0,
{
    if extent % local == 0 {
        extent
    } else {
        extent - extent % local + local
    }
}

impl Extent {
    /// The number of axes.
    pub open spec fn spec_rank(self) -> int {
        match self {
            Extent::One(..) => 1,
            Extent::Two(..) => 2,
            Extent::Three(..) => 3,
        }
    }

    /// The extent along `axis`; an axis the extent does not have counts as
    /// a single work-item.
    pub open spec fn spec_along(self, axis: int) -> int {
        match self {
            Extent::One(x) => if axis == 0 { x as int } else { 1 },
            Extent::Two(x, y) => if axis == 0 { x as int } else if axis == 1 { y as int } else { 1 },
            Extent::Three(x, y, z) => if axis == 0 {
                x as int
            } else if axis == 1 {
                y as int
            } else if axis == 2 {
                z as int
            } else {
                1
            },
        }
    }

    /// `self`, taken as a local extent, tiles `global` with whole groups:
    /// both have the same number of axes, and along each of them `self` is
    /// positive and divides `global`.
    pub open spec fn tiles(self, global: Extent) -> bool {
        &&& self.spec_rank() == global.spec_rank()
        &&& divides(self.spec_along(0), global.spec_along(0))
        &&& divides(self.spec_along(1), global.spec_along(1))
        &&& divides(self.spec_along(2), global.spec_along(2))
    }

    /// `self` has as many axes as `other` and reaches at least as far along
    /// each of them.
    pub open spec fn spec_covers(self, other: Extent) -> bool {
        &&& self.spec_rank() == other.spec_rank()
        &&& self.spec_along(0) >= other.spec_along(0)
        &&& self.spec_along(1) >= other.spec_along(1)
        &&& self.spec_along(2) >= other.spec_along(2)
    }

    /// The number of axes: one, two or three.
    pub fn rank(&self) -> (r: usize)
        ensures
            r == self.spec_rank(),
    {
        match self {
            Extent::One(..) => 1,
            Extent::Two(..) => 2,
            Extent::Three(..) => 3,
        }
    }

    /// The extent along `axis`, or 1 for an axis the extent does not have.
    pub fn along(&self, axis: usize) -> (r: usize)
        ensures
            r == self.spec_along(axis as int),
    {
        match self {
            Extent::One(x) => if axis == 0 { *x } else { 1 },
            Extent::Two(x, y) => if axis == 0 { *x } else if axis == 1 { *y } else { 1 },
            Extent::Three(x, y, z) => if axis == 0 {
                *x
            } else if axis == 1 {
                *y
            } else if axis == 2 {
                *z
            } else {
                1
            },
        }
    }

    /// Whether `self` has as many axes as `other` and reaches at least as
    /// far along each of them.
    pub fn covers(&self, other: &Extent) -> (r: bool)
        ensures
            r == self.spec_covers(*other),
    {
        self.rank() == other.rank() && self.along(0) >= other.along(0) && self.along(1)
            >= other.along(1) && self.along(2) >= other.along(2)
    }

    /// An extent of `rank` axes; values for axes beyond `rank` are dropped.
    fn with_rank(rank: usize, x: usize, y: usize, z: usize) -> (r: Extent)
        requires
            1 <= rank <= 3,
        ensures
            r.spec_rank() == rank,
            r.spec_along(0) == x,
            rank >= 2 ==> r.spec_along(1) == y,
            rank >= 3 ==> r.spec_along(2) == z,
    {
        if rank == 1 {
            Extent::One(x)
        } else if rank == 2 {
            Extent::Two(x, y)
        } else {
            Extent::Three(x, y, z)
        }
    }
}

fn axis_divides(local: usize, global: usize) -> (r: bool)
    ensures
        r == divides(local as int, global as int),
{
    local != 0 && global % local == 0
}

/// Rounds `extent` up to a multiple of `local`, if that multiple fits.
fn axis_round_up(extent: usize, local: usize) -> (r: Option<usize>)
    requires
        local > 0,
    ensures
        divides(local as int, round_up(extent as int, local as int)),
        extent <= round_up(extent as int, local as int) < extent + local,
        match r {
            Some(g) => g == round_up(extent as int, local as int),
            None => round_up(extent as int, local as int) > usize::MAX,
        },
{
    let rem = extent % local;
    proof {
        lemma_round_up(extent as int, local as int);
    }
    if rem == 0 {
        Some(extent)
    } else {
        (extent - rem).checked_add(local)
    }
}

/// No multiple of `local` lies between `extent` and `extent` rounded up:
/// the rounded extent is the least multiple that is not below `extent`.
pub proof fn lemma_round_up_is_least(extent: int, local: int, multiple: int)
    requires
        extent >= 0,
        divides(local, multiple),
        multiple >= extent,
    ensures
        divides(local, round_up(extent, local)),
        extent <= round_up(extent, local) <= multiple,
{
    lemma_round_up(extent, local);
    let rounded = round_up(extent, local);
    if multiple < rounded {
        let a = multiple / local;
        let b = rounded / local;
        lemma_exact_quotient(multiple, local);
        lemma_exact_quotient(rounded, local);
        assert(a < b) by (nonlinear_arith)
            requires
                a * local < b * local,
                local > 0,
        ;
        assert((a + 1) * local <= b * local) by (nonlinear_arith)
            requires
                a + 1 <= b,
                local > 0,
        ;
        assert((a + 1) * local == a * local + local) by (nonlinear_arith);
    }
}

/// Rounding up lands on a multiple, and by less than one step.
proof fn lemma_round_up(extent: int, local: int)
    requires
        extent >= 0,
        local > 0,
    ensures
        0 <= extent % local <= extent,
        divides(local, round_up(extent, local)),
        extent <= round_up(extent, local) < extent + local,
{
    let q = extent / local;
    let rem = extent % local;
    assert(extent == q * local + rem && 0 <= rem < local && 0 <= q * local) by (nonlinear_arith)
        requires
            q == extent / local,
            rem == extent % local,
            extent >= 0,
            local > 0,
    ;
    if rem != 0 {
        assert((extent - rem + local) % local == 0) by (nonlinear_arith)
            requires
                extent - rem == q * local,
                local > 0,
        ;
    }
}

/// What a `WorkShape` stands for: the total number of work-items along
/// each axis, and the number of work-items per group along each axis.
pub struct Tiling {
    pub global: Extent,
    pub local: Extent,
}

impl Tiling {
    /// The number of work-groups along each axis.
    pub open spec fn groups(self) -> Extent {
        match self.global {
            Extent::One(x) => Extent::One((x as int / self.local.spec_along(0)) as usize),
            Extent::Two(x, y) => Extent::Two(
                (x as int / self.local.spec_along(0)) as usize,
                (y as int / self.local.spec_along(1)) as usize,
            ),
            Extent::Three(x, y, z) => Extent::Three(
                (x as int / self.local.spec_along(0)) as usize,
                (y as int / self.local.spec_along(1)) as usize,
                (z as int / self.local.spec_along(2)) as usize,
            ),
        }
    }
}

/// A global extent together with the local extent that tiles it.
#[derive(Debug, Clone, Copy, PartialEq, Eq)]
pub struct WorkShape {
    global: Extent,
    local: Extent,
}

impl View for WorkShape {
    type V = Tiling;

    closed spec fn view(&self) -> Tiling {
        Tiling { global: self.global, local: self.local }
    }
}

impl WorkShape {
    #[verifier::type_invariant]
    spec fn tiled(self) -> bool {
        self.local.tiles(self.global)
    }

    /// Pairs a global extent with a local one. A shape whose global extent
    /// is not a whole number of groups along every axis is rejected, so that
    /// no partial group is ever dispatched.
    pub fn new(global: Extent, local: Extent) -> (r: Result<WorkShape, ComputeError>)
        ensures
            match r {
                Ok(shape) => local.tiles(global) && shape@ == (Tiling { global, local }),
                Err(e) => !local.tiles(global) && e == ComputeError::InvalidWorkShape,
            },
    {
        if local.rank() == global.rank() && axis_divides(local.along(0), global.along(0))
            && axis_divides(local.along(1), global.along(1)) && axis_divides(
            local.along(2),
            global.along(2),
        ) {
            Ok(WorkShape { global, local })
        } else {
            Err(ComputeError::InvalidWorkShape)
        }
    }

    /// The smallest shape with groups of `local` that covers `extent`: along
    /// each axis the global extent is `extent` rounded up to a multiple of
    /// `local`. Work-items beyond `extent` are left for the kernel to skip.
    /// Fails if the two differ in their number of axes, if `local` is zero
    /// along an axis, or if a rounded extent does not fit in `usize`.
    pub fn covering(extent: Extent, local: Extent) -> (r: Result<WorkShape, ComputeError>)
        ensures
            match r {
                Ok(shape) => {
                    &&& Self::can_cover(extent, local)
                    &&& shape@ == (Tiling { global: Self::rounded(extent, local), local })
                    &&& shape@.global.spec_covers(extent)
                    &&& local.tiles(shape@.global)
                },
                Err(e) => !Self::can_cover(extent, local) && e == ComputeError::InvalidWorkShape,
            },
    {
        let rank = extent.rank();
        if local.rank() != rank || local.along(0) == 0 || local.along(1) == 0 || local.along(2)
            == 0 {
            return Err(ComputeError::InvalidWorkShape);
        }
        let gx = axis_round_up(extent.along(0), local.along(0));
        let gy = axis_round_up(extent.along(1), local.along(1));
        let gz = axis_round_up(extent.along(2), local.along(2));
        match (gx, gy, gz) {
            (Some(x), Some(y), Some(z)) => {
                let global = Extent::with_rank(rank, x, y, z);
                Ok(WorkShape { global, local })
            },
            _ => Err(ComputeError::InvalidWorkShape),
        }
    }

    /// `local` can be laid over `extent`: same number of axes, no empty
    /// group, and every rounded extent fits in `usize`.
    pub open spec fn can_cover(extent: Extent, local: Extent) -> bool {
        &&& local.spec_rank() == extent.spec_rank()
        &&& local.spec_along(0) > 0 && Self::rounded_along(extent, local, 0) <= usize::MAX
        &&& local.spec_along(1) > 0 && Self::rounded_along(extent, local, 1) <= usize::MAX
        &&& local.spec_along(2) > 0 && Self::rounded_along(extent, local, 2) <= usize::MAX
    }

    /// `extent` along `axis`, rounded up to a multiple of `local` there.
    pub open spec fn rounded_along(extent: Extent, local: Extent, axis: int) -> int {
        round_up(extent.spec_along(axis), local.spec_along(axis))
    }

    /// `extent` with each axis rounded up to a multiple of `local` there.
    pub open spec fn rounded(extent: Extent, local: Extent) -> Extent {
        match extent {
            Extent::One(_) => Extent::One(Self::rounded_along(extent, local, 0) as usize),
            Extent::Two(_, _) => Extent::Two(
                Self::rounded_along(extent, local, 0) as usize,
                Self::rounded_along(extent, local, 1) as usize,
            ),
            Extent::Three(_, _, _) => Extent::Three(
                Self::rounded_along(extent, local, 0) as usize,
                Self::rounded_along(extent, local, 1) as usize,
                Self::rounded_along(extent, local, 2) as usize,
            ),
        }
    }

    /// The total number of work-items along each axis.
    pub fn global(&self) -> (r: Extent)
        ensures
            r == self@.global,
    {
        self.global
    }

    /// The number of work-items per group along each axis.
    pub fn local(&self) -> (r: Extent)
        ensures
            r == self@.local,
    {
        self.local
    }

    /// The number of work-groups along each axis: the global extent divided
    /// by the local one, which leaves no remainder.
    pub fn groups(&self) -> (r: Extent)
        ensures
            r == self@.groups(),
            r.spec_along(0) * self@.local.spec_along(0) == self@.global.spec_along(0),
            r.spec_along(1) * self@.local.spec_along(1) == self@.global.spec_along(1),
            r.spec_along(2) * self@.local.spec_along(2) == self@.global.spec_along(2),
            self@.local.tiles(self@.global),
    {
        proof {
            use_type_invariant(self);
        }
        let x = self.global.along(0) / self.local.along(0);
        let y = self.global.along(1) / self.local.along(1);
        let z = self.global.along(2) / self.local.along(2);
        proof {
            lemma_exact_quotient(self.global.spec_along(0), self.local.spec_along(0));
            lemma_exact_quotient(self.global.spec_along(1), self.local.spec_along(1));
            lemma_exact_quotient(self.global.spec_along(2), self.local.spec_along(2));
        }
        Extent::with_rank(self.global.rank(), x, y, z)
    }

    /// The group counts as a device that takes three 32-bit counts wants
    /// them, with 1 for each axis the shape does not have; `None` if a
    /// count does not fit in 32 bits.
    pub fn dispatch_counts(&self) -> (r: Option<(u32, u32, u32)>)
        ensures
            match r {
                Some((x, y, z)) => {
                    &&& x * self@.local.spec_along(0) == self@.global.spec_along(0)
                    &&& y * self@.local.spec_along(1) == self@.global.spec_along(1)
                    &&& z * self@.local.spec_along(2) == self@.global.spec_along(2)
                },
                None => exists|axis: int|
                    0 <= axis < 3 && #[trigger] self@.global.spec_along(axis) > u32::MAX
                        * self@.local.spec_along(axis),
            },
    {
        let g = self.groups();
        let (x, y, z) = (g.along(0), g.along(1), g.along(2));
        if x <= u32::MAX as usize && y <= u32::MAX as usize && z <= u32::MAX as usize {
            Some((x as u32, y as u32, z as u32))
        } else {
            proof {
                let bad = if x > u32::MAX { 0int } else if y > u32::MAX { 1int } else { 2int };
                let count = g.spec_along(bad);
                let local = self@.local.spec_along(bad);
                assert(count * local > u32::MAX * local) by (nonlinear_arith)
                    requires
                        count > u32::MAX,
                        local > 0,
                ;
            }
            None
        }
    }

    /// Whether the shape reaches over all of `extent`, so that every
    /// position of `extent` gets a work-item.
    pub fn covers(&self, extent: &Extent) -> (r: bool)
        ensures
            r == self@.global.spec_covers(*extent),
    {
        self.global.covers(extent)
    }
}

/// Where the divisor divides, quotient times divisor gives the dividend
/// back.
proof fn lemma_exact_quotient(global: int, local: int)
    requires
        divides(local, global),
    ensures
        (global / local) * local == global,
{
    assert((global / local) * local == global) by (nonlinear_arith)
        requires
            local > 0,
            global % local == 0,
    ;
}

} // verus!
