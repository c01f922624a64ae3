//! Kernels as the host prepares them: an entry point, a work shape, and the
//! arguments in the order in which they were bound.
//!
//! Arguments are bound by position alone. Nothing ties a bound value to the
//! parameter it lands on, so arguments bound in another order than the
//! entry point declares are accepted as they come. `matches_signature` is
//! there for a caller who knows the declared parameter kinds and wants the
//! order checked before the kernel is dispatched.

use vstd::prelude::*;
use crate::error::ComputeError;
use crate::memory::{Buffer, Image};
use crate::shape::{Extent, Tiling, WorkShape};

verus! {

/// A value that is passed to a kernel as it is, with no device object behind
/// it.
#[derive(Debug, Clone, Copy, PartialEq, Eq, Structural)]
pub enum Scalar {
    Int(i32),
    UInt(u32),
    /// A 32-bit floating-point value, given by its bit pattern.
    FloatBits(u32),
}

/// What a sampler does with coordinates outside the image.
#[derive(Debug, Clone, Copy, PartialEq, Eq, Structural)]
pub enum Addressing {
    /// Coordinates outside the image are not handled.
    Off,
    ClampToEdge,
    Clamp,
    Repeat,
    MirroredRepeat,
}

/// How a sampler reads between pixels.
#[derive(Debug, Clone, Copy, PartialEq, Eq, Structural)]
pub enum Filtering {
    Nearest,
    Linear,
}

/// How a kernel samples an image.
#[derive(Debug, Clone, Copy, PartialEq, Eq, Structural)]
pub struct Sampler {
    pub normalized_coords: bool,
    pub addressing: Addressing,
    pub filtering: Filtering,
}

/// One bound argument of a kernel.
#[derive(Debug, Clone, Copy, PartialEq, Eq)]
pub enum KernelArg {
    Buffer(Buffer),
    Image(Image),
    Scalar(Scalar),
    Sampler(Sampler),
}

/// The kind of a kernel parameter, or of the argument bound to it.
#[derive(Debug, Clone, Copy, PartialEq, Eq, Structural)]
pub enum ArgKind {
    Buffer,
    Image,
    Scalar,
    Sampler,
}

impl KernelArg {
    /// The kind of the argument.
    pub open spec fn spec_kind(self) -> ArgKind {
        match self {
            KernelArg::Buffer(_) => ArgKind::Buffer,
            KernelArg::Image(_) => ArgKind::Image,
            KernelArg::Scalar(_) => ArgKind::Scalar,
            KernelArg::Sampler(_) => ArgKind::Sampler,
        }
    }

    /// The kind of the argument.
    pub fn kind(&self) -> (r: ArgKind)
        ensures
            r == self.spec_kind(),
    {
        match self {
            KernelArg::Buffer(_) => ArgKind::Buffer,
            KernelArg::Image(_) => ArgKind::Image,
            KernelArg::Scalar(_) => ArgKind::Scalar,
            KernelArg::Sampler(_) => ArgKind::Sampler,
        }
    }
}

/// The kinds of a sequence of arguments, in the same order.
pub open spec fn kinds_of(args: Seq<KernelArg>) -> Seq<ArgKind> {
    Seq::new(args.len(), |i: int| args[i].spec_kind())
}

/// What a `Kernel` stands for: the name of an entry point, the work shape
/// it is dispatched over, and the arguments bound so far, first one first.
pub struct KernelView {
    pub entry_point: Seq<char>,
    pub shape: Tiling,
    pub args: Seq<KernelArg>,
}

/// A kernel that is being prepared for dispatch.
#[derive(Debug)]
pub struct Kernel {
    entry_point: String,
    shape: WorkShape,
    args: Vec<KernelArg>,
}

impl View for Kernel {
    type V = KernelView;

    closed spec fn view(&self) -> KernelView {
        KernelView { entry_point: self.entry_point@, shape: self.shape@, args: self.args@ }
    }
}

/// Names the entry point of a kernel and gives it its work shape. No
/// argument is bound yet. A global extent that is not a whole number of
/// groups of `local` is rejected.
pub fn build_kernel(entry_point: String, global: Extent, local: Extent) -> (r: Result<
    Kernel,
    ComputeError,
>)
    ensures
        match r {
            Ok(kernel) => {
                &&& local.tiles(global)
                &&& kernel@.entry_point == entry_point@
                &&& kernel@.shape == (Tiling { global, local })
                &&& kernel@.args.len() == 0
            },
            Err(e) => !local.tiles(global) && e == ComputeError::InvalidWorkShape,
        },
{
    match WorkShape::new(global, local) {
        Ok(shape) => Ok(Kernel { entry_point, shape, args: Vec::new() }),
        Err(e) => Err(e),
    }
}

impl Kernel {
    /// Binds `arg` to the next parameter: it goes behind the arguments bound
    /// so far, whatever its kind.
    pub fn bind_argument(&mut self, arg: KernelArg)
        ensures
            final(self)@.args == old(self)@.args.push(arg),
            final(self)@.entry_point == old(self)@.entry_point,
            final(self)@.shape == old(self)@.shape,
    {
        self.args.push(arg);
    }

    /// The name of the entry point.
    pub fn entry_point(&self) -> (r: &str)
        ensures
            r@ == self@.entry_point,
    {
        self.entry_point.as_str()
    }

    /// The work shape the kernel is dispatched over.
    pub fn shape(&self) -> (r: WorkShape)
        ensures
            r@ == self@.shape,
    {
        self.shape
    }

    /// The arguments, in the order in which they were bound.
    pub fn args(&self) -> (r: &Vec<KernelArg>)
        ensures
            r@ == self@.args,
    {
        &self.args
    }

    /// Whether the arguments bound so far are of the kinds that `params`
    /// declares, one for one and in the same order.
    pub fn matches_signature(&self, params: &Vec<ArgKind>) -> (r: bool)
        ensures
            r == (kinds_of(self@.args) == params@),
    {
        if self.args.len() != params.len() {
            return false;
        }
        let mut i: usize = 0;
        while i < self.args.len()
            invariant
                i <= self.args.len(),
                self.args.len() == params.len(),
                forall|j: int| 0 <= j < i ==> self.args@[j].spec_kind() == params@[j],
            decreases self.args.len() - i,
        {
            if self.args[i].kind() != params[i] {
                return false;
            }
            i += 1;
        }
        assert(kinds_of(self@.args) =~= params@);
        true
    }
}

} // verus!
