//! The iteration space of a task and the GPU workgroup layout derived from it.
use vstd::prelude::*;

verus! {

/// How many dimensions an extent of `y` by `z` (after `x`) spans: a `z` above one makes it
/// three-dimensional, otherwise a `y` above one makes it two-dimensional.
pub open spec fn dimensions_of(y: nat, z: nat) -> nat {
    if z > 1 {
        3
    } else if y > 1 {
        2
    } else {
        1
    }
}

/// Ceiling of `a / b`.
pub open spec fn div_ceil(a: nat, b: nat) -> nat {
    if a % b == 0 {
        a / b
    } else {
        a / b + 1
    }
}

/// The number of invocations of the shader along each axis; every extent is at least one.
pub struct IterationSpace {
    x: usize,
    y: usize,
    z: usize,
}

impl View for IterationSpace {
    type V = (nat, nat, nat);

    closed spec fn view(&self) -> (nat, nat, nat) {
        (self.x as nat, self.y as nat, self.z as nat)
    }
}

impl IterationSpace {
    #[verifier::type_invariant]
    closed spec fn extents_positive(self) -> bool {
        &&& self.x >= 1
        &&& self.y >= 1
        &&& self.z >= 1
    }

    /// The number of dimensions this space spans.
    pub open spec fn dims(self) -> nat {
        dimensions_of(self@.1, self@.2)
    }

    pub fn new(x: usize, y: usize, z: usize) -> (r: Self)
        requires
            x >= 1,
            y >= 1,
            z >= 1,
        ensures
            r@ == (x as nat, y as nat, z as nat),
    {
        IterationSpace { x, y, z }
    }

    /// An iteration space of the given extents, or `None` when one of them is zero.
    pub fn try_new(x: usize, y: usize, z: usize) -> (r: Option<Self>)
        ensures
            r is Some <==> x >= 1 && y >= 1 && z >= 1,
            r matches Some(s) ==> s@ == (x as nat, y as nat, z as nat),
    {
        if x >= 1 && y >= 1 && z >= 1 {
            Some(IterationSpace::new(x, y, z))
        } else {
            None
        }
    }

    pub fn x(&self) -> (r: usize)
        ensures
            r == self@.0,
            r >= 1,
    {
        proof {
            use_type_invariant(self);
        }
        self.x
    }

    pub fn y(&self) -> (r: usize)
        ensures
            r == self@.1,
            r >= 1,
    {
        proof {
            use_type_invariant(self);
        }
        self.y
    }

    pub fn z(&self) -> (r: usize)
        ensures
            r == self@.2,
            r >= 1,
    {
        proof {
            use_type_invariant(self);
        }
        self.z
    }

    /// The number of dimensions, one to three.
    pub fn num_dimmensions(&self) -> (r: usize)
        ensures
            r == self.dims(),
            1 <= r <= 3,
    {
        if self.z > 1 {
            3
        } else if self.y > 1 {
            2
        } else {
            1
        }
    }
}

impl Clone for IterationSpace {
    fn clone(&self) -> (r: Self)
        ensures
            r@ == self@,
    {
        proof {
            use_type_invariant(self);
        }
        IterationSpace { x: self.x, y: self.y, z: self.z }
    }
}

/// The workgroup size along each axis, fixed by the number of dimensions of the iteration space.
#[derive(Clone, Copy, Debug)]
pub struct GpuWorkgroupSizes {
    x: usize,
    y: usize,
    z: usize,
    num_dimmensions: usize,
}

impl View for GpuWorkgroupSizes {
    /// The sizes along x, y and z, and the number of dimensions they were chosen for.
    type V = (nat, nat, nat, nat);

    closed spec fn view(&self) -> (nat, nat, nat, nat) {
        (self.x as nat, self.y as nat, self.z as nat, self.num_dimmensions as nat)
    }
}

/// The workgroup sizes that the generated shader declares for a space of `dims` dimensions:
/// 64 by 1 by 1, 8 by 8 by 1, or 4 by 4 by 4.
pub open spec fn workgroup_sizes_for(dims: nat) -> (nat, nat, nat, nat) {
    if dims == 1 {
        (64, 1, 1, 1)
    } else if dims == 2 {
        (8, 8, 1, 2)
    } else {
        (4, 4, 4, 3)
    }
}

impl GpuWorkgroupSizes {
    #[verifier::type_invariant]
    closed spec fn sizes_positive(self) -> bool {
        &&& self.x >= 1
        &&& self.y >= 1
        &&& self.z >= 1
    }

    pub fn from_iter_space(iter_space: &IterationSpace) -> (r: Self)
        ensures
            r@ == workgroup_sizes_for(iter_space.dims()),
    {
        let dims = iter_space.num_dimmensions();
        if dims == 1 {
            GpuWorkgroupSizes { x: 64, y: 1, z: 1, num_dimmensions: 1 }
        } else if dims == 2 {
            GpuWorkgroupSizes { x: 8, y: 8, z: 1, num_dimmensions: 2 }
        } else {
            GpuWorkgroupSizes { x: 4, y: 4, z: 4, num_dimmensions: 3 }
        }
    }

    pub fn x(&self) -> (r: usize)
        ensures
            r == self@.0,
            r >= 1,
    {
        proof {
            use_type_invariant(self);
        }
        self.x
    }

    pub fn y(&self) -> (r: usize)
        ensures
            r == self@.1,
            r >= 1,
    {
        proof {
            use_type_invariant(self);
        }
        self.y
    }

    pub fn z(&self) -> (r: usize)
        ensures
            r == self@.2,
            r >= 1,
    {
        proof {
            use_type_invariant(self);
        }
        self.z
    }

    pub fn num_dimmensions(&self) -> (r: usize)
        ensures
            r == self@.3,
    {
        self.num_dimmensions
    }
}

/// The number of workgroups dispatched along each axis.
#[derive(Clone, Copy, Debug, PartialEq, Eq, Structural)]
pub struct GpuWorkgroupSpace {
    pub x: usize,
    pub y: usize,
    pub z: usize,
}

/// The number of workgroups needed to cover `space` with groups of `sizes`: the ceiling of each
/// extent divided by the group size along that axis.
pub open spec fn workgroup_space_for(space: (nat, nat, nat), sizes: (nat, nat, nat, nat)) -> GpuWorkgroupSpace {
    GpuWorkgroupSpace {
        x: div_ceil(space.0, sizes.0) as usize,
        y: div_ceil(space.1, sizes.1) as usize,
        z: div_ceil(space.2, sizes.2) as usize,
    }
}

fn ceil_div(a: usize, b: usize) -> (r: usize)
    requires
        b >= 1,
    ensures
        r == div_ceil(a as nat, b as nat),
{
    let q = a / b;
    if a % b == 0 {
        q
    } else {
        assert(q < a) by (nonlinear_arith)
            requires
                q == a / b,
                b >= 1,
                a % b != 0,
        ;
        q + 1
    }
}

impl GpuWorkgroupSpace {
    pub fn from_iter_space_and_wrkgrp_sizes(
        iter_space: &IterationSpace,
        wg_sizes: &GpuWorkgroupSizes,
    ) -> (r: Self)
        ensures
            r == workgroup_space_for(iter_space@, wg_sizes@),
    {
        GpuWorkgroupSpace {
            x: ceil_div(iter_space.x(), wg_sizes.x()),
            y: ceil_div(iter_space.y(), wg_sizes.y()),
            z: ceil_div(iter_space.z(), wg_sizes.z()),
        }
    }
}

/// The workgroups cover the iteration space along each axis, with no workgroup to spare:
/// `n` workgroups of size `w` reach at least `extent`, and `n - 1` of them fall short of it.
pub proof fn lemma_workgroups_cover(extent: nat, size: nat)
    requires
        size >= 1,
    ensures
        div_ceil(extent, size) * size >= extent,
        div_ceil(extent, size) >= 1 ==> (div_ceil(extent, size) - 1) * size < extent,
{
    let q = extent / size;
    let r = extent % size;
    assert(extent == q * size + r && 0 <= r < size) by (nonlinear_arith)
        requires
            size >= 1,
            q == extent / size,
            r == extent % size,
    ;
    if r == 0 {
        assert(div_ceil(extent, size) == q);
        assert(q >= 1 ==> (q - 1) * size < extent) by (nonlinear_arith)
            requires
                extent == q * size,
                size >= 1,
        ;
    } else {
        assert(div_ceil(extent, size) == q + 1);
        assert((q + 1) * size >= extent) by (nonlinear_arith)
            requires
                extent == q * size + r,
                r < size,
        ;
    }
}

} // verus!
