//! The dispatch grid and the buffer sizes of a job, derived from the number of
//! input elements.

use vstd::prelude::*;

verus! {

/// Size in bytes of one element of the input and of the output vector.
pub const ELEMENT_BYTES: u64 = 4;

/// Number of workgroups along each axis of a dispatch.
#[derive(Clone, Copy, Debug, PartialEq, Eq, Structural)]
pub struct DispatchGrid {
    pub x: u32,
    pub y: u32,
    pub z: u32,
}

/// Why no plan can be made for a given number of elements.
#[derive(Clone, Copy, Debug, PartialEq, Eq, Structural)]
pub enum PlanError {
    /// The element count does not fit the x-dimension of a dispatch grid.
    TooManyElements,
}

/// The grid that runs one invocation per element: `elements` along x, one
/// along y and z.
pub open spec fn grid_for(elements: nat) -> DispatchGrid {
    DispatchGrid { x: elements as u32, y: 1, z: 1 }
}

/// Bytes taken by a buffer of `elements` elements.
pub open spec fn buffer_bytes(elements: nat) -> nat {
    elements * 4
}

/// Whether a job over `elements` elements can be dispatched as a single grid.
pub open spec fn plannable(elements: nat) -> bool {
    elements <= u32::MAX
}

/// What the host needs to know to provision and dispatch a job.
#[derive(Clone, Copy, Debug, PartialEq, Eq, Structural)]
pub struct JobPlan {
    elements: usize,
    grid: DispatchGrid,
    output_bytes: u64,
}

impl JobPlan {
    /// The plan's fields agree with each other: the grid covers each element
    /// once, and the output buffer holds one element per input element. Every
    /// plan that exists at run time is of this form.
    #[verifier::type_invariant]
    pub closed spec fn wf(&self) -> bool {
        &&& plannable(self.elements as nat)
        &&& self.grid == grid_for(self.elements as nat)
        &&& self.output_bytes == buffer_bytes(self.elements as nat)
    }

    /// Number of input elements, as a mathematical value.
    pub closed spec fn spec_elements(&self) -> usize {
        self.elements
    }

    /// The dispatch grid, as a mathematical value.
    pub closed spec fn spec_grid(&self) -> DispatchGrid {
        self.grid
    }

    /// Size of the output buffer, as a mathematical value.
    pub closed spec fn spec_output_bytes(&self) -> u64 {
        self.output_bytes
    }

    /// Plans a job over `elements` input elements.
    ///
    /// Succeeds exactly when the count fits the x-dimension of a grid.
    pub fn for_elements(elements: usize) -> (r: Result<JobPlan, PlanError>)
        ensures
            plannable(elements as nat) <==> r is Ok,
            r matches Ok(p) ==> {
                &&& p.wf()
                &&& p.spec_elements() == elements
                &&& p.spec_grid() == grid_for(elements as nat)
                &&& p.spec_output_bytes() == buffer_bytes(elements as nat)
            },
            r matches Err(e) ==> e == PlanError::TooManyElements,
    {
        if elements > 0xffff_ffff {
            return Err(PlanError::TooManyElements);
        }
        let x: u32 = elements as u32;
        let output_bytes: u64 = elements as u64 * ELEMENT_BYTES;
        Ok(JobPlan { elements, grid: DispatchGrid { x, y: 1, z: 1 }, output_bytes })
    }

    /// Number of input elements, which is also the number of output elements.
    #[verifier::when_used_as_spec(spec_elements)]
    pub fn elements(&self) -> (n: usize)
        ensures
            n == self.spec_elements(),
            plannable(self.spec_elements() as nat),
    {
        proof {
            use_type_invariant(self);
        }
        self.elements
    }

    /// In a well-formed plan the grid and the buffer size follow from the
    /// element count, which fits a grid.
    pub proof fn lemma_wf(&self)
        requires
            self.wf(),
        ensures
            plannable(self.spec_elements() as nat),
            self.spec_grid() == grid_for(self.spec_elements() as nat),
            self.spec_output_bytes() == buffer_bytes(self.spec_elements() as nat),
    {
    }

    /// The grid to dispatch.
    #[verifier::when_used_as_spec(spec_grid)]
    pub fn grid(&self) -> (g: DispatchGrid)
        ensures
            g == self.spec_grid(),
            g == grid_for(self.spec_elements() as nat),
    {
        proof {
            use_type_invariant(self);
        }
        self.grid
    }

    /// Size in bytes of the output buffer to allocate.
    #[verifier::when_used_as_spec(spec_output_bytes)]
    pub fn output_bytes(&self) -> (n: u64)
        ensures
            n == self.spec_output_bytes(),
            n == buffer_bytes(self.spec_elements() as nat),
    {
        proof {
            use_type_invariant(self);
        }
        self.output_bytes
    }
}

} // verus!
