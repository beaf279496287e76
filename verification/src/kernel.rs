//! The compute kernel of a job: its source text, its entry point, and the slots
//! at which the two buffers are bound.

use vstd::prelude::*;

verus! {

/// How a kernel may touch a bound buffer.
#[derive(Clone, Copy, Debug, PartialEq, Eq, Structural)]
pub enum Access {
    Read,
    Write,
}

/// The place of one buffer in the kernel's interface.
#[derive(Clone, Copy, Debug, PartialEq, Eq, Structural)]
pub struct Binding {
    pub group: u32,
    pub slot: u32,
    pub access: Access,
}

/// The one bind group that the kernel declares.
pub const BIND_GROUP: u32 = 0;

/// Slot of the input buffer within the bind group.
pub const INPUT_SLOT: u32 = 0;

/// Slot of the output buffer within the bind group.
pub const OUTPUT_SLOT: u32 = 1;

/// Name of the kernel's single entry point.
pub const ENTRY_POINT: &'static str = "main";

/// The kernel: for the invocation with global index `i`, it reads element `i`
/// of the input binding, takes its cosine, and writes that to element `i` of
/// the output binding. One invocation makes up a workgroup.
pub const SOURCE: &'static str = "
struct Array {
    data: [[stride(4)]] array<f32>;
};

[[group(0), binding(0)]]
var<storage, read> x: Array;

[[group(0), binding(1)]]
var<storage, write> y: Array;

[[stage(compute), workgroup_size(1, 1, 1)]]
fn main([[builtin(global_invocation_id)]] global_id: vec3<u32>) {
    let gidx = global_id.x;
    y.data[gidx] = cos(x.data[gidx]);
}
";

/// Where the input buffer is bound: readable, at the first slot.
pub fn input_binding() -> (b: Binding)
    ensures
        b == (Binding { group: BIND_GROUP, slot: INPUT_SLOT, access: Access::Read }),
{
    Binding { group: BIND_GROUP, slot: INPUT_SLOT, access: Access::Read }
}

/// Where the output buffer is bound: writable, at the second slot.
pub fn output_binding() -> (b: Binding)
    ensures
        b == (Binding { group: BIND_GROUP, slot: OUTPUT_SLOT, access: Access::Write }),
{
    Binding { group: BIND_GROUP, slot: OUTPUT_SLOT, access: Access::Write }
}

/// The name of the entry point to build the pipeline with.
pub fn entry_point() -> (name: &'static str)
    ensures
        name@ == ENTRY_POINT@,
{
    ENTRY_POINT
}

/// The kernel text to hand to the device's compiler.
pub fn source() -> (text: &'static str)
    ensures
        text@ == SOURCE@,
{
    SOURCE
}

} // verus!
