//! Upload planning and capacity checks for the renderers' GPU buffers.

use vstd::prelude::*;

use crate::shader::ShaderError;

verus! {

/// The size of one primitive vertex on the GPU, in bytes.
pub const VERTEX_SIZE: u64 = 36;

/// The size of the primitive globals uniform, in bytes.
pub const GLOBALS_SIZE: u64 = 16;

/// The vertex buffer the primitive renderer starts with, in bytes.
pub const INITIAL_VERTEX_CAPACITY: u64 = 64;

#[derive(Debug, PartialEq, Eq)]
pub enum RendererError {
    Shader(ShaderError),
    Scene(SceneRendererError),
    Ui(UiRendererError),
    UnconfiguredSurface,
    VertexCountTooLarge { count: usize, maximum: u32 },
    VertexByteSizeOverflow { count: usize },
    VertexBufferLimitExceeded { required: u64, maximum: u64 },
}

#[derive(Debug, PartialEq, Eq)]
pub enum SceneRendererError {
    Shader(ShaderError),
    UnconfiguredSurface,
    InvalidWorldCount { actual: usize, expected: usize },
    InstanceCapacity { kind: &'static str, actual: usize, maximum: usize },
}

#[derive(Debug, PartialEq, Eq)]
pub enum UiRendererError {
    Shader(ShaderError),
    UnconfiguredSurface,
    InstanceCapacity { kind: &'static str, actual: usize, maximum: usize },
    InstanceBufferLimitExceeded { kind: &'static str, required: u64, maximum: u64 },
}

/// Refuses more scene instances of `kind` than the renderer holds.
pub fn check_capacity(kind: &'static str, actual: usize, maximum: usize) -> (result: Result<(), SceneRendererError>)
    ensures
        result == (if actual > maximum {
            Err(SceneRendererError::InstanceCapacity { kind, actual, maximum })
        } else {
            Ok(())
        }),
{
    if actual > maximum {
        Err(SceneRendererError::InstanceCapacity { kind, actual, maximum })
    } else {
        Ok(())
    }
}

/// Refuses a UI instance buffer larger than the device allows.
pub fn check_device_buffer_limit(kind: &'static str, required: u64, maximum: u64) -> (result: Result<(), UiRendererError>)
    ensures
        result == (if required > maximum {
            Err(UiRendererError::InstanceBufferLimitExceeded { kind, required, maximum })
        } else {
            Ok(())
        }),
{
    if required > maximum {
        Err(UiRendererError::InstanceBufferLimitExceeded { kind, required, maximum })
    } else {
        Ok(())
    }
}

/// The smallest power of two that is at least `x`, searching upward from
/// the power of two `p`.
pub open spec fn power_of_two_from(x: nat, p: nat) -> nat
    decreases (if x > p { x - p } else { 0 }),
    when p > 0
{
    if p >= x {
        p
    } else {
        power_of_two_from(x, 2 * p)
    }
}

/// The smallest power of two that is at least `x`.
pub open spec fn next_power_of_two(x: nat) -> nat {
    power_of_two_from(x, 1)
}

/// The search for a power of two ends at or above its target.
pub proof fn lemma_power_of_two_from_covers(x: nat, p: nat)
    requires
        p > 0,
    ensures
        power_of_two_from(x, p) >= x,
        power_of_two_from(x, p) >= p,
    decreases (if x > p { x - p } else { 0 }),
{
    if p < x {
        lemma_power_of_two_from_covers(x, 2 * p);
    }
}

/// `x.checked_next_power_of_two()`: the smallest power of two at least `x`,
/// or nothing when it does not fit in a `u64`.
pub fn checked_next_power_of_two(x: u64) -> (result: Option<u64>)
    ensures
        result == (if next_power_of_two(x as nat) <= u64::MAX {
            Some(next_power_of_two(x as nat) as u64)
        } else {
            None
        }),
{
    let mut p: u64 = 1;
    while p < x
        invariant
            p > 0,
            power_of_two_from(x as nat, p as nat) == next_power_of_two(x as nat),
        decreases (if x > p { x - p } else { 0 }),
    {
        if p > u64::MAX / 2 {
            proof {
                lemma_power_of_two_from_covers(x as nat, 2 * p as nat);
                assert(power_of_two_from(x as nat, p as nat) == power_of_two_from(
                    x as nat,
                    2 * p as nat,
                ));
            }
            return None;
        }
        p = p * 2;
    }
    Some(p)
}

/// How a batch of vertices is uploaded: how many to draw, how many bytes,
/// and the new buffer capacity when the current one is too small.
#[derive(Clone, Copy, Debug, PartialEq, Eq, Structural)]
pub struct VertexUploadPlan {
    pub vertex_count: u32,
    pub byte_len: u64,
    pub new_capacity: Option<u64>,
}

/// The capacity a buffer grows to for `byte_len` bytes: the next power of
/// two when the device allows it, the exact size otherwise.
pub open spec fn grown_capacity(byte_len: nat, max_buffer_size: nat) -> nat {
    if next_power_of_two(byte_len) <= max_buffer_size {
        next_power_of_two(byte_len)
    } else {
        byte_len
    }
}

/// Plans the upload of `count` primitive vertices into a buffer of
/// `current_capacity` bytes on a device whose buffers hold at most
/// `max_buffer_size` bytes.
pub fn vertex_upload_plan(count: usize, current_capacity: u64, max_buffer_size: u64) -> (result: Result<VertexUploadPlan, RendererError>)
    ensures
        count > u32::MAX ==> result == Err::<VertexUploadPlan, RendererError>(
            RendererError::VertexCountTooLarge { count, maximum: u32::MAX },
        ),
        count <= u32::MAX && count * VERTEX_SIZE > max_buffer_size ==> result == Err::<
            VertexUploadPlan,
            RendererError,
        >(
            RendererError::VertexBufferLimitExceeded {
                required: (count * VERTEX_SIZE) as u64,
                maximum: max_buffer_size,
            },
        ),
        count <= u32::MAX && count * VERTEX_SIZE <= max_buffer_size ==> result == Ok::<
            VertexUploadPlan,
            RendererError,
        >(
            VertexUploadPlan {
                vertex_count: count as u32,
                byte_len: (count * VERTEX_SIZE) as u64,
                new_capacity: if count * VERTEX_SIZE > current_capacity {
                    Some(grown_capacity((count * VERTEX_SIZE) as nat, max_buffer_size as nat) as u64)
                } else {
                    None
                },
            },
        ),
        result matches Ok(plan) ==> (plan.new_capacity matches Some(capacity) ==> plan.byte_len
            <= capacity && capacity <= max_buffer_size),
{
    if count > 4294967295 {
        return Err(RendererError::VertexCountTooLarge { count, maximum: u32::MAX });
    }
    let vertex_count = count as u32;
    let byte_len = match (vertex_count as u64).checked_mul(VERTEX_SIZE) {
        Some(byte_len) => byte_len,
        None => return Err(RendererError::VertexByteSizeOverflow { count }),
    };
    if byte_len > max_buffer_size {
        return Err(RendererError::VertexBufferLimitExceeded { required: byte_len, maximum: max_buffer_size });
    }
    let new_capacity = if byte_len > current_capacity {
        proof {
            lemma_power_of_two_from_covers(byte_len as nat, 1);
        }
        match checked_next_power_of_two(byte_len) {
            Some(capacity) => if capacity <= max_buffer_size {
                Some(capacity)
            } else {
                Some(byte_len)
            },
            None => Some(byte_len),
        }
    } else {
        None
    };
    Ok(VertexUploadPlan { vertex_count, byte_len, new_capacity })
}

} // verus!
