use vstd::prelude::*;

verus! {

/// Raw image layout values.
pub const LAYOUT_UNDEFINED: i32 = 0;

pub const LAYOUT_SHADER_READ_ONLY_OPTIMAL: i32 = 5;

pub const LAYOUT_TRANSFER_DST_OPTIMAL: i32 = 7;

/// Raw access flag bits.
pub const ACCESS_SHADER_READ: u32 = 0x20;

pub const ACCESS_TRANSFER_WRITE: u32 = 0x1000;

/// Raw pipeline stage flag bits.
pub const STAGE_TOP_OF_PIPE: u32 = 0x1;

pub const STAGE_FRAGMENT_SHADER: u32 = 0x80;

pub const STAGE_TRANSFER: u32 = 0x1000;

/// The access masks and stages of an image memory barrier.
#[derive(Clone, Copy, Debug, PartialEq, Eq, Structural)]
pub struct LayoutBarrier {
    pub src_access: u32,
    pub dst_access: u32,
    pub src_stage: u32,
    pub dst_stage: u32,
}

/// The barrier for moving a texture between layouts: from undefined to
/// transfer destination before the upload, from transfer destination to
/// shader-readable after it. Any other pair is not supported.
pub fn layout_transition(old_layout: i32, new_layout: i32) -> (r: Option<LayoutBarrier>)
    ensures
        r == if old_layout == LAYOUT_UNDEFINED && new_layout == LAYOUT_TRANSFER_DST_OPTIMAL {
            Some(
                LayoutBarrier {
                    src_access: 0,
                    dst_access: ACCESS_TRANSFER_WRITE,
                    src_stage: STAGE_TOP_OF_PIPE,
                    dst_stage: STAGE_TRANSFER,
                },
            )
        } else if old_layout == LAYOUT_TRANSFER_DST_OPTIMAL && new_layout
            == LAYOUT_SHADER_READ_ONLY_OPTIMAL {
            Some(
                LayoutBarrier {
                    src_access: ACCESS_TRANSFER_WRITE,
                    dst_access: ACCESS_SHADER_READ,
                    src_stage: STAGE_TRANSFER,
                    dst_stage: STAGE_FRAGMENT_SHADER,
                },
            )
        } else {
            None
        },
{
    if old_layout == LAYOUT_UNDEFINED && new_layout == LAYOUT_TRANSFER_DST_OPTIMAL {
        Some(
            LayoutBarrier {
                src_access: 0,
                dst_access: ACCESS_TRANSFER_WRITE,
                src_stage: STAGE_TOP_OF_PIPE,
                dst_stage: STAGE_TRANSFER,
            },
        )
    } else if old_layout == LAYOUT_TRANSFER_DST_OPTIMAL && new_layout
        == LAYOUT_SHADER_READ_ONLY_OPTIMAL {
        Some(
            LayoutBarrier {
                src_access: ACCESS_TRANSFER_WRITE,
                dst_access: ACCESS_SHADER_READ,
                src_stage: STAGE_TRANSFER,
                dst_stage: STAGE_FRAGMENT_SHADER,
            },
        )
    } else {
        None
    }
}

} // verus!
