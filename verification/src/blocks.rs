//! Binding buffers to uniform blocks and shared-storage blocks.
//!
//! Both block kinds bind the same way: validate the buffer's layout against
//! the block's expected layout, reserve the lowest unused bind point of the
//! right pool, bind the buffer to that point, and route the program's block
//! to the same point. Only the target of the two emitted commands differs.

use vstd::prelude::*;
use crate::bitsfield::{Bitsfield, first_free, lemma_first_free};
use crate::commands::GlCommand;
use crate::errors::{BindError, FatalError};
use crate::reflection::UniformBlock;
use crate::values::UniformValue;

verus! {

/// Why binding `value` to `block` fails before any bind point is touched,
/// if it does: a non-block value, a layout mismatch, or an unsupported
/// non-zero buffer offset.
pub open spec fn block_verdict(name: String, value: UniformValue, block: UniformBlock)
    -> Option<BindError>
{
    match value {
        UniformValue::Block(buffer) => {
            if buffer.layout != block.layout {
                Some(BindError::UniformBlockLayoutMismatch { name })
            } else if buffer.offset_bytes != 0 {
                Some(BindError::Fatal(FatalError::NonzeroBufferOffset))
            } else {
                None
            }
        },
        _ => Some(BindError::UniformValueToBlock { name }),
    }
}

/// What a successful block bind does: reserve the lowest free bind point and
/// emit the two-step bind, the buffer to the point and the block to the
/// point.
pub open spec fn block_bind_post(
    value: UniformValue,
    block: UniformBlock,
    pts0: Seq<bool>,
    pts1: Seq<bool>,
    out0: Seq<GlCommand>,
    out1: Seq<GlCommand>,
    r: Result<Option<u64>, BindError>,
    shared_storage: bool,
) -> bool {
    match value {
        UniformValue::Block(buffer) => match first_free(pts0) {
            Some(p) => {
                &&& r == Ok::<Option<u64>, BindError>(buffer.fence)
                &&& pts1 == pts0.update(p, true)
                &&& out1 == out0.push(
                    if shared_storage {
                        GlCommand::BindSharedStorageBuffer(buffer.id, p as u16)
                    } else {
                        GlCommand::BindUniformBuffer(buffer.id, p as u16)
                    },
                ).push(
                    if shared_storage {
                        GlCommand::SetSharedStorageBlockBinding(block.binding, p as u16)
                    } else {
                        GlCommand::SetUniformBlockBinding(block.binding, p as u16)
                    },
                )
            },
            None => {
                &&& r == Err::<Option<u64>, BindError>(
                    BindError::Fatal(FatalError::BufferBindPointsExhausted),
                )
                &&& pts1 == pts0
                &&& out1 == out0
            },
        },
        _ => false,
    }
}

/// Bind `value`'s buffer to the uniform block `block`, reserving a
/// uniform-buffer bind point from `points`. Returns the buffer's
/// synchronization fence, if it carries one, for the caller to track.
pub fn bind_uniform_block(
    value: &UniformValue,
    block: UniformBlock,
    points: &mut Bitsfield,
    name: &String,
    out: &mut Vec<GlCommand>,
) -> (r: Result<Option<u64>, BindError>)
    requires
        old(points).wf(),
    ensures
        final(points).wf(),
        final(points)@.len() == old(points)@.len(),
        match block_verdict(*name, *value, block) {
            Some(e) => r == Err::<Option<u64>, BindError>(e) && final(points)@ == old(points)@
                && final(out)@ == old(out)@,
            None => block_bind_post(
                *value,
                block,
                old(points)@,
                final(points)@,
                old(out)@,
                final(out)@,
                r,
                false,
            ),
        },
{
    match value {
        UniformValue::Block(buffer) => {
            if buffer.layout != block.layout {
                return Err(BindError::UniformBlockLayoutMismatch { name: name.clone() });
            }
            if buffer.offset_bytes != 0 {
                return Err(BindError::Fatal(FatalError::NonzeroBufferOffset));
            }
            let bind_point = match points.get_unused() {
                Some(p) => p,
                None => {
                    return Err(BindError::Fatal(FatalError::BufferBindPointsExhausted));
                },
            };
            proof {
                lemma_first_free(points@);
            }
            points.set_used(bind_point);
            out.push(GlCommand::BindUniformBuffer(buffer.id, bind_point));
            out.push(GlCommand::SetUniformBlockBinding(block.binding, bind_point));
            Ok(buffer.fence)
        },
        _ => Err(BindError::UniformValueToBlock { name: name.clone() }),
    }
}

/// Bind `value`'s buffer to the shared-storage block `block`, reserving a
/// shared-storage bind point from `points`. Returns the buffer's
/// synchronization fence, if it carries one, for the caller to track.
pub fn bind_shared_storage_block(
    value: &UniformValue,
    block: UniformBlock,
    points: &mut Bitsfield,
    name: &String,
    out: &mut Vec<GlCommand>,
) -> (r: Result<Option<u64>, BindError>)
    requires
        old(points).wf(),
    ensures
        final(points).wf(),
        final(points)@.len() == old(points)@.len(),
        match block_verdict(*name, *value, block) {
            Some(e) => r == Err::<Option<u64>, BindError>(e) && final(points)@ == old(points)@
                && final(out)@ == old(out)@,
            None => block_bind_post(
                *value,
                block,
                old(points)@,
                final(points)@,
                old(out)@,
                final(out)@,
                r,
                true,
            ),
        },
{
    match value {
        UniformValue::Block(buffer) => {
            if buffer.layout != block.layout {
                return Err(BindError::UniformBlockLayoutMismatch { name: name.clone() });
            }
            if buffer.offset_bytes != 0 {
                return Err(BindError::Fatal(FatalError::NonzeroBufferOffset));
            }
            let bind_point = match points.get_unused() {
                Some(p) => p,
                None => {
                    return Err(BindError::Fatal(FatalError::BufferBindPointsExhausted));
                },
            };
            proof {
                lemma_first_free(points@);
            }
            points.set_used(bind_point);
            out.push(GlCommand::BindSharedStorageBuffer(buffer.id, bind_point));
            out.push(GlCommand::SetSharedStorageBlockBinding(block.binding, bind_point));
            Ok(buffer.fence)
        },
        _ => Err(BindError::UniformValueToBlock { name: name.clone() }),
    }
}

} // verus!
