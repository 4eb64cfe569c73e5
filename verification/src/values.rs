//! Caller-supplied uniform values, reflected uniform types, and the
//! compatibility check between the two.
//!
//! Scalar, vector and matrix payloads are carried as IEEE-754 bit patterns
//! (`u32`): the binding layer never interprets them, it only routes them to
//! the right uniform location, so the bits are opaque data here.

use vstd::prelude::*;

verus! {

/// How texture coordinates outside `[0, 1]` are handled on one axis.
#[derive(Clone, Copy, PartialEq, Eq, Structural, Debug)]
pub enum SamplerWrapFunction {
    Repeat,
    Mirror,
    Clamp,
}

/// Filter applied when a texture is minified.
#[derive(Clone, Copy, PartialEq, Eq, Structural, Debug)]
pub enum MinifySamplerFilter {
    Nearest,
    Linear,
    NearestMipmapNearest,
    LinearMipmapNearest,
    NearestMipmapLinear,
    LinearMipmapLinear,
}

/// Filter applied when a texture is magnified.
#[derive(Clone, Copy, PartialEq, Eq, Structural, Debug)]
pub enum MagnifySamplerFilter {
    Nearest,
    Linear,
}

/// A value-comparable descriptor of sampling settings. Equal descriptors must
/// resolve to the same sampler resource, so this is the sampler-cache key.
#[derive(Clone, Copy, PartialEq, Eq, Structural, Debug)]
pub struct SamplerBehavior {
    pub wrap_x: SamplerWrapFunction,
    pub wrap_y: SamplerWrapFunction,
    pub wrap_z: SamplerWrapFunction,
    pub minify_filter: MinifySamplerFilter,
    pub magnify_filter: MagnifySamplerFilter,
    pub max_anisotropy: u16,
}

/// The binding target a texture value is sampled through: its dimensionality
/// and array/multisample shape. The many texture format classes all collapse
/// to one of these targets for binding purposes.
#[derive(Clone, Copy, PartialEq, Eq, Structural, Debug)]
pub enum TextureTarget {
    Texture1d,
    Texture2d,
    Texture3d,
    Texture1dArray,
    Texture2dArray,
    Texture2dMultisample,
    Texture2dMultisampleArray,
}

/// A buffer handed over for a uniform block or shared-storage block.
///
/// `layout` is a fingerprint of the buffer's memory layout, recorded when the
/// buffer was created; a block accepts the buffer exactly when the fingerprint
/// equals the layout the block was reflected with. `fence` is a
/// synchronization handle the buffer wants the caller to wait on, if any.
#[derive(Clone, Copy, PartialEq, Eq, Debug)]
pub struct BufferRef {
    pub id: u32,
    pub offset_bytes: usize,
    pub layout: u64,
    pub fence: Option<u64>,
}

/// A caller-supplied named value: what a shader input can be set to.
#[derive(Clone, Copy, PartialEq, Eq, Debug)]
pub enum UniformValue {
    SignedInt(i32),
    UnsignedInt(u32),
    Float(u32),
    Vec2([u32; 2]),
    Vec3([u32; 3]),
    Vec4([u32; 4]),
    Mat2([[u32; 2]; 2]),
    Mat3([[u32; 3]; 3]),
    Mat4([[u32; 4]; 4]),
    /// A texture handle, its optional sampling settings, and the target it is
    /// sampled through.
    Texture(u32, Option<SamplerBehavior>, TextureTarget),
    /// A buffer for a uniform block or shared-storage block.
    Block(BufferRef),
}

/// A raw value as programmed into a uniform location.
#[derive(Clone, Copy, PartialEq, Eq, Debug)]
pub enum RawUniformValue {
    SignedInt(i32),
    UnsignedInt(u32),
    Float(u32),
    Vec2([u32; 2]),
    Vec3([u32; 3]),
    Vec4([u32; 4]),
    Mat2([[u32; 2]; 2]),
    Mat3([[u32; 3]; 3]),
    Mat4([[u32; 4]; 4]),
}

/// The declared type of a reflected uniform.
#[derive(Clone, Copy, PartialEq, Eq, Structural, Debug)]
pub enum UniformType {
    SignedInt,
    UnsignedInt,
    Float,
    Vec2,
    Vec3,
    Vec4,
    Mat2,
    Mat3,
    Mat4,
    Sampler(TextureTarget),
}

/// Whether a supplied value can be bound to a uniform declared with type
/// `ty`. A `Block` value is usable with no plain uniform type.
pub open spec fn spec_usable_with(value: UniformValue, ty: UniformType) -> bool {
    match (value, ty) {
        (UniformValue::SignedInt(_), UniformType::SignedInt) => true,
        (UniformValue::UnsignedInt(_), UniformType::UnsignedInt) => true,
        (UniformValue::Float(_), UniformType::Float) => true,
        (UniformValue::Vec2(_), UniformType::Vec2) => true,
        (UniformValue::Vec3(_), UniformType::Vec3) => true,
        (UniformValue::Vec4(_), UniformType::Vec4) => true,
        (UniformValue::Mat2(_), UniformType::Mat2) => true,
        (UniformValue::Mat3(_), UniformType::Mat3) => true,
        (UniformValue::Mat4(_), UniformType::Mat4) => true,
        (UniformValue::Texture(_, _, target), UniformType::Sampler(t)) => target == t,
        _ => false,
    }
}

/// The raw value a plain (non-texture, non-block) uniform value is programmed
/// as, carrying the payload through unchanged.
pub open spec fn raw_of(value: UniformValue) -> Option<RawUniformValue> {
    match value {
        UniformValue::SignedInt(v) => Some(RawUniformValue::SignedInt(v)),
        UniformValue::UnsignedInt(v) => Some(RawUniformValue::UnsignedInt(v)),
        UniformValue::Float(v) => Some(RawUniformValue::Float(v)),
        UniformValue::Vec2(v) => Some(RawUniformValue::Vec2(v)),
        UniformValue::Vec3(v) => Some(RawUniformValue::Vec3(v)),
        UniformValue::Vec4(v) => Some(RawUniformValue::Vec4(v)),
        UniformValue::Mat2(v) => Some(RawUniformValue::Mat2(v)),
        UniformValue::Mat3(v) => Some(RawUniformValue::Mat3(v)),
        UniformValue::Mat4(v) => Some(RawUniformValue::Mat4(v)),
        UniformValue::Texture(_, _, _) => None,
        UniformValue::Block(_) => None,
    }
}

impl UniformValue {
    /// Whether this value can be bound to a uniform declared with type `ty`.
    pub fn is_usable_with(&self, ty: &UniformType) -> (r: bool)
        ensures
            r == spec_usable_with(*self, *ty),
    {
        match (self, ty) {
            (UniformValue::SignedInt(_), UniformType::SignedInt) => true,
            (UniformValue::UnsignedInt(_), UniformType::UnsignedInt) => true,
            (UniformValue::Float(_), UniformType::Float) => true,
            (UniformValue::Vec2(_), UniformType::Vec2) => true,
            (UniformValue::Vec3(_), UniformType::Vec3) => true,
            (UniformValue::Vec4(_), UniformType::Vec4) => true,
            (UniformValue::Mat2(_), UniformType::Mat2) => true,
            (UniformValue::Mat3(_), UniformType::Mat3) => true,
            (UniformValue::Mat4(_), UniformType::Mat4) => true,
            (UniformValue::Texture(_, _, target), UniformType::Sampler(t)) => *target == *t,
            _ => false,
        }
    }
}

} // verus!
