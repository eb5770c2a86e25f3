//! Validation of a texture's extent and sample count against device limits.
use vstd::prelude::*;
use crate::align::{is_pow2, is_power_of_two, lemma_zero_not_pow2};

verus! {

/// Dimensionality class of a texture.
#[derive(Clone, Copy, Debug, PartialEq, Eq, Structural)]
pub enum TextureDimension {
    D1,
    D2,
    D3,
}

/// Size of a texture: width, height, and depth or number of array layers.
#[derive(Clone, Copy, Debug, PartialEq, Eq, Structural)]
pub struct Extent3d {
    pub width: u32,
    pub height: u32,
    pub depth_or_array_layers: u32,
}

/// The device limits that bound a texture's extent.
#[derive(Clone, Copy, Debug, PartialEq, Eq, Structural)]
pub struct Limits {
    pub max_texture_dimension_1d: u32,
    pub max_texture_dimension_2d: u32,
    pub max_texture_dimension_3d: u32,
    pub max_texture_array_layers: u32,
}

/// Axis of an extent that a validation error refers to.
#[derive(Clone, Copy, Debug, PartialEq, Eq, Structural)]
pub enum TextureErrorDimension {
    X,
    Y,
    Z,
}

/// Why a texture's extent or sample count was rejected.
#[derive(Clone, Copy, Debug, PartialEq, Eq, Structural)]
pub enum TextureDimensionError {
    /// The extent is zero along this axis.
    Zero(TextureErrorDimension),
    /// The extent along `dim` is `given`, over its `limit`.
    LimitExceeded { dim: TextureErrorDimension, given: u32, limit: u32 },
    /// The sample count is zero, not a power of two, or over the class's ceiling.
    InvalidSampleCount(u32),
}

/// Per-axis bounds (x, y, z) of a texture of class `dimension`.
pub open spec fn extent_limits(dimension: TextureDimension, limits: Limits) -> (u32, u32, u32) {
    match dimension {
        TextureDimension::D1 => (limits.max_texture_dimension_1d, 1, limits.max_texture_array_layers),
        TextureDimension::D2 => (
            limits.max_texture_dimension_2d,
            limits.max_texture_dimension_2d,
            limits.max_texture_array_layers,
        ),
        TextureDimension::D3 => (
            limits.max_texture_dimension_3d,
            limits.max_texture_dimension_3d,
            limits.max_texture_dimension_3d,
        ),
    }
}

/// Largest sample count a texture of class `dimension` may have.
pub open spec fn sample_limit(dimension: TextureDimension) -> u32 {
    match dimension {
        TextureDimension::D1 => 1,
        TextureDimension::D2 => 32,
        TextureDimension::D3 => 1,
    }
}

/// Whether a sample count is acceptable for a texture of class `dimension`.
pub open spec fn valid_sample_count(dimension: TextureDimension, sample_size: u32) -> bool {
    is_pow2(sample_size as nat) && sample_size <= sample_limit(dimension)
}

/// The error for one axis, if its extent `given` is zero or over `limit`.
pub open spec fn axis_error(dim: TextureErrorDimension, given: u32, limit: u32) -> Option<
    TextureDimensionError,
> {
    if given == 0 {
        Some(TextureDimensionError::Zero(dim))
    } else if given > limit {
        Some(TextureDimensionError::LimitExceeded { dim, given, limit })
    } else {
        None
    }
}

/// Whether every axis of `extent` is non-zero and within its bound.
pub open spec fn extent_fits(dimension: TextureDimension, extent: Extent3d, limits: Limits) -> bool {
    let (lx, ly, lz) = extent_limits(dimension, limits);
    axis_error(TextureErrorDimension::X, extent.width, lx) is None
        && axis_error(TextureErrorDimension::Y, extent.height, ly) is None
        && axis_error(TextureErrorDimension::Z, extent.depth_or_array_layers, lz) is None
}

/// The outcome of validation: the first failing check in the order x axis,
/// y axis, z axis, sample count; `Ok` when none fails.
pub open spec fn dimension_check(
    dimension: TextureDimension,
    extent: Extent3d,
    sample_size: u32,
    limits: Limits,
) -> Result<(), TextureDimensionError> {
    let (lx, ly, lz) = extent_limits(dimension, limits);
    if let Some(e) = axis_error(TextureErrorDimension::X, extent.width, lx) {
        Err(e)
    } else if let Some(e) = axis_error(TextureErrorDimension::Y, extent.height, ly) {
        Err(e)
    } else if let Some(e) = axis_error(
        TextureErrorDimension::Z,
        extent.depth_or_array_layers,
        lz,
    ) {
        Err(e)
    } else if !valid_sample_count(dimension, sample_size) {
        Err(TextureDimensionError::InvalidSampleCount(sample_size))
    } else {
        Ok(())
    }
}

fn check_axis(dim: TextureErrorDimension, given: u32, limit: u32) -> (r: Result<
    (),
    TextureDimensionError,
>)
    ensures
        r matches Err(e) ==> axis_error(dim, given, limit) == Some(e),
        r is Ok <==> axis_error(dim, given, limit) is None,
{
    if given == 0 {
        return Err(TextureDimensionError::Zero(dim));
    }
    if given > limit {
        return Err(TextureDimensionError::LimitExceeded { dim, given, limit });
    }
    Ok(())
}

/// Checks that a texture of class `dimension` with this extent and sample
/// count fits the device `limits`, failing on the first violated constraint.
pub fn check_texture_dimension_size(
    dimension: TextureDimension,
    extent: Extent3d,
    sample_size: u32,
    limits: &Limits,
) -> (r: Result<(), TextureDimensionError>)
    ensures
        r == dimension_check(dimension, extent, sample_size, *limits),
{
    let (lx, ly, lz, sample_max): (u32, u32, u32, u32) = match dimension {
        TextureDimension::D1 => (
            limits.max_texture_dimension_1d,
            1,
            limits.max_texture_array_layers,
            1,
        ),
        TextureDimension::D2 => (
            limits.max_texture_dimension_2d,
            limits.max_texture_dimension_2d,
            limits.max_texture_array_layers,
            32,
        ),
        TextureDimension::D3 => (
            limits.max_texture_dimension_3d,
            limits.max_texture_dimension_3d,
            limits.max_texture_dimension_3d,
            1,
        ),
    };
    let x = check_axis(TextureErrorDimension::X, extent.width, lx);
    if x.is_err() {
        return x;
    }
    let y = check_axis(TextureErrorDimension::Y, extent.height, ly);
    if y.is_err() {
        return y;
    }
    let z = check_axis(TextureErrorDimension::Z, extent.depth_or_array_layers, lz);
    if z.is_err() {
        return z;
    }
    let power_of_two = is_power_of_two(sample_size);
    if sample_size == 0 || sample_size > sample_max || !power_of_two {
        proof {
            lemma_zero_not_pow2();
        }
        return Err(TextureDimensionError::InvalidSampleCount(sample_size));
    }
    Ok(())
}

/// A sample count of one is valid for every class: validation with it
/// succeeds exactly when the extent fits.
pub proof fn single_sample_always_valid(
    dimension: TextureDimension,
    extent: Extent3d,
    limits: Limits,
)
    ensures
        dimension_check(dimension, extent, 1, limits) is Ok <==> extent_fits(
            dimension,
            extent,
            limits,
        ),
        dimension_check(dimension, extent, 1, limits) != Err::<(), TextureDimensionError>(
            TextureDimensionError::InvalidSampleCount(1),
        ),
{
    vstd::arithmetic::power2::lemma2_to64();
    assert(is_pow2(1));
}

/// A sample count that is not a power of two is rejected for every class
/// once the extent fits.
pub proof fn non_power_of_two_sample_rejected(
    dimension: TextureDimension,
    extent: Extent3d,
    sample_size: u32,
    limits: Limits,
)
    requires
        extent_fits(dimension, extent, limits),
        !is_pow2(sample_size as nat),
    ensures
        dimension_check(dimension, extent, sample_size, limits) == Err::<
            (),
            TextureDimensionError,
        >(TextureDimensionError::InvalidSampleCount(sample_size)),
{
}

} // verus!
