use wgpu_conv::dimension::{
    check_texture_dimension_size, Extent3d, Limits, TextureDimension, TextureDimensionError,
    TextureErrorDimension,
};

fn limits() -> Limits {
    Limits {
        max_texture_dimension_1d: 8192,
        max_texture_dimension_2d: 8192,
        max_texture_dimension_3d: 2048,
        max_texture_array_layers: 2048,
    }
}

fn extent(width: u32, height: u32, depth_or_array_layers: u32) -> Extent3d {
    Extent3d { width, height, depth_or_array_layers }
}

#[test]
fn zero_width_2d() {
    let r = check_texture_dimension_size(TextureDimension::D2, extent(0, 1, 1), 1, &limits());
    assert_eq!(r, Err(TextureDimensionError::Zero(TextureErrorDimension::X)));
}

#[test]
fn zero_height_and_depth() {
    let l = limits();
    assert_eq!(
        check_texture_dimension_size(TextureDimension::D3, extent(4, 0, 1), 1, &l),
        Err(TextureDimensionError::Zero(TextureErrorDimension::Y))
    );
    assert_eq!(
        check_texture_dimension_size(TextureDimension::D2, extent(4, 4, 0), 1, &l),
        Err(TextureDimensionError::Zero(TextureErrorDimension::Z))
    );
}

#[test]
fn width_over_2d_limit() {
    let r = check_texture_dimension_size(TextureDimension::D2, extent(8193, 8192, 1), 1, &limits());
    assert_eq!(
        r,
        Err(TextureDimensionError::LimitExceeded {
            dim: TextureErrorDimension::X,
            given: 8193,
            limit: 8192,
        })
    );
}

#[test]
fn height_of_1d_texture_over_one() {
    let r = check_texture_dimension_size(TextureDimension::D1, extent(64, 2, 1), 1, &limits());
    assert_eq!(
        r,
        Err(TextureDimensionError::LimitExceeded {
            dim: TextureErrorDimension::Y,
            given: 2,
            limit: 1,
        })
    );
}

#[test]
fn depth_of_3d_texture_over_limit() {
    let r = check_texture_dimension_size(TextureDimension::D3, extent(4, 4, 2049), 1, &limits());
    assert_eq!(
        r,
        Err(TextureDimensionError::LimitExceeded {
            dim: TextureErrorDimension::Z,
            given: 2049,
            limit: 2048,
        })
    );
}

#[test]
fn array_layers_bounded_by_layer_limit() {
    let r = check_texture_dimension_size(TextureDimension::D1, extent(4, 1, 2049), 1, &limits());
    assert_eq!(
        r,
        Err(TextureDimensionError::LimitExceeded {
            dim: TextureErrorDimension::Z,
            given: 2049,
            limit: 2048,
        })
    );
    let largest = extent(8192, 8192, 2048);
    assert_eq!(check_texture_dimension_size(TextureDimension::D2, largest, 1, &limits()), Ok(()));
}

#[test]
fn axes_checked_in_order_x_then_y() {
    let r = check_texture_dimension_size(TextureDimension::D2, extent(9000, 0, 1), 1, &limits());
    assert_eq!(
        r,
        Err(TextureDimensionError::LimitExceeded {
            dim: TextureErrorDimension::X,
            given: 9000,
            limit: 8192,
        })
    );
    let r = check_texture_dimension_size(TextureDimension::D2, extent(0, 9000, 1), 3, &limits());
    assert_eq!(r, Err(TextureDimensionError::Zero(TextureErrorDimension::X)));
}

#[test]
fn sample_count_three_rejected_everywhere() {
    for dim in [TextureDimension::D1, TextureDimension::D2, TextureDimension::D3] {
        let r = check_texture_dimension_size(dim, extent(4, 1, 1), 3, &limits());
        assert_eq!(r, Err(TextureDimensionError::InvalidSampleCount(3)));
    }
}

#[test]
fn sample_count_over_2d_ceiling() {
    let r = check_texture_dimension_size(TextureDimension::D2, extent(4, 4, 1), 64, &limits());
    assert_eq!(r, Err(TextureDimensionError::InvalidSampleCount(64)));
    let r = check_texture_dimension_size(TextureDimension::D2, extent(4, 4, 1), 32, &limits());
    assert_eq!(r, Ok(()));
}

#[test]
fn sample_count_zero_rejected() {
    let r = check_texture_dimension_size(TextureDimension::D2, extent(4, 4, 1), 0, &limits());
    assert_eq!(r, Err(TextureDimensionError::InvalidSampleCount(0)));
}

#[test]
fn multisampled_1d_and_3d_rejected() {
    let r = check_texture_dimension_size(TextureDimension::D1, extent(4, 1, 1), 4, &limits());
    assert_eq!(r, Err(TextureDimensionError::InvalidSampleCount(4)));
    let r = check_texture_dimension_size(TextureDimension::D3, extent(4, 4, 4), 2, &limits());
    assert_eq!(r, Err(TextureDimensionError::InvalidSampleCount(2)));
}

#[test]
fn single_sample_always_accepted() {
    for dim in [TextureDimension::D1, TextureDimension::D2, TextureDimension::D3] {
        let r = check_texture_dimension_size(dim, extent(16, 1, 1), 1, &limits());
        assert_eq!(r, Ok(()));
    }
}
