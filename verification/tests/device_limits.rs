use toy_render::context::DeviceLimits;
use toy_render::context::limits_admit;
use toy_render::context::request_limits;

#[test]
fn requested_limits_take_adapter_resolution_and_widen_push_capacity() {
    let adapter = DeviceLimits {
        max_texture_dimension_1d: 16384,
        max_texture_dimension_2d: 16384,
        max_texture_dimension_3d: 2048,
        max_push_constant_size: 0,
    };
    let requested = request_limits(&adapter);
    assert_eq!(requested.max_texture_dimension_1d, 16384);
    assert_eq!(requested.max_texture_dimension_2d, 16384);
    assert_eq!(requested.max_texture_dimension_3d, 2048);
    assert_eq!(requested.max_push_constant_size, 128);
}

#[test]
fn limits_admit_checks_image_and_parameter_block() {
    let limits = DeviceLimits {
        max_texture_dimension_1d: 8192,
        max_texture_dimension_2d: 8192,
        max_texture_dimension_3d: 2048,
        max_push_constant_size: 128,
    };
    assert!(limits_admit(&limits, 512, 512));
    assert!(limits_admit(&limits, 8192, 8192));
    assert!(!limits_admit(&limits, 8193, 512));
    assert!(!limits_admit(&limits, 512, 8193));
    let cramped = DeviceLimits { max_push_constant_size: 8, ..limits };
    assert!(!limits_admit(&cramped, 512, 512));
}
