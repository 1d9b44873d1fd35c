use toy_render::error::RenderError;
use toy_render::params::PushParams;
use toy_render::plan::build_plan;
use toy_render::plan::workgroup_count;

fn params() -> PushParams {
    PushParams { intensity_bits: 0.5f32.to_bits(), resolution_x_bits: 512.0f32.to_bits(), resolution_y_bits: 512.0f32.to_bits() }
}

#[test]
fn workgroup_count_rounds_up() {
    assert_eq!(workgroup_count(1), 1);
    assert_eq!(workgroup_count(8), 1);
    assert_eq!(workgroup_count(9), 2);
    assert_eq!(workgroup_count(512), 64);
    assert_eq!(workgroup_count(513), 65);
}

#[test]
fn plan_512_matches_reference_dimensions() {
    let p = build_plan(512, 512, params()).unwrap();
    assert_eq!(p.width, 512);
    assert_eq!(p.height, 512);
    assert_eq!(p.workgroups_x, 64);
    assert_eq!(p.workgroups_y, 64);
    assert_eq!(p.bytes_per_row, 2048);
    assert_eq!(p.rows_per_image, 512);
    assert_eq!(p.staging_bytes, 512 * 512 * 4);
    assert_eq!(p.pixel_bytes, 512 * 512 * 4);
    assert_eq!(p.params, params());
}

#[test]
fn plan_513_covers_every_pixel_and_pads_rows() {
    let p = build_plan(513, 513, params()).unwrap();
    assert_eq!(p.workgroups_x, 65);
    assert_eq!(p.workgroups_y, 65);
    assert!(8 * p.workgroups_x >= 513);
    assert!(8 * p.workgroups_y >= 513);
    assert_eq!(p.bytes_per_row, 2304);
    assert_eq!(p.bytes_per_row % 256, 0);
    assert!(p.bytes_per_row >= 4 * 513);
    assert_eq!(p.staging_bytes, 2304 * 513);
    assert_eq!(p.pixel_bytes, 4 * 513 * 513);
}

#[test]
fn plan_pixel_bytes_follow_dimensions() {
    for (w, h) in [(1u32, 1u32), (3, 7), (640, 480), (513, 2)] {
        let p = build_plan(w, h, params()).unwrap();
        assert_eq!(p.pixel_bytes, 4 * u64::from(w) * u64::from(h));
        assert!(p.pixel_bytes <= p.staging_bytes);
    }
}

#[test]
fn plan_rejects_zero_width() {
    assert_eq!(build_plan(0, 512, params()), Err(RenderError::InvalidResolution));
}

#[test]
fn plan_rejects_zero_height() {
    assert_eq!(build_plan(512, 0, params()), Err(RenderError::InvalidResolution));
}
