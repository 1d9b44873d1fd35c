use toy_render::error::DeviceFaultKind;
use toy_render::error::RenderError;
use toy_render::error::classify_fault;
use toy_render::readback::tighten_rows;
use toy_render::session::Event;
use toy_render::session::Phase;
use toy_render::session::StepAction;
use toy_render::session::step;

#[test]
fn full_chain_delivers_pixels_once() {
    let (p, a) = step(Phase::Start, Event::AdapterGranted);
    assert_eq!((p, a), (Phase::AdapterReady, StepAction::RequestDevice));
    let (p, a) = step(p, Event::DeviceGranted);
    assert_eq!((p, a), (Phase::DeviceReady, StepAction::BuildPipeline));
    let (p, a) = step(p, Event::PipelineBuilt);
    assert_eq!((p, a), (Phase::PipelineReady, StepAction::SubmitWork));
    let (p, a) = step(p, Event::WorkSubmitted);
    assert_eq!((p, a), (Phase::Submitted, StepAction::AwaitReadback));
    let (p, a) = step(p, Event::MapSucceeded);
    assert_eq!((p, a), (Phase::Finished, StepAction::DeliverPixels));
}

#[test]
fn adapter_denial_aborts_without_pixels() {
    let (p, a) = step(Phase::Start, Event::AdapterDenied);
    assert_eq!(p, Phase::Failed(RenderError::NoAdapter));
    assert_eq!(a, StepAction::Abort(RenderError::NoAdapter));
    // the failure is terminal: nothing that arrives later delivers pixels
    let (p2, a2) = step(p, Event::MapSucceeded);
    assert_eq!(p2, Phase::Failed(RenderError::NoAdapter));
    assert_eq!(a2, StepAction::Abort(RenderError::NoAdapter));
}

#[test]
fn device_denial_aborts() {
    let (p, a) = step(Phase::AdapterReady, Event::DeviceDenied);
    assert_eq!(p, Phase::Failed(RenderError::NoDevice));
    assert_eq!(a, StepAction::Abort(RenderError::NoDevice));
}

#[test]
fn shader_rejection_aborts() {
    let (p, a) = step(Phase::DeviceReady, Event::ShaderRejected);
    assert_eq!(p, Phase::Failed(RenderError::ShaderCompilation));
    assert_eq!(a, StepAction::Abort(RenderError::ShaderCompilation));
}

#[test]
fn lost_device_during_wait_aborts() {
    let (p, a) = step(Phase::Submitted, Event::MapFailed);
    assert_eq!(p, Phase::Failed(RenderError::DeviceLost));
    assert_eq!(a, StepAction::Abort(RenderError::DeviceLost));
}

#[test]
fn every_fault_kind_is_fatal() {
    let cases = [
        (DeviceFaultKind::InternalDriver, RenderError::InternalDriver),
        (DeviceFaultKind::OutOfMemory, RenderError::OutOfMemory),
        (DeviceFaultKind::Validation, RenderError::Validation),
    ];
    for (kind, err) in cases {
        assert_eq!(classify_fault(kind), err);
        let (p, a) = step(Phase::Submitted, Event::FaultRaised(kind));
        assert_eq!(p, Phase::Failed(err));
        assert_eq!(a, StepAction::Abort(err));
    }
}

#[test]
fn tighten_drops_row_padding() {
    // 2 pixels per row (8 tight bytes), pitch 16, 3 rows; pad bytes are 0xEE
    let mut data = Vec::new();
    for row in 0..3u8 {
        for i in 0..8u8 {
            data.push(10 * row + i);
        }
        for _ in 8..16 {
            data.push(0xEE);
        }
    }
    let tight = tighten_rows(&data, 2, 3, 16);
    assert_eq!(
        tight,
        vec![
            0, 1, 2, 3, 4, 5, 6, 7, //
            10, 11, 12, 13, 14, 15, 16, 17, //
            20, 21, 22, 23, 24, 25, 26, 27,
        ]
    );
}

#[test]
fn tighten_keeps_tight_rows_whole() {
    let data: Vec<u8> = (0u8..24).collect();
    let tight = tighten_rows(&data, 2, 3, 8);
    assert_eq!(tight, data);
}

#[test]
fn tighten_length_is_four_bytes_per_pixel() {
    let data = vec![7u8; 256 * 5];
    let tight = tighten_rows(&data, 13, 5, 256);
    assert_eq!(tight.len(), 4 * 13 * 5);
}
