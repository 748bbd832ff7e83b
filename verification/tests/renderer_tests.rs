use oxide_engine::asset_index::{Attachment, NamedId};
use oxide_engine::descriptors::{attachment_textures, mesh_descriptor_sets, ui_descriptor_sets, DescriptorSet};
use oxide_engine::descriptors::DescriptorSet::{Attachments, Model, Parameters, ViewProjection};
use oxide_engine::device::{select_device, DeviceChoice, DeviceError, DeviceInfo, DeviceKind, QueueFamily};
use oxide_engine::frame::{AcquireOutcome, FlushOutcome, FrameState};

fn family(graphics: bool, transfer: bool, presents: bool) -> QueueFamily {
    QueueFamily { graphics, transfer, presents }
}

fn device(kind: DeviceKind, families: Vec<QueueFamily>) -> DeviceInfo {
    DeviceInfo { has_extensions: true, has_features: true, kind, families }
}

#[test]
fn discrete_gpu_preferred_over_integrated() {
    let devices = vec![
        device(DeviceKind::IntegratedGpu, vec![family(true, true, true)]),
        device(DeviceKind::DiscreteGpu, vec![family(false, true, false), family(true, true, true)]),
    ];
    let choice = select_device(&devices).unwrap();
    assert_eq!(choice, DeviceChoice { device: 1, graphics_family: 1, transfer_family: Some(0) });
    assert_eq!(choice.queue_families(), vec![1, 0]);
}

#[test]
fn first_device_of_best_kind_wins() {
    let devices = vec![
        device(DeviceKind::Cpu, vec![family(true, false, true)]),
        device(DeviceKind::IntegratedGpu, vec![family(true, false, true)]),
        device(DeviceKind::IntegratedGpu, vec![family(true, false, true)]),
    ];
    let choice = select_device(&devices).unwrap();
    assert_eq!(choice.device, 1);
    assert_eq!(choice.transfer_family, None);
    assert_eq!(choice.queue_families(), vec![0]);
}

#[test]
fn graphics_family_must_present() {
    let devices = vec![device(
        DeviceKind::DiscreteGpu,
        vec![family(true, true, false), family(true, false, true), family(false, true, false)],
    )];
    let choice = select_device(&devices).unwrap();
    assert_eq!(choice.graphics_family, 1);
    assert_eq!(choice.transfer_family, Some(0));
}

#[test]
fn devices_without_extensions_or_features_are_skipped() {
    let mut no_ext = device(DeviceKind::DiscreteGpu, vec![family(true, true, true)]);
    no_ext.has_extensions = false;
    let mut no_feat = device(DeviceKind::DiscreteGpu, vec![family(true, true, true)]);
    no_feat.has_features = false;
    let devices = vec![no_ext, no_feat, device(DeviceKind::Other, vec![family(true, false, true)])];
    assert_eq!(select_device(&devices).unwrap().device, 2);
}

#[test]
fn no_candidate_is_no_device() {
    let devices = vec![device(DeviceKind::DiscreteGpu, vec![family(true, false, false)])];
    assert_eq!(select_device(&devices), Err(DeviceError::NoDevice));
    assert_eq!(select_device(&Vec::new()), Err(DeviceError::NoDevice));
}

#[test]
fn transfer_without_graphics_is_an_error() {
    let devices = vec![
        device(DeviceKind::DiscreteGpu, vec![family(true, true, true)]),
        device(DeviceKind::Cpu, vec![family(false, true, false)]),
    ];
    assert_eq!(select_device(&devices), Err(DeviceError::NoGraphicsQueue));
}

#[test]
fn frame_pacing_follows_the_renderer_loop() {
    let mut frames = FrameState::new(3);
    assert_eq!(frames.image_count(), 3);
    assert!(!frames.take_resize_request());
    assert!(!frames.waits_on_previous());

    let image = frames.on_acquire(AcquireOutcome::Acquired { image: 2, suboptimal: false }).unwrap();
    assert_eq!(image, 2);
    assert!(!frames.waits_on_image(2));
    frames.on_flush(2, FlushOutcome::Flushed);
    assert_eq!(frames.previous_image(), 2);
    assert!(frames.waits_on_previous());
    assert!(frames.waits_on_image(2));
    assert!(!frames.take_resize_request());

    assert_eq!(frames.on_acquire(AcquireOutcome::OutOfDate), None);
    assert!(frames.take_resize_request());
    assert!(!frames.take_resize_request());

    frames.on_acquire(AcquireOutcome::Acquired { image: 0, suboptimal: true });
    frames.on_flush(0, FlushOutcome::Failed);
    assert!(!frames.waits_on_previous());
    assert!(frames.waits_on_image(2));
    assert!(frames.take_resize_request());

    frames.on_flush(1, FlushOutcome::OutOfDate);
    assert!(!frames.waits_on_image(1));
    assert!(frames.take_resize_request());

    frames.window_resized();
    assert!(frames.take_resize_request());
    assert!(!frames.take_resize_request());
}

#[test]
fn mesh_sets_follow_the_material() {
    assert_eq!(mesh_descriptor_sets(0, false), vec![ViewProjection, Model]);
    assert_eq!(mesh_descriptor_sets(2, false), vec![ViewProjection, Model, Attachments]);
    assert_eq!(mesh_descriptor_sets(0, true), vec![ViewProjection, Model, Parameters]);
    assert_eq!(mesh_descriptor_sets(1, true), vec![ViewProjection, Model, Attachments, Parameters]);
}

#[test]
fn ui_sets_follow_the_material() {
    assert_eq!(ui_descriptor_sets(0), vec![Parameters]);
    assert_eq!(ui_descriptor_sets(3), vec![Parameters, Attachments]);
}

fn texture(id: u128, name: &str) -> NamedId {
    NamedId { id, name: name.to_string() }
}

#[test]
fn attachments_bind_textures_by_id_and_default_by_name() {
    let textures = vec![texture(7, "grass"), texture(9, "default"), texture(7, "copy"), texture(11, "default")];
    let slots = vec![Attachment::Texture(7), Attachment::DefaultTexture, Attachment::Texture(11)];
    assert_eq!(attachment_textures(&slots, &textures), Some(vec![0, 1, 3]));
    assert_eq!(attachment_textures(&Vec::new(), &textures), Some(Vec::new()));
}

#[test]
fn attachment_without_texture_is_none() {
    let textures = vec![texture(7, "grass")];
    assert_eq!(attachment_textures(&vec![Attachment::Texture(8)], &textures), None);
    assert_eq!(attachment_textures(&vec![Attachment::DefaultTexture], &textures), None);
}
