use womp::apply::{
    attribute_plan, ApplyAction, ApplyEngine, ApplyError, ApplyStage, AttributeRequest,
    COMMIT_FLAGS, ESCALATED_COMMIT_FLAGS, SDC_ALLOW_CHANGES, VALIDATE_FLAGS,
};
use womp::attributes::AttributeError;
use womp::config::GlobalConfig;
use womp::reader::{
    ReadAction, ReadEvent, ReadStage, SnapshotReader, TopologyError, QDC_ALL_PATHS,
    QDC_ONLY_ACTIVE_PATHS,
};
use womp::topology::{
    AdapterName, DeviceInfoHeader, Display, DisplayLayout, GlobalInfo, Luid, ModeKind, ModeRecord,
    OptionalInfo, PathInfo, PathSourceInfo, PathTargetInfo, Rational, TargetDeviceName, WallpaperInfo,
};

fn sizes(p: u32, m: u32) -> ReadEvent {
    ReadEvent::Sizes(Ok((p, m)))
}

#[test]
fn reader_starts_with_sizes() {
    let (r, a) = SnapshotReader::new(true);
    assert_eq!(a, ReadAction::QuerySizes);
    assert_eq!(r.flags, QDC_ONLY_ACTIVE_PATHS);
    let (r, _) = SnapshotReader::new(false);
    assert_eq!(r.flags, QDC_ALL_PATHS);
}

#[test]
fn buffer_retry_twice_then_success() {
    let (mut r, _) = SnapshotReader::new(true);
    assert_eq!(r.step(sizes(2, 4)), ReadAction::QueryConfig { path_capacity: 2, mode_capacity: 4 });
    assert_eq!(r.step(ReadEvent::InsufficientBuffer), ReadAction::QuerySizes);
    assert_eq!(r.step(sizes(3, 6)), ReadAction::QueryConfig { path_capacity: 3, mode_capacity: 6 });
    assert_eq!(r.step(ReadEvent::InsufficientBuffer), ReadAction::QuerySizes);
    assert_eq!(r.step(sizes(4, 8)), ReadAction::QueryConfig { path_capacity: 4, mode_capacity: 8 });
    assert_eq!(r.step(ReadEvent::Filled { path_count: 3, mode_count: 6 }), ReadAction::Done(Ok((3, 6))));
    assert_eq!(r.retries, 2);
}

#[test]
fn buffer_retry_exhausted_after_four() {
    let (mut r, _) = SnapshotReader::new(true);
    for k in 0..3 {
        r.step(sizes(2, 4));
        assert_eq!(r.step(ReadEvent::InsufficientBuffer), ReadAction::QuerySizes, "round {k}");
    }
    r.step(sizes(2, 4));
    assert_eq!(r.step(ReadEvent::InsufficientBuffer), ReadAction::Done(Err(TopologyError::RetriesExhausted)));
    assert_eq!(r.stage, ReadStage::Finished(Err(TopologyError::RetriesExhausted)));
}

#[test]
fn buffer_other_errors_are_fatal() {
    let (mut r, _) = SnapshotReader::new(true);
    r.step(sizes(2, 4));
    assert_eq!(r.step(ReadEvent::QueryFailed(87)), ReadAction::Done(Err(TopologyError::QueryFailed(87))));
    let (mut r, _) = SnapshotReader::new(true);
    assert_eq!(r.step(ReadEvent::Sizes(Err(5))), ReadAction::Done(Err(TopologyError::SizeQueryFailed(5))));
}

#[test]
fn reader_ignores_unexpected_answers() {
    let (mut r, _) = SnapshotReader::new(true);
    assert!(!r.accepts(&ReadEvent::InsufficientBuffer));
    assert_eq!(r.step(ReadEvent::InsufficientBuffer), ReadAction::QuerySizes);
    assert_eq!(r.retries, 0);
    r.step(sizes(1, 2));
    assert!(!r.accepts(&sizes(1, 2)));
    assert_eq!(r.pending_action(), ReadAction::QueryConfig { path_capacity: 1, mode_capacity: 2 });
}

fn luid(low: u32) -> Luid {
    Luid { low_part: low, high_part: 0 }
}

fn simple_display(adapter: Luid, source_id: u32, target_id: u32, info: OptionalInfo) -> Display {
    let header = DeviceInfoHeader { kind: 2, size: 0, adapter_id: adapter, id: target_id };
    let path = PathInfo {
        source_info: PathSourceInfo { adapter_id: adapter, id: source_id, status_flags: 1, mode_info_idx: Some(1) },
        target_info: PathTargetInfo {
            adapter_id: adapter,
            id: target_id,
            output_technology: 0,
            rotation: 1,
            scaling: 1,
            refresh_rate: Rational { numerator: 60, denominator: 1 },
            scan_line_ordering: 1,
            target_available: true,
            status_flags: 1,
            mode_info_idx: Some(0),
        },
        flags: 1,
    };
    let mode = |id: u32, tag: i32| ModeRecord { id, adapter_id: adapter, kind: ModeKind::Other(tag) };
    Display::from(
        &path,
        &mode(target_id, 2),
        &mode(source_id, 1),
        &TargetDeviceName {
            header,
            flags: 0,
            output_technology: 0,
            edid_manufacture_id: 0,
            edid_product_code_id: 0,
            connector_instance: 0,
            monitor_friendly_device_name: [0u16; 64],
            monitor_device_path: [0u16; 128],
        },
        &AdapterName { header, adapter_device_path: [0u16; 128] },
        &info,
    )
}

fn info(dpi: Option<u32>, hdr_enabled: Option<bool>, hdr_supported: Option<bool>, white: Option<u32>) -> OptionalInfo {
    OptionalInfo { dpi_scale: dpi, hdr_enabled, hdr_supported, sdr_white_level: white }
}

fn profile(displays: Vec<Display>) -> DisplayLayout {
    DisplayLayout::from(displays, GlobalInfo::from(None, None, None))
}

fn engine_after_snapshot(profile_layout: &mut DisplayLayout, policy: &GlobalConfig) -> ApplyEngine {
    let (mut e, a) = ApplyEngine::new();
    assert_eq!(a, ApplyAction::TakeSnapshot);
    let live = profile_layout.clone();
    assert_eq!(e.on_snapshot(Ok(live), profile_layout, policy), ApplyAction::SetConfig { flags: VALIDATE_FLAGS });
    e
}

#[test]
fn apply_flags_values() {
    assert_eq!(VALIDATE_FLAGS, 0x60);
    assert_eq!(COMMIT_FLAGS, 0x3A0);
    assert_eq!(ESCALATED_COMMIT_FLAGS, 0x7A0);
    assert_eq!(ESCALATED_COMMIT_FLAGS, COMMIT_FLAGS | SDC_ALLOW_CHANGES);
}

#[test]
fn apply_plain_commit_succeeds() {
    let mut p = profile(vec![simple_display(luid(1), 0, 3, info(None, None, None, None))]);
    let mut e = engine_after_snapshot(&mut p, &GlobalConfig::new());
    assert_eq!(e.on_config_result(0), ApplyAction::SetConfig { flags: COMMIT_FLAGS });
    assert_eq!(e.on_config_result(0), ApplyAction::Done(Ok(())));
}

#[test]
fn apply_escalation_succeeds() {
    let mut p = profile(vec![simple_display(luid(1), 0, 3, info(None, None, None, None))]);
    let mut e = engine_after_snapshot(&mut p, &GlobalConfig::new());
    e.on_config_result(0);
    assert_eq!(e.on_config_result(31), ApplyAction::SetConfig { flags: ESCALATED_COMMIT_FLAGS });
    assert_eq!(e.on_config_result(0), ApplyAction::Done(Ok(())));
}

#[test]
fn apply_escalation_fails_with_second_error() {
    let mut p = profile(vec![simple_display(luid(1), 0, 3, info(None, None, None, None))]);
    let mut e = engine_after_snapshot(&mut p, &GlobalConfig::new());
    e.on_config_result(0);
    e.on_config_result(31);
    assert_eq!(e.on_config_result(87), ApplyAction::Done(Err(ApplyError::ApplyRejected(87))));
}

#[test]
fn apply_invalid_input_stops_before_commit() {
    let mut p = profile(vec![simple_display(luid(1), 0, 3, info(None, None, None, None))]);
    let mut e = engine_after_snapshot(&mut p, &GlobalConfig::new());
    assert_eq!(e.on_config_result(87), ApplyAction::Done(Err(ApplyError::InvalidInput(87))));
    assert_eq!(e.stage, ApplyStage::Finished(Err(ApplyError::InvalidInput(87))));
}

#[test]
fn apply_snapshot_failure_aborts() {
    let mut p = profile(vec![simple_display(luid(1), 0, 3, info(None, None, None, None))]);
    let before = p.displays.clone();
    let (mut e, _) = ApplyEngine::new();
    assert_eq!(
        e.on_snapshot(Err(TopologyError::RetriesExhausted), &mut p, &GlobalConfig::new()),
        ApplyAction::Done(Err(ApplyError::Snapshot(TopologyError::RetriesExhausted)))
    );
    assert_eq!(p.displays, before);
}

#[test]
fn apply_remaps_before_validation() {
    let mut p = profile(vec![simple_display(luid(9), 0, 3, info(None, None, None, None))]);
    let live = profile(vec![simple_display(luid(1), 0, 3, info(None, None, None, None))]);
    let (mut e, _) = ApplyEngine::new();
    e.on_snapshot(Ok(live), &mut p, &GlobalConfig::new());
    assert_eq!(p.displays[0].path_info.source_info.adapter_id, luid(1));
    assert_eq!(p.displays[0].mode_info.target_mode_info.adapter_id, luid(1));
}

#[test]
fn apply_attributes_in_order_then_done() {
    let mut policy = GlobalConfig::new();
    policy.save_dpi_scale = true;
    policy.save_hdr_state = true;
    policy.save_sdr_white_level = true;
    let mut p = profile(vec![
        simple_display(luid(1), 0, 3, info(Some(125), Some(true), Some(true), Some(200))),
        simple_display(luid(1), 1, 4, info(Some(150), Some(false), Some(false), Some(300))),
    ]);
    let mut e = engine_after_snapshot(&mut p, &policy);
    e.on_config_result(0);
    let first = e.on_config_result(0);
    assert_eq!(first, ApplyAction::ApplyAttribute(AttributeRequest::SetDpi { adapter_id: luid(1), source_id: 0, percent: 125 }));
    assert_eq!(e.on_attribute_result(Ok(())), ApplyAction::ApplyAttribute(AttributeRequest::SetDpi { adapter_id: luid(1), source_id: 1, percent: 150 }));
    assert_eq!(e.on_attribute_result(Ok(())), ApplyAction::ApplyAttribute(AttributeRequest::SetHdr { adapter_id: luid(1), target_id: 3, enable: true }));
    assert_eq!(e.on_attribute_result(Ok(())), ApplyAction::ApplyAttribute(AttributeRequest::SetWhiteLevel { adapter_id: luid(1), target_id: 3, nits: 200 }));
    assert_eq!(e.on_attribute_result(Ok(())), ApplyAction::Done(Ok(())));
}

#[test]
fn apply_first_attribute_error_ends_apply() {
    let mut policy = GlobalConfig::new();
    policy.save_dpi_scale = true;
    let mut p = profile(vec![
        simple_display(luid(1), 0, 3, info(Some(130), None, None, None)),
        simple_display(luid(1), 1, 4, info(Some(150), None, None, None)),
    ]);
    let mut e = engine_after_snapshot(&mut p, &policy);
    e.on_config_result(0);
    e.on_config_result(0);
    let err = AttributeError::DpiValueNotInTable { requested: 130, recommended: 100 };
    assert_eq!(e.on_attribute_result(Err(err)), ApplyAction::Done(Err(ApplyError::Attribute(err))));
}

#[test]
fn attribute_plan_follows_policy() {
    let wallpaper = WallpaperInfo { wallpaper_path: "C:\\w.png".to_string(), wallpaper_position: "fill".to_string() };
    let layout = DisplayLayout::from(
        vec![simple_display(luid(1), 0, 3, info(Some(125), Some(true), Some(true), Some(200)))],
        GlobalInfo::from(Some(48), Some(wallpaper), None),
    );
    assert_eq!(attribute_plan(&layout, &GlobalConfig::new()), vec![]);
    let mut policy = GlobalConfig::new();
    policy.save_icon_size = true;
    policy.save_wallpaper_info = true;
    policy.save_audio_output = true;
    assert_eq!(
        attribute_plan(&layout, &policy),
        vec![AttributeRequest::SetIconSize(48), AttributeRequest::SetWallpaper]
    );
    policy.save_hdr_state = true;
    assert_eq!(
        attribute_plan(&layout, &policy),
        vec![
            AttributeRequest::SetHdr { adapter_id: luid(1), target_id: 3, enable: true },
            AttributeRequest::SetIconSize(48),
            AttributeRequest::SetWallpaper,
        ]
    );
}
