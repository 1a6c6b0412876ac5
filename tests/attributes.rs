use womp::attributes::{
    decode_dpi_scale, decode_hdr_info, dpi_index, dpi_percent_at, dpi_relative_index,
    plan_dpi_change, plan_hdr_change, plan_white_level, require_hdr_active, rounded_white_level,
    white_level_to_nits, AttributeError, DpiScalingInfo, HdrInfo, DPI_TABLE_LEN,
};

const TABLE: [u32; 12] = [100, 125, 150, 175, 200, 225, 250, 300, 350, 400, 450, 500];

fn hdr(supported: bool, enabled: bool) -> HdrInfo {
    HdrInfo {
        advanced_color_supported: supported,
        advanced_color_enabled: enabled,
        wide_color_enforced: false,
        advanced_color_force_disabled: false,
        color_encoding: 0,
        bits_per_color_channel: 8,
    }
}

#[test]
fn dpi_table_lookup() {
    for (i, v) in TABLE.iter().enumerate() {
        assert_eq!(dpi_percent_at(i), *v);
        assert_eq!(dpi_index(*v), Some(i));
    }
    assert_eq!(dpi_index(110), None);
    assert_eq!(DPI_TABLE_LEN, 12);
}

#[test]
fn dpi_decode_recommended_and_current() {
    // recommended at position 2 (150%), current one above it, max three above it
    let info = decode_dpi_scale(-2, 1, 3).unwrap();
    assert_eq!(
        info,
        DpiScalingInfo { minimum: 100, maximum: 225, current: 175, recommended: 150 }
    );
}

#[test]
fn dpi_decode_clamps_current() {
    // current below min is clamped up to min: position 0
    let info = decode_dpi_scale(-2, -5, 3).unwrap();
    assert_eq!(info.current, 100);
    // current above max is clamped down to max
    let info = decode_dpi_scale(-2, 9, 3).unwrap();
    assert_eq!(info.current, 225);
    assert_eq!(info.maximum, 225);
}

#[test]
fn dpi_decode_table_mismatch() {
    assert_eq!(decode_dpi_scale(-12, 0, 0), Err(AttributeError::DpiTableMismatch));
    assert_eq!(decode_dpi_scale(-2, 0, -1), Err(AttributeError::DpiTableMismatch));
    assert_eq!(decode_dpi_scale(-6, 0, 6), Err(AttributeError::DpiTableMismatch));
    assert_eq!(decode_dpi_scale(i32::MIN, 0, 0), Err(AttributeError::DpiTableMismatch));
}

#[test]
fn dpi_decode_index_out_of_range() {
    // a positive lower bound above the upper one puts the clamped current past the table
    assert_eq!(decode_dpi_scale(8, 0, 3), Err(AttributeError::DpiIndexOutOfRange));
}

#[test]
fn dpi_round_trip_every_table_value() {
    for r in 0..12usize {
        for t in 0..12usize {
            let rel = dpi_relative_index(TABLE[t], TABLE[r]).unwrap();
            assert_eq!(rel, t as i32 - r as i32);
            let info = decode_dpi_scale(-(r as i32), rel, 11 - r as i32).unwrap();
            assert_eq!(info.current, TABLE[t]);
            assert_eq!(info.recommended, TABLE[r]);
            assert_eq!(info.maximum, 500);
        }
    }
}

#[test]
fn dpi_value_not_in_table_is_error() {
    assert_eq!(
        dpi_relative_index(130, 150),
        Err(AttributeError::DpiValueNotInTable { requested: 130, recommended: 150 })
    );
    let info = DpiScalingInfo { minimum: 100, maximum: 300, current: 150, recommended: 150 };
    assert_eq!(
        plan_dpi_change(130, &info),
        Err(AttributeError::DpiValueNotInTable { requested: 130, recommended: 150 })
    );
}

#[test]
fn dpi_plan_current_is_noop() {
    let info = DpiScalingInfo { minimum: 100, maximum: 300, current: 175, recommended: 150 };
    assert_eq!(plan_dpi_change(175, &info), Ok(None));
    assert_eq!(plan_dpi_change(125, &info), Ok(Some(-1)));
    assert_eq!(plan_dpi_change(300, &info), Ok(Some(5)));
}

#[test]
fn hdr_bits_decode() {
    let h = decode_hdr_info(0b1011, 3, 10);
    assert!(h.advanced_color_supported);
    assert!(h.advanced_color_enabled);
    assert!(!h.wide_color_enforced);
    assert!(h.advanced_color_force_disabled);
    assert_eq!(h.color_encoding, 3);
    assert_eq!(h.bits_per_color_channel, 10);
    let h = decode_hdr_info(0b0100, 0, 8);
    assert!(!h.advanced_color_supported);
    assert!(!h.advanced_color_enabled);
    assert!(h.wide_color_enforced);
    assert!(!h.advanced_color_force_disabled);
}

#[test]
fn hdr_plan() {
    assert_eq!(plan_hdr_change(&hdr(false, false), true), Err(AttributeError::HdrUnsupported));
    assert_eq!(plan_hdr_change(&hdr(true, true), true), Ok(None));
    assert_eq!(plan_hdr_change(&hdr(true, false), true), Ok(Some(1)));
    assert_eq!(plan_hdr_change(&hdr(true, true), false), Ok(Some(0)));
}

#[test]
fn white_level_needs_active_hdr() {
    assert_eq!(require_hdr_active(&hdr(true, true)), Ok(()));
    assert_eq!(require_hdr_active(&hdr(true, false)), Err(AttributeError::HdrInactive));
    assert_eq!(require_hdr_active(&hdr(false, true)), Err(AttributeError::HdrInactive));
    assert_eq!(plan_white_level(&hdr(true, false), 200), Err(AttributeError::HdrInactive));
    // the advanced-color check comes before the range check
    assert_eq!(plan_white_level(&hdr(false, false), 10), Err(AttributeError::HdrInactive));
}

#[test]
fn white_level_to_nits_formula() {
    assert_eq!(white_level_to_nits(1000), 80);
    assert_eq!(white_level_to_nits(6000), 480);
    assert_eq!(white_level_to_nits(1049), 83);
    assert_eq!(white_level_to_nits(u32::MAX), 343597383);
}

#[test]
fn sdr_rounding() {
    assert_eq!(rounded_white_level(83), Ok(84));
    assert_eq!(rounded_white_level(79), Err(AttributeError::WhiteLevelOutOfRange(79)));
    assert_eq!(rounded_white_level(481), Err(AttributeError::WhiteLevelOutOfRange(481)));
    assert_eq!(rounded_white_level(80), Ok(80));
    assert_eq!(rounded_white_level(480), Ok(480));
    assert_eq!(rounded_white_level(477), Ok(480));
    let active = hdr(true, true);
    assert_eq!(plan_white_level(&active, 83), Ok(1050));
    assert_eq!(plan_white_level(&active, 80), Ok(1000));
    assert_eq!(plan_white_level(&active, 480), Ok(6000));
    assert_eq!(plan_white_level(&active, 79), Err(AttributeError::WhiteLevelOutOfRange(79)));
    assert_eq!(plan_white_level(&active, 481), Err(AttributeError::WhiteLevelOutOfRange(481)));
}
