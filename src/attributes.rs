//! The numeric encodings of the extended per-display attributes: DPI scale as
//! an offset into a fixed table of percentages, the advanced-color (HDR) state
//! as a bit mask, and the SDR white level in internal units.
use vstd::prelude::*;

verus! {

/// Number of entries of the DPI table.
pub const DPI_TABLE_LEN: usize = 12;

/// Smallest SDR white level that can be requested, in nits.
pub const MIN_WHITE_LEVEL_NITS: u32 = 80;

/// Largest SDR white level that can be requested, in nits.
pub const MAX_WHITE_LEVEL_NITS: u32 = 480;

/// The scale percentages the operating system offers, in increasing order.
pub open spec fn dpi_table() -> Seq<u32> {
    seq![100u32, 125, 150, 175, 200, 225, 250, 300, 350, 400, 450, 500]
}

/// The position of a percentage in the DPI table, if it is listed there.
pub open spec fn dpi_position(percent: u32) -> Option<int> {
    if dpi_table().contains(percent) {
        Some(choose|i: int| 0 <= i < dpi_table().len() && dpi_table()[i] == percent)
    } else {
        None
    }
}

/// What went wrong while reading or writing an extended attribute.
#[derive(Debug, Clone, Copy, PartialEq, Eq)]
pub enum AttributeError {
    /// The offsets reported by the operating system do not fit the DPI table.
    DpiTableMismatch,
    /// The current offset points outside the DPI table.
    DpiIndexOutOfRange,
    /// The requested or the recommended percentage is not in the DPI table.
    DpiValueNotInTable { requested: u32, recommended: u32 },
    /// The display does not support advanced color.
    HdrUnsupported,
    /// Advanced color is unsupported or disabled, so there is no SDR white level.
    HdrInactive,
    /// The requested SDR white level lies outside 80..=480 nits.
    WhiteLevelOutOfRange(u32),
    /// The operating system refused a request of the given kind with the given code.
    Os { request_kind: i32, code: i32 },
    /// Restoring a desktop setting (icon size, wallpaper, audio output) failed.
    DesktopSettingFailed,
}

/// The DPI scale of a source, as percentages.
#[derive(Debug, Clone, Copy, PartialEq, Eq)]
pub struct DpiScalingInfo {
    pub minimum: u32,
    pub maximum: u32,
    pub current: u32,
    pub recommended: u32,
}

/// Advanced-color (HDR) state of a target.
#[derive(Debug, Clone, Copy, PartialEq, Eq)]
pub struct HdrInfo {
    pub advanced_color_supported: bool,
    pub advanced_color_enabled: bool,
    pub wide_color_enforced: bool,
    pub advanced_color_force_disabled: bool,
    pub color_encoding: u32,
    pub bits_per_color_channel: i32,
}

/// Entries of the table are told apart by their value.
pub proof fn lemma_dpi_table_strictly_increasing()
    ensures
        forall|i: int, j: int|
            0 <= i < j < dpi_table().len() ==> #[trigger] dpi_table()[i] < #[trigger] dpi_table()[j],
{
}

/// A listed percentage has exactly one position, and that position holds it.
pub proof fn lemma_dpi_position(percent: u32)
    ensures
        dpi_position(percent) matches Some(i) ==> 0 <= i < dpi_table().len() && dpi_table()[i]
            == percent,
        dpi_position(percent) is None <==> !dpi_table().contains(percent),
        forall|k: int|
            0 <= k < dpi_table().len() && dpi_table()[k] == percent ==> dpi_position(percent)
                == Some(k),
{
    lemma_dpi_table_strictly_increasing();
    if dpi_table().contains(percent) {
        let i = choose|i: int| 0 <= i < dpi_table().len() && dpi_table()[i] == percent;
        assert(0 <= i < dpi_table().len() && dpi_table()[i] == percent);
        assert forall|k: int| 0 <= k < dpi_table().len() && dpi_table()[k] == percent implies k
            == i by {
            if k < i {
                assert(dpi_table()[k] < dpi_table()[i]);
            } else if i < k {
                assert(dpi_table()[i] < dpi_table()[k]);
            }
        }
    } else {
        assert forall|k: int| 0 <= k < dpi_table().len() && dpi_table()[k] == percent implies false by {
            assert(dpi_table().contains(percent));
        }
    }
}

/// The percentage at a position of the DPI table.
pub fn dpi_percent_at(index: usize) -> (r: u32)
    requires
        index < DPI_TABLE_LEN,
    ensures
        r == dpi_table()[index as int],
{
    if index == 0 {
        100
    } else if index == 1 {
        125
    } else if index == 2 {
        150
    } else if index == 3 {
        175
    } else if index == 4 {
        200
    } else if index == 5 {
        225
    } else if index == 6 {
        250
    } else if index == 7 {
        300
    } else if index == 8 {
        350
    } else if index == 9 {
        400
    } else if index == 10 {
        450
    } else {
        500
    }
}

/// The position of a percentage in the DPI table, if it is listed.
pub fn dpi_index(percent: u32) -> (r: Option<usize>)
    ensures
        r matches Some(i) ==> dpi_position(percent) == Some(i as int),
        r is None ==> dpi_position(percent) is None,
{
    proof {
        lemma_dpi_position(percent);
    }
    let mut i: usize = 0;
    while i < DPI_TABLE_LEN
        invariant
            i <= DPI_TABLE_LEN,
            forall|k: int| 0 <= k < i ==> dpi_table()[k] != percent,
        decreases DPI_TABLE_LEN - i,
    {
        if dpi_percent_at(i) == percent {
            return Some(i);
        }
        i = i + 1;
    }
    assert(!dpi_table().contains(percent));
    None
}

/// The current offset clamped into the reported bounds, the lower bound
/// checked first.
pub open spec fn clamped_offset(min_rel: i32, cur_rel: i32, max_rel: i32) -> int {
    if cur_rel < min_rel {
        min_rel as int
    } else if cur_rel > max_rel {
        max_rel as int
    } else {
        cur_rel as int
    }
}

pub open spec fn abs(x: int) -> int {
    if x < 0 {
        -x
    } else {
        x
    }
}

/// DPI scale from the three offsets that the operating system reports.
///
/// The recommended percentage sits at position `|min_rel|` of the table; the
/// maximum `max_rel` places above it; the current one `cur_rel` places from it
/// once clamped into `[min_rel, max_rel]`, and at position 0 where that would
/// fall below the table. The minimum is always 100%.
pub open spec fn spec_decode_dpi_scale(min_rel: i32, cur_rel: i32, max_rel: i32) -> Result<
    DpiScalingInfo,
    AttributeError,
> {
    let rec = abs(min_rel as int);
    let sum = rec + clamped_offset(min_rel, cur_rel, max_rel);
    let cur = if sum < 0 {
        0
    } else {
        sum
    };
    let max = rec + max_rel;
    if !(rec < DPI_TABLE_LEN && 0 <= max_rel && max < DPI_TABLE_LEN) {
        Err(AttributeError::DpiTableMismatch)
    } else if cur >= DPI_TABLE_LEN {
        Err(AttributeError::DpiIndexOutOfRange)
    } else {
        Ok(
            DpiScalingInfo {
                minimum: 100,
                maximum: dpi_table()[max],
                current: dpi_table()[cur],
                recommended: dpi_table()[rec],
            },
        )
    }
}

/// Decodes the reported DPI offsets into percentages.
pub fn decode_dpi_scale(min_rel: i32, cur_rel: i32, max_rel: i32) -> (r: Result<
    DpiScalingInfo,
    AttributeError,
>)
    ensures
        r == spec_decode_dpi_scale(min_rel, cur_rel, max_rel),
{
    let mut cur = cur_rel;
    if cur < min_rel {
        cur = min_rel;
    } else if cur > max_rel {
        cur = max_rel;
    }
    let rec: i64 = if min_rel < 0 {
        -(min_rel as i64)
    } else {
        min_rel as i64
    };
    if !(rec < DPI_TABLE_LEN as i64 && max_rel >= 0 && rec + (max_rel as i64)
        < DPI_TABLE_LEN as i64) {
        return Err(AttributeError::DpiTableMismatch);
    }
    let sum: i64 = rec + cur as i64;
    let cur_idx: i64 = if sum < 0 {
        0
    } else {
        sum
    };
    if cur_idx >= DPI_TABLE_LEN as i64 {
        return Err(AttributeError::DpiIndexOutOfRange);
    }
    let max_idx: i64 = rec + max_rel as i64;
    Ok(
        DpiScalingInfo {
            minimum: 100,
            maximum: dpi_percent_at(max_idx as usize),
            current: dpi_percent_at(cur_idx as usize),
            recommended: dpi_percent_at(rec as usize),
        },
    )
}

/// The offset from the recommended percentage that selects `percent`, both
/// given by their table positions.
pub open spec fn spec_dpi_relative_index(percent: u32, recommended: u32) -> Result<
    i32,
    AttributeError,
> {
    match (dpi_position(percent), dpi_position(recommended)) {
        (Some(t), Some(r)) => Ok((t - r) as i32),
        _ => Err(AttributeError::DpiValueNotInTable { requested: percent, recommended }),
    }
}

/// Computes the offset to send so that a source shows `percent`.
pub fn dpi_relative_index(percent: u32, recommended: u32) -> (r: Result<i32, AttributeError>)
    ensures
        r == spec_dpi_relative_index(percent, recommended),
{
    let t = dpi_index(percent);
    let rec = dpi_index(recommended);
    match (t, rec) {
        (Some(t), Some(rec)) => Ok(t as i32 - rec as i32),
        _ => Err(AttributeError::DpiValueNotInTable { requested: percent, recommended }),
    }
}

/// What to send to set a source to `percent`: nothing where it already shows
/// it, else the offset from the recommended percentage.
pub open spec fn spec_plan_dpi_change(percent: u32, info: DpiScalingInfo) -> Result<
    Option<i32>,
    AttributeError,
> {
    if percent == info.current {
        Ok(None)
    } else {
        match spec_dpi_relative_index(percent, info.recommended) {
            Ok(rel) => Ok(Some(rel)),
            Err(e) => Err(e),
        }
    }
}

/// Plans a DPI change against the source's current scale.
pub fn plan_dpi_change(percent: u32, info: &DpiScalingInfo) -> (r: Result<
    Option<i32>,
    AttributeError,
>)
    ensures
        r == spec_plan_dpi_change(percent, *info),
{
    if percent == info.current {
        return Ok(None);
    }
    match dpi_relative_index(percent, info.recommended) {
        Ok(rel) => Ok(Some(rel)),
        Err(e) => Err(e),
    }
}

/// For every pair of table percentages, the offset computed for one against
/// the other as recommended decodes back to it; a percentage outside the
/// table gives an error.
pub proof fn lemma_dpi_round_trip(percent: u32, recommended: u32)
    ensures
        dpi_table().contains(percent) && dpi_table().contains(recommended) ==> {
            let r = dpi_position(recommended).unwrap();
            let rel = spec_dpi_relative_index(percent, recommended).unwrap();
            &&& spec_dpi_relative_index(percent, recommended) is Ok
            &&& spec_decode_dpi_scale((-r) as i32, rel, (DPI_TABLE_LEN - 1 - r) as i32) == Ok::<DpiScalingInfo, AttributeError>(
                DpiScalingInfo {
                    minimum: 100,
                    maximum: dpi_table()[DPI_TABLE_LEN - 1],
                    current: percent,
                    recommended,
                },
            )
        },
        !dpi_table().contains(percent) ==> spec_dpi_relative_index(percent, recommended) is Err,
        !dpi_table().contains(percent) && dpi_table().contains(recommended) ==> spec_plan_dpi_change(
            percent,
            DpiScalingInfo { minimum: 100, maximum: 500, current: recommended, recommended },
        ) is Err,
{
    lemma_dpi_position(percent);
    lemma_dpi_position(recommended);
}

/// Advanced-color state from the reported bit mask: supported is bit 0,
/// enabled bit 1, wide color enforced bit 2, force-disabled bit 3.
pub fn decode_hdr_info(value: u32, color_encoding: u32, bits_per_color_channel: i32) -> (r: HdrInfo)
    ensures
        r.advanced_color_supported == (value & 0x1 == 0x1),
        r.advanced_color_enabled == (value & 0x2 == 0x2),
        r.wide_color_enforced == (value & 0x4 == 0x4),
        r.advanced_color_force_disabled == (value & 0x8 == 0x8),
        r.color_encoding == color_encoding,
        r.bits_per_color_channel == bits_per_color_channel,
{
    HdrInfo {
        advanced_color_supported: value & 0x1 == 0x1,
        advanced_color_enabled: value & 0x2 == 0x2,
        wide_color_enforced: value & 0x4 == 0x4,
        advanced_color_force_disabled: value & 0x8 == 0x8,
        color_encoding,
        bits_per_color_channel,
    }
}

/// What to send to turn advanced color on or off: an error where it is not
/// supported, nothing where it is already in the wanted state, else the flag
/// value (1 to enable, 0 to disable).
pub open spec fn spec_plan_hdr_change(info: HdrInfo, enable: bool) -> Result<
    Option<u32>,
    AttributeError,
> {
    if !info.advanced_color_supported {
        Err(AttributeError::HdrUnsupported)
    } else if info.advanced_color_enabled == enable {
        Ok(None)
    } else {
        Ok(Some(if enable { 1u32 } else { 0u32 }))
    }
}

/// Plans an advanced-color change against the target's current state.
pub fn plan_hdr_change(info: &HdrInfo, enable: bool) -> (r: Result<Option<u32>, AttributeError>)
    ensures
        r == spec_plan_hdr_change(*info, enable),
{
    if !info.advanced_color_supported {
        return Err(AttributeError::HdrUnsupported);
    }
    if info.advanced_color_enabled == enable {
        return Ok(None);
    }
    Ok(Some(if enable { 1 } else { 0 }))
}

/// The SDR white level exists only while advanced color is supported and enabled.
pub fn require_hdr_active(info: &HdrInfo) -> (r: Result<(), AttributeError>)
    ensures
        r is Ok <==> (info.advanced_color_supported && info.advanced_color_enabled),
        r is Err ==> r == Err::<(), AttributeError>(AttributeError::HdrInactive),
{
    if !info.advanced_color_supported || !info.advanced_color_enabled {
        Err(AttributeError::HdrInactive)
    } else {
        Ok(())
    }
}

/// Nits from the internal unit of the SDR white level: `internal * 80 / 1000`.
pub fn white_level_to_nits(internal: u32) -> (r: u32)
    ensures
        r == internal as int * 80 / 1000,
{
    let n: u64 = internal as u64 * 80 / 1000;
    n as u32
}

/// The requested white level rounded up to the next multiple of 4, or an
/// error outside 80..=480 nits.
pub open spec fn spec_rounded_white_level(nits: u32) -> Result<u32, AttributeError> {
    if nits < MIN_WHITE_LEVEL_NITS || nits > MAX_WHITE_LEVEL_NITS {
        Err(AttributeError::WhiteLevelOutOfRange(nits))
    } else if nits % 4 == 0 {
        Ok(nits)
    } else {
        Ok((nits + (4 - nits % 4)) as u32)
    }
}

/// Checks the range of a requested white level and rounds it to the slider's
/// granularity.
pub fn rounded_white_level(nits: u32) -> (r: Result<u32, AttributeError>)
    ensures
        r == spec_rounded_white_level(nits),
        r matches Ok(n) ==> n % 4 == 0 && nits <= n < nits + 4,
{
    if nits < MIN_WHITE_LEVEL_NITS || nits > MAX_WHITE_LEVEL_NITS {
        return Err(AttributeError::WhiteLevelOutOfRange(nits));
    }
    if nits % 4 == 0 {
        Ok(nits)
    } else {
        Ok(nits + (4 - nits % 4))
    }
}

/// What to send to set the SDR white level: advanced color must be active,
/// the level is range-checked and rounded, then converted to internal units
/// as `nits * 1000 / 80`.
pub open spec fn spec_plan_white_level(info: HdrInfo, nits: u32) -> Result<u32, AttributeError> {
    if !(info.advanced_color_supported && info.advanced_color_enabled) {
        Err(AttributeError::HdrInactive)
    } else {
        match spec_rounded_white_level(nits) {
            Ok(n) => Ok((n * 1000 / 80) as u32),
            Err(e) => Err(e),
        }
    }
}

/// Plans an SDR white level change against the target's advanced-color state.
pub fn plan_white_level(info: &HdrInfo, nits: u32) -> (r: Result<u32, AttributeError>)
    ensures
        r == spec_plan_white_level(*info, nits),
{
    if let Err(e) = require_hdr_active(info) {
        return Err(e);
    }
    match rounded_white_level(nits) {
        Ok(n) => Ok(n * 1000 / 80),
        Err(e) => Err(e),
    }
}

} // verus!
