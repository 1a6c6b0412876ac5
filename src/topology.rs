//! The display-topology model: path records, mode records, name descriptors
//! and the optional per-display attributes, held as plain values.
use vstd::prelude::*;

verus! {

/// Bit of a path half's status flags that marks a virtual mode: the path then
/// carries no index into the mode-record array.
pub const PATH_SUPPORT_VIRTUAL_MODE: u32 = 8;

/// A locally unique identifier, as the operating system names an adapter.
/// Adapter identifiers change across reboots and driver reloads.
#[derive(Debug, Clone, Copy, PartialEq, Eq, Structural)]
pub struct Luid {
    pub low_part: u32,
    pub high_part: i32,
}

/// A rational frequency.
#[derive(Debug, Clone, Copy, PartialEq, Eq)]
pub struct Rational {
    pub numerator: u32,
    pub denominator: u32,
}

/// A two-dimensional size.
#[derive(Debug, Clone, Copy, PartialEq, Eq)]
pub struct Region {
    pub cx: u32,
    pub cy: u32,
}

/// A point of the desktop coordinate space.
#[derive(Debug, Clone, Copy, PartialEq, Eq)]
pub struct PointL {
    pub x: i32,
    pub y: i32,
}

/// The source half of a path record.
#[derive(Debug, Clone, Copy, PartialEq, Eq)]
pub struct PathSourceInfo {
    pub adapter_id: Luid,
    pub id: u32,
    pub status_flags: u32,
    /// Absent when the path uses a virtual mode.
    pub mode_info_idx: Option<u32>,
}

/// The target half of a path record.
#[derive(Debug, Clone, Copy, PartialEq, Eq)]
pub struct PathTargetInfo {
    pub adapter_id: Luid,
    /// Stable per output port: the key by which stored and live displays meet.
    pub id: u32,
    pub output_technology: i32,
    pub rotation: i32,
    pub scaling: i32,
    pub refresh_rate: Rational,
    pub scan_line_ordering: i32,
    pub target_available: bool,
    pub status_flags: u32,
    /// Absent when the path uses a virtual mode.
    pub mode_info_idx: Option<u32>,
}

/// One source-to-target connection.
#[derive(Debug, Clone, Copy, PartialEq, Eq)]
pub struct PathInfo {
    pub source_info: PathSourceInfo,
    pub target_info: PathTargetInfo,
    pub flags: u32,
}

/// The 32-bit union of a video signal record (a video standard, or a bit
/// field of additional signal information), kept as one unsigned payload.
#[derive(Debug, Clone, Copy, PartialEq, Eq)]
pub struct Win32VideoSignalInfoUnion {
    pub video_standard: u32,
}

/// The union of a video signal record told apart by its content: a non-zero
/// payload is read as a video standard, a zero one as an empty bit field.
#[derive(Debug, Clone, Copy, PartialEq, Eq)]
pub enum VideoSignalInfoUnionRepr {
    AdditionalSignalInfo { bitfield: u32 },
    VideoStandard(u32),
}

impl VideoSignalInfoUnionRepr {
    pub open spec fn spec_from_union(u: Win32VideoSignalInfoUnion) -> Self {
        if u.video_standard != 0 {
            VideoSignalInfoUnionRepr::VideoStandard(u.video_standard)
        } else {
            VideoSignalInfoUnionRepr::AdditionalSignalInfo { bitfield: u.video_standard }
        }
    }

    pub open spec fn spec_to_union(self) -> Win32VideoSignalInfoUnion {
        match self {
            VideoSignalInfoUnionRepr::AdditionalSignalInfo { bitfield } => Win32VideoSignalInfoUnion {
                video_standard: bitfield,
            },
            VideoSignalInfoUnionRepr::VideoStandard(v) => Win32VideoSignalInfoUnion {
                video_standard: v,
            },
        }
    }

    /// Reads the payload as one of the two variants.
    pub fn from_union(u: Win32VideoSignalInfoUnion) -> (r: Self)
        ensures
            r == Self::spec_from_union(u),
    {
        if u.video_standard != 0 {
            VideoSignalInfoUnionRepr::VideoStandard(u.video_standard)
        } else {
            VideoSignalInfoUnionRepr::AdditionalSignalInfo { bitfield: u.video_standard }
        }
    }

    /// Writes the variant back as the raw payload.
    pub fn to_union(self) -> (r: Win32VideoSignalInfoUnion)
        ensures
            r == self.spec_to_union(),
    {
        match self {
            VideoSignalInfoUnionRepr::AdditionalSignalInfo { bitfield } => Win32VideoSignalInfoUnion {
                video_standard: bitfield,
            },
            VideoSignalInfoUnionRepr::VideoStandard(v) => Win32VideoSignalInfoUnion {
                video_standard: v,
            },
        }
    }
}

/// Reading a union payload as a variant and writing it back gives the same payload.
pub proof fn lemma_video_signal_union_round_trip(u: Win32VideoSignalInfoUnion)
    ensures
        VideoSignalInfoUnionRepr::spec_from_union(u).spec_to_union() == u,
{
}

/// Timing of the signal a target receives.
#[derive(Debug, Clone, Copy, PartialEq, Eq)]
pub struct VideoSignalInfo {
    pub pixel_rate: u64,
    pub h_sync_freq: Rational,
    pub v_sync_freq: Rational,
    pub active_size: Region,
    pub total_size: Region,
    pub signal_info: Win32VideoSignalInfoUnion,
    pub scan_line_ordering: i32,
}

/// Resolution, pixel format and desktop position of a source.
#[derive(Debug, Clone, Copy, PartialEq, Eq)]
pub struct SourceMode {
    pub width: u32,
    pub height: u32,
    pub pixel_format: i32,
    pub position: PointL,
}

/// What a mode record describes, by its tag.
#[derive(Debug, Clone, Copy, PartialEq, Eq)]
pub enum ModeKind {
    Source(SourceMode),
    Target(VideoSignalInfo),
    /// A tag this model does not read (a desktop image, for instance); its raw value.
    Other(i32),
}

/// One entry of the flat mode-record array, keyed by adapter and id.
#[derive(Debug, Clone, Copy, PartialEq, Eq)]
pub struct ModeRecord {
    pub id: u32,
    pub adapter_id: Luid,
    pub kind: ModeKind,
}

/// The source and target mode records of one display.
#[derive(Debug, Clone, Copy, PartialEq, Eq)]
pub struct ModeInfo {
    pub source_mode_info: ModeRecord,
    pub target_mode_info: ModeRecord,
}

/// Header of an extended-attribute request.
#[derive(Debug, Clone, Copy, PartialEq, Eq)]
pub struct DeviceInfoHeader {
    pub kind: i32,
    pub size: u32,
    pub adapter_id: Luid,
    pub id: u32,
}

/// Descriptive name record of a target (monitor). Not used for matching.
#[derive(Debug, Clone, Copy, PartialEq, Eq)]
pub struct TargetDeviceName {
    pub header: DeviceInfoHeader,
    pub flags: u32,
    pub output_technology: i32,
    pub edid_manufacture_id: u16,
    pub edid_product_code_id: u16,
    pub connector_instance: u32,
    /// UTF-16, NUL-terminated.
    pub monitor_friendly_device_name: [u16; 64],
    /// UTF-16, NUL-terminated.
    pub monitor_device_path: [u16; 128],
}

/// Descriptive name record of an adapter. Not used for matching.
#[derive(Debug, Clone, Copy, PartialEq, Eq)]
pub struct AdapterName {
    pub header: DeviceInfoHeader,
    /// UTF-16, NUL-terminated.
    pub adapter_device_path: [u16; 128],
}

/// The name descriptors of a display.
#[derive(Debug, Clone, Copy, PartialEq, Eq)]
pub struct AdditionalInfo {
    pub target: TargetDeviceName,
    pub adapter: AdapterName,
}

/// The optional attributes of a display; each is present only when the
/// policy asked for it and the display reported it.
#[derive(Debug, Clone, Copy, PartialEq, Eq)]
pub struct OptionalInfo {
    pub dpi_scale: Option<u32>,
    pub hdr_enabled: Option<bool>,
    pub hdr_supported: Option<bool>,
    pub sdr_white_level: Option<u32>,
}

impl OptionalInfo {
    pub open spec fn spec_is_empty(&self) -> bool {
        &&& self.dpi_scale is None
        &&& self.hdr_enabled is None
        &&& self.hdr_supported is None
        &&& self.sdr_white_level is None
    }

    /// True when no attribute is present.
    pub fn is_empty(&self) -> (r: bool)
        ensures
            r == self.spec_is_empty(),
    {
        self.dpi_scale.is_none() && self.hdr_enabled.is_none() && self.hdr_supported.is_none()
            && self.sdr_white_level.is_none()
    }
}

/// One display of a snapshot or a profile: its path, its two mode records,
/// its name descriptors and its optional attributes.
#[derive(Debug, Clone, Copy, PartialEq, Eq)]
pub struct Display {
    pub path_info: PathInfo,
    pub mode_info: ModeInfo,
    pub additional_info: AdditionalInfo,
    pub optional_info: OptionalInfo,
}

impl Display {
    /// Puts a matched path, its mode records, names and attributes together.
    pub fn from(
        path: &PathInfo,
        target_mode: &ModeRecord,
        source_mode: &ModeRecord,
        target_name: &TargetDeviceName,
        adapter_name: &AdapterName,
        optional_info: &OptionalInfo,
    ) -> (r: Self)
        ensures
            r.path_info == *path,
            r.mode_info.source_mode_info == *source_mode,
            r.mode_info.target_mode_info == *target_mode,
            r.additional_info.target == *target_name,
            r.additional_info.adapter == *adapter_name,
            r.optional_info == *optional_info,
    {
        Display {
            path_info: *path,
            mode_info: ModeInfo { source_mode_info: *source_mode, target_mode_info: *target_mode },
            additional_info: AdditionalInfo { target: *target_name, adapter: *adapter_name },
            optional_info: *optional_info,
        }
    }

    /// The records that the operating system takes back: path, target mode,
    /// source mode, target name, adapter name.
    pub fn to_windows_types(&self) -> (r: (
        PathInfo,
        ModeRecord,
        ModeRecord,
        TargetDeviceName,
        AdapterName,
    ))
        ensures
            r.0 == self.path_info,
            r.1 == self.mode_info.target_mode_info,
            r.2 == self.mode_info.source_mode_info,
            r.3 == self.additional_info.target,
            r.4 == self.additional_info.adapter,
    {
        (
            self.path_info,
            self.mode_info.target_mode_info,
            self.mode_info.source_mode_info,
            self.additional_info.target,
            self.additional_info.adapter,
        )
    }
}

/// Desktop wallpaper: image path and placement.
#[derive(Debug, Clone, PartialEq, Eq)]
pub struct WallpaperInfo {
    pub wallpaper_path: String,
    pub wallpaper_position: String,
}

/// Attributes of the desktop as a whole.
#[derive(Debug, Clone)]
pub struct GlobalInfo {
    pub icon_size: Option<i32>,
    pub wallpaper_info: Option<WallpaperInfo>,
    pub audio_output: Option<String>,
}

impl GlobalInfo {
    pub fn from(
        icon_size: Option<i32>,
        wallpaper_info: Option<WallpaperInfo>,
        audio_output: Option<String>,
    ) -> (r: Self)
        ensures
            r.icon_size == icon_size,
            r.wallpaper_info == wallpaper_info,
            r.audio_output == audio_output,
    {
        GlobalInfo { icon_size, wallpaper_info, audio_output }
    }
}

/// A whole snapshot or profile: the displays in order, and the desktop attributes.
#[derive(Debug, Clone)]
pub struct DisplayLayout {
    pub global_info: GlobalInfo,
    pub displays: Vec<Display>,
}

impl DisplayLayout {
    pub fn from(displays: Vec<Display>, global_info: GlobalInfo) -> (r: Self)
        ensures
            r.displays@ == displays@,
            r.global_info == global_info,
    {
        DisplayLayout { global_info, displays }
    }
}

/// Whether a path half's status flags mark a virtual mode.
pub open spec fn is_virtual_mode(status_flags: u32) -> bool {
    status_flags & PATH_SUPPORT_VIRTUAL_MODE != 0
}

/// The mode index of a path half, from its status flags and the raw index
/// slot: absent under a virtual mode.
pub fn mode_index_from_raw(status_flags: u32, raw: u32) -> (r: Option<u32>)
    ensures
        r == (if is_virtual_mode(status_flags) {
            None
        } else {
            Some(raw)
        }),
{
    if status_flags & PATH_SUPPORT_VIRTUAL_MODE == 0 {
        Some(raw)
    } else {
        None
    }
}

/// The raw index slot for a mode index; zero where the index is absent.
pub fn mode_index_to_raw(index: Option<u32>) -> (r: u32)
    ensures
        r == (match index {
            Some(i) => i,
            None => 0,
        }),
{
    match index {
        Some(i) => i,
        None => 0,
    }
}

/// A mode index whose presence agrees with the virtual-mode flag survives
/// being written to the raw slot and read back.
pub proof fn lemma_mode_index_round_trip(status_flags: u32, index: Option<u32>)
    requires
        index is None <==> is_virtual_mode(status_flags),
    ensures
        (if is_virtual_mode(status_flags) {
            None
        } else {
            Some(
                match index {
                    Some(i) => i,
                    None => 0u32,
                },
            )
        }) == index,
{
}

} // verus!
