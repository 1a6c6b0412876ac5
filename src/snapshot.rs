//! Assembling a topology snapshot: each path record is matched with its
//! target and source mode records in the flat mode array, and the optional
//! attributes are gathered as the policy asks.
use vstd::prelude::*;
use crate::attributes::{AttributeError, DpiScalingInfo, HdrInfo};
use crate::config::GlobalConfig;
use crate::topology::{GlobalInfo, Luid, ModeRecord, OptionalInfo, PathInfo, WallpaperInfo};

verus! {

/// Whether a mode record carries the key `(adapter, id)`.
pub open spec fn mode_has_key(m: ModeRecord, adapter: Luid, id: u32) -> bool {
    m.adapter_id == adapter && m.id == id
}

/// The last position of `s` whose record carries the key.
pub open spec fn last_match(s: Seq<ModeRecord>, adapter: Luid, id: u32) -> Option<int>
    decreases s.len(),
{
    if s.len() == 0 {
        None
    } else if mode_has_key(s.last(), adapter, id) {
        Some(s.len() - 1)
    } else {
        last_match(s.drop_last(), adapter, id)
    }
}

/// Whether `s` holds both the target's and the source's mode record.
pub open spec fn both_found(s: Seq<ModeRecord>, path: PathInfo) -> bool {
    &&& last_match(s, path.target_info.adapter_id, path.target_info.id) is Some
    &&& last_match(s, path.source_info.adapter_id, path.source_info.id) is Some
}

/// `n` is where the scan for a path's modes stops: the shortest prefix that
/// holds both records, or the whole array where none does.
pub open spec fn is_scan_stop(s: Seq<ModeRecord>, path: PathInfo, n: int) -> bool {
    &&& 0 <= n <= s.len()
    &&& (n == s.len() || both_found(s.take(n), path))
    &&& forall|m: int| 0 <= m < n ==> !both_found(#[trigger] s.take(m), path)
}

pub open spec fn scan_stop(s: Seq<ModeRecord>, path: PathInfo) -> int {
    choose|n: int| is_scan_stop(s, path, n)
}

/// The positions of a path's target and source mode records: within the
/// scanned prefix, the last record carrying each key.
pub open spec fn spec_get_modes(s: Seq<ModeRecord>, path: PathInfo) -> (Option<int>, Option<int>) {
    let n = scan_stop(s, path);
    (
        last_match(s.take(n), path.target_info.adapter_id, path.target_info.id),
        last_match(s.take(n), path.source_info.adapter_id, path.source_info.id),
    )
}

pub open spec fn opt_int(o: Option<usize>) -> Option<int> {
    match o {
        Some(i) => Some(i as int),
        None => None,
    }
}

/// The scan stops at one place only.
pub proof fn lemma_scan_stop_unique(s: Seq<ModeRecord>, path: PathInfo, n: int)
    requires
        is_scan_stop(s, path, n),
    ensures
        scan_stop(s, path) == n,
{
    let k = scan_stop(s, path);
    assert(is_scan_stop(s, path, k));
    if k < n {
        assert(!both_found(s.take(k), path));
    } else if n < k {
        assert(!both_found(s.take(n), path));
    }
}

/// A match found in a prefix lies inside it and carries the key.
pub proof fn lemma_last_match(s: Seq<ModeRecord>, adapter: Luid, id: u32)
    ensures
        last_match(s, adapter, id) matches Some(i) ==> 0 <= i < s.len() && mode_has_key(
            s[i],
            adapter,
            id,
        ),
    decreases s.len(),
{
    if s.len() > 0 {
        lemma_last_match(s.drop_last(), adapter, id);
    }
}

/// Finds the target and source mode records of a path, stopping as soon as
/// both are found. Returns their positions, target first.
pub fn get_modes(path: &PathInfo, modes: &Vec<ModeRecord>) -> (r: (Option<usize>, Option<usize>))
    ensures
        (opt_int(r.0), opt_int(r.1)) == spec_get_modes(modes@, *path),
        r.0 matches Some(t) ==> t < modes@.len() && mode_has_key(
            modes@[t as int],
            path.target_info.adapter_id,
            path.target_info.id,
        ),
        r.1 matches Some(t) ==> t < modes@.len() && mode_has_key(
            modes@[t as int],
            path.source_info.adapter_id,
            path.source_info.id,
        ),
{
    let ghost s = modes@;
    let ta = path.target_info.adapter_id;
    let tid = path.target_info.id;
    let sa = path.source_info.adapter_id;
    let sid = path.source_info.id;
    let mut target: Option<usize> = None;
    let mut source: Option<usize> = None;
    let mut i: usize = 0;
    assert(s.take(0) =~= Seq::<ModeRecord>::empty());
    while i < modes.len()
        invariant
            s == modes@,
            0 <= i <= s.len(),
            ta == path.target_info.adapter_id && tid == path.target_info.id,
            sa == path.source_info.adapter_id && sid == path.source_info.id,
            opt_int(target) == last_match(s.take(i as int), ta, tid),
            opt_int(source) == last_match(s.take(i as int), sa, sid),
            forall|m: int| 0 <= m <= i ==> !both_found(#[trigger] s.take(m), *path),
        decreases s.len() - i,
    {
        let m = modes[i];
        assert(s.take(i + 1).drop_last() =~= s.take(i as int));
        assert(s.take(i + 1).last() == m);
        if m.adapter_id == ta && m.id == tid {
            target = Some(i);
        }
        if m.adapter_id == sa && m.id == sid {
            source = Some(i);
        }
        if target.is_some() && source.is_some() {
            proof {
                assert(is_scan_stop(s, *path, i + 1));
                lemma_scan_stop_unique(s, *path, i + 1);
                lemma_last_match(s.take(i + 1), ta, tid);
                lemma_last_match(s.take(i + 1), sa, sid);
            }
            return (target, source);
        }
        i = i + 1;
    }
    proof {
        assert(s.take(s.len() as int) =~= s);
        assert(is_scan_stop(s, *path, s.len() as int));
        lemma_scan_stop_unique(s, *path, s.len() as int);
        lemma_last_match(s, ta, tid);
        lemma_last_match(s, sa, sid);
    }
    (target, source)
}

/// A path that resolved to both of its mode records, by positions.
#[derive(Debug, Clone, Copy, PartialEq, Eq)]
pub struct MatchedPath {
    pub path_index: usize,
    pub target_mode_index: usize,
    pub source_mode_index: usize,
}

/// The paths that resolve to both mode records, in order, with the positions
/// of those records. The others (virtual or inactive paths, mostly) are left out.
pub open spec fn spec_matched_paths(paths: Seq<PathInfo>, modes: Seq<ModeRecord>) -> Seq<MatchedPath>
    decreases paths.len(),
{
    if paths.len() == 0 {
        Seq::empty()
    } else {
        let prev = spec_matched_paths(paths.drop_last(), modes);
        match spec_get_modes(modes, paths.last()) {
            (Some(t), Some(src)) => prev.push(
                MatchedPath {
                    path_index: (paths.len() - 1) as usize,
                    target_mode_index: t as usize,
                    source_mode_index: src as usize,
                },
            ),
            _ => prev,
        }
    }
}

/// Matches every path against the mode array and keeps those that resolve.
pub fn matched_paths(paths: &Vec<PathInfo>, modes: &Vec<ModeRecord>) -> (r: Vec<MatchedPath>)
    ensures
        r@ == spec_matched_paths(paths@, modes@),
        forall|k: int|
            0 <= k < r@.len() ==> {
                &&& (#[trigger] r@[k]).path_index < paths@.len()
                &&& r@[k].target_mode_index < modes@.len()
                &&& r@[k].source_mode_index < modes@.len()
            },
{
    let mut out: Vec<MatchedPath> = Vec::new();
    let mut i: usize = 0;
    assert(paths@.take(0) =~= Seq::<PathInfo>::empty());
    while i < paths.len()
        invariant
            0 <= i <= paths@.len(),
            out@ == spec_matched_paths(paths@.take(i as int), modes@),
            forall|k: int|
                0 <= k < out@.len() ==> {
                    &&& (#[trigger] out@[k]).path_index < i
                    &&& out@[k].target_mode_index < modes@.len()
                    &&& out@[k].source_mode_index < modes@.len()
                },
        decreases paths@.len() - i,
    {
        let path = paths[i];
        assert(paths@.take(i + 1).drop_last() =~= paths@.take(i as int));
        assert(paths@.take(i + 1).last() == path);
        let (t, s) = get_modes(&path, modes);
        match (t, s) {
            (Some(t), Some(s)) => {
                out.push(MatchedPath { path_index: i, target_mode_index: t, source_mode_index: s });
            },
            _ => {},
        }
        i = i + 1;
    }
    assert(paths@.take(paths@.len() as int) =~= paths@);
    out
}

/// Whether the SDR white level is worth reading: the policy asks for it and
/// advanced color was found enabled.
pub fn wants_white_level(policy: &GlobalConfig, hdr_enabled: Option<bool>) -> (r: bool)
    ensures
        r == (policy.save_sdr_white_level && hdr_enabled == Some(true)),
{
    policy.save_sdr_white_level && match hdr_enabled {
        Some(e) => e,
        None => false,
    }
}

/// The optional attributes of a display from what was read. An attribute is
/// kept only when the policy asks for it and its reading succeeded; a failed
/// reading counts as absent. The white level further needs advanced color
/// enabled.
pub open spec fn spec_optional_info(
    policy: GlobalConfig,
    dpi: Option<Result<DpiScalingInfo, AttributeError>>,
    hdr: Option<Result<HdrInfo, AttributeError>>,
    white_level: Option<Result<u32, AttributeError>>,
) -> OptionalInfo {
    let dpi_scale = if policy.save_dpi_scale {
        match dpi {
            Some(Ok(d)) => Some(d.current),
            _ => None,
        }
    } else {
        None
    };
    let hdr_supported = if policy.save_hdr_state {
        match hdr {
            Some(Ok(h)) => Some(h.advanced_color_supported),
            _ => None,
        }
    } else {
        None
    };
    let hdr_enabled = if policy.save_hdr_state {
        match hdr {
            Some(Ok(h)) => Some(h.advanced_color_enabled),
            _ => None,
        }
    } else {
        None
    };
    let sdr_white_level = if policy.save_sdr_white_level && hdr_enabled == Some(true) {
        match white_level {
            Some(Ok(n)) => Some(n),
            _ => None,
        }
    } else {
        None
    };
    OptionalInfo { dpi_scale, hdr_enabled, hdr_supported, sdr_white_level }
}

/// Gathers the optional attributes of a display from the readings taken;
/// `None` stands for a reading that was not taken.
pub fn optional_info_from_readings(
    policy: &GlobalConfig,
    dpi: Option<Result<DpiScalingInfo, AttributeError>>,
    hdr: Option<Result<HdrInfo, AttributeError>>,
    white_level: Option<Result<u32, AttributeError>>,
) -> (r: OptionalInfo)
    ensures
        r == spec_optional_info(*policy, dpi, hdr, white_level),
{
    let dpi_scale = if policy.save_dpi_scale {
        match dpi {
            Some(Ok(d)) => Some(d.current),
            _ => None,
        }
    } else {
        None
    };
    let (hdr_supported, hdr_enabled) = if policy.save_hdr_state {
        match hdr {
            Some(Ok(h)) => (Some(h.advanced_color_supported), Some(h.advanced_color_enabled)),
            _ => (None, None),
        }
    } else {
        (None, None)
    };
    let sdr_white_level = if wants_white_level(policy, hdr_enabled) {
        match white_level {
            Some(Ok(n)) => Some(n),
            _ => None,
        }
    } else {
        None
    };
    OptionalInfo { dpi_scale, hdr_enabled, hdr_supported, sdr_white_level }
}

/// The desktop attributes of a snapshot from what was read: each is kept
/// only where the policy asks for it; `None` stands for a reading that was not
/// taken or failed.
pub fn global_info_from_readings(
    policy: &GlobalConfig,
    icon_size: Option<i32>,
    wallpaper_info: Option<WallpaperInfo>,
    audio_output: Option<String>,
) -> (r: GlobalInfo)
    ensures
        r.icon_size == (if policy.save_icon_size {
            icon_size
        } else {
            None
        }),
        r.wallpaper_info == (if policy.save_wallpaper_info {
            wallpaper_info
        } else {
            None
        }),
        r.audio_output == (if policy.save_audio_output {
            audio_output
        } else {
            None
        }),
{
    GlobalInfo::from(
        if policy.save_icon_size {
            icon_size
        } else {
            None
        },
        if policy.save_wallpaper_info {
            wallpaper_info
        } else {
            None
        },
        if policy.save_audio_output {
            audio_output
        } else {
            None
        },
    )
}

} // verus!
