//! Restoring a profile: remap its adapter identifiers from a live snapshot,
//! hand the operating system the path and mode arrays through a validate-only
//! call, a commit, and a commit that allows adjustments, then restore the
//! optional attributes one request at a time.
//!
//! The decisions are an engine from state and event to next state and
//! action; the caller performs each action and feeds back the outcome.
//!
//! Attribute failures: the first failed attribute request ends the apply with
//! its error. The topology is committed by then and stays so; later requests
//! are not attempted.
use vstd::prelude::*;
use itertools::Itertools;
use crate::attributes::{AttributeError, spec_plan_dpi_change, spec_plan_hdr_change, DpiScalingInfo, HdrInfo};
use crate::config::GlobalConfig;
use crate::reader::TopologyError;
use crate::remap::{adjust_adapter_ids, remapped, carries_only_adapter, target_id_of, lemma_remap_against_itself};
use crate::topology::{Display, DisplayLayout, GlobalInfo, Luid, ModeRecord, PathInfo};

verus! {

/// Apply flag: use the arrays that are passed in.
pub const SDC_USE_SUPPLIED_DISPLAY_CONFIG: u32 = 0x20;

/// Apply flag: only check the arrays.
pub const SDC_VALIDATE: u32 = 0x40;

/// Apply flag: make the configuration current.
pub const SDC_APPLY: u32 = 0x80;

/// Apply flag: no optimization of the passed configuration.
pub const SDC_NO_OPTIMIZATION: u32 = 0x100;

/// Apply flag: persist the configuration.
pub const SDC_SAVE_TO_DATABASE: u32 = 0x200;

/// Apply flag: let the operating system adjust values it cannot take as they are.
pub const SDC_ALLOW_CHANGES: u32 = 0x400;

/// The flags of the validate-only call.
pub const VALIDATE_FLAGS: u32 = SDC_USE_SUPPLIED_DISPLAY_CONFIG | SDC_VALIDATE;

/// The flags of the plain commit.
pub const COMMIT_FLAGS: u32 = SDC_APPLY | SDC_USE_SUPPLIED_DISPLAY_CONFIG | SDC_SAVE_TO_DATABASE
    | SDC_NO_OPTIMIZATION;

/// The flags of the escalated commit.
pub const ESCALATED_COMMIT_FLAGS: u32 = COMMIT_FLAGS | SDC_ALLOW_CHANGES;

/// Why an apply failed.
#[derive(Debug, Clone, Copy, PartialEq, Eq)]
pub enum ApplyError {
    /// The live snapshot needed for remapping could not be read.
    Snapshot(TopologyError),
    /// The validate-only call rejected the arrays; nothing was committed.
    InvalidInput(i32),
    /// Both commits failed; the code is that of the escalated one.
    ApplyRejected(i32),
    /// An attribute request failed after the topology was committed.
    Attribute(AttributeError),
}

/// One optional attribute to restore after the topology is committed.
#[derive(Debug, Clone, Copy, PartialEq, Eq)]
pub enum AttributeRequest {
    SetDpi { adapter_id: Luid, source_id: u32, percent: u32 },
    SetHdr { adapter_id: Luid, target_id: u32, enable: bool },
    SetWhiteLevel { adapter_id: Luid, target_id: u32, nits: u32 },
    SetIconSize(i32),
    /// Restore the profile's wallpaper (its `global_info.wallpaper_info`).
    SetWallpaper,
    /// Restore the profile's default audio output (its `global_info.audio_output`).
    SetAudioOutput,
}

/// The per-display attributes, in the order they are restored.
#[derive(Debug, Clone, Copy, PartialEq, Eq)]
pub enum AttributeKind {
    DpiScale,
    AdvancedColor,
    WhiteLevel,
}

/// The request that restores one attribute of a display, if the display has
/// it: the DPI scale where one was saved; advanced color where it was saved as
/// supported; the white level where one was saved with advanced color enabled.
pub open spec fn request_for(d: Display, kind: AttributeKind) -> Option<AttributeRequest> {
    let o = d.optional_info;
    match kind {
        AttributeKind::DpiScale => match o.dpi_scale {
            Some(p) => Some(
                AttributeRequest::SetDpi {
                    adapter_id: d.path_info.source_info.adapter_id,
                    source_id: d.path_info.source_info.id,
                    percent: p,
                },
            ),
            None => None,
        },
        AttributeKind::AdvancedColor => match (o.hdr_enabled, o.hdr_supported) {
            (Some(e), Some(true)) => Some(
                AttributeRequest::SetHdr {
                    adapter_id: d.path_info.target_info.adapter_id,
                    target_id: d.path_info.target_info.id,
                    enable: e,
                },
            ),
            _ => None,
        },
        AttributeKind::WhiteLevel => match (o.sdr_white_level, o.hdr_enabled) {
            (Some(n), Some(true)) => Some(
                AttributeRequest::SetWhiteLevel {
                    adapter_id: d.path_info.target_info.adapter_id,
                    target_id: d.path_info.target_info.id,
                    nits: n,
                },
            ),
            _ => None,
        },
    }
}

/// The requests of one kind for the displays, in display order.
pub open spec fn requests_of(ds: Seq<Display>, kind: AttributeKind) -> Seq<AttributeRequest>
    decreases ds.len(),
{
    if ds.len() == 0 {
        Seq::empty()
    } else {
        let prev = requests_of(ds.drop_last(), kind);
        match request_for(ds.last(), kind) {
            Some(q) => prev.push(q),
            None => prev,
        }
    }
}

/// Everything to restore after the commit, as the policy asks: DPI scales,
/// then advanced color, then white levels, display by display; then the icon
/// size, the wallpaper and the audio output where the profile holds them.
pub open spec fn spec_attribute_plan(ds: Seq<Display>, g: GlobalInfo, policy: GlobalConfig) -> Seq<
    AttributeRequest,
> {
    let none = Seq::<AttributeRequest>::empty();
    (if policy.save_dpi_scale {
        requests_of(ds, AttributeKind::DpiScale)
    } else {
        none
    }) + (if policy.save_hdr_state {
        requests_of(ds, AttributeKind::AdvancedColor)
    } else {
        none
    }) + (if policy.save_sdr_white_level {
        requests_of(ds, AttributeKind::WhiteLevel)
    } else {
        none
    }) + (match (policy.save_icon_size, g.icon_size) {
        (true, Some(s)) => seq![AttributeRequest::SetIconSize(s)],
        _ => none,
    }) + (if policy.save_wallpaper_info && g.wallpaper_info is Some {
        seq![AttributeRequest::SetWallpaper]
    } else {
        none
    }) + (if policy.save_audio_output && g.audio_output is Some {
        seq![AttributeRequest::SetAudioOutput]
    } else {
        none
    })
}

/// The request that restores one attribute of a display, if any.
pub fn attribute_request(d: &Display, kind: AttributeKind) -> (r: Option<AttributeRequest>)
    ensures
        r == request_for(*d, kind),
{
    let o = d.optional_info;
    match kind {
        AttributeKind::DpiScale => match o.dpi_scale {
            Some(p) => Some(
                AttributeRequest::SetDpi {
                    adapter_id: d.path_info.source_info.adapter_id,
                    source_id: d.path_info.source_info.id,
                    percent: p,
                },
            ),
            None => None,
        },
        AttributeKind::AdvancedColor => match (o.hdr_enabled, o.hdr_supported) {
            (Some(e), Some(true)) => Some(
                AttributeRequest::SetHdr {
                    adapter_id: d.path_info.target_info.adapter_id,
                    target_id: d.path_info.target_info.id,
                    enable: e,
                },
            ),
            _ => None,
        },
        AttributeKind::WhiteLevel => match (o.sdr_white_level, o.hdr_enabled) {
            (Some(n), Some(true)) => Some(
                AttributeRequest::SetWhiteLevel {
                    adapter_id: d.path_info.target_info.adapter_id,
                    target_id: d.path_info.target_info.id,
                    nits: n,
                },
            ),
            _ => None,
        },
    }
}

/// Appends the requests of one kind for the displays.
fn push_requests(ds: &Vec<Display>, kind: AttributeKind, out: &mut Vec<AttributeRequest>)
    ensures
        final(out)@ == old(out)@ + requests_of(ds@, kind),
{
    let ghost start = out@;
    let mut i: usize = 0;
    assert(ds@.take(0) =~= Seq::<Display>::empty());
    assert(start + Seq::<AttributeRequest>::empty() =~= start);
    while i < ds.len()
        invariant
            start == old(out)@,
            0 <= i <= ds@.len(),
            out@ == start + requests_of(ds@.take(i as int), kind),
        decreases ds@.len() - i,
    {
        assert(ds@.take(i + 1).drop_last() =~= ds@.take(i as int));
        assert(ds@.take(i + 1).last() == ds@[i as int]);
        match attribute_request(&ds[i], kind) {
            Some(q) => {
                out.push(q);
                assert(start + requests_of(ds@.take(i as int), kind).push(q) =~= (start
                    + requests_of(ds@.take(i as int), kind)).push(q));
            },
            None => {},
        }
        i = i + 1;
    }
    assert(ds@.take(ds@.len() as int) =~= ds@);
}

/// Lists what to restore after the commit, as the policy asks.
pub fn attribute_plan(layout: &DisplayLayout, policy: &GlobalConfig) -> (r: Vec<AttributeRequest>)
    ensures
        r@ == spec_attribute_plan(layout.displays@, layout.global_info, *policy),
{
    let mut out: Vec<AttributeRequest> = Vec::new();
    let ghost none = Seq::<AttributeRequest>::empty();
    let ghost ds = layout.displays@;
    if policy.save_dpi_scale {
        push_requests(&layout.displays, AttributeKind::DpiScale, &mut out);
    }
    assert(out@ =~= none + (if policy.save_dpi_scale {
        requests_of(ds, AttributeKind::DpiScale)
    } else {
        none
    }));
    if policy.save_hdr_state {
        push_requests(&layout.displays, AttributeKind::AdvancedColor, &mut out);
    }
    if policy.save_sdr_white_level {
        push_requests(&layout.displays, AttributeKind::WhiteLevel, &mut out);
    }
    let ghost before_globals = out@;
    if policy.save_icon_size {
        match layout.global_info.icon_size {
            Some(s) => out.push(AttributeRequest::SetIconSize(s)),
            None => {},
        }
    }
    if policy.save_wallpaper_info && layout.global_info.wallpaper_info.is_some() {
        out.push(AttributeRequest::SetWallpaper);
    }
    if policy.save_audio_output && layout.global_info.audio_output.is_some() {
        out.push(AttributeRequest::SetAudioOutput);
    }
    assert(out@ =~= spec_attribute_plan(layout.displays@, layout.global_info, *policy));
    out
}

/// Alternates the items of two sequences, starting with the first; once one
/// runs out, the rest of the other follows.
pub open spec fn interleaved<T>(a: Seq<T>, b: Seq<T>) -> Seq<T>
    decreases a.len() + b.len(),
{
    if a.len() == 0 {
        b
    } else {
        seq![a[0]] + interleaved(b, a.drop_first())
    }
}

/// Of two sequences of one length, the interleaving holds the first's items
/// at even positions and the second's at odd ones.
pub proof fn lemma_interleaved_equal_lengths<T>(a: Seq<T>, b: Seq<T>)
    requires
        a.len() == b.len(),
    ensures
        interleaved(a, b).len() == 2 * a.len(),
        forall|i: int| 0 <= i < a.len() ==> #[trigger] interleaved(a, b)[2 * i] == a[i],
        forall|i: int| 0 <= i < a.len() ==> #[trigger] interleaved(a, b)[2 * i + 1] == b[i],
    decreases a.len(),
{
    if a.len() > 0 {
        let a1 = a.drop_first();
        let b1 = b.drop_first();
        lemma_interleaved_equal_lengths(a1, b1);
        assert(interleaved(b, a1) == seq![b[0]] + interleaved(a1, b1));
        let r = interleaved(a, b);
        assert(r == seq![a[0]] + (seq![b[0]] + interleaved(a1, b1)));
        assert forall|i: int| 0 <= i < a.len() implies #[trigger] r[2 * i] == a[i] by {
            if i > 0 {
                assert(r[2 * i] == interleaved(a1, b1)[2 * (i - 1)]);
            }
        }
        assert forall|i: int| 0 <= i < a.len() implies #[trigger] r[2 * i + 1] == b[i] by {
            if i > 0 {
                assert(r[2 * i + 1] == interleaved(a1, b1)[2 * (i - 1) + 1]);
            }
        }
    }
}

/// Relies on itertools' `Itertools::interleave`: it yields an item of the
/// first iterator, then one of the second, and so on; once one is exhausted,
/// the rest of the other.
#[verifier::external_body]
fn interleave_modes(first: Vec<ModeRecord>, second: Vec<ModeRecord>) -> (r: Vec<ModeRecord>)
    ensures
        r@ == interleaved(first@, second@),
{
    first.into_iter().interleave(second).collect()
}

pub open spec fn paths_of(ds: Seq<Display>) -> Seq<PathInfo> {
    ds.map_values(|d: Display| d.path_info)
}

pub open spec fn target_modes_of(ds: Seq<Display>) -> Seq<ModeRecord> {
    ds.map_values(|d: Display| d.mode_info.target_mode_info)
}

pub open spec fn source_modes_of(ds: Seq<Display>) -> Seq<ModeRecord> {
    ds.map_values(|d: Display| d.mode_info.source_mode_info)
}

/// The arrays the apply calls take: one path per display, and the mode
/// records as target, source, target, source, ... in display order.
pub fn build_config_arrays(displays: &Vec<Display>) -> (r: (Vec<PathInfo>, Vec<ModeRecord>))
    ensures
        r.0@ == paths_of(displays@),
        r.1@ == interleaved(target_modes_of(displays@), source_modes_of(displays@)),
        r.1@.len() == 2 * displays@.len(),
        forall|i: int|
            0 <= i < displays@.len() ==> r.1@[2 * i] == displays@[i].mode_info.target_mode_info
                && r.1@[2 * i + 1] == displays@[i].mode_info.source_mode_info,
{
    let mut paths: Vec<PathInfo> = Vec::new();
    let mut targets: Vec<ModeRecord> = Vec::new();
    let mut sources: Vec<ModeRecord> = Vec::new();
    let mut i: usize = 0;
    while i < displays.len()
        invariant
            0 <= i <= displays@.len(),
            paths@ == paths_of(displays@.take(i as int)),
            targets@ == target_modes_of(displays@.take(i as int)),
            sources@ == source_modes_of(displays@.take(i as int)),
        decreases displays@.len() - i,
    {
        let d = displays[i];
        paths.push(d.path_info);
        targets.push(d.mode_info.target_mode_info);
        sources.push(d.mode_info.source_mode_info);
        assert(paths_of(displays@.take(i + 1)) =~= paths_of(displays@.take(i as int)).push(
            d.path_info,
        ));
        assert(target_modes_of(displays@.take(i + 1)) =~= target_modes_of(
            displays@.take(i as int),
        ).push(d.mode_info.target_mode_info));
        assert(source_modes_of(displays@.take(i + 1)) =~= source_modes_of(
            displays@.take(i as int),
        ).push(d.mode_info.source_mode_info));
        i = i + 1;
    }
    assert(displays@.take(displays@.len() as int) =~= displays@);
    let modes = interleave_modes(targets, sources);
    proof {
        lemma_interleaved_equal_lengths(target_modes_of(displays@), source_modes_of(displays@));
    }
    (paths, modes)
}

/// Where an apply stands.
#[derive(Debug, Clone, Copy, PartialEq, Eq)]
pub enum ApplyStage {
    AwaitSnapshot,
    AwaitValidation,
    AwaitCommit,
    AwaitEscalatedCommit,
    /// Restoring attributes; `next` is the position of the pending request in the plan.
    ApplyingAttributes { next: usize },
    Finished(Result<(), ApplyError>),
}

/// What the engine asks for next.
#[derive(Debug, Clone, Copy, PartialEq, Eq)]
pub enum ApplyAction {
    /// Read a fresh live snapshot.
    TakeSnapshot,
    /// Hand the operating system the arrays of `build_config_arrays` with these flags.
    SetConfig { flags: u32 },
    /// Perform one attribute request.
    ApplyAttribute(AttributeRequest),
    /// The apply is over.
    Done(Result<(), ApplyError>),
}

/// The stage after a successful commit: restore attributes, or finish where
/// there are none.
pub open spec fn after_commit(n: nat) -> ApplyStage {
    if n == 0 {
        ApplyStage::Finished(Ok(()))
    } else {
        ApplyStage::ApplyingAttributes { next: 0 }
    }
}

/// The stage after the operating system answered an apply call with `code`
/// (0 is success). A failed validation ends the apply before any commit; a
/// failed plain commit escalates; a failed escalated commit ends the apply
/// with its own code.
pub open spec fn stage_after_config(stage: ApplyStage, code: i32, n: nat) -> ApplyStage {
    match stage {
        ApplyStage::AwaitValidation => if code == 0 {
            ApplyStage::AwaitCommit
        } else {
            ApplyStage::Finished(Err(ApplyError::InvalidInput(code)))
        },
        ApplyStage::AwaitCommit => if code == 0 {
            after_commit(n)
        } else {
            ApplyStage::AwaitEscalatedCommit
        },
        ApplyStage::AwaitEscalatedCommit => if code == 0 {
            after_commit(n)
        } else {
            ApplyStage::Finished(Err(ApplyError::ApplyRejected(code)))
        },
        _ => stage,
    }
}

/// The stage after an attribute request ended: the next request, the end of
/// the apply, or its failure with the request's error.
pub open spec fn stage_after_attribute(
    stage: ApplyStage,
    result: Result<(), AttributeError>,
    n: nat,
) -> ApplyStage {
    match stage {
        ApplyStage::ApplyingAttributes { next } => match result {
            Ok(()) => if next + 1 < n {
                ApplyStage::ApplyingAttributes { next: (next + 1) as usize }
            } else {
                ApplyStage::Finished(Ok(()))
            },
            Err(e) => ApplyStage::Finished(Err(ApplyError::Attribute(e))),
        },
        _ => stage,
    }
}

/// The action that a stage asks for.
pub open spec fn spec_action(stage: ApplyStage, plan: Seq<AttributeRequest>) -> ApplyAction {
    match stage {
        ApplyStage::AwaitSnapshot => ApplyAction::TakeSnapshot,
        ApplyStage::AwaitValidation => ApplyAction::SetConfig { flags: VALIDATE_FLAGS },
        ApplyStage::AwaitCommit => ApplyAction::SetConfig { flags: COMMIT_FLAGS },
        ApplyStage::AwaitEscalatedCommit => ApplyAction::SetConfig { flags: ESCALATED_COMMIT_FLAGS },
        ApplyStage::ApplyingAttributes { next } => ApplyAction::ApplyAttribute(plan[next as int]),
        ApplyStage::Finished(o) => ApplyAction::Done(o),
    }
}

/// The state of one apply: its stage and the attribute requests planned for
/// after the commit.
pub struct ApplyEngine {
    pub stage: ApplyStage,
    pub plan: Vec<AttributeRequest>,
}

impl ApplyEngine {
    /// The engine's invariant: a pending attribute request lies in the plan.
    pub open spec fn well_formed(&self) -> bool {
        self.stage matches ApplyStage::ApplyingAttributes { next } ==> next < self.plan@.len()
    }

    /// Starts an apply; the first action is to read a live snapshot.
    pub fn new() -> (r: (Self, ApplyAction))
        ensures
            r.0.stage == ApplyStage::AwaitSnapshot,
            r.0.plan@.len() == 0,
            r.0.well_formed(),
            r.1 == ApplyAction::TakeSnapshot,
    {
        (ApplyEngine { stage: ApplyStage::AwaitSnapshot, plan: Vec::new() }, ApplyAction::TakeSnapshot)
    }

    /// The action the apply waits on.
    pub fn pending_action(&self) -> (r: ApplyAction)
        requires
            self.well_formed(),
        ensures
            r == spec_action(self.stage, self.plan@),
    {
        match self.stage {
            ApplyStage::AwaitSnapshot => ApplyAction::TakeSnapshot,
            ApplyStage::AwaitValidation => ApplyAction::SetConfig { flags: VALIDATE_FLAGS },
            ApplyStage::AwaitCommit => ApplyAction::SetConfig { flags: COMMIT_FLAGS },
            ApplyStage::AwaitEscalatedCommit => ApplyAction::SetConfig {
                flags: ESCALATED_COMMIT_FLAGS,
            },
            ApplyStage::ApplyingAttributes { next } => ApplyAction::ApplyAttribute(self.plan[next]),
            ApplyStage::Finished(o) => ApplyAction::Done(o),
        }
    }

    /// The live snapshot arrived. On success the profile's adapter
    /// identifiers are remapped from it, the attribute plan is drawn from the
    /// remapped profile, and validation is asked for; on failure the apply
    /// ends and the profile is left as it was.
    pub fn on_snapshot(
        &mut self,
        live: Result<DisplayLayout, TopologyError>,
        profile: &mut DisplayLayout,
        policy: &GlobalConfig,
    ) -> (r: ApplyAction)
        requires
            old(self).stage == ApplyStage::AwaitSnapshot,
        ensures
            final(self).well_formed(),
            r == spec_action(final(self).stage, final(self).plan@),
            match live {
                Ok(l) => {
                    &&& final(self).stage == ApplyStage::AwaitValidation
                    &&& final(profile).displays@.len() == old(profile).displays@.len()
                    &&& forall|i: int|
                        0 <= i < old(profile).displays@.len() ==> #[trigger] final(profile).displays@[i]
                            == remapped(l.displays@, old(profile).displays@[i])
                    &&& final(profile).global_info == old(profile).global_info
                    &&& final(self).plan@ == spec_attribute_plan(
                        final(profile).displays@,
                        final(profile).global_info,
                        *policy,
                    )
                },
                Err(e) => {
                    &&& final(self).stage == ApplyStage::Finished(Err(ApplyError::Snapshot(e)))
                    &&& *final(profile) == *old(profile)
                },
            },
    {
        match live {
            Ok(l) => {
                adjust_adapter_ids(&l, profile);
                self.plan = attribute_plan(profile, policy);
                self.stage = ApplyStage::AwaitValidation;
            },
            Err(e) => {
                self.stage = ApplyStage::Finished(Err(ApplyError::Snapshot(e)));
            },
        }
        self.pending_action()
    }

    /// The operating system answered an apply call with `code` (0 is success).
    pub fn on_config_result(&mut self, code: i32) -> (r: ApplyAction)
        requires
            old(self).well_formed(),
            old(self).stage is AwaitValidation || old(self).stage is AwaitCommit
                || old(self).stage is AwaitEscalatedCommit,
        ensures
            final(self).well_formed(),
            final(self).stage == stage_after_config(old(self).stage, code, old(self).plan@.len()),
            final(self).plan@ == old(self).plan@,
            r == spec_action(final(self).stage, final(self).plan@),
    {
        let n = self.plan.len();
        let after_commit = if n == 0 {
            ApplyStage::Finished(Ok(()))
        } else {
            ApplyStage::ApplyingAttributes { next: 0 }
        };
        self.stage = match self.stage {
            ApplyStage::AwaitValidation => if code == 0 {
                ApplyStage::AwaitCommit
            } else {
                ApplyStage::Finished(Err(ApplyError::InvalidInput(code)))
            },
            ApplyStage::AwaitCommit => if code == 0 {
                after_commit
            } else {
                ApplyStage::AwaitEscalatedCommit
            },
            _ => if code == 0 {
                after_commit
            } else {
                ApplyStage::Finished(Err(ApplyError::ApplyRejected(code)))
            },
        };
        self.pending_action()
    }

    /// The pending attribute request ended with `result`.
    pub fn on_attribute_result(&mut self, result: Result<(), AttributeError>) -> (r: ApplyAction)
        requires
            old(self).well_formed(),
            old(self).stage is ApplyingAttributes,
        ensures
            final(self).well_formed(),
            final(self).stage == stage_after_attribute(old(self).stage, result, old(self).plan@.len()),
            final(self).plan@ == old(self).plan@,
            r == spec_action(final(self).stage, final(self).plan@),
    {
        if let ApplyStage::ApplyingAttributes { next } = self.stage {
            let len = self.plan.len();
            assert(next < len);
            self.stage = match result {
                Ok(()) => if next + 1 < len {
                    ApplyStage::ApplyingAttributes { next: next + 1 }
                } else {
                    ApplyStage::Finished(Ok(()))
                },
                Err(e) => ApplyStage::Finished(Err(ApplyError::Attribute(e))),
            };
        }
        self.pending_action()
    }
}

/// Staged commits: after a successful validation, a commit that fails with
/// the plain flags is retried with allow-changes added; if that succeeds the
/// apply goes on as after any commit (and with no attributes to restore it is
/// a success); if it fails too, the apply ends with the escalated call's code,
/// not the first. A failed validation ends the apply before any commit.
pub proof fn lemma_staged_apply_escalation(first: i32, second: i32, n: nat)
    requires
        first != 0,
    ensures
        stage_after_config(stage_after_config(ApplyStage::AwaitValidation, 0, n), first, n)
            == ApplyStage::AwaitEscalatedCommit,
        spec_action(ApplyStage::AwaitEscalatedCommit, Seq::empty()) == (ApplyAction::SetConfig {
            flags: COMMIT_FLAGS | SDC_ALLOW_CHANGES,
        }),
        stage_after_config(ApplyStage::AwaitEscalatedCommit, 0, n) == after_commit(n),
        stage_after_config(ApplyStage::AwaitCommit, 0, n) == after_commit(n),
        after_commit(0) == ApplyStage::Finished(Ok(())),
        second != 0 ==> stage_after_config(ApplyStage::AwaitEscalatedCommit, second, n)
            == ApplyStage::Finished(Err(ApplyError::ApplyRejected(second))),
        stage_after_config(ApplyStage::AwaitValidation, first, n) == ApplyStage::Finished(
            Err(ApplyError::InvalidInput(first)),
        ),
{
}

/// Re-applying what is live: remapping a consistent snapshot against itself
/// changes nothing, and planning its current DPI scale or advanced-color state
/// asks the operating system for nothing.
pub proof fn lemma_reapply_current_is_noop(live: Seq<Display>, dpi: DpiScalingInfo, hdr: HdrInfo)
    requires
        forall|i: int, j: int|
            0 <= i < live.len() && 0 <= j < live.len() && target_id_of(#[trigger] live[i])
                == target_id_of(#[trigger] live[j]) ==> i == j,
        forall|i: int|
            0 <= i < live.len() ==> carries_only_adapter(
                #[trigger] live[i],
                live[i].path_info.target_info.adapter_id,
            ),
    ensures
        forall|i: int| 0 <= i < live.len() ==> remapped(live, #[trigger] live[i]) == live[i],
        spec_plan_dpi_change(dpi.current, dpi) matches Ok(None),
        hdr.advanced_color_supported ==> (spec_plan_hdr_change(
            hdr,
            hdr.advanced_color_enabled,
        ) matches Ok(None)),
{
    lemma_remap_against_itself(live);
}

} // verus!
