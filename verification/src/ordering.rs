//! Laws of the lazy configuration: the order of setter calls does not
//! matter, re-applying changes nothing, and every setting survives
//! libjpeg's `jpeg_set_defaults`.
use vstd::prelude::*;
use crate::compress::{ConfigChange, ConfigStep, PendingModel, ScanMode, plan_head, plan_tail, reruns_defaults, spec_plan, then_if};

verus! {

/// The configuration after the setter calls `cs`, in order.
pub open spec fn apply_changes(p: PendingModel, cs: Seq<ConfigChange>) -> PendingModel
    decreases cs.len(),
{
    if cs.len() == 0 {
        p
    } else {
        apply_changes(p, cs.drop_last()).changed(cs.last())
    }
}

/// The last call in `cs` that writes setting `t`, if any.
pub open spec fn last_change(cs: Seq<ConfigChange>, t: nat) -> Option<ConfigChange>
    decreases cs.len(),
{
    if cs.len() == 0 {
        None
    } else if cs.last().target() == t {
        Some(cs.last())
    } else {
        last_change(cs.drop_last(), t)
    }
}

/// Each setting of `p`, overwritten by the last call in `cs` that writes it.
pub open spec fn latest_settings(p: PendingModel, cs: Seq<ConfigChange>) -> PendingModel {
    PendingModel {
        width: match last_change(cs, 0) {
            Some(ConfigChange::Size(w, _)) => Some(w),
            _ => p.width,
        },
        height: match last_change(cs, 0) {
            Some(ConfigChange::Size(_, h)) => Some(h),
            _ => p.height,
        },
        output_colorspace: match last_change(cs, 1) {
            Some(ConfigChange::ColorSpace(c)) => Some(c),
            _ => p.output_colorspace,
        },
        scan_mode: match last_change(cs, 2) {
            Some(ConfigChange::ScanMode(m)) => Some(m),
            _ => p.scan_mode,
        },
        fastest_defaults: match last_change(cs, 3) {
            Some(ConfigChange::FastestDefaults) => true,
            _ => p.fastest_defaults,
        },
        quality: match last_change(cs, 4) {
            Some(ConfigChange::Quality(q, f)) => Some((q, f)),
            _ => p.quality,
        },
        luma_qtable: match last_change(cs, 5) {
            Some(ConfigChange::LumaQTable(t, f)) => Some((t, f)),
            _ => p.luma_qtable,
        },
        chroma_qtable: match last_change(cs, 6) {
            Some(ConfigChange::ChromaQTable(t, f)) => Some((t, f)),
            _ => p.chroma_qtable,
        },
        smoothing_factor: match last_change(cs, 7) {
            Some(ConfigChange::Smoothing(v)) => Some(v),
            _ => p.smoothing_factor,
        },
        pixel_density: match last_change(cs, 8) {
            Some(ConfigChange::PixelDensity(d)) => Some(d),
            _ => p.pixel_density,
        },
        optimize_coding: match last_change(cs, 9) {
            Some(ConfigChange::OptimizeCoding(b)) => Some(b),
            _ => p.optimize_coding,
        },
        optimize_scans: match last_change(cs, 10) {
            Some(ConfigChange::OptimizeScans(b)) => Some(b),
            _ => p.optimize_scans,
        },
        use_scans_in_trellis: match last_change(cs, 11) {
            Some(ConfigChange::UseScansInTrellis(b)) => Some(b),
            _ => p.use_scans_in_trellis,
        },
        progressive_mode: match last_change(cs, 12) {
            Some(ConfigChange::Progressive) => true,
            _ => p.progressive_mode,
        },
        raw_data_in: match last_change(cs, 13) {
            Some(ConfigChange::RawDataIn(b)) => Some(b),
            _ => p.raw_data_in,
        },
        subsampling: match last_change(cs, 14) {
            Some(ConfigChange::Subsampling(f)) => Some(f),
            _ => p.subsampling,
        },
    }
}

#[verifier::spinoff_prover]
#[verifier::rlimit(100)]
proof fn lemma_latest_step(p: PendingModel, prev: Seq<ConfigChange>, c: ConfigChange)
    ensures
        latest_settings(p, prev).changed(c) == latest_settings(p, prev.push(c)),
{
    let cs = prev.push(c);
    assert(cs.drop_last() =~= prev);
    assert(cs.last() == c);
    let q = latest_settings(p, prev);
    let r = latest_settings(p, cs);
    assert(last_change(cs, 0) == (if c.target() == 0 { Some(c) } else { last_change(prev, 0) }));
    assert(last_change(cs, 1) == (if c.target() == 1 { Some(c) } else { last_change(prev, 1) }));
    assert(last_change(cs, 2) == (if c.target() == 2 { Some(c) } else { last_change(prev, 2) }));
    assert(last_change(cs, 3) == (if c.target() == 3 { Some(c) } else { last_change(prev, 3) }));
    assert(last_change(cs, 4) == (if c.target() == 4 { Some(c) } else { last_change(prev, 4) }));
    assert(last_change(cs, 5) == (if c.target() == 5 { Some(c) } else { last_change(prev, 5) }));
    assert(last_change(cs, 6) == (if c.target() == 6 { Some(c) } else { last_change(prev, 6) }));
    assert(last_change(cs, 7) == (if c.target() == 7 { Some(c) } else { last_change(prev, 7) }));
    assert(last_change(cs, 8) == (if c.target() == 8 { Some(c) } else { last_change(prev, 8) }));
    assert(last_change(cs, 9) == (if c.target() == 9 { Some(c) } else { last_change(prev, 9) }));
    assert(last_change(cs, 10) == (if c.target() == 10 { Some(c) } else { last_change(prev, 10) }));
    assert(last_change(cs, 11) == (if c.target() == 11 { Some(c) } else { last_change(prev, 11) }));
    assert(last_change(cs, 12) == (if c.target() == 12 { Some(c) } else { last_change(prev, 12) }));
    assert(last_change(cs, 13) == (if c.target() == 13 { Some(c) } else { last_change(prev, 13) }));
    assert(last_change(cs, 14) == (if c.target() == 14 { Some(c) } else { last_change(prev, 14) }));
    match c {
        ConfigChange::Size(w, h) => { assert(q.changed(c) == r); },
        ConfigChange::ColorSpace(_) => { assert(q.changed(c) == r); },
        ConfigChange::ScanMode(_) => { assert(q.changed(c) == r); },
        ConfigChange::FastestDefaults => { assert(q.changed(c) == r); },
        ConfigChange::Quality(..) => { assert(q.changed(c) == r); },
        ConfigChange::LumaQTable(..) => { assert(q.changed(c) == r); },
        ConfigChange::ChromaQTable(..) => { assert(q.changed(c) == r); },
        ConfigChange::Smoothing(_) => { assert(q.changed(c) == r); },
        ConfigChange::PixelDensity(_) => { assert(q.changed(c) == r); },
        ConfigChange::OptimizeCoding(_) => { assert(q.changed(c) == r); },
        ConfigChange::OptimizeScans(_) => { assert(q.changed(c) == r); },
        ConfigChange::UseScansInTrellis(_) => { assert(q.changed(c) == r); },
        ConfigChange::Progressive => { assert(q.changed(c) == r); },
        ConfigChange::RawDataIn(_) => { assert(q.changed(c) == r); },
        ConfigChange::Subsampling(_) => { assert(q.changed(c) == r); },
    }
}

/// The configuration after a sequence of setter calls holds, for each
/// setting, the value of the last call that wrote it.
pub proof fn lemma_apply_changes_latest(p: PendingModel, cs: Seq<ConfigChange>)
    ensures
        apply_changes(p, cs) == latest_settings(p, cs),
    decreases cs.len(),
{
    if cs.len() == 0 {
        assert(latest_settings(p, cs) == p);
    } else {
        let prev = cs.drop_last();
        lemma_apply_changes_latest(p, prev);
        lemma_latest_step(p, prev, cs.last());
        assert(prev.push(cs.last()) =~= cs);
    }
}

/// Setter calls that write different settings commute.
pub proof fn lemma_changes_commute(p: PendingModel, a: ConfigChange, b: ConfigChange)
    requires
        a.target() != b.target(),
    ensures
        p.changed(a).changed(b) == p.changed(b).changed(a),
{
}

/// Of two setter calls that write the same setting, the later one wins.
pub proof fn lemma_later_change_wins(p: PendingModel, a: ConfigChange, b: ConfigChange)
    requires
        a.target() == b.target(),
    ensures
        p.changed(a).changed(b) == p.changed(b),
{
}

/// Order independence: two sequences of setter calls that end with the same
/// last call for every setting give the same configuration, whatever the
/// order of the calls.
pub proof fn lemma_order_independent(p: PendingModel, cs1: Seq<ConfigChange>, cs2: Seq<ConfigChange>)
    requires
        forall|t: nat| t < 15 ==> last_change(cs1, t) == last_change(cs2, t),
    ensures
        apply_changes(p, cs1) == apply_changes(p, cs2),
{
    lemma_apply_changes_latest(p, cs1);
    lemma_apply_changes_latest(p, cs2);
    assert(last_change(cs1, 0) == last_change(cs2, 0));
    assert(last_change(cs1, 1) == last_change(cs2, 1));
    assert(last_change(cs1, 2) == last_change(cs2, 2));
    assert(last_change(cs1, 3) == last_change(cs2, 3));
    assert(last_change(cs1, 4) == last_change(cs2, 4));
    assert(last_change(cs1, 5) == last_change(cs2, 5));
    assert(last_change(cs1, 6) == last_change(cs2, 6));
    assert(last_change(cs1, 7) == last_change(cs2, 7));
    assert(last_change(cs1, 8) == last_change(cs2, 8));
    assert(last_change(cs1, 9) == last_change(cs2, 9));
    assert(last_change(cs1, 10) == last_change(cs2, 10));
    assert(last_change(cs1, 11) == last_change(cs2, 11));
    assert(last_change(cs1, 12) == last_change(cs2, 12));
    assert(last_change(cs1, 13) == last_change(cs2, 13));
    assert(last_change(cs1, 14) == last_change(cs2, 14));
}

/// Order independence, as libjpeg sees it: two sequences of setter calls
/// that end with the same last call for every setting plan the same steps,
/// whatever was applied before.
pub proof fn lemma_order_independent_plan(
    p: PendingModel,
    cs1: Seq<ConfigChange>,
    cs2: Seq<ConfigChange>,
    applied: PendingModel,
)
    requires
        forall|t: nat| t < 15 ==> last_change(cs1, t) == last_change(cs2, t),
    ensures
        spec_plan(apply_changes(p, cs1), applied) == spec_plan(apply_changes(p, cs2), applied),
{
    lemma_order_independent(p, cs1, cs2);
}

/// The scan optimization mode no longer resets other settings: setting it
/// and setting anything else, in either order, records the same.
pub proof fn lemma_scan_mode_commutes(p: PendingModel, m: ScanMode, c: ConfigChange)
    requires
        c.target() != 2,
    ensures
        p.changed(ConfigChange::ScanMode(m)).changed(c) == p.changed(c).changed(ConfigChange::ScanMode(m)),
{
    lemma_changes_commute(p, ConfigChange::ScanMode(m), c);
}

/// Asking for the fastest defaults commutes with every other setter, and
/// asking twice is asking once.
pub proof fn lemma_fastest_defaults_commutes(p: PendingModel, c: ConfigChange)
    requires
        c.target() != 3,
    ensures
        p.changed(ConfigChange::FastestDefaults).changed(c) == p.changed(c).changed(ConfigChange::FastestDefaults),
        p.changed(ConfigChange::FastestDefaults).changed(ConfigChange::FastestDefaults)
            == p.changed(ConfigChange::FastestDefaults),
{
    lemma_changes_commute(p, ConfigChange::FastestDefaults, c);
    lemma_later_change_wins(p, ConfigChange::FastestDefaults, ConfigChange::FastestDefaults);
}

/// Whether the setting a step writes differs between `p` and `s`
/// (`jpeg_set_defaults` is no setting).
pub open spec fn step_changed(st: ConfigStep, p: PendingModel, s: PendingModel) -> bool {
    match st {
        ConfigStep::ImageWidth => p.width != s.width,
        ConfigStep::ImageHeight => p.height != s.height,
        ConfigStep::ColorSpace => p.output_colorspace != s.output_colorspace,
        ConfigStep::ScanMode => p.scan_mode != s.scan_mode,
        ConfigStep::FastestProfile => p.fastest_defaults != s.fastest_defaults,
        ConfigStep::Defaults => false,
        ConfigStep::Quality => p.quality != s.quality,
        ConfigStep::LumaQTable => p.luma_qtable != s.luma_qtable,
        ConfigStep::ChromaQTable => p.chroma_qtable != s.chroma_qtable,
        ConfigStep::Smoothing => p.smoothing_factor != s.smoothing_factor,
        ConfigStep::PixelDensity => p.pixel_density != s.pixel_density,
        ConfigStep::OptimizeCoding => p.optimize_coding != s.optimize_coding,
        ConfigStep::OptimizeScans => p.optimize_scans != s.optimize_scans,
        ConfigStep::UseScansInTrellis => p.use_scans_in_trellis != s.use_scans_in_trellis,
        ConfigStep::Progression => p.progressive_mode != s.progressive_mode,
        ConfigStep::RawDataIn => p.raw_data_in != s.raw_data_in,
        ConfigStep::SamplingFactors => p.subsampling != s.subsampling,
    }
}

proof fn lemma_then_if_changed(x: Seq<ConfigStep>, c: bool, st: ConfigStep, p: PendingModel, s: PendingModel)
    requires
        forall|i: int| 0 <= i < x.len() ==> step_changed(#[trigger] x[i], p, s),
        c ==> step_changed(st, p, s),
    ensures
        forall|i: int| 0 <= i < then_if(x, c, st).len() ==> step_changed(#[trigger] then_if(x, c, st)[i], p, s),
{
    if c {
        assert forall|i: int| 0 <= i < x.push(st).len() implies step_changed(#[trigger] x.push(st)[i], p, s) by {
            if i < x.len() {
                assert(x.push(st)[i] == x[i]);
            }
        }
    }
}

/// Without a change of the scan optimization mode or of the fastest
/// defaults, applying runs no `jpeg_set_defaults` and writes only the
/// settings that changed since the last application; what was set on
/// libjpeg directly in between, in fields no changed setting writes, stays.
pub proof fn lemma_plan_without_defaults(p: PendingModel, s: PendingModel)
    requires
        p.scan_mode == s.scan_mode,
        p.fastest_defaults == s.fastest_defaults,
    ensures
        !spec_plan(p, s).contains(ConfigStep::Defaults),
        forall|i: int| 0 <= i < spec_plan(p, s).len() ==> step_changed(#[trigger] spec_plan(p, s)[i], p, s),
{
    let e = Seq::<ConfigStep>::empty();
    let h1 = then_if(e, p.width != s.width && p.width is Some, ConfigStep::ImageWidth);
    lemma_then_if_changed(e, p.width != s.width && p.width is Some, ConfigStep::ImageWidth, p, s);
    let h2 = then_if(h1, p.height != s.height && p.height is Some, ConfigStep::ImageHeight);
    lemma_then_if_changed(h1, p.height != s.height && p.height is Some, ConfigStep::ImageHeight, p, s);
    let c3 = p.output_colorspace != s.output_colorspace && p.output_colorspace is Some;
    let h3 = then_if(h2, c3, ConfigStep::ColorSpace);
    lemma_then_if_changed(h2, c3, ConfigStep::ColorSpace, p, s);
    let h4 = then_if(h3, p.scan_mode != s.scan_mode && p.scan_mode is Some, ConfigStep::ScanMode);
    lemma_then_if_changed(h3, p.scan_mode != s.scan_mode && p.scan_mode is Some, ConfigStep::ScanMode, p, s);
    let h5 = then_if(h4, p.fastest_defaults != s.fastest_defaults && p.fastest_defaults, ConfigStep::FastestProfile);
    lemma_then_if_changed(h4, p.fastest_defaults != s.fastest_defaults && p.fastest_defaults, ConfigStep::FastestProfile, p, s);
    assert(!reruns_defaults(p, s));
    let head = then_if(h5, reruns_defaults(p, s), ConfigStep::Defaults);
    assert(head == plan_head(p, s));
    let t1 = then_if(head, p.quality != s.quality && p.quality is Some, ConfigStep::Quality);
    lemma_then_if_changed(head, p.quality != s.quality && p.quality is Some, ConfigStep::Quality, p, s);
    let c2 = p.luma_qtable != s.luma_qtable && p.luma_qtable is Some;
    let t2 = then_if(t1, c2, ConfigStep::LumaQTable);
    lemma_then_if_changed(t1, c2, ConfigStep::LumaQTable, p, s);
    let c3b = p.chroma_qtable != s.chroma_qtable && p.chroma_qtable is Some;
    let t3 = then_if(t2, c3b, ConfigStep::ChromaQTable);
    lemma_then_if_changed(t2, c3b, ConfigStep::ChromaQTable, p, s);
    let c4 = p.smoothing_factor != s.smoothing_factor && p.smoothing_factor is Some;
    let t4 = then_if(t3, c4, ConfigStep::Smoothing);
    lemma_then_if_changed(t3, c4, ConfigStep::Smoothing, p, s);
    let c5 = p.pixel_density != s.pixel_density && p.pixel_density is Some;
    let t5 = then_if(t4, c5, ConfigStep::PixelDensity);
    lemma_then_if_changed(t4, c5, ConfigStep::PixelDensity, p, s);
    let c6 = p.optimize_coding != s.optimize_coding && p.optimize_coding is Some;
    let t6 = then_if(t5, c6, ConfigStep::OptimizeCoding);
    lemma_then_if_changed(t5, c6, ConfigStep::OptimizeCoding, p, s);
    let c7 = p.optimize_scans != s.optimize_scans && p.optimize_scans is Some;
    let t7 = then_if(t6, c7, ConfigStep::OptimizeScans);
    lemma_then_if_changed(t6, c7, ConfigStep::OptimizeScans, p, s);
    let c8 = p.use_scans_in_trellis != s.use_scans_in_trellis && p.use_scans_in_trellis is Some;
    let t8 = then_if(t7, c8, ConfigStep::UseScansInTrellis);
    lemma_then_if_changed(t7, c8, ConfigStep::UseScansInTrellis, p, s);
    let c9 = p.progressive_mode && !s.progressive_mode;
    let t9 = then_if(t8, c9, ConfigStep::Progression);
    lemma_then_if_changed(t8, c9, ConfigStep::Progression, p, s);
    let c10 = p.raw_data_in != s.raw_data_in && p.raw_data_in is Some;
    let t10 = then_if(t9, c10, ConfigStep::RawDataIn);
    lemma_then_if_changed(t9, c10, ConfigStep::RawDataIn, p, s);
    let c11 = p.subsampling != s.subsampling && p.subsampling is Some;
    let t11 = then_if(t10, c11, ConfigStep::SamplingFactors);
    lemma_then_if_changed(t10, c11, ConfigStep::SamplingFactors, p, s);
    assert(t11 == spec_plan(p, s));
    if spec_plan(p, s).contains(ConfigStep::Defaults) {
        let i = choose|i: int| 0 <= i < spec_plan(p, s).len() && spec_plan(p, s)[i] == ConfigStep::Defaults;
        assert(step_changed(spec_plan(p, s)[i], p, s));
    }
}

/// Whether applying `p` over `s` has to write the setting of step `st`: it
/// is set in `p` and differs from what `s` applied (progressive mode, which
/// can only be turned on, when it is newly on; the fastest profile when it is
/// newly asked for).
pub open spec fn step_wanted(st: ConfigStep, p: PendingModel, s: PendingModel) -> bool {
    match st {
        ConfigStep::ImageWidth => p.width is Some && p.width != s.width,
        ConfigStep::ImageHeight => p.height is Some && p.height != s.height,
        ConfigStep::ColorSpace => p.output_colorspace is Some && p.output_colorspace != s.output_colorspace,
        ConfigStep::ScanMode => p.scan_mode is Some && p.scan_mode != s.scan_mode,
        ConfigStep::FastestProfile => p.fastest_defaults && !s.fastest_defaults,
        ConfigStep::Defaults => false,
        ConfigStep::Quality => p.quality is Some && p.quality != s.quality,
        ConfigStep::LumaQTable => p.luma_qtable is Some && p.luma_qtable != s.luma_qtable,
        ConfigStep::ChromaQTable => p.chroma_qtable is Some && p.chroma_qtable != s.chroma_qtable,
        ConfigStep::Smoothing => p.smoothing_factor is Some && p.smoothing_factor != s.smoothing_factor,
        ConfigStep::PixelDensity => p.pixel_density is Some && p.pixel_density != s.pixel_density,
        ConfigStep::OptimizeCoding => p.optimize_coding is Some && p.optimize_coding != s.optimize_coding,
        ConfigStep::OptimizeScans => p.optimize_scans is Some && p.optimize_scans != s.optimize_scans,
        ConfigStep::UseScansInTrellis => p.use_scans_in_trellis is Some
            && p.use_scans_in_trellis != s.use_scans_in_trellis,
        ConfigStep::Progression => p.progressive_mode && !s.progressive_mode,
        ConfigStep::RawDataIn => p.raw_data_in is Some && p.raw_data_in != s.raw_data_in,
        ConfigStep::SamplingFactors => p.subsampling is Some && p.subsampling != s.subsampling,
    }
}

proof fn lemma_then_if_contains(x: Seq<ConfigStep>, c: bool, st: ConfigStep, y: ConfigStep)
    ensures
        then_if(x, c, st).contains(y) == (x.contains(y) || (c && y == st)),
{
    if c {
        if x.contains(y) {
            let i = choose|i: int| 0 <= i < x.len() && x[i] == y;
            assert(x.push(st)[i] == y);
        }
        if y == st {
            assert(x.push(st)[x.len() as int] == st);
        }
        if x.push(st).contains(y) {
            let i = choose|i: int| 0 <= i < x.push(st).len() && x.push(st)[i] == y;
            if i < x.len() {
                assert(x[i] == y);
            }
        }
    }
}

/// Nothing changed is lost: every setting that is set and differs from what
/// was applied last gets its step when the configuration is applied, with
/// or without a re-run of libjpeg's defaults.
#[verifier::spinoff_prover]
pub proof fn lemma_plan_writes_every_change(p: PendingModel, s: PendingModel, st: ConfigStep)
    ensures
        step_wanted(st, p, s) ==> spec_plan(p, s).contains(st),
{
    let d = reruns_defaults(p, s);
    let e = Seq::<ConfigStep>::empty();
    let c1 = p.width != s.width && p.width is Some;
    let h1 = then_if(e, c1, ConfigStep::ImageWidth);
    lemma_then_if_contains(e, c1, ConfigStep::ImageWidth, st);
    let c2 = p.height != s.height && p.height is Some;
    let h2 = then_if(h1, c2, ConfigStep::ImageHeight);
    lemma_then_if_contains(h1, c2, ConfigStep::ImageHeight, st);
    let c3 = p.output_colorspace != s.output_colorspace && p.output_colorspace is Some;
    let h3 = then_if(h2, c3, ConfigStep::ColorSpace);
    lemma_then_if_contains(h2, c3, ConfigStep::ColorSpace, st);
    let c4 = p.scan_mode != s.scan_mode && p.scan_mode is Some;
    let h4 = then_if(h3, c4, ConfigStep::ScanMode);
    lemma_then_if_contains(h3, c4, ConfigStep::ScanMode, st);
    let c5 = p.fastest_defaults != s.fastest_defaults && p.fastest_defaults;
    let h5 = then_if(h4, c5, ConfigStep::FastestProfile);
    lemma_then_if_contains(h4, c5, ConfigStep::FastestProfile, st);
    let head = then_if(h5, d, ConfigStep::Defaults);
    lemma_then_if_contains(h5, d, ConfigStep::Defaults, st);
    assert(head == plan_head(p, s));
    let q1 = (d || p.quality != s.quality) && p.quality is Some;
    let t1 = then_if(head, q1, ConfigStep::Quality);
    lemma_then_if_contains(head, q1, ConfigStep::Quality, st);
    let q2 = (d || p.luma_qtable != s.luma_qtable) && p.luma_qtable is Some;
    let t2 = then_if(t1, q2, ConfigStep::LumaQTable);
    lemma_then_if_contains(t1, q2, ConfigStep::LumaQTable, st);
    let q3 = (d || p.chroma_qtable != s.chroma_qtable) && p.chroma_qtable is Some;
    let t3 = then_if(t2, q3, ConfigStep::ChromaQTable);
    lemma_then_if_contains(t2, q3, ConfigStep::ChromaQTable, st);
    let q4 = (d || p.smoothing_factor != s.smoothing_factor) && p.smoothing_factor is Some;
    let t4 = then_if(t3, q4, ConfigStep::Smoothing);
    lemma_then_if_contains(t3, q4, ConfigStep::Smoothing, st);
    let q5 = (d || p.pixel_density != s.pixel_density) && p.pixel_density is Some;
    let t5 = then_if(t4, q5, ConfigStep::PixelDensity);
    lemma_then_if_contains(t4, q5, ConfigStep::PixelDensity, st);
    let q6 = (d || p.optimize_coding != s.optimize_coding) && p.optimize_coding is Some;
    let t6 = then_if(t5, q6, ConfigStep::OptimizeCoding);
    lemma_then_if_contains(t5, q6, ConfigStep::OptimizeCoding, st);
    let q7 = (d || p.optimize_scans != s.optimize_scans) && p.optimize_scans is Some;
    let t7 = then_if(t6, q7, ConfigStep::OptimizeScans);
    lemma_then_if_contains(t6, q7, ConfigStep::OptimizeScans, st);
    let q8 = (d || p.use_scans_in_trellis != s.use_scans_in_trellis) && p.use_scans_in_trellis is Some;
    let t8 = then_if(t7, q8, ConfigStep::UseScansInTrellis);
    lemma_then_if_contains(t7, q8, ConfigStep::UseScansInTrellis, st);
    let q9 = p.progressive_mode && (d || !s.progressive_mode);
    let t9 = then_if(t8, q9, ConfigStep::Progression);
    lemma_then_if_contains(t8, q9, ConfigStep::Progression, st);
    let q10 = (d || p.raw_data_in != s.raw_data_in) && p.raw_data_in is Some;
    let t10 = then_if(t9, q10, ConfigStep::RawDataIn);
    lemma_then_if_contains(t9, q10, ConfigStep::RawDataIn, st);
    let q11 = (d || p.subsampling != s.subsampling) && p.subsampling is Some;
    let t11 = then_if(t10, q11, ConfigStep::SamplingFactors);
    lemma_then_if_contains(t10, q11, ConfigStep::SamplingFactors, st);
    assert(t11 == spec_plan(p, s));
}

/// Applying again what was already applied takes no step.
pub proof fn lemma_plan_settled(p: PendingModel)
    ensures
        spec_plan(p, p) == Seq::<ConfigStep>::empty(),
{
}

/// The steps that set every setting of `p` that is set, in application order.
pub open spec fn all_settings(p: PendingModel) -> Seq<ConfigStep> {
    plan_tail(Seq::empty(), p, PendingModel::empty(), true)
}

proof fn lemma_then_if_prefix(h: Seq<ConfigStep>, x: Seq<ConfigStep>, c: bool, st: ConfigStep)
    ensures
        then_if(h + x, c, st) == h + then_if(x, c, st),
{
    if c {
        assert((h + x).push(st) =~= h + x.push(st));
    }
}

/// The tail of a plan only appends to what precedes it.
proof fn lemma_tail_prefix(h: Seq<ConfigStep>, p: PendingModel, s: PendingModel, d: bool)
    ensures
        plan_tail(h, p, s, d) == h + plan_tail(Seq::empty(), p, s, d),
{
    let e = Seq::<ConfigStep>::empty();
    assert(h =~= h + e);
    let c1 = (d || p.quality != s.quality) && p.quality is Some;
    let c2 = (d || p.luma_qtable != s.luma_qtable) && p.luma_qtable is Some;
    let c3 = (d || p.chroma_qtable != s.chroma_qtable) && p.chroma_qtable is Some;
    let c4 = (d || p.smoothing_factor != s.smoothing_factor) && p.smoothing_factor is Some;
    let c5 = (d || p.pixel_density != s.pixel_density) && p.pixel_density is Some;
    let c6 = (d || p.optimize_coding != s.optimize_coding) && p.optimize_coding is Some;
    let c7 = (d || p.optimize_scans != s.optimize_scans) && p.optimize_scans is Some;
    let c8 = (d || p.use_scans_in_trellis != s.use_scans_in_trellis) && p.use_scans_in_trellis is Some;
    let c9 = p.progressive_mode && (d || !s.progressive_mode);
    let c10 = (d || p.raw_data_in != s.raw_data_in) && p.raw_data_in is Some;
    let c11 = (d || p.subsampling != s.subsampling) && p.subsampling is Some;
    let x1 = then_if(e, c1, ConfigStep::Quality);
    lemma_then_if_prefix(h, e, c1, ConfigStep::Quality);
    let x2 = then_if(x1, c2, ConfigStep::LumaQTable);
    lemma_then_if_prefix(h, x1, c2, ConfigStep::LumaQTable);
    let x3 = then_if(x2, c3, ConfigStep::ChromaQTable);
    lemma_then_if_prefix(h, x2, c3, ConfigStep::ChromaQTable);
    let x4 = then_if(x3, c4, ConfigStep::Smoothing);
    lemma_then_if_prefix(h, x3, c4, ConfigStep::Smoothing);
    let x5 = then_if(x4, c5, ConfigStep::PixelDensity);
    lemma_then_if_prefix(h, x4, c5, ConfigStep::PixelDensity);
    let x6 = then_if(x5, c6, ConfigStep::OptimizeCoding);
    lemma_then_if_prefix(h, x5, c6, ConfigStep::OptimizeCoding);
    let x7 = then_if(x6, c7, ConfigStep::OptimizeScans);
    lemma_then_if_prefix(h, x6, c7, ConfigStep::OptimizeScans);
    let x8 = then_if(x7, c8, ConfigStep::UseScansInTrellis);
    lemma_then_if_prefix(h, x7, c8, ConfigStep::UseScansInTrellis);
    let x9 = then_if(x8, c9, ConfigStep::Progression);
    lemma_then_if_prefix(h, x8, c9, ConfigStep::Progression);
    let x10 = then_if(x9, c10, ConfigStep::RawDataIn);
    lemma_then_if_prefix(h, x9, c10, ConfigStep::RawDataIn);
    lemma_then_if_prefix(h, x10, c11, ConfigStep::SamplingFactors);
}

/// When libjpeg's defaults are re-run, that call is the last step of the
/// head and it is followed by every configured setting, so none is lost to
/// `jpeg_set_defaults`.
pub proof fn lemma_defaults_then_every_setting(p: PendingModel, s: PendingModel)
    requires
        reruns_defaults(p, s),
    ensures
        plan_head(p, s).last() == ConfigStep::Defaults,
        spec_plan(p, s) == plan_head(p, s) + all_settings(p),
{
    lemma_tail_prefix(plan_head(p, s), p, s, true);
    assert(plan_tail(Seq::empty(), p, s, true) == all_settings(p));
}

/// The first application of a configuration sets every setting in it.
pub proof fn lemma_first_plan_sets_everything(p: PendingModel)
    ensures
        spec_plan(p, PendingModel::empty()) == plan_head(p, PendingModel::empty()) + all_settings(p),
{
    let e = PendingModel::empty();
    lemma_tail_prefix(plan_head(p, e), p, e, reruns_defaults(p, e));
    assert(plan_tail(Seq::empty(), p, e, reruns_defaults(p, e)) == all_settings(p));
}

} // verus!
