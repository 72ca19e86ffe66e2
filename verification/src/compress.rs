//! Configuration of a JPEG compression, collected lazily and applied in a
//! fixed order, and the checks and plans that drive the encoder once started.
use vstd::prelude::*;
use crate::colorspace::ColorSpace;
use crate::density::PixelDensity;
use crate::qtable::QTable;
use crate::binary32::{bits_round_to_i32, quality_round};
use crate::rowbatch::{row_offsets, new_row_batch, push_row, row_batch_is_empty};
use arrayvec::ArrayVec;

verus! {

/// Max sampling factor is 2
pub const MAX_MCU_HEIGHT: usize = 16;

/// Codec doesn't allow more channels than this
pub const MAX_COMPONENTS: usize = 4;

/// DCT block size
pub const DCTSIZE: usize = 8;

/// Scan optimization mode (MozJPEG).
#[derive(Copy, Clone, Debug, PartialEq, Eq, Hash, Structural)]
pub enum ScanMode {
    AllComponentsTogether,
    /// Can flash grayscale or green-tinted images
    ScanPerComponent,
    Auto,
}

impl ScanMode {
    pub open spec fn spec_code(self) -> i32 {
        match self {
            ScanMode::AllComponentsTogether => 0,
            ScanMode::ScanPerComponent => 1,
            ScanMode::Auto => 2,
        }
    }

    /// The value of libjpeg's `JINT_DC_SCAN_OPT_MODE` parameter for this mode.
    pub fn code(self) -> (c: i32)
        ensures
            c == self.spec_code(),
    {
        match self {
            ScanMode::AllComponentsTogether => 0,
            ScanMode::ScanPerComponent => 1,
            ScanMode::Auto => 2,
        }
    }
}

/// Configuration collected by the setters of [`Compress`], applied at start.
///
/// `quality`, `luma_qtable` and `chroma_qtable` carry the
/// `force_8bit_quantization` flag beside their value.
#[derive(Debug)]
pub struct PendingConfig {
    pub width: Option<usize>,
    pub height: Option<usize>,
    pub output_colorspace: Option<ColorSpace>,
    pub scan_mode: Option<ScanMode>,
    pub fastest_defaults: bool,
    pub quality: Option<(i32, bool)>,
    pub luma_qtable: Option<(QTable, bool)>,
    pub chroma_qtable: Option<(QTable, bool)>,
    pub smoothing_factor: Option<u8>,
    pub pixel_density: Option<PixelDensity>,
    pub optimize_coding: Option<bool>,
    pub optimize_scans: Option<bool>,
    pub use_scans_in_trellis: Option<bool>,
    pub progressive_mode: bool,
    pub raw_data_in: Option<bool>,
    pub subsampling: Option<Vec<(i32, i32)>>,
}

/// The mathematical content of a [`PendingConfig`].
pub struct PendingModel {
    pub width: Option<usize>,
    pub height: Option<usize>,
    pub output_colorspace: Option<ColorSpace>,
    pub scan_mode: Option<ScanMode>,
    pub fastest_defaults: bool,
    pub quality: Option<(i32, bool)>,
    pub luma_qtable: Option<(Seq<u32>, bool)>,
    pub chroma_qtable: Option<(Seq<u32>, bool)>,
    pub smoothing_factor: Option<u8>,
    pub pixel_density: Option<PixelDensity>,
    pub optimize_coding: Option<bool>,
    pub optimize_scans: Option<bool>,
    pub use_scans_in_trellis: Option<bool>,
    pub progressive_mode: bool,
    pub raw_data_in: Option<bool>,
    pub subsampling: Option<Seq<(i32, i32)>>,
}

pub open spec fn qtable_model(t: Option<(QTable, bool)>) -> Option<(Seq<u32>, bool)> {
    match t {
        Some((q, f)) => Some((q.spec_coeffs(), f)),
        None => None,
    }
}

pub open spec fn subsampling_model(s: Option<Vec<(i32, i32)>>) -> Option<Seq<(i32, i32)>> {
    match s {
        Some(v) => Some(v@),
        None => None,
    }
}

impl View for PendingConfig {
    type V = PendingModel;

    open spec fn view(&self) -> PendingModel {
        PendingModel {
            width: self.width,
            height: self.height,
            output_colorspace: self.output_colorspace,
            scan_mode: self.scan_mode,
            fastest_defaults: self.fastest_defaults,
            quality: self.quality,
            luma_qtable: qtable_model(self.luma_qtable),
            chroma_qtable: qtable_model(self.chroma_qtable),
            smoothing_factor: self.smoothing_factor,
            pixel_density: self.pixel_density,
            optimize_coding: self.optimize_coding,
            optimize_scans: self.optimize_scans,
            use_scans_in_trellis: self.use_scans_in_trellis,
            progressive_mode: self.progressive_mode,
            raw_data_in: self.raw_data_in,
            subsampling: subsampling_model(self.subsampling),
        }
    }
}

/// One setter call, as it acts on the pending configuration.
pub enum ConfigChange {
    Size(usize, usize),
    ColorSpace(ColorSpace),
    ScanMode(ScanMode),
    FastestDefaults,
    Quality(i32, bool),
    LumaQTable(Seq<u32>, bool),
    ChromaQTable(Seq<u32>, bool),
    Smoothing(u8),
    PixelDensity(PixelDensity),
    OptimizeCoding(bool),
    OptimizeScans(bool),
    UseScansInTrellis(bool),
    Progressive,
    RawDataIn(bool),
    Subsampling(Seq<(i32, i32)>),
}

impl ConfigChange {
    /// Which setting a change writes; two changes with the same target write the same fields.
    pub open spec fn target(self) -> nat {
        match self {
            ConfigChange::Size(..) => 0,
            ConfigChange::ColorSpace(..) => 1,
            ConfigChange::ScanMode(..) => 2,
            ConfigChange::FastestDefaults => 3,
            ConfigChange::Quality(..) => 4,
            ConfigChange::LumaQTable(..) => 5,
            ConfigChange::ChromaQTable(..) => 6,
            ConfigChange::Smoothing(..) => 7,
            ConfigChange::PixelDensity(..) => 8,
            ConfigChange::OptimizeCoding(..) => 9,
            ConfigChange::OptimizeScans(..) => 10,
            ConfigChange::UseScansInTrellis(..) => 11,
            ConfigChange::Progressive => 12,
            ConfigChange::RawDataIn(..) => 13,
            ConfigChange::Subsampling(..) => 14,
        }
    }
}

impl PendingModel {
    /// Nothing configured yet.
    pub open spec fn empty() -> PendingModel {
        PendingModel {
            width: None,
            height: None,
            output_colorspace: None,
            scan_mode: None,
            fastest_defaults: false,
            quality: None,
            luma_qtable: None,
            chroma_qtable: None,
            smoothing_factor: None,
            pixel_density: None,
            optimize_coding: None,
            optimize_scans: None,
            use_scans_in_trellis: None,
            progressive_mode: false,
            raw_data_in: None,
            subsampling: None,
        }
    }

    /// The configuration after one setter call.
    pub open spec fn changed(self, c: ConfigChange) -> PendingModel {
        match c {
            ConfigChange::Size(w, h) => PendingModel { width: Some(w), height: Some(h), ..self },
            ConfigChange::ColorSpace(cs) => PendingModel { output_colorspace: Some(cs), ..self },
            ConfigChange::ScanMode(m) => PendingModel { scan_mode: Some(m), ..self },
            ConfigChange::FastestDefaults => PendingModel { fastest_defaults: true, ..self },
            ConfigChange::Quality(q, f) => PendingModel { quality: Some((q, f)), ..self },
            ConfigChange::LumaQTable(t, f) => PendingModel { luma_qtable: Some((t, f)), ..self },
            ConfigChange::ChromaQTable(t, f) => PendingModel { chroma_qtable: Some((t, f)), ..self },
            ConfigChange::Smoothing(s) => PendingModel { smoothing_factor: Some(s), ..self },
            ConfigChange::PixelDensity(d) => PendingModel { pixel_density: Some(d), ..self },
            ConfigChange::OptimizeCoding(b) => PendingModel { optimize_coding: Some(b), ..self },
            ConfigChange::OptimizeScans(b) => PendingModel { optimize_scans: Some(b), ..self },
            ConfigChange::UseScansInTrellis(b) => PendingModel { use_scans_in_trellis: Some(b), ..self },
            ConfigChange::Progressive => PendingModel { progressive_mode: true, ..self },
            ConfigChange::RawDataIn(b) => PendingModel { raw_data_in: Some(b), ..self },
            ConfigChange::Subsampling(s) => PendingModel { subsampling: Some(s), ..self },
        }
    }
}

/// Something to do to libjpeg's compress struct; the value comes from the
/// pending configuration (`ColorSpace` is `jpeg_set_colorspace`, `Defaults`
/// is `jpeg_set_defaults`, `FastestProfile` sets `JCP_FASTEST`,
/// `Progression` is `jpeg_simple_progression`).
#[derive(Copy, Clone, Debug, PartialEq, Eq, Structural)]
pub enum ConfigStep {
    ImageWidth,
    ImageHeight,
    ColorSpace,
    ScanMode,
    FastestProfile,
    Defaults,
    Quality,
    LumaQTable,
    ChromaQTable,
    Smoothing,
    PixelDensity,
    OptimizeCoding,
    OptimizeScans,
    UseScansInTrellis,
    Progression,
    RawDataIn,
    SamplingFactors,
}

/// `steps` followed by `step` when `cond` holds.
pub open spec fn then_if(steps: Seq<ConfigStep>, cond: bool, step: ConfigStep) -> Seq<ConfigStep> {
    if cond { steps.push(step) } else { steps }
}

/// Whether libjpeg's defaults are re-run when `p` is applied over what `s` applied.
pub open spec fn reruns_defaults(p: PendingModel, s: PendingModel) -> bool {
    (p.scan_mode != s.scan_mode || p.fastest_defaults != s.fastest_defaults)
        && (p.scan_mode is Some || p.fastest_defaults)
}

/// The steps that bring libjpeg from what `s` applied to what `p` asks:
/// image size and color space first, then the parameters that govern
/// `jpeg_set_defaults`, then that call when they changed, then every other
/// setting that changed (or all of them, after the defaults were re-run).
pub open spec fn spec_plan(p: PendingModel, s: PendingModel) -> Seq<ConfigStep> {
    plan_tail(plan_head(p, s), p, s, reruns_defaults(p, s))
}

/// Image size, color space, the parameters of `jpeg_set_defaults`, and that call.
pub open spec fn plan_head(p: PendingModel, s: PendingModel) -> Seq<ConfigStep> {
    let s1 = then_if(Seq::empty(), p.width != s.width && p.width is Some, ConfigStep::ImageWidth);
    let s2 = then_if(s1, p.height != s.height && p.height is Some, ConfigStep::ImageHeight);
    let s3 = then_if(s2, p.output_colorspace != s.output_colorspace && p.output_colorspace is Some,
        ConfigStep::ColorSpace);
    let s4 = then_if(s3, p.scan_mode != s.scan_mode && p.scan_mode is Some, ConfigStep::ScanMode);
    let s5 = then_if(s4, p.fastest_defaults != s.fastest_defaults && p.fastest_defaults,
        ConfigStep::FastestProfile);
    then_if(s5, reruns_defaults(p, s), ConfigStep::Defaults)
}

/// `head`, then every other setting that changed, or every one that is set
/// when `d` (the defaults were re-run).
pub open spec fn plan_tail(head: Seq<ConfigStep>, p: PendingModel, s: PendingModel, d: bool) -> Seq<ConfigStep> {
    let s1 = then_if(head, (d || p.quality != s.quality) && p.quality is Some, ConfigStep::Quality);
    let s2 = then_if(s1, (d || p.luma_qtable != s.luma_qtable) && p.luma_qtable is Some,
        ConfigStep::LumaQTable);
    let s3 = then_if(s2, (d || p.chroma_qtable != s.chroma_qtable) && p.chroma_qtable is Some,
        ConfigStep::ChromaQTable);
    let s4 = then_if(s3, (d || p.smoothing_factor != s.smoothing_factor) && p.smoothing_factor is Some,
        ConfigStep::Smoothing);
    let s5 = then_if(s4, (d || p.pixel_density != s.pixel_density) && p.pixel_density is Some,
        ConfigStep::PixelDensity);
    let s6 = then_if(s5, (d || p.optimize_coding != s.optimize_coding) && p.optimize_coding is Some,
        ConfigStep::OptimizeCoding);
    let s7 = then_if(s6, (d || p.optimize_scans != s.optimize_scans) && p.optimize_scans is Some,
        ConfigStep::OptimizeScans);
    let s8 = then_if(s7, (d || p.use_scans_in_trellis != s.use_scans_in_trellis)
        && p.use_scans_in_trellis is Some, ConfigStep::UseScansInTrellis);
    let s9 = then_if(s8, p.progressive_mode && (d || !s.progressive_mode), ConfigStep::Progression);
    let s10 = then_if(s9, (d || p.raw_data_in != s.raw_data_in) && p.raw_data_in is Some,
        ConfigStep::RawDataIn);
    then_if(s10, (d || p.subsampling != s.subsampling) && p.subsampling is Some,
        ConfigStep::SamplingFactors)
}

fn same_qtable(a: &Option<(QTable, bool)>, b: &Option<(QTable, bool)>) -> (r: bool)
    ensures
        r == (qtable_model(*a) == qtable_model(*b)),
{
    match (a, b) {
        (Some((ta, fa)), Some((tb, fb))) => *fa == *fb && ta.same_as(tb),
        (None, None) => true,
        _ => false,
    }
}

fn same_factors(a: &Vec<(i32, i32)>, b: &Vec<(i32, i32)>) -> (r: bool)
    ensures
        r == (a@ == b@),
{
    if a.len() != b.len() {
        return false;
    }
    let mut i: usize = 0;
    while i < a.len()
        invariant
            0 <= i <= a.len(),
            a.len() == b.len(),
            forall|j: int| 0 <= j < i ==> a@[j] == b@[j],
        decreases a.len() - i,
    {
        if a[i].0 != b[i].0 || a[i].1 != b[i].1 {
            return false;
        }
        i = i + 1;
    }
    assert(a@ =~= b@);
    true
}

fn same_subsampling(a: &Option<Vec<(i32, i32)>>, b: &Option<Vec<(i32, i32)>>) -> (r: bool)
    ensures
        r == (subsampling_model(*a) == subsampling_model(*b)),
{
    match (a, b) {
        (Some(va), Some(vb)) => same_factors(va, vb),
        (None, None) => true,
        _ => false,
    }
}

fn same_quality(a: Option<(i32, bool)>, b: Option<(i32, bool)>) -> (r: bool)
    ensures
        r == (a == b),
{
    match (a, b) {
        (Some((qa, fa)), Some((qb, fb))) => qa == qb && fa == fb,
        (None, None) => true,
        _ => false,
    }
}

fn copy_factors(v: &Vec<(i32, i32)>) -> (r: Vec<(i32, i32)>)
    ensures
        r@ == v@,
{
    let mut r: Vec<(i32, i32)> = Vec::new();
    let mut i: usize = 0;
    while i < v.len()
        invariant
            0 <= i <= v.len(),
            r@ == v@.take(i as int),
        decreases v.len() - i,
    {
        r.push(v[i]);
        i = i + 1;
        assert(r@ =~= v@.take(i as int));
    }
    assert(v@.take(v.len() as int) =~= v@);
    r
}

impl PendingConfig {
    /// Nothing configured.
    pub fn new() -> (p: PendingConfig)
        ensures
            p@ == PendingModel::empty(),
    {
        PendingConfig {
            width: None,
            height: None,
            output_colorspace: None,
            scan_mode: None,
            fastest_defaults: false,
            quality: None,
            luma_qtable: None,
            chroma_qtable: None,
            smoothing_factor: None,
            pixel_density: None,
            optimize_coding: None,
            optimize_scans: None,
            use_scans_in_trellis: None,
            progressive_mode: false,
            raw_data_in: None,
            subsampling: None,
        }
    }

    /// A copy holding the same configuration.
    pub fn duplicate(&self) -> (r: PendingConfig)
        ensures
            r@ == self@,
    {
        let subsampling = match &self.subsampling {
            Some(v) => Some(copy_factors(v)),
            None => None,
        };
        PendingConfig {
            width: self.width,
            height: self.height,
            output_colorspace: self.output_colorspace,
            scan_mode: self.scan_mode,
            fastest_defaults: self.fastest_defaults,
            quality: self.quality,
            luma_qtable: self.luma_qtable,
            chroma_qtable: self.chroma_qtable,
            smoothing_factor: self.smoothing_factor,
            pixel_density: self.pixel_density,
            optimize_coding: self.optimize_coding,
            optimize_scans: self.optimize_scans,
            use_scans_in_trellis: self.use_scans_in_trellis,
            progressive_mode: self.progressive_mode,
            raw_data_in: self.raw_data_in,
            subsampling,
        }
    }
}

fn push_if(steps: &mut Vec<ConfigStep>, cond: bool, step: ConfigStep)
    ensures
        final(steps)@ == then_if(old(steps)@, cond, step),
{
    if cond {
        steps.push(step);
    }
}

fn plan_head_exec(p: &PendingConfig, s: &PendingConfig) -> (r: (Vec<ConfigStep>, bool))
    ensures
        r.0@ == plan_head(p@, s@),
        r.1 == reruns_defaults(p@, s@),
{
    let mut steps: Vec<ConfigStep> = Vec::new();
    assert(steps@ == Seq::<ConfigStep>::empty());
    // Phase 1: image dimensions
    push_if(&mut steps, p.width != s.width && p.width.is_some(), ConfigStep::ImageWidth);
    push_if(&mut steps, p.height != s.height && p.height.is_some(), ConfigStep::ImageHeight);
    // Phase 2: output color space
    push_if(
        &mut steps,
        p.output_colorspace != s.output_colorspace && p.output_colorspace.is_some(),
        ConfigStep::ColorSpace,
    );
    // Phase 3: parameters read by jpeg_set_defaults()
    let scan_mode_changed = p.scan_mode != s.scan_mode;
    let fastest_changed = p.fastest_defaults != s.fastest_defaults;
    push_if(&mut steps, scan_mode_changed && p.scan_mode.is_some(), ConfigStep::ScanMode);
    push_if(&mut steps, fastest_changed && p.fastest_defaults, ConfigStep::FastestProfile);
    // Phase 4: defaults, when those parameters changed
    let d = (scan_mode_changed || fastest_changed) && (p.scan_mode.is_some() || p.fastest_defaults);
    push_if(&mut steps, d, ConfigStep::Defaults);
    (steps, d)
}

fn plan_tail_exec(p: &PendingConfig, s: &PendingConfig, d: bool, steps: &mut Vec<ConfigStep>)
    ensures
        final(steps)@ == plan_tail(old(steps)@, p@, s@, d),
{
    let q = same_quality(p.quality, s.quality);
    push_if(steps, (d || !q) && p.quality.is_some(), ConfigStep::Quality);
    let l = same_qtable(&p.luma_qtable, &s.luma_qtable);
    push_if(steps, (d || !l) && p.luma_qtable.is_some(), ConfigStep::LumaQTable);
    let c = same_qtable(&p.chroma_qtable, &s.chroma_qtable);
    push_if(steps, (d || !c) && p.chroma_qtable.is_some(), ConfigStep::ChromaQTable);
    push_if(
        steps,
        (d || p.smoothing_factor != s.smoothing_factor) && p.smoothing_factor.is_some(),
        ConfigStep::Smoothing,
    );
    push_if(
        steps,
        (d || p.pixel_density != s.pixel_density) && p.pixel_density.is_some(),
        ConfigStep::PixelDensity,
    );
    push_if(
        steps,
        (d || p.optimize_coding != s.optimize_coding) && p.optimize_coding.is_some(),
        ConfigStep::OptimizeCoding,
    );
    push_if(
        steps,
        (d || p.optimize_scans != s.optimize_scans) && p.optimize_scans.is_some(),
        ConfigStep::OptimizeScans,
    );
    push_if(
        steps,
        (d || p.use_scans_in_trellis != s.use_scans_in_trellis) && p.use_scans_in_trellis.is_some(),
        ConfigStep::UseScansInTrellis,
    );
    push_if(steps, p.progressive_mode && (d || !s.progressive_mode), ConfigStep::Progression);
    push_if(
        steps,
        (d || p.raw_data_in != s.raw_data_in) && p.raw_data_in.is_some(),
        ConfigStep::RawDataIn,
    );
    let f = same_subsampling(&p.subsampling, &s.subsampling);
    push_if(steps, (d || !f) && p.subsampling.is_some(), ConfigStep::SamplingFactors);
}

/// The steps that apply `p` over what `s` applied; see [`spec_plan`].
pub fn plan_config(p: &PendingConfig, s: &PendingConfig) -> (steps: Vec<ConfigStep>)
    ensures
        steps@ == spec_plan(p@, s@),
{
    let (mut steps, d) = plan_head_exec(p, s);
    plan_tail_exec(p, s, d, &mut steps);
    steps
}

/// A JPEG compression being configured.
///
/// Setters only record the wish; [`Compress::apply_pending_config`] turns the
/// recorded configuration into the ordered steps that libjpeg needs, so the
/// order of setter calls does not matter.
pub struct Compress {
    input_color_space: ColorSpace,
    pending: PendingConfig,
    applied_snapshot: Option<PendingConfig>,
}

impl Compress {
    /// Color space of the input pixels.
    pub closed spec fn spec_input_color_space(&self) -> ColorSpace {
        self.input_color_space
    }

    /// What the setters have asked for so far.
    pub closed spec fn spec_pending(&self) -> PendingModel {
        self.pending@
    }

    /// What was last applied, if anything was.
    pub closed spec fn spec_applied(&self) -> Option<PendingModel> {
        match self.applied_snapshot {
            Some(c) => Some(c@),
            None => None,
        }
    }

    /// What was last applied, or the empty configuration.
    pub open spec fn spec_applied_or_empty(&self) -> PendingModel {
        match self.spec_applied() {
            Some(m) => m,
            None => PendingModel::empty(),
        }
    }

    /// The state of a configuration after a setter: `self` with `c` recorded.
    pub open spec fn records(&self, old: &Compress, c: ConfigChange) -> bool {
        &&& self.spec_pending() == old.spec_pending().changed(c)
        &&& self.spec_applied() == old.spec_applied()
        &&& self.spec_input_color_space() == old.spec_input_color_space()
    }

    /// Compress image using input in this colorspace.
    pub fn new(color_space: ColorSpace) -> (c: Self)
        ensures
            c.spec_input_color_space() == color_space,
            c.spec_pending() == PendingModel::empty(),
            c.spec_applied() is None,
    {
        Compress { input_color_space: color_space, pending: PendingConfig::new(), applied_snapshot: None }
    }

    /// Color space of the input pixels.
    pub fn input_color_space(&self) -> (cs: ColorSpace)
        ensures
            cs == self.spec_input_color_space(),
    {
        self.input_color_space
    }

    /// The configuration recorded so far.
    pub fn pending(&self) -> (p: &PendingConfig)
        ensures
            p@ == self.spec_pending(),
    {
        &self.pending
    }

    /// Does nothing: output goes to the writer given when compression starts.
    pub fn set_mem_dest(&self) {
    }

    /// Set color space of JPEG being written, different from input color space.
    pub fn set_color_space(&mut self, color_space: ColorSpace)
        ensures
            final(self).records(old(self), ConfigChange::ColorSpace(color_space)),
    {
        self.pending.output_colorspace = Some(color_space);
    }

    /// Image size of the input, kept as given; sizes libjpeg cannot hold
    /// are refused when compression starts.
    pub fn set_size(&mut self, width: usize, height: usize)
        ensures
            final(self).records(old(self), ConfigChange::Size(width, height)),
    {
        self.pending.width = Some(width);
        self.pending.height = Some(height);
    }

    /// Sets pixel density of an image in the JFIF APP0 segment.
    pub fn set_pixel_density(&mut self, density: PixelDensity)
        ensures
            final(self).records(old(self), ConfigChange::PixelDensity(density)),
    {
        self.pending.pixel_density = Some(density);
    }

    /// If true, it will use MozJPEG's scan optimization.
    pub fn set_optimize_scans(&mut self, opt: bool)
        ensures
            final(self).records(old(self), ConfigChange::OptimizeScans(opt)),
    {
        self.pending.optimize_scans = Some(opt);
    }

    /// If 1-100 (non-zero), it will use MozJPEG's smoothing.
    pub fn set_smoothing_factor(&mut self, smoothing_factor: u8)
        ensures
            final(self).records(old(self), ConfigChange::Smoothing(smoothing_factor)),
    {
        self.pending.smoothing_factor = Some(smoothing_factor);
    }

    /// Set to `false` to make files larger for no reason.
    pub fn set_optimize_coding(&mut self, opt: bool)
        ensures
            final(self).records(old(self), ConfigChange::OptimizeCoding(opt)),
    {
        self.pending.optimize_coding = Some(opt);
    }

    /// Whether multiple scans are considered during trellis quantization.
    pub fn set_use_scans_in_trellis(&mut self, opt: bool)
        ensures
            final(self).records(old(self), ConfigChange::UseScansInTrellis(opt)),
    {
        self.pending.use_scans_in_trellis = Some(opt);
    }

    /// You can only turn it on.
    pub fn set_progressive_mode(&mut self)
        ensures
            final(self).records(old(self), ConfigChange::Progressive),
    {
        self.pending.progressive_mode = true;
    }

    /// One scan for all components looks best.
    pub fn set_scan_optimization_mode(&mut self, mode: ScanMode)
        ensures
            final(self).records(old(self), ConfigChange::ScanMode(mode)),
    {
        self.pending.scan_mode = Some(mode);
    }

    /// Reset to libjpeg v6 settings.
    pub fn set_fastest_defaults(&mut self)
        ensures
            final(self).records(old(self), ConfigChange::FastestDefaults),
    {
        self.pending.fastest_defaults = true;
    }

    /// Advanced. See `raw_data_in` in libjpeg docs.
    pub fn set_raw_data_in(&mut self, opt: bool)
        ensures
            final(self).records(old(self), ConfigChange::RawDataIn(opt)),
    {
        self.pending.raw_data_in = Some(opt);
    }

    /// Set image quality; `quality_bits` is the binary32 bit pattern of the
    /// quality, which is recorded rounded to the nearest integer.
    pub fn set_quality(&mut self, quality_bits: u32)
        ensures
            final(self).records(old(self), ConfigChange::Quality(bits_round_to_i32(quality_bits), false)),
    {
        self.pending.quality = Some((quality_round(quality_bits), false));
    }

    /// Set image quality (binary32 bit pattern, rounded), with control over
    /// 8-bit clamping of the quantization tables.
    pub fn set_quality_force_8bit(&mut self, quality_bits: u32, force_8bit_quantization: bool)
        ensures
            final(self).records(
                old(self),
                ConfigChange::Quality(bits_round_to_i32(quality_bits), force_8bit_quantization),
            ),
    {
        self.pending.quality = Some((quality_round(quality_bits), force_8bit_quantization));
    }

    /// Instead of quality setting, use a specific quantization table.
    pub fn set_luma_qtable(&mut self, qtable: &QTable)
        ensures
            final(self).records(old(self), ConfigChange::LumaQTable(qtable.spec_coeffs(), true)),
    {
        self.pending.luma_qtable = Some((*qtable, true));
    }

    /// A specific luma quantization table, with control over 8-bit clamping.
    pub fn set_luma_qtable_force_8bit(&mut self, qtable: &QTable, force_8bit_quantization: bool)
        ensures
            final(self).records(
                old(self),
                ConfigChange::LumaQTable(qtable.spec_coeffs(), force_8bit_quantization),
            ),
    {
        self.pending.luma_qtable = Some((*qtable, force_8bit_quantization));
    }

    /// Instead of quality setting, use a specific quantization table for color.
    pub fn set_chroma_qtable(&mut self, qtable: &QTable)
        ensures
            final(self).records(old(self), ConfigChange::ChromaQTable(qtable.spec_coeffs(), true)),
    {
        self.pending.chroma_qtable = Some((*qtable, true));
    }

    /// A specific chroma quantization table, with control over 8-bit clamping.
    pub fn set_chroma_qtable_force_8bit(&mut self, qtable: &QTable, force_8bit_quantization: bool)
        ensures
            final(self).records(
                old(self),
                ConfigChange::ChromaQTable(qtable.spec_coeffs(), force_8bit_quantization),
            ),
    {
        self.pending.chroma_qtable = Some((*qtable, force_8bit_quantization));
    }

    /// Sets chroma subsampling, separately for Cb and Cr channels, as the size
    /// of a chroma "pixel" in luma pixels: `(1,1), (1,1)` is 4:4:4,
    /// `(2,1), (2,1)` is 4:2:2 and `(2,2), (2,2)` is 4:2:0.
    pub fn set_chroma_sampling_pixel_sizes(&mut self, cb: (u8, u8), cr: (u8, u8))
        requires
            cb.0 > 0 && cb.1 > 0 && cr.0 > 0 && cr.1 > 0,
        ensures
            final(self).records(old(self), ConfigChange::Subsampling(spec_sampling_factors(cb, cr))),
    {
        let max_sampling_h: u8 = if cb.0 >= cr.0 { cb.0 } else { cr.0 };
        let max_sampling_v: u8 = if cb.1 >= cr.1 { cb.1 } else { cr.1 };
        let mut factors: Vec<(i32, i32)> = Vec::new();
        factors.push(((max_sampling_h / 1) as i32, (max_sampling_v / 1) as i32));
        factors.push(((max_sampling_h / cb.0) as i32, (max_sampling_v / cb.1) as i32));
        factors.push(((max_sampling_h / cr.0) as i32, (max_sampling_v / cr.1) as i32));
        assert(factors@ =~= spec_sampling_factors(cb, cr));
        self.pending.subsampling = Some(factors);
    }

    /// The steps that applying the configuration now would take, without
    /// applying it.
    pub fn pending_plan(&self) -> (steps: Vec<ConfigStep>)
        ensures
            steps@ == spec_plan(self.spec_pending(), self.spec_applied_or_empty()),
    {
        match &self.applied_snapshot {
            Some(snap) => plan_config(&self.pending, snap),
            None => {
                let empty = PendingConfig::new();
                plan_config(&self.pending, &empty)
            },
        }
    }

    /// Applies what was configured since the last application: records the
    /// pending configuration as applied and returns, in order, the steps
    /// that bring libjpeg's compress struct to it (see [`spec_plan`]).
    pub fn apply_pending_config(&mut self) -> (steps: Vec<ConfigStep>)
        ensures
            steps@ == spec_plan(old(self).spec_pending(), old(self).spec_applied_or_empty()),
            final(self).spec_pending() == old(self).spec_pending(),
            final(self).spec_applied() == Some(old(self).spec_pending()),
            final(self).spec_input_color_space() == old(self).spec_input_color_space(),
    {
        let steps = match &self.applied_snapshot {
            Some(snap) => plan_config(&self.pending, snap),
            None => {
                let empty = PendingConfig::new();
                plan_config(&self.pending, &empty)
            },
        };
        self.applied_snapshot = Some(self.pending.duplicate());
        steps
    }
}

/// Factors `(h, v)` for Y, Cb and Cr when a chroma pixel of Cb covers `cb`
/// luma pixels and one of Cr covers `cr`.
pub open spec fn spec_sampling_factors(cb: (u8, u8), cr: (u8, u8)) -> Seq<(i32, i32)> {
    let mh: u8 = if cb.0 >= cr.0 { cb.0 } else { cr.0 };
    let mv: u8 = if cb.1 >= cr.1 { cb.1 } else { cr.1 };
    seq![
        (mh as i32, mv as i32),
        ((mh / cb.0) as i32, (mv / cb.1) as i32),
        ((mh / cr.0) as i32, (mv / cr.1) as i32),
    ]
}

/// JPEG standard maximum image dimension.
pub const JPEG_MAX_DIMENSION: u32 = 65535;

/// An image dimension as libjpeg holds it (`JDIMENSION`, 32 bits). A size
/// too large for it saturates, so it stays above [`JPEG_MAX_DIMENSION`] and
/// [`check_start`] refuses it, rather than wrapping to a small size.
pub fn image_dimension(size: usize) -> (d: u32)
    ensures
        d == (if size > u32::MAX { u32::MAX as int } else { size as int }),
        size > JPEG_MAX_DIMENSION ==> d > JPEG_MAX_DIMENSION,
{
    if size > u32::MAX as usize {
        u32::MAX
    } else {
        size as u32
    }
}

/// What the encoder reads of one component (libjpeg's `jpeg_component_info`).
#[derive(Copy, Clone, Debug, PartialEq, Eq, Structural)]
pub struct CompInfo {
    pub h_samp_factor: i32,
    pub v_samp_factor: i32,
    pub width_in_blocks: u32,
    pub height_in_blocks: u32,
}

impl CompInfo {
    /// Bytes per row of the component's plane (whole blocks).
    pub fn row_stride(&self) -> (r: usize)
        requires
            self.width_in_blocks * 8 <= usize::MAX,
        ensures
            r == self.width_in_blocks * 8,
    {
        self.width_in_blocks as usize * DCTSIZE
    }

    /// Rows of the component's plane (whole blocks).
    pub fn col_stride(&self) -> (r: usize)
        requires
            self.height_in_blocks * 8 <= usize::MAX,
        ensures
            r == self.height_in_blocks * 8,
    {
        self.height_in_blocks as usize * DCTSIZE
    }
}

/// Why compression cannot start.
#[derive(Copy, Clone, Debug, PartialEq, Eq, Structural)]
pub enum StartError {
    /// Width or height is 0.
    InvalidDimensions { width: u32, height: u32 },
    /// Width or height exceeds [`JPEG_MAX_DIMENSION`].
    DimensionsTooLarge { width: u32, height: u32 },
    /// A sampling factor of this component is 0 or negative.
    InvalidSamplingFactors { component: usize, h: i32, v: i32 },
    /// A sampling factor of this component exceeds 4.
    SamplingFactorsTooLarge { component: usize, h: i32, v: i32 },
    /// No component has a horizontal sampling factor of 1.
    NoUnitHorizontalFactor,
    /// No component has a vertical sampling factor of 1.
    NoUnitVerticalFactor,
}

pub open spec fn factors_out_of_range(c: CompInfo) -> bool {
    c.h_samp_factor <= 0 || c.v_samp_factor <= 0 || c.h_samp_factor > 4 || c.v_samp_factor > 4
}

/// Index of the first component from `i` on whose factors are out of `1..=4`.
pub open spec fn first_bad_component(comps: Seq<CompInfo>, i: int) -> Option<int>
    decreases comps.len() - i,
{
    if i < 0 || i >= comps.len() {
        None
    } else if factors_out_of_range(comps[i]) {
        Some(i)
    } else {
        first_bad_component(comps, i + 1)
    }
}

/// Capacity of the output buffer: one bit per pixel rounded up to 4 KiB,
/// kept within 4 KiB..=64 KiB.
pub open spec fn spec_write_buffer_capacity(width: u32, height: u32) -> int {
    let expected = ((width * height / 8 + 4095) / 4096) * 4096;
    if expected < 4096 { 4096 } else if expected > 65536 { 65536 } else { expected }
}

/// What starting compression with this image size and these components gives.
pub open spec fn spec_start_check(width: u32, height: u32, comps: Seq<CompInfo>) -> Result<usize, StartError> {
    if width == 0 || height == 0 {
        Err(StartError::InvalidDimensions { width, height })
    } else if width > JPEG_MAX_DIMENSION || height > JPEG_MAX_DIMENSION {
        Err(StartError::DimensionsTooLarge { width, height })
    } else if first_bad_component(comps, 0) is Some {
        let i = first_bad_component(comps, 0)->0;
        let c = comps[i];
        if c.h_samp_factor <= 0 || c.v_samp_factor <= 0 {
            Err(StartError::InvalidSamplingFactors { component: i as usize, h: c.h_samp_factor, v: c.v_samp_factor })
        } else {
            Err(StartError::SamplingFactorsTooLarge { component: i as usize, h: c.h_samp_factor, v: c.v_samp_factor })
        }
    } else if !(exists|i: int| 0 <= i < comps.len() && comps[i].h_samp_factor == 1) {
        Err(StartError::NoUnitHorizontalFactor)
    } else if !(exists|i: int| 0 <= i < comps.len() && comps[i].v_samp_factor == 1) {
        Err(StartError::NoUnitVerticalFactor)
    } else {
        Ok(spec_write_buffer_capacity(width, height) as usize)
    }
}

/// Checks made before compression starts, on the image size and components
/// that libjpeg holds once the configuration is applied. `Ok` carries the
/// capacity of the output buffer.
pub fn check_start(image_width: u32, image_height: u32, components: &[CompInfo]) -> (r: Result<usize, StartError>)
    ensures
        r == spec_start_check(image_width, image_height, components@),
{
    if image_width == 0 || image_height == 0 {
        return Err(StartError::InvalidDimensions { width: image_width, height: image_height });
    }
    if image_width > JPEG_MAX_DIMENSION || image_height > JPEG_MAX_DIMENSION {
        return Err(StartError::DimensionsTooLarge { width: image_width, height: image_height });
    }
    let mut i: usize = 0;
    while i < components.len()
        invariant
            0 <= i <= components@.len(),
            0 < image_width <= JPEG_MAX_DIMENSION,
            0 < image_height <= JPEG_MAX_DIMENSION,
            first_bad_component(components@, 0) == first_bad_component(components@, i as int),
        decreases components@.len() - i,
    {
        let c = components[i];
        assert(factors_out_of_range(c) ==> first_bad_component(components@, i as int) == Some(i as int));
        if c.h_samp_factor <= 0 || c.v_samp_factor <= 0 {
            return Err(StartError::InvalidSamplingFactors { component: i, h: c.h_samp_factor, v: c.v_samp_factor });
        }
        if c.h_samp_factor > 4 || c.v_samp_factor > 4 {
            return Err(StartError::SamplingFactorsTooLarge { component: i, h: c.h_samp_factor, v: c.v_samp_factor });
        }
        i = i + 1;
    }
    let mut any_h = false;
    let mut any_v = false;
    let mut j: usize = 0;
    while j < components.len()
        invariant
            0 <= j <= components@.len(),
            any_h == (exists|k: int| 0 <= k < j && components@[k].h_samp_factor == 1),
            any_v == (exists|k: int| 0 <= k < j && components@[k].v_samp_factor == 1),
        decreases components@.len() - j,
    {
        if components[j].h_samp_factor == 1 {
            any_h = true;
        }
        if components[j].v_samp_factor == 1 {
            any_v = true;
        }
        j = j + 1;
    }
    if !any_h {
        return Err(StartError::NoUnitHorizontalFactor);
    }
    if !any_v {
        return Err(StartError::NoUnitVerticalFactor);
    }
    Ok(write_buffer_capacity(image_width, image_height))
}

/// Capacity of the output buffer for an image of this size.
pub fn write_buffer_capacity(width: u32, height: u32) -> (r: usize)
    requires
        width <= JPEG_MAX_DIMENSION,
        height <= JPEG_MAX_DIMENSION,
    ensures
        r == spec_write_buffer_capacity(width, height),
{
    assert(width * height <= 65535 * 65535) by (nonlinear_arith)
        requires width <= 65535, height <= 65535;
    let pixels: u64 = width as u64 * height as u64;
    let sum: u64 = pixels / 8 + 4095;
    let rounded: u64 = sum & !4095u64;
    assert(sum & !4095u64 == (sum / 4096) * 4096) by (bit_vector)
        requires sum <= 0xffff_ffff;
    let clamped: u64 = if rounded < 4096 { 4096 } else if rounded > 65536 { 65536 } else { rounded };
    clamped as usize
}

/// Why scanlines cannot be written.
#[derive(Copy, Clone, Debug, PartialEq, Eq, Structural)]
pub enum ScanlineError {
    /// Raw data input is on, or the image has no width or components.
    InvalidInput,
    /// The row stride is shorter than a row of pixels.
    StrideTooSmall { stride: usize, byte_width: usize },
    /// The buffer holds fewer than `rows` rows of `stride` bytes.
    BufferTooSmall { len: usize, stride: usize, rows: u32 },
}

/// Why raw (downsampled) data cannot be written; writing panics for each, so
/// [`CompressStarted::raw_data_check`] reports them before a write.
#[derive(Copy, Clone, Debug, PartialEq, Eq, Structural)]
pub enum RawDataError {
    /// Raw data input was not enabled.
    RawDataNotSet,
    /// The MCU is taller than [`MAX_MCU_HEIGHT`] rows.
    SubsamplingTooLarge,
    /// More components than [`MAX_COMPONENTS`], or than planes given.
    TooManyComponents { declared: usize, got: usize },
    /// A plane is smaller than its component's padded size.
    BitmapTooSmall { component: usize, row_stride: usize, col_stride: usize, got: usize },
    /// A plane has fewer rows than the rows already written need.
    RowsExhausted { component: usize },
    /// A plane has fewer than 8 rows left for this MCU row.
    ComponentTooShort { component: usize },
}

/// Number of rows of `byte_width` bytes, `stride` bytes apart from offset 0,
/// that fit in `len` bytes.
pub open spec fn rows_that_fit(len: nat, byte_width: nat, stride: nat) -> nat {
    if len < byte_width || stride == 0 { 0 } else { ((len - byte_width) as nat / stride + 1) as nat }
}

/// Batch `j` of row offsets: rows `16j ..` up to 16 of them, below `n`.
pub open spec fn spec_row_batch(n: nat, stride: nat, j: nat) -> Seq<usize> {
    let first = 16 * j;
    let count: nat = if n >= first + 16 { 16 } else if n >= first { (n - first) as nat } else { 0 };
    Seq::new(count, |i: int| ((first + i) * stride) as usize)
}

/// Number of batches needed for `n` rows.
pub open spec fn batch_count(n: nat) -> nat {
    (n + 15) / 16
}

/// The first `k` batches for `n` rows, joined in order.
pub open spec fn joined_batches(n: nat, stride: nat, k: nat) -> Seq<usize>
    decreases k,
{
    if k == 0 {
        Seq::empty()
    } else {
        joined_batches(n, stride, (k - 1) as nat) + spec_row_batch(n, stride, (k - 1) as nat)
    }
}

proof fn lemma_joined_prefix(n: nat, stride: nat, k: nat)
    requires
        k <= batch_count(n),
    ensures
        joined_batches(n, stride, k) =~= Seq::new(
            if 16 * k <= n { 16 * k } else { n },
            |i: int| (i * stride) as usize,
        ),
    decreases k,
{
    if k > 0 {
        lemma_joined_prefix(n, stride, (k - 1) as nat);
        assert(16 * (k - 1) < n) by (nonlinear_arith)
            requires k <= (n + 15) / 16, k > 0;
        let first = 16 * (k - 1);
        let prev = joined_batches(n, stride, (k - 1) as nat);
        let b = spec_row_batch(n, stride, (k - 1) as nat);
        assert(prev.len() == first);
        let total: nat = if 16 * k <= n { 16 * k } else { n };
        assert forall|i: int| 0 <= i < total implies #[trigger] (prev + b)[i] == (i * stride) as usize by {
            if i >= first {
                assert(b[i - first] == ((first + (i - first)) * stride) as usize);
            }
        }
    }
}

/// Joined in order, the batches of scanlines hand libjpeg every row that
/// fits, each once, from the first: row `i` at offset `i * stride`.
pub proof fn lemma_batches_cover_rows(n: nat, stride: nat)
    ensures
        joined_batches(n, stride, batch_count(n)) == Seq::new(n, |i: int| (i * stride) as usize),
{
    lemma_joined_prefix(n, stride, batch_count(n));
    assert(16 * batch_count(n) >= n) by (nonlinear_arith)
        requires batch_count(n) == (n + 15) / 16;
}

/// A started compression, as far as the writing logic reads it: what
/// libjpeg's compress struct holds once `jpeg_start_compress` has run.
pub struct CompressStarted {
    image_width: u32,
    image_height: u32,
    input_components: i32,
    raw_data_in: bool,
    max_v_samp_factor: i32,
    next_scanline: u32,
    components: Vec<CompInfo>,
}

/// What libjpeg guarantees of a started compression.
pub open spec fn started_fields_valid(
    image_width: u32,
    image_height: u32,
    input_components: i32,
    max_v_samp_factor: i32,
    components: Seq<CompInfo>,
) -> bool {
    &&& 0 < image_width <= JPEG_MAX_DIMENSION
    &&& 0 < image_height <= JPEG_MAX_DIMENSION
    &&& input_components <= 10
    &&& 1 <= max_v_samp_factor <= 4
    &&& components.len() <= 10
    &&& forall|i: int| 0 <= i < components.len() ==> {
        &&& 1 <= #[trigger] components[i].h_samp_factor <= 4
        &&& 1 <= components[i].v_samp_factor <= max_v_samp_factor
        &&& 1 <= components[i].width_in_blocks <= 32768
        &&& 1 <= components[i].height_in_blocks <= 32768
    }
}

impl CompressStarted {
    #[verifier::type_invariant]
    spec fn inv(self) -> bool {
        started_fields_valid(
            self.image_width,
            self.image_height,
            self.input_components,
            self.max_v_samp_factor,
            self.components@,
        )
    }

    pub closed spec fn spec_image_width(&self) -> u32 { self.image_width }
    pub closed spec fn spec_image_height(&self) -> u32 { self.image_height }
    pub closed spec fn spec_input_components(&self) -> i32 { self.input_components }
    pub closed spec fn spec_raw_data_in(&self) -> bool { self.raw_data_in }
    pub closed spec fn spec_max_v_samp_factor(&self) -> i32 { self.max_v_samp_factor }
    pub closed spec fn spec_next_scanline(&self) -> u32 { self.next_scanline }
    pub closed spec fn spec_components(&self) -> Seq<CompInfo> { self.components@ }

    /// The state of a compression that libjpeg has started.
    pub fn new(
        image_width: u32,
        image_height: u32,
        input_components: i32,
        raw_data_in: bool,
        max_v_samp_factor: i32,
        components: Vec<CompInfo>,
    ) -> (s: Self)
        requires
            started_fields_valid(image_width, image_height, input_components, max_v_samp_factor, components@),
        ensures
            s.spec_image_width() == image_width,
            s.spec_image_height() == image_height,
            s.spec_input_components() == input_components,
            s.spec_raw_data_in() == raw_data_in,
            s.spec_max_v_samp_factor() == max_v_samp_factor,
            s.spec_next_scanline() == 0,
            s.spec_components() == components@,
    {
        CompressStarted {
            image_width,
            image_height,
            input_components,
            raw_data_in,
            max_v_samp_factor,
            next_scanline: 0,
            components,
        }
    }

    /// Read-only view of component information.
    pub fn components(&self) -> (c: &[CompInfo])
        ensures
            c@ == self.spec_components(),
    {
        self.components.as_slice()
    }

    /// Records how many scanlines libjpeg has taken so far.
    pub fn set_next_scanline(&mut self, next_scanline: u32)
        ensures
            final(self).spec_next_scanline() == next_scanline,
            final(self).spec_components() == old(self).spec_components(),
            final(self).spec_image_width() == old(self).spec_image_width(),
            final(self).spec_image_height() == old(self).spec_image_height(),
            final(self).spec_input_components() == old(self).spec_input_components(),
            final(self).spec_raw_data_in() == old(self).spec_raw_data_in(),
            final(self).spec_max_v_samp_factor() == old(self).spec_max_v_samp_factor(),
    {
        proof {
            use_type_invariant(&*self);
        }
        self.next_scanline = next_scanline;
    }

    /// Records where libjpeg stands after one raw write that took
    /// `rows_written` rows, and decides what comes next: `Some(false)` when
    /// libjpeg took no row (writing stops short), `None` while the image has
    /// rows left, `Some(true)` once it is complete.
    pub fn after_raw_write(&mut self, next_scanline: u32, rows_written: u32) -> (r: Option<bool>)
        ensures
            final(self).spec_next_scanline() == next_scanline,
            final(self).spec_components() == old(self).spec_components(),
            final(self).spec_image_width() == old(self).spec_image_width(),
            final(self).spec_image_height() == old(self).spec_image_height(),
            final(self).spec_input_components() == old(self).spec_input_components(),
            final(self).spec_raw_data_in() == old(self).spec_raw_data_in(),
            final(self).spec_max_v_samp_factor() == old(self).spec_max_v_samp_factor(),
            r == (if rows_written == 0 {
                Some(false)
            } else if next_scanline < old(self).spec_image_height() {
                None
            } else {
                Some(true)
            }),
    {
        self.set_next_scanline(next_scanline);
        if rows_written == 0 {
            Some(false)
        } else if self.can_write_more_lines() {
            None
        } else {
            Some(true)
        }
    }

    /// Whether the image still has rows to be written.
    pub fn can_write_more_lines(&self) -> (r: bool)
        ensures
            r == (self.spec_next_scanline() < self.spec_image_height()),
    {
        self.next_scanline < self.image_height
    }

    /// Height of the image in rows.
    pub fn image_height(&self) -> (h: u32)
        ensures
            h == self.spec_image_height(),
    {
        self.image_height
    }

    /// Bytes in one row of input pixels, when scanlines can be written.
    pub fn row_bytes(&self) -> (r: usize)
        requires
            self.accepts_scanlines(),
        ensures
            r == self.spec_byte_width(),
    {
        proof {
            use_type_invariant(self);
        }
        assert(self.image_width * self.input_components <= 65535 * 10) by (nonlinear_arith)
            requires self.image_width <= 65535, 0 < self.input_components <= 10;
        self.image_width as usize * self.input_components as usize
    }

    /// Bytes in one row of input pixels.
    pub open spec fn spec_byte_width(&self) -> int {
        self.spec_image_width() * self.spec_input_components()
    }

    /// Whether scanlines can be written at all.
    pub open spec fn accepts_scanlines(&self) -> bool {
        !self.spec_raw_data_in() && self.spec_input_components() > 0 && self.spec_image_width() != 0
    }

    /// Writes tightly packed rows: the batches of row offsets into
    /// `image_src` (rows `image_width * input_components` bytes apart) that
    /// are handed to libjpeg, at most 16 rows per batch.
    pub fn write_scanlines(&self, image_src: &[u8]) -> (r: Result<Vec<ArrayVec<usize, 16>>, ScanlineError>)
        ensures
            !self.accepts_scanlines() ==> r == Err::<Vec<ArrayVec<usize, 16>>, ScanlineError>(ScanlineError::InvalidInput),
            self.accepts_scanlines() ==> r is Ok && self.batches_of(r->Ok_0@, image_src@.len(), self.spec_byte_width() as nat),
    {
        proof {
            use_type_invariant(self);
        }
        if self.raw_data_in || self.input_components <= 0 || self.image_width == 0 {
            return Err(ScanlineError::InvalidInput);
        }
        assert(self.image_width * self.input_components <= 65535 * 10) by (nonlinear_arith)
            requires self.image_width <= 65535, 0 < self.input_components <= 10;
        let byte_width: usize = self.image_width as usize * self.input_components as usize;
        self.write_scanlines_strided(image_src, byte_width)
    }

    /// Whether `batches` hands libjpeg every row that fits in `len` bytes,
    /// rows `stride` bytes apart, 16 rows per batch but the last.
    pub open spec fn batches_of(&self, batches: Seq<ArrayVec<usize, 16>>, len: nat, stride: nat) -> bool {
        let n = rows_that_fit(len, self.spec_byte_width() as nat, stride);
        &&& batches.len() == batch_count(n)
        &&& forall|j: int| 0 <= j < batches.len() ==> row_offsets(#[trigger] batches[j]) == spec_row_batch(n, stride, j as nat)
    }

    /// Writes rows that are `stride` bytes apart: the batches of row offsets
    /// into `image_src` handed to libjpeg, at most 16 rows per batch. Every
    /// row that fits whole in `image_src` is written.
    pub fn write_scanlines_strided(&self, image_src: &[u8], stride: usize) -> (r: Result<Vec<ArrayVec<usize, 16>>, ScanlineError>)
        ensures
            !self.accepts_scanlines() ==> r == Err::<Vec<ArrayVec<usize, 16>>, ScanlineError>(ScanlineError::InvalidInput),
            self.accepts_scanlines() && stride < self.spec_byte_width() ==> r == Err::<Vec<ArrayVec<usize, 16>>, ScanlineError>(
                ScanlineError::StrideTooSmall { stride, byte_width: self.spec_byte_width() as usize }),
            self.accepts_scanlines() && stride >= self.spec_byte_width() ==> r is Ok && self.batches_of(r->Ok_0@, image_src@.len(), stride as nat),
    {
        proof {
            use_type_invariant(self);
        }
        if self.raw_data_in || self.input_components <= 0 || self.image_width == 0 {
            return Err(ScanlineError::InvalidInput);
        }
        assert(0 < self.image_width * self.input_components <= 65535 * 10) by (nonlinear_arith)
            requires 0 < self.image_width <= 65535, 0 < self.input_components <= 10;
        let byte_width: usize = self.image_width as usize * self.input_components as usize;
        if stride < byte_width {
            return Err(ScanlineError::StrideTooSmall { stride, byte_width });
        }
        let len = image_src.len();
        let n: usize = if len < byte_width { 0 } else { (len - byte_width) / stride + 1 };
        let ghost gn = rows_that_fit(len as nat, byte_width as nat, stride as nat);
        assert(n == gn);
        if n > 0 {
            let diff: usize = len - byte_width;
            let q: usize = diff / stride;
            assert(q * stride <= diff) by (nonlinear_arith)
                requires q == diff / stride, stride > 0;
            assert((n - 1) * stride + byte_width <= len);
        }
        let mut batches: Vec<ArrayVec<usize, 16>> = Vec::new();
        let mut batch = new_row_batch();
        let mut k: usize = 0;
        while k < n
            invariant
                0 <= k <= n,
                n == gn,
                stride >= byte_width > 0,
                n > 0 ==> (n - 1) * stride + byte_width <= len,
                batches@.len() == k / 16,
                row_offsets(batch) == Seq::new((k % 16) as nat, |i: int| ((16 * (k / 16) + i) * stride) as usize),
                forall|j: int| 0 <= j < batches@.len() ==> row_offsets(#[trigger] batches@[j]) == spec_row_batch(gn, stride as nat, j as nat),
            decreases n - k,
        {
            assert(k * stride <= (n - 1) * stride) by (nonlinear_arith)
                requires k <= n - 1;
            let offset: usize = k * stride;
            push_row(&mut batch, offset);
            assert(row_offsets(batch) =~= Seq::new(((k + 1) % 16) as nat, |i: int| ((16 * (k / 16) + i) * stride) as usize)
                || (k + 1) % 16 == 0);
            k = k + 1;
            if k % 16 == 0 {
                let ghost jb = batches@.len();
                assert(row_offsets(batch) =~= spec_row_batch(gn, stride as nat, jb as nat));
                batches.push(batch);
                batch = new_row_batch();
                assert(row_offsets(batch) =~= Seq::new((k % 16) as nat, |i: int| ((16 * (k / 16) + i) * stride) as usize));
            } else {
                assert(row_offsets(batch) =~= Seq::new((k % 16) as nat, |i: int| ((16 * (k / 16) + i) * stride) as usize));
            }
        }
        if !row_batch_is_empty(&batch) {
            let ghost jb = batches@.len();
            assert(row_offsets(batch) =~= spec_row_batch(gn, stride as nat, jb as nat));
            batches.push(batch);
        }
        Ok(batches)
    }
}

/// Bytes before the data in an ICC profile marker.
pub const ICC_OVERHEAD_LEN: usize = 14;

/// Largest payload of a JPEG marker.
pub const MAX_BYTES_IN_MARKER: usize = 65533;

/// Largest piece of an ICC profile carried by one marker.
pub const MAX_DATA_BYTES_IN_MARKER: usize = 65519;

/// "ICC_PROFILE" followed by a zero byte.
pub open spec fn icc_signature() -> Seq<u8> {
    seq![73u8, 67u8, 67u8, 95u8, 80u8, 82u8, 79u8, 70u8, 73u8, 76u8, 69u8, 0u8]
}

/// Number of markers needed for a profile of `len` bytes.
pub open spec fn icc_chunk_count(len: nat) -> nat {
    (len + 65518) / 65519
}

/// The piece of the profile carried by marker `i`.
pub open spec fn icc_chunk(data: Seq<u8>, i: nat) -> Seq<u8> {
    let start: int = if i * 65519 <= data.len() { (i * 65519) as int } else { data.len() as int };
    let end: int = if start + 65519 <= data.len() { start + 65519 } else { data.len() as int };
    data.subrange(start, end)
}

/// Payload of APP2 marker `i` of `n`: signature, the marker's sequence number
/// (`i + 1`, as ICC embedding numbers markers from 1) and the
/// marker count (each truncated to a byte), then its piece of the profile.
pub open spec fn icc_marker(data: Seq<u8>, i: nat, n: nat) -> Seq<u8> {
    icc_signature() + seq![(i + 1) as u8, n as u8] + icc_chunk(data, i)
}

/// Concatenation of the pieces carried by the first `k` markers.
pub open spec fn icc_joined(data: Seq<u8>, k: nat) -> Seq<u8>
    decreases k,
{
    if k == 0 { Seq::empty() } else { icc_joined(data, (k - 1) as nat) + icc_chunk(data, (k - 1) as nat) }
}

fn push_all(buf: &mut Vec<u8>, bytes: &[u8], from: usize, to: usize)
    requires
        from <= to <= bytes@.len(),
    ensures
        final(buf)@ == old(buf)@ + bytes@.subrange(from as int, to as int),
{
    let mut i = from;
    while i < to
        invariant
            from <= i <= to,
            to <= bytes@.len(),
            buf@ == old(buf)@ + bytes@.subrange(from as int, i as int),
        decreases to - i,
    {
        buf.push(bytes[i]);
        i = i + 1;
        assert(buf@ =~= old(buf)@ + bytes@.subrange(from as int, i as int));
    }
}

/// The APP2 marker payloads that carry an ICC profile, in order.
pub fn icc_profile_markers(data: &[u8]) -> (markers: Vec<Vec<u8>>)
    ensures
        markers@.len() == icc_chunk_count(data@.len()),
        forall|i: int| 0 <= i < markers@.len() ==>
            #[trigger] markers@[i]@ == icc_marker(data@, i as nat, icc_chunk_count(data@.len())),
{
    let len = data.len();
    let num_chunks: usize = len / MAX_DATA_BYTES_IN_MARKER
        + if len % MAX_DATA_BYTES_IN_MARKER == 0 { 0 } else { 1 };
    assert(num_chunks == icc_chunk_count(len as nat));
    let mut markers: Vec<Vec<u8>> = Vec::new();
    let mut i: usize = 0;
    while i < num_chunks
        invariant
            0 <= i <= num_chunks,
            len == data@.len(),
            num_chunks == icc_chunk_count(len as nat),
            markers@.len() == i,
            forall|j: int| 0 <= j < i ==> #[trigger] markers@[j]@ == icc_marker(data@, j as nat, num_chunks as nat),
        decreases num_chunks - i,
    {
        assert(i * 65519 < len) by (nonlinear_arith)
            requires i < num_chunks, num_chunks == (len + 65518) / 65519;
        let start: usize = i * MAX_DATA_BYTES_IN_MARKER;
        let end: usize = if len - start >= MAX_DATA_BYTES_IN_MARKER { start + MAX_DATA_BYTES_IN_MARKER } else { len };
        let mut buf: Vec<u8> = Vec::new();
        buf.push(73u8);
        buf.push(67u8);
        buf.push(67u8);
        buf.push(95u8);
        buf.push(80u8);
        buf.push(82u8);
        buf.push(79u8);
        buf.push(70u8);
        buf.push(73u8);
        buf.push(76u8);
        buf.push(69u8);
        buf.push(0u8);
        buf.push((i + 1) as u8);
        buf.push(num_chunks as u8);
        assert(buf@ =~= icc_signature() + seq![(i + 1) as u8, num_chunks as u8]);
        push_all(&mut buf, data, start, end);
        assert(buf@ =~= icc_marker(data@, i as nat, num_chunks as nat));
        markers.push(buf);
        i = i + 1;
    }
    markers
}

/// The pieces of the profile in markers `0..k` are its first `k * 65519`
/// bytes (or all of it).
pub proof fn lemma_icc_joined_prefix(data: Seq<u8>, k: nat)
    ensures
        icc_joined(data, k) == data.subrange(0, if k * 65519 <= data.len() { (k * 65519) as int } else { data.len() as int }),
    decreases k,
{
    if k == 0 {
        assert(data.subrange(0, 0) =~= Seq::<u8>::empty());
    } else {
        let j = (k - 1) as nat;
        lemma_icc_joined_prefix(data, j);
        let a = if j * 65519 <= data.len() { (j * 65519) as int } else { data.len() as int };
        let b = if k * 65519 <= data.len() { (k * 65519) as int } else { data.len() as int };
        assert(k * 65519 == j * 65519 + 65519);
        if j * 65519 <= data.len() {
            assert(data.subrange(0, a) + data.subrange(a, b) =~= data.subrange(0, b));
        } else {
            assert(icc_chunk(data, j) =~= Seq::<u8>::empty());
            assert(data.subrange(0, a) + Seq::<u8>::empty() =~= data.subrange(0, b));
        }
    }
}

/// Joining the pieces of all markers, in order, gives back the profile.
pub proof fn lemma_icc_markers_rejoin(data: Seq<u8>)
    ensures
        icc_joined(data, icc_chunk_count(data.len())) == data,
{
    let n = icc_chunk_count(data.len());
    lemma_icc_joined_prefix(data, n);
    assert(n * 65519 >= data.len()) by (nonlinear_arith)
        requires n == (data.len() + 65518) / 65519;
    assert(data.subrange(0, data.len() as int) =~= data);
}

/// Whether the components' planes can be written as raw data: `Ok` gives the
/// MCU height, the number of rows handed to libjpeg per call.
pub open spec fn spec_raw_data_check(s: CompressStarted, lens: Seq<nat>) -> Result<usize, RawDataError> {
    let comps = s.spec_components();
    if !s.spec_raw_data_in() {
        Err(RawDataError::RawDataNotSet)
    } else if s.spec_max_v_samp_factor() * 8 > 16 {
        Err(RawDataError::SubsamplingTooLarge)
    } else if comps.len() > 4 || comps.len() > lens.len() {
        Err(RawDataError::TooManyComponents { declared: comps.len() as usize, got: lens.len() as usize })
    } else if first_small_plane(comps, lens, 0) is Some {
        let i = first_small_plane(comps, lens, 0)->0;
        Err(RawDataError::BitmapTooSmall {
            component: i as usize,
            row_stride: (comps[i].width_in_blocks * 8) as usize,
            col_stride: (comps[i].height_in_blocks * 8) as usize,
            got: lens[i] as usize,
        })
    } else {
        Ok((s.spec_max_v_samp_factor() * 8) as usize)
    }
}

/// Index of the first component from `i` on whose plane is smaller than its padded size.
pub open spec fn first_small_plane(comps: Seq<CompInfo>, lens: Seq<nat>, i: int) -> Option<int>
    decreases comps.len() - i,
{
    if i < 0 || i >= comps.len() || i >= lens.len() {
        None
    } else if comps[i].width_in_blocks * 8 * (comps[i].height_in_blocks * 8) > lens[i] {
        Some(i)
    } else {
        first_small_plane(comps, lens, i + 1)
    }
}

pub open spec fn plane_lens(planes: Seq<&[u8]>) -> Seq<nat> {
    Seq::new(planes.len(), |i: int| planes[i]@.len())
}

/// Rows of the plane of component `c` handed to libjpeg when writing the
/// MCU row that starts at image row `start_row`: the first plane row and
/// the number of rows, or `None` when the plane has too few rows.
pub open spec fn spec_component_rows(c: CompInfo, plane_len: nat, start_row: nat, max_v: int) -> Option<(usize, usize)> {
    let row_stride = c.width_in_blocks * 8;
    let input_height = plane_len / row_stride as nat;
    let first = start_row * c.v_samp_factor / max_v;
    if input_height < first {
        None
    } else {
        let height = if input_height - first <= 8 * c.v_samp_factor { input_height - first } else { 8 * c.v_samp_factor };
        if height < 8 { None } else { Some((first as usize, height as usize)) }
    }
}

/// Whether the rows already written reach past the end of the plane.
pub open spec fn rows_exhausted(c: CompInfo, plane_len: nat, start_row: nat, max_v: int) -> bool {
    (plane_len / ((c.width_in_blocks * 8) as nat)) < start_row * c.v_samp_factor / max_v
}

/// Index of the first component from `i` on whose plane has too few rows.
pub open spec fn first_short_plane(comps: Seq<CompInfo>, lens: Seq<nat>, start_row: nat, max_v: int, i: int) -> Option<int>
    decreases comps.len() - i,
{
    if i < 0 || i >= comps.len() {
        None
    } else if spec_component_rows(comps[i], lens[i], start_row, max_v) is None {
        Some(i)
    } else {
        first_short_plane(comps, lens, start_row, max_v, i + 1)
    }
}

impl CompressStarted {
    /// Advanced. Only possible after `set_raw_data_in()`: writes raw
    /// (downsampled) planes, one per component, each MCU row group handing
    /// libjpeg the MCU height in rows (see [`CompressStarted::raw_data_rows`]).
    /// Writing panics when raw data input is off, the MCU is taller than
    /// [`MAX_MCU_HEIGHT`], there are more components than [`MAX_COMPONENTS`] or
    /// than planes, or a plane is smaller than its component; `requires`
    /// leaves those inputs out, and [`CompressStarted::raw_data_check`] tells
    /// them apart beforehand. Gives the MCU height.
    pub fn write_raw_data(&self, image_src: &[&[u8]]) -> (mcu_height: usize)
        requires
            self.spec_raw_data_in(),
            self.spec_max_v_samp_factor() * 8 <= 16,
            self.spec_components().len() <= 4,
            self.spec_components().len() <= image_src@.len(),
            first_small_plane(self.spec_components(), plane_lens(image_src@), 0) is None,
        ensures
            mcu_height == self.spec_max_v_samp_factor() * 8,
            spec_raw_data_check(*self, plane_lens(image_src@)) == Ok::<usize, RawDataError>(mcu_height),
    {
        proof {
            use_type_invariant(self);
        }
        self.max_v_samp_factor as usize * DCTSIZE
    }

    /// The checks made before raw planes are written: `Ok` with the MCU
    /// height exactly when [`CompressStarted::write_raw_data`] may be called,
    /// else the first check that fails.
    pub fn raw_data_check(&self, image_src: &[&[u8]]) -> (r: Result<usize, RawDataError>)
        ensures
            r == spec_raw_data_check(*self, plane_lens(image_src@)),
            r is Ok <==> ({
                &&& self.spec_raw_data_in()
                &&& self.spec_max_v_samp_factor() * 8 <= 16
                &&& self.spec_components().len() <= 4
                &&& self.spec_components().len() <= image_src@.len()
                &&& first_small_plane(self.spec_components(), plane_lens(image_src@), 0) is None
            }),
    {
        proof {
            use_type_invariant(self);
        }
        let ghost lens = plane_lens(image_src@);
        if !self.raw_data_in {
            return Err(RawDataError::RawDataNotSet);
        }
        let mcu_height: usize = self.max_v_samp_factor as usize * DCTSIZE;
        if mcu_height > MAX_MCU_HEIGHT {
            return Err(RawDataError::SubsamplingTooLarge);
        }
        let num_components = self.components.len();
        if num_components > MAX_COMPONENTS || num_components > image_src.len() {
            return Err(RawDataError::TooManyComponents { declared: num_components, got: image_src.len() });
        }
        let mut ci: usize = 0;
        while ci < num_components
            invariant
                0 <= ci <= num_components,
                num_components == self.components@.len(),
                num_components <= 4,
                num_components <= image_src@.len(),
                lens == plane_lens(image_src@),
                self.raw_data_in,
                mcu_height == self.max_v_samp_factor * 8,
                mcu_height <= 16,
                started_fields_valid(self.image_width, self.image_height, self.input_components,
                    self.max_v_samp_factor, self.components@),
                first_small_plane(self.components@, lens, 0) == first_small_plane(self.components@, lens, ci as int),
            decreases num_components - ci,
        {
            let c = self.components[ci];
            assert(1 <= self.components@[ci as int].h_samp_factor);
            let row_stride = c.row_stride();
            let col_stride = c.col_stride();
            assert(row_stride * col_stride <= 262144 * 262144) by (nonlinear_arith)
                requires row_stride <= 262144, col_stride <= 262144;
            let size: u64 = row_stride as u64 * col_stride as u64;
            if size > image_src[ci].len() as u64 {
                assert(first_small_plane(self.components@, lens, ci as int) == Some(ci as int));
                return Err(RawDataError::BitmapTooSmall {
                    component: ci,
                    row_stride,
                    col_stride,
                    got: image_src[ci].len(),
                });
            }
            ci = ci + 1;
        }
        Ok(mcu_height)
    }

    /// For the MCU row that starts at image row `start_row`, the first row
    /// and the number of rows of each component's plane to hand to libjpeg;
    /// an error names the first plane that has too few rows left.
    pub fn raw_data_rows(&self, start_row: usize, image_src: &[&[u8]]) -> (r: Result<Vec<(usize, usize)>, RawDataError>)
        requires
            start_row <= u32::MAX,
            self.spec_components().len() <= image_src@.len(),
        ensures
            ({
                let comps = self.spec_components();
                let lens = plane_lens(image_src@);
                let max_v = self.spec_max_v_samp_factor() as int;
                match first_short_plane(comps, lens, start_row as nat, max_v, 0) {
                    Some(i) => r == Err::<Vec<(usize, usize)>, RawDataError>(
                        if rows_exhausted(comps[i], lens[i], start_row as nat, max_v) {
                            RawDataError::RowsExhausted { component: i as usize }
                        } else {
                            RawDataError::ComponentTooShort { component: i as usize }
                        }),
                    None => r matches Ok(rows) && rows@.len() == comps.len()
                        && forall|i: int| 0 <= i < comps.len() ==>
                            Some(#[trigger] rows@[i]) == spec_component_rows(comps[i], lens[i], start_row as nat, max_v),
                }
            }),
    {
        proof {
            use_type_invariant(self);
        }
        let ghost comps = self.components@;
        let ghost lens = plane_lens(image_src@);
        let ghost max_v = self.max_v_samp_factor as int;
        let mut rows: Vec<(usize, usize)> = Vec::new();
        let mut ci: usize = 0;
        while ci < self.components.len()
            invariant
                0 <= ci <= comps.len(),
                comps == self.components@,
                comps.len() <= image_src@.len(),
                lens == plane_lens(image_src@),
                max_v == self.max_v_samp_factor,
                start_row <= u32::MAX,
                started_fields_valid(self.image_width, self.image_height, self.input_components,
                    self.max_v_samp_factor, comps),
                first_short_plane(comps, lens, start_row as nat, max_v, 0)
                    == first_short_plane(comps, lens, start_row as nat, max_v, ci as int),
                rows@.len() == ci,
                forall|i: int| 0 <= i < ci ==>
                    Some(#[trigger] rows@[i]) == spec_component_rows(comps[i], lens[i], start_row as nat, max_v),
            decreases comps.len() - ci,
        {
            let c = self.components[ci];
            assert(1 <= comps[ci as int].h_samp_factor);
            let row_stride = c.row_stride();
            let plane_len = image_src[ci].len();
            let input_height: usize = plane_len / row_stride;
            let v: u64 = c.v_samp_factor as u64;
            assert(start_row * v <= 0xffff_ffff * 4) by (nonlinear_arith)
                requires start_row <= 0xffff_ffff, v <= 4;
            let first: u64 = (start_row as u64 * v) / (self.max_v_samp_factor as u64);
            assert(first <= start_row) by (nonlinear_arith)
                requires first == (start_row * v) / (max_v as int), v <= max_v, max_v >= 1;
            let ghost spec_rows = spec_component_rows(c, lens[ci as int], start_row as nat, max_v);
            assert(lens[ci as int] == plane_len);
            if (input_height as u64) < first {
                assert(spec_rows is None);
                assert(first_short_plane(comps, lens, start_row as nat, max_v, ci as int) == Some(ci as int));
                return Err(RawDataError::RowsExhausted { component: ci });
            }
            let left: usize = input_height - first as usize;
            let cap: usize = DCTSIZE * c.v_samp_factor as usize;
            let height: usize = if left <= cap { left } else { cap };
            if height < 8 {
                assert(spec_rows is None);
                assert(first_short_plane(comps, lens, start_row as nat, max_v, ci as int) == Some(ci as int));
                return Err(RawDataError::ComponentTooShort { component: ci });
            }
            assert(spec_rows == Some((first as usize, height)));
            rows.push((first as usize, height));
            ci = ci + 1;
        }
        Ok(rows)
    }
}

impl CompressStarted {
    /// Add ICC profile to compressed file: the APP2 marker payloads to
    /// write, in order. An empty profile is refused by libjpeg.
    pub fn write_icc_profile(&self, data: &[u8]) -> (markers: Vec<Vec<u8>>)
        requires
            data@.len() > 0,
        ensures
            markers@.len() == icc_chunk_count(data@.len()),
            forall|i: int| 0 <= i < markers@.len() ==>
                #[trigger] markers@[i]@ == icc_marker(data@, i as nat, icc_chunk_count(data@.len())),
    {
        icc_profile_markers(data)
    }
}

} // verus!
