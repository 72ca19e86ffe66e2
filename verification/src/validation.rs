//! Tracking of configuration calls, to point out orderings that libjpeg's
//! `jpeg_set_defaults` would undo, and to compare what was asked with what
//! libjpeg holds.
use vstd::prelude::*;
use crate::binary32::{bits_equal, quality_equal};
use crate::colorspace::{ColorSpace, spec_num_components};
use crate::compress::{CompInfo, Compress, ConfigStep, PendingConfig, PendingModel, ScanMode, spec_plan};
use crate::text::{bool_chars, bool_string, decimal_chars, decimal_string, list_chars, list_string, push_decimal};

verus! {

/// Represents a configuration operation. `SetQuality` holds the binary32
/// bit pattern of the quality.
#[derive(Clone, Copy, Debug)]
pub enum ConfigOperation {
    SetSmoothing(u8),
    SetRawDataIn(bool),
    SetSubsampling([i32; 6]),
    SetQuality(u32),
    SetSize(usize, usize),
    SetProgressive,
    SetScanMode(ScanMode),
}

/// Which setting an operation is about.
pub open spec fn op_kind(op: ConfigOperation) -> nat {
    match op {
        ConfigOperation::SetSmoothing(_) => 0,
        ConfigOperation::SetRawDataIn(_) => 1,
        ConfigOperation::SetSubsampling(_) => 2,
        ConfigOperation::SetQuality(_) => 3,
        ConfigOperation::SetSize(..) => 4,
        ConfigOperation::SetProgressive => 5,
        ConfigOperation::SetScanMode(_) => 6,
    }
}

/// `==` on operations (qualities compare as numbers).
pub open spec fn op_equal(a: ConfigOperation, b: ConfigOperation) -> bool {
    match (a, b) {
        (ConfigOperation::SetSmoothing(x), ConfigOperation::SetSmoothing(y)) => x == y,
        (ConfigOperation::SetRawDataIn(x), ConfigOperation::SetRawDataIn(y)) => x == y,
        (ConfigOperation::SetSubsampling(x), ConfigOperation::SetSubsampling(y)) => x@ == y@,
        (ConfigOperation::SetQuality(x), ConfigOperation::SetQuality(y)) => bits_equal(x, y),
        (ConfigOperation::SetSize(w1, h1), ConfigOperation::SetSize(w2, h2)) => w1 == w2 && h1 == h2,
        (ConfigOperation::SetProgressive, ConfigOperation::SetProgressive) => true,
        (ConfigOperation::SetScanMode(x), ConfigOperation::SetScanMode(y)) => x == y,
        _ => false,
    }
}

fn op_kind_of(op: &ConfigOperation) -> (k: u8)
    ensures
        k == op_kind(*op),
{
    match op {
        ConfigOperation::SetSmoothing(_) => 0,
        ConfigOperation::SetRawDataIn(_) => 1,
        ConfigOperation::SetSubsampling(_) => 2,
        ConfigOperation::SetQuality(_) => 3,
        ConfigOperation::SetSize(..) => 4,
        ConfigOperation::SetProgressive => 5,
        ConfigOperation::SetScanMode(_) => 6,
    }
}

fn same_factors6(x: &[i32; 6], y: &[i32; 6]) -> (r: bool)
    ensures
        r == (x@ == y@),
{
    let mut i: usize = 0;
    while i < 6
        invariant
            0 <= i <= 6,
            x@.len() == 6,
            y@.len() == 6,
            forall|j: int| 0 <= j < i ==> x@[j] == y@[j],
        decreases 6 - i,
    {
        if x[i] != y[i] {
            return false;
        }
        i = i + 1;
    }
    assert(x@ =~= y@);
    true
}

fn operations_equal(a: &ConfigOperation, b: &ConfigOperation) -> (r: bool)
    ensures
        r == op_equal(*a, *b),
{
    match (a, b) {
        (ConfigOperation::SetSmoothing(x), ConfigOperation::SetSmoothing(y)) => *x == *y,
        (ConfigOperation::SetRawDataIn(x), ConfigOperation::SetRawDataIn(y)) => *x == *y,
        (ConfigOperation::SetSubsampling(x), ConfigOperation::SetSubsampling(y)) => same_factors6(x, y),
        (ConfigOperation::SetQuality(x), ConfigOperation::SetQuality(y)) => quality_equal(*x, *y),
        (ConfigOperation::SetSize(w1, h1), ConfigOperation::SetSize(w2, h2)) => *w1 == *w2 && *h1 == *h2,
        (ConfigOperation::SetProgressive, ConfigOperation::SetProgressive) => true,
        (ConfigOperation::SetScanMode(x), ConfigOperation::SetScanMode(y)) => *x == *y,
        _ => false,
    }
}

impl PartialEq for ConfigOperation {
    fn eq(&self, other: &Self) -> (r: bool) {
        operations_equal(self, other)
    }
}

impl vstd::std_specs::cmp::PartialEqSpecImpl for ConfigOperation {
    open spec fn obeys_eq_spec() -> bool {
        true
    }

    open spec fn eq_spec(&self, other: &Self) -> bool {
        op_equal(*self, *other)
    }
}

/// Validation warning describing what went wrong
#[derive(Clone, Debug, PartialEq, Eq)]
pub struct ValidationWarning {
    /// What setting was affected
    pub setting: String,
    /// Expected value
    pub expected: String,
    /// Actual value found
    pub actual: String,
    /// Likely cause
    pub cause: String,
}

/// The text of a warning: setting, expected, actual, cause.
pub open spec fn warning_text(w: ValidationWarning) -> (Seq<char>, Seq<char>, Seq<char>, Seq<char>) {
    (w.setting@, w.expected@, w.actual@, w.cause@)
}

/// Whether some operation of `log` from index `from` on is about setting `k`.
pub open spec fn kind_from(log: Seq<ConfigOperation>, from: int, k: nat) -> bool {
    exists|j: int| from <= j < log.len() && #[trigger] op_kind(log[j]) == k
}

/// Index of the first `set_scan_optimization_mode` from index `i` on.
pub open spec fn first_scan_mode(log: Seq<ConfigOperation>, i: int) -> Option<int>
    decreases log.len() - i,
{
    if i < 0 || i >= log.len() {
        None
    } else if op_kind(log[i]) == 6 {
        Some(i)
    } else {
        first_scan_mode(log, i + 1)
    }
}

/// The warning for setting `op` at (1-based) `step`, for the settings that
/// `set_scan_optimization_mode` may reset.
pub open spec fn order_warning(op: ConfigOperation, step: nat) -> Option<Seq<char>> {
    match op {
        ConfigOperation::SetSmoothing(_) => Some(
            "smoothing_factor set before set_scan_optimization_mode() at step "@ + decimal_chars(step)
                + ". It may be reset (but is preserved on this branch with the fix)."@),
        ConfigOperation::SetRawDataIn(_) => Some(
            "raw_data_in set before set_scan_optimization_mode() at step "@ + decimal_chars(step)
                + ". It WILL be reset!"@),
        ConfigOperation::SetSubsampling(_) => Some(
            "subsampling_factors set before set_scan_optimization_mode() at step "@ + decimal_chars(step)
                + ". They WILL be reset!"@),
        ConfigOperation::SetProgressive => Some(
            "progressive mode set before set_scan_optimization_mode() at step "@ + decimal_chars(step)
                + ". It may be affected!"@),
        _ => None,
    }
}

/// Warnings for the first `i` operations, when the first scan mode call is at `scan`.
pub open spec fn order_warnings_upto(log: Seq<ConfigOperation>, scan: int, i: nat) -> Seq<Seq<char>>
    decreases i,
{
    if i == 0 {
        Seq::empty()
    } else {
        let prev = order_warnings_upto(log, scan, (i - 1) as nat);
        let op = log[i - 1];
        if order_warning(op, i) is Some && !kind_from(log, scan, op_kind(op)) {
            prev.push(order_warning(op, i)->0)
        } else {
            prev
        }
    }
}

/// One warning for each resettable setting made before the first
/// `set_scan_optimization_mode` and not made again after it.
pub open spec fn spec_check_order(log: Seq<ConfigOperation>) -> Seq<Seq<char>> {
    match first_scan_mode(log, 0) {
        None => Seq::empty(),
        Some(s) => order_warnings_upto(log, s, s as nat),
    }
}

/// Recording the scan optimization mode before anything else leaves nothing
/// for it to reset: the order check then gives no warning.
pub proof fn lemma_scan_mode_first_is_quiet(log: Seq<ConfigOperation>)
    requires
        log.len() > 0,
        op_kind(log[0]) == 6,
    ensures
        spec_check_order(log) == Seq::<Seq<char>>::empty(),
{
    assert(first_scan_mode(log, 0) == Some(0int));
}

/// Without a scan optimization mode in the log, the order check gives no
/// warning.
pub proof fn lemma_no_scan_mode_is_quiet(log: Seq<ConfigOperation>)
    requires
        forall|i: int| 0 <= i < log.len() ==> op_kind(#[trigger] log[i]) != 6,
    ensures
        spec_check_order(log) == Seq::<Seq<char>>::empty(),
{
    lemma_first_scan_mode_none(log, 0);
}

proof fn lemma_first_scan_mode_none(log: Seq<ConfigOperation>, i: int)
    requires
        0 <= i,
        forall|j: int| 0 <= j < log.len() ==> op_kind(#[trigger] log[j]) != 6,
    ensures
        first_scan_mode(log, i) is None,
    decreases log.len() - i,
{
    if i < log.len() {
        assert(op_kind(log[i]) != 6);
        lemma_first_scan_mode_none(log, i + 1);
    }
}

/// Index of the last operation before index `i` equal to `setting`.
pub open spec fn last_equal(log: Seq<ConfigOperation>, setting: ConfigOperation, i: int) -> Option<int>
    decreases i,
{
    if i <= 0 || i > log.len() {
        None
    } else if op_equal(log[i - 1], setting) {
        Some(i - 1)
    } else {
        last_equal(log, setting, i - 1)
    }
}

/// Likely cause of `setting` having been reset.
pub open spec fn spec_cause(log: Seq<ConfigOperation>, setting: ConfigOperation) -> Seq<char> {
    match last_equal(log, setting, log.len() as int) {
        Some(idx) if kind_from(log, idx, 6) => "likely reset by set_scan_optimization_mode() which calls jpeg_set_defaults()"@,
        _ => "unknown cause"@,
    }
}

/// Tracks configuration state to detect when settings get reset
#[derive(Clone, Debug)]
pub struct ConfigTracker {
    smoothing_factor: Option<u8>,
    raw_data_in: Option<bool>,
    subsampling: Option<[i32; 6]>,
    quality: Option<u32>,
    dimensions: Option<(usize, usize)>,
    progressive: bool,
    scan_mode: Option<ScanMode>,
    operation_log: Vec<ConfigOperation>,
}

/// The tracker's recorded state, as plain values.
pub struct TrackerModel {
    pub smoothing_factor: Option<u8>,
    pub raw_data_in: Option<bool>,
    pub subsampling: Option<[i32; 6]>,
    pub quality: Option<u32>,
    pub dimensions: Option<(usize, usize)>,
    pub progressive: bool,
    pub scan_mode: Option<ScanMode>,
    pub log: Seq<ConfigOperation>,
}

impl View for ConfigTracker {
    type V = TrackerModel;

    closed spec fn view(&self) -> TrackerModel {
        TrackerModel {
            smoothing_factor: self.smoothing_factor,
            raw_data_in: self.raw_data_in,
            subsampling: self.subsampling,
            quality: self.quality,
            dimensions: self.dimensions,
            progressive: self.progressive,
            scan_mode: self.scan_mode,
            log: self.operation_log@,
        }
    }
}

/// The six sampling factors (Y h, Y v, Cb h, Cb v, Cr h, Cr v) of three components.
pub open spec fn factors_of(f: Seq<(i32, i32)>) -> Seq<i32> {
    seq![f[0].0, f[0].1, f[1].0, f[1].1, f[2].0, f[2].1]
}

/// The sampling factors `(h, v)` of each component.
pub open spec fn comp_factors(comps: Seq<CompInfo>) -> Seq<(i32, i32)> {
    Seq::new(comps.len(), |i: int| (comps[i].h_samp_factor, comps[i].v_samp_factor))
}

/// `n` components sampled 1x1.
pub open spec fn unit_factors(n: nat) -> Seq<(i32, i32)> {
    Seq::new(n, |i: int| (1i32, 1i32))
}

/// The sampling factors libjpeg's `jpeg_set_colorspace` gives the components
/// of a JPEG color space, for an input of `input_components` components;
/// `None` for a color space it refuses. This restates what libjpeg does
/// (`jcparam.c`), which the library cannot call: it predicts the state that
/// applying a plan will leave.
pub open spec fn colorspace_factors(cs: ColorSpace, input_components: nat) -> Option<Seq<(i32, i32)>> {
    match cs {
        ColorSpace::JCS_GRAYSCALE => Some(unit_factors(1)),
        ColorSpace::JCS_RGB => Some(unit_factors(3)),
        ColorSpace::JCS_YCbCr => Some(seq![(2i32, 2i32), (1i32, 1i32), (1i32, 1i32)]),
        ColorSpace::JCS_CMYK => Some(unit_factors(4)),
        ColorSpace::JCS_YCCK => Some(seq![(2i32, 2i32), (1i32, 1i32), (1i32, 1i32), (2i32, 2i32)]),
        ColorSpace::JCS_UNKNOWN => Some(unit_factors(input_components)),
        _ => None,
    }
}

/// The JPEG color space libjpeg's `jpeg_set_defaults` picks for an input
/// color space (`jpeg_default_colorspace`); `None` where it refuses it. This
/// restates libjpeg's `jcparam.c`, which the library cannot call.
pub open spec fn default_jpeg_colorspace(input: ColorSpace) -> Option<ColorSpace> {
    match input {
        ColorSpace::JCS_GRAYSCALE => Some(ColorSpace::JCS_GRAYSCALE),
        ColorSpace::JCS_YCbCr => Some(ColorSpace::JCS_YCbCr),
        ColorSpace::JCS_CMYK => Some(ColorSpace::JCS_CMYK),
        ColorSpace::JCS_YCCK => Some(ColorSpace::JCS_YCCK),
        ColorSpace::JCS_UNKNOWN => Some(ColorSpace::JCS_UNKNOWN),
        ColorSpace::JCS_RGB565 => None,
        _ => Some(ColorSpace::JCS_YCbCr),
    }
}

/// The smoothing factor libjpeg holds once `plan` has run over `held`:
/// the configured one when the plan sets it, 0 when the plan re-runs the
/// defaults, else unchanged.
pub open spec fn smoothing_after(plan: Seq<ConfigStep>, p: PendingModel, held: i32) -> i32 {
    if plan.contains(ConfigStep::Smoothing) && p.smoothing_factor is Some {
        p.smoothing_factor->0 as i32
    } else if plan.contains(ConfigStep::Defaults) {
        0
    } else {
        held
    }
}

/// Whether raw data input is on once `plan` has run over `held`.
pub open spec fn raw_data_in_after(plan: Seq<ConfigStep>, p: PendingModel, held: bool) -> bool {
    if plan.contains(ConfigStep::RawDataIn) && p.raw_data_in is Some {
        p.raw_data_in->0
    } else if plan.contains(ConfigStep::Defaults) {
        false
    } else {
        held
    }
}

/// `base` with its first factors replaced by `set`.
pub open spec fn overlay(base: Seq<(i32, i32)>, set: Seq<(i32, i32)>) -> Seq<(i32, i32)> {
    Seq::new(base.len(), |i: int| if i < set.len() { set[i] } else { base[i] })
}

/// The sampling factors libjpeg holds once `plan` has run over `held`, for
/// input in `input`: re-running the defaults, or setting a color space,
/// resets them to that color space's; configured factors are set last.
pub open spec fn factors_after(plan: Seq<ConfigStep>, p: PendingModel, input: ColorSpace, held: Seq<(i32, i32)>) -> Seq<(i32, i32)> {
    let n = spec_num_components(input);
    let reset = if plan.contains(ConfigStep::Defaults) {
        match default_jpeg_colorspace(input) {
            Some(cs) => colorspace_factors(cs, n),
            None => None,
        }
    } else if plan.contains(ConfigStep::ColorSpace) && p.output_colorspace is Some {
        colorspace_factors(p.output_colorspace->0, n)
    } else {
        None
    };
    let base = match reset {
        Some(f) => f,
        None => held,
    };
    if plan.contains(ConfigStep::SamplingFactors) && p.subsampling is Some {
        overlay(base, p.subsampling->0)
    } else {
        base
    }
}

/// The plan that applying `c`'s configuration would run now.
pub open spec fn plan_of(c: Compress) -> Seq<ConfigStep> {
    spec_plan(c.spec_pending(), c.spec_applied_or_empty())
}

/// The warnings validation gives, in order: smoothing, raw data, subsampling.
pub open spec fn spec_validation_warnings(
    t: TrackerModel,
    smoothing_factor: i32,
    raw_data_in: bool,
    factors: Seq<(i32, i32)>,
) -> Seq<(Seq<char>, Seq<char>, Seq<char>, Seq<char>)> {
    let s1 = match t.smoothing_factor {
        Some(e) if smoothing_factor as u8 != e => seq![(
            "smoothing_factor"@,
            decimal_chars(e as nat),
            decimal_chars((smoothing_factor as u8) as nat),
            spec_cause(t.log, ConfigOperation::SetSmoothing(e)),
        )],
        _ => Seq::empty(),
    };
    let s2 = match t.raw_data_in {
        Some(e) if raw_data_in != e => seq![(
            "raw_data_in"@,
            bool_chars(e),
            bool_chars(raw_data_in),
            spec_cause(t.log, ConfigOperation::SetRawDataIn(e)),
        )],
        _ => Seq::empty(),
    };
    let s3 = match t.subsampling {
        Some(e) if factors.len() >= 3 && factors_of(factors) != e@ => seq![(
            "subsampling_factors"@,
            list_chars(e@),
            list_chars(factors_of(factors)),
            spec_cause(t.log, ConfigOperation::SetSubsampling(e)),
        )],
        _ => Seq::empty(),
    };
    s1 + s2 + s3
}

/// The text of each string of a list.
pub open spec fn texts(v: Seq<String>) -> Seq<Seq<char>> {
    v.map_values(|s: String| s@)
}

/// The text of each warning of a list.
pub open spec fn warning_texts(v: Seq<ValidationWarning>) -> Seq<(Seq<char>, Seq<char>, Seq<char>, Seq<char>)> {
    v.map_values(|w: ValidationWarning| warning_text(w))
}

/// Whether some operation of `log` from index `from` on is about setting `k`.
fn kind_after(log: &Vec<ConfigOperation>, from: usize, k: u8) -> (r: bool)
    ensures
        r == kind_from(log@, from as int, k as nat),
{
    let mut i: usize = from;
    while i < log.len()
        invariant
            from <= i,
            forall|j: int| from <= j < i && j < log@.len() ==> #[trigger] op_kind(log@[j]) != k,
        decreases log.len() - i,
    {
        if op_kind_of(&log[i]) == k {
            assert(op_kind(log@[i as int]) == k);
            return true;
        }
        i = i + 1;
    }
    false
}

/// Index of the first `set_scan_optimization_mode` of the log.
fn first_scan_mode_index(log: &Vec<ConfigOperation>) -> (r: Option<usize>)
    ensures
        match r {
            Some(k) => first_scan_mode(log@, 0) == Some(k as int) && k < log@.len(),
            None => first_scan_mode(log@, 0) is None,
        },
{
    let mut i: usize = 0;
    while i < log.len()
        invariant
            i <= log@.len(),
            first_scan_mode(log@, 0) == first_scan_mode(log@, i as int),
        decreases log.len() - i,
    {
        if op_kind_of(&log[i]) == 6 {
            return Some(i);
        }
        i = i + 1;
    }
    None
}

/// The warning text for setting `op` at (1-based) `step`, when `op` is a
/// setting that `set_scan_optimization_mode` may reset.
fn order_message(op: &ConfigOperation, step: usize) -> (r: Option<String>)
    ensures
        match r {
            Some(m) => order_warning(*op, step as nat) == Some(m@),
            None => order_warning(*op, step as nat) is None,
        },
{
    let (head, tail) = match op {
        ConfigOperation::SetSmoothing(_) => (
            "smoothing_factor set before set_scan_optimization_mode() at step ",
            ". It may be reset (but is preserved on this branch with the fix).",
        ),
        ConfigOperation::SetRawDataIn(_) => (
            "raw_data_in set before set_scan_optimization_mode() at step ",
            ". It WILL be reset!",
        ),
        ConfigOperation::SetSubsampling(_) => (
            "subsampling_factors set before set_scan_optimization_mode() at step ",
            ". They WILL be reset!",
        ),
        ConfigOperation::SetProgressive => (
            "progressive mode set before set_scan_optimization_mode() at step ",
            ". It may be affected!",
        ),
        _ => {
            return None;
        },
    };
    let mut m = String::from_str(head);
    push_decimal(&mut m, step as u64);
    m.append(tail);
    Some(m)
}

/// Index of the last operation of the log equal to `setting`.
fn last_equal_index(log: &Vec<ConfigOperation>, setting: &ConfigOperation) -> (r: Option<usize>)
    ensures
        match r {
            Some(k) => last_equal(log@, *setting, log@.len() as int) == Some(k as int),
            None => last_equal(log@, *setting, log@.len() as int) is None,
        },
{
    let mut i: usize = log.len();
    while i > 0
        invariant
            i <= log@.len(),
            last_equal(log@, *setting, log@.len() as int) == last_equal(log@, *setting, i as int),
        decreases i,
    {
        if operations_equal(&log[i - 1], setting) {
            return Some(i - 1);
        }
        i = i - 1;
    }
    None
}

fn has_step(steps: &Vec<ConfigStep>, step: ConfigStep) -> (r: bool)
    ensures
        r == steps@.contains(step),
{
    let mut i: usize = 0;
    while i < steps.len()
        invariant
            i <= steps@.len(),
            forall|j: int| 0 <= j < i ==> steps@[j] != step,
        decreases steps.len() - i,
    {
        if steps[i] == step {
            assert(steps@[i as int] == step);
            return true;
        }
        i = i + 1;
    }
    false
}

fn held_factors(components: &[CompInfo]) -> (r: Vec<(i32, i32)>)
    ensures
        r@ == comp_factors(components@),
{
    let mut r: Vec<(i32, i32)> = Vec::new();
    let mut i: usize = 0;
    while i < components.len()
        invariant
            i <= components@.len(),
            r@ == comp_factors(components@).take(i as int),
        decreases components.len() - i,
    {
        r.push((components[i].h_samp_factor, components[i].v_samp_factor));
        i = i + 1;
        assert(r@ =~= comp_factors(components@).take(i as int));
    }
    assert(r@ =~= comp_factors(components@));
    r
}

fn unit_factors_exec(n: usize) -> (r: Vec<(i32, i32)>)
    ensures
        r@ == unit_factors(n as nat),
{
    let mut r: Vec<(i32, i32)> = Vec::new();
    let mut i: usize = 0;
    while i < n
        invariant
            i <= n,
            r@ == unit_factors(i as nat),
        decreases n - i,
    {
        r.push((1, 1));
        i = i + 1;
        assert(r@ =~= unit_factors(i as nat));
    }
    r
}

fn colorspace_factors_exec(cs: ColorSpace, input_components: usize) -> (r: Option<Vec<(i32, i32)>>)
    ensures
        match r {
            Some(v) => colorspace_factors(cs, input_components as nat) == Some(v@),
            None => colorspace_factors(cs, input_components as nat) is None,
        },
{
    match cs {
        ColorSpace::JCS_GRAYSCALE => Some(unit_factors_exec(1)),
        ColorSpace::JCS_RGB => Some(unit_factors_exec(3)),
        ColorSpace::JCS_YCbCr => {
            let v = vec![(2i32, 2i32), (1i32, 1i32), (1i32, 1i32)];
            assert(v@ =~= seq![(2i32, 2i32), (1i32, 1i32), (1i32, 1i32)]);
            Some(v)
        },
        ColorSpace::JCS_CMYK => Some(unit_factors_exec(4)),
        ColorSpace::JCS_YCCK => {
            let v = vec![(2i32, 2i32), (1i32, 1i32), (1i32, 1i32), (2i32, 2i32)];
            assert(v@ =~= seq![(2i32, 2i32), (1i32, 1i32), (1i32, 1i32), (2i32, 2i32)]);
            Some(v)
        },
        ColorSpace::JCS_UNKNOWN => Some(unit_factors_exec(input_components)),
        _ => None,
    }
}

fn default_jpeg_colorspace_exec(input: ColorSpace) -> (r: Option<ColorSpace>)
    ensures
        r == default_jpeg_colorspace(input),
{
    match input {
        ColorSpace::JCS_GRAYSCALE => Some(ColorSpace::JCS_GRAYSCALE),
        ColorSpace::JCS_YCbCr => Some(ColorSpace::JCS_YCbCr),
        ColorSpace::JCS_CMYK => Some(ColorSpace::JCS_CMYK),
        ColorSpace::JCS_YCCK => Some(ColorSpace::JCS_YCCK),
        ColorSpace::JCS_UNKNOWN => Some(ColorSpace::JCS_UNKNOWN),
        ColorSpace::JCS_RGB565 => None,
        _ => Some(ColorSpace::JCS_YCbCr),
    }
}

fn overlay_exec(base: Vec<(i32, i32)>, set: &Vec<(i32, i32)>) -> (r: Vec<(i32, i32)>)
    ensures
        r@ == overlay(base@, set@),
{
    let mut r: Vec<(i32, i32)> = Vec::new();
    let mut i: usize = 0;
    while i < base.len()
        invariant
            i <= base@.len(),
            r@ == overlay(base@, set@).take(i as int),
        decreases base.len() - i,
    {
        if i < set.len() {
            r.push(set[i]);
        } else {
            r.push(base[i]);
        }
        i = i + 1;
        assert(r@ =~= overlay(base@, set@).take(i as int));
    }
    assert(r@ =~= overlay(base@, set@));
    r
}

fn factors_after_exec(plan: &Vec<ConfigStep>, p: &PendingConfig, input: ColorSpace, held: Vec<(i32, i32)>) -> (r: Vec<(i32, i32)>)
    ensures
        r@ == factors_after(plan@, p@, input, held@),
{
    let n = input.num_components();
    let reset: Option<Vec<(i32, i32)>> = if has_step(plan, ConfigStep::Defaults) {
        match default_jpeg_colorspace_exec(input) {
            Some(cs) => colorspace_factors_exec(cs, n),
            None => None,
        }
    } else if has_step(plan, ConfigStep::ColorSpace) && p.output_colorspace.is_some() {
        match p.output_colorspace {
            Some(cs) => colorspace_factors_exec(cs, n),
            None => None,
        }
    } else {
        None
    };
    let base = match reset {
        Some(f) => f,
        None => held,
    };
    if has_step(plan, ConfigStep::SamplingFactors) && p.subsampling.is_some() {
        match &p.subsampling {
            Some(set) => overlay_exec(base, set),
            None => base,
        }
    } else {
        base
    }
}

impl ConfigTracker {
    /// Create a new configuration tracker
    pub fn new() -> (t: Self)
        ensures
            t@ == (TrackerModel {
                smoothing_factor: None,
                raw_data_in: None,
                subsampling: None,
                quality: None,
                dimensions: None,
                progressive: false,
                scan_mode: None,
                log: Seq::empty(),
            }),
    {
        ConfigTracker {
            smoothing_factor: None,
            raw_data_in: None,
            subsampling: None,
            quality: None,
            dimensions: None,
            progressive: false,
            scan_mode: None,
            operation_log: Vec::new(),
        }
    }

    /// Record that smoothing factor was set
    pub fn record_smoothing(&mut self, value: u8)
        ensures
            final(self)@ == (TrackerModel {
                smoothing_factor: Some(value),
                log: old(self)@.log.push(ConfigOperation::SetSmoothing(value)),
                ..old(self)@
            }),
    {
        self.smoothing_factor = Some(value);
        self.operation_log.push(ConfigOperation::SetSmoothing(value));
    }

    /// Record that raw_data_in was set
    pub fn record_raw_data_in(&mut self, value: bool)
        ensures
            final(self)@ == (TrackerModel {
                raw_data_in: Some(value),
                log: old(self)@.log.push(ConfigOperation::SetRawDataIn(value)),
                ..old(self)@
            }),
    {
        self.raw_data_in = Some(value);
        self.operation_log.push(ConfigOperation::SetRawDataIn(value));
    }

    /// Record subsampling factors
    pub fn record_subsampling(&mut self, factors: [i32; 6])
        ensures
            final(self)@ == (TrackerModel {
                subsampling: Some(factors),
                log: old(self)@.log.push(ConfigOperation::SetSubsampling(factors)),
                ..old(self)@
            }),
    {
        self.subsampling = Some(factors);
        self.operation_log.push(ConfigOperation::SetSubsampling(factors));
    }

    /// Record quality, given as the binary32 bit pattern of the value.
    pub fn record_quality(&mut self, value: u32)
        ensures
            final(self)@ == (TrackerModel {
                quality: Some(value),
                log: old(self)@.log.push(ConfigOperation::SetQuality(value)),
                ..old(self)@
            }),
    {
        self.quality = Some(value);
        self.operation_log.push(ConfigOperation::SetQuality(value));
    }

    /// Record dimensions
    pub fn record_size(&mut self, width: usize, height: usize)
        ensures
            final(self)@ == (TrackerModel {
                dimensions: Some((width, height)),
                log: old(self)@.log.push(ConfigOperation::SetSize(width, height)),
                ..old(self)@
            }),
    {
        self.dimensions = Some((width, height));
        self.operation_log.push(ConfigOperation::SetSize(width, height));
    }

    /// Record progressive mode
    pub fn record_progressive(&mut self)
        ensures
            final(self)@ == (TrackerModel {
                progressive: true,
                log: old(self)@.log.push(ConfigOperation::SetProgressive),
                ..old(self)@
            }),
    {
        self.progressive = true;
        self.operation_log.push(ConfigOperation::SetProgressive);
    }

    /// Record scan optimization mode
    ///
    /// **IMPORTANT**: This call may reset other settings! The validator will check
    /// if any settings configured BEFORE this call are different AFTER this call.
    pub fn record_scan_mode(&mut self, mode: ScanMode)
        ensures
            final(self)@ == (TrackerModel {
                scan_mode: Some(mode),
                log: old(self)@.log.push(ConfigOperation::SetScanMode(mode)),
                ..old(self)@
            }),
    {
        self.scan_mode = Some(mode);
        self.operation_log.push(ConfigOperation::SetScanMode(mode));
    }

    /// Get the operation log for debugging
    pub fn operation_log(&self) -> (r: &[ConfigOperation])
        ensures
            r@ == self@.log,
    {
        self.operation_log.as_slice()
    }

    /// Diagnose the likely cause of a setting being reset
    fn diagnose_cause(&self, setting: ConfigOperation) -> (r: String)
        ensures
            r@ == spec_cause(self@.log, setting),
    {
        match last_equal_index(&self.operation_log, &setting) {
            Some(idx) => {
                if kind_after(&self.operation_log, idx, 6) {
                    return String::from_str(
                        "likely reset by set_scan_optimization_mode() which calls jpeg_set_defaults()",
                    );
                }
            },
            None => {},
        }
        String::from_str("unknown cause")
    }

    /// Validate that the compressor's state matches the tracked configuration.
    ///
    /// `smoothing_factor`, `raw_data_in` and `components` are what libjpeg
    /// holds for `comp` now; the values compared are those libjpeg will hold
    /// once `comp`'s pending configuration is applied, as compression start
    /// does (a pending scan mode re-runs `jpeg_set_defaults`). Returns `Ok(())`
    /// if everything matches, or `Err` with a list of warnings if any settings
    /// have been reset or changed.
    pub fn validate(
        &self,
        comp: &Compress,
        smoothing_factor: i32,
        raw_data_in: bool,
        components: &[CompInfo],
    ) -> (r: Result<(), Vec<ValidationWarning>>)
        ensures
            ({
                let plan = plan_of(*comp);
                let p = comp.spec_pending();
                let w = spec_validation_warnings(
                    self@,
                    smoothing_after(plan, p, smoothing_factor),
                    raw_data_in_after(plan, p, raw_data_in),
                    factors_after(plan, p, comp.spec_input_color_space(), comp_factors(components@)),
                );
                match r {
                    Ok(_) => w.len() == 0,
                    Err(ws) => ws@.len() > 0 && warning_texts(ws@) == w,
                }
            }),
    {
        let plan = comp.pending_plan();
        let p = comp.pending();
        let smoothing: i32 = if has_step(&plan, ConfigStep::Smoothing) && p.smoothing_factor.is_some() {
            match p.smoothing_factor {
                Some(f) => f as i32,
                None => 0,
            }
        } else if has_step(&plan, ConfigStep::Defaults) {
            0
        } else {
            smoothing_factor
        };
        let raw: bool = if has_step(&plan, ConfigStep::RawDataIn) && p.raw_data_in.is_some() {
            match p.raw_data_in {
                Some(b) => b,
                None => false,
            }
        } else if has_step(&plan, ConfigStep::Defaults) {
            false
        } else {
            raw_data_in
        };
        let held = held_factors(components);
        let factors = factors_after_exec(&plan, p, comp.input_color_space(), held);
        self.validate_held(smoothing, raw, &factors)
    }

    /// Compares the tracked configuration with the values given.
    fn validate_held(&self, smoothing_factor: i32, raw_data_in: bool, factors: &Vec<(i32, i32)>) -> (r: Result<(), Vec<ValidationWarning>>)
        ensures
            match r {
                Ok(_) => spec_validation_warnings(self@, smoothing_factor, raw_data_in, factors@).len() == 0,
                Err(w) => w@.len() > 0 && warning_texts(w@) == spec_validation_warnings(
                    self@, smoothing_factor, raw_data_in, factors@),
            },
    {
        let ghost t = self@;
        let ghost comps = factors@;
        let mut warnings: Vec<ValidationWarning> = Vec::new();
        let ghost s1: Seq<(Seq<char>, Seq<char>, Seq<char>, Seq<char>)> = match t.smoothing_factor {
            Some(e) if smoothing_factor as u8 != e => seq![(
                "smoothing_factor"@,
                decimal_chars(e as nat),
                decimal_chars((smoothing_factor as u8) as nat),
                spec_cause(t.log, ConfigOperation::SetSmoothing(e)),
            )],
            _ => Seq::empty(),
        };
        if let Some(expected) = self.smoothing_factor {
            let actual = smoothing_factor as u8;
            if actual != expected {
                warnings.push(ValidationWarning {
                    setting: String::from_str("smoothing_factor"),
                    expected: decimal_string(expected as u64),
                    actual: decimal_string(actual as u64),
                    cause: self.diagnose_cause(ConfigOperation::SetSmoothing(expected)),
                });
            }
        }
        assert(warning_texts(warnings@) =~= s1);
        let ghost s2: Seq<(Seq<char>, Seq<char>, Seq<char>, Seq<char>)> = match t.raw_data_in {
            Some(e) if raw_data_in != e => seq![(
                "raw_data_in"@,
                bool_chars(e),
                bool_chars(raw_data_in),
                spec_cause(t.log, ConfigOperation::SetRawDataIn(e)),
            )],
            _ => Seq::empty(),
        };
        if let Some(expected) = self.raw_data_in {
            if raw_data_in != expected {
                warnings.push(ValidationWarning {
                    setting: String::from_str("raw_data_in"),
                    expected: bool_string(expected),
                    actual: bool_string(raw_data_in),
                    cause: self.diagnose_cause(ConfigOperation::SetRawDataIn(expected)),
                });
            }
        }
        assert(warning_texts(warnings@) =~= s1 + s2);
        let ghost s3: Seq<(Seq<char>, Seq<char>, Seq<char>, Seq<char>)> = match t.subsampling {
            Some(e) if comps.len() >= 3 && factors_of(comps) != e@ => seq![(
                "subsampling_factors"@,
                list_chars(e@),
                list_chars(factors_of(comps)),
                spec_cause(t.log, ConfigOperation::SetSubsampling(e)),
            )],
            _ => Seq::empty(),
        };
        if let Some(expected) = self.subsampling {
            if factors.len() >= 3 {
                let actual: [i32; 6] = [
                    factors[0].0,
                    factors[0].1,
                    factors[1].0,
                    factors[1].1,
                    factors[2].0,
                    factors[2].1,
                ];
                assert(actual@ =~= factors_of(comps));
                if !same_factors6(&actual, &expected) {
                    warnings.push(ValidationWarning {
                        setting: String::from_str("subsampling_factors"),
                        expected: list_string(expected.as_slice()),
                        actual: list_string(actual.as_slice()),
                        cause: self.diagnose_cause(ConfigOperation::SetSubsampling(expected)),
                    });
                }
            }
        }
        assert(warning_texts(warnings@) =~= s1 + s2 + s3);
        if warnings.len() == 0 {
            Ok(())
        } else {
            Err(warnings)
        }
    }

    /// Check if the current configuration order is likely to cause bugs
    ///
    /// Returns warnings about potentially problematic orderings
    pub fn check_order(&self) -> (r: Vec<String>)
        ensures
            texts(r@) == spec_check_order(self@.log),
    {
        let mut warnings: Vec<String> = Vec::new();
        let log = &self.operation_log;
        match first_scan_mode_index(log) {
            None => {
                assert(texts(warnings@) =~= Seq::<Seq<char>>::empty());
            },
            Some(scan) => {
                let mut i: usize = 0;
                assert(texts(warnings@) =~= order_warnings_upto(log@, scan as int, 0));
                while i < scan
                    invariant
                        i <= scan,
                        scan < log@.len(),
                        texts(warnings@) == order_warnings_upto(log@, scan as int, i as nat),
                    decreases scan - i,
                {
                    let op = &log[i];
                    let ghost before = warnings@;
                    match order_message(op, i + 1) {
                        Some(m) => {
                            if !kind_after(log, scan, op_kind_of(op)) {
                                warnings.push(m);
                                assert(texts(warnings@) =~= texts(before).push(order_warning(*op, (i + 1) as nat)->0));
                            }
                        },
                        None => {},
                    }
                    i = i + 1;
                }
            },
        }
        warnings
    }
}

impl Default for ConfigTracker {
    fn default() -> (t: Self)
        ensures
            t@ == (TrackerModel {
                smoothing_factor: None,
                raw_data_in: None,
                subsampling: None,
                quality: None,
                dimensions: None,
                progressive: false,
                scan_mode: None,
                log: Seq::empty(),
            }),
    {
        Self::new()
    }
}

/// The name of a scan mode, as `{:?}` prints it.
pub open spec fn scan_mode_name(m: ScanMode) -> Seq<char> {
    match m {
        ScanMode::AllComponentsTogether => "AllComponentsTogether"@,
        ScanMode::ScanPerComponent => "ScanPerComponent"@,
        ScanMode::Auto => "Auto"@,
    }
}

fn scan_mode_str(m: ScanMode) -> (s: &'static str)
    ensures
        s@ == scan_mode_name(m),
{
    match m {
        ScanMode::AllComponentsTogether => "AllComponentsTogether",
        ScanMode::ScanPerComponent => "ScanPerComponent",
        ScanMode::Auto => "Auto",
    }
}

/// The call an operation stands for, with `quality` as the text of a quality.
pub open spec fn operation_text(op: ConfigOperation, quality: Seq<char>) -> Seq<char> {
    match op {
        ConfigOperation::SetSmoothing(v) => "set_smoothing_factor("@ + decimal_chars(v as nat) + ")"@,
        ConfigOperation::SetRawDataIn(v) => "set_raw_data_in("@ + bool_chars(v) + ")"@,
        ConfigOperation::SetSubsampling(f) => "set_subsampling("@ + list_chars(f@) + ")"@,
        ConfigOperation::SetQuality(_) => "set_quality("@ + quality + ")"@,
        ConfigOperation::SetSize(w, h) => "set_size("@ + decimal_chars(w as nat) + ", "@ + decimal_chars(h as nat) + ")"@,
        ConfigOperation::SetProgressive => "set_progressive_mode()"@,
        ConfigOperation::SetScanMode(m) => "set_scan_optimization_mode("@ + scan_mode_name(m) + ")"@,
    }
}

impl ConfigOperation {
    /// The call this operation stands for, such as `set_size(64, 64)`.
    /// `quality_text` is how the quality of `SetQuality` is written.
    pub fn describe(&self, quality_text: &str) -> (r: String)
        ensures
            r@ == operation_text(*self, quality_text@),
    {
        let mut r = String::new();
        match self {
            ConfigOperation::SetSmoothing(v) => {
                r.append("set_smoothing_factor(");
                push_decimal(&mut r, *v as u64);
            },
            ConfigOperation::SetRawDataIn(v) => {
                r.append("set_raw_data_in(");
                let b = bool_string(*v);
                r.append(b.as_str());
            },
            ConfigOperation::SetSubsampling(f) => {
                r.append("set_subsampling(");
                let l = list_string(f.as_slice());
                r.append(l.as_str());
            },
            ConfigOperation::SetQuality(_) => {
                r.append("set_quality(");
                r.append(quality_text);
            },
            ConfigOperation::SetSize(w, h) => {
                r.append("set_size(");
                push_decimal(&mut r, *w as u64);
                r.append(", ");
                push_decimal(&mut r, *h as u64);
            },
            ConfigOperation::SetProgressive => {
                r.append("set_progressive_mode(");
            },
            ConfigOperation::SetScanMode(m) => {
                r.append("set_scan_optimization_mode(");
                r.append(scan_mode_str(*m));
            },
        }
        r.append(")");
        proof {
            reveal_strlit("set_progressive_mode(");
            reveal_strlit("set_progressive_mode()");
            reveal_strlit(")");
        }
        assert(r@ =~= operation_text(*self, quality_text@));
        r
    }
}

/// The line a warning prints as.
pub open spec fn warning_line(w: ValidationWarning) -> Seq<char> {
    w.setting@ + ": expected '"@ + w.expected@ + "', got '"@ + w.actual@ + "' - "@ + w.cause@
}

impl ValidationWarning {
    /// The warning as one line: setting, expected and actual value, and cause.
    pub fn to_string(&self) -> (r: String)
        ensures
            r@ == warning_line(*self),
    {
        let mut r = String::new();
        r.append(self.setting.as_str());
        r.append(": expected '");
        r.append(self.expected.as_str());
        r.append("', got '");
        r.append(self.actual.as_str());
        r.append("' - ");
        r.append(self.cause.as_str());
        assert(r@ =~= warning_line(*self));
        r
    }
}

} // verus!
