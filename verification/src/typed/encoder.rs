//! Encoders built from a [`JpegConfig`]: the configuration they hand to
//! [`Compress`], in the order the setters are called.
use vstd::prelude::*;
use crate::binary32::{bits_in_quality_range, bits_round_to_i32};
use crate::colorspace::ColorSpace;
use crate::compress::{
    Compress, CompressStarted, ConfigChange, ConfigStep, PendingModel, RawDataError, ScanlineError, plane_lens,
    spec_plan, spec_raw_data_check,
};
use crate::rowbatch::row_offsets;
use arrayvec::ArrayVec;
use crate::ordering::{apply_changes, lemma_changes_commute};
use crate::typed::config::{
    ChromaSubsampling, CompressionMode, ConfigError, JpegConfig, JpegInput, QTableChoice, QTableConfig,
    Preset, RawMcuConfig, ScanlineConfig, spec_from_preset, spec_validate_with_dimensions,
};
use crate::compress::ScanMode;

verus! {

/// The quality or quantization-table setter calls a configuration makes.
pub open spec fn quality_changes(c: JpegConfig) -> Seq<ConfigChange> {
    let q = ConfigChange::Quality(bits_round_to_i32(c.quality), c.force_8bit_quantization);
    match c.qtables {
        QTableConfig::FromQuality => seq![q],
        QTableConfig::Explicit { luma, chroma } => {
            let l = match luma {
                QTableChoice::FromQuality => seq![q],
                QTableChoice::Custom(t) => seq![ConfigChange::LumaQTable(t.spec_coeffs(), c.force_8bit_quantization)],
            };
            let ch = match chroma {
                Some(QTableChoice::Custom(t)) => seq![ConfigChange::ChromaQTable(t.spec_coeffs(), c.force_8bit_quantization)],
                _ => Seq::empty(),
            };
            l + ch
        },
    }
}

/// The progressive-mode setter calls a compression mode makes.
pub open spec fn progressive_changes(m: CompressionMode) -> Seq<ConfigChange> {
    match m {
        CompressionMode::Sequential => Seq::empty(),
        CompressionMode::Progressive { optimize_scans, use_scans_in_trellis } => {
            seq![ConfigChange::Progressive]
            + (if optimize_scans { seq![ConfigChange::OptimizeScans(true)] } else { Seq::empty() })
            + (if use_scans_in_trellis { seq![ConfigChange::UseScansInTrellis(true)] } else { Seq::empty() })
        },
    }
}

/// The setter calls, in order, that configure a scanline encoder.
pub open spec fn scanline_changes(c: JpegConfig, sc: ScanlineConfig, width: usize, height: usize) -> Seq<ConfigChange> {
    seq![
        ConfigChange::Size(width, height),
        ConfigChange::ColorSpace(sc.spec_jpeg_color_space()),
        ConfigChange::ScanMode(c.scan_mode),
    ]
    + quality_changes(c)
    + seq![ConfigChange::OptimizeCoding(c.optimize_coding)]
    + (match sc.spec_smoothing_factor() {
        Some(s) => seq![ConfigChange::Smoothing(s)],
        None => Seq::empty(),
    })
    + progressive_changes(c.compression)
}

/// The setter calls, in order, that configure a raw MCU encoder before its
/// components are set up.
pub open spec fn raw_mcu_changes(c: JpegConfig, width: usize, height: usize) -> Seq<ConfigChange> {
    seq![ConfigChange::Size(width, height), ConfigChange::ScanMode(c.scan_mode)]
    + quality_changes(c)
    + seq![ConfigChange::OptimizeCoding(c.optimize_coding)]
    + progressive_changes(c.compression)
}

/// The setter calls that configure a preset by hand: size, YCbCr output,
/// automatic scan mode, quality, Huffman optimization, then progressive mode
/// and its options.
pub open spec fn preset_setter_calls(p: Preset, quality: u32, width: usize, height: usize) -> Seq<ConfigChange> {
    seq![
        ConfigChange::Size(width, height),
        ConfigChange::ColorSpace(ColorSpace::JCS_YCbCr),
        ConfigChange::ScanMode(ScanMode::Auto),
        ConfigChange::Quality(bits_round_to_i32(quality), false),
        ConfigChange::OptimizeCoding(p.spec_has_huffman_opt()),
    ] + progressive_changes(p.spec_compression_mode())
}

/// The scanline encoder of a preset records what the setter calls of
/// [`preset_setter_calls`] record, with the smoothing factor set to 0 (the
/// value libjpeg's defaults give it), and its components get 4:2:0 sampling
/// factors, as setting them by hand does.
pub proof fn lemma_preset_encoder_as_setters(p: Preset, quality: u32, width: usize, height: usize)
    ensures
        ({
            let c = spec_from_preset(p, quality);
            let sc = c.input->Scanlines_0;
            &&& c.input is Scanlines
            &&& apply_changes(PendingModel::empty(), scanline_changes(c, sc, width, height))
                == apply_changes(PendingModel::empty(), preset_setter_calls(p, quality, width, height))
                    .changed(ConfigChange::Smoothing(0))
            &&& sc.spec_subsampling() == Some(ChromaSubsampling::Yuv420)
            &&& ChromaSubsampling::Yuv420.spec_sampling_factors() == seq![(2u8, 2u8), (1u8, 1u8), (1u8, 1u8)]
        }),
{
    let c = spec_from_preset(p, quality);
    let sc = c.input->Scanlines_0;
    let e = PendingModel::empty();
    let head = seq![
        ConfigChange::Size(width, height),
        ConfigChange::ColorSpace(ColorSpace::JCS_YCbCr),
        ConfigChange::ScanMode(ScanMode::Auto),
        ConfigChange::Quality(bits_round_to_i32(quality), false),
        ConfigChange::OptimizeCoding(p.spec_has_huffman_opt()),
    ];
    let prog = progressive_changes(p.spec_compression_mode());
    assert(quality_changes(c) =~= seq![ConfigChange::Quality(bits_round_to_i32(quality), false)]);
    assert(scanline_changes(c, sc, width, height) =~= head + seq![ConfigChange::Smoothing(0)] + prog);
    assert(ChromaSubsampling::Yuv420.spec_sampling_factors() =~= seq![(2u8, 2u8), (1u8, 1u8), (1u8, 1u8)]);
    let a = head + seq![ConfigChange::Smoothing(0)] + prog;
    let b = head + prog;
    let sm = ConfigChange::Smoothing(0);
    let h1 = head.push(sm);
    lemma_apply_push(e, head, sm);
    match p {
        Preset::SequentialFastest | Preset::SequentialBalanced => {
            assert(prog =~= Seq::<ConfigChange>::empty());
            assert(a =~= h1);
            assert(b =~= head);
        },
        Preset::ProgressiveBalanced => {
            let pr = ConfigChange::Progressive;
            assert(prog =~= seq![pr]);
            assert(a =~= h1.push(pr));
            assert(b =~= head.push(pr));
            lemma_apply_push(e, h1, pr);
            lemma_apply_push(e, head, pr);
            lemma_changes_commute(apply_changes(e, head), sm, pr);
        },
        Preset::ProgressiveSmallest => {
            let pr = ConfigChange::Progressive;
            let os = ConfigChange::OptimizeScans(true);
            let ut = ConfigChange::UseScansInTrellis(true);
            assert(prog =~= seq![pr, os, ut]);
            let a1 = h1.push(pr);
            let a2 = a1.push(os);
            assert(a =~= a2.push(ut));
            let b1 = head.push(pr);
            let b2 = b1.push(os);
            assert(b =~= b2.push(ut));
            lemma_apply_push(e, h1, pr);
            lemma_apply_push(e, a1, os);
            lemma_apply_push(e, a2, ut);
            lemma_apply_push(e, head, pr);
            lemma_apply_push(e, b1, os);
            lemma_apply_push(e, b2, ut);
            let x = apply_changes(e, head);
            lemma_changes_commute(x, sm, pr);
            lemma_changes_commute(x.changed(pr), sm, os);
            lemma_changes_commute(x.changed(pr).changed(os), sm, ut);
        },
    }
}

proof fn lemma_apply_push(p: PendingModel, cs: Seq<ConfigChange>, c: ConfigChange)
    ensures
        apply_changes(p, cs.push(c)) == apply_changes(p, cs).changed(c),
{
    assert(cs.push(c).drop_last() =~= cs);
}

/// A [`Compress`] whose recorded configuration is that of the calls `cs`.
pub open spec fn made_by(c: &Compress, cs: Seq<ConfigChange>) -> bool {
    c.spec_pending() == apply_changes(PendingModel::empty(), cs)
}

/// Scanline mode encoder for standard JPEG encoding.
///
/// It holds the configured compression; when the input is subsampled, the
/// configuration was applied once (`setup_steps`) so that the component
/// sampling factors can be set right after, as libjpeg's defaults would
/// otherwise reset them.
pub struct ScanlineEncoder {
    compress: Compress,
    config: JpegConfig,
    setup: Vec<ConfigStep>,
    component_factors: Option<[(u8, u8); 3]>,
}

fn record_quality(compress: &mut Compress, config: &JpegConfig, Ghost(cs): Ghost<Seq<ConfigChange>>) -> (r: Ghost<Seq<ConfigChange>>)
    requires
        made_by(old(compress), cs),
    ensures
        r@ == cs + quality_changes(*config),
        made_by(final(compress), r@),
        final(compress).spec_applied() == old(compress).spec_applied(),
        final(compress).spec_input_color_space() == old(compress).spec_input_color_space(),
{
    let ghost q = ConfigChange::Quality(bits_round_to_i32(config.quality), config.force_8bit_quantization);
    match &config.qtables {
        QTableConfig::FromQuality => {
            compress.set_quality_force_8bit(config.quality, config.force_8bit_quantization);
            proof { lemma_apply_push(PendingModel::empty(), cs, q); }
            assert(cs.push(q) =~= cs + quality_changes(*config));
            Ghost(cs.push(q))
        },
        QTableConfig::Explicit { luma, chroma } => {
            let ghost mut acc = cs;
            match luma {
                QTableChoice::FromQuality => {
                    compress.set_quality_force_8bit(config.quality, config.force_8bit_quantization);
                    proof {
                        lemma_apply_push(PendingModel::empty(), acc, q);
                        acc = acc.push(q);
                    }
                },
                QTableChoice::Custom(qtable) => {
                    compress.set_luma_qtable_force_8bit(qtable, config.force_8bit_quantization);
                    let ghost l = ConfigChange::LumaQTable(qtable.spec_coeffs(), config.force_8bit_quantization);
                    proof {
                        lemma_apply_push(PendingModel::empty(), acc, l);
                        acc = acc.push(l);
                    }
                },
            }
            if let Some(chroma_choice) = chroma {
                match chroma_choice {
                    QTableChoice::FromQuality => {},
                    QTableChoice::Custom(qtable) => {
                        compress.set_chroma_qtable_force_8bit(qtable, config.force_8bit_quantization);
                        let ghost ch = ConfigChange::ChromaQTable(qtable.spec_coeffs(), config.force_8bit_quantization);
                        proof {
                            lemma_apply_push(PendingModel::empty(), acc, ch);
                            acc = acc.push(ch);
                        }
                    },
                }
            }
            assert(acc =~= cs + quality_changes(*config));
            Ghost(acc)
        },
    }
}

fn record_progressive(compress: &mut Compress, mode: CompressionMode, Ghost(cs): Ghost<Seq<ConfigChange>>) -> (r: Ghost<Seq<ConfigChange>>)
    requires
        made_by(old(compress), cs),
    ensures
        r@ == cs + progressive_changes(mode),
        made_by(final(compress), r@),
        final(compress).spec_applied() == old(compress).spec_applied(),
        final(compress).spec_input_color_space() == old(compress).spec_input_color_space(),
{
    match mode {
        CompressionMode::Sequential => {
            assert(cs =~= cs + progressive_changes(mode));
            Ghost(cs)
        },
        CompressionMode::Progressive { optimize_scans, use_scans_in_trellis } => {
            let ghost mut acc = cs;
            compress.set_progressive_mode();
            proof {
                lemma_apply_push(PendingModel::empty(), acc, ConfigChange::Progressive);
                acc = acc.push(ConfigChange::Progressive);
            }
            if optimize_scans {
                compress.set_optimize_scans(true);
                proof {
                    lemma_apply_push(PendingModel::empty(), acc, ConfigChange::OptimizeScans(true));
                    acc = acc.push(ConfigChange::OptimizeScans(true));
                }
            }
            if use_scans_in_trellis {
                compress.set_use_scans_in_trellis(true);
                proof {
                    lemma_apply_push(PendingModel::empty(), acc, ConfigChange::UseScansInTrellis(true));
                    acc = acc.push(ConfigChange::UseScansInTrellis(true));
                }
            }
            assert(acc =~= cs + progressive_changes(mode));
            Ghost(acc)
        },
    }
}

/// What creating a scanline encoder gives: `Ok` when the quality is in
/// `0.0..=100.0`, the size is non-zero and the input is in scanline mode.
pub open spec fn scanline_encoder_ok(config: JpegConfig, width: usize, height: usize) -> bool {
    bits_in_quality_range(config.quality) && width != 0 && height != 0 && config.input is Scanlines
}

impl ScanlineEncoder {
    pub closed spec fn spec_compress(&self) -> Compress {
        self.compress
    }

    pub closed spec fn spec_config(&self) -> JpegConfig {
        self.config
    }

    pub closed spec fn spec_setup(&self) -> Seq<ConfigStep> {
        self.setup@
    }

    pub closed spec fn spec_component_factors(&self) -> Option<Seq<(u8, u8)>> {
        match self.component_factors {
            Some(f) => Some(f@),
            None => None,
        }
    }

    /// Whether this encoder is the one built for `config` at this size.
    pub open spec fn built_for(&self, config: JpegConfig, width: usize, height: usize) -> bool {
        let sc = config.input->Scanlines_0;
        let cs = scanline_changes(config, sc, width, height);
        let pending = apply_changes(PendingModel::empty(), cs);
        &&& self.spec_config() == config
        &&& self.spec_compress().spec_input_color_space() == sc.spec_input_color_space()
        &&& self.spec_compress().spec_pending() == pending
        &&& match sc.spec_subsampling() {
            Some(sub) => {
                &&& self.spec_setup() == spec_plan(pending, PendingModel::empty())
                &&& self.spec_compress().spec_applied() == Some(pending)
                &&& self.spec_component_factors() == Some(sub.spec_sampling_factors())
            },
            None => {
                &&& self.spec_setup() == Seq::<ConfigStep>::empty()
                &&& self.spec_compress().spec_applied() is None
                &&& self.spec_component_factors() is None
            },
        }
    }

    /// Configures a compression for `config` at this size.
    pub(crate) fn new(config: JpegConfig, width: usize, height: usize) -> (r: Result<Self, ConfigError>)
        ensures
            !bits_in_quality_range(config.quality) ==> r == Err::<Self, ConfigError>(ConfigError::InvalidQuality(config.quality)),
            bits_in_quality_range(config.quality) && !(width != 0 && height != 0)
                ==> r == Err::<Self, ConfigError>(ConfigError::InvalidDimensions { width, height }),
            bits_in_quality_range(config.quality) && width != 0 && height != 0 && !(config.input is Scanlines)
                ==> r == Err::<Self, ConfigError>(ConfigError::WrongInputMode),
            scanline_encoder_ok(config, width, height) ==> (r matches Ok(e) && e.built_for(config, width, height)),
    {
        config.validate()?;
        if width == 0 || height == 0 {
            return Err(ConfigError::InvalidDimensions { width, height });
        }
        let scanline = match &config.input {
            JpegInput::Scanlines(sc) => *sc,
            _ => return Err(ConfigError::WrongInputMode),
        };
        let mut compress = Compress::new(scanline.input_color_space());
        let ghost mut cs: Seq<ConfigChange> = Seq::empty();
        compress.set_size(width, height);
        proof {
            lemma_apply_push(PendingModel::empty(), cs, ConfigChange::Size(width, height));
            cs = cs.push(ConfigChange::Size(width, height));
        }
        compress.set_color_space(scanline.jpeg_color_space());
        proof {
            lemma_apply_push(PendingModel::empty(), cs, ConfigChange::ColorSpace(scanline.spec_jpeg_color_space()));
            cs = cs.push(ConfigChange::ColorSpace(scanline.spec_jpeg_color_space()));
        }
        compress.set_scan_optimization_mode(config.scan_mode);
        proof {
            lemma_apply_push(PendingModel::empty(), cs, ConfigChange::ScanMode(config.scan_mode));
            cs = cs.push(ConfigChange::ScanMode(config.scan_mode));
        }
        let Ghost(after_q) = record_quality(&mut compress, &config, Ghost(cs));
        proof { cs = after_q; }
        compress.set_optimize_coding(config.optimize_coding);
        proof {
            lemma_apply_push(PendingModel::empty(), cs, ConfigChange::OptimizeCoding(config.optimize_coding));
            cs = cs.push(ConfigChange::OptimizeCoding(config.optimize_coding));
        }
        if let Some(smoothing) = scanline.smoothing_factor() {
            compress.set_smoothing_factor(smoothing);
            proof {
                lemma_apply_push(PendingModel::empty(), cs, ConfigChange::Smoothing(smoothing));
                cs = cs.push(ConfigChange::Smoothing(smoothing));
            }
        }
        let Ghost(after_p) = record_progressive(&mut compress, config.compression, Ghost(cs));
        proof { cs = after_p; }
        assert(cs =~= scanline_changes(config, scanline, width, height));
        let (setup, component_factors) = match scanline.subsampling() {
            Some(subsampling) => {
                let setup = compress.apply_pending_config();
                (setup, Some(subsampling.sampling_factors()))
            },
            None => (Vec::new(), None),
        };
        Ok(ScanlineEncoder { compress, config, setup, component_factors })
    }

    /// The configured compression.
    pub fn compress(&self) -> (c: &Compress)
        ensures
            *c == self.spec_compress(),
    {
        &self.compress
    }

    /// The configuration this encoder was made from.
    pub fn config(&self) -> (c: &JpegConfig)
        ensures
            *c == self.spec_config(),
    {
        &self.config
    }

    /// Steps already planned to apply the configuration before the
    /// component sampling factors are set.
    pub fn setup_steps(&self) -> (s: &[ConfigStep])
        ensures
            s@ == self.spec_setup(),
    {
        self.setup.as_slice()
    }

    /// Sampling factors `(h, v)` to give Y, Cb and Cr once the setup steps ran.
    pub fn component_factors(&self) -> (f: Option<[(u8, u8); 3]>)
        ensures
            match f {
                Some(a) => self.spec_component_factors() == Some(a@),
                None => self.spec_component_factors() is None,
            },
    {
        self.component_factors
    }

    /// Applies the configuration recorded since the last application: the
    /// steps to run on libjpeg before compression starts (none when the
    /// setup steps already brought it there).
    pub fn apply_pending_config(&mut self) -> (steps: Vec<ConfigStep>)
        ensures
            steps@ == spec_plan(old(self).spec_compress().spec_pending(), old(self).spec_compress().spec_applied_or_empty()),
            final(self).spec_compress().spec_pending() == old(self).spec_compress().spec_pending(),
            final(self).spec_compress().spec_applied() == Some(old(self).spec_compress().spec_pending()),
            final(self).spec_compress().spec_input_color_space() == old(self).spec_compress().spec_input_color_space(),
            final(self).spec_config() == old(self).spec_config(),
            final(self).spec_setup() == old(self).spec_setup(),
            final(self).spec_component_factors() == old(self).spec_component_factors(),
    {
        self.compress.apply_pending_config()
    }

    /// The parts of this encoder: compression, configuration, setup steps and
    /// component sampling factors.
    pub fn into_parts(self) -> (r: (Compress, JpegConfig, Vec<ConfigStep>, Option<[(u8, u8); 3]>))
        ensures
            r.0 == self.spec_compress(),
            r.1 == self.spec_config(),
            r.2@ == self.spec_setup(),
            match r.3 {
                Some(a) => self.spec_component_factors() == Some(a@),
                None => self.spec_component_factors() is None,
            },
    {
        (self.compress, self.config, self.setup, self.component_factors)
    }
}

/// Raw MCU mode encoder, for pre-downsampled component planes.
///
/// For YCbCr planes the configuration was applied once (`setup_steps`) so
/// that the component sampling factors can be set right after; raw data
/// input is enabled after that.
pub struct RawMcuEncoder {
    compress: Compress,
    config: JpegConfig,
    raw: RawMcuConfig,
    setup: Vec<ConfigStep>,
    component_factors: Option<[(u8, u8); 3]>,
}

impl RawMcuEncoder {
    pub closed spec fn spec_compress(&self) -> Compress {
        self.compress
    }

    pub closed spec fn spec_config(&self) -> JpegConfig {
        self.config
    }

    pub closed spec fn spec_setup(&self) -> Seq<ConfigStep> {
        self.setup@
    }

    pub closed spec fn spec_component_factors(&self) -> Option<Seq<(u8, u8)>> {
        match self.component_factors {
            Some(f) => Some(f@),
            None => None,
        }
    }

    /// The raw MCU input the encoder is configured for.
    pub closed spec fn spec_raw(&self) -> RawMcuConfig {
        self.raw
    }

    /// Whether this encoder is the one built for `config` at this size.
    pub open spec fn built_for(&self, config: JpegConfig, width: usize, height: usize) -> bool {
        let raw = config.input->RawMcu_0;
        let cs = raw_mcu_changes(config, width, height);
        let configured = apply_changes(PendingModel::empty(), cs);
        let pending = apply_changes(PendingModel::empty(), cs.push(ConfigChange::RawDataIn(true)));
        &&& self.spec_config() == config
        &&& self.spec_raw() == raw
        &&& self.spec_compress().spec_pending() == pending
        &&& match raw {
            RawMcuConfig::YCbCr { subsampling, .. } => {
                &&& self.spec_compress().spec_input_color_space() == ColorSpace::JCS_YCbCr
                &&& self.spec_setup() == spec_plan(configured, PendingModel::empty())
                &&& self.spec_compress().spec_applied() == Some(configured)
                &&& self.spec_component_factors() == Some(subsampling.spec_sampling_factors())
            },
            RawMcuConfig::Grayscale { .. } => {
                &&& self.spec_compress().spec_input_color_space() == ColorSpace::JCS_GRAYSCALE
                &&& self.spec_setup() == Seq::<ConfigStep>::empty()
                &&& self.spec_compress().spec_applied() is None
                &&& self.spec_component_factors() is None
            },
        }
    }

    /// Validates `config` at this size and configures a compression for it.
    pub(crate) fn new(config: JpegConfig, width: usize, height: usize) -> (r: Result<Self, ConfigError>)
        ensures
            spec_validate_with_dimensions(config, width, height) is Err
                ==> r == Err::<Self, ConfigError>(spec_validate_with_dimensions(config, width, height)->Err_0),
            spec_validate_with_dimensions(config, width, height) is Ok && !(config.input is RawMcu)
                ==> r == Err::<Self, ConfigError>(ConfigError::WrongInputMode),
            spec_validate_with_dimensions(config, width, height) is Ok && config.input is RawMcu
                ==> (r matches Ok(e) && e.built_for(config, width, height)),
    {
        config.validate_with_dimensions(width, height)?;
        let raw = match &config.input {
            JpegInput::RawMcu(rc) => *rc,
            _ => return Err(ConfigError::WrongInputMode),
        };
        let color_space = match raw {
            RawMcuConfig::YCbCr { .. } => ColorSpace::JCS_YCbCr,
            RawMcuConfig::Grayscale { .. } => ColorSpace::JCS_GRAYSCALE,
        };
        let mut compress = Compress::new(color_space);
        let ghost mut cs: Seq<ConfigChange> = Seq::empty();
        compress.set_size(width, height);
        proof {
            lemma_apply_push(PendingModel::empty(), cs, ConfigChange::Size(width, height));
            cs = cs.push(ConfigChange::Size(width, height));
        }
        compress.set_scan_optimization_mode(config.scan_mode);
        proof {
            lemma_apply_push(PendingModel::empty(), cs, ConfigChange::ScanMode(config.scan_mode));
            cs = cs.push(ConfigChange::ScanMode(config.scan_mode));
        }
        let Ghost(after_q) = record_quality(&mut compress, &config, Ghost(cs));
        proof { cs = after_q; }
        compress.set_optimize_coding(config.optimize_coding);
        proof {
            lemma_apply_push(PendingModel::empty(), cs, ConfigChange::OptimizeCoding(config.optimize_coding));
            cs = cs.push(ConfigChange::OptimizeCoding(config.optimize_coding));
        }
        let Ghost(after_p) = record_progressive(&mut compress, config.compression, Ghost(cs));
        proof { cs = after_p; }
        assert(cs =~= raw_mcu_changes(config, width, height));
        let (setup, component_factors) = match raw {
            RawMcuConfig::YCbCr { subsampling, .. } => {
                let setup = compress.apply_pending_config();
                (setup, Some(subsampling.sampling_factors()))
            },
            RawMcuConfig::Grayscale { .. } => (Vec::new(), None),
        };
        compress.set_raw_data_in(true);
        proof {
            lemma_apply_push(PendingModel::empty(), cs, ConfigChange::RawDataIn(true));
        }
        Ok(RawMcuEncoder { compress, config, raw, setup, component_factors })
    }

    /// The configured compression.
    pub fn compress(&self) -> (c: &Compress)
        ensures
            *c == self.spec_compress(),
    {
        &self.compress
    }

    /// The configuration this encoder was made from.
    pub fn config(&self) -> (c: &JpegConfig)
        ensures
            *c == self.spec_config(),
    {
        &self.config
    }

    /// Steps already planned to apply the configuration before the
    /// component sampling factors are set.
    pub fn setup_steps(&self) -> (s: &[ConfigStep])
        ensures
            s@ == self.spec_setup(),
    {
        self.setup.as_slice()
    }

    /// Sampling factors `(h, v)` to give Y, Cb and Cr once the setup steps ran.
    pub fn component_factors(&self) -> (f: Option<[(u8, u8); 3]>)
        ensures
            match f {
                Some(a) => self.spec_component_factors() == Some(a@),
                None => self.spec_component_factors() is None,
            },
    {
        self.component_factors
    }

    /// Applies the configuration recorded since the last application: the
    /// steps to run on libjpeg before compression starts (none when the
    /// setup steps already brought it there).
    pub fn apply_pending_config(&mut self) -> (steps: Vec<ConfigStep>)
        ensures
            steps@ == spec_plan(old(self).spec_compress().spec_pending(), old(self).spec_compress().spec_applied_or_empty()),
            final(self).spec_compress().spec_pending() == old(self).spec_compress().spec_pending(),
            final(self).spec_compress().spec_applied() == Some(old(self).spec_compress().spec_pending()),
            final(self).spec_compress().spec_input_color_space() == old(self).spec_compress().spec_input_color_space(),
            final(self).spec_config() == old(self).spec_config(),
            final(self).spec_setup() == old(self).spec_setup(),
            final(self).spec_component_factors() == old(self).spec_component_factors(),
            final(self).spec_raw() == old(self).spec_raw(),
    {
        self.compress.apply_pending_config()
    }

    /// The parts of this encoder: compression, configuration, setup steps and
    /// component sampling factors.
    pub fn into_parts(self) -> (r: (Compress, JpegConfig, Vec<ConfigStep>, Option<[(u8, u8); 3]>))
        ensures
            r.0 == self.spec_compress(),
            r.1 == self.spec_config(),
            r.2@ == self.spec_setup(),
            match r.3 {
                Some(a) => self.spec_component_factors() == Some(a@),
                None => self.spec_component_factors() is None,
            },
    {
        (self.compress, self.config, self.setup, self.component_factors)
    }
}

impl JpegConfig {
    /// Create scanline encoder (most common case).
    pub fn create_encoder(self, width: usize, height: usize) -> (r: Result<ScanlineEncoder, ConfigError>)
        ensures
            !(self.input is Scanlines) ==> r == Err::<ScanlineEncoder, ConfigError>(ConfigError::WrongInputMode),
            self.input is Scanlines && !bits_in_quality_range(self.quality)
                ==> r == Err::<ScanlineEncoder, ConfigError>(ConfigError::InvalidQuality(self.quality)),
            self.input is Scanlines && bits_in_quality_range(self.quality) && !(width != 0 && height != 0)
                ==> r == Err::<ScanlineEncoder, ConfigError>(ConfigError::InvalidDimensions { width, height }),
            scanline_encoder_ok(self, width, height) ==> (r matches Ok(e) && e.built_for(self, width, height)),
    {
        if !matches!(self.input, JpegInput::Scanlines(_)) {
            return Err(ConfigError::WrongInputMode);
        }
        ScanlineEncoder::new(self, width, height)
    }

    /// Create raw MCU planar encoder (pre-downsampled components).
    pub fn create_mcu_planar_encoder(self, width: usize, height: usize) -> (r: Result<RawMcuEncoder, ConfigError>)
        ensures
            !(self.input is RawMcu) ==> r == Err::<RawMcuEncoder, ConfigError>(ConfigError::WrongInputMode),
            self.input is RawMcu && spec_validate_with_dimensions(self, width, height) is Err
                ==> r == Err::<RawMcuEncoder, ConfigError>(spec_validate_with_dimensions(self, width, height)->Err_0),
            self.input is RawMcu && spec_validate_with_dimensions(self, width, height) is Ok
                ==> (r matches Ok(e) && e.built_for(self, width, height)),
    {
        if !matches!(self.input, JpegInput::RawMcu(_)) {
            return Err(ConfigError::WrongInputMode);
        }
        RawMcuEncoder::new(self, width, height)
    }
}

/// Whether `len` bytes hold `rows` rows of `stride` bytes.
fn fits_rows(len: usize, stride: usize, rows: u32) -> (r: bool)
    ensures
        r == (len >= stride * rows),
{
    match stride.checked_mul(rows as usize) {
        Some(needed) => len >= needed,
        None => false,
    }
}

/// Started scanline encoder ready to accept pixel data: the configuration
/// paired with the compression libjpeg started for it.
pub struct ScanlineEncoderStarted {
    compress: CompressStarted,
    config: JpegConfig,
}

impl ScanlineEncoder {
    /// Pairs the encoder's configuration with the compression libjpeg
    /// started from it.
    pub fn start(self, started: CompressStarted) -> (r: ScanlineEncoderStarted)
        ensures
            r.spec_compress() == started,
            r.spec_config() == self.spec_config(),
    {
        ScanlineEncoderStarted { compress: started, config: self.config }
    }
}

impl ScanlineEncoderStarted {
    pub closed spec fn spec_compress(&self) -> CompressStarted {
        self.compress
    }

    pub closed spec fn spec_config(&self) -> JpegConfig {
        self.config
    }

    /// Write tightly-packed pixel data: the batches of row offsets handed to
    /// libjpeg, as [`CompressStarted::write_scanlines`] gives them. The buffer
    /// must hold every row of the image.
    pub fn write_scanlines(&self, data: &[u8]) -> (r: Result<Vec<ArrayVec<usize, 16>>, ScanlineError>)
        ensures
            !self.spec_compress().accepts_scanlines()
                ==> r == Err::<Vec<ArrayVec<usize, 16>>, ScanlineError>(ScanlineError::InvalidInput),
            self.spec_compress().accepts_scanlines()
                && data@.len() < self.spec_compress().spec_byte_width() * self.spec_compress().spec_image_height()
                ==> r == Err::<Vec<ArrayVec<usize, 16>>, ScanlineError>(ScanlineError::BufferTooSmall {
                    len: data@.len() as usize,
                    stride: self.spec_compress().spec_byte_width() as usize,
                    rows: self.spec_compress().spec_image_height(),
                }),
            self.spec_compress().accepts_scanlines()
                && data@.len() >= self.spec_compress().spec_byte_width() * self.spec_compress().spec_image_height()
                ==> r is Ok && self.spec_compress().batches_of(
                    r->Ok_0@, data@.len(), self.spec_compress().spec_byte_width() as nat),
    {
        let batches = self.compress.write_scanlines(data)?;
        let stride = self.compress.row_bytes();
        let rows = self.compress.image_height();
        if !fits_rows(data.len(), stride, rows) {
            return Err(ScanlineError::BufferTooSmall { len: data.len(), stride, rows });
        }
        Ok(batches)
    }

    /// Write pixel data whose rows are `stride` bytes apart, as
    /// [`CompressStarted::write_scanlines_strided`] does. The buffer must
    /// hold `stride` bytes for every row of the image.
    pub fn write_scanlines_strided(&self, data: &[u8], stride: usize) -> (r: Result<Vec<ArrayVec<usize, 16>>, ScanlineError>)
        ensures
            !self.spec_compress().accepts_scanlines()
                ==> r == Err::<Vec<ArrayVec<usize, 16>>, ScanlineError>(ScanlineError::InvalidInput),
            self.spec_compress().accepts_scanlines() && stride < self.spec_compress().spec_byte_width()
                ==> r == Err::<Vec<ArrayVec<usize, 16>>, ScanlineError>(ScanlineError::StrideTooSmall {
                    stride,
                    byte_width: self.spec_compress().spec_byte_width() as usize,
                }),
            self.spec_compress().accepts_scanlines() && stride >= self.spec_compress().spec_byte_width()
                && data@.len() < stride * self.spec_compress().spec_image_height()
                ==> r == Err::<Vec<ArrayVec<usize, 16>>, ScanlineError>(ScanlineError::BufferTooSmall {
                    len: data@.len() as usize,
                    stride,
                    rows: self.spec_compress().spec_image_height(),
                }),
            self.spec_compress().accepts_scanlines() && stride >= self.spec_compress().spec_byte_width()
                && data@.len() >= stride * self.spec_compress().spec_image_height()
                ==> r is Ok && self.spec_compress().batches_of(r->Ok_0@, data@.len(), stride as nat),
    {
        let batches = self.compress.write_scanlines_strided(data, stride)?;
        let rows = self.compress.image_height();
        if !fits_rows(data.len(), stride, rows) {
            return Err(ScanlineError::BufferTooSmall { len: data.len(), stride, rows });
        }
        Ok(batches)
    }

    /// Records how many scanlines libjpeg has taken so far.
    pub fn set_next_scanline(&mut self, next_scanline: u32)
        ensures
            final(self).spec_config() == old(self).spec_config(),
            final(self).spec_compress().spec_next_scanline() == next_scanline,
            final(self).spec_compress().spec_components() == old(self).spec_compress().spec_components(),
            final(self).spec_compress().spec_image_width() == old(self).spec_compress().spec_image_width(),
            final(self).spec_compress().spec_image_height() == old(self).spec_compress().spec_image_height(),
            final(self).spec_compress().spec_input_components() == old(self).spec_compress().spec_input_components(),
            final(self).spec_compress().spec_raw_data_in() == old(self).spec_compress().spec_raw_data_in(),
            final(self).spec_compress().spec_max_v_samp_factor() == old(self).spec_compress().spec_max_v_samp_factor(),
    {
        self.compress.set_next_scanline(next_scanline);
    }

    /// The started compression.
    pub fn compress(&self) -> (c: &CompressStarted)
        ensures
            *c == self.spec_compress(),
    {
        &self.compress
    }

    /// Get the configuration used for this encoder.
    pub fn config(&self) -> (c: &JpegConfig)
        ensures
            *c == self.spec_config(),
    {
        &self.config
    }
}

/// Why raw component planes cannot be written.
#[derive(Copy, Clone, Debug, PartialEq, Eq, Structural)]
pub enum RawWriteError {
    /// The number of planes is not the number of components of the input.
    ComponentCount { expected: usize, got: usize },
    /// The planes do not fit the started compression.
    Data(RawDataError),
}

/// Number of planes a raw MCU input has: three for YCbCr, one for grayscale.
pub open spec fn raw_plane_count(c: RawMcuConfig) -> usize {
    match c {
        RawMcuConfig::YCbCr { .. } => 3,
        RawMcuConfig::Grayscale { .. } => 1,
    }
}

/// Started raw MCU encoder ready to accept component data.
pub struct RawMcuEncoderStarted {
    compress: CompressStarted,
    config: JpegConfig,
    raw: RawMcuConfig,
}

impl RawMcuEncoder {
    /// Pairs the encoder's configuration with the compression libjpeg
    /// started from it.
    pub fn start(self, started: CompressStarted) -> (r: RawMcuEncoderStarted)
        ensures
            r.spec_compress() == started,
            r.spec_config() == self.spec_config(),
            r.spec_raw() == self.spec_raw(),
    {
        RawMcuEncoderStarted { compress: started, config: self.config, raw: self.raw }
    }
}

impl RawMcuEncoderStarted {
    pub closed spec fn spec_compress(&self) -> CompressStarted {
        self.compress
    }

    pub closed spec fn spec_config(&self) -> JpegConfig {
        self.config
    }

    /// The raw MCU input the encoder was configured with.
    pub closed spec fn spec_raw(&self) -> RawMcuConfig {
        self.raw
    }

    /// Write one MCU row group of raw component data: `Ok` gives the MCU
    /// height, after the number of planes is checked against the input
    /// (three for YCbCr, one for grayscale) and the planes against the
    /// started compression.
    pub fn write_raw_data(&self, components: &[&[u8]]) -> (r: Result<usize, RawWriteError>)
        ensures
            components@.len() != raw_plane_count(self.spec_raw()) ==> r == Err::<usize, RawWriteError>(
                RawWriteError::ComponentCount { expected: raw_plane_count(self.spec_raw()), got: components@.len() as usize },
            ),
            components@.len() == raw_plane_count(self.spec_raw()) ==> r == match spec_raw_data_check(
                self.spec_compress(),
                plane_lens(components@),
            ) {
                Ok(h) => Ok::<usize, RawWriteError>(h),
                Err(e) => Err::<usize, RawWriteError>(RawWriteError::Data(e)),
            },
    {
        let expected_count: usize = match self.raw {
            RawMcuConfig::YCbCr { .. } => 3,
            RawMcuConfig::Grayscale { .. } => 1,
        };
        if components.len() != expected_count {
            return Err(RawWriteError::ComponentCount { expected: expected_count, got: components.len() });
        }
        match self.compress.raw_data_check(components) {
            Ok(h) => Ok(h),
            Err(e) => Err(RawWriteError::Data(e)),
        }
    }

    /// Records how many scanlines libjpeg has taken so far.
    pub fn set_next_scanline(&mut self, next_scanline: u32)
        ensures
            final(self).spec_config() == old(self).spec_config(),
            final(self).spec_raw() == old(self).spec_raw(),
            final(self).spec_compress().spec_next_scanline() == next_scanline,
            final(self).spec_compress().spec_components() == old(self).spec_compress().spec_components(),
            final(self).spec_compress().spec_image_width() == old(self).spec_compress().spec_image_width(),
            final(self).spec_compress().spec_image_height() == old(self).spec_compress().spec_image_height(),
            final(self).spec_compress().spec_input_components() == old(self).spec_compress().spec_input_components(),
            final(self).spec_compress().spec_raw_data_in() == old(self).spec_compress().spec_raw_data_in(),
            final(self).spec_compress().spec_max_v_samp_factor() == old(self).spec_compress().spec_max_v_samp_factor(),
    {
        self.compress.set_next_scanline(next_scanline);
    }

    /// Records where libjpeg stands after one raw write and decides what
    /// comes next, as [`CompressStarted::after_raw_write`] does.
    pub fn after_raw_write(&mut self, next_scanline: u32, rows_written: u32) -> (r: Option<bool>)
        ensures
            final(self).spec_config() == old(self).spec_config(),
            final(self).spec_raw() == old(self).spec_raw(),
            final(self).spec_compress().spec_next_scanline() == next_scanline,
            final(self).spec_compress().spec_components() == old(self).spec_compress().spec_components(),
            final(self).spec_compress().spec_image_width() == old(self).spec_compress().spec_image_width(),
            final(self).spec_compress().spec_image_height() == old(self).spec_compress().spec_image_height(),
            final(self).spec_compress().spec_input_components() == old(self).spec_compress().spec_input_components(),
            final(self).spec_compress().spec_raw_data_in() == old(self).spec_compress().spec_raw_data_in(),
            final(self).spec_compress().spec_max_v_samp_factor() == old(self).spec_compress().spec_max_v_samp_factor(),
            r == (if rows_written == 0 {
                Some(false)
            } else if next_scanline < old(self).spec_compress().spec_image_height() {
                None
            } else {
                Some(true)
            }),
    {
        self.compress.after_raw_write(next_scanline, rows_written)
    }

    /// The started compression.
    pub fn compress(&self) -> (c: &CompressStarted)
        ensures
            *c == self.spec_compress(),
    {
        &self.compress
    }

    /// Get the configuration used for this encoder.
    pub fn config(&self) -> (c: &JpegConfig)
        ensures
            *c == self.spec_config(),
    {
        &self.config
    }
}

} // verus!
