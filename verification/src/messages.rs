//! The messages of the errors of starting a compression and of writing to it.
use vstd::prelude::*;
use crate::compress::{RawDataError, ScanlineError, StartError};
use crate::text::{decimal_chars, push_decimal, push_signed_decimal, signed_decimal_chars};
use crate::typed::encoder::RawWriteError;

verus! {

/// `a` and `b` joined by an `x`, as in `64x48`.
pub open spec fn by_text(a: nat, b: nat) -> Seq<char> {
    decimal_chars(a) + "x"@ + decimal_chars(b)
}

fn push_by(s: &mut String, a: u64, b: u64)
    ensures
        final(s)@ == old(s)@ + by_text(a as nat, b as nat),
{
    push_decimal(s, a);
    s.append("x");
    push_decimal(s, b);
    assert(final(s)@ =~= old(s)@ + by_text(a as nat, b as nat));
}

/// The message of a failed start.
pub open spec fn start_error_text(e: StartError) -> Seq<char> {
    match e {
        StartError::InvalidDimensions { width, height } =>
            "invalid dimensions: "@ + by_text(width as nat, height as nat) + " (both must be > 0)"@,
        StartError::DimensionsTooLarge { width, height } =>
            "dimensions "@ + by_text(width as nat, height as nat) + " exceed JPEG maximum of 65535"@,
        StartError::InvalidSamplingFactors { component, h, v } =>
            "component "@ + decimal_chars(component as nat) + " has invalid sampling factors: h="@
                + signed_decimal_chars(h as int) + ", v="@ + signed_decimal_chars(v as int) + " (must be > 0)"@,
        StartError::SamplingFactorsTooLarge { component, h, v } =>
            "component "@ + decimal_chars(component as nat) + " has sampling factors h="@
                + signed_decimal_chars(h as int) + ", v="@ + signed_decimal_chars(v as int) + " (max is 4)"@,
        StartError::NoUnitHorizontalFactor => "at least one h_samp_factor must be 1"@,
        StartError::NoUnitVerticalFactor => "at least one v_samp_factor must be 1"@,
    }
}

impl StartError {
    /// Why compression cannot start, in words.
    pub fn message(&self) -> (r: String)
        ensures
            r@ == start_error_text(*self),
    {
        let mut r = String::new();
        match self {
            StartError::InvalidDimensions { width, height } => {
                r.append("invalid dimensions: ");
                push_by(&mut r, *width as u64, *height as u64);
                r.append(" (both must be > 0)");
            },
            StartError::DimensionsTooLarge { width, height } => {
                r.append("dimensions ");
                push_by(&mut r, *width as u64, *height as u64);
                r.append(" exceed JPEG maximum of 65535");
            },
            StartError::InvalidSamplingFactors { component, h, v } => {
                r.append("component ");
                push_decimal(&mut r, *component as u64);
                r.append(" has invalid sampling factors: h=");
                push_signed_decimal(&mut r, *h as i64);
                r.append(", v=");
                push_signed_decimal(&mut r, *v as i64);
                r.append(" (must be > 0)");
            },
            StartError::SamplingFactorsTooLarge { component, h, v } => {
                r.append("component ");
                push_decimal(&mut r, *component as u64);
                r.append(" has sampling factors h=");
                push_signed_decimal(&mut r, *h as i64);
                r.append(", v=");
                push_signed_decimal(&mut r, *v as i64);
                r.append(" (max is 4)");
            },
            StartError::NoUnitHorizontalFactor => {
                r.append("at least one h_samp_factor must be 1");
            },
            StartError::NoUnitVerticalFactor => {
                r.append("at least one v_samp_factor must be 1");
            },
        }
        assert(r@ =~= start_error_text(*self));
        r
    }
}

/// The message of a refused scanline write.
pub open spec fn scanline_error_text(e: ScanlineError) -> Seq<char> {
    match e {
        ScanlineError::InvalidInput => "invalid input parameter"@,
        ScanlineError::StrideTooSmall { stride, byte_width } =>
            "stride ("@ + decimal_chars(stride as nat) + ") must be >= byte_width ("@
                + decimal_chars(byte_width as nat) + ")"@,
        ScanlineError::BufferTooSmall { len, stride, rows } =>
            "data buffer too small: "@ + decimal_chars(len as nat) + " bytes for "@ + decimal_chars(rows as nat)
                + " rows of "@ + decimal_chars(stride as nat) + " bytes"@,
    }
}

impl ScanlineError {
    /// Why the scanlines cannot be written, in words.
    pub fn message(&self) -> (r: String)
        ensures
            r@ == scanline_error_text(*self),
    {
        let mut r = String::new();
        match self {
            ScanlineError::InvalidInput => {
                r.append("invalid input parameter");
            },
            ScanlineError::StrideTooSmall { stride, byte_width } => {
                r.append("stride (");
                push_decimal(&mut r, *stride as u64);
                r.append(") must be >= byte_width (");
                push_decimal(&mut r, *byte_width as u64);
                r.append(")");
            },
            ScanlineError::BufferTooSmall { len, stride, rows } => {
                r.append("data buffer too small: ");
                push_decimal(&mut r, *len as u64);
                r.append(" bytes for ");
                push_decimal(&mut r, *rows as u64);
                r.append(" rows of ");
                push_decimal(&mut r, *stride as u64);
                r.append(" bytes");
            },
        }
        assert(r@ =~= scanline_error_text(*self));
        r
    }
}

/// The message of refused raw data.
pub open spec fn raw_data_error_text(e: RawDataError) -> Seq<char> {
    match e {
        RawDataError::RawDataNotSet => "Raw data not set"@,
        RawDataError::SubsamplingTooLarge => "Subsampling factor too large"@,
        RawDataError::TooManyComponents { declared, got } =>
            "Too many components: declared "@ + decimal_chars(declared as nat) + ", got "@
                + decimal_chars(got as nat),
        RawDataError::BitmapTooSmall { component: _, row_stride, col_stride, got } =>
            "Bitmap too small. Expected "@ + by_text(row_stride as nat, col_stride as nat) + ", got "@
                + decimal_chars(got as nat),
        RawDataError::RowsExhausted { .. } => "attempt to subtract with overflow"@,
        RawDataError::ComponentTooShort { .. } => "assertion failed: comp_height >= 8"@,
    }
}

impl RawDataError {
    /// Why the raw data cannot be written, in words.
    pub fn message(&self) -> (r: String)
        ensures
            r@ == raw_data_error_text(*self),
    {
        let mut r = String::new();
        match self {
            RawDataError::RawDataNotSet => {
                r.append("Raw data not set");
            },
            RawDataError::SubsamplingTooLarge => {
                r.append("Subsampling factor too large");
            },
            RawDataError::TooManyComponents { declared, got } => {
                r.append("Too many components: declared ");
                push_decimal(&mut r, *declared as u64);
                r.append(", got ");
                push_decimal(&mut r, *got as u64);
            },
            RawDataError::BitmapTooSmall { component: _, row_stride, col_stride, got } => {
                r.append("Bitmap too small. Expected ");
                push_by(&mut r, *row_stride as u64, *col_stride as u64);
                r.append(", got ");
                push_decimal(&mut r, *got as u64);
            },
            RawDataError::RowsExhausted { .. } => {
                r.append("attempt to subtract with overflow");
            },
            RawDataError::ComponentTooShort { .. } => {
                r.append("assertion failed: comp_height >= 8");
            },
        }
        assert(r@ =~= raw_data_error_text(*self));
        r
    }
}

/// The message of refused raw component planes.
pub open spec fn raw_write_error_text(e: RawWriteError) -> Seq<char> {
    match e {
        RawWriteError::ComponentCount { expected, got } =>
            "Expected "@ + decimal_chars(expected as nat) + " components, got "@ + decimal_chars(got as nat),
        RawWriteError::Data(d) => raw_data_error_text(d),
    }
}

impl RawWriteError {
    /// Why the component planes cannot be written, in words.
    pub fn message(&self) -> (r: String)
        ensures
            r@ == raw_write_error_text(*self),
    {
        match self {
            RawWriteError::ComponentCount { expected, got } => {
                let mut r = String::new();
                r.append("Expected ");
                push_decimal(&mut r, *expected as u64);
                r.append(" components, got ");
                push_decimal(&mut r, *got as u64);
                assert(r@ =~= raw_write_error_text(*self));
                r
            },
            RawWriteError::Data(d) => d.message(),
        }
    }
}

} // verus!
