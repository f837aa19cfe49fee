use crate::error::CaptureError;
use vstd::prelude::*;

verus! {

/// Sub-format identifier carried by the extended format container.
#[derive(Clone, Copy, Debug, PartialEq, Eq, Structural)]
pub enum SubFormat {
    Pcm,
    IeeeFloat,
    /// Any other identifier; never rewritten.
    Other,
}

/// How samples are encoded: the format tag, with what the extended container
/// adds to it.
#[derive(Clone, Copy, Debug, PartialEq, Eq, Structural)]
pub enum Encoding {
    /// Plain integer PCM.
    Pcm,
    /// Plain IEEE floating point.
    IeeeFloat,
    /// The extended container, with its sub-format and valid-bits field.
    Extensible { sub_format: SubFormat, valid_bits_per_sample: u16 },
    /// Any other format tag.
    Unrecognized { tag: u16 },
}

/// The sample geometry of a stream.
#[derive(Clone, Copy, Debug, PartialEq, Eq, Structural)]
pub struct StreamFormat {
    pub encoding: Encoding,
    pub channels: u16,
    pub samples_per_sec: u32,
    pub bits_per_sample: u16,
    /// Bytes per frame.
    pub block_align: u16,
    pub avg_bytes_per_sec: u32,
}

/// Whether the format carries floating-point samples, and so must be
/// rewritten to integer PCM.
pub open spec fn is_float(f: StreamFormat) -> bool {
    match f.encoding {
        Encoding::IeeeFloat => true,
        Encoding::Extensible { sub_format, .. } => sub_format == SubFormat::IeeeFloat,
        _ => false,
    }
}

/// Whether 16-bit frames of this geometry fit the format's fields.
pub open spec fn fits_pcm16(channels: u16, samples_per_sec: u32) -> bool {
    channels * 2 <= u16::MAX && channels * 2 * samples_per_sec <= u32::MAX
}

/// The same channel count and sample rate, with 16-bit samples and the
/// frame size and byte rate that follow.
pub open spec fn with_pcm16_geometry(f: StreamFormat, encoding: Encoding) -> StreamFormat {
    StreamFormat {
        encoding,
        channels: f.channels,
        samples_per_sec: f.samples_per_sec,
        bits_per_sample: 16,
        block_align: (f.channels * 2) as u16,
        avg_bytes_per_sec: (f.channels * 2 * f.samples_per_sec) as u32,
    }
}

/// The 16-bit PCM form of a mix format, or `None` where it has none.
pub open spec fn normalized(f: StreamFormat) -> Option<StreamFormat> {
    match f.encoding {
        Encoding::IeeeFloat => if fits_pcm16(f.channels, f.samples_per_sec) {
            Some(with_pcm16_geometry(f, Encoding::Pcm))
        } else {
            None
        },
        Encoding::Extensible { sub_format, valid_bits_per_sample } => if sub_format
            != SubFormat::IeeeFloat {
            Some(f)
        } else if fits_pcm16(f.channels, f.samples_per_sec) {
            Some(
                with_pcm16_geometry(
                    f,
                    Encoding::Extensible { sub_format: SubFormat::Pcm, valid_bits_per_sample: 16 },
                ),
            )
        } else {
            None
        },
        _ => None,
    }
}

/// Rewrites a floating-point mix format, in place, to 16-bit integer PCM of
/// the same channel count and sample rate. An extended format that is not
/// floating point is left as it is. Any other tag, or a geometry whose
/// 16-bit frame size or byte rate overflows its field, is refused with
/// `UnsupportedFormat`, and the format is then left untouched.
pub fn normalize_to_pcm16(format: &mut StreamFormat) -> (r: Result<(), CaptureError>)
    ensures
        match normalized(*old(format)) {
            Some(g) => r is Ok && *final(format) == g,
            None => {
                &&& r == Err::<(), CaptureError>(CaptureError::UnsupportedFormat)
                &&& *final(format) == *old(format)
            },
        },
{
    let new_encoding = match format.encoding {
        Encoding::IeeeFloat => Encoding::Pcm,
        Encoding::Extensible { sub_format, valid_bits_per_sample } => {
            if sub_format != SubFormat::IeeeFloat {
                return Ok(());
            }
            Encoding::Extensible { sub_format: SubFormat::Pcm, valid_bits_per_sample: 16 }
        },
        _ => {
            return Err(CaptureError::UnsupportedFormat);
        },
    };
    let block_align = format.channels as u32 * 2;
    if block_align > u16::MAX as u32 {
        return Err(CaptureError::UnsupportedFormat);
    }
    assert(block_align as u64 * format.samples_per_sec as u64 <= 0xFFFF * 0xFFFF_FFFF) by (nonlinear_arith)
        requires
            block_align <= 0xFFFF,
    ;
    let avg = block_align as u64 * format.samples_per_sec as u64;
    if avg > u32::MAX as u64 {
        return Err(CaptureError::UnsupportedFormat);
    }
    format.encoding = new_encoding;
    format.bits_per_sample = 16;
    format.block_align = block_align as u16;
    format.avg_bytes_per_sec = avg as u32;
    Ok(())
}

/// Negotiation never alters the channel count or the sample rate, and what
/// it yields is again a format it leaves as it is.
pub proof fn lemma_normalized_keeps_geometry(f: StreamFormat)
    ensures
        normalized(f) matches Some(g) ==> {
            &&& g.channels == f.channels
            &&& g.samples_per_sec == f.samples_per_sec
            &&& !is_float(g)
            &&& normalized(g) matches Some(h) ==> h == g
        },
{
}

} // verus!
