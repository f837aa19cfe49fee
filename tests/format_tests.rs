use loopback_capture::error::CaptureError;
use loopback_capture::format::normalize_to_pcm16;
use loopback_capture::format::Encoding;
use loopback_capture::format::StreamFormat;
use loopback_capture::format::SubFormat;

fn float_format(encoding: Encoding, channels: u16, rate: u32) -> StreamFormat {
    StreamFormat {
        encoding,
        channels,
        samples_per_sec: rate,
        bits_per_sample: 32,
        block_align: channels * 4,
        avg_bytes_per_sec: channels as u32 * 4 * rate,
    }
}

#[test]
fn float_stereo_becomes_pcm16() {
    let mut f = float_format(Encoding::IeeeFloat, 2, 48000);
    assert_eq!(normalize_to_pcm16(&mut f), Ok(()));
    assert_eq!(f.encoding, Encoding::Pcm);
    assert_eq!(f.channels, 2);
    assert_eq!(f.samples_per_sec, 48000);
    assert_eq!(f.bits_per_sample, 16);
    assert_eq!(f.block_align, 4);
    assert_eq!(f.avg_bytes_per_sec, 192000);
}

#[test]
fn extensible_float_becomes_extensible_pcm16() {
    let enc = Encoding::Extensible { sub_format: SubFormat::IeeeFloat, valid_bits_per_sample: 32 };
    let mut f = float_format(enc, 6, 44100);
    assert_eq!(normalize_to_pcm16(&mut f), Ok(()));
    assert_eq!(
        f.encoding,
        Encoding::Extensible { sub_format: SubFormat::Pcm, valid_bits_per_sample: 16 }
    );
    assert_eq!(f.channels, 6);
    assert_eq!(f.samples_per_sec, 44100);
    assert_eq!(f.bits_per_sample, 16);
    assert_eq!(f.block_align, 12);
    assert_eq!(f.avg_bytes_per_sec, 529200);
}

#[test]
fn extensible_pcm_is_left_unchanged() {
    let f0 = StreamFormat {
        encoding: Encoding::Extensible { sub_format: SubFormat::Pcm, valid_bits_per_sample: 24 },
        channels: 2,
        samples_per_sec: 96000,
        bits_per_sample: 32,
        block_align: 8,
        avg_bytes_per_sec: 768000,
    };
    let mut f = f0;
    assert_eq!(normalize_to_pcm16(&mut f), Ok(()));
    assert_eq!(f, f0);
}

#[test]
fn extensible_other_subformat_is_left_unchanged() {
    let enc = Encoding::Extensible { sub_format: SubFormat::Other, valid_bits_per_sample: 8 };
    let f0 = float_format(enc, 1, 8000);
    let mut f = f0;
    assert_eq!(normalize_to_pcm16(&mut f), Ok(()));
    assert_eq!(f, f0);
}

#[test]
fn unrecognized_tag_is_refused_untouched() {
    let f0 = float_format(Encoding::Unrecognized { tag: 0x55 }, 2, 48000);
    let mut f = f0;
    assert_eq!(normalize_to_pcm16(&mut f), Err(CaptureError::UnsupportedFormat));
    assert_eq!(f, f0);
}

#[test]
fn plain_pcm_tag_is_refused_untouched() {
    let f0 = StreamFormat {
        encoding: Encoding::Pcm,
        channels: 2,
        samples_per_sec: 44100,
        bits_per_sample: 16,
        block_align: 4,
        avg_bytes_per_sec: 176400,
    };
    let mut f = f0;
    assert_eq!(normalize_to_pcm16(&mut f), Err(CaptureError::UnsupportedFormat));
    assert_eq!(f, f0);
}

#[test]
fn oversized_geometry_is_refused_untouched() {
    let f0 = StreamFormat {
        encoding: Encoding::IeeeFloat,
        channels: 40000,
        samples_per_sec: 48000,
        bits_per_sample: 32,
        block_align: 0,
        avg_bytes_per_sec: 0,
    };
    let mut f = f0;
    assert_eq!(normalize_to_pcm16(&mut f), Err(CaptureError::UnsupportedFormat));
    assert_eq!(f, f0);
    let f1 = StreamFormat { channels: 30000, samples_per_sec: 192000, ..f0 };
    let mut g = f1;
    assert_eq!(normalize_to_pcm16(&mut g), Err(CaptureError::UnsupportedFormat));
    assert_eq!(g, f1);
}
