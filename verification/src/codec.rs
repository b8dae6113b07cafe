//! Closed enumerations of the selectable video/audio/subtitle codecs and
//! pixel formats, each with its canonical encoder wire name, a documented
//! default, and (for video) the hardware-acceleration predicate that governs
//! filter-graph assembly.

use vstd::prelude::*;

verus! {

/// Selectable video codecs, in the fixed order used by the enumerated-choice
/// editor.
#[derive(Clone, Copy, Debug, PartialEq, Eq, Structural)]
pub enum VideoCodec {
    Libx264,
    H264Vaapi,
    HevcVaapi,
    Libsvtav1,
    Av1Vaapi,
}

/// Selectable audio codecs, in the fixed order used by the enumerated-choice
/// editor.
#[derive(Clone, Copy, Debug, PartialEq, Eq, Structural)]
pub enum AudioCodec {
    Libopus,
}

/// Selectable subtitle codecs, in the fixed order used by the
/// enumerated-choice editor.
#[derive(Clone, Copy, Debug, PartialEq, Eq, Structural)]
pub enum SubtitleCodec {
    Srt,
    Ass,
}

/// Selectable pixel formats, in the fixed order used by the
/// enumerated-choice editor.
#[derive(Clone, Copy, Debug, PartialEq, Eq, Structural)]
pub enum PixelFormat {
    Yuv420p,
    Nv10,
    Yuv420p10le,
}

impl VideoCodec {
    /// The exact wire token handed to the encoder for this codec.
    pub open spec fn spec_name(self) -> Seq<char> {
        match self {
            VideoCodec::Libx264 => "libx264"@,
            VideoCodec::H264Vaapi => "h264_vaapi"@,
            VideoCodec::HevcVaapi => "hevc_vaapi"@,
            VideoCodec::Libsvtav1 => "libsvtav1"@,
            VideoCodec::Av1Vaapi => "av1_vaapi"@,
        }
    }

    /// True for the VAAPI-style variants that offload encoding to hardware
    /// and therefore need device initialization and an upload step in the
    /// filter graph.
    pub open spec fn spec_is_hardware_accelerated(&self) -> bool {
        match self {
            VideoCodec::Libx264 => false,
            VideoCodec::H264Vaapi => true,
            VideoCodec::HevcVaapi => true,
            VideoCodec::Libsvtav1 => false,
            VideoCodec::Av1Vaapi => true,
        }
    }

    /// The family in its fixed, stable order.
    pub open spec fn spec_all_variants() -> Seq<VideoCodec> {
        seq![
            VideoCodec::Libx264,
            VideoCodec::H264Vaapi,
            VideoCodec::HevcVaapi,
            VideoCodec::Libsvtav1,
            VideoCodec::Av1Vaapi,
        ]
    }

    pub fn get_codec_name(&self) -> (r: String)
        ensures
            r@ == self.spec_name(),
    {
        match self {
            VideoCodec::Libx264 => String::from_str("libx264"),
            VideoCodec::H264Vaapi => String::from_str("h264_vaapi"),
            VideoCodec::HevcVaapi => String::from_str("hevc_vaapi"),
            VideoCodec::Libsvtav1 => String::from_str("libsvtav1"),
            VideoCodec::Av1Vaapi => String::from_str("av1_vaapi"),
        }
    }

    #[verifier::when_used_as_spec(spec_is_hardware_accelerated)]
    pub fn is_hardware_accelerated(&self) -> (r: bool)
        ensures
            r == self.spec_is_hardware_accelerated(),
    {
        match self {
            VideoCodec::H264Vaapi => true,
            VideoCodec::HevcVaapi => true,
            VideoCodec::Av1Vaapi => true,
            _ => false,
        }
    }

    pub fn all_variants() -> (r: Vec<VideoCodec>)
        ensures
            r@ == VideoCodec::spec_all_variants(),
    {
        let mut r: Vec<VideoCodec> = Vec::new();
        r.push(VideoCodec::Libx264);
        r.push(VideoCodec::H264Vaapi);
        r.push(VideoCodec::HevcVaapi);
        r.push(VideoCodec::Libsvtav1);
        r.push(VideoCodec::Av1Vaapi);
        proof {
            assert(r@ =~= VideoCodec::spec_all_variants());
        }
        r
    }
}

impl Default for VideoCodec {
    fn default() -> (r: Self)
        ensures
            r == VideoCodec::Av1Vaapi,
    {
        VideoCodec::Av1Vaapi
    }
}

impl AudioCodec {
    /// The exact wire token handed to the encoder for this codec.
    pub open spec fn spec_name(self) -> Seq<char> {
        match self {
            AudioCodec::Libopus => "libopus"@,
        }
    }

    /// The family in its fixed, stable order.
    pub open spec fn spec_all_variants() -> Seq<AudioCodec> {
        seq![AudioCodec::Libopus]
    }

    pub fn get_codec_name(&self) -> (r: String)
        ensures
            r@ == self.spec_name(),
    {
        match self {
            AudioCodec::Libopus => String::from_str("libopus"),
        }
    }

    pub fn all_variants() -> (r: Vec<AudioCodec>)
        ensures
            r@ == AudioCodec::spec_all_variants(),
    {
        let mut r: Vec<AudioCodec> = Vec::new();
        r.push(AudioCodec::Libopus);
        proof {
            assert(r@ =~= AudioCodec::spec_all_variants());
        }
        r
    }
}

impl Default for AudioCodec {
    fn default() -> (r: Self)
        ensures
            r == AudioCodec::Libopus,
    {
        AudioCodec::Libopus
    }
}

impl SubtitleCodec {
    /// The exact wire token handed to the encoder for this codec.
    pub open spec fn spec_name(self) -> Seq<char> {
        match self {
            SubtitleCodec::Srt => "srt"@,
            SubtitleCodec::Ass => "ass"@,
        }
    }

    /// The family in its fixed, stable order.
    pub open spec fn spec_all_variants() -> Seq<SubtitleCodec> {
        seq![SubtitleCodec::Srt, SubtitleCodec::Ass]
    }

    pub fn get_codec_name(&self) -> (r: String)
        ensures
            r@ == self.spec_name(),
    {
        match self {
            SubtitleCodec::Srt => String::from_str("srt"),
            SubtitleCodec::Ass => String::from_str("ass"),
        }
    }

    pub fn all_variants() -> (r: Vec<SubtitleCodec>)
        ensures
            r@ == SubtitleCodec::spec_all_variants(),
    {
        let mut r: Vec<SubtitleCodec> = Vec::new();
        r.push(SubtitleCodec::Srt);
        r.push(SubtitleCodec::Ass);
        proof {
            assert(r@ =~= SubtitleCodec::spec_all_variants());
        }
        r
    }
}

impl Default for SubtitleCodec {
    fn default() -> (r: Self)
        ensures
            r == SubtitleCodec::Ass,
    {
        SubtitleCodec::Ass
    }
}

impl PixelFormat {
    /// The exact wire token handed to the encoder for this format.
    pub open spec fn spec_name(self) -> Seq<char> {
        match self {
            PixelFormat::Yuv420p => "yuv420p"@,
            PixelFormat::Nv10 => "nv10"@,
            PixelFormat::Yuv420p10le => "yuv420p10le"@,
        }
    }

    /// The family in its fixed, stable order.
    pub open spec fn spec_all_variants() -> Seq<PixelFormat> {
        seq![PixelFormat::Yuv420p, PixelFormat::Nv10, PixelFormat::Yuv420p10le]
    }

    pub fn get_codec_name(&self) -> (r: String)
        ensures
            r@ == self.spec_name(),
    {
        match self {
            PixelFormat::Yuv420p => String::from_str("yuv420p"),
            PixelFormat::Nv10 => String::from_str("nv10"),
            PixelFormat::Yuv420p10le => String::from_str("yuv420p10le"),
        }
    }

    pub fn all_variants() -> (r: Vec<PixelFormat>)
        ensures
            r@ == PixelFormat::spec_all_variants(),
    {
        let mut r: Vec<PixelFormat> = Vec::new();
        r.push(PixelFormat::Yuv420p);
        r.push(PixelFormat::Nv10);
        r.push(PixelFormat::Yuv420p10le);
        proof {
            assert(r@ =~= PixelFormat::spec_all_variants());
        }
        r
    }
}

impl Default for PixelFormat {
    fn default() -> (r: Self)
        ensures
            r == PixelFormat::Yuv420p10le,
    {
        PixelFormat::Yuv420p10le
    }
}

} // verus!
