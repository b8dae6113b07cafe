//! The global encode configuration and its policy for producing encoder
//! argument fragments: codec selection, the opus downmix rule, optional
//! bitrates, hardware-acceleration-aware filter-graph assembly, and the
//! mutually exclusive pixel-format flag.

use vstd::prelude::*;

use crate::codec::{AudioCodec, PixelFormat, SubtitleCodec, VideoCodec};
use crate::text::spec_is_blank;

verus! {

/// The number of editable settings fields: four enumerated fields followed
/// by five free-text fields.
pub const SETTING_COUNT: usize = 9;

/// The global encode configuration for one session. The first four fields
/// are edited through the enumerated-choice overlay, the rest through the
/// free-text overlay, in this order.
#[derive(Clone, Debug)]
pub struct CompressSettings {
    pub video_codec: VideoCodec,
    pub pixel_format: PixelFormat,
    pub audio_codec: AudioCodec,
    pub subtitle_codec: SubtitleCodec,
    pub video_bitrate: Option<String>,
    pub audio_bitrate: Option<String>,
    pub crop: Option<String>,
    pub scale: Option<String>,
    pub other_settings: String,
}

/// Mathematical image of `CompressSettings`.
#[verifier::ext_equal]
pub struct CompressSettingsV {
    pub video_codec: VideoCodec,
    pub pixel_format: PixelFormat,
    pub audio_codec: AudioCodec,
    pub subtitle_codec: SubtitleCodec,
    pub video_bitrate: Option<Seq<char>>,
    pub audio_bitrate: Option<Seq<char>>,
    pub crop: Option<Seq<char>>,
    pub scale: Option<Seq<char>>,
    pub other_settings: Seq<char>,
}

impl View for CompressSettings {
    type V = CompressSettingsV;

    open spec fn view(&self) -> CompressSettingsV {
        CompressSettingsV {
            video_codec: self.video_codec,
            pixel_format: self.pixel_format,
            audio_codec: self.audio_codec,
            subtitle_codec: self.subtitle_codec,
            video_bitrate: crate::stream::opt_view(self.video_bitrate),
            audio_bitrate: crate::stream::opt_view(self.audio_bitrate),
            crop: crate::stream::opt_view(self.crop),
            scale: crate::stream::opt_view(self.scale),
            other_settings: self.other_settings@,
        }
    }
}

/// The settings a fresh session starts from: the documented default of
/// each codec family, everything optional unset.
pub open spec fn spec_default_settings() -> CompressSettingsV {
    CompressSettingsV {
        video_codec: VideoCodec::Av1Vaapi,
        pixel_format: PixelFormat::Yuv420p10le,
        audio_codec: AudioCodec::Libopus,
        subtitle_codec: SubtitleCodec::Ass,
        video_bitrate: None,
        audio_bitrate: None,
        crop: None,
        scale: None,
        other_settings: Seq::<char>::empty(),
    }
}

impl Default for CompressSettings {
    fn default() -> (r: CompressSettings)
        ensures
            r@ == spec_default_settings(),
    {
        let r = CompressSettings {
            video_codec: VideoCodec::default(),
            pixel_format: PixelFormat::default(),
            audio_codec: AudioCodec::default(),
            subtitle_codec: SubtitleCodec::default(),
            video_bitrate: None,
            audio_bitrate: None,
            crop: None,
            scale: None,
            other_settings: String::new(),
        };
        proof {
            assert(r@ =~= spec_default_settings());
        }
        r
    }
}

/// The views of a vector of argument tokens.
pub open spec fn args_view(v: Seq<String>) -> Seq<Seq<char>> {
    Seq::new(v.len(), |i: int| v[i]@)
}

/// Device-initialization arguments, required before decoding when the
/// selected video codec is hardware-accelerated; empty otherwise.
pub open spec fn spec_init_arguments(s: CompressSettingsV) -> Seq<Seq<char>> {
    if s.video_codec.spec_is_hardware_accelerated() {
        seq!["-hwaccel"@, "vaapi"@, "-vaapi_device"@, "/dev/dri/renderD128"@]
    } else {
        Seq::<Seq<char>>::empty()
    }
}

/// The three codec-selection flag pairs, always first and in fixed order.
pub open spec fn codec_fragment(s: CompressSettingsV) -> Seq<Seq<char>> {
    seq![
        "-c:v"@,
        s.video_codec.spec_name(),
        "-c:a"@,
        s.audio_codec.spec_name(),
        "-c:s"@,
        s.subtitle_codec.spec_name(),
    ]
}

/// The fixed stereo downmix forced whenever the opus-family audio codec is
/// selected; a policy, not user-configurable.
pub open spec fn downmix_fragment(s: CompressSettingsV) -> Seq<Seq<char>> {
    if s.audio_codec == AudioCodec::Libopus {
        seq!["-ac"@, "2"@]
    } else {
        Seq::<Seq<char>>::empty()
    }
}

/// Optional bitrate flags, video before audio, each only when set.
pub open spec fn bitrate_fragment(s: CompressSettingsV) -> Seq<Seq<char>> {
    (match s.video_bitrate {
        Some(b) => seq!["-b:v"@, b],
        None => Seq::<Seq<char>>::empty(),
    }) + (match s.audio_bitrate {
        Some(b) => seq!["-b:a"@, b],
        None => Seq::<Seq<char>>::empty(),
    })
}

/// The single filter-graph value used on the hardware-accelerated path:
/// an optional hardware scale, then the pixel format, then the upload step.
pub open spec fn spec_hw_filter(s: CompressSettingsV) -> Seq<char> {
    (match s.scale {
        Some(sc) => "scale_vaapi="@ + sc + ","@,
        None => Seq::<char>::empty(),
    }) + "format="@ + s.pixel_format.spec_name() + ",hwupload"@
}

/// The video filter graph: on the hardware path the composed hardware
/// filter; on the software path a plain scale, only when a scale is set.
pub open spec fn filter_fragment(s: CompressSettingsV) -> Seq<Seq<char>> {
    if s.video_codec.spec_is_hardware_accelerated() {
        seq!["-vf"@, spec_hw_filter(s)]
    } else {
        match s.scale {
            Some(sc) => seq!["-vf"@, "scale="@ + sc],
            None => Seq::<Seq<char>>::empty(),
        }
    }
}

/// The standalone pixel-format flag, emitted only when the codec is not
/// hardware-accelerated: the hardware path carries the format inside the
/// filter graph instead, and the two must never both appear.
pub open spec fn pix_fmt_fragment(s: CompressSettingsV) -> Seq<Seq<char>> {
    if !s.video_codec.spec_is_hardware_accelerated() {
        seq!["-pix_fmt"@, s.pixel_format.spec_name()]
    } else {
        Seq::<Seq<char>>::empty()
    }
}

/// The free-form trailing settings string, one verbatim token if non-empty.
pub open spec fn extra_fragment(s: CompressSettingsV) -> Seq<Seq<char>> {
    if s.other_settings.len() > 0 {
        seq![s.other_settings]
    } else {
        Seq::<Seq<char>>::empty()
    }
}

/// Every global compress argument, in the fixed order the encoder needs:
/// codec selection, downmix, bitrates, filter graph, pixel format, extras.
pub open spec fn spec_compress_arguments(s: CompressSettingsV) -> Seq<Seq<char>> {
    codec_fragment(s) + downmix_fragment(s) + bitrate_fragment(s) + filter_fragment(s)
        + pix_fmt_fragment(s) + extra_fragment(s)
}

impl CompressSettings {
    /// Hardware device setup arguments, emitted before any input.
    pub fn init_arguments(&self) -> (r: Vec<String>)
        ensures
            args_view(r@) == spec_init_arguments(self@),
    {
        let mut r: Vec<String> = Vec::new();
        if self.video_codec.is_hardware_accelerated() {
            r.push(String::from_str("-hwaccel"));
            r.push(String::from_str("vaapi"));
            r.push(String::from_str("-vaapi_device"));
            r.push(String::from_str("/dev/dri/renderD128"));
        }
        proof {
            assert(args_view(r@) =~= spec_init_arguments(self@));
        }
        r
    }

    /// The global compress arguments in their fixed order.
    pub fn compress_arguments(&self) -> (r: Vec<String>)
        ensures
            args_view(r@) == spec_compress_arguments(self@),
    {
        let mut r: Vec<String> = Vec::new();
        r.push(String::from_str("-c:v"));
        r.push(self.video_codec.get_codec_name());
        r.push(String::from_str("-c:a"));
        r.push(self.audio_codec.get_codec_name());
        r.push(String::from_str("-c:s"));
        r.push(self.subtitle_codec.get_codec_name());
        proof {
            assert(args_view(r@) =~= codec_fragment(self@));
        }
        let ghost done = codec_fragment(self@);

        if self.audio_codec == AudioCodec::Libopus {
            r.push(String::from_str("-ac"));
            r.push(String::from_str("2"));
        }
        proof {
            assert(args_view(r@) =~= done + downmix_fragment(self@));
        }
        let ghost done = done + downmix_fragment(self@);

        match &self.video_bitrate {
            Some(b) => {
                r.push(String::from_str("-b:v"));
                r.push(b.clone());
            },
            None => {},
        }
        match &self.audio_bitrate {
            Some(b) => {
                r.push(String::from_str("-b:a"));
                r.push(b.clone());
            },
            None => {},
        }
        proof {
            assert(args_view(r@) =~= done + bitrate_fragment(self@));
        }
        let ghost done = done + bitrate_fragment(self@);

        if self.video_codec.is_hardware_accelerated() {
            let mut filter = String::new();
            match &self.scale {
                Some(sc) => {
                    filter.append("scale_vaapi=");
                    filter.append(sc.as_str());
                    filter.append(",");
                },
                None => {},
            }
            filter.append("format=");
            let pix = self.pixel_format.get_codec_name();
            filter.append(pix.as_str());
            filter.append(",hwupload");
            proof {
                assert(filter@ =~= spec_hw_filter(self@));
            }
            r.push(String::from_str("-vf"));
            r.push(filter);
        } else {
            match &self.scale {
                Some(sc) => {
                    let mut filter = String::from_str("scale=");
                    filter.append(sc.as_str());
                    r.push(String::from_str("-vf"));
                    r.push(filter);
                },
                None => {},
            }
        }
        proof {
            assert(args_view(r@) =~= done + filter_fragment(self@));
        }
        let ghost done = done + filter_fragment(self@);

        if !self.video_codec.is_hardware_accelerated() {
            r.push(String::from_str("-pix_fmt"));
            r.push(self.pixel_format.get_codec_name());
        }
        proof {
            assert(args_view(r@) =~= done + pix_fmt_fragment(self@));
        }
        let ghost done = done + pix_fmt_fragment(self@);

        if !self.other_settings.as_str().is_empty() {
            r.push(self.other_settings.clone());
        }
        proof {
            assert(args_view(r@) =~= done + extra_fragment(self@));
            assert(args_view(r@) =~= spec_compress_arguments(self@));
        }
        r
    }
}

/// What an optional field renders as in a settings summary: its value, or
/// `"auto"` when unset.
pub open spec fn opt_or_auto(o: Option<Seq<char>>) -> Seq<char> {
    match o {
        Some(v) => v,
        None => "auto"@,
    }
}

/// The rendered value of each settings field, in field order.
pub open spec fn spec_get_all_fields(s: CompressSettingsV) -> Seq<Seq<char>> {
    seq![
        s.video_codec.spec_name(),
        s.pixel_format.spec_name(),
        s.audio_codec.spec_name(),
        s.subtitle_codec.spec_name(),
        opt_or_auto(s.video_bitrate),
        opt_or_auto(s.audio_bitrate),
        opt_or_auto(s.crop),
        opt_or_auto(s.scale),
        s.other_settings,
    ]
}

/// The raw text of a free-text field, empty when unset: what the text
/// editor is seeded with.
pub open spec fn spec_field_text(s: CompressSettingsV, index: int) -> Seq<char> {
    if index == 4 {
        opt_or_empty(s.video_bitrate)
    } else if index == 5 {
        opt_or_empty(s.audio_bitrate)
    } else if index == 6 {
        opt_or_empty(s.crop)
    } else if index == 7 {
        opt_or_empty(s.scale)
    } else {
        s.other_settings
    }
}

/// An optional field's raw text, empty when unset.
pub open spec fn opt_or_empty(o: Option<Seq<char>>) -> Seq<char> {
    match o {
        Some(v) => v,
        None => Seq::<char>::empty(),
    }
}

/// The settings after committing text to a free-text field: a blank commit
/// stores the field as unset, never as an empty string.
pub open spec fn spec_set_text(s: CompressSettingsV, index: int, text: Seq<char>)
    -> CompressSettingsV {
    let stored: Option<Seq<char>> = if spec_is_blank(text) {
        None
    } else {
        Some(text)
    };
    if index == 4 {
        CompressSettingsV { video_bitrate: stored, ..s }
    } else if index == 5 {
        CompressSettingsV { audio_bitrate: stored, ..s }
    } else if index == 6 {
        CompressSettingsV { crop: stored, ..s }
    } else if index == 7 {
        CompressSettingsV { scale: stored, ..s }
    } else {
        CompressSettingsV {
            other_settings: if spec_is_blank(text) {
                Seq::<char>::empty()
            } else {
                text
            },
            ..s
        }
    }
}

/// How many variants the enumerated field at `index` offers.
pub open spec fn enum_field_len(index: int) -> int {
    if index == 0 {
        VideoCodec::spec_all_variants().len() as int
    } else if index == 1 {
        PixelFormat::spec_all_variants().len() as int
    } else if index == 2 {
        AudioCodec::spec_all_variants().len() as int
    } else {
        SubtitleCodec::spec_all_variants().len() as int
    }
}

/// The settings after committing a choice in an enumerated field: the
/// chosen variant, by its position in the family's fixed order.
pub open spec fn spec_set_enum(s: CompressSettingsV, index: int, choice: int)
    -> CompressSettingsV {
    if index == 0 {
        CompressSettingsV { video_codec: VideoCodec::spec_all_variants()[choice], ..s }
    } else if index == 1 {
        CompressSettingsV { pixel_format: PixelFormat::spec_all_variants()[choice], ..s }
    } else if index == 2 {
        CompressSettingsV { audio_codec: AudioCodec::spec_all_variants()[choice], ..s }
    } else {
        CompressSettingsV { subtitle_codec: SubtitleCodec::spec_all_variants()[choice], ..s }
    }
}

impl CompressSettings {
    /// The rendered value of every settings field, in field order; unset
    /// optional fields render as `"auto"`.
    pub fn get_all_fields(&self) -> (r: Vec<String>)
        ensures
            args_view(r@) == spec_get_all_fields(self@),
    {
        let mut r: Vec<String> = Vec::new();
        r.push(self.video_codec.get_codec_name());
        r.push(self.pixel_format.get_codec_name());
        r.push(self.audio_codec.get_codec_name());
        r.push(self.subtitle_codec.get_codec_name());
        r.push(opt_or_auto_string(&self.video_bitrate));
        r.push(opt_or_auto_string(&self.audio_bitrate));
        r.push(opt_or_auto_string(&self.crop));
        r.push(opt_or_auto_string(&self.scale));
        r.push(self.other_settings.clone());
        proof {
            assert(args_view(r@) =~= spec_get_all_fields(self@));
        }
        r
    }

    /// The raw text of the free-text field at `index`, used to seed the
    /// text editor.
    pub fn field_text(&self, index: usize) -> (r: String)
        requires
            4 <= index < SETTING_COUNT,
        ensures
            r@ == spec_field_text(self@, index as int),
    {
        if index == 4 {
            opt_or_empty_string(&self.video_bitrate)
        } else if index == 5 {
            opt_or_empty_string(&self.audio_bitrate)
        } else if index == 6 {
            opt_or_empty_string(&self.crop)
        } else if index == 7 {
            opt_or_empty_string(&self.scale)
        } else {
            self.other_settings.clone()
        }
    }

    /// Commits text to the free-text field at `index`; a blank commit
    /// stores the field as unset.
    pub fn set_text_field(&mut self, index: usize, text: String)
        requires
            4 <= index < SETTING_COUNT,
        ensures
            final(self)@ == spec_set_text(old(self)@, index as int, text@),
    {
        let blank = crate::text::str_is_blank(text.as_str());
        if index == 8 {
            if blank {
                self.other_settings = String::new();
            } else {
                self.other_settings = text;
            }
            proof {
                assert(self@ =~= spec_set_text(old(self)@, index as int, text@));
            }
            return ;
        }
        let stored: Option<String> = if blank {
            None
        } else {
            Some(text)
        };
        if index == 4 {
            self.video_bitrate = stored;
        } else if index == 5 {
            self.audio_bitrate = stored;
        } else if index == 6 {
            self.crop = stored;
        } else {
            self.scale = stored;
        }
        proof {
            assert(self@ =~= spec_set_text(old(self)@, index as int, text@));
        }
    }

    /// Commits the variant at position `choice` of the enumerated field at
    /// `index`.
    pub fn set_enum_field(&mut self, index: usize, choice: usize)
        requires
            index < 4,
            choice < enum_field_len(index as int),
        ensures
            final(self)@ == spec_set_enum(old(self)@, index as int, choice as int),
    {
        if index == 0 {
            let vs = VideoCodec::all_variants();
            self.video_codec = vs[choice];
        } else if index == 1 {
            let vs = PixelFormat::all_variants();
            self.pixel_format = vs[choice];
        } else if index == 2 {
            let vs = AudioCodec::all_variants();
            self.audio_codec = vs[choice];
        } else {
            let vs = SubtitleCodec::all_variants();
            self.subtitle_codec = vs[choice];
        }
        proof {
            assert(self@ =~= spec_set_enum(old(self)@, index as int, choice as int));
        }
    }
}

/// The rendered value of an optional field: its text, or `"auto"`.
fn opt_or_auto_string(o: &Option<String>) -> (r: String)
    ensures
        r@ == opt_or_auto(crate::stream::opt_view(*o)),
{
    match o {
        Some(v) => v.clone(),
        None => String::from_str("auto"),
    }
}

/// The raw text of an optional field: its text, or the empty string.
fn opt_or_empty_string(o: &Option<String>) -> (r: String)
    ensures
        r@ == opt_or_empty(crate::stream::opt_view(*o)),
{
    match o {
        Some(v) => v.clone(),
        None => String::new(),
    }
}


/// A token occurs in a concatenation exactly when it occurs in one of the
/// two parts.
proof fn lemma_concat_contains<T>(a: Seq<T>, b: Seq<T>, x: T)
    ensures
        (a + b).contains(x) <==> a.contains(x) || b.contains(x),
{
    if a.contains(x) {
        let i = choose|i: int| 0 <= i < a.len() && a[i] == x;
        assert((a + b)[i] == x);
    }
    if b.contains(x) {
        let i = choose|i: int| 0 <= i < b.len() && b[i] == x;
        assert((a + b)[a.len() + i] == x);
    }
    if (a + b).contains(x) {
        let i = choose|i: int| 0 <= i < (a + b).len() && (a + b)[i] == x;
        if i < a.len() {
            assert(a[i] == x);
        } else {
            assert(b[i - a.len()] == x);
        }
    }
}

/// Law (filter / pixel-format exclusivity): for a hardware-accelerated
/// configuration the compress arguments carry the pixel format inside the
/// single `-vf` filter value and never emit a standalone `-pix_fmt` flag.
/// The free-text fields are assumed not to spell the flag themselves.
pub proof fn lemma_filter_pixfmt_exclusive(s: CompressSettingsV)
    requires
        s.video_codec.spec_is_hardware_accelerated(),
        s.video_bitrate matches Some(b) ==> b != "-pix_fmt"@,
        s.audio_bitrate matches Some(b) ==> b != "-pix_fmt"@,
        s.other_settings != "-pix_fmt"@,
    ensures
        pix_fmt_fragment(s) == Seq::<Seq<char>>::empty(),
        spec_compress_arguments(s).contains(spec_hw_filter(s)),
        !spec_compress_arguments(s).contains("-pix_fmt"@),
{
    reveal_strlit("-pix_fmt");
    reveal_strlit("-c:v");
    reveal_strlit("-c:a");
    reveal_strlit("-c:s");
    reveal_strlit("-ac");
    reveal_strlit("2");
    reveal_strlit("-b:v");
    reveal_strlit("-b:a");
    reveal_strlit("-vf");
    reveal_strlit("scale_vaapi=");
    reveal_strlit(",");
    reveal_strlit("format=");
    reveal_strlit(",hwupload");
    reveal_strlit("libx264");
    reveal_strlit("h264_vaapi");
    reveal_strlit("hevc_vaapi");
    reveal_strlit("libsvtav1");
    reveal_strlit("av1_vaapi");
    reveal_strlit("libopus");
    reveal_strlit("srt");
    reveal_strlit("ass");
    reveal_strlit("yuv420p");
    reveal_strlit("nv10");
    reveal_strlit("yuv420p10le");
    let p = "-pix_fmt"@;
    let cf = codec_fragment(s);
    let df = downmix_fragment(s);
    let bf = bitrate_fragment(s);
    let ff = filter_fragment(s);
    let pf = pix_fmt_fragment(s);
    let ef = extra_fragment(s);

    assert(spec_hw_filter(s).len() > 8);
    assert(ff[1] == spec_hw_filter(s));
    lemma_concat_contains(cf, df, spec_hw_filter(s));
    lemma_concat_contains(cf + df, bf, spec_hw_filter(s));
    lemma_concat_contains(cf + df + bf, ff, spec_hw_filter(s));
    lemma_concat_contains(cf + df + bf + ff, pf, spec_hw_filter(s));
    lemma_concat_contains(cf + df + bf + ff + pf, ef, spec_hw_filter(s));
    assert(ff.contains(spec_hw_filter(s)));

    assert(p.len() == 8);
    assert(cf[0].len() == 4);
    assert(cf[1].len() != 8);
    assert(cf[2].len() == 4);
    assert(cf[3].len() == 7);
    assert(cf[4].len() == 4);
    assert(cf[5].len() != 8);
    assert(!cf.contains(p)) by {
        assert(forall|i: int| 0 <= i < cf.len() ==> #[trigger] cf[i].len() != 8);
    }
    assert(!df.contains(p)) by {
        assert(forall|i: int| 0 <= i < df.len() ==> #[trigger] df[i].len() != 8);
    }
    assert(!bf.contains(p)) by {
        assert(forall|i: int| 0 <= i < bf.len() ==> #[trigger] bf[i] != p);
    }
    assert(!ff.contains(p)) by {
        assert(ff[0].len() != 8);
        assert(ff[1].len() > 8);
        assert(forall|i: int| 0 <= i < ff.len() ==> #[trigger] ff[i] != p);
    }
    assert(!pf.contains(p));
    assert(!ef.contains(p)) by {
        assert(forall|i: int| 0 <= i < ef.len() ==> #[trigger] ef[i] != p);
    }
    lemma_concat_contains(cf, df, p);
    lemma_concat_contains(cf + df, bf, p);
    lemma_concat_contains(cf + df + bf, ff, p);
    lemma_concat_contains(cf + df + bf + ff, pf, p);
    lemma_concat_contains(cf + df + bf + ff + pf, ef, p);
}

} // verus!
