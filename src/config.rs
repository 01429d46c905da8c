//! Encoder configuration: recognized names and validation.
use vstd::prelude::*;

use crate::error::PipelineError;
use crate::frame::luma_len;

verus! {

/// Whether two strings hold the same characters.
pub fn same_text(a: &str, b: &str) -> (r: bool)
    ensures
        r == (a@ == b@),
{
    let n: usize = a.unicode_len();
    if n != b.unicode_len() {
        return false;
    }
    let mut i: usize = 0;
    while i < n
        invariant
            n == a@.len(),
            n == b@.len(),
            i <= n,
            forall|j: int| 0 <= j < i ==> a@[j] == b@[j],
        decreases n - i,
    {
        if a.get_char(i) != b.get_char(i) {
            return false;
        }
        i += 1;
    }
    assert(a@ =~= b@);
    true
}

/// A quality/speed tradeoff profile of the encoder.
#[derive(Clone, Copy, Debug, PartialEq, Eq, Structural)]
pub enum Preset {
    Ultrafast,
    Superfast,
    Veryfast,
    Faster,
    Fast,
    Medium,
    Slow,
    Slower,
    Veryslow,
    Placebo,
}

/// A tuning of the encoder for a kind of content or goal.
#[derive(Clone, Copy, Debug, PartialEq, Eq, Structural)]
pub enum Tune {
    Film,
    Animation,
    Grain,
    StillImage,
    Psnr,
    Ssim,
    FastDecode,
    ZeroLatency,
}

/// A named output profile that restricts the bitstream's features.
#[derive(Clone, Copy, Debug, PartialEq, Eq, Structural)]
pub enum Profile {
    Baseline,
    Main,
    High,
    High10,
    High422,
    High444,
}

pub open spec fn preset_name(p: Preset) -> Seq<char> {
    match p {
        Preset::Ultrafast => "ultrafast"@,
        Preset::Superfast => "superfast"@,
        Preset::Veryfast => "veryfast"@,
        Preset::Faster => "faster"@,
        Preset::Fast => "fast"@,
        Preset::Medium => "medium"@,
        Preset::Slow => "slow"@,
        Preset::Slower => "slower"@,
        Preset::Veryslow => "veryslow"@,
        Preset::Placebo => "placebo"@,
    }
}

/// The preset that `s` names, if any.
pub open spec fn preset_of(s: Seq<char>) -> Option<Preset> {
    if s == "ultrafast"@ {
        Some(Preset::Ultrafast)
    } else if s == "superfast"@ {
        Some(Preset::Superfast)
    } else if s == "veryfast"@ {
        Some(Preset::Veryfast)
    } else if s == "faster"@ {
        Some(Preset::Faster)
    } else if s == "fast"@ {
        Some(Preset::Fast)
    } else if s == "medium"@ {
        Some(Preset::Medium)
    } else if s == "slow"@ {
        Some(Preset::Slow)
    } else if s == "slower"@ {
        Some(Preset::Slower)
    } else if s == "veryslow"@ {
        Some(Preset::Veryslow)
    } else if s == "placebo"@ {
        Some(Preset::Placebo)
    } else {
        None
    }
}

impl Preset {
    /// The preset named `s`, or `None` for an unrecognized name.
    pub fn from_name(s: &str) -> (r: Option<Preset>)
        ensures
            r == preset_of(s@),
    {
        if same_text(s, "ultrafast") {
            Some(Preset::Ultrafast)
        } else if same_text(s, "superfast") {
            Some(Preset::Superfast)
        } else if same_text(s, "veryfast") {
            Some(Preset::Veryfast)
        } else if same_text(s, "faster") {
            Some(Preset::Faster)
        } else if same_text(s, "fast") {
            Some(Preset::Fast)
        } else if same_text(s, "medium") {
            Some(Preset::Medium)
        } else if same_text(s, "slow") {
            Some(Preset::Slow)
        } else if same_text(s, "slower") {
            Some(Preset::Slower)
        } else if same_text(s, "veryslow") {
            Some(Preset::Veryslow)
        } else if same_text(s, "placebo") {
            Some(Preset::Placebo)
        } else {
            None
        }
    }

    /// The name by which the encoder knows this preset.
    pub fn name(&self) -> (r: &'static str)
        ensures
            r@ == preset_name(*self),
    {
        match self {
            Preset::Ultrafast => "ultrafast",
            Preset::Superfast => "superfast",
            Preset::Veryfast => "veryfast",
            Preset::Faster => "faster",
            Preset::Fast => "fast",
            Preset::Medium => "medium",
            Preset::Slow => "slow",
            Preset::Slower => "slower",
            Preset::Veryslow => "veryslow",
            Preset::Placebo => "placebo",
        }
    }
}

/// Every preset's own name is recognized, as that preset.
pub proof fn lemma_preset_names_recognized(p: Preset)
    ensures
        preset_of(preset_name(p)) == Some(p),
{
    reveal_strlit("ultrafast");
    reveal_strlit("superfast");
    reveal_strlit("veryfast");
    reveal_strlit("faster");
    reveal_strlit("fast");
    reveal_strlit("medium");
    reveal_strlit("slow");
    reveal_strlit("slower");
    reveal_strlit("veryslow");
    reveal_strlit("placebo");
    match p {
        Preset::Ultrafast => {},
        Preset::Superfast => {
            assert("superfast"@[0] != "ultrafast"@[0]);
        },
        Preset::Veryfast => {
            assert("veryfast"@.len() != "ultrafast"@.len());
            assert("veryfast"@.len() != "superfast"@.len());
        },
        Preset::Faster => {
            assert("faster"@.len() != "ultrafast"@.len());
            assert("faster"@.len() != "superfast"@.len());
            assert("faster"@.len() != "veryfast"@.len());
        },
        Preset::Fast => {
            assert("fast"@.len() != "ultrafast"@.len());
            assert("fast"@.len() != "superfast"@.len());
            assert("fast"@.len() != "veryfast"@.len());
            assert("fast"@.len() != "faster"@.len());
        },
        Preset::Medium => {
            assert("medium"@.len() != "ultrafast"@.len());
            assert("medium"@.len() != "superfast"@.len());
            assert("medium"@.len() != "veryfast"@.len());
            assert("medium"@[0] != "faster"@[0]);
            assert("medium"@.len() != "fast"@.len());
        },
        Preset::Slow => {
            assert("slow"@.len() != "ultrafast"@.len());
            assert("slow"@.len() != "superfast"@.len());
            assert("slow"@.len() != "veryfast"@.len());
            assert("slow"@.len() != "faster"@.len());
            assert("slow"@[0] != "fast"@[0]);
            assert("slow"@.len() != "medium"@.len());
        },
        Preset::Slower => {
            assert("slower"@.len() != "ultrafast"@.len());
            assert("slower"@.len() != "superfast"@.len());
            assert("slower"@.len() != "veryfast"@.len());
            assert("slower"@[0] != "faster"@[0]);
            assert("slower"@.len() != "fast"@.len());
            assert("slower"@[0] != "medium"@[0]);
            assert("slower"@.len() != "slow"@.len());
        },
        Preset::Veryslow => {
            assert("veryslow"@.len() != "ultrafast"@.len());
            assert("veryslow"@.len() != "superfast"@.len());
            assert("veryslow"@[4] != "veryfast"@[4]);
            assert("veryslow"@.len() != "faster"@.len());
            assert("veryslow"@.len() != "fast"@.len());
            assert("veryslow"@.len() != "medium"@.len());
            assert("veryslow"@.len() != "slow"@.len());
            assert("veryslow"@.len() != "slower"@.len());
        },
        Preset::Placebo => {
            assert("placebo"@.len() != "ultrafast"@.len());
            assert("placebo"@.len() != "superfast"@.len());
            assert("placebo"@.len() != "veryfast"@.len());
            assert("placebo"@.len() != "faster"@.len());
            assert("placebo"@.len() != "fast"@.len());
            assert("placebo"@.len() != "medium"@.len());
            assert("placebo"@.len() != "slow"@.len());
            assert("placebo"@.len() != "slower"@.len());
            assert("placebo"@.len() != "veryslow"@.len());
        },
    }
}

pub open spec fn tune_name(p: Tune) -> Seq<char> {
    match p {
        Tune::Film => "film"@,
        Tune::Animation => "animation"@,
        Tune::Grain => "grain"@,
        Tune::StillImage => "stillimage"@,
        Tune::Psnr => "psnr"@,
        Tune::Ssim => "ssim"@,
        Tune::FastDecode => "fastdecode"@,
        Tune::ZeroLatency => "zerolatency"@,
    }
}

/// The tuning that `s` names, if any.
pub open spec fn tune_of(s: Seq<char>) -> Option<Tune> {
    if s == "film"@ {
        Some(Tune::Film)
    } else if s == "animation"@ {
        Some(Tune::Animation)
    } else if s == "grain"@ {
        Some(Tune::Grain)
    } else if s == "stillimage"@ {
        Some(Tune::StillImage)
    } else if s == "psnr"@ {
        Some(Tune::Psnr)
    } else if s == "ssim"@ {
        Some(Tune::Ssim)
    } else if s == "fastdecode"@ {
        Some(Tune::FastDecode)
    } else if s == "zerolatency"@ {
        Some(Tune::ZeroLatency)
    } else {
        None
    }
}

impl Tune {
    /// The tuning named `s`, or `None` for an unrecognized name.
    pub fn from_name(s: &str) -> (r: Option<Tune>)
        ensures
            r == tune_of(s@),
    {
        if same_text(s, "film") {
            Some(Tune::Film)
        } else if same_text(s, "animation") {
            Some(Tune::Animation)
        } else if same_text(s, "grain") {
            Some(Tune::Grain)
        } else if same_text(s, "stillimage") {
            Some(Tune::StillImage)
        } else if same_text(s, "psnr") {
            Some(Tune::Psnr)
        } else if same_text(s, "ssim") {
            Some(Tune::Ssim)
        } else if same_text(s, "fastdecode") {
            Some(Tune::FastDecode)
        } else if same_text(s, "zerolatency") {
            Some(Tune::ZeroLatency)
        } else {
            None
        }
    }

    /// The name by which the encoder knows this tuning.
    pub fn name(&self) -> (r: &'static str)
        ensures
            r@ == tune_name(*self),
    {
        match self {
            Tune::Film => "film",
            Tune::Animation => "animation",
            Tune::Grain => "grain",
            Tune::StillImage => "stillimage",
            Tune::Psnr => "psnr",
            Tune::Ssim => "ssim",
            Tune::FastDecode => "fastdecode",
            Tune::ZeroLatency => "zerolatency",
        }
    }
}

/// Every tuning's own name is recognized, as that tuning.
pub proof fn lemma_tune_names_recognized(p: Tune)
    ensures
        tune_of(tune_name(p)) == Some(p),
{
    reveal_strlit("film");
    reveal_strlit("animation");
    reveal_strlit("grain");
    reveal_strlit("stillimage");
    reveal_strlit("psnr");
    reveal_strlit("ssim");
    reveal_strlit("fastdecode");
    reveal_strlit("zerolatency");
    match p {
        Tune::Film => {},
        Tune::Animation => {
            assert("animation"@.len() != "film"@.len());
        },
        Tune::Grain => {
            assert("grain"@.len() != "film"@.len());
            assert("grain"@.len() != "animation"@.len());
        },
        Tune::StillImage => {
            assert("stillimage"@.len() != "film"@.len());
            assert("stillimage"@.len() != "animation"@.len());
            assert("stillimage"@.len() != "grain"@.len());
        },
        Tune::Psnr => {
            assert("psnr"@[0] != "film"@[0]);
            assert("psnr"@.len() != "animation"@.len());
            assert("psnr"@.len() != "grain"@.len());
            assert("psnr"@.len() != "stillimage"@.len());
        },
        Tune::Ssim => {
            assert("ssim"@[0] != "film"@[0]);
            assert("ssim"@.len() != "animation"@.len());
            assert("ssim"@.len() != "grain"@.len());
            assert("ssim"@.len() != "stillimage"@.len());
            assert("ssim"@[0] != "psnr"@[0]);
        },
        Tune::FastDecode => {
            assert("fastdecode"@.len() != "film"@.len());
            assert("fastdecode"@.len() != "animation"@.len());
            assert("fastdecode"@.len() != "grain"@.len());
            assert("fastdecode"@[0] != "stillimage"@[0]);
            assert("fastdecode"@.len() != "psnr"@.len());
            assert("fastdecode"@.len() != "ssim"@.len());
        },
        Tune::ZeroLatency => {
            assert("zerolatency"@.len() != "film"@.len());
            assert("zerolatency"@.len() != "animation"@.len());
            assert("zerolatency"@.len() != "grain"@.len());
            assert("zerolatency"@.len() != "stillimage"@.len());
            assert("zerolatency"@.len() != "psnr"@.len());
            assert("zerolatency"@.len() != "ssim"@.len());
            assert("zerolatency"@.len() != "fastdecode"@.len());
        },
    }
}

pub open spec fn profile_name(p: Profile) -> Seq<char> {
    match p {
        Profile::Baseline => "baseline"@,
        Profile::Main => "main"@,
        Profile::High => "high"@,
        Profile::High10 => "high10"@,
        Profile::High422 => "high422"@,
        Profile::High444 => "high444"@,
    }
}

/// The profile that `s` names, if any.
pub open spec fn profile_of(s: Seq<char>) -> Option<Profile> {
    if s == "baseline"@ {
        Some(Profile::Baseline)
    } else if s == "main"@ {
        Some(Profile::Main)
    } else if s == "high"@ {
        Some(Profile::High)
    } else if s == "high10"@ {
        Some(Profile::High10)
    } else if s == "high422"@ {
        Some(Profile::High422)
    } else if s == "high444"@ {
        Some(Profile::High444)
    } else {
        None
    }
}

impl Profile {
    /// The profile named `s`, or `None` for an unrecognized name.
    pub fn from_name(s: &str) -> (r: Option<Profile>)
        ensures
            r == profile_of(s@),
    {
        if same_text(s, "baseline") {
            Some(Profile::Baseline)
        } else if same_text(s, "main") {
            Some(Profile::Main)
        } else if same_text(s, "high") {
            Some(Profile::High)
        } else if same_text(s, "high10") {
            Some(Profile::High10)
        } else if same_text(s, "high422") {
            Some(Profile::High422)
        } else if same_text(s, "high444") {
            Some(Profile::High444)
        } else {
            None
        }
    }

    /// The name by which the encoder knows this profile.
    pub fn name(&self) -> (r: &'static str)
        ensures
            r@ == profile_name(*self),
    {
        match self {
            Profile::Baseline => "baseline",
            Profile::Main => "main",
            Profile::High => "high",
            Profile::High10 => "high10",
            Profile::High422 => "high422",
            Profile::High444 => "high444",
        }
    }
}

/// Every profile's own name is recognized, as that profile.
pub proof fn lemma_profile_names_recognized(p: Profile)
    ensures
        profile_of(profile_name(p)) == Some(p),
{
    reveal_strlit("baseline");
    reveal_strlit("main");
    reveal_strlit("high");
    reveal_strlit("high10");
    reveal_strlit("high422");
    reveal_strlit("high444");
    match p {
        Profile::Baseline => {},
        Profile::Main => {
            assert("main"@.len() != "baseline"@.len());
        },
        Profile::High => {
            assert("high"@.len() != "baseline"@.len());
            assert("high"@[0] != "main"@[0]);
        },
        Profile::High10 => {
            assert("high10"@.len() != "baseline"@.len());
            assert("high10"@.len() != "main"@.len());
            assert("high10"@.len() != "high"@.len());
        },
        Profile::High422 => {
            assert("high422"@.len() != "baseline"@.len());
            assert("high422"@.len() != "main"@.len());
            assert("high422"@.len() != "high"@.len());
            assert("high422"@.len() != "high10"@.len());
        },
        Profile::High444 => {
            assert("high444"@.len() != "baseline"@.len());
            assert("high444"@.len() != "main"@.len());
            assert("high444"@.len() != "high"@.len());
            assert("high444"@.len() != "high10"@.len());
            assert("high444"@[5] != "high422"@[5]);
        },
    }
}

/// The planar color format of the frames handed to the encoder.
#[derive(Clone, Copy, Debug, PartialEq, Eq, Structural)]
pub enum ColorFormat {
    I420,
    I422,
    I444,
}

/// The rate-control method and its numeric target.
#[derive(Clone, Copy, Debug, PartialEq, Eq, Structural)]
pub enum RateControl {
    /// A constant quantizer.
    ConstantQp(u8),
    /// A constant rate factor.
    ConstantRateFactor(u8),
}

/// The configuration an encoder session is opened with, names as given by the user.
#[derive(Clone, Debug)]
pub struct EncoderConfig {
    pub preset: String,
    pub tune: Option<String>,
    pub profile: Option<String>,
    pub color_format: ColorFormat,
    pub bit_depth: u32,
    pub width: u32,
    pub height: u32,
    pub rate_control: RateControl,
    pub vfr_input: bool,
    pub repeat_headers: bool,
    pub annexb: bool,
    pub full_recon: bool,
}

/// A configuration whose names have been recognized and whose values are accepted.
#[derive(Clone, Copy, Debug, PartialEq, Eq, Structural)]
pub struct Settings {
    pub preset: Preset,
    pub tune: Option<Tune>,
    pub profile: Option<Profile>,
    pub width: u32,
    pub height: u32,
    pub rate_control: RateControl,
    pub vfr_input: bool,
    pub repeat_headers: bool,
    pub annexb: bool,
    pub full_recon: bool,
}

/// Whether an optional name is absent or recognized by `known`.
pub open spec fn optional_name_ok<T>(name: Option<String>, known: spec_fn(Seq<char>) -> Option<T>) -> bool {
    match name {
        Some(n) => known(n@) is Some,
        None => true,
    }
}

/// What validating `c` gives: its settings, or the error that rejects it.
pub open spec fn settings_of(c: EncoderConfig) -> Result<Settings, PipelineError> {
    if c.width == 0 || c.height == 0 {
        Err(PipelineError::ConfigError)
    } else if preset_of(c.preset@) is None {
        Err(PipelineError::ConfigError)
    } else if !optional_name_ok(c.tune, |s: Seq<char>| tune_of(s)) {
        Err(PipelineError::ConfigError)
    } else if !optional_name_ok(c.profile, |s: Seq<char>| profile_of(s)) {
        Err(PipelineError::ConfigError)
    } else if c.color_format != ColorFormat::I420 || c.bit_depth != 8 {
        Err(PipelineError::ConfigError)
    } else if luma_len(c.width, c.height) > usize::MAX {
        Err(PipelineError::AllocationError)
    } else {
        Ok(Settings {
            preset: preset_of(c.preset@).unwrap(),
            tune: match c.tune { Some(t) => tune_of(t@), None => None },
            profile: match c.profile { Some(p) => profile_of(p@), None => None },
            width: c.width,
            height: c.height,
            rate_control: c.rate_control,
            vfr_input: c.vfr_input,
            repeat_headers: c.repeat_headers,
            annexb: c.annexb,
            full_recon: c.full_recon,
        })
    }
}

impl EncoderConfig {
    /// The default configuration for frames of `width` x `height`: the fastest preset,
    /// tuned for structural similarity, high profile, 8-bit 4:2:0, constant rate factor 40,
    /// parameter sets repeated before each unit, start-code framing and full reconstruction.
    pub fn new(width: u32, height: u32) -> (r: EncoderConfig)
        ensures
            r.preset@ == "ultrafast"@,
            r.tune matches Some(t) && t@ == "ssim"@,
            r.profile matches Some(p) && p@ == "high"@,
            r.color_format == ColorFormat::I420,
            r.bit_depth == 8,
            r.width == width,
            r.height == height,
            r.rate_control == RateControl::ConstantRateFactor(40),
            !r.vfr_input,
            r.repeat_headers,
            r.annexb,
            r.full_recon,
    {
        EncoderConfig {
            preset: String::from_str("ultrafast"),
            tune: Some(String::from_str("ssim")),
            profile: Some(String::from_str("high")),
            color_format: ColorFormat::I420,
            bit_depth: 8,
            width,
            height,
            rate_control: RateControl::ConstantRateFactor(40),
            vfr_input: false,
            repeat_headers: true,
            annexb: true,
            full_recon: true,
        }
    }

    /// Recognizes the names and checks the values of this configuration.
    pub fn validate(&self) -> (r: Result<Settings, PipelineError>)
        ensures
            r == settings_of(*self),
    {
        if self.width == 0 || self.height == 0 {
            return Err(PipelineError::ConfigError);
        }
        let preset = match Preset::from_name(self.preset.as_str()) {
            Some(p) => p,
            None => return Err(PipelineError::ConfigError),
        };
        let tune = match &self.tune {
            Some(t) => match Tune::from_name(t.as_str()) {
                Some(t) => Some(t),
                None => return Err(PipelineError::ConfigError),
            },
            None => None,
        };
        let profile = match &self.profile {
            Some(p) => match Profile::from_name(p.as_str()) {
                Some(p) => Some(p),
                None => return Err(PipelineError::ConfigError),
            },
            None => None,
        };
        if self.color_format != ColorFormat::I420 || self.bit_depth != 8 {
            return Err(PipelineError::ConfigError);
        }
        proof {
            crate::frame::lemma_plane_sizes_fit(self.width, self.height);
        }
        if self.width as u64 * self.height as u64 > usize::MAX as u64 {
            return Err(PipelineError::AllocationError);
        }
        Ok(Settings {
            preset,
            tune,
            profile,
            width: self.width,
            height: self.height,
            rate_control: self.rate_control,
            vfr_input: self.vfr_input,
            repeat_headers: self.repeat_headers,
            annexb: self.annexb,
            full_recon: self.full_recon,
        })
    }
}

/// Whether everything in `c` but its preset is accepted.
pub open spec fn accepted_but_preset(c: EncoderConfig) -> bool {
    &&& c.width != 0
    &&& c.height != 0
    &&& optional_name_ok(c.tune, |s: Seq<char>| tune_of(s))
    &&& optional_name_ok(c.profile, |s: Seq<char>| profile_of(s))
    &&& c.color_format == ColorFormat::I420
    &&& c.bit_depth == 8
    &&& luma_len(c.width, c.height) <= usize::MAX
}

/// A configuration with an unrecognized preset name is rejected with `ConfigError`;
/// one that names a recognized preset, and is otherwise acceptable, is accepted with that preset.
pub proof fn lemma_preset_decides(c: EncoderConfig, p: Preset)
    ensures
        preset_of(c.preset@) is None ==> settings_of(c) == Err::<Settings, PipelineError>(PipelineError::ConfigError),
        c.preset@ == preset_name(p) && accepted_but_preset(c) ==> (settings_of(c) matches Ok(s) && s.preset == p),
{
    lemma_preset_names_recognized(p);
}

} // verus!
