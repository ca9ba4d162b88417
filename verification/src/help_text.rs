//! Help texts of the format settings.

use crate::format_settings::FormatSettingsKind;
use crate::scene::{line1, row_if, sp, Line, Rows, RowsV};
use crate::style::{bold_fg, fg, Tone};
use crate::text::cat2;
use vstd::prelude::*;

verus! {

pub const FLAC_COMPRESSION: [&'static str; 10] = [
    "Encoding effort level from 0 to 8. This controls how hard the",
    "encoder works to find optimal predictions — higher levels try",
    "more partition orders and LPC models, producing slightly smaller",
    "files at the cost of slower encoding.",
    "",
    "All levels produce bit-identical lossless output; only encode",
    "time and file size differ. Level 5 (the default) is a good",
    "balance. Levels 6-8 yield diminishing returns — typically 1-2%",
    "smaller files for 2-4x longer encode times. Level 0 is useful",
    "for fast intermediates that will be re-encoded later.",
];

pub const FLAC_VERIFY: [&'static str; 8] = [
    "When enabled, the encoder decodes each frame immediately after",
    "encoding and compares the result against the original PCM input.",
    "This catches rare encoder bugs, memory corruption, or disk write",
    "errors during the encode process.",
    "",
    "Roughly doubles encode time. Recommended for archival rips and",
    "any conversion where data integrity is critical. Can be left off",
    "for quick intermediate files or batch previews.",
];

pub const FLAC_MD5_CHECKSUM: [&'static str; 9] = [
    "Stores an MD5 hash of the uncompressed audio data in the FLAC",
    "streaminfo header. Any decoder can later recompute this hash to",
    "verify that the audio content has not been corrupted (bit-rot,",
    "truncation, bad sector, incomplete transfer).",
    "",
    "Nearly zero encoding overhead. Strongly recommended to keep on.",
    "Some tools (dbpoweramp, foobar2000, flac -t) use this checksum",
    "for integrity verification. Without it, you can only verify by",
    "fully decoding and re-encoding, which is much slower.",
];

pub const AAC_PROFILE: [&'static str; 18] = [
    "The AAC encoding profile determines the codec features used:",
    "",
    "  LC-AAC    Standard low-complexity profile. Best quality at",
    "            moderate to high bitrates (96-256+ kbps). Use this",
    "            for general music encoding.",
    "",
    "  HE-AAC   High Efficiency. Adds Spectral Band Replication (SBR)",
    "            to reconstruct high frequencies from a compact low-",
    "            frequency core. Best at 48-80 kbps — outperforms LC",
    "            at low bitrates but wastes bits above ~96 kbps.",
    "",
    "  HE-AACv2 Adds Parametric Stereo on top of SBR. Encodes stereo",
    "            image as parameters rather than discrete channels.",
    "            Best at very low bitrates (24-48 kbps) for speech or",
    "            streaming. Not suitable for critical music listening.",
    "",
    "Quality presets adjust automatically when you change profile.",
    "Encoded via libfdk_aac (Fraunhofer reference implementation).",
];

pub const AAC_QUALITY: [&'static str; 11] = [
    "Bitrate presets tuned per profile. Selecting a preset fills the",
    "bitrate field with the corresponding value. The presets represent",
    "common quality tiers:",
    "",
    "  LC-AAC:   low=96, medium=128, good=192, high=256 kbps",
    "  HE-AAC:   low=32, medium=48, good=64, high=80 kbps",
    "  HE-AACv2: low=24, medium=32, good=40, high=48 kbps",
    "",
    "Editing the bitrate field directly overrides the preset. The",
    "preset indicator clears when the bitrate no longer matches any",
    "preset value.",
];

pub const AAC_BITRATE: [&'static str; 7] = [
    "Target bitrate in kilobits per second. For LC-AAC, the usable",
    "range is roughly 64-320 kbps; for HE profiles, lower ranges",
    "apply (see quality presets above). Values outside the codec's",
    "supported range will be clamped by the encoder.",
    "",
    "AAC uses a VBR-like encoding internally — the bitrate is a",
    "target, not a hard ceiling. Actual file sizes may vary slightly.",
];

pub const OPUS_CONTENT_TYPE: [&'static str; 12] = [
    "Tells the Opus encoder what kind of audio to expect:",
    "",
    "  Auto     Encoder auto-detects content type per frame. Good",
    "           default for mixed content or when unsure.",
    "",
    "  Music    Optimizes for tonal, complex audio (instruments,",
    "           vocals, orchestral). Uses MDCT mode with longer",
    "           windows for better frequency resolution.",
    "",
    "  Speech   Optimizes for voice (SILK mode at low bitrates,",
    "           CELT at higher). Better for podcasts, audiobooks,",
    "           and voice recordings. Not recommended for music.",
];

pub const OPUS_QUALITY: [&'static str; 9] = [
    "Bitrate presets for common quality tiers. Selecting a preset",
    "fills the bitrate field:",
    "",
    "  low=64, medium=96, good=128, high=160, ultra=256 kbps",
    "",
    "Opus is remarkably efficient — 128 kbps Opus generally matches",
    "or exceeds 256 kbps MP3 and 192 kbps AAC in listening tests.",
    "For archival-quality transparent encoding, 160-192 kbps is",
    "typically sufficient. 256+ kbps is overkill for most material.",
];

pub const OPUS_BITRATE: [&'static str; 8] = [
    "Target bitrate in kilobits per second (6-510 kbps). Opus uses",
    "variable bitrate internally — this is a target, not a ceiling.",
    "",
    "Practical range: 64-256 kbps for music, 24-64 kbps for speech.",
    "Below 64 kbps, audible artifacts may appear on complex music.",
    "Above 256 kbps, returns are negligible for most listeners.",
    "",
    "Editing this field directly overrides any selected preset.",
];

pub const OPUS_COMPLEXITY: [&'static str; 9] = [
    "Encoder computational effort from 0 to 10. Higher values allow",
    "the encoder to use more CPU time searching for optimal encoding",
    "decisions, potentially yielding better quality at the same",
    "bitrate.",
    "",
    "Default: 10 (maximum). There is rarely a reason to lower this",
    "unless encoding speed is critical (e.g., real-time streaming).",
    "The quality difference between 9 and 10 is minimal, but between",
    "0 and 10 it can be significant at low bitrates.",
];

pub const MP3_MODE: [&'static str; 17] = [
    "The encoding mode controls how bitrate is allocated:",
    "",
    "  VBR  Variable Bit Rate. The encoder allocates more bits to",
    "       complex passages and fewer to silence/simple sections.",
    "       Controlled by the VBR quality setting (not bitrate).",
    "       Best quality-per-byte for music. Recommended default.",
    "",
    "  CBR  Constant Bit Rate. Every frame uses the same number of",
    "       bits regardless of content. Predictable file size but",
    "       wastes bits on simple passages. Required by some older",
    "       hardware players and streaming protocols.",
    "",
    "  ABR  Average Bit Rate. A compromise: targets an average",
    "       bitrate over time but allows frame-level variation.",
    "       Less efficient than VBR, more flexible than CBR.",
    "",
    "Switching mode greys out the irrelevant quality controls.",
];

pub const MP3_VBR_QUALITY: [&'static str; 12] = [
    "VBR quality level from 0 (highest) to 9 (lowest). Only active",
    "in VBR mode. This controls the encoder's quality target — the",
    "actual bitrate varies based on content complexity:",
    "",
    "  0 = ~245 kbps  (transparent for most material)",
    "  2 = ~190 kbps  (recommended — excellent quality)",
    "  4 = ~165 kbps  (good for casual listening)",
    "  6 = ~130 kbps  (noticeable artifacts on complex material)",
    "  9 = ~65 kbps   (low quality, small files)",
    "",
    "Uses LAME's VBR algorithm. Quality 2 is widely considered the",
    "best balance of quality and file size for music.",
];

pub const MP3_PRESET: [&'static str; 8] = [
    "Bitrate presets for CBR and ABR modes. Selecting a preset fills",
    "the bitrate field. Greyed out in VBR mode (use VBR quality",
    "instead). Common choices:",
    "",
    "  128 kbps — acceptable for casual listening",
    "  192 kbps — good quality for most music",
    "  256 kbps — high quality, near-transparent",
    "  320 kbps — maximum MP3 bitrate, transparent",
];

pub const MP3_BITRATE: [&'static str; 6] = [
    "Target bitrate in kilobits per second for CBR and ABR modes.",
    "Greyed out in VBR mode. Valid range: 32-320 kbps.",
    "",
    "For CBR, every frame uses exactly this bitrate. For ABR, this",
    "is the target average. Editing this field directly overrides",
    "any selected preset.",
];

pub const WAVPACK_MODE: [&'static str; 16] = [
    "Compression effort level. All modes produce lossless output",
    "(unless hybrid mode is enabled). Higher modes try harder to",
    "find optimal predictions:",
    "",
    "  Fast      Fastest encoding, largest files. Useful for quick",
    "            intermediates or when disk space is not a concern.",
    "",
    "  Normal    Default balance of speed and compression. Good for",
    "            most use cases.",
    "",
    "  High      Better compression at the cost of slower encoding.",
    "            Typical improvement: 1-3% smaller than Normal.",
    "",
    "  Very High Maximum compression effort. Diminishing returns",
    "            over High — marginally smaller files, noticeably",
    "            slower encoding.",
];

pub const WAVPACK_HYBRID: [&'static str; 11] = [
    "Enables WavPack's unique hybrid mode, which produces a lossy",
    ".wv file at the target bitrate. The lossy file is independently",
    "playable and typically much smaller than lossless.",
    "",
    "When combined with the correction file option, a .wvc sidecar",
    "is written alongside the .wv. Together, the .wv + .wvc pair",
    "reconstruct the original lossless audio — giving you the best",
    "of both worlds: a compact lossy file for playback and a small",
    "correction file for lossless recovery.",
    "",
    "Without the correction file, hybrid mode is purely lossy.",
];

pub const WAVPACK_BITRATE: [&'static str; 6] = [
    "Target bitrate per channel in kilobits per second for hybrid",
    "mode (24-9600 kbps). Only active when hybrid is enabled.",
    "",
    "Typical values: 256-512 kbps/channel for high-quality lossy,",
    "128-256 kbps/channel for moderate. Higher values produce larger",
    "lossy files but smaller correction files (and vice versa).",
];

pub const WAVPACK_CORRECTION: [&'static str; 8] = [
    "When enabled, writes a .wvc lossless correction sidecar file",
    "alongside the .wv hybrid file. The correction file contains",
    "the difference between the lossy and lossless representations.",
    "",
    "Only active when hybrid mode is enabled. With correction on,",
    "the total size (.wv + .wvc) is similar to a normal lossless",
    "WavPack file, but you gain the option to distribute or play",
    "just the smaller .wv file when full lossless isn't needed.",
];

pub const SSRC_ATTENUATION: [&'static str; 10] = [
    "Output attenuation in decibels (0.0–99.9 dB). Reduces the",
    "output signal level to prevent intersample clipping, which can",
    "occur when sample rate conversion produces peaks that exceed",
    "0 dBFS.",
    "",
    "Particularly useful when downsampling high-resolution content",
    "(e.g., 192 kHz → 44.1 kHz) where the anti-aliasing filter may",
    "cause overshoot. A value of 1-3 dB is typical for safety.",
    "",
    "Leave empty for no attenuation (0 dB, full scale).",
];

pub const SSRC_MIN_PHASE: [&'static str; 11] = [
    "When enabled, SSRC uses minimum phase FIR filters instead of",
    "the default linear phase filters.",
    "",
    "Linear phase (default): Preserves the waveform shape with",
    "symmetric pre/post-ringing around transients. No phase",
    "distortion. Preferred for measurement and mastering.",
    "",
    "Minimum phase: Eliminates pre-ringing entirely. All ringing",
    "occurs after the transient. Many listeners prefer this for",
    "music playback as transient attacks sound cleaner. Introduces",
    "slight phase shift that varies with frequency.",
];

pub const SSRC_DITHER_PDF: [&'static str; 14] = [
    "Selects the probability distribution function used for",
    "generating dither noise, separate from the noise shaper",
    "selection on the main dither pill.",
    "",
    "  None         Use SSRC's default (determined by dither type).",
    "",
    "  Rectangular  Flat uniform distribution. Simplest form of",
    "               dithering. Removes all distortion from",
    "               quantization but adds slightly more noise.",
    "",
    "  Triangular   Shaped distribution that minimizes perceived",
    "               noise modulation. Standard choice for audio",
    "               work — slightly less total noise than",
    "               rectangular, with no noise modulation.",
];

pub const SOX_CHEBYSHEV: [&'static str; 11] = [
    "Enables a Chebyshev (equiripple) anti-aliasing filter instead",
    "of the default windowed-sinc design. Chebyshev filters have a",
    "sharper transition band — they cut off more steeply at the",
    "Nyquist frequency — at the cost of slight passband ripple.",
    "",
    "When enabled, bandwidth is forced to 99% of Nyquist and the",
    "nyquist cutoff field is greyed out. Requires resample quality",
    "of High or above to be effective.",
    "",
    "Use for critical sample rate conversions where you want maximum",
    "content preservation with minimal aliasing leakage.",
];

pub const SOX_NYQUIST_CUTOFF: [&'static str; 12] = [
    "Anti-aliasing filter rolloff as a percentage of the Nyquist",
    "frequency (half the target sample rate). Controls how much of",
    "the audio bandwidth is preserved during resampling.",
    "",
    "  95%   Gentle rolloff. Slight high-frequency loss but very",
    "        clean transition. Good for general use.",
    "  97%   Moderate. Preserves more content, slightly less clean.",
    "  99%+  Steep. Preserves nearly all content up to Nyquist but",
    "        may produce ringing artifacts if filter quality is low.",
    "",
    "Greyed out when chebyshev is enabled (forced to 99%).",
    "Valid range: 74-99.7%.",
];

pub const SOX_PHASE: [&'static str; 15] = [
    "Controls the phase response of the resampling filter, as an",
    "integer from 0 to 100:",
    "",
    "  0    Linear phase. Preserves waveform shape perfectly but",
    "       introduces symmetric pre-ringing and post-ringing around",
    "       transients. Best for measurement or scientific use.",
    "",
    "  50   Intermediate phase. A blend of linear and minimum phase",
    "       characteristics. Moderate pre-ring, good transient",
    "       preservation. Good general-purpose choice.",
    "",
    "  100  Minimum phase. Eliminates pre-ringing entirely at the",
    "       cost of asymmetric post-ringing and slight phase shift.",
    "       Many listeners prefer this for music — transient attacks",
    "       sound cleaner and more natural.",
];

pub const SOX_ALIASING: [&'static str; 10] = [
    "Allows frequency content above the Nyquist limit to fold back",
    "into the audible range (aliasing) rather than being filtered.",
    "",
    "Off (default): The resampling filter removes content above",
    "Nyquist before downsampling, preventing aliasing artifacts.",
    "",
    "On: Content above Nyquist is preserved, which creates aliasing",
    "products (new frequencies not in the original). This is almost",
    "never desirable for music — it introduces inharmonic distortion.",
    "Only useful for experimental/creative sound design.",
];

pub const SOX_TAPS: [&'static str; 10] = [
    "FIR filter length for the sinc pre-filter, specified as a power",
    "of 2. More taps produce a sharper, more precise filter at the",
    "cost of increased CPU time and latency.",
    "",
    "Valid values: 1024 to 67108864 (powers of 2 only).",
    "",
    "Leave empty to use the default derived from resample quality.",
    "Typical values: 4096-32768 for moderate quality, 65536-262144",
    "for high precision. Values above 1M are extreme and rarely",
    "needed outside of measurement contexts.",
];

pub const SOX_ATTENUATION: [&'static str; 10] = [
    "Stopband rejection depth in decibels for the sinc pre-filter.",
    "Controls how thoroughly the filter suppresses content above the",
    "cutoff frequency.",
    "",
    "Higher values push the stopband noise floor lower, reducing",
    "aliasing leakage into the passband. Valid range: 80-200 dB.",
    "",
    "Leave empty for the default. 120 dB is a good starting point",
    "for high-quality work. Values above 160 dB are extreme and may",
    "require very long filters (high tap count) to be achievable.",
];

pub const SOX_PASSBAND: [&'static str; 8] = [
    "Lowpass cutoff frequency in Hz for the sinc pre-filter. Content",
    "above this frequency will be attenuated by the filter.",
    "",
    "Typically set to half the target sample rate (e.g., 22050 Hz",
    "when downsampling to 44.1 kHz). Leave empty to use the default",
    "derived from the target rate and nyquist cutoff percentage.",
    "",
    "Valid range: 1-220000 Hz.",
];

pub const SOX_TRANSITION: [&'static str; 10] = [
    "Transition band width in Hz for the sinc pre-filter. This is",
    "the frequency range over which the filter rolls off from full",
    "passband to full stopband attenuation.",
    "",
    "Narrower values produce a steeper, more precise filter but",
    "require more taps to avoid ringing. Wider values produce a",
    "gentler rolloff that is easier on the filter design.",
    "",
    "Leave empty for the default. Valid range: 1-5000 Hz.",
    "Typical values: 100-1000 Hz for music.",
];

pub const SOX_KAISER_BETA: [&'static str; 11] = [
    "Shape parameter for the Kaiser window function applied to the",
    "sinc filter. Controls the trade-off between main-lobe width",
    "(frequency selectivity) and side-lobe level (aliasing).",
    "",
    "  Low (2-4)   Wide main lobe, low side lobes. Less selective",
    "              but cleaner stopband.",
    "  Medium (6-10) Good balance for most audio work.",
    "  High (14-20)  Narrow main lobe, higher side lobes. More",
    "                selective but more spectral leakage.",
    "",
    "Leave empty for the default. Valid range: 0-32.",
];

pub const SOX_SINC_PHASE: [&'static str; 13] = [
    "Phase response of the sinc pre-filter (separate from the main",
    "resampling phase control above):",
    "",
    "  Linear        Symmetric impulse response. Preserves waveform",
    "                shape but introduces pre-ringing before transients.",
    "",
    "  Minimum       No pre-ringing. All ringing occurs after the",
    "                transient. Often preferred for percussive music.",
    "",
    "  Intermediate  A compromise between linear and minimum phase.",
    "",
    "Leave unselected (no pill highlighted) to inherit the default",
    "from the main phase setting.",
];

pub const SOXR_CHEBYSHEV: [&'static str; 9] = [
    "Enables a Chebyshev (equiripple) passband filter instead of",
    "the default design. The Chebyshev filter distributes error",
    "evenly across the passband as small ripples, achieving a",
    "sharper cutoff for a given filter order.",
    "",
    "The ripple is typically inaudible (< 0.01 dB). This provides",
    "a steeper transition from passband to stopband, preserving",
    "more high-frequency content at the cost of minor passband",
    "ripple. Recommended for quality-critical downsampling.",
];

pub const SOXR_NYQUIST_CUTOFF: [&'static str; 12] = [
    "Anti-aliasing filter rolloff as a percentage of the Nyquist",
    "frequency. Controls how aggressively the filter protects",
    "against aliasing versus how much bandwidth is preserved.",
    "",
    "  74-90%  Conservative. Removes more content but ensures very",
    "          clean results with no aliasing artifacts.",
    "  91-96%  Balanced. Good default range for most work.",
    "  97-99%+ Aggressive. Preserves nearly all content but relies",
    "          on filter quality to suppress aliasing.",
    "",
    "Valid range: 74-99.7%. Leave empty for the default derived",
    "from resample quality preset.",
];

pub const SOXR_PHASE: [&'static str; 13] = [
    "Controls the phase response of the soxr resampling filter, as",
    "an integer from 0 to 100. Same semantics as the sox phase",
    "control:",
    "",
    "  0    Linear phase — preserves waveform shape, symmetric",
    "       pre/post-ringing around transients.",
    "",
    "  50   Intermediate — blended characteristics.",
    "",
    "  100  Minimum phase — no pre-ringing, preferred by many",
    "       listeners for music playback.",
    "",
    "Leave empty for the default (typically 50, intermediate).",
];

/// A setting and its explanation.
#[derive(Debug)]
pub struct HelpSection {
    pub label: &'static str,
    pub lines: Vec<&'static str>,
}

/// The contents of a [`HelpSection`].
pub struct HelpSectionV {
    pub label: &'static str,
    pub lines: Seq<&'static str>,
}

impl View for HelpSection {
    type V = HelpSectionV;

    open spec fn view(&self) -> HelpSectionV {
        HelpSectionV { label: self.label, lines: self.lines@ }
    }
}

/// A setting and its explanation.
pub open spec fn section_of(label: &'static str, lines: Seq<&'static str>) -> HelpSectionV {
    HelpSectionV { label, lines }
}

/// The contents of a list of sections.
pub open spec fn sections_view(sections: Seq<HelpSection>) -> Seq<HelpSectionV> {
    Seq::new(sections.len(), |i: int| sections[i]@)
}

fn section<const N: usize>(label: &'static str, lines: [&'static str; N]) -> (r: HelpSection)
    ensures
        r@ == section_of(label, lines@),
{
    let mut out: Vec<&'static str> = Vec::new();
    for i in 0..N
        invariant
            out@ == lines@.take(i as int),
            lines@.len() == N,
    {
        out.push(lines[i]);
        proof {
            assert(lines@.take(i + 1) =~= lines@.take(i as int).push(lines@[i as int]));
        }
    }
    proof {
        assert(lines@.take(N as int) =~= lines@);
    }
    HelpSection { label, lines: out }
}

/// The settings of a format, with their explanations.
pub open spec fn help_sections(kind: FormatSettingsKind) -> Seq<HelpSectionV> {
    match kind {
        FormatSettingsKind::Flac { .. } => seq![
            section_of("compression", FLAC_COMPRESSION@),
            section_of("verify", FLAC_VERIFY@),
            section_of("md5 checksum", FLAC_MD5_CHECKSUM@),
        ],
        FormatSettingsKind::Aac { .. } => seq![
            section_of("profile", AAC_PROFILE@),
            section_of("quality", AAC_QUALITY@),
            section_of("bitrate", AAC_BITRATE@),
        ],
        FormatSettingsKind::Opus { .. } => seq![
            section_of("content type", OPUS_CONTENT_TYPE@),
            section_of("quality", OPUS_QUALITY@),
            section_of("bitrate", OPUS_BITRATE@),
            section_of("complexity", OPUS_COMPLEXITY@),
        ],
        FormatSettingsKind::Mp3 { .. } => seq![
            section_of("mode", MP3_MODE@),
            section_of("vbr quality", MP3_VBR_QUALITY@),
            section_of("preset", MP3_PRESET@),
            section_of("bitrate", MP3_BITRATE@),
        ],
        FormatSettingsKind::WavPack { .. } => seq![
            section_of("mode", WAVPACK_MODE@),
            section_of("hybrid", WAVPACK_HYBRID@),
            section_of("bitrate", WAVPACK_BITRATE@),
            section_of("correction", WAVPACK_CORRECTION@),
        ],
        FormatSettingsKind::Ssrc { .. } => seq![
            section_of("attenuation", SSRC_ATTENUATION@),
            section_of("min phase", SSRC_MIN_PHASE@),
            section_of("dither pdf", SSRC_DITHER_PDF@),
        ],
        FormatSettingsKind::Sox { .. } => seq![
            section_of("chebyshev", SOX_CHEBYSHEV@),
            section_of("nyquist cutoff", SOX_NYQUIST_CUTOFF@),
            section_of("phase", SOX_PHASE@),
            section_of("aliasing", SOX_ALIASING@),
            section_of("taps", SOX_TAPS@),
            section_of("attenuation", SOX_ATTENUATION@),
            section_of("passband", SOX_PASSBAND@),
            section_of("transition", SOX_TRANSITION@),
            section_of("kaiser beta", SOX_KAISER_BETA@),
            section_of("sinc phase", SOX_SINC_PHASE@),
        ],
        FormatSettingsKind::Soxr { .. } => seq![
            section_of("chebyshev", SOXR_CHEBYSHEV@),
            section_of("nyquist cutoff", SOXR_NYQUIST_CUTOFF@),
            section_of("phase", SOXR_PHASE@),
        ],
    }
}

/// The settings of a format, with their explanations.
pub fn format_settings_help_content(kind: &FormatSettingsKind) -> (r: Vec<HelpSection>)
    ensures
        sections_view(r@) == help_sections(*kind),
{
    let mut out: Vec<HelpSection> = Vec::new();
    match kind {
        FormatSettingsKind::Flac { .. } => {
            out.push(section("compression", FLAC_COMPRESSION));
            out.push(section("verify", FLAC_VERIFY));
            out.push(section("md5 checksum", FLAC_MD5_CHECKSUM));
        },
        FormatSettingsKind::Aac { .. } => {
            out.push(section("profile", AAC_PROFILE));
            out.push(section("quality", AAC_QUALITY));
            out.push(section("bitrate", AAC_BITRATE));
        },
        FormatSettingsKind::Opus { .. } => {
            out.push(section("content type", OPUS_CONTENT_TYPE));
            out.push(section("quality", OPUS_QUALITY));
            out.push(section("bitrate", OPUS_BITRATE));
            out.push(section("complexity", OPUS_COMPLEXITY));
        },
        FormatSettingsKind::Mp3 { .. } => {
            out.push(section("mode", MP3_MODE));
            out.push(section("vbr quality", MP3_VBR_QUALITY));
            out.push(section("preset", MP3_PRESET));
            out.push(section("bitrate", MP3_BITRATE));
        },
        FormatSettingsKind::WavPack { .. } => {
            out.push(section("mode", WAVPACK_MODE));
            out.push(section("hybrid", WAVPACK_HYBRID));
            out.push(section("bitrate", WAVPACK_BITRATE));
            out.push(section("correction", WAVPACK_CORRECTION));
        },
        FormatSettingsKind::Ssrc { .. } => {
            out.push(section("attenuation", SSRC_ATTENUATION));
            out.push(section("min phase", SSRC_MIN_PHASE));
            out.push(section("dither pdf", SSRC_DITHER_PDF));
        },
        FormatSettingsKind::Sox { .. } => {
            out.push(section("chebyshev", SOX_CHEBYSHEV));
            out.push(section("nyquist cutoff", SOX_NYQUIST_CUTOFF));
            out.push(section("phase", SOX_PHASE));
            out.push(section("aliasing", SOX_ALIASING));
            out.push(section("taps", SOX_TAPS));
            out.push(section("attenuation", SOX_ATTENUATION));
            out.push(section("passband", SOX_PASSBAND));
            out.push(section("transition", SOX_TRANSITION));
            out.push(section("kaiser beta", SOX_KAISER_BETA));
            out.push(section("sinc phase", SOX_SINC_PHASE));
        },
        FormatSettingsKind::Soxr { .. } => {
            out.push(section("chebyshev", SOXR_CHEBYSHEV));
            out.push(section("nyquist cutoff", SOXR_NYQUIST_CUTOFF));
            out.push(section("phase", SOXR_PHASE));
        },
    }
    proof {
        assert(sections_view(out@) =~= help_sections(*kind));
    }
    out
}

/// The lines of the first `n` sections: an empty line between sections, then the
/// label, then the explanation.
pub open spec fn flat_count(sections: Seq<HelpSectionV>, n: nat) -> nat
    decreases n,
{
    if n == 0 || n > sections.len() {
        0
    } else {
        flat_count(sections, (n - 1) as nat) + (if n > 1 {
            1nat
        } else {
            0nat
        }) + 1 + sections[n - 1].lines.len()
    }
}

/// The explanation's lines, indented under the label.
pub open spec fn explanation_rows(lines: Seq<&'static str>, n: nat) -> RowsV
    decreases n,
{
    if n == 0 || n > lines.len() {
        Seq::empty()
    } else {
        explanation_rows(lines, (n - 1) as nat).push(
            if lines[n - 1]@.len() == 0 {
                Seq::empty()
            } else {
                seq![sp("      "@ + lines[n - 1]@, fg(Tone::Text))]
            },
        )
    }
}

/// The first `n` sections as lines of text.
pub open spec fn help_rows(sections: Seq<HelpSectionV>, n: nat) -> RowsV
    decreases n,
{
    if n == 0 || n > sections.len() {
        Seq::empty()
    } else {
        help_rows(sections, (n - 1) as nat) + row_if(n > 1, Seq::empty()) + seq![
            seq![sp("  "@ + sections[n - 1].label@, bold_fg(Tone::Green))],
        ] + explanation_rows(sections[n - 1].lines, sections[n - 1].lines.len())
    }
}

fn explanation_lines(lines: &Vec<&'static str>) -> (r: Rows)
    ensures
        r@ == explanation_rows(lines@, lines@.len()),
{
    let mut rows = Rows::new();
    for i in 0..lines.len()
        invariant
            rows@ == explanation_rows(lines@, i as nat),
    {
        if lines[i].is_empty() {
            rows.push(Line::new());
        } else {
            rows.push(line1(cat2("      ", lines[i]).as_str(), fg(Tone::Text)));
        }
    }
    rows
}

/// The help of a format as lines of text.
pub open spec fn all_help_rows(kind: FormatSettingsKind) -> RowsV {
    help_rows(help_sections(kind), help_sections(kind).len())
}

/// The help of a format as lines of text.
pub fn help_lines(kind: &FormatSettingsKind) -> (r: Rows)
    ensures
        r@ == all_help_rows(*kind),
{
    let content = format_settings_help_content(kind);
    let ghost sections = help_sections(*kind);
    let mut rows = Rows::new();
    for i in 0..content.len()
        invariant
            sections == sections_view(content@),
            rows@ == help_rows(sections, i as nat),
    {
        rows.push_if(i > 0, Line::new());
        rows.append(
            Rows::of(line1(cat2("  ", content[i].label).as_str(), bold_fg(Tone::Green))),
        );
        rows.append(explanation_lines(&content[i].lines));
        proof {
            assert(sections[i as int] == content@[i as int]@);
        }
    }
    rows
}

/// Every format has at most ten settings, each explained in at most twenty lines.
proof fn lemma_help_is_short(kind: FormatSettingsKind)
    ensures
        help_sections(kind).len() <= 10,
        forall|i: int|
            0 <= i < help_sections(kind).len() ==> (#[trigger] help_sections(kind)[i]).lines.len()
                <= 20,
{
}

/// The number of lines of the help of a format.
pub fn format_settings_help_line_count(kind: &FormatSettingsKind) -> (r: usize)
    ensures
        r == all_help_rows(*kind).len(),
{
    let content = format_settings_help_content(kind);
    let ghost sections = help_sections(*kind);
    proof {
        lemma_help_is_short(*kind);
        lemma_help_rows_len(sections, sections.len());
    }
    let mut count: usize = 0;
    for i in 0..content.len()
        invariant
            sections == help_sections(*kind),
            sections == sections_view(content@),
            sections.len() <= 10,
            forall|j: int|
                0 <= j < sections.len() ==> (#[trigger] sections[j]).lines.len() <= 20,
            count == flat_count(sections, i as nat),
            count <= 22 * i,
    {
        proof {
            assert(sections[i as int] == content@[i as int]@);
        }
        if i > 0 {
            count += 1;
        }
        count += 1;
        count += content[i].lines.len();
    }
    count
}

proof fn lemma_explanation_len(lines: Seq<&'static str>, n: nat)
    requires
        n <= lines.len(),
    ensures
        explanation_rows(lines, n).len() == n,
    decreases n,
{
    if n > 0 {
        lemma_explanation_len(lines, (n - 1) as nat);
    }
}

/// The counted lines are the lines shown.
proof fn lemma_help_rows_len(sections: Seq<HelpSectionV>, n: nat)
    requires
        n <= sections.len(),
    ensures
        help_rows(sections, n).len() == flat_count(sections, n),
    decreases n,
{
    if n > 0 {
        lemma_help_rows_len(sections, (n - 1) as nat);
        lemma_explanation_len(sections[n - 1].lines, sections[n - 1].lines.len());
    }
}

} // verus!
