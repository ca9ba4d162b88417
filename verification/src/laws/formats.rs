//! The settings of the encoders and resamplers: every field shows its own setting.

use crate::format_settings::{
    aac_fields, choice_scene, choice_spans, entry_scene, flac_fields, mp3_fields, opus_fields,
    settings_fields, settings_scene, sox_fields, soxr_fields, ssrc_fields, toggle_hits,
    toggle_scene, wavpack_fields, AacProfile, ChoiceField, EntryField, FormatSettingsFocus,
    FormatSettingsKind, Mp3Mode, OpusContentType, SoxSincPhase, SsrcPdfType, ToggleField,
    WavPackMode, AAC_PRESETS, AAC_PROFILES, MP3_BITRATE_PRESETS, MP3_MODES, OPUS_PRESETS,
    OPUS_TYPES, SINC_PHASES, SSRC_PDFS, WAVPACK_MODES,
};
use crate::geometry::Rect;
use crate::inline_edit::TextInputState;
use crate::scene::SceneV;
use vstd::prelude::*;

verus! {

/// The step at `at` paints in `area` the label, and behind it the text of the input, where that
/// is not empty and fits.
pub open spec fn entry_at(
    scene: SceneV,
    at: int,
    area: Rect,
    label: Seq<char>,
    input: TextInputState,
) -> bool {
    &&& 0 <= at < scene.len()
    &&& scene[at] is Text
    &&& scene[at]->Text_area == area
    &&& scene[at]->Text_rows[0][0].text == label
    &&& (0 < input.text@.len() < area.width - 24 ==> scene[at]->Text_rows[0][1].text == " "@
        + input.text@ + " "@)
}

/// The step at `at` paints in `area` the label and a switch: the word for its state is marked,
/// unless it has no effect.
pub open spec fn switch_at(
    scene: SceneV,
    at: int,
    area: Rect,
    label: Seq<char>,
    value: bool,
    idle: bool,
) -> bool {
    let line = scene[at]->Text_rows[0];
    &&& 0 <= at < scene.len()
    &&& scene[at] is Text
    &&& scene[at]->Text_area == area
    &&& line.len() == 4
    &&& line[0].text == label
    &&& ((line[1].text == " on "@ && line[3].text == " off "@ && (line[1].style.bold <==> value
        && !idle) && (line[3].style.bold <==> !value && !idle)) || (line[1].text == " off "@
        && line[3].text == " on "@ && (line[3].style.bold <==> value && !idle) && (
    line[1].style.bold <==> !value && !idle)))
}

/// The step at `at` paints in `area` the label and all choices in order; the one selected alone is
/// marked, unless the choice has no effect.
pub open spec fn choice_at(
    scene: SceneV,
    at: int,
    area: Rect,
    label: Seq<char>,
    labels: Seq<&'static str>,
    selected: Option<usize>,
    idle: bool,
) -> bool {
    let line = scene[at]->Text_rows[0];
    &&& 0 <= at < scene.len()
    &&& scene[at] is Text
    &&& scene[at]->Text_area == area
    &&& line[0].text == label
    &&& line.len() == 2 * labels.len()
    &&& forall|i: int|
        0 <= i < labels.len() ==> (#[trigger] line[1 + 2 * i]).text == " "@ + labels[i]@ + " "@ && (
        line[1 + 2 * i].style.bold <==> !idle && selected == Some(i as usize))
}

proof fn lemma_entry(field: EntryField, area: Rect)
    requires
        field.reserve <= 24,
    ensures
        entry_at(entry_scene(field, area), 0, area, field.label@, *field.input),
        entry_scene(field, area).len() == if field.focused && !field.greyed { 2int } else { 1 },
{
    if 0 < field.input.text@.len() < area.width - 24 {
        let w = crate::format_settings::value_columns(field, area);
        assert(field.input.window(w) =~= field.input.text@);
    }
}

proof fn lemma_spans(field: ChoiceField, labels: Seq<&'static str>, n: nat)
    requires
        n <= labels.len(),
        labels.len() <= usize::MAX,
    ensures
        choice_spans(field, labels, n).len() == if n < labels.len() || n == 0 {
            2 * n as int
        } else {
            2 * n - 1
        },
        forall|i: int|
            0 <= i < n ==> (#[trigger] choice_spans(field, labels, n)[2 * i]).text == " "@
                + labels[i]@ + " "@ && (choice_spans(field, labels, n)[2 * i].style.bold
                <==> !field.greyed && field.selected == Some(i as usize)),
    decreases n,
{
    if n > 0 {
        lemma_spans(field, labels, (n - 1) as nat);
        let front = choice_spans(field, labels, (n - 1) as nat);
        let all = choice_spans(field, labels, n);
        assert forall|i: int| 0 <= i < n implies (#[trigger] all[2 * i]).text == " "@ + labels[i]@
            + " "@ && (all[2 * i].style.bold <==> !field.greyed && field.selected == Some(
            i as usize,
        )) by {
            if i < n - 1 {
                assert(all[2 * i] == front[2 * i]);
            }
        }
    }
}

proof fn lemma_choice(field: ChoiceField, labels: Seq<&'static str>, area: Rect)
    requires
        0 < labels.len() <= usize::MAX,
    ensures
        choice_at(
            choice_scene(field, labels, area),
            0,
            area,
            field.label@,
            labels,
            field.selected,
            field.greyed,
        ),
{
    lemma_spans(field, labels, labels.len());
    let spans = choice_spans(field, labels, labels.len());
    let line = choice_scene(field, labels, area)[0]->Text_rows[0];
    assert forall|i: int| 0 <= i < labels.len() implies (#[trigger] line[1 + 2 * i]).text == " "@
        + labels[i]@ + " "@ && (line[1 + 2 * i].style.bold <==> !field.greyed && field.selected
        == Some(i as usize)) by {
        assert(line[1 + 2 * i] == spans[2 * i]);
    }
}

/// A switch is clicked where its words are drawn, the first word with its first choice, unless it
/// has no effect.
pub proof fn switch_is_clicked_where_it_is_drawn(field: ToggleField, area: Rect)
    requires
        area.x + field.offset + 10 <= u16::MAX,
        field.offset == field.label@.len(),
    ensures
        ({
            let line = toggle_scene(field, area)[0]->Text_rows[0];
            let hits = toggle_hits(field, area);
            &&& (field.greyed ==> hits.len() == 0)
            &&& (!field.greyed ==> {
                &&& hits.len() == 2
                &&& hits[0].1.x == area.x + line[0].text.len()
                &&& hits[0].1.width == line[1].text.len()
                &&& hits[1].1.x == area.x + line[0].text.len() + line[1].text.len()
                    + line[2].text.len()
                &&& hits[1].1.width == line[3].text.len()
                &&& hits[0].1.y == area.y && hits[1].1.y == area.y
            })
        }),
{
    reveal_strlit(" on ");
    reveal_strlit(" off ");
    reveal_strlit(" ");
}

/// The steps that a field takes: one, or two with the cursor.
pub open spec fn steps(with_cursor: bool) -> int {
    if with_cursor {
        2
    } else {
        1
    }
}

/// FLAC: compression, verification and checksum each on their row.
pub proof fn flac_settings_are_on_their_rows(
    compression: &TextInputState,
    verify: bool,
    md5: bool,
    focus: FormatSettingsFocus,
    chunks: Seq<Rect>,
)
    ensures
        ({
            let scene = flac_fields(compression, verify, md5, focus, chunks).0;
            let a = steps(focus == FormatSettingsFocus::Compression);
            &&& entry_at(scene, 0, chunks[1], "  compression  "@, *compression)
            &&& switch_at(scene, a, chunks[2], "  verify       "@, verify, false)
            &&& switch_at(scene, a + 1, chunks[3], "  md5 checksum "@, md5, false)
        }),
{
    let entry = EntryField {
        label: "  compression  ",
        input: compression,
        suffix: "",
        reserve: 16,
        offset: 16,
        placeholder: " ",
        focused: focus == FormatSettingsFocus::Compression,
        greyed: false,
    };
    lemma_entry(entry, chunks[1]);
    let scene = flac_fields(compression, verify, md5, focus, chunks).0;
    assert(scene[0] == entry_scene(entry, chunks[1])[0]);
}

/// AAC: profile, quality and bitrate each on their row.
pub proof fn aac_settings_are_on_their_rows(
    profile: AacProfile,
    quality: Option<usize>,
    bitrate: &TextInputState,
    focus: FormatSettingsFocus,
    chunks: Seq<Rect>,
)
    ensures
        ({
            let scene = aac_fields(profile, quality, bitrate, focus, chunks).0;
            let at = match profile {
                AacProfile::LcAac => 0usize,
                AacProfile::HeAac => 1,
                AacProfile::HeAacV2 => 2,
            };
            &&& choice_at(
                scene,
                0,
                chunks[1],
                "  profile      "@,
                AAC_PROFILES@,
                Some(at),
                false,
            )
            &&& choice_at(
                scene,
                1,
                chunks[2],
                "  quality      "@,
                AAC_PRESETS@,
                quality,
                false,
            )
            &&& entry_at(scene, 2, chunks[3], "  bitrate      "@, *bitrate)
        }),
{
    let profiles = ChoiceField {
        label: "  profile      ",
        selected: Some(crate::format_settings::aac_index(profile)),
        focused: focus == FormatSettingsFocus::AacProfile,
        greyed: false,
        offset: 15,
        group: crate::format_settings::ChoiceGroup::AacProfile,
    };
    let presets = ChoiceField {
        label: "  quality      ",
        selected: quality,
        focused: focus == FormatSettingsFocus::AacQuality,
        greyed: false,
        offset: 15,
        group: crate::format_settings::ChoiceGroup::AacQuality,
    };
    let rate = EntryField {
        label: "  bitrate      ",
        input: bitrate,
        suffix: " kbps",
        reserve: 22,
        offset: 16,
        placeholder: " ",
        focused: focus == FormatSettingsFocus::AacBitrate,
        greyed: false,
    };
    lemma_choice(profiles, AAC_PROFILES@, chunks[1]);
    lemma_choice(presets, AAC_PRESETS@, chunks[2]);
    lemma_entry(rate, chunks[3]);
    let scene = aac_fields(profile, quality, bitrate, focus, chunks).0;
    assert(scene[0] == choice_scene(profiles, AAC_PROFILES@, chunks[1])[0]);
    assert(scene[1] == choice_scene(presets, AAC_PRESETS@, chunks[2])[0]);
    assert(scene[2] == entry_scene(rate, chunks[3])[0]);
}

/// Opus: content, quality, bitrate and complexity each on their row.
pub proof fn opus_settings_are_on_their_rows(
    content: OpusContentType,
    quality: Option<usize>,
    bitrate: &TextInputState,
    complexity: &TextInputState,
    focus: FormatSettingsFocus,
    chunks: Seq<Rect>,
)
    ensures
        ({
            let scene = opus_fields(content, quality, bitrate, complexity, focus, chunks).0;
            let at = match content {
                OpusContentType::Auto => 0usize,
                OpusContentType::Music => 1,
                OpusContentType::Speech => 2,
            };
            &&& choice_at(
                scene,
                0,
                chunks[1],
                "  content type "@,
                OPUS_TYPES@,
                Some(at),
                false,
            )
            &&& choice_at(
                scene,
                1,
                chunks[2],
                "  quality      "@,
                OPUS_PRESETS@,
                quality,
                false,
            )
            &&& entry_at(scene, 2, chunks[3], "  bitrate      "@, *bitrate)
            &&& entry_at(
                scene,
                2 + steps(focus == FormatSettingsFocus::OpusBitrate),
                chunks[4],
                "  complexity   "@,
                *complexity,
            )
        }),
{
    let types = ChoiceField {
        label: "  content type ",
        selected: Some(crate::format_settings::opus_index(content)),
        focused: focus == FormatSettingsFocus::OpusContentType,
        greyed: false,
        offset: 15,
        group: crate::format_settings::ChoiceGroup::OpusContentType,
    };
    let presets = ChoiceField {
        label: "  quality      ",
        selected: quality,
        focused: focus == FormatSettingsFocus::OpusQuality,
        greyed: false,
        offset: 15,
        group: crate::format_settings::ChoiceGroup::OpusQuality,
    };
    let rate = EntryField {
        label: "  bitrate      ",
        input: bitrate,
        suffix: " kbps",
        reserve: 22,
        offset: 16,
        placeholder: " ",
        focused: focus == FormatSettingsFocus::OpusBitrate,
        greyed: false,
    };
    let effort = EntryField {
        label: "  complexity   ",
        input: complexity,
        suffix: "",
        reserve: 16,
        offset: 16,
        placeholder: " ",
        focused: focus == FormatSettingsFocus::OpusComplexity,
        greyed: false,
    };
    lemma_choice(types, OPUS_TYPES@, chunks[1]);
    lemma_choice(presets, OPUS_PRESETS@, chunks[2]);
    lemma_entry(rate, chunks[3]);
    lemma_entry(effort, chunks[4]);
    let scene = opus_fields(content, quality, bitrate, complexity, focus, chunks).0;
    assert(scene[0] == choice_scene(types, OPUS_TYPES@, chunks[1])[0]);
    assert(scene[1] == choice_scene(presets, OPUS_PRESETS@, chunks[2])[0]);
    assert(scene[2] == entry_scene(rate, chunks[3])[0]);
    assert(scene[2 + entry_scene(rate, chunks[3]).len() as int] == entry_scene(
        effort,
        chunks[4],
    )[0]);
}

/// MP3: mode, quality, preset and bitrate each on their row; the quality has effect with a
/// variable bitrate alone, preset and bitrate with any other.
pub proof fn mp3_settings_are_on_their_rows(
    mode: Mp3Mode,
    vbr: &TextInputState,
    quality: Option<usize>,
    bitrate: &TextInputState,
    focus: FormatSettingsFocus,
    chunks: Seq<Rect>,
)
    ensures
        ({
            let scene = mp3_fields(mode, vbr, quality, bitrate, focus, chunks).0;
            let at = match mode {
                Mp3Mode::Vbr => 0usize,
                Mp3Mode::Cbr => 1,
                Mp3Mode::Abr => 2,
            };
            let n = steps(focus == FormatSettingsFocus::Mp3VbrQuality && mode is Vbr);
            &&& choice_at(scene, 0, chunks[1], "  mode         "@, MP3_MODES@, Some(at), false)
            &&& entry_at(scene, 1, chunks[2], "  vbr quality  "@, *vbr)
            &&& choice_at(
                scene,
                1 + n,
                chunks[3],
                "  preset       "@,
                MP3_BITRATE_PRESETS@,
                quality,
                mode is Vbr,
            )
            &&& entry_at(scene, 2 + n, chunks[4], "  bitrate      "@, *bitrate)
        }),
{
    let modes = ChoiceField {
        label: "  mode         ",
        selected: Some(crate::format_settings::mp3_index(mode)),
        focused: focus == FormatSettingsFocus::Mp3Mode,
        greyed: false,
        offset: 15,
        group: crate::format_settings::ChoiceGroup::Mp3Mode,
    };
    let variable = EntryField {
        label: "  vbr quality  ",
        input: vbr,
        suffix: "",
        reserve: 16,
        offset: 16,
        placeholder: " ",
        focused: focus == FormatSettingsFocus::Mp3VbrQuality,
        greyed: mode != Mp3Mode::Vbr,
    };
    let presets = ChoiceField {
        label: "  preset       ",
        selected: quality,
        focused: focus == FormatSettingsFocus::Mp3Preset,
        greyed: mode == Mp3Mode::Vbr,
        offset: 15,
        group: crate::format_settings::ChoiceGroup::Mp3Preset,
    };
    let rate = EntryField {
        label: "  bitrate      ",
        input: bitrate,
        suffix: " kbps",
        reserve: 22,
        offset: 16,
        placeholder: " ",
        focused: focus == FormatSettingsFocus::Mp3Bitrate,
        greyed: mode == Mp3Mode::Vbr,
    };
    lemma_choice(modes, MP3_MODES@, chunks[1]);
    lemma_entry(variable, chunks[2]);
    lemma_choice(presets, MP3_BITRATE_PRESETS@, chunks[3]);
    lemma_entry(rate, chunks[4]);
    let scene = mp3_fields(mode, vbr, quality, bitrate, focus, chunks).0;
    let n = entry_scene(variable, chunks[2]).len() as int;
    assert(scene[0] == choice_scene(modes, MP3_MODES@, chunks[1])[0]);
    assert(scene[1] == entry_scene(variable, chunks[2])[0]);
    assert(scene[1 + n] == choice_scene(presets, MP3_BITRATE_PRESETS@, chunks[3])[0]);
    assert(scene[2 + n] == entry_scene(rate, chunks[4])[0]);
}

/// WavPack: mode, hybrid, bitrate and correction each on their row; bitrate and correction have
/// effect in hybrid mode alone.
pub proof fn wavpack_settings_are_on_their_rows(
    mode: WavPackMode,
    hybrid: bool,
    bitrate: &TextInputState,
    correction: bool,
    focus: FormatSettingsFocus,
    chunks: Seq<Rect>,
)
    ensures
        ({
            let scene = wavpack_fields(mode, hybrid, bitrate, correction, focus, chunks).0;
            let at = match mode {
                WavPackMode::Fast => 0usize,
                WavPackMode::Normal => 1,
                WavPackMode::High => 2,
                WavPackMode::VeryHigh => 3,
            };
            let n = steps(focus == FormatSettingsFocus::WavPackBitrate && hybrid);
            &&& choice_at(
                scene,
                0,
                chunks[1],
                "  mode         "@,
                WAVPACK_MODES@,
                Some(at),
                false,
            )
            &&& switch_at(scene, 1, chunks[2], "  hybrid       "@, hybrid, false)
            &&& entry_at(scene, 2, chunks[3], "  bitrate      "@, *bitrate)
            &&& switch_at(scene, 2 + n, chunks[4], "  correction   "@, correction, !hybrid)
        }),
{
    let modes = ChoiceField {
        label: "  mode         ",
        selected: Some(crate::format_settings::wavpack_index(mode)),
        focused: focus == FormatSettingsFocus::WavPackMode,
        greyed: false,
        offset: 15,
        group: crate::format_settings::ChoiceGroup::WavPackMode,
    };
    let rate = EntryField {
        label: "  bitrate      ",
        input: bitrate,
        suffix: " kbps/ch",
        reserve: 24,
        offset: 16,
        placeholder: " ",
        focused: focus == FormatSettingsFocus::WavPackBitrate,
        greyed: !hybrid,
    };
    lemma_choice(modes, WAVPACK_MODES@, chunks[1]);
    lemma_entry(rate, chunks[3]);
    let scene = wavpack_fields(mode, hybrid, bitrate, correction, focus, chunks).0;
    assert(scene[0] == choice_scene(modes, WAVPACK_MODES@, chunks[1])[0]);
    assert(scene[2] == entry_scene(rate, chunks[3])[0]);
}

/// SSRC: attenuation, phase and dither each on their row.
pub proof fn ssrc_settings_are_on_their_rows(
    attenuation: &TextInputState,
    min_phase: bool,
    pdf: Option<SsrcPdfType>,
    focus: FormatSettingsFocus,
    chunks: Seq<Rect>,
)
    ensures
        ({
            let scene = ssrc_fields(attenuation, min_phase, pdf, focus, chunks).0;
            let n = steps(focus == FormatSettingsFocus::SsrcAttenuation);
            let at = match pdf {
                None => 0usize,
                Some(SsrcPdfType::Rectangular) => 1,
                Some(SsrcPdfType::Triangular) => 2,
            };
            &&& entry_at(scene, 0, chunks[1], "  attenuation    "@, *attenuation)
            &&& switch_at(scene, n, chunks[2], "  min phase      "@, min_phase, false)
            &&& choice_at(
                scene,
                n + 1,
                chunks[3],
                "  dither pdf     "@,
                SSRC_PDFS@,
                Some(at),
                false,
            )
        }),
{
    let entry = EntryField {
        label: "  attenuation    ",
        input: attenuation,
        suffix: " dB",
        reserve: 22,
        offset: 18,
        placeholder: "0",
        focused: focus == FormatSettingsFocus::SsrcAttenuation,
        greyed: false,
    };
    let pdfs = ChoiceField {
        label: "  dither pdf     ",
        selected: Some(crate::format_settings::pdf_index(pdf)),
        focused: focus == FormatSettingsFocus::SsrcPdf,
        greyed: false,
        offset: 17,
        group: crate::format_settings::ChoiceGroup::SsrcPdf,
    };
    lemma_entry(entry, chunks[1]);
    lemma_choice(pdfs, SSRC_PDFS@, chunks[3]);
    let scene = ssrc_fields(attenuation, min_phase, pdf, focus, chunks).0;
    let n = entry_scene(entry, chunks[1]).len() as int;
    assert(scene[0] == entry_scene(entry, chunks[1])[0]);
    assert(scene[n + 1] == choice_scene(pdfs, SSRC_PDFS@, chunks[3])[0]);
}

/// Soxr: ripple, cutoff and phase each on their row.
pub proof fn soxr_settings_are_on_their_rows(
    chebyshev: bool,
    cutoff: &TextInputState,
    phase: &TextInputState,
    focus: FormatSettingsFocus,
    chunks: Seq<Rect>,
)
    ensures
        ({
            let scene = soxr_fields(chebyshev, cutoff, phase, focus, chunks).0;
            &&& switch_at(scene, 0, chunks[1], "  chebyshev       "@, chebyshev, false)
            &&& entry_at(scene, 1, chunks[2], "  nyquist cutoff  "@, *cutoff)
            &&& entry_at(
                scene,
                1 + steps(focus == FormatSettingsFocus::SoxrCutoff),
                chunks[3],
                "  phase           "@,
                *phase,
            )
        }),
{
    let edge = EntryField {
        label: "  nyquist cutoff  ",
        input: cutoff,
        suffix: " %",
        reserve: 20,
        offset: 19,
        placeholder: "95",
        focused: focus == FormatSettingsFocus::SoxrCutoff,
        greyed: false,
    };
    let turn = EntryField {
        label: "  phase           ",
        input: phase,
        suffix: "",
        reserve: 16,
        offset: 19,
        placeholder: "50",
        focused: focus == FormatSettingsFocus::SoxrPhase,
        greyed: false,
    };
    lemma_entry(edge, chunks[2]);
    lemma_entry(turn, chunks[3]);
    let scene = soxr_fields(chebyshev, cutoff, phase, focus, chunks).0;
    let n = entry_scene(edge, chunks[2]).len() as int;
    assert(scene[1] == entry_scene(edge, chunks[2])[0]);
    assert(scene[1 + n] == entry_scene(turn, chunks[3])[0]);
}

/// Sox: ripple, cutoff, phase, aliasing and the settings of its filter each on their row; the
/// cutoff has effect without ripple alone.
#[verifier::rlimit(40)]
pub proof fn sox_settings_are_on_their_rows(
    chebyshev: bool,
    bandwidth: &TextInputState,
    phase: &TextInputState,
    aliasing: bool,
    taps: &TextInputState,
    attenuation: &TextInputState,
    passband: &TextInputState,
    transition: &TextInputState,
    kaiser: &TextInputState,
    sinc: Option<SoxSincPhase>,
    focus: FormatSettingsFocus,
    chunks: Seq<Rect>,
)
    ensures
        ({
            let scene = sox_fields(
                chebyshev,
                bandwidth,
                phase,
                aliasing,
                taps,
                attenuation,
                passband,
                transition,
                kaiser,
                sinc,
                focus,
                chunks,
            ).0;
            let at = match sinc {
                None => None,
                Some(SoxSincPhase::Linear) => Some(0usize),
                Some(SoxSincPhase::Minimum) => Some(1),
                Some(SoxSincPhase::Intermediate) => Some(2),
            };
            let a = 1 + steps(focus == FormatSettingsFocus::SoxBandwidth && !chebyshev);
            let b = a + steps(focus == FormatSettingsFocus::SoxPhase);
            let c = b + 2 + steps(focus == FormatSettingsFocus::SoxSincTaps);
            let d = c + steps(focus == FormatSettingsFocus::SoxSincAttenuation);
            let e = d + steps(focus == FormatSettingsFocus::SoxSincPassband);
            let f = e + steps(focus == FormatSettingsFocus::SoxSincTransition);
            let g = f + steps(focus == FormatSettingsFocus::SoxSincKaiserBeta);
            &&& switch_at(scene, 0, chunks[1], "  chebyshev       "@, chebyshev, false)
            &&& entry_at(scene, 1, chunks[2], "  nyquist cutoff  "@, *bandwidth)
            &&& entry_at(scene, a, chunks[3], "  phase           "@, *phase)
            &&& switch_at(scene, b, chunks[4], "  aliasing        "@, aliasing, false)
            &&& entry_at(scene, b + 2, chunks[7], "  taps            "@, *taps)
            &&& entry_at(scene, c, chunks[8], "  attenuation     "@, *attenuation)
            &&& entry_at(scene, d, chunks[9], "  passband        "@, *passband)
            &&& entry_at(scene, e, chunks[10], "  transition      "@, *transition)
            &&& entry_at(scene, f, chunks[11], "  kaiser beta     "@, *kaiser)
            &&& choice_at(
                scene,
                g,
                chunks[12],
                "  sinc phase      "@,
                SINC_PHASES@,
                at,
                false,
            )
        }),
{
    let edge = EntryField {
        label: "  nyquist cutoff  ",
        input: bandwidth,
        suffix: " %",
        reserve: 22,
        offset: 19,
        placeholder: "95",
        focused: focus == FormatSettingsFocus::SoxBandwidth,
        greyed: chebyshev,
    };
    let turn = EntryField {
        label: "  phase           ",
        input: phase,
        suffix: "",
        reserve: 19,
        offset: 19,
        placeholder: "50",
        focused: focus == FormatSettingsFocus::SoxPhase,
        greyed: false,
    };
    let count = EntryField {
        label: "  taps            ",
        input: taps,
        suffix: "",
        reserve: 22,
        offset: 19,
        placeholder: " ",
        focused: focus == FormatSettingsFocus::SoxSincTaps,
        greyed: false,
    };
    let damping = EntryField {
        label: "  attenuation     ",
        input: attenuation,
        suffix: " dB",
        reserve: 22,
        offset: 19,
        placeholder: " ",
        focused: focus == FormatSettingsFocus::SoxSincAttenuation,
        greyed: false,
    };
    let band = EntryField {
        label: "  passband        ",
        input: passband,
        suffix: " Hz",
        reserve: 22,
        offset: 19,
        placeholder: " ",
        focused: focus == FormatSettingsFocus::SoxSincPassband,
        greyed: false,
    };
    let slope = EntryField {
        label: "  transition      ",
        input: transition,
        suffix: " Hz",
        reserve: 22,
        offset: 19,
        placeholder: " ",
        focused: focus == FormatSettingsFocus::SoxSincTransition,
        greyed: false,
    };
    let beta = EntryField {
        label: "  kaiser beta     ",
        input: kaiser,
        suffix: "",
        reserve: 22,
        offset: 19,
        placeholder: " ",
        focused: focus == FormatSettingsFocus::SoxSincKaiserBeta,
        greyed: false,
    };
    let phases = ChoiceField {
        label: "  sinc phase      ",
        selected: crate::format_settings::sinc_index(sinc),
        focused: focus == FormatSettingsFocus::SoxSincPhase,
        greyed: false,
        offset: 18,
        group: crate::format_settings::ChoiceGroup::SoxSincPhase,
    };
    lemma_entry(edge, chunks[2]);
    lemma_entry(turn, chunks[3]);
    lemma_entry(count, chunks[7]);
    lemma_entry(damping, chunks[8]);
    lemma_entry(band, chunks[9]);
    lemma_entry(slope, chunks[10]);
    lemma_entry(beta, chunks[11]);
    lemma_choice(phases, SINC_PHASES@, chunks[12]);
    let scene = sox_fields(
        chebyshev,
        bandwidth,
        phase,
        aliasing,
        taps,
        attenuation,
        passband,
        transition,
        kaiser,
        sinc,
        focus,
        chunks,
    ).0;
    let a = 1 + entry_scene(edge, chunks[2]).len() as int;
    let b = a + entry_scene(turn, chunks[3]).len() as int;
    let c = b + 2 + entry_scene(count, chunks[7]).len() as int;
    let d = c + entry_scene(damping, chunks[8]).len() as int;
    let e = d + entry_scene(band, chunks[9]).len() as int;
    let f = e + entry_scene(slope, chunks[10]).len() as int;
    let g = f + entry_scene(beta, chunks[11]).len() as int;
    assert(scene[1] == entry_scene(edge, chunks[2])[0]);
    assert(scene[a] == entry_scene(turn, chunks[3])[0]);
    assert(scene[b + 2] == entry_scene(count, chunks[7])[0]);
    assert(scene[c] == entry_scene(damping, chunks[8])[0]);
    assert(scene[d] == entry_scene(band, chunks[9])[0]);
    assert(scene[e] == entry_scene(slope, chunks[10])[0]);
    assert(scene[f] == entry_scene(beta, chunks[11])[0]);
    assert(scene[g] == choice_scene(phases, SINC_PHASES@, chunks[12])[0]);
}

/// The dialog of a format has its fields between its box, with the format's name, and the footer,
/// each field with its own setting.
pub proof fn every_format_has_its_own_fields(
    kind: FormatSettingsKind,
    focus: FormatSettingsFocus,
    popup: Rect,
    chunks: Seq<Rect>,
)
    ensures
        ({
            let scene = settings_scene(kind, focus, popup, chunks);
            let fields = scene.subrange(2, scene.len() - 1);
            let title = scene[1]->Frame_title[0].text;
            &&& (kind matches FormatSettingsKind::Flac { compression_input, verify, md5 } ==> title
                == " FLAC Settings "@ && fields == flac_fields(
                &compression_input,
                verify,
                md5,
                focus,
                chunks,
            ).0)
            &&& (kind matches FormatSettingsKind::Aac { profile, quality_preset, bitrate_input }
                ==> title == " AAC Settings "@ && fields == aac_fields(
                profile,
                quality_preset,
                &bitrate_input,
                focus,
                chunks,
            ).0)
            &&& (kind matches FormatSettingsKind::Opus {
                content_type,
                quality_preset,
                bitrate_input,
                complexity_input,
            } ==> title == " Opus Settings "@ && fields == opus_fields(
                content_type,
                quality_preset,
                &bitrate_input,
                &complexity_input,
                focus,
                chunks,
            ).0)
            &&& (kind matches FormatSettingsKind::Mp3 {
                mode,
                vbr_quality_input,
                quality_preset,
                bitrate_input,
            } ==> title == " MP3 Settings "@ && fields == mp3_fields(
                mode,
                &vbr_quality_input,
                quality_preset,
                &bitrate_input,
                focus,
                chunks,
            ).0)
            &&& (kind matches FormatSettingsKind::WavPack {
                mode,
                hybrid,
                bitrate_input,
                correction,
            } ==> title == " WavPack Settings "@ && fields == wavpack_fields(
                mode,
                hybrid,
                &bitrate_input,
                correction,
                focus,
                chunks,
            ).0)
            &&& (kind matches FormatSettingsKind::Ssrc { attenuation_input, min_phase, pdf_type }
                ==> title == " SSRC Settings "@ && fields == ssrc_fields(
                &attenuation_input,
                min_phase,
                pdf_type,
                focus,
                chunks,
            ).0)
            &&& (kind matches FormatSettingsKind::Soxr { chebyshev, cutoff_input, phase_input }
                ==> title == " Soxr Settings "@ && fields == soxr_fields(
                chebyshev,
                &cutoff_input,
                &phase_input,
                focus,
                chunks,
            ).0)
        }),
{
    let scene = settings_scene(kind, focus, popup, chunks);
    assert(scene.subrange(2, scene.len() - 1) =~= settings_fields(kind, focus, chunks).0);
}

} // verus!
