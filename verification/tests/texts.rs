use tonepoet_tui::display_width::{pad_or_truncate, truncate_left, truncate_right, width};
use tonepoet_tui::dr_report::{
    codec_name, detect_codec, dr_groups, format_dr_reports, format_one_report, DrFile,
};
use tonepoet_tui::geometry::{centered_rect, Rect};
use tonepoet_tui::inline_edit::TextInputState;
use tonepoet_tui::layout::{split, Constraint, Direction};
use tonepoet_tui::path::{extension, file_name, file_name_or_path, file_stem_or_empty, parent};
use tonepoet_tui::path_order::{compare_paths, components_of, Place};
use tonepoet_tui::reports::AnalysisResult;
use tonepoet_tui::size::{format_size_estimate, size_str};
use tonepoet_tui::text::{dec_i32, dec_signed, hex, same_ignoring_case, split_lines, trim};

fn area(x: u16, y: u16, width: u16, height: u16) -> Rect {
    Rect { x, y, width, height }
}

#[test]
fn sizes_are_worded_as_floats_round_them() {
    let cases = [
        0u64,
        1,
        1023,
        1024,
        1536,
        1_048_575,
        1_048_576,
        12_345_678,
        1_073_741_823,
        1_073_741_824,
        12_400_000_000,
        14_100_000_000,
        u64::MAX,
        u64::MAX / 3,
        (1 << 53) + 1,
    ];
    for bytes in cases {
        let b = bytes as f64;
        let expected = if b >= 1_073_741_824.0 {
            format!("{:.1} GB", b / 1_073_741_824.0)
        } else if b >= 1_048_576.0 {
            format!("{:.1} MB", b / 1_048_576.0)
        } else if b >= 1024.0 {
            format!("{:.1} KB", b / 1024.0)
        } else {
            format!("{} B", bytes)
        };
        assert_eq!(size_str(bytes), expected, "{bytes}");
    }
    assert_eq!(size_str(1536), "1.5 KB");
}

#[test]
fn estimates_are_worded_as_floats_round_them() {
    for bytes in [0u64, 1023, 1024, 1536, 2560, 1_572_864, 2_621_440, 5_905_580_032, u64::MAX] {
        let expected = if bytes >= 1_073_741_824 {
            format!("~{:.1} GB", bytes as f64 / 1_073_741_824f64)
        } else if bytes >= 1_048_576 {
            format!("~{:.0} MB", bytes as f64 / 1_048_576f64)
        } else if bytes >= 1_024 {
            format!("~{:.0} KB", bytes as f64 / 1_024f64)
        } else {
            format!("~{} B", bytes)
        };
        assert_eq!(format_size_estimate(bytes), expected, "{bytes}");
    }
}

#[test]
fn widths_count_columns() {
    assert_eq!(width("abc"), 3);
    assert_eq!(width("日本"), 4);
    assert_eq!(width("e\u{301}"), 1);
    assert_eq!(truncate_right("日本語", 5), "日本…");
    assert_eq!(truncate_left("/music/album", 6), "…album");
    assert_eq!(pad_or_truncate("日本", 6, true), "  日本");
    assert_eq!(pad_or_truncate("日本", 3, false), "日…");
}

#[test]
fn white_space_is_that_of_unicode() {
    let white = |c: char| {
        matches!(c, '\u{9}'..='\u{d}' | ' ' | '\u{85}' | '\u{a0}' | '\u{1680}')
            || matches!(c, '\u{2000}'..='\u{200a}' | '\u{2028}' | '\u{2029}' | '\u{202f}')
            || matches!(c, '\u{205f}' | '\u{3000}')
    };
    for c in '\0'..=char::MAX {
        assert_eq!(trim(c.encode_utf8(&mut [0; 4])).is_empty(), white(c), "{c:?}");
    }
}

#[test]
fn text_is_trimmed_by_unicode_white_space() {
    assert_eq!(trim("\u{3000} a b\t\n"), "a b");
    assert_eq!(trim(" \u{2003}"), "");
    assert!(same_ignoring_case("AlWays", "always"));
    assert!(!same_ignoring_case("alway", "always"));
}

#[test]
fn lines_end_at_feeds_with_or_without_returns() {
    assert_eq!(split_lines("a\r\nb\n\nc").items, "a\r\nb\n\nc".lines().collect::<Vec<_>>());
    assert_eq!(split_lines("a\n").items, vec!["a"]);
    assert!(split_lines("").items.is_empty());
}

#[test]
fn numbers_are_spelled_as_the_formatter_spells_them() {
    for n in [0, 1, -1, 42, i32::MIN, i32::MAX] {
        assert_eq!(dec_i32(n), format!("{}", n));
        assert_eq!(dec_signed(n), format!("{:+}", n));
    }
    for n in [0u32, 1, 0xabcdef, u32::MAX] {
        assert_eq!(hex(n, 8), format!("{:08X}", n));
    }
}

#[test]
fn paths_are_taken_apart_as_std_does() {
    for path in [
        "", "/", ".", "..", "a", "a/", "a/b", "/a", "/a/b.flac", "a//b", "a/./b", "./a", "../a", "a/..",
        "/a/.", "//a", ".hidden", "a.tar.gz", "dir.d/file", "/./a", "a/.b.c", "trailing.",
    ] {
        let std_path = std::path::Path::new(path);
        assert_eq!(file_name(path).as_deref(), std_path.file_name().and_then(|n| n.to_str()), "{path}");
        assert_eq!(parent(path).as_deref(), std_path.parent().and_then(|p| p.to_str()), "{path}");
        assert_eq!(
            file_stem_or_empty(path),
            std_path.file_stem().and_then(|n| n.to_str()).unwrap_or(""),
            "{path}"
        );
        assert_eq!(extension(path).as_deref(), std_path.extension().and_then(|n| n.to_str()), "{path}");
    }
    assert_eq!(file_name_or_path("/"), "/");
}

#[test]
fn paths_are_ordered_as_std_orders_them() {
    let paths = ["", "/", ".", "..", "a", "a/b", "a b", "a-b/c", "/a", "./a", "b", "a//b", "日本", "A"];
    for a in paths {
        for b in paths {
            let std_order = std::path::Path::new(a).cmp(std::path::Path::new(b));
            let expected = match std_order {
                std::cmp::Ordering::Less => Place::Before,
                std::cmp::Ordering::Equal => Place::Same,
                std::cmp::Ordering::Greater => Place::Behind,
            };
            assert_eq!(compare_paths(&components_of(a), &components_of(b)), expected, "{a} {b}");
        }
    }
}

#[test]
fn layouts_give_every_part_its_wish() {
    let parts = split(
        Direction::Vertical,
        &vec![Constraint::Length(7), Constraint::Length(5), Constraint::Min(10), Constraint::Length(2)],
        area(3, 4, 80, 40),
    );
    assert_eq!(
        parts,
        vec![area(3, 4, 80, 7), area(3, 11, 80, 5), area(3, 16, 80, 26), area(3, 42, 80, 2)]
    );
    let tight = split(
        Direction::Vertical,
        &vec![Constraint::Min(1), Constraint::Length(1)],
        area(0, 0, 10, 1),
    );
    assert_eq!(tight.len(), 2);
    assert!(tight[0].bottom() <= tight[1].y);
    assert!(tight[1].bottom() <= 1);
}

#[test]
fn every_small_layout_is_in_order_and_inside() {
    let wishes = [
        Constraint::Length(0),
        Constraint::Length(4),
        Constraint::Min(3),
        Constraint::Percentage(30),
        Constraint::Ratio(1, 3),
    ];
    for a in wishes {
        for b in wishes {
            for c in wishes {
                for size in 0..12 {
                    let whole = area(2, 5, size, 3);
                    let parts = split(Direction::Horizontal, &vec![a, b, c], whole);
                    assert_eq!(parts.len(), 3);
                    let mut x = whole.x;
                    for part in &parts {
                        assert!(part.x >= x, "{a:?} {b:?} {c:?} {size}");
                        assert_eq!((part.y, part.height), (5, 3));
                        x = part.right();
                    }
                    assert!(x <= whole.right(), "{a:?} {b:?} {c:?} {size}");
                }
            }
        }
    }
}

#[test]
fn wishes_that_fit_are_met_exactly() {
    for flexible in 0..5usize {
        for sizes in [[0u16, 0, 0, 0], [1, 2, 3, 4], [7, 1, 0, 2], [3, 0, 5, 1], [0, 1, 0, 0]] {
            let wishes: Vec<Constraint> = (0..4)
                .map(|i| {
                    if i == flexible {
                        Constraint::Min(sizes[i])
                    } else {
                        Constraint::Length(sizes[i])
                    }
                })
                .collect();
            let total: u16 = sizes.iter().sum();
            for spare in [0u16, 1, 7, 60] {
                let whole = area(5, 9, total + spare, 3);
                let parts = split(Direction::Horizontal, &wishes, whole);
                let mut x = 5;
                for i in 0..4 {
                    let w = sizes[i] + if i == flexible { spare } else { 0 };
                    assert_eq!(parts[i], area(x, 9, w, 3), "{wishes:?} {spare}");
                    x += w;
                }
            }
        }
    }
}

#[test]
fn popups_are_held_to_the_screen() {
    assert_eq!(centered_rect(50, 9, area(0, 0, 80, 24)), area(15, 7, 50, 9));
    assert_eq!(centered_rect(50, 9, area(2, 1, 20, 5)), area(2, 1, 20, 5));
}

#[test]
fn text_fields_scroll_to_their_cursor() {
    let mut input = TextInputState {
        text: "abcdefghij".to_string(),
        cursor: 10,
        selection_anchor: None,
    };
    assert_eq!(input.view(4), ("hij".to_string(), 3));
    input.cursor = 2;
    assert_eq!(input.view(4), ("abcd".to_string(), 2));
}

fn analysis(path: &str, dr_value: i32) -> AnalysisResult {
    AnalysisResult {
        path: path.to_string(),
        dr_value,
        dr_label: String::new(),
        peak_db: String::new(),
        rms_db: String::new(),
        peak_db_fine: "-0.31".to_string(),
        rms_db_fine: "-14.22".to_string(),
        duration_secs: 245,
        sample_rate: 44_100,
        channels: 2,
        clipping_count: 0,
        dc_bias: String::new(),
        dc_bias_significant: false,
        actual_bit_depth: 16,
        declared_bit_depth: None,
        lufs: None,
        true_peak_dbtp: None,
        preemphasis: None,
        preemphasis_detail: None,
        hdcd_detected: None,
        hdcd_detail: None,
    }
}

fn file(artist: Option<&str>, album: Option<&str>) -> DrFile {
    DrFile {
        artist: artist.map(|s| s.to_string()),
        album: album.map(|s| s.to_string()),
        folder_kbps: 912,
    }
}

#[test]
fn reports_are_grouped_by_directory_in_path_order() {
    let results = vec![
        analysis("/music/b/1.flac", 10),
        analysis("/music/a b/1.flac", 11),
        analysis("/music//b/2.flac", 13),
        analysis("/music/a/x/1.flac", 9),
        analysis("loose.wav", 8),
    ];
    let groups = dr_groups(&results);
    assert_eq!(
        groups.iter().map(|g| (g.dir.as_str(), g.members.clone())).collect::<Vec<_>>(),
        vec![
            ("", vec![4]),
            ("/music/a/x", vec![3]),
            ("/music/a b", vec![1]),
            ("/music/b", vec![0, 2]),
        ]
    );
    let files: Vec<DrFile> = (0..5).map(|_| file(None, None)).collect();
    let reports = format_dr_reports(&results, &files, "2024-01-02 03:04:05");
    assert_eq!(reports.len(), 4);
    assert_eq!(reports[3].dir, "/music/b");
    assert!(reports[3].text.contains("Analyzed: b\n"));
    assert!(reports[3].text.contains("Official DR value: DR12\n"));
    assert!(reports[0].text.contains("Analyzed: Unknown\n"));
    assert!(format_dr_reports(&Vec::new(), &Vec::new(), "now").is_empty());
}

#[test]
fn a_report_has_its_exact_layout() {
    let results = vec![analysis("/m/set/01 Intro.FLAC", 7), analysis("/m/set/02 Song.flac", 12)];
    let files = vec![file(Some("Band"), Some("Record")), file(None, None)];
    let text = format_one_report(&results, &files, &vec![0, 1], "2024-01-02 03:04:05");
    let dashes = "-".repeat(80);
    let expected = format!(
        "tonepoet / Dynamic Range Meter\nlog date: 2024-01-02 03:04:05\n\n{dashes}\n\
         Analyzed: Band / Record\n{dashes}\n\n\
         DR         Peak         RMS     Duration Track\n{dashes}\n\
         DR7       -0.31 dB    -14.22 dB     4:05 01 Intro\n\
         DR12      -0.31 dB    -14.22 dB     4:05 02 Song\n\
         {dashes}\n\nNumber of tracks:  2\nOfficial DR value: DR10\n\n\
         Samplerate:        44100 Hz\nChannels:          2\nBits per sample:   16\n\
         Bitrate:           912 kbps\nCodec:             FLAC\n{}\n",
        "=".repeat(80)
    );
    assert_eq!(text, expected);
}

#[test]
fn the_official_value_rounds_halves_away_from_zero() {
    for (a, b, mean) in [(7, 8, 8), (-7, -8, -8), (7, 7, 7), (-1, 0, -1), (0, 1, 1)] {
        let results = vec![analysis("/m/1.wav", a), analysis("/m/2.wav", b)];
        let files = vec![file(Some("A"), None), file(None, None)];
        let text = format_one_report(&results, &files, &vec![0, 1], "now");
        assert!(text.contains(&format!("Official DR value: DR{mean}\n")), "{a} {b}");
        assert_eq!(((a as f64 + b as f64) / 2.0).round() as i32, mean);
    }
}

#[test]
fn codecs_are_named_by_extension() {
    assert_eq!(detect_codec("/m/a.FLAC"), "FLAC");
    assert_eq!(detect_codec("/m/a.Aif"), "AIFF");
    assert_eq!(detect_codec("/m/a.wv"), "WavPack");
    assert_eq!(detect_codec("/m/a.ogg"), "Ogg Vorbis");
    assert_eq!(detect_codec("/m/a.M4A"), "AAC");
    assert_eq!(detect_codec("/m/a.tak"), "TAK");
    assert_eq!(detect_codec("/m/a.straße"), "STRASSE");
    assert_eq!(detect_codec("/m/noext"), "");
    assert_eq!(codec_name("dsf", "x"), "DSF");
    assert_eq!(codec_name("xyz", "XYZ"), "XYZ");
}
