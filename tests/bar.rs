use system_monitor::text::{decimal_string, pad_left_string, ratio_string};
use system_monitor::ui::{calculate_banded_bar, calculate_progress_bar, color_band, layout_bar, Band};

#[test]
fn empty_bar_is_all_spaces() {
    let r = calculate_progress_bar(20, "A[", 0, 100, "]", "#");
    assert_eq!(r, format!("A[{}]", " ".repeat(17)));
    assert_eq!(r.len(), 20);
}

#[test]
fn empty_bar_various_widths() {
    for w in 5u16..40 {
        let r = calculate_progress_bar(w, "CPU[", 0, 7, "]", "#");
        assert_eq!(r.len(), w as usize);
        assert!(r[4..r.len() - 1].chars().all(|c| c == ' '));
    }
}

#[test]
fn full_bar_is_all_glyphs() {
    let r = calculate_progress_bar(20, "A[", 100, 100, "]", "#");
    assert_eq!(r, format!("A[{}]", "#".repeat(17)));
}

#[test]
fn full_bar_with_wide_glyph_leaves_remainder() {
    // 17 free columns, glyph two columns wide: 8 glyphs and one space.
    let r = calculate_progress_bar(20, "A[", 5, 5, "]", "\u{1F431}");
    assert_eq!(r, format!("A[{} ]", "\u{1F431}".repeat(8)));
}

#[test]
fn half_bar() {
    // 10 free columns, half of them filled.
    let r = calculate_progress_bar(18, "MEM[", 1, 2, "50%]", "|");
    assert_eq!(r, "MEM[|||||     50%]");
}

#[test]
fn fill_truncates() {
    // 10 free columns at 0.29 -> 2 glyphs.
    let r = calculate_progress_bar(12, "[", 29, 100, "]", "=");
    assert_eq!(r, "[==        ]");
}

#[test]
fn overfull_value_is_clamped() {
    let r = calculate_progress_bar(12, "[", 300, 100, "]", "=");
    assert_eq!(r, "[==========]");
}

#[test]
fn zero_total_counts_as_empty() {
    let r = calculate_progress_bar(8, "[", 5, 0, "]", "=");
    assert_eq!(r, "[      ]");
}

#[test]
fn labels_wider_than_row_leave_no_fill() {
    let r = calculate_progress_bar(5, "LONG[", 1, 1, "]", "#");
    assert_eq!(r, "LONG[]");
}

#[test]
fn wide_label_is_measured_in_columns() {
    // The lead is two characters but three columns wide.
    let r = calculate_progress_bar(10, "\u{9032}[", 1, 1, "]", "#");
    assert_eq!(r, "\u{9032}[######]");
}

#[test]
fn zero_width_glyph_draws_nothing() {
    let r = calculate_progress_bar(6, "[", 1, 1, "]", "");
    assert_eq!(r, "[    ]");
}

#[test]
fn layout_bar_with_given_widths() {
    assert_eq!(layout_bar(10, "ab", 2, 1, 2, "c", 1, "xy", 2), "abxy     c");
    assert_eq!(layout_bar(10, "ab", 4, 3, 4, "c", 1, "#", 1), "ab###  c");
    assert_eq!(layout_bar(10, "ab", 2, 1, 2, "c", 1, "#", 0), "ab       c");
    assert_eq!(layout_bar(3, "ab", 2, 1, 1, "cd", 2, "#", 1), "abcd");
}

#[test]
fn color_bands() {
    assert_eq!(color_band(0, 100), Band::Normal);
    assert_eq!(color_band(49, 100), Band::Normal);
    assert_eq!(color_band(50, 100), Band::Warning);
    assert_eq!(color_band(75, 100), Band::Warning);
    assert_eq!(color_band(76, 100), Band::Critical);
    assert_eq!(color_band(100, 100), Band::Critical);
    assert_eq!(color_band(250, 100), Band::Critical);
    assert_eq!(color_band(3, 0), Band::Normal);
    assert_eq!(color_band(u64::MAX, u64::MAX), Band::Critical);
}

#[test]
fn decimal_numerals() {
    assert_eq!(decimal_string(0), "0");
    assert_eq!(decimal_string(7), "7");
    assert_eq!(decimal_string(10), "10");
    assert_eq!(decimal_string(1234567890), "1234567890");
    assert_eq!(decimal_string(u64::MAX), u64::MAX.to_string());
}

#[test]
fn padding_and_ratios() {
    assert_eq!(pad_left_string("7".to_string(), 3), "  7");
    assert_eq!(pad_left_string("1234".to_string(), 3), "1234");
    assert_eq!(pad_left_string(String::new(), 2), "  ");
    assert_eq!(ratio_string(12, 3400, "Mb]"), "12/3400Mb]");
}

#[test]
fn banded_bar_carries_band() {
    let (row, band) = calculate_banded_bar(18, "MEM[", 1, 2, "50%]", "|");
    assert_eq!(row, "MEM[|||||     50%]");
    assert_eq!(band, Band::Warning);
    assert_eq!(calculate_banded_bar(6, "[", 9, 10, "]", "=").1, Band::Critical);
    assert_eq!(calculate_banded_bar(6, "[", 1, 10, "]", "=").1, Band::Normal);
}
