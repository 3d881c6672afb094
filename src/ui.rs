//! The progress-bar row: a label, a run of glyphs proportional to a fraction,
//! space padding, and a trailing label, laid out by display columns.
use unicode_width::UnicodeWidthStr;
use vstd::prelude::*;
use vstd::string::*;
use crate::text::{repeat, spaces, push_repeated, push_spaces};

verus! {

/// The number of terminal columns a string occupies, as the Unicode width
/// rules measure it.
pub uninterp spec fn display_width(s: Seq<char>) -> nat;

/// Relies on `unicode_width::UnicodeWidthStr::width` for `str`: the column
/// width of a string, which depends on its characters alone (an empty string
/// is zero columns wide).
#[verifier::external_body]
fn column_width(s: &str) -> (r: usize)
    ensures
        r == display_width(s@),
        s@.len() == 0 ==> r == 0,
{
    UnicodeWidthStr::width(s)
}

/// The fraction `used / total` clamped to `[0, 1]`, as its numerator over
/// `total`; an empty total counts as an empty fraction.
pub open spec fn clamped(used: u64, total: u64) -> nat {
    if total == 0 {
        0
    } else if used > total {
        total as nat
    } else {
        used as nat
    }
}

/// The columns left for the bar once both labels are placed (none when the
/// labels alone are wider than the row).
pub open spec fn fill_width(width: nat, lead_w: nat, trail_w: nat) -> nat {
    if lead_w + trail_w <= width {
        (width - lead_w - trail_w) as nat
    } else {
        0
    }
}

/// How many whole glyphs of `glyph_w` columns the fraction fills out of
/// `fill` columns: `floor(floor(fill * value) / glyph_w)`.
pub open spec fn glyph_count(fill: nat, used: u64, total: u64, glyph_w: nat) -> nat {
    if total == 0 || glyph_w == 0 {
        0
    } else {
        fill * clamped(used, total) / (total as nat) / glyph_w
    }
}

/// A bar row, given the display widths of its parts.
pub open spec fn bar_layout(
    width: nat,
    lead: Seq<char>,
    lead_w: nat,
    used: u64,
    total: u64,
    trail: Seq<char>,
    trail_w: nat,
    glyph: Seq<char>,
    glyph_w: nat,
) -> Seq<char> {
    let fill = fill_width(width, lead_w, trail_w);
    let k = glyph_count(fill, used, total, glyph_w);
    lead + repeat(glyph, k) + spaces((fill - k * glyph_w) as nat) + trail
}

/// A bar row, its parts measured by their display widths.
pub open spec fn progress_bar(
    width: nat,
    lead: Seq<char>,
    used: u64,
    total: u64,
    trail: Seq<char>,
    glyph: Seq<char>,
) -> Seq<char> {
    bar_layout(
        width,
        lead,
        display_width(lead),
        used,
        total,
        trail,
        display_width(trail),
        glyph,
        display_width(glyph),
    )
}

/// The colour band of a bar.
#[derive(Clone, Copy, Debug, PartialEq, Eq, Structural)]
pub enum Band {
    Normal,
    Warning,
    Critical,
}

/// The band of the clamped fraction: `[0, 0.5)` normal, `[0.5, 0.75]`
/// warning, `(0.75, 1]` critical.
pub open spec fn band_of(used: u64, total: u64) -> Band {
    let c = clamped(used, total);
    if total == 0 || 2 * c < total {
        Band::Normal
    } else if 4 * c <= 3 * total {
        Band::Warning
    } else {
        Band::Critical
    }
}

/// Chooses the colour band for the fraction `used / total`.
pub fn color_band(used: u64, total: u64) -> (r: Band)
    ensures
        r == band_of(used, total),
{
    if total == 0 {
        return Band::Normal;
    }
    let c: u128 = if used > total {
        total as u128
    } else {
        used as u128
    };
    let t: u128 = total as u128;
    if 2 * c < t {
        Band::Normal
    } else if 4 * c <= 3 * t {
        Band::Warning
    } else {
        Band::Critical
    }
}

/// A bar row together with its colour band: the row exactly as
/// `calculate_progress_bar` renders it, and the band of the clamped fraction.
pub fn calculate_banded_bar(
    width: u16,
    lead: &str,
    used: u64,
    total: u64,
    trail: &str,
    symbol: &str,
) -> (r: (String, Band))
    ensures
        r.0@ == progress_bar(width as nat, lead@, used, total, trail@, symbol@),
        r.1 == band_of(used, total),
{
    (calculate_progress_bar(width, lead, used, total, trail, symbol), color_band(used, total))
}

proof fn lemma_scaled_le(fill: nat, c: nat, total: nat)
    requires
        0 < total,
        c <= total,
    ensures
        fill * c / total <= fill,
{
    assert(fill * c <= fill * total) by (nonlinear_arith)
        requires
            c <= total,
    ;
    assert(fill * total / total == fill) by (nonlinear_arith)
        requires
            0 < total,
    ;
    vstd::arithmetic::div_mod::lemma_div_is_ordered(
        (fill * c) as int,
        (fill * total) as int,
        total as int,
    );
}

/// Lays out a bar row from the display widths of its parts: `lead`, then as
/// many whole `glyph`s as the fraction `used / total` (clamped to `[0, 1]`)
/// fills of the free columns, then spaces up to the free width, then `trail`.
pub fn layout_bar(
    width: u16,
    lead: &str,
    lead_w: usize,
    used: u64,
    total: u64,
    trail: &str,
    trail_w: usize,
    glyph: &str,
    glyph_w: usize,
) -> (r: String)
    ensures
        r@ == bar_layout(
            width as nat,
            lead@,
            lead_w as nat,
            used,
            total,
            trail@,
            trail_w as nat,
            glyph@,
            glyph_w as nat,
        ),
{
    let w = width as usize;
    let fill: usize = if lead_w <= w && trail_w <= w - lead_w {
        w - lead_w - trail_w
    } else {
        0
    };
    assert(fill == fill_width(width as nat, lead_w as nat, trail_w as nat));
    let k: usize = if total == 0 || glyph_w == 0 {
        0
    } else {
        let c: u64 = if used > total {
            total
        } else {
            used
        };
        proof {
            lemma_scaled_le(fill as nat, c as nat, total as nat);
            assert(fill * c <= 0xffff * 0xffff_ffff_ffff_ffffu128) by (nonlinear_arith)
                requires
                    fill <= 0xffff,
                    c <= 0xffff_ffff_ffff_ffffu64,
            ;
        }
        let load: u128 = (fill as u128 * c as u128) / (total as u128);
        (load / (glyph_w as u128)) as usize
    };
    assert(k == glyph_count(fill as nat, used, total, glyph_w as nat));
    proof {
        if total != 0 && glyph_w != 0 {
            let load: int = (fill as int) * (clamped(used, total) as int) / (total as int);
            assert(load <= fill);
            assert(k * glyph_w <= load) by {
                vstd::arithmetic::div_mod::lemma_fundamental_div_mod(load as int, glyph_w as int);
                vstd::arithmetic::div_mod::lemma_mod_pos_bound(load as int, glyph_w as int);
            }
        }
    }
    let gap: usize = fill - k * glyph_w;
    let mut r = String::from_str(lead);
    push_repeated(&mut r, glyph, k);
    push_spaces(&mut r, gap);
    r.append(trail);
    r
}

/// Renders a bar row of `width` display columns: `lead`, the fraction
/// `used / total` (clamped to `[0, 1]`, an empty total counting as zero)
/// drawn with `symbol` over the columns the two labels leave free, space
/// padding, then `trail`. Only whole glyphs are drawn; the remainder of the
/// free columns is padded with spaces.
pub fn calculate_progress_bar(
    width: u16,
    lead: &str,
    used: u64,
    total: u64,
    trail: &str,
    symbol: &str,
) -> (r: String)
    ensures
        r@ == progress_bar(width as nat, lead@, used, total, trail@, symbol@),
{
    let lead_w = column_width(lead);
    let trail_w = column_width(trail);
    let glyph_w = column_width(symbol);
    layout_bar(width, lead, lead_w, used, total, trail, trail_w, symbol, glyph_w)
}

/// A bar of an empty fraction draws no glyph: every free column is a space.
/// When each label is exactly as wide as it is long and both fit, the row is
/// exactly `width` characters long.
pub proof fn lemma_empty_bar(
    width: nat,
    lead: Seq<char>,
    total: u64,
    trail: Seq<char>,
    glyph: Seq<char>,
)
    ensures
        progress_bar(width, lead, 0, total, trail, glyph) == lead + spaces(
            fill_width(width, display_width(lead), display_width(trail)),
        ) + trail,
        display_width(lead) == lead.len() && display_width(trail) == trail.len()
            && lead.len() + trail.len() <= width ==> progress_bar(
            width,
            lead,
            0,
            total,
            trail,
            glyph,
        ).len() == width,
{
    let fill = fill_width(width, display_width(lead), display_width(trail));
    let gw = display_width(glyph);
    if total != 0 && gw != 0 {
        assert(clamped(0, total) == 0);
        assert(fill * 0 == 0) by (nonlinear_arith);
    }
    assert(glyph_count(fill, 0, total, gw) == 0);
    assert(repeat(glyph, 0) =~= Seq::<char>::empty());
    assert(progress_bar(width, lead, 0, total, trail, glyph) =~= lead + spaces(fill) + trail);
}

/// A bar of a full fraction fills the free columns with as many whole glyphs
/// as fit; fewer columns than one glyph's width are left as spaces, so the
/// glyphs never take more than the columns the labels leave free.
pub proof fn lemma_full_bar(
    width: nat,
    lead: Seq<char>,
    total: u64,
    trail: Seq<char>,
    glyph: Seq<char>,
)
    requires
        total > 0,
        display_width(glyph) > 0,
    ensures
        ({
            let fill = fill_width(width, display_width(lead), display_width(trail));
            let gw = display_width(glyph);
            &&& progress_bar(width, lead, total, total, trail, glyph) == lead + repeat(
                glyph,
                fill / gw,
            ) + spaces(fill % gw) + trail
            &&& (fill / gw) * gw <= fill
            &&& fill % gw < gw
            &&& display_width(lead) + display_width(trail) <= width ==> fill == width
                - display_width(lead) - display_width(trail)
        }),
{
    let fill = fill_width(width, display_width(lead), display_width(trail));
    let gw = display_width(glyph);
    assert(fill * (total as nat) / (total as nat) == fill) by (nonlinear_arith)
        requires
            total > 0,
    ;
    assert(glyph_count(fill, total, total, gw) == fill / gw);
    vstd::arithmetic::div_mod::lemma_fundamental_div_mod(fill as int, gw as int);
    vstd::arithmetic::div_mod::lemma_mod_pos_bound(fill as int, gw as int);
    assert((fill / gw) * gw + fill % gw == fill);
    assert(progress_bar(width, lead, total, total, trail, glyph) =~= lead + repeat(
        glyph,
        fill / gw,
    ) + spaces(fill % gw) + trail);
}

} // verus!
