//! The layout engine: validates that placements do not overlap and scales
//! them from grid units to terminal cells.
use vstd::prelude::*;
use crate::file_config::{FileConfig, FileDevice};
use crate::frame::frame_of;

verus! {

/// A placement scaled to terminal cells: the device kind it came from and
/// its rectangle.
pub struct DeviceTile {
    pub name: String,
    pub row: u16,
    pub col: u16,
    pub width: u16,
    pub height: u16,
}

/// Two placements, by index in the configuration (`first < second`), that
/// overlap.
#[derive(Clone, Copy, Debug, PartialEq, Eq, Structural)]
pub struct OverlapError {
    pub first: usize,
    pub second: usize,
}

/// A configuration with its current tiles.
pub struct AppConfig {
    pub name: String,
    pub symbol: String,
    pub devices: Vec<FileDevice>,
    pub tiles: Vec<DeviceTile>,
}

/// One past the last grid column of a placement.
pub open spec fn right_of(d: FileDevice) -> nat {
    (d.top_left.1 + d.width) as nat
}

/// One past the last grid row of a placement.
pub open spec fn bottom_of(d: FileDevice) -> nat {
    (d.top_left.0 + d.height) as nat
}

/// Two placements overlap unless one lies entirely to the left of, to the
/// right of, above, or below the other.
pub open spec fn overlaps(a: FileDevice, b: FileDevice) -> bool {
    !(a.top_left.1 >= right_of(b) || b.top_left.1 >= right_of(a) || a.top_left.0 >= bottom_of(b)
        || b.top_left.0 >= bottom_of(a))
}

/// Whether the pair `(i, j)` comes before `(k, l)`, row by row.
pub open spec fn pair_before(i: int, j: int, k: int, l: int) -> bool {
    i < k || (i == k && j < l)
}

/// Whether placements `i < j` overlap.
pub open spec fn overlapping_pair(devices: Seq<FileDevice>, i: int, j: int) -> bool {
    0 <= i < j < devices.len() && overlaps(devices[i], devices[j])
}

/// Whether any two placements overlap.
pub open spec fn has_overlap(devices: Seq<FileDevice>) -> bool {
    exists|i: int, j: int| overlapping_pair(devices, i, j)
}

/// Whether `(i, j)` is the first overlapping pair, row by row.
pub open spec fn first_overlap(devices: Seq<FileDevice>, i: int, j: int) -> bool {
    &&& overlapping_pair(devices, i, j)
    &&& forall|k: int, l: int| #[trigger]
        overlapping_pair(devices, k, l) ==> !pair_before(k, l, i, j)
}

/// The grid's width: the largest right edge, at least 1.
pub open spec fn max_right(devices: Seq<FileDevice>) -> nat
    decreases devices.len(),
{
    if devices.len() == 0 {
        1
    } else {
        let m = max_right(devices.drop_last());
        let r = right_of(devices.last());
        if r > m {
            r
        } else {
            m
        }
    }
}

/// The grid's height: the largest bottom edge, at least 1.
pub open spec fn max_bottom(devices: Seq<FileDevice>) -> nat
    decreases devices.len(),
{
    if devices.len() == 0 {
        1
    } else {
        let m = max_bottom(devices.drop_last());
        let b = bottom_of(devices.last());
        if b > m {
            b
        } else {
            m
        }
    }
}

/// A grid coordinate `x` scaled by the exact fraction `canvas / extent` and
/// then truncated to whole cells.
pub open spec fn scaled(x: nat, canvas: nat, extent: nat) -> nat {
    x * canvas / extent
}

/// Whether `t` is placement `d` scaled, on a canvas of `canvas_w` x
/// `canvas_h` cells over a grid `extent_w` x `extent_h` units large, each
/// coordinate truncated on its own.
pub open spec fn tile_scaled(
    t: DeviceTile,
    d: FileDevice,
    canvas_w: u16,
    canvas_h: u16,
    extent_w: nat,
    extent_h: nat,
) -> bool {
    &&& t.name@ == d.device_type@
    &&& t.row == scaled(d.top_left.0 as nat, canvas_h as nat, extent_h)
    &&& t.col == scaled(d.top_left.1 as nat, canvas_w as nat, extent_w)
    &&& t.width == scaled(d.width as nat, canvas_w as nat, extent_w)
    &&& t.height == scaled(d.height as nat, canvas_h as nat, extent_h)
}

/// Whether `tiles` is the layout of `devices` on a canvas of
/// `canvas_w` x `canvas_h` cells: tile `i` is placement `i` scaled.
pub open spec fn is_layout(
    devices: Seq<FileDevice>,
    canvas_w: u16,
    canvas_h: u16,
    tiles: Seq<DeviceTile>,
) -> bool {
    &&& tiles.len() == devices.len()
    &&& forall|i: int|
        0 <= i < tiles.len() ==> #[trigger] tile_scaled(
            tiles[i],
            devices[i],
            canvas_w,
            canvas_h,
            max_right(devices),
            max_bottom(devices),
        )
}

/// Whether every tile lies inside a canvas of `canvas_w` x `canvas_h` cells.
pub open spec fn within_canvas(tiles: Seq<DeviceTile>, canvas_w: u16, canvas_h: u16) -> bool {
    forall|i: int|
        0 <= i < tiles.len() ==> #[trigger] tiles[i].col + tiles[i].width <= canvas_w
            && tiles[i].row + tiles[i].height <= canvas_h
}

/// What laying `devices` out on a canvas of `canvas_w` x `canvas_h` cells
/// gives: the layout when no two placements overlap, else the first
/// overlapping pair.
pub open spec fn layout_outcome(
    devices: Seq<FileDevice>,
    canvas_w: u16,
    canvas_h: u16,
    r: Result<Vec<DeviceTile>, OverlapError>,
) -> bool {
    match r {
        Ok(tiles) => !has_overlap(devices) && is_layout(devices, canvas_w, canvas_h, tiles@),
        Err(e) => first_overlap(devices, e.first as int, e.second as int),
    }
}

proof fn lemma_max_bounds(devices: Seq<FileDevice>)
    ensures
        1 <= max_right(devices) <= 510,
        1 <= max_bottom(devices) <= 510,
        forall|i: int|
            0 <= i < devices.len() ==> right_of(#[trigger] devices[i]) <= max_right(devices)
                && bottom_of(devices[i]) <= max_bottom(devices),
    decreases devices.len(),
{
    if devices.len() > 0 {
        let init = devices.drop_last();
        lemma_max_bounds(init);
        assert forall|i: int| 0 <= i < devices.len() implies right_of(#[trigger] devices[i])
            <= max_right(devices) && bottom_of(devices[i]) <= max_bottom(devices) by {
            if i < devices.len() - 1 {
                assert(devices[i] == init[i]);
            }
        }
    }
}

proof fn lemma_scaled_fits(a: nat, b: nat, m: nat, canvas: nat)
    requires
        a + b <= m,
        0 < m,
    ensures
        scaled(a, canvas, m) + scaled(b, canvas, m) <= canvas,
        scaled(a, canvas, m) <= canvas,
        scaled(b, canvas, m) <= canvas,
{
    let x = a * canvas;
    let y = b * canvas;
    let qx = x / m;
    let qy = y / m;
    vstd::arithmetic::div_mod::lemma_fundamental_div_mod(x as int, m as int);
    vstd::arithmetic::div_mod::lemma_mod_pos_bound(x as int, m as int);
    vstd::arithmetic::div_mod::lemma_fundamental_div_mod(y as int, m as int);
    vstd::arithmetic::div_mod::lemma_mod_pos_bound(y as int, m as int);
    assert(x + y <= m * canvas) by (nonlinear_arith)
        requires
            x == a * canvas,
            y == b * canvas,
            a + b <= m,
    ;
    assert((qx + qy) * m <= x + y) by (nonlinear_arith)
        requires
            x == m * qx + x % m,
            y == m * qy + y % m,
            x % m >= 0,
            y % m >= 0,
    ;
    assert(qx + qy <= canvas) by (nonlinear_arith)
        requires
            (qx + qy) * m <= x + y,
            x + y <= m * canvas,
            m > 0,
    ;
}

/// Every tile of a layout lies inside the canvas it was scaled to: scaling
/// truncates, so the tiles may leave trailing cells unused but never cross
/// the right or bottom edge.
pub proof fn lemma_layout_within_canvas(
    devices: Seq<FileDevice>,
    canvas_w: u16,
    canvas_h: u16,
    tiles: Seq<DeviceTile>,
)
    requires
        is_layout(devices, canvas_w, canvas_h, tiles),
    ensures
        within_canvas(tiles, canvas_w, canvas_h),
{
    lemma_max_bounds(devices);
    assert forall|i: int| 0 <= i < tiles.len() implies #[trigger] tiles[i].col + tiles[i].width
        <= canvas_w && tiles[i].row + tiles[i].height <= canvas_h by {
        let d = devices[i];
        assert(tile_scaled(
            tiles[i],
            d,
            canvas_w,
            canvas_h,
            max_right(devices),
            max_bottom(devices),
        ));
        assert(right_of(d) <= max_right(devices));
        assert(bottom_of(d) <= max_bottom(devices));
        lemma_scaled_fits(
            d.top_left.1 as nat,
            d.width as nat,
            max_right(devices),
            canvas_w as nat,
        );
        lemma_scaled_fits(
            d.top_left.0 as nat,
            d.height as nat,
            max_bottom(devices),
            canvas_h as nat,
        );
    }
}

/// Placements without overlap are always laid out: one tile per placement,
/// in the same order and of the same kind, each inside the canvas.
pub proof fn lemma_layout_complete(
    devices: Seq<FileDevice>,
    canvas_w: u16,
    canvas_h: u16,
    r: Result<Vec<DeviceTile>, OverlapError>,
)
    requires
        !has_overlap(devices),
        layout_outcome(devices, canvas_w, canvas_h, r),
    ensures
        r is Ok,
        r->Ok_0@.len() == devices.len(),
        forall|i: int| 0 <= i < devices.len() ==> (#[trigger] r->Ok_0@[i]).name@ == devices[i].device_type@,
        within_canvas(r->Ok_0@, canvas_w, canvas_h),
{
    match r {
        Ok(tiles) => {
            lemma_layout_within_canvas(devices, canvas_w, canvas_h, tiles@);
            assert forall|i: int| 0 <= i < devices.len() implies (#[trigger] tiles@[i]).name@
                == devices[i].device_type@ by {
                assert(tile_scaled(
                    tiles@[i],
                    devices[i],
                    canvas_w,
                    canvas_h,
                    max_right(devices),
                    max_bottom(devices),
                ));
            }
        },
        Err(e) => {
            assert(overlapping_pair(devices, e.first as int, e.second as int));
        },
    }
}

/// Placements with an overlapping pair are never laid out, not even in
/// part: the outcome is an error naming an overlapping pair that comes no
/// later, row by row, than any other.
pub proof fn lemma_overlap_rejected(
    devices: Seq<FileDevice>,
    canvas_w: u16,
    canvas_h: u16,
    r: Result<Vec<DeviceTile>, OverlapError>,
    i: int,
    j: int,
)
    requires
        overlapping_pair(devices, i, j),
        layout_outcome(devices, canvas_w, canvas_h, r),
    ensures
        r is Err,
        overlapping_pair(devices, r->Err_0.first as int, r->Err_0.second as int),
        !pair_before(i, j, r->Err_0.first as int, r->Err_0.second as int),
{
    assert(has_overlap(devices));
}

proof fn lemma_tiles_fit(tiles: Seq<DeviceTile>, canvas_w: u16, canvas_h: u16)
    requires
        within_canvas(tiles, canvas_w, canvas_h),
    ensures
        forall|i: int| 0 <= i < tiles.len() ==> frame_of(#[trigger] tiles[i]).fits(),
{
    assert forall|i: int| 0 <= i < tiles.len() implies frame_of(#[trigger] tiles[i]).fits() by {
        assert(tiles[i].col + tiles[i].width <= canvas_w);
    }
}

fn copy_name(s: &String) -> (r: String)
    ensures
        r@ == s@,
{
    s.clone()
}

impl AppConfig {
    /// One tile per placement, each tile inside the terminal's coordinate
    /// range.
    pub open spec fn wf(&self) -> bool {
        &&& self.tiles@.len() == self.devices@.len()
        &&& forall|i: int| 0 <= i < self.tiles@.len() ==> frame_of(#[trigger] self.tiles@[i]).fits()
    }

    /// Whether the configuration is consistent (`wf`).
    pub fn check(&self) -> (r: bool)
        ensures
            r == self.wf(),
    {
        if self.tiles.len() != self.devices.len() {
            return false;
        }
        let mut i: usize = 0;
        while i < self.tiles.len()
            invariant
                i <= self.tiles@.len(),
                forall|k: int| 0 <= k < i ==> frame_of(#[trigger] self.tiles@[k]).fits(),
            decreases self.tiles.len() - i,
        {
            let t = &self.tiles[i];
            if t.row as u32 + t.height as u32 > u16::MAX as u32 || t.col as u32 + t.width as u32
                > u16::MAX as u32 {
                return false;
            }
            i = i + 1;
        }
        true
    }

    /// The configuration `file_config` laid out on a canvas of
    /// `screen_width` x `screen_height` cells, or the first pair of its
    /// placements that overlap.
    pub fn new(file_config: FileConfig, screen_width: u16, screen_height: u16) -> (r: Result<
        AppConfig,
        OverlapError,
    >)
        ensures
            match r {
                Ok(c) => {
                    &&& c.wf()
                    &&& !has_overlap(file_config.devices@)
                    &&& c.name == file_config.name
                    &&& c.symbol == file_config.symbol
                    &&& c.devices == file_config.devices
                    &&& is_layout(c.devices@, screen_width, screen_height, c.tiles@)
                },
                Err(e) => first_overlap(file_config.devices@, e.first as int, e.second as int),
            },
    {
        match Self::get_device_tiles(&file_config.devices, screen_width, screen_height) {
            Ok(tiles) => {
                proof {
                    lemma_tiles_fit(tiles@, screen_width, screen_height);
                }
                Ok(
                AppConfig {
                    name: file_config.name,
                    symbol: file_config.symbol,
                    devices: file_config.devices,
                    tiles,
                },
            )
            },
            Err(e) => Err(e),
        }
    }

    /// Lays the placements out again on a canvas of `new_w` x `new_h` cells.
    /// When they overlap the current tiles are kept and the first overlapping
    /// pair is returned.
    pub fn update_grid(&mut self, new_w: u16, new_h: u16) -> (r: Result<(), OverlapError>)
        requires
            old(self).wf(),
        ensures
            final(self).wf(),
            final(self).name == old(self).name,
            final(self).symbol == old(self).symbol,
            final(self).devices == old(self).devices,
            match r {
                Ok(_) => !has_overlap(old(self).devices@) && is_layout(
                    old(self).devices@,
                    new_w,
                    new_h,
                    final(self).tiles@,
                ),
                Err(e) => first_overlap(old(self).devices@, e.first as int, e.second as int)
                    && final(self).tiles == old(self).tiles,
            },
    {
        match Self::get_device_tiles(&self.devices, new_w, new_h) {
            Ok(tiles) => {
                proof {
                    lemma_tiles_fit(tiles@, new_w, new_h);
                }
                self.tiles = tiles;
                Ok(())
            },
            Err(e) => Err(e),
        }
    }

    /// Computes one tile per placement, in order, on a canvas of
    /// `new_w` x `new_h` cells: each coordinate is scaled by
    /// `canvas / grid extent` along its axis and then truncated. Fails with the
    /// first overlapping pair of placements instead, and then computes no tile.
    pub fn get_device_tiles(devices: &Vec<FileDevice>, new_w: u16, new_h: u16) -> (r: Result<
        Vec<DeviceTile>,
        OverlapError,
    >)
        ensures
            layout_outcome(devices@, new_w, new_h, r),
            r is Ok ==> within_canvas(r->Ok_0@, new_w, new_h),
    {
        if let Some(e) = Self::check_device_tiles_overlap(devices) {
            return Err(e);
        }
        let ((cw, extent_w), (ch, extent_h)) = Self::get_tile_scale(devices, new_w, new_h);
        proof {
            lemma_max_bounds(devices@);
        }
        let mut tiles: Vec<DeviceTile> = Vec::new();
        let mut i: usize = 0;
        while i < devices.len()
            invariant
                i <= devices.len(),
                cw == new_w,
                ch == new_h,
                extent_w == max_right(devices@),
                extent_h == max_bottom(devices@),
                tiles@.len() == i,
                forall|k: int|
                    0 <= k < i ==> #[trigger] tile_scaled(
                        tiles@[k],
                        devices@[k],
                        new_w,
                        new_h,
                        max_right(devices@),
                        max_bottom(devices@),
                    ),
                forall|k: int|
                    0 <= k < devices@.len() ==> right_of(#[trigger] devices@[k]) <= max_right(
                        devices@,
                    ) && bottom_of(devices@[k]) <= max_bottom(devices@),
                1 <= max_right(devices@) <= 510,
                1 <= max_bottom(devices@) <= 510,
            decreases devices.len() - i,
        {
            let device = &devices[i];
            proof {
                let d = devices@[i as int];
                assert(right_of(d) <= max_right(devices@));
                assert(bottom_of(d) <= max_bottom(devices@));
                lemma_scaled_fits(
                    d.top_left.1 as nat,
                    d.width as nat,
                    max_right(devices@),
                    new_w as nat,
                );
                lemma_scaled_fits(
                    d.top_left.0 as nat,
                    d.height as nat,
                    max_bottom(devices@),
                    new_h as nat,
                );
                assert(d.top_left.1 * new_w <= 255 * 0xffffu32) by (nonlinear_arith);
                assert(d.width * new_w <= 255 * 0xffffu32) by (nonlinear_arith);
                assert(d.top_left.0 * new_h <= 255 * 0xffffu32) by (nonlinear_arith);
                assert(d.height * new_h <= 255 * 0xffffu32) by (nonlinear_arith);
            }
            let cw32 = cw as u32;
            let ch32 = ch as u32;
            let ew = extent_w as u32;
            let eh = extent_h as u32;
            let tile = DeviceTile {
                name: copy_name(&device.device_type),
                row: (device.top_left.0 as u32 * ch32 / eh) as u16,
                col: (device.top_left.1 as u32 * cw32 / ew) as u16,
                width: (device.width as u32 * cw32 / ew) as u16,
                height: (device.height as u32 * ch32 / eh) as u16,
            };
            tiles.push(tile);
            i = i + 1;
        }
        proof {
            lemma_layout_within_canvas(devices@, new_w, new_h, tiles@);
        }
        Ok(tiles)
    }

    /// The first pair of placements, row by row, that overlap.
    fn check_device_tiles_overlap(devices: &Vec<FileDevice>) -> (r: Option<OverlapError>)
        ensures
            match r {
                Some(e) => first_overlap(devices@, e.first as int, e.second as int),
                None => !has_overlap(devices@),
            },
    {
        let n = devices.len();
        let mut i: usize = 0;
        while i < n
            invariant
                n == devices@.len(),
                i <= n,
                forall|k: int, l: int| #[trigger]
                    overlapping_pair(devices@, k, l) ==> k >= i,
            decreases n - i,
        {
            let mut j: usize = i + 1;
            while j < n
                invariant
                    n == devices@.len(),
                    i < n,
                    i + 1 <= j <= n,
                    forall|k: int, l: int| #[trigger]
                        overlapping_pair(devices@, k, l) ==> k > i || (k == i && l >= j),
                decreases n - j,
            {
                let a = &devices[i];
                let b = &devices[j];
                let separated = a.top_left.1 as u16 >= b.top_left.1 as u16 + b.width as u16
                    || b.top_left.1 as u16 >= a.top_left.1 as u16 + a.width as u16
                    || a.top_left.0 as u16 >= b.top_left.0 as u16 + b.height as u16
                    || b.top_left.0 as u16 >= a.top_left.0 as u16 + a.height as u16;
                if !separated {
                    assert(overlapping_pair(devices@, i as int, j as int));
                    return Some(OverlapError { first: i, second: j });
                }
                j = j + 1;
            }
            i = i + 1;
        }
        None
    }

    /// Cells per grid unit along each axis, as exact fractions
    /// `(numerator, denominator)`: the canvas extent over the grid extent,
    /// which is the largest right (bottom) edge of the placements, at least 1.
    /// Nothing is truncated here; each scaled coordinate is truncated on its
    /// own.
    fn get_tile_scale(devices: &Vec<FileDevice>, term_width: u16, term_height: u16) -> (r: (
        (u16, u16),
        (u16, u16),
    ))
        ensures
            r.0 == (term_width, max_right(devices@) as u16),
            r.1 == (term_height, max_bottom(devices@) as u16),
            r.0.1 == max_right(devices@),
            r.1.1 == max_bottom(devices@),
    {
        let mut max_w: u16 = 1;
        let mut max_h: u16 = 1;
        let mut i: usize = 0;
        while i < devices.len()
            invariant
                i <= devices.len(),
                max_w == max_right(devices@.take(i as int)),
                max_h == max_bottom(devices@.take(i as int)),
            decreases devices.len() - i,
        {
            let device = &devices[i];
            proof {
                assert(devices@.take(i + 1).drop_last() =~= devices@.take(i as int));
                assert(devices@.take(i + 1).last() == devices@[i as int]);
            }
            let device_max_w = device.top_left.1 as u16 + device.width as u16;
            if device_max_w > max_w {
                max_w = device_max_w;
            }
            let device_max_h = device.top_left.0 as u16 + device.height as u16;
            if device_max_h > max_h {
                max_h = device_max_h;
            }
            i = i + 1;
        }
        assert(devices@.take(devices@.len() as int) =~= devices@);
        proof {
            lemma_max_bounds(devices@);
        }
        ((term_width, max_w), (term_height, max_h))
    }
}

} // verus!
