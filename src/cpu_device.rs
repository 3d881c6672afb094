//! The CPU widget: a header, one bar per logical core, then memory and swap.
use vstd::prelude::*;
use vstd::string::*;
use crate::app_config::DeviceTile;
use crate::cpu_info::CpuInfo;
use crate::device_model::Device;
use crate::frame::{
    frame_of, framed_bands, framed_rows, header_buffer, no_band_buffer, no_bands, rows_view, Frame,
};
use crate::text::{decimal, decimal_string, pad_left, pad_left_string, ratio_label, ratio_string};
use crate::ui::{band_of, calculate_banded_bar, progress_bar, Band};

verus! {

/// The core number before a core's bar: right-aligned in three columns.
pub open spec fn core_lead(i: nat) -> Seq<char> {
    pad_left(decimal(i), 3) + "["@
}

/// A usage in tenths of a percent, with one decimal: right-aligned in five
/// columns, then the percent sign.
pub open spec fn core_trail(tenths: nat) -> Seq<char> {
    pad_left(decimal(tenths / 10) + "."@ + decimal(tenths % 10), 5) + "%]"@
}

/// Content line `j` of a CPU widget whose bars are `width` columns wide:
/// the header, a bar per core, the memory bar, then the swap bar.
pub open spec fn cpu_line(j: int, width: nat, symbol: Seq<char>, info: CpuInfo) -> Seq<char> {
    let n = info.cpus_usage@.len();
    if j == 0 {
        "CPU:"@
    } else if j <= n {
        let t = info.cpus_usage@[j - 1];
        progress_bar(width, core_lead((j - 1) as nat), t as u64, 1000, core_trail(t as nat), symbol)
    } else if j == n + 1 {
        progress_bar(
            width,
            "RAM["@,
            info.ram_used,
            info.ram_total,
            ratio_label(info.ram_used as nat, info.ram_total as nat, "Mb]"@),
            symbol,
        )
    } else {
        progress_bar(
            width,
            "SWP["@,
            info.swap_used,
            info.swap_total,
            ratio_label(info.swap_used as nat, info.swap_total as nat, "Mb]"@),
            symbol,
        )
    }
}

/// The colour band of content line `j` of a CPU widget: none for the
/// header, the band of each bar's fraction otherwise.
pub open spec fn cpu_band(j: int, info: CpuInfo) -> Option<Band> {
    let n = info.cpus_usage@.len();
    if j == 0 {
        None
    } else if j <= n {
        Some(band_of(info.cpus_usage@[j - 1] as u64, 1000))
    } else if j == n + 1 {
        Some(band_of(info.ram_used, info.ram_total))
    } else {
        Some(band_of(info.swap_used, info.swap_total))
    }
}

/// The colour bands of all content lines of a CPU widget.
pub open spec fn cpu_bands(info: CpuInfo) -> Seq<Option<Band>> {
    Seq::new(info.cpus_usage@.len() + 3, |j: int| cpu_band(j, info))
}

/// All content lines of a CPU widget.
pub open spec fn cpu_lines(width: nat, symbol: Seq<char>, info: CpuInfo) -> Seq<Seq<char>> {
    Seq::new(info.cpus_usage@.len() + 3, |j: int| cpu_line(j, width, symbol, info))
}

/// The CPU widget: its own copy of its tile, its readings, the bar glyph,
/// and one buffered row, with its colour band, per row of the tile.
pub struct CpuDevice {
    pub name: String,
    pub frame: Frame,
    pub cpu_info: CpuInfo,
    pub symbol: String,
    pub print_data: Vec<String>,
    pub print_bands: Vec<Option<Band>>,
}

/// Creates a CPU widget for `device_tile` over `cpu_count` cores.
pub fn create_device(device_tile: &DeviceTile, symbol: &str, cpu_count: usize) -> (r: Device)
    requires
        frame_of(*device_tile).fits(),
    ensures
        r is Cpu,
        r->Cpu_0.wf(),
        r->Cpu_0.created(device_tile, symbol@, cpu_count),
{
    Device::Cpu(CpuDevice::new(device_tile, symbol, cpu_count))
}

fn core_lead_string(i: usize) -> (r: String)
    ensures
        r@ == core_lead(i as nat),
{
    let mut r = pad_left_string(decimal_string(i as u64), 3);
    r.append("[");
    r
}

fn core_trail_string(tenths: u32) -> (r: String)
    ensures
        r@ == core_trail(tenths as nat),
{
    let mut s = decimal_string((tenths / 10) as u64);
    s.append(".");
    let d = decimal_string((tenths % 10) as u64);
    s.append(d.as_str());
    let mut r = pad_left_string(s, 5);
    r.append("%]");
    r
}

impl CpuDevice {
    /// The readings are consistent, the buffer has one row per tile row,
    /// and the tile fits the terminal's coordinates.
    pub open spec fn wf(&self) -> bool {
        &&& self.cpu_info.wf()
        &&& self.print_data@.len() == self.frame.height
        &&& self.print_bands@.len() == self.frame.height
        &&& self.frame.fits()
    }

    /// The rows a render produces now.
    pub open spec fn displayed(&self) -> Seq<Seq<char>> {
        framed_rows(
            self.frame,
            cpu_lines(self.frame.content_width(), self.symbol@, self.cpu_info),
        )
    }

    /// The colour bands of the rows a render produces now.
    pub open spec fn displayed_bands(&self) -> Seq<Option<Band>> {
        framed_bands(self.frame, cpu_bands(self.cpu_info))
    }

    /// Whether this is a fresh widget for `tile`: idle readings for
    /// `cpu_count` cores and a buffer holding only the header.
    pub open spec fn created(&self, tile: &DeviceTile, symbol: Seq<char>, cpu_count: usize) -> bool {
        &&& self.name@ == tile.name@
        &&& self.frame == frame_of(*tile)
        &&& self.symbol@ == symbol
        &&& self.cpu_info.cpu_count == cpu_count
        &&& forall|i: int| 0 <= i < cpu_count ==> self.cpu_info.cpus_usage@[i] == 0
        &&& self.cpu_info.ram_used == 0 && self.cpu_info.ram_total == 1
        &&& self.cpu_info.swap_used == 0 && self.cpu_info.swap_total == 1
        &&& rows_view(self.print_data@) == framed_rows(frame_of(*tile), seq!["CPU:"@])
        &&& self.print_bands@ == no_bands(tile.height as nat)
    }

    /// Whether `after` is `self` moved to `tile`: the same readings, glyph
    /// and name, the tile's rectangle, and a buffer of the tile's height
    /// holding only the header.
    pub open spec fn resized(&self, tile: &DeviceTile, after: &CpuDevice) -> bool {
        &&& after.name == self.name
        &&& after.cpu_info == self.cpu_info
        &&& after.symbol == self.symbol
        &&& after.frame == frame_of(*tile)
        &&& rows_view(after.print_data@) == framed_rows(frame_of(*tile), seq!["CPU:"@])
        &&& after.print_bands@ == no_bands(tile.height as nat)
    }

    /// A fresh widget for `device_tile`.
    pub fn new(device_tile: &DeviceTile, symbol: &str, cpu_count: usize) -> (r: CpuDevice)
        requires
            frame_of(*device_tile).fits(),
        ensures
            r.wf(),
            r.created(device_tile, symbol@, cpu_count),
    {
        let frame = Frame::from_tile(device_tile);
        CpuDevice {
            name: device_tile.name.clone(),
            frame,
            cpu_info: CpuInfo::new(cpu_count),
            symbol: String::from_str(symbol),
            print_data: header_buffer(frame, "CPU:"),
            print_bands: no_band_buffer(device_tile.height),
        }
    }

    /// Moves the widget to `tile`, keeping its readings, and resets its
    /// buffer to one row per row of the tile, holding only the header.
    pub fn resize(&mut self, tile: &DeviceTile)
        requires
            old(self).wf(),
            frame_of(*tile).fits(),
        ensures
            final(self).wf(),
            old(self).resized(tile, final(self)),
    {
        self.frame = Frame::from_tile(tile);
        self.print_data = header_buffer(self.frame, "CPU:");
        self.print_bands = no_band_buffer(tile.height);
    }

    /// The content area's top-left cell, inside the border.
    pub fn get_position(&self) -> (r: (u16, u16))
        requires
            self.wf(),
        ensures
            self.frame.has_content() ==> r == (
                (self.frame.row + 1) as u16,
                (self.frame.col + 1) as u16,
            ),
            !self.frame.has_content() ==> r == (self.frame.row, self.frame.col),
    {
        if self.frame.content() {
            (self.frame.row + 1, self.frame.col + 1)
        } else {
            (self.frame.row, self.frame.col)
        }
    }

    /// The content area's width and height (zero when nothing is left
    /// inside the border).
    pub fn get_size(&self) -> (r: (u16, u16))
        ensures
            r.0 == self.frame.content_width(),
            r.1 == self.frame.content_height(),
    {
        if self.frame.content() {
            (self.frame.width - 2, self.frame.height - 2)
        } else {
            (0, 0)
        }
    }

    /// Takes in a sample of the readings.
    pub fn update(&mut self, sample: &crate::cpu_info::CpuSample)
        requires
            old(self).wf(),
        ensures
            final(self).wf(),
            final(self).name == old(self).name,
            final(self).frame == old(self).frame,
            final(self).symbol == old(self).symbol,
            final(self).print_data == old(self).print_data,
            final(self).print_bands == old(self).print_bands,
            final(self).cpu_info.cpu_count == old(self).cpu_info.cpu_count,
            forall|i: int|
                0 <= i < old(self).cpu_info.cpu_count ==> #[trigger] final(self).cpu_info.cpus_usage@[i] == if i < sample.cpu_usage@.len() {
                    sample.cpu_usage@[i]
                } else {
                    old(self).cpu_info.cpus_usage@[i]
                },
            final(self).cpu_info.ram_used == crate::cpu_info::megabytes(sample.ram_used),
            final(self).cpu_info.ram_total == crate::cpu_info::megabytes(sample.ram_total),
            final(self).cpu_info.swap_used == crate::cpu_info::megabytes(sample.swap_used),
            final(self).cpu_info.swap_total == crate::cpu_info::megabytes(sample.swap_total),
    {
        self.cpu_info.update(sample);
    }

    /// The kind this widget was created for.
    pub fn get_name(&self) -> (r: String)
        ensures
            r@ == self.name@,
    {
        self.name.clone()
    }

    fn line(&self, j: usize, width: u16) -> (r: (String, Option<Band>))
        requires
            self.wf(),
            j <= self.cpu_info.cpu_count + 2,
        ensures
            r.0@ == cpu_line(j as int, width as nat, self.symbol@, self.cpu_info),
            r.1 == cpu_band(j as int, self.cpu_info),
    {
        let n = self.cpu_info.cpu_count;
        if j == 0 {
            (String::from_str("CPU:"), None)
        } else if j <= n {
            let t = self.cpu_info.get_cpu_usage(j - 1);
            let lead = core_lead_string(j - 1);
            let trail = core_trail_string(t);
            let (row, band) = calculate_banded_bar(
                width,
                lead.as_str(),
                t as u64,
                1000,
                trail.as_str(),
                self.symbol.as_str(),
            );
            (row, Some(band))
        } else if j == n + 1 {
            let (used, total) = self.cpu_info.get_ram_usage();
            let trail = ratio_string(used, total, "Mb]");
            let (row, band) = calculate_banded_bar(
                width,
                "RAM[",
                used,
                total,
                trail.as_str(),
                self.symbol.as_str(),
            );
            (row, Some(band))
        } else {
            let (used, total) = self.cpu_info.get_swap_usage();
            let trail = ratio_string(used, total, "Mb]");
            let (row, band) = calculate_banded_bar(
                width,
                "SWP[",
                used,
                total,
                trail.as_str(),
                self.symbol.as_str(),
            );
            (row, Some(band))
        }
    }

    /// Renders every row, with its colour band, from the current readings
    /// and the current tile: the header, one bar per core, memory and swap,
    /// as many as the tile has rows (the header first, the last lines
    /// dropped), then blank rows. A tile with nothing inside its border
    /// renders only blank rows.
    pub fn show(&mut self) -> (r: &Vec<String>)
        requires
            old(self).wf(),
        ensures
            final(self).wf(),
            final(self).name == old(self).name,
            final(self).frame == old(self).frame,
            final(self).cpu_info == old(self).cpu_info,
            final(self).symbol == old(self).symbol,
            rows_view(final(self).print_data@) == old(self).displayed(),
            final(self).print_bands@ == old(self).displayed_bands(),
            r == final(self).print_data,
    {
        let content = self.frame.content();
        let height = self.frame.height;
        let inner_w: u16 = if content {
            self.frame.width - 2
        } else {
            0
        };
        let n = self.cpu_info.cpu_count;
        let ghost lines = cpu_lines(inner_w as nat, self.symbol@, self.cpu_info);
        let ghost line_bands = cpu_bands(self.cpu_info);
        let mut rows: Vec<String> = Vec::new();
        let mut bands: Vec<Option<Band>> = Vec::new();
        let mut j: u16 = 0;
        while j < height
            invariant
                self.wf(),
                height == self.frame.height,
                n == self.cpu_info.cpu_count,
                content == self.frame.has_content(),
                inner_w == self.frame.content_width(),
                lines == cpu_lines(inner_w as nat, self.symbol@, self.cpu_info),
                line_bands == cpu_bands(self.cpu_info),
                rows@.len() == j,
                bands@.len() == j,
                j <= height,
                forall|k: int|
                    0 <= k < j ==> (#[trigger] rows@[k])@ == framed_rows(self.frame, lines)[k],
                forall|k: int|
                    0 <= k < j ==> #[trigger] bands@[k] == framed_bands(self.frame, line_bands)[k],
            decreases height - j,
        {
            let ju = j as usize;
            if content && (ju <= n || ju - n <= 2) {
                let (row, band) = self.line(ju, inner_w);
                rows.push(row);
                bands.push(band);
            } else {
                rows.push(String::new());
                bands.push(None);
            }
            j = j + 1;
        }
        proof {
            assert(rows_view(rows@) =~= framed_rows(self.frame, lines));
            assert(bands@ =~= framed_bands(self.frame, line_bands));
        }
        self.print_data = rows;
        self.print_bands = bands;
        &self.print_data
    }

    /// The colour band of each buffered row.
    pub fn row_bands(&self) -> (r: &Vec<Option<Band>>)
        ensures
            r == self.print_bands,
    {
        &self.print_bands
    }
}

} // verus!
