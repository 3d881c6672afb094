//! The GPU widget: a header, then per graphics device an info line, a
//! memory bar and a utilization bar.
use vstd::prelude::*;
use vstd::string::*;
use crate::app_config::DeviceTile;
use crate::device_model::Device;
use crate::frame::{
    frame_of, framed_bands, framed_rows, header_buffer, no_band_buffer, no_bands, rows_view, Frame,
};
use crate::gpu_info::{identity_text, info_line, GpuDeviceInfo, GpuIdentity, GpuSample};
use crate::text::{decimal, decimal_string, ratio_label, ratio_string};
use crate::ui::{band_of, calculate_banded_bar, progress_bar, Band};

verus! {

/// Content line `j` of a GPU widget whose bars are `width` columns wide:
/// the header, then three lines per device.
pub open spec fn gpu_line(
    j: int,
    width: nat,
    symbol: Seq<char>,
    devices: Seq<GpuDeviceInfo>,
) -> Seq<char> {
    if j == 0 {
        "GPU"@
    } else {
        let d = devices[(j - 1) / 3];
        if (j - 1) % 3 == 0 {
            info_line(d)
        } else if (j - 1) % 3 == 1 {
            progress_bar(
                width,
                "MEM["@,
                d.memory_used,
                d.memory_total,
                ratio_label(d.memory_used as nat, d.memory_total as nat, "MB]"@),
                symbol,
            )
        } else {
            progress_bar(
                width,
                "GPU["@,
                d.utilization_rates as u64,
                100,
                decimal(d.utilization_rates as nat) + "%]"@,
                symbol,
            )
        }
    }
}

/// The colour band of content line `j` of a GPU widget: none for the
/// header and the info lines, the band of each bar's fraction otherwise.
pub open spec fn gpu_band(j: int, devices: Seq<GpuDeviceInfo>) -> Option<Band> {
    if j == 0 {
        None
    } else {
        let d = devices[(j - 1) / 3];
        if (j - 1) % 3 == 0 {
            None
        } else if (j - 1) % 3 == 1 {
            Some(band_of(d.memory_used, d.memory_total))
        } else {
            Some(band_of(d.utilization_rates as u64, 100))
        }
    }
}

/// The colour bands of all content lines of a GPU widget.
pub open spec fn gpu_bands(devices: Seq<GpuDeviceInfo>) -> Seq<Option<Band>> {
    Seq::new(3 * devices.len() + 1, |j: int| gpu_band(j, devices))
}

/// All content lines of a GPU widget.
pub open spec fn gpu_lines(width: nat, symbol: Seq<char>, devices: Seq<GpuDeviceInfo>) -> Seq<
    Seq<char>,
> {
    Seq::new(3 * devices.len() + 1, |j: int| gpu_line(j, width, symbol, devices))
}

/// The GPU widget: its own copy of its tile, the readings of each device,
/// the bar glyph, and one buffered row, with its colour band, per row of the
/// tile.
pub struct GpuDevice {
    pub name: String,
    pub frame: Frame,
    pub devices: Vec<GpuDeviceInfo>,
    pub symbol: String,
    pub print_data: Vec<String>,
    pub print_bands: Vec<Option<Band>>,
}

/// Creates a GPU widget for `device_tile` over the devices `gpus`.
pub fn create_device(device_tile: &DeviceTile, symbol: &str, gpus: &Vec<GpuIdentity>) -> (r:
    Device)
    requires
        frame_of(*device_tile).fits(),
    ensures
        r is Gpu,
        r->Gpu_0.wf(),
        r->Gpu_0.created(device_tile, symbol@, gpus@),
{
    Device::Gpu(GpuDevice::new(device_tile, symbol, gpus))
}

impl GpuDevice {
    /// The buffer has one row per tile row, and the tile fits the terminal's
    /// coordinates.
    pub open spec fn wf(&self) -> bool {
        &&& self.print_data@.len() == self.frame.height
        &&& self.print_bands@.len() == self.frame.height
        &&& self.frame.fits()
    }

    /// The rows a render produces now.
    pub open spec fn displayed(&self) -> Seq<Seq<char>> {
        framed_rows(self.frame, gpu_lines(self.frame.content_width(), self.symbol@, self.devices@))
    }

    /// The colour bands of the rows a render produces now.
    pub open spec fn displayed_bands(&self) -> Seq<Option<Band>> {
        framed_bands(self.frame, gpu_bands(self.devices@))
    }

    /// Whether this is a fresh widget for `tile` over the devices `gpus`:
    /// readings as `GpuDeviceInfo::new` leaves them, and a buffer holding
    /// only the header.
    pub open spec fn created(&self, tile: &DeviceTile, symbol: Seq<char>, gpus: Seq<GpuIdentity>) -> bool {
        &&& self.name@ == tile.name@
        &&& self.frame == frame_of(*tile)
        &&& self.symbol@ == symbol
        &&& self.devices@.len() == gpus.len()
        &&& forall|i: int|
            0 <= i < gpus.len() ==> {
                let d = #[trigger] self.devices@[i];
                &&& d.gpu_info@ == identity_text(gpus[i].name@, gpus[i].capability)
                &&& d.memory_used == 0 && d.memory_total == 1
                &&& d.utilization_rates == 0 && d.temperature == 0
            }
        &&& rows_view(self.print_data@) == framed_rows(frame_of(*tile), seq!["GPU"@])
        &&& self.print_bands@ == no_bands(tile.height as nat)
    }

    /// Whether `after` is `self` moved to `tile`: the same readings, glyph
    /// and name, the tile's rectangle, and a buffer of the tile's height
    /// holding only the header.
    pub open spec fn resized(&self, tile: &DeviceTile, after: &GpuDevice) -> bool {
        &&& after.name == self.name
        &&& after.devices == self.devices
        &&& after.symbol == self.symbol
        &&& after.frame == frame_of(*tile)
        &&& rows_view(after.print_data@) == framed_rows(frame_of(*tile), seq!["GPU"@])
        &&& after.print_bands@ == no_bands(tile.height as nat)
    }

    /// A fresh widget for `device_tile` over the devices `gpus`.
    pub fn new(device_tile: &DeviceTile, symbol: &str, gpus: &Vec<GpuIdentity>) -> (r: GpuDevice)
        requires
            frame_of(*device_tile).fits(),
        ensures
            r.wf(),
            r.created(device_tile, symbol@, gpus@),
    {
        let mut devices: Vec<GpuDeviceInfo> = Vec::new();
        let mut i: usize = 0;
        while i < gpus.len()
            invariant
                i <= gpus@.len(),
                devices@.len() == i,
                forall|k: int|
                    0 <= k < i ==> {
                        let d = #[trigger] devices@[k];
                        &&& d.gpu_info@ == identity_text(gpus@[k].name@, gpus@[k].capability)
                        &&& d.memory_used == 0 && d.memory_total == 1
                        &&& d.utilization_rates == 0 && d.temperature == 0
                    },
            decreases gpus.len() - i,
        {
            let g = &gpus[i];
            devices.push(GpuDeviceInfo::new(g.name.as_str(), g.capability));
            i = i + 1;
        }
        let frame = Frame::from_tile(device_tile);
        GpuDevice {
            name: device_tile.name.clone(),
            frame,
            devices,
            symbol: String::from_str(symbol),
            print_data: header_buffer(frame, "GPU"),
            print_bands: no_band_buffer(device_tile.height),
        }
    }

    /// Moves the widget to `tile`, keeping its readings, and resets its
    /// buffer to one row per row of the tile, holding only the header.
    pub fn resize(&mut self, tile: &DeviceTile)
        requires
            old(self).wf(),
            frame_of(*tile).fits(),
        ensures
            final(self).wf(),
            old(self).resized(tile, final(self)),
    {
        self.frame = Frame::from_tile(tile);
        self.print_data = header_buffer(self.frame, "GPU");
        self.print_bands = no_band_buffer(tile.height);
    }

    /// The content area's top-left cell, inside the border.
    pub fn get_position(&self) -> (r: (u16, u16))
        requires
            self.wf(),
        ensures
            self.frame.has_content() ==> r == (
                (self.frame.row + 1) as u16,
                (self.frame.col + 1) as u16,
            ),
            !self.frame.has_content() ==> r == (self.frame.row, self.frame.col),
    {
        if self.frame.content() {
            (self.frame.row + 1, self.frame.col + 1)
        } else {
            (self.frame.row, self.frame.col)
        }
    }

    /// The content area's width and height (zero when nothing is left
    /// inside the border).
    pub fn get_size(&self) -> (r: (u16, u16))
        ensures
            r.0 == self.frame.content_width(),
            r.1 == self.frame.content_height(),
    {
        if self.frame.content() {
            (self.frame.width - 2, self.frame.height - 2)
        } else {
            (0, 0)
        }
    }

    /// The kind this widget was created for.
    pub fn get_name(&self) -> (r: String)
        ensures
            r@ == self.name@,
    {
        self.name.clone()
    }

    /// Takes in one sample per device, in device order; devices the samples
    /// do not reach keep their readings.
    pub fn update(&mut self, samples: &Vec<GpuSample>)
        requires
            old(self).wf(),
        ensures
            final(self).wf(),
            final(self).name == old(self).name,
            final(self).frame == old(self).frame,
            final(self).symbol == old(self).symbol,
            final(self).print_data == old(self).print_data,
            final(self).print_bands == old(self).print_bands,
            final(self).devices@.len() == old(self).devices@.len(),
            forall|i: int|
                0 <= i < old(self).devices@.len() ==> {
                    let before = old(self).devices@[i];
                    let after = #[trigger] final(self).devices@[i];
                    if i < samples@.len() {
                        let s = samples@[i];
                        &&& after.gpu_info == before.gpu_info
                        &&& after.temperature == s.temperature
                        &&& after.memory_used == crate::cpu_info::megabytes(s.memory_used)
                        &&& after.memory_total == crate::cpu_info::megabytes(s.memory_total)
                        &&& after.utilization_rates == s.utilization
                    } else {
                        after == before
                    }
                },
    {
        let n = self.devices.len();
        let mut i: usize = 0;
        while i < n && i < samples.len()
            invariant
                self.wf(),
                n == old(self).devices@.len(),
                self.devices@.len() == n,
                i <= n,
                i <= samples@.len(),
                self.name == old(self).name,
                self.frame == old(self).frame,
                self.symbol == old(self).symbol,
                self.print_data == old(self).print_data,
                self.print_bands == old(self).print_bands,
                forall|k: int|
                    0 <= k < n ==> {
                        let before = old(self).devices@[k];
                        let after = #[trigger] self.devices@[k];
                        if k < i {
                            let s = samples@[k];
                            &&& after.gpu_info == before.gpu_info
                            &&& after.temperature == s.temperature
                            &&& after.memory_used == crate::cpu_info::megabytes(s.memory_used)
                            &&& after.memory_total == crate::cpu_info::megabytes(s.memory_total)
                            &&& after.utilization_rates == s.utilization
                        } else {
                            after == before
                        }
                    },
            decreases n - i,
        {
            let mut d = self.devices.remove(i);
            d.update(&samples[i]);
            self.devices.insert(i, d);
            i = i + 1;
        }
    }

    fn line(&self, j: usize, width: u16) -> (r: (String, Option<Band>))
        requires
            self.wf(),
            j == 0 || (j - 1) / 3 < self.devices@.len(),
        ensures
            r.0@ == gpu_line(j as int, width as nat, self.symbol@, self.devices@),
            r.1 == gpu_band(j as int, self.devices@),
    {
        if j == 0 {
            (String::from_str("GPU"), None)
        } else {
            let d = &self.devices[(j - 1) / 3];
            let part = (j - 1) % 3;
            if part == 0 {
                (d.get_info(), None)
            } else if part == 1 {
                let (used, total) = d.get_memory_info();
                let trail = ratio_string(used, total, "MB]");
                let (row, band) = calculate_banded_bar(
                    width,
                    "MEM[",
                    used,
                    total,
                    trail.as_str(),
                    self.symbol.as_str(),
                );
                (row, Some(band))
            } else {
                let u = d.get_utilization_rate_info();
                let mut trail = decimal_string(u as u64);
                trail.append("%]");
                let (row, band) = calculate_banded_bar(
                    width,
                    "GPU[",
                    u as u64,
                    100,
                    trail.as_str(),
                    self.symbol.as_str(),
                );
                (row, Some(band))
            }
        }
    }

    /// Renders every row, with its colour band, from the current readings
    /// and the current tile: the header, then per device its info line,
    /// memory bar and utilization bar, as many as the tile has rows (the
    /// header first, the last lines dropped), then blank rows. A tile with
    /// nothing inside its border renders only blank rows.
    pub fn show(&mut self) -> (r: &Vec<String>)
        requires
            old(self).wf(),
        ensures
            final(self).wf(),
            final(self).name == old(self).name,
            final(self).frame == old(self).frame,
            final(self).devices == old(self).devices,
            final(self).symbol == old(self).symbol,
            rows_view(final(self).print_data@) == old(self).displayed(),
            final(self).print_bands@ == old(self).displayed_bands(),
            r == final(self).print_data,
    {
        let content = self.frame.content();
        let height = self.frame.height;
        let inner_w: u16 = if content {
            self.frame.width - 2
        } else {
            0
        };
        let n = self.devices.len();
        let ghost lines = gpu_lines(inner_w as nat, self.symbol@, self.devices@);
        let ghost line_bands = gpu_bands(self.devices@);
        let mut rows: Vec<String> = Vec::new();
        let mut bands: Vec<Option<Band>> = Vec::new();
        let mut j: u16 = 0;
        while j < height
            invariant
                self.wf(),
                height == self.frame.height,
                n == self.devices@.len(),
                content == self.frame.has_content(),
                inner_w == self.frame.content_width(),
                lines == gpu_lines(inner_w as nat, self.symbol@, self.devices@),
                line_bands == gpu_bands(self.devices@),
                rows@.len() == j,
                bands@.len() == j,
                j <= height,
                forall|k: int|
                    0 <= k < j ==> (#[trigger] rows@[k])@ == framed_rows(self.frame, lines)[k],
                forall|k: int|
                    0 <= k < j ==> #[trigger] bands@[k] == framed_bands(self.frame, line_bands)[k],
            decreases height - j,
        {
            let ju = j as usize;
            if content && (ju == 0 || (ju - 1) / 3 < n) {
                let (row, band) = self.line(ju, inner_w);
                rows.push(row);
                bands.push(band);
            } else {
                rows.push(String::new());
                bands.push(None);
            }
            j = j + 1;
        }
        proof {
            assert(rows_view(rows@) =~= framed_rows(self.frame, lines));
            assert(bands@ =~= framed_bands(self.frame, line_bands));
        }
        self.print_data = rows;
        self.print_bands = bands;
        &self.print_data
    }

    /// The colour band of each buffered row.
    pub fn row_bands(&self) -> (r: &Vec<Option<Band>>)
        ensures
            r == self.print_bands,
    {
        &self.print_bands
    }
}

} // verus!
