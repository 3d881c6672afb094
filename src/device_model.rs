//! The widgets, one variant per monitored resource, and the registry that
//! maps a device kind's name to the variant that shows it.
use vstd::prelude::*;
use vstd::string::*;
use crate::app_config::DeviceTile;
use crate::cpu_device::CpuDevice;
use crate::cpu_info::CpuSample;
use crate::frame::{frame_of, rows_view, Frame};
use crate::gpu_device::GpuDevice;
use crate::ui::Band;
use crate::cpu_info::megabytes;
use crate::gpu_info::{GpuIdentity, GpuSample};

verus! {

/// A widget.
pub enum Device {
    Cpu(CpuDevice),
    Gpu(GpuDevice),
}

/// The kinds of widget there are.
#[derive(Clone, Copy, Debug, PartialEq, Eq, Structural)]
pub enum DeviceKind {
    Cpu,
    Gpu,
}

impl Device {
    /// The widget's own consistency.
    pub open spec fn wf(&self) -> bool {
        match self {
            Device::Cpu(c) => c.wf(),
            Device::Gpu(g) => g.wf(),
        }
    }

    /// The widget's kind.
    pub open spec fn kind(&self) -> DeviceKind {
        match self {
            Device::Cpu(_) => DeviceKind::Cpu,
            Device::Gpu(_) => DeviceKind::Gpu,
        }
    }

    /// The widget's rectangle.
    pub open spec fn frame(&self) -> Frame {
        match self {
            Device::Cpu(c) => c.frame,
            Device::Gpu(g) => g.frame,
        }
    }

    /// The kind name the widget was created for.
    pub open spec fn name_view(&self) -> Seq<char> {
        match self {
            Device::Cpu(c) => c.name@,
            Device::Gpu(g) => g.name@,
        }
    }

    /// The views of the widget's buffered rows.
    pub open spec fn buffer(&self) -> Seq<Seq<char>> {
        match self {
            Device::Cpu(c) => rows_view(c.print_data@),
            Device::Gpu(g) => rows_view(g.print_data@),
        }
    }

    /// The colour bands of the widget's buffered rows.
    pub open spec fn band_buffer(&self) -> Seq<Option<Band>> {
        match self {
            Device::Cpu(c) => c.print_bands@,
            Device::Gpu(g) => g.print_bands@,
        }
    }

    /// The colour bands of the rows a render produces now.
    pub open spec fn displayed_bands(&self) -> Seq<Option<Band>> {
        match self {
            Device::Cpu(c) => c.displayed_bands(),
            Device::Gpu(g) => g.displayed_bands(),
        }
    }

    /// The rows a render produces now.
    pub open spec fn displayed(&self) -> Seq<Seq<char>> {
        match self {
            Device::Cpu(c) => c.displayed(),
            Device::Gpu(g) => g.displayed(),
        }
    }

    /// Whether `after` is this widget moved to `tile`.
    pub open spec fn resized(&self, tile: &DeviceTile, after: &Device) -> bool {
        match (self, after) {
            (Device::Cpu(a), Device::Cpu(b)) => a.resized(tile, b),
            (Device::Gpu(a), Device::Gpu(b)) => a.resized(tile, b),
            _ => false,
        }
    }

    /// Whether `after` is this widget with its buffer rendered.
    pub open spec fn rendered(&self, after: &Device) -> bool {
        &&& match (self, after) {
            (Device::Cpu(a), Device::Cpu(b)) => {
                &&& b.name == a.name
                &&& b.frame == a.frame
                &&& b.cpu_info == a.cpu_info
                &&& b.symbol == a.symbol
            },
            (Device::Gpu(a), Device::Gpu(b)) => {
                &&& b.name == a.name
                &&& b.frame == a.frame
                &&& b.devices == a.devices
                &&& b.symbol == a.symbol
            },
            _ => false,
        }
        &&& after.buffer() == self.displayed()
        &&& after.band_buffer() == self.displayed_bands()
    }

    /// Moves the widget to `tile`, keeping its readings.
    pub fn resize(&mut self, tile: &DeviceTile)
        requires
            old(self).wf(),
            frame_of(*tile).fits(),
        ensures
            final(self).wf(),
            old(self).resized(tile, final(self)),
    {
        match self {
            Device::Cpu(c) => c.resize(tile),
            Device::Gpu(g) => g.resize(tile),
        }
    }

    /// Renders the widget's rows from its readings and its current tile.
    pub fn show(&mut self) -> (r: &Vec<String>)
        requires
            old(self).wf(),
        ensures
            final(self).wf(),
            old(self).rendered(final(self)),
            rows_view(r@) == old(self).displayed(),
    {
        match self {
            Device::Cpu(c) => c.show(),
            Device::Gpu(g) => g.show(),
        }
    }

    /// The buffered rows.
    pub fn rows(&self) -> (r: &Vec<String>)
        ensures
            rows_view(r@) == self.buffer(),
    {
        match self {
            Device::Cpu(c) => &c.print_data,
            Device::Gpu(g) => &g.print_data,
        }
    }

    /// The colour band of each buffered row.
    pub fn row_bands(&self) -> (r: &Vec<Option<Band>>)
        ensures
            r@ == self.band_buffer(),
    {
        match self {
            Device::Cpu(c) => c.row_bands(),
            Device::Gpu(g) => g.row_bands(),
        }
    }

    /// The content area's top-left cell.
    pub fn get_position(&self) -> (r: (u16, u16))
        requires
            self.wf(),
        ensures
            self.frame().has_content() ==> r == (
                (self.frame().row + 1) as u16,
                (self.frame().col + 1) as u16,
            ),
            !self.frame().has_content() ==> r == (self.frame().row, self.frame().col),
    {
        match self {
            Device::Cpu(c) => c.get_position(),
            Device::Gpu(g) => g.get_position(),
        }
    }

    /// The content area's width and height.
    pub fn get_size(&self) -> (r: (u16, u16))
        ensures
            r.0 == self.frame().content_width(),
            r.1 == self.frame().content_height(),
    {
        match self {
            Device::Cpu(c) => c.get_size(),
            Device::Gpu(g) => g.get_size(),
        }
    }

    /// The kind name the widget was created for.
    pub fn get_name(&self) -> (r: String)
        ensures
            r@ == self.name_view(),
    {
        match self {
            Device::Cpu(c) => c.get_name(),
            Device::Gpu(g) => g.get_name(),
        }
    }

    /// Whether `after` is this widget having taken in the samples that
    /// concern its kind: a CPU widget the CPU sample, a GPU widget one sample
    /// per graphics device.
    pub open spec fn took_samples(
        &self,
        cpu: &CpuSample,
        gpus: Seq<GpuSample>,
        after: &Device,
    ) -> bool {
        match (*self, *after) {
            (Device::Cpu(a), Device::Cpu(b)) => {
                &&& b.name == a.name
                &&& b.frame == a.frame
                &&& b.symbol == a.symbol
                &&& b.print_data == a.print_data
                &&& b.print_bands == a.print_bands
                &&& b.cpu_info.cpu_count == a.cpu_info.cpu_count
                &&& forall|i: int|
                    0 <= i < a.cpu_info.cpu_count ==> #[trigger] b.cpu_info.cpus_usage@[i] == if i
                        < cpu.cpu_usage@.len() {
                        cpu.cpu_usage@[i]
                    } else {
                        a.cpu_info.cpus_usage@[i]
                    }
                &&& b.cpu_info.ram_used == megabytes(cpu.ram_used)
                &&& b.cpu_info.ram_total == megabytes(cpu.ram_total)
                &&& b.cpu_info.swap_used == megabytes(cpu.swap_used)
                &&& b.cpu_info.swap_total == megabytes(cpu.swap_total)
            },
            (Device::Gpu(a), Device::Gpu(b)) => {
                &&& b.name == a.name
                &&& b.frame == a.frame
                &&& b.symbol == a.symbol
                &&& b.print_data == a.print_data
                &&& b.print_bands == a.print_bands
                &&& b.devices@.len() == a.devices@.len()
                &&& forall|i: int|
                    0 <= i < a.devices@.len() ==> {
                        let before = a.devices@[i];
                        let after = #[trigger] b.devices@[i];
                        if i < gpus.len() {
                            let s = gpus[i];
                            &&& after.gpu_info == before.gpu_info
                            &&& after.temperature == s.temperature
                            &&& after.memory_used == megabytes(s.memory_used)
                            &&& after.memory_total == megabytes(s.memory_total)
                            &&& after.utilization_rates == s.utilization
                        } else {
                            after == before
                        }
                    }
            },
            _ => false,
        }
    }

    /// Takes in the samples that concern the widget's kind: the CPU sample
    /// for a CPU widget, one sample per graphics device for a GPU widget.
    pub fn update(&mut self, cpu: &CpuSample, gpus: &Vec<GpuSample>)
        requires
            old(self).wf(),
        ensures
            final(self).wf(),
            old(self).took_samples(cpu, gpus@, final(self)),
    {
        match self {
            Device::Cpu(c) => c.update(cpu),
            Device::Gpu(g) => g.update(gpus),
        }
    }

    /// Whether this is a fresh widget for `tile`, of the given kind, drawn
    /// with `symbol`, over the machine's processors and graphics devices.
    pub open spec fn created(
        &self,
        tile: &DeviceTile,
        kind: DeviceKind,
        symbol: Seq<char>,
        hardware: &Hardware,
    ) -> bool {
        &&& self.kind() == kind
        &&& match self {
            Device::Cpu(c) => c.created(tile, symbol, hardware.cpu_count),
            Device::Gpu(g) => g.created(tile, symbol, hardware.gpus@),
        }
    }
}

/// What the machine has to show: its number of logical cores and the
/// identity of each graphics device.
pub struct Hardware {
    pub cpu_count: usize,
    pub gpus: Vec<GpuIdentity>,
}

/// Creates a widget of the given kind for `tile`.
pub fn create_device(tile: &DeviceTile, kind: DeviceKind, symbol: &str, hardware: &Hardware) -> (r:
    Device)
    requires
        frame_of(*tile).fits(),
    ensures
        r.wf(),
        r.created(tile, kind, symbol@, hardware),
{
    match kind {
        DeviceKind::Cpu => crate::cpu_device::create_device(tile, symbol, hardware.cpu_count),
        DeviceKind::Gpu => crate::gpu_device::create_device(tile, symbol, &hardware.gpus),
    }
}

/// Resizing a widget twice to the same tile leaves it as resizing it once
/// does: the same kind, name, readings and rectangle, the same buffer, and
/// so the same rows and colour bands on the next render.
pub proof fn lemma_resize_idempotent(w0: Device, w1: Device, w2: Device, tile: DeviceTile)
    requires
        w0.resized(&tile, &w1),
        w1.resized(&tile, &w2),
    ensures
        w2.kind() == w1.kind(),
        w2.name_view() == w1.name_view(),
        w2.frame() == w1.frame(),
        w2.buffer() == w1.buffer(),
        w2.band_buffer() == w1.band_buffer(),
        w2.displayed() == w1.displayed(),
        w2.displayed_bands() == w1.displayed_bands(),
{
}

/// The table from kind names to widget kinds, later entries taking
/// precedence over earlier ones of the same name.
pub struct DeviceRegistry {
    pub entries: Vec<(String, DeviceKind)>,
}

/// The map a list of entries stands for.
pub open spec fn entries_map(entries: Seq<(String, DeviceKind)>) -> Map<Seq<char>, DeviceKind>
    decreases entries.len(),
{
    if entries.len() == 0 {
        Map::empty()
    } else {
        entries_map(entries.drop_last()).insert(entries.last().0@, entries.last().1)
    }
}

proof fn lemma_entries_map_absent(entries: Seq<(String, DeviceKind)>, key: Seq<char>)
    requires
        forall|i: int| 0 <= i < entries.len() ==> (#[trigger] entries[i]).0@ != key,
    ensures
        !entries_map(entries).contains_key(key),
    decreases entries.len(),
{
    if entries.len() > 0 {
        let init = entries.drop_last();
        assert forall|i: int| 0 <= i < init.len() implies (#[trigger] init[i]).0@ != key by {
            assert(init[i] == entries[i]);
        }
        lemma_entries_map_absent(init, key);
    }
}

proof fn lemma_entries_map_last(entries: Seq<(String, DeviceKind)>, key: Seq<char>, i: int)
    requires
        0 <= i < entries.len(),
        entries[i].0@ == key,
        forall|j: int| i < j < entries.len() ==> (#[trigger] entries[j]).0@ != key,
    ensures
        entries_map(entries).contains_key(key),
        entries_map(entries)[key] == entries[i].1,
    decreases entries.len(),
{
    if i < entries.len() - 1 {
        let init = entries.drop_last();
        assert(init[i] == entries[i]);
        assert forall|j: int| i < j < init.len() implies (#[trigger] init[j]).0@ != key by {
            assert(init[j] == entries[j]);
        }
        lemma_entries_map_last(init, key, i);
    }
}

impl View for DeviceRegistry {
    type V = Map<Seq<char>, DeviceKind>;

    open spec fn view(&self) -> Map<Seq<char>, DeviceKind> {
        entries_map(self.entries@)
    }
}

impl DeviceRegistry {
    /// An empty registry.
    pub fn empty() -> (r: DeviceRegistry)
        ensures
            r@ == Map::<Seq<char>, DeviceKind>::empty(),
    {
        DeviceRegistry { entries: Vec::new() }
    }

    /// The registry of the built-in kinds: `cpu` and `gpu`.
    pub fn new() -> (r: DeviceRegistry)
        ensures
            r@ == Map::<Seq<char>, DeviceKind>::empty().insert("cpu"@, DeviceKind::Cpu).insert(
                "gpu"@,
                DeviceKind::Gpu,
            ),
    {
        let mut r = DeviceRegistry::empty();
        r.register(String::from_str("cpu"), DeviceKind::Cpu);
        r.register(String::from_str("gpu"), DeviceKind::Gpu);
        r
    }

    /// Maps `name` to `kind`, replacing what it mapped to before.
    pub fn register(&mut self, name: String, kind: DeviceKind)
        ensures
            final(self)@ == old(self)@.insert(name@, kind),
    {
        let ghost before = self.entries@;
        self.entries.push((name, kind));
        proof {
            assert(self.entries@.drop_last() =~= before);
        }
    }

    /// The kind `name` maps to, if any.
    pub fn lookup(&self, name: &String) -> (r: Option<DeviceKind>)
        ensures
            r == if self@.contains_key(name@) {
                Some(self@[name@])
            } else {
                None::<DeviceKind>
            },
    {
        let mut i: usize = self.entries.len();
        while i > 0
            invariant
                i <= self.entries@.len(),
                forall|j: int|
                    i <= j < self.entries@.len() ==> (#[trigger] self.entries@[j]).0@ != name@,
            decreases i,
        {
            let e = &self.entries[i - 1];
            if e.0 == *name {
                proof {
                    lemma_entries_map_last(self.entries@, name@, i - 1);
                }
                return Some(e.1);
            }
            i = i - 1;
        }
        proof {
            lemma_entries_map_absent(self.entries@, name@);
        }
        None
    }
}

} // verus!
