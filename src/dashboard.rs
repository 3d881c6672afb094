//! The dashboard controller: owns the widgets, lays them out again when the
//! terminal is resized, and turns each render cycle into cell writes. The
//! caller runs the loop: it polls events, hands them in, and performs the
//! returned action.
use vstd::prelude::*;
use vstd::string::*;
use crate::app_config::{first_overlap, has_overlap, is_layout, AppConfig, DeviceTile, OverlapError};
use crate::cpu_info::CpuSample;
use crate::device_model::{create_device, Device, DeviceKind, DeviceRegistry, Hardware};
use crate::frame::rows_view;
use crate::gpu_info::GpuSample;
use crate::ui::Band;

verus! {

/// Where the dashboard is in its life.
#[derive(Clone, Copy, Debug, PartialEq, Eq, Structural)]
pub enum Phase {
    Initializing,
    Running,
    ShuttingDown,
}

/// What happened between two render cycles.
#[derive(Clone, Copy, Debug, PartialEq, Eq, Structural)]
pub enum Event {
    /// Nothing: the refresh period passed.
    Tick,
    /// The user asked to quit.
    Quit,
    /// The terminal now has this many columns and rows.
    Resize(u16, u16),
}

/// What the caller does next.
#[derive(Clone, Copy, Debug, PartialEq, Eq, Structural)]
pub enum Action {
    /// Go on with the next cycle.
    Continue,
    /// Clear the screen, then go on: the layout changed.
    Redraw,
    /// Report that the placements overlap on the new canvas, then go on
    /// with the last good layout.
    ReportOverlap(OverlapError),
    /// Restore the terminal and stop.
    Exit,
}

/// Text to write at a terminal cell, with the colour band of the bar it
/// holds, if any.
pub struct CellWrite {
    pub row: u16,
    pub col: u16,
    pub text: String,
    pub band: Option<Band>,
}

/// The live dashboard: the configuration with its current tiles, the
/// widgets, and for each widget the index of the tile it shows.
pub struct Dashboard {
    pub config: AppConfig,
    pub devices: Vec<Device>,
    pub slots: Vec<usize>,
    pub phase: Phase,
}

/// The indices of the tiles whose kind the registry knows, in order.
pub open spec fn known_slots(tiles: Seq<DeviceTile>, registry: Map<Seq<char>, DeviceKind>) -> Seq<
    usize,
>
    decreases tiles.len(),
{
    if tiles.len() == 0 {
        Seq::empty()
    } else {
        let s = known_slots(tiles.drop_last(), registry);
        if registry.contains_key(tiles.last().name@) {
            s.push((tiles.len() - 1) as usize)
        } else {
            s
        }
    }
}

/// The kinds of the tiles the registry does not know, in order.
pub open spec fn unknown_names(tiles: Seq<DeviceTile>, registry: Map<Seq<char>, DeviceKind>) -> Seq<
    Seq<char>,
>
    decreases tiles.len(),
{
    if tiles.len() == 0 {
        Seq::empty()
    } else {
        let s = unknown_names(tiles.drop_last(), registry);
        if registry.contains_key(tiles.last().name@) {
            s
        } else {
            s.push(tiles.last().name@)
        }
    }
}

/// The cell where a widget's first row is written: inside the border when
/// there is content, the tile's corner otherwise.
pub open spec fn origin(d: Device) -> (int, int) {
    if d.frame().has_content() {
        (d.frame().row + 1, d.frame().col + 1)
    } else {
        (d.frame().row as int, d.frame().col as int)
    }
}

/// The writes of one widget's rendered rows, one row per line downward,
/// each with its colour band.
pub open spec fn device_writes(d: Device) -> Seq<(int, int, Seq<char>, Option<Band>)> {
    Seq::new(
        d.displayed().len(),
        |i: int| (origin(d).0 + i, origin(d).1, d.displayed()[i], d.displayed_bands()[i]),
    )
}

/// The writes of a render cycle over `devices`, widget by widget.
pub open spec fn writes_of(devices: Seq<Device>) -> Seq<(int, int, Seq<char>, Option<Band>)>
    decreases devices.len(),
{
    if devices.len() == 0 {
        Seq::empty()
    } else {
        writes_of(devices.drop_last()) + device_writes(devices.last())
    }
}

/// The views of cell writes.
pub open spec fn writes_view(writes: Seq<CellWrite>) -> Seq<(int, int, Seq<char>, Option<Band>)> {
    writes.map_values(|w: CellWrite| (w.row as int, w.col as int, w.text@, w.band))
}

impl Dashboard {
    /// The configuration is consistent, and each widget is consistent and
    /// shows an existing tile.
    pub open spec fn wf(&self) -> bool {
        &&& self.config.wf()
        &&& self.devices@.len() == self.slots@.len()
        &&& forall|k: int|
            0 <= k < self.slots@.len() ==> #[trigger] self.slots@[k] < self.config.tiles@.len()
        &&& forall|k: int| 0 <= k < self.devices@.len() ==> (#[trigger] self.devices@[k]).wf()
    }

    /// Whether `after` is `self` with the layout computed again for a canvas
    /// of `width` x `height` cells, with outcome `r`: on success the new
    /// tiles, each widget moved to its tile; on overlap nothing changed.
    pub open spec fn relaid(
        &self,
        width: u16,
        height: u16,
        after: &Dashboard,
        r: Result<(), OverlapError>,
    ) -> bool {
        &&& after.slots == self.slots
        &&& after.config.name == self.config.name
        &&& after.config.symbol == self.config.symbol
        &&& after.config.devices == self.config.devices
        &&& match r {
            Ok(_) => {
                &&& !has_overlap(self.config.devices@)
                &&& is_layout(self.config.devices@, width, height, after.config.tiles@)
                &&& after.devices@.len() == self.devices@.len()
                &&& forall|k: int|
                    0 <= k < self.devices@.len() ==> self.devices@[k].resized(
                        &after.config.tiles@[self.slots@[k] as int],
                        &#[trigger] after.devices@[k],
                    )
            },
            Err(e) => {
                &&& first_overlap(self.config.devices@, e.first as int, e.second as int)
                &&& after.config.tiles == self.config.tiles
                &&& after.devices == self.devices
            },
        }
    }

    /// Starts the dashboard on `config`: one widget per tile whose kind the
    /// registry knows, in tile order, drawn with the configuration's glyph.
    /// Also returns the kinds of the tiles that were skipped, in order.
    pub fn new(config: AppConfig, registry: &DeviceRegistry, hardware: &Hardware) -> (r: (
        Dashboard,
        Vec<String>,
    ))
        requires
            config.wf(),
        ensures
            r.0.wf(),
            r.0.phase == Phase::Running,
            r.0.config == config,
            r.0.slots@ == known_slots(config.tiles@, registry@),
            forall|k: int|
                0 <= k < r.0.devices@.len() ==> {
                    let t = config.tiles@[r.0.slots@[k] as int];
                    (#[trigger] r.0.devices@[k]).created(
                        &t,
                        registry@[t.name@],
                        config.symbol@,
                        hardware,
                    )
                },
            rows_view(r.1@) == unknown_names(config.tiles@, registry@),
    {
        let mut phase = Phase::Initializing;
        let mut devices: Vec<Device> = Vec::new();
        let mut slots: Vec<usize> = Vec::new();
        let mut unknown: Vec<String> = Vec::new();
        let mut i: usize = 0;
        while i < config.tiles.len()
            invariant
                config.wf(),
                i <= config.tiles@.len(),
                slots@ == known_slots(config.tiles@.take(i as int), registry@),
                rows_view(unknown@) == unknown_names(config.tiles@.take(i as int), registry@),
                devices@.len() == slots@.len(),
                forall|k: int| 0 <= k < slots@.len() ==> #[trigger] slots@[k] < i,
                forall|k: int| 0 <= k < devices@.len() ==> (#[trigger] devices@[k]).wf(),
                forall|k: int|
                    0 <= k < devices@.len() ==> {
                        let t = config.tiles@[slots@[k] as int];
                        (#[trigger] devices@[k]).created(
                            &t,
                            registry@[t.name@],
                            config.symbol@,
                            hardware,
                        )
                    },
            decreases config.tiles.len() - i,
        {
            let tile = &config.tiles[i];
            proof {
                let tiles = config.tiles@;
                assert(tiles.take(i + 1).drop_last() =~= tiles.take(i as int));
                assert(tiles.take(i + 1).last() == tiles[i as int]);
                assert(crate::frame::frame_of(tiles[i as int]).fits());
            }
            let ghost old_slots = slots@;
            let ghost old_devices = devices@;
            match registry.lookup(&tile.name) {
                Some(kind) => {
                    let d = create_device(tile, kind, config.symbol.as_str(), hardware);
                    proof {
                        assert(kind == registry@[tile.name@]);
                        assert(d.created(tile, registry@[tile.name@], config.symbol@, hardware));
                    }
                    devices.push(d);
                    slots.push(i);
                    proof {
                        assert forall|k: int| 0 <= k < devices@.len() implies {
                            let t = config.tiles@[slots@[k] as int];
                            (#[trigger] devices@[k]).created(
                                &t,
                                registry@[t.name@],
                                config.symbol@,
                                hardware,
                            )
                        } by {
                            if k < old_slots.len() {
                                assert(slots@[k] == old_slots[k]);
                                assert(devices@[k] == old_devices[k]);
                            } else {
                                assert(slots@[k] == i);
                                assert(devices@[k] == d);
                            }
                        }
                        assert forall|k: int| 0 <= k < devices@.len() implies (#[trigger] devices@[
                            k
                        ]).wf() by {
                            if k < old_slots.len() {
                                assert(devices@[k] == old_devices[k]);
                            }
                        }
                        assert forall|k: int| 0 <= k < slots@.len() implies #[trigger] slots@[k]
                            < i + 1 by {
                            if k < old_slots.len() {
                                assert(slots@[k] == old_slots[k]);
                            }
                        }
                    }
                },
                None => {
                    unknown.push(tile.name.clone());
                    proof {
                        assert(rows_view(unknown@) =~= unknown_names(
                            config.tiles@.take(i as int),
                            registry@,
                        ).push(config.tiles@[i as int].name@));
                    }
                },
            }
            i = i + 1;
        }
        proof {
            assert(config.tiles@.take(config.tiles@.len() as int) =~= config.tiles@);
        }
        phase = Phase::Running;
        (Dashboard { config, devices, slots, phase }, unknown)
    }

    /// Lays the placements out again on a canvas of `width` x `height`
    /// cells and moves each widget to its new tile, keeping its readings.
    /// When the placements overlap on the new canvas, nothing changes and
    /// the first overlapping pair is returned.
    pub fn handle_resize(&mut self, width: u16, height: u16) -> (r: Result<(), OverlapError>)
        requires
            old(self).wf(),
        ensures
            final(self).wf(),
            final(self).phase == old(self).phase,
            old(self).relaid(width, height, final(self), r),
    {
        match self.config.update_grid(width, height) {
            Err(e) => Err(e),
            Ok(()) => {
                let n = self.devices.len();
                let mut k: usize = 0;
                while k < n
                    invariant
                        self.config.wf(),
                        self.config.tiles@.len() == old(self).config.tiles@.len(),
                        is_layout(old(self).config.devices@, width, height, self.config.tiles@),
                        self.config.devices == old(self).config.devices,
                        self.config.name == old(self).config.name,
                        self.config.symbol == old(self).config.symbol,
                        self.slots == old(self).slots,
                        self.phase == old(self).phase,
                        n == old(self).devices@.len(),
                        self.devices@.len() == n,
                        self.slots@.len() == n,
                        k <= n,
                        forall|j: int|
                            0 <= j < n ==> #[trigger] self.slots@[j] < self.config.tiles@.len(),
                        forall|j: int|
                            0 <= j < n ==> (#[trigger] self.devices@[j]).wf() && if j < k {
                                old(self).devices@[j].resized(
                                    &self.config.tiles@[self.slots@[j] as int],
                                    &self.devices@[j],
                                )
                            } else {
                                self.devices@[j] == old(self).devices@[j]
                            },
                    decreases n - k,
                {
                    let mut d = self.devices.remove(k);
                    let slot = self.slots[k];
                    proof {
                        assert(self.slots@[k as int] < self.config.tiles@.len());
                    }
                    d.resize(&self.config.tiles[slot]);
                    self.devices.insert(k, d);
                    k = k + 1;
                }
                Ok(())
            },
        }
    }

    /// Reacts to an event. While running: a tick changes nothing; quitting
    /// shuts the dashboard down; a resize lays the widgets out again and asks
    /// for a redraw, or reports the overlap and keeps the last good layout.
    /// Once shut down, every event asks to exit.
    pub fn handle_event(&mut self, event: Event) -> (r: Action)
        requires
            old(self).wf(),
        ensures
            final(self).wf(),
            old(self).phase != Phase::Running ==> r == Action::Exit && *final(self) == *old(self),
            old(self).phase == Phase::Running ==> match event {
                Event::Tick => r == Action::Continue && *final(self) == *old(self),
                Event::Quit => {
                    &&& r == Action::Exit
                    &&& final(self).phase == Phase::ShuttingDown
                    &&& final(self).config == old(self).config
                    &&& final(self).devices == old(self).devices
                    &&& final(self).slots == old(self).slots
                },
                Event::Resize(w, h) => {
                    &&& final(self).phase == Phase::Running
                    &&& exists|res: Result<(), OverlapError>|
                        {
                            &&& #[trigger] old(self).relaid(w, h, final(self), res)
                            &&& r == match res {
                                Ok(_) => Action::Redraw,
                                Err(e) => Action::ReportOverlap(e),
                            }
                        }
                },
            },
    {
        if self.phase != Phase::Running {
            return Action::Exit;
        }
        match event {
            Event::Tick => Action::Continue,
            Event::Quit => {
                self.phase = Phase::ShuttingDown;
                Action::Exit
            },
            Event::Resize(w, h) => {
                let res = self.handle_resize(w, h);
                match res {
                    Ok(()) => Action::Redraw,
                    Err(e) => Action::ReportOverlap(e),
                }
            },
        }
    }

    /// Takes in the latest samples: each CPU widget the CPU sample, each GPU
    /// widget one sample per graphics device.
    pub fn update(&mut self, cpu: &CpuSample, gpus: &Vec<GpuSample>)
        requires
            old(self).wf(),
        ensures
            final(self).wf(),
            final(self).config == old(self).config,
            final(self).slots == old(self).slots,
            final(self).phase == old(self).phase,
            final(self).devices@.len() == old(self).devices@.len(),
            forall|k: int|
                0 <= k < old(self).devices@.len() ==> old(self).devices@[k].took_samples(
                    cpu,
                    gpus@,
                    &#[trigger] final(self).devices@[k],
                ),
    {
        let n = self.devices.len();
        let mut k: usize = 0;
        while k < n
            invariant
                self.config == old(self).config,
                self.slots == old(self).slots,
                self.phase == old(self).phase,
                old(self).wf(),
                n == old(self).devices@.len(),
                self.devices@.len() == n,
                k <= n,
                forall|j: int|
                    0 <= j < n ==> (#[trigger] self.devices@[j]).wf() && if j < k {
                        old(self).devices@[j].took_samples(cpu, gpus@, &self.devices@[j])
                    } else {
                        self.devices@[j] == old(self).devices@[j]
                    },
            decreases n - k,
        {
            let mut d = self.devices.remove(k);
            d.update(cpu, gpus);
            self.devices.insert(k, d);
            k = k + 1;
        }
    }

    /// Renders every widget from its readings and its current tile, and
    /// returns the writes that put the rows on screen: widget by widget,
    /// each row one line below the previous, starting at the widget's
    /// content corner.
    pub fn render(&mut self) -> (r: Vec<CellWrite>)
        requires
            old(self).wf(),
        ensures
            final(self).wf(),
            final(self).config == old(self).config,
            final(self).slots == old(self).slots,
            final(self).phase == old(self).phase,
            final(self).devices@.len() == old(self).devices@.len(),
            forall|k: int|
                0 <= k < old(self).devices@.len() ==> old(self).devices@[k].rendered(
                    &#[trigger] final(self).devices@[k],
                ),
            writes_view(r@) == writes_of(old(self).devices@),
    {
        let n = self.devices.len();
        let mut writes: Vec<CellWrite> = Vec::new();
        let mut k: usize = 0;
        while k < n
            invariant
                self.config == old(self).config,
                self.slots == old(self).slots,
                self.phase == old(self).phase,
                old(self).wf(),
                n == old(self).devices@.len(),
                self.devices@.len() == n,
                k <= n,
                forall|j: int|
                    0 <= j < n ==> (#[trigger] self.devices@[j]).wf() && if j < k {
                        old(self).devices@[j].rendered(&self.devices@[j])
                    } else {
                        self.devices@[j] == old(self).devices@[j]
                    },
                writes_view(writes@) == writes_of(old(self).devices@.take(k as int)),
            decreases n - k,
        {
            let mut d = self.devices.remove(k);
            let ghost before = d;
            proof {
                let ds = old(self).devices@;
                assert(ds.take(k + 1).drop_last() =~= ds.take(k as int));
                assert(ds.take(k + 1).last() == before);
            }
            let pos = d.get_position();
            let ghost base = writes@;
            d.show();
            let rows = d.rows();
            let bands = d.row_bands();
            let ghost shown = before.displayed();
            let ghost shown_bands = before.displayed_bands();
            proof {
                assert(rows_view(rows@).len() == rows@.len());
                assert(shown.len() == before.frame().height);
                assert(shown_bands.len() == before.frame().height);
            }
            let mut i: usize = 0;
            while i < rows.len()
                invariant
                    i <= rows@.len(),
                    rows_view(rows@) == shown,
                    bands@ == shown_bands,
                    shown == before.displayed(),
                    shown_bands == before.displayed_bands(),
                    shown.len() == before.frame().height,
                    shown_bands.len() == before.frame().height,
                    before.frame().fits(),
                    (pos.0 as int, pos.1 as int) == origin(before),
                    writes@.len() == base.len() + i,
                    writes_view(writes@) == writes_view(base) + device_writes(before).take(
                        i as int,
                    ),
                decreases rows@.len() - i,
            {
                proof {
                    assert(rows_view(rows@)[i as int] == rows@[i as int]@);
                }
                let w = CellWrite {
                    row: pos.0 + i as u16,
                    col: pos.1,
                    text: rows[i].clone(),
                    band: bands[i],
                };
                let ghost prev = writes@;
                writes.push(w);
                proof {
                    assert(writes_view(writes@) =~= writes_view(prev).push(
                        (w.row as int, w.col as int, w.text@, w.band),
                    ));
                    assert(device_writes(before)[i as int] == (
                        w.row as int,
                        w.col as int,
                        w.text@,
                        w.band,
                    ));
                }
                i = i + 1;
                proof {
                    assert(writes_view(writes@) =~= writes_view(base) + device_writes(before).take(
                        i as int,
                    ));
                }
            }
            proof {
                assert(device_writes(before).take(i as int) =~= device_writes(before));
            }
            self.devices.insert(k, d);
            k = k + 1;
        }
        proof {
            assert(old(self).devices@.take(n as int) =~= old(self).devices@);
        }
        writes
    }

    /// The status line shown under the widgets.
    pub fn status_line(&self) -> (r: String)
        ensures
            r@ == "q: exit, config: "@ + self.config.name@,
    {
        let mut r = String::from_str("q: exit, config: ");
        r.append(self.config.name.as_str());
        r
    }
}

} // verus!
