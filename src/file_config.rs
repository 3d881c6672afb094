//! The declarative device list: where each widget belongs on a coarse grid.
use vstd::prelude::*;
use vstd::string::*;

verus! {

/// One device placement, in grid units: its kind, its top-left cell as
/// `(row, column)`, and its size.
pub struct FileDevice {
    pub device_type: String,
    pub top_left: (u8, u8),
    pub width: u8,
    pub height: u8,
}

/// A configuration: its name, the glyph that bars are drawn with, and the
/// ordered device placements.
pub struct FileConfig {
    pub name: String,
    pub symbol: String,
    pub devices: Vec<FileDevice>,
}

/// Whether `d` is the placement of kind `kind` at `(row, col)` of the given
/// size.
pub open spec fn placement_is(d: FileDevice, kind: Seq<char>, row: u8, col: u8, w: u8, h: u8) -> bool {
    &&& d.device_type@ == kind
    &&& d.top_left == (row, col)
    &&& d.width == w
    &&& d.height == h
}

/// The built-in layout: a CPU widget one cell wide and two high on the left,
/// a GPU widget two cells wide and one high beside it at the top.
pub open spec fn is_default_layout(devices: Seq<FileDevice>) -> bool {
    &&& devices.len() == 2
    &&& placement_is(devices[0], "cpu"@, 0, 0, 1, 2)
    &&& placement_is(devices[1], "gpu"@, 0, 1, 2, 1)
}

/// The name of a configuration that was given none.
pub fn get_default_name() -> (r: String)
    ensures
        r@ == "default"@,
{
    String::from_str("default")
}

/// The glyph bars are drawn with.
pub fn get_default_symbol() -> (r: String)
    ensures
        r@ == "|"@,
{
    String::from_str("|")
}

fn placement(kind: &str, row: u8, col: u8, width: u8, height: u8) -> (r: FileDevice)
    ensures
        placement_is(r, kind@, row, col, width, height),
{
    FileDevice { device_type: String::from_str(kind), top_left: (row, col), width, height }
}

impl FileConfig {
    /// The configuration named `config_name`. An empty name selects the
    /// built-in layout under the default name; any other name is that of a
    /// configuration file whose placements the caller has read into
    /// `file_devices` (consulted only then).
    pub fn new(config_name: String, file_devices: Vec<FileDevice>) -> (r: FileConfig)
        ensures
            r.symbol@ == "|"@,
            config_name@.len() == 0 ==> r.name@ == "default"@ && is_default_layout(r.devices@),
            config_name@.len() != 0 ==> r.name == config_name && r.devices == file_devices,
    {
        let symbol = get_default_symbol();
        if config_name.as_str().unicode_len() == 0 {
            let mut devices: Vec<FileDevice> = Vec::new();
            devices.push(placement("cpu", 0, 0, 1, 2));
            devices.push(placement("gpu", 0, 1, 2, 1));
            FileConfig { name: get_default_name(), symbol, devices }
        } else {
            FileConfig { name: config_name, symbol, devices: file_devices }
        }
    }
}

} // verus!
