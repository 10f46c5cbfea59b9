//! The monitors and webcams offered to record from.

use vstd::prelude::*;

use crate::text::{decimal, push_decimal};

verus! {

/// A monitor as offered to the user.
#[derive(Debug, PartialEq, Eq)]
pub struct MonitorInfo {
    pub index: usize,
    pub name: String,
    pub width: u32,
    pub height: u32,
    pub is_primary: bool,
}

/// A webcam as offered to the user.
#[derive(Debug, PartialEq, Eq)]
pub struct WebcamInfo {
    pub index: usize,
    pub name: String,
}

/// What the system reported of one monitor; each property may have failed
/// to be read.
#[derive(Debug, PartialEq, Eq)]
pub struct MonitorReading {
    pub name: Option<String>,
    pub width: Option<u32>,
    pub height: Option<u32>,
    pub is_primary: Option<bool>,
}

/// The name a monitor is shown with when it could not be read.
pub open spec fn unknown_name() -> Seq<char> {
    "Unknown"@
}

/// Width assumed when the monitor's could not be read.
pub const DEFAULT_WIDTH: u32 = 1920;

/// Height assumed when the monitor's could not be read.
pub const DEFAULT_HEIGHT: u32 = 1080;

/// The monitor at `index` as offered: what was read of it, with
/// `Unknown`, 1920, 1080 and not primary standing in for what was not.
pub open spec fn describes_monitor(info: MonitorInfo, index: int, reading: MonitorReading) -> bool {
    &&& info.index == index
    &&& info.name@ == match reading.name {
        Some(n) => n@,
        None => unknown_name(),
    }
    &&& info.width == match reading.width {
        Some(w) => w,
        None => DEFAULT_WIDTH,
    }
    &&& info.height == match reading.height {
        Some(h) => h,
        None => DEFAULT_HEIGHT,
    }
    &&& info.is_primary == match reading.is_primary {
        Some(p) => p,
        None => false,
    }
}

/// A monitor is offered with what the system reported of it: the name,
/// size and primary flag read from it where they could be read, `Unknown`,
/// 1920x1080 and not primary where they could not.
pub proof fn lemma_monitor_as_reported(info: MonitorInfo, index: int, reading: MonitorReading)
    requires
        describes_monitor(info, index, reading),
    ensures
        info.index == index,
        forall|n: String| reading.name == Some(n) ==> info.name@ == n@,
        reading.name is None ==> info.name@ == "Unknown"@,
        forall|w: u32| reading.width == Some(w) ==> info.width == w,
        reading.width is None ==> info.width == 1920,
        forall|h: u32| reading.height == Some(h) ==> info.height == h,
        reading.height is None ==> info.height == 1080,
        forall|p: bool| reading.is_primary == Some(p) ==> info.is_primary == p,
        reading.is_primary is None ==> !info.is_primary,
{
}

/// The monitor at `index` as offered to the user.
pub fn describe_monitor(index: usize, reading: &MonitorReading) -> (r: MonitorInfo)
    ensures
        describes_monitor(r, index as int, *reading),
{
    let name = match &reading.name {
        Some(n) => n.clone(),
        None => String::from_str("Unknown"),
    };
    let width = match reading.width {
        Some(w) => w,
        None => DEFAULT_WIDTH,
    };
    let height = match reading.height {
        Some(h) => h,
        None => DEFAULT_HEIGHT,
    };
    let is_primary = match reading.is_primary {
        Some(p) => p,
        None => false,
    };
    MonitorInfo { index, name, width, height, is_primary }
}

/// The monitors as offered to the user, numbered in the order the system
/// listed them.
pub fn describe_monitors(readings: &Vec<MonitorReading>) -> (r: Vec<MonitorInfo>)
    ensures
        r@.len() == readings@.len(),
        forall|i: int| 0 <= i < r@.len() ==> describes_monitor(#[trigger] r@[i], i, readings@[i]),
{
    let mut out: Vec<MonitorInfo> = Vec::new();
    let mut i: usize = 0;
    while i < readings.len()
        invariant
            i <= readings@.len(),
            out@.len() == i,
            forall|k: int| 0 <= k < i ==> describes_monitor(#[trigger] out@[k], k, readings@[k]),
        decreases readings@.len() - i,
    {
        out.push(describe_monitor(i, &readings[i]));
        i = i + 1;
    }
    out
}

/// The webcams as offered to the user, numbered in the order the system
/// listed them.
pub fn describe_webcams(names: &Vec<String>) -> (r: Vec<WebcamInfo>)
    ensures
        r@.len() == names@.len(),
        forall|i: int| 0 <= i < r@.len() ==> (#[trigger] r@[i]).index == i && r@[i].name == names@[i],
{
    let mut out: Vec<WebcamInfo> = Vec::new();
    let mut i: usize = 0;
    while i < names.len()
        invariant
            i <= names@.len(),
            out@.len() == i,
            forall|k: int| 0 <= k < i ==> (#[trigger] out@[k]).index == k && out@[k].name == names@[k],
        decreases names@.len() - i,
    {
        out.push(WebcamInfo { index: i, name: names[i].clone() });
        i = i + 1;
    }
    out
}

/// The message for a monitor index that the system does not list.
pub open spec fn monitor_not_found_of(index: nat) -> Seq<char> {
    "Monitor index "@ + decimal(index) + " was not found"@
}

/// Recording needs a monitor the system lists: `index` must be below
/// `count`.
pub fn check_monitor_index(index: usize, count: usize) -> (r: Result<(), String>)
    ensures
        r is Ok <==> index < count,
        match r {
            Ok(()) => true,
            Err(m) => m@ == monitor_not_found_of(index as nat),
        },
{
    if index < count {
        Ok(())
    } else {
        let mut m = String::from_str("Monitor index ");
        push_decimal(&mut m, index as u64);
        m.append(" was not found");
        Err(m)
    }
}

} // verus!
