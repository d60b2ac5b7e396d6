//! The size of the window's icons on Windows.

use vstd::prelude::*;

verus! {

/// The dots per inch at which sizes are given.
pub const BASE_DPI: u32 = 96;

/// The size of the taskbar's icon at that resolution.
pub const TASKBAR_ICON_LOGICAL_SIZE: u32 = 24;

/// The size of the taskbar's icon, rounded to the nearest.
pub open spec fn taskbar_size(dpi: u32) -> int {
    (TASKBAR_ICON_LOGICAL_SIZE * dpi + BASE_DPI / 2) / (BASE_DPI as int)
}

/// The size of the taskbar's icon, rounded to the nearest.
pub fn taskbar_icon_size(dpi: u32) -> (size: i32)
    requires
        TASKBAR_ICON_LOGICAL_SIZE * dpi + BASE_DPI / 2 <= u32::MAX,
    ensures
        size == taskbar_size(dpi),
{
    ((TASKBAR_ICON_LOGICAL_SIZE * dpi + BASE_DPI / 2) / BASE_DPI) as i32
}

/// Keeps the resolution that the window's icons were loaded for.
#[derive(Debug)]
pub struct WindowIconManager {
    pub dpi: u32,
}

impl WindowIconManager {
    /// The size of the taskbar's icon that has to be loaded, where the resolution
    /// has changed.
    pub fn refresh(&self, dpi: u32) -> (size: Option<i32>)
        requires
            TASKBAR_ICON_LOGICAL_SIZE * dpi + BASE_DPI / 2 <= u32::MAX,
        ensures
            match size {
                None => dpi == self.dpi,
                Some(size) => dpi != self.dpi && size == taskbar_size(dpi),
            },
    {
        if dpi == self.dpi {
            None
        } else {
            Some(taskbar_icon_size(dpi))
        }
    }
}

} // verus!
