//! Platform message codes and flags that the event core interprets.
use vstd::prelude::*;

verus! {

/// Sent while a window is being created.
pub const WM_CREATE: u32 = 0x0001;
/// Sent when a window is being destroyed.
pub const WM_DESTROY: u32 = 0x0002;
/// Posted after a window's size has changed; `l_param` packs the new size.
pub const WM_SIZE: u32 = 0x0005;
/// Sent when a window should repaint.
pub const WM_PAINT: u32 = 0x000F;
/// Sent when a window should close.
pub const WM_CLOSE: u32 = 0x0010;
/// Sent when the background must be erased.
pub const WM_ERASEBKGND: u32 = 0x0014;
/// Sent to query the scaled size of a window for a proposed DPI.
pub const WM_GETDPISCALEDSIZE: u32 = 0x02E4;
/// Removal flag for non-blocking message retrieval.
pub const PM_REMOVE: u32 = 0x0001;
/// Index of the per-window user-data slot.
pub const GWLP_USERDATA: i32 = -21;

} // verus!
