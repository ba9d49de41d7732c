use vstd::prelude::*;

verus! {

/// A request to set the DWM cloak attribute of a window: 1 hides it from
/// the user while DWM keeps composing it, 0 shows it again.
#[derive(Clone, Copy, Debug, PartialEq, Eq, Structural)]
pub struct CloakRequest {
    pub hwnd: isize,
    pub cloak: u32,
}

/// The cloak request for the main window `hwnd` (0 when it was not found):
/// none without a window, otherwise one that sets the attribute to `value`.
pub open spec fn cloak_request(hwnd: isize, value: u32) -> Option<CloakRequest> {
    if hwnd == 0 {
        None
    } else {
        Some(CloakRequest { hwnd, cloak: value })
    }
}

/// Hide the main window before a capture: cloak it, so that it leaves the
/// screen without a black flash.
pub fn hide_for_capture(hwnd: isize) -> (r: Option<CloakRequest>)
    ensures
        r == cloak_request(hwnd, 1),
{
    if hwnd == 0 {
        return None;
    }
    Some(CloakRequest { hwnd, cloak: 1 })
}

/// Show the main window again after the overlay: uncloak it.
pub fn reveal_main(hwnd: isize) -> (r: Option<CloakRequest>)
    ensures
        r == cloak_request(hwnd, 0),
{
    if hwnd == 0 {
        return None;
    }
    Some(CloakRequest { hwnd, cloak: 0 })
}

} // verus!
