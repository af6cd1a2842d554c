//! Placing, sizing and showing the overlay window.
//!
//! The overlay is a transparent window stretched over the monitor it is on.
//! The window system is queried and driven by the caller; this module decides
//! where the window goes, which size the stage reports, and what the
//! show/hide control does.
use vstd::prelude::*;

verus! {

/// The platform the overlay runs on, as far as placement depends on it.
#[derive(Clone, Copy, Debug, PartialEq, Eq, Structural)]
pub enum Platform {
    /// macOS, where the monitor's reported position may start below the menu bar.
    MacOs,
    /// Any other desktop platform.
    Other,
}

/// A monitor's position and size in physical pixels.
#[derive(Clone, Copy, Debug, PartialEq, Eq, Structural)]
pub struct MonitorGeometry {
    pub x: i32,
    pub y: i32,
    pub width: u32,
    pub height: u32,
}

/// Where the overlay window goes and how large it is, in physical pixels.
#[derive(Clone, Copy, Debug, PartialEq, Eq, Structural)]
pub struct OverlayFrame {
    pub x: i32,
    pub y: i32,
    pub width: u32,
    pub height: u32,
}

/// Whether the overlay's height can be computed without overflow: on macOS the
/// window is pinned to the top of the screen, so the part of the monitor above
/// its reported position is added to its height.
pub open spec fn overlay_fits(platform: Platform, m: MonitorGeometry) -> bool {
    platform == Platform::MacOs ==> m.height + (m.y as u32) <= u32::MAX
}

/// The frame that covers the monitor: on macOS it starts at the very top
/// (`y = 0`) and is taller by the monitor's vertical offset, so that it covers
/// the menu bar too; elsewhere it is the monitor's own frame.
pub open spec fn covering_frame(platform: Platform, m: MonitorGeometry) -> OverlayFrame {
    match platform {
        Platform::MacOs => OverlayFrame {
            x: m.x,
            y: 0,
            width: m.width,
            height: (m.height + (m.y as u32)) as u32,
        },
        Platform::Other => OverlayFrame { x: m.x, y: m.y, width: m.width, height: m.height },
    }
}

/// The frame to give the overlay so that it covers the current monitor; no
/// frame when the current monitor is unknown (the window is then left alone).
pub fn overlay_frame(platform: Platform, monitor: Option<MonitorGeometry>) -> (f: Option<
    OverlayFrame,
>)
    requires
        monitor matches Some(m) ==> overlay_fits(platform, m),
    ensures
        f == (match monitor {
            Some(m) => Some(covering_frame(platform, m)),
            None => None,
        }),
        f is None <==> monitor is None,
        monitor matches Some(m) ==> (f matches Some(fr) && fr.x == m.x && fr.width == m.width),
        monitor matches Some(m) ==> (platform == Platform::MacOs ==> (f matches Some(fr) && fr.y
            == 0 && fr.height == m.height + (m.y as u32))),
        monitor matches Some(m) ==> (platform == Platform::Other ==> f == Some(
            OverlayFrame { x: m.x, y: m.y, width: m.width, height: m.height },
        )),
{
    match monitor {
        None => None,
        Some(m) => match platform {
            Platform::MacOs => Some(
                OverlayFrame { x: m.x, y: 0, width: m.width, height: m.height + (m.y as u32) },
            ),
            Platform::Other => Some(
                OverlayFrame { x: m.x, y: m.y, width: m.width, height: m.height },
            ),
        },
    }
}

/// A width and a height in physical pixels.
#[derive(Clone, Copy, Debug, PartialEq, Eq, Structural)]
pub struct PixelSize {
    pub width: u32,
    pub height: u32,
}

/// Width of the stage reported when neither the window nor its monitor can be measured.
pub const FALLBACK_STAGE_WIDTH: u32 = 1280;

/// Height of the stage reported when neither the window nor its monitor can be measured.
pub const FALLBACK_STAGE_HEIGHT: u32 = 800;

/// Which measurement the stage size comes from. The caller divides a
/// window or monitor size by that window's or monitor's scale factor; the
/// fallback is already in logical pixels.
#[derive(Clone, Copy, Debug, PartialEq, Eq, Structural)]
pub enum StageBasis {
    Window(PixelSize),
    Monitor(PixelSize),
    Fallback(PixelSize),
}

/// The stage size's source: the window's inner size when known, else the
/// current monitor's size when known, else the fixed fallback.
pub open spec fn stage_basis(window_inner: Option<PixelSize>, monitor: Option<PixelSize>) -> StageBasis {
    match window_inner {
        Some(w) => StageBasis::Window(w),
        None => match monitor {
            Some(m) => StageBasis::Monitor(m),
            None => StageBasis::Fallback(
                PixelSize { width: FALLBACK_STAGE_WIDTH, height: FALLBACK_STAGE_HEIGHT },
            ),
        },
    }
}

/// Chooses where the stage size comes from.
pub fn stage_size_basis(window_inner: Option<PixelSize>, monitor: Option<PixelSize>) -> (b:
    StageBasis)
    ensures
        b == stage_basis(window_inner, monitor),
        window_inner matches Some(w) ==> b == StageBasis::Window(w),
        window_inner is None ==> (monitor matches Some(m) ==> b == StageBasis::Monitor(m)),
        window_inner is None && monitor is None ==> b == StageBasis::Fallback(
            PixelSize { width: 1280, height: 800 },
        ),
{
    match window_inner {
        Some(w) => StageBasis::Window(w),
        None => match monitor {
            Some(m) => StageBasis::Monitor(m),
            None => StageBasis::Fallback(
                PixelSize { width: FALLBACK_STAGE_WIDTH, height: FALLBACK_STAGE_HEIGHT },
            ),
        },
    }
}

/// A known window size is always the stage's basis, whatever its value and
/// whatever the monitor reports; the monitor's size is used only when the
/// window's is unknown, and the fixed 1280 by 800 only when both are.
pub proof fn lemma_stage_prefers_window(w: PixelSize, m: PixelSize, monitor: Option<PixelSize>)
    ensures
        stage_basis(Some(w), monitor) == StageBasis::Window(w),
        stage_basis(None, Some(m)) == StageBasis::Monitor(m),
        stage_basis(None, None) == StageBasis::Fallback(PixelSize { width: 1280, height: 800 }),
        stage_basis(Some(w), monitor) == stage_basis(Some(w), None),
{
}

/// What a press of the show/hide control does, given whether the window
/// reported itself visible (`None` when the query failed).
#[derive(Clone, Copy, Debug, PartialEq, Eq, Structural)]
pub enum ToggleAction {
    /// The window is visible: hide it.
    Hide,
    /// The window is hidden (or its state is unknown): stretch it over the
    /// current monitor, then show it.
    CoverAndShow,
}

/// The show/hide decision; an unknown visibility counts as hidden.
pub open spec fn toggle_decision(visible: Option<bool>) -> ToggleAction {
    if visible == Some(true) {
        ToggleAction::Hide
    } else {
        ToggleAction::CoverAndShow
    }
}

/// Whether the window is visible once an action has been carried out.
pub open spec fn visible_after(action: ToggleAction) -> bool {
    match action {
        ToggleAction::Hide => false,
        ToggleAction::CoverAndShow => true,
    }
}

/// Chooses what the show/hide control does.
pub fn toggle_action(visible: Option<bool>) -> (action: ToggleAction)
    ensures
        action == toggle_decision(visible),
        action == ToggleAction::Hide <==> visible == Some(true),
{
    match visible {
        Some(true) => ToggleAction::Hide,
        _ => ToggleAction::CoverAndShow,
    }
}

/// The show/hide control flips a known visibility, so pressing it twice
/// restores the window's visibility; a window of unknown visibility is shown.
pub proof fn lemma_toggle_flips(visible: bool)
    ensures
        visible_after(toggle_decision(Some(visible))) == !visible,
        visible_after(toggle_decision(Some(visible_after(toggle_decision(Some(visible))))))
            == visible,
        visible_after(toggle_decision(None)),
{
}

/// Every frame the overlay is given covers its monitor horizontally, and on
/// macOS it reaches from the top of the screen to the monitor's bottom edge.
pub proof fn lemma_frame_covers_monitor(platform: Platform, m: MonitorGeometry)
    requires
        overlay_fits(platform, m),
        platform == Platform::MacOs ==> m.y >= 0,
    ensures
        platform == Platform::MacOs ==> covering_frame(platform, m).height == m.height + (m.y as u32),
        covering_frame(platform, m).x == m.x,
        covering_frame(platform, m).width == m.width,
        platform == Platform::MacOs ==> covering_frame(platform, m).y == 0
            && covering_frame(platform, m).y + covering_frame(platform, m).height == m.y
            + m.height,
        platform == Platform::Other ==> covering_frame(platform, m) == (OverlayFrame {
            x: m.x,
            y: m.y,
            width: m.width,
            height: m.height,
        }),
{
}

} // verus!
