use vstd::prelude::*;

verus! {

/// Wire value of the "unviewable" map state.
pub const MAP_STATE_UNVIEWABLE: u8 = 1;

/// Wire value of the "viewable" map state.
pub const MAP_STATE_VIEWABLE: u8 = 2;

/// Map state of a window as reported by an attribute query.
#[derive(Clone, Copy, Debug, PartialEq, Eq, Structural)]
pub enum MapState {
    Unmapped,
    Unviewable,
    Viewable,
}

/// Map state named by a wire value; values the protocol does not define
/// count as neither viewable nor unviewable.
pub open spec fn map_state_of(raw: u8) -> MapState {
    if raw == MAP_STATE_VIEWABLE {
        MapState::Viewable
    } else if raw == MAP_STATE_UNVIEWABLE {
        MapState::Unviewable
    } else {
        MapState::Unmapped
    }
}

impl MapState {
    /// Reads a map state off the wire.
    pub fn from_wire(raw: u8) -> (r: MapState)
        ensures
            r == map_state_of(raw),
    {
        if raw == MAP_STATE_VIEWABLE {
            MapState::Viewable
        } else if raw == MAP_STATE_UNVIEWABLE {
            MapState::Unviewable
        } else {
            MapState::Unmapped
        }
    }
}

/// Position, size and border of a window as reported by a geometry query.
#[derive(Clone, Copy, Debug, PartialEq, Eq, Structural)]
pub struct Geometry {
    pub x: i16,
    pub y: i16,
    pub width: u16,
    pub height: u16,
    pub border_width: u16,
}

/// Last observed visibility and geometry of one tracked window.
#[derive(Clone, Copy, Debug, PartialEq, Eq, Structural)]
pub struct Window {
    pub mapped: bool,
    pub x: i16,
    pub y: i16,
    pub w: u16,
    pub h: u16,
    pub border: u16,
    /// Set when any render-side resource bound to the window must be made anew.
    pub needs_rebind: bool,
}

/// What building a descriptor from the two query replies came to.
#[derive(Clone, Copy, Debug, PartialEq, Eq, Structural)]
pub enum BuildOutcome {
    /// Both replies arrived and the window is still in the hierarchy.
    Built(Window),
    /// The window was taken out of the hierarchy before the replies came:
    /// an expected race, not a failure.
    Unviewable,
    /// One of the two queries failed.
    Failed,
}

/// The descriptor for a window whose replies report `state` and `g`.
pub open spec fn descriptor_of(state: MapState, g: Geometry) -> Window {
    Window {
        mapped: state == MapState::Viewable,
        x: g.x,
        y: g.y,
        w: g.width,
        h: g.height,
        border: g.border_width,
        needs_rebind: true,
    }
}

/// Outcome of a build from the attribute reply and the geometry reply,
/// `None` standing for a reply that reported an error.
pub open spec fn build_outcome_of(attrs: Option<MapState>, geometry: Option<Geometry>) -> BuildOutcome {
    match (attrs, geometry) {
        (Some(state), Some(g)) => if state == MapState::Unviewable {
            BuildOutcome::Unviewable
        } else {
            BuildOutcome::Built(descriptor_of(state, g))
        },
        _ => BuildOutcome::Failed,
    }
}

impl Window {
    /// Builds a descriptor from the replies to the attribute query and the
    /// geometry query issued together for one window. A failed reply fails
    /// the whole build; an unviewable window yields no descriptor.
    pub fn from_replies(attrs: Option<MapState>, geometry: Option<Geometry>) -> (r: BuildOutcome)
        ensures
            r == build_outcome_of(attrs, geometry),
    {
        let state = match attrs {
            Some(s) => s,
            None => return BuildOutcome::Failed,
        };
        let g = match geometry {
            Some(g) => g,
            None => return BuildOutcome::Failed,
        };
        if state == MapState::Unviewable {
            return BuildOutcome::Unviewable;
        }
        BuildOutcome::Built(
            Window {
                mapped: state == MapState::Viewable,
                x: g.x,
                y: g.y,
                w: g.width,
                h: g.height,
                border: g.border_width,
                needs_rebind: true,
            },
        )
    }
}

} // verus!
