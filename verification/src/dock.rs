//! The bookkeeping of a room's mini-app dock: which app instances it holds,
//! which edge of the room screen each is docked to, and which are
//! minimized to a chip. Drawing the panes is the host's part.

use vstd::prelude::*;

use crate::maps::StrMap;
use crate::text::owned;

verus! {

/// Which edge of the room screen a pane is docked to.
#[derive(Clone, Copy, Debug, PartialEq, Eq, Structural)]
pub enum PaneSide {
    Top,
    Bottom,
    Left,
    Right,
}

/// The edge a pane moves to next: right, bottom, left, top, and round.
pub open spec fn side_after(s: PaneSide) -> PaneSide {
    match s {
        PaneSide::Right => PaneSide::Bottom,
        PaneSide::Bottom => PaneSide::Left,
        PaneSide::Left => PaneSide::Top,
        PaneSide::Top => PaneSide::Right,
    }
}

impl PaneSide {
    /// The edge a pane moves to next.
    pub fn next(self) -> (r: PaneSide)
        ensures
            r == side_after(self),
    {
        match self {
            PaneSide::Right => PaneSide::Bottom,
            PaneSide::Bottom => PaneSide::Left,
            PaneSide::Left => PaneSide::Top,
            PaneSide::Top => PaneSide::Right,
        }
    }

    /// Whether panes on this edge stand upright (left and right edges),
    /// so the edge is resized along its width.
    pub fn is_vertical(self) -> (r: bool)
        ensures
            r == (self == PaneSide::Left || self == PaneSide::Right),
    {
        match self {
            PaneSide::Left | PaneSide::Right => true,
            _ => false,
        }
    }
}

impl Default for PaneSide {
    /// New panes dock to the right.
    fn default() -> (r: PaneSide)
        ensures
            r == PaneSide::Right,
    {
        PaneSide::Right
    }
}

/// Four moves bring a pane back to its edge.
pub proof fn law_four_moves_go_round(s: PaneSide)
    ensures
        side_after(side_after(side_after(side_after(s)))) == s,
        side_after(s) != s,
{
}

/// Where one docked instance is.
#[derive(Clone, Copy, Debug, PartialEq, Eq, Structural)]
pub struct PaneState {
    pub side: PaneSide,
    pub minimized: bool,
}

/// What opening an app in this dock takes.
#[derive(Clone, Copy, Debug, PartialEq, Eq, Structural)]
pub enum OpenStep {
    /// It is here, minimized: restoring it is the open.
    Restore,
    /// It is here and showing already.
    AlreadyShown,
    /// Another dock of the same room owns the instance.
    RunningElsewhere,
    /// Start an instance here.
    Start,
}

/// The instances of one dock, by app id.
#[derive(Debug)]
pub struct DockState {
    instances: StrMap<PaneState>,
}

impl DockState {
    pub closed spec fn view(&self) -> Map<Seq<char>, PaneState> {
        self.instances.view()
    }

    /// A dock with nothing in it.
    pub fn new() -> (d: DockState)
        ensures
            d.view() == Map::<Seq<char>, PaneState>::empty(),
    {
        DockState { instances: StrMap::new() }
    }

    /// What opening `app_id` here takes.
    pub fn open_step(&self, app_id: &str, running_elsewhere: bool) -> (r: OpenStep)
        ensures
            r == if self.view().contains_key(app_id@) {
                if self.view()[app_id@].minimized {
                    OpenStep::Restore
                } else {
                    OpenStep::AlreadyShown
                }
            } else if running_elsewhere {
                OpenStep::RunningElsewhere
            } else {
                OpenStep::Start
            },
    {
        match self.instances.get(app_id) {
            Some(p) => if p.minimized {
                OpenStep::Restore
            } else {
                OpenStep::AlreadyShown
            },
            None => if running_elsewhere {
                OpenStep::RunningElsewhere
            } else {
                OpenStep::Start
            },
        }
    }

    /// Records a started instance, docked to the right and showing.
    pub fn started(&mut self, app_id: &str)
        ensures
            final(self).view() == old(self).view().insert(
                app_id@,
                PaneState { side: PaneSide::Right, minimized: false },
            ),
    {
        self.instances.insert(owned(app_id), PaneState { side: PaneSide::Right, minimized: false });
    }

    /// Forgets a quit instance, handing back where it was.
    pub fn quit(&mut self, app_id: &str) -> (r: Option<PaneState>)
        ensures
            final(self).view() == old(self).view().remove(app_id@),
            r == if old(self).view().contains_key(app_id@) {
                Some(old(self).view()[app_id@])
            } else {
                None
            },
    {
        self.instances.remove(app_id)
    }

    /// Minimizes or restores an instance; hands back its edge when that
    /// changed anything (the pane leaves or rejoins that edge).
    pub fn set_minimized(&mut self, app_id: &str, minimized: bool) -> (r: Option<PaneSide>)
        ensures
            match old(self).view().get(app_id@) {
                Some(p) => if p.minimized == minimized {
                    r is None && final(self).view() == old(self).view()
                } else {
                    r == Some(p.side) && final(self).view() == old(self).view().insert(
                        app_id@,
                        PaneState { side: p.side, minimized },
                    )
                },
                None => r is None && final(self).view() == old(self).view(),
            },
    {
        match self.instances.get(app_id) {
            None => None,
            Some(p) => {
                let p = *p;
                if p.minimized == minimized {
                    None
                } else {
                    self.instances.insert(owned(app_id), PaneState { side: p.side, minimized });
                    Some(p.side)
                }
            },
        }
    }

    /// Moves an instance to the next edge; hands back the old and new edge.
    pub fn cycle_edge(&mut self, app_id: &str) -> (r: Option<(PaneSide, PaneSide)>)
        ensures
            match old(self).view().get(app_id@) {
                Some(p) => r == Some((p.side, side_after(p.side))) && final(self).view()
                    == old(self).view().insert(
                    app_id@,
                    PaneState { side: side_after(p.side), minimized: p.minimized },
                ),
                None => r is None && final(self).view() == old(self).view(),
            },
    {
        match self.instances.get(app_id) {
            None => None,
            Some(p) => {
                let p = *p;
                let new_side = p.side.next();
                self.instances.insert(owned(app_id), PaneState { side: new_side, minimized: p.minimized });
                Some((p.side, new_side))
            },
        }
    }

    /// Where an instance is, if the dock holds it.
    pub fn get(&self, app_id: &str) -> (r: Option<PaneState>)
        ensures
            r == self.view().get(app_id@),
    {
        match self.instances.get(app_id) {
            Some(p) => Some(*p),
            None => None,
        }
    }

    /// The apps the dock holds, in increasing id order.
    pub fn apps(&self) -> (r: Vec<String>)
        ensures
            forall|a: Seq<char>| crate::text::texts(r@).contains(a) <==> self.view().contains_key(a),
    {
        self.instances.facts();
        let r = self.instances.keys();
        assert(crate::text::texts(r@) =~= r@.map_values(|s: String| s@));
        r
    }
}

/// Minimizing an instance and restoring it leaves the dock as it was.
pub proof fn law_minimize_then_restore_is_identity(m: Map<Seq<char>, PaneState>, app: Seq<char>)
    requires
        m.contains_key(app),
        !m[app].minimized,
    ensures
        m.insert(app, PaneState { side: m[app].side, minimized: true }).insert(
            app,
            PaneState { side: m[app].side, minimized: false },
        ) == m,
{
    assert(m.insert(app, PaneState { side: m[app].side, minimized: true }).insert(
        app,
        PaneState { side: m[app].side, minimized: false },
    ) =~= m);
}

} // verus!
