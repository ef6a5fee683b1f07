//! The two lanes on which impulses wait: a priority lane that always goes
//! first, and a background lane. Both are bounded; a full lane takes nothing
//! more until the loop has drained it.

use crate::events::{Impulse, ImpulseV};
use std::collections::VecDeque;
use vstd::prelude::*;

verus! {

/// How many impulses the priority lane holds at most.
pub const PRIORITY_CAPACITY: usize = 100;

/// How many impulses the background lane holds at most.
pub const BACKGROUND_CAPACITY: usize = 1000;

/// One of the two lanes.
#[derive(Debug, Clone, Copy, PartialEq, Eq)]
pub enum Lane {
    Priority,
    Background,
}

/// What waits on the two lanes, oldest first.
pub struct LanesV {
    pub priority: Seq<ImpulseV>,
    pub background: Seq<ImpulseV>,
}

/// How many impulses a lane holds at most.
pub open spec fn capacity(lane: Lane) -> nat {
    match lane {
        Lane::Priority => PRIORITY_CAPACITY as nat,
        Lane::Background => BACKGROUND_CAPACITY as nat,
    }
}

/// What waits on one lane.
pub open spec fn pending(lanes: LanesV, lane: Lane) -> Seq<ImpulseV> {
    match lane {
        Lane::Priority => lanes.priority,
        Lane::Background => lanes.background,
    }
}

/// Whether a lane has room for one more impulse.
pub open spec fn has_room(lanes: LanesV, lane: Lane) -> bool {
    pending(lanes, lane).len() < capacity(lane)
}

/// The lanes after `impulse` is admitted to `lane`: it waits last on that
/// lane if the lane has room, and nothing changes if it has none.
pub open spec fn admitted(lanes: LanesV, lane: Lane, impulse: ImpulseV) -> LanesV {
    if !has_room(lanes, lane) {
        lanes
    } else {
        match lane {
            Lane::Priority => LanesV { priority: lanes.priority.push(impulse), ..lanes },
            Lane::Background => LanesV { background: lanes.background.push(impulse), ..lanes },
        }
    }
}

/// The lane that the next selection takes from: the priority lane whenever
/// something waits on it, else the background lane, else none.
pub open spec fn selected_lane(lanes: LanesV) -> Option<Lane> {
    if lanes.priority.len() > 0 {
        Some(Lane::Priority)
    } else if lanes.background.len() > 0 {
        Some(Lane::Background)
    } else {
        None
    }
}

/// The impulse that the next selection takes: the oldest on the selected
/// lane.
pub open spec fn selected(lanes: LanesV) -> Option<ImpulseV> {
    match selected_lane(lanes) {
        Some(lane) => Some(pending(lanes, lane)[0]),
        None => None,
    }
}

/// The lanes after the next selection.
pub open spec fn after_selection(lanes: LanesV) -> LanesV {
    match selected_lane(lanes) {
        Some(Lane::Priority) => LanesV { priority: lanes.priority.drop_first(), ..lanes },
        Some(Lane::Background) => LanesV { background: lanes.background.drop_first(), ..lanes },
        None => lanes,
    }
}

/// The lane on which an impulse belongs: what a user or a session asks for,
/// and the interrupt, go first; the rest waits in the background.
pub open spec fn lane_for(impulse: ImpulseV) -> Lane {
    match impulse {
        ImpulseV::InitiateSession(_) => Lane::Priority,
        ImpulseV::ThinkStep(_) => Lane::Priority,
        ImpulseV::Observation(_, _) => Lane::Priority,
        ImpulseV::SystemInterrupt => Lane::Priority,
        _ => Lane::Background,
    }
}

/// The values of the impulses of a queue.
pub open spec fn impulse_views(queue: Seq<Impulse>) -> Seq<ImpulseV> {
    queue.map_values(|i: Impulse| i@)
}

/// The two bounded lanes.
pub struct ImpulseLanes {
    priority: VecDeque<Impulse>,
    background: VecDeque<Impulse>,
}

impl View for ImpulseLanes {
    type V = LanesV;

    closed spec fn view(&self) -> LanesV {
        LanesV {
            priority: impulse_views(self.priority@),
            background: impulse_views(self.background@),
        }
    }
}

impl ImpulseLanes {
    /// Neither lane holds more than its capacity.
    pub open spec fn wf(&self) -> bool {
        self@.priority.len() <= capacity(Lane::Priority) && self@.background.len() <= capacity(
            Lane::Background,
        )
    }

    /// Two empty lanes.
    pub fn new() -> (lanes: Self)
        ensures
            lanes.wf(),
            lanes@ == (LanesV { priority: Seq::empty(), background: Seq::empty() }),
    {
        let lanes = ImpulseLanes { priority: VecDeque::new(), background: VecDeque::new() };
        assert(lanes@.priority =~= Seq::<ImpulseV>::empty());
        assert(lanes@.background =~= Seq::<ImpulseV>::empty());
        lanes
    }

    /// Admits an impulse to a lane. A full lane hands the impulse back: the
    /// producer has to wait and try again.
    pub fn enqueue(&mut self, lane: Lane, impulse: Impulse) -> (out: Result<(), Impulse>)
        ensures
            old(self).wf() ==> final(self).wf(),
            final(self)@ == admitted(old(self)@, lane, impulse@),
            match out {
                Ok(_) => has_room(old(self)@, lane),
                Err(back) => !has_room(old(self)@, lane) && back == impulse,
            },
    {
        match lane {
            Lane::Priority => {
                if self.priority.len() >= PRIORITY_CAPACITY {
                    return Err(impulse);
                }
                let ghost before = self@.priority;
                self.priority.push_back(impulse);
                assert(self@.priority =~= before.push(impulse@));
            },
            Lane::Background => {
                if self.background.len() >= BACKGROUND_CAPACITY {
                    return Err(impulse);
                }
                let ghost before = self@.background;
                self.background.push_back(impulse);
                assert(self@.background =~= before.push(impulse@));
            },
        }
        Ok(())
    }

    /// Takes the next impulse: the oldest on the priority lane if there is
    /// one, else the oldest on the background lane.
    pub fn select(&mut self) -> (out: Option<(Lane, Impulse)>)
        ensures
            old(self).wf() ==> final(self).wf(),
            final(self)@ == after_selection(old(self)@),
            match out {
                Some((lane, impulse)) => selected_lane(old(self)@) == Some(lane) && selected(
                    old(self)@,
                ) == Some(impulse@),
                None => selected_lane(old(self)@) is None,
            },
    {
        let ghost before = self@;
        match self.priority.pop_front() {
            Some(impulse) => {
                assert(self@.priority =~= before.priority.drop_first());
                assert(before.priority[0] == impulse@);
                Some((Lane::Priority, impulse))
            },
            None => {
                assert(before.priority.len() == 0);
                match self.background.pop_front() {
                    Some(impulse) => {
                        assert(self@.background =~= before.background.drop_first());
                        assert(before.background[0] == impulse@);
                        Some((Lane::Background, impulse))
                    },
                    None => {
                        assert(before.background.len() == 0);
                        None
                    },
                }
            },
        }
    }

    /// How many impulses wait on a lane.
    pub fn waiting(&self, lane: Lane) -> (n: usize)
        ensures
            n == pending(self@, lane).len(),
    {
        match lane {
            Lane::Priority => self.priority.len(),
            Lane::Background => self.background.len(),
        }
    }
}

/// The lane to take from when it is known which lanes have something
/// waiting.
pub fn select_lane(priority_ready: bool, background_ready: bool) -> (out: Option<Lane>)
    ensures
        out == if priority_ready {
            Some(Lane::Priority)
        } else if background_ready {
            Some(Lane::Background)
        } else {
            None::<Lane>
        },
{
    if priority_ready {
        Some(Lane::Priority)
    } else if background_ready {
        Some(Lane::Background)
    } else {
        None
    }
}

/// The lane on which an impulse belongs.
pub fn lane_of(impulse: &Impulse) -> (lane: Lane)
    ensures
        lane == lane_for(impulse@),
{
    match impulse {
        Impulse::InitiateSession(_) => Lane::Priority,
        Impulse::ThinkStep(_) => Lane::Priority,
        Impulse::Observation(_, _) => Lane::Priority,
        Impulse::SystemInterrupt => Lane::Priority,
        _ => Lane::Background,
    }
}

/// Priority goes first: whatever waits in the background, and whichever of
/// the two was admitted first, an impulse on the priority lane is selected
/// before any impulse on the background lane.
pub proof fn law_priority_preempts(lanes: LanesV, urgent: ImpulseV, other: ImpulseV)
    requires
        has_room(lanes, Lane::Priority),
    ensures
        selected_lane(admitted(admitted(lanes, Lane::Background, other), Lane::Priority, urgent))
            == Some(Lane::Priority),
        selected_lane(admitted(admitted(lanes, Lane::Priority, urgent), Lane::Background, other))
            == Some(Lane::Priority),
        lanes.priority.len() == 0 ==> selected(
            admitted(admitted(lanes, Lane::Background, other), Lane::Priority, urgent),
        ) == Some(urgent),
{
}

/// The background is served once the priority lane is empty: after the one
/// urgent impulse is taken, the next selection takes the oldest background
/// impulse.
pub proof fn law_background_follows(other: ImpulseV, urgent: ImpulseV)
    ensures
        ({
            let start = LanesV { priority: Seq::empty(), background: Seq::empty() };
            let both = admitted(admitted(start, Lane::Background, other), Lane::Priority, urgent);
            &&& selected(both) == Some(urgent)
            &&& selected(after_selection(both)) == Some(other)
        }),
{
    let start = LanesV { priority: Seq::<ImpulseV>::empty(), background: Seq::empty() };
    let both = admitted(admitted(start, Lane::Background, other), Lane::Priority, urgent);
    assert(both.priority =~= seq![urgent]);
    assert(both.background =~= seq![other]);
    assert(after_selection(both).priority =~= Seq::<ImpulseV>::empty());
}

} // verus!
