//! How deep the nodes of a YAML text nest.
//!
//! The depth of a node is how many collections lie one within another in it:
//! none in a scalar, one more in a collection than in the deepest of its
//! items, keys and values. An alias has the depth of the node that was read
//! under its anchor, and none if no node was read under it yet. What counts
//! for a text is the deepest that any of its nodes reaches, counted from the
//! document it stands in.
//!
//! Depths are counted up to one past [`NESTING_LIMIT`] and no further.

use crate::yaml::{events_left, next_event, parser_of, yaml_events, Event};
use vstd::prelude::*;

verus! {

/// The depth up to which a text is handed to the loader.
pub const NESTING_LIMIT: usize = 512;

/// A collection that has begun and not ended: its anchor, and the depth of
/// the deepest node read in it so far.
#[derive(Clone, Copy, Debug, PartialEq, Eq, Structural)]
pub struct Level {
    pub anchor: usize,
    pub below: usize,
}

/// The depth of the node that was read under an anchor.
#[derive(Clone, Copy, Debug, PartialEq, Eq, Structural)]
pub struct Mark {
    pub anchor: usize,
    pub depth: usize,
}

/// What the events so far have shown: the collections that are open, outermost
/// first, the anchors read, and the deepest that any node reached.
pub struct Meter {
    pub open: Seq<Level>,
    pub marks: Seq<Mark>,
    pub worst: usize,
}

/// `depth`, or one past the limit if it is beyond the limit.
pub open spec fn capped(depth: int) -> usize {
    if depth > NESTING_LIMIT {
        (NESTING_LIMIT + 1) as usize
    } else if depth < 0 {
        0
    } else {
        depth as usize
    }
}

/// The depth read last under `anchor`, zero if none was.
pub open spec fn marked(marks: Seq<Mark>, anchor: usize) -> usize
    decreases marks.len(),
{
    if marks.len() == 0 {
        0
    } else if marks.last().anchor == anchor {
        marks.last().depth
    } else {
        marked(marks.drop_last(), anchor)
    }
}

/// The meter after a node of the given depth was read where the meter
/// stands: the node counts for the collection it lies in, for its anchor,
/// and with the open collections above it for the deepest reached.
pub open spec fn noted(meter: Meter, anchor: usize, depth: usize) -> Meter {
    Meter {
        open: if meter.open.len() > 0 && meter.open.last().below < depth {
            meter.open.drop_last().push(Level { anchor: meter.open.last().anchor, below: depth })
        } else {
            meter.open
        },
        marks: if anchor > 0 {
            meter.marks.push(Mark { anchor, depth })
        } else {
            meter.marks
        },
        worst: if meter.worst < capped(meter.open.len() + depth) {
            capped(meter.open.len() + depth)
        } else {
            meter.worst
        },
    }
}

/// The meter after one more event.
pub open spec fn metered(meter: Meter, event: Event) -> Meter {
    match event {
        Event::Open { anchor } => Meter {
            open: meter.open.push(Level { anchor, below: 0 }),
            marks: meter.marks,
            worst: if meter.worst < capped(meter.open.len() as int + 1) {
                capped(meter.open.len() as int + 1)
            } else {
                meter.worst
            },
        },
        Event::Close => if meter.open.len() == 0 {
            meter
        } else {
            noted(
                Meter { open: meter.open.drop_last(), marks: meter.marks, worst: meter.worst },
                meter.open.last().anchor,
                capped(meter.open.last().below + 1),
            )
        },
        Event::Leaf { anchor } => noted(meter, anchor, 0),
        Event::Alias { anchor } => noted(meter, 0, marked(meter.marks, anchor)),
        _ => meter,
    }
}

/// The meter after all of `events`.
pub open spec fn meter_of(events: Seq<Event>) -> Meter
    decreases events.len(),
{
    if events.len() == 0 {
        Meter { open: Seq::empty(), marks: Seq::empty(), worst: 0 }
    } else {
        metered(meter_of(events.drop_last()), events.last())
    }
}

/// The deepest that a node of a text with these events reaches.
pub open spec fn depth_of(events: Seq<Event>) -> usize {
    meter_of(events).worst
}

proof fn flat_marks_give_no_depth(marks: Seq<Mark>, anchor: usize)
    requires
        forall|i: int| 0 <= i < marks.len() ==> marks[i].depth == 0,
    ensures
        marked(marks, anchor) == 0,
    decreases marks.len(),
{
    if marks.len() > 0 {
        flat_marks_give_no_depth(marks.drop_last(), anchor);
    }
}

/// A text without a collection has no depth, whatever anchors and aliases it
/// holds.
pub proof fn scalars_have_no_depth(events: Seq<Event>)
    requires
        forall|i: int| 0 <= i < events.len() ==> !(events[i] is Open),
    ensures
        depth_of(events) == 0,
        meter_of(events).open.len() == 0,
        forall|i: int|
            0 <= i < meter_of(events).marks.len() ==> meter_of(events).marks[i].depth == 0,
    decreases events.len(),
{
    if events.len() > 0 {
        scalars_have_no_depth(events.drop_last());
        if let Event::Alias { anchor } = events.last() {
            flat_marks_give_no_depth(meter_of(events.drop_last()).marks, anchor);
        }
    }
}

/// Collections that begin one within another count one each, up to one past
/// the limit.
pub proof fn open_collections_count_one_each(events: Seq<Event>)
    requires
        forall|i: int| 0 <= i < events.len() ==> events[i] is Open,
    ensures
        depth_of(events) == capped(events.len() as int),
        meter_of(events).open.len() == events.len(),
    decreases events.len(),
{
    if events.len() > 0 {
        open_collections_count_one_each(events.drop_last());
    }
}

/// Whether no depth that a meter holds is more than one past the limit.
pub open spec fn tame(meter: Meter) -> bool {
    &&& meter.worst <= NESTING_LIMIT + 1
    &&& forall|i: int| 0 <= i < meter.open.len() ==> meter.open[i].below <= NESTING_LIMIT + 1
    &&& forall|i: int| 0 <= i < meter.marks.len() ==> meter.marks[i].depth <= NESTING_LIMIT + 1
}

/// The running state of a measurement.
struct Tally {
    open: Vec<Level>,
    marks: Vec<Mark>,
    worst: usize,
}

impl View for Tally {
    type V = Meter;

    closed spec fn view(&self) -> Meter {
        Meter { open: self.open@, marks: self.marks@, worst: self.worst }
    }
}

fn cap(length: usize, depth: usize) -> (sum: usize)
    requires
        depth <= NESTING_LIMIT + 1,
    ensures
        sum == capped(length + depth),
{
    if length > NESTING_LIMIT {
        NESTING_LIMIT + 1
    } else if length + depth > NESTING_LIMIT {
        NESTING_LIMIT + 1
    } else {
        length + depth
    }
}

fn marked_depth(marks: &Vec<Mark>, anchor: usize) -> (depth: usize)
    requires
        forall|i: int| 0 <= i < marks@.len() ==> marks@[i].depth <= NESTING_LIMIT + 1,
    ensures
        depth == marked(marks@, anchor),
        depth <= NESTING_LIMIT + 1,
{
    let mut at: usize = marks.len();
    assert(marks@.take(at as int) =~= marks@);
    while at > 0
        invariant
            at <= marks.len(),
            marked(marks@, anchor) == marked(marks@.take(at as int), anchor),
            forall|i: int| 0 <= i < marks@.len() ==> marks@[i].depth <= NESTING_LIMIT + 1,
        decreases at,
    {
        assert(marks@.take(at as int).drop_last() =~= marks@.take(at - 1));
        if marks[at - 1].anchor == anchor {
            return marks[at - 1].depth;
        }
        at = at - 1;
    }
    0
}

impl Tally {
    fn note(self, anchor: usize, depth: usize) -> (after: Tally)
        requires
            tame(self@),
            depth <= NESTING_LIMIT + 1,
        ensures
            after@ == noted(self@, anchor, depth),
            tame(after@),
    {
        let mut open = self.open;
        let mut marks = self.marks;
        let reach = cap(open.len(), depth);
        let worst = if self.worst < reach {
            reach
        } else {
            self.worst
        };
        if open.len() > 0 && open[open.len() - 1].below < depth {
            let top = open[open.len() - 1];
            open.pop();
            open.push(Level { anchor: top.anchor, below: depth });
        }
        if anchor > 0 {
            marks.push(Mark { anchor, depth });
        }
        let after = Tally { open, marks, worst };
        assert(after@.open =~= noted(self@, anchor, depth).open);
        assert(after@.marks =~= noted(self@, anchor, depth).marks);
        after
    }

    fn meter(self, event: Event) -> (after: Tally)
        requires
            tame(self@),
        ensures
            after@ == metered(self@, event),
            tame(after@),
    {
        match event {
            Event::Open { anchor } => {
                let mut open = self.open;
                let reach = cap(open.len(), 1);
                let worst = if self.worst < reach {
                    reach
                } else {
                    self.worst
                };
                open.push(Level { anchor, below: 0 });
                Tally { open, marks: self.marks, worst }
            },
            Event::Close => {
                if self.open.len() == 0 {
                    self
                } else {
                    let mut open = self.open;
                    let top = open[open.len() - 1];
                    open.pop();
                    let closed = Tally { open, marks: self.marks, worst: self.worst };
                    assert(closed@.open =~= self@.open.drop_last());
                    assert(closed@.marks == self@.marks);
                    assert forall|i: int| 0 <= i < closed@.open.len() implies closed@.open[i].below
                        <= NESTING_LIMIT + 1 by {
                        assert(closed@.open[i] == self@.open[i]);
                    }
                    assert(self@.open[self@.open.len() - 1].below <= NESTING_LIMIT + 1);
                    closed.note(top.anchor, cap(top.below, 1))
                }
            },
            Event::Leaf { anchor } => self.note(anchor, 0),
            Event::Alias { anchor } => {
                assert forall|i: int| 0 <= i < self.marks@.len() implies self.marks@[i].depth
                    <= NESTING_LIMIT + 1 by {
                    assert(self.marks@[i] == self@.marks[i]);
                }
                let depth = marked_depth(&self.marks, anchor);
                self.note(0, depth)
            },
            _ => self,
        }
    }
}

/// Whether no node of `text` nests deeper than the limit.
pub fn is_shallow(text: &str) -> (shallow: bool)
    ensures
        shallow == (depth_of(yaml_events(text@)) <= NESTING_LIMIT),
{
    let mut parser = parser_of(text);
    let mut tally = Tally { open: Vec::new(), marks: Vec::new(), worst: 0 };
    let mut going = true;
    let ghost mut seen: Seq<Event> = Seq::empty();
    assert(seen + events_left(parser) =~= yaml_events(text@));
    while going
        invariant
            going <==> events_left(parser).len() > 0,
            seen + events_left(parser) == yaml_events(text@),
            tally@ == meter_of(seen),
            tame(tally@),
        decreases events_left(parser).len(),
    {
        let ghost left = events_left(parser);
        let event = next_event(&mut parser);
        tally = tally.meter(event);
        proof {
            let before = seen;
            seen = seen.push(event);
            assert(seen.drop_last() =~= before);
            assert(seen + left.skip(1) =~= before + left);
        }
        going = !matches!(event, Event::End | Event::Failed);
    }
    assert(seen + events_left(parser) =~= seen);
    tally.worst <= NESTING_LIMIT
}

} // verus!
