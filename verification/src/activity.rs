//! The feed of recent activity.
use vstd::prelude::*;

use crate::events::Event;
use crate::host::Env;
use crate::registry::TlaRegistry;
use crate::types::ActivityRecord;

verus! {

/// How many records the feed keeps.
pub const ACTIVITY_CAPACITY: u32 = 256;

/// The feed once `record` is in front: the oldest record makes room where there is none.
pub open spec fn feed_with(feed: Seq<ActivityRecord>, record: ActivityRecord) -> Seq<ActivityRecord> {
    let grown = seq![record] + feed;
    if grown.len() > ACTIVITY_CAPACITY {
        grown.take(ACTIVITY_CAPACITY as int)
    } else {
        grown
    }
}

/// The feed once an event has been logged.
pub open spec fn feed_after(feed: Seq<ActivityRecord>, event: Event, env: Env) -> Seq<ActivityRecord> {
    match event.activity() {
        Some((kind, account)) => feed_with(
            feed,
            ActivityRecord { event: kind, account, block_height: env.height, block_timestamp: env.now },
        ),
        None => feed,
    }
}

/// The newest records, in a ring: once it is full, the cursor stands at the oldest.
pub struct ActivityFeed {
    records: Vec<ActivityRecord>,
    cursor: u32,
}

impl View for ActivityFeed {
    type V = Seq<ActivityRecord>;

    /// The records, newest first.
    closed spec fn view(&self) -> Seq<ActivityRecord> {
        Seq::new(self.records@.len(), |i: int| self.records@[self.slot_of(i)])
    }
}

impl ActivityFeed {
    spec fn slot_of(self, i: int) -> int {
        if i < self.cursor {
            self.cursor - 1 - i
        } else {
            self.cursor + self.records@.len() - 1 - i
        }
    }

    #[verifier::type_invariant]
    spec fn inv(self) -> bool {
        &&& self.records@.len() <= ACTIVITY_CAPACITY
        &&& self.cursor < ACTIVITY_CAPACITY
        &&& self.records@.len() < ACTIVITY_CAPACITY ==> self.cursor == 0
    }

    pub fn new() -> (r: Self)
        ensures
            r@ == Seq::<ActivityRecord>::empty(),
    {
        let r = ActivityFeed { records: Vec::new(), cursor: 0 };
        assert(r@ =~= Seq::empty());
        r
    }

    pub fn len(&self) -> (r: usize)
        ensures
            r == self@.len(),
            r <= ACTIVITY_CAPACITY,
    {
        proof {
            use_type_invariant(self);
        }
        self.records.len()
    }

    /// The record that `i` newer ones precede.
    pub fn nth(&self, i: usize) -> (r: &ActivityRecord)
        requires
            i < self@.len(),
        ensures
            *r == self@[i as int],
    {
        proof {
            use_type_invariant(self);
        }
        let cursor: usize = self.cursor as usize;
        let slot: usize = if i < cursor {
            cursor - 1 - i
        } else {
            cursor + (self.records.len() - 1 - i)
        };
        &self.records[slot]
    }

    pub fn push_activity(&mut self, record: ActivityRecord)
        ensures
            final(self)@ == feed_with(old(self)@, record),
    {
        proof {
            use_type_invariant(&*self);
        }
        let ghost before = self@;
        let mut feed = ActivityFeed::new();
        std::mem::swap(&mut feed, self);
        proof {
            use_type_invariant(&feed);
        }
        let ActivityFeed { mut records, cursor } = feed;
        if records.len() < ACTIVITY_CAPACITY as usize {
            records.push(record);
            *self = ActivityFeed { records, cursor };
        } else {
            records.set(cursor as usize, record);
            *self = ActivityFeed { records, cursor: (cursor + 1) % ACTIVITY_CAPACITY };
        }
        assert(self@ =~= feed_with(before, record));
    }
}

impl TlaRegistry {
    /// Logs an event, and keeps it in the feed where it is an activity.
    pub(crate) fn emit_activity(&mut self, env: &Env, event: Event, events: &mut Vec<Event>)
        ensures
            final(events)@ == old(events)@.push(event),
            final(self).recent_activity@ == feed_after(old(self).recent_activity@, event, *env),
            *final(self) == (TlaRegistry { recent_activity: final(self).recent_activity, ..*old(self) }),
    {
        if let Some((kind, account)) = event.activity_entry() {
            self.recent_activity.push_activity(
                ActivityRecord { event: kind, account, block_height: env.height, block_timestamp: env.now },
            );
        }
        events.push(event);
    }
}

/// The feed never outgrows its capacity, and its newest record is the last one pushed.
pub proof fn feed_is_bounded(feed: Seq<ActivityRecord>, record: ActivityRecord)
    ensures
        feed_with(feed, record).len() <= ACTIVITY_CAPACITY,
        feed_with(feed, record)[0] == record,
        forall|i: int| 1 <= i < feed_with(feed, record).len() ==> feed_with(feed, record)[i] == feed[i - 1],
        feed.len() < ACTIVITY_CAPACITY ==> feed_with(feed, record).len() == feed.len() + 1,
{
}

} // verus!
