//! The bounded, newest-first history of recently processed hit objects that
//! the aim and speed skills look back on when they penalise repeated angles.
use vstd::prelude::*;

verus! {

/// How many recent objects the history keeps.
pub const MAX_RECENT_OBJECTS: usize = 8;

/// How many of the most recent objects the angle repetition check looks at.
pub const NOTE_LIMIT: usize = 6;

/// The history after `item` is recorded in front of `history`: the oldest
/// entry falls out once the history is full.
pub open spec fn history_after_push<T>(history: Seq<T>, item: T) -> Seq<T> {
    let kept = if history.len() < MAX_RECENT_OBJECTS {
        history.len()
    } else {
        (MAX_RECENT_OBJECTS - 1) as nat
    };
    seq![item] + history.take(kept as int)
}

/// The history left by recording each of `pushes` in turn, starting empty.
pub open spec fn history_of<T>(pushes: Seq<T>) -> Seq<T>
    decreases pushes.len(),
{
    if pushes.len() == 0 {
        Seq::empty()
    } else {
        history_after_push(history_of(pushes.drop_last()), pushes.last())
    }
}

/// The number of entries a history holds after `n` objects were recorded.
pub open spec fn retained_count(n: nat) -> nat {
    if n < MAX_RECENT_OBJECTS {
        n
    } else {
        MAX_RECENT_OBJECTS as nat
    }
}

/// Ring buffer of recent objects, newest first, holding at most
/// `MAX_RECENT_OBJECTS` entries.
pub struct RecentObjects<T> {
    items: Vec<T>,
}

impl<T> View for RecentObjects<T> {
    type V = Seq<T>;

    closed spec fn view(&self) -> Seq<T> {
        self.items@
    }
}

impl<T> RecentObjects<T> {
    #[verifier::type_invariant]
    closed spec fn bounded(self) -> bool {
        self.items@.len() <= MAX_RECENT_OBJECTS
    }

    /// An empty history.
    pub fn new() -> (r: Self)
        ensures
            r@ == Seq::<T>::empty(),
    {
        RecentObjects { items: Vec::with_capacity(MAX_RECENT_OBJECTS) }
    }

    /// Records `item` as the newest entry, dropping the oldest one when the
    /// history is full.
    pub fn push(&mut self, item: T)
        ensures
            final(self)@ == history_after_push(old(self)@, item),
            final(self)@.len() <= MAX_RECENT_OBJECTS,
            final(self)@.len() == (if old(self)@.len() < MAX_RECENT_OBJECTS {
                old(self)@.len() + 1 as int
            } else {
                MAX_RECENT_OBJECTS as int
            }),
            final(self)@[0] == item,
            forall|j: int|
                1 <= j < final(self)@.len() ==> #[trigger] final(self)@[j] == old(self)@[j - 1],
    {
        proof {
            use_type_invariant(&*self);
        }
        let mut items = Vec::new();
        std::mem::swap(&mut items, &mut self.items);
        if items.len() >= MAX_RECENT_OBJECTS {
            items.pop();
        }
        items.insert(0, item);
        assert(items@ =~= history_after_push(old(self)@, item));
        self.items = items;
    }

    /// The number of recorded objects still held.
    pub fn len(&self) -> (r: usize)
        ensures
            r == self@.len(),
            r <= MAX_RECENT_OBJECTS,
    {
        proof {
            use_type_invariant(self);
        }
        self.items.len()
    }

    /// Whether nothing has been recorded yet.
    pub fn is_empty(&self) -> (r: bool)
        ensures
            r == (self@.len() == 0),
    {
        self.items.len() == 0
    }

    /// The entry `index` places back from the newest one.
    pub fn get(&self, index: usize) -> (r: &T)
        requires
            index < self@.len(),
        ensures
            *r == self@[index as int],
    {
        &self.items[index]
    }

    /// The most recently recorded object, if any.
    pub fn newest(&self) -> (r: Option<&T>)
        ensures
            r == (if self@.len() == 0 {
                None
            } else {
                Some(&self@[0])
            }),
    {
        if self.items.len() == 0 {
            None
        } else {
            Some(&self.items[0])
        }
    }

    /// How many of the newest entries the angle repetition check visits:
    /// `NOTE_LIMIT`, or fewer while the history is shorter.
    pub fn lookback_len(&self) -> (r: usize)
        ensures
            r == (if self@.len() < NOTE_LIMIT {
                self@.len()
            } else {
                NOTE_LIMIT as nat
            }),
            r <= NOTE_LIMIT,
            r <= self@.len(),
    {
        let len = self.items.len();
        if len < NOTE_LIMIT {
            len
        } else {
            NOTE_LIMIT
        }
    }
}

/// Whatever objects were recorded, the history holds the most recent
/// `min(n, MAX_RECENT_OBJECTS)` of them, newest first: entry `j` is the
/// object recorded `j` steps before the last one.
pub proof fn lemma_history_newest_first<T>(pushes: Seq<T>)
    ensures
        history_of(pushes).len() == retained_count(pushes.len()),
        forall|j: int|
            0 <= j < history_of(pushes).len() ==> #[trigger] history_of(pushes)[j]
                == pushes[pushes.len() - 1 - j],
    decreases pushes.len(),
{
    if pushes.len() > 0 {
        lemma_history_newest_first(pushes.drop_last());
    }
}

/// Recording an object makes it the newest entry, and every entry that stays
/// moves back by exactly one place.
pub proof fn lemma_push_shifts<T>(history: Seq<T>, item: T)
    ensures
        history_after_push(history, item)[0] == item,
        forall|j: int|
            1 <= j < history_after_push(history, item).len() ==> #[trigger] history_after_push(
                history,
                item,
            )[j] == history[j - 1],
{
}

} // verus!
