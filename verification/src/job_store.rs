//! The job store: the ordered record of completed background results.

use vstd::prelude::*;

verus! {

/// An append-only list of result entries that does not exist until the first
/// entries are recorded. It is shared by guarding one value with one lock.
#[derive(Debug)]
pub struct JobStore {
    entries: Option<Vec<String>>,
}

/// The entries that a store in the given state holds: none while it is uninitialized.
pub open spec fn recorded(state: Option<Seq<Seq<char>>>) -> Seq<Seq<char>> {
    match state {
        Some(entries) => entries,
        None => Seq::empty(),
    }
}

/// The state of a store after `entries` were recorded in the state `before`.
pub open spec fn after_record(before: Option<Seq<Seq<char>>>, entries: Seq<Seq<char>>) -> Option<
    Seq<Seq<char>>,
> {
    Some(recorded(before) + entries)
}

impl View for JobStore {
    type V = Option<Seq<Seq<char>>>;

    /// `None` while nothing was ever recorded, else every entry recorded so far, oldest first.
    closed spec fn view(&self) -> Option<Seq<Seq<char>>> {
        self.entries.deep_view()
    }
}

impl JobStore {
    /// A store in which nothing was recorded yet.
    pub fn new() -> (store: Self)
        ensures
            store@ is None,
    {
        JobStore { entries: None }
    }

    /// Whether anything was ever recorded.
    pub fn is_initialized(&self) -> (yes: bool)
        ensures
            yes == (self@ is Some),
    {
        self.entries.is_some()
    }

    /// Appends `entries`, in their order, behind everything recorded before, and
    /// creates the list on the first call.
    pub fn record(&mut self, entries: Vec<String>)
        ensures
            final(self)@ == after_record(old(self)@, entries.deep_view()),
    {
        let mut incoming = entries;
        let mut list: Vec<String> = match self.entries.take() {
            Some(list) => list,
            None => Vec::new(),
        };
        let ghost before = list.deep_view();
        assert(before =~= recorded(old(self)@));
        list.append(&mut incoming);
        assert(list.deep_view() =~= before + entries.deep_view());
        self.entries = Some(list);
    }

    /// A copy of the whole list as it is now, or `None` if nothing was ever recorded.
    pub fn snapshot(&self) -> (copy: Option<Vec<String>>)
        ensures
            copy.deep_view() == self@,
    {
        match &self.entries {
            None => None,
            Some(list) => {
                let mut copy: Vec<String> = Vec::new();
                let mut i: usize = 0;
                while i < list.len()
                    invariant
                        i <= list.len(),
                        copy.len() == i,
                        forall|k: int| 0 <= k < i ==> copy@[k]@ == list@[k]@,
                    decreases list.len() - i,
                {
                    copy.push(list[i].clone());
                    i += 1;
                }
                assert(copy.deep_view() =~= list.deep_view());
                Some(copy)
            },
        }
    }
}

/// Recording never removes or reorders what the store already holds: the entries
/// recorded before are a prefix of the entries afterwards, and the new ones follow
/// them as one block in their own order.
pub proof fn record_appends_one_block(before: Option<Seq<Seq<char>>>, entries: Seq<Seq<char>>)
    ensures
        recorded(before).is_prefix_of(recorded(after_record(before, entries))),
        recorded(after_record(before, entries)).skip(recorded(before).len() as int) == entries,
        recorded(after_record(before, entries)).len() == recorded(before).len() + entries.len(),
{
    let after = recorded(after_record(before, entries));
    assert(after.skip(recorded(before).len() as int) =~= entries);
}

/// Two completions that record one after the other, in either order of arrival, leave
/// each one's entries contiguous: the batch that took the lock first comes first and
/// whole, and the other follows whole.
pub proof fn two_records_do_not_interleave(
    before: Option<Seq<Seq<char>>>,
    first: Seq<Seq<char>>,
    second: Seq<Seq<char>>,
)
    ensures
        after_record(after_record(before, first), second) == Some(
            recorded(before) + first + second,
        ),
        recorded(after_record(after_record(before, first), second)).len() == recorded(before).len()
            + first.len() + second.len(),
{
}

} // verus!
