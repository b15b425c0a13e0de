use vstd::prelude::*;
use vstd::string::*;

verus! {

/// What a mailbox is, seen from outside: the errors that wait in it, oldest
/// first, how many it can hold, and whether it still takes new ones.
pub struct MailboxView<E> {
    pub pending: Seq<E>,
    pub capacity: nat,
    pub open: bool,
}

/// A bounded mailbox of terminal errors, shared by the tasks of one role.
/// The receiver acts on the first error that it takes out; from then on the
/// mailbox is closed, and what is sent to it is handed back undelivered.
#[derive(Debug)]
pub struct ErrorChannel<E> {
    pending: Vec<E>,
    capacity: usize,
    open: bool,
}

impl<E> View for ErrorChannel<E> {
    type V = MailboxView<E>;

    closed spec fn view(&self) -> MailboxView<E> {
        MailboxView { pending: self.pending@, capacity: self.capacity as nat, open: self.open }
    }
}

impl<E> ErrorChannel<E> {
    /// A mailbox never holds more than its capacity.
    pub open spec fn wf(&self) -> bool {
        self@.pending.len() <= self@.capacity
    }

    /// An empty, open mailbox that holds up to `capacity` errors.
    pub fn new(capacity: usize) -> (channel: Self)
        ensures
            channel.wf(),
            channel@.pending.len() == 0,
            channel@.capacity == capacity,
            channel@.open,
    {
        ErrorChannel { pending: Vec::new(), capacity, open: true }
    }

    /// How many errors wait in the mailbox.
    pub fn len(&self) -> (n: usize)
        ensures
            n == self@.pending.len(),
    {
        self.pending.len()
    }

    /// Whether the mailbox still takes errors.
    pub fn is_open(&self) -> (open: bool)
        ensures
            open == self@.open,
    {
        self.open
    }

    /// Whether a send would be turned away for want of room.
    pub fn is_full(&self) -> (full: bool)
        requires
            self.wf(),
        ensures
            full == (self@.pending.len() == self@.capacity),
    {
        self.pending.len() >= self.capacity
    }

    /// Puts an error at the end of the mailbox. Where the mailbox is closed
    /// or full nothing changes, and the error comes back to the sender.
    pub fn try_send(&mut self, err: E) -> (res: Result<(), E>)
        requires
            old(self).wf(),
        ensures
            final(self).wf(),
            final(self)@.capacity == old(self)@.capacity,
            final(self)@.open == old(self)@.open,
            old(self)@.open && old(self)@.pending.len() < old(self)@.capacity ==> res is Ok
                && final(self)@.pending == old(self)@.pending.push(err),
            !(old(self)@.open && old(self)@.pending.len() < old(self)@.capacity) ==> res == Err::<
                (),
                E,
            >(err) && final(self)@.pending == old(self)@.pending,
    {
        if self.open && self.pending.len() < self.capacity {
            self.pending.push(err);
            Ok(())
        } else {
            Err(err)
        }
    }

    /// Takes the oldest error out, if there is one. The rest keep their order.
    pub fn recv(&mut self) -> (res: Option<E>)
        requires
            old(self).wf(),
        ensures
            final(self).wf(),
            final(self)@.capacity == old(self)@.capacity,
            final(self)@.open == old(self)@.open,
            old(self)@.pending.len() == 0 ==> res is None && final(self)@.pending
                == old(self)@.pending,
            old(self)@.pending.len() > 0 ==> res == Some(old(self)@.pending[0])
                && final(self)@.pending == old(self)@.pending.drop_first(),
    {
        if self.pending.len() == 0 {
            None
        } else {
            let first = self.pending.remove(0);
            assert(self.pending@ =~= old(self).pending@.drop_first());
            Some(first)
        }
    }

    /// Closes the mailbox: the shutdown has begun, and later errors are not
    /// delivered. What already waits stays.
    pub fn close(&mut self)
        requires
            old(self).wf(),
        ensures
            final(self).wf(),
            !final(self)@.open,
            final(self)@.capacity == old(self)@.capacity,
            final(self)@.pending == old(self)@.pending,
    {
        self.open = false;
    }
}

/// How the wait for an aborted task ended.
#[derive(Debug, Clone, PartialEq, Eq)]
pub enum JoinOutcome {
    /// The task had run to its end.
    Completed,
    /// The task was cancelled, as was asked.
    Cancelled,
    /// The task failed in another way, described here.
    Failed(String),
}

/// The descriptions of the joins that failed, in order. A task that was
/// cancelled or had completed is no failure.
pub open spec fn failures_of(outcomes: Seq<JoinOutcome>) -> Seq<Seq<char>>
    decreases outcomes.len(),
{
    if outcomes.len() == 0 {
        Seq::empty()
    } else {
        let rest = failures_of(outcomes.drop_last());
        match outcomes.last() {
            JoinOutcome::Failed(description) => rest.push(description@),
            _ => rest,
        }
    }
}

/// The texts of a list of strings, in order.
pub open spec fn texts(lines: Seq<String>) -> Seq<Seq<char>> {
    lines.map_values(|line: String| line@)
}

impl JoinOutcome {
    /// What is to be logged after a join: the description of a failure that
    /// is no cancellation.
    pub fn failure(self) -> (res: Option<String>)
        ensures
            res == match self {
                JoinOutcome::Failed(description) => Some(description),
                _ => None,
            },
    {
        match self {
            JoinOutcome::Failed(description) => Some(description),
            _ => None,
        }
    }
}

/// Goes through the joins of the aborted tasks and gathers what is to be
/// logged: a cancellation is what was asked for, and only other failures are
/// kept.
pub fn join_failures(outcomes: Vec<JoinOutcome>) -> (failures: Vec<String>)
    ensures
        texts(failures@) == failures_of(outcomes@),
{
    let mut failures: Vec<String> = Vec::new();
    let mut outcomes = outcomes;
    let ghost all = outcomes@;
    let mut i: usize = 0;
    assert(all.take(0) =~= Seq::<JoinOutcome>::empty());
    assert(texts(failures@) =~= Seq::<Seq<char>>::empty());
    while i < outcomes.len()
        invariant
            i <= outcomes.len(),
            outcomes@ == all,
            texts(failures@) == failures_of(all.take(i as int)),
        decreases outcomes.len() - i,
    {
        proof {
            let upto = all.take(i + 1);
            assert(upto.drop_last() =~= all.take(i as int));
            assert(upto.last() == all[i as int]);
        }
        match &outcomes[i] {
            JoinOutcome::Failed(description) => {
                let ghost before = failures@;
                failures.push(description.clone());
                assert(texts(failures@) =~= texts(before).push(description@));
            },
            _ => {},
        }
        i += 1;
    }
    assert(all.take(i as int) =~= all);
    failures
}

} // verus!
