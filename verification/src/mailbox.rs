//! The mailbox: a bounded queue with one worker, which puts the calls into
//! a collaborator in one order and lets one of them run at a time.
//!
//! The mailbox decides; it neither runs the calls nor suspends anyone. A
//! submission gets a ticket and is told whether it is queued or has to
//! wait. The worker starts the oldest queued call when none is running, and
//! says when it has finished, at which the caller with that ticket is
//! answered.

use vstd::prelude::*;
use std::collections::VecDeque;

verus! {

/// What a mailbox holds.
pub struct MailboxView<T> {
    /// How many calls the queue takes.
    pub capacity: nat,
    /// How many calls have been answered.
    pub answered: nat,
    /// Whether a call is running in the collaborator.
    pub running: bool,
    /// The calls in the queue, oldest first.
    pub queued: Seq<T>,
    /// The calls that wait for a place in the queue, oldest first.
    pub parked: Seq<T>,
}

impl<T> MailboxView<T> {
    /// A queue within its capacity, and nobody waiting unless it is full.
    pub open spec fn well_formed(self) -> bool {
        &&& self.capacity > 0
        &&& self.queued.len() <= self.capacity
        &&& self.parked.len() > 0 ==> self.queued.len() == self.capacity
    }

    /// An empty mailbox.
    pub open spec fn empty(capacity: nat) -> Self {
        MailboxView {
            capacity,
            answered: 0,
            running: false,
            queued: Seq::empty(),
            parked: Seq::empty(),
        }
    }

    /// The calls that have not been started, in the order of their submission.
    pub open spec fn pending(self) -> Seq<T> {
        self.queued + self.parked
    }

    /// How many calls have been submitted.
    pub open spec fn submitted(self) -> nat {
        self.answered + (if self.running { 1nat } else { 0nat }) + self.queued.len()
            + self.parked.len()
    }

    /// Whether nothing is left to do.
    pub open spec fn idle(self) -> bool {
        !self.running && self.queued.len() == 0 && self.parked.len() == 0
    }

    /// The mailbox after `call` has been submitted: in the queue if there
    /// is room, waiting if there is none.
    pub open spec fn submit(self, call: T) -> Self {
        if self.queued.len() < self.capacity {
            MailboxView { queued: self.queued.push(call), ..self }
        } else {
            MailboxView { parked: self.parked.push(call), ..self }
        }
    }

    /// Whether the worker can start a call.
    pub open spec fn can_start(self) -> bool {
        !self.running && self.queued.len() > 0
    }

    /// The mailbox after the worker has asked for a call: the oldest call of
    /// the queue runs, and the oldest waiting call takes the place that it
    /// left.
    pub open spec fn start(self) -> Self {
        if !self.can_start() {
            self
        } else if self.parked.len() > 0 {
            MailboxView {
                running: true,
                queued: self.queued.drop_first().push(self.parked.first()),
                parked: self.parked.drop_first(),
                ..self
            }
        } else {
            MailboxView { running: true, queued: self.queued.drop_first(), ..self }
        }
    }

    /// The mailbox after the worker has said that the running call is done.
    pub open spec fn finish(self) -> Self {
        if self.running {
            MailboxView { running: false, answered: self.answered + 1, ..self }
        } else {
            self
        }
    }

    /// The mailbox after each of `calls` has been submitted, in their order.
    pub open spec fn submit_all(self, calls: Seq<T>) -> Self
        decreases calls.len(),
    {
        if calls.len() == 0 {
            self
        } else {
            self.submit_all(calls.drop_last()).submit(calls.last())
        }
    }

    /// The calls that the worker runs until nothing is left to do, in the
    /// order in which it starts them.
    pub open spec fn service_order(self) -> Seq<T>
        decreases self.pending().len(), (if self.running { 1nat } else { 0nat }),
    {
        if self.running {
            self.finish().service_order()
        } else if self.queued.len() > 0 {
            seq![self.queued.first()] + self.start().service_order()
        } else {
            Seq::empty()
        }
    }

    /// The mailbox after the worker has done all there is to do.
    pub open spec fn drain(self) -> Self
        decreases self.pending().len(), (if self.running { 1nat } else { 0nat }),
    {
        if self.running {
            self.finish().drain()
        } else if self.queued.len() > 0 {
            self.start().drain()
        } else {
            self
        }
    }
}

/// A submission joins the calls that have not been started, behind all of
/// them, and changes nothing else.
pub proof fn lemma_submit_joins_at_the_back<T>(mailbox: MailboxView<T>, call: T)
    requires
        mailbox.well_formed(),
    ensures
        mailbox.submit(call).well_formed(),
        mailbox.submit(call).pending() == mailbox.pending().push(call),
        mailbox.submit(call).submitted() == mailbox.submitted() + 1,
        mailbox.submit(call).answered == mailbox.answered,
        mailbox.submit(call).running == mailbox.running,
{
    assert(mailbox.submit(call).pending() =~= mailbox.pending().push(call));
}

/// The call that the worker starts is the oldest that has not been started;
/// the others keep their order, and one call runs.
pub proof fn lemma_start_takes_the_oldest<T>(mailbox: MailboxView<T>)
    requires
        mailbox.well_formed(),
        mailbox.can_start(),
    ensures
        mailbox.start().well_formed(),
        mailbox.start().running,
        mailbox.queued.first() == mailbox.pending().first(),
        mailbox.start().pending() == mailbox.pending().drop_first(),
        mailbox.start().submitted() == mailbox.submitted(),
        mailbox.start().answered == mailbox.answered,
{
    assert(mailbox.start().pending() =~= mailbox.pending().drop_first());
}

/// While a call runs the worker starts no other.
pub proof fn lemma_one_call_at_a_time<T>(mailbox: MailboxView<T>)
    requires
        mailbox.running,
    ensures
        !mailbox.can_start(),
        mailbox.start() == mailbox,
{
}

/// When the running call is done, one more submitter is answered and the
/// calls that have not been started stay as they are.
pub proof fn lemma_finish_answers_one<T>(mailbox: MailboxView<T>)
    requires
        mailbox.well_formed(),
        mailbox.running,
    ensures
        mailbox.finish().well_formed(),
        !mailbox.finish().running,
        mailbox.finish().answered == mailbox.answered + 1,
        mailbox.finish().pending() == mailbox.pending(),
        mailbox.finish().submitted() == mailbox.submitted(),
{
}

/// The worker runs the calls that have not been started in the order of
/// their submission, each of them once, and in the end every submitter has
/// been answered.
pub proof fn lemma_served_in_submission_order<T>(mailbox: MailboxView<T>)
    requires
        mailbox.well_formed(),
    ensures
        mailbox.service_order() == mailbox.pending(),
        mailbox.drain().idle(),
        mailbox.drain().answered == mailbox.submitted(),
        mailbox.drain().capacity == mailbox.capacity,
    decreases mailbox.pending().len(), (if mailbox.running { 1nat } else { 0nat }),
{
    if mailbox.running {
        lemma_finish_answers_one(mailbox);
        lemma_served_in_submission_order(mailbox.finish());
    } else if mailbox.queued.len() > 0 {
        lemma_start_takes_the_oldest(mailbox);
        lemma_served_in_submission_order(mailbox.start());
        assert(seq![mailbox.queued.first()] + mailbox.pending().drop_first()
            =~= mailbox.pending());
    } else {
        assert(mailbox.pending() =~= Seq::<T>::empty());
    }
}

/// Of calls submitted to an empty mailbox before the worker starts any, as
/// many as the queue takes are queued and the others wait, all in the order
/// of their submission.
pub proof fn lemma_burst_fills_the_queue<T>(capacity: nat, calls: Seq<T>)
    requires
        capacity > 0,
    ensures
        ({
            let mailbox = MailboxView::empty(capacity).submit_all(calls);
            let room = if calls.len() <= capacity {
                calls.len()
            } else {
                capacity
            };
            &&& mailbox.well_formed()
            &&& mailbox.capacity == capacity
            &&& mailbox.answered == 0
            &&& !mailbox.running
            &&& mailbox.queued == calls.take(room as int)
            &&& mailbox.parked == calls.skip(room as int)
        }),
    decreases calls.len(),
{
    let mailbox = MailboxView::empty(capacity).submit_all(calls);
    if calls.len() == 0 {
        assert(mailbox.queued =~= calls.take(0));
        assert(mailbox.parked =~= calls.skip(0));
    } else {
        let earlier = calls.drop_last();
        let before = MailboxView::empty(capacity).submit_all(earlier);
        lemma_burst_fills_the_queue(capacity, earlier);
        if earlier.len() < capacity {
            assert(earlier.take(earlier.len() as int) =~= earlier);
            assert(mailbox.queued =~= calls.take(calls.len() as int));
            assert(mailbox.parked =~= calls.skip(calls.len() as int));
        } else {
            assert(mailbox.queued =~= calls.take(capacity as int));
            assert(mailbox.parked =~= calls.skip(capacity as int));
        }
    }
}

/// More calls than the queue takes, submitted to an empty mailbox at once:
/// those beyond the capacity wait, and the worker runs all of them in the
/// order of their submission, each once, until every submitter is answered.
pub proof fn lemma_burst_is_served_in_order<T>(capacity: nat, calls: Seq<T>)
    requires
        capacity > 0,
    ensures
        ({
            let mailbox = MailboxView::empty(capacity).submit_all(calls);
            &&& calls.len() > capacity ==> mailbox.parked == calls.skip(capacity as int)
            &&& mailbox.service_order() == calls
            &&& mailbox.drain().idle()
            &&& mailbox.drain().answered == calls.len()
        }),
{
    let mailbox = MailboxView::empty(capacity).submit_all(calls);
    lemma_burst_fills_the_queue(capacity, calls);
    lemma_served_in_submission_order(mailbox);
    let room = if calls.len() <= capacity {
        calls.len()
    } else {
        capacity
    };
    assert(calls.take(room as int) + calls.skip(room as int) =~= calls);
}

/// What a submitter is told.
#[derive(Debug, Clone, Copy, PartialEq, Eq, Structural)]
pub struct Admission {
    /// The place of the submission among all submissions, counted from zero.
    pub ticket: u64,
    /// Whether the call is in the queue; if not, its submitter is suspended
    /// until a place is free.
    pub queued: bool,
}

/// A bounded queue in front of a collaborator, with one worker.
pub struct Mailbox<T> {
    capacity: usize,
    answered: u64,
    submitted: u64,
    running: bool,
    queued: VecDeque<T>,
    parked: VecDeque<T>,
}

impl<T> View for Mailbox<T> {
    type V = MailboxView<T>;

    closed spec fn view(&self) -> MailboxView<T> {
        MailboxView {
            capacity: self.capacity as nat,
            answered: self.answered as nat,
            running: self.running,
            queued: self.queued@,
            parked: self.parked@,
        }
    }
}

impl<T> Mailbox<T> {
    /// Whether the mailbox holds what its view says, and that view is
    /// well formed.
    pub closed spec fn well_formed(&self) -> bool {
        &&& self@.well_formed()
        &&& self.submitted == self@.submitted()
    }

    /// A well-formed mailbox has a well-formed view.
    pub proof fn lemma_view_well_formed(&self)
        requires
            self.well_formed(),
        ensures
            self@.well_formed(),
            self@.submitted() <= u64::MAX,
    {
    }

    /// An empty mailbox whose queue takes `capacity` calls.
    pub fn new(capacity: usize) -> (mailbox: Self)
        requires
            capacity > 0,
        ensures
            mailbox.well_formed(),
            mailbox@ == MailboxView::<T>::empty(capacity as nat),
    {
        Mailbox {
            capacity,
            answered: 0,
            submitted: 0,
            running: false,
            queued: VecDeque::new(),
            parked: VecDeque::new(),
        }
    }

    /// How many calls have been submitted.
    pub fn submitted(&self) -> (count: u64)
        requires
            self.well_formed(),
        ensures
            count == self@.submitted(),
    {
        self.submitted
    }

    /// How many calls have been answered.
    pub fn answered(&self) -> (count: u64)
        ensures
            count == self@.answered,
    {
        self.answered
    }

    /// Whether a call is running in the collaborator.
    pub fn is_running(&self) -> (running: bool)
        ensures
            running == self@.running,
    {
        self.running
    }

    /// Takes a call in. It goes to the back of the queue, or, if the queue
    /// is full, to the back of those that wait: no call is dropped and none
    /// overtakes another.
    pub fn submit(&mut self, call: T) -> (admission: Admission)
        requires
            old(self).well_formed(),
            old(self)@.submitted() < u64::MAX,
        ensures
            final(self).well_formed(),
            final(self)@ == old(self)@.submit(call),
            admission.ticket == old(self)@.submitted(),
            admission.queued == (old(self)@.queued.len() < old(self)@.capacity),
    {
        let ticket = self.submitted;
        let queued = self.queued.len() < self.capacity;
        if queued {
            self.queued.push_back(call);
        } else {
            self.parked.push_back(call);
        }
        self.submitted = self.submitted + 1;
        Admission { ticket, queued }
    }

    /// Hands the worker the next call with its ticket, if none is running
    /// and the queue is not empty. The oldest of those that wait, if any,
    /// gets the place in the queue that the call leaves.
    pub fn start(&mut self) -> (next: Option<(u64, T)>)
        requires
            old(self).well_formed(),
        ensures
            final(self).well_formed(),
            final(self)@ == old(self)@.start(),
            next.is_some() == old(self)@.can_start(),
            next matches Some((ticket, call)) ==> ticket == old(self)@.answered && call
                == old(self)@.queued.first(),
    {
        if self.running {
            return None;
        }
        match self.queued.pop_front() {
            Some(call) => {
                match self.parked.pop_front() {
                    Some(woken) => {
                        self.queued.push_back(woken);
                    },
                    None => {},
                }
                self.running = true;
                assert(self@ =~= old(self)@.start());
                Some((self.answered, call))
            },
            None => None,
        }
    }

    /// Records that the running call is done with `outcome`, and gives the
    /// ticket of the submitter who is answered now, with the outcome as the
    /// collaborator gave it. Without a running call nothing changes and
    /// nobody is answered.
    pub fn finish<R>(&mut self, outcome: R) -> (answer: Option<(u64, R)>)
        requires
            old(self).well_formed(),
        ensures
            final(self).well_formed(),
            final(self)@ == old(self)@.finish(),
            answer == (if old(self)@.running {
                Some((old(self)@.answered as u64, outcome))
            } else {
                None
            }),
    {
        if self.running {
            let ticket = self.answered;
            self.running = false;
            self.answered = self.answered + 1;
            Some((ticket, outcome))
        } else {
            None
        }
    }
}

} // verus!
