//! A serial work queue that runs in process: work items are identified by
//! number, run one at a time in the order they were posted, and refused once
//! the queue has shut down. It stands for a host's message loop where there
//! is none, as in tests.
use vstd::prelude::*;

verus! {

/// The queue's contents and whether it still accepts work.
pub struct QueueState {
    pub items: Seq<u64>,
    pub open: bool,
}

impl QueueState {
    /// The state after posting `item`: appended while the queue is open.
    pub open spec fn post(self, item: u64) -> QueueState {
        if self.open {
            QueueState { items: self.items.push(item), open: true }
        } else {
            self
        }
    }

    /// The state after posting `item` `k` times in a row.
    pub open spec fn post_times(self, item: u64, k: nat) -> QueueState
        decreases k,
    {
        if k == 0 {
            self
        } else {
            self.post_times(item, (k - 1) as nat).post(item)
        }
    }
}

/// A serial FIFO work queue.
pub struct SerialQueue {
    items: Vec<u64>,
    open: bool,
}

impl View for SerialQueue {
    type V = QueueState;

    closed spec fn view(&self) -> QueueState {
        QueueState { items: self.items@, open: self.open }
    }
}

impl SerialQueue {
    /// An open queue with nothing in it.
    pub fn new() -> (q: Self)
        ensures
            q@ == (QueueState { items: Seq::empty(), open: true }),
    {
        SerialQueue { items: Vec::new(), open: true }
    }

    /// Submit one work item. Returns false, and keeps nothing, once the
    /// queue has shut down.
    pub fn post(&mut self, item: u64) -> (accepted: bool)
        ensures
            accepted == old(self)@.open,
            final(self)@ == old(self)@.post(item),
    {
        if self.open {
            self.items.push(item);
            true
        } else {
            false
        }
    }

    /// Take the next work item to run, the oldest one posted.
    pub fn run_one(&mut self) -> (r: Option<u64>)
        ensures
            old(self)@.items.len() == 0 ==> r is None && final(self)@ == old(self)@,
            old(self)@.items.len() > 0 ==> r == Some(old(self)@.items[0]) && final(self)@
                == (QueueState { items: old(self)@.items.drop_first(), open: old(self)@.open }),
    {
        if self.items.len() == 0 {
            None
        } else {
            let item = self.items.remove(0);
            proof {
                assert(self.items@ =~= old(self)@.items.drop_first());
            }
            Some(item)
        }
    }

    /// Whether nothing waits to run.
    pub fn is_idle(&self) -> (r: bool)
        ensures
            r == (self@.items.len() == 0),
    {
        self.items.len() == 0
    }

    /// The number of work items waiting to run.
    pub fn len(&self) -> (r: usize)
        ensures
            r == self@.items.len(),
    {
        self.items.len()
    }

    /// Whether the queue still accepts work.
    pub fn is_open(&self) -> (r: bool)
        ensures
            r == self@.open,
    {
        self.open
    }

    /// Shut the queue down: what waits is never run, and nothing more is
    /// accepted.
    pub fn shut_down(&mut self)
        ensures
            final(self)@ == (QueueState { items: Seq::empty(), open: false }),
    {
        self.items = Vec::new();
        self.open = false;
    }
}

} // verus!
