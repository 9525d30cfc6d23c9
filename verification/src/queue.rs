//! The outbound send queue: an ordered buffer of frames with a cursor that
//! counts how many entries of the current acknowledgment window have been
//! transmitted. Once a full window has gone out unacknowledged, the next
//! enqueue collapses the queue to the newest entry; transmitting the
//! session-drop sentinel clears the queue and signals the outbound pump to
//! terminate.

use vstd::prelude::*;

verus! {

/// Size of the acknowledgment window.
pub const SEND_WINDOW: usize = 10;

/// The session-drop sentinel as it travels the wire.
pub open spec fn dropme_frame() -> Seq<char> {
    "X"@
}

/// Builds the session-drop sentinel frame.
pub fn dropme_string() -> (r: String)
    ensures
        r@ == dropme_frame(),
{
    String::from_str("X")
}

/// The mathematical value of a send queue: its entries and the cursor.
#[verifier::ext_equal]
pub struct SendQueueView {
    pub entries: Seq<Seq<char>>,
    pub sent: nat,
}

impl SendQueueView {
    /// The queue's invariant: the cursor never passes the end.
    pub open spec fn wf(self) -> bool {
        self.sent <= self.entries.len()
    }

    /// The queue with nothing in it.
    pub open spec fn empty() -> SendQueueView {
        SendQueueView { entries: Seq::empty(), sent: 0 }
    }

    /// The entries still waiting to be transmitted.
    pub open spec fn pending(self) -> Seq<Seq<char>> {
        self.entries.subrange(self.sent as int, self.entries.len() as int)
    }

    /// What `enqueue` does: append, unless a full window has already been
    /// transmitted unacknowledged, in which case the queue collapses to the
    /// newest entry and the cursor resets.
    pub open spec fn enqueue_spec(self, m: Seq<char>) -> SendQueueView {
        if self.sent >= SEND_WINDOW {
            SendQueueView { entries: seq![m], sent: 0 }
        } else {
            SendQueueView { entries: self.entries.push(m), sent: self.sent }
        }
    }

    /// Whether the session-drop sentinel stands among the next `n`
    /// transmitted entries.
    pub open spec fn drop_signal(self, n: nat) -> bool {
        exists|i: int|
            self.sent <= i < self.sent + n && #[trigger] self.entries[i] == dropme_frame()
    }

    /// What `advance` does: move the cursor past `n` transmitted entries, or,
    /// when the sentinel was among them, clear the queue entirely.
    pub open spec fn advance_spec(self, n: nat) -> SendQueueView {
        if self.drop_signal(n) {
            SendQueueView::empty()
        } else {
            SendQueueView { entries: self.entries, sent: self.sent + n }
        }
    }
}

/// The outbound buffer with its acknowledgment-window cursor.
pub struct SendQueue {
    entries: Vec<String>,
    sent: usize,
}

impl View for SendQueue {
    type V = SendQueueView;

    closed spec fn view(&self) -> SendQueueView {
        SendQueueView { entries: self.entries.deep_view(), sent: self.sent as nat }
    }
}

impl SendQueue {
    /// A fresh, empty queue.
    pub fn new() -> (q: SendQueue)
        ensures
            q@ == SendQueueView::empty(),
            q@.wf(),
    {
        let q = SendQueue { entries: Vec::new(), sent: 0 };
        proof {
            assert(q@ =~~= SendQueueView::empty());
        }
        q
    }

    /// How many entries of the current window have been transmitted.
    pub fn sent_count(&self) -> (r: usize)
        ensures
            r == self@.sent,
    {
        self.sent
    }

    /// How many entries the queue holds in all.
    pub fn len(&self) -> (r: usize)
        ensures
            r == self@.entries.len(),
    {
        self.entries.len()
    }

    /// Appends a frame; collapses the queue first when a full window of
    /// unacknowledged sends has accumulated.
    pub fn enqueue(&mut self, msg: String)
        requires
            old(self)@.wf(),
        ensures
            final(self)@ == old(self)@.enqueue_spec(msg@),
            final(self)@.wf(),
    {
        if self.sent >= SEND_WINDOW {
            let mut v: Vec<String> = Vec::new();
            v.push(msg);
            self.entries = v;
            self.sent = 0;
        } else {
            self.entries.push(msg);
        }
        proof {
            assert(self@ =~~= old(self)@.enqueue_spec(msg@));
        }
    }

    /// The entries from the cursor to the end, in transmission order; the
    /// queue itself is not changed.
    pub fn drain_window(&self) -> (r: Vec<String>)
        requires
            self@.wf(),
        ensures
            r.deep_view() == self@.pending(),
    {
        let mut out: Vec<String> = Vec::new();
        let mut i: usize = self.sent;
        while i < self.entries.len()
            invariant
                self@.wf(),
                self@.sent <= i <= self@.entries.len(),
                out@.len() == i - self@.sent,
                forall|j: int|
                    0 <= j < out@.len() ==> #[trigger] out@[j]@ == self@.entries[self@.sent + j],
            decreases self@.entries.len() - i,
        {
            let elem = self.entries[i].clone();
            proof {
                assert(elem@ == self@.entries[i as int]);
            }
            out.push(elem);
            i += 1;
        }
        proof {
            assert(out.deep_view() =~~= self@.pending());
        }
        out
    }

    /// Moves the cursor past `n` transmitted entries. Returns the terminate
    /// signal: true exactly when the session-drop sentinel was among them, in
    /// which case the queue is cleared and the cursor reset.
    pub fn advance(&mut self, n: usize) -> (terminate: bool)
        requires
            old(self)@.wf(),
            old(self)@.sent + n <= old(self)@.entries.len(),
        ensures
            final(self)@ == old(self)@.advance_spec(n as nat),
            terminate == old(self)@.drop_signal(n as nat),
            final(self)@.wf(),
    {
        let len = self.entries.len();
        proof {
            assert(self.sent + n <= len);
        }
        let end = self.sent + n;
        let mut found = false;
        let mut i: usize = self.sent;
        while i < end
            invariant
                self@ == old(self)@,
                self@.sent <= i <= end,
                end == self@.sent + n,
                end <= self@.entries.len(),
                found == exists|j: int|
                    self@.sent <= j < i && #[trigger] self@.entries[j] == dropme_frame(),
            decreases end - i,
        {
            if crate::text::str_eq(self.entries[i].as_str(), "X") {
                proof {
                    assert(self@.entries[i as int] == dropme_frame());
                }
                found = true;
            }
            i += 1;
        }
        if found {
            self.entries = Vec::new();
            self.sent = 0;
            proof {
                assert(old(self)@.drop_signal(n as nat));
                assert(self@ =~~= old(self)@.advance_spec(n as nat));
            }
            true
        } else {
            self.sent = self.sent + n;
            proof {
                assert(!old(self)@.drop_signal(n as nat));
                assert(self@ =~~= old(self)@.advance_spec(n as nat));
            }
            false
        }
    }
}

/// Law: along any interleaving of queue operations the cursor never passes
/// the queue's length — each operation preserves `wf` — and `enqueue`
/// collapses the queue exactly when the cursor has reached the window size.
pub proof fn lemma_queue_window(q: SendQueueView, m: Seq<char>, n: nat)
    requires
        q.wf(),
        q.sent + n <= q.entries.len(),
    ensures
        q.enqueue_spec(m).wf(),
        q.advance_spec(n).wf(),
        q.sent >= SEND_WINDOW ==> q.enqueue_spec(m) == (SendQueueView { entries: seq![m], sent: 0 }),
        q.sent < SEND_WINDOW ==> q.enqueue_spec(m).entries == q.entries.push(m)
            && q.enqueue_spec(m).sent == q.sent,
{
}

/// Law: enqueuing the session-drop sentinel and then draining the whole
/// window produces the terminate signal and leaves the queue empty with the
/// cursor reset; an empty queue signals nothing further.
pub proof fn lemma_sentinel_drain(q: SendQueueView)
    requires
        q.wf(),
    ensures
        ({
            let q1 = q.enqueue_spec(dropme_frame());
            let n = (q1.entries.len() - q1.sent) as nat;
            &&& q1.drop_signal(n)
            &&& q1.advance_spec(n) == SendQueueView::empty()
        }),
        !SendQueueView::empty().drop_signal(0),
{
    let q1 = q.enqueue_spec(dropme_frame());
    let n = (q1.entries.len() - q1.sent) as nat;
    let last = q1.entries.len() - 1;
    assert(q1.entries[last] == dropme_frame());
    assert(q1.sent <= last < q1.sent + n);
}

} // verus!
