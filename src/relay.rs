//! The progress relay: which host callback each progress event becomes, and when
//! the relay stops. The fraction of progress is carried through untouched as `P`.
use vstd::prelude::*;

verus! {

/// A progress notification from the engine.
#[derive(Clone, Copy)]
pub enum ProgressEvent<P> {
    /// Chain sync advanced; `tip` is the current block height.
    Sync { progress: P, tip: u64 },
    /// Wallet scan advanced; `eta` is the estimated seconds left.
    Scan { progress: P, eta: u64 },
    /// End of the stream.
    Done,
}

/// A call on the host's callback object.
#[derive(Clone, Copy)]
pub enum HostCall<P> {
    /// `onSyncProgress(progress, tip)`.
    SyncProgress { progress: P, tip: i32 },
    /// `onScanProgress(progress, eta)`.
    ScanProgress { progress: P, eta: i32 },
}

/// The host's 32-bit integer for an engine count: the count taken modulo 2^32,
/// read as two's complement.
pub open spec fn host_int_of(v: u64) -> int {
    let low = v as int % 0x1_0000_0000;
    if low < 0x8000_0000 {
        low
    } else {
        low - 0x1_0000_0000
    }
}

/// Converts an engine count to the host's 32-bit integer, wrapping as a cast does.
pub fn host_int(v: u64) -> (r: i32)
    ensures
        r as int == host_int_of(v),
{
    let low: u64 = v % 0x1_0000_0000;
    if low < 0x8000_0000 {
        low as i32
    } else {
        let high: i32 = (low - 0x8000_0000) as i32;
        high - 0x7fff_ffff - 1
    }
}

/// The host call an event is forwarded as; `None` for the end of the stream.
pub open spec fn forwarded<P>(e: ProgressEvent<P>) -> Option<HostCall<P>> {
    match e {
        ProgressEvent::Sync { progress, tip } => Some(
            HostCall::SyncProgress { progress, tip: host_int_of(tip) as i32 },
        ),
        ProgressEvent::Scan { progress, eta } => Some(
            HostCall::ScanProgress { progress, eta: host_int_of(eta) as i32 },
        ),
        ProgressEvent::Done => None,
    }
}

/// The host calls made for a stream of events: each event in turn, up to the
/// first `Done`, and nothing after it.
pub open spec fn relay_output<P>(events: Seq<ProgressEvent<P>>) -> Seq<HostCall<P>>
    decreases events.len(),
{
    if events.len() == 0 {
        Seq::empty()
    } else if events[0] is Done {
        Seq::empty()
    } else {
        seq![forwarded(events[0])->Some_0] + relay_output(events.drop_first())
    }
}

/// The state of a relay worker's receive loop.
pub struct Relay {
    stopped: bool,
}

impl Relay {
    /// Whether the loop has ended; once it has, nothing more is forwarded.
    pub closed spec fn is_stopped(&self) -> bool {
        self.stopped
    }

    /// A relay that has begun its receive loop.
    pub fn new() -> (r: Relay)
        ensures
            !r.is_stopped(),
    {
        Relay { stopped: false }
    }

    /// Whether the loop has ended.
    pub fn stopped(&self) -> (r: bool)
        ensures
            r == self.is_stopped(),
    {
        self.stopped
    }

    /// Handles one receive: `Some(event)`, or `None` when every producer is gone.
    /// Returns the host call to make, if any. `Done` and disconnection end the loop.
    pub fn receive<P: Copy>(&mut self, received: Option<ProgressEvent<P>>) -> (r: Option<
        HostCall<P>,
    >)
        ensures
            old(self).is_stopped() ==> r is None && final(self).is_stopped(),
            !old(self).is_stopped() ==> match received {
                Some(e) => r == forwarded(e) && final(self).is_stopped() == e is Done,
                None => r is None && final(self).is_stopped(),
            },
    {
        if self.stopped {
            return None;
        }
        match received {
            Some(ProgressEvent::Sync { progress, tip }) => Some(
                HostCall::SyncProgress { progress, tip: host_int(tip) },
            ),
            Some(ProgressEvent::Scan { progress, eta }) => Some(
                HostCall::ScanProgress { progress, eta: host_int(eta) },
            ),
            Some(ProgressEvent::Done) | None => {
                self.stopped = true;
                None
            },
        }
    }
}

/// Runs a relay over a whole stream of events and returns the host calls it makes,
/// in order.
pub fn relay_all<P: Copy>(events: &Vec<ProgressEvent<P>>) -> (r: Vec<HostCall<P>>)
    ensures
        r@ == relay_output(events@),
{
    let mut relay = Relay::new();
    let mut out: Vec<HostCall<P>> = Vec::new();
    let mut i: usize = 0;
    proof {
        assert(events@.subrange(0, events@.len() as int) =~= events@);
        assert(out@ + relay_output(events@) =~= relay_output(events@));
    }
    while i < events.len()
        invariant
            i <= events.len(),
            relay.is_stopped() ==> out@ == relay_output(events@),
            !relay.is_stopped() ==> out@ + relay_output(events@.subrange(i as int, events@.len() as int))
                == relay_output(events@),
        decreases events.len() - i,
    {
        let e = events[i];
        proof {
            let rest = events@.subrange(i as int, events@.len() as int);
            assert(rest.len() > 0);
            assert(rest[0] == e);
            assert(rest.drop_first() =~= events@.subrange(i + 1, events@.len() as int));
        }
        let was_stopped = relay.stopped();
        match relay.receive(Some(e)) {
            Some(c) => {
                out.push(c);
                proof {
                    let rest = events@.subrange(i as int, events@.len() as int);
                    assert(out@ + relay_output(rest.drop_first()) =~= out@.drop_last()
                        + relay_output(rest));
                }
            },
            None => {},
        }
        i = i + 1;
    }
    proof {
        assert(events@.subrange(i as int, events@.len() as int) =~= Seq::<ProgressEvent<P>>::empty());
        assert(out@ + Seq::<HostCall<P>>::empty() =~= out@);
    }
    out
}

/// Events pushed before `Done` reach the host in the order they were pushed, each as
/// its own call, and nothing pushed after `Done` reaches it.
pub proof fn lemma_relay_order<P>(pre: Seq<ProgressEvent<P>>, post: Seq<ProgressEvent<P>>)
    requires
        forall|i: int| 0 <= i < pre.len() ==> !(#[trigger] pre[i] is Done),
    ensures
        relay_output(pre.push(ProgressEvent::Done) + post).len() == pre.len(),
        forall|i: int|
            0 <= i < pre.len() ==> #[trigger] relay_output(pre.push(ProgressEvent::Done) + post)[i]
                == forwarded(pre[i])->Some_0,
    decreases pre.len(),
{
    let all = pre.push(ProgressEvent::Done) + post;
    if pre.len() == 0 {
        assert(all[0] is Done);
    } else {
        let tail = pre.drop_first();
        assert forall|i: int| 0 <= i < tail.len() implies !(#[trigger] tail[i] is Done) by {
            assert(tail[i] == pre[i + 1]);
        }
        lemma_relay_order(tail, post);
        assert(all.drop_first() =~= tail.push(ProgressEvent::Done) + post);
        assert(all[0] == pre[0]);
        assert forall|i: int| 0 <= i < pre.len() implies #[trigger] relay_output(all)[i]
            == forwarded(pre[i])->Some_0 by {
            if i > 0 {
                assert(pre[i] == tail[i - 1]);
            }
        }
    }
}

/// Ending the stream with `Done` forwards exactly what cutting it off by
/// disconnection forwards: the events before the end, and nothing after.
pub proof fn lemma_done_same_as_disconnect<P>(
    pre: Seq<ProgressEvent<P>>,
    post: Seq<ProgressEvent<P>>,
)
    requires
        forall|i: int| 0 <= i < pre.len() ==> !(#[trigger] pre[i] is Done),
    ensures
        relay_output(pre.push(ProgressEvent::Done) + post) == relay_output(pre),
    decreases pre.len(),
{
    let all = pre.push(ProgressEvent::Done) + post;
    if pre.len() == 0 {
        assert(all[0] is Done);
    } else {
        let tail = pre.drop_first();
        assert forall|i: int| 0 <= i < tail.len() implies !(#[trigger] tail[i] is Done) by {
            assert(tail[i] == pre[i + 1]);
        }
        lemma_done_same_as_disconnect(tail, post);
        assert(all.drop_first() =~= tail.push(ProgressEvent::Done) + post);
        assert(all[0] == pre[0]);
    }
}

} // verus!
