//! The subscription stream: after the subscribe handshake the connection
//! only carries framed update records, and this module decides, frame by
//! frame, what the consumer is handed.
//!
//! The record type is a parameter: this layer never looks inside a record,
//! it only forwards what the external decoder produced, so whatever the
//! decoder yields flows through unchanged.

use vstd::prelude::*;

verus! {

/// What one streamed frame means for the consumer.
pub enum SubSignal<R> {
    /// A decoded record to hand on, in arrival order.
    Publish(R),
    /// A frame whose decode carried no record: dropped with a diagnostic,
    /// never fatal to the stream.
    Skip,
    /// A failure status byte: the peer's clean end-of-subscription signal.
    End,
}

/// Decides what one streamed frame means. A failure status ends the stream
/// cleanly; a success frame whose decode yields a record and a destination
/// publishes exactly that record; any other decode outcome is skipped.
pub fn subscription_step<R>(success: bool, decoded: Option<(Option<R>, Option<String>)>) -> (s:
    SubSignal<R>)
    ensures
        !success ==> s is End,
        success ==> match decoded {
            Some((Some(r), Some(_))) => s matches SubSignal::Publish(p) && p == r,
            _ => s is Skip,
        },
{
    if !success {
        return SubSignal::End;
    }
    match decoded {
        Some((Some(r), Some(_book))) => SubSignal::Publish(r),
        _ => SubSignal::Skip,
    }
}

/// The records a scripted run of frames publishes: every record decoded
/// from a success frame, in arrival order, up to but not including the
/// first failure frame.
pub open spec fn spec_published<R>(events: Seq<(bool, Option<(Option<R>, Option<String>)>)>) -> Seq<
    R,
>
    decreases events.len(),
{
    if events.len() == 0 {
        Seq::empty()
    } else if !events[0].0 {
        Seq::empty()
    } else {
        match events[0].1 {
            Some((Some(r), Some(_))) => seq![r] + spec_published(events.skip(1)),
            _ => spec_published(events.skip(1)),
        }
    }
}

/// Runs the streaming phase over a scripted sequence of frame events,
/// returning exactly the records those events publish, in arrival order.
pub fn subscription_drain<R>(events: Vec<(bool, Option<(Option<R>, Option<String>)>)>) -> (out: Vec<
    R,
>)
    ensures
        out@ == spec_published(events@),
{
    let ghost all = events@;
    let mut evs = events;
    let mut out: Vec<R> = Vec::new();
    proof {
        assert(out@ + spec_published(evs@) =~= spec_published(all));
    }
    while evs.len() > 0
        invariant
            all == events@,
            out@ + spec_published(evs@) =~= spec_published(all),
        decreases evs.len(),
    {
        let ghost before = evs@;
        let (success, decoded) = evs.remove(0);
        proof {
            assert(before =~= seq![before[0]] + evs@);
            assert(before[0].0 == success);
            assert(before[0].1 == decoded);
            assert((seq![before[0]] + evs@).skip(1) =~= evs@);
        }
        match subscription_step(success, decoded) {
            SubSignal::Publish(r) => {
                out.push(r);
                proof {
                    assert(out@ + spec_published(evs@) =~= spec_published(all));
                }
            },
            SubSignal::Skip => {
                proof {
                    assert(out@ + spec_published(evs@) =~= spec_published(all));
                }
            },
            SubSignal::End => {
                proof {
                    assert(!success);
                    assert(spec_published(before) =~= Seq::<R>::empty());
                    assert(out@ + spec_published(before) =~= spec_published(all));
                    assert(out@ =~= out@ + Seq::<R>::empty());
                    assert(out@ =~= spec_published(all));
                }
                return out;
            },
        }
    }
    proof {
        assert(spec_published(evs@) =~= Seq::<R>::empty());
        assert(out@ =~= spec_published(all));
    }
    out
}

/// Ordering: a scripted run of update frames, each a success frame whose
/// decode yields one record and a destination, publishes exactly those
/// records, one per frame, in arrival order.
pub proof fn lemma_published_in_order<R>(
    events: Seq<(bool, Option<(Option<R>, Option<String>)>)>,
    records: Seq<R>,
)
    requires
        events.len() == records.len(),
        forall|i: int|
            0 <= i < events.len() ==> match (#[trigger] events[i]).1 {
                Some((Some(r), Some(_))) => events[i].0 && r == records[i],
                _ => false,
            },
    ensures
        spec_published(events) == records,
    decreases events.len(),
{
    if events.len() == 0 {
        assert(spec_published(events) =~= records);
    } else {
        assert(forall|i: int|
            0 <= i < events.skip(1).len() ==> #[trigger] events.skip(1)[i] == events[i + 1]);
        lemma_published_in_order(events.skip(1), records.skip(1));
        assert(spec_published(events) =~= records);
    }
}

} // verus!
