//! Whole-session semantics of the two transfer loops: which datagrams a
//! run of the transmit loop sends for a given sequence of input reads,
//! and which bytes a run of the receive loop writes for a given sequence
//! of received datagrams.

use vstd::prelude::*;
use crate::MAX_DATAGRAM;
use crate::frame::{ReceiveAction, TransmitAction, receive_step, transmit_step};

verus! {

/// The datagrams the transmit loop sends for a sequence of reads from
/// the input source: one `prefix + chunk` datagram per chunk, up to but
/// not including the first zero-length read.
pub open spec fn sent_datagrams(prefix: Seq<u8>, chunks: Seq<Seq<u8>>) -> Seq<Seq<u8>>
    decreases chunks.len(),
{
    if chunks.len() == 0 || chunks[0].len() == 0 {
        Seq::empty()
    } else {
        seq![prefix + chunks[0]] + sent_datagrams(prefix, chunks.drop_first())
    }
}

/// The byte sequences the receive loop writes to the output sink for a
/// sequence of received datagrams: each one verbatim, up to but not
/// including the first zero-length receive.
pub open spec fn written_datagrams(datagrams: Seq<Seq<u8>>) -> Seq<Seq<u8>>
    decreases datagrams.len(),
{
    if datagrams.len() == 0 || datagrams[0].len() == 0 {
        Seq::empty()
    } else {
        seq![datagrams[0]] + written_datagrams(datagrams.drop_first())
    }
}

/// Runs the transmit loop over a whole recorded input: steps through the
/// chunks in order, emitting one prefixed datagram per chunk, and stops
/// at the first zero-length chunk.
#[verifier::loop_isolation(false)]
pub fn transmit_session(prefix: &Vec<u8>, chunks: &Vec<Vec<u8>>) -> (r: Vec<Vec<u8>>)
    requires
        forall|k: int|
            0 <= k < chunks.deep_view().len()
                ==> prefix@.len() + chunks.deep_view()[k].len() <= MAX_DATAGRAM,
    ensures
        r.deep_view() == sent_datagrams(prefix@, chunks.deep_view()),
{
    let ghost cv: Seq<Seq<u8>> = chunks.deep_view();
    let mut r: Vec<Vec<u8>> = Vec::new();
    let mut i: usize = 0;
    let mut done = false;
    proof {
        assert(cv.skip(0) =~= cv);
        assert(r.deep_view() =~= Seq::<Seq<u8>>::empty());
        assert(r.deep_view() + sent_datagrams(prefix@, cv.skip(0))
            =~= sent_datagrams(prefix@, cv));
    }
    while !done && i < chunks.len()
        invariant
            i <= chunks.len(),
            !done ==> r.deep_view() + sent_datagrams(prefix@, cv.skip(i as int))
                == sent_datagrams(prefix@, cv),
            done ==> r.deep_view() == sent_datagrams(prefix@, cv),
        decreases chunks.len() - i + (if done { 0int } else { 1int }),
    {
        let chunk: &Vec<u8> = &chunks[i];
        proof {
            assert(cv[i as int] =~= chunk@);
            assert(cv.skip(i as int)[0] == cv[i as int]);
        }
        match transmit_step(prefix, chunk) {
            TransmitAction::Send(frame) => {
                let ghost r_before: Seq<Seq<u8>> = r.deep_view();
                r.push(frame);
                proof {
                    assert(r.deep_view() =~~= r_before.push(frame@));
                    assert(cv.skip(i as int).drop_first() =~= cv.skip(i as int + 1));
                    assert(sent_datagrams(prefix@, cv.skip(i as int))
                        == seq![prefix@ + cv[i as int]]
                            + sent_datagrams(prefix@, cv.skip(i as int + 1)));
                    assert(r.deep_view() + sent_datagrams(prefix@, cv.skip(i as int + 1))
                        =~= r_before + sent_datagrams(prefix@, cv.skip(i as int)));
                }
                i = i + 1;
            },
            TransmitAction::Stop => {
                proof {
                    assert(sent_datagrams(prefix@, cv.skip(i as int)) =~= Seq::<Seq<u8>>::empty());
                    assert(r.deep_view() + sent_datagrams(prefix@, cv.skip(i as int))
                        =~= r.deep_view());
                }
                done = true;
            },
        }
    }
    proof {
        if !done {
            assert(cv.skip(i as int) =~= Seq::<Seq<u8>>::empty());
            assert(r.deep_view() + sent_datagrams(prefix@, cv.skip(i as int)) =~= r.deep_view());
        }
    }
    r
}

/// Runs the receive loop over a whole recorded arrival order: writes each
/// datagram verbatim, in order, and stops at the first zero-length one.
#[verifier::loop_isolation(false)]
pub fn receive_session(datagrams: &Vec<Vec<u8>>) -> (r: Vec<Vec<u8>>)
    ensures
        r.deep_view() == written_datagrams(datagrams.deep_view()),
{
    let ghost dv: Seq<Seq<u8>> = datagrams.deep_view();
    let mut r: Vec<Vec<u8>> = Vec::new();
    let mut i: usize = 0;
    let mut done = false;
    proof {
        assert(dv.skip(0) =~= dv);
        assert(r.deep_view() =~= Seq::<Seq<u8>>::empty());
        assert(r.deep_view() + written_datagrams(dv.skip(0))
            =~= written_datagrams(dv));
    }
    while !done && i < datagrams.len()
        invariant
            i <= datagrams.len(),
            !done ==> r.deep_view() + written_datagrams(dv.skip(i as int))
                == written_datagrams(dv),
            done ==> r.deep_view() == written_datagrams(dv),
        decreases datagrams.len() - i + (if done { 0int } else { 1int }),
    {
        let datagram: Vec<u8> = datagrams[i].clone();
        proof {
            assert(dv[i as int] =~= datagram@);
            assert(dv.skip(i as int)[0] == dv[i as int]);
        }
        match receive_step(datagram) {
            ReceiveAction::Write(bytes) => {
                let ghost r_before: Seq<Seq<u8>> = r.deep_view();
                r.push(bytes);
                proof {
                    assert(r.deep_view() =~~= r_before.push(dv[i as int]));
                    assert(dv.skip(i as int).drop_first() =~= dv.skip(i as int + 1));
                    assert(written_datagrams(dv.skip(i as int))
                        == seq![dv[i as int]] + written_datagrams(dv.skip(i as int + 1)));
                    assert(r.deep_view() + written_datagrams(dv.skip(i as int + 1))
                        =~= r_before + written_datagrams(dv.skip(i as int)));
                }
                i = i + 1;
            },
            ReceiveAction::Stop => {
                proof {
                    assert(written_datagrams(dv.skip(i as int)) =~= Seq::<Seq<u8>>::empty());
                    assert(r.deep_view() + written_datagrams(dv.skip(i as int)) =~= r.deep_view());
                }
                done = true;
            },
        }
    }
    proof {
        if !done {
            assert(dv.skip(i as int) =~= Seq::<Seq<u8>>::empty());
            assert(r.deep_view() + written_datagrams(dv.skip(i as int)) =~= r.deep_view());
        }
    }
    r
}

/// Every datagram the transmit loop sends is non-empty: it holds the
/// prefix plus at least one chunk byte, so it can never be mistaken for
/// the receive loop's end-of-stream signal.
pub proof fn lemma_sent_datagrams_nonempty(prefix: Seq<u8>, chunks: Seq<Seq<u8>>)
    ensures
        forall|i: int|
            0 <= i < sent_datagrams(prefix, chunks).len()
                ==> #[trigger] sent_datagrams(prefix, chunks)[i].len() > 0,
    decreases chunks.len(),
{
    if chunks.len() == 0 || chunks[0].len() == 0 {
    } else {
        lemma_sent_datagrams_nonempty(prefix, chunks.drop_first());
        let rest = sent_datagrams(prefix, chunks.drop_first());
        assert forall|i: int|
            0 <= i < sent_datagrams(prefix, chunks).len()
                implies #[trigger] sent_datagrams(prefix, chunks)[i].len() > 0 by {
            if i == 0 {
                assert(sent_datagrams(prefix, chunks)[0] == prefix + chunks[0]);
            } else {
                assert(sent_datagrams(prefix, chunks)[i] == rest[i - 1]);
            }
        }
    }
}

/// A receive loop fed only non-empty datagrams writes every one of them,
/// verbatim and in order.
pub proof fn lemma_written_identity(datagrams: Seq<Seq<u8>>)
    requires
        forall|i: int| 0 <= i < datagrams.len() ==> #[trigger] datagrams[i].len() > 0,
    ensures
        written_datagrams(datagrams) == datagrams,
    decreases datagrams.len(),
{
    if datagrams.len() == 0 {
        assert(written_datagrams(datagrams) =~= datagrams);
    } else {
        assert(datagrams[0].len() > 0);
        assert forall|i: int|
            0 <= i < datagrams.drop_first().len()
                implies #[trigger] datagrams.drop_first()[i].len() > 0 by {
            assert(datagrams.drop_first()[i] == datagrams[i + 1]);
        }
        lemma_written_identity(datagrams.drop_first());
        assert(written_datagrams(datagrams) =~= datagrams);
    }
}

/// The round-trip law: whatever sequence of datagrams a transmit loop
/// produces, a receive loop that is handed those datagrams writes them
/// all back byte-identical, in order.
pub proof fn lemma_round_trip(prefix: Seq<u8>, chunks: Seq<Seq<u8>>)
    ensures
        written_datagrams(sent_datagrams(prefix, chunks)) == sent_datagrams(prefix, chunks),
{
    lemma_sent_datagrams_nonempty(prefix, chunks);
    lemma_written_identity(sent_datagrams(prefix, chunks));
}

} // verus!
