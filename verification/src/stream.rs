//! The live stream: an unbounded polling tail over a paginated
//! collection.
//!
//! A stream holds a queue of not-yet-delivered items and the cursor
//! positioned just past the last item ever fetched.  Delivery pops the
//! queue front, preserving server order.  When the queue is empty the
//! driver fetches a page at the current cursor and feeds it to
//! [`LiveStream::on_fetch`]: items advance the cursor and deliver the
//! first one at once; an empty page means "wait and poll again", never
//! termination, because the remote collection can grow after the poll.
//! A fetch that fails outright is simply not fed in, so the stream state
//! — and with it the next item to be delivered — is exactly what it was
//! before the failed call.

use crate::errors::StreamError;
use std::collections::VecDeque;
use vstd::prelude::*;

verus! {

/// The mathematical shape of a stream: the buffered items and the
/// resume cursor.
pub struct StreamView<T> {
    pub queue: Seq<T>,
    pub cursor: Seq<char>,
}

/// A polling tail over one remote collection.
#[derive(Debug)]
pub struct LiveStream<T> {
    pub queue: VecDeque<T>,
    pub cursor: String,
}

impl<T> View for LiveStream<T> {
    type V = StreamView<T>;

    open spec fn view(&self) -> StreamView<T> {
        StreamView { queue: self.queue@, cursor: self.cursor@ }
    }
}

/// What one fed-in fetch produces.
#[derive(Debug)]
pub enum StreamStep<T> {
    /// The next item, in server order; the rest of the page is buffered.
    Item(T),
    /// The page was empty: sleep, then fetch again at the same cursor.
    Wait,
    /// The page held items but no cursor: fatal for this stream.
    NoCursor,
}

/// What a fed-in fetch does to a stream whose queue is empty, and what
/// it hands the caller.
pub open spec fn fetch_step<T>(st: StreamView<T>, items: Seq<T>, cursor: Option<Seq<char>>) -> (
    StreamView<T>,
    StreamStep<T>,
) {
    if items.len() == 0 {
        (st, StreamStep::Wait)
    } else {
        match cursor {
            None => (st, StreamStep::NoCursor),
            Some(c) => (
                StreamView { queue: items.skip(1), cursor: c },
                StreamStep::Item(items[0]),
            ),
        }
    }
}

impl<T> LiveStream<T> {
    /// Starts a stream from the cursor a bootstrap fetch obtained.  A
    /// collection that reports no cursor at all cannot be tailed.
    pub fn bootstrap(cursor: Option<String>) -> (r: Result<LiveStream<T>, StreamError>)
        ensures
            match cursor {
                Some(c) => r matches Ok(s) && s@.queue == Seq::<T>::empty() && s@.cursor == c@,
                None => r matches Err(e) && e is NoCursor,
            },
    {
        match cursor {
            Some(c) => Ok(LiveStream { queue: VecDeque::new(), cursor: c }),
            None => Err(StreamError::NoCursor),
        }
    }

    /// Pops the front of the buffer, if it holds anything.  The cursor
    /// never moves here: it already points past every buffered item.
    pub fn pop_buffered(&mut self) -> (r: Option<T>)
        ensures
            final(self)@.cursor == old(self)@.cursor,
            old(self)@.queue.len() == 0 ==> r is None && final(self)@.queue == old(self)@.queue,
            old(self)@.queue.len() > 0 ==> (r matches Some(t) && t == old(self)@.queue[0]
                && final(self)@.queue == old(self)@.queue.skip(1)),
    {
        let r = self.queue.pop_front();
        proof {
            if old(self)@.queue.len() > 0 {
                assert(final(self)@.queue =~= old(self)@.queue.skip(1));
            }
        }
        r
    }

    /// Feeds in the page fetched at the current cursor, exactly as
    /// [`fetch_step`] describes: an empty page asks the caller to wait
    /// and changes nothing; items with a cursor deliver the first item,
    /// buffer the rest and advance the cursor; items without a cursor
    /// are fatal and change nothing.
    pub fn on_fetch(&mut self, items: Vec<T>, cursor: Option<String>) -> (r: StreamStep<T>)
        requires
            old(self)@.queue.len() == 0,
        ensures
            ({
                let m = fetch_step(old(self)@, items@, crate::pager::opt_text(cursor));
                final(self)@ == m.0 && r == m.1
            }),
    {
        let mut items = items;
        if items.len() == 0 {
            StreamStep::Wait
        } else {
            match cursor {
                None => StreamStep::NoCursor,
                Some(c) => {
                    let ghost orig = items@;
                    let first = items.remove(0);
                    while items.len() > 0
                        invariant
                            orig.len() > 0,
                            self.queue@.len() <= orig.len() - 1,
                            items@ == orig.skip(1).skip(self.queue@.len() as int),
                            self.queue@ == orig.skip(1).take(self.queue@.len() as int),
                            self.cursor == old(self).cursor,
                        decreases items@.len(),
                    {
                        let ghost k = self.queue@.len() as int;
                        let x = items.remove(0);
                        self.queue.push_back(x);
                        proof {
                            assert(items@ =~= orig.skip(1).skip(k + 1));
                            assert(self.queue@ =~= orig.skip(1).take(k + 1));
                        }
                    }
                    self.cursor = c;
                    proof {
                        assert(self.queue@ =~= orig.skip(1));
                    }
                    StreamStep::Item(first)
                },
            }
        }
    }
}

/// A model of one whole `next` attempt at an empty buffer: either the
/// fetch failed and the caller sees the error, or its page was fed in.
pub enum FetchResult<T> {
    Fetched(Seq<T>, Option<Seq<char>>),
    FetchFailed,
}

/// What one `next` attempt does: a failed fetch is never fed into the
/// stream, so it leaves the state exactly as it was.
pub open spec fn next_attempt<T>(st: StreamView<T>, fr: FetchResult<T>) -> (
    StreamView<T>,
    Option<StreamStep<T>>,
) {
    match fr {
        FetchResult::FetchFailed => (st, None),
        FetchResult::Fetched(items, cursor) => {
            let m = fetch_step(st, items, cursor);
            (m.0, Some(m.1))
        },
    }
}

/// Retrying `next` after a transient failure is harmless: a failed
/// attempt followed by any attempt delivers exactly what that attempt
/// alone would have delivered from the starting state — the cursor was
/// not advanced past the failed fetch.
pub proof fn lemma_next_idempotent_after_failure<T>(st: StreamView<T>, fr: FetchResult<T>)
    ensures
        next_attempt(next_attempt(st, FetchResult::FetchFailed).0, fr) == next_attempt(st, fr),
{
}

} // verus!
