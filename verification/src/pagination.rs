//! A paged remote collection read as one sequence of items.
//!
//! The remote side hands out a collection page by page and says with each
//! page whether more follow. `PageStream` turns that into a single sequence:
//! it hands out the items of the current page one by one and asks for the
//! next page only when the current one is used up. It never fetches anything
//! itself: `poll` says what it needs, and the caller answers with `feed` or
//! `fail`.

use vstd::prelude::*;

verus! {

/// Position in a paged collection.
#[derive(Debug, PartialEq, Eq, Clone, Copy, Structural)]
pub enum PageCursor {
    /// Nothing was fetched yet. The first request carries no page number.
    Start,
    /// The page with this number is the next to fetch.
    AtPage(u64),
    /// The last page was fetched, or a fetch failed.
    Exhausted,
}

impl PageCursor {
    /// The cursor after a page that reported more data. The request without
    /// a page number returns page 1, so page 2 follows it.
    pub open spec fn spec_succ(self) -> PageCursor {
        match self {
            PageCursor::Start => PageCursor::AtPage(2),
            PageCursor::AtPage(n) => PageCursor::AtPage((n + 1) as u64),
            PageCursor::Exhausted => PageCursor::Exhausted,
        }
    }

    /// There is a page after the one at this cursor, with a number that can
    /// be written down.
    pub open spec fn can_advance(self) -> bool {
        match self {
            PageCursor::Start => true,
            PageCursor::AtPage(n) => n < u64::MAX,
            PageCursor::Exhausted => false,
        }
    }

    /// The page number that a request at this cursor carries.
    pub open spec fn spec_page(&self) -> Option<u64> {
        match *self {
            PageCursor::AtPage(n) => Some(n),
            _ => None,
        }
    }

    #[verifier::when_used_as_spec(spec_succ)]
    pub fn succ(self) -> (r: PageCursor)
        requires
            self.can_advance(),
        ensures
            r == self.spec_succ(),
            r is AtPage,
    {
        match self {
            PageCursor::Start => PageCursor::AtPage(2),
            PageCursor::AtPage(n) => PageCursor::AtPage(n + 1),
            PageCursor::Exhausted => PageCursor::Exhausted,
        }
    }

    #[verifier::when_used_as_spec(spec_page)]
    pub fn page(&self) -> (r: Option<u64>)
        ensures
            r == self.spec_page(),
    {
        match self {
            PageCursor::AtPage(n) => Some(*n),
            _ => None,
        }
    }
}

/// What `PageStream::poll` hands out.
#[derive(Debug)]
pub enum Pull<T, E> {
    /// The next item of the sequence. An error is the last item.
    Item(Result<T, E>),
    /// The page at this cursor is needed before the sequence can go on.
    Fetch(PageCursor),
    /// The sequence has ended.
    Done,
}

/// The state of a `PageStream`.
pub struct StreamState<T, E> {
    /// Where the next fetch goes.
    pub cursor: PageCursor,
    /// The items of the current page that were not handed out yet, the next
    /// one first.
    pub pending: Seq<T>,
    /// The error of a failed fetch that was not handed out yet.
    pub failure: Option<E>,
}

impl<T, E> StreamState<T, E> {
    /// The state before the first fetch.
    pub open spec fn initial() -> Self {
        StreamState { cursor: PageCursor::Start, pending: Seq::empty(), failure: None }
    }

    /// The stream has nothing left to hand out and waits for a page.
    pub open spec fn awaiting(self) -> bool {
        self.pending.len() == 0 && self.failure is None && !(self.cursor is Exhausted)
    }

    /// One pull: the state after it and what is handed out.
    pub open spec fn poll(self) -> (Self, Pull<T, E>) {
        if self.pending.len() > 0 {
            (
                StreamState { pending: self.pending.drop_first(), ..self },
                Pull::Item(Ok(self.pending[0])),
            )
        } else if let Some(e) = self.failure {
            (StreamState { failure: None, ..self }, Pull::Item(Err(e)))
        } else if self.cursor is Exhausted {
            (self, Pull::Done)
        } else {
            (self, Pull::Fetch(self.cursor))
        }
    }

    /// The state after the page asked for has arrived.
    pub open spec fn feed(self, items: Seq<T>, has_more: bool) -> Self {
        StreamState {
            cursor: if has_more {
                self.cursor.spec_succ()
            } else {
                PageCursor::Exhausted
            },
            pending: items,
            failure: None,
        }
    }

    /// The state after the fetch asked for has failed.
    pub open spec fn fail(self, error: E) -> Self {
        StreamState { cursor: PageCursor::Exhausted, pending: self.pending, failure: Some(error) }
    }
}

/// A paged collection read as one sequence. See the module's description.
pub struct PageStream<T, E> {
    cursor: PageCursor,
    /// The rest of the current page, the next item last.
    batch: Vec<T>,
    failure: Option<E>,
}

impl<T, E> View for PageStream<T, E> {
    type V = StreamState<T, E>;

    closed spec fn view(&self) -> StreamState<T, E> {
        StreamState {
            cursor: self.cursor,
            pending: Seq::new(self.batch@.len(), |i: int| self.batch@[self.batch@.len() - 1 - i]),
            failure: self.failure,
        }
    }
}

impl<T, E> PageStream<T, E> {
    /// A stream that has fetched nothing yet.
    pub fn new() -> (s: Self)
        ensures
            s@ == StreamState::<T, E>::initial(),
    {
        let s = PageStream { cursor: PageCursor::Start, batch: Vec::new(), failure: None };
        assert(s@.pending =~= Seq::empty());
        s
    }

    /// Where the next fetch goes.
    pub fn cursor(&self) -> (c: PageCursor)
        ensures
            c == self@.cursor,
    {
        self.cursor
    }

    /// True where the stream has nothing left to hand out and waits for a
    /// page: the next `poll` returns `Pull::Fetch`.
    pub fn is_awaiting(&self) -> (b: bool)
        ensures
            b == self@.awaiting(),
    {
        self.batch.len() == 0 && self.failure.is_none() && !matches!(
            self.cursor,
            PageCursor::Exhausted
        )
    }

    /// Pulls once. Hands out the next item of the current page if there is
    /// one, then the error of a failed fetch; asks for the next page while
    /// the collection is not exhausted, and does not change the stream then.
    pub fn poll(&mut self) -> (r: Pull<T, E>)
        ensures
            final(self)@ == old(self)@.poll().0,
            r == old(self)@.poll().1,
    {
        if self.batch.len() > 0 {
            let item = self.batch.pop().unwrap();
            assert(self@.pending =~= old(self)@.pending.drop_first());
            Pull::Item(Ok(item))
        } else if self.failure.is_some() {
            let error = self.failure.take().unwrap();
            assert(self@.pending =~= old(self)@.pending);
            Pull::Item(Err(error))
        } else {
            match self.cursor {
                PageCursor::Exhausted => Pull::Done,
                cursor => Pull::Fetch(cursor),
            }
        }
    }

    /// Takes the page that `poll` asked for. With `has_more` the cursor moves
    /// to the next page, without it the collection is exhausted.
    pub fn feed(&mut self, items: Vec<T>, has_more: bool)
        requires
            old(self)@.awaiting(),
            has_more ==> old(self)@.cursor.can_advance(),
        ensures
            final(self)@ == old(self)@.feed(items@, has_more),
    {
        let mut items = items;
        let ghost page = items@;
        while items.len() > 0
            invariant
                self.cursor == old(self).cursor,
                self.failure == old(self).failure,
                self.batch@.len() + items@.len() == page.len(),
                forall|j: int| 0 <= j < items@.len() ==> items@[j] == page[j],
                forall|j: int|
                    0 <= j < self.batch@.len() ==> self.batch@[j] == page[page.len() - 1 - j],
            decreases items.len(),
        {
            let item = items.pop().unwrap();
            self.batch.push(item);
        }
        self.cursor = if has_more {
            self.cursor.succ()
        } else {
            PageCursor::Exhausted
        };
        assert(self@.pending =~= page);
    }

    /// Records that the fetch `poll` asked for has failed. The error is the
    /// last item that the stream hands out.
    pub fn fail(&mut self, error: E)
        requires
            old(self)@.awaiting(),
        ensures
            final(self)@ == old(self)@.fail(error),
    {
        self.cursor = PageCursor::Exhausted;
        self.failure = Some(error);
        assert(self@.pending =~= old(self)@.pending);
    }
}

/// What a remote side answers to one fetch: a page and whether more follow,
/// or an error.
pub type Answer<T, E> = Result<(Seq<T>, bool), E>;

/// What came of reading a stream to its end.
pub struct Outcome<T, E> {
    /// The items handed out, in order.
    pub items: Seq<Result<T, E>>,
    /// How many pages were asked for.
    pub fetches: nat,
}

/// The items of one page as the stream hands them out.
pub open spec fn delivered<T, E>(items: Seq<T>) -> Seq<Result<T, E>> {
    Seq::new(items.len(), |i: int| Ok(items[i]))
}

/// Reads the stream in state `state` to its end against a remote side that
/// gives `answers`, one for each fetch, in this order: pulls until the stream
/// is done or asks for a page that the remote side has no answer for.
pub open spec fn read_all<T, E>(state: StreamState<T, E>, answers: Seq<Answer<T, E>>) -> Outcome<
    T,
    E,
>
    decreases answers.len(), state.pending.len(), (if state.failure is Some {
        1nat
    } else {
        0nat
    }),
{
    let (next, pull) = state.poll();
    match pull {
        Pull::Item(item) => {
            let rest = read_all(next, answers);
            Outcome { items: seq![item] + rest.items, fetches: rest.fetches }
        },
        Pull::Done => Outcome { items: Seq::empty(), fetches: 0 },
        Pull::Fetch(_) => {
            if answers.len() == 0 {
                Outcome { items: Seq::empty(), fetches: 0 }
            } else {
                let after = match answers[0] {
                    Ok((items, has_more)) => next.feed(items, has_more),
                    Err(error) => next.fail(error),
                };
                let rest = read_all(after, answers.drop_first());
                Outcome { items: rest.items, fetches: rest.fetches + 1 }
            }
        },
    }
}

/// A remote side that holds exactly `pages`: every page but the last reports
/// that more follow.
pub open spec fn remote_of<T, E>(pages: Seq<Seq<T>>) -> Seq<Answer<T, E>> {
    Seq::new(pages.len(), |k: int| Ok((pages[k], k + 1 < pages.len())))
}

/// A stream first hands out what is pending, then goes on as a stream with
/// nothing pending does.
pub proof fn lemma_pending_comes_first<T, E>(state: StreamState<T, E>, answers: Seq<Answer<T, E>>)
    requires
        state.failure is None,
    ensures
        read_all(state, answers).items == delivered::<T, E>(state.pending) + read_all(
            StreamState { pending: Seq::empty(), ..state },
            answers,
        ).items,
        read_all(state, answers).fetches == read_all(
            StreamState { pending: Seq::empty(), ..state },
            answers,
        ).fetches,
    decreases state.pending.len(),
{
    let emptied = StreamState { pending: Seq::<T>::empty(), ..state };
    if state.pending.len() == 0 {
        assert(state.pending =~= Seq::<T>::empty());
        assert(state == emptied);
        assert(delivered::<T, E>(state.pending) + read_all(emptied, answers).items =~= read_all(
            emptied,
            answers,
        ).items);
    } else {
        let next = state.poll().0;
        lemma_pending_comes_first(next, answers);
        assert(StreamState { pending: Seq::<T>::empty(), ..next } == emptied);
        assert(delivered::<T, E>(state.pending) =~= seq![Ok(state.pending[0])] + delivered::<T, E>(
            next.pending,
        ));
        assert(read_all(state, answers).items =~= delivered::<T, E>(state.pending) + read_all(
            emptied,
            answers,
        ).items);
    }
}

/// One fetch of a waiting stream. A page that reports more data is handed
/// out and the next page is asked for; the last page is handed out and the
/// stream ends; an error is handed out and the stream ends.
pub proof fn lemma_one_fetch<T, E>(state: StreamState<T, E>, answers: Seq<Answer<T, E>>)
    requires
        state.awaiting(),
        answers.len() > 0,
    ensures
        match answers[0] {
            Ok((items, has_more)) => {
                let following = StreamState {
                    cursor: state.cursor.spec_succ(),
                    pending: Seq::empty(),
                    failure: None,
                };
                if has_more {
                    &&& following.awaiting()
                    &&& read_all(state, answers).items == delivered::<T, E>(items) + read_all(
                        following,
                        answers.drop_first(),
                    ).items
                    &&& read_all(state, answers).fetches == 1 + read_all(
                        following,
                        answers.drop_first(),
                    ).fetches
                } else {
                    &&& read_all(state, answers).items == delivered::<T, E>(items)
                    &&& read_all(state, answers).fetches == 1
                }
            },
            Err(error) => {
                &&& read_all(state, answers).items == seq![Err::<T, E>(error)]
                &&& read_all(state, answers).fetches == 1
            },
        },
{
    let rest = answers.drop_first();
    match answers[0] {
        Ok((items, has_more)) => {
            let after = state.feed(items, has_more);
            lemma_pending_comes_first(after, rest);
            let emptied = StreamState { pending: Seq::<T>::empty(), ..after };
            if !has_more {
                assert(read_all(emptied, rest).items =~= Seq::empty());
                assert(delivered::<T, E>(items) + Seq::empty() =~= delivered::<T, E>(items));
            }
        },
        Err(error) => {
            let after = state.fail(error);
            let cleared = after.poll().0;
            assert(read_all(cleared, rest).items =~= Seq::empty());
            assert(read_all(after, rest).items =~= seq![Err::<T, E>(error)]);
        },
    }
}

/// Reading a remote collection of `pages` hands out every item of every
/// page once, in the order of the pages, takes one fetch for each page and
/// then ends: nothing is fetched after the last page, whatever the remote
/// side would answer (`later`).
pub proof fn lemma_every_item_in_page_order<T, E>(pages: Seq<Seq<T>>, later: Seq<Answer<T, E>>)
    requires
        0 < pages.len() <= u64::MAX,
    ensures
        read_all(StreamState::<T, E>::initial(), remote_of(pages) + later).items == delivered::<
            T,
            E,
        >(pages.flatten()),
        read_all(StreamState::<T, E>::initial(), remote_of::<T, E>(pages) + later).fetches
            == pages.len(),
{
    lemma_pages_from(StreamState::<T, E>::initial(), pages, later);
}

proof fn lemma_pages_from<T, E>(
    state: StreamState<T, E>,
    pages: Seq<Seq<T>>,
    later: Seq<Answer<T, E>>,
)
    requires
        state.awaiting(),
        0 < pages.len(),
    ensures
        read_all(state, remote_of(pages) + later).items == delivered::<T, E>(pages.flatten()),
        read_all(state, remote_of::<T, E>(pages) + later).fetches == pages.len(),
    decreases pages.len(),
{
    let answers = remote_of::<T, E>(pages) + later;
    let rest = pages.drop_first();
    assert(answers[0] == remote_of::<T, E>(pages)[0]);
    lemma_one_fetch(state, answers);
    assert(pages.flatten() == pages[0] + rest.flatten());
    if pages.len() == 1 {
        assert(rest.flatten() =~= Seq::empty());
        assert(pages[0] + Seq::empty() =~= pages[0]);
    } else {
        let following = StreamState {
            cursor: state.cursor.spec_succ(),
            pending: Seq::<T>::empty(),
            failure: None::<E>,
        };
        assert(answers.drop_first() =~= remote_of::<T, E>(rest) + later);
        lemma_pages_from(following, rest, later);
        assert(delivered::<T, E>(pages[0]) + delivered::<T, E>(rest.flatten()) =~= delivered::<
            T,
            E,
        >(pages[0] + rest.flatten()));
    }
}

/// Where the first page reports no more data, exactly its items are handed
/// out and no second fetch is made, whatever the remote side would answer.
pub proof fn lemma_stops_after_last_page<T, E>(items: Seq<T>, answers: Seq<Answer<T, E>>)
    requires
        answers.len() > 0,
        answers[0] == Ok::<(Seq<T>, bool), E>((items, false)),
    ensures
        read_all(StreamState::<T, E>::initial(), answers).items == delivered::<T, E>(items),
        read_all(StreamState::<T, E>::initial(), answers).fetches == 1,
{
    lemma_one_fetch(StreamState::<T, E>::initial(), answers);
}

/// Where the fetch after `pages` fails, the items of `pages` are handed out
/// as they are, the error follows as the last item, and nothing is fetched
/// after it.
pub proof fn lemma_failure_ends_stream<T, E>(
    pages: Seq<Seq<T>>,
    error: E,
    later: Seq<Answer<T, E>>,
)
    requires
        pages.len() < u64::MAX,
    ensures
        read_all(
            StreamState::<T, E>::initial(),
            failing_remote(pages, error, later),
        ).items == delivered::<T, E>(pages.flatten()).push(Err(error)),
        read_all(
            StreamState::<T, E>::initial(),
            failing_remote(pages, error, later),
        ).fetches == pages.len() + 1,
{
    lemma_failure_from(StreamState::<T, E>::initial(), pages, error, later);
}

/// A remote side that hands out `pages`, each reporting more data, then
/// fails with `error`, and would answer `later` after that.
pub open spec fn failing_remote<T, E>(pages: Seq<Seq<T>>, error: E, later: Seq<Answer<T, E>>) -> Seq<
    Answer<T, E>,
> {
    Seq::new(pages.len(), |k: int| Ok::<(Seq<T>, bool), E>((pages[k], true))).push(Err(error))
        + later
}

proof fn lemma_failure_from<T, E>(
    state: StreamState<T, E>,
    pages: Seq<Seq<T>>,
    error: E,
    later: Seq<Answer<T, E>>,
)
    requires
        state.awaiting(),
    ensures
        read_all(state, failing_remote(pages, error, later)).items == delivered::<T, E>(
            pages.flatten(),
        ).push(Err(error)),
        read_all(state, failing_remote(pages, error, later)).fetches == pages.len() + 1,
    decreases pages.len(),
{
    let answers = failing_remote(pages, error, later);
    lemma_one_fetch(state, answers);
    if pages.len() == 0 {
        assert(pages.flatten() =~= Seq::empty());
        assert(delivered::<T, E>(pages.flatten()).push(Err(error)) =~= seq![Err::<T, E>(error)]);
    } else {
        let rest = pages.drop_first();
        let following = StreamState {
            cursor: state.cursor.spec_succ(),
            pending: Seq::<T>::empty(),
            failure: None::<E>,
        };
        assert(answers.drop_first() =~= failing_remote(rest, error, later));
        lemma_failure_from(following, rest, error, later);
        assert(pages.flatten() == pages[0] + rest.flatten());
        assert(delivered::<T, E>(pages[0]) + delivered::<T, E>(rest.flatten()).push(Err(error))
            =~= delivered::<T, E>(pages[0] + rest.flatten()).push(Err(error)));
    }
}

} // verus!
