//! Reading a paginated listing item by item: which item comes next, when the
//! next page is fetched, and when the listing ends.
use vstd::prelude::*;

use crate::urls::opt_view;
use crate::page::Page;

verus! {

/// What the reader of a listing does next.
#[derive(Debug)]
pub enum Step<T> {
    /// Hand out this item.
    Item(T),
    /// Fetch the page at this URL and hand it to `receive`.
    Fetch(String),
    /// The listing has ended.
    Done,
}

/// The state of reading a listing: the items of the current page that are
/// still to come, the link to the next page, how many pages were asked for
/// so far, and how many may be.
pub struct PageCursor<T> {
    stack: Vec<T>,
    link: Option<String>,
    count: u64,
    num_pages: u64,
    waiting: bool,
    finished: bool,
    received: Ghost<Seq<T>>,
    yielded: Ghost<Seq<T>>,
}

/// `v` in reverse order, moving its items.
fn reversed<T>(v: Vec<T>) -> (r: Vec<T>)
    ensures
        r@ == v@.reverse(),
{
    let mut v = v;
    let ghost orig = v@;
    let mut r: Vec<T> = Vec::new();
    while v.len() > 0
        invariant
            v@ == orig.take(v@.len() as int),
            v@.len() <= orig.len(),
            r@.len() == orig.len() - v@.len(),
            forall|i: int| 0 <= i < r@.len() ==> r@[i] == orig[orig.len() - 1 - i],
        decreases v@.len(),
    {
        let x = v.pop().unwrap();
        r.push(x);
        proof {
            assert(v@ =~= orig.take(v@.len() as int));
        }
    }
    proof {
        assert(r@ =~= orig.reverse());
    }
    r
}

/// What decides the items that a cursor hands out from here on: the items
/// of the current page still to come, whether there is a link to a next
/// page, how many pages were asked for, the limit, and whether a page is
/// awaited or the listing has ended.
pub struct CursorState<T> {
    pub pending: Seq<T>,
    pub has_link: bool,
    pub pages: u64,
    pub limit: u64,
    pub waiting: bool,
    pub finished: bool,
}

/// The items that a cursor in state `s` hands out from here on when the
/// server answers its page requests with `served`, in order: each answer is
/// a page's items and whether it links to a next page.
pub open spec fn run<T>(s: CursorState<T>, served: Seq<(Seq<T>, bool)>) -> Seq<T>
    decreases served.len(),
{
    s.pending + if s.finished || (!s.waiting && (s.pages == s.limit || !s.has_link || s.pages == u64::MAX))
        || served.len() == 0 || served[0].0.len() == 0 {
        Seq::<T>::empty()
    } else {
        run(
            CursorState {
                pending: served[0].0,
                has_link: served[0].1,
                pages: if s.waiting {
                    s.pages
                } else {
                    (s.pages + 1) as u64
                },
                limit: s.limit,
                waiting: false,
                finished: false,
            },
            served.drop_first(),
        )
    }
}

/// The state of a cursor that starts at a first page with `first` items.
pub open spec fn started<T>(first: Seq<T>, has_link: bool, limit: u64) -> CursorState<T> {
    CursorState { pending: first, has_link, pages: 1, limit, waiting: false, finished: false }
}

/// `a` is the start of `b`.
pub open spec fn is_prefix<T>(a: Seq<T>, b: Seq<T>) -> bool {
    a.len() <= b.len() && b.subrange(0, a.len() as int) == a
}

proof fn lemma_smaller_limit_prefix<T>(sn: CursorState<T>, sm: CursorState<T>, served: Seq<(Seq<T>, bool)>)
    requires
        sn == (CursorState { limit: sn.limit, ..sm }),
        !sn.waiting,
        !sn.finished,
        1 <= sn.pages <= sn.limit <= sm.limit,
    ensures
        is_prefix(run(sn, served), run(sm, served)),
    decreases served.len(),
{
    if sn.pages == sn.limit {
        assert(run(sn, served) =~= sn.pending);
        assert(run(sm, served).subrange(0, sn.pending.len() as int) =~= sn.pending);
    } else if !sn.has_link || sn.pages == u64::MAX || served.len() == 0 || served[0].0.len() == 0 {
        assert(run(sn, served) =~= sn.pending);
        assert(run(sm, served) =~= sn.pending);
        assert(run(sm, served).subrange(0, sn.pending.len() as int) =~= sn.pending);
    } else {
        let nn = CursorState {
            pending: served[0].0,
            has_link: served[0].1,
            pages: (sn.pages + 1) as u64,
            limit: sn.limit,
            waiting: false,
            finished: false,
        };
        let nm = CursorState { limit: sm.limit, ..nn };
        lemma_smaller_limit_prefix(nn, nm, served.drop_first());
        let a = run(nn, served.drop_first());
        let b = run(nm, served.drop_first());
        assert(run(sn, served) == sn.pending + a);
        assert(run(sm, served) == sn.pending + b);
        assert((sn.pending + b).subrange(0, (sn.pending + a).len() as int) =~= sn.pending + a) by {
            assert(b.subrange(0, a.len() as int) == a);
            assert forall|i: int| sn.pending.len() <= i < (sn.pending + a).len() implies
                #[trigger] (sn.pending + b)[i] == (sn.pending + a)[i] by {
                assert(b.subrange(0, a.len() as int)[i - sn.pending.len()] == b[i - sn.pending.len()]);
            }
        }
    }
}

/// Reading a listing with a smaller page limit hands out a start of what a
/// larger limit hands out, whatever the server answers; with a limit of one
/// page it hands out the first page's items alone.
pub proof fn smaller_limit_reads_a_prefix<T>(
    first: Seq<T>,
    has_link: bool,
    served: Seq<(Seq<T>, bool)>,
    n: u64,
    m: u64,
)
    requires
        1 <= n <= m,
    ensures
        is_prefix(run(started(first, has_link, n), served), run(started(first, has_link, m), served)),
        run(started(first, has_link, 1), served) == first,
{
    lemma_smaller_limit_prefix(started(first, has_link, n), started(first, has_link, m), served);
    assert(run(started(first, has_link, 1), served) =~= first);
}

impl<T> PageCursor<T> {
    /// The items still to come from the current page, first one first.
    pub closed spec fn pending(&self) -> Seq<T> {
        self.stack@.reverse()
    }

    /// Every item of every page received so far, in order.
    pub closed spec fn received(&self) -> Seq<T> {
        self.received@
    }

    /// Every item handed out so far, in order.
    pub closed spec fn yielded(&self) -> Seq<T> {
        self.yielded@
    }

    /// How many pages were asked for so far, the first one included.
    pub closed spec fn pages(&self) -> u64 {
        self.count
    }

    /// How many pages may be asked for; 0 places no limit.
    pub closed spec fn limit(&self) -> u64 {
        self.num_pages
    }

    /// The link to the page after the current one.
    pub closed spec fn link_view(&self) -> Option<Seq<char>> {
        opt_view(self.link)
    }

    /// What decides the items that the cursor hands out from here on.
    pub closed spec fn state(&self) -> CursorState<T> {
        CursorState {
            pending: self.stack@.reverse(),
            has_link: self.link is Some,
            pages: self.count,
            limit: self.num_pages,
            waiting: self.waiting,
            finished: self.finished,
        }
    }

    /// Whether a page was asked for and not yet received.
    pub closed spec fn is_waiting(&self) -> bool {
        self.waiting
    }

    /// Whether the listing has ended.
    pub closed spec fn is_finished(&self) -> bool {
        self.finished
    }

    /// The cursor is consistent: the items handed out followed by those to
    /// come are the items received; at most `limit` pages were asked for; a
    /// cursor that waits or has ended holds no item.
    pub closed spec fn wf(&self) -> bool {
        &&& self.yielded@ + self.stack@.reverse() == self.received@
        &&& 1 <= self.count
        &&& self.num_pages >= 1 ==> self.count <= self.num_pages
        &&& self.waiting ==> self.stack@.len() == 0 && !self.finished
        &&& self.finished ==> self.stack@.len() == 0
    }

    /// Starts reading at the first page, with at most `num_pages` pages.
    pub fn new(first: Page<T>, num_pages: u64) -> (c: Self)
        ensures
            c.wf(),
            c.pending() == first.collection@,
            c.received() == first.collection@,
            c.yielded() == Seq::<T>::empty(),
            c.link_view() == opt_view(first.next_href),
            c.state() == started(first.collection@, first.next_href is Some, num_pages),
            c.pages() == 1,
            c.limit() == num_pages,
            !c.is_waiting(),
            !c.is_finished(),
    {
        let ghost items = first.collection@;
        let stack = reversed(first.collection);
        proof {
            assert(stack@.reverse() =~= items);
        }
        PageCursor {
            stack,
            link: first.next_href,
            count: 1,
            num_pages,
            waiting: false,
            finished: false,
            received: Ghost(items),
            yielded: Ghost(Seq::empty()),
        }
    }

    /// What to do next: hand out the next item of the current page; else,
    /// unless `limit` pages were asked for already or there is no next page,
    /// fetch the next page; else end. A cursor that has asked for `u64::MAX`
    /// pages ends there, as its count cannot grow further.
    pub fn next(&mut self) -> (s: Step<T>)
        requires
            old(self).wf(),
            !old(self).is_waiting(),
        ensures
            final(self).wf(),
            final(self).limit() == old(self).limit(),
            final(self).received() == old(self).received(),
            old(self).pending().len() > 0 ==> {
                &&& s matches Step::Item(x) && x == old(self).pending()[0]
                &&& final(self).pending() == old(self).pending().drop_first()
                &&& final(self).yielded() == old(self).yielded().push(old(self).pending()[0])
                &&& final(self).pages() == old(self).pages()
                &&& !final(self).is_waiting()
                &&& final(self).is_finished() == old(self).is_finished()
                &&& final(self).link_view() == old(self).link_view()
            },
            old(self).pending().len() == 0 ==> final(self).yielded() == old(self).yielded(),
            s matches Step::Item(x) ==> forall|served: Seq<(Seq<T>, bool)>|
                #[trigger] run(old(self).state(), served) == seq![x] + run(final(self).state(), served),
            s is Done ==> forall|served: Seq<(Seq<T>, bool)>|
                #[trigger] run(old(self).state(), served) == Seq::<T>::empty() && run(final(self).state(), served)
                    == Seq::<T>::empty(),
            s is Fetch ==> forall|served: Seq<(Seq<T>, bool)>|
                #[trigger] run(old(self).state(), served) == run(final(self).state(), served),
            old(self).pending().len() == 0 && (old(self).is_finished() || old(self).pages() == old(self).limit()
                || old(self).link_view() is None || old(self).pages() == u64::MAX) ==> {
                &&& s is Done
                &&& final(self).is_finished()
                &&& !final(self).is_waiting()
            },
            old(self).pending().len() == 0 && !old(self).is_finished() && old(self).pages() != old(self).limit()
                && old(self).link_view() is Some && old(self).pages() < u64::MAX ==> {
                &&& s matches Step::Fetch(u) && Some(u@) == old(self).link_view()
                &&& final(self).is_waiting()
                &&& final(self).pages() == old(self).pages() + 1
            },
    {
        let ghost before = self.stack@;
        match self.stack.pop() {
            Some(x) => {
                proof {
                    self.yielded@ = self.yielded@.push(x);
                    assert(self.stack@.reverse() =~= before.reverse().drop_first());
                    assert(self.yielded@ + self.stack@.reverse() =~= old(self).yielded@ + before.reverse());
                }
                Step::Item(x)
            },
            None => {
                if self.finished || self.count == self.num_pages || self.count == u64::MAX {
                    self.finished = true;
                    return Step::Done;
                }
                match &self.link {
                    None => {
                        self.finished = true;
                        Step::Done
                    },
                    Some(url) => {
                        let url = url.clone();
                        self.count = self.count + 1;
                        self.waiting = true;
                        Step::Fetch(url)
                    },
                }
            },
        }
    }

    /// Takes the page that the last `Fetch` asked for. Its items come next;
    /// a page without items ends the listing.
    pub fn receive(&mut self, page: Page<T>)
        requires
            old(self).wf(),
            old(self).is_waiting(),
        ensures
            final(self).wf(),
            !final(self).is_waiting(),
            final(self).pending() == page.collection@,
            final(self).received() == old(self).received() + page.collection@,
            final(self).yielded() == old(self).yielded(),
            final(self).link_view() == opt_view(page.next_href),
            final(self).pages() == old(self).pages(),
            final(self).limit() == old(self).limit(),
            final(self).is_finished() == (page.collection@.len() == 0),
            forall|served: Seq<(Seq<T>, bool)>|
                #[trigger] run(old(self).state(), seq![(page.collection@, page.next_href is Some)] + served)
                    == run(final(self).state(), served),
    {
        let ghost items = page.collection@;
        let empty = page.collection.len() == 0;
        let stack = reversed(page.collection);
        proof {
            assert(stack@.reverse() =~= items);
            self.received@ = self.received@ + items;
            assert(old(self).stack@.reverse() =~= Seq::<T>::empty());
            assert(self.yielded@ + stack@.reverse() =~= self.received@);
        }
        let ghost has_link = page.next_href is Some;
        self.stack = stack;
        self.link = page.next_href;
        self.waiting = false;
        self.finished = empty;
        proof {
            assert forall|served: Seq<(Seq<T>, bool)>|
                #[trigger] run(old(self).state(), seq![(items, has_link)] + served) == run(self.state(), served) by {
                let sv = seq![(items, has_link)] + served;
                assert(sv.drop_first() =~= served);
                assert(sv[0] == (items, has_link));
                assert(old(self).state().pending =~= Seq::<T>::empty());
                if items.len() == 0 {
                    assert(self.state().pending =~= Seq::<T>::empty());
                    assert(run(self.state(), served) =~= Seq::<T>::empty());
                    assert(run(old(self).state(), sv) =~= Seq::<T>::empty());
                } else {
                    let next = CursorState {
                        pending: items,
                        has_link,
                        pages: old(self).count,
                        limit: old(self).num_pages,
                        waiting: false,
                        finished: false,
                    };
                    assert(self.state() == next);
                    assert(run(old(self).state(), sv) =~= run(next, served));
                }
            }
        }
    }
}

/// Reading a listing hands out the items of its pages in the order in which
/// the pages and their items came: what was handed out, followed by what is
/// still to come, is everything received.
pub proof fn cursor_yields_in_order<T>(c: PageCursor<T>)
    requires
        c.wf(),
    ensures
        c.yielded() + c.pending() == c.received(),
{
}

/// A listing read with a limit of `n` pages asks for at most `n` pages.
pub proof fn cursor_respects_limit<T>(c: PageCursor<T>)
    requires
        c.wf(),
        c.limit() >= 1,
    ensures
        c.pages() <= c.limit(),
{
}

} // verus!
