use vstd::prelude::*;

verus! {

/// A page of a listing: its items and the cursor of the next page, if any.
pub type PageView<T> = (Seq<T>, Option<Seq<char>>);

/// Where a paged listing stands: the items collected so far, the cursor to
/// send with the next request, and whether the last page has been seen.
pub struct PagingState<T> {
    pub items: Seq<T>,
    pub cursor: Option<Seq<char>>,
    pub finished: bool,
}

/// Before the first request: nothing collected, no cursor.
pub open spec fn initial_paging<T>() -> PagingState<T> {
    PagingState { items: Seq::empty(), cursor: None, finished: false }
}

/// After a page arrives: its items are appended, its cursor is the next
/// one, and the listing is finished when it has no cursor.
pub open spec fn paging_step<T>(s: PagingState<T>, page: PageView<T>) -> PagingState<T> {
    PagingState { items: s.items + page.0, cursor: page.1, finished: page.1 is None }
}

/// The state after the given pages, in order.
pub open spec fn run_pages<T>(pages: Seq<PageView<T>>) -> PagingState<T>
    decreases pages.len(),
{
    if pages.len() == 0 {
        initial_paging()
    } else {
        paging_step(run_pages(pages.drop_last()), pages.last())
    }
}

/// The items of the given pages, in order.
pub open spec fn flatten_pages<T>(pages: Seq<PageView<T>>) -> Seq<T>
    decreases pages.len(),
{
    if pages.len() == 0 {
        Seq::empty()
    } else {
        flatten_pages(pages.drop_last()) + pages.last().0
    }
}

/// The pages form one complete listing: every page but the last carries a
/// cursor, and the last carries none.
pub open spec fn is_complete_listing<T>(pages: Seq<PageView<T>>) -> bool {
    &&& pages.len() > 0
    &&& forall|i: int| 0 <= i < pages.len() - 1 ==> (#[trigger] pages[i]).1 is Some
    &&& pages.last().1 is None
}

/// Collects a listing that Roblox serves in pages, one request at a time.
pub struct PageCollector<T> {
    items: Vec<T>,
    cursor: Option<String>,
    finished: bool,
    /// The pages taken in so far, in order.
    fed: Ghost<Seq<PageView<T>>>,
}

impl<T> View for PageCollector<T> {
    type V = PagingState<T>;

    closed spec fn view(&self) -> PagingState<T> {
        PagingState {
            items: self.items@,
            cursor: match self.cursor {
                Some(c) => Some(c@),
                None => None,
            },
            finished: self.finished,
        }
    }
}

impl<T> PageCollector<T> {
    /// The pages taken in so far, in order.
    pub closed spec fn pages_fed(&self) -> Seq<PageView<T>> {
        self.fed@
    }

    /// The collector stands where the pages taken in so far lead.
    pub closed spec fn well_formed(&self) -> bool {
        self@ == run_pages(self.pages_fed())
    }

    /// A collector that has not requested anything yet.
    pub fn new() -> (res: Self)
        ensures
            res@ == initial_paging::<T>(),
            res.pages_fed() == Seq::<PageView<T>>::empty(),
            res.well_formed(),
    {
        let res = PageCollector { items: Vec::new(), cursor: None, finished: false, fed: Ghost(Seq::empty()) };
        assert(res@.items =~= Seq::<T>::empty());
        res
    }

    /// The cursor to send with the next request (`None` inside for the first
    /// page), or nothing when the listing is finished.
    pub fn next_request(&self) -> (res: Option<Option<String>>)
        ensures
            match res {
                None => self@.finished,
                Some(c) => !self@.finished && self@.cursor == match c {
                    Some(s) => Some(s@),
                    None => None::<Seq<char>>,
                },
            },
    {
        if self.finished {
            None
        } else {
            match &self.cursor {
                Some(c) => Some(Some(c.clone())),
                None => Some(None),
            }
        }
    }

    /// Takes in the page that answered the last request.
    pub fn accept_page(&mut self, data: Vec<T>, next_cursor: Option<String>)
        requires
            !old(self)@.finished,
        ensures
            final(self)@ == paging_step(
                old(self)@,
                (data@, match next_cursor { Some(c) => Some(c@), None => None }),
            ),
            final(self).pages_fed() == old(self).pages_fed().push(
                (data@, match next_cursor { Some(c) => Some(c@), None => None }),
            ),
            old(self).well_formed() ==> final(self).well_formed(),
    {
        let ghost page = (data@, match &next_cursor { Some(c) => Some(c@), None => None });
        let mut data = data;
        self.items.append(&mut data);
        self.finished = next_cursor.is_none();
        self.cursor = next_cursor;
        self.fed = Ghost(self.fed@.push(page));
        assert(self.fed@.drop_last() =~= old(self).fed@);
    }

    /// Takes in the answer to the last request. A page is taken in as by
    /// `accept_page`; a failure ends the listing with that failure, so no
    /// further page is asked for.
    pub fn accept_reply<E>(self, reply: Result<(Vec<T>, Option<String>), E>) -> (res: Result<Self, E>)
        requires
            !self@.finished,
        ensures
            match reply {
                Err(e) => res == Err::<Self, E>(e),
                Ok((data, next_cursor)) => res matches Ok(next) && next@ == paging_step(
                    self@,
                    (data@, match next_cursor { Some(c) => Some(c@), None => None }),
                ) && next.pages_fed() == self.pages_fed().push(
                    (data@, match next_cursor { Some(c) => Some(c@), None => None }),
                ) && (self.well_formed() ==> next.well_formed()),
            },
    {
        match reply {
            Err(e) => Err(e),
            Ok((data, next_cursor)) => {
                let mut next = self;
                next.accept_page(data, next_cursor);
                Ok(next)
            },
        }
    }

    /// The items collected, in the order in which the pages gave them.
    pub fn into_items(self) -> (res: Vec<T>)
        ensures
            res@ == self@.items,
    {
        self.items
    }
}

/// Paging law: feeding the pages of a listing one after another collects
/// exactly their items in order; the listing is finished exactly when the
/// last page fed had no cursor; and each request carries the cursor that
/// the page before it returned (none for the first).
pub proof fn lemma_paging_collects_all_pages<T>(pages: Seq<PageView<T>>)
    ensures
        run_pages(pages).items == flatten_pages(pages),
        run_pages(pages).finished <==> (pages.len() > 0 && pages.last().1 is None),
        forall|i: int|
            0 < i <= pages.len() ==> #[trigger] run_pages(pages.take(i)).cursor == pages[i - 1].1,
    decreases pages.len(),
{
    if pages.len() > 0 {
        lemma_paging_collects_all_pages(pages.drop_last());
        assert forall|i: int| 0 < i <= pages.len() implies #[trigger] run_pages(pages.take(i)).cursor
            == pages[i - 1].1 by {
            assert(pages.take(i).drop_last() =~= pages.take(i - 1));
            assert(pages.take(i).last() == pages[i - 1]);
        }
    }
}

/// Collector law: a collector that has taken in pages one after another
/// holds exactly their items, in order; it is finished exactly when the last
/// page had no cursor; and its next request carries the last page's cursor
/// (none before the first page).
pub proof fn lemma_collector_follows_its_pages<T>(collector: &PageCollector<T>)
    requires
        collector.well_formed(),
    ensures
        collector@.items == flatten_pages(collector.pages_fed()),
        collector@.finished <==> (collector.pages_fed().len() > 0 && collector.pages_fed().last().1 is None),
        collector@.cursor == if collector.pages_fed().len() == 0 {
            None
        } else {
            collector.pages_fed().last().1
        },
{
    let pages = collector.pages_fed();
    lemma_paging_collects_all_pages(pages);
    if pages.len() > 0 {
        assert(pages.take(pages.len() as int) =~= pages);
        assert(run_pages(pages.take(pages.len() as int)).cursor == pages[pages.len() - 1].1);
    }
}

/// Completion law: a complete listing leaves the collector finished with
/// every item of every page, and every proper prefix of it leaves the
/// collector still asking for more.
pub proof fn lemma_complete_listing_finishes<T>(pages: Seq<PageView<T>>)
    requires
        is_complete_listing(pages),
    ensures
        run_pages(pages).finished,
        run_pages(pages).items == flatten_pages(pages),
        forall|i: int| 0 <= i < pages.len() ==> !(#[trigger] run_pages(pages.take(i))).finished,
{
    lemma_paging_collects_all_pages(pages);
    assert forall|i: int| 0 <= i < pages.len() implies !(#[trigger] run_pages(pages.take(i))).finished by {
        if i > 0 {
            assert(pages.take(i).drop_last() =~= pages.take(i - 1));
            assert(pages.take(i).last() == pages[i - 1]);
            assert(pages[i - 1].1 is Some);
        }
    }
}

} // verus!
