use vstd::prelude::*;
use crate::error::{HrBoxError, ProtocolIssue};
use crate::model::{Document, HrDocumentBox};

verus! {

/// What the caller does after a catalog page was accepted.
#[derive(Debug, Clone, Copy, PartialEq, Eq, Structural)]
pub enum PageStep {
    /// Request the page that starts at this offset.
    Fetch(u32),
    /// Every record has been retrieved: no further request.
    Complete,
}

/// Every field of two listings but their documents agree.
pub open spec fn same_header(a: HrDocumentBox, b: HrDocumentBox) -> bool {
    &&& a.success == b.success
    &&& a.total_result_count == b.total_result_count
    &&& a.total_count == b.total_count
    &&& a.unread_count == b.unread_count
    &&& a.offset == b.offset
    &&& a.metadata == b.metadata
    &&& a.folders == b.folders
}

/// The state of a paginated retrieval.
pub ghost struct CatalogView {
    /// The first page as it arrived, once it has.
    pub first: Option<HrDocumentBox>,
    /// Sum of the record counts of the accepted pages.
    pub retrieved: nat,
    /// Records of the accepted pages, in arrival order.
    pub documents: Seq<Document>,
    /// A page broke the protocol; the retrieval is over.
    pub failed: bool,
}

impl CatalogView {
    /// Nothing requested yet.
    pub open spec fn initial() -> CatalogView {
        CatalogView { first: None, retrieved: 0, documents: Seq::empty(), failed: false }
    }

    /// The record total, as reported by the first page.
    pub open spec fn total(self) -> nat {
        self.first->0.total_count as nat
    }

    /// Another page has to be requested.
    pub open spec fn awaiting(self) -> bool {
        !self.failed && (self.first is None || self.retrieved < self.total())
    }

    /// The listing is complete: the records reached the total.
    pub open spec fn complete(self) -> bool {
        !self.failed && self.first is Some && self.retrieved >= self.total()
    }

    /// The offset of the page to request next.
    pub open spec fn next_offset(self) -> nat {
        self.retrieved
    }

    /// The total that `page` is checked against.
    pub open spec fn total_for(self, page: HrDocumentBox) -> nat {
        if self.first is Some {
            self.total()
        } else {
            page.total_count as nat
        }
    }

    /// The answer to accepting `page` while awaiting it.
    pub open spec fn outcome(self, page: HrDocumentBox) -> Result<PageStep, HrBoxError> {
        let count = self.retrieved + page.total_result_count;
        if self.first is Some && page.total_count != self.total() {
            Err(HrBoxError::Protocol(ProtocolIssue::TotalCountChanged))
        } else if page.total_result_count == 0 && self.retrieved < self.total_for(page) {
            Err(HrBoxError::Protocol(ProtocolIssue::StalledPagination))
        } else if count >= self.total_for(page) {
            Ok(PageStep::Complete)
        } else {
            Ok(PageStep::Fetch(count as u32))
        }
    }

    /// The state after accepting `page` while awaiting it.
    pub open spec fn after(self, page: HrDocumentBox) -> CatalogView {
        if self.outcome(page) is Err {
            CatalogView { failed: true, ..self }
        } else {
            CatalogView {
                first: if self.first is Some { self.first } else { Some(page) },
                retrieved: (self.retrieved + page.total_result_count) as nat,
                documents: self.documents + page.documents@,
                failed: false,
            }
        }
    }
}

/// Retrieval of the whole catalog, one page after the other.
///
/// Each page starts where the records of the pages before it end; the
/// retrieval is complete once they reach the total that the first page
/// reported.
pub struct Catalog {
    first: Option<HrDocumentBox>,
    more: Vec<Document>,
    retrieved: u64,
    failed: bool,
}

impl View for Catalog {
    type V = CatalogView;

    closed spec fn view(&self) -> CatalogView {
        CatalogView {
            first: self.first,
            retrieved: self.retrieved as nat,
            documents: match self.first {
                Some(b) => b.documents@ + self.more@,
                None => self.more@,
            },
            failed: self.failed,
        }
    }
}

impl Catalog {
    /// The internal invariant.
    pub closed spec fn wf(&self) -> bool {
        &&& self.first is None ==> self.retrieved == 0 && self.more@.len() == 0
        &&& self.first is Some ==> self.retrieved <= self@.total() + 0xffff_ffff
    }

    /// A retrieval that has requested nothing yet.
    pub fn new() -> (r: Catalog)
        ensures
            r.wf(),
            r@ == CatalogView::initial(),
    {
        let c = Catalog { first: None, more: Vec::new(), retrieved: 0, failed: false };
        assert(c@.documents =~= Seq::<Document>::empty());
        c
    }

    /// The offset of the page to request next, or `None` when no request
    /// is due.
    pub fn next_offset(&self) -> (r: Option<u32>)
        requires
            self.wf(),
        ensures
            self@.awaiting() <==> r is Some,
            r matches Some(o) ==> o as nat == self@.next_offset(),
    {
        if self.failed {
            return None;
        }
        match &self.first {
            None => Some(0),
            Some(b) => {
                if self.retrieved < b.total_count as u64 {
                    Some(self.retrieved as u32)
                } else {
                    None
                }
            },
        }
    }

    /// Accepts the page that was requested at the current offset.
    ///
    /// Fails, and ends the retrieval, when the page reports another total
    /// than the first one, or holds no record although the total has not
    /// been reached. Otherwise the page's records are appended and the
    /// result says whether a further page is due, and at which offset.
    pub fn accept(&mut self, page: HrDocumentBox) -> (r: Result<PageStep, HrBoxError>)
        requires
            old(self).wf(),
            old(self)@.awaiting(),
        ensures
            final(self).wf(),
            r == old(self)@.outcome(page),
            final(self)@ == old(self)@.after(page),
            final(self)@.awaiting() <==> r matches Ok(PageStep::Fetch(_)),
            final(self)@.complete() <==> r == Ok::<PageStep, HrBoxError>(PageStep::Complete),
            r matches Ok(PageStep::Fetch(o)) ==> o as nat > old(self)@.next_offset()
                && o as nat == final(self)@.next_offset(),
    {
        let mut page = page;
        let ghost old_view = self@;
        let ghost arrived = page;
        let count: u64 = self.retrieved + page.total_result_count as u64;
        match &self.first {
            Some(b) => {
                if page.total_count != b.total_count {
                    self.failed = true;
                    return Err(HrBoxError::Protocol(ProtocolIssue::TotalCountChanged));
                }
                if page.total_result_count == 0 {
                    self.failed = true;
                    return Err(HrBoxError::Protocol(ProtocolIssue::StalledPagination));
                }
                let total = b.total_count as u64;
                self.more.append(&mut page.documents);
                self.retrieved = count;
                assert(self@.documents =~= old_view.documents + arrived.documents@);
                if count >= total {
                    Ok(PageStep::Complete)
                } else {
                    Ok(PageStep::Fetch(count as u32))
                }
            },
            None => {
                if page.total_result_count == 0 && 0 < page.total_count {
                    self.failed = true;
                    return Err(HrBoxError::Protocol(ProtocolIssue::StalledPagination));
                }
                let total = page.total_count as u64;
                self.retrieved = count;
                self.first = Some(page);
                if count >= total {
                    Ok(PageStep::Complete)
                } else {
                    Ok(PageStep::Fetch(count as u32))
                }
            },
        }
    }

    /// The merged listing: the first page's fields with the records of
    /// every page, or `None` while the retrieval is not complete.
    pub fn into_listing(self) -> (r: Option<HrDocumentBox>)
        requires
            self.wf(),
        ensures
            self@.complete() <==> r is Some,
            r matches Some(b) ==> same_header(b, self@.first->0) && b.documents@ == self@.documents,
    {
        if self.failed {
            return None;
        }
        let Catalog { first, more, retrieved, failed: _ } = self;
        match first {
            None => None,
            Some(b) => {
                if retrieved < b.total_count as u64 {
                    None
                } else {
                    let mut b = b;
                    let mut more = more;
                    b.documents.append(&mut more);
                    Some(b)
                }
            },
        }
    }
}

/// The state after the server answered with `pages`, one after the other,
/// as long as a page was due.
pub open spec fn feed(v: CatalogView, pages: Seq<HrDocumentBox>) -> CatalogView
    decreases pages.len(),
{
    if pages.len() == 0 || !v.awaiting() {
        v
    } else {
        feed(v.after(pages[0]), pages.drop_first())
    }
}

/// Sum of the record counts of `pages`.
pub open spec fn record_sum(pages: Seq<HrDocumentBox>) -> nat
    decreases pages.len(),
{
    if pages.len() == 0 {
        0
    } else {
        pages[0].total_result_count as nat + record_sum(pages.drop_first())
    }
}

/// The records of `pages`, in order.
pub open spec fn all_documents(pages: Seq<HrDocumentBox>) -> Seq<Document>
    decreases pages.len(),
{
    if pages.len() == 0 {
        Seq::empty()
    } else {
        pages[0].documents@ + all_documents(pages.drop_first())
    }
}

/// Every page reports `total` records in all, holds as many records as it
/// says, and at least one.
pub open spec fn regular_pages(pages: Seq<HrDocumentBox>, total: nat) -> bool {
    forall|i: int| 0 <= i < pages.len() ==> regular_page(#[trigger] pages[i], total)
}

/// The page reports `total` records in all, holds as many records as it
/// says, and at least one.
pub open spec fn regular_page(page: HrDocumentBox, total: nat) -> bool {
    &&& page.total_count == total
    &&& page.total_result_count > 0
    &&& page.documents@.len() == page.total_result_count
}

proof fn lemma_regular_rest(pages: Seq<HrDocumentBox>, total: nat)
    requires
        pages.len() > 0,
        regular_pages(pages, total),
    ensures
        regular_page(pages[0], total),
        regular_pages(pages.drop_first(), total),
{
    assert forall|i: int| 0 <= i < pages.drop_first().len() implies
        regular_page(#[trigger] pages.drop_first()[i], total) by {
        assert(regular_page(pages[i + 1], total));
    }
}

proof fn lemma_documents_len(pages: Seq<HrDocumentBox>, total: nat)
    requires
        regular_pages(pages, total),
    ensures
        all_documents(pages).len() == record_sum(pages),
    decreases pages.len(),
{
    if pages.len() > 0 {
        lemma_regular_rest(pages, total);
        lemma_documents_len(pages.drop_first(), total);
    }
}

proof fn lemma_feed_rest(v: CatalogView, pages: Seq<HrDocumentBox>)
    requires
        v.first is Some,
        !v.failed,
        pages.len() > 0,
        regular_pages(pages, v.total()),
        v.retrieved + record_sum(pages) == v.total(),
    ensures
        feed(v, pages).complete(),
        feed(v, pages).first == v.first,
        feed(v, pages).documents == v.documents + all_documents(pages),
    decreases pages.len(),
{
    let p = pages[0];
    let rest = pages.drop_first();
    lemma_regular_rest(pages, v.total());
    let w = v.after(p);
    assert(record_sum(pages) == p.total_result_count + record_sum(rest));
    assert(v.awaiting());
    assert(v.outcome(p) is Ok);
    assert(feed(v, pages) == feed(w, rest));
    if rest.len() == 0 {
        assert(w.complete());
        assert(feed(w, rest) == w);
        assert(all_documents(rest) =~= Seq::<Document>::empty());
        assert(w.documents =~= v.documents + all_documents(pages));
    } else {
        assert(regular_page(rest[0], v.total()));
        lemma_feed_rest(w, rest);
        assert(v.documents + all_documents(pages) =~= w.documents + all_documents(rest));
    }
}

/// A catalog whose pages each report the same total, hold at least one
/// record and as many records as they say, and whose record counts add up
/// to that total, is retrieved completely: the result holds every record of
/// every page, in the order the pages arrived, as many as the total, and
/// no request follows the last page.
pub proof fn lemma_complete_listing(pages: Seq<HrDocumentBox>)
    requires
        pages.len() > 0,
        regular_pages(pages, pages[0].total_count as nat),
        record_sum(pages) == pages[0].total_count,
    ensures
        feed(CatalogView::initial(), pages).complete(),
        !feed(CatalogView::initial(), pages).awaiting(),
        feed(CatalogView::initial(), pages).documents == all_documents(pages),
        all_documents(pages).len() == pages[0].total_count,
{
    let total = pages[0].total_count as nat;
    lemma_documents_len(pages, total);
    let v = CatalogView::initial();
    let p = pages[0];
    let rest = pages.drop_first();
    lemma_regular_rest(pages, total);
    let w = v.after(p);
    if rest.len() == 0 {
        assert(all_documents(rest) =~= Seq::<Document>::empty());
        assert(w.documents =~= all_documents(pages));
    } else {
        assert(regular_page(rest[0], total));
        lemma_feed_rest(w, rest);
        assert(all_documents(pages) =~= w.documents + all_documents(rest));
    }
}

/// A page that holds no record while records are still missing ends the
/// retrieval with an error: no further page is requested.
pub proof fn lemma_stall_ends_retrieval(v: CatalogView, page: HrDocumentBox)
    requires
        v.awaiting(),
        page.total_result_count == 0,
        page.total_count == v.total_for(page),
        v.retrieved < page.total_count,
    ensures
        v.outcome(page) == Err::<PageStep, HrBoxError>(HrBoxError::Protocol(ProtocolIssue::StalledPagination)),
        !v.after(page).awaiting(),
        v.after(page).failed,
{
}

/// A first page that reports a total of zero completes the retrieval at
/// once, with the records of that page alone: no further page is requested.
pub proof fn lemma_empty_catalog(page: HrDocumentBox)
    requires
        page.total_count == 0,
    ensures
        CatalogView::initial().outcome(page) == Ok::<PageStep, HrBoxError>(PageStep::Complete),
        CatalogView::initial().after(page).complete(),
        !CatalogView::initial().after(page).awaiting(),
        CatalogView::initial().after(page).documents == page.documents@,
{
    assert(Seq::<Document>::empty() + page.documents@ =~= page.documents@);
}

} // verus!
