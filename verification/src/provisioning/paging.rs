//! Fetching the whole list of customers, page by page. The decisions are
//! made here; the pages are fetched by the caller, one at a time and in
//! order.
//!
//! Every page is asked for with the largest page size. The offset starts
//! where the caller says and advances by the page size until it exceeds
//! the total that the latest page reported. A page that fails ends the
//! run with its failure, and what was gathered before is dropped.

use crate::provisioning::client::{
    customers_url_text, request_made, ApiRequest, DRACOONProvisioning, HttpMethod, DEFAULT_LIMIT,
    DEFAULT_OFFSET,
};
use crate::provisioning::error::{DRACOONProvisioningError, ProvisioningErrorView};
use crate::provisioning::models::{
    Customer, CustomerView, GetCustomersResponse, GetCustomersResponseView, RangeResponse,
};
use vstd::prelude::*;

verus! {

/// The number of customers that one page is asked to hold.
pub const PAGE_SIZE: u64 = DEFAULT_LIMIT;

/// A run that gathers all customers: the offset of the page that is due,
/// the range that the first page reported, and the customers gathered.
#[derive(Debug)]
pub struct CustomerPages {
    pub offset: u64,
    pub first: Option<RangeResponse>,
    pub items: Vec<Customer>,
}

/// The content of [`CustomerPages`].
pub struct CustomerPagesView {
    pub offset: u64,
    pub first: Option<RangeResponse>,
    pub items: Seq<CustomerView>,
}

impl DeepView for CustomerPages {
    type V = CustomerPagesView;

    open spec fn deep_view(&self) -> CustomerPagesView {
        CustomerPagesView { offset: self.offset, first: self.first, items: self.items.deep_view() }
    }
}

/// What a page does to a run.
#[derive(Debug)]
pub enum PageStep {
    /// Another page is due.
    More(CustomerPages),
    /// All customers are gathered: the range of the first page, and the
    /// customers of all pages in the order of the pages.
    Done(GetCustomersResponse),
}

/// The content of a [`PageStep`], or the failure that ended the run.
pub enum PageStepView {
    More(CustomerPagesView),
    Done(GetCustomersResponseView),
    Failed(ProvisioningErrorView),
}

/// A page that came in, or the failure to get it, by its content.
pub open spec fn page_view(page: Result<GetCustomersResponse, DRACOONProvisioningError>) -> Result<
    GetCustomersResponseView,
    ProvisioningErrorView,
> {
    match page {
        Ok(p) => Ok(p.deep_view()),
        Err(e) => Err(e.deep_view()),
    }
}

/// What a step came to, by its content.
pub open spec fn step_view(step: Result<PageStep, DRACOONProvisioningError>) -> PageStepView {
    match step {
        Ok(PageStep::More(pages)) => PageStepView::More(pages.deep_view()),
        Ok(PageStep::Done(all)) => PageStepView::Done(all.deep_view()),
        Err(e) => PageStepView::Failed(e.deep_view()),
    }
}

/// The state of a run before its first page.
pub open spec fn first_state(offset: Option<u64>) -> CustomerPagesView {
    CustomerPagesView {
        offset: match offset {
            Some(n) => n,
            None => DEFAULT_OFFSET,
        },
        first: None,
        items: Seq::empty(),
    }
}

/// The range that a run reports: that of its first page.
pub open spec fn reported_range(
    first: Option<RangeResponse>,
    latest: RangeResponse,
) -> RangeResponse {
    match first {
        Some(range) => range,
        None => latest,
    }
}

/// What the page that was due does to a run.
pub open spec fn page_step(
    state: CustomerPagesView,
    page: Result<GetCustomersResponseView, ProvisioningErrorView>,
) -> PageStepView {
    match page {
        Err(e) => PageStepView::Failed(e),
        Ok(p) => {
            let range = reported_range(state.first, p.range);
            let items = state.items + p.items;
            if state.offset + PAGE_SIZE > p.range.total {
                PageStepView::Done(GetCustomersResponseView { range, items })
            } else {
                PageStepView::More(
                    CustomerPagesView {
                        offset: (state.offset + PAGE_SIZE) as u64,
                        first: Some(range),
                        items,
                    },
                )
            }
        },
    }
}

/// The views of two lists of customers, one after the other, are the view
/// of the two lists joined.
proof fn lemma_joined_views(joined: Vec<Customer>, a: Vec<Customer>, b: Vec<Customer>)
    requires
        joined@ == a@ + b@,
    ensures
        joined.deep_view() == a.deep_view() + b.deep_view(),
{
    assert(joined.deep_view() =~= a.deep_view() + b.deep_view());
}

impl CustomerPages {
    /// Starts a run at `offset`, or at the beginning of the list.
    pub fn start(offset: Option<u64>) -> (r: CustomerPages)
        ensures
            r.deep_view() == first_state(offset),
    {
        let r = CustomerPages {
            offset: match offset {
                Some(n) => n,
                None => DEFAULT_OFFSET,
            },
            first: None,
            items: Vec::new(),
        };
        assert(r.items.deep_view() =~= Seq::<CustomerView>::empty());
        r
    }

    /// The request for the page that is due.
    pub fn request(
        &self,
        client: &DRACOONProvisioning,
        filter: Option<String>,
        sort: Option<String>,
        include_attributes: Option<bool>,
    ) -> (r: Result<ApiRequest, DRACOONProvisioningError>)
        ensures
            request_made(
                r,
                HttpMethod::Get,
                customers_url_text(
                    client.base_url_text(),
                    filter.deep_view(),
                    sort.deep_view(),
                    Some(PAGE_SIZE),
                    Some(self.offset),
                    include_attributes,
                ),
                client.token_text(),
                None,
            ),
    {
        client.get_customers(filter, sort, Some(PAGE_SIZE), Some(self.offset), include_attributes)
    }

    /// Takes the page that was due, or the failure to get it.
    pub fn accept(self, page: Result<GetCustomersResponse, DRACOONProvisioningError>) -> (r: Result<
        PageStep,
        DRACOONProvisioningError,
    >)
        ensures
            step_view(r) == page_step(self.deep_view(), page_view(page)),
    {
        match page {
            Err(e) => Err(e),
            Ok(p) => {
                let CustomerPages { offset, first, items } = self;
                let GetCustomersResponse { range: latest, items: more } = p;
                let range = match first {
                    Some(range) => range,
                    None => latest,
                };
                let mut all = items;
                let mut rest = more;
                let ghost before = all;
                let ghost added = rest;
                all.append(&mut rest);
                proof {
                    lemma_joined_views(all, before, added);
                }
                if offset > latest.total || latest.total - offset < PAGE_SIZE {
                    Ok(PageStep::Done(GetCustomersResponse { range, items: all }))
                } else {
                    Ok(
                        PageStep::More(
                            CustomerPages {
                                offset: offset + PAGE_SIZE,
                                first: Some(range),
                                items: all,
                            },
                        ),
                    )
                }
            },
        }
    }
}

/// A server as a run sees it: what it answers to the request for the page
/// at an offset.
pub type Server = spec_fn(u64) -> Result<GetCustomersResponseView, ProvisioningErrorView>;

/// What a run comes to, from a state on, against a server.
pub open spec fn fetch_all(state: CustomerPagesView, server: Server) -> Result<
    GetCustomersResponseView,
    ProvisioningErrorView,
>
    decreases u64::MAX - state.offset,
{
    match page_step(state, server(state.offset)) {
        PageStepView::Failed(e) => Err(e),
        PageStepView::Done(all) => Ok(all),
        PageStepView::More(next) => fetch_all(next, server),
    }
}

/// The number of pages that a run asks for, from a state on, against a
/// server.
pub open spec fn requests_made(state: CustomerPagesView, server: Server) -> nat
    decreases u64::MAX - state.offset,
{
    match page_step(state, server(state.offset)) {
        PageStepView::More(next) => 1 + requests_made(next, server),
        _ => 1,
    }
}

/// Whether a server answers every request with a page that reports
/// `total` customers in all.
pub open spec fn reports_total(server: Server, total: u64) -> bool {
    forall|offset: u64| (#[trigger] server(offset)) matches Ok(p) && p.range.total == total
}

/// Whether a server holds `total` customers and hands out, for every
/// offset, as many of them as lie behind the offset and fit on a page.
pub open spec fn serves_full_pages(server: Server, total: u64) -> bool {
    forall|offset: u64| (#[trigger] server(offset)) matches Ok(p) && p.range.total == total
        && p.items.len() == if offset >= total {
            0
        } else if total - offset >= PAGE_SIZE {
            PAGE_SIZE as int
        } else {
            total - offset
        }
}

/// Against a server that always reports the same total, a run asks for
/// one page more than the page size goes into what lies between its
/// offset and the total: from the beginning of a list of 1200 customers,
/// three pages.
pub proof fn lemma_requests_for_total(state: CustomerPagesView, server: Server, total: u64)
    requires
        reports_total(server, total),
    ensures
        requests_made(state, server) == if state.offset > total {
            1
        } else {
            (total - state.offset) / (PAGE_SIZE as int) + 1
        },
    decreases u64::MAX - state.offset,
{
    assert(server(state.offset) is Ok);
    match page_step(state, server(state.offset)) {
        PageStepView::More(next) => {
            lemma_requests_for_total(next, server, total);
        },
        _ => {},
    }
}

/// Against a server that hands out full pages of a list of `total`
/// customers, a run from the beginning gathers `total` customers more
/// than it held.
pub proof fn lemma_gathers_all(state: CustomerPagesView, server: Server, total: u64)
    requires
        serves_full_pages(server, total),
        state.offset <= total,
    ensures
        fetch_all(state, server) matches Ok(all) && all.items.len() == state.items.len() + (total
            - state.offset),
    decreases u64::MAX - state.offset,
{
    assert(server(state.offset) is Ok);
    match page_step(state, server(state.offset)) {
        PageStepView::More(next) => {
            lemma_gathers_all(next, server, total);
        },
        _ => {},
    }
}

/// A page that fails ends the run with its failure, whatever was gathered
/// before: at once where it is the page that is due, and in the same way
/// where it comes later.
pub proof fn lemma_failure_ends_run(state: CustomerPagesView, server: Server)
    ensures
        server(state.offset) matches Err(e) ==> fetch_all(state, server) == Err::<
            GetCustomersResponseView,
            ProvisioningErrorView,
        >(e),
        page_step(state, server(state.offset)) matches PageStepView::More(next) ==> fetch_all(
            state,
            server,
        ) == fetch_all(next, server),
{
}

} // verus!
