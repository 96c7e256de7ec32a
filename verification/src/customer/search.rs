//! Searching customers.
use crate::params::{
    one, opt_int, opt_str, opt_str_list, ListPaginator, ListPaginatorView, PageKind, ParamView,
    Params, ParamsView, RequestBuilder, RequestView, StripeMethod,
};
use crate::text::owned;
use vstd::prelude::*;

verus! {

/// The parameters of [`SearchCustomer`], each unset until its setter is called.
#[derive(Copy, Clone, Debug)]
pub struct SearchCustomerBuilder<'a> {
    pub expand: Option<&'a [&'a str]>,
    pub limit: Option<i64>,
    pub page: Option<&'a str>,
    pub query: &'a str,
}

impl<'a> SearchCustomerBuilder<'a> {
    /// The value with the given fields, and every optional field unset.
    pub open spec fn unset(query: &'a str) -> Self {
        Self { expand: None, limit: None, page: None, query }
    }

    /// The fields that are set, by their wire names and in the order of the wire.
    pub open spec fn wire_params(self) -> ParamsView {
        Seq::empty()
            + opt_str_list("expand"@, self.expand.deep_view())
            + opt_int("limit"@, self.limit)
            + opt_str("page"@, self.page.deep_view())
            + one("query"@, ParamView::Str(self.query@))
    }

    /// The parameters of a request on which no setter was called yet.
    pub(crate) fn new(query: &'a str) -> (r: Self)
        ensures
            r == Self::unset(query),
    {
        Self { expand: None, limit: None, page: None, query }
    }

    /// The parameter set: one entry for each field that is set.
    pub fn to_params(&self) -> (r: Params)
        ensures
            r@ == self.wire_params(),
    {
        let mut p = Params::new();
        p.push_opt_str_list("expand", self.expand);
        p.push_opt_int("limit", self.limit);
        p.push_opt_str("page", self.page);
        p.push_str("query", self.query);
        p
    }
}

impl<'a> DeepView for SearchCustomerBuilder<'a> {
    type V = ParamsView;

    open spec fn deep_view(&self) -> ParamsView {
        self.wire_params()
    }
}

/// Search for customers you’ve previously created using Stripe’s [Search Query Language](https://stripe.com/docs/search#search-query-language).
/// Don’t use search in read-after-write flows where strict consistency is necessary.
/// Under normal operating.
/// conditions, data is searchable in less than a minute.
/// Occasionally, propagation of new or updated data can be up.
/// to an hour behind during outages. Search functionality is not available to merchants in India.
#[derive(Copy, Clone, Debug)]
pub struct SearchCustomer<'a> {
    pub inner: SearchCustomerBuilder<'a>,
}

impl<'a> SearchCustomer<'a> {
    /// Construct a new `SearchCustomer`.
    pub fn new(query: &'a str) -> (r: Self)
        ensures
            r.inner == SearchCustomerBuilder::unset(query),
            r.inner.wire_params() == one("query"@, ParamView::Str(query@)),
    {
        Self { inner: SearchCustomerBuilder::new(query) }
    }

    /// Specifies which fields in the response should be expanded.
    pub fn expand(self, expand: &'a [&'a str]) -> (r: Self)
        ensures
            r.inner == (SearchCustomerBuilder { expand: Some(expand), ..self.inner }),
    {
        let mut this = self;
        this.inner.expand = Some(expand);
        this
    }

    /// A limit on the number of objects to be returned.
    /// Limit can range between 1 and 100, and the default is 10.
    pub fn limit(self, limit: i64) -> (r: Self)
        ensures
            r.inner == (SearchCustomerBuilder { limit: Some(limit), ..self.inner }),
    {
        let mut this = self;
        this.inner.limit = Some(limit);
        this
    }

    /// A cursor for pagination across multiple pages of results.
    /// Don't include this parameter on the first call.
    /// Use the next_page value returned in a previous response to request subsequent results.
    pub fn page(self, page: &'a str) -> (r: Self)
        ensures
            r.inner == (SearchCustomerBuilder { page: Some(page), ..self.inner }),
    {
        let mut this = self;
        this.inner.page = Some(page);
        this
    }

    /// The request that these parameters make.
    pub open spec fn request(self) -> RequestView {
        RequestView::with_query(StripeMethod::Get, "/customers/search"@, self.inner.wire_params())
    }

    /// Builds the request: the method, the path with the ids in place, and one parameter
    /// for each field that is set.
    pub fn build(&self) -> (r: RequestBuilder)
        ensures
            r@ == self.request(),
    {
        let path = owned("/customers/search");
        RequestBuilder::new(StripeMethod::Get, path).query(self.inner.to_params())
    }

    /// Where a walk over the pages starts.
    pub open spec fn first_page(self) -> ListPaginatorView {
        ListPaginatorView {
            kind: PageKind::SearchList,
            url: "/customers/search"@,
            params: self.inner.wire_params(),
        }
    }

    /// The start of a walk over the pages of the listing, with the parameters of this
    /// request.
    pub fn paginate(&self) -> (r: ListPaginator)
        ensures
            r@ == self.first_page(),
    {
        ListPaginator::new_search_list(owned("/customers/search"), self.inner.to_params())
    }
}

} // verus!
