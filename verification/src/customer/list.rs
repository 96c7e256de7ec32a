//! Listing customers.
use crate::params::{
    opt_int, opt_str, opt_str_list, opt_value, ListPaginator, ListPaginatorView, PageKind,
    ParamView, Params, ParamsView, RequestBuilder, RequestView, StripeMethod,
};
use crate::range_query::RangeQueryTs;
use crate::text::owned;
use vstd::prelude::*;

verus! {

/// The parameters of [`ListCustomer`], each unset until its setter is called.
#[derive(Copy, Clone, Debug)]
pub struct ListCustomerBuilder<'a> {
    pub created: Option<RangeQueryTs>,
    pub email: Option<&'a str>,
    pub ending_before: Option<&'a str>,
    pub expand: Option<&'a [&'a str]>,
    pub limit: Option<i64>,
    pub starting_after: Option<&'a str>,
    pub test_clock: Option<&'a str>,
}

impl<'a> ListCustomerBuilder<'a> {
    /// The value with every field unset.
    pub open spec fn unset() -> Self {
        Self {
            created: None,
            email: None,
            ending_before: None,
            expand: None,
            limit: None,
            starting_after: None,
            test_clock: None,
        }
    }

    /// The fields that are set, by their wire names and in the order of the wire.
    pub open spec fn wire_params(self) -> ParamsView {
        Seq::empty()
            + opt_value("created"@, self.created.deep_view())
            + opt_str("email"@, self.email.deep_view())
            + opt_str("ending_before"@, self.ending_before.deep_view())
            + opt_str_list("expand"@, self.expand.deep_view())
            + opt_int("limit"@, self.limit)
            + opt_str("starting_after"@, self.starting_after.deep_view())
            + opt_str("test_clock"@, self.test_clock.deep_view())
    }

    /// The parameters of a request on which no setter was called yet.
    pub(crate) fn new() -> (r: Self)
        ensures
            r == Self::unset(),
            r.wire_params() == Seq::<(Seq<char>, ParamView)>::empty(),
    {
        Self {
            created: None,
            email: None,
            ending_before: None,
            expand: None,
            limit: None,
            starting_after: None,
            test_clock: None,
        }
    }

    /// The parameter set: one entry for each field that is set.
    pub fn to_params(&self) -> (r: Params)
        ensures
            r@ == self.wire_params(),
    {
        let mut p = Params::new();
        p.push_opt_value(
            "created",
            match self.created {
                Some(v) => Some(v.to_value()),
                None => None,
            },
        );
        p.push_opt_str("email", self.email);
        p.push_opt_str("ending_before", self.ending_before);
        p.push_opt_str_list("expand", self.expand);
        p.push_opt_int("limit", self.limit);
        p.push_opt_str("starting_after", self.starting_after);
        p.push_opt_str("test_clock", self.test_clock);
        p
    }
}

impl<'a> DeepView for ListCustomerBuilder<'a> {
    type V = ParamsView;

    open spec fn deep_view(&self) -> ParamsView {
        self.wire_params()
    }
}

/// Returns a list of your customers.
/// The customers are returned sorted by creation date, with the most recent customers appearing first.
#[derive(Copy, Clone, Debug)]
pub struct ListCustomer<'a> {
    pub inner: ListCustomerBuilder<'a>,
}

impl<'a> ListCustomer<'a> {
    /// Construct a new `ListCustomer`.
    pub fn new() -> (r: Self)
        ensures
            r.inner == ListCustomerBuilder::unset(),
            r.inner.wire_params() == Seq::<(Seq<char>, ParamView)>::empty(),
    {
        Self { inner: ListCustomerBuilder::new() }
    }

    /// Only return customers that were created during the given date interval.
    pub fn created(self, created: RangeQueryTs) -> (r: Self)
        ensures
            r.inner == (ListCustomerBuilder { created: Some(created), ..self.inner }),
    {
        let mut this = self;
        this.inner.created = Some(created);
        this
    }

    /// A case-sensitive filter on the list based on the customer's `email` field.
    /// The value must be a string.
    pub fn email(self, email: &'a str) -> (r: Self)
        ensures
            r.inner == (ListCustomerBuilder { email: Some(email), ..self.inner }),
    {
        let mut this = self;
        this.inner.email = Some(email);
        this
    }

    /// A cursor for use in pagination.
    /// `ending_before` is an object ID that defines your place in the list.
    /// For instance, if you make a list request and receive 100 objects, starting with `obj_bar`, your subsequent call can include `ending_before=obj_bar` in order to fetch the previous page of the list.
    pub fn ending_before(self, ending_before: &'a str) -> (r: Self)
        ensures
            r.inner == (ListCustomerBuilder { ending_before: Some(ending_before), ..self.inner }),
    {
        let mut this = self;
        this.inner.ending_before = Some(ending_before);
        this
    }

    /// Specifies which fields in the response should be expanded.
    pub fn expand(self, expand: &'a [&'a str]) -> (r: Self)
        ensures
            r.inner == (ListCustomerBuilder { expand: Some(expand), ..self.inner }),
    {
        let mut this = self;
        this.inner.expand = Some(expand);
        this
    }

    /// A limit on the number of objects to be returned.
    /// Limit can range between 1 and 100, and the default is 10.
    pub fn limit(self, limit: i64) -> (r: Self)
        ensures
            r.inner == (ListCustomerBuilder { limit: Some(limit), ..self.inner }),
    {
        let mut this = self;
        this.inner.limit = Some(limit);
        this
    }

    /// A cursor for use in pagination.
    /// `starting_after` is an object ID that defines your place in the list.
    /// For instance, if you make a list request and receive 100 objects, ending with `obj_foo`, your subsequent call can include `starting_after=obj_foo` in order to fetch the next page of the list.
    pub fn starting_after(self, starting_after: &'a str) -> (r: Self)
        ensures
            r.inner == (ListCustomerBuilder { starting_after: Some(starting_after), ..self.inner }),
    {
        let mut this = self;
        this.inner.starting_after = Some(starting_after);
        this
    }

    /// Provides a list of customers that are associated with the specified test clock.
    /// The response will not include customers with test clocks if this parameter is not set.
    pub fn test_clock(self, test_clock: &'a str) -> (r: Self)
        ensures
            r.inner == (ListCustomerBuilder { test_clock: Some(test_clock), ..self.inner }),
    {
        let mut this = self;
        this.inner.test_clock = Some(test_clock);
        this
    }

    /// The request that these parameters make.
    pub open spec fn request(self) -> RequestView {
        RequestView::with_query(StripeMethod::Get, "/customers"@, self.inner.wire_params())
    }

    /// Builds the request: the method, the path with the ids in place, and one parameter
    /// for each field that is set.
    pub fn build(&self) -> (r: RequestBuilder)
        ensures
            r@ == self.request(),
    {
        RequestBuilder::new(StripeMethod::Get, owned("/customers")).query(self.inner.to_params())
    }

    /// Where a walk over the pages starts.
    pub open spec fn first_page(self) -> ListPaginatorView {
        ListPaginatorView {
            kind: PageKind::List,
            url: "/customers"@,
            params: self.inner.wire_params(),
        }
    }

    /// The start of a walk over the pages of the listing, with the parameters of this
    /// request.
    pub fn paginate(&self) -> (r: ListPaginator)
        ensures
            r@ == self.first_page(),
    {
        ListPaginator::new_list(owned("/customers"), self.inner.to_params())
    }
}

impl<'a> Default for ListCustomer<'a> {
    fn default() -> (r: Self)
        ensures
            r.inner == ListCustomerBuilder::unset(),
    {
        Self::new()
    }
}

} // verus!
