//! Listing the balance transactions of a customer.
use crate::ids::CustomerId;
use crate::params::{
    opt_int, opt_str, opt_str_list, ListPaginator, ListPaginatorView, PageKind, ParamView, Params,
    ParamsView, RequestBuilder, RequestView, StripeMethod,
};
use crate::text::join3;
use vstd::prelude::*;

verus! {

/// The parameters of [`BalanceTransactionsCustomer`], each unset until its setter is called.
#[derive(Copy, Clone, Debug)]
pub struct BalanceTransactionsCustomerBuilder<'a> {
    pub ending_before: Option<&'a str>,
    pub expand: Option<&'a [&'a str]>,
    pub limit: Option<i64>,
    pub starting_after: Option<&'a str>,
}

impl<'a> BalanceTransactionsCustomerBuilder<'a> {
    /// The value with every field unset.
    pub open spec fn unset() -> Self {
        Self { ending_before: None, expand: None, limit: None, starting_after: None }
    }

    /// The fields that are set, by their wire names and in the order of the wire.
    pub open spec fn wire_params(self) -> ParamsView {
        Seq::empty()
            + opt_str("ending_before"@, self.ending_before.deep_view())
            + opt_str_list("expand"@, self.expand.deep_view())
            + opt_int("limit"@, self.limit)
            + opt_str("starting_after"@, self.starting_after.deep_view())
    }

    /// The parameters of a request on which no setter was called yet.
    pub(crate) fn new() -> (r: Self)
        ensures
            r == Self::unset(),
            r.wire_params() == Seq::<(Seq<char>, ParamView)>::empty(),
    {
        Self { ending_before: None, expand: None, limit: None, starting_after: None }
    }

    /// The parameter set: one entry for each field that is set.
    pub fn to_params(&self) -> (r: Params)
        ensures
            r@ == self.wire_params(),
    {
        let mut p = Params::new();
        p.push_opt_str("ending_before", self.ending_before);
        p.push_opt_str_list("expand", self.expand);
        p.push_opt_int("limit", self.limit);
        p.push_opt_str("starting_after", self.starting_after);
        p
    }
}

impl<'a> DeepView for BalanceTransactionsCustomerBuilder<'a> {
    type V = ParamsView;

    open spec fn deep_view(&self) -> ParamsView {
        self.wire_params()
    }
}

/// Returns a list of transactions that updated the customer’s [balances](https://stripe.com/docs/billing/customer/balance).
#[derive(Copy, Clone, Debug)]
pub struct BalanceTransactionsCustomer<'a> {
    pub inner: BalanceTransactionsCustomerBuilder<'a>,
    pub customer: &'a CustomerId,
}

impl<'a> BalanceTransactionsCustomer<'a> {
    /// Construct a new `BalanceTransactionsCustomer`.
    pub fn new(customer: &'a CustomerId) -> (r: Self)
        ensures
            r.customer == customer,
            r.inner == BalanceTransactionsCustomerBuilder::unset(),
            r.inner.wire_params() == Seq::<(Seq<char>, ParamView)>::empty(),
    {
        Self { customer, inner: BalanceTransactionsCustomerBuilder::new() }
    }

    /// A cursor for use in pagination.
    /// `ending_before` is an object ID that defines your place in the list.
    /// For instance, if you make a list request and receive 100 objects, starting with `obj_bar`, your subsequent call can include `ending_before=obj_bar` in order to fetch the previous page of the list.
    pub fn ending_before(self, ending_before: &'a str) -> (r: Self)
        ensures
            r.inner == (BalanceTransactionsCustomerBuilder {
                ending_before: Some(ending_before),
                ..self.inner
            }),
            r.customer == self.customer,
    {
        let mut this = self;
        this.inner.ending_before = Some(ending_before);
        this
    }

    /// Specifies which fields in the response should be expanded.
    pub fn expand(self, expand: &'a [&'a str]) -> (r: Self)
        ensures
            r.inner == (BalanceTransactionsCustomerBuilder { expand: Some(expand), ..self.inner }),
            r.customer == self.customer,
    {
        let mut this = self;
        this.inner.expand = Some(expand);
        this
    }

    /// A limit on the number of objects to be returned.
    /// Limit can range between 1 and 100, and the default is 10.
    pub fn limit(self, limit: i64) -> (r: Self)
        ensures
            r.inner == (BalanceTransactionsCustomerBuilder { limit: Some(limit), ..self.inner }),
            r.customer == self.customer,
    {
        let mut this = self;
        this.inner.limit = Some(limit);
        this
    }

    /// A cursor for use in pagination.
    /// `starting_after` is an object ID that defines your place in the list.
    /// For instance, if you make a list request and receive 100 objects, ending with `obj_foo`, your subsequent call can include `starting_after=obj_foo` in order to fetch the next page of the list.
    pub fn starting_after(self, starting_after: &'a str) -> (r: Self)
        ensures
            r.inner == (BalanceTransactionsCustomerBuilder {
                starting_after: Some(starting_after),
                ..self.inner
            }),
            r.customer == self.customer,
    {
        let mut this = self;
        this.inner.starting_after = Some(starting_after);
        this
    }

    /// The request that these parameters make.
    pub open spec fn request(self) -> RequestView {
        RequestView::with_query(
            StripeMethod::Get,
            "/customers/"@ + self.customer@ + "/balance_transactions"@,
            self.inner.wire_params(),
        )
    }

    /// Builds the request: the method, the path with the ids in place, and one parameter
    /// for each field that is set.
    pub fn build(&self) -> (r: RequestBuilder)
        ensures
            r@ == self.request(),
    {
        let path = join3("/customers/", self.customer.as_str(), "/balance_transactions");
        RequestBuilder::new(StripeMethod::Get, path).query(self.inner.to_params())
    }

    /// Where a walk over the pages starts.
    pub open spec fn first_page(self) -> ListPaginatorView {
        ListPaginatorView {
            kind: PageKind::List,
            url: "/customers/"@ + self.customer@ + "/balance_transactions"@,
            params: self.inner.wire_params(),
        }
    }

    /// The start of a walk over the pages of the listing, with the parameters of this
    /// request.
    pub fn paginate(&self) -> (r: ListPaginator)
        ensures
            r@ == self.first_page(),
    {
        ListPaginator::new_list(
            join3("/customers/", self.customer.as_str(), "/balance_transactions"),
            self.inner.to_params(),
        )
    }
}

} // verus!
