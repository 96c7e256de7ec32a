//! Funding the cash balance of a test customer.
use crate::currency::Currency;
use crate::params::{
    one, opt_str, opt_str_list, ParamView, Params, ParamsView, RequestBuilder, RequestView,
    StripeMethod,
};
use crate::text::join3;
use vstd::prelude::*;

verus! {

/// The parameters of [`FundCashBalanceCustomer`], each unset until its setter is called.
#[derive(Copy, Clone, Debug)]
pub struct FundCashBalanceCustomerBuilder<'a> {
    pub amount: i64,
    pub currency: Currency<'a>,
    pub expand: Option<&'a [&'a str]>,
    pub reference: Option<&'a str>,
}

impl<'a> FundCashBalanceCustomerBuilder<'a> {
    /// The value with the given fields, and every optional field unset.
    pub open spec fn unset(amount: i64, currency: Currency<'a>) -> Self {
        Self { amount, currency, expand: None, reference: None }
    }

    /// The fields that are set, by their wire names and in the order of the wire.
    pub open spec fn wire_params(self) -> ParamsView {
        Seq::empty()
            + one("amount"@, ParamView::Int(self.amount as int))
            + one("currency"@, ParamView::Str(self.currency@))
            + opt_str_list("expand"@, self.expand.deep_view())
            + opt_str("reference"@, self.reference.deep_view())
    }

    /// The parameters of a request on which no setter was called yet.
    pub(crate) fn new(amount: i64, currency: Currency<'a>) -> (r: Self)
        ensures
            r == Self::unset(amount, currency),
    {
        Self { amount, currency, expand: None, reference: None }
    }

    /// The parameter set: one entry for each field that is set.
    pub fn to_params(&self) -> (r: Params)
        ensures
            r@ == self.wire_params(),
    {
        let mut p = Params::new();
        p.push_int("amount", self.amount);
        p.push_str("currency", self.currency.as_str());
        p.push_opt_str_list("expand", self.expand);
        p.push_opt_str("reference", self.reference);
        p
    }
}

impl<'a> DeepView for FundCashBalanceCustomerBuilder<'a> {
    type V = ParamsView;

    open spec fn deep_view(&self) -> ParamsView {
        self.wire_params()
    }
}

/// Create an incoming testmode bank transfer
#[derive(Copy, Clone, Debug)]
pub struct FundCashBalanceCustomer<'a> {
    pub inner: FundCashBalanceCustomerBuilder<'a>,
    pub customer: &'a str,
}

impl<'a> FundCashBalanceCustomer<'a> {
    /// Construct a new `FundCashBalanceCustomer`.
    pub fn new(customer: &'a str, amount: i64, currency: Currency<'a>) -> (r: Self)
        ensures
            r.customer == customer,
            r.inner == FundCashBalanceCustomerBuilder::unset(amount, currency),
            r.inner.wire_params() == Seq::empty()
                + one("amount"@, ParamView::Int(amount as int))
                + one("currency"@, ParamView::Str(currency@)),
    {
        Self { customer, inner: FundCashBalanceCustomerBuilder::new(amount, currency) }
    }

    /// Specifies which fields in the response should be expanded.
    pub fn expand(self, expand: &'a [&'a str]) -> (r: Self)
        ensures
            r.inner == (FundCashBalanceCustomerBuilder { expand: Some(expand), ..self.inner }),
            r.customer == self.customer,
    {
        let mut this = self;
        this.inner.expand = Some(expand);
        this
    }

    /// A description of the test funding.
    /// This simulates free-text references supplied by customers when making bank transfers to their cash balance.
    /// You can use this to test how Stripe's [reconciliation algorithm](https://stripe.com/docs/payments/customer-balance/reconciliation) applies to different user inputs.
    pub fn reference(self, reference: &'a str) -> (r: Self)
        ensures
            r.inner == (FundCashBalanceCustomerBuilder {
                reference: Some(reference),
                ..self.inner
            }),
            r.customer == self.customer,
    {
        let mut this = self;
        this.inner.reference = Some(reference);
        this
    }

    /// The request that these parameters make.
    pub open spec fn request(self) -> RequestView {
        RequestView::with_form(
            StripeMethod::Post,
            "/test_helpers/customers/"@ + self.customer@ + "/fund_cash_balance"@,
            self.inner.wire_params(),
        )
    }

    /// Builds the request: the method, the path with the ids in place, and one parameter
    /// for each field that is set.
    pub fn build(&self) -> (r: RequestBuilder)
        ensures
            r@ == self.request(),
    {
        let path = join3("/test_helpers/customers/", self.customer, "/fund_cash_balance");
        RequestBuilder::new(StripeMethod::Post, path).form(self.inner.to_params())
    }
}

} // verus!
