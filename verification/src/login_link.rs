//! Login links for connected accounts.
use crate::ids::AccountId;
use crate::params::{
    opt_str_list, ParamView, Params, ParamsView, RequestBuilder, RequestView, StripeMethod,
};
use crate::text::join3;
use vstd::prelude::*;

verus! {

/// The parameters of [`CreateAccountLoginLink`], each unset until its setter is called.
#[derive(Copy, Clone, Debug)]
pub struct CreateAccountLoginLinkBuilder<'a> {
    pub expand: Option<&'a [&'a str]>,
}

impl<'a> CreateAccountLoginLinkBuilder<'a> {
    /// The value with every field unset.
    pub open spec fn unset() -> Self {
        Self { expand: None }
    }

    /// The fields that are set, by their wire names and in the order of the wire.
    pub open spec fn wire_params(self) -> ParamsView {
        Seq::empty()
            + opt_str_list("expand"@, self.expand.deep_view())
    }

    /// The parameters of a request on which no setter was called yet.
    pub(crate) fn new() -> (r: Self)
        ensures
            r == Self::unset(),
            r.wire_params() == Seq::<(Seq<char>, ParamView)>::empty(),
    {
        Self { expand: None }
    }

    /// The parameter set: one entry for each field that is set.
    pub fn to_params(&self) -> (r: Params)
        ensures
            r@ == self.wire_params(),
    {
        let mut p = Params::new();
        p.push_opt_str_list("expand", self.expand);
        p
    }
}

impl<'a> DeepView for CreateAccountLoginLinkBuilder<'a> {
    type V = ParamsView;

    open spec fn deep_view(&self) -> ParamsView {
        self.wire_params()
    }
}

/// Creates a single-use login link for a connected account to access the Express Dashboard.
///
/// **You can only create login links for accounts that use the <a href="/connect/express-dashboard">Express Dashboard</a> and are connected to your platform**.
#[derive(Copy, Clone, Debug)]
pub struct CreateAccountLoginLink<'a> {
    pub inner: CreateAccountLoginLinkBuilder<'a>,
    pub account: &'a AccountId,
}

impl<'a> CreateAccountLoginLink<'a> {
    /// Construct a new `CreateAccountLoginLink`.
    pub fn new(account: &'a AccountId) -> (r: Self)
        ensures
            r.account == account,
            r.inner == CreateAccountLoginLinkBuilder::unset(),
            r.inner.wire_params() == Seq::<(Seq<char>, ParamView)>::empty(),
    {
        Self { account, inner: CreateAccountLoginLinkBuilder::new() }
    }

    /// Specifies which fields in the response should be expanded.
    pub fn expand(self, expand: &'a [&'a str]) -> (r: Self)
        ensures
            r.inner == (CreateAccountLoginLinkBuilder { expand: Some(expand), ..self.inner }),
            r.account == self.account,
    {
        let mut this = self;
        this.inner.expand = Some(expand);
        this
    }

    /// The request that these parameters make.
    pub open spec fn request(self) -> RequestView {
        RequestView::with_form(
            StripeMethod::Post,
            "/accounts/"@ + self.account@ + "/login_links"@,
            self.inner.wire_params(),
        )
    }

    /// Builds the request: the method, the path with the ids in place, and one parameter
    /// for each field that is set.
    pub fn build(&self) -> (r: RequestBuilder)
        ensures
            r@ == self.request(),
    {
        let path = join3("/accounts/", self.account.as_str(), "/login_links");
        RequestBuilder::new(StripeMethod::Post, path).form(self.inner.to_params())
    }
}

} // verus!
