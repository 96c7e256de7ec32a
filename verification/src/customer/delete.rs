//! Deleting a customer, or the discount of a customer.
use crate::ids::CustomerId;
use crate::params::{RequestBuilder, RequestView, StripeMethod};
use crate::text::{join2, join3};
use vstd::prelude::*;

verus! {

/// Permanently deletes a customer.
/// It cannot be undone.
/// Also immediately cancels any active subscriptions on the customer.
#[derive(Copy, Clone, Debug)]
pub struct DeleteCustomer<'a> {
    pub customer: &'a CustomerId,
}

impl<'a> DeleteCustomer<'a> {
    /// Construct a new `DeleteCustomer`.
    pub fn new(customer: &'a CustomerId) -> (r: Self)
        ensures
            r.customer == customer,
    {
        Self { customer }
    }

    /// The request that these parameters make.
    pub open spec fn request(self) -> RequestView {
        RequestView::bare(StripeMethod::Delete, "/customers/"@ + self.customer@)
    }

    /// Builds the request: the method and the path with the id in place.
    pub fn build(&self) -> (r: RequestBuilder)
        ensures
            r@ == self.request(),
    {
        RequestBuilder::new(StripeMethod::Delete, join2("/customers/", self.customer.as_str()))
    }
}

/// Removes the currently applied discount on a customer.
#[derive(Copy, Clone, Debug)]
pub struct DeleteDiscountCustomer<'a> {
    pub customer: &'a CustomerId,
}

impl<'a> DeleteDiscountCustomer<'a> {
    /// Construct a new `DeleteDiscountCustomer`.
    pub fn new(customer: &'a CustomerId) -> (r: Self)
        ensures
            r.customer == customer,
    {
        Self { customer }
    }

    /// The request that these parameters make.
    pub open spec fn request(self) -> RequestView {
        RequestView::bare(StripeMethod::Delete, "/customers/"@ + self.customer@ + "/discount"@)
    }

    /// Builds the request: the method and the path with the id in place.
    pub fn build(&self) -> (r: RequestBuilder)
        ensures
            r@ == self.request(),
    {
        RequestBuilder::new(
            StripeMethod::Delete,
            join3("/customers/", self.customer.as_str(), "/discount"),
        )
    }
}

} // verus!
