//! Retrieving one customer.
use crate::customer::object::{Customer, CustomerView, DeletedCustomer, DeletedCustomerView};
use crate::ids::CustomerId;
use crate::json::{field, req_text, JsonObject, JsonValue, JsonView, ObjectView};
use crate::params::{
    opt_str_list, ParamView, Params, ParamsView, RequestBuilder, RequestView, StripeMethod,
};
use crate::text::{join2, owned};
use vstd::prelude::*;

verus! {

/// The parameters of [`RetrieveCustomer`], each unset until its setter is called.
#[derive(Copy, Clone, Debug)]
pub struct RetrieveCustomerBuilder<'a> {
    pub expand: Option<&'a [&'a str]>,
}

impl<'a> RetrieveCustomerBuilder<'a> {
    /// The value with every field unset.
    pub open spec fn unset() -> Self {
        Self { expand: None }
    }

    /// The fields that are set, by their wire names and in the order of the wire.
    pub open spec fn wire_params(self) -> ParamsView {
        Seq::empty()
            + opt_str_list("expand"@, self.expand.deep_view())
    }

    /// The parameters of a request on which no setter was called yet.
    pub(crate) fn new() -> (r: Self)
        ensures
            r == Self::unset(),
            r.wire_params() == Seq::<(Seq<char>, ParamView)>::empty(),
    {
        Self { expand: None }
    }

    /// The parameter set: one entry for each field that is set.
    pub fn to_params(&self) -> (r: Params)
        ensures
            r@ == self.wire_params(),
    {
        let mut p = Params::new();
        p.push_opt_str_list("expand", self.expand);
        p
    }
}

impl<'a> DeepView for RetrieveCustomerBuilder<'a> {
    type V = ParamsView;

    open spec fn deep_view(&self) -> ParamsView {
        self.wire_params()
    }
}

/// Retrieves a Customer object.
#[derive(Copy, Clone, Debug)]
pub struct RetrieveCustomer<'a> {
    pub inner: RetrieveCustomerBuilder<'a>,
    pub customer: &'a CustomerId,
}

impl<'a> RetrieveCustomer<'a> {
    /// Construct a new `RetrieveCustomer`.
    pub fn new(customer: &'a CustomerId) -> (r: Self)
        ensures
            r.customer == customer,
            r.inner == RetrieveCustomerBuilder::unset(),
            r.inner.wire_params() == Seq::<(Seq<char>, ParamView)>::empty(),
    {
        Self { customer, inner: RetrieveCustomerBuilder::new() }
    }

    /// Specifies which fields in the response should be expanded.
    pub fn expand(self, expand: &'a [&'a str]) -> (r: Self)
        ensures
            r.inner == (RetrieveCustomerBuilder { expand: Some(expand), ..self.inner }),
            r.customer == self.customer,
    {
        let mut this = self;
        this.inner.expand = Some(expand);
        this
    }

    /// The request that these parameters make.
    pub open spec fn request(self) -> RequestView {
        RequestView::with_query(
            StripeMethod::Get,
            "/customers/"@ + self.customer@,
            self.inner.wire_params(),
        )
    }

    /// Builds the request: the method, the path with the ids in place, and one parameter
    /// for each field that is set.
    pub fn build(&self) -> (r: RequestBuilder)
        ensures
            r@ == self.request(),
    {
        let path = join2("/customers/", self.customer.as_str());
        RequestBuilder::new(StripeMethod::Get, path).query(self.inner.to_params())
    }
}

/// What retrieving a customer returns: the customer, or what is left of a deleted one.
///
/// Nothing in the object names its own shape. The shape is chosen by the `deleted` marker:
/// an object whose `deleted` entry is `true` is read as a deleted customer, every other
/// object as a customer. An object that lacks a field of the chosen shape does not decode;
/// the other shape is never tried in its place.
#[derive(Debug, PartialEq, Eq)]
pub enum RetrieveCustomerReturned {
    Customer(Customer),
    DeletedCustomer(DeletedCustomer),
}

/// What a [`RetrieveCustomerReturned`] stands for.
pub enum RetrieveCustomerReturnedView {
    Customer(CustomerView),
    DeletedCustomer(DeletedCustomerView),
}

impl View for RetrieveCustomerReturned {
    type V = RetrieveCustomerReturnedView;

    open spec fn view(&self) -> RetrieveCustomerReturnedView {
        match self {
            RetrieveCustomerReturned::Customer(c) => RetrieveCustomerReturnedView::Customer(c@),
            RetrieveCustomerReturned::DeletedCustomer(d) => {
                RetrieveCustomerReturnedView::DeletedCustomer(d@)
            },
        }
    }
}

impl DeepView for RetrieveCustomerReturned {
    type V = RetrieveCustomerReturnedView;

    open spec fn deep_view(&self) -> RetrieveCustomerReturnedView {
        self@
    }
}

/// Whether the entries mark a deleted object: the entry named `deleted` that counts is
/// `true`.
pub open spec fn marked_deleted(entries: ObjectView) -> bool {
    field(entries, "deleted"@) == Some(JsonView::Bool(true))
}

impl RetrieveCustomerReturned {
    /// What an object decodes to: the deleted shape where the object is marked deleted,
    /// the live shape where it is not, and nothing where the chosen shape does not read.
    pub open spec fn decode_object(entries: ObjectView) -> Option<RetrieveCustomerReturnedView> {
        if marked_deleted(entries) {
            match DeletedCustomer::decode_object(entries) {
                Some(d) => Some(RetrieveCustomerReturnedView::DeletedCustomer(d)),
                None => None,
            }
        } else {
            match Customer::decode_object(entries) {
                Some(c) => Some(RetrieveCustomerReturnedView::Customer(c)),
                None => None,
            }
        }
    }

    /// What a value decodes to: nothing, unless it is an object.
    pub open spec fn decode(value: JsonView) -> Option<RetrieveCustomerReturnedView> {
        match value {
            JsonView::Object(entries) => Self::decode_object(entries),
            _ => None,
        }
    }

    /// Whether an object is marked deleted.
    pub fn is_marked_deleted(o: &JsonObject) -> (r: bool)
        ensures
            r == marked_deleted(o@),
    {
        match o.get("deleted") {
            Some(JsonValue::Bool(true)) => true,
            _ => false,
        }
    }

    /// Decodes an object, in the shape that its `deleted` marker chooses.
    pub fn from_object(o: &JsonObject) -> (r: Option<Self>)
        ensures
            r.deep_view() == Self::decode_object(o@),
    {
        if Self::is_marked_deleted(o) {
            match DeletedCustomer::from_object(o) {
                Some(d) => Some(RetrieveCustomerReturned::DeletedCustomer(d)),
                None => None,
            }
        } else {
            match Customer::from_object(o) {
                Some(c) => Some(RetrieveCustomerReturned::Customer(c)),
                None => None,
            }
        }
    }

    /// Decodes a value. Anything but an object is refused.
    pub fn from_value(v: JsonValue) -> (r: Option<Self>)
        ensures
            r.deep_view() == Self::decode(v@),
    {
        match v {
            JsonValue::Object(o) => {
                proof {
                    JsonValue::lemma_object_view(o);
                }
                Self::from_object(&o)
            },
            _ => None,
        }
    }

    /// An object that is marked deleted decodes to the deleted shape or to nothing, never
    /// to the live shape, whatever other entries it holds.
    pub proof fn lemma_marker_selects_deleted(entries: ObjectView)
        requires
            marked_deleted(entries),
        ensures
            !(Self::decode_object(entries) matches Some(RetrieveCustomerReturnedView::Customer(_))),
            Self::decode_object(entries) is Some <==> DeletedCustomer::decode_object(
                entries,
            ) is Some,
            Self::decode_object(entries) is Some <==> req_text(field(entries, "id"@)) is Some,
    {
    }

    /// An object that is not marked deleted decodes to the live shape or to nothing, never
    /// to the deleted shape.
    pub proof fn lemma_no_marker_selects_live(entries: ObjectView)
        requires
            !marked_deleted(entries),
        ensures
            !(Self::decode_object(entries) matches Some(
                RetrieveCustomerReturnedView::DeletedCustomer(_),
            )),
            Self::decode_object(entries) is Some <==> Customer::decode_object(entries) is Some,
    {
    }

    /// An object without an entry named `deleted` is not marked deleted.
    pub proof fn lemma_absent_marker(entries: ObjectView)
        requires
            forall|i: int| 0 <= i < entries.len() ==> (#[trigger] entries[i]).0 != "deleted"@,
        ensures
            !marked_deleted(entries),
        decreases entries.len(),
    {
        if entries.len() > 0 {
            Self::lemma_absent_marker(entries.drop_last());
        }
    }

    /// Entries that the deleted shape does not name make no difference to it: with a
    /// further entry of another name, the object decodes to the same deleted customer.
    pub proof fn lemma_deleted_shape_passes_over(
        entries: ObjectView,
        name: Seq<char>,
        value: JsonView,
    )
        requires
            name != "deleted"@,
            name != "id"@,
        ensures
            marked_deleted(entries.push((name, value))) == marked_deleted(entries),
            DeletedCustomer::decode_object(entries.push((name, value)))
                == DeletedCustomer::decode_object(entries),
    {
        assert(entries.push((name, value)).drop_last() =~= entries);
    }

    /// Decoding depends on nothing but the payload: the same payload decodes to the same
    /// result, however often it is decoded.
    pub proof fn lemma_decode_is_a_function(first: JsonView, second: JsonView)
        requires
            first == second,
        ensures
            Self::decode(first) == Self::decode(second),
    {
    }
}

/// The entries of an object that is being read, kept until all of them are there.
///
/// The `deleted` marker may come after the fields that either shape needs, so no shape is
/// chosen before the object is complete.
#[derive(Debug, PartialEq, Eq)]
pub struct RetrieveCustomerReturnedBuilder {
    pub inner: JsonObject,
}

impl RetrieveCustomerReturnedBuilder {
    /// The builder before any entry came.
    pub fn deser_default() -> (r: Self)
        ensures
            r.inner@ == Seq::<(Seq<char>, JsonView)>::empty(),
    {
        Self { inner: JsonObject::new() }
    }

    /// Keeps one more entry.
    pub fn key(&mut self, k: &str, v: JsonValue)
        ensures
            final(self).inner@ == old(self).inner@.push((k@, v@)),
    {
        self.inner.push(owned(k), v);
    }

    /// Decodes the entries that were kept, in the shape that their `deleted` marker
    /// chooses, and leaves the builder empty.
    pub fn take_out(&mut self) -> (r: Option<RetrieveCustomerReturned>)
        ensures
            r.deep_view() == RetrieveCustomerReturned::decode_object(old(self).inner@),
            final(self).inner@ == Seq::<(Seq<char>, JsonView)>::empty(),
    {
        let mut o = JsonObject::new();
        std::mem::swap(&mut self.inner, &mut o);
        RetrieveCustomerReturned::from_object(&o)
    }
}

impl Default for RetrieveCustomerReturnedBuilder {
    fn default() -> (r: Self)
        ensures
            r.inner@ == Seq::<(Seq<char>, JsonView)>::empty(),
    {
        Self::deser_default()
    }
}

} // verus!
