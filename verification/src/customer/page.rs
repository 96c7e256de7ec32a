//! Pages of customers: what a listing or a search returns.
//!
//! A page carries the cursor with which the next page is asked for. Walking the pages is
//! the caller's part.
use crate::customer::object::{Customer, CustomerView};
use crate::json::{
    field, opt_text, req_flag, req_items, req_text, JsonObject, JsonValue, JsonView, ObjectView,
};
use vstd::prelude::*;

verus! {

/// The customers that the items of an array decode to, if every item decodes.
pub open spec fn decode_customers(items: Seq<JsonView>) -> Option<Seq<CustomerView>> {
    if forall|i: int| 0 <= i < items.len() ==> (#[trigger] Customer::decode(items[i])) is Some {
        Some(Seq::new(items.len(), |i: int| Customer::decode(items[i])->0))
    } else {
        None
    }
}

/// Decodes the items of an array as customers. One item that does not decode fails the
/// whole.
pub fn customers_from_items(items: &Vec<JsonValue>) -> (r: Option<Vec<Customer>>)
    ensures
        r.deep_view() == decode_customers(items.deep_view()),
{
    let mut out: Vec<Customer> = Vec::new();
    let mut i: usize = 0;
    while i < items.len()
        invariant
            i <= items.len(),
            out.len() == i,
            forall|j: int| 0 <= j < i ==> Customer::decode(items[j]@) == Some(#[trigger] out[j]@),
        decreases items.len() - i,
    {
        let decoded = match &items[i] {
            JsonValue::Object(o) => {
                proof {
                    JsonValue::lemma_object_view(*o);
                }
                Customer::from_object(o)
            },
            _ => None,
        };
        match decoded {
            Some(customer) => {
                out.push(customer);
            },
            None => {
                assert(Customer::decode(items.deep_view()[i as int]) is None);
                return None;
            },
        }
        i += 1;
    }
    assert forall|j: int| 0 <= j < items.len() implies (#[trigger] Customer::decode(
        items.deep_view()[j],
    )) is Some by {
        assert(Customer::decode(items[j]@) == Some(out[j]@));
    }
    assert(out.deep_view() =~= decode_customers(items.deep_view())->0);
    Some(out)
}

/// One page of a listing of customers.
#[derive(Debug, PartialEq, Eq)]
pub struct CustomerList {
    /// The customers of this page, in the order of the listing.
    pub data: Vec<Customer>,
    /// Whether the listing goes on after this page.
    pub has_more: bool,
    /// The URL where this list can be accessed.
    pub url: String,
}

/// What a [`CustomerList`] stands for.
pub struct CustomerListView {
    pub data: Seq<CustomerView>,
    pub has_more: bool,
    pub url: Seq<char>,
}

impl View for CustomerList {
    type V = CustomerListView;

    open spec fn view(&self) -> CustomerListView {
        CustomerListView { data: self.data.deep_view(), has_more: self.has_more, url: self.url@ }
    }
}

impl DeepView for CustomerList {
    type V = CustomerListView;

    open spec fn deep_view(&self) -> CustomerListView {
        self@
    }
}

impl CustomerListView {
    /// The cursor of the page: the id of its last customer, and none on an empty page.
    pub open spec fn cursor(self) -> Option<Seq<char>> {
        if self.data.len() > 0 {
            Some(self.data.last().id)
        } else {
            None
        }
    }
}

impl CustomerList {
    /// What an object decodes to: `data` has to be an array of customers, `has_more` a
    /// boolean and `url` a text.
    pub open spec fn decode_object(entries: ObjectView) -> Option<CustomerListView> {
        match (
            req_items(field(entries, "data"@)),
            req_flag(field(entries, "has_more"@)),
            req_text(field(entries, "url"@)),
        ) {
            (Some(items), Some(has_more), Some(url)) => match decode_customers(items) {
                Some(data) => Some(CustomerListView { data, has_more, url }),
                None => None,
            },
            _ => None,
        }
    }

    /// What a value decodes to: nothing, unless it is an object.
    pub open spec fn decode(value: JsonView) -> Option<CustomerListView> {
        match value {
            JsonView::Object(entries) => Self::decode_object(entries),
            _ => None,
        }
    }

    /// Decodes an object.
    pub fn from_object(o: &JsonObject) -> (r: Option<Self>)
        ensures
            r.deep_view() == Self::decode_object(o@),
    {
        let items = o.items("data")?;
        let has_more = o.flag("has_more")?;
        let url = o.text("url")?;
        let data = customers_from_items(items)?;
        Some(CustomerList { data, has_more, url })
    }

    /// Decodes a value. Anything but an object is refused.
    pub fn from_value(v: JsonValue) -> (r: Option<Self>)
        ensures
            r.deep_view() == Self::decode(v@),
    {
        match v {
            JsonValue::Object(o) => {
                proof {
                    JsonValue::lemma_object_view(o);
                }
                Self::from_object(&o)
            },
            _ => None,
        }
    }

    /// The cursor of the page: the id of its last customer, with which the next page is
    /// asked for as `starting_after`. An empty page has none.
    pub fn cursor(&self) -> (r: Option<&str>)
        ensures
            r.deep_view() == self@.cursor(),
    {
        let n = self.data.len();
        if n > 0 {
            Some(self.data[n - 1].id.as_str())
        } else {
            None
        }
    }

    /// A page that decodes has a cursor exactly when it has customers.
    pub proof fn lemma_cursor_is_present(entries: ObjectView)
        requires
            Self::decode_object(entries) is Some,
        ensures
            Self::decode_object(entries)->0.cursor() is Some <==> req_items(
                field(entries, "data"@),
            )->0.len() > 0,
    {
    }
}

/// One page of a search for customers.
#[derive(Debug, PartialEq, Eq)]
pub struct CustomerSearchList {
    /// The customers of this page, in the order of the search.
    pub data: Vec<Customer>,
    /// Whether the search goes on after this page.
    pub has_more: bool,
    /// The token of the next page, where there is one.
    pub next_page: Option<String>,
    /// The URL where this list can be accessed.
    pub url: String,
}

/// What a [`CustomerSearchList`] stands for.
pub struct CustomerSearchListView {
    pub data: Seq<CustomerView>,
    pub has_more: bool,
    pub next_page: Option<Seq<char>>,
    pub url: Seq<char>,
}

impl View for CustomerSearchList {
    type V = CustomerSearchListView;

    open spec fn view(&self) -> CustomerSearchListView {
        CustomerSearchListView {
            data: self.data.deep_view(),
            has_more: self.has_more,
            next_page: self.next_page.deep_view(),
            url: self.url@,
        }
    }
}

impl DeepView for CustomerSearchList {
    type V = CustomerSearchListView;

    open spec fn deep_view(&self) -> CustomerSearchListView {
        self@
    }
}

impl CustomerSearchList {
    /// What an object decodes to: `data` has to be an array of customers, `has_more` a
    /// boolean, `url` a text, and `next_page` a text where it is there.
    pub open spec fn decode_object(entries: ObjectView) -> Option<CustomerSearchListView> {
        match (
            req_items(field(entries, "data"@)),
            req_flag(field(entries, "has_more"@)),
            opt_text(field(entries, "next_page"@)),
            req_text(field(entries, "url"@)),
        ) {
            (Some(items), Some(has_more), Some(next_page), Some(url)) => match decode_customers(
                items,
            ) {
                Some(data) => Some(CustomerSearchListView { data, has_more, next_page, url }),
                None => None,
            },
            _ => None,
        }
    }

    /// What a value decodes to: nothing, unless it is an object.
    pub open spec fn decode(value: JsonView) -> Option<CustomerSearchListView> {
        match value {
            JsonView::Object(entries) => Self::decode_object(entries),
            _ => None,
        }
    }

    /// Decodes an object.
    pub fn from_object(o: &JsonObject) -> (r: Option<Self>)
        ensures
            r.deep_view() == Self::decode_object(o@),
    {
        let items = o.items("data")?;
        let has_more = o.flag("has_more")?;
        let next_page = o.opt_text("next_page")?;
        let url = o.text("url")?;
        let data = customers_from_items(items)?;
        Some(CustomerSearchList { data, has_more, next_page, url })
    }

    /// Decodes a value. Anything but an object is refused.
    pub fn from_value(v: JsonValue) -> (r: Option<Self>)
        ensures
            r.deep_view() == Self::decode(v@),
    {
        match v {
            JsonValue::Object(o) => {
                proof {
                    JsonValue::lemma_object_view(o);
                }
                Self::from_object(&o)
            },
            _ => None,
        }
    }

    /// The cursor of the page: the token with which the next page is asked for as `page`.
    pub fn cursor(&self) -> (r: Option<&str>)
        ensures
            r.deep_view() == self@.next_page,
    {
        match &self.next_page {
            Some(token) => Some(token.as_str()),
            None => None,
        }
    }
}

} // verus!
