//! Parameters that several customer requests share.
use crate::error::StripeParseError;
use crate::params::{
    object_list, one, opt_object_list, opt_str, ParamValue, ParamView, Params, ParamsView,
};
use crate::text::str_eq;
use vstd::prelude::*;

verus! {

/// An address, each part of which may be left out.
#[derive(Copy, Clone, Debug)]
pub struct OptionalFieldsAddress<'a> {
    /// City, district, suburb, town, or village.
    pub city: Option<&'a str>,
    /// Two-letter country code ([ISO 3166-1 alpha-2](https://en.wikipedia.org/wiki/ISO_3166-1_alpha-2)).
    pub country: Option<&'a str>,
    /// Address line 1 (e.g., street, PO Box, or company name).
    pub line1: Option<&'a str>,
    /// Address line 2 (e.g., apartment, suite, unit, or building).
    pub line2: Option<&'a str>,
    /// ZIP or postal code.
    pub postal_code: Option<&'a str>,
    /// State, county, province, or region.
    pub state: Option<&'a str>,
}

impl<'a> OptionalFieldsAddress<'a> {
    /// The value with every field unset.
    pub open spec fn unset() -> Self {
        Self { city: None, country: None, line1: None, line2: None, postal_code: None, state: None }
    }

    /// The fields that are set, by their wire names and in the order of the wire.
    pub open spec fn wire_params(self) -> ParamsView {
        Seq::empty()
            + opt_str("city"@, self.city.deep_view())
            + opt_str("country"@, self.country.deep_view())
            + opt_str("line1"@, self.line1.deep_view())
            + opt_str("line2"@, self.line2.deep_view())
            + opt_str("postal_code"@, self.postal_code.deep_view())
            + opt_str("state"@, self.state.deep_view())
    }

    /// The value with every field unset: on the wire it has no entry.
    pub fn new() -> (r: Self)
        ensures
            r == Self::unset(),
            r.wire_params() == Seq::<(Seq<char>, ParamView)>::empty(),
    {
        Self { city: None, country: None, line1: None, line2: None, postal_code: None, state: None }
    }

    /// The parameter set: one entry for each field that is set.
    pub fn to_params(&self) -> (r: Params)
        ensures
            r@ == self.wire_params(),
    {
        let mut p = Params::new();
        p.push_opt_str("city", self.city);
        p.push_opt_str("country", self.country);
        p.push_opt_str("line1", self.line1);
        p.push_opt_str("line2", self.line2);
        p.push_opt_str("postal_code", self.postal_code);
        p.push_opt_str("state", self.state);
        p
    }
}

impl<'a> DeepView for OptionalFieldsAddress<'a> {
    type V = ParamsView;

    open spec fn deep_view(&self) -> ParamsView {
        self.wire_params()
    }
}

impl<'a> Default for OptionalFieldsAddress<'a> {
    fn default() -> (r: Self)
        ensures
            r == Self::unset(),
    {
        Self::new()
    }
}

/// One custom field of an invoice: a name and a value.
#[derive(Copy, Clone, Debug)]
pub struct CustomFieldParams<'a> {
    /// The name of the custom field. This may be up to 40 characters.
    pub name: &'a str,
    /// The value of the custom field. This may be up to 140 characters.
    pub value: &'a str,
}

impl<'a> CustomFieldParams<'a> {
    /// The fields that are set, by their wire names and in the order of the wire.
    pub open spec fn wire_params(self) -> ParamsView {
        Seq::empty()
            + one("name"@, ParamView::Str(self.name@))
            + one("value"@, ParamView::Str(self.value@))
    }

    /// The value with the given fields.
    pub fn new(name: &'a str, value: &'a str) -> (r: Self)
        ensures
            r == (Self { name, value }),
    {
        Self { name, value }
    }

    /// The parameter set: one entry for each field that is set.
    pub fn to_params(&self) -> (r: Params)
        ensures
            r@ == self.wire_params(),
    {
        let mut p = Params::new();
        p.push_str("name", self.name);
        p.push_str("value", self.value);
        p
    }
}

impl<'a> DeepView for CustomFieldParams<'a> {
    type V = ParamsView;

    open spec fn deep_view(&self) -> ParamsView {
        self.wire_params()
    }
}

impl<'a> CustomFieldParams<'a> {
    /// Adds a list of these to a parameter set, if the list is set.
    pub fn push_list(p: &mut Params, name: &str, items: Option<&[CustomFieldParams<'a>]>)
        ensures
            final(p)@ == old(p)@ + opt_object_list(name@, items.deep_view()),
    {
        if let Some(items) = items {
            let mut list: Vec<ParamValue> = Vec::new();
            let mut i: usize = 0;
            while i < items.len()
                invariant
                    i <= items.len(),
                    list.len() == i,
                    forall|j: int|
                        0 <= j < i ==> list[j]@ == ParamView::Object(items[j].wire_params()),
                decreases items.len() - i,
            {
                list.push(ParamValue::object(items[i].to_params()));
                i += 1;
            }
            let value = ParamValue::list(list);
            assert(value@->List_0 =~= object_list(items.deep_view())->List_0);
            p.push_value(name, value);
        } else {
            assert(p@ =~= old(p)@ + opt_object_list(name@, items.deep_view()));
        }
    }
}

/// Where the goods of a customer are shipped to.
#[derive(Copy, Clone, Debug)]
pub struct CustomerShipping<'a> {
    /// Customer shipping address.
    pub address: OptionalFieldsAddress<'a>,
    /// Customer name.
    pub name: &'a str,
    /// Customer phone (including extension).
    pub phone: Option<&'a str>,
}

impl<'a> CustomerShipping<'a> {
    /// The value with the given fields, and every optional field unset.
    pub open spec fn unset(address: OptionalFieldsAddress<'a>, name: &'a str) -> Self {
        Self { address, name, phone: None }
    }

    /// The fields that are set, by their wire names and in the order of the wire.
    pub open spec fn wire_params(self) -> ParamsView {
        Seq::empty()
            + one("address"@, ParamView::Object(self.address.wire_params()))
            + one("name"@, ParamView::Str(self.name@))
            + opt_str("phone"@, self.phone.deep_view())
    }

    /// The value with the given fields, and every optional field unset.
    pub fn new(address: OptionalFieldsAddress<'a>, name: &'a str) -> (r: Self)
        ensures
            r == Self::unset(address, name),
    {
        Self { address, name, phone: None }
    }

    /// The parameter set: one entry for each field that is set.
    pub fn to_params(&self) -> (r: Params)
        ensures
            r@ == self.wire_params(),
    {
        let mut p = Params::new();
        p.push_object("address", self.address.to_params());
        p.push_str("name", self.name);
        p.push_opt_str("phone", self.phone);
        p
    }
}

impl<'a> DeepView for CustomerShipping<'a> {
    type V = ParamsView;

    open spec fn deep_view(&self) -> ParamsView {
        self.wire_params()
    }
}

/// Describes the customer's tax exemption status, which is `none`, `exempt`, or `reverse`.
/// When set to `reverse`, invoice and receipt PDFs include the following text: **"Reverse charge"**.
#[derive(Copy, Clone, Debug, PartialEq, Eq, Structural)]
pub enum CustomerTaxExempt {
    Exempt,
    NotExempt,
    Reverse,
}

impl CustomerTaxExempt {
    /// The name under which a value travels on the wire.
    pub open spec fn wire_name(self) -> Seq<char> {
        match self {
            Self::Exempt => "exempt"@,
            Self::NotExempt => "none"@,
            Self::Reverse => "reverse"@,
        }
    }

    /// The value that a wire name stands for, if any value has that name.
    pub open spec fn parse(s: Seq<char>) -> Option<Self> {
        if exists|v: Self| #[trigger] v.wire_name() == s {
            Some(choose|v: Self| #[trigger] v.wire_name() == s)
        } else {
            None
        }
    }

    /// The wire name of the value.
    pub fn as_str(self) -> (r: &'static str)
        ensures
            r@ == self.wire_name(),
    {
        match self {
            Self::Exempt => "exempt",
            Self::NotExempt => "none",
            Self::Reverse => "reverse",
        }
    }

    /// Reads a wire name. A name that no value has is an error.
    pub fn from_str(s: &str) -> (r: Result<Self, StripeParseError>)
        ensures
            r == match Self::parse(s@) {
                Some(v) => Ok::<Self, StripeParseError>(v),
                None => Err(StripeParseError),
            },
    {
        let found = if str_eq(s, "exempt") {
            Some(Self::Exempt)
        } else if str_eq(s, "none") {
            Some(Self::NotExempt)
        } else if str_eq(s, "reverse") {
            Some(Self::Reverse)
        } else {
            None
        };
        proof {
            match found {
                Some(v) => Self::lemma_round_trip(v),
                None => {},
            }
        }
        match found {
            Some(v) => Ok(v),
            None => Err(StripeParseError),
        }
    }

    /// No two values share a wire name.
    pub proof fn lemma_wire_name_injective(a: Self, b: Self)
        requires
            a.wire_name() == b.wire_name(),
        ensures
            a == b,
    {
        reveal_strlit("exempt");
        reveal_strlit("none");
        reveal_strlit("reverse");
        assert("exempt"@.len() == 6);
        assert("none"@.len() == 4);
        assert("reverse"@.len() == 7);
    }

    /// Reading the wire name of a value gives that value back.
    pub proof fn lemma_round_trip(v: Self)
        ensures
            Self::parse(v.wire_name()) == Some(v),
    {
        let w = choose|w: Self| #[trigger] w.wire_name() == v.wire_name();
        Self::lemma_wire_name_injective(w, v);
    }
}

impl DeepView for CustomerTaxExempt {
    type V = Seq<char>;

    open spec fn deep_view(&self) -> Seq<char> {
        self.wire_name()
    }
}

impl std::str::FromStr for CustomerTaxExempt {
    type Err = StripeParseError;

    fn from_str(s: &str) -> (r: Result<Self, Self::Err>)
        ensures
            r == match Self::parse(s@) {
                Some(v) => Ok::<Self, StripeParseError>(v),
                None => Err(StripeParseError),
            },
    {
        CustomerTaxExempt::from_str(s)
    }
}

} // verus!
