//! Funding instructions for the cash balance of a customer.
use crate::currency::Currency;
use crate::error::StripeParseError;
use crate::ids::CustomerId;
use crate::params::{
    one, opt_object, opt_str_list, str_list, ParamValue, ParamView, Params, ParamsView,
    RequestBuilder, RequestView, StripeMethod,
};
use crate::text::{char_at, join3, str_eq};
use vstd::prelude::*;

verus! {

/// The parameters of [`CreateFundingInstructionsCustomer`], each unset until its setter is called.
#[derive(Copy, Clone, Debug)]
pub struct CreateFundingInstructionsCustomerBuilder<'a> {
    pub bank_transfer: CreateFundingInstructionsCustomerBankTransfer<'a>,
    pub currency: Currency<'a>,
    pub expand: Option<&'a [&'a str]>,
    pub funding_type: CreateFundingInstructionsCustomerFundingType,
}

impl<'a> CreateFundingInstructionsCustomerBuilder<'a> {
    /// The value with the given fields, and every optional field unset.
    pub open spec fn unset(
        bank_transfer: CreateFundingInstructionsCustomerBankTransfer<'a>,
        currency: Currency<'a>,
        funding_type: CreateFundingInstructionsCustomerFundingType,
    ) -> Self {
        Self { bank_transfer, currency, expand: None, funding_type }
    }

    /// The fields that are set, by their wire names and in the order of the wire.
    pub open spec fn wire_params(self) -> ParamsView {
        Seq::empty()
            + one("bank_transfer"@, ParamView::Object(self.bank_transfer.wire_params()))
            + one("currency"@, ParamView::Str(self.currency@))
            + opt_str_list("expand"@, self.expand.deep_view())
            + one("funding_type"@, ParamView::Str(self.funding_type.wire_name()))
    }

    /// The parameters of a request on which no setter was called yet.
    pub(crate) fn new(
        bank_transfer: CreateFundingInstructionsCustomerBankTransfer<'a>,
        currency: Currency<'a>,
        funding_type: CreateFundingInstructionsCustomerFundingType,
    ) -> (r: Self)
        ensures
            r == Self::unset(bank_transfer, currency, funding_type),
    {
        Self { bank_transfer, currency, expand: None, funding_type }
    }

    /// The parameter set: one entry for each field that is set.
    pub fn to_params(&self) -> (r: Params)
        ensures
            r@ == self.wire_params(),
    {
        let mut p = Params::new();
        p.push_object("bank_transfer", self.bank_transfer.to_params());
        p.push_str("currency", self.currency.as_str());
        p.push_opt_str_list("expand", self.expand);
        p.push_str("funding_type", self.funding_type.as_str());
        p
    }
}

impl<'a> DeepView for CreateFundingInstructionsCustomerBuilder<'a> {
    type V = ParamsView;

    open spec fn deep_view(&self) -> ParamsView {
        self.wire_params()
    }
}

/// Additional parameters for `bank_transfer` funding types
#[derive(Copy, Clone, Debug)]
pub struct CreateFundingInstructionsCustomerBankTransfer<'a> {
    /// Configuration for eu_bank_transfer funding type.
    pub eu_bank_transfer: Option<CreateFundingInstructionsCustomerBankTransferEuBankTransfer<'a>>,
    /// List of address types that should be returned in the financial_addresses response.
    /// If not specified, all valid types will be returned.
    ///
    /// Permitted values include: `sort_code`, `zengin`, `iban`, or `spei`.
    pub requested_address_types:
        Option<&'a [CreateFundingInstructionsCustomerBankTransferRequestedAddressTypes]>,
    /// The type of the `bank_transfer`
    pub type_: CreateFundingInstructionsCustomerBankTransferType,
}

impl<'a> CreateFundingInstructionsCustomerBankTransfer<'a> {
    /// The value with the given fields, and every optional field unset.
    pub open spec fn unset(type_: CreateFundingInstructionsCustomerBankTransferType) -> Self {
        Self { eu_bank_transfer: None, requested_address_types: None, type_ }
    }

    /// The fields that are set, by their wire names and in the order of the wire.
    pub open spec fn wire_params(self) -> ParamsView {
        Seq::empty()
            + opt_object("eu_bank_transfer"@, self.eu_bank_transfer.deep_view())
            + opt_str_list("requested_address_types"@, self.requested_address_types.deep_view())
            + one("type"@, ParamView::Str(self.type_.wire_name()))
    }

    /// The value with the given fields, and every optional field unset.
    pub fn new(type_: CreateFundingInstructionsCustomerBankTransferType) -> (r: Self)
        ensures
            r == Self::unset(type_),
    {
        Self { eu_bank_transfer: None, requested_address_types: None, type_ }
    }

    /// The parameter set: one entry for each field that is set.
    pub fn to_params(&self) -> (r: Params)
        ensures
            r@ == self.wire_params(),
    {
        let mut p = Params::new();
        p.push_opt_object(
            "eu_bank_transfer",
            match self.eu_bank_transfer {
                Some(v) => Some(v.to_params()),
                None => None,
            },
        );
        CreateFundingInstructionsCustomerBankTransferRequestedAddressTypes::push_list(
            &mut p,
            "requested_address_types",
            self.requested_address_types,
        );
        p.push_str("type", self.type_.as_str());
        p
    }
}

impl<'a> DeepView for CreateFundingInstructionsCustomerBankTransfer<'a> {
    type V = ParamsView;

    open spec fn deep_view(&self) -> ParamsView {
        self.wire_params()
    }
}

/// Configuration for eu_bank_transfer funding type.
#[derive(Copy, Clone, Debug)]
pub struct CreateFundingInstructionsCustomerBankTransferEuBankTransfer<'a> {
    /// The desired country code of the bank account information.
    /// Permitted values include: `BE`, `DE`, `ES`, `FR`, `IE`, or `NL`.
    pub country: &'a str,
}

impl<'a> CreateFundingInstructionsCustomerBankTransferEuBankTransfer<'a> {
    /// The fields that are set, by their wire names and in the order of the wire.
    pub open spec fn wire_params(self) -> ParamsView {
        Seq::empty()
            + one("country"@, ParamView::Str(self.country@))
    }

    /// The value with the given fields.
    pub fn new(country: &'a str) -> (r: Self)
        ensures
            r == (Self { country }),
    {
        Self { country }
    }

    /// The parameter set: one entry for each field that is set.
    pub fn to_params(&self) -> (r: Params)
        ensures
            r@ == self.wire_params(),
    {
        let mut p = Params::new();
        p.push_str("country", self.country);
        p
    }
}

impl<'a> DeepView for CreateFundingInstructionsCustomerBankTransferEuBankTransfer<'a> {
    type V = ParamsView;

    open spec fn deep_view(&self) -> ParamsView {
        self.wire_params()
    }
}

/// List of address types that should be returned in the financial_addresses response.
/// If not specified, all valid types will be returned.
///
/// Permitted values include: `sort_code`, `zengin`, `iban`, or `spei`.
#[derive(Copy, Clone, Debug, PartialEq, Eq, Structural)]
pub enum CreateFundingInstructionsCustomerBankTransferRequestedAddressTypes {
    Iban,
    SortCode,
    Spei,
    Zengin,
}

impl CreateFundingInstructionsCustomerBankTransferRequestedAddressTypes {
    /// The name under which a value travels on the wire.
    pub open spec fn wire_name(self) -> Seq<char> {
        match self {
            Self::Iban => "iban"@,
            Self::SortCode => "sort_code"@,
            Self::Spei => "spei"@,
            Self::Zengin => "zengin"@,
        }
    }

    /// The value that a wire name stands for, if any value has that name.
    pub open spec fn parse(s: Seq<char>) -> Option<Self> {
        if exists|v: Self| #[trigger] v.wire_name() == s {
            Some(choose|v: Self| #[trigger] v.wire_name() == s)
        } else {
            None
        }
    }

    /// The wire name of the value.
    pub fn as_str(self) -> (r: &'static str)
        ensures
            r@ == self.wire_name(),
    {
        match self {
            Self::Iban => "iban",
            Self::SortCode => "sort_code",
            Self::Spei => "spei",
            Self::Zengin => "zengin",
        }
    }

    /// Reads a wire name. A name that no value has is an error.
    pub fn from_str(s: &str) -> (r: Result<Self, StripeParseError>)
        ensures
            r == match Self::parse(s@) {
                Some(v) => Ok::<Self, StripeParseError>(v),
                None => Err(StripeParseError),
            },
    {
        let found = if str_eq(s, "iban") {
            Some(Self::Iban)
        } else if str_eq(s, "sort_code") {
            Some(Self::SortCode)
        } else if str_eq(s, "spei") {
            Some(Self::Spei)
        } else if str_eq(s, "zengin") {
            Some(Self::Zengin)
        } else {
            None
        };
        proof {
            match found {
                Some(v) => Self::lemma_round_trip(v),
                None => {},
            }
        }
        match found {
            Some(v) => Ok(v),
            None => Err(StripeParseError),
        }
    }

    /// The length of a name and its character at the place 0: no two wire names
    /// agree in all of these.
    spec fn name_key(s: Seq<char>) -> (nat, char) {
        (s.len(), char_at(s, 0))
    }

    /// No two values share a wire name.
    pub proof fn lemma_wire_name_injective(a: Self, b: Self)
        requires
            a.wire_name() == b.wire_name(),
        ensures
            a == b,
    {
        reveal_strlit("iban");
        reveal_strlit("sort_code");
        reveal_strlit("spei");
        reveal_strlit("zengin");
        assert(Self::name_key("iban"@) == (4nat, 'i'));
        assert(Self::name_key("sort_code"@) == (9nat, 's'));
        assert(Self::name_key("spei"@) == (4nat, 's'));
        assert(Self::name_key("zengin"@) == (6nat, 'z'));
    }

    /// Reading the wire name of a value gives that value back.
    pub proof fn lemma_round_trip(v: Self)
        ensures
            Self::parse(v.wire_name()) == Some(v),
    {
        let w = choose|w: Self| #[trigger] w.wire_name() == v.wire_name();
        Self::lemma_wire_name_injective(w, v);
    }
}

impl DeepView for CreateFundingInstructionsCustomerBankTransferRequestedAddressTypes {
    type V = Seq<char>;

    open spec fn deep_view(&self) -> Seq<char> {
        self.wire_name()
    }
}

impl std::str::FromStr for CreateFundingInstructionsCustomerBankTransferRequestedAddressTypes {
    type Err = StripeParseError;

    fn from_str(s: &str) -> (r: Result<Self, Self::Err>)
        ensures
            r == match Self::parse(s@) {
                Some(v) => Ok::<Self, StripeParseError>(v),
                None => Err(StripeParseError),
            },
    {
        CreateFundingInstructionsCustomerBankTransferRequestedAddressTypes::from_str(s)
    }
}

impl CreateFundingInstructionsCustomerBankTransferRequestedAddressTypes {
    /// Adds a list of these to a parameter set, if the list is set.
    pub fn push_list(
        p: &mut Params,
        name: &str,
        items: Option<&[CreateFundingInstructionsCustomerBankTransferRequestedAddressTypes]>,
    )
        ensures
            final(p)@ == old(p)@ + opt_str_list(name@, items.deep_view()),
    {
        if let Some(items) = items {
            let mut list: Vec<ParamValue> = Vec::new();
            let mut i: usize = 0;
            while i < items.len()
                invariant
                    i <= items.len(),
                    list.len() == i,
                    forall|j: int| 0 <= j < i ==> list[j]@ == ParamView::Str(items[j].wire_name()),
                decreases items.len() - i,
            {
                list.push(ParamValue::text(items[i].as_str()));
                i += 1;
            }
            let value = ParamValue::list(list);
            assert(value@->List_0 =~= str_list(items.deep_view())->List_0);
            p.push_value(name, value);
        } else {
            assert(p@ =~= old(p)@ + opt_str_list(name@, items.deep_view()));
        }
    }
}

/// The type of the `bank_transfer`
#[derive(Copy, Clone, Debug, PartialEq, Eq, Structural)]
pub enum CreateFundingInstructionsCustomerBankTransferType {
    EuBankTransfer,
    GbBankTransfer,
    JpBankTransfer,
    MxBankTransfer,
    UsBankTransfer,
}

impl CreateFundingInstructionsCustomerBankTransferType {
    /// The name under which a value travels on the wire.
    pub open spec fn wire_name(self) -> Seq<char> {
        match self {
            Self::EuBankTransfer => "eu_bank_transfer"@,
            Self::GbBankTransfer => "gb_bank_transfer"@,
            Self::JpBankTransfer => "jp_bank_transfer"@,
            Self::MxBankTransfer => "mx_bank_transfer"@,
            Self::UsBankTransfer => "us_bank_transfer"@,
        }
    }

    /// The value that a wire name stands for, if any value has that name.
    pub open spec fn parse(s: Seq<char>) -> Option<Self> {
        if exists|v: Self| #[trigger] v.wire_name() == s {
            Some(choose|v: Self| #[trigger] v.wire_name() == s)
        } else {
            None
        }
    }

    /// The wire name of the value.
    pub fn as_str(self) -> (r: &'static str)
        ensures
            r@ == self.wire_name(),
    {
        match self {
            Self::EuBankTransfer => "eu_bank_transfer",
            Self::GbBankTransfer => "gb_bank_transfer",
            Self::JpBankTransfer => "jp_bank_transfer",
            Self::MxBankTransfer => "mx_bank_transfer",
            Self::UsBankTransfer => "us_bank_transfer",
        }
    }

    /// Reads a wire name. A name that no value has is an error.
    pub fn from_str(s: &str) -> (r: Result<Self, StripeParseError>)
        ensures
            r == match Self::parse(s@) {
                Some(v) => Ok::<Self, StripeParseError>(v),
                None => Err(StripeParseError),
            },
    {
        let found = if str_eq(s, "eu_bank_transfer") {
            Some(Self::EuBankTransfer)
        } else if str_eq(s, "gb_bank_transfer") {
            Some(Self::GbBankTransfer)
        } else if str_eq(s, "jp_bank_transfer") {
            Some(Self::JpBankTransfer)
        } else if str_eq(s, "mx_bank_transfer") {
            Some(Self::MxBankTransfer)
        } else if str_eq(s, "us_bank_transfer") {
            Some(Self::UsBankTransfer)
        } else {
            None
        };
        proof {
            match found {
                Some(v) => Self::lemma_round_trip(v),
                None => {},
            }
        }
        match found {
            Some(v) => Ok(v),
            None => Err(StripeParseError),
        }
    }

    /// The length of a name and its character at the place 0: no two wire names
    /// agree in all of these.
    spec fn name_key(s: Seq<char>) -> (nat, char) {
        (s.len(), char_at(s, 0))
    }

    /// No two values share a wire name.
    pub proof fn lemma_wire_name_injective(a: Self, b: Self)
        requires
            a.wire_name() == b.wire_name(),
        ensures
            a == b,
    {
        reveal_strlit("eu_bank_transfer");
        reveal_strlit("gb_bank_transfer");
        reveal_strlit("jp_bank_transfer");
        reveal_strlit("mx_bank_transfer");
        reveal_strlit("us_bank_transfer");
        assert(Self::name_key("eu_bank_transfer"@) == (16nat, 'e'));
        assert(Self::name_key("gb_bank_transfer"@) == (16nat, 'g'));
        assert(Self::name_key("jp_bank_transfer"@) == (16nat, 'j'));
        assert(Self::name_key("mx_bank_transfer"@) == (16nat, 'm'));
        assert(Self::name_key("us_bank_transfer"@) == (16nat, 'u'));
    }

    /// Reading the wire name of a value gives that value back.
    pub proof fn lemma_round_trip(v: Self)
        ensures
            Self::parse(v.wire_name()) == Some(v),
    {
        let w = choose|w: Self| #[trigger] w.wire_name() == v.wire_name();
        Self::lemma_wire_name_injective(w, v);
    }
}

impl DeepView for CreateFundingInstructionsCustomerBankTransferType {
    type V = Seq<char>;

    open spec fn deep_view(&self) -> Seq<char> {
        self.wire_name()
    }
}

impl std::str::FromStr for CreateFundingInstructionsCustomerBankTransferType {
    type Err = StripeParseError;

    fn from_str(s: &str) -> (r: Result<Self, Self::Err>)
        ensures
            r == match Self::parse(s@) {
                Some(v) => Ok::<Self, StripeParseError>(v),
                None => Err(StripeParseError),
            },
    {
        CreateFundingInstructionsCustomerBankTransferType::from_str(s)
    }
}

/// The `funding_type` to get the instructions for.
#[derive(Copy, Clone, Debug, PartialEq, Eq, Structural)]
pub enum CreateFundingInstructionsCustomerFundingType {
    BankTransfer,
}

impl CreateFundingInstructionsCustomerFundingType {
    /// The name under which a value travels on the wire.
    pub open spec fn wire_name(self) -> Seq<char> {
        match self {
            Self::BankTransfer => "bank_transfer"@,
        }
    }

    /// The value that a wire name stands for, if any value has that name.
    pub open spec fn parse(s: Seq<char>) -> Option<Self> {
        if exists|v: Self| #[trigger] v.wire_name() == s {
            Some(choose|v: Self| #[trigger] v.wire_name() == s)
        } else {
            None
        }
    }

    /// The wire name of the value.
    pub fn as_str(self) -> (r: &'static str)
        ensures
            r@ == self.wire_name(),
    {
        match self {
            Self::BankTransfer => "bank_transfer",
        }
    }

    /// Reads a wire name. A name that no value has is an error.
    pub fn from_str(s: &str) -> (r: Result<Self, StripeParseError>)
        ensures
            r == match Self::parse(s@) {
                Some(v) => Ok::<Self, StripeParseError>(v),
                None => Err(StripeParseError),
            },
    {
        let found = if str_eq(s, "bank_transfer") {
            Some(Self::BankTransfer)
        } else {
            None
        };
        proof {
            match found {
                Some(v) => Self::lemma_round_trip(v),
                None => {},
            }
        }
        match found {
            Some(v) => Ok(v),
            None => Err(StripeParseError),
        }
    }

    /// No two values share a wire name.
    pub proof fn lemma_wire_name_injective(a: Self, b: Self)
        requires
            a.wire_name() == b.wire_name(),
        ensures
            a == b,
    {
        reveal_strlit("bank_transfer");
        assert("bank_transfer"@.len() == 13);
    }

    /// Reading the wire name of a value gives that value back.
    pub proof fn lemma_round_trip(v: Self)
        ensures
            Self::parse(v.wire_name()) == Some(v),
    {
        let w = choose|w: Self| #[trigger] w.wire_name() == v.wire_name();
        Self::lemma_wire_name_injective(w, v);
    }
}

impl DeepView for CreateFundingInstructionsCustomerFundingType {
    type V = Seq<char>;

    open spec fn deep_view(&self) -> Seq<char> {
        self.wire_name()
    }
}

impl std::str::FromStr for CreateFundingInstructionsCustomerFundingType {
    type Err = StripeParseError;

    fn from_str(s: &str) -> (r: Result<Self, Self::Err>)
        ensures
            r == match Self::parse(s@) {
                Some(v) => Ok::<Self, StripeParseError>(v),
                None => Err(StripeParseError),
            },
    {
        CreateFundingInstructionsCustomerFundingType::from_str(s)
    }
}

/// Retrieve funding instructions for a customer cash balance.
/// If funding instructions do not yet exist for the customer, new.
/// funding instructions will be created.
/// If funding instructions have already been created for a given customer, the same.
/// funding instructions will be retrieved.
/// In other words, we will return the same funding instructions each time.
#[derive(Copy, Clone, Debug)]
pub struct CreateFundingInstructionsCustomer<'a> {
    pub inner: CreateFundingInstructionsCustomerBuilder<'a>,
    pub customer: &'a CustomerId,
}

impl<'a> CreateFundingInstructionsCustomer<'a> {
    /// Construct a new `CreateFundingInstructionsCustomer`.
    pub fn new(
        customer: &'a CustomerId,
        bank_transfer: CreateFundingInstructionsCustomerBankTransfer<'a>,
        currency: Currency<'a>,
        funding_type: CreateFundingInstructionsCustomerFundingType,
    ) -> (r: Self)
        ensures
            r.customer == customer,
            r.inner == CreateFundingInstructionsCustomerBuilder::unset(
                bank_transfer,
                currency,
                funding_type,
            ),
            r.inner.wire_params() == Seq::empty()
                + one("bank_transfer"@, ParamView::Object(bank_transfer.wire_params()))
                + one("currency"@, ParamView::Str(currency@))
                + one("funding_type"@, ParamView::Str(funding_type.wire_name())),
    {
        Self {
            customer,
            inner: CreateFundingInstructionsCustomerBuilder::new(
                bank_transfer,
                currency,
                funding_type,
            ),
        }
    }

    /// Specifies which fields in the response should be expanded.
    pub fn expand(self, expand: &'a [&'a str]) -> (r: Self)
        ensures
            r.inner == (CreateFundingInstructionsCustomerBuilder {
                expand: Some(expand),
                ..self.inner
            }),
            r.customer == self.customer,
    {
        let mut this = self;
        this.inner.expand = Some(expand);
        this
    }

    /// The request that these parameters make.
    pub open spec fn request(self) -> RequestView {
        RequestView::with_form(
            StripeMethod::Post,
            "/customers/"@ + self.customer@ + "/funding_instructions"@,
            self.inner.wire_params(),
        )
    }

    /// Builds the request: the method, the path with the ids in place, and one parameter
    /// for each field that is set.
    pub fn build(&self) -> (r: RequestBuilder)
        ensures
            r@ == self.request(),
    {
        let path = join3("/customers/", self.customer.as_str(), "/funding_instructions");
        RequestBuilder::new(StripeMethod::Post, path).form(self.inner.to_params())
    }
}

} // verus!
