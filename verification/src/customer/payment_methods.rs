//! The payment methods of a customer: listing them, retrieving one.
use crate::error::StripeParseError;
use crate::ids::CustomerId;
use crate::params::{
    opt_int, opt_str, opt_str_list, ListPaginator, ListPaginatorView, PageKind, ParamView, Params,
    ParamsView, RequestBuilder, RequestView, StripeMethod,
};
use crate::text::{char_at, join3, join4, str_eq};
use vstd::prelude::*;

verus! {

/// The parameters of [`ListPaymentMethodsCustomer`], each unset until its setter is called.
#[derive(Copy, Clone, Debug)]
pub struct ListPaymentMethodsCustomerBuilder<'a> {
    pub allow_redisplay: Option<ListPaymentMethodsCustomerAllowRedisplay>,
    pub ending_before: Option<&'a str>,
    pub expand: Option<&'a [&'a str]>,
    pub limit: Option<i64>,
    pub starting_after: Option<&'a str>,
    pub type_: Option<ListPaymentMethodsCustomerType>,
}

impl<'a> ListPaymentMethodsCustomerBuilder<'a> {
    /// The value with every field unset.
    pub open spec fn unset() -> Self {
        Self {
            allow_redisplay: None,
            ending_before: None,
            expand: None,
            limit: None,
            starting_after: None,
            type_: None,
        }
    }

    /// The fields that are set, by their wire names and in the order of the wire.
    pub open spec fn wire_params(self) -> ParamsView {
        Seq::empty()
            + opt_str("allow_redisplay"@, self.allow_redisplay.deep_view())
            + opt_str("ending_before"@, self.ending_before.deep_view())
            + opt_str_list("expand"@, self.expand.deep_view())
            + opt_int("limit"@, self.limit)
            + opt_str("starting_after"@, self.starting_after.deep_view())
            + opt_str("type"@, self.type_.deep_view())
    }

    /// The parameters of a request on which no setter was called yet.
    pub(crate) fn new() -> (r: Self)
        ensures
            r == Self::unset(),
            r.wire_params() == Seq::<(Seq<char>, ParamView)>::empty(),
    {
        Self {
            allow_redisplay: None,
            ending_before: None,
            expand: None,
            limit: None,
            starting_after: None,
            type_: None,
        }
    }

    /// The parameter set: one entry for each field that is set.
    pub fn to_params(&self) -> (r: Params)
        ensures
            r@ == self.wire_params(),
    {
        let mut p = Params::new();
        p.push_opt_str(
            "allow_redisplay",
            match self.allow_redisplay {
                Some(v) => Some(v.as_str()),
                None => None,
            },
        );
        p.push_opt_str("ending_before", self.ending_before);
        p.push_opt_str_list("expand", self.expand);
        p.push_opt_int("limit", self.limit);
        p.push_opt_str("starting_after", self.starting_after);
        p.push_opt_str(
            "type",
            match self.type_ {
                Some(v) => Some(v.as_str()),
                None => None,
            },
        );
        p
    }
}

impl<'a> DeepView for ListPaymentMethodsCustomerBuilder<'a> {
    type V = ParamsView;

    open spec fn deep_view(&self) -> ParamsView {
        self.wire_params()
    }
}

/// This field indicates whether this payment method can be shown again to its customer in a checkout flow.
/// Stripe products such as Checkout and Elements use this field to determine whether a payment method can be shown as a saved payment method in a checkout flow.
/// The field defaults to `unspecified`.
#[derive(Copy, Clone, Debug, PartialEq, Eq, Structural)]
pub enum ListPaymentMethodsCustomerAllowRedisplay {
    Always,
    Limited,
    Unspecified,
}

impl ListPaymentMethodsCustomerAllowRedisplay {
    /// The name under which a value travels on the wire.
    pub open spec fn wire_name(self) -> Seq<char> {
        match self {
            Self::Always => "always"@,
            Self::Limited => "limited"@,
            Self::Unspecified => "unspecified"@,
        }
    }

    /// The value that a wire name stands for, if any value has that name.
    pub open spec fn parse(s: Seq<char>) -> Option<Self> {
        if exists|v: Self| #[trigger] v.wire_name() == s {
            Some(choose|v: Self| #[trigger] v.wire_name() == s)
        } else {
            None
        }
    }

    /// The wire name of the value.
    pub fn as_str(self) -> (r: &'static str)
        ensures
            r@ == self.wire_name(),
    {
        match self {
            Self::Always => "always",
            Self::Limited => "limited",
            Self::Unspecified => "unspecified",
        }
    }

    /// Reads a wire name. A name that no value has is an error.
    pub fn from_str(s: &str) -> (r: Result<Self, StripeParseError>)
        ensures
            r == match Self::parse(s@) {
                Some(v) => Ok::<Self, StripeParseError>(v),
                None => Err(StripeParseError),
            },
    {
        let found = if str_eq(s, "always") {
            Some(Self::Always)
        } else if str_eq(s, "limited") {
            Some(Self::Limited)
        } else if str_eq(s, "unspecified") {
            Some(Self::Unspecified)
        } else {
            None
        };
        proof {
            match found {
                Some(v) => Self::lemma_round_trip(v),
                None => {},
            }
        }
        match found {
            Some(v) => Ok(v),
            None => Err(StripeParseError),
        }
    }

    /// No two values share a wire name.
    pub proof fn lemma_wire_name_injective(a: Self, b: Self)
        requires
            a.wire_name() == b.wire_name(),
        ensures
            a == b,
    {
        reveal_strlit("always");
        reveal_strlit("limited");
        reveal_strlit("unspecified");
        assert("always"@.len() == 6);
        assert("limited"@.len() == 7);
        assert("unspecified"@.len() == 11);
    }

    /// Reading the wire name of a value gives that value back.
    pub proof fn lemma_round_trip(v: Self)
        ensures
            Self::parse(v.wire_name()) == Some(v),
    {
        let w = choose|w: Self| #[trigger] w.wire_name() == v.wire_name();
        Self::lemma_wire_name_injective(w, v);
    }
}

impl DeepView for ListPaymentMethodsCustomerAllowRedisplay {
    type V = Seq<char>;

    open spec fn deep_view(&self) -> Seq<char> {
        self.wire_name()
    }
}

impl std::str::FromStr for ListPaymentMethodsCustomerAllowRedisplay {
    type Err = StripeParseError;

    fn from_str(s: &str) -> (r: Result<Self, Self::Err>)
        ensures
            r == match Self::parse(s@) {
                Some(v) => Ok::<Self, StripeParseError>(v),
                None => Err(StripeParseError),
            },
    {
        ListPaymentMethodsCustomerAllowRedisplay::from_str(s)
    }
}

/// An optional filter on the list, based on the object `type` field.
/// Without the filter, the list includes all current and future payment method types.
/// If your integration expects only one type of payment method in the response, make sure to provide a type value in the request.
#[derive(Copy, Clone, Debug, PartialEq, Eq, Structural)]
#[non_exhaustive]
pub enum ListPaymentMethodsCustomerType {
    AcssDebit,
    Affirm,
    AfterpayClearpay,
    Alipay,
    AmazonPay,
    AuBecsDebit,
    BacsDebit,
    Bancontact,
    Blik,
    Boleto,
    Card,
    Cashapp,
    CustomerBalance,
    Eps,
    Fpx,
    Giropay,
    Grabpay,
    Ideal,
    Klarna,
    Konbini,
    Link,
    Mobilepay,
    Oxxo,
    P24,
    Paynow,
    Paypal,
    Pix,
    Promptpay,
    RevolutPay,
    SepaDebit,
    Sofort,
    Swish,
    UsBankAccount,
    WechatPay,
    Zip,
    /// An unrecognized value from Stripe. Should not be used as a request parameter.
    Unknown,
}

impl ListPaymentMethodsCustomerType {
    /// The name under which a value travels on the wire.
    pub open spec fn wire_name(self) -> Seq<char> {
        match self {
            Self::AcssDebit => "acss_debit"@,
            Self::Affirm => "affirm"@,
            Self::AfterpayClearpay => "afterpay_clearpay"@,
            Self::Alipay => "alipay"@,
            Self::AmazonPay => "amazon_pay"@,
            Self::AuBecsDebit => "au_becs_debit"@,
            Self::BacsDebit => "bacs_debit"@,
            Self::Bancontact => "bancontact"@,
            Self::Blik => "blik"@,
            Self::Boleto => "boleto"@,
            Self::Card => "card"@,
            Self::Cashapp => "cashapp"@,
            Self::CustomerBalance => "customer_balance"@,
            Self::Eps => "eps"@,
            Self::Fpx => "fpx"@,
            Self::Giropay => "giropay"@,
            Self::Grabpay => "grabpay"@,
            Self::Ideal => "ideal"@,
            Self::Klarna => "klarna"@,
            Self::Konbini => "konbini"@,
            Self::Link => "link"@,
            Self::Mobilepay => "mobilepay"@,
            Self::Oxxo => "oxxo"@,
            Self::P24 => "p24"@,
            Self::Paynow => "paynow"@,
            Self::Paypal => "paypal"@,
            Self::Pix => "pix"@,
            Self::Promptpay => "promptpay"@,
            Self::RevolutPay => "revolut_pay"@,
            Self::SepaDebit => "sepa_debit"@,
            Self::Sofort => "sofort"@,
            Self::Swish => "swish"@,
            Self::UsBankAccount => "us_bank_account"@,
            Self::WechatPay => "wechat_pay"@,
            Self::Zip => "zip"@,
            Self::Unknown => "unknown"@,
        }
    }

    /// The value that a wire name stands for: the value of that name, or `Unknown` where
    /// no value has it.
    pub open spec fn parse(s: Seq<char>) -> Self {
        if exists|v: Self| #[trigger] v.wire_name() == s {
            choose|v: Self| #[trigger] v.wire_name() == s
        } else {
            Self::Unknown
        }
    }

    /// The wire name of the value.
    pub fn as_str(self) -> (r: &'static str)
        ensures
            r@ == self.wire_name(),
    {
        match self {
            Self::AcssDebit => "acss_debit",
            Self::Affirm => "affirm",
            Self::AfterpayClearpay => "afterpay_clearpay",
            Self::Alipay => "alipay",
            Self::AmazonPay => "amazon_pay",
            Self::AuBecsDebit => "au_becs_debit",
            Self::BacsDebit => "bacs_debit",
            Self::Bancontact => "bancontact",
            Self::Blik => "blik",
            Self::Boleto => "boleto",
            Self::Card => "card",
            Self::Cashapp => "cashapp",
            Self::CustomerBalance => "customer_balance",
            Self::Eps => "eps",
            Self::Fpx => "fpx",
            Self::Giropay => "giropay",
            Self::Grabpay => "grabpay",
            Self::Ideal => "ideal",
            Self::Klarna => "klarna",
            Self::Konbini => "konbini",
            Self::Link => "link",
            Self::Mobilepay => "mobilepay",
            Self::Oxxo => "oxxo",
            Self::P24 => "p24",
            Self::Paynow => "paynow",
            Self::Paypal => "paypal",
            Self::Pix => "pix",
            Self::Promptpay => "promptpay",
            Self::RevolutPay => "revolut_pay",
            Self::SepaDebit => "sepa_debit",
            Self::Sofort => "sofort",
            Self::Swish => "swish",
            Self::UsBankAccount => "us_bank_account",
            Self::WechatPay => "wechat_pay",
            Self::Zip => "zip",
            Self::Unknown => "unknown",
        }
    }

    /// Reads a wire name. A name that no value has gives `Unknown`, never an error.
    pub fn from_str(s: &str) -> (r: Result<Self, std::convert::Infallible>)
        ensures
            r == Ok::<Self, std::convert::Infallible>(Self::parse(s@)),
    {
        let found = if str_eq(s, "acss_debit") {
            Some(Self::AcssDebit)
        } else if str_eq(s, "affirm") {
            Some(Self::Affirm)
        } else if str_eq(s, "afterpay_clearpay") {
            Some(Self::AfterpayClearpay)
        } else if str_eq(s, "alipay") {
            Some(Self::Alipay)
        } else if str_eq(s, "amazon_pay") {
            Some(Self::AmazonPay)
        } else if str_eq(s, "au_becs_debit") {
            Some(Self::AuBecsDebit)
        } else if str_eq(s, "bacs_debit") {
            Some(Self::BacsDebit)
        } else if str_eq(s, "bancontact") {
            Some(Self::Bancontact)
        } else if str_eq(s, "blik") {
            Some(Self::Blik)
        } else if str_eq(s, "boleto") {
            Some(Self::Boleto)
        } else if str_eq(s, "card") {
            Some(Self::Card)
        } else if str_eq(s, "cashapp") {
            Some(Self::Cashapp)
        } else if str_eq(s, "customer_balance") {
            Some(Self::CustomerBalance)
        } else if str_eq(s, "eps") {
            Some(Self::Eps)
        } else if str_eq(s, "fpx") {
            Some(Self::Fpx)
        } else if str_eq(s, "giropay") {
            Some(Self::Giropay)
        } else if str_eq(s, "grabpay") {
            Some(Self::Grabpay)
        } else if str_eq(s, "ideal") {
            Some(Self::Ideal)
        } else if str_eq(s, "klarna") {
            Some(Self::Klarna)
        } else if str_eq(s, "konbini") {
            Some(Self::Konbini)
        } else if str_eq(s, "link") {
            Some(Self::Link)
        } else if str_eq(s, "mobilepay") {
            Some(Self::Mobilepay)
        } else if str_eq(s, "oxxo") {
            Some(Self::Oxxo)
        } else if str_eq(s, "p24") {
            Some(Self::P24)
        } else if str_eq(s, "paynow") {
            Some(Self::Paynow)
        } else if str_eq(s, "paypal") {
            Some(Self::Paypal)
        } else if str_eq(s, "pix") {
            Some(Self::Pix)
        } else if str_eq(s, "promptpay") {
            Some(Self::Promptpay)
        } else if str_eq(s, "revolut_pay") {
            Some(Self::RevolutPay)
        } else if str_eq(s, "sepa_debit") {
            Some(Self::SepaDebit)
        } else if str_eq(s, "sofort") {
            Some(Self::Sofort)
        } else if str_eq(s, "swish") {
            Some(Self::Swish)
        } else if str_eq(s, "us_bank_account") {
            Some(Self::UsBankAccount)
        } else if str_eq(s, "wechat_pay") {
            Some(Self::WechatPay)
        } else if str_eq(s, "zip") {
            Some(Self::Zip)
        } else {
            None
        };
        proof {
            match found {
                Some(v) => Self::lemma_round_trip(v),
                None => {},
            }
        }
        match found {
            Some(v) => Ok(v),
            None => Ok(Self::Unknown),
        }
    }

    /// The length of a name and its characters at the places 0, 1 and 3: no two wire names
    /// agree in all of these.
    spec fn name_key(s: Seq<char>) -> (nat, char, char, char) {
        (s.len(), char_at(s, 0), char_at(s, 1), char_at(s, 3))
    }

    /// No two values share a wire name.
    pub proof fn lemma_wire_name_injective(a: Self, b: Self)
        requires
            a.wire_name() == b.wire_name(),
        ensures
            a == b,
    {
        reveal_strlit("acss_debit");
        reveal_strlit("affirm");
        reveal_strlit("afterpay_clearpay");
        reveal_strlit("alipay");
        reveal_strlit("amazon_pay");
        reveal_strlit("au_becs_debit");
        reveal_strlit("bacs_debit");
        reveal_strlit("bancontact");
        reveal_strlit("blik");
        reveal_strlit("boleto");
        reveal_strlit("card");
        reveal_strlit("cashapp");
        reveal_strlit("customer_balance");
        reveal_strlit("eps");
        reveal_strlit("fpx");
        reveal_strlit("giropay");
        reveal_strlit("grabpay");
        reveal_strlit("ideal");
        reveal_strlit("klarna");
        reveal_strlit("konbini");
        reveal_strlit("link");
        reveal_strlit("mobilepay");
        reveal_strlit("oxxo");
        reveal_strlit("p24");
        reveal_strlit("paynow");
        reveal_strlit("paypal");
        reveal_strlit("pix");
        reveal_strlit("promptpay");
        reveal_strlit("revolut_pay");
        reveal_strlit("sepa_debit");
        reveal_strlit("sofort");
        reveal_strlit("swish");
        reveal_strlit("us_bank_account");
        reveal_strlit("wechat_pay");
        reveal_strlit("zip");
        reveal_strlit("unknown");
        assert(Self::name_key("acss_debit"@) == (10nat, 'a', 'c', 's'));
        assert(Self::name_key("affirm"@) == (6nat, 'a', 'f', 'i'));
        assert(Self::name_key("afterpay_clearpay"@) == (17nat, 'a', 'f', 'e'));
        assert(Self::name_key("alipay"@) == (6nat, 'a', 'l', 'p'));
        assert(Self::name_key("amazon_pay"@) == (10nat, 'a', 'm', 'z'));
        assert(Self::name_key("au_becs_debit"@) == (13nat, 'a', 'u', 'b'));
        assert(Self::name_key("bacs_debit"@) == (10nat, 'b', 'a', 's'));
        assert(Self::name_key("bancontact"@) == (10nat, 'b', 'a', 'c'));
        assert(Self::name_key("blik"@) == (4nat, 'b', 'l', 'k'));
        assert(Self::name_key("boleto"@) == (6nat, 'b', 'o', 'e'));
        assert(Self::name_key("card"@) == (4nat, 'c', 'a', 'd'));
        assert(Self::name_key("cashapp"@) == (7nat, 'c', 'a', 'h'));
        assert(Self::name_key("customer_balance"@) == (16nat, 'c', 'u', 't'));
        assert(Self::name_key("eps"@) == (3nat, 'e', 'p', ' '));
        assert(Self::name_key("fpx"@) == (3nat, 'f', 'p', ' '));
        assert(Self::name_key("giropay"@) == (7nat, 'g', 'i', 'o'));
        assert(Self::name_key("grabpay"@) == (7nat, 'g', 'r', 'b'));
        assert(Self::name_key("ideal"@) == (5nat, 'i', 'd', 'a'));
        assert(Self::name_key("klarna"@) == (6nat, 'k', 'l', 'r'));
        assert(Self::name_key("konbini"@) == (7nat, 'k', 'o', 'b'));
        assert(Self::name_key("link"@) == (4nat, 'l', 'i', 'k'));
        assert(Self::name_key("mobilepay"@) == (9nat, 'm', 'o', 'i'));
        assert(Self::name_key("oxxo"@) == (4nat, 'o', 'x', 'o'));
        assert(Self::name_key("p24"@) == (3nat, 'p', '2', ' '));
        assert(Self::name_key("paynow"@) == (6nat, 'p', 'a', 'n'));
        assert(Self::name_key("paypal"@) == (6nat, 'p', 'a', 'p'));
        assert(Self::name_key("pix"@) == (3nat, 'p', 'i', ' '));
        assert(Self::name_key("promptpay"@) == (9nat, 'p', 'r', 'm'));
        assert(Self::name_key("revolut_pay"@) == (11nat, 'r', 'e', 'o'));
        assert(Self::name_key("sepa_debit"@) == (10nat, 's', 'e', 'a'));
        assert(Self::name_key("sofort"@) == (6nat, 's', 'o', 'o'));
        assert(Self::name_key("swish"@) == (5nat, 's', 'w', 's'));
        assert(Self::name_key("us_bank_account"@) == (15nat, 'u', 's', 'b'));
        assert(Self::name_key("wechat_pay"@) == (10nat, 'w', 'e', 'h'));
        assert(Self::name_key("zip"@) == (3nat, 'z', 'i', ' '));
        assert(Self::name_key("unknown"@) == (7nat, 'u', 'n', 'n'));
    }

    /// Reading the wire name of a value gives that value back.
    pub proof fn lemma_round_trip(v: Self)
        ensures
            Self::parse(v.wire_name()) == v,
    {
        let w = choose|w: Self| #[trigger] w.wire_name() == v.wire_name();
        Self::lemma_wire_name_injective(w, v);
    }

    /// A name that no value has reads as `Unknown`.
    pub proof fn lemma_unrecognized_reads_as_unknown(s: Seq<char>)
        requires
            forall|v: Self| #[trigger] v.wire_name() != s,
        ensures
            Self::parse(s) == Self::Unknown,
    {
    }
}

impl DeepView for ListPaymentMethodsCustomerType {
    type V = Seq<char>;

    open spec fn deep_view(&self) -> Seq<char> {
        self.wire_name()
    }
}

impl std::str::FromStr for ListPaymentMethodsCustomerType {
    type Err = std::convert::Infallible;

    fn from_str(s: &str) -> (r: Result<Self, Self::Err>)
        ensures
            r == Ok::<Self, std::convert::Infallible>(Self::parse(s@)),
    {
        ListPaymentMethodsCustomerType::from_str(s)
    }
}

/// Returns a list of PaymentMethods for a given Customer
#[derive(Copy, Clone, Debug)]
pub struct ListPaymentMethodsCustomer<'a> {
    pub inner: ListPaymentMethodsCustomerBuilder<'a>,
    pub customer: &'a CustomerId,
}

impl<'a> ListPaymentMethodsCustomer<'a> {
    /// Construct a new `ListPaymentMethodsCustomer`.
    pub fn new(customer: &'a CustomerId) -> (r: Self)
        ensures
            r.customer == customer,
            r.inner == ListPaymentMethodsCustomerBuilder::unset(),
            r.inner.wire_params() == Seq::<(Seq<char>, ParamView)>::empty(),
    {
        Self { customer, inner: ListPaymentMethodsCustomerBuilder::new() }
    }

    /// This field indicates whether this payment method can be shown again to its customer in a checkout flow.
    /// Stripe products such as Checkout and Elements use this field to determine whether a payment method can be shown as a saved payment method in a checkout flow.
    /// The field defaults to `unspecified`.
    pub fn allow_redisplay(
        self,
        allow_redisplay: ListPaymentMethodsCustomerAllowRedisplay,
    ) -> (r: Self)
        ensures
            r.inner == (ListPaymentMethodsCustomerBuilder {
                allow_redisplay: Some(allow_redisplay),
                ..self.inner
            }),
            r.customer == self.customer,
    {
        let mut this = self;
        this.inner.allow_redisplay = Some(allow_redisplay);
        this
    }

    /// A cursor for use in pagination.
    /// `ending_before` is an object ID that defines your place in the list.
    /// For instance, if you make a list request and receive 100 objects, starting with `obj_bar`, your subsequent call can include `ending_before=obj_bar` in order to fetch the previous page of the list.
    pub fn ending_before(self, ending_before: &'a str) -> (r: Self)
        ensures
            r.inner == (ListPaymentMethodsCustomerBuilder {
                ending_before: Some(ending_before),
                ..self.inner
            }),
            r.customer == self.customer,
    {
        let mut this = self;
        this.inner.ending_before = Some(ending_before);
        this
    }

    /// Specifies which fields in the response should be expanded.
    pub fn expand(self, expand: &'a [&'a str]) -> (r: Self)
        ensures
            r.inner == (ListPaymentMethodsCustomerBuilder { expand: Some(expand), ..self.inner }),
            r.customer == self.customer,
    {
        let mut this = self;
        this.inner.expand = Some(expand);
        this
    }

    /// A limit on the number of objects to be returned.
    /// Limit can range between 1 and 100, and the default is 10.
    pub fn limit(self, limit: i64) -> (r: Self)
        ensures
            r.inner == (ListPaymentMethodsCustomerBuilder { limit: Some(limit), ..self.inner }),
            r.customer == self.customer,
    {
        let mut this = self;
        this.inner.limit = Some(limit);
        this
    }

    /// A cursor for use in pagination.
    /// `starting_after` is an object ID that defines your place in the list.
    /// For instance, if you make a list request and receive 100 objects, ending with `obj_foo`, your subsequent call can include `starting_after=obj_foo` in order to fetch the next page of the list.
    pub fn starting_after(self, starting_after: &'a str) -> (r: Self)
        ensures
            r.inner == (ListPaymentMethodsCustomerBuilder {
                starting_after: Some(starting_after),
                ..self.inner
            }),
            r.customer == self.customer,
    {
        let mut this = self;
        this.inner.starting_after = Some(starting_after);
        this
    }

    /// An optional filter on the list, based on the object `type` field.
    /// Without the filter, the list includes all current and future payment method types.
    /// If your integration expects only one type of payment method in the response, make sure to provide a type value in the request.
    pub fn type_(self, type_: ListPaymentMethodsCustomerType) -> (r: Self)
        ensures
            r.inner == (ListPaymentMethodsCustomerBuilder { type_: Some(type_), ..self.inner }),
            r.customer == self.customer,
    {
        let mut this = self;
        this.inner.type_ = Some(type_);
        this
    }

    /// The request that these parameters make.
    pub open spec fn request(self) -> RequestView {
        RequestView::with_query(
            StripeMethod::Get,
            "/customers/"@ + self.customer@ + "/payment_methods"@,
            self.inner.wire_params(),
        )
    }

    /// Builds the request: the method, the path with the ids in place, and one parameter
    /// for each field that is set.
    pub fn build(&self) -> (r: RequestBuilder)
        ensures
            r@ == self.request(),
    {
        let path = join3("/customers/", self.customer.as_str(), "/payment_methods");
        RequestBuilder::new(StripeMethod::Get, path).query(self.inner.to_params())
    }

    /// Where a walk over the pages starts.
    pub open spec fn first_page(self) -> ListPaginatorView {
        ListPaginatorView {
            kind: PageKind::List,
            url: "/customers/"@ + self.customer@ + "/payment_methods"@,
            params: self.inner.wire_params(),
        }
    }

    /// The start of a walk over the pages of the listing, with the parameters of this
    /// request.
    pub fn paginate(&self) -> (r: ListPaginator)
        ensures
            r@ == self.first_page(),
    {
        ListPaginator::new_list(
            join3("/customers/", self.customer.as_str(), "/payment_methods"),
            self.inner.to_params(),
        )
    }
}

/// The parameters of [`RetrievePaymentMethodCustomer`], each unset until its setter is called.
#[derive(Copy, Clone, Debug)]
pub struct RetrievePaymentMethodCustomerBuilder<'a> {
    pub expand: Option<&'a [&'a str]>,
}

impl<'a> RetrievePaymentMethodCustomerBuilder<'a> {
    /// The value with every field unset.
    pub open spec fn unset() -> Self {
        Self { expand: None }
    }

    /// The fields that are set, by their wire names and in the order of the wire.
    pub open spec fn wire_params(self) -> ParamsView {
        Seq::empty()
            + opt_str_list("expand"@, self.expand.deep_view())
    }

    /// The parameters of a request on which no setter was called yet.
    pub(crate) fn new() -> (r: Self)
        ensures
            r == Self::unset(),
            r.wire_params() == Seq::<(Seq<char>, ParamView)>::empty(),
    {
        Self { expand: None }
    }

    /// The parameter set: one entry for each field that is set.
    pub fn to_params(&self) -> (r: Params)
        ensures
            r@ == self.wire_params(),
    {
        let mut p = Params::new();
        p.push_opt_str_list("expand", self.expand);
        p
    }
}

impl<'a> DeepView for RetrievePaymentMethodCustomerBuilder<'a> {
    type V = ParamsView;

    open spec fn deep_view(&self) -> ParamsView {
        self.wire_params()
    }
}

/// Retrieves a PaymentMethod object for a given Customer.
#[derive(Copy, Clone, Debug)]
pub struct RetrievePaymentMethodCustomer<'a> {
    pub inner: RetrievePaymentMethodCustomerBuilder<'a>,
    pub customer: &'a CustomerId,
    pub payment_method: &'a str,
}

impl<'a> RetrievePaymentMethodCustomer<'a> {
    /// Construct a new `RetrievePaymentMethodCustomer`.
    pub fn new(customer: &'a CustomerId, payment_method: &'a str) -> (r: Self)
        ensures
            r.customer == customer,
            r.payment_method == payment_method,
            r.inner == RetrievePaymentMethodCustomerBuilder::unset(),
            r.inner.wire_params() == Seq::<(Seq<char>, ParamView)>::empty(),
    {
        Self { customer, payment_method, inner: RetrievePaymentMethodCustomerBuilder::new() }
    }

    /// Specifies which fields in the response should be expanded.
    pub fn expand(self, expand: &'a [&'a str]) -> (r: Self)
        ensures
            r.inner == (RetrievePaymentMethodCustomerBuilder {
                expand: Some(expand),
                ..self.inner
            }),
            r.customer == self.customer,
            r.payment_method == self.payment_method,
    {
        let mut this = self;
        this.inner.expand = Some(expand);
        this
    }

    /// The request that these parameters make.
    pub open spec fn request(self) -> RequestView {
        RequestView::with_query(
            StripeMethod::Get,
            "/customers/"@ + self.customer@ + "/payment_methods/"@ + self.payment_method@,
            self.inner.wire_params(),
        )
    }

    /// Builds the request: the method, the path with the ids in place, and one parameter
    /// for each field that is set.
    pub fn build(&self) -> (r: RequestBuilder)
        ensures
            r@ == self.request(),
    {
        let path = join4(
            "/customers/",
            self.customer.as_str(),
            "/payment_methods/",
            self.payment_method,
        );
        RequestBuilder::new(StripeMethod::Get, path).query(self.inner.to_params())
    }
}

} // verus!
