//! Updating a customer.
use crate::customer::common::{
    CustomFieldParams, CustomerShipping, CustomerTaxExempt, OptionalFieldsAddress,
};
use crate::error::StripeParseError;
use crate::ids::CustomerId;
use crate::params::{
    opt_bool, opt_int, opt_object, opt_object_list, opt_pairs, opt_str, opt_str_list, ParamView,
    Params, ParamsView, RequestBuilder, RequestView, StripeMethod,
};
use crate::text::{join2, str_eq};
use vstd::prelude::*;

verus! {

/// The parameters of [`UpdateCustomer`], each unset until its setter is called.
#[derive(Copy, Clone, Debug)]
pub struct UpdateCustomerBuilder<'a> {
    pub address: Option<OptionalFieldsAddress<'a>>,
    pub balance: Option<i64>,
    pub cash_balance: Option<UpdateCustomerCashBalance>,
    pub coupon: Option<&'a str>,
    pub default_source: Option<&'a str>,
    pub description: Option<&'a str>,
    pub email: Option<&'a str>,
    pub expand: Option<&'a [&'a str]>,
    pub invoice_prefix: Option<&'a str>,
    pub invoice_settings: Option<UpdateCustomerInvoiceSettings<'a>>,
    pub metadata: Option<&'a [(&'a str, &'a str)]>,
    pub name: Option<&'a str>,
    pub next_invoice_sequence: Option<i64>,
    pub phone: Option<&'a str>,
    pub preferred_locales: Option<&'a [&'a str]>,
    pub promotion_code: Option<&'a str>,
    pub shipping: Option<CustomerShipping<'a>>,
    pub source: Option<&'a str>,
    pub tax: Option<UpdateCustomerTax<'a>>,
    pub tax_exempt: Option<CustomerTaxExempt>,
    pub validate: Option<bool>,
}

impl<'a> UpdateCustomerBuilder<'a> {
    /// The value with every field unset.
    pub open spec fn unset() -> Self {
        Self {
            address: None,
            balance: None,
            cash_balance: None,
            coupon: None,
            default_source: None,
            description: None,
            email: None,
            expand: None,
            invoice_prefix: None,
            invoice_settings: None,
            metadata: None,
            name: None,
            next_invoice_sequence: None,
            phone: None,
            preferred_locales: None,
            promotion_code: None,
            shipping: None,
            source: None,
            tax: None,
            tax_exempt: None,
            validate: None,
        }
    }

    /// The fields that are set, by their wire names and in the order of the wire.
    pub open spec fn wire_params(self) -> ParamsView {
        Seq::empty()
            + opt_object("address"@, self.address.deep_view())
            + opt_int("balance"@, self.balance)
            + opt_object("cash_balance"@, self.cash_balance.deep_view())
            + opt_str("coupon"@, self.coupon.deep_view())
            + opt_str("default_source"@, self.default_source.deep_view())
            + opt_str("description"@, self.description.deep_view())
            + opt_str("email"@, self.email.deep_view())
            + opt_str_list("expand"@, self.expand.deep_view())
            + opt_str("invoice_prefix"@, self.invoice_prefix.deep_view())
            + opt_object("invoice_settings"@, self.invoice_settings.deep_view())
            + opt_pairs("metadata"@, self.metadata.deep_view())
            + opt_str("name"@, self.name.deep_view())
            + opt_int("next_invoice_sequence"@, self.next_invoice_sequence)
            + opt_str("phone"@, self.phone.deep_view())
            + opt_str_list("preferred_locales"@, self.preferred_locales.deep_view())
            + opt_str("promotion_code"@, self.promotion_code.deep_view())
            + opt_object("shipping"@, self.shipping.deep_view())
            + opt_str("source"@, self.source.deep_view())
            + opt_object("tax"@, self.tax.deep_view())
            + opt_str("tax_exempt"@, self.tax_exempt.deep_view())
            + opt_bool("validate"@, self.validate)
    }

    /// The parameters of a request on which no setter was called yet.
    pub(crate) fn new() -> (r: Self)
        ensures
            r == Self::unset(),
            r.wire_params() == Seq::<(Seq<char>, ParamView)>::empty(),
    {
        Self {
            address: None,
            balance: None,
            cash_balance: None,
            coupon: None,
            default_source: None,
            description: None,
            email: None,
            expand: None,
            invoice_prefix: None,
            invoice_settings: None,
            metadata: None,
            name: None,
            next_invoice_sequence: None,
            phone: None,
            preferred_locales: None,
            promotion_code: None,
            shipping: None,
            source: None,
            tax: None,
            tax_exempt: None,
            validate: None,
        }
    }

    /// The parameter set: one entry for each field that is set.
    pub fn to_params(&self) -> (r: Params)
        ensures
            r@ == self.wire_params(),
    {
        let mut p = Params::new();
        p.push_opt_object(
            "address",
            match self.address {
                Some(v) => Some(v.to_params()),
                None => None,
            },
        );
        p.push_opt_int("balance", self.balance);
        p.push_opt_object(
            "cash_balance",
            match self.cash_balance {
                Some(v) => Some(v.to_params()),
                None => None,
            },
        );
        p.push_opt_str("coupon", self.coupon);
        p.push_opt_str("default_source", self.default_source);
        p.push_opt_str("description", self.description);
        p.push_opt_str("email", self.email);
        p.push_opt_str_list("expand", self.expand);
        p.push_opt_str("invoice_prefix", self.invoice_prefix);
        p.push_opt_object(
            "invoice_settings",
            match self.invoice_settings {
                Some(v) => Some(v.to_params()),
                None => None,
            },
        );
        p.push_opt_pairs("metadata", self.metadata);
        p.push_opt_str("name", self.name);
        p.push_opt_int("next_invoice_sequence", self.next_invoice_sequence);
        p.push_opt_str("phone", self.phone);
        p.push_opt_str_list("preferred_locales", self.preferred_locales);
        p.push_opt_str("promotion_code", self.promotion_code);
        p.push_opt_object(
            "shipping",
            match self.shipping {
                Some(v) => Some(v.to_params()),
                None => None,
            },
        );
        p.push_opt_str("source", self.source);
        p.push_opt_object(
            "tax",
            match self.tax {
                Some(v) => Some(v.to_params()),
                None => None,
            },
        );
        p.push_opt_str(
            "tax_exempt",
            match self.tax_exempt {
                Some(v) => Some(v.as_str()),
                None => None,
            },
        );
        p.push_opt_bool("validate", self.validate);
        p
    }
}

impl<'a> DeepView for UpdateCustomerBuilder<'a> {
    type V = ParamsView;

    open spec fn deep_view(&self) -> ParamsView {
        self.wire_params()
    }
}

/// Balance information and default balance settings for this customer.
#[derive(Copy, Clone, Debug)]
pub struct UpdateCustomerCashBalance {
    /// Settings controlling the behavior of the customer's cash balance,
    /// such as reconciliation of funds received.
    pub settings: Option<UpdateCustomerCashBalanceSettings>,
}

impl UpdateCustomerCashBalance {
    /// The value with every field unset.
    pub open spec fn unset() -> Self {
        Self { settings: None }
    }

    /// The fields that are set, by their wire names and in the order of the wire.
    pub open spec fn wire_params(self) -> ParamsView {
        Seq::empty()
            + opt_object("settings"@, self.settings.deep_view())
    }

    /// The value with every field unset: on the wire it has no entry.
    pub fn new() -> (r: Self)
        ensures
            r == Self::unset(),
            r.wire_params() == Seq::<(Seq<char>, ParamView)>::empty(),
    {
        Self { settings: None }
    }

    /// The parameter set: one entry for each field that is set.
    pub fn to_params(&self) -> (r: Params)
        ensures
            r@ == self.wire_params(),
    {
        let mut p = Params::new();
        p.push_opt_object(
            "settings",
            match self.settings {
                Some(v) => Some(v.to_params()),
                None => None,
            },
        );
        p
    }
}

impl DeepView for UpdateCustomerCashBalance {
    type V = ParamsView;

    open spec fn deep_view(&self) -> ParamsView {
        self.wire_params()
    }
}

impl Default for UpdateCustomerCashBalance {
    fn default() -> (r: Self)
        ensures
            r == Self::unset(),
    {
        Self::new()
    }
}

/// Settings controlling the behavior of the customer's cash balance,
/// such as reconciliation of funds received.
#[derive(Copy, Clone, Debug)]
pub struct UpdateCustomerCashBalanceSettings {
    /// Controls how funds transferred by the customer are applied to payment intents and invoices.
    /// Valid options are `automatic`, `manual`, or `merchant_default`.
    /// For more information about these reconciliation modes, see [Reconciliation](https://stripe.com/docs/payments/customer-balance/reconciliation).
    pub reconciliation_mode: Option<UpdateCustomerCashBalanceSettingsReconciliationMode>,
}

impl UpdateCustomerCashBalanceSettings {
    /// The value with every field unset.
    pub open spec fn unset() -> Self {
        Self { reconciliation_mode: None }
    }

    /// The fields that are set, by their wire names and in the order of the wire.
    pub open spec fn wire_params(self) -> ParamsView {
        Seq::empty()
            + opt_str("reconciliation_mode"@, self.reconciliation_mode.deep_view())
    }

    /// The value with every field unset: on the wire it has no entry.
    pub fn new() -> (r: Self)
        ensures
            r == Self::unset(),
            r.wire_params() == Seq::<(Seq<char>, ParamView)>::empty(),
    {
        Self { reconciliation_mode: None }
    }

    /// The parameter set: one entry for each field that is set.
    pub fn to_params(&self) -> (r: Params)
        ensures
            r@ == self.wire_params(),
    {
        let mut p = Params::new();
        p.push_opt_str(
            "reconciliation_mode",
            match self.reconciliation_mode {
                Some(v) => Some(v.as_str()),
                None => None,
            },
        );
        p
    }
}

impl DeepView for UpdateCustomerCashBalanceSettings {
    type V = ParamsView;

    open spec fn deep_view(&self) -> ParamsView {
        self.wire_params()
    }
}

impl Default for UpdateCustomerCashBalanceSettings {
    fn default() -> (r: Self)
        ensures
            r == Self::unset(),
    {
        Self::new()
    }
}

/// Controls how funds transferred by the customer are applied to payment intents and invoices.
/// Valid options are `automatic`, `manual`, or `merchant_default`.
/// For more information about these reconciliation modes, see [Reconciliation](https://stripe.com/docs/payments/customer-balance/reconciliation).
#[derive(Copy, Clone, Debug, PartialEq, Eq, Structural)]
pub enum UpdateCustomerCashBalanceSettingsReconciliationMode {
    Automatic,
    Manual,
    MerchantDefault,
}

impl UpdateCustomerCashBalanceSettingsReconciliationMode {
    /// The name under which a value travels on the wire.
    pub open spec fn wire_name(self) -> Seq<char> {
        match self {
            Self::Automatic => "automatic"@,
            Self::Manual => "manual"@,
            Self::MerchantDefault => "merchant_default"@,
        }
    }

    /// The value that a wire name stands for, if any value has that name.
    pub open spec fn parse(s: Seq<char>) -> Option<Self> {
        if exists|v: Self| #[trigger] v.wire_name() == s {
            Some(choose|v: Self| #[trigger] v.wire_name() == s)
        } else {
            None
        }
    }

    /// The wire name of the value.
    pub fn as_str(self) -> (r: &'static str)
        ensures
            r@ == self.wire_name(),
    {
        match self {
            Self::Automatic => "automatic",
            Self::Manual => "manual",
            Self::MerchantDefault => "merchant_default",
        }
    }

    /// Reads a wire name. A name that no value has is an error.
    pub fn from_str(s: &str) -> (r: Result<Self, StripeParseError>)
        ensures
            r == match Self::parse(s@) {
                Some(v) => Ok::<Self, StripeParseError>(v),
                None => Err(StripeParseError),
            },
    {
        let found = if str_eq(s, "automatic") {
            Some(Self::Automatic)
        } else if str_eq(s, "manual") {
            Some(Self::Manual)
        } else if str_eq(s, "merchant_default") {
            Some(Self::MerchantDefault)
        } else {
            None
        };
        proof {
            match found {
                Some(v) => Self::lemma_round_trip(v),
                None => {},
            }
        }
        match found {
            Some(v) => Ok(v),
            None => Err(StripeParseError),
        }
    }

    /// No two values share a wire name.
    pub proof fn lemma_wire_name_injective(a: Self, b: Self)
        requires
            a.wire_name() == b.wire_name(),
        ensures
            a == b,
    {
        reveal_strlit("automatic");
        reveal_strlit("manual");
        reveal_strlit("merchant_default");
        assert("automatic"@.len() == 9);
        assert("manual"@.len() == 6);
        assert("merchant_default"@.len() == 16);
    }

    /// Reading the wire name of a value gives that value back.
    pub proof fn lemma_round_trip(v: Self)
        ensures
            Self::parse(v.wire_name()) == Some(v),
    {
        let w = choose|w: Self| #[trigger] w.wire_name() == v.wire_name();
        Self::lemma_wire_name_injective(w, v);
    }
}

impl DeepView for UpdateCustomerCashBalanceSettingsReconciliationMode {
    type V = Seq<char>;

    open spec fn deep_view(&self) -> Seq<char> {
        self.wire_name()
    }
}

impl std::str::FromStr for UpdateCustomerCashBalanceSettingsReconciliationMode {
    type Err = StripeParseError;

    fn from_str(s: &str) -> (r: Result<Self, Self::Err>)
        ensures
            r == match Self::parse(s@) {
                Some(v) => Ok::<Self, StripeParseError>(v),
                None => Err(StripeParseError),
            },
    {
        UpdateCustomerCashBalanceSettingsReconciliationMode::from_str(s)
    }
}

/// Default invoice settings for this customer.
#[derive(Copy, Clone, Debug)]
pub struct UpdateCustomerInvoiceSettings<'a> {
    /// The list of up to 4 default custom fields to be displayed on invoices for this customer.
    /// When updating, pass an empty string to remove previously-defined fields.
    pub custom_fields: Option<&'a [CustomFieldParams<'a>]>,
    /// ID of a payment method that's attached to the customer, to be used as the customer's default payment method for subscriptions and invoices.
    pub default_payment_method: Option<&'a str>,
    /// Default footer to be displayed on invoices for this customer.
    pub footer: Option<&'a str>,
    /// Default options for invoice PDF rendering for this customer.
    pub rendering_options: Option<UpdateCustomerInvoiceSettingsRenderingOptions>,
}

impl<'a> UpdateCustomerInvoiceSettings<'a> {
    /// The value with every field unset.
    pub open spec fn unset() -> Self {
        Self {
            custom_fields: None,
            default_payment_method: None,
            footer: None,
            rendering_options: None,
        }
    }

    /// The fields that are set, by their wire names and in the order of the wire.
    pub open spec fn wire_params(self) -> ParamsView {
        Seq::empty()
            + opt_object_list("custom_fields"@, self.custom_fields.deep_view())
            + opt_str("default_payment_method"@, self.default_payment_method.deep_view())
            + opt_str("footer"@, self.footer.deep_view())
            + opt_object("rendering_options"@, self.rendering_options.deep_view())
    }

    /// The value with every field unset: on the wire it has no entry.
    pub fn new() -> (r: Self)
        ensures
            r == Self::unset(),
            r.wire_params() == Seq::<(Seq<char>, ParamView)>::empty(),
    {
        Self {
            custom_fields: None,
            default_payment_method: None,
            footer: None,
            rendering_options: None,
        }
    }

    /// The parameter set: one entry for each field that is set.
    pub fn to_params(&self) -> (r: Params)
        ensures
            r@ == self.wire_params(),
    {
        let mut p = Params::new();
        CustomFieldParams::push_list(&mut p, "custom_fields", self.custom_fields);
        p.push_opt_str("default_payment_method", self.default_payment_method);
        p.push_opt_str("footer", self.footer);
        p.push_opt_object(
            "rendering_options",
            match self.rendering_options {
                Some(v) => Some(v.to_params()),
                None => None,
            },
        );
        p
    }
}

impl<'a> DeepView for UpdateCustomerInvoiceSettings<'a> {
    type V = ParamsView;

    open spec fn deep_view(&self) -> ParamsView {
        self.wire_params()
    }
}

impl<'a> Default for UpdateCustomerInvoiceSettings<'a> {
    fn default() -> (r: Self)
        ensures
            r == Self::unset(),
    {
        Self::new()
    }
}

/// Default options for invoice PDF rendering for this customer.
#[derive(Copy, Clone, Debug)]
pub struct UpdateCustomerInvoiceSettingsRenderingOptions {
    /// How line-item prices and amounts will be displayed with respect to tax on invoice PDFs.
    /// One of `exclude_tax` or `include_inclusive_tax`.
    /// `include_inclusive_tax` will include inclusive tax (and exclude exclusive tax) in invoice PDF amounts.
    /// `exclude_tax` will exclude all tax (inclusive and exclusive alike) from invoice PDF amounts.
    pub amount_tax_display: Option<UpdateCustomerInvoiceSettingsRenderingOptionsAmountTaxDisplay>,
}

impl UpdateCustomerInvoiceSettingsRenderingOptions {
    /// The value with every field unset.
    pub open spec fn unset() -> Self {
        Self { amount_tax_display: None }
    }

    /// The fields that are set, by their wire names and in the order of the wire.
    pub open spec fn wire_params(self) -> ParamsView {
        Seq::empty()
            + opt_str("amount_tax_display"@, self.amount_tax_display.deep_view())
    }

    /// The value with every field unset: on the wire it has no entry.
    pub fn new() -> (r: Self)
        ensures
            r == Self::unset(),
            r.wire_params() == Seq::<(Seq<char>, ParamView)>::empty(),
    {
        Self { amount_tax_display: None }
    }

    /// The parameter set: one entry for each field that is set.
    pub fn to_params(&self) -> (r: Params)
        ensures
            r@ == self.wire_params(),
    {
        let mut p = Params::new();
        p.push_opt_str(
            "amount_tax_display",
            match self.amount_tax_display {
                Some(v) => Some(v.as_str()),
                None => None,
            },
        );
        p
    }
}

impl DeepView for UpdateCustomerInvoiceSettingsRenderingOptions {
    type V = ParamsView;

    open spec fn deep_view(&self) -> ParamsView {
        self.wire_params()
    }
}

impl Default for UpdateCustomerInvoiceSettingsRenderingOptions {
    fn default() -> (r: Self)
        ensures
            r == Self::unset(),
    {
        Self::new()
    }
}

/// How line-item prices and amounts will be displayed with respect to tax on invoice PDFs.
/// One of `exclude_tax` or `include_inclusive_tax`.
/// `include_inclusive_tax` will include inclusive tax (and exclude exclusive tax) in invoice PDF amounts.
/// `exclude_tax` will exclude all tax (inclusive and exclusive alike) from invoice PDF amounts.
#[derive(Copy, Clone, Debug, PartialEq, Eq, Structural)]
pub enum UpdateCustomerInvoiceSettingsRenderingOptionsAmountTaxDisplay {
    ExcludeTax,
    IncludeInclusiveTax,
}

impl UpdateCustomerInvoiceSettingsRenderingOptionsAmountTaxDisplay {
    /// The name under which a value travels on the wire.
    pub open spec fn wire_name(self) -> Seq<char> {
        match self {
            Self::ExcludeTax => "exclude_tax"@,
            Self::IncludeInclusiveTax => "include_inclusive_tax"@,
        }
    }

    /// The value that a wire name stands for, if any value has that name.
    pub open spec fn parse(s: Seq<char>) -> Option<Self> {
        if exists|v: Self| #[trigger] v.wire_name() == s {
            Some(choose|v: Self| #[trigger] v.wire_name() == s)
        } else {
            None
        }
    }

    /// The wire name of the value.
    pub fn as_str(self) -> (r: &'static str)
        ensures
            r@ == self.wire_name(),
    {
        match self {
            Self::ExcludeTax => "exclude_tax",
            Self::IncludeInclusiveTax => "include_inclusive_tax",
        }
    }

    /// Reads a wire name. A name that no value has is an error.
    pub fn from_str(s: &str) -> (r: Result<Self, StripeParseError>)
        ensures
            r == match Self::parse(s@) {
                Some(v) => Ok::<Self, StripeParseError>(v),
                None => Err(StripeParseError),
            },
    {
        let found = if str_eq(s, "exclude_tax") {
            Some(Self::ExcludeTax)
        } else if str_eq(s, "include_inclusive_tax") {
            Some(Self::IncludeInclusiveTax)
        } else {
            None
        };
        proof {
            match found {
                Some(v) => Self::lemma_round_trip(v),
                None => {},
            }
        }
        match found {
            Some(v) => Ok(v),
            None => Err(StripeParseError),
        }
    }

    /// No two values share a wire name.
    pub proof fn lemma_wire_name_injective(a: Self, b: Self)
        requires
            a.wire_name() == b.wire_name(),
        ensures
            a == b,
    {
        reveal_strlit("exclude_tax");
        reveal_strlit("include_inclusive_tax");
        assert("exclude_tax"@.len() == 11);
        assert("include_inclusive_tax"@.len() == 21);
    }

    /// Reading the wire name of a value gives that value back.
    pub proof fn lemma_round_trip(v: Self)
        ensures
            Self::parse(v.wire_name()) == Some(v),
    {
        let w = choose|w: Self| #[trigger] w.wire_name() == v.wire_name();
        Self::lemma_wire_name_injective(w, v);
    }
}

impl DeepView for UpdateCustomerInvoiceSettingsRenderingOptionsAmountTaxDisplay {
    type V = Seq<char>;

    open spec fn deep_view(&self) -> Seq<char> {
        self.wire_name()
    }
}

impl std::str::FromStr for UpdateCustomerInvoiceSettingsRenderingOptionsAmountTaxDisplay {
    type Err = StripeParseError;

    fn from_str(s: &str) -> (r: Result<Self, Self::Err>)
        ensures
            r == match Self::parse(s@) {
                Some(v) => Ok::<Self, StripeParseError>(v),
                None => Err(StripeParseError),
            },
    {
        UpdateCustomerInvoiceSettingsRenderingOptionsAmountTaxDisplay::from_str(s)
    }
}

/// Tax details about the customer.
#[derive(Copy, Clone, Debug)]
pub struct UpdateCustomerTax<'a> {
    /// A recent IP address of the customer used for tax reporting and tax location inference.
    /// Stripe recommends updating the IP address when a new PaymentMethod is attached or the address field on the customer is updated.
    /// We recommend against updating this field more frequently since it could result in unexpected tax location/reporting outcomes.
    pub ip_address: Option<&'a str>,
    /// A flag that indicates when Stripe should validate the customer tax location.
    /// Defaults to `deferred`.
    pub validate_location: Option<UpdateCustomerTaxValidateLocation>,
}

impl<'a> UpdateCustomerTax<'a> {
    /// The value with every field unset.
    pub open spec fn unset() -> Self {
        Self { ip_address: None, validate_location: None }
    }

    /// The fields that are set, by their wire names and in the order of the wire.
    pub open spec fn wire_params(self) -> ParamsView {
        Seq::empty()
            + opt_str("ip_address"@, self.ip_address.deep_view())
            + opt_str("validate_location"@, self.validate_location.deep_view())
    }

    /// The value with every field unset: on the wire it has no entry.
    pub fn new() -> (r: Self)
        ensures
            r == Self::unset(),
            r.wire_params() == Seq::<(Seq<char>, ParamView)>::empty(),
    {
        Self { ip_address: None, validate_location: None }
    }

    /// The parameter set: one entry for each field that is set.
    pub fn to_params(&self) -> (r: Params)
        ensures
            r@ == self.wire_params(),
    {
        let mut p = Params::new();
        p.push_opt_str("ip_address", self.ip_address);
        p.push_opt_str(
            "validate_location",
            match self.validate_location {
                Some(v) => Some(v.as_str()),
                None => None,
            },
        );
        p
    }
}

impl<'a> DeepView for UpdateCustomerTax<'a> {
    type V = ParamsView;

    open spec fn deep_view(&self) -> ParamsView {
        self.wire_params()
    }
}

impl<'a> Default for UpdateCustomerTax<'a> {
    fn default() -> (r: Self)
        ensures
            r == Self::unset(),
    {
        Self::new()
    }
}

/// A flag that indicates when Stripe should validate the customer tax location.
/// Defaults to `deferred`.
#[derive(Copy, Clone, Debug, PartialEq, Eq, Structural)]
pub enum UpdateCustomerTaxValidateLocation {
    Deferred,
    Immediately,
}

impl UpdateCustomerTaxValidateLocation {
    /// The name under which a value travels on the wire.
    pub open spec fn wire_name(self) -> Seq<char> {
        match self {
            Self::Deferred => "deferred"@,
            Self::Immediately => "immediately"@,
        }
    }

    /// The value that a wire name stands for, if any value has that name.
    pub open spec fn parse(s: Seq<char>) -> Option<Self> {
        if exists|v: Self| #[trigger] v.wire_name() == s {
            Some(choose|v: Self| #[trigger] v.wire_name() == s)
        } else {
            None
        }
    }

    /// The wire name of the value.
    pub fn as_str(self) -> (r: &'static str)
        ensures
            r@ == self.wire_name(),
    {
        match self {
            Self::Deferred => "deferred",
            Self::Immediately => "immediately",
        }
    }

    /// Reads a wire name. A name that no value has is an error.
    pub fn from_str(s: &str) -> (r: Result<Self, StripeParseError>)
        ensures
            r == match Self::parse(s@) {
                Some(v) => Ok::<Self, StripeParseError>(v),
                None => Err(StripeParseError),
            },
    {
        let found = if str_eq(s, "deferred") {
            Some(Self::Deferred)
        } else if str_eq(s, "immediately") {
            Some(Self::Immediately)
        } else {
            None
        };
        proof {
            match found {
                Some(v) => Self::lemma_round_trip(v),
                None => {},
            }
        }
        match found {
            Some(v) => Ok(v),
            None => Err(StripeParseError),
        }
    }

    /// No two values share a wire name.
    pub proof fn lemma_wire_name_injective(a: Self, b: Self)
        requires
            a.wire_name() == b.wire_name(),
        ensures
            a == b,
    {
        reveal_strlit("deferred");
        reveal_strlit("immediately");
        assert("deferred"@.len() == 8);
        assert("immediately"@.len() == 11);
    }

    /// Reading the wire name of a value gives that value back.
    pub proof fn lemma_round_trip(v: Self)
        ensures
            Self::parse(v.wire_name()) == Some(v),
    {
        let w = choose|w: Self| #[trigger] w.wire_name() == v.wire_name();
        Self::lemma_wire_name_injective(w, v);
    }
}

impl DeepView for UpdateCustomerTaxValidateLocation {
    type V = Seq<char>;

    open spec fn deep_view(&self) -> Seq<char> {
        self.wire_name()
    }
}

impl std::str::FromStr for UpdateCustomerTaxValidateLocation {
    type Err = StripeParseError;

    fn from_str(s: &str) -> (r: Result<Self, Self::Err>)
        ensures
            r == match Self::parse(s@) {
                Some(v) => Ok::<Self, StripeParseError>(v),
                None => Err(StripeParseError),
            },
    {
        UpdateCustomerTaxValidateLocation::from_str(s)
    }
}

/// Updates the specified customer by setting the values of the parameters passed.
/// Any parameters not provided will be left unchanged.
/// For example, if you pass the **source** parameter, that becomes the customer’s active source (e.g., a card) to be used for all charges in the future.
/// When you update a customer to a new valid card source by passing the **source** parameter: for each of the customer’s current subscriptions, if the subscription bills automatically and is in the `past_due` state, then the latest open invoice for the subscription with automatic collection enabled will be retried.
/// This retry will not count as an automatic retry, and will not affect the next regularly scheduled payment for the invoice.
/// Changing the **default_source** for a customer will not trigger this behavior.
///
/// This request accepts mostly the same arguments as the customer creation call.
#[derive(Copy, Clone, Debug)]
pub struct UpdateCustomer<'a> {
    pub inner: UpdateCustomerBuilder<'a>,
    pub customer: &'a CustomerId,
}

impl<'a> UpdateCustomer<'a> {
    /// Construct a new `UpdateCustomer`.
    pub fn new(customer: &'a CustomerId) -> (r: Self)
        ensures
            r.customer == customer,
            r.inner == UpdateCustomerBuilder::unset(),
            r.inner.wire_params() == Seq::<(Seq<char>, ParamView)>::empty(),
    {
        Self { customer, inner: UpdateCustomerBuilder::new() }
    }

    /// The customer's address.
    pub fn address(self, address: OptionalFieldsAddress<'a>) -> (r: Self)
        ensures
            r.inner == (UpdateCustomerBuilder { address: Some(address), ..self.inner }),
            r.customer == self.customer,
    {
        let mut this = self;
        this.inner.address = Some(address);
        this
    }

    /// An integer amount in cents (or local equivalent) that represents the customer's current balance, which affect the customer's future invoices.
    /// A negative amount represents a credit that decreases the amount due on an invoice; a positive amount increases the amount due on an invoice.
    pub fn balance(self, balance: i64) -> (r: Self)
        ensures
            r.inner == (UpdateCustomerBuilder { balance: Some(balance), ..self.inner }),
            r.customer == self.customer,
    {
        let mut this = self;
        this.inner.balance = Some(balance);
        this
    }

    /// Balance information and default balance settings for this customer.
    pub fn cash_balance(self, cash_balance: UpdateCustomerCashBalance) -> (r: Self)
        ensures
            r.inner == (UpdateCustomerBuilder { cash_balance: Some(cash_balance), ..self.inner }),
            r.customer == self.customer,
    {
        let mut this = self;
        this.inner.cash_balance = Some(cash_balance);
        this
    }

    pub fn coupon(self, coupon: &'a str) -> (r: Self)
        ensures
            r.inner == (UpdateCustomerBuilder { coupon: Some(coupon), ..self.inner }),
            r.customer == self.customer,
    {
        let mut this = self;
        this.inner.coupon = Some(coupon);
        this
    }

    /// If you are using payment methods created via the PaymentMethods API, see the [invoice_settings.default_payment_method](https://stripe.com/docs/api/customers/update#update_customer-invoice_settings-default_payment_method) parameter.
    ///
    /// Provide the ID of a payment source already attached to this customer to make it this customer's default payment source.
    ///
    /// If you want to add a new payment source and make it the default, see the [source](https://stripe.com/docs/api/customers/update#update_customer-source) property.
    pub fn default_source(self, default_source: &'a str) -> (r: Self)
        ensures
            r.inner == (UpdateCustomerBuilder {
                default_source: Some(default_source),
                ..self.inner
            }),
            r.customer == self.customer,
    {
        let mut this = self;
        this.inner.default_source = Some(default_source);
        this
    }

    /// An arbitrary string that you can attach to a customer object.
    /// It is displayed alongside the customer in the dashboard.
    pub fn description(self, description: &'a str) -> (r: Self)
        ensures
            r.inner == (UpdateCustomerBuilder { description: Some(description), ..self.inner }),
            r.customer == self.customer,
    {
        let mut this = self;
        this.inner.description = Some(description);
        this
    }

    /// Customer's email address.
    /// It's displayed alongside the customer in your dashboard and can be useful for searching and tracking.
    /// This may be up to *512 characters*.
    pub fn email(self, email: &'a str) -> (r: Self)
        ensures
            r.inner == (UpdateCustomerBuilder { email: Some(email), ..self.inner }),
            r.customer == self.customer,
    {
        let mut this = self;
        this.inner.email = Some(email);
        this
    }

    /// Specifies which fields in the response should be expanded.
    pub fn expand(self, expand: &'a [&'a str]) -> (r: Self)
        ensures
            r.inner == (UpdateCustomerBuilder { expand: Some(expand), ..self.inner }),
            r.customer == self.customer,
    {
        let mut this = self;
        this.inner.expand = Some(expand);
        this
    }

    /// The prefix for the customer used to generate unique invoice numbers.
    /// Must be 3–12 uppercase letters or numbers.
    pub fn invoice_prefix(self, invoice_prefix: &'a str) -> (r: Self)
        ensures
            r.inner == (UpdateCustomerBuilder {
                invoice_prefix: Some(invoice_prefix),
                ..self.inner
            }),
            r.customer == self.customer,
    {
        let mut this = self;
        this.inner.invoice_prefix = Some(invoice_prefix);
        this
    }

    /// Default invoice settings for this customer.
    pub fn invoice_settings(self, invoice_settings: UpdateCustomerInvoiceSettings<'a>) -> (r: Self)
        ensures
            r.inner == (UpdateCustomerBuilder {
                invoice_settings: Some(invoice_settings),
                ..self.inner
            }),
            r.customer == self.customer,
    {
        let mut this = self;
        this.inner.invoice_settings = Some(invoice_settings);
        this
    }

    /// Set of [key-value pairs](https://stripe.com/docs/api/metadata) that you can attach to an object.
    /// This can be useful for storing additional information about the object in a structured format.
    /// Individual keys can be unset by posting an empty value to them.
    /// All keys can be unset by posting an empty value to `metadata`.
    pub fn metadata(self, metadata: &'a [(&'a str, &'a str)]) -> (r: Self)
        ensures
            r.inner == (UpdateCustomerBuilder { metadata: Some(metadata), ..self.inner }),
            r.customer == self.customer,
    {
        let mut this = self;
        this.inner.metadata = Some(metadata);
        this
    }

    /// The customer's full name or business name.
    pub fn name(self, name: &'a str) -> (r: Self)
        ensures
            r.inner == (UpdateCustomerBuilder { name: Some(name), ..self.inner }),
            r.customer == self.customer,
    {
        let mut this = self;
        this.inner.name = Some(name);
        this
    }

    /// The sequence to be used on the customer's next invoice. Defaults to 1.
    pub fn next_invoice_sequence(self, next_invoice_sequence: i64) -> (r: Self)
        ensures
            r.inner == (UpdateCustomerBuilder {
                next_invoice_sequence: Some(next_invoice_sequence),
                ..self.inner
            }),
            r.customer == self.customer,
    {
        let mut this = self;
        this.inner.next_invoice_sequence = Some(next_invoice_sequence);
        this
    }

    /// The customer's phone number.
    pub fn phone(self, phone: &'a str) -> (r: Self)
        ensures
            r.inner == (UpdateCustomerBuilder { phone: Some(phone), ..self.inner }),
            r.customer == self.customer,
    {
        let mut this = self;
        this.inner.phone = Some(phone);
        this
    }

    /// Customer's preferred languages, ordered by preference.
    pub fn preferred_locales(self, preferred_locales: &'a [&'a str]) -> (r: Self)
        ensures
            r.inner == (UpdateCustomerBuilder {
                preferred_locales: Some(preferred_locales),
                ..self.inner
            }),
            r.customer == self.customer,
    {
        let mut this = self;
        this.inner.preferred_locales = Some(preferred_locales);
        this
    }

    /// The ID of a promotion code to apply to the customer.
    /// The customer will have a discount applied on all recurring payments.
    /// Charges you create through the API will not have the discount.
    pub fn promotion_code(self, promotion_code: &'a str) -> (r: Self)
        ensures
            r.inner == (UpdateCustomerBuilder {
                promotion_code: Some(promotion_code),
                ..self.inner
            }),
            r.customer == self.customer,
    {
        let mut this = self;
        this.inner.promotion_code = Some(promotion_code);
        this
    }

    /// The customer's shipping information. Appears on invoices emailed to this customer.
    pub fn shipping(self, shipping: CustomerShipping<'a>) -> (r: Self)
        ensures
            r.inner == (UpdateCustomerBuilder { shipping: Some(shipping), ..self.inner }),
            r.customer == self.customer,
    {
        let mut this = self;
        this.inner.shipping = Some(shipping);
        this
    }

    pub fn source(self, source: &'a str) -> (r: Self)
        ensures
            r.inner == (UpdateCustomerBuilder { source: Some(source), ..self.inner }),
            r.customer == self.customer,
    {
        let mut this = self;
        this.inner.source = Some(source);
        this
    }

    /// Tax details about the customer.
    pub fn tax(self, tax: UpdateCustomerTax<'a>) -> (r: Self)
        ensures
            r.inner == (UpdateCustomerBuilder { tax: Some(tax), ..self.inner }),
            r.customer == self.customer,
    {
        let mut this = self;
        this.inner.tax = Some(tax);
        this
    }

    /// The customer's tax exemption. One of `none`, `exempt`, or `reverse`.
    pub fn tax_exempt(self, tax_exempt: CustomerTaxExempt) -> (r: Self)
        ensures
            r.inner == (UpdateCustomerBuilder { tax_exempt: Some(tax_exempt), ..self.inner }),
            r.customer == self.customer,
    {
        let mut this = self;
        this.inner.tax_exempt = Some(tax_exempt);
        this
    }

    pub fn validate(self, validate: bool) -> (r: Self)
        ensures
            r.inner == (UpdateCustomerBuilder { validate: Some(validate), ..self.inner }),
            r.customer == self.customer,
    {
        let mut this = self;
        this.inner.validate = Some(validate);
        this
    }

    /// The request that these parameters make.
    pub open spec fn request(self) -> RequestView {
        RequestView::with_form(
            StripeMethod::Post,
            "/customers/"@ + self.customer@,
            self.inner.wire_params(),
        )
    }

    /// Builds the request: the method, the path with the ids in place, and one parameter
    /// for each field that is set.
    pub fn build(&self) -> (r: RequestBuilder)
        ensures
            r@ == self.request(),
    {
        let path = join2("/customers/", self.customer.as_str());
        RequestBuilder::new(StripeMethod::Post, path).form(self.inner.to_params())
    }
}

} // verus!
