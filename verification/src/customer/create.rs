//! Creating a customer.
use crate::customer::common::{
    CustomFieldParams, CustomerShipping, CustomerTaxExempt, OptionalFieldsAddress,
};
use crate::error::StripeParseError;
use crate::params::{
    object_list, one, opt_bool, opt_int, opt_object, opt_object_list, opt_pairs, opt_str,
    opt_str_list, ParamValue, ParamView, Params, ParamsView, RequestBuilder, RequestView,
    StripeMethod,
};
use crate::text::{char_at, owned, str_eq};
use vstd::prelude::*;

verus! {

/// The parameters of [`CreateCustomer`], each unset until its setter is called.
#[derive(Copy, Clone, Debug)]
pub struct CreateCustomerBuilder<'a> {
    pub address: Option<OptionalFieldsAddress<'a>>,
    pub balance: Option<i64>,
    pub cash_balance: Option<CreateCustomerCashBalance>,
    pub coupon: Option<&'a str>,
    pub description: Option<&'a str>,
    pub email: Option<&'a str>,
    pub expand: Option<&'a [&'a str]>,
    pub invoice_prefix: Option<&'a str>,
    pub invoice_settings: Option<CreateCustomerInvoiceSettings<'a>>,
    pub metadata: Option<&'a [(&'a str, &'a str)]>,
    pub name: Option<&'a str>,
    pub next_invoice_sequence: Option<i64>,
    pub payment_method: Option<&'a str>,
    pub phone: Option<&'a str>,
    pub preferred_locales: Option<&'a [&'a str]>,
    pub promotion_code: Option<&'a str>,
    pub shipping: Option<CustomerShipping<'a>>,
    pub source: Option<&'a str>,
    pub tax: Option<CreateCustomerTax<'a>>,
    pub tax_exempt: Option<CustomerTaxExempt>,
    pub tax_id_data: Option<&'a [CreateCustomerTaxIdData<'a>]>,
    pub test_clock: Option<&'a str>,
    pub validate: Option<bool>,
}

impl<'a> CreateCustomerBuilder<'a> {
    /// The value with every field unset.
    pub open spec fn unset() -> Self {
        Self {
            address: None,
            balance: None,
            cash_balance: None,
            coupon: None,
            description: None,
            email: None,
            expand: None,
            invoice_prefix: None,
            invoice_settings: None,
            metadata: None,
            name: None,
            next_invoice_sequence: None,
            payment_method: None,
            phone: None,
            preferred_locales: None,
            promotion_code: None,
            shipping: None,
            source: None,
            tax: None,
            tax_exempt: None,
            tax_id_data: None,
            test_clock: None,
            validate: None,
        }
    }

    /// The fields that are set, by their wire names and in the order of the wire.
    pub open spec fn wire_params(self) -> ParamsView {
        Seq::empty()
            + opt_object("address"@, self.address.deep_view())
            + opt_int("balance"@, self.balance)
            + opt_object("cash_balance"@, self.cash_balance.deep_view())
            + opt_str("coupon"@, self.coupon.deep_view())
            + opt_str("description"@, self.description.deep_view())
            + opt_str("email"@, self.email.deep_view())
            + opt_str_list("expand"@, self.expand.deep_view())
            + opt_str("invoice_prefix"@, self.invoice_prefix.deep_view())
            + opt_object("invoice_settings"@, self.invoice_settings.deep_view())
            + opt_pairs("metadata"@, self.metadata.deep_view())
            + opt_str("name"@, self.name.deep_view())
            + opt_int("next_invoice_sequence"@, self.next_invoice_sequence)
            + opt_str("payment_method"@, self.payment_method.deep_view())
            + opt_str("phone"@, self.phone.deep_view())
            + opt_str_list("preferred_locales"@, self.preferred_locales.deep_view())
            + opt_str("promotion_code"@, self.promotion_code.deep_view())
            + opt_object("shipping"@, self.shipping.deep_view())
            + opt_str("source"@, self.source.deep_view())
            + opt_object("tax"@, self.tax.deep_view())
            + opt_str("tax_exempt"@, self.tax_exempt.deep_view())
            + opt_object_list("tax_id_data"@, self.tax_id_data.deep_view())
            + opt_str("test_clock"@, self.test_clock.deep_view())
            + opt_bool("validate"@, self.validate)
    }

    /// The parameters of a request on which no setter was called yet.
    pub(crate) fn new() -> (r: Self)
        ensures
            r == Self::unset(),
            r.wire_params() == Seq::<(Seq<char>, ParamView)>::empty(),
    {
        Self {
            address: None,
            balance: None,
            cash_balance: None,
            coupon: None,
            description: None,
            email: None,
            expand: None,
            invoice_prefix: None,
            invoice_settings: None,
            metadata: None,
            name: None,
            next_invoice_sequence: None,
            payment_method: None,
            phone: None,
            preferred_locales: None,
            promotion_code: None,
            shipping: None,
            source: None,
            tax: None,
            tax_exempt: None,
            tax_id_data: None,
            test_clock: None,
            validate: None,
        }
    }

    /// The parameter set: one entry for each field that is set.
    pub fn to_params(&self) -> (r: Params)
        ensures
            r@ == self.wire_params(),
    {
        let mut p = Params::new();
        p.push_opt_object(
            "address",
            match self.address {
                Some(v) => Some(v.to_params()),
                None => None,
            },
        );
        p.push_opt_int("balance", self.balance);
        p.push_opt_object(
            "cash_balance",
            match self.cash_balance {
                Some(v) => Some(v.to_params()),
                None => None,
            },
        );
        p.push_opt_str("coupon", self.coupon);
        p.push_opt_str("description", self.description);
        p.push_opt_str("email", self.email);
        p.push_opt_str_list("expand", self.expand);
        p.push_opt_str("invoice_prefix", self.invoice_prefix);
        p.push_opt_object(
            "invoice_settings",
            match self.invoice_settings {
                Some(v) => Some(v.to_params()),
                None => None,
            },
        );
        p.push_opt_pairs("metadata", self.metadata);
        p.push_opt_str("name", self.name);
        p.push_opt_int("next_invoice_sequence", self.next_invoice_sequence);
        p.push_opt_str("payment_method", self.payment_method);
        p.push_opt_str("phone", self.phone);
        p.push_opt_str_list("preferred_locales", self.preferred_locales);
        p.push_opt_str("promotion_code", self.promotion_code);
        p.push_opt_object(
            "shipping",
            match self.shipping {
                Some(v) => Some(v.to_params()),
                None => None,
            },
        );
        p.push_opt_str("source", self.source);
        p.push_opt_object(
            "tax",
            match self.tax {
                Some(v) => Some(v.to_params()),
                None => None,
            },
        );
        p.push_opt_str(
            "tax_exempt",
            match self.tax_exempt {
                Some(v) => Some(v.as_str()),
                None => None,
            },
        );
        CreateCustomerTaxIdData::push_list(&mut p, "tax_id_data", self.tax_id_data);
        p.push_opt_str("test_clock", self.test_clock);
        p.push_opt_bool("validate", self.validate);
        p
    }
}

impl<'a> DeepView for CreateCustomerBuilder<'a> {
    type V = ParamsView;

    open spec fn deep_view(&self) -> ParamsView {
        self.wire_params()
    }
}

/// Balance information and default balance settings for this customer.
#[derive(Copy, Clone, Debug)]
pub struct CreateCustomerCashBalance {
    /// Settings controlling the behavior of the customer's cash balance,
    /// such as reconciliation of funds received.
    pub settings: Option<CreateCustomerCashBalanceSettings>,
}

impl CreateCustomerCashBalance {
    /// The value with every field unset.
    pub open spec fn unset() -> Self {
        Self { settings: None }
    }

    /// The fields that are set, by their wire names and in the order of the wire.
    pub open spec fn wire_params(self) -> ParamsView {
        Seq::empty()
            + opt_object("settings"@, self.settings.deep_view())
    }

    /// The value with every field unset: on the wire it has no entry.
    pub fn new() -> (r: Self)
        ensures
            r == Self::unset(),
            r.wire_params() == Seq::<(Seq<char>, ParamView)>::empty(),
    {
        Self { settings: None }
    }

    /// The parameter set: one entry for each field that is set.
    pub fn to_params(&self) -> (r: Params)
        ensures
            r@ == self.wire_params(),
    {
        let mut p = Params::new();
        p.push_opt_object(
            "settings",
            match self.settings {
                Some(v) => Some(v.to_params()),
                None => None,
            },
        );
        p
    }
}

impl DeepView for CreateCustomerCashBalance {
    type V = ParamsView;

    open spec fn deep_view(&self) -> ParamsView {
        self.wire_params()
    }
}

impl Default for CreateCustomerCashBalance {
    fn default() -> (r: Self)
        ensures
            r == Self::unset(),
    {
        Self::new()
    }
}

/// Settings controlling the behavior of the customer's cash balance,
/// such as reconciliation of funds received.
#[derive(Copy, Clone, Debug)]
pub struct CreateCustomerCashBalanceSettings {
    /// Controls how funds transferred by the customer are applied to payment intents and invoices.
    /// Valid options are `automatic`, `manual`, or `merchant_default`.
    /// For more information about these reconciliation modes, see [Reconciliation](https://stripe.com/docs/payments/customer-balance/reconciliation).
    pub reconciliation_mode: Option<CreateCustomerCashBalanceSettingsReconciliationMode>,
}

impl CreateCustomerCashBalanceSettings {
    /// The value with every field unset.
    pub open spec fn unset() -> Self {
        Self { reconciliation_mode: None }
    }

    /// The fields that are set, by their wire names and in the order of the wire.
    pub open spec fn wire_params(self) -> ParamsView {
        Seq::empty()
            + opt_str("reconciliation_mode"@, self.reconciliation_mode.deep_view())
    }

    /// The value with every field unset: on the wire it has no entry.
    pub fn new() -> (r: Self)
        ensures
            r == Self::unset(),
            r.wire_params() == Seq::<(Seq<char>, ParamView)>::empty(),
    {
        Self { reconciliation_mode: None }
    }

    /// The parameter set: one entry for each field that is set.
    pub fn to_params(&self) -> (r: Params)
        ensures
            r@ == self.wire_params(),
    {
        let mut p = Params::new();
        p.push_opt_str(
            "reconciliation_mode",
            match self.reconciliation_mode {
                Some(v) => Some(v.as_str()),
                None => None,
            },
        );
        p
    }
}

impl DeepView for CreateCustomerCashBalanceSettings {
    type V = ParamsView;

    open spec fn deep_view(&self) -> ParamsView {
        self.wire_params()
    }
}

impl Default for CreateCustomerCashBalanceSettings {
    fn default() -> (r: Self)
        ensures
            r == Self::unset(),
    {
        Self::new()
    }
}

/// Controls how funds transferred by the customer are applied to payment intents and invoices.
/// Valid options are `automatic`, `manual`, or `merchant_default`.
/// For more information about these reconciliation modes, see [Reconciliation](https://stripe.com/docs/payments/customer-balance/reconciliation).
#[derive(Copy, Clone, Debug, PartialEq, Eq, Structural)]
pub enum CreateCustomerCashBalanceSettingsReconciliationMode {
    Automatic,
    Manual,
    MerchantDefault,
}

impl CreateCustomerCashBalanceSettingsReconciliationMode {
    /// The name under which a value travels on the wire.
    pub open spec fn wire_name(self) -> Seq<char> {
        match self {
            Self::Automatic => "automatic"@,
            Self::Manual => "manual"@,
            Self::MerchantDefault => "merchant_default"@,
        }
    }

    /// The value that a wire name stands for, if any value has that name.
    pub open spec fn parse(s: Seq<char>) -> Option<Self> {
        if exists|v: Self| #[trigger] v.wire_name() == s {
            Some(choose|v: Self| #[trigger] v.wire_name() == s)
        } else {
            None
        }
    }

    /// The wire name of the value.
    pub fn as_str(self) -> (r: &'static str)
        ensures
            r@ == self.wire_name(),
    {
        match self {
            Self::Automatic => "automatic",
            Self::Manual => "manual",
            Self::MerchantDefault => "merchant_default",
        }
    }

    /// Reads a wire name. A name that no value has is an error.
    pub fn from_str(s: &str) -> (r: Result<Self, StripeParseError>)
        ensures
            r == match Self::parse(s@) {
                Some(v) => Ok::<Self, StripeParseError>(v),
                None => Err(StripeParseError),
            },
    {
        let found = if str_eq(s, "automatic") {
            Some(Self::Automatic)
        } else if str_eq(s, "manual") {
            Some(Self::Manual)
        } else if str_eq(s, "merchant_default") {
            Some(Self::MerchantDefault)
        } else {
            None
        };
        proof {
            match found {
                Some(v) => Self::lemma_round_trip(v),
                None => {},
            }
        }
        match found {
            Some(v) => Ok(v),
            None => Err(StripeParseError),
        }
    }

    /// No two values share a wire name.
    pub proof fn lemma_wire_name_injective(a: Self, b: Self)
        requires
            a.wire_name() == b.wire_name(),
        ensures
            a == b,
    {
        reveal_strlit("automatic");
        reveal_strlit("manual");
        reveal_strlit("merchant_default");
        assert("automatic"@.len() == 9);
        assert("manual"@.len() == 6);
        assert("merchant_default"@.len() == 16);
    }

    /// Reading the wire name of a value gives that value back.
    pub proof fn lemma_round_trip(v: Self)
        ensures
            Self::parse(v.wire_name()) == Some(v),
    {
        let w = choose|w: Self| #[trigger] w.wire_name() == v.wire_name();
        Self::lemma_wire_name_injective(w, v);
    }
}

impl DeepView for CreateCustomerCashBalanceSettingsReconciliationMode {
    type V = Seq<char>;

    open spec fn deep_view(&self) -> Seq<char> {
        self.wire_name()
    }
}

impl std::str::FromStr for CreateCustomerCashBalanceSettingsReconciliationMode {
    type Err = StripeParseError;

    fn from_str(s: &str) -> (r: Result<Self, Self::Err>)
        ensures
            r == match Self::parse(s@) {
                Some(v) => Ok::<Self, StripeParseError>(v),
                None => Err(StripeParseError),
            },
    {
        CreateCustomerCashBalanceSettingsReconciliationMode::from_str(s)
    }
}

/// Default invoice settings for this customer.
#[derive(Copy, Clone, Debug)]
pub struct CreateCustomerInvoiceSettings<'a> {
    /// The list of up to 4 default custom fields to be displayed on invoices for this customer.
    /// When updating, pass an empty string to remove previously-defined fields.
    pub custom_fields: Option<&'a [CustomFieldParams<'a>]>,
    /// ID of a payment method that's attached to the customer, to be used as the customer's default payment method for subscriptions and invoices.
    pub default_payment_method: Option<&'a str>,
    /// Default footer to be displayed on invoices for this customer.
    pub footer: Option<&'a str>,
    /// Default options for invoice PDF rendering for this customer.
    pub rendering_options: Option<CreateCustomerInvoiceSettingsRenderingOptions>,
}

impl<'a> CreateCustomerInvoiceSettings<'a> {
    /// The value with every field unset.
    pub open spec fn unset() -> Self {
        Self {
            custom_fields: None,
            default_payment_method: None,
            footer: None,
            rendering_options: None,
        }
    }

    /// The fields that are set, by their wire names and in the order of the wire.
    pub open spec fn wire_params(self) -> ParamsView {
        Seq::empty()
            + opt_object_list("custom_fields"@, self.custom_fields.deep_view())
            + opt_str("default_payment_method"@, self.default_payment_method.deep_view())
            + opt_str("footer"@, self.footer.deep_view())
            + opt_object("rendering_options"@, self.rendering_options.deep_view())
    }

    /// The value with every field unset: on the wire it has no entry.
    pub fn new() -> (r: Self)
        ensures
            r == Self::unset(),
            r.wire_params() == Seq::<(Seq<char>, ParamView)>::empty(),
    {
        Self {
            custom_fields: None,
            default_payment_method: None,
            footer: None,
            rendering_options: None,
        }
    }

    /// The parameter set: one entry for each field that is set.
    pub fn to_params(&self) -> (r: Params)
        ensures
            r@ == self.wire_params(),
    {
        let mut p = Params::new();
        CustomFieldParams::push_list(&mut p, "custom_fields", self.custom_fields);
        p.push_opt_str("default_payment_method", self.default_payment_method);
        p.push_opt_str("footer", self.footer);
        p.push_opt_object(
            "rendering_options",
            match self.rendering_options {
                Some(v) => Some(v.to_params()),
                None => None,
            },
        );
        p
    }
}

impl<'a> DeepView for CreateCustomerInvoiceSettings<'a> {
    type V = ParamsView;

    open spec fn deep_view(&self) -> ParamsView {
        self.wire_params()
    }
}

impl<'a> Default for CreateCustomerInvoiceSettings<'a> {
    fn default() -> (r: Self)
        ensures
            r == Self::unset(),
    {
        Self::new()
    }
}

/// Default options for invoice PDF rendering for this customer.
#[derive(Copy, Clone, Debug)]
pub struct CreateCustomerInvoiceSettingsRenderingOptions {
    /// How line-item prices and amounts will be displayed with respect to tax on invoice PDFs.
    /// One of `exclude_tax` or `include_inclusive_tax`.
    /// `include_inclusive_tax` will include inclusive tax (and exclude exclusive tax) in invoice PDF amounts.
    /// `exclude_tax` will exclude all tax (inclusive and exclusive alike) from invoice PDF amounts.
    pub amount_tax_display: Option<CreateCustomerInvoiceSettingsRenderingOptionsAmountTaxDisplay>,
}

impl CreateCustomerInvoiceSettingsRenderingOptions {
    /// The value with every field unset.
    pub open spec fn unset() -> Self {
        Self { amount_tax_display: None }
    }

    /// The fields that are set, by their wire names and in the order of the wire.
    pub open spec fn wire_params(self) -> ParamsView {
        Seq::empty()
            + opt_str("amount_tax_display"@, self.amount_tax_display.deep_view())
    }

    /// The value with every field unset: on the wire it has no entry.
    pub fn new() -> (r: Self)
        ensures
            r == Self::unset(),
            r.wire_params() == Seq::<(Seq<char>, ParamView)>::empty(),
    {
        Self { amount_tax_display: None }
    }

    /// The parameter set: one entry for each field that is set.
    pub fn to_params(&self) -> (r: Params)
        ensures
            r@ == self.wire_params(),
    {
        let mut p = Params::new();
        p.push_opt_str(
            "amount_tax_display",
            match self.amount_tax_display {
                Some(v) => Some(v.as_str()),
                None => None,
            },
        );
        p
    }
}

impl DeepView for CreateCustomerInvoiceSettingsRenderingOptions {
    type V = ParamsView;

    open spec fn deep_view(&self) -> ParamsView {
        self.wire_params()
    }
}

impl Default for CreateCustomerInvoiceSettingsRenderingOptions {
    fn default() -> (r: Self)
        ensures
            r == Self::unset(),
    {
        Self::new()
    }
}

/// How line-item prices and amounts will be displayed with respect to tax on invoice PDFs.
/// One of `exclude_tax` or `include_inclusive_tax`.
/// `include_inclusive_tax` will include inclusive tax (and exclude exclusive tax) in invoice PDF amounts.
/// `exclude_tax` will exclude all tax (inclusive and exclusive alike) from invoice PDF amounts.
#[derive(Copy, Clone, Debug, PartialEq, Eq, Structural)]
pub enum CreateCustomerInvoiceSettingsRenderingOptionsAmountTaxDisplay {
    ExcludeTax,
    IncludeInclusiveTax,
}

impl CreateCustomerInvoiceSettingsRenderingOptionsAmountTaxDisplay {
    /// The name under which a value travels on the wire.
    pub open spec fn wire_name(self) -> Seq<char> {
        match self {
            Self::ExcludeTax => "exclude_tax"@,
            Self::IncludeInclusiveTax => "include_inclusive_tax"@,
        }
    }

    /// The value that a wire name stands for, if any value has that name.
    pub open spec fn parse(s: Seq<char>) -> Option<Self> {
        if exists|v: Self| #[trigger] v.wire_name() == s {
            Some(choose|v: Self| #[trigger] v.wire_name() == s)
        } else {
            None
        }
    }

    /// The wire name of the value.
    pub fn as_str(self) -> (r: &'static str)
        ensures
            r@ == self.wire_name(),
    {
        match self {
            Self::ExcludeTax => "exclude_tax",
            Self::IncludeInclusiveTax => "include_inclusive_tax",
        }
    }

    /// Reads a wire name. A name that no value has is an error.
    pub fn from_str(s: &str) -> (r: Result<Self, StripeParseError>)
        ensures
            r == match Self::parse(s@) {
                Some(v) => Ok::<Self, StripeParseError>(v),
                None => Err(StripeParseError),
            },
    {
        let found = if str_eq(s, "exclude_tax") {
            Some(Self::ExcludeTax)
        } else if str_eq(s, "include_inclusive_tax") {
            Some(Self::IncludeInclusiveTax)
        } else {
            None
        };
        proof {
            match found {
                Some(v) => Self::lemma_round_trip(v),
                None => {},
            }
        }
        match found {
            Some(v) => Ok(v),
            None => Err(StripeParseError),
        }
    }

    /// No two values share a wire name.
    pub proof fn lemma_wire_name_injective(a: Self, b: Self)
        requires
            a.wire_name() == b.wire_name(),
        ensures
            a == b,
    {
        reveal_strlit("exclude_tax");
        reveal_strlit("include_inclusive_tax");
        assert("exclude_tax"@.len() == 11);
        assert("include_inclusive_tax"@.len() == 21);
    }

    /// Reading the wire name of a value gives that value back.
    pub proof fn lemma_round_trip(v: Self)
        ensures
            Self::parse(v.wire_name()) == Some(v),
    {
        let w = choose|w: Self| #[trigger] w.wire_name() == v.wire_name();
        Self::lemma_wire_name_injective(w, v);
    }
}

impl DeepView for CreateCustomerInvoiceSettingsRenderingOptionsAmountTaxDisplay {
    type V = Seq<char>;

    open spec fn deep_view(&self) -> Seq<char> {
        self.wire_name()
    }
}

impl std::str::FromStr for CreateCustomerInvoiceSettingsRenderingOptionsAmountTaxDisplay {
    type Err = StripeParseError;

    fn from_str(s: &str) -> (r: Result<Self, Self::Err>)
        ensures
            r == match Self::parse(s@) {
                Some(v) => Ok::<Self, StripeParseError>(v),
                None => Err(StripeParseError),
            },
    {
        CreateCustomerInvoiceSettingsRenderingOptionsAmountTaxDisplay::from_str(s)
    }
}

/// Tax details about the customer.
#[derive(Copy, Clone, Debug)]
pub struct CreateCustomerTax<'a> {
    /// A recent IP address of the customer used for tax reporting and tax location inference.
    /// Stripe recommends updating the IP address when a new PaymentMethod is attached or the address field on the customer is updated.
    /// We recommend against updating this field more frequently since it could result in unexpected tax location/reporting outcomes.
    pub ip_address: Option<&'a str>,
    /// A flag that indicates when Stripe should validate the customer tax location.
    /// Defaults to `deferred`.
    pub validate_location: Option<CreateCustomerTaxValidateLocation>,
}

impl<'a> CreateCustomerTax<'a> {
    /// The value with every field unset.
    pub open spec fn unset() -> Self {
        Self { ip_address: None, validate_location: None }
    }

    /// The fields that are set, by their wire names and in the order of the wire.
    pub open spec fn wire_params(self) -> ParamsView {
        Seq::empty()
            + opt_str("ip_address"@, self.ip_address.deep_view())
            + opt_str("validate_location"@, self.validate_location.deep_view())
    }

    /// The value with every field unset: on the wire it has no entry.
    pub fn new() -> (r: Self)
        ensures
            r == Self::unset(),
            r.wire_params() == Seq::<(Seq<char>, ParamView)>::empty(),
    {
        Self { ip_address: None, validate_location: None }
    }

    /// The parameter set: one entry for each field that is set.
    pub fn to_params(&self) -> (r: Params)
        ensures
            r@ == self.wire_params(),
    {
        let mut p = Params::new();
        p.push_opt_str("ip_address", self.ip_address);
        p.push_opt_str(
            "validate_location",
            match self.validate_location {
                Some(v) => Some(v.as_str()),
                None => None,
            },
        );
        p
    }
}

impl<'a> DeepView for CreateCustomerTax<'a> {
    type V = ParamsView;

    open spec fn deep_view(&self) -> ParamsView {
        self.wire_params()
    }
}

impl<'a> Default for CreateCustomerTax<'a> {
    fn default() -> (r: Self)
        ensures
            r == Self::unset(),
    {
        Self::new()
    }
}

/// A flag that indicates when Stripe should validate the customer tax location.
/// Defaults to `deferred`.
#[derive(Copy, Clone, Debug, PartialEq, Eq, Structural)]
pub enum CreateCustomerTaxValidateLocation {
    Deferred,
    Immediately,
}

impl CreateCustomerTaxValidateLocation {
    /// The name under which a value travels on the wire.
    pub open spec fn wire_name(self) -> Seq<char> {
        match self {
            Self::Deferred => "deferred"@,
            Self::Immediately => "immediately"@,
        }
    }

    /// The value that a wire name stands for, if any value has that name.
    pub open spec fn parse(s: Seq<char>) -> Option<Self> {
        if exists|v: Self| #[trigger] v.wire_name() == s {
            Some(choose|v: Self| #[trigger] v.wire_name() == s)
        } else {
            None
        }
    }

    /// The wire name of the value.
    pub fn as_str(self) -> (r: &'static str)
        ensures
            r@ == self.wire_name(),
    {
        match self {
            Self::Deferred => "deferred",
            Self::Immediately => "immediately",
        }
    }

    /// Reads a wire name. A name that no value has is an error.
    pub fn from_str(s: &str) -> (r: Result<Self, StripeParseError>)
        ensures
            r == match Self::parse(s@) {
                Some(v) => Ok::<Self, StripeParseError>(v),
                None => Err(StripeParseError),
            },
    {
        let found = if str_eq(s, "deferred") {
            Some(Self::Deferred)
        } else if str_eq(s, "immediately") {
            Some(Self::Immediately)
        } else {
            None
        };
        proof {
            match found {
                Some(v) => Self::lemma_round_trip(v),
                None => {},
            }
        }
        match found {
            Some(v) => Ok(v),
            None => Err(StripeParseError),
        }
    }

    /// No two values share a wire name.
    pub proof fn lemma_wire_name_injective(a: Self, b: Self)
        requires
            a.wire_name() == b.wire_name(),
        ensures
            a == b,
    {
        reveal_strlit("deferred");
        reveal_strlit("immediately");
        assert("deferred"@.len() == 8);
        assert("immediately"@.len() == 11);
    }

    /// Reading the wire name of a value gives that value back.
    pub proof fn lemma_round_trip(v: Self)
        ensures
            Self::parse(v.wire_name()) == Some(v),
    {
        let w = choose|w: Self| #[trigger] w.wire_name() == v.wire_name();
        Self::lemma_wire_name_injective(w, v);
    }
}

impl DeepView for CreateCustomerTaxValidateLocation {
    type V = Seq<char>;

    open spec fn deep_view(&self) -> Seq<char> {
        self.wire_name()
    }
}

impl std::str::FromStr for CreateCustomerTaxValidateLocation {
    type Err = StripeParseError;

    fn from_str(s: &str) -> (r: Result<Self, Self::Err>)
        ensures
            r == match Self::parse(s@) {
                Some(v) => Ok::<Self, StripeParseError>(v),
                None => Err(StripeParseError),
            },
    {
        CreateCustomerTaxValidateLocation::from_str(s)
    }
}

/// The customer's tax IDs.
#[derive(Copy, Clone, Debug)]
pub struct CreateCustomerTaxIdData<'a> {
    /// Type of the tax ID, one of `ad_nrt`, `ae_trn`, `ar_cuit`, `au_abn`, `au_arn`, `bg_uic`, `bh_vat`, `bo_tin`, `br_cnpj`, `br_cpf`, `ca_bn`, `ca_gst_hst`, `ca_pst_bc`, `ca_pst_mb`, `ca_pst_sk`, `ca_qst`, `ch_vat`, `cl_tin`, `cn_tin`, `co_nit`, `cr_tin`, `do_rcn`, `ec_ruc`, `eg_tin`, `es_cif`, `eu_oss_vat`, `eu_vat`, `gb_vat`, `ge_vat`, `hk_br`, `hu_tin`, `id_npwp`, `il_vat`, `in_gst`, `is_vat`, `jp_cn`, `jp_rn`, `jp_trn`, `ke_pin`, `kr_brn`, `kz_bin`, `li_uid`, `mx_rfc`, `my_frp`, `my_itn`, `my_sst`, `ng_tin`, `no_vat`, `no_voec`, `nz_gst`, `om_vat`, `pe_ruc`, `ph_tin`, `ro_tin`, `rs_pib`, `ru_inn`, `ru_kpp`, `sa_vat`, `sg_gst`, `sg_uen`, `si_tin`, `sv_nit`, `th_vat`, `tr_tin`, `tw_vat`, `ua_vat`, `us_ein`, `uy_ruc`, `ve_rif`, `vn_tin`, or `za_vat`.
    pub type_: CreateCustomerTaxIdDataType,
    /// Value of the tax ID.
    pub value: &'a str,
}

impl<'a> CreateCustomerTaxIdData<'a> {
    /// The fields that are set, by their wire names and in the order of the wire.
    pub open spec fn wire_params(self) -> ParamsView {
        Seq::empty()
            + one("type"@, ParamView::Str(self.type_.wire_name()))
            + one("value"@, ParamView::Str(self.value@))
    }

    /// The value with the given fields.
    pub fn new(type_: CreateCustomerTaxIdDataType, value: &'a str) -> (r: Self)
        ensures
            r == (Self { type_, value }),
    {
        Self { type_, value }
    }

    /// The parameter set: one entry for each field that is set.
    pub fn to_params(&self) -> (r: Params)
        ensures
            r@ == self.wire_params(),
    {
        let mut p = Params::new();
        p.push_str("type", self.type_.as_str());
        p.push_str("value", self.value);
        p
    }
}

impl<'a> DeepView for CreateCustomerTaxIdData<'a> {
    type V = ParamsView;

    open spec fn deep_view(&self) -> ParamsView {
        self.wire_params()
    }
}

impl<'a> CreateCustomerTaxIdData<'a> {
    /// Adds a list of these to a parameter set, if the list is set.
    pub fn push_list(p: &mut Params, name: &str, items: Option<&[CreateCustomerTaxIdData<'a>]>)
        ensures
            final(p)@ == old(p)@ + opt_object_list(name@, items.deep_view()),
    {
        if let Some(items) = items {
            let mut list: Vec<ParamValue> = Vec::new();
            let mut i: usize = 0;
            while i < items.len()
                invariant
                    i <= items.len(),
                    list.len() == i,
                    forall|j: int|
                        0 <= j < i ==> list[j]@ == ParamView::Object(items[j].wire_params()),
                decreases items.len() - i,
            {
                list.push(ParamValue::object(items[i].to_params()));
                i += 1;
            }
            let value = ParamValue::list(list);
            assert(value@->List_0 =~= object_list(items.deep_view())->List_0);
            p.push_value(name, value);
        } else {
            assert(p@ =~= old(p)@ + opt_object_list(name@, items.deep_view()));
        }
    }
}

/// Type of the tax ID, one of `ad_nrt`, `ae_trn`, `ar_cuit`, `au_abn`, `au_arn`, `bg_uic`, `bh_vat`, `bo_tin`, `br_cnpj`, `br_cpf`, `ca_bn`, `ca_gst_hst`, `ca_pst_bc`, `ca_pst_mb`, `ca_pst_sk`, `ca_qst`, `ch_vat`, `cl_tin`, `cn_tin`, `co_nit`, `cr_tin`, `do_rcn`, `ec_ruc`, `eg_tin`, `es_cif`, `eu_oss_vat`, `eu_vat`, `gb_vat`, `ge_vat`, `hk_br`, `hu_tin`, `id_npwp`, `il_vat`, `in_gst`, `is_vat`, `jp_cn`, `jp_rn`, `jp_trn`, `ke_pin`, `kr_brn`, `kz_bin`, `li_uid`, `mx_rfc`, `my_frp`, `my_itn`, `my_sst`, `ng_tin`, `no_vat`, `no_voec`, `nz_gst`, `om_vat`, `pe_ruc`, `ph_tin`, `ro_tin`, `rs_pib`, `ru_inn`, `ru_kpp`, `sa_vat`, `sg_gst`, `sg_uen`, `si_tin`, `sv_nit`, `th_vat`, `tr_tin`, `tw_vat`, `ua_vat`, `us_ein`, `uy_ruc`, `ve_rif`, `vn_tin`, or `za_vat`.
#[derive(Copy, Clone, Debug, PartialEq, Eq, Structural)]
#[non_exhaustive]
pub enum CreateCustomerTaxIdDataType {
    AdNrt,
    AeTrn,
    ArCuit,
    AuAbn,
    AuArn,
    BgUic,
    BhVat,
    BoTin,
    BrCnpj,
    BrCpf,
    CaBn,
    CaGstHst,
    CaPstBc,
    CaPstMb,
    CaPstSk,
    CaQst,
    ChVat,
    ClTin,
    CnTin,
    CoNit,
    CrTin,
    DoRcn,
    EcRuc,
    EgTin,
    EsCif,
    EuOssVat,
    EuVat,
    GbVat,
    GeVat,
    HkBr,
    HuTin,
    IdNpwp,
    IlVat,
    InGst,
    IsVat,
    JpCn,
    JpRn,
    JpTrn,
    KePin,
    KrBrn,
    KzBin,
    LiUid,
    MxRfc,
    MyFrp,
    MyItn,
    MySst,
    NgTin,
    NoVat,
    NoVoec,
    NzGst,
    OmVat,
    PeRuc,
    PhTin,
    RoTin,
    RsPib,
    RuInn,
    RuKpp,
    SaVat,
    SgGst,
    SgUen,
    SiTin,
    SvNit,
    ThVat,
    TrTin,
    TwVat,
    UaVat,
    UsEin,
    UyRuc,
    VeRif,
    VnTin,
    ZaVat,
    /// An unrecognized value from Stripe. Should not be used as a request parameter.
    Unknown,
}

impl CreateCustomerTaxIdDataType {
    /// The name under which a value travels on the wire.
    pub open spec fn wire_name(self) -> Seq<char> {
        match self {
            Self::AdNrt => "ad_nrt"@,
            Self::AeTrn => "ae_trn"@,
            Self::ArCuit => "ar_cuit"@,
            Self::AuAbn => "au_abn"@,
            Self::AuArn => "au_arn"@,
            Self::BgUic => "bg_uic"@,
            Self::BhVat => "bh_vat"@,
            Self::BoTin => "bo_tin"@,
            Self::BrCnpj => "br_cnpj"@,
            Self::BrCpf => "br_cpf"@,
            Self::CaBn => "ca_bn"@,
            Self::CaGstHst => "ca_gst_hst"@,
            Self::CaPstBc => "ca_pst_bc"@,
            Self::CaPstMb => "ca_pst_mb"@,
            Self::CaPstSk => "ca_pst_sk"@,
            Self::CaQst => "ca_qst"@,
            Self::ChVat => "ch_vat"@,
            Self::ClTin => "cl_tin"@,
            Self::CnTin => "cn_tin"@,
            Self::CoNit => "co_nit"@,
            Self::CrTin => "cr_tin"@,
            Self::DoRcn => "do_rcn"@,
            Self::EcRuc => "ec_ruc"@,
            Self::EgTin => "eg_tin"@,
            Self::EsCif => "es_cif"@,
            Self::EuOssVat => "eu_oss_vat"@,
            Self::EuVat => "eu_vat"@,
            Self::GbVat => "gb_vat"@,
            Self::GeVat => "ge_vat"@,
            Self::HkBr => "hk_br"@,
            Self::HuTin => "hu_tin"@,
            Self::IdNpwp => "id_npwp"@,
            Self::IlVat => "il_vat"@,
            Self::InGst => "in_gst"@,
            Self::IsVat => "is_vat"@,
            Self::JpCn => "jp_cn"@,
            Self::JpRn => "jp_rn"@,
            Self::JpTrn => "jp_trn"@,
            Self::KePin => "ke_pin"@,
            Self::KrBrn => "kr_brn"@,
            Self::KzBin => "kz_bin"@,
            Self::LiUid => "li_uid"@,
            Self::MxRfc => "mx_rfc"@,
            Self::MyFrp => "my_frp"@,
            Self::MyItn => "my_itn"@,
            Self::MySst => "my_sst"@,
            Self::NgTin => "ng_tin"@,
            Self::NoVat => "no_vat"@,
            Self::NoVoec => "no_voec"@,
            Self::NzGst => "nz_gst"@,
            Self::OmVat => "om_vat"@,
            Self::PeRuc => "pe_ruc"@,
            Self::PhTin => "ph_tin"@,
            Self::RoTin => "ro_tin"@,
            Self::RsPib => "rs_pib"@,
            Self::RuInn => "ru_inn"@,
            Self::RuKpp => "ru_kpp"@,
            Self::SaVat => "sa_vat"@,
            Self::SgGst => "sg_gst"@,
            Self::SgUen => "sg_uen"@,
            Self::SiTin => "si_tin"@,
            Self::SvNit => "sv_nit"@,
            Self::ThVat => "th_vat"@,
            Self::TrTin => "tr_tin"@,
            Self::TwVat => "tw_vat"@,
            Self::UaVat => "ua_vat"@,
            Self::UsEin => "us_ein"@,
            Self::UyRuc => "uy_ruc"@,
            Self::VeRif => "ve_rif"@,
            Self::VnTin => "vn_tin"@,
            Self::ZaVat => "za_vat"@,
            Self::Unknown => "unknown"@,
        }
    }

    /// The value that a wire name stands for: the value of that name, or `Unknown` where
    /// no value has it.
    pub open spec fn parse(s: Seq<char>) -> Self {
        if exists|v: Self| #[trigger] v.wire_name() == s {
            choose|v: Self| #[trigger] v.wire_name() == s
        } else {
            Self::Unknown
        }
    }

    /// The wire name of the value.
    pub fn as_str(self) -> (r: &'static str)
        ensures
            r@ == self.wire_name(),
    {
        match self {
            Self::AdNrt => "ad_nrt",
            Self::AeTrn => "ae_trn",
            Self::ArCuit => "ar_cuit",
            Self::AuAbn => "au_abn",
            Self::AuArn => "au_arn",
            Self::BgUic => "bg_uic",
            Self::BhVat => "bh_vat",
            Self::BoTin => "bo_tin",
            Self::BrCnpj => "br_cnpj",
            Self::BrCpf => "br_cpf",
            Self::CaBn => "ca_bn",
            Self::CaGstHst => "ca_gst_hst",
            Self::CaPstBc => "ca_pst_bc",
            Self::CaPstMb => "ca_pst_mb",
            Self::CaPstSk => "ca_pst_sk",
            Self::CaQst => "ca_qst",
            Self::ChVat => "ch_vat",
            Self::ClTin => "cl_tin",
            Self::CnTin => "cn_tin",
            Self::CoNit => "co_nit",
            Self::CrTin => "cr_tin",
            Self::DoRcn => "do_rcn",
            Self::EcRuc => "ec_ruc",
            Self::EgTin => "eg_tin",
            Self::EsCif => "es_cif",
            Self::EuOssVat => "eu_oss_vat",
            Self::EuVat => "eu_vat",
            Self::GbVat => "gb_vat",
            Self::GeVat => "ge_vat",
            Self::HkBr => "hk_br",
            Self::HuTin => "hu_tin",
            Self::IdNpwp => "id_npwp",
            Self::IlVat => "il_vat",
            Self::InGst => "in_gst",
            Self::IsVat => "is_vat",
            Self::JpCn => "jp_cn",
            Self::JpRn => "jp_rn",
            Self::JpTrn => "jp_trn",
            Self::KePin => "ke_pin",
            Self::KrBrn => "kr_brn",
            Self::KzBin => "kz_bin",
            Self::LiUid => "li_uid",
            Self::MxRfc => "mx_rfc",
            Self::MyFrp => "my_frp",
            Self::MyItn => "my_itn",
            Self::MySst => "my_sst",
            Self::NgTin => "ng_tin",
            Self::NoVat => "no_vat",
            Self::NoVoec => "no_voec",
            Self::NzGst => "nz_gst",
            Self::OmVat => "om_vat",
            Self::PeRuc => "pe_ruc",
            Self::PhTin => "ph_tin",
            Self::RoTin => "ro_tin",
            Self::RsPib => "rs_pib",
            Self::RuInn => "ru_inn",
            Self::RuKpp => "ru_kpp",
            Self::SaVat => "sa_vat",
            Self::SgGst => "sg_gst",
            Self::SgUen => "sg_uen",
            Self::SiTin => "si_tin",
            Self::SvNit => "sv_nit",
            Self::ThVat => "th_vat",
            Self::TrTin => "tr_tin",
            Self::TwVat => "tw_vat",
            Self::UaVat => "ua_vat",
            Self::UsEin => "us_ein",
            Self::UyRuc => "uy_ruc",
            Self::VeRif => "ve_rif",
            Self::VnTin => "vn_tin",
            Self::ZaVat => "za_vat",
            Self::Unknown => "unknown",
        }
    }

    /// Reads a wire name. A name that no value has gives `Unknown`, never an error.
    pub fn from_str(s: &str) -> (r: Result<Self, std::convert::Infallible>)
        ensures
            r == Ok::<Self, std::convert::Infallible>(Self::parse(s@)),
    {
        let found = if str_eq(s, "ad_nrt") {
            Some(Self::AdNrt)
        } else if str_eq(s, "ae_trn") {
            Some(Self::AeTrn)
        } else if str_eq(s, "ar_cuit") {
            Some(Self::ArCuit)
        } else if str_eq(s, "au_abn") {
            Some(Self::AuAbn)
        } else if str_eq(s, "au_arn") {
            Some(Self::AuArn)
        } else if str_eq(s, "bg_uic") {
            Some(Self::BgUic)
        } else if str_eq(s, "bh_vat") {
            Some(Self::BhVat)
        } else if str_eq(s, "bo_tin") {
            Some(Self::BoTin)
        } else if str_eq(s, "br_cnpj") {
            Some(Self::BrCnpj)
        } else if str_eq(s, "br_cpf") {
            Some(Self::BrCpf)
        } else if str_eq(s, "ca_bn") {
            Some(Self::CaBn)
        } else if str_eq(s, "ca_gst_hst") {
            Some(Self::CaGstHst)
        } else if str_eq(s, "ca_pst_bc") {
            Some(Self::CaPstBc)
        } else if str_eq(s, "ca_pst_mb") {
            Some(Self::CaPstMb)
        } else if str_eq(s, "ca_pst_sk") {
            Some(Self::CaPstSk)
        } else if str_eq(s, "ca_qst") {
            Some(Self::CaQst)
        } else if str_eq(s, "ch_vat") {
            Some(Self::ChVat)
        } else if str_eq(s, "cl_tin") {
            Some(Self::ClTin)
        } else if str_eq(s, "cn_tin") {
            Some(Self::CnTin)
        } else if str_eq(s, "co_nit") {
            Some(Self::CoNit)
        } else if str_eq(s, "cr_tin") {
            Some(Self::CrTin)
        } else if str_eq(s, "do_rcn") {
            Some(Self::DoRcn)
        } else if str_eq(s, "ec_ruc") {
            Some(Self::EcRuc)
        } else if str_eq(s, "eg_tin") {
            Some(Self::EgTin)
        } else if str_eq(s, "es_cif") {
            Some(Self::EsCif)
        } else if str_eq(s, "eu_oss_vat") {
            Some(Self::EuOssVat)
        } else if str_eq(s, "eu_vat") {
            Some(Self::EuVat)
        } else if str_eq(s, "gb_vat") {
            Some(Self::GbVat)
        } else if str_eq(s, "ge_vat") {
            Some(Self::GeVat)
        } else if str_eq(s, "hk_br") {
            Some(Self::HkBr)
        } else if str_eq(s, "hu_tin") {
            Some(Self::HuTin)
        } else if str_eq(s, "id_npwp") {
            Some(Self::IdNpwp)
        } else if str_eq(s, "il_vat") {
            Some(Self::IlVat)
        } else if str_eq(s, "in_gst") {
            Some(Self::InGst)
        } else if str_eq(s, "is_vat") {
            Some(Self::IsVat)
        } else if str_eq(s, "jp_cn") {
            Some(Self::JpCn)
        } else if str_eq(s, "jp_rn") {
            Some(Self::JpRn)
        } else if str_eq(s, "jp_trn") {
            Some(Self::JpTrn)
        } else if str_eq(s, "ke_pin") {
            Some(Self::KePin)
        } else if str_eq(s, "kr_brn") {
            Some(Self::KrBrn)
        } else if str_eq(s, "kz_bin") {
            Some(Self::KzBin)
        } else if str_eq(s, "li_uid") {
            Some(Self::LiUid)
        } else if str_eq(s, "mx_rfc") {
            Some(Self::MxRfc)
        } else if str_eq(s, "my_frp") {
            Some(Self::MyFrp)
        } else if str_eq(s, "my_itn") {
            Some(Self::MyItn)
        } else if str_eq(s, "my_sst") {
            Some(Self::MySst)
        } else if str_eq(s, "ng_tin") {
            Some(Self::NgTin)
        } else if str_eq(s, "no_vat") {
            Some(Self::NoVat)
        } else if str_eq(s, "no_voec") {
            Some(Self::NoVoec)
        } else if str_eq(s, "nz_gst") {
            Some(Self::NzGst)
        } else if str_eq(s, "om_vat") {
            Some(Self::OmVat)
        } else if str_eq(s, "pe_ruc") {
            Some(Self::PeRuc)
        } else if str_eq(s, "ph_tin") {
            Some(Self::PhTin)
        } else if str_eq(s, "ro_tin") {
            Some(Self::RoTin)
        } else if str_eq(s, "rs_pib") {
            Some(Self::RsPib)
        } else if str_eq(s, "ru_inn") {
            Some(Self::RuInn)
        } else if str_eq(s, "ru_kpp") {
            Some(Self::RuKpp)
        } else if str_eq(s, "sa_vat") {
            Some(Self::SaVat)
        } else if str_eq(s, "sg_gst") {
            Some(Self::SgGst)
        } else if str_eq(s, "sg_uen") {
            Some(Self::SgUen)
        } else if str_eq(s, "si_tin") {
            Some(Self::SiTin)
        } else if str_eq(s, "sv_nit") {
            Some(Self::SvNit)
        } else if str_eq(s, "th_vat") {
            Some(Self::ThVat)
        } else if str_eq(s, "tr_tin") {
            Some(Self::TrTin)
        } else if str_eq(s, "tw_vat") {
            Some(Self::TwVat)
        } else if str_eq(s, "ua_vat") {
            Some(Self::UaVat)
        } else if str_eq(s, "us_ein") {
            Some(Self::UsEin)
        } else if str_eq(s, "uy_ruc") {
            Some(Self::UyRuc)
        } else if str_eq(s, "ve_rif") {
            Some(Self::VeRif)
        } else if str_eq(s, "vn_tin") {
            Some(Self::VnTin)
        } else if str_eq(s, "za_vat") {
            Some(Self::ZaVat)
        } else {
            None
        };
        proof {
            match found {
                Some(v) => Self::lemma_round_trip(v),
                None => {},
            }
        }
        match found {
            Some(v) => Ok(v),
            None => Ok(Self::Unknown),
        }
    }

    /// The length of a name and its characters at the places 0, 1, 3, 4 and 7: no two wire names
    /// agree in all of these.
    spec fn name_key(s: Seq<char>) -> (nat, char, char, char, char, char) {
        (s.len(), char_at(s, 0), char_at(s, 1), char_at(s, 3), char_at(s, 4), char_at(s, 7))
    }

    /// No two values share a wire name.
    pub proof fn lemma_wire_name_injective(a: Self, b: Self)
        requires
            a.wire_name() == b.wire_name(),
        ensures
            a == b,
    {
        reveal_strlit("ad_nrt");
        reveal_strlit("ae_trn");
        reveal_strlit("ar_cuit");
        reveal_strlit("au_abn");
        reveal_strlit("au_arn");
        reveal_strlit("bg_uic");
        reveal_strlit("bh_vat");
        reveal_strlit("bo_tin");
        reveal_strlit("br_cnpj");
        reveal_strlit("br_cpf");
        reveal_strlit("ca_bn");
        reveal_strlit("ca_gst_hst");
        reveal_strlit("ca_pst_bc");
        reveal_strlit("ca_pst_mb");
        reveal_strlit("ca_pst_sk");
        reveal_strlit("ca_qst");
        reveal_strlit("ch_vat");
        reveal_strlit("cl_tin");
        reveal_strlit("cn_tin");
        reveal_strlit("co_nit");
        reveal_strlit("cr_tin");
        reveal_strlit("do_rcn");
        reveal_strlit("ec_ruc");
        reveal_strlit("eg_tin");
        reveal_strlit("es_cif");
        reveal_strlit("eu_oss_vat");
        reveal_strlit("eu_vat");
        reveal_strlit("gb_vat");
        reveal_strlit("ge_vat");
        reveal_strlit("hk_br");
        reveal_strlit("hu_tin");
        reveal_strlit("id_npwp");
        reveal_strlit("il_vat");
        reveal_strlit("in_gst");
        reveal_strlit("is_vat");
        reveal_strlit("jp_cn");
        reveal_strlit("jp_rn");
        reveal_strlit("jp_trn");
        reveal_strlit("ke_pin");
        reveal_strlit("kr_brn");
        reveal_strlit("kz_bin");
        reveal_strlit("li_uid");
        reveal_strlit("mx_rfc");
        reveal_strlit("my_frp");
        reveal_strlit("my_itn");
        reveal_strlit("my_sst");
        reveal_strlit("ng_tin");
        reveal_strlit("no_vat");
        reveal_strlit("no_voec");
        reveal_strlit("nz_gst");
        reveal_strlit("om_vat");
        reveal_strlit("pe_ruc");
        reveal_strlit("ph_tin");
        reveal_strlit("ro_tin");
        reveal_strlit("rs_pib");
        reveal_strlit("ru_inn");
        reveal_strlit("ru_kpp");
        reveal_strlit("sa_vat");
        reveal_strlit("sg_gst");
        reveal_strlit("sg_uen");
        reveal_strlit("si_tin");
        reveal_strlit("sv_nit");
        reveal_strlit("th_vat");
        reveal_strlit("tr_tin");
        reveal_strlit("tw_vat");
        reveal_strlit("ua_vat");
        reveal_strlit("us_ein");
        reveal_strlit("uy_ruc");
        reveal_strlit("ve_rif");
        reveal_strlit("vn_tin");
        reveal_strlit("za_vat");
        reveal_strlit("unknown");
        assert(Self::name_key("ad_nrt"@) == (6nat, 'a', 'd', 'n', 'r', ' '));
        assert(Self::name_key("ae_trn"@) == (6nat, 'a', 'e', 't', 'r', ' '));
        assert(Self::name_key("ar_cuit"@) == (7nat, 'a', 'r', 'c', 'u', ' '));
        assert(Self::name_key("au_abn"@) == (6nat, 'a', 'u', 'a', 'b', ' '));
        assert(Self::name_key("au_arn"@) == (6nat, 'a', 'u', 'a', 'r', ' '));
        assert(Self::name_key("bg_uic"@) == (6nat, 'b', 'g', 'u', 'i', ' '));
        assert(Self::name_key("bh_vat"@) == (6nat, 'b', 'h', 'v', 'a', ' '));
        assert(Self::name_key("bo_tin"@) == (6nat, 'b', 'o', 't', 'i', ' '));
        assert(Self::name_key("br_cnpj"@) == (7nat, 'b', 'r', 'c', 'n', ' '));
        assert(Self::name_key("br_cpf"@) == (6nat, 'b', 'r', 'c', 'p', ' '));
        assert(Self::name_key("ca_bn"@) == (5nat, 'c', 'a', 'b', 'n', ' '));
        assert(Self::name_key("ca_gst_hst"@) == (10nat, 'c', 'a', 'g', 's', 'h'));
        assert(Self::name_key("ca_pst_bc"@) == (9nat, 'c', 'a', 'p', 's', 'b'));
        assert(Self::name_key("ca_pst_mb"@) == (9nat, 'c', 'a', 'p', 's', 'm'));
        assert(Self::name_key("ca_pst_sk"@) == (9nat, 'c', 'a', 'p', 's', 's'));
        assert(Self::name_key("ca_qst"@) == (6nat, 'c', 'a', 'q', 's', ' '));
        assert(Self::name_key("ch_vat"@) == (6nat, 'c', 'h', 'v', 'a', ' '));
        assert(Self::name_key("cl_tin"@) == (6nat, 'c', 'l', 't', 'i', ' '));
        assert(Self::name_key("cn_tin"@) == (6nat, 'c', 'n', 't', 'i', ' '));
        assert(Self::name_key("co_nit"@) == (6nat, 'c', 'o', 'n', 'i', ' '));
        assert(Self::name_key("cr_tin"@) == (6nat, 'c', 'r', 't', 'i', ' '));
        assert(Self::name_key("do_rcn"@) == (6nat, 'd', 'o', 'r', 'c', ' '));
        assert(Self::name_key("ec_ruc"@) == (6nat, 'e', 'c', 'r', 'u', ' '));
        assert(Self::name_key("eg_tin"@) == (6nat, 'e', 'g', 't', 'i', ' '));
        assert(Self::name_key("es_cif"@) == (6nat, 'e', 's', 'c', 'i', ' '));
        assert(Self::name_key("eu_oss_vat"@) == (10nat, 'e', 'u', 'o', 's', 'v'));
        assert(Self::name_key("eu_vat"@) == (6nat, 'e', 'u', 'v', 'a', ' '));
        assert(Self::name_key("gb_vat"@) == (6nat, 'g', 'b', 'v', 'a', ' '));
        assert(Self::name_key("ge_vat"@) == (6nat, 'g', 'e', 'v', 'a', ' '));
        assert(Self::name_key("hk_br"@) == (5nat, 'h', 'k', 'b', 'r', ' '));
        assert(Self::name_key("hu_tin"@) == (6nat, 'h', 'u', 't', 'i', ' '));
        assert(Self::name_key("id_npwp"@) == (7nat, 'i', 'd', 'n', 'p', ' '));
        assert(Self::name_key("il_vat"@) == (6nat, 'i', 'l', 'v', 'a', ' '));
        assert(Self::name_key("in_gst"@) == (6nat, 'i', 'n', 'g', 's', ' '));
        assert(Self::name_key("is_vat"@) == (6nat, 'i', 's', 'v', 'a', ' '));
        assert(Self::name_key("jp_cn"@) == (5nat, 'j', 'p', 'c', 'n', ' '));
        assert(Self::name_key("jp_rn"@) == (5nat, 'j', 'p', 'r', 'n', ' '));
        assert(Self::name_key("jp_trn"@) == (6nat, 'j', 'p', 't', 'r', ' '));
        assert(Self::name_key("ke_pin"@) == (6nat, 'k', 'e', 'p', 'i', ' '));
        assert(Self::name_key("kr_brn"@) == (6nat, 'k', 'r', 'b', 'r', ' '));
        assert(Self::name_key("kz_bin"@) == (6nat, 'k', 'z', 'b', 'i', ' '));
        assert(Self::name_key("li_uid"@) == (6nat, 'l', 'i', 'u', 'i', ' '));
        assert(Self::name_key("mx_rfc"@) == (6nat, 'm', 'x', 'r', 'f', ' '));
        assert(Self::name_key("my_frp"@) == (6nat, 'm', 'y', 'f', 'r', ' '));
        assert(Self::name_key("my_itn"@) == (6nat, 'm', 'y', 'i', 't', ' '));
        assert(Self::name_key("my_sst"@) == (6nat, 'm', 'y', 's', 's', ' '));
        assert(Self::name_key("ng_tin"@) == (6nat, 'n', 'g', 't', 'i', ' '));
        assert(Self::name_key("no_vat"@) == (6nat, 'n', 'o', 'v', 'a', ' '));
        assert(Self::name_key("no_voec"@) == (7nat, 'n', 'o', 'v', 'o', ' '));
        assert(Self::name_key("nz_gst"@) == (6nat, 'n', 'z', 'g', 's', ' '));
        assert(Self::name_key("om_vat"@) == (6nat, 'o', 'm', 'v', 'a', ' '));
        assert(Self::name_key("pe_ruc"@) == (6nat, 'p', 'e', 'r', 'u', ' '));
        assert(Self::name_key("ph_tin"@) == (6nat, 'p', 'h', 't', 'i', ' '));
        assert(Self::name_key("ro_tin"@) == (6nat, 'r', 'o', 't', 'i', ' '));
        assert(Self::name_key("rs_pib"@) == (6nat, 'r', 's', 'p', 'i', ' '));
        assert(Self::name_key("ru_inn"@) == (6nat, 'r', 'u', 'i', 'n', ' '));
        assert(Self::name_key("ru_kpp"@) == (6nat, 'r', 'u', 'k', 'p', ' '));
        assert(Self::name_key("sa_vat"@) == (6nat, 's', 'a', 'v', 'a', ' '));
        assert(Self::name_key("sg_gst"@) == (6nat, 's', 'g', 'g', 's', ' '));
        assert(Self::name_key("sg_uen"@) == (6nat, 's', 'g', 'u', 'e', ' '));
        assert(Self::name_key("si_tin"@) == (6nat, 's', 'i', 't', 'i', ' '));
        assert(Self::name_key("sv_nit"@) == (6nat, 's', 'v', 'n', 'i', ' '));
        assert(Self::name_key("th_vat"@) == (6nat, 't', 'h', 'v', 'a', ' '));
        assert(Self::name_key("tr_tin"@) == (6nat, 't', 'r', 't', 'i', ' '));
        assert(Self::name_key("tw_vat"@) == (6nat, 't', 'w', 'v', 'a', ' '));
        assert(Self::name_key("ua_vat"@) == (6nat, 'u', 'a', 'v', 'a', ' '));
        assert(Self::name_key("us_ein"@) == (6nat, 'u', 's', 'e', 'i', ' '));
        assert(Self::name_key("uy_ruc"@) == (6nat, 'u', 'y', 'r', 'u', ' '));
        assert(Self::name_key("ve_rif"@) == (6nat, 'v', 'e', 'r', 'i', ' '));
        assert(Self::name_key("vn_tin"@) == (6nat, 'v', 'n', 't', 'i', ' '));
        assert(Self::name_key("za_vat"@) == (6nat, 'z', 'a', 'v', 'a', ' '));
        assert(Self::name_key("unknown"@) == (7nat, 'u', 'n', 'n', 'o', ' '));
    }

    /// Reading the wire name of a value gives that value back.
    pub proof fn lemma_round_trip(v: Self)
        ensures
            Self::parse(v.wire_name()) == v,
    {
        let w = choose|w: Self| #[trigger] w.wire_name() == v.wire_name();
        Self::lemma_wire_name_injective(w, v);
    }

    /// A name that no value has reads as `Unknown`.
    pub proof fn lemma_unrecognized_reads_as_unknown(s: Seq<char>)
        requires
            forall|v: Self| #[trigger] v.wire_name() != s,
        ensures
            Self::parse(s) == Self::Unknown,
    {
    }
}

impl DeepView for CreateCustomerTaxIdDataType {
    type V = Seq<char>;

    open spec fn deep_view(&self) -> Seq<char> {
        self.wire_name()
    }
}

impl std::str::FromStr for CreateCustomerTaxIdDataType {
    type Err = std::convert::Infallible;

    fn from_str(s: &str) -> (r: Result<Self, Self::Err>)
        ensures
            r == Ok::<Self, std::convert::Infallible>(Self::parse(s@)),
    {
        CreateCustomerTaxIdDataType::from_str(s)
    }
}

/// Creates a new customer object.
#[derive(Copy, Clone, Debug)]
pub struct CreateCustomer<'a> {
    pub inner: CreateCustomerBuilder<'a>,
}

impl<'a> CreateCustomer<'a> {
    /// Construct a new `CreateCustomer`.
    pub fn new() -> (r: Self)
        ensures
            r.inner == CreateCustomerBuilder::unset(),
            r.inner.wire_params() == Seq::<(Seq<char>, ParamView)>::empty(),
    {
        Self { inner: CreateCustomerBuilder::new() }
    }

    /// The customer's address.
    pub fn address(self, address: OptionalFieldsAddress<'a>) -> (r: Self)
        ensures
            r.inner == (CreateCustomerBuilder { address: Some(address), ..self.inner }),
    {
        let mut this = self;
        this.inner.address = Some(address);
        this
    }

    /// An integer amount in cents (or local equivalent) that represents the customer's current balance, which affect the customer's future invoices.
    /// A negative amount represents a credit that decreases the amount due on an invoice; a positive amount increases the amount due on an invoice.
    pub fn balance(self, balance: i64) -> (r: Self)
        ensures
            r.inner == (CreateCustomerBuilder { balance: Some(balance), ..self.inner }),
    {
        let mut this = self;
        this.inner.balance = Some(balance);
        this
    }

    /// Balance information and default balance settings for this customer.
    pub fn cash_balance(self, cash_balance: CreateCustomerCashBalance) -> (r: Self)
        ensures
            r.inner == (CreateCustomerBuilder { cash_balance: Some(cash_balance), ..self.inner }),
    {
        let mut this = self;
        this.inner.cash_balance = Some(cash_balance);
        this
    }

    pub fn coupon(self, coupon: &'a str) -> (r: Self)
        ensures
            r.inner == (CreateCustomerBuilder { coupon: Some(coupon), ..self.inner }),
    {
        let mut this = self;
        this.inner.coupon = Some(coupon);
        this
    }

    /// An arbitrary string that you can attach to a customer object.
    /// It is displayed alongside the customer in the dashboard.
    pub fn description(self, description: &'a str) -> (r: Self)
        ensures
            r.inner == (CreateCustomerBuilder { description: Some(description), ..self.inner }),
    {
        let mut this = self;
        this.inner.description = Some(description);
        this
    }

    /// Customer's email address.
    /// It's displayed alongside the customer in your dashboard and can be useful for searching and tracking.
    /// This may be up to *512 characters*.
    pub fn email(self, email: &'a str) -> (r: Self)
        ensures
            r.inner == (CreateCustomerBuilder { email: Some(email), ..self.inner }),
    {
        let mut this = self;
        this.inner.email = Some(email);
        this
    }

    /// Specifies which fields in the response should be expanded.
    pub fn expand(self, expand: &'a [&'a str]) -> (r: Self)
        ensures
            r.inner == (CreateCustomerBuilder { expand: Some(expand), ..self.inner }),
    {
        let mut this = self;
        this.inner.expand = Some(expand);
        this
    }

    /// The prefix for the customer used to generate unique invoice numbers.
    /// Must be 3–12 uppercase letters or numbers.
    pub fn invoice_prefix(self, invoice_prefix: &'a str) -> (r: Self)
        ensures
            r.inner == (CreateCustomerBuilder {
                invoice_prefix: Some(invoice_prefix),
                ..self.inner
            }),
    {
        let mut this = self;
        this.inner.invoice_prefix = Some(invoice_prefix);
        this
    }

    /// Default invoice settings for this customer.
    pub fn invoice_settings(self, invoice_settings: CreateCustomerInvoiceSettings<'a>) -> (r: Self)
        ensures
            r.inner == (CreateCustomerBuilder {
                invoice_settings: Some(invoice_settings),
                ..self.inner
            }),
    {
        let mut this = self;
        this.inner.invoice_settings = Some(invoice_settings);
        this
    }

    /// Set of [key-value pairs](https://stripe.com/docs/api/metadata) that you can attach to an object.
    /// This can be useful for storing additional information about the object in a structured format.
    /// Individual keys can be unset by posting an empty value to them.
    /// All keys can be unset by posting an empty value to `metadata`.
    pub fn metadata(self, metadata: &'a [(&'a str, &'a str)]) -> (r: Self)
        ensures
            r.inner == (CreateCustomerBuilder { metadata: Some(metadata), ..self.inner }),
    {
        let mut this = self;
        this.inner.metadata = Some(metadata);
        this
    }

    /// The customer's full name or business name.
    pub fn name(self, name: &'a str) -> (r: Self)
        ensures
            r.inner == (CreateCustomerBuilder { name: Some(name), ..self.inner }),
    {
        let mut this = self;
        this.inner.name = Some(name);
        this
    }

    /// The sequence to be used on the customer's next invoice. Defaults to 1.
    pub fn next_invoice_sequence(self, next_invoice_sequence: i64) -> (r: Self)
        ensures
            r.inner == (CreateCustomerBuilder {
                next_invoice_sequence: Some(next_invoice_sequence),
                ..self.inner
            }),
    {
        let mut this = self;
        this.inner.next_invoice_sequence = Some(next_invoice_sequence);
        this
    }

    pub fn payment_method(self, payment_method: &'a str) -> (r: Self)
        ensures
            r.inner == (CreateCustomerBuilder {
                payment_method: Some(payment_method),
                ..self.inner
            }),
    {
        let mut this = self;
        this.inner.payment_method = Some(payment_method);
        this
    }

    /// The customer's phone number.
    pub fn phone(self, phone: &'a str) -> (r: Self)
        ensures
            r.inner == (CreateCustomerBuilder { phone: Some(phone), ..self.inner }),
    {
        let mut this = self;
        this.inner.phone = Some(phone);
        this
    }

    /// Customer's preferred languages, ordered by preference.
    pub fn preferred_locales(self, preferred_locales: &'a [&'a str]) -> (r: Self)
        ensures
            r.inner == (CreateCustomerBuilder {
                preferred_locales: Some(preferred_locales),
                ..self.inner
            }),
    {
        let mut this = self;
        this.inner.preferred_locales = Some(preferred_locales);
        this
    }

    /// The ID of a promotion code to apply to the customer.
    /// The customer will have a discount applied on all recurring payments.
    /// Charges you create through the API will not have the discount.
    pub fn promotion_code(self, promotion_code: &'a str) -> (r: Self)
        ensures
            r.inner == (CreateCustomerBuilder {
                promotion_code: Some(promotion_code),
                ..self.inner
            }),
    {
        let mut this = self;
        this.inner.promotion_code = Some(promotion_code);
        this
    }

    /// The customer's shipping information. Appears on invoices emailed to this customer.
    pub fn shipping(self, shipping: CustomerShipping<'a>) -> (r: Self)
        ensures
            r.inner == (CreateCustomerBuilder { shipping: Some(shipping), ..self.inner }),
    {
        let mut this = self;
        this.inner.shipping = Some(shipping);
        this
    }

    pub fn source(self, source: &'a str) -> (r: Self)
        ensures
            r.inner == (CreateCustomerBuilder { source: Some(source), ..self.inner }),
    {
        let mut this = self;
        this.inner.source = Some(source);
        this
    }

    /// Tax details about the customer.
    pub fn tax(self, tax: CreateCustomerTax<'a>) -> (r: Self)
        ensures
            r.inner == (CreateCustomerBuilder { tax: Some(tax), ..self.inner }),
    {
        let mut this = self;
        this.inner.tax = Some(tax);
        this
    }

    /// The customer's tax exemption. One of `none`, `exempt`, or `reverse`.
    pub fn tax_exempt(self, tax_exempt: CustomerTaxExempt) -> (r: Self)
        ensures
            r.inner == (CreateCustomerBuilder { tax_exempt: Some(tax_exempt), ..self.inner }),
    {
        let mut this = self;
        this.inner.tax_exempt = Some(tax_exempt);
        this
    }

    /// The customer's tax IDs.
    pub fn tax_id_data(self, tax_id_data: &'a [CreateCustomerTaxIdData<'a>]) -> (r: Self)
        ensures
            r.inner == (CreateCustomerBuilder { tax_id_data: Some(tax_id_data), ..self.inner }),
    {
        let mut this = self;
        this.inner.tax_id_data = Some(tax_id_data);
        this
    }

    /// ID of the test clock to attach to the customer.
    pub fn test_clock(self, test_clock: &'a str) -> (r: Self)
        ensures
            r.inner == (CreateCustomerBuilder { test_clock: Some(test_clock), ..self.inner }),
    {
        let mut this = self;
        this.inner.test_clock = Some(test_clock);
        this
    }

    pub fn validate(self, validate: bool) -> (r: Self)
        ensures
            r.inner == (CreateCustomerBuilder { validate: Some(validate), ..self.inner }),
    {
        let mut this = self;
        this.inner.validate = Some(validate);
        this
    }

    /// The request that these parameters make.
    pub open spec fn request(self) -> RequestView {
        RequestView::with_form(StripeMethod::Post, "/customers"@, self.inner.wire_params())
    }

    /// Builds the request: the method, the path with the ids in place, and one parameter
    /// for each field that is set.
    pub fn build(&self) -> (r: RequestBuilder)
        ensures
            r@ == self.request(),
    {
        RequestBuilder::new(StripeMethod::Post, owned("/customers")).form(self.inner.to_params())
    }
}

impl<'a> Default for CreateCustomer<'a> {
    fn default() -> (r: Self)
        ensures
            r.inner == CreateCustomerBuilder::unset(),
    {
        Self::new()
    }
}

} // verus!
