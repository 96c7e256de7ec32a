//! How a payment method was set up.
use crate::json::{field, opt_nested, req_text, JsonObject, JsonValue, JsonView, ObjectView};
use crate::text::{char_at, str_eq};
use vstd::prelude::*;

verus! {

/// The details of the payment method of a setup attempt. The details of each kind of
/// payment method are kept as the object that came, unread.
#[derive(Debug, PartialEq, Eq)]
pub struct SetupAttemptPaymentMethodDetails {
    pub acss_debit: Option<JsonObject>,
    pub amazon_pay: Option<JsonObject>,
    pub au_becs_debit: Option<JsonObject>,
    pub bacs_debit: Option<JsonObject>,
    pub bancontact: Option<JsonObject>,
    pub boleto: Option<JsonObject>,
    pub card: Option<JsonObject>,
    pub card_present: Option<JsonObject>,
    pub cashapp: Option<JsonObject>,
    pub ideal: Option<JsonObject>,
    pub klarna: Option<JsonObject>,
    pub link: Option<JsonObject>,
    pub paypal: Option<JsonObject>,
    pub revolut_pay: Option<JsonObject>,
    pub sepa_debit: Option<JsonObject>,
    pub sofort: Option<JsonObject>,
    /// The type of the payment method used in the SetupIntent (e.g., `card`).
    /// An additional hash is included on `payment_method_details` with a name matching this value.
    /// It contains confirmation-specific information for the payment method.
    pub type_: String,
    pub us_bank_account: Option<JsonObject>,
}

/// What a [`SetupAttemptPaymentMethodDetails`] stands for.
pub struct SetupAttemptPaymentMethodDetailsView {
    pub acss_debit: Option<ObjectView>,
    pub amazon_pay: Option<ObjectView>,
    pub au_becs_debit: Option<ObjectView>,
    pub bacs_debit: Option<ObjectView>,
    pub bancontact: Option<ObjectView>,
    pub boleto: Option<ObjectView>,
    pub card: Option<ObjectView>,
    pub card_present: Option<ObjectView>,
    pub cashapp: Option<ObjectView>,
    pub ideal: Option<ObjectView>,
    pub klarna: Option<ObjectView>,
    pub link: Option<ObjectView>,
    pub paypal: Option<ObjectView>,
    pub revolut_pay: Option<ObjectView>,
    pub sepa_debit: Option<ObjectView>,
    pub sofort: Option<ObjectView>,
    pub type_: Seq<char>,
    pub us_bank_account: Option<ObjectView>,
}

impl View for SetupAttemptPaymentMethodDetails {
    type V = SetupAttemptPaymentMethodDetailsView;

    open spec fn view(&self) -> SetupAttemptPaymentMethodDetailsView {
        SetupAttemptPaymentMethodDetailsView {
            acss_debit: self.acss_debit.deep_view(),
            amazon_pay: self.amazon_pay.deep_view(),
            au_becs_debit: self.au_becs_debit.deep_view(),
            bacs_debit: self.bacs_debit.deep_view(),
            bancontact: self.bancontact.deep_view(),
            boleto: self.boleto.deep_view(),
            card: self.card.deep_view(),
            card_present: self.card_present.deep_view(),
            cashapp: self.cashapp.deep_view(),
            ideal: self.ideal.deep_view(),
            klarna: self.klarna.deep_view(),
            link: self.link.deep_view(),
            paypal: self.paypal.deep_view(),
            revolut_pay: self.revolut_pay.deep_view(),
            sepa_debit: self.sepa_debit.deep_view(),
            sofort: self.sofort.deep_view(),
            type_: self.type_.deep_view(),
            us_bank_account: self.us_bank_account.deep_view(),
        }
    }
}

impl DeepView for SetupAttemptPaymentMethodDetails {
    type V = SetupAttemptPaymentMethodDetailsView;

    open spec fn deep_view(&self) -> SetupAttemptPaymentMethodDetailsView {
        self@
    }
}

/// The fields of the value while it is being read: each one is `None` until it has been
/// read, and an optional one starts out as read and unset.
#[derive(Debug, PartialEq, Eq)]
pub struct SetupAttemptPaymentMethodDetailsBuilder {
    pub acss_debit: Option<Option<JsonObject>>,
    pub amazon_pay: Option<Option<JsonObject>>,
    pub au_becs_debit: Option<Option<JsonObject>>,
    pub bacs_debit: Option<Option<JsonObject>>,
    pub bancontact: Option<Option<JsonObject>>,
    pub boleto: Option<Option<JsonObject>>,
    pub card: Option<Option<JsonObject>>,
    pub card_present: Option<Option<JsonObject>>,
    pub cashapp: Option<Option<JsonObject>>,
    pub ideal: Option<Option<JsonObject>>,
    pub klarna: Option<Option<JsonObject>>,
    pub link: Option<Option<JsonObject>>,
    pub paypal: Option<Option<JsonObject>>,
    pub revolut_pay: Option<Option<JsonObject>>,
    pub sepa_debit: Option<Option<JsonObject>>,
    pub sofort: Option<Option<JsonObject>>,
    pub type_: Option<String>,
    pub us_bank_account: Option<Option<JsonObject>>,
}

/// What a [`SetupAttemptPaymentMethodDetailsBuilder`] stands for.
pub struct SetupAttemptPaymentMethodDetailsBuilderView {
    pub acss_debit: Option<Option<ObjectView>>,
    pub amazon_pay: Option<Option<ObjectView>>,
    pub au_becs_debit: Option<Option<ObjectView>>,
    pub bacs_debit: Option<Option<ObjectView>>,
    pub bancontact: Option<Option<ObjectView>>,
    pub boleto: Option<Option<ObjectView>>,
    pub card: Option<Option<ObjectView>>,
    pub card_present: Option<Option<ObjectView>>,
    pub cashapp: Option<Option<ObjectView>>,
    pub ideal: Option<Option<ObjectView>>,
    pub klarna: Option<Option<ObjectView>>,
    pub link: Option<Option<ObjectView>>,
    pub paypal: Option<Option<ObjectView>>,
    pub revolut_pay: Option<Option<ObjectView>>,
    pub sepa_debit: Option<Option<ObjectView>>,
    pub sofort: Option<Option<ObjectView>>,
    pub type_: Option<Seq<char>>,
    pub us_bank_account: Option<Option<ObjectView>>,
}

impl View for SetupAttemptPaymentMethodDetailsBuilder {
    type V = SetupAttemptPaymentMethodDetailsBuilderView;

    open spec fn view(&self) -> SetupAttemptPaymentMethodDetailsBuilderView {
        SetupAttemptPaymentMethodDetailsBuilderView {
            acss_debit: self.acss_debit.deep_view(),
            amazon_pay: self.amazon_pay.deep_view(),
            au_becs_debit: self.au_becs_debit.deep_view(),
            bacs_debit: self.bacs_debit.deep_view(),
            bancontact: self.bancontact.deep_view(),
            boleto: self.boleto.deep_view(),
            card: self.card.deep_view(),
            card_present: self.card_present.deep_view(),
            cashapp: self.cashapp.deep_view(),
            ideal: self.ideal.deep_view(),
            klarna: self.klarna.deep_view(),
            link: self.link.deep_view(),
            paypal: self.paypal.deep_view(),
            revolut_pay: self.revolut_pay.deep_view(),
            sepa_debit: self.sepa_debit.deep_view(),
            sofort: self.sofort.deep_view(),
            type_: self.type_.deep_view(),
            us_bank_account: self.us_bank_account.deep_view(),
        }
    }
}

impl SetupAttemptPaymentMethodDetailsBuilderView {
    /// Before anything was read: an optional field is unset, a required one is missing.
    pub open spec fn unread() -> SetupAttemptPaymentMethodDetailsBuilderView {
        SetupAttemptPaymentMethodDetailsBuilderView {
            acss_debit: Some(None),
            amazon_pay: Some(None),
            au_becs_debit: Some(None),
            bacs_debit: Some(None),
            bancontact: Some(None),
            boleto: Some(None),
            card: Some(None),
            card_present: Some(None),
            cashapp: Some(None),
            ideal: Some(None),
            klarna: Some(None),
            link: Some(None),
            paypal: Some(None),
            revolut_pay: Some(None),
            sepa_debit: Some(None),
            sofort: Some(None),
            type_: None,
            us_bank_account: Some(None),
        }
    }

    /// After the value was taken out: nothing is left.
    pub open spec fn taken() -> SetupAttemptPaymentMethodDetailsBuilderView {
        SetupAttemptPaymentMethodDetailsBuilderView {
            acss_debit: None,
            amazon_pay: None,
            au_becs_debit: None,
            bacs_debit: None,
            bancontact: None,
            boleto: None,
            card: None,
            card_present: None,
            cashapp: None,
            ideal: None,
            klarna: None,
            link: None,
            paypal: None,
            revolut_pay: None,
            sepa_debit: None,
            sofort: None,
            type_: None,
            us_bank_account: None,
        }
    }

    /// Each field as the entries of an object give it: `None` where the entry of its
    /// name does not read as the field's type.
    pub open spec fn read(entries: ObjectView) -> SetupAttemptPaymentMethodDetailsBuilderView {
        SetupAttemptPaymentMethodDetailsBuilderView {
            acss_debit: opt_nested(field(entries, "acss_debit"@)),
            amazon_pay: opt_nested(field(entries, "amazon_pay"@)),
            au_becs_debit: opt_nested(field(entries, "au_becs_debit"@)),
            bacs_debit: opt_nested(field(entries, "bacs_debit"@)),
            bancontact: opt_nested(field(entries, "bancontact"@)),
            boleto: opt_nested(field(entries, "boleto"@)),
            card: opt_nested(field(entries, "card"@)),
            card_present: opt_nested(field(entries, "card_present"@)),
            cashapp: opt_nested(field(entries, "cashapp"@)),
            ideal: opt_nested(field(entries, "ideal"@)),
            klarna: opt_nested(field(entries, "klarna"@)),
            link: opt_nested(field(entries, "link"@)),
            paypal: opt_nested(field(entries, "paypal"@)),
            revolut_pay: opt_nested(field(entries, "revolut_pay"@)),
            sepa_debit: opt_nested(field(entries, "sepa_debit"@)),
            sofort: opt_nested(field(entries, "sofort"@)),
            type_: req_text(field(entries, "type"@)),
            us_bank_account: opt_nested(field(entries, "us_bank_account"@)),
        }
    }

    /// Whether an entry can be taken: an entry of a name that a field has must read as
    /// the type of that field.
    pub open spec fn accepts(self, name: Seq<char>, value: JsonView) -> bool {
        &&& name == "acss_debit"@ ==> opt_nested(Some(value)) is Some
        &&& name == "amazon_pay"@ ==> opt_nested(Some(value)) is Some
        &&& name == "au_becs_debit"@ ==> opt_nested(Some(value)) is Some
        &&& name == "bacs_debit"@ ==> opt_nested(Some(value)) is Some
        &&& name == "bancontact"@ ==> opt_nested(Some(value)) is Some
        &&& name == "boleto"@ ==> opt_nested(Some(value)) is Some
        &&& name == "card"@ ==> opt_nested(Some(value)) is Some
        &&& name == "card_present"@ ==> opt_nested(Some(value)) is Some
        &&& name == "cashapp"@ ==> opt_nested(Some(value)) is Some
        &&& name == "ideal"@ ==> opt_nested(Some(value)) is Some
        &&& name == "klarna"@ ==> opt_nested(Some(value)) is Some
        &&& name == "link"@ ==> opt_nested(Some(value)) is Some
        &&& name == "paypal"@ ==> opt_nested(Some(value)) is Some
        &&& name == "revolut_pay"@ ==> opt_nested(Some(value)) is Some
        &&& name == "sepa_debit"@ ==> opt_nested(Some(value)) is Some
        &&& name == "sofort"@ ==> opt_nested(Some(value)) is Some
        &&& name == "type"@ ==> req_text(Some(value)) is Some
        &&& name == "us_bank_account"@ ==> opt_nested(Some(value)) is Some
    }

    /// The fields after an entry was taken: the field of that name holds what the
    /// value reads as, the others are as before.
    pub open spec fn with(
        self,
        name: Seq<char>,
        value: JsonView,
    ) -> SetupAttemptPaymentMethodDetailsBuilderView {
        SetupAttemptPaymentMethodDetailsBuilderView {
            acss_debit: if name == "acss_debit"@ {
                opt_nested(Some(value))
            } else {
                self.acss_debit
            },
            amazon_pay: if name == "amazon_pay"@ {
                opt_nested(Some(value))
            } else {
                self.amazon_pay
            },
            au_becs_debit: if name == "au_becs_debit"@ {
                opt_nested(Some(value))
            } else {
                self.au_becs_debit
            },
            bacs_debit: if name == "bacs_debit"@ {
                opt_nested(Some(value))
            } else {
                self.bacs_debit
            },
            bancontact: if name == "bancontact"@ {
                opt_nested(Some(value))
            } else {
                self.bancontact
            },
            boleto: if name == "boleto"@ {
                opt_nested(Some(value))
            } else {
                self.boleto
            },
            card: if name == "card"@ {
                opt_nested(Some(value))
            } else {
                self.card
            },
            card_present: if name == "card_present"@ {
                opt_nested(Some(value))
            } else {
                self.card_present
            },
            cashapp: if name == "cashapp"@ {
                opt_nested(Some(value))
            } else {
                self.cashapp
            },
            ideal: if name == "ideal"@ {
                opt_nested(Some(value))
            } else {
                self.ideal
            },
            klarna: if name == "klarna"@ {
                opt_nested(Some(value))
            } else {
                self.klarna
            },
            link: if name == "link"@ {
                opt_nested(Some(value))
            } else {
                self.link
            },
            paypal: if name == "paypal"@ {
                opt_nested(Some(value))
            } else {
                self.paypal
            },
            revolut_pay: if name == "revolut_pay"@ {
                opt_nested(Some(value))
            } else {
                self.revolut_pay
            },
            sepa_debit: if name == "sepa_debit"@ {
                opt_nested(Some(value))
            } else {
                self.sepa_debit
            },
            sofort: if name == "sofort"@ {
                opt_nested(Some(value))
            } else {
                self.sofort
            },
            type_: if name == "type"@ {
                req_text(Some(value))
            } else {
                self.type_
            },
            us_bank_account: if name == "us_bank_account"@ {
                opt_nested(Some(value))
            } else {
                self.us_bank_account
            },
        }
    }

    /// The fields after the entries were taken one by one, in their order; nothing, if
    /// one of them could not be taken.
    pub open spec fn fed(
        self,
        entries: ObjectView,
    ) -> Option<SetupAttemptPaymentMethodDetailsBuilderView>
        decreases entries.len(),
    {
        if entries.len() == 0 {
            Some(self)
        } else {
            match self.fed(entries.drop_last()) {
                Some(b) => if b.accepts(entries.last().0, entries.last().1) {
                    Some(b.with(entries.last().0, entries.last().1))
                } else {
                    None
                },
                None => None,
            }
        }
    }

    /// The length of a name and its character at the place 2: no two field names
    /// agree in all of these.
    spec fn name_key(s: Seq<char>) -> (nat, char) {
        (s.len(), char_at(s, 2))
    }

    /// How the field names are told apart.
    proof fn lemma_field_names()
        ensures
            Self::name_key("acss_debit"@) == (10nat, 's'),
            Self::name_key("amazon_pay"@) == (10nat, 'a'),
            Self::name_key("au_becs_debit"@) == (13nat, '_'),
            Self::name_key("bacs_debit"@) == (10nat, 'c'),
            Self::name_key("bancontact"@) == (10nat, 'n'),
            Self::name_key("boleto"@) == (6nat, 'l'),
            Self::name_key("card"@) == (4nat, 'r'),
            Self::name_key("card_present"@) == (12nat, 'r'),
            Self::name_key("cashapp"@) == (7nat, 's'),
            Self::name_key("ideal"@) == (5nat, 'e'),
            Self::name_key("klarna"@) == (6nat, 'a'),
            Self::name_key("link"@) == (4nat, 'n'),
            Self::name_key("paypal"@) == (6nat, 'y'),
            Self::name_key("revolut_pay"@) == (11nat, 'v'),
            Self::name_key("sepa_debit"@) == (10nat, 'p'),
            Self::name_key("sofort"@) == (6nat, 'f'),
            Self::name_key("type"@) == (4nat, 'p'),
            Self::name_key("us_bank_account"@) == (15nat, '_'),
    {
        reveal_strlit("acss_debit");
        reveal_strlit("amazon_pay");
        reveal_strlit("au_becs_debit");
        reveal_strlit("bacs_debit");
        reveal_strlit("bancontact");
        reveal_strlit("boleto");
        reveal_strlit("card");
        reveal_strlit("card_present");
        reveal_strlit("cashapp");
        reveal_strlit("ideal");
        reveal_strlit("klarna");
        reveal_strlit("link");
        reveal_strlit("paypal");
        reveal_strlit("revolut_pay");
        reveal_strlit("sepa_debit");
        reveal_strlit("sofort");
        reveal_strlit("type");
        reveal_strlit("us_bank_account");
    }

    /// Taking the entries of an object one by one comes to the same as reading each
    /// field from the last entry of its name.
    pub proof fn lemma_fed_is_read(entries: ObjectView)
        requires
            Self::unread().fed(entries) is Some,
        ensures
            Self::unread().fed(entries) == Some(Self::read(entries)),
        decreases entries.len(),
    {
        if entries.len() > 0 {
            let front = entries.drop_last();
            let last = entries.last();
            Self::lemma_fed_is_read(front);
            let after = Self::read(front).with(last.0, last.1);
            assert(Self::unread().fed(entries) == Some(after));
            assert(after.acss_debit == Self::read(entries).acss_debit);
            assert(after.amazon_pay == Self::read(entries).amazon_pay);
            assert(after.au_becs_debit == Self::read(entries).au_becs_debit);
            assert(after.bacs_debit == Self::read(entries).bacs_debit);
            assert(after.bancontact == Self::read(entries).bancontact);
            assert(after.boleto == Self::read(entries).boleto);
            assert(after.card == Self::read(entries).card);
            assert(after.card_present == Self::read(entries).card_present);
            assert(after.cashapp == Self::read(entries).cashapp);
            assert(after.ideal == Self::read(entries).ideal);
            assert(after.klarna == Self::read(entries).klarna);
            assert(after.link == Self::read(entries).link);
            assert(after.paypal == Self::read(entries).paypal);
            assert(after.revolut_pay == Self::read(entries).revolut_pay);
            assert(after.sepa_debit == Self::read(entries).sepa_debit);
            assert(after.sofort == Self::read(entries).sofort);
            assert(after.type_ == Self::read(entries).type_);
            assert(after.us_bank_account == Self::read(entries).us_bank_account);
        }
    }

    /// Whether every field has been read.
    pub open spec fn complete(self) -> bool {
        &&& self.acss_debit is Some
        &&& self.amazon_pay is Some
        &&& self.au_becs_debit is Some
        &&& self.bacs_debit is Some
        &&& self.bancontact is Some
        &&& self.boleto is Some
        &&& self.card is Some
        &&& self.card_present is Some
        &&& self.cashapp is Some
        &&& self.ideal is Some
        &&& self.klarna is Some
        &&& self.link is Some
        &&& self.paypal is Some
        &&& self.revolut_pay is Some
        &&& self.sepa_debit is Some
        &&& self.sofort is Some
        &&& self.type_ is Some
        &&& self.us_bank_account is Some
    }

    /// The value that the fields make, once every one of them has been read.
    pub open spec fn finish(self) -> Option<SetupAttemptPaymentMethodDetailsView> {
        if self.complete() {
            Some(
                SetupAttemptPaymentMethodDetailsView {
                    acss_debit: self.acss_debit->0,
                    amazon_pay: self.amazon_pay->0,
                    au_becs_debit: self.au_becs_debit->0,
                    bacs_debit: self.bacs_debit->0,
                    bancontact: self.bancontact->0,
                    boleto: self.boleto->0,
                    card: self.card->0,
                    card_present: self.card_present->0,
                    cashapp: self.cashapp->0,
                    ideal: self.ideal->0,
                    klarna: self.klarna->0,
                    link: self.link->0,
                    paypal: self.paypal->0,
                    revolut_pay: self.revolut_pay->0,
                    sepa_debit: self.sepa_debit->0,
                    sofort: self.sofort->0,
                    type_: self.type_->0,
                    us_bank_account: self.us_bank_account->0,
                },
            )
        } else {
            None
        }
    }
}

impl SetupAttemptPaymentMethodDetailsBuilder {
    /// The builder before anything was read.
    pub fn deser_default() -> (r: Self)
        ensures
            r@ == SetupAttemptPaymentMethodDetailsBuilderView::unread(),
    {
        Self {
            acss_debit: Some(None),
            amazon_pay: Some(None),
            au_becs_debit: Some(None),
            bacs_debit: Some(None),
            bancontact: Some(None),
            boleto: Some(None),
            card: Some(None),
            card_present: Some(None),
            cashapp: Some(None),
            ideal: Some(None),
            klarna: Some(None),
            link: Some(None),
            paypal: Some(None),
            revolut_pay: Some(None),
            sepa_debit: Some(None),
            sofort: Some(None),
            type_: None,
            us_bank_account: Some(None),
        }
    }

    /// Takes one entry: the field of that name is read from the value, and an entry of
    /// a name that no field has is passed over. A value that does not read as the type
    /// of its field is refused, and the builder stays as it was.
    pub fn key(&mut self, k: &str, v: &JsonValue) -> (accepted: bool)
        ensures
            accepted == old(self)@.accepts(k@, v@),
            final(self)@ == if accepted {
                old(self)@.with(k@, v@)
            } else {
                old(self)@
            },
    {
        proof {
            SetupAttemptPaymentMethodDetailsBuilderView::lemma_field_names();
        }
        if str_eq(k, "acss_debit") {
            match v.opt_nested() {
                Some(x) => {
                    self.acss_debit = Some(x);
                    true
                },
                None => false,
            }
        } else if str_eq(k, "amazon_pay") {
            match v.opt_nested() {
                Some(x) => {
                    self.amazon_pay = Some(x);
                    true
                },
                None => false,
            }
        } else if str_eq(k, "au_becs_debit") {
            match v.opt_nested() {
                Some(x) => {
                    self.au_becs_debit = Some(x);
                    true
                },
                None => false,
            }
        } else if str_eq(k, "bacs_debit") {
            match v.opt_nested() {
                Some(x) => {
                    self.bacs_debit = Some(x);
                    true
                },
                None => false,
            }
        } else if str_eq(k, "bancontact") {
            match v.opt_nested() {
                Some(x) => {
                    self.bancontact = Some(x);
                    true
                },
                None => false,
            }
        } else if str_eq(k, "boleto") {
            match v.opt_nested() {
                Some(x) => {
                    self.boleto = Some(x);
                    true
                },
                None => false,
            }
        } else if str_eq(k, "card") {
            match v.opt_nested() {
                Some(x) => {
                    self.card = Some(x);
                    true
                },
                None => false,
            }
        } else if str_eq(k, "card_present") {
            match v.opt_nested() {
                Some(x) => {
                    self.card_present = Some(x);
                    true
                },
                None => false,
            }
        } else if str_eq(k, "cashapp") {
            match v.opt_nested() {
                Some(x) => {
                    self.cashapp = Some(x);
                    true
                },
                None => false,
            }
        } else if str_eq(k, "ideal") {
            match v.opt_nested() {
                Some(x) => {
                    self.ideal = Some(x);
                    true
                },
                None => false,
            }
        } else if str_eq(k, "klarna") {
            match v.opt_nested() {
                Some(x) => {
                    self.klarna = Some(x);
                    true
                },
                None => false,
            }
        } else if str_eq(k, "link") {
            match v.opt_nested() {
                Some(x) => {
                    self.link = Some(x);
                    true
                },
                None => false,
            }
        } else if str_eq(k, "paypal") {
            match v.opt_nested() {
                Some(x) => {
                    self.paypal = Some(x);
                    true
                },
                None => false,
            }
        } else if str_eq(k, "revolut_pay") {
            match v.opt_nested() {
                Some(x) => {
                    self.revolut_pay = Some(x);
                    true
                },
                None => false,
            }
        } else if str_eq(k, "sepa_debit") {
            match v.opt_nested() {
                Some(x) => {
                    self.sepa_debit = Some(x);
                    true
                },
                None => false,
            }
        } else if str_eq(k, "sofort") {
            match v.opt_nested() {
                Some(x) => {
                    self.sofort = Some(x);
                    true
                },
                None => false,
            }
        } else if str_eq(k, "type") {
            match v.text() {
                Some(x) => {
                    self.type_ = Some(x);
                    true
                },
                None => false,
            }
        } else if str_eq(k, "us_bank_account") {
            match v.opt_nested() {
                Some(x) => {
                    self.us_bank_account = Some(x);
                    true
                },
                None => false,
            }
        } else {
            true
        }
    }

    /// Takes the value out, if every field has been read. The builder is left empty
    /// either way.
    pub fn take_out(&mut self) -> (r: Option<SetupAttemptPaymentMethodDetails>)
        ensures
            r.deep_view() == old(self)@.finish(),
            final(self)@ == SetupAttemptPaymentMethodDetailsBuilderView::taken(),
    {
        let acss_debit = self.acss_debit.take();
        let amazon_pay = self.amazon_pay.take();
        let au_becs_debit = self.au_becs_debit.take();
        let bacs_debit = self.bacs_debit.take();
        let bancontact = self.bancontact.take();
        let boleto = self.boleto.take();
        let card = self.card.take();
        let card_present = self.card_present.take();
        let cashapp = self.cashapp.take();
        let ideal = self.ideal.take();
        let klarna = self.klarna.take();
        let link = self.link.take();
        let paypal = self.paypal.take();
        let revolut_pay = self.revolut_pay.take();
        let sepa_debit = self.sepa_debit.take();
        let sofort = self.sofort.take();
        let type_ = self.type_.take();
        let us_bank_account = self.us_bank_account.take();
        Some(
            SetupAttemptPaymentMethodDetails {
                acss_debit: acss_debit?,
                amazon_pay: amazon_pay?,
                au_becs_debit: au_becs_debit?,
                bacs_debit: bacs_debit?,
                bancontact: bancontact?,
                boleto: boleto?,
                card: card?,
                card_present: card_present?,
                cashapp: cashapp?,
                ideal: ideal?,
                klarna: klarna?,
                link: link?,
                paypal: paypal?,
                revolut_pay: revolut_pay?,
                sepa_debit: sepa_debit?,
                sofort: sofort?,
                type_: type_?,
                us_bank_account: us_bank_account?,
            },
        )
    }
}

impl SetupAttemptPaymentMethodDetails {
    /// What an object decodes to: every field is read from the last entry of its name,
    /// entries of other names are passed over, and one field that does not read fails
    /// the whole.
    pub open spec fn decode_object(
        entries: ObjectView,
    ) -> Option<SetupAttemptPaymentMethodDetailsView> {
        SetupAttemptPaymentMethodDetailsBuilderView::read(entries).finish()
    }

    /// What a value decodes to: nothing, unless it is an object.
    pub open spec fn decode(value: JsonView) -> Option<SetupAttemptPaymentMethodDetailsView> {
        match value {
            JsonView::Object(entries) => Self::decode_object(entries),
            _ => None,
        }
    }

    /// Decodes an object.
    pub fn from_object(o: &JsonObject) -> (r: Option<Self>)
        ensures
            r.deep_view() == Self::decode_object(o@),
    {
        let mut b = SetupAttemptPaymentMethodDetailsBuilder::deser_default();
        b.acss_debit = Some(o.opt_nested("acss_debit")?);
        b.amazon_pay = Some(o.opt_nested("amazon_pay")?);
        b.au_becs_debit = Some(o.opt_nested("au_becs_debit")?);
        b.bacs_debit = Some(o.opt_nested("bacs_debit")?);
        b.bancontact = Some(o.opt_nested("bancontact")?);
        b.boleto = Some(o.opt_nested("boleto")?);
        b.card = Some(o.opt_nested("card")?);
        b.card_present = Some(o.opt_nested("card_present")?);
        b.cashapp = Some(o.opt_nested("cashapp")?);
        b.ideal = Some(o.opt_nested("ideal")?);
        b.klarna = Some(o.opt_nested("klarna")?);
        b.link = Some(o.opt_nested("link")?);
        b.paypal = Some(o.opt_nested("paypal")?);
        b.revolut_pay = Some(o.opt_nested("revolut_pay")?);
        b.sepa_debit = Some(o.opt_nested("sepa_debit")?);
        b.sofort = Some(o.opt_nested("sofort")?);
        b.type_ = Some(o.text("type")?);
        b.us_bank_account = Some(o.opt_nested("us_bank_account")?);
        b.take_out()
    }

    /// Decodes a value. Anything but an object is refused.
    pub fn from_value(v: JsonValue) -> (r: Option<Self>)
        ensures
            r.deep_view() == Self::decode(v@),
    {
        match v {
            JsonValue::Object(o) => {
                proof {
                    JsonValue::lemma_object_view(o);
                }
                Self::from_object(&o)
            },
            _ => None,
        }
    }
}

} // verus!
