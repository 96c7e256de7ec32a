//! The customer as the API returns it: alive, or deleted.
use crate::json::{
    field, opt_flag, opt_nested, opt_text, opt_whole, req_text, req_true, JsonObject, JsonValue,
    JsonView, ObjectView,
};
use crate::text::{char_at, str_eq};
use vstd::prelude::*;

verus! {

/// A customer of the business. Only `id` has to be there; nested objects are kept as they
/// came, and fields that this type does not hold are passed over.
#[derive(Debug, PartialEq, Eq)]
pub struct Customer {
    /// The customer's address.
    pub address: Option<JsonObject>,
    /// The current balance, if any, that's stored on the customer.
    /// If negative, the customer has credit to apply to their next invoice.
    /// If positive, the customer has an amount owed that's added to their next invoice.
    pub balance: Option<i64>,
    /// Time at which the object was created. Measured in seconds since the Unix epoch.
    pub created: Option<i64>,
    /// Three-letter ISO code for the currency the customer can be charged in for recurring billing purposes.
    pub currency: Option<String>,
    /// Tracks the most recent state change on any invoice belonging to the customer.
    pub delinquent: Option<bool>,
    /// An arbitrary string attached to the object. Often useful for displaying to users.
    pub description: Option<String>,
    /// The customer's email address.
    pub email: Option<String>,
    /// Unique identifier for the object.
    pub id: String,
    /// The prefix for the customer used to create unique invoice numbers.
    pub invoice_prefix: Option<String>,
    /// Has the value `true` if the object exists in live mode or the value `false` if the object exists in test mode.
    pub livemode: Option<bool>,
    /// Set of key-value pairs attached to the object.
    pub metadata: Option<JsonObject>,
    /// The customer's full name or business name.
    pub name: Option<String>,
    /// The suffix of the customer's next invoice number (for example, 0001).
    pub next_invoice_sequence: Option<i64>,
    /// The customer's phone number.
    pub phone: Option<String>,
    /// Mailing and shipping address for the customer. Appears on invoices emailed to this customer.
    pub shipping: Option<JsonObject>,
}

/// What a [`Customer`] stands for.
pub struct CustomerView {
    pub address: Option<ObjectView>,
    pub balance: Option<i64>,
    pub created: Option<i64>,
    pub currency: Option<Seq<char>>,
    pub delinquent: Option<bool>,
    pub description: Option<Seq<char>>,
    pub email: Option<Seq<char>>,
    pub id: Seq<char>,
    pub invoice_prefix: Option<Seq<char>>,
    pub livemode: Option<bool>,
    pub metadata: Option<ObjectView>,
    pub name: Option<Seq<char>>,
    pub next_invoice_sequence: Option<i64>,
    pub phone: Option<Seq<char>>,
    pub shipping: Option<ObjectView>,
}

impl View for Customer {
    type V = CustomerView;

    open spec fn view(&self) -> CustomerView {
        CustomerView {
            address: self.address.deep_view(),
            balance: self.balance,
            created: self.created,
            currency: self.currency.deep_view(),
            delinquent: self.delinquent,
            description: self.description.deep_view(),
            email: self.email.deep_view(),
            id: self.id.deep_view(),
            invoice_prefix: self.invoice_prefix.deep_view(),
            livemode: self.livemode,
            metadata: self.metadata.deep_view(),
            name: self.name.deep_view(),
            next_invoice_sequence: self.next_invoice_sequence,
            phone: self.phone.deep_view(),
            shipping: self.shipping.deep_view(),
        }
    }
}

impl DeepView for Customer {
    type V = CustomerView;

    open spec fn deep_view(&self) -> CustomerView {
        self@
    }
}

/// The fields of the value while it is being read: each one is `None` until it has been
/// read, and an optional one starts out as read and unset.
#[derive(Debug, PartialEq, Eq)]
pub struct CustomerBuilder {
    pub address: Option<Option<JsonObject>>,
    pub balance: Option<Option<i64>>,
    pub created: Option<Option<i64>>,
    pub currency: Option<Option<String>>,
    pub delinquent: Option<Option<bool>>,
    pub description: Option<Option<String>>,
    pub email: Option<Option<String>>,
    pub id: Option<String>,
    pub invoice_prefix: Option<Option<String>>,
    pub livemode: Option<Option<bool>>,
    pub metadata: Option<Option<JsonObject>>,
    pub name: Option<Option<String>>,
    pub next_invoice_sequence: Option<Option<i64>>,
    pub phone: Option<Option<String>>,
    pub shipping: Option<Option<JsonObject>>,
}

/// What a [`CustomerBuilder`] stands for.
pub struct CustomerBuilderView {
    pub address: Option<Option<ObjectView>>,
    pub balance: Option<Option<i64>>,
    pub created: Option<Option<i64>>,
    pub currency: Option<Option<Seq<char>>>,
    pub delinquent: Option<Option<bool>>,
    pub description: Option<Option<Seq<char>>>,
    pub email: Option<Option<Seq<char>>>,
    pub id: Option<Seq<char>>,
    pub invoice_prefix: Option<Option<Seq<char>>>,
    pub livemode: Option<Option<bool>>,
    pub metadata: Option<Option<ObjectView>>,
    pub name: Option<Option<Seq<char>>>,
    pub next_invoice_sequence: Option<Option<i64>>,
    pub phone: Option<Option<Seq<char>>>,
    pub shipping: Option<Option<ObjectView>>,
}

impl View for CustomerBuilder {
    type V = CustomerBuilderView;

    open spec fn view(&self) -> CustomerBuilderView {
        CustomerBuilderView {
            address: self.address.deep_view(),
            balance: self.balance,
            created: self.created,
            currency: self.currency.deep_view(),
            delinquent: self.delinquent,
            description: self.description.deep_view(),
            email: self.email.deep_view(),
            id: self.id.deep_view(),
            invoice_prefix: self.invoice_prefix.deep_view(),
            livemode: self.livemode,
            metadata: self.metadata.deep_view(),
            name: self.name.deep_view(),
            next_invoice_sequence: self.next_invoice_sequence,
            phone: self.phone.deep_view(),
            shipping: self.shipping.deep_view(),
        }
    }
}

impl CustomerBuilderView {
    /// Before anything was read: an optional field is unset, a required one is missing.
    pub open spec fn unread() -> CustomerBuilderView {
        CustomerBuilderView {
            address: Some(None),
            balance: Some(None),
            created: Some(None),
            currency: Some(None),
            delinquent: Some(None),
            description: Some(None),
            email: Some(None),
            id: None,
            invoice_prefix: Some(None),
            livemode: Some(None),
            metadata: Some(None),
            name: Some(None),
            next_invoice_sequence: Some(None),
            phone: Some(None),
            shipping: Some(None),
        }
    }

    /// After the value was taken out: nothing is left.
    pub open spec fn taken() -> CustomerBuilderView {
        CustomerBuilderView {
            address: None,
            balance: None,
            created: None,
            currency: None,
            delinquent: None,
            description: None,
            email: None,
            id: None,
            invoice_prefix: None,
            livemode: None,
            metadata: None,
            name: None,
            next_invoice_sequence: None,
            phone: None,
            shipping: None,
        }
    }

    /// Each field as the entries of an object give it: `None` where the entry of its
    /// name does not read as the field's type.
    pub open spec fn read(entries: ObjectView) -> CustomerBuilderView {
        CustomerBuilderView {
            address: opt_nested(field(entries, "address"@)),
            balance: opt_whole(field(entries, "balance"@)),
            created: opt_whole(field(entries, "created"@)),
            currency: opt_text(field(entries, "currency"@)),
            delinquent: opt_flag(field(entries, "delinquent"@)),
            description: opt_text(field(entries, "description"@)),
            email: opt_text(field(entries, "email"@)),
            id: req_text(field(entries, "id"@)),
            invoice_prefix: opt_text(field(entries, "invoice_prefix"@)),
            livemode: opt_flag(field(entries, "livemode"@)),
            metadata: opt_nested(field(entries, "metadata"@)),
            name: opt_text(field(entries, "name"@)),
            next_invoice_sequence: opt_whole(field(entries, "next_invoice_sequence"@)),
            phone: opt_text(field(entries, "phone"@)),
            shipping: opt_nested(field(entries, "shipping"@)),
        }
    }

    /// Whether an entry can be taken: an entry of a name that a field has must read as
    /// the type of that field.
    pub open spec fn accepts(self, name: Seq<char>, value: JsonView) -> bool {
        &&& name == "address"@ ==> opt_nested(Some(value)) is Some
        &&& name == "balance"@ ==> opt_whole(Some(value)) is Some
        &&& name == "created"@ ==> opt_whole(Some(value)) is Some
        &&& name == "currency"@ ==> opt_text(Some(value)) is Some
        &&& name == "delinquent"@ ==> opt_flag(Some(value)) is Some
        &&& name == "description"@ ==> opt_text(Some(value)) is Some
        &&& name == "email"@ ==> opt_text(Some(value)) is Some
        &&& name == "id"@ ==> req_text(Some(value)) is Some
        &&& name == "invoice_prefix"@ ==> opt_text(Some(value)) is Some
        &&& name == "livemode"@ ==> opt_flag(Some(value)) is Some
        &&& name == "metadata"@ ==> opt_nested(Some(value)) is Some
        &&& name == "name"@ ==> opt_text(Some(value)) is Some
        &&& name == "next_invoice_sequence"@ ==> opt_whole(Some(value)) is Some
        &&& name == "phone"@ ==> opt_text(Some(value)) is Some
        &&& name == "shipping"@ ==> opt_nested(Some(value)) is Some
    }

    /// The fields after an entry was taken: the field of that name holds what the
    /// value reads as, the others are as before.
    pub open spec fn with(self, name: Seq<char>, value: JsonView) -> CustomerBuilderView {
        CustomerBuilderView {
            address: if name == "address"@ {
                opt_nested(Some(value))
            } else {
                self.address
            },
            balance: if name == "balance"@ {
                opt_whole(Some(value))
            } else {
                self.balance
            },
            created: if name == "created"@ {
                opt_whole(Some(value))
            } else {
                self.created
            },
            currency: if name == "currency"@ {
                opt_text(Some(value))
            } else {
                self.currency
            },
            delinquent: if name == "delinquent"@ {
                opt_flag(Some(value))
            } else {
                self.delinquent
            },
            description: if name == "description"@ {
                opt_text(Some(value))
            } else {
                self.description
            },
            email: if name == "email"@ {
                opt_text(Some(value))
            } else {
                self.email
            },
            id: if name == "id"@ {
                req_text(Some(value))
            } else {
                self.id
            },
            invoice_prefix: if name == "invoice_prefix"@ {
                opt_text(Some(value))
            } else {
                self.invoice_prefix
            },
            livemode: if name == "livemode"@ {
                opt_flag(Some(value))
            } else {
                self.livemode
            },
            metadata: if name == "metadata"@ {
                opt_nested(Some(value))
            } else {
                self.metadata
            },
            name: if name == "name"@ {
                opt_text(Some(value))
            } else {
                self.name
            },
            next_invoice_sequence: if name == "next_invoice_sequence"@ {
                opt_whole(Some(value))
            } else {
                self.next_invoice_sequence
            },
            phone: if name == "phone"@ {
                opt_text(Some(value))
            } else {
                self.phone
            },
            shipping: if name == "shipping"@ {
                opt_nested(Some(value))
            } else {
                self.shipping
            },
        }
    }

    /// The fields after the entries were taken one by one, in their order; nothing, if
    /// one of them could not be taken.
    pub open spec fn fed(self, entries: ObjectView) -> Option<CustomerBuilderView>
        decreases entries.len(),
    {
        if entries.len() == 0 {
            Some(self)
        } else {
            match self.fed(entries.drop_last()) {
                Some(b) => if b.accepts(entries.last().0, entries.last().1) {
                    Some(b.with(entries.last().0, entries.last().1))
                } else {
                    None
                },
                None => None,
            }
        }
    }

    /// The length of a name and its character at the place 0: no two field names
    /// agree in all of these.
    spec fn name_key(s: Seq<char>) -> (nat, char) {
        (s.len(), char_at(s, 0))
    }

    /// How the field names are told apart.
    proof fn lemma_field_names()
        ensures
            Self::name_key("address"@) == (7nat, 'a'),
            Self::name_key("balance"@) == (7nat, 'b'),
            Self::name_key("created"@) == (7nat, 'c'),
            Self::name_key("currency"@) == (8nat, 'c'),
            Self::name_key("delinquent"@) == (10nat, 'd'),
            Self::name_key("description"@) == (11nat, 'd'),
            Self::name_key("email"@) == (5nat, 'e'),
            Self::name_key("id"@) == (2nat, 'i'),
            Self::name_key("invoice_prefix"@) == (14nat, 'i'),
            Self::name_key("livemode"@) == (8nat, 'l'),
            Self::name_key("metadata"@) == (8nat, 'm'),
            Self::name_key("name"@) == (4nat, 'n'),
            Self::name_key("next_invoice_sequence"@) == (21nat, 'n'),
            Self::name_key("phone"@) == (5nat, 'p'),
            Self::name_key("shipping"@) == (8nat, 's'),
    {
        reveal_strlit("address");
        reveal_strlit("balance");
        reveal_strlit("created");
        reveal_strlit("currency");
        reveal_strlit("delinquent");
        reveal_strlit("description");
        reveal_strlit("email");
        reveal_strlit("id");
        reveal_strlit("invoice_prefix");
        reveal_strlit("livemode");
        reveal_strlit("metadata");
        reveal_strlit("name");
        reveal_strlit("next_invoice_sequence");
        reveal_strlit("phone");
        reveal_strlit("shipping");
    }

    /// Taking the entries of an object one by one comes to the same as reading each
    /// field from the last entry of its name.
    pub proof fn lemma_fed_is_read(entries: ObjectView)
        requires
            Self::unread().fed(entries) is Some,
        ensures
            Self::unread().fed(entries) == Some(Self::read(entries)),
        decreases entries.len(),
    {
        if entries.len() > 0 {
            let front = entries.drop_last();
            let last = entries.last();
            Self::lemma_fed_is_read(front);
            let after = Self::read(front).with(last.0, last.1);
            assert(Self::unread().fed(entries) == Some(after));
            assert(after.address == Self::read(entries).address);
            assert(after.balance == Self::read(entries).balance);
            assert(after.created == Self::read(entries).created);
            assert(after.currency == Self::read(entries).currency);
            assert(after.delinquent == Self::read(entries).delinquent);
            assert(after.description == Self::read(entries).description);
            assert(after.email == Self::read(entries).email);
            assert(after.id == Self::read(entries).id);
            assert(after.invoice_prefix == Self::read(entries).invoice_prefix);
            assert(after.livemode == Self::read(entries).livemode);
            assert(after.metadata == Self::read(entries).metadata);
            assert(after.name == Self::read(entries).name);
            assert(after.next_invoice_sequence == Self::read(entries).next_invoice_sequence);
            assert(after.phone == Self::read(entries).phone);
            assert(after.shipping == Self::read(entries).shipping);
        }
    }

    /// Whether every field has been read.
    pub open spec fn complete(self) -> bool {
        &&& self.address is Some
        &&& self.balance is Some
        &&& self.created is Some
        &&& self.currency is Some
        &&& self.delinquent is Some
        &&& self.description is Some
        &&& self.email is Some
        &&& self.id is Some
        &&& self.invoice_prefix is Some
        &&& self.livemode is Some
        &&& self.metadata is Some
        &&& self.name is Some
        &&& self.next_invoice_sequence is Some
        &&& self.phone is Some
        &&& self.shipping is Some
    }

    /// The value that the fields make, once every one of them has been read.
    pub open spec fn finish(self) -> Option<CustomerView> {
        if self.complete() {
            Some(
                CustomerView {
                    address: self.address->0,
                    balance: self.balance->0,
                    created: self.created->0,
                    currency: self.currency->0,
                    delinquent: self.delinquent->0,
                    description: self.description->0,
                    email: self.email->0,
                    id: self.id->0,
                    invoice_prefix: self.invoice_prefix->0,
                    livemode: self.livemode->0,
                    metadata: self.metadata->0,
                    name: self.name->0,
                    next_invoice_sequence: self.next_invoice_sequence->0,
                    phone: self.phone->0,
                    shipping: self.shipping->0,
                },
            )
        } else {
            None
        }
    }
}

impl CustomerBuilder {
    /// The builder before anything was read.
    pub fn deser_default() -> (r: Self)
        ensures
            r@ == CustomerBuilderView::unread(),
    {
        Self {
            address: Some(None),
            balance: Some(None),
            created: Some(None),
            currency: Some(None),
            delinquent: Some(None),
            description: Some(None),
            email: Some(None),
            id: None,
            invoice_prefix: Some(None),
            livemode: Some(None),
            metadata: Some(None),
            name: Some(None),
            next_invoice_sequence: Some(None),
            phone: Some(None),
            shipping: Some(None),
        }
    }

    /// Takes one entry: the field of that name is read from the value, and an entry of
    /// a name that no field has is passed over. A value that does not read as the type
    /// of its field is refused, and the builder stays as it was.
    pub fn key(&mut self, k: &str, v: &JsonValue) -> (accepted: bool)
        ensures
            accepted == old(self)@.accepts(k@, v@),
            final(self)@ == if accepted {
                old(self)@.with(k@, v@)
            } else {
                old(self)@
            },
    {
        proof {
            CustomerBuilderView::lemma_field_names();
        }
        if str_eq(k, "address") {
            match v.opt_nested() {
                Some(x) => {
                    self.address = Some(x);
                    true
                },
                None => false,
            }
        } else if str_eq(k, "balance") {
            match v.opt_whole() {
                Some(x) => {
                    self.balance = Some(x);
                    true
                },
                None => false,
            }
        } else if str_eq(k, "created") {
            match v.opt_whole() {
                Some(x) => {
                    self.created = Some(x);
                    true
                },
                None => false,
            }
        } else if str_eq(k, "currency") {
            match v.opt_text() {
                Some(x) => {
                    self.currency = Some(x);
                    true
                },
                None => false,
            }
        } else if str_eq(k, "delinquent") {
            match v.opt_flag() {
                Some(x) => {
                    self.delinquent = Some(x);
                    true
                },
                None => false,
            }
        } else if str_eq(k, "description") {
            match v.opt_text() {
                Some(x) => {
                    self.description = Some(x);
                    true
                },
                None => false,
            }
        } else if str_eq(k, "email") {
            match v.opt_text() {
                Some(x) => {
                    self.email = Some(x);
                    true
                },
                None => false,
            }
        } else if str_eq(k, "id") {
            match v.text() {
                Some(x) => {
                    self.id = Some(x);
                    true
                },
                None => false,
            }
        } else if str_eq(k, "invoice_prefix") {
            match v.opt_text() {
                Some(x) => {
                    self.invoice_prefix = Some(x);
                    true
                },
                None => false,
            }
        } else if str_eq(k, "livemode") {
            match v.opt_flag() {
                Some(x) => {
                    self.livemode = Some(x);
                    true
                },
                None => false,
            }
        } else if str_eq(k, "metadata") {
            match v.opt_nested() {
                Some(x) => {
                    self.metadata = Some(x);
                    true
                },
                None => false,
            }
        } else if str_eq(k, "name") {
            match v.opt_text() {
                Some(x) => {
                    self.name = Some(x);
                    true
                },
                None => false,
            }
        } else if str_eq(k, "next_invoice_sequence") {
            match v.opt_whole() {
                Some(x) => {
                    self.next_invoice_sequence = Some(x);
                    true
                },
                None => false,
            }
        } else if str_eq(k, "phone") {
            match v.opt_text() {
                Some(x) => {
                    self.phone = Some(x);
                    true
                },
                None => false,
            }
        } else if str_eq(k, "shipping") {
            match v.opt_nested() {
                Some(x) => {
                    self.shipping = Some(x);
                    true
                },
                None => false,
            }
        } else {
            true
        }
    }

    /// Takes the value out, if every field has been read. The builder is left empty
    /// either way.
    pub fn take_out(&mut self) -> (r: Option<Customer>)
        ensures
            r.deep_view() == old(self)@.finish(),
            final(self)@ == CustomerBuilderView::taken(),
    {
        let address = self.address.take();
        let balance = self.balance.take();
        let created = self.created.take();
        let currency = self.currency.take();
        let delinquent = self.delinquent.take();
        let description = self.description.take();
        let email = self.email.take();
        let id = self.id.take();
        let invoice_prefix = self.invoice_prefix.take();
        let livemode = self.livemode.take();
        let metadata = self.metadata.take();
        let name = self.name.take();
        let next_invoice_sequence = self.next_invoice_sequence.take();
        let phone = self.phone.take();
        let shipping = self.shipping.take();
        Some(
            Customer {
                address: address?,
                balance: balance?,
                created: created?,
                currency: currency?,
                delinquent: delinquent?,
                description: description?,
                email: email?,
                id: id?,
                invoice_prefix: invoice_prefix?,
                livemode: livemode?,
                metadata: metadata?,
                name: name?,
                next_invoice_sequence: next_invoice_sequence?,
                phone: phone?,
                shipping: shipping?,
            },
        )
    }
}

impl Customer {
    /// What an object decodes to: every field is read from the last entry of its name,
    /// entries of other names are passed over, and one field that does not read fails
    /// the whole.
    pub open spec fn decode_object(entries: ObjectView) -> Option<CustomerView> {
        CustomerBuilderView::read(entries).finish()
    }

    /// What a value decodes to: nothing, unless it is an object.
    pub open spec fn decode(value: JsonView) -> Option<CustomerView> {
        match value {
            JsonView::Object(entries) => Self::decode_object(entries),
            _ => None,
        }
    }

    /// Decodes an object.
    pub fn from_object(o: &JsonObject) -> (r: Option<Self>)
        ensures
            r.deep_view() == Self::decode_object(o@),
    {
        let mut b = CustomerBuilder::deser_default();
        b.address = Some(o.opt_nested("address")?);
        b.balance = Some(o.opt_whole("balance")?);
        b.created = Some(o.opt_whole("created")?);
        b.currency = Some(o.opt_text("currency")?);
        b.delinquent = Some(o.opt_flag("delinquent")?);
        b.description = Some(o.opt_text("description")?);
        b.email = Some(o.opt_text("email")?);
        b.id = Some(o.text("id")?);
        b.invoice_prefix = Some(o.opt_text("invoice_prefix")?);
        b.livemode = Some(o.opt_flag("livemode")?);
        b.metadata = Some(o.opt_nested("metadata")?);
        b.name = Some(o.opt_text("name")?);
        b.next_invoice_sequence = Some(o.opt_whole("next_invoice_sequence")?);
        b.phone = Some(o.opt_text("phone")?);
        b.shipping = Some(o.opt_nested("shipping")?);
        b.take_out()
    }

    /// Decodes a value. Anything but an object is refused.
    pub fn from_value(v: JsonValue) -> (r: Option<Self>)
        ensures
            r.deep_view() == Self::decode(v@),
    {
        match v {
            JsonValue::Object(o) => {
                proof {
                    JsonValue::lemma_object_view(o);
                }
                Self::from_object(&o)
            },
            _ => None,
        }
    }
}

/// What is left of a customer that was deleted.
#[derive(Debug, PartialEq, Eq)]
pub struct DeletedCustomer {
    /// Always true for a deleted object
    pub deleted: bool,
    /// Unique identifier for the object.
    pub id: String,
}

/// What a [`DeletedCustomer`] stands for.
pub struct DeletedCustomerView {
    pub deleted: bool,
    pub id: Seq<char>,
}

impl View for DeletedCustomer {
    type V = DeletedCustomerView;

    open spec fn view(&self) -> DeletedCustomerView {
        DeletedCustomerView {
            deleted: self.deleted,
            id: self.id.deep_view(),
        }
    }
}

impl DeepView for DeletedCustomer {
    type V = DeletedCustomerView;

    open spec fn deep_view(&self) -> DeletedCustomerView {
        self@
    }
}

/// The fields of the value while it is being read: each one is `None` until it has been
/// read, and an optional one starts out as read and unset.
#[derive(Debug, PartialEq, Eq)]
pub struct DeletedCustomerBuilder {
    pub deleted: Option<bool>,
    pub id: Option<String>,
}

/// What a [`DeletedCustomerBuilder`] stands for.
pub struct DeletedCustomerBuilderView {
    pub deleted: Option<bool>,
    pub id: Option<Seq<char>>,
}

impl View for DeletedCustomerBuilder {
    type V = DeletedCustomerBuilderView;

    open spec fn view(&self) -> DeletedCustomerBuilderView {
        DeletedCustomerBuilderView {
            deleted: self.deleted,
            id: self.id.deep_view(),
        }
    }
}

impl DeletedCustomerBuilderView {
    /// Before anything was read: an optional field is unset, a required one is missing.
    pub open spec fn unread() -> DeletedCustomerBuilderView {
        DeletedCustomerBuilderView {
            deleted: None,
            id: None,
        }
    }

    /// After the value was taken out: nothing is left.
    pub open spec fn taken() -> DeletedCustomerBuilderView {
        DeletedCustomerBuilderView {
            deleted: None,
            id: None,
        }
    }

    /// Each field as the entries of an object give it: `None` where the entry of its
    /// name does not read as the field's type.
    pub open spec fn read(entries: ObjectView) -> DeletedCustomerBuilderView {
        DeletedCustomerBuilderView {
            deleted: req_true(field(entries, "deleted"@)),
            id: req_text(field(entries, "id"@)),
        }
    }

    /// Whether an entry can be taken: an entry of a name that a field has must read as
    /// the type of that field.
    pub open spec fn accepts(self, name: Seq<char>, value: JsonView) -> bool {
        &&& name == "deleted"@ ==> req_true(Some(value)) is Some
        &&& name == "id"@ ==> req_text(Some(value)) is Some
    }

    /// The fields after an entry was taken: the field of that name holds what the
    /// value reads as, the others are as before.
    pub open spec fn with(self, name: Seq<char>, value: JsonView) -> DeletedCustomerBuilderView {
        DeletedCustomerBuilderView {
            deleted: if name == "deleted"@ {
                req_true(Some(value))
            } else {
                self.deleted
            },
            id: if name == "id"@ {
                req_text(Some(value))
            } else {
                self.id
            },
        }
    }

    /// The fields after the entries were taken one by one, in their order; nothing, if
    /// one of them could not be taken.
    pub open spec fn fed(self, entries: ObjectView) -> Option<DeletedCustomerBuilderView>
        decreases entries.len(),
    {
        if entries.len() == 0 {
            Some(self)
        } else {
            match self.fed(entries.drop_last()) {
                Some(b) => if b.accepts(entries.last().0, entries.last().1) {
                    Some(b.with(entries.last().0, entries.last().1))
                } else {
                    None
                },
                None => None,
            }
        }
    }

    /// How the field names are told apart.
    proof fn lemma_field_names()
        ensures
            "deleted"@.len() == 7,
            "id"@.len() == 2,
    {
        reveal_strlit("deleted");
        reveal_strlit("id");
    }

    /// Taking the entries of an object one by one comes to the same as reading each
    /// field from the last entry of its name.
    pub proof fn lemma_fed_is_read(entries: ObjectView)
        requires
            Self::unread().fed(entries) is Some,
        ensures
            Self::unread().fed(entries) == Some(Self::read(entries)),
        decreases entries.len(),
    {
        if entries.len() > 0 {
            let front = entries.drop_last();
            let last = entries.last();
            Self::lemma_fed_is_read(front);
            let after = Self::read(front).with(last.0, last.1);
            assert(Self::unread().fed(entries) == Some(after));
            assert(after.deleted == Self::read(entries).deleted);
            assert(after.id == Self::read(entries).id);
        }
    }

    /// Whether every field has been read.
    pub open spec fn complete(self) -> bool {
        &&& self.deleted is Some
        &&& self.id is Some
    }

    /// The value that the fields make, once every one of them has been read.
    pub open spec fn finish(self) -> Option<DeletedCustomerView> {
        if self.complete() {
            Some(
                DeletedCustomerView {
                    deleted: self.deleted->0,
                    id: self.id->0,
                },
            )
        } else {
            None
        }
    }
}

impl DeletedCustomerBuilder {
    /// The builder before anything was read.
    pub fn deser_default() -> (r: Self)
        ensures
            r@ == DeletedCustomerBuilderView::unread(),
    {
        Self {
            deleted: None,
            id: None,
        }
    }

    /// Takes one entry: the field of that name is read from the value, and an entry of
    /// a name that no field has is passed over. A value that does not read as the type
    /// of its field is refused, and the builder stays as it was.
    pub fn key(&mut self, k: &str, v: &JsonValue) -> (accepted: bool)
        ensures
            accepted == old(self)@.accepts(k@, v@),
            final(self)@ == if accepted {
                old(self)@.with(k@, v@)
            } else {
                old(self)@
            },
    {
        proof {
            DeletedCustomerBuilderView::lemma_field_names();
        }
        if str_eq(k, "deleted") {
            match v.truth() {
                Some(x) => {
                    self.deleted = Some(x);
                    true
                },
                None => false,
            }
        } else if str_eq(k, "id") {
            match v.text() {
                Some(x) => {
                    self.id = Some(x);
                    true
                },
                None => false,
            }
        } else {
            true
        }
    }

    /// Takes the value out, if every field has been read. The builder is left empty
    /// either way.
    pub fn take_out(&mut self) -> (r: Option<DeletedCustomer>)
        ensures
            r.deep_view() == old(self)@.finish(),
            final(self)@ == DeletedCustomerBuilderView::taken(),
    {
        let deleted = self.deleted.take();
        let id = self.id.take();
        Some(
            DeletedCustomer {
                deleted: deleted?,
                id: id?,
            },
        )
    }
}

impl DeletedCustomer {
    /// What an object decodes to: every field is read from the last entry of its name,
    /// entries of other names are passed over, and one field that does not read fails
    /// the whole.
    pub open spec fn decode_object(entries: ObjectView) -> Option<DeletedCustomerView> {
        DeletedCustomerBuilderView::read(entries).finish()
    }

    /// What a value decodes to: nothing, unless it is an object.
    pub open spec fn decode(value: JsonView) -> Option<DeletedCustomerView> {
        match value {
            JsonView::Object(entries) => Self::decode_object(entries),
            _ => None,
        }
    }

    /// Decodes an object.
    pub fn from_object(o: &JsonObject) -> (r: Option<Self>)
        ensures
            r.deep_view() == Self::decode_object(o@),
    {
        let mut b = DeletedCustomerBuilder::deser_default();
        b.deleted = Some(o.truth("deleted")?);
        b.id = Some(o.text("id")?);
        b.take_out()
    }

    /// Decodes a value. Anything but an object is refused.
    pub fn from_value(v: JsonValue) -> (r: Option<Self>)
        ensures
            r.deep_view() == Self::decode(v@),
    {
        match v {
            JsonValue::Object(o) => {
                proof {
                    JsonValue::lemma_object_view(o);
                }
                Self::from_object(&o)
            },
            _ => None,
        }
    }
}

} // verus!
