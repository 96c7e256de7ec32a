//! The status of a financial account.
use crate::json::{field, opt_nested, JsonObject, JsonValue, JsonView, ObjectView};
use crate::text::str_eq;
use vstd::prelude::*;

verus! {

/// Why a financial account has the status that it has. The details of a closure are kept
/// as the object that came, unread.
#[derive(Debug, PartialEq, Eq)]
pub struct TreasuryFinancialAccountsResourceStatusDetails {
    /// Details related to the closure of this FinancialAccount
    pub closed: Option<JsonObject>,
}

/// What a [`TreasuryFinancialAccountsResourceStatusDetails`] stands for.
pub struct TreasuryFinancialAccountsResourceStatusDetailsView {
    pub closed: Option<ObjectView>,
}

impl View for TreasuryFinancialAccountsResourceStatusDetails {
    type V = TreasuryFinancialAccountsResourceStatusDetailsView;

    open spec fn view(&self) -> TreasuryFinancialAccountsResourceStatusDetailsView {
        TreasuryFinancialAccountsResourceStatusDetailsView {
            closed: self.closed.deep_view(),
        }
    }
}

impl DeepView for TreasuryFinancialAccountsResourceStatusDetails {
    type V = TreasuryFinancialAccountsResourceStatusDetailsView;

    open spec fn deep_view(&self) -> TreasuryFinancialAccountsResourceStatusDetailsView {
        self@
    }
}

/// The fields of the value while it is being read: each one is `None` until it has been
/// read, and an optional one starts out as read and unset.
#[derive(Debug, PartialEq, Eq)]
pub struct TreasuryFinancialAccountsResourceStatusDetailsBuilder {
    pub closed: Option<Option<JsonObject>>,
}

/// What a [`TreasuryFinancialAccountsResourceStatusDetailsBuilder`] stands for.
pub struct TreasuryFinancialAccountsResourceStatusDetailsBuilderView {
    pub closed: Option<Option<ObjectView>>,
}

impl View for TreasuryFinancialAccountsResourceStatusDetailsBuilder {
    type V = TreasuryFinancialAccountsResourceStatusDetailsBuilderView;

    open spec fn view(&self) -> TreasuryFinancialAccountsResourceStatusDetailsBuilderView {
        TreasuryFinancialAccountsResourceStatusDetailsBuilderView {
            closed: self.closed.deep_view(),
        }
    }
}

impl TreasuryFinancialAccountsResourceStatusDetailsBuilderView {
    /// Before anything was read: an optional field is unset, a required one is missing.
    pub open spec fn unread() -> TreasuryFinancialAccountsResourceStatusDetailsBuilderView {
        TreasuryFinancialAccountsResourceStatusDetailsBuilderView {
            closed: Some(None),
        }
    }

    /// After the value was taken out: nothing is left.
    pub open spec fn taken() -> TreasuryFinancialAccountsResourceStatusDetailsBuilderView {
        TreasuryFinancialAccountsResourceStatusDetailsBuilderView {
            closed: None,
        }
    }

    /// Each field as the entries of an object give it: `None` where the entry of its
    /// name does not read as the field's type.
    pub open spec fn read(
        entries: ObjectView,
    ) -> TreasuryFinancialAccountsResourceStatusDetailsBuilderView {
        TreasuryFinancialAccountsResourceStatusDetailsBuilderView {
            closed: opt_nested(field(entries, "closed"@)),
        }
    }

    /// Whether an entry can be taken: an entry of a name that a field has must read as
    /// the type of that field.
    pub open spec fn accepts(self, name: Seq<char>, value: JsonView) -> bool {
        &&& name == "closed"@ ==> opt_nested(Some(value)) is Some
    }

    /// The fields after an entry was taken: the field of that name holds what the
    /// value reads as, the others are as before.
    pub open spec fn with(
        self,
        name: Seq<char>,
        value: JsonView,
    ) -> TreasuryFinancialAccountsResourceStatusDetailsBuilderView {
        TreasuryFinancialAccountsResourceStatusDetailsBuilderView {
            closed: if name == "closed"@ {
                opt_nested(Some(value))
            } else {
                self.closed
            },
        }
    }

    /// The fields after the entries were taken one by one, in their order; nothing, if
    /// one of them could not be taken.
    pub open spec fn fed(
        self,
        entries: ObjectView,
    ) -> Option<TreasuryFinancialAccountsResourceStatusDetailsBuilderView>
        decreases entries.len(),
    {
        if entries.len() == 0 {
            Some(self)
        } else {
            match self.fed(entries.drop_last()) {
                Some(b) => if b.accepts(entries.last().0, entries.last().1) {
                    Some(b.with(entries.last().0, entries.last().1))
                } else {
                    None
                },
                None => None,
            }
        }
    }

    /// Taking the entries of an object one by one comes to the same as reading each
    /// field from the last entry of its name.
    pub proof fn lemma_fed_is_read(entries: ObjectView)
        requires
            Self::unread().fed(entries) is Some,
        ensures
            Self::unread().fed(entries) == Some(Self::read(entries)),
        decreases entries.len(),
    {
        if entries.len() > 0 {
            let front = entries.drop_last();
            let last = entries.last();
            Self::lemma_fed_is_read(front);
            let after = Self::read(front).with(last.0, last.1);
            assert(Self::unread().fed(entries) == Some(after));
            assert(after.closed == Self::read(entries).closed);
        }
    }

    /// Whether every field has been read.
    pub open spec fn complete(self) -> bool {
        &&& self.closed is Some
    }

    /// The value that the fields make, once every one of them has been read.
    pub open spec fn finish(self) -> Option<TreasuryFinancialAccountsResourceStatusDetailsView> {
        if self.complete() {
            Some(
                TreasuryFinancialAccountsResourceStatusDetailsView {
                    closed: self.closed->0,
                },
            )
        } else {
            None
        }
    }
}

impl TreasuryFinancialAccountsResourceStatusDetailsBuilder {
    /// The builder before anything was read.
    pub fn deser_default() -> (r: Self)
        ensures
            r@ == TreasuryFinancialAccountsResourceStatusDetailsBuilderView::unread(),
    {
        Self {
            closed: Some(None),
        }
    }

    /// Takes one entry: the field of that name is read from the value, and an entry of
    /// a name that no field has is passed over. A value that does not read as the type
    /// of its field is refused, and the builder stays as it was.
    pub fn key(&mut self, k: &str, v: &JsonValue) -> (accepted: bool)
        ensures
            accepted == old(self)@.accepts(k@, v@),
            final(self)@ == if accepted {
                old(self)@.with(k@, v@)
            } else {
                old(self)@
            },
    {
        if str_eq(k, "closed") {
            match v.opt_nested() {
                Some(x) => {
                    self.closed = Some(x);
                    true
                },
                None => false,
            }
        } else {
            true
        }
    }

    /// Takes the value out, if every field has been read. The builder is left empty
    /// either way.
    pub fn take_out(&mut self) -> (r: Option<TreasuryFinancialAccountsResourceStatusDetails>)
        ensures
            r.deep_view() == old(self)@.finish(),
            final(self)@ == TreasuryFinancialAccountsResourceStatusDetailsBuilderView::taken(),
    {
        let closed = self.closed.take();
        Some(
            TreasuryFinancialAccountsResourceStatusDetails {
                closed: closed?,
            },
        )
    }
}

impl TreasuryFinancialAccountsResourceStatusDetails {
    /// What an object decodes to: every field is read from the last entry of its name,
    /// entries of other names are passed over, and one field that does not read fails
    /// the whole.
    pub open spec fn decode_object(
        entries: ObjectView,
    ) -> Option<TreasuryFinancialAccountsResourceStatusDetailsView> {
        TreasuryFinancialAccountsResourceStatusDetailsBuilderView::read(entries).finish()
    }

    /// What a value decodes to: nothing, unless it is an object.
    pub open spec fn decode(
        value: JsonView,
    ) -> Option<TreasuryFinancialAccountsResourceStatusDetailsView> {
        match value {
            JsonView::Object(entries) => Self::decode_object(entries),
            _ => None,
        }
    }

    /// Decodes an object.
    pub fn from_object(o: &JsonObject) -> (r: Option<Self>)
        ensures
            r.deep_view() == Self::decode_object(o@),
    {
        let mut b = TreasuryFinancialAccountsResourceStatusDetailsBuilder::deser_default();
        b.closed = Some(o.opt_nested("closed")?);
        b.take_out()
    }

    /// Decodes a value. Anything but an object is refused.
    pub fn from_value(v: JsonValue) -> (r: Option<Self>)
        ensures
            r.deep_view() == Self::decode(v@),
    {
        match v {
            JsonValue::Object(o) => {
                proof {
                    JsonValue::lemma_object_view(o);
                }
                Self::from_object(&o)
            },
            _ => None,
        }
    }
}

} // verus!
