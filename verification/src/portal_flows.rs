//! What the customer portal shows once a flow has been completed.
use crate::json::{field, opt_text, JsonObject, JsonValue, JsonView, ObjectView};
use crate::text::str_eq;
use vstd::prelude::*;

verus! {

/// The confirmation that the portal shows once a flow has been completed.
#[derive(Debug, PartialEq, Eq)]
pub struct PortalFlowsAfterCompletionHostedConfirmation {
    /// A custom message to display to the customer after the flow is completed.
    pub custom_message: Option<String>,
}

/// What a [`PortalFlowsAfterCompletionHostedConfirmation`] stands for.
pub struct PortalFlowsAfterCompletionHostedConfirmationView {
    pub custom_message: Option<Seq<char>>,
}

impl View for PortalFlowsAfterCompletionHostedConfirmation {
    type V = PortalFlowsAfterCompletionHostedConfirmationView;

    open spec fn view(&self) -> PortalFlowsAfterCompletionHostedConfirmationView {
        PortalFlowsAfterCompletionHostedConfirmationView {
            custom_message: self.custom_message.deep_view(),
        }
    }
}

impl DeepView for PortalFlowsAfterCompletionHostedConfirmation {
    type V = PortalFlowsAfterCompletionHostedConfirmationView;

    open spec fn deep_view(&self) -> PortalFlowsAfterCompletionHostedConfirmationView {
        self@
    }
}

/// The fields of the value while it is being read: each one is `None` until it has been
/// read, and an optional one starts out as read and unset.
#[derive(Debug, PartialEq, Eq)]
pub struct PortalFlowsAfterCompletionHostedConfirmationBuilder {
    pub custom_message: Option<Option<String>>,
}

/// What a [`PortalFlowsAfterCompletionHostedConfirmationBuilder`] stands for.
pub struct PortalFlowsAfterCompletionHostedConfirmationBuilderView {
    pub custom_message: Option<Option<Seq<char>>>,
}

impl View for PortalFlowsAfterCompletionHostedConfirmationBuilder {
    type V = PortalFlowsAfterCompletionHostedConfirmationBuilderView;

    open spec fn view(&self) -> PortalFlowsAfterCompletionHostedConfirmationBuilderView {
        PortalFlowsAfterCompletionHostedConfirmationBuilderView {
            custom_message: self.custom_message.deep_view(),
        }
    }
}

impl PortalFlowsAfterCompletionHostedConfirmationBuilderView {
    /// Before anything was read: an optional field is unset, a required one is missing.
    pub open spec fn unread() -> PortalFlowsAfterCompletionHostedConfirmationBuilderView {
        PortalFlowsAfterCompletionHostedConfirmationBuilderView {
            custom_message: Some(None),
        }
    }

    /// After the value was taken out: nothing is left.
    pub open spec fn taken() -> PortalFlowsAfterCompletionHostedConfirmationBuilderView {
        PortalFlowsAfterCompletionHostedConfirmationBuilderView {
            custom_message: None,
        }
    }

    /// Each field as the entries of an object give it: `None` where the entry of its
    /// name does not read as the field's type.
    pub open spec fn read(
        entries: ObjectView,
    ) -> PortalFlowsAfterCompletionHostedConfirmationBuilderView {
        PortalFlowsAfterCompletionHostedConfirmationBuilderView {
            custom_message: opt_text(field(entries, "custom_message"@)),
        }
    }

    /// Whether an entry can be taken: an entry of a name that a field has must read as
    /// the type of that field.
    pub open spec fn accepts(self, name: Seq<char>, value: JsonView) -> bool {
        &&& name == "custom_message"@ ==> opt_text(Some(value)) is Some
    }

    /// The fields after an entry was taken: the field of that name holds what the
    /// value reads as, the others are as before.
    pub open spec fn with(
        self,
        name: Seq<char>,
        value: JsonView,
    ) -> PortalFlowsAfterCompletionHostedConfirmationBuilderView {
        PortalFlowsAfterCompletionHostedConfirmationBuilderView {
            custom_message: if name == "custom_message"@ {
                opt_text(Some(value))
            } else {
                self.custom_message
            },
        }
    }

    /// The fields after the entries were taken one by one, in their order; nothing, if
    /// one of them could not be taken.
    pub open spec fn fed(
        self,
        entries: ObjectView,
    ) -> Option<PortalFlowsAfterCompletionHostedConfirmationBuilderView>
        decreases entries.len(),
    {
        if entries.len() == 0 {
            Some(self)
        } else {
            match self.fed(entries.drop_last()) {
                Some(b) => if b.accepts(entries.last().0, entries.last().1) {
                    Some(b.with(entries.last().0, entries.last().1))
                } else {
                    None
                },
                None => None,
            }
        }
    }

    /// Taking the entries of an object one by one comes to the same as reading each
    /// field from the last entry of its name.
    pub proof fn lemma_fed_is_read(entries: ObjectView)
        requires
            Self::unread().fed(entries) is Some,
        ensures
            Self::unread().fed(entries) == Some(Self::read(entries)),
        decreases entries.len(),
    {
        if entries.len() > 0 {
            let front = entries.drop_last();
            let last = entries.last();
            Self::lemma_fed_is_read(front);
            let after = Self::read(front).with(last.0, last.1);
            assert(Self::unread().fed(entries) == Some(after));
            assert(after.custom_message == Self::read(entries).custom_message);
        }
    }

    /// Whether every field has been read.
    pub open spec fn complete(self) -> bool {
        &&& self.custom_message is Some
    }

    /// The value that the fields make, once every one of them has been read.
    pub open spec fn finish(self) -> Option<PortalFlowsAfterCompletionHostedConfirmationView> {
        if self.complete() {
            Some(
                PortalFlowsAfterCompletionHostedConfirmationView {
                    custom_message: self.custom_message->0,
                },
            )
        } else {
            None
        }
    }
}

impl PortalFlowsAfterCompletionHostedConfirmationBuilder {
    /// The builder before anything was read.
    pub fn deser_default() -> (r: Self)
        ensures
            r@ == PortalFlowsAfterCompletionHostedConfirmationBuilderView::unread(),
    {
        Self {
            custom_message: Some(None),
        }
    }

    /// Takes one entry: the field of that name is read from the value, and an entry of
    /// a name that no field has is passed over. A value that does not read as the type
    /// of its field is refused, and the builder stays as it was.
    pub fn key(&mut self, k: &str, v: &JsonValue) -> (accepted: bool)
        ensures
            accepted == old(self)@.accepts(k@, v@),
            final(self)@ == if accepted {
                old(self)@.with(k@, v@)
            } else {
                old(self)@
            },
    {
        if str_eq(k, "custom_message") {
            match v.opt_text() {
                Some(x) => {
                    self.custom_message = Some(x);
                    true
                },
                None => false,
            }
        } else {
            true
        }
    }

    /// Takes the value out, if every field has been read. The builder is left empty
    /// either way.
    pub fn take_out(&mut self) -> (r: Option<PortalFlowsAfterCompletionHostedConfirmation>)
        ensures
            r.deep_view() == old(self)@.finish(),
            final(self)@ == PortalFlowsAfterCompletionHostedConfirmationBuilderView::taken(),
    {
        let custom_message = self.custom_message.take();
        Some(
            PortalFlowsAfterCompletionHostedConfirmation {
                custom_message: custom_message?,
            },
        )
    }
}

impl PortalFlowsAfterCompletionHostedConfirmation {
    /// What an object decodes to: every field is read from the last entry of its name,
    /// entries of other names are passed over, and one field that does not read fails
    /// the whole.
    pub open spec fn decode_object(
        entries: ObjectView,
    ) -> Option<PortalFlowsAfterCompletionHostedConfirmationView> {
        PortalFlowsAfterCompletionHostedConfirmationBuilderView::read(entries).finish()
    }

    /// What a value decodes to: nothing, unless it is an object.
    pub open spec fn decode(
        value: JsonView,
    ) -> Option<PortalFlowsAfterCompletionHostedConfirmationView> {
        match value {
            JsonView::Object(entries) => Self::decode_object(entries),
            _ => None,
        }
    }

    /// Decodes an object.
    pub fn from_object(o: &JsonObject) -> (r: Option<Self>)
        ensures
            r.deep_view() == Self::decode_object(o@),
    {
        let mut b = PortalFlowsAfterCompletionHostedConfirmationBuilder::deser_default();
        b.custom_message = Some(o.opt_text("custom_message")?);
        b.take_out()
    }

    /// Decodes a value. Anything but an object is refused.
    pub fn from_value(v: JsonValue) -> (r: Option<Self>)
        ensures
            r.deep_view() == Self::decode(v@),
    {
        match v {
            JsonValue::Object(o) => {
                proof {
                    JsonValue::lemma_object_view(o);
                }
                Self::from_object(&o)
            },
            _ => None,
        }
    }
}

} // verus!
