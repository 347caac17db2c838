//! What a control says: a text as it stands, or a message that the catalog of the user's
//! language holds under a key.
use vstd::prelude::*;

verus! {

/// A text to be shown.
#[derive(Debug)]
pub enum Label {
    /// This text.
    Plain(String),
    /// The message under this key.
    Message(&'static str),
    /// The message under this key, with one value in it.
    MessageWith { key: &'static str, name: &'static str, value: String },
}

/// The contents of a label.
pub ghost enum LabelView {
    Plain(Seq<char>),
    Message(Seq<char>),
    MessageWith { key: Seq<char>, name: Seq<char>, value: Seq<char> },
}

impl View for Label {
    type V = LabelView;

    open spec fn view(&self) -> LabelView {
        match self {
            Label::Plain(text) => LabelView::Plain(text@),
            Label::Message(key) => LabelView::Message(key@),
            Label::MessageWith { key, name, value } => LabelView::MessageWith {
                key: key@,
                name: name@,
                value: value@,
            },
        }
    }
}

impl Clone for Label {
    fn clone(&self) -> (r: Self)
        ensures
            r == *self,
    {
        match self {
            Label::Plain(text) => Label::Plain(text.clone()),
            Label::Message(key) => Label::Message(*key),
            Label::MessageWith { key, name, value } => Label::MessageWith {
                key: *key,
                name: *name,
                value: value.clone(),
            },
        }
    }
}

/// The contents of an optional label.
pub open spec fn opt_label(label: Option<Label>) -> Option<LabelView> {
    match label {
        Some(l) => Some(l@),
        None => None,
    }
}

} // verus!
