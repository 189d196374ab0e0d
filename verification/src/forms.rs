//! The text behind a form control: what an input, a text area or a select
//! element currently holds.

use vstd::prelude::*;

verus! {

/// The text of one form control. It is whatever was written to it last.
#[derive(Debug)]
pub struct TextField {
    text: String,
}

impl View for TextField {
    type V = Seq<char>;

    closed spec fn view(&self) -> Seq<char> {
        self.text@
    }
}

impl Clone for TextField {
    fn clone(&self) -> (copy: Self)
        ensures
            copy@ == self@,
    {
        TextField { text: self.text.clone() }
    }
}

impl TextField {
    /// A field that starts out holding `initial`.
    pub fn new(initial: String) -> (field: Self)
        ensures
            field@ == initial@,
    {
        TextField { text: initial }
    }

    /// The text the field holds.
    pub fn text(&self) -> (text: &str)
        ensures
            text@ == self@,
    {
        self.text.as_str()
    }

    /// An input event: the field now holds `text`, whatever it held before.
    pub fn set_text(&mut self, text: String)
        ensures
            final(self)@ == text@,
    {
        self.text = text;
    }

    /// Whether the field holds exactly `option`: the test by which an option
    /// of a select element shows as selected.
    pub fn holds(&self, option: &str) -> (selected: bool)
        ensures
            selected == (self@ == option@),
    {
        self.text == option.to_owned()
    }
}

} // verus!
