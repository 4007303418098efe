//! The line that the user edits: the text typed so far and the field that
//! it is meant for.

use crate::common::InputField;
use crate::text::{pop_char, push_char};
use vstd::prelude::*;

verus! {

/// The editor of one command line.
#[derive(Debug)]
pub struct InputHandler {
    raw_input: String,
    direction: Option<InputField>,
}

/// What an `InputHandler` is: the text typed so far, and the field that is
/// edited, `None` outside of input mode.
pub ghost struct InputModel {
    pub raw_input: Seq<char>,
    pub direction: Option<InputField>,
}

impl View for InputHandler {
    type V = InputModel;

    closed spec fn view(&self) -> InputModel {
        InputModel { raw_input: self.raw_input@, direction: self.direction }
    }
}

impl Default for InputHandler {
    /// An editor outside of input mode, with no text.
    fn default() -> (handler: Self)
        ensures
            handler@ == (InputModel { raw_input: Seq::empty(), direction: None }),
    {
        InputHandler { raw_input: String::new(), direction: None }
    }
}

impl InputHandler {
    /// Whether a field is being edited.
    pub fn is_in_input_mode(&self) -> (editing: bool)
        ensures
            editing == (self@.direction is Some),
    {
        self.direction.is_some()
    }

    /// The field that is being edited.
    pub fn current_field(&self) -> (field: Option<InputField>)
        ensures
            field == self@.direction,
    {
        self.direction
    }

    /// The text typed so far.
    pub fn curr_input(&self) -> (text: String)
        ensures
            text@ == self@.raw_input,
    {
        self.raw_input.clone()
    }

    /// Starts editing `field`, with its current value as the text.
    pub fn edit_field(&mut self, curr_value: String, field: InputField)
        ensures
            final(self)@ == (InputModel { raw_input: curr_value@, direction: Some(field) }),
    {
        self.direction = Some(field);
        self.raw_input = curr_value;
    }

    /// Appends a character to the text. Only in input mode.
    pub fn add(&mut self, c: char)
        requires
            old(self)@.direction is Some,
        ensures
            final(self)@ == (InputModel {
                raw_input: old(self)@.raw_input.push(c),
                ..old(self)@
            }),
    {
        push_char(&mut self.raw_input, c);
    }

    /// Removes the last character of the text, if there is one. Only in
    /// input mode.
    pub fn pop(&mut self)
        requires
            old(self)@.direction is Some,
        ensures
            final(self)@ == (InputModel {
                raw_input: if old(self)@.raw_input.len() > 0 {
                    old(self)@.raw_input.drop_last()
                } else {
                    old(self)@.raw_input
                },
                ..old(self)@
            }),
    {
        let _ = pop_char(&mut self.raw_input);
    }

    /// Leaves input mode and hands out the text, which is empty afterwards.
    pub fn finish(&mut self) -> (text: String)
        ensures
            text@ == old(self)@.raw_input,
            final(self)@ == (InputModel { raw_input: Seq::empty(), direction: None }),
    {
        self.direction = None;
        let mut text = String::new();
        std::mem::swap(&mut text, &mut self.raw_input);
        text
    }
}

} // verus!
