//! What a music widget puts on the bar: a text and up to three buttons.
//!
//! These types hold what is to be drawn. Drawing is left to the bar.

use vstd::prelude::*;

verus! {

/// The mood in which an element is drawn.
#[derive(Debug, Clone, Copy, PartialEq, Eq, Structural)]
pub enum State {
    Idle,
    Info,
    Good,
    Warning,
    Critical,
}

/// A length of time: whole seconds and the nanoseconds beyond them.
#[derive(Debug, Default, Clone, Copy, PartialEq, Eq, Structural)]
pub struct Delay {
    pub secs: u64,
    pub nanos: u32,
}

/// What a text element shows.
pub struct TextView {
    pub text: Seq<char>,
    pub icon: Seq<char>,
    pub state: State,
}

/// What a button shows, and the name under which clicks on it are reported.
pub struct ButtonView {
    pub id: Seq<char>,
    pub icon: Seq<char>,
    pub state: State,
}

/// A text with an icon in front of it.
#[derive(Debug)]
pub struct TextWidget {
    text: String,
    icon: String,
    state: State,
}

/// A button: an icon that can be clicked.
#[derive(Debug)]
pub struct ButtonWidget {
    id: String,
    icon: String,
    state: State,
}

/// One element of a widget, as handed to the bar.
#[derive(Debug)]
pub enum Element<'a> {
    Text(&'a TextWidget),
    Button(&'a ButtonWidget),
}

impl View for TextWidget {
    type V = TextView;

    closed spec fn view(&self) -> TextView {
        TextView { text: self.text@, icon: self.icon@, state: self.state }
    }
}

impl View for ButtonWidget {
    type V = ButtonView;

    closed spec fn view(&self) -> ButtonView {
        ButtonView { id: self.id@, icon: self.icon@, state: self.state }
    }
}

impl Delay {
    /// A delay of `secs` whole seconds.
    pub fn from_secs(secs: u64) -> (delay: Delay)
        ensures
            delay == (Delay { secs, nanos: 0 }),
    {
        Delay { secs, nanos: 0 }
    }

    /// A delay of `millis` milliseconds.
    pub fn from_millis(millis: u64) -> (delay: Delay)
        ensures
            delay.secs == millis / 1000,
            delay.nanos == (millis % 1000) * 1_000_000,
    {
        Delay { secs: millis / 1000, nanos: ((millis % 1000) as u32) * 1_000_000 }
    }
}

impl TextWidget {
    /// An empty text without an icon.
    pub fn new() -> (widget: TextWidget)
        ensures
            widget@ == (TextView { text: Seq::empty(), icon: Seq::empty(), state: State::Idle }),
    {
        TextWidget { text: String::new(), icon: String::new(), state: State::Idle }
    }

    /// The same element with the icon called `name`.
    pub fn with_icon(self, name: &str) -> (widget: TextWidget)
        ensures
            widget@ == (TextView { icon: name@, ..self@ }),
    {
        TextWidget { text: self.text, icon: String::from_str(name), state: self.state }
    }

    /// The same element in another mood.
    pub fn with_state(self, state: State) -> (widget: TextWidget)
        ensures
            widget@ == (TextView { state: state, ..self@ }),
    {
        TextWidget { text: self.text, icon: self.icon, state }
    }

    /// The same element with the text `content`.
    pub fn with_text(self, content: String) -> (widget: TextWidget)
        ensures
            widget@ == (TextView { text: content@, ..self@ }),
    {
        TextWidget { text: content, icon: self.icon, state: self.state }
    }

    /// Replaces the text.
    pub fn set_text(&mut self, content: String)
        ensures
            final(self)@ == (TextView { text: content@, ..old(self)@ }),
    {
        self.text = content;
    }

    /// Replaces the icon by the one called `name`; the empty name shows none.
    pub fn set_icon(&mut self, name: &str)
        ensures
            final(self)@ == (TextView { icon: name@, ..old(self)@ }),
    {
        self.icon = String::from_str(name);
    }

    /// The text that is shown.
    pub fn text(&self) -> (out: &str)
        ensures
            out@ == self@.text,
    {
        self.text.as_str()
    }

    /// The name of the icon that is shown.
    pub fn icon(&self) -> (out: &str)
        ensures
            out@ == self@.icon,
    {
        self.icon.as_str()
    }

    /// The mood in which the element is drawn.
    pub fn state(&self) -> (out: State)
        ensures
            out == self@.state,
    {
        self.state
    }
}

impl ButtonWidget {
    /// A button without an icon whose clicks are reported under `id`.
    pub fn new(id: &str) -> (widget: ButtonWidget)
        ensures
            widget@ == (ButtonView { id: id@, icon: Seq::empty(), state: State::Idle }),
    {
        ButtonWidget { id: String::from_str(id), icon: String::new(), state: State::Idle }
    }

    /// The same button with the icon called `name`.
    pub fn with_icon(self, name: &str) -> (widget: ButtonWidget)
        ensures
            widget@ == (ButtonView { icon: name@, ..self@ }),
    {
        ButtonWidget { id: self.id, icon: String::from_str(name), state: self.state }
    }

    /// The same button in another mood.
    pub fn with_state(self, state: State) -> (widget: ButtonWidget)
        ensures
            widget@ == (ButtonView { state: state, ..self@ }),
    {
        ButtonWidget { id: self.id, icon: self.icon, state }
    }

    /// A second button that shows the same and is reported under the same
    /// name.
    pub fn duplicate(&self) -> (widget: ButtonWidget)
        ensures
            widget@ == self@,
    {
        ButtonWidget {
            id: String::from_str(self.id.as_str()),
            icon: String::from_str(self.icon.as_str()),
            state: self.state,
        }
    }

    /// Replaces the icon by the one called `name`.
    pub fn set_icon(&mut self, name: &str)
        ensures
            final(self)@ == (ButtonView { icon: name@, ..old(self)@ }),
    {
        self.icon = String::from_str(name);
    }

    /// The name under which clicks on this button are reported.
    pub fn id(&self) -> (out: &str)
        ensures
            out@ == self@.id,
    {
        self.id.as_str()
    }

    /// The name of the icon that is shown.
    pub fn icon(&self) -> (out: &str)
        ensures
            out@ == self@.icon,
    {
        self.icon.as_str()
    }

    /// The mood in which the button is drawn.
    pub fn state(&self) -> (out: State)
        ensures
            out == self@.state,
    {
        self.state
    }
}

} // verus!
