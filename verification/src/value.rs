//! The loosely typed values in which a player describes itself.
//!
//! A reply from the bus is a tree: texts, sequences of further values, and
//! containers that wrap exactly one value of any type. Everything else a
//! player may send (numbers, flags) is of no interest here and is kept only
//! as a placeholder.

use vstd::prelude::*;

verus! {

/// One node of a reply.
#[derive(Debug)]
pub enum Value {
    /// A text.
    Str(String),
    /// A sequence of values; a mapping is the sequence of its keys and values
    /// in turn: a key, its value, the next key, its value.
    List(Vec<Value>),
    /// A container that holds one value of any type.
    Variant(Box<Value>),
    /// Anything that is neither text nor made of further values.
    Other,
}

impl Value {
    /// The text that this value decodes to, if it does. A container decodes
    /// to what its content decodes to.
    pub open spec fn text(self) -> Option<Seq<char>>
        decreases self,
    {
        match self {
            Value::Str(s) => Some(s@),
            Value::Variant(inner) => inner.text(),
            _ => None,
        }
    }

    /// The values that this value is made of, if it can be walked. A
    /// container is walked as the one value it holds.
    pub open spec fn items(self) -> Option<Seq<Value>> {
        match self {
            Value::List(items) => Some(items@),
            Value::Variant(inner) => Some(seq![*inner]),
            _ => None,
        }
    }

    /// The first of the values that this value is made of, if there is one.
    pub open spec fn first(self) -> Option<Value> {
        match self.items() {
            Some(items) => {
                if items.len() > 0 {
                    Some(items[0])
                } else {
                    None
                }
            },
            None => None,
        }
    }

    /// Decodes this value as a text.
    pub fn as_str(&self) -> (out: Option<&str>)
        ensures
            match out {
                Some(s) => self.text() == Some(s@),
                None => self.text() is None,
            },
        decreases self,
    {
        match self {
            Value::Str(s) => Some(s.as_str()),
            Value::Variant(inner) => inner.as_str(),
            _ => None,
        }
    }

    /// The number of values that this value is made of, where it can be
    /// walked.
    pub fn count(&self) -> (out: Option<usize>)
        ensures
            match out {
                Some(n) => self.items() is Some && self.items().unwrap().len() == n,
                None => self.items() is None,
            },
    {
        match self {
            Value::List(items) => Some(items.len()),
            Value::Variant(_) => Some(1),
            _ => None,
        }
    }

    /// The value at place `i` among those that this value is made of.
    pub fn item(&self, i: usize) -> (out: Option<&Value>)
        ensures
            match out {
                Some(v) => self.items() is Some && i < self.items().unwrap().len()
                    && self.items().unwrap()[i as int] == *v,
                None => self.items() is None || i >= self.items().unwrap().len(),
            },
    {
        match self {
            Value::List(items) => {
                if i < items.len() {
                    Some(&items[i])
                } else {
                    None
                }
            },
            Value::Variant(inner) => {
                if i == 0 {
                    Some(&**inner)
                } else {
                    None
                }
            },
            _ => None,
        }
    }

    /// The first of the values that this value is made of.
    pub fn head(&self) -> (out: Option<&Value>)
        ensures
            match out {
                Some(v) => self.first() == Some(*v),
                None => self.first() is None,
            },
    {
        self.item(0)
    }
}

} // verus!
