//! The event classes of `kqueue`, and what is kept for each of them.
use vstd::prelude::*;
use vstd::string::*;

use crate::text::append_hex;
#[allow(unused_imports)]
use crate::text::hex_text;

verus! {

/// The class of an object that can be read.
pub const EVFILT_READ: i16 = -1;

/// The class of an object that can be written.
pub const EVFILT_WRITE: i16 = -2;

/// An event class, by its number in a `kevent`.
#[derive(Clone, Copy, PartialEq, Eq, Hash, Debug, Structural)]
pub struct Filter(pub i16);

impl Filter {
    /// Whether this is one of the classes that a registration keeps a state for.
    pub open spec fn valid(self) -> bool {
        self == Filter(EVFILT_READ) || self == Filter(EVFILT_WRITE)
    }

    /// The text that names the class: another number is written with its sixteen bits.
    pub open spec fn spec_text(self) -> Seq<char> {
        if self == Filter(EVFILT_READ) {
            "Filter(Read)"@
        } else if self == Filter(EVFILT_WRITE) {
            "Filter(Write)"@
        } else {
            "Filter("@ + hex_text(self.0 as u16 as u32) + ")"@
        }
    }

    /// Names the class.
    pub fn text(&self) -> (text: String)
        ensures
            text@ == self.spec_text(),
    {
        if *self == Filter(EVFILT_READ) {
            return String::from_str("Filter(Read)");
        }
        if *self == Filter(EVFILT_WRITE) {
            return String::from_str("Filter(Write)");
        }
        let mut text: String = String::from_str("Filter(");
        append_hex(&mut text, self.0 as u16 as u32);
        text.append(")");
        text
    }
}

/// One value for each event class.
#[derive(Debug)]
pub struct FilterCollection<T> {
    pub read: T,
    pub write: T,
}

impl<T> FilterCollection<T> {
    /// The value for a class.
    pub open spec fn at(self, filter: Filter) -> T {
        if filter == Filter(EVFILT_READ) {
            self.read
        } else {
            self.write
        }
    }

    /// The collection with another value for a class.
    pub open spec fn with(self, filter: Filter, value: T) -> FilterCollection<T> {
        if filter == Filter(EVFILT_READ) {
            FilterCollection { read: value, write: self.write }
        } else {
            FilterCollection { read: self.read, write: value }
        }
    }

    /// The value for a class that a value is kept for.
    pub fn index(&self, index: Filter) -> (value: &T)
        requires
            index.valid(),
        ensures
            *value == self.at(index),
    {
        if index == Filter(EVFILT_READ) {
            &self.read
        } else {
            &self.write
        }
    }

    /// The place of the value for a class that a value is kept for.
    pub fn index_mut(&mut self, index: Filter) -> (value: &mut T)
        requires
            index.valid(),
        ensures
            *value == old(self).at(index),
            *final(self) == old(self).with(index, *final(value)),
    {
        if index == Filter(EVFILT_READ) {
            &mut self.read
        } else {
            &mut self.write
        }
    }
}

/// Each class has its value, and another value for one class leaves the other alone.
pub proof fn law_classes_are_kept_apart<T>(
    collection: FilterCollection<T>,
    filter: Filter,
    other: Filter,
    value: T,
)
    requires
        filter.0 == -1 || filter.0 == -2,
        other.0 == -1 || other.0 == -2,
    ensures
        filter.valid(),
        collection.with(filter, value).at(filter) == value,
        filter != other ==> collection.with(filter, value).at(other) == collection.at(other),
        filter.0 == -1 ==> collection.at(filter) == collection.read,
        filter.0 == -2 ==> collection.at(filter) == collection.write,
{
}

/// A class is shown by its name where it has one, and by the sixteen bits of its number otherwise.
pub proof fn law_text_of_a_class(filter: Filter)
    ensures
        filter.0 == -1 ==> filter.spec_text() == "Filter(Read)"@,
        filter.0 == -2 ==> filter.spec_text() == "Filter(Write)"@,
        filter.0 != -1 && filter.0 != -2 ==> filter.spec_text() == "Filter("@ + hex_text(
            filter.0 as u16 as u32,
        ) + ")"@,
{
}

} // verus!
