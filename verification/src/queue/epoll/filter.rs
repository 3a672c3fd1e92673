//! The event classes of `epoll`, and what is kept for each of them.
use vstd::prelude::*;
use vstd::string::*;

use crate::text::append_hex;
#[allow(unused_imports)]
use crate::text::hex_text;

verus! {

/// The bit of an object that can be read.
pub const EPOLLIN: u32 = 0x1;

/// The bit of an object that can be written.
pub const EPOLLOUT: u32 = 0x4;

/// An event class, by its bit in an `epoll` event mask.
#[derive(Clone, Copy, PartialEq, Eq, Hash, Debug, Structural)]
pub struct Filter(pub u32);

impl Filter {
    /// Whether this is one of the classes that a registration keeps a state for.
    pub open spec fn valid(self) -> bool {
        self == Filter(EPOLLIN) || self == Filter(EPOLLOUT)
    }

    /// The text that names the class.
    pub open spec fn spec_text(self) -> Seq<char> {
        if self == Filter(EPOLLIN) {
            "Filter::READ"@
        } else if self == Filter(EPOLLOUT) {
            "Filter::WRITE"@
        } else {
            "Filter("@ + hex_text(self.0) + ")"@
        }
    }

    /// Names the class.
    pub fn text(&self) -> (text: String)
        ensures
            text@ == self.spec_text(),
    {
        if *self == Filter(EPOLLIN) {
            return String::from_str("Filter::READ");
        }
        if *self == Filter(EPOLLOUT) {
            return String::from_str("Filter::WRITE");
        }
        let mut text: String = String::from_str("Filter(");
        append_hex(&mut text, self.0);
        text.append(")");
        text
    }
}

/// A set of event classes, as an event mask.
#[derive(Clone, Copy, PartialEq, Eq, Hash, Debug, Structural)]
pub struct FilterSet(pub u32);

impl FilterSet {
    /// Whether the set holds a class.
    pub open spec fn has_filter(self, filter: Filter) -> bool {
        self.0 & filter.0 != 0
    }

    /// The known classes that the set holds, reading before writing.
    pub open spec fn filters(self) -> Seq<Filter> {
        (if self.has_filter(Filter(EPOLLIN)) {
            seq![Filter(EPOLLIN)]
        } else {
            Seq::empty()
        }) + (if self.has_filter(Filter(EPOLLOUT)) {
            seq![Filter(EPOLLOUT)]
        } else {
            Seq::empty()
        })
    }

    /// The bits of the set that belong to no known class.
    pub open spec fn unknown(self) -> u32 {
        self.0 & !0x5u32
    }

    /// The names of what the set holds, with a comma after each but the last.
    pub open spec fn spec_names(self) -> Seq<char> {
        let read = if self.has_filter(Filter(EPOLLIN)) {
            "READ"@
        } else {
            Seq::empty()
        };
        let write = if !self.has_filter(Filter(EPOLLOUT)) {
            read
        } else if self.has_filter(Filter(EPOLLIN)) {
            read + ", "@ + "WRITE"@
        } else {
            "WRITE"@
        };
        if self.unknown() == 0 {
            write
        } else if self.has_filter(Filter(EPOLLIN)) || self.has_filter(Filter(EPOLLOUT)) {
            write + ", "@ + hex_text(self.unknown())
        } else {
            hex_text(self.unknown())
        }
    }

    /// The known classes that the set holds, reading before writing.
    pub fn iter(&self) -> (filters: Vec<Filter>)
        ensures
            filters@ == self.filters(),
    {
        let mut filters: Vec<Filter> = Vec::new();
        if self.0 & EPOLLIN != 0 {
            filters.push(Filter(EPOLLIN));
        }
        if self.0 & EPOLLOUT != 0 {
            filters.push(Filter(EPOLLOUT));
        }
        filters
    }

    /// Names what the set holds: the known classes, and the rest of the mask as one number.
    pub fn text(&self) -> (text: String)
        ensures
            text@ == "FilterSet(["@ + self.spec_names() + "])"@,
    {
        let mut text: String = String::from_str("FilterSet([");
        let mut first: bool = true;
        let value: u32 = self.0;
        let mut remaining: u32 = value;
        if remaining & EPOLLIN != 0 {
            remaining = remaining & !EPOLLIN;
            first = false;
            text.append("READ");
        }
        assert((value & !1u32) & 4 == value & 4) by (bit_vector);
        if remaining & EPOLLOUT != 0 {
            remaining = remaining & !EPOLLOUT;
            if first {
                first = false;
            } else {
                text.append(", ");
            }
            text.append("WRITE");
        }
        assert(remaining == self.unknown()) by {
            assert((value & !1u32) & !4u32 == value & !0x5u32) by (bit_vector);
            assert(value & 4 == 0 ==> value & !1u32 == value & !0x5u32) by (bit_vector);
            assert(value & 1 == 0 ==> value & !4u32 == value & !0x5u32) by (bit_vector);
            assert(value & 1 == 0 && value & 4 == 0 ==> value == value & !0x5u32) by (bit_vector);
        }
        if remaining != 0 {
            if !first {
                text.append(", ");
            }
            append_hex(&mut text, remaining);
        }
        text.append("])");
        assert(text@ =~= "FilterSet(["@ + self.spec_names() + "])"@);
        text
    }
}

/// One value for each event class.
#[derive(Debug)]
pub struct FilterCollection<T> {
    pub read: T,
    pub write: T,
}

impl<T> FilterCollection<T> {
    /// The value for a class.
    pub open spec fn at(self, filter: Filter) -> T {
        if filter == Filter(EPOLLIN) {
            self.read
        } else {
            self.write
        }
    }

    /// The collection with another value for a class.
    pub open spec fn with(self, filter: Filter, value: T) -> FilterCollection<T> {
        if filter == Filter(EPOLLIN) {
            FilterCollection { read: value, write: self.write }
        } else {
            FilterCollection { read: self.read, write: value }
        }
    }

    /// Makes the value for reading, then the value for writing; the first failure ends it.
    pub fn try_new<E, F: FnMut(Filter) -> Result<T, E>>(mut f: F) -> (result: Result<
        FilterCollection<T>,
        E,
    >)
        requires
            forall|filter: Filter| call_requires(f, (filter,)),
        ensures
            match result {
                Ok(collection) => {
                    &&& call_ensures(f, (Filter(EPOLLIN),), Ok(collection.read))
                    &&& call_ensures(f, (Filter(EPOLLOUT),), Ok(collection.write))
                },
                Err(error) => {
                    ||| call_ensures(f, (Filter(EPOLLIN),), Err(error))
                    ||| {
                        &&& exists|read: T| call_ensures(f, (Filter(EPOLLIN),), Ok(read))
                        &&& call_ensures(f, (Filter(EPOLLOUT),), Err(error))
                    }
                },
            },
    {
        let read: T = match f(Filter(EPOLLIN)) {
            Ok(value) => value,
            Err(error) => {
                return Err(error);
            },
        };
        let write: T = match f(Filter(EPOLLOUT)) {
            Ok(value) => value,
            Err(error) => {
                return Err(error);
            },
        };
        Ok(FilterCollection { read, write })
    }

    /// The value for a class, where a value is kept for it.
    pub fn get(&self, index: Filter) -> (value: Option<&T>)
        ensures
            value == (if index.valid() {
                Some(&self.at(index))
            } else {
                None
            }),
    {
        if index == Filter(EPOLLIN) {
            Some(&self.read)
        } else if index == Filter(EPOLLOUT) {
            Some(&self.write)
        } else {
            None
        }
    }

    /// The value for a class that a value is kept for.
    pub fn index(&self, index: Filter) -> (value: &T)
        requires
            index.valid(),
        ensures
            *value == self.at(index),
    {
        if index == Filter(EPOLLIN) {
            &self.read
        } else {
            &self.write
        }
    }

    /// The place of the value for a class that a value is kept for.
    pub fn index_mut(&mut self, index: Filter) -> (value: &mut T)
        requires
            index.valid(),
        ensures
            *value == old(self).at(index),
            *final(self) == old(self).with(index, *final(value)),
    {
        if index == Filter(EPOLLIN) {
            &mut self.read
        } else {
            &mut self.write
        }
    }

    /// Walks the collection, reading before writing.
    pub fn iter<'a>(&'a self) -> (iter: FilterCollectionIter<'a, T>)
        ensures
            iter.remaining() == seq![(Filter(EPOLLIN), &self.read), (Filter(EPOLLOUT), &self.write)],
    {
        FilterCollectionIter { collection: self, next_filter: Some(Filter(EPOLLIN)) }
    }
}

/// A walk over a [`FilterCollection`].
pub struct FilterCollectionIter<'a, T> {
    collection: &'a FilterCollection<T>,
    next_filter: Option<Filter>,
}

impl<'a, T> FilterCollectionIter<'a, T> {
    #[verifier::type_invariant]
    spec fn wf(self) -> bool {
        self.next_filter is Some ==> self.next_filter->0.valid()
    }

    /// What the walk has yet to yield.
    pub closed spec fn remaining(self) -> Seq<(Filter, &'a T)> {
        match self.next_filter {
            Some(filter) => if filter == Filter(EPOLLIN) {
                seq![(Filter(EPOLLIN), &self.collection.read), (Filter(EPOLLOUT), &self.collection.write)]
            } else {
                seq![(Filter(EPOLLOUT), &self.collection.write)]
            },
            None => Seq::empty(),
        }
    }

    /// The next class and its value.
    pub fn next(&mut self) -> (item: Option<(Filter, &'a T)>)
        ensures
            match item {
                Some(pair) => {
                    &&& old(self).remaining().len() > 0
                    &&& pair == old(self).remaining().first()
                    &&& final(self).remaining() == old(self).remaining().drop_first()
                },
                None => {
                    &&& old(self).remaining().len() == 0
                    &&& final(self).remaining() == old(self).remaining()
                },
            },
    {
        proof {
            use_type_invariant(&*self);
        }
        match self.next_filter {
            Some(filter) => if filter == Filter(EPOLLIN) {
                self.next_filter = Some(Filter(EPOLLOUT));
                Some((filter, &self.collection.read))
            } else {
                self.next_filter = None;
                Some((filter, &self.collection.write))
            },
            None => None,
        }
    }
}

/// A mask that can be read or written is told apart by its bits, whatever other bits it holds: the
/// classes that come out are those whose bit is set, reading before writing, each once.
pub proof fn law_classes_are_told_by_their_bits(set: FilterSet, at: int)
    ensures
        set.has_filter(Filter(0x1)) <==> set.0 & 0x1 == 0x1,
        set.has_filter(Filter(0x4)) <==> set.0 & 0x4 == 0x4,
        set.filters().contains(Filter(0x1)) <==> set.0 & 0x1 == 0x1,
        set.filters().contains(Filter(0x4)) <==> set.0 & 0x4 == 0x4,
        set.filters().len() == (if set.0 & 0x1 == 0x1 {
            1int
        } else {
            0
        }) + (if set.0 & 0x4 == 0x4 {
            1int
        } else {
            0
        }),
        0 <= at < set.filters().len() ==> set.filters()[at] == Filter(0x1) || set.filters()[at]
            == Filter(0x4),
        set.0 & 0x1 == 0x1 ==> set.filters()[0] == Filter(0x1),
{
    let bits = set.0;
    assert(bits & 0x1 != 0 <==> bits & 0x1 == 0x1) by (bit_vector);
    assert(bits & 0x4 != 0 <==> bits & 0x4 == 0x4) by (bit_vector);
    if bits & 0x1 == 0x1 {
        assert(set.filters()[0] == Filter(0x1));
        if bits & 0x4 == 0x4 {
            assert(set.filters()[1] == Filter(0x4));
        }
    } else if bits & 0x4 == 0x4 {
        assert(set.filters()[0] == Filter(0x4));
    }
}

/// Each class has its value, and another value for one class leaves the other alone.
pub proof fn law_classes_are_kept_apart<T>(
    collection: FilterCollection<T>,
    filter: Filter,
    other: Filter,
    value: T,
)
    requires
        filter.0 == 0x1 || filter.0 == 0x4,
        other.0 == 0x1 || other.0 == 0x4,
    ensures
        filter.valid(),
        collection.with(filter, value).at(filter) == value,
        filter != other ==> collection.with(filter, value).at(other) == collection.at(other),
        collection.at(Filter(0x1)) == collection.read,
        collection.at(Filter(0x4)) == collection.write,
{
}

/// Texts with a comma between each two.
pub open spec fn joined(parts: Seq<Seq<char>>) -> Seq<char>
    decreases parts.len(),
{
    if parts.len() == 0 {
        Seq::empty()
    } else if parts.len() == 1 {
        parts[0]
    } else {
        joined(parts.drop_last()) + ", "@ + parts.last()
    }
}

/// A set is shown by the names of the classes whose bits it holds, reading before writing, and by the
/// number of the bits that are left, where some are; between each two stands a comma.
pub proof fn law_names_show_every_bit(set: FilterSet)
    ensures
        ({
            let rest = set.0 & 0xffff_fffa;
            let read = if set.0 & 0x1 == 0x1 {
                seq!["READ"@]
            } else {
                Seq::empty()
            };
            let write = if set.0 & 0x4 == 0x4 {
                seq!["WRITE"@]
            } else {
                Seq::empty()
            };
            let unknown = if rest != 0 {
                seq![hex_text(rest)]
            } else {
                Seq::empty()
            };
            set.spec_names() == joined(read + write + unknown)
        }),
{
    let bits = set.0;
    assert(bits & 0x1 != 0 <==> bits & 0x1 == 0x1) by (bit_vector);
    assert(bits & 0x4 != 0 <==> bits & 0x4 == 0x4) by (bit_vector);
    assert(bits & !0x5u32 == bits & 0xffff_fffa) by (bit_vector);
    let rest = bits & 0xffff_fffa;
    let read = if bits & 0x1 == 0x1 {
        seq!["READ"@]
    } else {
        Seq::empty()
    };
    let write = if bits & 0x4 == 0x4 {
        seq!["WRITE"@]
    } else {
        Seq::empty()
    };
    let unknown = if rest != 0 {
        seq![hex_text(rest)]
    } else {
        Seq::empty()
    };
    let parts = read + write + unknown;
    reveal_with_fuel(joined, 4);
    if parts.len() == 3 {
        assert(parts.drop_last() == read + write);
        assert((read + write).drop_last() == read);
    } else if parts.len() == 2 {
        assert(parts.drop_last() == seq![parts[0]]);
    }
}

/// A class is shown by its name where it has one, and by its number otherwise.
pub proof fn law_text_of_a_class(filter: Filter)
    ensures
        filter.0 == 0x1 ==> filter.spec_text() == "Filter::READ"@,
        filter.0 == 0x4 ==> filter.spec_text() == "Filter::WRITE"@,
        filter.0 != 0x1 && filter.0 != 0x4 ==> filter.spec_text() == "Filter("@ + hex_text(filter.0)
            + ")"@,
{
}

} // verus!
