//! A builder at work: what its storage fields hold as setters and
//! appending methods are called, and what `build` makes of them.

use vstd::prelude::*;
use crate::expand::{BuildField, Builder, EachMethod, Empty, EmptyField, Setter};

verus! {

/// What one storage field holds.
#[derive(Debug)]
pub enum Stored<V> {
    Absent,
    Value(V),
    Items(Vec<V>),
}

/// A `build` that failed: why, and the storage as it was handed in.
#[derive(Debug)]
pub struct Unbuilt<V> {
    pub message: String,
    pub slots: Vec<Stored<V>>,
}

/// What one storage field holds, as a mathematical value.
pub ghost enum Content<V> {
    Absent,
    Value(V),
    Items(Seq<V>),
}

impl<V> View for Stored<V> {
    type V = Content<V>;

    open spec fn view(&self) -> Content<V> {
        match *self {
            Stored::Absent => Content::Absent,
            Stored::Value(value) => Content::Value(value),
            Stored::Items(items) => Content::Items(items@),
        }
    }
}

/// What a storage field holds in a fresh builder.
pub open spec fn start_of<V>(value: Empty) -> Content<V> {
    match value {
        Empty::Absent => Content::Absent,
        Empty::NoItems => Content::Items(Seq::empty()),
    }
}

/// What a storage field holds after its setter was called with `value`:
/// that value, whatever it held before.
pub open spec fn stored<V>(content: Content<V>, value: V) -> Content<V> {
    Content::Value(value)
}

/// What a storage field holds after one more item was appended: the items
/// so far and then the new one. A field that holds no items stays as it is.
pub open spec fn appended<V>(content: Content<V>, item: V) -> Content<V> {
    match content {
        Content::Items(items) => Content::Items(items.push(item)),
        other => other,
    }
}

/// What a storage field holds after the first `n` of `items` were appended
/// one by one.
pub open spec fn appended_all<V>(content: Content<V>, items: Seq<V>, n: int) -> Content<V>
    decreases n,
{
    if n <= 0 {
        content
    } else {
        appended(appended_all(content, items, n - 1), items[n - 1])
    }
}

/// What `build` makes of a storage field: the content itself, or, where a
/// message stands for a missing value and the field holds nothing, a failure
/// with that message.
pub open spec fn finish_of<V>(missing: Option<Seq<char>>, content: Content<V>) -> Result<
    Content<V>,
    Seq<char>,
> {
    match (missing, content) {
        (Some(message), Content::Absent) => Err(message),
        _ => Ok(content),
    }
}

/// The message for a missing value, as a mathematical value.
pub open spec fn missing_of(part: BuildField) -> Option<Seq<char>> {
    match part.missing {
        Some(message) => Some(message@),
        None => None,
    }
}

/// The message of the first of the first `n` fields at which `build`
/// fails, if it fails at one.
pub open spec fn first_failure<V>(parts: Seq<BuildField>, slots: Seq<Stored<V>>, n: int) -> Option<
    Seq<char>,
>
    decreases n,
{
    if n <= 0 {
        None
    } else {
        match first_failure(parts, slots, n - 1) {
            Some(message) => Some(message),
            None => match finish_of(missing_of(parts[n - 1]), slots[n - 1]@) {
                Err(message) => Some(message),
                Ok(_) => None,
            },
        }
    }
}

/// A failure among the first `i` fields is the first failure of any longer
/// prefix.
pub proof fn lemma_first_failure_stays<V>(
    parts: Seq<BuildField>,
    slots: Seq<Stored<V>>,
    i: int,
    n: int,
)
    requires
        i <= n,
        first_failure(parts, slots, i) is Some,
    ensures
        first_failure(parts, slots, n) == first_failure(parts, slots, i),
    decreases n - i,
{
    if i < n {
        lemma_first_failure_stays(parts, slots, i, n - 1);
    }
}

impl<'a> EmptyField<'a> {
    /// What this field holds in a fresh builder.
    pub fn start<V>(&self) -> (slot: Stored<V>)
        ensures
            slot@ == start_of::<V>(self.value),
    {
        match self.value {
            Empty::Absent => Stored::Absent,
            Empty::NoItems => Stored::Items(Vec::new()),
        }
    }
}

impl<'a> Setter<'a> {
    /// Calls this setter: the field then holds `value`, whatever it held.
    pub fn store<V>(&self, slot: Stored<V>, value: V) -> (after: Stored<V>)
        ensures
            after@ == stored(slot@, value),
    {
        Stored::Value(value)
    }
}

impl<'a> EachMethod<'a> {
    /// Calls this method: `item` comes behind the items that the field
    /// holds.
    pub fn append<V>(&self, slot: Stored<V>, item: V) -> (after: Stored<V>)
        ensures
            after@ == appended(slot@, item),
    {
        match slot {
            Stored::Items(items) => {
                let mut items = items;
                items.push(item);
                Stored::Items(items)
            },
            other => other,
        }
    }
}

impl<'a> BuildField<'a> {
    /// What `build` makes of this field.
    pub fn finish<V>(&self, slot: Stored<V>) -> (r: Result<Stored<V>, String>)
        ensures
            match finish_of(missing_of(*self), slot@) {
                Ok(content) => r is Ok && r->Ok_0@ == content,
                Err(message) => r is Err && r->Err_0@ == message,
            },
    {
        match (&self.missing, slot) {
            (Some(message), Stored::Absent) => Err(message.clone()),
            (_, slot) => Ok(slot),
        }
    }
}

impl<'a> Builder<'a> {
    /// The storage fields of a fresh builder, in the order of the fields.
    pub fn fresh<V>(&self) -> (slots: Vec<Stored<V>>)
        ensures
            slots@.len() == self.builder_fields_empty@.len(),
            forall|i: int|
                0 <= i < slots@.len() ==> (#[trigger] slots@[i])@ == start_of::<V>(
                    self.builder_fields_empty@[i].value,
                ),
    {
        let mut slots: Vec<Stored<V>> = Vec::new();
        let mut i: usize = 0;
        while i < self.builder_fields_empty.len()
            invariant
                i <= self.builder_fields_empty@.len(),
                slots@.len() == i,
                forall|k: int|
                    0 <= k < i ==> (#[trigger] slots@[k])@ == start_of::<V>(
                        self.builder_fields_empty@[k].value,
                    ),
            decreases self.builder_fields_empty@.len() - i,
        {
            slots.push(self.builder_fields_empty[i].start());
            i += 1;
        }
        slots
    }

    /// Completes the record from one storage field per field: the fields'
    /// values as they stand, or the failure of the first field, in the order
    /// of the fields, that needs a value and holds none. A failure hands the
    /// storage back as it was.
    pub fn build<V>(&self, slots: Vec<Stored<V>>) -> (r: Result<Vec<Stored<V>>, Unbuilt<V>>)
        requires
            slots@.len() == self.build_fields@.len(),
        ensures
            match first_failure(self.build_fields@, slots@, slots@.len() as int) {
                None => r == Ok::<Vec<Stored<V>>, Unbuilt<V>>(slots),
                Some(message) => r is Err && r->Err_0.message@ == message && r->Err_0.slots
                    == slots,
            },
    {
        let mut i: usize = 0;
        while i < slots.len()
            invariant
                i <= slots@.len(),
                slots@.len() == self.build_fields@.len(),
                first_failure(self.build_fields@, slots@, i as int) is None,
            decreases slots@.len() - i,
        {
            if let Some(message) = &self.build_fields[i].missing {
                if let Stored::Absent = &slots[i] {
                    proof {
                        lemma_first_failure_stays(
                            self.build_fields@,
                            slots@,
                            i + 1,
                            slots@.len() as int,
                        );
                    }
                    return Err(Unbuilt { message: message.clone(), slots });
                }
            }
            i += 1;
        }
        Ok(slots)
    }
}

} // verus!
