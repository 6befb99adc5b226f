//! The mathematical side of JSON: what a document is, and what it holds
//! under a key.

use vstd::prelude::*;

verus! {

/// A JSON number, in the three forms in which `serde_json` holds one.
#[derive(Clone, Copy, Debug, PartialEq, Eq, Structural)]
pub enum Number {
    /// An integer that is zero or more.
    PosInt(u64),
    /// An integer below zero.
    NegInt(i64),
    /// Any other number, as the bit pattern of its IEEE 754 binary64 value.
    Float(u64),
}

impl Number {
    /// The number as a signed 64-bit integer, where it is an integer in that
    /// range.
    pub open spec fn integer(self) -> Option<i64> {
        match self {
            Number::PosInt(u) => if u <= i64::MAX {
                Some(u as i64)
            } else {
                None
            },
            Number::NegInt(i) => Some(i),
            Number::Float(_) => None,
        }
    }

    pub fn as_i64(&self) -> (r: Option<i64>)
        ensures
            r == self.integer(),
    {
        match *self {
            Number::PosInt(u) => if u <= 0x7fff_ffff_ffff_ffff {
                Some(u as i64)
            } else {
                None
            },
            Number::NegInt(i) => Some(i),
            Number::Float(_) => None,
        }
    }

    /// Whether the number is one that JSON can write: an integer, or a
    /// binary64 value whose exponent is not all ones, which is one that is
    /// neither an infinity nor a NaN.
    pub open spec fn finite(self) -> bool {
        match self {
            Number::Float(bits) => bits & 0x7ff0_0000_0000_0000 != 0x7ff0_0000_0000_0000,
            _ => true,
        }
    }

    pub fn is_finite(&self) -> (r: bool)
        ensures
            r == self.finite(),
    {
        match *self {
            Number::Float(bits) => bits & 0x7ff0_0000_0000_0000 != 0x7ff0_0000_0000_0000,
            _ => true,
        }
    }

    /// The number behind three readings of it: as an unsigned integer, as a
    /// signed integer, and as the bits of a binary64 value. It is an unsigned
    /// integer where that reading is there, else a signed one where that is
    /// there, else the binary64 value. A number with none of the three is
    /// held as a NaN.
    pub open spec fn of_readings(
        unsigned: Option<u64>,
        signed: Option<i64>,
        bits: Option<u64>,
    ) -> Number {
        match (unsigned, signed, bits) {
            (Some(u), _, _) => Number::PosInt(u),
            (None, Some(i), _) => Number::NegInt(i),
            (None, None, Some(b)) => Number::Float(b),
            (None, None, None) => Number::Float(0x7ff8_0000_0000_0000),
        }
    }

    pub fn from_readings(unsigned: Option<u64>, signed: Option<i64>, bits: Option<u64>) -> (n:
        Number)
        ensures
            n == Number::of_readings(unsigned, signed, bits),
    {
        match (unsigned, signed, bits) {
            (Some(u), _, _) => Number::PosInt(u),
            (None, Some(i), _) => Number::NegInt(i),
            (None, None, Some(b)) => Number::Float(b),
            (None, None, None) => Number::Float(0x7ff8_0000_0000_0000),
        }
    }

    /// The number that stands for a signed 32-bit integer.
    pub open spec fn of_i32(i: i32) -> Number {
        if i >= 0 {
            Number::PosInt(i as u64)
        } else {
            Number::NegInt(i as i64)
        }
    }

    pub fn from_i32(i: i32) -> (n: Number)
        ensures
            n == Number::of_i32(i),
            n.integer() == Some(i as i64),
    {
        if i >= 0 {
            Number::PosInt(i as u64)
        } else {
            Number::NegInt(i as i64)
        }
    }
}

/// The mathematical view of a JSON document. An object is the sequence of its
/// members in the order in which they are held.
pub ghost enum Doc {
    Null,
    Bool(bool),
    Number(Number),
    Text(Seq<char>),
    Array(Seq<Doc>),
    Object(Seq<(Seq<char>, Doc)>),
}

/// The value of the first member at or after `start` whose key is `key`.
pub open spec fn find_from(members: Seq<(Seq<char>, Doc)>, key: Seq<char>, start: int) -> Option<
    Doc,
>
    decreases members.len() - start,
{
    if start < 0 || start >= members.len() {
        None
    } else if members[start].0 == key {
        Some(members[start].1)
    } else {
        find_from(members, key, start + 1)
    }
}

impl Doc {
    /// The member of an object with the given key: the first one, should the
    /// key occur twice. `None` for a missing key and for anything but an
    /// object.
    pub open spec fn member(self, key: Seq<char>) -> Option<Doc> {
        match self {
            Doc::Object(members) => find_from(members, key, 0),
            _ => None,
        }
    }

    /// The characters of a string.
    pub open spec fn text(self) -> Option<Seq<char>> {
        match self {
            Doc::Text(s) => Some(s),
            _ => None,
        }
    }

    /// The value of a number that is an integer in the signed 64-bit range.
    pub open spec fn integer(self) -> Option<i64> {
        match self {
            Doc::Number(n) => n.integer(),
            _ => None,
        }
    }

    /// Any number.
    pub open spec fn number(self) -> Option<Number> {
        match self {
            Doc::Number(n) => Some(n),
            _ => None,
        }
    }

    /// The items of an array.
    pub open spec fn items(self) -> Option<Seq<Doc>> {
        match self {
            Doc::Array(items) => Some(items),
            _ => None,
        }
    }

    /// The items of an array in which every item is a string.
    pub open spec fn texts(self) -> Option<Seq<Seq<char>>> {
        match self {
            Doc::Array(items) => if forall|i: int| 0 <= i < items.len() ==> (#[trigger] items[i]) is Text {
                Some(Seq::new(items.len(), |i: int| items[i]->Text_0))
            } else {
                None
            },
            _ => None,
        }
    }
}

/// The members of an object with the value under a key replaced: that of the
/// first member with the key, from `start` on. Where no member has the key,
/// a member is added at the end.
pub open spec fn replace_from(
    members: Seq<(Seq<char>, Doc)>,
    key: Seq<char>,
    value: Doc,
    start: int,
) -> Seq<(Seq<char>, Doc)>
    decreases members.len() - start,
{
    if start < 0 || start >= members.len() {
        members.push((key, value))
    } else if members[start].0 == key {
        members.update(start, (key, value))
    } else {
        replace_from(members, key, value, start + 1)
    }
}

impl Doc {
    /// The object with the value under a key replaced, or with the member
    /// added where the key is new. Anything but an object stays as it is.
    pub open spec fn with(self, key: Seq<char>, value: Doc) -> Doc {
        match self {
            Doc::Object(members) => Doc::Object(replace_from(members, key, value, 0)),
            _ => self,
        }
    }

    /// The object with one more member, put in at a position.
    pub open spec fn with_extra(self, at: int, key: Seq<char>, value: Doc) -> Doc {
        match self {
            Doc::Object(members) => Doc::Object(members.insert(at, (key, value))),
            _ => self,
        }
    }
}

/// Looking a key up from `start` sees only the members from `start` on.
proof fn lemma_find_agrees(
    a: Seq<(Seq<char>, Doc)>,
    b: Seq<(Seq<char>, Doc)>,
    key: Seq<char>,
    start: int,
    shift: int,
)
    requires
        0 <= start,
        0 <= start + shift,
        a.len() + shift == b.len(),
        forall|i: int| start <= i < a.len() ==> #[trigger] a[i] == b[i + shift],
    ensures
        find_from(a, key, start) == find_from(b, key, start + shift),
    decreases a.len() - start,
{
    if start < a.len() {
        assert(a[start] == b[start + shift]);
        if a[start].0 != key {
            lemma_find_agrees(a, b, key, start + 1, shift);
        }
    }
}

/// One more member under another key, wherever it is put in, changes nothing
/// of what is found under a key.
pub proof fn lemma_find_insert(
    members: Seq<(Seq<char>, Doc)>,
    key: Seq<char>,
    at: int,
    extra: (Seq<char>, Doc),
    start: int,
)
    requires
        0 <= start <= at <= members.len(),
        extra.0 != key,
    ensures
        find_from(members.insert(at, extra), key, start) == find_from(members, key, start),
    decreases at - start,
{
    let longer = members.insert(at, extra);
    if start == at {
        assert(longer[at] == extra);
        assert forall|i: int| at <= i < members.len() implies #[trigger] members[i] == longer[i
            + 1] by {}
        lemma_find_agrees(members, longer, key, at, 1);
    } else {
        assert(longer[start] == members[start]);
        if members[start].0 != key {
            lemma_find_insert(members, key, at, extra, start + 1);
        }
    }
}

/// After a replacement the new value is found under the key, and under every
/// other key what was found before.
pub proof fn lemma_find_replace(
    members: Seq<(Seq<char>, Doc)>,
    key: Seq<char>,
    value: Doc,
    other: Seq<char>,
    start: int,
)
    requires
        0 <= start <= members.len(),
    ensures
        find_from(replace_from(members, key, value, start), key, start) == Some(value),
        other != key ==> find_from(replace_from(members, key, value, start), other, start)
            == find_from(members, other, start),
        replace_from(members, key, value, start).len() >= members.len(),
        forall|i: int|
            0 <= i < start ==> (#[trigger] replace_from(members, key, value, start)[i])
                == members[i],
    decreases members.len() - start,
{
    let changed = replace_from(members, key, value, start);
    if start >= members.len() {
        assert(changed[start] == (key, value));
        lemma_find_end(members, changed, other, start);
    } else if members[start].0 == key {
        assert(changed[start] == (key, value));
        if other != key {
            assert forall|i: int| start + 1 <= i < members.len() implies #[trigger] members[i]
                == changed[i] by {}
            lemma_find_agrees(members, changed, other, start + 1, 0);
        }
    } else {
        lemma_find_replace(members, key, value, other, start + 1);
        assert(changed[start] == members[start]);
    }
}

/// A member added at the end under another key is never found.
proof fn lemma_find_end(
    members: Seq<(Seq<char>, Doc)>,
    longer: Seq<(Seq<char>, Doc)>,
    other: Seq<char>,
    start: int,
)
    requires
        start == members.len(),
        longer.len() == members.len() + 1,
    ensures
        longer[start].0 != other ==> find_from(longer, other, start) == find_from(
            members,
            other,
            start,
        ),
{
    if longer[start].0 != other {
        assert(find_from(longer, other, start + 1) is None);
    }
}

/// Looking a key up in one run of members followed by another finds what the
/// first run holds under the key, and else what the second holds.
pub proof fn lemma_find_concat(
    first: Seq<(Seq<char>, Doc)>,
    second: Seq<(Seq<char>, Doc)>,
    key: Seq<char>,
    start: int,
)
    requires
        0 <= start <= first.len(),
    ensures
        find_from(first + second, key, start) == match find_from(first, key, start) {
            Some(value) => Some(value),
            None => find_from(second, key, 0),
        },
    decreases first.len() - start,
{
    let both = first + second;
    if start == first.len() {
        assert forall|i: int| 0 <= i < second.len() implies #[trigger] second[i] == both[i
            + first.len()] by {}
        lemma_find_agrees(second, both, key, 0, first.len() as int);
    } else {
        assert(both[start] == first[start]);
        if first[start].0 != key {
            lemma_find_concat(first, second, key, start + 1);
        }
    }
}

impl Doc {
    /// What an object holds under a key after a replacement.
    pub proof fn lemma_member_with(self, key: Seq<char>, value: Doc, other: Seq<char>)
        requires
            self is Object,
        ensures
            self.with(key, value).member(key) == Some(value),
            other != key ==> self.with(key, value).member(other) == self.member(other),
    {
        lemma_find_replace(self->Object_0, key, value, other, 0);
    }

    /// What an object holds under a key after one more member, under another
    /// key, was put in.
    pub proof fn lemma_member_with_extra(self, at: int, key: Seq<char>, value: Doc, other: Seq<char>)
        requires
            self matches Doc::Object(members) && 0 <= at <= members.len(),
            other != key,
        ensures
            self.with_extra(at, key, value).member(other) == self.member(other),
    {
        lemma_find_insert(self->Object_0, other, at, (key, value), 0);
    }
}

} // verus!
