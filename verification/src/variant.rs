//! The codec between the host's variant buffers and typed property values.
//!
//! A `PropVariant` holds what the host keeps in a variant buffer, as far as
//! this library reads it: nothing, one wide string, one 32-bit unsigned
//! number, or a vector of wide strings. Reading never fails: what has no
//! such form reads as the type's default.

use crate::wide::{encode_utf16, lemma_decode_encode, text_from_wide, text_or_empty, to_wide};
use vstd::prelude::*;
use vstd::slice::slice_to_vec;

verus! {

/// A variant buffer's content in plain values. Strings are UTF-16 units
/// without a terminator.
#[derive(Debug, Clone, PartialEq, Eq)]
pub enum PropVariant {
    /// No value: the property is absent, or the host could not convert it.
    Empty,
    /// One string.
    Text(Vec<u16>),
    /// One unsigned 32-bit number.
    Number(u32),
    /// A vector of strings, in the host's order.
    TextVector(Vec<Vec<u16>>),
}

/// The mathematical content of a `PropVariant`.
pub ghost enum VariantView {
    Empty,
    Text(Seq<u16>),
    Number(u32),
    TextVector(Seq<Seq<u16>>),
}

impl View for PropVariant {
    type V = VariantView;

    open spec fn view(&self) -> VariantView {
        match *self {
            PropVariant::Empty => VariantView::Empty,
            PropVariant::Text(units) => VariantView::Text(units@),
            PropVariant::Number(number) => VariantView::Number(number),
            PropVariant::TextVector(items) => VariantView::TextVector(
                items@.map_values(|item: Vec<u16>| item@),
            ),
        }
    }
}

impl PropVariant {
    /// A copy with the same content.
    pub fn duplicate(&self) -> (copy: PropVariant)
        ensures
            copy@ == self@,
    {
        match self {
            PropVariant::Empty => PropVariant::Empty,
            PropVariant::Text(units) => PropVariant::Text(slice_to_vec(units.as_slice())),
            PropVariant::Number(number) => PropVariant::Number(*number),
            PropVariant::TextVector(items) => {
                let mut copies: Vec<Vec<u16>> = Vec::new();
                let mut at: usize = 0;
                while at < items.len()
                    invariant
                        at <= items.len(),
                        copies@.len() == at,
                        forall|i: int| 0 <= i < at ==> (#[trigger] copies@[i])@ == items@[i]@,
                    decreases items.len() - at,
                {
                    copies.push(slice_to_vec(items[at].as_slice()));
                    at = at + 1;
                }
                assert(copies@.map_values(|item: Vec<u16>| item@) == items@.map_values(
                    |item: Vec<u16>| item@,
                ));
                PropVariant::TextVector(copies)
            },
        }
    }
}

/// The form in which a typed value asks the host for a buffer's content.
#[derive(Debug, Clone, Copy, PartialEq, Eq, Structural)]
pub enum Shape {
    Text,
    Number,
    TextVector,
}

/// The string that a buffer reads as: its text, and the empty string where it
/// holds no string or one that is not well-formed UTF-16.
pub open spec fn decode_string(prop: VariantView) -> Seq<char> {
    match prop {
        VariantView::Text(units) => text_or_empty(units),
        _ => Seq::empty(),
    }
}

/// The number that a buffer reads as: its number, and 0 where it holds none.
pub open spec fn decode_u32(prop: VariantView) -> u32 {
    match prop {
        VariantView::Number(number) => number,
        _ => 0,
    }
}

/// The strings that a buffer reads as: each of its strings read as
/// `decode_string` reads one, and no string where it holds no vector.
pub open spec fn decode_string_vector(prop: VariantView) -> Seq<Seq<char>> {
    match prop {
        VariantView::TextVector(items) => items.map_values(|units: Seq<u16>| text_or_empty(units)),
        _ => Seq::empty(),
    }
}

/// A typed value that can be read from a variant buffer.
pub trait FromPropVariant: Sized {
    /// The form in which the host is asked for the buffer's content.
    spec fn shape_spec() -> Shape;

    /// Whether `value` is what `prop` reads as.
    spec fn read_from(value: &Self, prop: VariantView) -> bool;

    fn shape() -> (shape: Shape)
        ensures
            shape == Self::shape_spec(),
    ;

    /// Reads the buffer. Takes the buffer over: nothing of it is left to
    /// release once the value is returned.
    fn from_prop_variant(prop: PropVariant) -> (value: Self)
        ensures
            Self::read_from(&value, prop@),
    ;
}

impl FromPropVariant for String {
    open spec fn shape_spec() -> Shape {
        Shape::Text
    }

    open spec fn read_from(value: &Self, prop: VariantView) -> bool {
        value@ == decode_string(prop)
    }

    fn shape() -> (shape: Shape) {
        Shape::Text
    }

    fn from_prop_variant(prop: PropVariant) -> (value: Self) {
        match prop {
            PropVariant::Text(units) => text_from_wide(units.as_slice()),
            _ => String::new(),
        }
    }
}

impl FromPropVariant for u32 {
    open spec fn shape_spec() -> Shape {
        Shape::Number
    }

    open spec fn read_from(value: &Self, prop: VariantView) -> bool {
        *value == decode_u32(prop)
    }

    fn shape() -> (shape: Shape) {
        Shape::Number
    }

    fn from_prop_variant(prop: PropVariant) -> (value: Self) {
        match prop {
            PropVariant::Number(number) => number,
            _ => 0,
        }
    }
}

/// The strings of a multi-valued property, in the host's order.
#[derive(Debug, Clone, PartialEq, Eq)]
pub struct PropVector {
    pub vector: Vec<String>,
}

impl View for PropVector {
    type V = Seq<Seq<char>>;

    open spec fn view(&self) -> Seq<Seq<char>> {
        self.vector@.map_values(|item: String| item@)
    }
}

/// Each string followed by a comma and a space.
pub open spec fn listed(items: Seq<Seq<char>>) -> Seq<char>
    decreases items.len(),
{
    if items.len() == 0 {
        Seq::empty()
    } else {
        listed(items.drop_last()) + items.last() + seq![',', ' ']
    }
}

impl PropVector {
    /// The strings in one line, each followed by a comma and a space.
    pub fn to_string(&self) -> (line: String)
        ensures
            line@ == listed(self@),
    {
        let mut line = String::new();
        let mut at: usize = 0;
        proof {
            reveal_strlit(", ");
            assert(self@.take(0) == Seq::<Seq<char>>::empty());
        }
        while at < self.vector.len()
            invariant
                at <= self.vector.len(),
                ", "@ == seq![',', ' '],
                line@ == listed(self@.take(at as int)),
            decreases self.vector.len() - at,
        {
            proof {
                let next = self@.take(at + 1);
                assert(next.drop_last() == self@.take(at as int));
                assert(next.last() == self.vector@[at as int]@);
            }
            line.append(self.vector[at].as_str());
            line.append(", ");
            at = at + 1;
        }
        assert(self@.take(at as int) == self@);
        line
    }
}

impl FromPropVariant for PropVector {
    open spec fn shape_spec() -> Shape {
        Shape::TextVector
    }

    open spec fn read_from(value: &Self, prop: VariantView) -> bool {
        value@ == decode_string_vector(prop)
    }

    fn shape() -> (shape: Shape) {
        Shape::TextVector
    }

    fn from_prop_variant(prop: PropVariant) -> (value: Self) {
        let mut vector: Vec<String> = Vec::new();
        match prop {
            PropVariant::TextVector(items) => {
                let mut at: usize = 0;
                while at < items.len()
                    invariant
                        at <= items.len(),
                        vector@.len() == at,
                        forall|i: int|
                            0 <= i < at ==> (#[trigger] vector@[i])@ == text_or_empty(items@[i]@),
                    decreases items.len() - at,
                {
                    let text = text_from_wide(items[at].as_slice());
                    vector.push(text);
                    at = at + 1;
                }
                let value = PropVector { vector };
                assert(value@ == decode_string_vector(prop@));
                value
            },
            _ => {
                let value = PropVector { vector };
                assert(value@ == decode_string_vector(prop@));
                value
            },
        }
    }
}

/// A typed value that can be written into a variant buffer.
pub trait ToPropVariant {
    /// What the buffer made from this value holds.
    spec fn written(&self) -> VariantView;

    /// Puts the value in the form that the host builds a buffer from. One
    /// string goes to the host's constructor that reads a string as a vector,
    /// a vector of strings to its constructor for string vectors.
    fn to_prop_variant(&self) -> (prop: PropVariant)
        ensures
            prop@ == self.written(),
    ;
}

impl ToPropVariant for String {
    open spec fn written(&self) -> VariantView {
        VariantView::Text(encode_utf16(self@))
    }

    fn to_prop_variant(&self) -> (prop: PropVariant) {
        PropVariant::Text(to_wide(self.as_str()))
    }
}

impl ToPropVariant for &str {
    open spec fn written(&self) -> VariantView {
        VariantView::Text(encode_utf16(self@))
    }

    fn to_prop_variant(&self) -> (prop: PropVariant) {
        PropVariant::Text(to_wide(*self))
    }
}

impl ToPropVariant for Vec<&str> {
    open spec fn written(&self) -> VariantView {
        VariantView::TextVector(self@.map_values(|item: &str| encode_utf16(item@)))
    }

    fn to_prop_variant(&self) -> (prop: PropVariant) {
        let mut items: Vec<Vec<u16>> = Vec::new();
        let mut at: usize = 0;
        while at < self.len()
            invariant
                at <= self.len(),
                items@.len() == at,
                forall|i: int| 0 <= i < at ==> (#[trigger] items@[i])@ == encode_utf16(self@[i]@),
            decreases self.len() - at,
        {
            items.push(to_wide(self[at]));
            at = at + 1;
        }
        let prop = PropVariant::TextVector(items);
        assert(prop@ == self.written()) by {
            assert(items@.map_values(|item: Vec<u16>| item@) == self@.map_values(
                |item: &str| encode_utf16(item@),
            ));
        }
        prop
    }
}

/// A string that is written and read back is the same string, whatever
/// characters it holds.
pub proof fn lemma_string_round_trip(text: Seq<char>)
    ensures
        decode_string(VariantView::Text(encode_utf16(text))) == text,
{
    lemma_decode_encode(text);
}

/// A vector of strings that is written and read back holds the same strings
/// in the same order.
pub proof fn lemma_string_vector_round_trip(items: Seq<Seq<char>>)
    ensures
        decode_string_vector(
            VariantView::TextVector(items.map_values(|text: Seq<char>| encode_utf16(text))),
        ) == items,
{
    let written = items.map_values(|text: Seq<char>| encode_utf16(text));
    let read = written.map_values(|units: Seq<u16>| text_or_empty(units));
    assert forall|i: int| 0 <= i < items.len() implies read[i] == items[i] by {
        lemma_decode_encode(items[i]);
    }
    assert(read == items);
}

/// A vector reads string by string: as many strings as the buffer holds, each
/// at its place, none twice and none left out.
pub proof fn lemma_vector_reads_in_order(items: Seq<Seq<u16>>)
    ensures
        decode_string_vector(VariantView::TextVector(items)).len() == items.len(),
        forall|i: int|
            0 <= i < items.len() ==> #[trigger] decode_string_vector(
                VariantView::TextVector(items),
            )[i] == decode_string(VariantView::Text(items[i])),
{
}

/// Reading degrades to the type's default: a buffer that holds no string
/// reads as the empty string, one that holds no number as 0, one that holds
/// no vector as no strings. An empty buffer reads as all three.
pub proof fn lemma_reads_default(prop: VariantView)
    ensures
        !(prop is Text) ==> decode_string(prop) == Seq::<char>::empty(),
        !(prop is Number) ==> decode_u32(prop) == 0,
        !(prop is TextVector) ==> decode_string_vector(prop) == Seq::<Seq<char>>::empty(),
{
}

} // verus!
