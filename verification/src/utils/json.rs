//! The JSON shape that query results are turned into: one object per result
//! row, holding one member per column, in column order.

use vstd::prelude::*;

verus! {

/// One member value of a row object.
pub enum JsonCell {
    Null,
    Int(i32),
    /// A single-precision number, carried as its IEEE-754 bit pattern.
    Float(u32),
    Text(String),
    Bool(bool),
}

/// The mathematical value of a [`JsonCell`].
pub enum JsonCellView {
    Null,
    Int(int),
    Float(u32),
    Text(Seq<char>),
    Bool(bool),
}

impl View for JsonCell {
    type V = JsonCellView;

    open spec fn view(&self) -> JsonCellView {
        match self {
            JsonCell::Null => JsonCellView::Null,
            JsonCell::Int(n) => JsonCellView::Int(*n as int),
            JsonCell::Float(bits) => JsonCellView::Float(*bits),
            JsonCell::Text(s) => JsonCellView::Text(s@),
            JsonCell::Bool(b) => JsonCellView::Bool(*b),
        }
    }
}

/// A text member, or `null` where there is no text.
pub open spec fn text_or_null(t: Option<Seq<char>>) -> JsonCellView {
    match t {
        Some(s) => JsonCellView::Text(s),
        None => JsonCellView::Null,
    }
}

/// The members of one row object, in column order. Where two columns share a
/// name, the later one is the member that a JSON object keeps.
pub struct JsonObject {
    pub members: Vec<(String, JsonCell)>,
}

impl View for JsonObject {
    type V = Seq<(Seq<char>, JsonCellView)>;

    open spec fn view(&self) -> Seq<(Seq<char>, JsonCellView)> {
        self.members@.map_values(|m: (String, JsonCell)| (m.0@, m.1@))
    }
}

/// Moves an optional string into a text member, or `null`.
pub fn text_cell(t: Option<String>) -> (r: JsonCell)
    ensures
        r@ == text_or_null(
            match t {
                Some(s) => Some(s@),
                None => None,
            },
        ),
{
    match t {
        Some(s) => JsonCell::Text(s),
        None => JsonCell::Null,
    }
}

} // verus!
