//! The typed cells of a result and the text of each.

use vstd::prelude::*;
use crate::decimal::{integer_text, integer_to_text};
use crate::errors::SessionError;

verus! {

/// The largest scale of a fixed-precision number.
pub const MAX_SCALE: u8 = 37;

/// A fixed-precision number: an integer and the count of its digits that
/// stand behind the decimal point.
#[derive(Clone, Copy, Debug, PartialEq, Eq)]
pub struct Decimal {
    value: i128,
    scale: u8,
}

impl View for Decimal {
    type V = (int, int);

    closed spec fn view(&self) -> (int, int) {
        (self.value as int, self.scale as int)
    }
}

/// The text that the transport prints for a fixed-precision number with the
/// given integer and scale.
pub uninterp spec fn numeric_rendering(value: int, scale: int) -> Seq<char>;

/// `tiberius::numeric::Numeric::new_with_scale` and the `Display` of the
/// number it makes, reached through `to_string`: the text depends on the
/// integer and the scale alone. The constructor refuses a scale above 37.
#[verifier::external_body]
fn numeric_text(value: i128, scale: u8) -> (text: String)
    requires
        scale <= MAX_SCALE,
    ensures
        text@ == numeric_rendering(value as int, scale as int),
{
    tiberius::numeric::Numeric::new_with_scale(value, scale).to_string()
}

impl Decimal {
    #[verifier::type_invariant]
    spec fn scale_in_range(&self) -> bool {
        self.scale <= MAX_SCALE
    }

    /// The number with the given integer and scale, or `None` where the scale
    /// is above the largest.
    pub fn new(value: i128, scale: u8) -> (number: Option<Decimal>)
        ensures
            scale <= MAX_SCALE ==> (number matches Some(d) && d@ == (value as int, scale as int)),
            scale > MAX_SCALE ==> number is None,
    {
        if scale <= MAX_SCALE {
            Some(Decimal { value, scale })
        } else {
            None
        }
    }

    /// The integer of the number.
    pub fn value(&self) -> (value: i128)
        ensures
            value == self@.0,
    {
        self.value
    }

    /// The scale of the number, which is never above the largest.
    pub fn scale(&self) -> (scale: u8)
        ensures
            scale == self@.1,
            scale <= MAX_SCALE,
    {
        proof {
            use_type_invariant(self);
        }
        self.scale
    }

    /// The text of the number, as the transport prints it.
    pub fn text(&self) -> (text: String)
        ensures
            text@ == numeric_rendering(self@.0, self@.1),
    {
        proof {
            use_type_invariant(self);
        }
        numeric_text(self.value, self.scale)
    }
}

/// One cell of a result, by the type of its column. A cell of a nullable
/// column holds `None` for the null.
///
/// A floating-point cell carries the decimal text of its number: the numbers
/// themselves are printed where they are read.
#[derive(Clone, Debug, PartialEq, Eq)]
pub enum Cell {
    /// Bytes, which are never shown.
    Binary,
    Bit(Option<bool>),
    Text(Option<String>),
    I16(Option<i16>),
    I32(Option<i32>),
    I64(Option<i64>),
    Numeric(Option<Decimal>),
    F32(Option<String>),
    F64(Option<String>),
    /// A cell of any other type.
    Other,
}

/// What a cell holds, as far as its text depends on it.
pub enum CellModel {
    Binary,
    Bit(Option<bool>),
    Text(Option<Seq<char>>),
    Integer(Option<int>),
    Numeric(Option<(int, int)>),
    Float(Option<Seq<char>>),
    Other,
}

impl View for Cell {
    type V = CellModel;

    open spec fn view(&self) -> CellModel {
        match self {
            Cell::Binary => CellModel::Binary,
            Cell::Bit(b) => CellModel::Bit(*b),
            Cell::Text(t) => CellModel::Text(
                match t {
                    Some(s) => Some(s@),
                    None => None,
                },
            ),
            Cell::I16(n) => CellModel::Integer(
                match n {
                    Some(v) => Some(*v as int),
                    None => None,
                },
            ),
            Cell::I32(n) => CellModel::Integer(
                match n {
                    Some(v) => Some(*v as int),
                    None => None,
                },
            ),
            Cell::I64(n) => CellModel::Integer(
                match n {
                    Some(v) => Some(*v as int),
                    None => None,
                },
            ),
            Cell::Numeric(n) => CellModel::Numeric(
                match n {
                    Some(d) => Some(d@),
                    None => None,
                },
            ),
            Cell::F32(t) => CellModel::Float(
                match t {
                    Some(s) => Some(s@),
                    None => None,
                },
            ),
            Cell::F64(t) => CellModel::Float(
                match t {
                    Some(s) => Some(s@),
                    None => None,
                },
            ),
            Cell::Other => CellModel::Other,
        }
    }
}

/// The text that stands for every binary cell.
pub open spec fn binary_text() -> Seq<char> {
    "<binary data>"@
}

/// The text that stands for every cell of a type without a text of its own.
pub open spec fn unrepresented_text() -> Seq<char> {
    "nada"@
}

/// The text of a cell, or `None` for the one cell that has none: a null
/// fixed-precision number.
///
/// A null of any other type has the text of the type's default: `false`, `0`
/// or the empty text.
pub open spec fn normal_text(cell: CellModel) -> Option<Seq<char>> {
    match cell {
        CellModel::Binary => Some(binary_text()),
        CellModel::Bit(Some(true)) => Some("true"@),
        CellModel::Bit(_) => Some("false"@),
        CellModel::Text(Some(text)) => Some(text),
        CellModel::Text(None) => Some(Seq::empty()),
        CellModel::Integer(Some(n)) => Some(integer_text(n)),
        CellModel::Integer(None) => Some(integer_text(0)),
        CellModel::Numeric(Some(number)) => Some(numeric_rendering(number.0, number.1)),
        CellModel::Numeric(None) => None,
        CellModel::Float(Some(text)) => Some(text),
        CellModel::Float(None) => Some(integer_text(0)),
        CellModel::Other => Some(unrepresented_text()),
    }
}

/// The outcome is the text of the cell: the text where the cell has one, the
/// failure of normalisation where it has none.
pub open spec fn is_text_of(cell: CellModel, out: Result<String, SessionError>) -> bool {
    match normal_text(cell) {
        Some(text) => out matches Ok(s) && s@ == text,
        None => out matches Err(SessionError::NormalizationError),
    }
}

/// What a cell holds decides its text: two cells that hold the same, asked at
/// any two times, both fail or both give the same characters.
pub proof fn law_same_cell_same_text(
    a: Cell,
    b: Cell,
    first: Result<String, SessionError>,
    second: Result<String, SessionError>,
)
    requires
        a@ == b@,
        is_text_of(a@, first),
        is_text_of(b@, second),
    ensures
        first is Ok <==> second is Ok,
        first matches Ok(s) ==> (second matches Ok(t) && s@ == t@),
        first is Err ==> first == second,
{
}

/// The text of an optional text, with the given text for the null.
fn text_or(text: &Option<String>, null: &str) -> (out: String)
    ensures
        out@ == match text {
            Some(s) => s@,
            None => null@,
        },
{
    match text {
        Some(s) => s.clone(),
        None => null.to_owned(),
    }
}

impl Cell {
    /// The text of the cell. The one failure is a null fixed-precision
    /// number.
    pub fn text(&self) -> (out: Result<String, SessionError>)
        ensures
            is_text_of(self@, out),
    {
        match self {
            Cell::Binary => Ok("<binary data>".to_owned()),
            Cell::Bit(Some(true)) => Ok("true".to_owned()),
            Cell::Bit(_) => Ok("false".to_owned()),
            Cell::Text(text) => {
                proof {
                    reveal_strlit("");
                    assert(""@ =~= Seq::<char>::empty());
                }
                Ok(text_or(text, ""))
            },
            Cell::I16(Some(n)) => Ok(integer_to_text(*n as i64)),
            Cell::I32(Some(n)) => Ok(integer_to_text(*n as i64)),
            Cell::I64(Some(n)) => Ok(integer_to_text(*n)),
            Cell::I16(None) | Cell::I32(None) | Cell::I64(None) => Ok(integer_to_text(0)),
            Cell::Numeric(Some(number)) => Ok(number.text()),
            Cell::Numeric(None) => Err(SessionError::NormalizationError),
            Cell::F32(Some(text)) => Ok(text.clone()),
            Cell::F64(Some(text)) => Ok(text.clone()),
            Cell::F32(None) | Cell::F64(None) => Ok(integer_to_text(0)),
            Cell::Other => Ok("nada".to_owned()),
        }
    }
}

} // verus!
