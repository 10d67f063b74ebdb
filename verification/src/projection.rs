//! Which columns of a table a read keeps.
//!
//! A caller names the columns that it wants, each by its name or by its
//! position. A request for no column in particular keeps them all.
use vstd::prelude::*;

verus! {

/// One column, named or numbered.
#[derive(Clone, Debug, PartialEq, Eq)]
pub enum Field {
    Name(String),
    Index(usize),
}

/// A column, as a mathematical value.
pub enum FieldView {
    Name(Seq<char>),
    Index(usize),
}

impl View for Field {
    type V = FieldView;

    open spec fn view(&self) -> FieldView {
        match *self {
            Field::Name(name) => FieldView::Name(name@),
            Field::Index(index) => FieldView::Index(index),
        }
    }
}

/// The columns that a read keeps.
#[derive(Clone, Debug, PartialEq, Eq)]
pub enum Projection {
    /// Every column.
    All,
    /// These columns, in this order.
    Flat(Vec<Field>),
}

/// What a caller handed over to choose one column.
#[derive(Clone, Debug, PartialEq, Eq)]
pub enum Column {
    /// A text: the name of the column.
    Name(String),
    /// A number: the position of the column.
    Index(usize),
    /// Anything else.
    Other,
}

/// A choice of columns that cannot be read as one.
#[derive(Clone, Copy, Debug, PartialEq, Eq, Structural)]
pub struct UnexpectedColumn {
    /// The position of the first choice that is neither a name nor a number.
    pub position: usize,
}

/// The field that a choice of one column stands for, if it stands for one.
pub open spec fn field_of(column: Column) -> Option<FieldView> {
    match column {
        Column::Name(name) => Some(FieldView::Name(name@)),
        Column::Index(index) => Some(FieldView::Index(index)),
        Column::Other => None,
    }
}

/// Whether every choice of `columns` stands for a field.
pub open spec fn all_fields(columns: Seq<Column>) -> bool {
    forall|i: int| 0 <= i < columns.len() ==> field_of(#[trigger] columns[i]) is Some
}

/// Whether `position` is the first choice of `columns` that stands for no
/// field.
pub open spec fn first_unexpected(columns: Seq<Column>, position: int) -> bool {
    &&& 0 <= position < columns.len()
    &&& field_of(columns[position]) is None
    &&& forall|i: int| 0 <= i < position ==> field_of(#[trigger] columns[i]) is Some
}

/// The projection that a choice of columns asks for: every column where no
/// choice was made, else the chosen columns in their order. A choice that is
/// neither a name nor a number is refused, the first such by its position.
pub fn projection_from_columns(columns: Option<&Vec<Column>>) -> (r: Result<
    Projection,
    UnexpectedColumn,
>)
    ensures
        match r {
            Ok(Projection::All) => columns is None,
            Ok(Projection::Flat(fields)) => {
                &&& columns matches Some(chosen)
                &&& all_fields(chosen@)
                &&& fields@.len() == chosen@.len()
                &&& forall|i: int|
                    0 <= i < fields@.len() ==> Some((#[trigger] fields@[i])@) == field_of(
                        chosen@[i],
                    )
            },
            Err(e) => columns matches Some(chosen) && first_unexpected(
                chosen@,
                e.position as int,
            ),
        },
{
    match columns {
        None => Ok(Projection::All),
        Some(chosen) => {
            let mut fields: Vec<Field> = Vec::new();
            let mut i: usize = 0;
            while i < chosen.len()
                invariant
                    columns == Some(chosen),
                    i <= chosen@.len(),
                    fields@.len() == i,
                    forall|j: int|
                        0 <= j < i ==> Some((#[trigger] fields@[j])@) == field_of(chosen@[j]),
                decreases chosen@.len() - i,
            {
                match &chosen[i] {
                    Column::Name(name) => fields.push(Field::Name(name.clone())),
                    Column::Index(index) => fields.push(Field::Index(*index)),
                    Column::Other => {
                        assert forall|j: int| 0 <= j < i implies field_of(
                            #[trigger] chosen@[j],
                        ) is Some by {
                            assert(Some(fields@[j]@) == field_of(chosen@[j]));
                        }
                        return Err(UnexpectedColumn { position: i });
                    },
                }
                i += 1;
            }
            assert(all_fields(chosen@)) by {
                assert forall|j: int| 0 <= j < chosen@.len() implies field_of(
                    #[trigger] chosen@[j],
                ) is Some by {
                    assert(Some(fields@[j]@) == field_of(chosen@[j]));
                }
            }
            Ok(Projection::Flat(fields))
        },
    }
}

} // verus!
