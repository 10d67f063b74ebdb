use vortex_array::projection::projection_from_columns;
use vortex_array::projection::Column;
use vortex_array::projection::Field;
use vortex_array::projection::Projection;
use vortex_array::projection::UnexpectedColumn;

#[test]
fn no_choice_keeps_every_column() {
    assert_eq!(projection_from_columns(None), Ok(Projection::All));
}

#[test]
fn chosen_columns_are_kept_in_their_order() {
    let columns = vec![
        Column::Name("price".to_string()),
        Column::Index(3),
        Column::Name("".to_string()),
        Column::Index(0),
    ];
    assert_eq!(
        projection_from_columns(Some(&columns)),
        Ok(Projection::Flat(vec![
            Field::Name("price".to_string()),
            Field::Index(3),
            Field::Name("".to_string()),
            Field::Index(0),
        ]))
    );
    assert_eq!(
        projection_from_columns(Some(&vec![])),
        Ok(Projection::Flat(vec![]))
    );
}

#[test]
fn the_first_unexpected_choice_is_refused() {
    let columns = vec![
        Column::Index(1),
        Column::Other,
        Column::Name("late".to_string()),
        Column::Other,
    ];
    assert_eq!(
        projection_from_columns(Some(&columns)),
        Err(UnexpectedColumn { position: 1 })
    );
    assert_eq!(
        projection_from_columns(Some(&vec![Column::Other])),
        Err(UnexpectedColumn { position: 0 })
    );
}
