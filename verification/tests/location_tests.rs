use relay_pagination::get_location_test_data;
use relay_pagination::Location;

#[test]
fn location_test_data_has_three_rows() {
    let rows = get_location_test_data();
    assert_eq!(rows.len(), 3);
    assert_eq!(rows[0].id, "lumiere");
    assert_eq!(rows[1].id, "esquies-nest");
    assert_eq!(rows[2].id, "monocos-station");
}

#[test]
fn location_from_row_keeps_fields() {
    let rows = get_location_test_data();
    let loc = Location::from(rows[1].clone());
    assert_eq!(loc.id, "esquies-nest");
    assert_eq!(loc.name, rows[1].name);
}
