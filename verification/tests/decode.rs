use postal_sql::record::{decode, DecodeError};

fn row(
    pref_code: &str,
    pref_name: &str,
    city_code: &str,
    city_name: &str,
    zip: &str,
    area: &str,
    street: &str,
    kyoto: &str,
    flag: &str,
) -> Vec<String> {
    let mut f = vec![String::new(); 22];
    f[1] = pref_code.to_string();
    f[2] = city_code.to_string();
    f[4] = zip.to_string();
    f[5] = flag.to_string();
    f[7] = pref_name.to_string();
    f[9] = city_name.to_string();
    f[11] = area.to_string();
    f[14] = kyoto.to_string();
    f[15] = street.to_string();
    f
}

#[test]
fn decode_maps_fields_by_position() {
    let r = decode(&row(
        "13",
        "Tokyo",
        "13101",
        "Chiyoda",
        "1000001",
        "Chiyoda",
        "Imperial Palace",
        "",
        "0",
    ))
    .unwrap();
    assert!(!r.skip);
    assert_eq!(r.pref_code, 13);
    assert_eq!(r.pref_name, "Tokyo");
    assert_eq!(r.city_code, "13101");
    assert_eq!(r.city_name, "Chiyoda");
    assert_eq!(r.zip_code, "1000001");
    assert_eq!(r.town_area, "Chiyoda");
    assert_eq!(r.street_name, "Imperial Palace");
    assert_eq!(r.kyoto_street_name, "");
}

#[test]
fn decode_flags_bulk_recipient_as_skip() {
    let r = decode(&row("13", "Tokyo", "13101", "Chiyoda", "1000001", "A", "S", "", "1")).unwrap();
    assert!(r.skip);
    let r0 = decode(&row("13", "Tokyo", "13101", "Chiyoda", "1000001", "A", "S", "", "0"))
        .unwrap();
    assert!(!r0.skip);
}

#[test]
fn decode_rejects_wrong_field_count() {
    let mut f = row("13", "Tokyo", "13101", "Chiyoda", "1000001", "A", "S", "", "0");
    f.pop();
    assert_eq!(decode(&f).unwrap_err(), DecodeError::FieldCount);
    f.push(String::new());
    f.push(String::new());
    assert_eq!(decode(&f).unwrap_err(), DecodeError::FieldCount);
}

#[test]
fn decode_rejects_non_numeric_region_code() {
    let f = row("north", "Tokyo", "13101", "Chiyoda", "1000001", "A", "S", "", "0");
    assert_eq!(decode(&f).unwrap_err(), DecodeError::RegionCode);
    let empty = row("", "Tokyo", "13101", "Chiyoda", "1000001", "A", "S", "", "0");
    assert_eq!(decode(&empty).unwrap_err(), DecodeError::RegionCode);
    let too_big = row("256", "Tokyo", "13101", "Chiyoda", "1000001", "A", "S", "", "0");
    assert_eq!(decode(&too_big).unwrap_err(), DecodeError::RegionCode);
    let boundary = row("255", "Tokyo", "13101", "Chiyoda", "1000001", "A", "S", "", "0");
    assert_eq!(boundary.len(), 22);
    assert_eq!(decode(&boundary).unwrap().pref_code, 255);
}

#[test]
fn decode_rejects_non_numeric_bulk_flag() {
    let f = row("13", "Tokyo", "13101", "Chiyoda", "1000001", "A", "S", "", "maybe");
    assert_eq!(decode(&f).unwrap_err(), DecodeError::BulkFlag);
}

#[test]
fn decode_reports_bulk_flag_before_region_code() {
    let f = row("north", "Tokyo", "13101", "Chiyoda", "1000001", "A", "S", "", "maybe");
    assert_eq!(decode(&f).unwrap_err(), DecodeError::BulkFlag);
}

#[test]
fn decode_error_messages() {
    assert_eq!(
        DecodeError::FieldCount.message(),
        "record does not have exactly 22 fields"
    );
    assert_eq!(
        DecodeError::BulkFlag.message(),
        "bulk-recipient flag is not a number in 0..=255"
    );
    assert_eq!(
        DecodeError::RegionCode.message(),
        "region code is not a number in 0..=255"
    );
}
