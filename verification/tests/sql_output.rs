use postal_sql::run_rows;
use postal_sql::sql::{create_cities_sql, create_prefs_sql, create_towns_sql};
use postal_sql::tables::{City, Pref, Town};

fn row(
    pref_code: &str,
    pref_name: &str,
    city_code: &str,
    city_name: &str,
    zip: &str,
    area: &str,
    street: &str,
    kyoto: &str,
    flag: &str,
) -> Vec<String> {
    let mut f = vec![String::new(); 22];
    f[1] = pref_code.to_string();
    f[2] = city_code.to_string();
    f[4] = zip.to_string();
    f[5] = flag.to_string();
    f[7] = pref_name.to_string();
    f[9] = city_name.to_string();
    f[11] = area.to_string();
    f[14] = kyoto.to_string();
    f[15] = street.to_string();
    f
}

#[test]
fn prefs_sql_exact_layout() {
    let prefs = vec![
        Pref { id: 13, name: "Tokyo".to_string() },
        Pref { id: 1, name: "Hokkaido".to_string() },
    ];
    assert_eq!(
        create_prefs_sql(&prefs),
        "INSERT INTO prefs(id, name) VALUES\n(13, 'Tokyo'),\n(1, 'Hokkaido');\n\n"
    );
}

#[test]
fn prefs_sql_single_row_ends_with_semicolon() {
    let prefs = vec![Pref { id: 0, name: "Nowhere".to_string() }];
    assert_eq!(
        create_prefs_sql(&prefs),
        "INSERT INTO prefs(id, name) VALUES\n(0, 'Nowhere');\n\n"
    );
}

#[test]
fn empty_collection_yields_header_only() {
    assert_eq!(create_prefs_sql(&Vec::new()), "INSERT INTO prefs(id, name) VALUES\n");
    assert_eq!(
        create_cities_sql(&Vec::new()),
        "INSERT INTO cities(code, pref_id, name) VALUES\n"
    );
    assert_eq!(
        create_towns_sql(&Vec::new()),
        "INSERT INTO towns(id, city_code, zip_code, area_name, street_name) VALUES\n"
    );
}

#[test]
fn cities_sql_exact_layout() {
    let cities = vec![City {
        code: "13101".to_string(),
        name: "Chiyoda".to_string(),
        pref_id: 13,
    }];
    assert_eq!(
        create_cities_sql(&cities),
        "INSERT INTO cities(code, pref_id, name) VALUES\n('13101', 13, 'Chiyoda');\n\n"
    );
}

#[test]
fn towns_sql_exact_layout() {
    let towns = vec![
        Town {
            id: 1,
            zip_code: "1000001".to_string(),
            area_name: "Chiyoda".to_string(),
            street_name: "Imperial Palace".to_string(),
            city_code: "13101".to_string(),
        },
        Town {
            id: 2,
            zip_code: "1000002".to_string(),
            area_name: "Marunouchi".to_string(),
            street_name: "S".to_string(),
            city_code: "13101".to_string(),
        },
    ];
    assert_eq!(
        create_towns_sql(&towns),
        "INSERT INTO towns(id, city_code, zip_code, area_name, street_name) VALUES\n\
         (1, '13101', '1000001', 'Chiyoda', 'Imperial Palace'),\n\
         (2, '13101', '1000002', 'Marunouchi', 'S');\n\n"
    );
}

#[test]
fn multi_digit_ids_render_in_decimal() {
    let prefs = vec![Pref { id: 255, name: "Edge".to_string() }];
    assert_eq!(
        create_prefs_sql(&prefs),
        "INSERT INTO prefs(id, name) VALUES\n(255, 'Edge');\n\n"
    );
    let towns = vec![Town {
        id: 120,
        zip_code: "z".to_string(),
        area_name: "a".to_string(),
        street_name: "s".to_string(),
        city_code: "c".to_string(),
    }];
    assert_eq!(
        create_towns_sql(&towns),
        "INSERT INTO towns(id, city_code, zip_code, area_name, street_name) VALUES\n\
         (120, 'c', 'z', 'a', 's');\n\n"
    );
}

#[test]
fn run_rows_emits_three_statements_in_order() {
    let rows = vec![
        row(
            "13",
            "Tokyo",
            "13101",
            "Chiyoda",
            "1000001",
            "Chiyoda",
            "Imperial Palace",
            "",
            "0",
        ),
        row(
            "13",
            "Tokyo",
            "13101",
            "Chiyoda",
            "1000002",
            "Marunouchi",
            "Imperial Palace",
            "",
            "0",
        ),
    ];
    let out = run_rows(&rows).unwrap();
    assert_eq!(
        out,
        "INSERT INTO prefs(id, name) VALUES\n\
         (13, 'Tokyo');\n\n\
         INSERT INTO cities(code, pref_id, name) VALUES\n\
         ('13101', 13, 'Chiyoda');\n\n\
         INSERT INTO towns(id, city_code, zip_code, area_name, street_name) VALUES\n\
         (1, '13101', '1000001', 'Chiyoda', 'Imperial Palace'),\n\
         (2, '13101', '1000002', 'Marunouchi', 'Imperial Palace');\n\n"
    );
}

#[test]
fn run_rows_on_empty_input_emits_headers_only() {
    let out = run_rows(&Vec::new()).unwrap();
    assert_eq!(
        out,
        "INSERT INTO prefs(id, name) VALUES\n\
         INSERT INTO cities(code, pref_id, name) VALUES\n\
         INSERT INTO towns(id, city_code, zip_code, area_name, street_name) VALUES\n"
    );
}

#[test]
fn run_rows_skips_bulk_recipients_entirely() {
    let rows = vec![
        row("13", "Tokyo", "13101", "Chiyoda", "9990000", "HQ", "S", "", "1"),
        row("13", "Tokyo", "13101", "Chiyoda", "1000001", "A", "S", "", "0"),
    ];
    let out = run_rows(&rows).unwrap();
    assert_eq!(
        out,
        "INSERT INTO prefs(id, name) VALUES\n\
         (13, 'Tokyo');\n\n\
         INSERT INTO cities(code, pref_id, name) VALUES\n\
         ('13101', 13, 'Chiyoda');\n\n\
         INSERT INTO towns(id, city_code, zip_code, area_name, street_name) VALUES\n\
         (1, '13101', '1000001', 'A', 'S');\n\n"
    );
}
