use genedata::schema::{lookup_type, render_cell, AttrInfo, Table, TypeInfo};
use genedata::text::{alnum_char, alnum_text, bool_text, decimal, hundredths, json_object};
use genedata::typed_generator::generator::{timestamp_text, Generator};

fn is_alnum_str(s: &str) -> bool {
    s.chars().all(|c| c.is_ascii_alphanumeric())
}

fn table_of(cols: &[(&str, u32, i32)]) -> Table {
    let mut t = Table::new("t".to_string());
    for (name, tid, typmod) in cols {
        t.add_column(name.to_string(), *tid, *typmod);
    }
    t
}

#[test]
fn lookup_covers_each_category() {
    assert_eq!(lookup_type(1043), Some(TypeInfo::Text(1043)));
    assert_eq!(lookup_type(25), Some(TypeInfo::Text(25)));
    assert_eq!(lookup_type(23), Some(TypeInfo::Int(23)));
    assert_eq!(lookup_type(20), Some(TypeInfo::Int(20)));
    assert_eq!(lookup_type(701), Some(TypeInfo::Float(701)));
    assert_eq!(lookup_type(1700), Some(TypeInfo::Float(1700)));
    assert_eq!(lookup_type(16), Some(TypeInfo::Bool(16)));
    assert_eq!(lookup_type(1114), Some(TypeInfo::Time(1114)));
    assert_eq!(lookup_type(1082), Some(TypeInfo::Time(1082)));
    assert_eq!(lookup_type(3802), Some(TypeInfo::Json(3802)));
    assert_eq!(lookup_type(0), None);
    assert_eq!(lookup_type(114), None);
}

#[test]
fn defaults_are_text_zero() {
    assert_eq!(TypeInfo::default(), TypeInfo::Text(0));
    let a = AttrInfo::default();
    assert_eq!(a.attname, "");
    assert_eq!(a.type_info, TypeInfo::Text(0));
    assert_eq!(a.typmod, 0);
}

#[test]
fn unmapped_type_falls_back_to_text() {
    let mut t = Table::new("t".to_string());
    assert!(t.add_column("a".to_string(), 23, -1));
    assert!(!t.add_column("b".to_string(), 114, 77));
    assert_eq!(t.tids.len(), 2);
    assert_eq!(t.tids[1].attname, "b");
    assert_eq!(t.tids[1].type_info, TypeInfo::Text(0));
    assert_eq!(t.tids[1].typmod, 0);
    assert!(t.is_well_formed());
}

#[test]
fn short_text_modifier_is_not_well_formed() {
    let t = table_of(&[("a", 1043, 3)]);
    assert!(!t.is_well_formed());
    let t = table_of(&[("a", 23, 3), ("b", 1043, 5), ("c", 25, -1)]);
    assert!(t.is_well_formed());
}

#[test]
fn decimal_text() {
    assert_eq!(decimal(0), "0");
    assert_eq!(decimal(7), "7");
    assert_eq!(decimal(999), "999");
    assert_eq!(decimal(1000), "1000");
    assert_eq!(decimal(u32::MAX), "4294967295");
}

#[test]
fn hundredths_text() {
    assert_eq!(hundredths(0), "0");
    assert_eq!(hundredths(5), "0.05");
    assert_eq!(hundredths(10), "0.1");
    assert_eq!(hundredths(50), "0.5");
    assert_eq!(hundredths(98), "0.98");
    for a in 0..99u32 {
        assert_eq!(hundredths(a), (a as f32 / 100.0).to_string());
    }
}

#[test]
fn bool_as_text() {
    assert_eq!(bool_text(true), "true");
    assert_eq!(bool_text(false), "false");
}

#[test]
fn alphabet_order() {
    assert_eq!(alnum_char(0), 'a');
    assert_eq!(alnum_char(25), 'z');
    assert_eq!(alnum_char(26), 'A');
    assert_eq!(alnum_char(51), 'Z');
    assert_eq!(alnum_char(52), '0');
    assert_eq!(alnum_char(61), '9');
    assert_eq!(alnum_text(&vec![0, 25, 26, 51, 52, 61]), "azAZ09");
    assert_eq!(alnum_text(&vec![]), "");
}

#[test]
fn json_object_layout() {
    let keys: Vec<String> = ["ab", "", "Z", "ab", "q1", "x", "y", "z", "00", "k"]
        .iter()
        .map(|s| s.to_string())
        .collect();
    assert_eq!(
        json_object(&keys),
        "{\"ab\":0,\"\":1,\"Z\":2,\"ab\":3,\"q1\":4,\"x\":5,\"y\":6,\"z\":7,\"00\":8,\"k\":9}"
    );
    assert_eq!(json_object(&vec![]), "{}");
}

#[test]
fn quoting_by_category() {
    assert_eq!(render_cell(TypeInfo::Text(25), "ab".to_string()), "'ab'");
    assert_eq!(render_cell(TypeInfo::Time(1114), "x".to_string()), "'x'");
    assert_eq!(render_cell(TypeInfo::Int(23), "12".to_string()), "12");
    assert_eq!(render_cell(TypeInfo::Json(3802), "{}".to_string()), "{}");
}

#[test]
fn timestamp_is_two_days_back() {
    // 2015-05-15T00:00:00Z plus 48 hours.
    assert_eq!(timestamp_text(1431648000 + 172800), "2015-05-15T00:00:00Z");
    assert_eq!(timestamp_text(172800 + 59), "1970-01-01T00:00:59Z");
    assert_eq!(timestamp_text(i64::MIN), "");
}

#[test]
fn text_stays_below_bound() {
    let mut g = Generator::from_seed(1);
    for max in [1, 2, 3, 46, 500] {
        for _ in 0..200 {
            let s = g.get_text(max, &25);
            assert!((s.chars().count() as i32) < max);
            assert!(is_alnum_str(&s));
        }
    }
    for _ in 0..50 {
        assert_eq!(g.get_text(1, &25), "");
    }
}

#[test]
fn int_and_float_ranges() {
    let mut g = Generator::from_seed(2);
    for _ in 0..1000 {
        let n: u32 = g.get_int(&23).parse().unwrap();
        assert!(n < 1000);
        let f: f64 = g.get_float(&701).parse().unwrap();
        assert!((0.0..0.99).contains(&f));
        let b = g.get_bool(&16);
        assert!(b == "true" || b == "false");
    }
}

#[test]
fn json_has_ten_members_in_order() {
    let mut g = Generator::from_seed(3);
    for _ in 0..100 {
        let s = g.get_json(&3802);
        assert!(s.starts_with('{') && s.ends_with('}'));
        let body = &s[1..s.len() - 1];
        let members: Vec<&str> = body.split(',').collect();
        assert_eq!(members.len(), 10);
        for (i, m) in members.iter().enumerate() {
            let (k, v) = m.rsplit_once(':').unwrap();
            assert!(k.len() >= 2 && k.starts_with('"') && k.ends_with('"'));
            let key = &k[1..k.len() - 1];
            assert!(key.len() < 3 && is_alnum_str(key));
            assert_eq!(v, i.to_string());
        }
    }
}

#[test]
fn time_has_layout() {
    let mut g = Generator::new();
    let s = g.get_time(&1114);
    let b = s.as_bytes();
    assert_eq!(b.len(), 20);
    assert_eq!(b[4], b'-');
    assert_eq!(b[7], b'-');
    assert_eq!(b[10], b'T');
    assert_eq!(b[13], b':');
    assert_eq!(b[16], b':');
    assert_eq!(b[19], b'Z');
}

#[test]
fn default_generator_works() {
    let mut g = Generator::default();
    assert!(g.get_text(5, &25).len() < 5);
}

#[test]
fn row_and_statement_rendering() {
    let t = table_of(&[("a", 25, -1), ("b", 23, -1), ("c", 1114, -1), ("d", 16, -1)]);
    let values: Vec<String> = ["x", "1", "2020-01-01T00:00:00Z", "true"]
        .iter()
        .map(|s| s.to_string())
        .collect();
    let row = t.render_row(&values);
    assert_eq!(row, "('x',1,'2020-01-01T00:00:00Z',true)");
    let stmt = t.render_statement(&vec![row.clone(), "(1)".to_string()]);
    assert_eq!(stmt, format!("insert into t values {},(1);", row));
    assert_eq!(t.render_statement(&vec![]), "insert into t values ;");
}

#[test]
fn batch_zero_is_no_statement() {
    let t = table_of(&[("a", 23, -1)]);
    let mut g = Generator::from_seed(4);
    assert_eq!(t.generate_insertbatch(0, &mut g), "");
}

fn tuples_of(stmt: &str, table: &str) -> Vec<Vec<String>> {
    let prefix = format!("insert into {} values ", table);
    assert!(stmt.starts_with(&prefix));
    assert!(stmt.ends_with(';'));
    let body = &stmt[prefix.len()..stmt.len() - 1];
    assert!(body.starts_with('(') && body.ends_with(')'));
    body[1..body.len() - 1]
        .split("),(")
        .map(|t| t.split(',').map(|s| s.to_string()).collect())
        .collect()
}

#[test]
fn batch_has_one_tuple_per_row() {
    let t = table_of(&[("a", 1043, 14), ("b", 23, -1), ("c", 16, -1), ("d", 701, -1)]);
    let mut g = Generator::from_seed(5);
    for b in [1u32, 2, 7] {
        let stmt = t.generate_insertbatch(b, &mut g);
        let tuples = tuples_of(&stmt, "t");
        assert_eq!(tuples.len(), b as usize);
        for tup in tuples {
            assert_eq!(tup.len(), 4);
            let text = &tup[0];
            assert!(text.starts_with('\'') && text.ends_with('\''));
            assert!(text.len() - 2 < 10);
            assert!(tup[1].parse::<u32>().unwrap() < 1000);
            assert!(tup[2] == "true" || tup[2] == "false");
            assert!(tup[3].parse::<f64>().unwrap() < 0.99);
        }
    }
}

#[test]
fn one_value_for_empty_table() {
    let t = Table::new("e".to_string());
    let mut g = Generator::from_seed(6);
    assert_eq!(t.generate_one_value(&mut g), "()");
}
