use illusion_of_security::fields::{find_key, FieldBag, FieldValue, Number};
use illusion_of_security::text::str_eq;

fn text(s: &str) -> FieldValue {
    FieldValue::String(s.to_string())
}

fn whole(n: i64) -> FieldValue {
    if n < 0 {
        FieldValue::Number(Number::NegInt(n))
    } else {
        FieldValue::Number(Number::PosInt(n as u64))
    }
}

#[test]
fn str_eq_compares_characters() {
    assert!(str_eq("Wall", "Wall"));
    assert!(!str_eq("Wall", "wall"));
    assert!(!str_eq("Wall", "Wal"));
    assert!(!str_eq("", "x"));
    assert!(str_eq("", ""));
    assert!(str_eq("gr\u{00fc}n", "gr\u{00fc}n"));
    assert!(!str_eq("gr\u{00fc}n", "grun"));
}

#[test]
fn number_as_i64_of_each_kind() {
    assert_eq!(Number::PosInt(0).as_i64(), Some(0));
    assert_eq!(Number::PosInt(42).as_i64(), Some(42));
    assert_eq!(Number::PosInt(i64::MAX as u64).as_i64(), Some(i64::MAX));
    assert_eq!(Number::PosInt(i64::MAX as u64 + 1).as_i64(), None);
    assert_eq!(Number::PosInt(u64::MAX).as_i64(), None);
    assert_eq!(Number::NegInt(-1).as_i64(), Some(-1));
    assert_eq!(Number::NegInt(i64::MIN).as_i64(), Some(i64::MIN));
    assert_eq!(Number::Float(1.5f64.to_bits()).as_i64(), None);
}

#[test]
fn value_as_i64_only_for_integers() {
    assert_eq!(whole(3).as_i64(), Some(3));
    assert_eq!(whole(-7).as_i64(), Some(-7));
    assert_eq!(text("3").as_i64(), None);
    assert_eq!(FieldValue::Null.as_i64(), None);
    assert_eq!(FieldValue::Bool(true).as_i64(), None);
    assert_eq!(FieldValue::Array(vec![whole(3)]).as_i64(), None);
}

#[test]
fn value_as_str_only_for_strings() {
    assert_eq!(text("Enemy").as_str(), Some("Enemy"));
    assert_eq!(whole(1).as_str(), None);
    assert_eq!(FieldValue::Null.as_str(), None);
}

#[test]
fn value_as_number_only_for_numbers() {
    assert_eq!(whole(9).as_number(), Some(Number::PosInt(9)));
    assert_eq!(
        FieldValue::Number(Number::Float(2.5f64.to_bits())).as_number(),
        Some(Number::Float(2.5f64.to_bits()))
    );
    assert_eq!(text("9").as_number(), None);
}

#[test]
fn value_as_array_gives_items_in_order() {
    let v = FieldValue::Array(vec![whole(1), text("two"), FieldValue::Null]);
    let items = v.as_array().unwrap();
    assert_eq!(items.len(), 3);
    assert_eq!(items[0].as_i64(), Some(1));
    assert_eq!(items[1].as_str(), Some("two"));
    assert!(matches!(items[2], FieldValue::Null));
    assert!(text("x").as_array().is_none());
}

#[test]
fn object_member_later_entry_counts() {
    let v = FieldValue::Object(vec![
        ("cx".to_string(), whole(1)),
        ("cy".to_string(), whole(2)),
        ("cx".to_string(), whole(5)),
    ]);
    assert_eq!(v.member("cx").unwrap().as_i64(), Some(5));
    assert_eq!(v.member("cy").unwrap().as_i64(), Some(2));
    assert!(v.member("cz").is_none());
    assert!(v.member("CX").is_none());
    assert!(whole(1).member("cx").is_none());
}

#[test]
fn find_key_finds_last_position() {
    let entries = vec![
        ("a".to_string(), 1u8),
        ("b".to_string(), 2u8),
        ("a".to_string(), 3u8),
    ];
    assert_eq!(find_key(&entries, "a"), Some(2));
    assert_eq!(find_key(&entries, "b"), Some(1));
    assert_eq!(find_key(&entries, "c"), None);
    let none: Vec<(String, u8)> = Vec::new();
    assert_eq!(find_key(&none, "a"), None);
}

#[test]
fn bag_get_tells_missing_from_empty() {
    let mut bag = FieldBag::new();
    assert!(bag.get("Count").is_none());
    bag.insert("Count".to_string(), Some(whole(3)));
    bag.insert("Note".to_string(), None);
    assert_eq!(bag.get("Count").unwrap().as_ref().unwrap().as_i64(), Some(3));
    assert!(bag.get("Note").unwrap().is_none());
    assert!(bag.get("count").is_none());
}

#[test]
fn bag_insert_replaces_field_of_same_name() {
    let mut bag = FieldBag::new();
    bag.insert("Count".to_string(), Some(whole(3)));
    bag.insert("Other".to_string(), Some(text("x")));
    bag.insert("Count".to_string(), Some(whole(8)));
    assert_eq!(bag.get("Count").unwrap().as_ref().unwrap().as_i64(), Some(8));
    assert_eq!(bag.get("Other").unwrap().as_ref().unwrap().as_str(), Some("x"));
    bag.insert("Count".to_string(), None);
    assert!(bag.get("Count").unwrap().is_none());
}

#[test]
fn value_clone_holds_same_data() {
    let v = FieldValue::Array(vec![
        FieldValue::Object(vec![("cx".to_string(), whole(4)), ("cy".to_string(), whole(-9))]),
        text("t"),
        FieldValue::Bool(false),
        FieldValue::Null,
        FieldValue::Number(Number::Float(0.25f64.to_bits())),
    ]);
    let c = v.clone();
    let items = c.as_array().unwrap();
    assert_eq!(items.len(), 5);
    assert_eq!(items[0].member("cx").unwrap().as_i64(), Some(4));
    assert_eq!(items[0].member("cy").unwrap().as_i64(), Some(-9));
    assert_eq!(items[1].as_str(), Some("t"));
    assert!(matches!(items[2], FieldValue::Bool(false)));
    assert!(matches!(items[3], FieldValue::Null));
    assert_eq!(items[4].as_number(), Some(Number::Float(0.25f64.to_bits())));
}

#[test]
fn bag_clone_holds_same_fields() {
    let mut bag = FieldBag::new();
    bag.insert("A".to_string(), Some(whole(1)));
    bag.insert("B".to_string(), None);
    bag.insert("A".to_string(), Some(whole(2)));
    let copy = bag.clone();
    assert_eq!(copy.get("A").unwrap().as_ref().unwrap().as_i64(), Some(2));
    assert!(copy.get("B").unwrap().is_none());
    assert!(copy.get("C").is_none());
}
