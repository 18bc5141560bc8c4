use nut_webgui::dispatch::validate_write;
use nut_webgui::problem::ProblemDetail;
use nut_webgui::store::{DeviceEntry, DeviceStore};
use nut_webgui::validate::{render_options, rejection, validate_value, RejectKind, Value, VarDetail};

fn text(s: &str) -> Value {
    Value::Text(s.to_string())
}

fn detail_of(p: &ProblemDetail) -> String {
    p.detail.clone().unwrap_or_default()
}

#[test]
fn string_too_long() {
    let d = VarDetail::String { max_len: 5 };
    assert_eq!(validate_value(&d, &text("foo bar")), Err(RejectKind::TooLong));
    let p = rejection("ups.id", &d, RejectKind::TooLong);
    assert_eq!(p.title, "Out of range");
    assert_eq!(p.status, 400);
    assert_eq!(detail_of(&p), "Maximum allowed string length is 5.");
}

#[test]
fn string_length_counts_untrimmed_value() {
    let d = VarDetail::String { max_len: 5 };
    assert_eq!(validate_value(&d, &text("  abc  ")), Err(RejectKind::TooLong));
    assert_eq!(validate_value(&d, &text("abcde")), Ok(()));
}

#[test]
fn string_blank_rejected() {
    for max_len in [0usize, 5, 100] {
        let d = VarDetail::String { max_len };
        assert_eq!(validate_value(&d, &text("   ")), Err(RejectKind::Empty));
        assert_eq!(validate_value(&d, &text("")), Err(RejectKind::Empty));
        assert_eq!(validate_value(&d, &text("\t\n ")), Err(RejectKind::Empty));
    }
    let p = rejection("ups.id", &VarDetail::String { max_len: 5 }, RejectKind::Empty);
    assert_eq!(p.title, "Empty value");
    assert_eq!(detail_of(&p), "Value cannot be empty or consist of only whitespaces.");
}

#[test]
fn string_rejects_number() {
    let d = VarDetail::String { max_len: 5 };
    assert_eq!(validate_value(&d, &Value::Number(3)), Err(RejectKind::NotText));
    let p = rejection("ups.id", &d, RejectKind::NotText);
    assert_eq!(p.title, "Invalid value type");
    assert_eq!(detail_of(&p), "'ups.id' expects a string type, but the provided value is not a string.");
}

#[test]
fn range_bounds() {
    let narrow = VarDetail::Range { min: Value::Number(0), max: Value::Number(5) };
    let wide = VarDetail::Range { min: Value::Number(0), max: Value::Number(10) };
    assert_eq!(validate_value(&narrow, &Value::Number(7)), Err(RejectKind::OutOfRange));
    assert_eq!(validate_value(&wide, &Value::Number(7)), Ok(()));
    assert_eq!(validate_value(&wide, &Value::Number(0)), Ok(()));
    assert_eq!(validate_value(&wide, &Value::Number(10)), Ok(()));
    assert_eq!(validate_value(&wide, &Value::Number(-1)), Err(RejectKind::OutOfRange));
    let p = rejection("battery.charge.low", &narrow, RejectKind::OutOfRange);
    assert_eq!(p.title, "Out of range");
    assert_eq!(p.status, 400);
    assert_eq!(detail_of(&p), "'battery.charge.low' is not within the acceptable range [0, 5]");
}

#[test]
fn range_negative_bound_message() {
    let d = VarDetail::Range { min: Value::Number(-20), max: Value::Number(120) };
    let p = rejection("t", &d, RejectKind::OutOfRange);
    assert_eq!(detail_of(&p), "'t' is not within the acceptable range [-20, 120]");
}

#[test]
fn range_rejects_text() {
    let d = VarDetail::Range { min: Value::Number(0), max: Value::Number(10) };
    assert_eq!(validate_value(&d, &text("7")), Err(RejectKind::RangeNotNumber));
    let p = rejection("x", &d, RejectKind::RangeNotNumber);
    assert_eq!(p.title, "Invalid value type");
    assert_eq!(
        detail_of(&p),
        "'x' expects a numeric value between 0 and 10, but the provided value is not a number."
    );
}

#[test]
fn range_malformed_bounds() {
    let d = VarDetail::Range { min: text("low"), max: Value::Number(10) };
    assert_eq!(validate_value(&d, &Value::Number(7)), Err(RejectKind::MalformedBounds));
    let p = rejection("x", &d, RejectKind::MalformedBounds);
    assert_eq!(p.title, "Malformed driver response");
    assert_eq!(p.status, 500);
}

#[test]
fn enum_options() {
    let d = VarDetail::Enum { options: vec![text("red"), text("green")] };
    assert_eq!(validate_value(&d, &text("blue")), Err(RejectKind::InvalidOption));
    assert_eq!(validate_value(&d, &text("green")), Ok(()));
    let p = rejection("color", &d, RejectKind::InvalidOption);
    assert_eq!(p.title, "Invalid option");
    assert_eq!(detail_of(&p), "'color' is an enum type, allowed options: [\"red\", \"green\"]");
}

#[test]
fn enum_option_listing() {
    assert_eq!(render_options(&vec![]), "[]");
    assert_eq!(render_options(&vec![Value::Number(42)]), "[\"42\"]");
    assert_eq!(render_options(&vec![text("a"), Value::Number(-3), text("c")]), "[\"a\", \"-3\", \"c\"]");
}

#[test]
fn number_constraint() {
    assert_eq!(validate_value(&VarDetail::Number, &Value::Number(12)), Ok(()));
    assert_eq!(validate_value(&VarDetail::Number, &text("twelve")), Err(RejectKind::NotNumber));
    let p = rejection("ups.delay", &VarDetail::Number, RejectKind::NotNumber);
    assert_eq!(detail_of(&p), "'ups.delay' expects a numeric type, but the provided value is not a number.");
}

fn store_with_rw() -> DeviceStore {
    let mut store = DeviceStore::new();
    let mut dev = DeviceEntry::new("ups1".to_string());
    dev.rw_variables.insert("ups.delay".to_string(), VarDetail::Number);
    store.add_device(dev);
    store
}

#[test]
fn write_unknown_device() {
    let store = store_with_rw();
    let p = validate_write(&store, "nope", "ups.delay", &Value::Number(1)).unwrap_err();
    assert_eq!(p.title, "Device not found");
    assert_eq!(p.status, 404);
    assert!(p.detail.is_none());
}

#[test]
fn write_unknown_variable() {
    let store = store_with_rw();
    let p = validate_write(&store, "ups1", "ups.id", &Value::Number(1)).unwrap_err();
    assert_eq!(p.title, "Invalid RW variable");
    assert_eq!(p.status, 400);
    assert_eq!(detail_of(&p), "'ups.id' is not a valid writeable variable.");
}

#[test]
fn write_checked_against_detail() {
    let store = store_with_rw();
    assert!(validate_write(&store, "ups1", "ups.delay", &Value::Number(1)).is_ok());
    let p = validate_write(&store, "ups1", "ups.delay", &text("x")).unwrap_err();
    assert_eq!(p.title, "Invalid value type");
}

#[test]
fn value_kinds() {
    assert!(Value::Number(1).is_numeric());
    assert!(!Value::Number(1).is_text());
    assert!(text("a").is_text());
    assert!(!text("a").is_numeric());
}

#[test]
fn table_insert_and_find() {
    use_table();
}

fn use_table() {
    let mut t: nut_webgui::table::Table<u32> = nut_webgui::table::Table::new();
    assert_eq!(t.len(), 0);
    t.insert("a".to_string(), 1);
    t.insert("b".to_string(), 2);
    t.insert("a".to_string(), 3);
    assert_eq!(t.len(), 2);
    assert_eq!(t.get("a"), Some(&3));
    assert_eq!(t.get("b"), Some(&2));
    assert_eq!(t.find("c"), None);
    assert!(nut_webgui::table::same_text("abc", "abc"));
    assert!(!nut_webgui::table::same_text("abc", "abd"));
    assert!(!nut_webgui::table::same_text("ab", "abc"));
}
