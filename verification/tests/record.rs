use rust_csv::ApplicationError;
use rust_csv::CsvRecord;
use rust_csv::ErrorKind;

fn record_of(items: &[&str]) -> CsvRecord {
    CsvRecord::from_fields(items.iter().map(|s| s.to_string()).collect())
}

fn strings(items: &[&str]) -> Vec<String> {
    items.iter().map(|s| s.to_string()).collect()
}

#[test]
fn new_record_is_empty() {
    let r = CsvRecord::new();
    assert_eq!(r.len(), 0);
    assert!(r.is_empty());
    assert_eq!(r.record(), Vec::<String>::new());
}

#[test]
fn record_returns_its_fields_in_order() {
    let r = record_of(&["x", "", "z z"]);
    assert_eq!(r.len(), 3);
    assert!(!r.is_empty());
    assert_eq!(r.record(), strings(&["x", "", "z z"]));
}

#[test]
fn get_counts_from_the_front_and_from_the_back() {
    let r = record_of(&["a", "b", "c"]);
    assert_eq!(r.get(0).unwrap(), "a");
    assert_eq!(r.get(2).unwrap(), "c");
    assert_eq!(r.get(-1).unwrap(), "c");
    assert_eq!(r.get(-3).unwrap(), "a");
}

#[test]
fn get_outside_the_record_fails() {
    let r = record_of(&["a", "b", "c"]);
    let error = r.get(3).unwrap_err();
    assert_eq!(error.kind(), ErrorKind::IndexOutOfRange);
    assert!(matches!(error, ApplicationError::IndexOutOfRange { index: 3, len: 3 }));
    let error = r.get(-4).unwrap_err();
    assert!(matches!(error, ApplicationError::IndexOutOfRange { index: -4, len: 3 }));
    assert!(r.get(i64::MAX).is_err());
    assert!(r.get(i64::MIN).is_err());
    assert!(CsvRecord::new().get(0).is_err());
    assert!(CsvRecord::new().get(-1).is_err());
}

#[test]
fn set_replaces_one_field() {
    let mut r = record_of(&["a", "b", "c"]);
    r.set(1, "B".to_string()).unwrap();
    assert_eq!(r.record(), strings(&["a", "B", "c"]));
    r.set(-1, "C".to_string()).unwrap();
    assert_eq!(r.record(), strings(&["a", "B", "C"]));
}

#[test]
fn set_never_grows_the_record() {
    let mut r = record_of(&["a", "b"]);
    let error = r.set(2, "c".to_string()).unwrap_err();
    assert!(matches!(error, ApplicationError::IndexOutOfRange { index: 2, len: 2 }));
    assert!(r.set(-3, "c".to_string()).is_err());
    assert_eq!(r.record(), strings(&["a", "b"]));
}

#[test]
fn delete_in_the_middle_keeps_first_and_last() {
    let whole = record_of(&["zero", "one", "two"]);
    let mut r = whole.clone();
    r.delete(1).unwrap();
    assert_eq!(r.len(), 2);
    assert_eq!(r.record(), vec![whole.get(0).unwrap(), whole.get(2).unwrap()]);
    assert_eq!(whole.len(), 3);
    assert_eq!(r.get(0).unwrap(), "zero");
    assert_eq!(r.get(1).unwrap(), "two");
    assert!(r.get(2).is_err());
}

#[test]
fn delete_counts_from_the_back_too() {
    let mut r = record_of(&["a", "b", "c"]);
    r.delete(-1).unwrap();
    assert_eq!(r.record(), strings(&["a", "b"]));
    r.delete(0).unwrap();
    assert_eq!(r.record(), strings(&["b"]));
    r.delete(-1).unwrap();
    assert!(r.is_empty());
}

#[test]
fn delete_outside_the_record_fails() {
    let mut r = record_of(&["a", "b", "c"]);
    let error = r.delete(3).unwrap_err();
    assert!(matches!(error, ApplicationError::IndexOutOfRange { index: 3, len: 3 }));
    assert!(r.delete(-4).is_err());
    assert_eq!(r.record(), strings(&["a", "b", "c"]));
}

#[test]
fn contains_wants_the_whole_field() {
    let r = record_of(&["alpha", "beta", ""]);
    assert!(r.contains("alpha"));
    assert!(r.contains("beta"));
    assert!(r.contains(""));
    assert!(!r.contains("alph"));
    assert!(!r.contains("alpha "));
    assert!(!r.contains("gamma"));
    assert!(!CsvRecord::new().contains(""));
}

#[test]
fn concat_puts_the_operand_behind() {
    let a = record_of(&["1", "2"]);
    let b = record_of(&["3"]);
    let joined = a.concat(&b);
    assert_eq!(joined.record(), strings(&["1", "2", "3"]));
    assert_eq!(a.record(), strings(&["1", "2"]));
    assert_eq!(b.record(), strings(&["3"]));
    assert_eq!(b.concat(&a).record(), strings(&["3", "1", "2"]));
    assert_eq!(a.concat(&CsvRecord::new()).record(), strings(&["1", "2"]));
}

#[test]
fn concat_groups_either_way() {
    let a = record_of(&["a", "b"]);
    let b = record_of(&["c"]);
    let c = record_of(&["d", "e", "f"]);
    let left = a.concat(&b).concat(&c);
    let right = a.concat(&b.concat(&c));
    assert_eq!(left.record(), right.record());
    assert!(left.same(&right));
    assert_eq!(left.record(), strings(&["a", "b", "c", "d", "e", "f"]));
}

#[test]
fn repeat_zero_times_is_empty() {
    let r = record_of(&["a", "b"]);
    let none = r.repeat(0).unwrap();
    assert!(none.is_empty());
    assert_eq!(none.len(), 0);
}

#[test]
fn repeat_writes_the_fields_again_and_again() {
    let r = record_of(&["a", "b"]);
    assert_eq!(r.repeat(1).unwrap().record(), strings(&["a", "b"]));
    assert_eq!(r.repeat(3).unwrap().record(), strings(&["a", "b", "a", "b", "a", "b"]));
    assert_eq!(r.record(), strings(&["a", "b"]));
    assert!(CsvRecord::new().repeat(1000).unwrap().is_empty());
}

#[test]
fn repeat_below_zero_fails() {
    let r = record_of(&["a"]);
    let error = r.repeat(-1).unwrap_err();
    assert_eq!(error.kind(), ErrorKind::InvalidArgument);
    assert!(matches!(error, ApplicationError::InvalidArgument { count: -1 }));
    assert!(r.repeat(i64::MIN).is_err());
}

#[test]
fn records_are_equal_field_by_field() {
    let a = record_of(&["a", "b"]);
    assert!(a.same(&record_of(&["a", "b"])));
    assert!(!a.same(&record_of(&["a", "c"])));
    assert!(!a.same(&record_of(&["a"])));
    assert!(!a.same(&record_of(&["a", "b", ""])));
    assert!(CsvRecord::new().same(&CsvRecord::new()));
    assert!(a.same(&a.clone()));
}

#[test]
fn push_field_adds_at_the_end() {
    let mut r = CsvRecord::new();
    r.push_field("a".to_string());
    r.push_field("b".to_string());
    assert_eq!(r.record(), strings(&["a", "b"]));
}

#[test]
fn records_compare_with_the_operator() {
    assert_eq!(record_of(&["a", "b"]), record_of(&["a", "b"]));
    assert_ne!(record_of(&["a", "b"]), record_of(&["b", "a"]));
    assert_ne!(record_of(&["a"]), record_of(&["a", ""]));
    assert_eq!(CsvRecord::new(), CsvRecord::default());
}
