use kuzya_vault::browse::{
    guilt_from_input, is_guilt_char, next_field, select_after_delete, select_next, select_prev, InputField,
};
use kuzya_vault::record::{append_record, remove_record, verdict_of, Suspect, Verdict};

fn named(n: &str) -> Suspect {
    Suspect::new(n.to_string(), 10, String::new())
}

fn names(list: &[Suspect]) -> Vec<String> {
    list.iter().map(|s| s.name.clone()).collect()
}

#[test]
fn removing_keeps_relative_order() {
    let mut list = vec![named("a"), named("b"), named("c"), named("d")];
    let gone = remove_record(&mut list, 1);
    assert_eq!(gone.name, "b");
    assert_eq!(names(&list), vec!["a", "c", "d"]);
    remove_record(&mut list, 2);
    assert_eq!(names(&list), vec!["a", "c"]);
    remove_record(&mut list, 0);
    assert_eq!(names(&list), vec!["c"]);
}

#[test]
fn appending_goes_to_the_end() {
    let mut list = vec![named("a")];
    append_record(&mut list, Suspect::new("Fox".to_string(), 60, "stole a cookie".to_string()));
    assert_eq!(list.len(), 2);
    assert_eq!(list[1].name, "Fox");
    assert_eq!(list[1].guilt_level, 60);
    assert_eq!(list[1].reason, "stole a cookie");
}

#[test]
fn verdict_bands() {
    assert_eq!(verdict_of(100), Verdict::Terrorist);
    assert_eq!(verdict_of(99), Verdict::Heretic);
    assert_eq!(verdict_of(60), Verdict::Heretic);
    assert_eq!(verdict_of(59), Verdict::Suspect);
    assert_eq!(verdict_of(30), Verdict::Suspect);
    assert_eq!(verdict_of(29), Verdict::Unknown);
    assert_eq!(verdict_of(1), Verdict::Unknown);
    assert_eq!(verdict_of(0), Verdict::Neutral);
    assert_eq!(verdict_of(101), Verdict::Unknown);
    assert_eq!(verdict_of(u32::MAX), Verdict::Unknown);
}

#[test]
fn fields_cycle() {
    assert_eq!(next_field(InputField::Name), InputField::Guilt);
    assert_eq!(next_field(InputField::Guilt), InputField::Reason);
    assert_eq!(next_field(InputField::Reason), InputField::Name);
}

#[test]
fn moving_down_wraps() {
    assert_eq!(select_next(None, 3), 0);
    assert_eq!(select_next(Some(0), 3), 1);
    assert_eq!(select_next(Some(2), 3), 0);
    assert_eq!(select_next(Some(0), 0), 0);
}

#[test]
fn moving_up_wraps() {
    assert_eq!(select_prev(None, 3), 0);
    assert_eq!(select_prev(Some(2), 3), 1);
    assert_eq!(select_prev(Some(0), 3), 2);
    assert_eq!(select_prev(Some(0), 0), 0);
}

#[test]
fn selection_after_delete() {
    assert_eq!(select_after_delete(0, 0), None);
    assert_eq!(select_after_delete(2, 2), Some(1));
    assert_eq!(select_after_delete(1, 3), Some(1));
}

#[test]
fn guilt_input() {
    assert!(is_guilt_char('7'));
    assert!(!is_guilt_char('x'));
    assert_eq!(guilt_from_input(""), 0);
    assert_eq!(guilt_from_input("60"), 60);
    assert_eq!(guilt_from_input("150"), 150);
    assert_eq!(guilt_from_input("4294967295"), u32::MAX);
    assert_eq!(guilt_from_input("4294967296"), 0);
}
