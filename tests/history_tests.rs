use corebase::history::{update_due, History};
use corebase::words::{parse_switch, switch_of_lowered};

#[test]
fn history_keeps_the_latest_capacity_samples() {
    let capacity: usize = 5;
    let extra: u64 = 3;
    let mut history: History<u64> = History::new(capacity);
    for stamp in 0..(capacity as u64 + extra) {
        history.push(stamp);
        assert!(history.len() <= capacity);
    }
    assert_eq!(history.len(), capacity);
    assert_eq!(history.to_vec(), vec![3, 4, 5, 6, 7]);
    assert_eq!(history.samples().front(), Some(&3));
}

#[test]
fn history_below_capacity_keeps_everything() {
    let mut history: History<u64> = History::new(10);
    history.push(1);
    history.push(2);
    assert_eq!(history.to_vec(), vec![1, 2]);
    history.clear();
    assert!(history.is_empty());
    assert_eq!(history.capacity(), 10);
}

#[test]
fn shrinking_capacity_evicts_oldest() {
    let mut history: History<u64> = History::new(4);
    for stamp in 1..=4 {
        history.push(stamp);
    }
    history.set_capacity(2);
    assert_eq!(history.capacity(), 2);
    assert_eq!(history.to_vec(), vec![3, 4]);
    history.push(5);
    assert_eq!(history.to_vec(), vec![4, 5]);
}

#[test]
fn zero_capacity_holds_nothing() {
    let mut history: History<u64> = History::new(0);
    history.push(1);
    assert!(history.is_empty());
}

#[test]
fn sampling_is_due_after_the_interval() {
    assert!(update_due(None, 1000));
    assert!(!update_due(Some(999), 1000));
    assert!(update_due(Some(1000), 1000));
    assert!(update_due(Some(5000), 1000));
}

#[test]
fn switch_words_in_any_case() {
    assert_eq!(parse_switch("YES"), Some(true));
    assert_eq!(parse_switch("On"), Some(true));
    assert_eq!(parse_switch("1"), Some(true));
    assert_eq!(parse_switch("FALSE"), Some(false));
    assert_eq!(parse_switch("Off"), Some(false));
    assert_eq!(parse_switch("maybe"), None);
    assert_eq!(parse_switch(""), None);
    assert_eq!(switch_of_lowered(&"no".to_string()), Some(false));
    assert_eq!(switch_of_lowered(&"NO".to_string()), None);
}
