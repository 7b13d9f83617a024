use tera_sim::history::decimate;
use tera_sim::history::push_bounded;
use tera_sim::history::push_history;
use tera_sim::history::push_sliding;

#[test]
fn a_history_never_exceeds_its_cap() {
    let mut history: Vec<i64> = Vec::new();
    for value in 0..5000 {
        push_history(&mut history, value);
        assert!(history.len() <= 512);
        assert_eq!(*history.last().unwrap(), value);
        assert_eq!(history[0], 0);
    }
}

#[test]
fn a_full_history_is_halved_and_keeps_both_ends() {
    let mut history: Vec<i64> = (0..512).collect();
    push_history(&mut history, 512);
    assert_eq!(history.len(), 257);
    assert_eq!(history[0], 0);
    assert_eq!(*history.last().unwrap(), 512);
    for (i, value) in history.iter().enumerate() {
        assert_eq!(*value, 2 * i as i64);
    }
    // rising before, rising after
    assert!(history.last().unwrap() > history.first().unwrap());
}

#[test]
fn a_falling_trend_stays_falling() {
    let mut history: Vec<i64> = (0..512).map(|i| 1000 - i).collect();
    push_history(&mut history, 100);
    assert_eq!(history.len(), 257);
    assert_eq!(history[0], 1000);
    assert_eq!(*history.last().unwrap(), 100);
    assert!(history.last().unwrap() < history.first().unwrap());
}

#[test]
fn decimation_keeps_every_other_sample() {
    let mut even: Vec<u64> = vec![10, 11, 12, 13];
    decimate(&mut even);
    assert_eq!(even, vec![10, 12]);
    let mut odd: Vec<u64> = vec![10, 11, 12, 13, 14];
    decimate(&mut odd);
    assert_eq!(odd, vec![10, 12, 14]);
    let mut single: Vec<u64> = vec![5];
    decimate(&mut single);
    assert_eq!(single, vec![5]);
    let mut empty: Vec<u64> = Vec::new();
    decimate(&mut empty);
    assert!(empty.is_empty());
}

#[test]
fn a_bounded_push_below_the_cap_only_appends() {
    let mut history: Vec<u64> = vec![1, 2];
    push_bounded(&mut history, 3, 3);
    assert_eq!(history, vec![1, 2, 3]);
    push_bounded(&mut history, 4, 3);
    assert_eq!(history, vec![1, 3]);
}

#[test]
fn a_sliding_push_drops_the_oldest() {
    let mut history: Vec<i64> = vec![1, 2, 3];
    push_sliding(&mut history, 4, 3);
    assert_eq!(history, vec![2, 3, 4]);
    push_sliding(&mut history, 5, 5);
    assert_eq!(history, vec![2, 3, 4, 5]);
}
