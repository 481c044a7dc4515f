use dot_setup::log::{LogBuffer, LOG_CAPACITY};

fn line(i: usize) -> String {
    format!("line {}", i)
}

#[test]
fn new_log_is_empty_with_the_default_capacity() {
    let log = LogBuffer::new();
    assert_eq!(log.len(), 0);
    assert!(log.is_empty());
    assert_eq!(log.capacity(), LOG_CAPACITY);
    assert_eq!(LOG_CAPACITY, 1000);
    assert_eq!(log.scroll(), 0);
}

#[test]
fn no_log_holds_no_line() {
    assert!(LogBuffer::with_capacity(0).is_none());
    assert!(LogBuffer::with_capacity(1).is_some());
}

#[test]
fn append_keeps_arrival_order() {
    let mut log = LogBuffer::with_capacity(10).unwrap();
    log.append("a".to_string());
    log.append("b".to_string());
    log.append_many(&vec!["c".to_string(), "d".to_string()]);
    assert_eq!(log.snapshot(), vec!["a", "b", "c", "d"]);
    assert_eq!(log.len(), 4);
}

#[test]
fn full_log_drops_its_oldest_half() {
    let mut log = LogBuffer::with_capacity(4).unwrap();
    for i in 0..4 {
        log.append(line(i));
    }
    assert_eq!(log.len(), 4);
    log.append(line(4));
    assert_eq!(log.snapshot(), vec![line(2), line(3), line(4)]);
}

#[test]
fn odd_capacity_drops_the_larger_half() {
    let mut log = LogBuffer::with_capacity(5).unwrap();
    for i in 0..6 {
        log.append(line(i));
    }
    assert_eq!(log.snapshot(), vec![line(3), line(4), line(5)]);
}

#[test]
fn capacity_one_keeps_the_newest_line() {
    let mut log = LogBuffer::with_capacity(1).unwrap();
    log.append(line(0));
    log.append(line(1));
    assert_eq!(log.snapshot(), vec![line(1)]);
}

#[test]
fn burst_of_one_more_than_capacity_stays_bounded_and_non_empty() {
    let mut log = LogBuffer::new();
    for i in 0..LOG_CAPACITY + 1 {
        log.append(line(i));
        assert!(log.len() <= LOG_CAPACITY);
        assert!(log.len() >= 1);
    }
    assert_eq!(log.len(), 501);
    let lines = log.snapshot();
    assert_eq!(lines[0], line(500));
    assert_eq!(lines[500], line(1000));
}

#[test]
fn many_appends_never_exceed_the_capacity() {
    let mut log = LogBuffer::with_capacity(7).unwrap();
    let mut batch = Vec::new();
    for i in 0..100 {
        batch.push(line(i));
    }
    log.append_many(&batch);
    assert!(log.len() <= 7);
    assert!(log.len() >= 1);
    let lines = log.snapshot();
    assert_eq!(lines.last().unwrap(), &line(99));
    let first: usize = 100 - lines.len();
    for (offset, held) in lines.iter().enumerate() {
        assert_eq!(held, &line(first + offset));
    }
}

#[test]
fn clear_drops_the_lines_and_keeps_capacity_and_cursor() {
    let mut log = LogBuffer::with_capacity(3).unwrap();
    log.append(line(0));
    log.append(line(1));
    log.follow_tail();
    assert_eq!(log.scroll(), 1);
    log.clear();
    assert!(log.is_empty());
    assert_eq!(log.capacity(), 3);
    assert_eq!(log.scroll(), 1);
}

#[test]
fn follow_tail_puts_the_cursor_on_the_last_line() {
    let mut log = LogBuffer::new();
    log.follow_tail();
    assert_eq!(log.scroll(), 0);
    log.append(line(0));
    log.follow_tail();
    assert_eq!(log.scroll(), 0);
    for i in 1..10 {
        log.append(line(i));
    }
    log.follow_tail();
    assert_eq!(log.scroll(), 9);
}

#[test]
fn follow_tail_stops_where_the_cursor_ends() {
    let mut log = LogBuffer::with_capacity(70000).unwrap();
    for _ in 0..65537 {
        log.append(String::new());
    }
    log.follow_tail();
    assert_eq!(log.scroll(), u16::MAX);
}
