use sc16is752::bus::extract_read;
use sc16is752::codec::Channel;
use sc16is752::stream::{plan_read, plan_write, ReadPlan};

#[test]
fn write_empty_input_sends_nothing() {
    let plan = plan_write(Channel::A, 64, &[]);
    assert_eq!(plan.count, 0);
    assert!(plan.frame.is_none());
}

#[test]
fn write_caps_at_reported_free_space() {
    let data = [10u8, 11, 12, 13, 14, 15, 16, 17, 18, 19];
    let plan = plan_write(Channel::A, 5, &data);
    assert_eq!(plan.count, 5);
    // THR burst on channel A: control byte 0x00, then exactly the first 5 bytes
    assert_eq!(plan.frame.unwrap(), vec![0x00, 10, 11, 12, 13, 14]);
}

#[test]
fn write_sends_everything_when_space_suffices() {
    let data = [1u8, 2, 3];
    let plan = plan_write(Channel::B, 64, &data);
    assert_eq!(plan.count, 3);
    // THR burst on channel B: control byte 0x02, then all three bytes
    assert_eq!(plan.frame.unwrap(), vec![0x02, 1, 2, 3]);

    let data = [9u8; 16];
    let plan = plan_write(Channel::A, 16, &data);
    assert_eq!(plan.count, 16);
    assert_eq!(plan.frame.unwrap().len(), 17);
}

#[test]
fn write_with_full_fifo_sends_nothing() {
    let plan = plan_write(Channel::A, 0, &[1, 2, 3]);
    assert_eq!(plan.count, 0);
    assert!(plan.frame.is_none());
}

#[test]
fn read_empty_request_is_a_no_op() {
    assert!(matches!(plan_read(Channel::A, 17, 0), ReadPlan::Empty));
}

#[test]
fn read_with_empty_fifo_must_wait() {
    assert!(matches!(plan_read(Channel::A, 0, 8), ReadPlan::Wait));
}

#[test]
fn read_drains_at_most_the_fill_level() {
    match plan_read(Channel::A, 3, 10) {
        ReadPlan::Drain { frame, count } => {
            assert_eq!(count, 3);
            // RHR burst read on channel A: control byte 0x80, then 3 placeholders
            assert_eq!(frame, vec![0x80, 0, 0, 0]);
        }
        other => panic!("expected a drain, got {:?}", other),
    }
}

#[test]
fn read_drains_at_most_the_request() {
    match plan_read(Channel::B, 60, 2) {
        ReadPlan::Drain { frame, count } => {
            assert_eq!(count, 2);
            // RHR burst read on channel B: control byte 0x82
            assert_eq!(frame, vec![0x82, 0, 0]);
        }
        other => panic!("expected a drain, got {:?}", other),
    }
}

#[test]
fn extract_read_drops_the_control_echo() {
    let response = vec![0xFF, 7, 8, 9];
    assert_eq!(extract_read(&response), vec![7, 8, 9]);
    let response = vec![0xFF];
    assert_eq!(extract_read(&response), Vec::<u8>::new());
}
