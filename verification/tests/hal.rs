use ekk::hal::{
    micros_from_nanos, millis_from_micros, CriticalSection, Hal, MsgType, NoopHal, PosixHal,
    QueuedMessage, Stm32G474Hal,
};
use ekk::types::Error;

#[test]
fn test_mock_time() {
    let mut hal = PosixHal::new(1);

    // Enable mock time
    hal.set_mock_time(Some(1000));
    assert_eq!(hal.time_us(), 1000);

    // Advance mock time
    hal.advance_mock_time(500);
    assert_eq!(hal.time_us(), 1500);

    // Delay advances mock time
    hal.delay_us(100);
    assert_eq!(hal.time_us(), 1600);

    // Disable mock time
    hal.set_mock_time(None);
    let real = hal.time_us();
    assert!(real > 0);
}

#[test]
fn test_message_queue() {
    let mut hal = PosixHal::new(1);

    // Inject a message
    hal.inject_message(2, MsgType::Heartbeat, &[1, 2, 3]);
    assert_eq!(hal.queue_len(), 1);

    // Receive it
    let mut buffer = [0u8; 64];
    let msg = hal.recv(&mut buffer).unwrap();
    assert_eq!(msg.sender_id, 2);
    assert_eq!(msg.msg_type, MsgType::Heartbeat);
    assert_eq!(msg.len, 3);
    assert_eq!(&buffer[..3], &[1, 2, 3]);
}

#[test]
fn test_send_recv() {
    let mut hal = PosixHal::new(1);

    // Send to self
    hal.send(1, MsgType::Field, &[4, 5, 6]).unwrap();

    // Receive
    let mut buffer = [0u8; 64];
    let msg = hal.recv(&mut buffer).unwrap();
    assert_eq!(msg.sender_id, 1);
    assert_eq!(msg.msg_type, MsgType::Field);
    assert_eq!(&buffer[..3], &[4, 5, 6]);
}

#[test]
fn test_broadcast() {
    let mut hal = PosixHal::new(1);

    hal.broadcast(MsgType::Discovery, &[7, 8]).unwrap();

    let mut buffer = [0u8; 64];
    let msg = hal.recv(&mut buffer).unwrap();
    assert_eq!(msg.msg_type, MsgType::Discovery);
}

#[test]
fn send_rejects_more_than_64_bytes() {
    let mut hal = PosixHal::new(1);
    assert_eq!(hal.send(2, MsgType::Field, &[0u8; 65]), Err(Error::InvalidArg));
    assert_eq!(hal.queue_len(), 0);
    assert_eq!(hal.send(2, MsgType::Field, &[0u8; 64]), Ok(()));
    assert_eq!(hal.queue_len(), 1);
}

#[test]
fn recv_takes_the_first_message_for_the_module() {
    let mut hal = PosixHal::new(1);
    hal.send(2, MsgType::Vote, &[1]).unwrap();
    hal.send(1, MsgType::Field, &[2, 2]).unwrap();
    hal.broadcast(MsgType::Reform, &[3, 3, 3]).unwrap();
    let mut buffer = [9u8; 2];
    let first = hal.recv(&mut buffer).unwrap();
    assert_eq!(first.msg_type, MsgType::Field);
    assert_eq!(first.len, 2);
    assert_eq!(buffer, [2, 2]);
    let second = hal.recv(&mut buffer).unwrap();
    assert_eq!(second.msg_type, MsgType::Reform);
    // the buffer is shorter than the message
    assert_eq!(second.len, 2);
    assert_eq!(buffer, [3, 3]);
    assert!(hal.recv(&mut buffer).is_none());
    // the message for module 2 stays queued
    assert_eq!(hal.queue_len(), 1);
    hal.clear_queue();
    assert_eq!(hal.queue_len(), 0);
}

#[test]
fn queued_message_cuts_data_at_64_bytes() {
    let data = [5u8; 70];
    let m = QueuedMessage::new(1, 2, MsgType::Inhibit, &data);
    assert_eq!(m.len, 64);
    assert_eq!(m.data, [5u8; 64]);
    let short = QueuedMessage::new(1, 2, MsgType::Inhibit, &[1, 2]);
    assert_eq!(short.len, 2);
    assert_eq!(short.data[..3], [1, 2, 0]);
}

#[test]
fn real_clock_never_runs_backwards() {
    let mut hal = PosixHal::new(3);
    let t1 = hal.time_us();
    hal.delay_us(200);
    let t2 = hal.time_us();
    assert!(t2 >= t1 + 200);
    assert_eq!(hal.get_module_id(), 3);
    assert_eq!(hal.platform_name(), "POSIX HAL");
    assert!(hal.is_loopback(3));
    assert!(hal.is_loopback(0xFF));
    assert!(!hal.is_loopback(4));
    hal.memory_barrier();
}

#[test]
fn noop_hal_keeps_a_manual_clock() {
    let mut hal = NoopHal::new();
    assert_eq!(hal.time_us(), 0);
    hal.advance_time(2500);
    assert_eq!(hal.time_us(), 2500);
    hal.delay_us(500);
    assert_eq!(hal.time_us(), 3000);
    assert_eq!(hal.time_ms(), 3);
    hal.debug_print("nothing is printed");
    assert_eq!(hal.send(2, MsgType::Heartbeat, &[1]), Ok(()));
    assert_eq!(hal.broadcast(MsgType::Heartbeat, &[1]), Ok(()));
    let mut buffer = [0u8; 4];
    assert!(hal.recv(&mut buffer).is_none());
    assert_eq!(hal.get_module_id(), 1);
    assert_eq!(hal.platform_name(), "noop");
    let guard = CriticalSection::new(&hal);
    assert_eq!(guard.state, 0);
    guard.exit();
}

#[test]
fn message_type_codes() {
    assert_eq!(MsgType::Heartbeat.code(), 0x01);
    assert_eq!(MsgType::Discovery.code(), 0x02);
    assert_eq!(MsgType::Field.code(), 0x03);
    assert_eq!(MsgType::Proposal.code(), 0x04);
    assert_eq!(MsgType::Vote.code(), 0x05);
    assert_eq!(MsgType::Inhibit.code(), 0x06);
    assert_eq!(MsgType::Reform.code(), 0x07);
    assert_eq!(MsgType::Shutdown.code(), 0x08);
    assert_eq!(MsgType::UserBase.code(), 0x80);
}

#[test]
fn stm32_hal_knows_its_module() {
    let mut hal = Stm32G474Hal::new(12);
    assert_eq!(hal.get_module_id(), 12);
    assert_eq!(hal.platform_name(), "stm32g474");
    assert_eq!(hal.time_us(), 0);
    assert_eq!(hal.time_ms(), 0);
    assert_eq!(hal.send(1, MsgType::Field, &[1, 2]), Ok(()));
    let mut buffer = [0u8; 4];
    assert!(hal.recv(&mut buffer).is_none());
}

#[test]
fn milliseconds_are_cut_to_32_bits() {
    let mut hal = PosixHal::new(1);
    hal.set_mock_time(Some(4_294_967_296_000 + 7_999));
    assert_eq!(hal.time_ms(), 7);
}

#[test]
fn started_microseconds_count_as_whole_ones() {
    assert_eq!(micros_from_nanos(0), 0);
    assert_eq!(micros_from_nanos(1), 1);
    assert_eq!(micros_from_nanos(999), 1);
    assert_eq!(micros_from_nanos(1000), 1);
    assert_eq!(micros_from_nanos(1001), 2);
    assert_eq!(micros_from_nanos(u64::MAX), 18_446_744_073_709_552);
}

#[test]
fn milliseconds_round_down_and_wrap() {
    assert_eq!(millis_from_micros(0), 0);
    assert_eq!(millis_from_micros(999), 0);
    assert_eq!(millis_from_micros(1000), 1);
    assert_eq!(millis_from_micros(1999), 1);
    assert_eq!(millis_from_micros(4_294_967_295_999), 4_294_967_295);
    assert_eq!(millis_from_micros(4_294_967_296_000), 0);
    assert_eq!(millis_from_micros(u64::MAX), 1_271_310_319);
}

#[test]
fn every_hal_reports_milliseconds_of_its_clock() {
    let mut noop = NoopHal::new();
    noop.advance_time(12_345);
    assert_eq!(noop.time_ms(), 12);
    let mut posix = PosixHal::new(2);
    posix.set_mock_time(Some(999));
    assert_eq!(posix.time_ms(), 0);
    posix.advance_mock_time(1);
    assert_eq!(posix.time_ms(), 1);
}
