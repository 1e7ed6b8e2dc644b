//! Tests for the serial connection buffer and the logging suspender.

use std::cell::RefCell;
use std::collections::VecDeque;

use ffs_extractors::transport::{LoggingSuspender, SerialConnection, SerialIO};

/// A scripted serial port: hands out queued bytes and records writes.
struct MockSerial {
    incoming: RefCell<VecDeque<u8>>,
    written: RefCell<Vec<u8>>,
}

impl MockSerial {
    fn new(incoming: &[u8]) -> Self {
        MockSerial {
            incoming: RefCell::new(incoming.iter().copied().collect()),
            written: RefCell::new(Vec::new()),
        }
    }
}

impl SerialIO for MockSerial {
    fn init(&self) {}

    fn write(&self, buffer: &[u8]) {
        self.written.borrow_mut().extend_from_slice(buffer);
    }

    fn read(&self) -> u8 {
        self.incoming.borrow_mut().pop_front().expect("read past scripted input")
    }

    fn try_read(&self) -> Option<u8> {
        self.incoming.borrow_mut().pop_front()
    }
}

#[test]
fn test_connection_write() {
    let mock = MockSerial::new(&[]);
    let mut connection = SerialConnection::new(&mock);

    // Test writing multiple bytes
    for &byte in &[0x01, 0x02, 0x03] {
        let result = connection.write(byte);
        assert!(result.is_ok());
    }
    assert_eq!(*mock.written.borrow(), vec![0x01, 0x02, 0x03]);
}

#[test]
fn test_connection_flush() {
    let mock = MockSerial::new(&[]);
    let mut connection = SerialConnection::new(&mock);

    // Flush should always succeed and do nothing for SerialIO
    let result = connection.flush();
    assert!(result.is_ok());
}

#[test]
fn test_connection_read() {
    let mock = MockSerial::new(&[0xAA, 0xBB, 0xCC]);
    let mut connection = SerialConnection::new(&mock);

    // Read the data back
    for expected_byte in [0xAA, 0xBB, 0xCC] {
        let result = connection.read();
        assert!(result.is_ok());
        assert_eq!(result.unwrap(), expected_byte);
    }
}

#[test]
fn test_connection_peek() {
    let mock = MockSerial::new(&[0xDD, 0xEE]);
    let mut connection = SerialConnection::new(&mock);

    // First peek should return the first byte
    let result = connection.peek();
    assert!(result.is_ok());
    assert_eq!(result.unwrap(), Some(0xDD));

    // Second peek should return the same byte (still peeked)
    let result = connection.peek();
    assert!(result.is_ok());
    assert_eq!(result.unwrap(), Some(0xDD));

    // Read should return the peeked byte (without calling transport.read())
    let result = connection.read();
    assert!(result.is_ok());
    assert_eq!(result.unwrap(), 0xDD);

    // Now peek should return the next byte
    let result = connection.peek();
    assert!(result.is_ok());
    assert_eq!(result.unwrap(), Some(0xEE));

    // Read should return the next byte
    let result = connection.read();
    assert!(result.is_ok());
    assert_eq!(result.unwrap(), 0xEE);

    // Further peeks should return None (no more data)
    let result = connection.peek();
    assert!(result.is_ok());
    assert_eq!(result.unwrap(), None);
}

#[test]
fn test_logging_suspender() {
    // Get current log level
    let original_level = log::max_level();

    {
        // Create suspender - should turn off logging
        let _suspender = LoggingSuspender::suspend();
        assert_eq!(log::max_level(), log::LevelFilter::Off);
    }

    // After suspender is dropped, logging should be restored
    assert_eq!(log::max_level(), original_level);
}

#[test]
fn test_logging_suspender_nested() {
    let original_level = log::max_level();

    {
        let _suspender1 = LoggingSuspender::suspend();
        assert_eq!(log::max_level(), log::LevelFilter::Off);

        {
            let _suspender2 = LoggingSuspender::suspend();
            assert_eq!(log::max_level(), log::LevelFilter::Off);
        }

        // Still suspended after inner suspender drops
        assert_eq!(log::max_level(), log::LevelFilter::Off);
    }

    // Restored after outer suspender drops
    assert_eq!(log::max_level(), original_level);
}
