//! Debugger transport helpers: a one-byte peek buffer over a serial
//! port, and a scope-bound suppressor for the global logging level.

use vstd::prelude::*;

use crate::efi_types::EfiError;

verus! {

/// A byte-oriented serial port, as the surrounding firmware provides
/// it. Reads and writes move raw bytes; what arrives is up to the
/// hardware, so nothing is promised about the values.
pub trait SerialIO: Sized {
    /// Initializes the hardware.
    fn init(&self);

    /// Writes the buffer to the port.
    fn write(&self, buffer: &[u8]);

    /// Reads one byte, blocking until one arrives.
    fn read(&self) -> u8;

    /// Reads one byte if one is already available.
    fn try_read(&self) -> Option<u8>;
}

/// A serial connection with one byte of lookahead, as a byte-oriented
/// remote-debugging channel needs it: `peek` reads a byte without
/// consuming it, and the next `read` hands the same byte out.
pub struct SerialConnection<'a, T: SerialIO> {
    transport: &'a T,
    peeked_byte: Option<u8>,
}

impl<'a, T: SerialIO> SerialConnection<'a, T> {
    /// The byte read ahead of its consumer, if one is buffered.
    pub closed spec fn spec_peeked(&self) -> Option<u8> {
        self.peeked_byte
    }

    /// Create a new SerialConnection over the given transport, with
    /// nothing buffered yet.
    pub fn new(transport: &'a T) -> (r: Self)
        ensures
            r.spec_peeked() is None,
    {
        SerialConnection { transport, peeked_byte: None }
    }

    /// Writes a byte to the serial transport; the lookahead buffer is
    /// untouched.
    pub fn write(&mut self, byte: u8) -> (r: Result<(), EfiError>)
        ensures
            r is Ok,
            final(self).spec_peeked() == old(self).spec_peeked(),
    {
        let buff = [byte];
        self.transport.write(vstd::array::array_as_slice(&buff));
        Ok(())
    }

    /// Flushes the serial transport; the port writes through, so there
    /// is nothing to do.
    pub fn flush(&mut self) -> (r: Result<(), EfiError>)
        ensures
            r is Ok,
            final(self).spec_peeked() == old(self).spec_peeked(),
    {
        Ok(())
    }

    /// Reads a byte: the buffered byte when one was peeked, else the
    /// next byte from the transport. The lookahead buffer is empty
    /// afterwards.
    pub fn read(&mut self) -> (r: Result<u8, EfiError>)
        ensures
            r is Ok,
            final(self).spec_peeked() is None,
            old(self).spec_peeked() matches Some(b) ==> r == Ok::<u8, EfiError>(b),
    {
        if let Some(byte) = self.peeked_byte {
            self.peeked_byte = None;
            return Ok(byte);
        }
        Ok(self.transport.read())
    }

    /// Peeks at the next byte without consuming it: the byte already
    /// buffered, or one taken from the transport if available. The
    /// result always equals the state of the lookahead buffer
    /// afterwards, so a later `read` returns the same byte.
    pub fn peek(&mut self) -> (r: Result<Option<u8>, EfiError>)
        ensures
            r == Ok::<Option<u8>, EfiError>(final(self).spec_peeked()),
            old(self).spec_peeked() is Some ==> final(self).spec_peeked() == old(
                self,
            ).spec_peeked(),
    {
        if self.peeked_byte.is_some() {
            return Ok(self.peeked_byte);
        }
        match self.transport.try_read() {
            Some(byte) => {
                self.peeked_byte = Some(byte);
                Ok(Some(byte))
            },
            None => Ok(None),
        }
    }
}

#[verifier::external_type_specification]
#[verifier::external_body]
pub struct ExLevelFilter(log::LevelFilter);

/// Relies on log::max_level: reads the process-global level cap. The
/// value depends on that global state, so nothing is promised of it.
#[verifier::external_body]
fn current_max_level() -> log::LevelFilter {
    log::max_level()
}

/// Relies on log::set_max_level: stores the process-global level cap;
/// an atomic store that neither fails nor unwinds.
#[verifier::external_body]
fn set_max_level(level: log::LevelFilter)
    opens_invariants none
    no_unwind
{
    log::set_max_level(level)
}

/// Relies on log::LevelFilter::Off being the cap that disables all
/// logging.
#[verifier::external_body]
fn level_off() -> log::LevelFilter {
    log::LevelFilter::Off
}

/// Suspends logging for the current scope: construction turns the
/// global level cap off after saving it, and dropping the value
/// restores the saved cap.
pub struct LoggingSuspender {
    level: log::LevelFilter,
}

impl LoggingSuspender {
    /// Suspend logging within the current scope. When the returned
    /// LoggingSuspender goes out of scope, logging will be restored to
    /// the previous level.
    pub fn suspend() -> Self {
        let level = current_max_level();
        set_max_level(level_off());
        LoggingSuspender { level }
    }
}

impl Drop for LoggingSuspender {
    /// Restores the logging level saved when this suspender was
    /// created.
    fn drop(&mut self)
        opens_invariants none
        no_unwind
    {
        set_max_level(self.level);
    }
}

} // verus!
