//! The keystore passphrase as it arrives on a pipe: one line of bytes, kept
//! in locked memory from the first byte on.

use crate::locked_memory::{
    byte_at, copy_line, line_buffer_bytes, new_line_buffer, new_locked_buffer, new_plain_buffer,
    seal, secret_bytes, store_byte,
};
use vstd::prelude::*;

verus! {

/// The size of the buffer a piped passphrase is read into. A line has to end
/// before the buffer is full.
pub const PASSPHRASE_CAPACITY: usize = 512;

/// The index of the first line feed at or after `from`, or the input's length
/// where none follows.
pub open spec fn line_end_from(piped: Seq<u8>, from: int) -> int
    decreases piped.len() - from,
{
    if from < 0 || from >= piped.len() {
        piped.len() as int
    } else if piped[from] == 10 {
        from
    } else {
        line_end_from(piped, from + 1)
    }
}

/// The length of the input's first line, without its line feed.
pub open spec fn line_len(piped: Seq<u8>) -> int {
    line_end_from(piped, 0)
}

/// The passphrase that a piped input holds: its first line, without the line
/// feed and without one carriage return before it.
pub open spec fn passphrase_of(piped: Seq<u8>) -> Seq<u8> {
    let n = line_len(piped);
    if n > 0 && piped[n - 1] == 13 {
        piped.take(n - 1)
    } else {
        piped.take(n)
    }
}

/// The first line ends at the earliest line feed, or with the input.
pub proof fn law_line_ends_at_first_line_feed(piped: Seq<u8>, from: int)
    requires
        0 <= from <= piped.len(),
    ensures
        from <= line_end_from(piped, from) <= piped.len(),
        forall|j: int| from <= j < line_end_from(piped, from) ==> piped[j] != 10,
        line_end_from(piped, from) < piped.len() ==> piped[line_end_from(piped, from)] == 10,
    decreases piped.len() - from,
{
    if from < piped.len() && piped[from] != 10 {
        law_line_ends_at_first_line_feed(piped, from + 1);
    }
}

/// A line without the carriage return that it may end with.
pub open spec fn without_carriage_return(line: Seq<u8>) -> Seq<u8> {
    if line.len() > 0 && line.last() == 13 {
        line.drop_last()
    } else {
        line
    }
}

/// Why no passphrase was read.
#[derive(Debug, PartialEq, Eq)]
pub enum PassphraseError {
    /// The line did not end within the passphrase buffer.
    TooLong,
    /// Locked memory could not be had.
    LockedMemory(one_err::OneErr),
}

/// Takes a passphrase in byte by byte, into locked memory.
pub struct PassphraseReader {
    buffer: sodoken::BufWriteSized<512>,
    next_char: usize,
}

impl PassphraseReader {
    /// Whether the reader is as its constructor and its methods leave it.
    pub closed spec fn well_formed(self) -> bool {
        line_buffer_bytes(self.buffer).len() == 512 && self.next_char <= 512
    }

    /// The bytes of the line taken in so far.
    pub closed spec fn line(self) -> Seq<u8> {
        line_buffer_bytes(self.buffer).take(self.next_char as int)
    }

    /// A reader that has taken in nothing yet. Whether locked memory can be
    /// had is up to the machine.
    pub fn new() -> (made: Result<PassphraseReader, PassphraseError>)
        ensures
            made matches Ok(reader) ==> reader.well_formed() && reader.line() == Seq::<u8>::empty(),
            made matches Err(error) ==> error is LockedMemory,
    {
        match new_line_buffer() {
            Ok(buffer) => Ok(PassphraseReader { buffer, next_char: 0 }),
            Err(error) => Err(PassphraseError::LockedMemory(error)),
        }
    }

    /// Whether the buffer has room for another byte.
    pub fn has_room(&self) -> (room: bool)
        requires
            self.well_formed(),
        ensures
            room == (self.line().len() < PASSPHRASE_CAPACITY),
    {
        self.next_char < PASSPHRASE_CAPACITY
    }

    /// Takes in the next byte of the input and says whether the line has
    /// ended with it. A line feed ends the line and is not part of it.
    pub fn accept(&mut self, byte: u8) -> (ended: bool)
        requires
            old(self).well_formed(),
            old(self).line().len() < PASSPHRASE_CAPACITY,
        ensures
            final(self).well_formed(),
            ended == (byte == 10),
            final(self).line() == if byte == 10 {
                old(self).line()
            } else {
                old(self).line().push(byte)
            },
    {
        if byte == 10 {
            return true;
        }
        store_byte(&mut self.buffer, self.next_char, byte);
        self.next_char = self.next_char + 1;
        false
    }

    /// Ends the reading and hands out the passphrase: the line, without one
    /// carriage return at its end. A passphrase that is not empty lies in
    /// locked memory of its own; whether that can be had is up to the
    /// machine.
    pub fn finish(self) -> (sealed: Result<sodoken::BufRead, PassphraseError>)
        requires
            self.well_formed(),
        ensures
            sealed matches Ok(secret) ==> secret_bytes(secret) == without_carriage_return(
                self.line(),
            ),
            sealed matches Err(error) ==> error is LockedMemory,
    {
        let mut kept: usize = self.next_char;
        if kept == 0 {
            return Ok(seal(new_plain_buffer(0)));
        }
        if byte_at(&self.buffer, kept - 1) == 13 {
            kept = kept - 1;
        }
        match new_locked_buffer(kept) {
            Ok(out) => {
                let mut out = out;
                copy_line(&mut out, &self.buffer, kept);
                Ok(seal(out))
            },
            Err(error) => Err(PassphraseError::LockedMemory(error)),
        }
    }
}

/// Feeds the first line of `piped` to a reader that has taken in nothing.
///
/// Returns the reader with the whole line taken in, or `None` exactly when
/// the line does not end within the passphrase buffer.
pub fn take_line(reader: PassphraseReader, piped: &Vec<u8>) -> (filled: Option<PassphraseReader>)
    requires
        reader.well_formed(),
        reader.line() == Seq::<u8>::empty(),
    ensures
        filled is Some <==> line_len(piped@) < PASSPHRASE_CAPACITY,
        filled matches Some(reader) ==> reader.well_formed() && reader.line() == piped@.take(
            line_len(piped@),
        ),
{
    let mut reader = reader;
    let mut at: usize = 0;
    while at < piped.len()
        invariant
            at <= piped.len(),
            line_len(piped@) == line_end_from(piped@, at as int),
            reader.well_formed(),
            reader.line() == piped@.take(at as int),
        decreases piped.len() - at,
    {
        if !reader.has_room() {
            proof {
                law_line_ends_at_first_line_feed(piped@, at as int);
            }
            return None;
        }
        if reader.accept(piped[at]) {
            return Some(reader);
        }
        proof {
            assert(piped@.take(at + 1) == piped@.take(at as int).push(piped@[at as int]));
        }
        at += 1;
    }
    if !reader.has_room() {
        return None;
    }
    Some(reader)
}

/// Reads the passphrase from what was piped to the host, into locked memory.
///
/// A line that does not end within the passphrase buffer is an error.
/// Beyond that the machine decides: without locked memory there is no
/// passphrase.
pub fn read_piped_passphrase(piped: &Vec<u8>) -> (read: Result<sodoken::BufRead, PassphraseError>)
    ensures
        read matches Ok(secret) ==> secret_bytes(secret) == passphrase_of(piped@),
        read matches Err(error) ==> (error is TooLong ==> line_len(piped@)
            >= PASSPHRASE_CAPACITY),
        line_len(piped@) >= PASSPHRASE_CAPACITY ==> read is Err,
{
    let reader = match PassphraseReader::new() {
        Ok(reader) => reader,
        Err(error) => {
            return Err(error);
        },
    };
    match take_line(reader, piped) {
        Some(reader) => {
            proof {
                law_line_ends_at_first_line_feed(piped@, 0);
            }
            reader.finish()
        },
        None => Err(PassphraseError::TooLong),
    }
}

} // verus!
