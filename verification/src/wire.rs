//! What goes over the wires, as bytes.
//!
//! Lines are framed on the byte buffers of the connections: the lines of
//! the operators end in a carriage return and a line feed, those of the
//! co-processor in a line feed.  A reading of the co-processor is taken
//! apart into its kind and its two fields; reading the numbers in the
//! fields is left to the caller.
use crate::command::ArduinoCommand;
use bytes::BytesMut;
use vstd::prelude::*;

verus! {

/// The byte buffer of the `bytes` crate.  Nothing of its inside is known
/// here; `buffered` stands for the bytes that it holds.
#[verifier::external_type_specification]
#[verifier::external_body]
pub struct ExBytesMut(bytes::BytesMut);

/// The bytes that a buffer holds, first to last.
pub uninterp spec fn buffered(buffer: BytesMut) -> Seq<u8>;

/// The line feed.
pub const LF: u8 = 0x0A;

/// The carriage return.
pub const CR: u8 = 0x0D;

/// `BytesMut::new`: a buffer that holds no byte.
#[verifier::external_body]
fn empty_buffer() -> (buffer: BytesMut)
    ensures
        buffered(buffer) == Seq::<u8>::empty(),
{
    BytesMut::new()
}

/// `AsRef::<[u8]>::as_ref` of `BytesMut`: the bytes that the buffer holds,
/// as a slice.
#[verifier::external_body]
fn contents(buffer: &BytesMut) -> (bytes: &[u8])
    ensures
        bytes@ == buffered(*buffer),
{
    buffer.as_ref()
}

/// `BytesMut::split_to`: takes the first `at` bytes out of the buffer and
/// returns them; the buffer keeps the rest.  It panics beyond the length,
/// which the precondition excludes.
#[verifier::external_body]
fn split_front(buffer: &mut BytesMut, at: usize) -> (front: BytesMut)
    requires
        at <= buffered(*old(buffer)).len(),
    ensures
        buffered(front) == buffered(*old(buffer)).take(at as int),
        buffered(*final(buffer)) == buffered(*old(buffer)).skip(at as int),
{
    buffer.split_to(at)
}

/// `BytesMut::split_off`: takes the bytes from index `at` on out of the
/// buffer and returns them; the buffer keeps the first `at` bytes.  It
/// panics beyond the capacity, which the precondition excludes with the
/// length.
#[verifier::external_body]
fn split_back(buffer: &mut BytesMut, at: usize) -> (back: BytesMut)
    requires
        at <= buffered(*old(buffer)).len(),
    ensures
        buffered(back) == buffered(*old(buffer)).skip(at as int),
        buffered(*final(buffer)) == buffered(*old(buffer)).take(at as int),
{
    buffer.split_off(at)
}

/// `BytesMut::extend_from_slice`: appends the bytes of `data` to the
/// buffer, which grows as needed.  It panics when the new length does not
/// fit in `usize`, which the precondition excludes.
#[verifier::external_body]
fn append(buffer: &mut BytesMut, data: &[u8])
    requires
        buffered(*old(buffer)).len() + data@.len() <= usize::MAX,
    ensures
        buffered(*final(buffer)) == buffered(*old(buffer)) + data@,
{
    buffer.extend_from_slice(data)
}

/// Tells whether a carriage return and a line feed stand at the indices
/// `i` and `i + 1` of `bytes`.
pub open spec fn line_end_at(bytes: Seq<u8>, i: int) -> bool {
    0 <= i && i + 1 < bytes.len() && bytes[i] == 0x0D && bytes[i + 1] == 0x0A
}

/// The bytes that end a line for the operators.
pub open spec fn line_end() -> Seq<u8> {
    seq![0x0Du8, 0x0Au8]
}

/// The framing of the co-processor's serial line.
pub struct LineCodec;

impl LineCodec {
    /// Takes the first line out of the buffer, if it holds a whole one:
    /// the bytes up to the first line feed, the line feed included.  The
    /// buffer keeps what follows.  Without a line feed the buffer stays as
    /// it is.
    pub fn decode(&mut self, src: &mut BytesMut) -> (r: Option<BytesMut>)
        ensures
            r is None <==> !buffered(*old(src)).contains(0x0A),
            r is None ==> buffered(*final(src)) == buffered(*old(src)),
            r matches Some(line) ==> {
                &&& buffered(line) + buffered(*final(src)) == buffered(*old(src))
                &&& buffered(line).len() > 0
                &&& buffered(line).last() == 0x0A
                &&& !buffered(line).drop_last().contains(0x0A)
            },
    {
        let newline: Option<usize> = position(contents(src), LF);
        match newline {
            Some(n) => {
                let line: BytesMut = split_front(src, n + 1);
                proof {
                    let all = buffered(*old(src));
                    assert(all.take(n + 1) + all.skip(n + 1) =~= all);
                    assert(all.contains(0x0A));
                    assert(!buffered(line).drop_last().contains(0x0A)) by {
                        let head = buffered(line).drop_last();
                        if head.contains(0x0A) {
                            let j = choose|j: int| 0 <= j < head.len() && head[j] == 0x0A;
                            assert(all[j] == 0x0A);
                        }
                    }
                }
                Some(line)
            },
            None => {
                proof {
                    let all = buffered(*old(src));
                    if all.contains(0x0A) {
                        let j = choose|j: int| 0 <= j < all.len() && all[j] == 0x0A;
                        assert(all[j] != 0x0A);
                    }
                }
                None
            },
        }
    }
}

/// Finds the first byte equal to `wanted` at or after the index `start`.
fn position_from(bytes: &[u8], start: usize, wanted: u8) -> (r: Option<usize>)
    ensures
        r matches Some(n) ==> start <= n < bytes@.len() <= usize::MAX && bytes@[n as int] == wanted
            && forall|j: int| start <= j < n ==> bytes@[j] != wanted,
        r is None ==> forall|j: int| start <= j < bytes@.len() ==> bytes@[j] != wanted,
{
    let mut n: usize = start;
    while n < bytes.len()
        invariant
            start <= n,
            forall|j: int| start <= j < n && j < bytes@.len() ==> bytes@[j] != wanted,
        decreases bytes@.len() - n,
    {
        if bytes[n] == wanted {
            return Some(n);
        }
        n = n + 1;
    }
    None
}

/// Finds the first byte equal to `wanted`.
fn position(bytes: &[u8], wanted: u8) -> (r: Option<usize>)
    ensures
        r matches Some(n) ==> n < bytes@.len() <= usize::MAX && bytes@[n as int] == wanted
            && forall|j: int| 0 <= j < n ==> bytes@[j] != wanted,
        r is None ==> forall|j: int| 0 <= j < bytes@.len() ==> bytes@[j] != wanted,
{
    position_from(bytes, 0, wanted)
}

/// Copies the bytes from the index `from` up to the index `to`.
fn copy_of(bytes: &[u8], from: usize, to: usize) -> (r: Vec<u8>)
    requires
        from <= to <= bytes@.len(),
    ensures
        r@ == bytes@.subrange(from as int, to as int),
{
    let mut r: Vec<u8> = Vec::new();
    let mut n: usize = from;
    while n < to
        invariant
            from <= n <= to <= bytes@.len(),
            r@ == bytes@.subrange(from as int, n as int),
        decreases to - n,
    {
        r.push(bytes[n]);
        assert(r@ =~= bytes@.subrange(from as int, n + 1));
        n = n + 1;
    }
    assert(r@ =~= bytes@.subrange(from as int, to as int));
    r
}

/// Finds the first carriage return that a line feed follows.
fn line_end_position(bytes: &[u8]) -> (r: Option<usize>)
    ensures
        r matches Some(n) ==> bytes@.len() <= usize::MAX && line_end_at(bytes@, n as int)
            && forall|j: int| 0 <= j < n ==> !line_end_at(bytes@, j),
        r is None ==> forall|j: int| !line_end_at(bytes@, j),
{
    let len: usize = bytes.len();
    if len < 2 {
        return None;
    }
    let mut n: usize = 0;
    while n < len - 1
        invariant
            len == bytes@.len(),
            len >= 2,
            n <= len - 1,
            forall|j: int| 0 <= j < n ==> !line_end_at(bytes@, j),
        decreases len - n,
    {
        if bytes[n] == CR && bytes[n + 1] == LF {
            return Some(n);
        }
        n = n + 1;
    }
    None
}

/// Takes the first line out of a buffer of bytes from an operator, if it
/// holds a whole one: the bytes before the first carriage return that a
/// line feed follows.  The buffer keeps what follows the line feed.
/// Without such a pair the buffer stays as it is.
pub fn take_line(rd: &mut BytesMut) -> (r: Option<BytesMut>)
    ensures
        r is None <==> forall|j: int| !line_end_at(buffered(*old(rd)), j),
        r is None ==> buffered(*final(rd)) == buffered(*old(rd)),
        r matches Some(line) ==> {
            &&& buffered(line) + line_end() + buffered(*final(rd)) == buffered(*old(rd))
            &&& line_end_at(buffered(*old(rd)), buffered(line).len() as int)
            &&& forall|j: int| 0 <= j < buffered(line).len() ==> !line_end_at(buffered(*old(rd)), j)
        },
{
    let pos: Option<usize> = line_end_position(contents(rd));
    match pos {
        Some(pos) => {
            let mut line: BytesMut = split_front(rd, pos + 2);
            let _ = split_back(&mut line, pos);
            proof {
                let all = buffered(*old(rd));
                assert(buffered(line) =~= all.take(pos as int));
                assert(all.take(pos as int) + line_end() + all.skip(pos + 2) =~= all);
            }
            Some(line)
        },
        None => None,
    }
}

/// The bytes that tell the co-processor to carry out a command.
pub open spec fn command_bytes(command: ArduinoCommand) -> Seq<u8> {
    seq![0x53u8, 0x39u8, 0x30u8, 0x0Au8]
}

/// Encodes a command for the co-processor: the line `S90`.
pub fn encode_command(command: ArduinoCommand) -> (to_send: BytesMut)
    ensures
        buffered(to_send) == command_bytes(command),
{
    let mut to_send: BytesMut = empty_buffer();
    let mut line: Vec<u8> = Vec::new();
    line.push(0x53);
    line.push(0x39);
    line.push(0x30);
    line.push(LF);
    append(&mut to_send, line.as_slice());
    assert(buffered(to_send) =~= command_bytes(command));
    to_send
}

/// Frames a text for the operators: the text, then a carriage return and a
/// line feed.
pub fn frame_line(text: &[u8]) -> (line: BytesMut)
    requires
        text@.len() + 2 <= usize::MAX,
    ensures
        buffered(line) == text@ + line_end(),
{
    let mut line: BytesMut = empty_buffer();
    append(&mut line, text);
    let mut end: Vec<u8> = Vec::new();
    end.push(CR);
    end.push(LF);
    append(&mut line, end.as_slice());
    assert(buffered(line) =~= text@ + line_end());
    line
}

/// What a reading of the co-processor is about.
#[derive(Clone, Copy, Debug, PartialEq, Eq, Structural)]
pub enum ReadingKind {
    /// The battery: load voltage and current.
    Battery,
    /// The temperatures: of the room and of the battery.
    Temp,
}

/// A reading of the co-processor, taken apart: what it is about and the
/// text of its two numbers.
#[derive(Clone, Debug, PartialEq, Eq)]
pub struct Reading {
    pub kind: ReadingKind,
    pub first: Vec<u8>,
    pub second: Vec<u8>,
}

/// Why the text of a reading cannot be taken apart.
#[derive(Clone, Copy, Debug, PartialEq, Eq, Structural)]
pub enum Undecodable {
    /// The text is not a `B` or a `T`, a colon, and a rest without colon.
    Event,
    /// The rest of a battery reading is not two fields with a comma between.
    Battery,
    /// The rest of a temperature reading is not two fields with a comma
    /// between.
    Temp,
}

/// The colon.
pub const COLON: u8 = 0x3A;

/// The comma.
pub const COMMA: u8 = 0x2C;

/// What a text is a reading about, if it is a reading: a `B` for the
/// battery or a `T` for the temperatures, then a colon, then a rest that
/// holds no colon.
pub open spec fn reading_kind(text: Seq<u8>) -> Option<ReadingKind> {
    if text.len() >= 2 && text[1] == 0x3A && !text.skip(2).contains(0x3A) {
        if text[0] == 0x42 {
            Some(ReadingKind::Battery)
        } else if text[0] == 0x54 {
            Some(ReadingKind::Temp)
        } else {
            None
        }
    } else {
        None
    }
}

/// Tells whether `fields` is two fields with a comma between: `first`,
/// a comma, `second`, and no comma in either.
pub open spec fn is_pair(fields: Seq<u8>, first: Seq<u8>, second: Seq<u8>) -> bool {
    &&& fields == first + seq![0x2Cu8] + second
    &&& !first.contains(0x2C)
    &&& !second.contains(0x2C)
}

/// Tells whether `fields` holds exactly one comma.
pub open spec fn has_one_comma(fields: Seq<u8>) -> bool {
    exists|c: int|
        0 <= c < fields.len() && fields[c] == 0x2C && forall|j: int|
            0 <= j < fields.len() && j != c ==> fields[j] != 0x2C
}

/// The error for a reading of the given kind whose rest is not a pair.
pub open spec fn fields_error(kind: ReadingKind) -> Undecodable {
    match kind {
        ReadingKind::Battery => Undecodable::Battery,
        ReadingKind::Temp => Undecodable::Temp,
    }
}

/// Takes the text of a reading of the co-processor apart.  The text is a
/// letter for the kind, a colon, and two fields with a comma between, as
/// in `B:12.5,300`; the fields are returned as they stand.
pub fn split_event(text: &[u8]) -> (r: Result<Reading, Undecodable>)
    ensures
        reading_kind(text@) is None <==> r == Err::<Reading, Undecodable>(Undecodable::Event),
        reading_kind(text@) matches Some(kind) ==> {
            &&& r is Ok <==> has_one_comma(text@.skip(2))
            &&& r is Err ==> r == Err::<Reading, Undecodable>(fields_error(kind))
            &&& r matches Ok(reading) ==> reading.kind == kind && is_pair(
                text@.skip(2),
                reading.first@,
                reading.second@,
            )
        },
{
    let len: usize = text.len();
    if len < 2 || text[1] != COLON {
        return Err(Undecodable::Event);
    }
    let another: Option<usize> = position_from(text, 2, COLON);
    proof {
        let rest = text@.skip(2);
        match another {
            Some(n) => {
                assert(rest[n - 2] == 0x3A);
                assert(rest.contains(0x3A));
            },
            None => {
                if rest.contains(0x3A) {
                    let j = choose|j: int| 0 <= j < rest.len() && rest[j] == 0x3A;
                    assert(text@[j + 2] == 0x3A);
                }
            },
        }
    }
    if another.is_some() {
        return Err(Undecodable::Event);
    }
    let kind: ReadingKind = if text[0] == 0x42 {
        ReadingKind::Battery
    } else if text[0] == 0x54 {
        ReadingKind::Temp
    } else {
        return Err(Undecodable::Event);
    };
    let failed: Undecodable = match kind {
        ReadingKind::Battery => Undecodable::Battery,
        ReadingKind::Temp => Undecodable::Temp,
    };
    let ghost fields = text@.skip(2);
    let comma: usize = match position_from(text, 2, COMMA) {
        Some(c) => c,
        None => {
            proof {
                if has_one_comma(fields) {
                    let c = choose|c: int| 0 <= c < fields.len() && fields[c] == 0x2C;
                    assert(text@[c + 2] == 0x2C);
                }
            }
            return Err(failed);
        },
    };
    match position_from(text, comma + 1, COMMA) {
        Some(d) => {
            proof {
                if has_one_comma(fields) {
                    let c = choose|c: int|
                        0 <= c < fields.len() && fields[c] == 0x2C && forall|j: int|
                            0 <= j < fields.len() && j != c ==> fields[j] != 0x2C;
                    assert(fields[comma - 2] == 0x2C);
                    assert(fields[d - 2] == 0x2C);
                }
            }
            Err(failed)
        },
        None => {
            let first: Vec<u8> = copy_of(text, 2, comma);
            let second: Vec<u8> = copy_of(text, comma + 1, len);
            proof {
                assert(fields =~= first@ + seq![0x2Cu8] + second@);
                if first@.contains(0x2C) {
                    let j = choose|j: int| 0 <= j < first@.len() && first@[j] == 0x2C;
                    assert(text@[j + 2] == 0x2C);
                }
                if second@.contains(0x2C) {
                    let j = choose|j: int| 0 <= j < second@.len() && second@[j] == 0x2C;
                    assert(text@[comma + 1 + j] == 0x2C);
                }
                let c: int = comma - 2;
                assert(fields[c] == 0x2C);
                assert forall|j: int| 0 <= j < fields.len() && j != c implies fields[j]
                    != 0x2C by {
                    assert(fields[j] == text@[j + 2]);
                }
            }
            Ok(Reading { kind, first, second })
        },
    }
}

} // verus!
