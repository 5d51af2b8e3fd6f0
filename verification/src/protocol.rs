//! Wire format shared by the storage daemons and the gateway.
//!
//! Frames carry no length prefix: one read is one frame. A request to the
//! general store is `command, bucket index, 16-byte key, payload`; a request to
//! the statement store is `command, 16-byte key`; a response is
//! `command echo, status, payload`. Everything here is a total function on
//! bytes and touches no store.

use vstd::prelude::*;

verus! {

/// Number of bytes in a key.
pub const KEY_LEN: usize = 16;

/// Shortest frame the general store accepts: command, bucket index and key.
pub const GENERAL_MIN_LEN: usize = 18;

/// Shortest frame the statement store accepts: command and key.
pub const STATEMENT_MIN_LEN: usize = 17;

/// Shortest response: command echo and status.
pub const RESPONSE_MIN_LEN: usize = 2;

/// Largest frame either side reads or writes, in bytes.
pub const MAX_FRAME_LEN: usize = 1_048_594;

/// Number of buckets in the general store.
pub const BUCKET_COUNT: u8 = 10;

/// The result code carried in byte 1 of every response.
#[derive(Clone, Copy, Debug, PartialEq, Eq, Structural)]
pub enum Status {
    /// The command was carried out.
    Success,
    /// The command byte names no command of this store.
    UnknownCommand,
    /// The bucket index is outside the bucket table.
    InvalidBucket,
    /// The lock around the shared store could not be taken.
    LockFailed,
    /// The engine could not open the bucket.
    BucketOpenFailed,
    /// The bucket holds no entry under the key.
    KeyNotFound,
    /// The engine failed while reading.
    GetFailed,
    /// The engine failed while writing.
    SetFailed,
    /// The engine failed while removing.
    DeleteFailed,
    /// The frame ends before its header and key do.
    TooShort,
}

impl Status {
    /// The byte that stands for this status on the wire.
    pub open spec fn wire(self) -> u8 {
        match self {
            Status::Success => 0,
            Status::UnknownCommand => 128,
            Status::InvalidBucket => 129,
            Status::LockFailed => 130,
            Status::BucketOpenFailed => 131,
            Status::KeyNotFound => 132,
            Status::GetFailed => 133,
            Status::SetFailed => 134,
            Status::DeleteFailed => 135,
            Status::TooShort => 136,
        }
    }

    /// The status a wire byte stands for, if any.
    pub open spec fn of_wire(code: u8) -> Option<Status> {
        if code == 0 {
            Some(Status::Success)
        } else if code == 128 {
            Some(Status::UnknownCommand)
        } else if code == 129 {
            Some(Status::InvalidBucket)
        } else if code == 130 {
            Some(Status::LockFailed)
        } else if code == 131 {
            Some(Status::BucketOpenFailed)
        } else if code == 132 {
            Some(Status::KeyNotFound)
        } else if code == 133 {
            Some(Status::GetFailed)
        } else if code == 134 {
            Some(Status::SetFailed)
        } else if code == 135 {
            Some(Status::DeleteFailed)
        } else if code == 136 {
            Some(Status::TooShort)
        } else {
            None
        }
    }

    /// Encodes the status as its wire byte.
    pub fn code(self) -> (code: u8)
        ensures
            code == self.wire(),
    {
        match self {
            Status::Success => 0,
            Status::UnknownCommand => 128,
            Status::InvalidBucket => 129,
            Status::LockFailed => 130,
            Status::BucketOpenFailed => 131,
            Status::KeyNotFound => 132,
            Status::GetFailed => 133,
            Status::SetFailed => 134,
            Status::DeleteFailed => 135,
            Status::TooShort => 136,
        }
    }

    /// Decodes a wire byte; `None` for a byte that stands for no status.
    pub fn from_code(code: u8) -> (status: Option<Status>)
        ensures
            status == Status::of_wire(code),
    {
        match code {
            0 => Some(Status::Success),
            128 => Some(Status::UnknownCommand),
            129 => Some(Status::InvalidBucket),
            130 => Some(Status::LockFailed),
            131 => Some(Status::BucketOpenFailed),
            132 => Some(Status::KeyNotFound),
            133 => Some(Status::GetFailed),
            134 => Some(Status::SetFailed),
            135 => Some(Status::DeleteFailed),
            136 => Some(Status::TooShort),
            _ => None,
        }
    }

    /// True for the one status that reports success.
    pub fn is_success(self) -> (ok: bool)
        ensures
            ok == (self == Status::Success),
            ok == (self.wire() == 0),
    {
        match self {
            Status::Success => true,
            _ => false,
        }
    }
}

/// Every status survives a trip through its wire byte, and only the ten
/// listed bytes decode to a status.
pub proof fn status_code_roundtrip(status: Status, code: u8)
    ensures
        Status::of_wire(status.wire()) == Some(status),
        Status::of_wire(code) matches Some(s) ==> s.wire() == code,
        Status::of_wire(code) is Some <==> code == 0 || 128 <= code <= 136,
{
}

/// A command of the general store.
#[derive(Clone, Copy, Debug, PartialEq, Eq, Structural)]
pub enum Command {
    /// Read the value stored under a key.
    Get,
    /// Store a value under a key (`SET` on the wire).
    Put,
    /// Remove the entry under a key.
    Del,
}

impl Command {
    /// The byte that stands for this command on the wire.
    pub open spec fn wire(self) -> u8 {
        match self {
            Command::Get => 1,
            Command::Put => 2,
            Command::Del => 3,
        }
    }

    /// The command a wire byte stands for, if any.
    pub open spec fn of_wire(byte: u8) -> Option<Command> {
        if byte == 1 {
            Some(Command::Get)
        } else if byte == 2 {
            Some(Command::Put)
        } else if byte == 3 {
            Some(Command::Del)
        } else {
            None
        }
    }

    /// Encodes the command as its wire byte.
    pub fn byte(self) -> (byte: u8)
        ensures
            byte == self.wire(),
    {
        match self {
            Command::Get => 1,
            Command::Put => 2,
            Command::Del => 3,
        }
    }

    /// Decodes a command byte; `None` for a byte that names no command.
    pub fn from_byte(byte: u8) -> (command: Option<Command>)
        ensures
            command == Command::of_wire(byte),
    {
        match byte {
            1 => Some(Command::Get),
            2 => Some(Command::Put),
            3 => Some(Command::Del),
            _ => None,
        }
    }
}

/// Every command survives a trip through its wire byte, and only bytes 1 to 3
/// decode to a command.
pub proof fn command_byte_roundtrip(command: Command, byte: u8)
    ensures
        Command::of_wire(command.wire()) == Some(command),
        Command::of_wire(byte) matches Some(c) ==> c.wire() == byte,
        Command::of_wire(byte) is Some <==> 1 <= byte <= 3,
{
}

/// The one command of the statement store: look a key up.
pub const LOOKUP: u8 = 1;

/// A decoded request to the general store.
#[derive(Debug)]
pub struct Request {
    /// What to do.
    pub command: Command,
    /// Index into the bucket table; below `BUCKET_COUNT` in every decoded request.
    pub bucket: u8,
    /// The key, always sixteen bytes.
    pub key: [u8; 16],
    /// Whatever follows the key. It is the value of a `Put`; other commands ignore it.
    pub payload: Vec<u8>,
}

/// What a `Request` holds, as mathematical values.
pub struct RequestView {
    pub command: Command,
    pub bucket: u8,
    pub key: Seq<u8>,
    pub payload: Seq<u8>,
}

impl RequestView {
    /// The bucket index is in the table and the key has its fixed width.
    pub open spec fn wf(self) -> bool {
        &&& self.bucket < BUCKET_COUNT
        &&& self.key.len() == KEY_LEN
    }

    /// The frame that carries this request.
    pub open spec fn frame(self) -> Seq<u8> {
        seq![self.command.wire(), self.bucket] + self.key + self.payload
    }
}

impl View for Request {
    type V = RequestView;

    open spec fn view(&self) -> RequestView {
        RequestView {
            command: self.command,
            bucket: self.bucket,
            key: self.key@,
            payload: self.payload@,
        }
    }
}

/// What a frame sent to the general store means. The length is judged first,
/// then the bucket index, then the command byte.
pub open spec fn parse_general(frame: Seq<u8>) -> Result<RequestView, Status> {
    if frame.len() < GENERAL_MIN_LEN {
        Err(Status::TooShort)
    } else if frame[1] >= BUCKET_COUNT {
        Err(Status::InvalidBucket)
    } else {
        match Command::of_wire(frame[0]) {
            None => Err(Status::UnknownCommand),
            Some(command) => Ok(
                RequestView {
                    command,
                    bucket: frame[1],
                    key: frame.subrange(2, GENERAL_MIN_LEN as int),
                    payload: frame.subrange(GENERAL_MIN_LEN as int, frame.len() as int),
                },
            ),
        }
    }
}

/// Copies the sixteen bytes that start at `from` out of `frame`.
fn read_key(frame: &[u8], from: usize) -> (key: [u8; 16])
    requires
        from + KEY_LEN <= frame@.len(),
    ensures
        key@ == frame@.subrange(from as int, from + KEY_LEN),
{
    let len: usize = frame.len();
    let mut key: [u8; 16] = [0u8; 16];
    let mut i: usize = 0;
    while i < 16
        invariant
            i <= 16,
            len == frame@.len(),
            from + KEY_LEN <= len,
            forall|j: int| 0 <= j < i ==> key@[j] == frame@[from + j],
        decreases 16 - i,
    {
        key[i] = frame[from + i];
        i = i + 1;
    }
    assert(key@ =~= frame@.subrange(from as int, from + KEY_LEN));
    key
}

/// Decodes a frame sent to the general store.
///
/// Fails with `TooShort` for a frame of fewer than eighteen bytes, else with
/// `InvalidBucket` for a bucket index of ten or more, else with
/// `UnknownCommand` for a command byte other than 1, 2 or 3.
pub fn decode_general(frame: &[u8]) -> (decoded: Result<Request, Status>)
    ensures
        match decoded {
            Ok(request) => parse_general(frame@) == Ok::<RequestView, Status>(request@),
            Err(status) => parse_general(frame@) == Err::<RequestView, Status>(status),
        },
{
    if frame.len() < GENERAL_MIN_LEN {
        return Err(Status::TooShort);
    }
    let bucket: u8 = frame[1];
    if bucket >= BUCKET_COUNT {
        return Err(Status::InvalidBucket);
    }
    match Command::from_byte(frame[0]) {
        None => Err(Status::UnknownCommand),
        Some(command) => {
            let key = read_key(frame, 2);
            let payload = vstd::slice::slice_to_vec(&frame[GENERAL_MIN_LEN..frame.len()]);
            Ok(Request { command, bucket, key, payload })
        },
    }
}

/// Encodes a request to the general store: command byte, bucket index, key, payload.
pub fn encode_general(request: &Request) -> (frame: Vec<u8>)
    ensures
        frame@ == request@.frame(),
{
    let mut frame: Vec<u8> = Vec::new();
    frame.push(request.command.byte());
    frame.push(request.bucket);
    frame.extend_from_slice(request.key.as_slice());
    frame.extend_from_slice(request.payload.as_slice());
    assert(frame@ =~= request@.frame());
    frame
}

/// A well-formed request is read back unchanged from the frame that carries it.
pub proof fn general_decode_inverts_encode(request: RequestView)
    requires
        request.wf(),
    ensures
        parse_general(request.frame()) == Ok::<RequestView, Status>(request),
{
    let frame = request.frame();
    assert(frame.len() == GENERAL_MIN_LEN + request.payload.len());
    assert(frame[0] == request.command.wire());
    assert(frame[1] == request.bucket);
    assert(frame.subrange(2, GENERAL_MIN_LEN as int) =~= request.key);
    assert(frame.subrange(GENERAL_MIN_LEN as int, frame.len() as int) =~= request.payload);
}

/// A frame that decodes is exactly the encoding of what it decodes to, and
/// what it decodes to is well formed.
pub proof fn general_encode_inverts_decode(frame: Seq<u8>)
    requires
        parse_general(frame) is Ok,
    ensures
        parse_general(frame).unwrap().wf(),
        parse_general(frame).unwrap().frame() == frame,
{
    let request = parse_general(frame).unwrap();
    assert(request.frame() =~= frame);
}

/// A decoded request to the statement store: look up `key` in its one bucket.
#[derive(Debug)]
pub struct Lookup {
    /// The key, always sixteen bytes.
    pub key: [u8; 16],
}

/// What a frame sent to the statement store means: the key to look up. The
/// length is judged first, then the command byte.
pub open spec fn parse_statement(frame: Seq<u8>) -> Result<Seq<u8>, Status> {
    if frame.len() < STATEMENT_MIN_LEN {
        Err(Status::TooShort)
    } else if frame[0] != LOOKUP {
        Err(Status::UnknownCommand)
    } else {
        Ok(frame.subrange(1, STATEMENT_MIN_LEN as int))
    }
}

/// The frame that asks the statement store for `key`.
pub open spec fn statement_frame(key: Seq<u8>) -> Seq<u8> {
    seq![LOOKUP] + key
}

/// Decodes a frame sent to the statement store.
///
/// Fails with `TooShort` for a frame of fewer than seventeen bytes, else with
/// `UnknownCommand` for a command byte other than 1. Bytes after the key are
/// ignored.
pub fn decode_statement(frame: &[u8]) -> (decoded: Result<Lookup, Status>)
    ensures
        match decoded {
            Ok(lookup) => parse_statement(frame@) == Ok::<Seq<u8>, Status>(lookup.key@),
            Err(status) => parse_statement(frame@) == Err::<Seq<u8>, Status>(status),
        },
{
    if frame.len() < STATEMENT_MIN_LEN {
        return Err(Status::TooShort);
    }
    if frame[0] != LOOKUP {
        return Err(Status::UnknownCommand);
    }
    Ok(Lookup { key: read_key(frame, 1) })
}

/// Encodes a request to the statement store: command byte, key.
pub fn encode_statement(lookup: &Lookup) -> (frame: Vec<u8>)
    ensures
        frame@ == statement_frame(lookup.key@),
{
    let mut frame: Vec<u8> = Vec::new();
    frame.push(LOOKUP);
    frame.extend_from_slice(lookup.key.as_slice());
    assert(frame@ =~= statement_frame(lookup.key@));
    frame
}

/// A sixteen-byte key is read back unchanged from the frame that asks for it.
pub proof fn statement_decode_inverts_encode(key: Seq<u8>)
    requires
        key.len() == KEY_LEN,
    ensures
        parse_statement(statement_frame(key)) == Ok::<Seq<u8>, Status>(key),
{
    let frame = statement_frame(key);
    assert(frame[0] == LOOKUP);
    assert(frame.subrange(1, STATEMENT_MIN_LEN as int) =~= key);
}

/// A decoded response.
#[derive(Debug)]
pub struct Response {
    /// The command byte of the request this answers.
    pub command: u8,
    /// How the request ended.
    pub status: Status,
    /// The value read; empty unless a read succeeded.
    pub payload: Vec<u8>,
}

/// What a `Response` holds, as mathematical values.
pub struct ResponseView {
    pub command: u8,
    pub status: Status,
    pub payload: Seq<u8>,
}

impl ResponseView {
    /// The frame that carries this response.
    pub open spec fn frame(self) -> Seq<u8> {
        seq![self.command, self.status.wire()] + self.payload
    }
}

impl View for Response {
    type V = ResponseView;

    open spec fn view(&self) -> ResponseView {
        ResponseView { command: self.command, status: self.status, payload: self.payload@ }
    }
}

/// The frame of a response that carries a status and nothing else.
pub open spec fn status_frame(command: u8, status: Status) -> Seq<u8> {
    seq![command, status.wire()]
}

/// The frame of a successful read: the echo, status 0, then the value.
pub open spec fn value_frame(command: u8, value: Seq<u8>) -> Seq<u8> {
    seq![command, 0u8] + value
}

/// Why a response frame could not be decoded.
#[derive(Clone, Copy, Debug, PartialEq, Eq, Structural)]
pub enum ResponseError {
    /// Fewer than two bytes arrived.
    Truncated,
    /// Byte 1 stands for no status.
    UnknownStatus,
}

/// What a response frame means.
pub open spec fn parse_response(frame: Seq<u8>) -> Result<ResponseView, ResponseError> {
    if frame.len() < RESPONSE_MIN_LEN {
        Err(ResponseError::Truncated)
    } else {
        match Status::of_wire(frame[1]) {
            None => Err(ResponseError::UnknownStatus),
            Some(status) => Ok(
                ResponseView {
                    command: frame[0],
                    status,
                    payload: frame.subrange(RESPONSE_MIN_LEN as int, frame.len() as int),
                },
            ),
        }
    }
}

/// Encodes a response that carries only a status.
pub fn encode_status(command: u8, status: Status) -> (frame: Vec<u8>)
    ensures
        frame@ == status_frame(command, status),
{
    let mut frame: Vec<u8> = Vec::new();
    frame.push(command);
    frame.push(status.code());
    assert(frame@ =~= status_frame(command, status));
    frame
}

/// Encodes the response to a successful read.
pub fn encode_value(command: u8, value: &[u8]) -> (frame: Vec<u8>)
    ensures
        frame@ == value_frame(command, value@),
{
    let mut frame: Vec<u8> = Vec::new();
    frame.push(command);
    frame.push(0);
    frame.extend_from_slice(value);
    assert(frame@ =~= value_frame(command, value@));
    frame
}

/// Encodes a response: command echo, status byte, payload.
pub fn encode_response(response: &Response) -> (frame: Vec<u8>)
    ensures
        frame@ == response@.frame(),
{
    let mut frame: Vec<u8> = Vec::new();
    frame.push(response.command);
    frame.push(response.status.code());
    frame.extend_from_slice(response.payload.as_slice());
    assert(frame@ =~= response@.frame());
    frame
}

/// Decodes a response frame.
///
/// Fails with `Truncated` for a frame of fewer than two bytes, else with
/// `UnknownStatus` when byte 1 is none of the ten status codes.
pub fn decode_response(frame: &[u8]) -> (decoded: Result<Response, ResponseError>)
    ensures
        match decoded {
            Ok(response) => parse_response(frame@) == Ok::<ResponseView, ResponseError>(
                response@,
            ),
            Err(error) => parse_response(frame@) == Err::<ResponseView, ResponseError>(error),
        },
{
    if frame.len() < RESPONSE_MIN_LEN {
        return Err(ResponseError::Truncated);
    }
    match Status::from_code(frame[1]) {
        None => Err(ResponseError::UnknownStatus),
        Some(status) => {
            let payload = vstd::slice::slice_to_vec(&frame[RESPONSE_MIN_LEN..frame.len()]);
            Ok(Response { command: frame[0], status, payload })
        },
    }
}

/// Any response is read back unchanged from the frame that carries it, and a
/// frame that decodes is exactly the encoding of what it decodes to.
pub proof fn response_roundtrip(response: ResponseView, frame: Seq<u8>)
    ensures
        parse_response(response.frame()) == Ok::<ResponseView, ResponseError>(response),
        parse_response(frame) matches Ok(decoded) ==> decoded.frame() == frame,
{
    let encoded = response.frame();
    assert(encoded[0] == response.command);
    assert(encoded[1] == response.status.wire());
    assert(encoded.subrange(RESPONSE_MIN_LEN as int, encoded.len() as int) =~= response.payload);
    if let Ok(decoded) = parse_response(frame) {
        assert(decoded.frame() =~= frame);
    }
}

/// The two response shapes are special cases of the general one.
pub proof fn reply_shapes(command: u8, status: Status, value: Seq<u8>)
    ensures
        status_frame(command, status) == (ResponseView {
            command,
            status,
            payload: Seq::<u8>::empty(),
        }).frame(),
        value_frame(command, value) == (ResponseView {
            command,
            status: Status::Success,
            payload: value,
        }).frame(),
{
    assert(status_frame(command, status) =~= (ResponseView {
        command,
        status,
        payload: Seq::<u8>::empty(),
    }).frame());
    assert(value_frame(command, value) =~= (ResponseView {
        command,
        status: Status::Success,
        payload: value,
    }).frame());
}

} // verus!
