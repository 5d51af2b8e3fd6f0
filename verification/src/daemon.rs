//! What a storage daemon does with one frame, and with one connection.
//!
//! A frame is judged before the store is touched: a frame that is too short,
//! names no bucket of the table or carries an unknown command is answered
//! from its bytes alone. Only a request that passed is dispatched to the
//! store, and each engine failure on the way has its own status.
//!
//! The daemon's sockets and threads are not here. `Connection` says, for each
//! thing that can happen on an accepted connection, what to do next; the
//! caller performs the reads and writes and owns the lock around the store.

use vstd::prelude::*;
use crate::buckets::{
    bucket_names_distinct, general_name, statement_bucket, statement_name, table_name,
};
use crate::engine::{bytes_of, entry_at};
use crate::protocol::{
    decode_general, decode_statement, encode_status, encode_value, general_decode_inverts_encode,
    parse_general, parse_statement, status_frame, value_frame, Command, RequestView, Status,
    BUCKET_COUNT, GENERAL_MIN_LEN, KEY_LEN, LOOKUP, STATEMENT_MIN_LEN,
};
use crate::store::{BucketStore, Entries, Stage, StoreFault, WriteReport};

verus! {

/// The command byte a reply echoes: byte 0 of the frame. A frame without
/// bytes is echoed as 0.
pub open spec fn echo_of(frame: Seq<u8>) -> u8 {
    if frame.len() > 0 {
        frame[0]
    } else {
        0
    }
}

/// The reply to a read the engine answered: the value, or "key not found".
pub open spec fn read_reply(command: u8, entry: Option<Seq<u8>>) -> Seq<u8> {
    match entry {
        Some(value) => value_frame(command, value),
        None => status_frame(command, Status::KeyNotFound),
    }
}

/// The reply to a request that reached the store when the store's lock could
/// not be taken; a frame that fails to decode is answered as always.
pub open spec fn general_locked_out(frame: Seq<u8>) -> Seq<u8> {
    match parse_general(frame) {
        Err(status) => status_frame(echo_of(frame), status),
        Ok(request) => status_frame(request.command.wire(), Status::LockFailed),
    }
}

/// The same for the statement store.
pub open spec fn statement_locked_out(frame: Seq<u8>) -> Seq<u8> {
    match parse_statement(frame) {
        Err(status) => status_frame(echo_of(frame), status),
        Ok(key) => status_frame(LOOKUP, Status::LockFailed),
    }
}

/// One frame served by the general store: `reply` is a possible answer to
/// `frame` for a store that held `before`, and leaves it holding `after`.
///
/// A frame that fails to decode has one answer and changes nothing. A read
/// changes nothing and answers with the entry, unless the engine fails. A
/// write or a removal that is acknowledged with status 0 has changed exactly
/// that entry; one answered "bucket open failed" has changed nothing; after
/// one answered "set failed" or "delete failed" the contents are unknown.
pub open spec fn general_step(before: Entries, frame: Seq<u8>, reply: Seq<u8>, after: Entries) -> bool {
    match parse_general(frame) {
        Err(status) => reply == status_frame(echo_of(frame), status) && after == before,
        Ok(request) => {
            let bucket = general_name(request.bucket).unwrap();
            let command = request.command.wire();
            match request.command {
                Command::Get => {
                    &&& after == before
                    &&& {
                        ||| reply == read_reply(command, entry_at(before, bucket, request.key))
                        ||| reply == status_frame(command, Status::BucketOpenFailed)
                        ||| reply == status_frame(command, Status::GetFailed)
                    }
                },
                Command::Put => {
                    ||| reply == status_frame(command, Status::Success) && after == before.insert(
                        (bucket, request.key),
                        request.payload,
                    )
                    ||| reply == status_frame(command, Status::BucketOpenFailed) && after == before
                    ||| reply == status_frame(command, Status::SetFailed)
                },
                Command::Del => {
                    ||| reply == status_frame(command, Status::Success) && after == before.remove(
                        (bucket, request.key),
                    )
                    ||| reply == status_frame(command, Status::BucketOpenFailed) && after == before
                    ||| reply == status_frame(command, Status::DeleteFailed)
                },
            }
        },
    }
}

/// One frame served by the statement store, which only reads.
pub open spec fn statement_step(before: Entries, frame: Seq<u8>, reply: Seq<u8>, after: Entries) -> bool {
    &&& after == before
    &&& match parse_statement(frame) {
        Err(status) => reply == status_frame(echo_of(frame), status),
        Ok(key) => {
            ||| reply == read_reply(LOOKUP, entry_at(before, statement_name(), key))
            ||| reply == status_frame(LOOKUP, Status::BucketOpenFailed)
            ||| reply == status_frame(LOOKUP, Status::GetFailed)
        },
    }
}

/// True for a reply that reports a failure of the engine: "bucket open
/// failed", "get failed", "set failed" or "delete failed".
pub open spec fn engine_failed(reply: Seq<u8>) -> bool {
    reply.len() == 2 && (reply[1] == 131 || reply[1] == 133 || reply[1] == 134 || reply[1] == 135)
}

/// True for a reply that is status 0 and nothing else, as a write or a
/// removal is acknowledged.
pub open spec fn acknowledged(reply: Seq<u8>) -> bool {
    reply.len() == 2 && reply[1] == 0
}

/// True for a frame that asks the general store to write or remove an entry.
pub open spec fn changes_store(frame: Seq<u8>) -> bool {
    parse_general(frame) matches Ok(request) && request.command != Command::Get
}

/// What serving one frame produced.
#[derive(Debug)]
pub struct Served {
    /// The response frame to write back.
    pub reply: Vec<u8>,
    /// The engine failure behind an error status, if there was one.
    pub fault: Option<StoreFault>,
    /// Why the flush after a write or removal failed, if it did. The reply
    /// does not show it.
    pub flush_fault: Option<StoreFault>,
}

/// Byte 0 of the frame, or 0 for a frame without bytes.
pub fn echo(frame: &[u8]) -> (command: u8)
    ensures
        command == echo_of(frame@),
{
    if frame.len() > 0 {
        frame[0]
    } else {
        0
    }
}

/// The response to a read, given what the store returned.
///
/// A value found is sent back behind status 0; a missing entry is "key not
/// found"; a fault at stage `Bucket` is "bucket open failed" and any other
/// fault is "get failed".
pub fn read_response(command: u8, found: &Result<Option<Vec<u8>>, StoreFault>) -> (reply: Vec<u8>)
    ensures
        reply@ == match *found {
            Ok(value) => read_reply(command, bytes_of(value)),
            Err(fault) => if fault.stage == Stage::Bucket {
                status_frame(command, Status::BucketOpenFailed)
            } else {
                status_frame(command, Status::GetFailed)
            },
        },
{
    match found {
        Ok(Some(value)) => encode_value(command, value.as_slice()),
        Ok(None) => encode_status(command, Status::KeyNotFound),
        Err(fault) => {
            if fault.stage == Stage::Bucket {
                encode_status(command, Status::BucketOpenFailed)
            } else {
                encode_status(command, Status::GetFailed)
            }
        },
    }
}

/// The response to a write or a removal, given the store's report.
///
/// No fault is status 0; a fault at stage `Bucket` is "bucket open failed";
/// any other fault is `failed`, the status of the operation that was asked
/// for. A failed flush does not show in the response.
pub fn write_response(command: u8, report: &WriteReport, failed: Status) -> (reply: Vec<u8>)
    ensures
        reply@ == match report.fault {
            None => status_frame(command, Status::Success),
            Some(fault) => if fault.stage == Stage::Bucket {
                status_frame(command, Status::BucketOpenFailed)
            } else {
                status_frame(command, failed)
            },
        },
{
    match &report.fault {
        None => encode_status(command, Status::Success),
        Some(fault) => {
            if fault.stage == Stage::Bucket {
                encode_status(command, Status::BucketOpenFailed)
            } else {
                encode_status(command, failed)
            }
        },
    }
}

/// Serves one frame sent to the general store.
///
/// `store` is the shared store if its lock could be taken, `None` if not. A
/// frame that fails to decode is answered with its status and the store is
/// not touched; without the lock every other frame is answered "lock failed".
/// Otherwise the request is carried out and `general_step` relates the reply
/// to what the store held before and holds after.
pub fn serve_general(store: Option<&mut BucketStore>, frame: &[u8]) -> (served: Served)
    ensures
        match store {
            Some(held) => {
                &&& general_step(held@, frame@, served.reply@, final(held)@)
                &&& parse_general(frame@) is Err ==> *final(held) == *held
                &&& changes_store(frame@) && acknowledged(served.reply@)
                    && served.flush_fault is None ==> final(held).flushed()
            },
            None => served.reply@ == general_locked_out(frame@),
        },
        served.fault is Some <==> engine_failed(served.reply@),
        served.flush_fault is Some ==> changes_store(frame@) && (acknowledged(served.reply@)
            || engine_failed(served.reply@)),
{
    let request = match decode_general(frame) {
        Err(status) => {
            return Served {
                reply: encode_status(echo(frame), status),
                fault: None,
                flush_fault: None,
            };
        },
        Ok(request) => request,
    };
    let command: u8 = request.command.byte();
    let store = match store {
        None => {
            return Served {
                reply: encode_status(command, Status::LockFailed),
                fault: None,
                flush_fault: None,
            };
        },
        Some(held) => held,
    };
    let bucket = table_name(request.bucket);
    match request.command {
        Command::Get => {
            let found = store.get(bucket, request.key.as_slice());
            let reply = read_response(command, &found);
            match found {
                Ok(_) => Served { reply, fault: None, flush_fault: None },
                Err(fault) => Served { reply, fault: Some(fault), flush_fault: None },
            }
        },
        Command::Put => {
            let report = store.put(bucket, request.key.as_slice(), request.payload.as_slice());
            let reply = write_response(command, &report, Status::SetFailed);
            Served { reply, fault: report.fault, flush_fault: report.flush_fault }
        },
        Command::Del => {
            let report = store.delete(bucket, request.key.as_slice());
            let reply = write_response(command, &report, Status::DeleteFailed);
            Served { reply, fault: report.fault, flush_fault: report.flush_fault }
        },
    }
}

/// Serves one frame sent to the statement store.
///
/// `store` is the shared store if its lock could be taken, `None` if not. A
/// frame that fails to decode is answered with its status and the store is
/// not touched; without the lock every other frame is answered "lock failed".
/// Otherwise the key is looked up in the store's one bucket.
pub fn serve_statement(store: Option<&mut BucketStore>, frame: &[u8]) -> (served: Served)
    ensures
        match store {
            Some(held) => {
                &&& statement_step(held@, frame@, served.reply@, final(held)@)
                &&& parse_statement(frame@) is Err ==> *final(held) == *held
            },
            None => served.reply@ == statement_locked_out(frame@),
        },
        served.fault is Some <==> engine_failed(served.reply@),
        served.flush_fault is None,
{
    let lookup = match decode_statement(frame) {
        Err(status) => {
            return Served {
                reply: encode_status(echo(frame), status),
                fault: None,
                flush_fault: None,
            };
        },
        Ok(lookup) => lookup,
    };
    let store = match store {
        None => {
            return Served {
                reply: encode_status(LOOKUP, Status::LockFailed),
                fault: None,
                flush_fault: None,
            };
        },
        Some(held) => held,
    };
    let found = store.get(statement_bucket(), lookup.key.as_slice());
    let reply = read_response(LOOKUP, &found);
    match found {
        Ok(_) => Served { reply, fault: None, flush_fault: None },
        Err(fault) => Served { reply, fault: Some(fault), flush_fault: None },
    }
}

/// The frame that asks the general store to carry out `command` on `key` in
/// the bucket at `bucket`, with `payload` behind the key.
pub open spec fn request_frame(command: Command, bucket: u8, key: Seq<u8>, payload: Seq<u8>) -> Seq<u8> {
    (RequestView { command, bucket, key, payload }).frame()
}

/// A value written is the value read: when a write to any bucket of the table
/// under any sixteen-byte key is acknowledged with status 0, the next read of
/// that key in that bucket answers with status 0 and exactly the bytes
/// written, unless the engine fails the read itself. Bytes that trail the key
/// in the read request make no difference.
pub proof fn set_then_get(
    bucket: u8,
    key: Seq<u8>,
    value: Seq<u8>,
    trailing: Seq<u8>,
    before: Entries,
    set_reply: Seq<u8>,
    between: Entries,
    get_reply: Seq<u8>,
    after: Entries,
)
    requires
        bucket < BUCKET_COUNT,
        key.len() == KEY_LEN,
        general_step(before, request_frame(Command::Put, bucket, key, value), set_reply, between),
        set_reply == status_frame(Command::Put.wire(), Status::Success),
        general_step(between, request_frame(Command::Get, bucket, key, trailing), get_reply, after),
        get_reply != status_frame(Command::Get.wire(), Status::BucketOpenFailed),
        get_reply != status_frame(Command::Get.wire(), Status::GetFailed),
    ensures
        get_reply == value_frame(Command::Get.wire(), value),
        after == between,
{
    general_decode_inverts_encode(RequestView { command: Command::Put, bucket, key, payload: value });
    general_decode_inverts_encode(
        RequestView { command: Command::Get, bucket, key, payload: trailing },
    );
    assert(status_frame(2, Status::Success)[1] != status_frame(2, Status::BucketOpenFailed)[1]);
    assert(status_frame(2, Status::Success)[1] != status_frame(2, Status::SetFailed)[1]);
}

/// A key removed is a key not found: when a removal from any bucket of the
/// table under any sixteen-byte key is acknowledged with status 0, the next
/// read of that key in that bucket answers "key not found", unless the engine
/// fails the read itself.
pub proof fn del_then_get(
    bucket: u8,
    key: Seq<u8>,
    del_trailing: Seq<u8>,
    get_trailing: Seq<u8>,
    before: Entries,
    del_reply: Seq<u8>,
    between: Entries,
    get_reply: Seq<u8>,
    after: Entries,
)
    requires
        bucket < BUCKET_COUNT,
        key.len() == KEY_LEN,
        general_step(
            before,
            request_frame(Command::Del, bucket, key, del_trailing),
            del_reply,
            between,
        ),
        del_reply == status_frame(Command::Del.wire(), Status::Success),
        general_step(
            between,
            request_frame(Command::Get, bucket, key, get_trailing),
            get_reply,
            after,
        ),
        get_reply != status_frame(Command::Get.wire(), Status::BucketOpenFailed),
        get_reply != status_frame(Command::Get.wire(), Status::GetFailed),
    ensures
        get_reply == status_frame(Command::Get.wire(), Status::KeyNotFound),
        after == between,
{
    general_decode_inverts_encode(
        RequestView { command: Command::Del, bucket, key, payload: del_trailing },
    );
    general_decode_inverts_encode(
        RequestView { command: Command::Get, bucket, key, payload: get_trailing },
    );
    assert(status_frame(3, Status::Success)[1] != status_frame(3, Status::BucketOpenFailed)[1]);
    assert(status_frame(3, Status::Success)[1] != status_frame(3, Status::DeleteFailed)[1]);
}

/// A write or a removal in one place leaves every other bucket and key as it
/// was: a read of another key, or of the same key in another bucket, answers
/// after an acknowledged change what it would have answered before.
pub proof fn change_is_local(
    command: Command,
    bucket: u8,
    key: Seq<u8>,
    payload: Seq<u8>,
    other_bucket: u8,
    other_key: Seq<u8>,
    before: Entries,
    reply: Seq<u8>,
    after: Entries,
)
    requires
        bucket < BUCKET_COUNT,
        other_bucket < BUCKET_COUNT,
        key.len() == KEY_LEN,
        other_key.len() == KEY_LEN,
        bucket != other_bucket || key != other_key,
        general_step(before, request_frame(command, bucket, key, payload), reply, after),
        reply == status_frame(command.wire(), Status::Success) || reply
            == status_frame(command.wire(), Status::BucketOpenFailed) || command == Command::Get,
    ensures
        entry_at(after, general_name(other_bucket).unwrap(), other_key) == entry_at(
            before,
            general_name(other_bucket).unwrap(),
            other_key,
        ),
{
    general_decode_inverts_encode(RequestView { command, bucket, key, payload });
    if bucket != other_bucket {
        bucket_names_distinct(bucket, other_bucket);
    }
    let s = status_frame(command.wire(), Status::Success);
    assert(s[1] != status_frame(command.wire(), Status::BucketOpenFailed)[1]);
    assert(s[1] != status_frame(command.wire(), Status::SetFailed)[1]);
    assert(s[1] != status_frame(command.wire(), Status::DeleteFailed)[1]);
    let o = status_frame(command.wire(), Status::BucketOpenFailed);
    assert(o[1] != status_frame(command.wire(), Status::SetFailed)[1]);
    assert(o[1] != status_frame(command.wire(), Status::DeleteFailed)[1]);
}

/// A frame of at least eighteen bytes whose bucket index is ten or more is
/// answered "invalid bucket", whatever its command byte, and the store is
/// left as it was.
pub proof fn invalid_bucket_is_refused(before: Entries, frame: Seq<u8>, reply: Seq<u8>, after: Entries)
    requires
        frame.len() >= GENERAL_MIN_LEN,
        frame[1] >= BUCKET_COUNT,
        general_step(before, frame, reply, after),
    ensures
        reply == status_frame(frame[0], Status::InvalidBucket),
        reply == seq![frame[0], 129u8],
        after == before,
{
    assert(status_frame(frame[0], Status::InvalidBucket) =~= seq![frame[0], 129u8]);
}

/// A frame shorter than command, bucket index and key is answered "too
/// short", whatever it holds, and the store is left as it was.
pub proof fn short_general_frame_is_refused(
    before: Entries,
    frame: Seq<u8>,
    reply: Seq<u8>,
    after: Entries,
)
    requires
        frame.len() < GENERAL_MIN_LEN,
        general_step(before, frame, reply, after),
    ensures
        reply == status_frame(echo_of(frame), Status::TooShort),
        reply == seq![echo_of(frame), 136u8],
        after == before,
{
    assert(status_frame(echo_of(frame), Status::TooShort) =~= seq![echo_of(frame), 136u8]);
}

/// The same for the statement store, whose frames are command and key.
pub proof fn short_statement_frame_is_refused(
    before: Entries,
    frame: Seq<u8>,
    reply: Seq<u8>,
    after: Entries,
)
    requires
        frame.len() < STATEMENT_MIN_LEN,
        statement_step(before, frame, reply, after),
    ensures
        reply == status_frame(echo_of(frame), Status::TooShort),
        reply == seq![echo_of(frame), 136u8],
        after == before,
{
    assert(status_frame(echo_of(frame), Status::TooShort) =~= seq![echo_of(frame), 136u8]);
}

/// A frame that is long enough and names a bucket of the table, but whose
/// command byte is none of 1, 2 and 3, is answered "unknown command", and the
/// store is left as it was.
pub proof fn unknown_general_command_is_refused(
    before: Entries,
    frame: Seq<u8>,
    reply: Seq<u8>,
    after: Entries,
)
    requires
        frame.len() >= GENERAL_MIN_LEN,
        frame[1] < BUCKET_COUNT,
        !(1 <= frame[0] <= 3),
        general_step(before, frame, reply, after),
    ensures
        reply == status_frame(frame[0], Status::UnknownCommand),
        reply == seq![frame[0], 128u8],
        after == before,
{
    assert(status_frame(frame[0], Status::UnknownCommand) =~= seq![frame[0], 128u8]);
}

/// The same for the statement store, whose only command byte is 1.
pub proof fn unknown_statement_command_is_refused(
    before: Entries,
    frame: Seq<u8>,
    reply: Seq<u8>,
    after: Entries,
)
    requires
        frame.len() >= STATEMENT_MIN_LEN,
        frame[0] != LOOKUP,
        statement_step(before, frame, reply, after),
    ensures
        reply == status_frame(frame[0], Status::UnknownCommand),
        reply == seq![frame[0], 128u8],
        after == before,
{
    assert(status_frame(frame[0], Status::UnknownCommand) =~= seq![frame[0], 128u8]);
}

/// Every reply echoes the command byte of its frame, carries one of the ten
/// status codes, and has bytes behind the status only when a read succeeded.
pub proof fn reply_is_well_formed(before: Entries, frame: Seq<u8>, reply: Seq<u8>, after: Entries)
    requires
        general_step(before, frame, reply, after) || statement_step(before, frame, reply, after)
            || reply == general_locked_out(frame) || reply == statement_locked_out(frame),
    ensures
        reply.len() >= 2,
        reply[0] == echo_of(frame),
        Status::of_wire(reply[1]) is Some,
        reply.len() > 2 ==> reply[1] == 0 && (frame[0] == 1),
{
}

} // verus!
