//! The boundary to the `kv` crate, the embedded engine that persists the buckets.
//!
//! Nothing in this file is proved. Each function below makes one call into
//! `kv` and states what that call does; everything else in the library is
//! verified against these statements.
//!
//! `kv` hands out bucket handles that share the engine's state without
//! borrowing it. To keep that sharing out of the verified code, the engine and
//! the one handle it has open travel together as a single value: a handle is
//! opened with `engine_select` and used by the calls that follow, and whoever
//! holds the `Engine` exclusively holds everything that can change it.

use vstd::prelude::*;

verus! {

/// The error type of `kv`. Nothing is known about a value of it.
#[verifier::external_type_specification]
#[verifier::external_body]
pub struct ExKvError(kv::Error);

/// The configuration type of `kv`. Nothing is known about a value of it.
#[verifier::external_type_specification]
#[verifier::external_body]
pub struct ExKvConfig(kv::Config);

/// An open `kv::Store` together with the bucket handle last opened from it.
///
/// `kv::Bucket` is bounded by traits of `kv` and cannot be described to the
/// verifier as a type of its own, so it is kept in here.
#[verifier::external_body]
pub struct Engine {
    store: kv::Store,
    open: Option<kv::Bucket<'static, Vec<u8>, Vec<u8>>>,
}

/// What the engine holds: the value stored under each bucket name and key.
pub uninterp spec fn engine_entries(engine: Engine) -> Map<(Seq<char>, Seq<u8>), Seq<u8>>;

/// The name of the bucket whose handle the engine has open, if it has one.
pub uninterp spec fn engine_cursor(engine: Engine) -> Option<Seq<char>>;

/// True when a flush has succeeded since the engine last changed: everything
/// it holds is on disk, and is what a store opened there later will find.
pub uninterp spec fn engine_flushed(engine: Engine) -> bool;

/// The value stored under `key` in `bucket`, if there is one.
pub open spec fn entry_at(
    entries: Map<(Seq<char>, Seq<u8>), Seq<u8>>,
    bucket: Seq<char>,
    key: Seq<u8>,
) -> Option<Seq<u8>> {
    if entries.contains_key((bucket, key)) {
        Some(entries[(bucket, key)])
    } else {
        None
    }
}

/// The bytes of an optional value.
pub open spec fn bytes_of(value: Option<Vec<u8>>) -> Option<Seq<u8>> {
    match value {
        Some(bytes) => Some(bytes@),
        None => None,
    }
}

/// `kv::Config::new`: the default configuration for a store kept at `path`.
/// Nothing is claimed about it.
#[verifier::external_body]
pub(crate) fn engine_config(path: &str) -> (config: kv::Config) {
    kv::Config::new(path)
}

/// `kv::Store::new`: opens the store that `config` describes, creating it if
/// it does not exist.
///
/// What a freshly opened engine holds depends on what is on disk, so nothing
/// is claimed about it, only that no bucket handle is open yet.
#[verifier::external_body]
pub(crate) fn engine_open(config: kv::Config) -> (opened: Result<Engine, kv::Error>)
    ensures
        opened matches Ok(engine) ==> engine_cursor(engine) is None,
{
    match kv::Store::new(config) {
        Ok(store) => Ok(Engine { store, open: None }),
        Err(fault) => Err(fault),
    }
}

/// `kv::Store::bucket` with `Some(name)`: opens the bucket `name`, creating an
/// empty one if the engine has none of that name, and keeps the handle.
///
/// Claims that opening a bucket changes no stored value, whether it succeeds
/// or not, and that on success the handle held is the one for `name`.
#[verifier::external_body]
pub(crate) fn engine_select(engine: &mut Engine, name: &str) -> (selected: Result<(), kv::Error>)
    ensures
        engine_entries(*final(engine)) == engine_entries(*old(engine)),
        selected is Ok ==> engine_cursor(*final(engine)) == Some(name@),
{
    match engine.store.bucket::<Vec<u8>, Vec<u8>>(Some(name)) {
        Ok(handle) => {
            engine.open = Some(handle);
            Ok(())
        },
        Err(fault) => Err(fault),
    }
}

/// `kv::Bucket::get` on the open handle.
///
/// Claims that a successful call returns exactly what is stored under `key` in
/// the open bucket. Nothing is claimed about a call that fails.
#[verifier::external_body]
pub(crate) fn engine_get(engine: &Engine, key: &Vec<u8>) -> (found: Result<
    Option<Vec<u8>>,
    kv::Error,
>)
    requires
        engine_cursor(*engine) is Some,
    ensures
        found matches Ok(value) ==> bytes_of(value) == entry_at(
            engine_entries(*engine),
            engine_cursor(*engine).unwrap(),
            key@,
        ),
{
    engine.open.as_ref().unwrap().get(key)
}

/// `kv::Bucket::set` on the open handle.
///
/// Claims that a successful call stores `value` under `key` in the open
/// bucket and leaves every other entry as it was. What it returns, the value
/// stored before, is not used and nothing is claimed about it. After a call
/// that fails nothing is claimed about what the engine holds.
#[verifier::external_body]
pub(crate) fn engine_set(engine: &mut Engine, key: &Vec<u8>, value: &Vec<u8>) -> (previous: Result<
    Option<Vec<u8>>,
    kv::Error,
>)
    requires
        engine_cursor(*old(engine)) is Some,
    ensures
        engine_cursor(*final(engine)) == engine_cursor(*old(engine)),
        previous is Ok ==> engine_entries(*final(engine)) == engine_entries(*old(engine)).insert(
            (engine_cursor(*old(engine)).unwrap(), key@),
            value@,
        ),
{
    engine.open.as_ref().unwrap().set(key, value)
}

/// `kv::Bucket::remove` on the open handle.
///
/// Claims that a successful call leaves no entry under `key` in the open
/// bucket and leaves every other entry as it was; removing a key that has no
/// entry succeeds and changes nothing. What it returns, the value stored
/// before, is not used and nothing is claimed about it. After a call that
/// fails nothing is claimed about what the engine holds.
#[verifier::external_body]
pub(crate) fn engine_remove(engine: &mut Engine, key: &Vec<u8>) -> (previous: Result<
    Option<Vec<u8>>,
    kv::Error,
>)
    requires
        engine_cursor(*old(engine)) is Some,
    ensures
        engine_cursor(*final(engine)) == engine_cursor(*old(engine)),
        previous is Ok ==> engine_entries(*final(engine)) == engine_entries(*old(engine)).remove(
            (engine_cursor(*old(engine)).unwrap(), key@),
        ),
{
    engine.open.as_ref().unwrap().remove(key)
}

/// `kv::Bucket::flush` on the open handle: writes out what is pending, for
/// every bucket, syncs the file, and returns the number of bytes written.
///
/// Claims that flushing changes no stored value, and that after a successful
/// call the engine is flushed: the engine underneath documents that all
/// earlier writes are then recovered after a crash. The count depends on what
/// was pending, so nothing is claimed about it.
#[verifier::external_body]
pub(crate) fn engine_flush(engine: &mut Engine) -> (flushed: Result<usize, kv::Error>)
    requires
        engine_cursor(*old(engine)) is Some,
    ensures
        engine_cursor(*final(engine)) == engine_cursor(*old(engine)),
        engine_entries(*final(engine)) == engine_entries(*old(engine)),
        flushed is Ok ==> engine_flushed(*final(engine)),
{
    engine.open.as_ref().unwrap().flush()
}

/// The `Display` text of a `kv::Error`, for whoever reports the fault.
#[verifier::external_body]
pub(crate) fn fault_text(fault: &kv::Error) -> (text: String) {
    format!("{}", fault)
}

} // verus!
