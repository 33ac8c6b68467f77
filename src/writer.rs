use vstd::prelude::*;

use crate::encoder::{encode_key, encode_value, key_bytes, value_bytes, Object};
use crate::error::{check_error_slot, WriterError};
use crate::state::{advance, is_allowed, next_state, required_state, Operation, WriterState};

verus! {

/// A record appended to the file being built.
pub enum Record {
    /// A key set to a value.
    Put(Seq<u8>, Seq<u8>),
    /// A tombstone for a key.
    Delete(Seq<u8>),
}

/// A request that crosses the native boundary.
pub enum Command {
    Open,
    Write(Record),
    Finish,
}

/// What a writer is, as far as its callers can observe.
pub struct WriterModel {
    pub state: WriterState,
    pub raw_mode: bool,
    /// The records the native builder accepted, in the order they were added.
    pub records: Seq<Record>,
}

impl WriterModel {
    /// Nothing has been recorded before the writer was opened.
    pub open spec fn wf(self) -> bool {
        self.state == WriterState::Unopened ==> self.records.len() == 0
    }
}

pub open spec fn op_of(c: Command) -> Operation {
    match c {
        Command::Open => Operation::Open,
        Command::Write(Record::Put(_, _)) => Operation::Put,
        Command::Write(Record::Delete(_)) => Operation::Delete,
        Command::Finish => Operation::Finish,
    }
}

/// The writer after command `c`, where `native_ok` tells whether the native
/// layer left its error slot empty. A command issued in the wrong state, or
/// refused by the native layer, changes nothing.
pub open spec fn apply(m: WriterModel, c: Command, native_ok: bool) -> WriterModel {
    if m.state != required_state(op_of(c)) || !native_ok {
        m
    } else {
        WriterModel {
            state: next_state(m.state, op_of(c)),
            records: match c {
                Command::Write(rec) => m.records.push(rec),
                _ => m.records,
            },
            ..m
        }
    }
}

/// What an operation `op` returns in model `m` when the native layer left
/// `slot` in its error slot.
pub open spec fn outcome(m: WriterModel, op: Operation, slot: Option<String>) -> Result<(), WriterError> {
    if m.state != required_state(op) {
        Err(WriterError::WrongState { state: m.state, op })
    } else {
        match slot {
            None => Ok(()),
            Some(message) => Err(WriterError::Native(message)),
        }
    }
}

/// The writer after a run of writes that the native layer all accepted.
pub open spec fn run_writes(m: WriterModel, writes: Seq<Record>) -> WriterModel
    decreases writes.len(),
{
    if writes.len() == 0 {
        m
    } else {
        apply(run_writes(m, writes.drop_last()), Command::Write(writes.last()), true)
    }
}

/// The lifecycle of a builder of sorted-string-table files: it is opened on
/// a path, receives records in strictly increasing key order, and is finished.
///
/// Each native call is made by the caller between `prepare_*`/`check` and the
/// method that takes the call's error slot; the writer decides from the slot
/// and its state what the operation returns and how it moves on.
pub struct SstFileWriterPy {
    state: WriterState,
    raw_mode: bool,
    records: Ghost<Seq<Record>>,
}

impl View for SstFileWriterPy {
    type V = WriterModel;

    closed spec fn view(&self) -> WriterModel {
        WriterModel { state: self.state, raw_mode: self.raw_mode, records: self.records@ }
    }
}

impl SstFileWriterPy {
    /// A writer that has no file yet; `raw_mode` selects the encoding regime
    /// and must match that of the database the file is meant for.
    pub fn create(raw_mode: bool) -> (w: Self)
        ensures
            w@ == (WriterModel { state: WriterState::Unopened, raw_mode, records: Seq::empty() }),
            w@.wf(),
    {
        SstFileWriterPy { state: WriterState::Unopened, raw_mode, records: Ghost(Seq::empty()) }
    }

    pub fn current_state(&self) -> (r: WriterState)
        ensures
            r == self@.state,
    {
        self.state
    }

    pub fn is_raw_mode(&self) -> (r: bool)
        ensures
            r == self@.raw_mode,
    {
        self.raw_mode
    }

    /// Whether `op` may be issued now; to be asked before the native call.
    pub fn check(&self, op: Operation) -> (r: Result<(), WriterError>)
        ensures
            r == outcome(self@, op, None),
    {
        if is_allowed(self.state, op) {
            Ok(())
        } else {
            Err(WriterError::WrongState { state: self.state, op })
        }
    }

    /// Encodes a key and a value for a put, then checks the state. In
    /// structured mode `value` is what the value serializer returned. An
    /// encoding error comes first, in any state.
    pub fn prepare_put(&self, key: &Object, value: &Object) -> (r: Result<(Vec<u8>, Vec<u8>), WriterError>)
        ensures
            match (encode_key(*key, self@.raw_mode), encode_value(*value, self@.raw_mode)) {
                (Err(e), _) => r == Err::<(Vec<u8>, Vec<u8>), WriterError>(WriterError::Encoding(e)),
                (Ok(_), Err(e)) => r == Err::<(Vec<u8>, Vec<u8>), WriterError>(WriterError::Encoding(e)),
                (Ok(k), Ok(v)) => if self@.state != WriterState::Opened {
                    r == Err::<(Vec<u8>, Vec<u8>), WriterError>(
                        WriterError::WrongState { state: self@.state, op: Operation::Put },
                    )
                } else {
                    r matches Ok((rk, rv)) && rk@ == k && rv@ == v
                },
            },
    {
        let k = match key_bytes(key, self.raw_mode) {
            Ok(k) => k,
            Err(e) => return Err(WriterError::Encoding(e)),
        };
        let v = match value_bytes(value, self.raw_mode) {
            Ok(v) => v,
            Err(e) => return Err(WriterError::Encoding(e)),
        };
        self.check(Operation::Put)?;
        Ok((k, v))
    }

    /// Encodes a key for a delete, then checks the state. An encoding error
    /// comes first, in any state.
    pub fn prepare_delete(&self, key: &Object) -> (r: Result<Vec<u8>, WriterError>)
        ensures
            match encode_key(*key, self@.raw_mode) {
                Err(e) => r == Err::<Vec<u8>, WriterError>(WriterError::Encoding(e)),
                Ok(k) => if self@.state != WriterState::Opened {
                    r == Err::<Vec<u8>, WriterError>(
                        WriterError::WrongState { state: self@.state, op: Operation::Delete },
                    )
                } else {
                    r matches Ok(rk) && rk@ == k
                },
            },
    {
        let k = match key_bytes(key, self.raw_mode) {
            Ok(k) => k,
            Err(e) => return Err(WriterError::Encoding(e)),
        };
        self.check(Operation::Delete)?;
        Ok(k)
    }

    /// Ends an open given the native error slot of binding the builder to a path.
    pub fn open(&mut self, slot: Option<String>) -> (r: Result<(), WriterError>)
        requires
            old(self)@.wf(),
        ensures
            final(self)@.wf(),
            final(self)@ == apply(old(self)@, Command::Open, slot.is_none()),
            r == outcome(old(self)@, Operation::Open, slot),
    {
        self.check(Operation::Open)?;
        let r = check_error_slot((), slot);
        if r.is_ok() {
            self.state = advance(self.state, Operation::Open);
        }
        r
    }

    /// Ends a put of `key` and `value` given the native error slot of the call.
    /// The native layer rejects a key that does not follow the previous one.
    pub fn put(&mut self, key: &Vec<u8>, value: &Vec<u8>, slot: Option<String>) -> (r: Result<(), WriterError>)
        requires
            old(self)@.wf(),
        ensures
            final(self)@.wf(),
            final(self)@ == apply(old(self)@, Command::Write(Record::Put(key@, value@)), slot.is_none()),
            r == outcome(old(self)@, Operation::Put, slot),
    {
        self.check(Operation::Put)?;
        let r = check_error_slot((), slot);
        if r.is_ok() {
            self.records = Ghost(self.records@.push(Record::Put(key@, value@)));
        }
        r
    }

    /// Ends a delete of `key` given the native error slot of the call.
    pub fn delete(&mut self, key: &Vec<u8>, slot: Option<String>) -> (r: Result<(), WriterError>)
        requires
            old(self)@.wf(),
        ensures
            final(self)@.wf(),
            final(self)@ == apply(old(self)@, Command::Write(Record::Delete(key@)), slot.is_none()),
            r == outcome(old(self)@, Operation::Delete, slot),
    {
        self.check(Operation::Delete)?;
        let r = check_error_slot((), slot);
        if r.is_ok() {
            self.records = Ghost(self.records@.push(Record::Delete(key@)));
        }
        r
    }

    /// Ends a finish given the native error slot of flushing and closing the file.
    pub fn finish(&mut self, slot: Option<String>) -> (r: Result<(), WriterError>)
        requires
            old(self)@.wf(),
        ensures
            final(self)@.wf(),
            final(self)@ == apply(old(self)@, Command::Finish, slot.is_none()),
            r == outcome(old(self)@, Operation::Finish, slot),
    {
        self.check(Operation::Finish)?;
        let r = check_error_slot((), slot);
        if r.is_ok() {
            self.state = advance(self.state, Operation::Finish);
        }
        r
    }
}

/// Writes that the native layer accepts (the keys strictly increasing) are
/// recorded exactly, in the order they were issued, and the writer stays open.
pub proof fn lemma_accepted_writes_recorded(m: WriterModel, writes: Seq<Record>)
    requires
        m.state == WriterState::Opened,
    ensures
        run_writes(m, writes).state == WriterState::Opened,
        run_writes(m, writes).raw_mode == m.raw_mode,
        run_writes(m, writes).records == m.records + writes,
    decreases writes.len(),
{
    if writes.len() > 0 {
        lemma_accepted_writes_recorded(m, writes.drop_last());
        assert(m.records + writes =~= (m.records + writes.drop_last()).push(writes.last()));
    }
}

/// A write that the native layer rejects (a key that does not follow the
/// previous one) surfaces the native message and adds no record.
pub proof fn lemma_rejected_write_changes_nothing(m: WriterModel, rec: Record, message: String)
    requires
        m.state == WriterState::Opened,
    ensures
        apply(m, Command::Write(rec), false) == m,
        outcome(m, op_of(Command::Write(rec)), Some(message)) == Err::<(), WriterError>(
            WriterError::Native(message),
        ),
{
}

/// An operation issued in the wrong state fails with a state error, whatever
/// the native layer would say, and leaves the writer as it was.
pub proof fn lemma_wrong_state_changes_nothing(m: WriterModel, c: Command, slot: Option<String>)
    requires
        m.state != required_state(op_of(c)),
    ensures
        apply(m, c, slot.is_none()) == m,
        outcome(m, op_of(c), slot) == Err::<(), WriterError>(
            WriterError::WrongState { state: m.state, op: op_of(c) },
        ),
{
}

/// Every command keeps a well-formed writer well-formed: records are only
/// added once it is open, and it never returns to being unopened.
pub proof fn lemma_apply_keeps_wf(m: WriterModel, c: Command, native_ok: bool)
    requires
        m.wf(),
    ensures
        apply(m, c, native_ok).wf(),
{
}

/// A write before `open`, a second `open` and a second `finish` all fail with
/// a state error and leave the writer as it was; an unopened writer holds no
/// records, before and after such a write, and after an `open` whether it
/// succeeds or fails.
pub proof fn lemma_lifecycle_enforced(m: WriterModel, rec: Record, slot: Option<String>)
    requires
        m.state == WriterState::Unopened,
        m.wf(),
    ensures
        m.records.len() == 0,
        apply(m, Command::Write(rec), slot.is_none()) == m,
        apply(m, Command::Open, slot.is_none()).records.len() == 0,
        outcome(m, op_of(Command::Write(rec)), slot) is Err,
        ({
            let opened = apply(m, Command::Open, true);
            &&& apply(opened, Command::Open, slot.is_none()) == opened
            &&& outcome(opened, Operation::Open, slot) == Err::<(), WriterError>(
                WriterError::WrongState { state: WriterState::Opened, op: Operation::Open },
            )
        }),
        ({
            let finished = apply(apply(m, Command::Open, true), Command::Finish, true);
            &&& apply(finished, Command::Finish, slot.is_none()) == finished
            &&& outcome(finished, Operation::Finish, slot) == Err::<(), WriterError>(
                WriterError::WrongState { state: WriterState::Finished, op: Operation::Finish },
            )
        }),
{
}

} // verus!
