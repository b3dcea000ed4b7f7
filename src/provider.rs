use vstd::prelude::*;

use crate::error::Error;
use crate::point::PointArg;
use crate::storage::{FileStorage, MemoryStorage, RedisStorage, Storage};
use crate::storage::{FileConfig, RedisConfig};

verus! {

/// How long, in milliseconds, a persisted cursor is trusted before the next
/// update is written to the backend again.
pub const DEBOUNCE_MS: u64 = 10000;

/// Which backend to use, chosen once when the provider is built.
pub enum Config {
    File(FileConfig),
    Memory(PointArg),
    Redis(RedisConfig),
}

/// The cached cursor. `reached` is the instant, in milliseconds of a
/// monotonic clock, at which the point was last confirmed by a load or a
/// write.
pub enum State {
    Unknown,
    Invalid,
    AtPoint { point: PointArg, reached: u64 },
}

/// What the caller has to do after `set_cursor`.
#[derive(Debug, PartialEq, Eq)]
pub enum SetStep {
    /// Nothing: the update was taken in the cache (or by the memory backend).
    Done,
    /// Write this point to the backend, then hand the outcome to
    /// `record_write`.
    Persist(PointArg),
}

/// Keeps the cursor of a pipeline: one backend and the cached state.
pub struct Provider {
    storage: Storage,
    state: State,
}

pub open spec fn storage_of(config: Config) -> Storage {
    match config {
        Config::File(x) => Storage::File(FileStorage(x)),
        Config::Memory(x) => Storage::Memory(MemoryStorage(x)),
        Config::Redis(x) => Storage::Redis(RedisStorage(x)),
    }
}

/// Whether at least `DEBOUNCE_MS` have passed from `reached` to `now`; a
/// clock that reads earlier than `reached` counts as no time passed.
pub open spec fn debounce_expired(reached: u64, now: u64) -> bool {
    now >= reached && now - reached >= DEBOUNCE_MS
}

/// Whether an update at `now` has to be written to the backend.
pub open spec fn write_due(s: State, now: u64) -> bool {
    match s {
        State::AtPoint { reached, .. } => debounce_expired(reached, now),
        _ => true,
    }
}

/// The cursor that the state offers to readers.
pub open spec fn cursor_of(s: State) -> Option<PointArg> {
    match s {
        State::AtPoint { point, .. } => Some(point),
        _ => None,
    }
}

/// The state after a load at `now`: the memory backend always answers with
/// its own value; any other backend with what its read gave.
pub open spec fn state_after_load(storage: Storage, read: Result<PointArg, Error>, now: u64) -> State {
    match storage {
        Storage::Memory(m) => State::AtPoint { point: m.0, reached: now },
        _ => match read {
            Ok(point) => State::AtPoint { point, reached: now },
            Err(_) => State::Invalid,
        },
    }
}

/// The state and the step after `set_cursor(point)` at `now`.
pub open spec fn after_set(storage: Storage, s: State, point: PointArg, now: u64) -> (State, SetStep) {
    match s {
        State::AtPoint { reached, .. } if !debounce_expired(reached, now) => (
            State::AtPoint { point, reached },
            SetStep::Done,
        ),
        _ => if storage is Memory {
            (State::AtPoint { point, reached: now }, SetStep::Done)
        } else {
            (s, SetStep::Persist(point))
        },
    }
}

/// The state after the backend write of `point` ended with `outcome` at `now`.
pub open spec fn after_write(s: State, point: PointArg, now: u64, outcome: Result<(), Error>) -> State {
    match outcome {
        Ok(_) => State::AtPoint { point, reached: now },
        Err(_) => s,
    }
}

/// Two updates within one debounce window, the first of them due and
/// persisted: exactly one write is asked for (none of the memory backend,
/// which writes by itself), and readers then see the second point while the
/// backend holds the first.
pub proof fn lemma_debounce(
    storage: Storage,
    s: State,
    a: PointArg,
    b: PointArg,
    t1: u64,
    t2: u64,
)
    requires
        write_due(s, t1),
        t1 <= t2,
        t2 - t1 < DEBOUNCE_MS,
    ensures
        ({
            let (s1, step1) = after_set(storage, s, a, t1);
            let persisted = match step1 {
                SetStep::Persist(p) => after_write(s1, p, t1, Ok(())),
                SetStep::Done => s1,
            };
            let (s2, step2) = after_set(storage, persisted, b, t2);
            &&& storage is Memory ==> step1 == SetStep::Done
            &&& !(storage is Memory) ==> step1 == SetStep::Persist(a)
            &&& step2 == SetStep::Done
            &&& cursor_of(s2) == Some(b)
        }),
{
}

/// An update at least `DEBOUNCE_MS` after the last confirmed point (or with
/// no point confirmed) is always persisted: by the memory backend at once,
/// and for the others by exactly one write asked of the caller, with the
/// cache left as it was until that write succeeds.
pub proof fn lemma_write_after_window(storage: Storage, s: State, b: PointArg, now: u64)
    requires
        s matches State::AtPoint { reached, .. } ==> now >= reached + DEBOUNCE_MS,
    ensures
        storage is Memory ==> after_set(storage, s, b, now) == (
        State::AtPoint { point: b, reached: now },
        SetStep::Done,
        ),
        !(storage is Memory) ==> after_set(storage, s, b, now) == (s, SetStep::Persist(b)),
{
}

/// When the write asked for by an update fails, readers keep the cursor they
/// had before the update.
pub proof fn lemma_failed_write_keeps_cursor(
    storage: Storage,
    s: State,
    b: PointArg,
    now: u64,
    later: u64,
    e: Error,
)
    ensures
        ({
            let (s1, step) = after_set(storage, s, b, now);
            step is Persist ==> cursor_of(after_write(s1, b, later, Err(e))) == cursor_of(s)
        }),
{
}

impl Provider {
    pub closed spec fn backend(&self) -> Storage {
        self.storage
    }

    pub closed spec fn cached(&self) -> State {
        self.state
    }

    /// A provider over the configured backend, with nothing loaded yet.
    pub fn new(config: Config) -> (r: Provider)
        ensures
            r.backend() == storage_of(config),
            r.cached() == State::Unknown,
    {
        Provider {
            state: State::Unknown,
            storage: match config {
                Config::File(x) => Storage::File(FileStorage(x)),
                Config::Memory(x) => Storage::Memory(MemoryStorage(x)),
                Config::Redis(x) => Storage::Redis(RedisStorage(x)),
            },
        }
    }

    /// The backend, for the caller that performs its reads and writes.
    pub fn storage(&self) -> (r: &Storage)
        ensures
            *r == self.backend(),
    {
        &self.storage
    }

    /// Seeds the cache from a read of the backend made at `now`. A failed
    /// read leaves no cursor. The memory backend answers by itself, and
    /// `read` is then not looked at.
    pub fn load_cursor(&mut self, read: Result<PointArg, Error>, now: u64)
        ensures
            final(self).backend() == old(self).backend(),
            final(self).cached() == state_after_load(old(self).backend(), read, now),
    {
        let read = match &self.storage {
            Storage::Memory(m) => m.read_cursor(),
            _ => read,
        };
        self.state = match read {
            Ok(point) => State::AtPoint { point, reached: now },
            Err(_) => State::Invalid,
        };
    }

    /// Builds the provider and loads the cursor at once; never fails.
    pub fn initialize(config: Config, read: Result<PointArg, Error>, now: u64) -> (r: Provider)
        ensures
            r.backend() == storage_of(config),
            r.cached() == state_after_load(storage_of(config), read, now),
    {
        let mut new = Provider::new(config);
        new.load_cursor(read, now);
        new
    }

    /// The cached cursor, if one is known. No backend access.
    pub fn get_cursor(&self) -> (r: Option<PointArg>)
        ensures
            r == cursor_of(self.cached()),
    {
        match &self.state {
            State::AtPoint { point, .. } => Some(point.clone()),
            _ => None,
        }
    }

    /// Reports progress up to `point` at `now`. Within `DEBOUNCE_MS` of the
    /// last confirmed point, only the cache moves. Otherwise the point is
    /// persisted: the memory backend does so at once; for the others the
    /// cache is left as it is and the caller is asked to write the point and
    /// hand the outcome to `record_write`.
    pub fn set_cursor(&mut self, point: PointArg, now: u64) -> (r: SetStep)
        ensures
            final(self).backend() == old(self).backend(),
            (final(self).cached(), r) == after_set(old(self).backend(), old(self).cached(), point, now),
    {
        let due = match &self.state {
            State::AtPoint { reached, .. } => now >= *reached && now - *reached >= DEBOUNCE_MS,
            _ => true,
        };
        if !due {
            let reached = match &self.state {
                State::AtPoint { reached, .. } => *reached,
                _ => now,
            };
            self.state = State::AtPoint { point, reached };
            return SetStep::Done;
        }
        match &self.storage {
            Storage::Memory(m) => {
                let _written = m.write_cursor(point.clone());
                self.state = State::AtPoint { point, reached: now };
                SetStep::Done
            },
            _ => SetStep::Persist(point),
        }
    }

    /// Takes the outcome of the backend write of `point`, finished at `now`.
    /// On success the cache moves to the point; on failure it stays where it
    /// was and the error is handed back.
    pub fn record_write(&mut self, point: PointArg, now: u64, outcome: Result<(), Error>) -> (r: Result<(), Error>)
        ensures
            final(self).backend() == old(self).backend(),
            final(self).cached() == after_write(old(self).cached(), point, now, outcome),
            r == outcome,
    {
        if outcome.is_ok() {
            self.state = State::AtPoint { point, reached: now };
        }
        outcome
    }
}

} // verus!
