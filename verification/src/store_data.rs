//! What a `Wasmtime::Store` keeps beside Wasmtime's own state: the user's
//! data, the WASI context, the Ruby values it must keep alive, the error
//! that a host call left behind, and the accounting of linear memory that
//! the store reports to Ruby's garbage collector. Also the limits a store
//! is created with, and how a failed call is turned into a Ruby error.
use vstd::prelude::*;
use crate::errors::{err_view, ErrView, RbError};

verus! {

/// The data of a store: user data and kept values of type `V`, a WASI
/// context `W`, a pending error `E` and resource limits `L`.
pub struct StoreData<V, W, E, L> {
    user_data: V,
    wasi: Option<W>,
    refs: Vec<V>,
    last_error: Option<E>,
    limits: L,
    allocated: isize,
}

impl<V, W, E, L> StoreData<V, W, E, L> {
    pub closed spec fn spec_user_data(&self) -> V {
        self.user_data
    }

    pub closed spec fn spec_wasi(&self) -> Option<W> {
        self.wasi
    }

    /// The values kept alive, in the order they were retained.
    pub closed spec fn spec_refs(&self) -> Seq<V> {
        self.refs@
    }

    pub closed spec fn spec_last_error(&self) -> Option<E> {
        self.last_error
    }

    pub closed spec fn spec_limits(&self) -> L {
        self.limits
    }

    /// The linear memory, in bytes, reported to Ruby's garbage collector.
    pub closed spec fn spec_allocated(&self) -> isize {
        self.allocated
    }

    /// Fresh store data: nothing retained, no pending error, no memory.
    pub fn new(user_data: V, wasi: Option<W>, limits: L) -> (d: Self)
        ensures
            d.spec_user_data() == user_data,
            d.spec_wasi() == wasi,
            d.spec_refs() == Seq::<V>::empty(),
            d.spec_last_error() is None,
            d.spec_limits() == limits,
            d.spec_allocated() == 0,
    {
        StoreData { user_data, wasi, refs: Vec::new(), last_error: None, limits, allocated: 0 }
    }

    pub fn user_data(&self) -> (u: &V)
        ensures
            *u == self.spec_user_data(),
    {
        &self.user_data
    }

    pub fn has_wasi_ctx(&self) -> (b: bool)
        ensures
            b == self.spec_wasi() is Some,
    {
        self.wasi.is_some()
    }

    /// The WASI context, which the store must have.
    pub fn wasi_ctx_mut(&mut self) -> (w: &mut W)
        requires
            old(self).spec_wasi() is Some,
        ensures
            *w == old(self).spec_wasi()->Some_0,
            final(self).spec_wasi() == Some(*final(w)),
            final(self).spec_user_data() == old(self).spec_user_data(),
            final(self).spec_refs() == old(self).spec_refs(),
            final(self).spec_last_error() == old(self).spec_last_error(),
            final(self).spec_limits() == old(self).spec_limits(),
            final(self).spec_allocated() == old(self).spec_allocated(),
    {
        match &mut self.wasi {
            Some(w) => w,
            None => vstd::pervasive::unreached(),
        }
    }

    /// The values kept alive, which Ruby's garbage collector is to mark.
    pub fn retained(&self) -> (r: &Vec<V>)
        ensures
            r@ == self.spec_refs(),
    {
        &self.refs
    }

    /// The error that a host call left behind, if any, without taking it.
    pub fn pending_error(&self) -> (e: Option<&E>)
        ensures
            match self.spec_last_error() {
                Some(x) => e == Some(&x),
                None => e is None,
            },
    {
        match &self.last_error {
            Some(x) => Some(x),
            None => None,
        }
    }

    /// Moves the user data and every kept value to where `location` says
    /// the garbage collector moved it; the order of the kept values stays.
    pub fn compact<F: Fn(V) -> V>(&mut self, location: F) where V: Copy
        requires
            forall|v: V| #[trigger] location.requires((v,)),
        ensures
            location.ensures((old(self).spec_user_data(),), final(self).spec_user_data()),
            final(self).spec_refs().len() == old(self).spec_refs().len(),
            forall|i: int| 0 <= i < old(self).spec_refs().len()
                ==> #[trigger] location.ensures((old(self).spec_refs()[i],), final(self).spec_refs()[i]),
            final(self).spec_wasi() == old(self).spec_wasi(),
            final(self).spec_last_error() == old(self).spec_last_error(),
            final(self).spec_limits() == old(self).spec_limits(),
            final(self).spec_allocated() == old(self).spec_allocated(),
    {
        self.user_data = location(self.user_data);
        let ghost before = self.refs@;
        let ghost moved_user_data = self.user_data;
        let mut i: usize = 0;
        while i < self.refs.len()
            invariant
                forall|v: V| #[trigger] location.requires((v,)),
                location.ensures((old(self).spec_user_data(),), moved_user_data),
                before == old(self).spec_refs(),
                self.user_data == moved_user_data,
                self.wasi == old(self).spec_wasi(),
                self.last_error == old(self).spec_last_error(),
                self.limits == old(self).spec_limits(),
                self.allocated == old(self).spec_allocated(),
                i <= self.refs@.len(),
                self.refs@.len() == before.len(),
                forall|j: int| i <= j < before.len() ==> self.refs@[j] == before[j],
                forall|j: int| 0 <= j < i ==> #[trigger] location.ensures((before[j],), self.refs@[j]),
            decreases self.refs@.len() - i,
        {
            let moved = location(self.refs[i]);
            self.refs.set(i, moved);
            i = i + 1;
        }
    }

    /// Keeps `value` alive as long as the store.
    pub fn retain(&mut self, value: V)
        ensures
            final(self).spec_refs() == old(self).spec_refs().push(value),
            final(self).spec_user_data() == old(self).spec_user_data(),
            final(self).spec_wasi() == old(self).spec_wasi(),
            final(self).spec_last_error() == old(self).spec_last_error(),
            final(self).spec_limits() == old(self).spec_limits(),
            final(self).spec_allocated() == old(self).spec_allocated(),
    {
        self.refs.push(value);
    }

    /// Keeps each of `values` alive as long as the store, in order: what a
    /// linker hands over to the store it instantiates in.
    pub fn retain_all(&mut self, values: &Vec<V>) where V: Copy
        ensures
            final(self).spec_refs() == old(self).spec_refs() + values@,
            final(self).spec_user_data() == old(self).spec_user_data(),
            final(self).spec_wasi() == old(self).spec_wasi(),
            final(self).spec_last_error() == old(self).spec_last_error(),
            final(self).spec_limits() == old(self).spec_limits(),
            final(self).spec_allocated() == old(self).spec_allocated(),
    {
        let mut i: usize = 0;
        while i < values.len()
            invariant
                i <= values@.len(),
                self.spec_refs() == old(self).spec_refs() + values@.take(i as int),
                self.spec_user_data() == old(self).spec_user_data(),
                self.spec_wasi() == old(self).spec_wasi(),
                self.spec_last_error() == old(self).spec_last_error(),
                self.spec_limits() == old(self).spec_limits(),
                self.spec_allocated() == old(self).spec_allocated(),
            decreases values@.len() - i,
        {
            assert(values@.take(i + 1) =~= values@.take(i as int).push(values@[i as int]));
            self.retain(values[i]);
            i = i + 1;
        }
        assert(values@.take(values@.len() as int) =~= values@);
    }

    /// Leaves `error` for the caller of the failed call to raise.
    pub fn set_error(&mut self, error: E)
        ensures
            final(self).spec_last_error() == Some(error),
            final(self).spec_user_data() == old(self).spec_user_data(),
            final(self).spec_wasi() == old(self).spec_wasi(),
            final(self).spec_refs() == old(self).spec_refs(),
            final(self).spec_limits() == old(self).spec_limits(),
            final(self).spec_allocated() == old(self).spec_allocated(),
    {
        self.last_error = Some(error);
    }

    /// Takes the pending error, if any; none is pending afterwards.
    pub fn take_error(&mut self) -> (e: Option<E>)
        ensures
            e == old(self).spec_last_error(),
            final(self).spec_last_error() is None,
            final(self).spec_user_data() == old(self).spec_user_data(),
            final(self).spec_wasi() == old(self).spec_wasi(),
            final(self).spec_refs() == old(self).spec_refs(),
            final(self).spec_limits() == old(self).spec_limits(),
            final(self).spec_allocated() == old(self).spec_allocated(),
    {
        let mut taken: Option<E> = None;
        std::mem::swap(&mut taken, &mut self.last_error);
        taken
    }

    /// The resource limits.
    pub fn limits(&self) -> (l: &L)
        ensures
            *l == self.spec_limits(),
    {
        &self.limits
    }

    /// The resource limits, for Wasmtime to consult.
    pub fn limits_mut(&mut self) -> (l: &mut L)
        ensures
            *l == old(self).spec_limits(),
            final(self).spec_limits() == *final(l),
            final(self).spec_user_data() == old(self).spec_user_data(),
            final(self).spec_wasi() == old(self).spec_wasi(),
            final(self).spec_refs() == old(self).spec_refs(),
            final(self).spec_last_error() == old(self).spec_last_error(),
            final(self).spec_allocated() == old(self).spec_allocated(),
    {
        &mut self.limits
    }

    /// The linear memory, in bytes, reported to Ruby's garbage collector.
    pub fn allocated(&self) -> (a: isize)
        ensures
            a == self.spec_allocated(),
    {
        self.allocated
    }

    /// Accounts for a linear memory growing from `current` to `desired`
    /// bytes, once the limits answered `inner_ok` (whether they raised no
    /// error). When the growth goes ahead (no error, and within `maximum`),
    /// the memory is `desired` bytes and the change to report to Ruby is
    /// returned.
    pub fn memory_growing(&mut self, current: usize, desired: usize, maximum: Option<usize>, inner_ok: bool) -> (delta: Option<isize>)
        requires
            current <= desired,
        ensures
            growth_accounted(inner_ok, desired, maximum) ==> {
                &&& final(self).spec_allocated() == desired as isize
                &&& delta == Some((desired - current) as isize)
            },
            !growth_accounted(inner_ok, desired, maximum) ==> {
                &&& final(self).spec_allocated() == old(self).spec_allocated()
                &&& delta is None
            },
            final(self).spec_user_data() == old(self).spec_user_data(),
            final(self).spec_wasi() == old(self).spec_wasi(),
            final(self).spec_refs() == old(self).spec_refs(),
            final(self).spec_last_error() == old(self).spec_last_error(),
            final(self).spec_limits() == old(self).spec_limits(),
    {
        let within = match maximum {
            Some(m) => desired <= m,
            None => true,
        };
        if inner_ok && within {
            self.allocated = desired as isize;
            Some((desired - current) as isize)
        } else {
            None
        }
    }
}

/// Whether a memory growth is accounted: the limits raised no error and
/// `desired` is within `maximum`, if there is one.
pub open spec fn growth_accounted(inner_ok: bool, desired: usize, maximum: Option<usize>) -> bool {
    inner_ok && match maximum {
        Some(m) => desired <= m,
        None => true,
    }
}

// ---------------------------------------------------------------------------
// Store limits
// ---------------------------------------------------------------------------

/// The limits that a store is created with; `None` keeps Wasmtime's
/// default.
pub struct StoreLimitsConfig {
    pub memory_size: Option<usize>,
    pub table_elements: Option<u32>,
    pub instances: Option<usize>,
    pub tables: Option<usize>,
    pub memories: Option<usize>,
}

/// Ruby's answers for the entries of the `limits:` Hash: each key's value
/// as an optional unsigned integer (`nil` or absent gives `None`), or the
/// error of that conversion.
pub struct LimitsLookup {
    pub memory_size: Result<Option<u64>, RbError>,
    pub table_elements: Result<Option<u64>, RbError>,
    pub instances: Result<Option<u64>, RbError>,
    pub tables: Result<Option<u64>, RbError>,
    pub memories: Result<Option<u64>, RbError>,
}

/// The outcome of a lookup, for contracts.
pub open spec fn lookup_view(r: Result<Option<u64>, RbError>) -> Result<Option<u64>, ErrView> {
    match r {
        Ok(v) => Ok(v),
        Err(e) => Err(err_view(e)),
    }
}

/// The first of the lookups that failed, in the order the keys are read.
pub open spec fn first_lookup_error(l: LimitsLookup) -> Option<ErrView> {
    if l.memory_size is Err {
        Some(err_view(l.memory_size->Err_0))
    } else if l.table_elements is Err {
        Some(err_view(l.table_elements->Err_0))
    } else if l.instances is Err {
        Some(err_view(l.instances->Err_0))
    } else if l.tables is Err {
        Some(err_view(l.tables->Err_0))
    } else if l.memories is Err {
        Some(err_view(l.memories->Err_0))
    } else {
        None
    }
}

/// The error of the first lookup that failed, as Ruby raised it.
pub open spec fn first_lookup_failure(l: LimitsLookup) -> Option<RbError> {
    if l.memory_size is Err {
        Some(l.memory_size->Err_0)
    } else if l.table_elements is Err {
        Some(l.table_elements->Err_0)
    } else if l.instances is Err {
        Some(l.instances->Err_0)
    } else if l.tables is Err {
        Some(l.tables->Err_0)
    } else if l.memories is Err {
        Some(l.memories->Err_0)
    } else {
        None
    }
}

/// `v` converted to a size.
pub open spec fn as_size(v: Option<u64>) -> Option<usize> {
    match v {
        Some(x) => Some(x as usize),
        None => None,
    }
}

/// `v` converted to a number of table elements (the low 32 bits).
pub open spec fn as_elements(v: Option<u64>) -> Option<u32> {
    match v {
        Some(x) => Some(x as u32),
        None => None,
    }
}

fn size_of_answer(v: Option<u64>) -> (r: Option<usize>)
    ensures
        r == as_size(v),
{
    match v {
        Some(x) => Some(x as usize),
        None => None,
    }
}

fn copy_lookup_error(e: &RbError) -> (r: RbError)
    ensures
        r == *e,
{
    crate::component_value::copy_error(e)
}

/// The limits that the `limits:` Hash describes, or the error of the
/// first entry that does not convert.
pub fn limits_config(l: &LimitsLookup) -> (r: Result<StoreLimitsConfig, RbError>)
    ensures
        match first_lookup_failure(*l) {
            Some(e) => r == Err::<StoreLimitsConfig, RbError>(e),
            None => r is Ok,
        },
        match first_lookup_error(*l) {
            Some(e) => r is Err && err_view(r->Err_0) == e,
            None => r matches Ok(c) && {
                &&& c.memory_size == as_size(l.memory_size->Ok_0)
                &&& c.table_elements == as_elements(l.table_elements->Ok_0)
                &&& c.instances == as_size(l.instances->Ok_0)
                &&& c.tables == as_size(l.tables->Ok_0)
                &&& c.memories == as_size(l.memories->Ok_0)
            },
        },
{
    let memory_size = match &l.memory_size {
        Ok(v) => size_of_answer(*v),
        Err(e) => return Err(copy_lookup_error(e)),
    };
    let table_elements = match &l.table_elements {
        Ok(Some(x)) => Some(*x as u32),
        Ok(None) => None,
        Err(e) => return Err(copy_lookup_error(e)),
    };
    let instances = match &l.instances {
        Ok(v) => size_of_answer(*v),
        Err(e) => return Err(copy_lookup_error(e)),
    };
    let tables = match &l.tables {
        Ok(v) => size_of_answer(*v),
        Err(e) => return Err(copy_lookup_error(e)),
    };
    let memories = match &l.memories {
        Ok(v) => size_of_answer(*v),
        Err(e) => return Err(copy_lookup_error(e)),
    };
    Ok(StoreLimitsConfig { memory_size, table_elements, instances, tables, memories })
}

#[verifier::external_type_specification]
#[verifier::external_body]
pub struct ExStoreLimits(wasmtime::StoreLimits);

#[verifier::external_type_specification]
#[verifier::external_body]
pub struct ExStoreLimitsBuilder(wasmtime::StoreLimitsBuilder);

/// The settings that Wasmtime's store limits hold: the largest size of a
/// linear memory in bytes and of a table in elements (`None`: unlimited),
/// the most instances, tables and memories a store may have, and whether a
/// failed growth traps.
pub struct LimitsModel {
    pub memory_size: Option<usize>,
    pub table_elements: Option<usize>,
    pub instances: usize,
    pub tables: usize,
    pub memories: usize,
    pub trap_on_grow_failure: bool,
}

/// The settings a `wasmtime::StoreLimitsBuilder` holds so far.
pub uninterp spec fn builder_settings(b: wasmtime::StoreLimitsBuilder) -> LimitsModel;

/// The settings a `wasmtime::StoreLimits` holds.
pub uninterp spec fn limits_settings(l: wasmtime::StoreLimits) -> LimitsModel;

/// Wasmtime's default limits (`StoreLimits::default`): memories and tables
/// unlimited in size, at most 10,000 instances, tables and memories, no
/// trap on a failed growth.
pub open spec fn default_limits() -> LimitsModel {
    LimitsModel {
        memory_size: None,
        table_elements: None,
        instances: 10000,
        tables: 10000,
        memories: 10000,
        trap_on_grow_failure: false,
    }
}

/// `wasmtime::StoreLimitsBuilder::new`: a builder that holds Wasmtime's
/// default limits.
#[verifier::external_body]
fn limits_builder() -> (b: wasmtime::StoreLimitsBuilder)
    ensures
        builder_settings(b) == default_limits(),
{
    wasmtime::StoreLimitsBuilder::new()
}

/// `wasmtime::StoreLimitsBuilder::memory_size`: sets the largest size of a
/// linear memory, in bytes, and keeps the other settings.
#[verifier::external_body]
fn with_memory_size(b: wasmtime::StoreLimitsBuilder, limit: usize) -> (r: wasmtime::StoreLimitsBuilder)
    ensures
        builder_settings(r) == (LimitsModel { memory_size: Some(limit), ..builder_settings(b) }),
{
    b.memory_size(limit)
}

/// `wasmtime::StoreLimitsBuilder::table_elements`: sets the largest number
/// of elements of a table, and keeps the other settings.
#[verifier::external_body]
fn with_table_elements(b: wasmtime::StoreLimitsBuilder, limit: usize) -> (r: wasmtime::StoreLimitsBuilder)
    ensures
        builder_settings(r) == (LimitsModel { table_elements: Some(limit), ..builder_settings(b) }),
{
    b.table_elements(limit)
}

/// `wasmtime::StoreLimitsBuilder::instances`: sets the largest number of
/// instances, and keeps the other settings.
#[verifier::external_body]
fn with_instances(b: wasmtime::StoreLimitsBuilder, limit: usize) -> (r: wasmtime::StoreLimitsBuilder)
    ensures
        builder_settings(r) == (LimitsModel { instances: limit, ..builder_settings(b) }),
{
    b.instances(limit)
}

/// `wasmtime::StoreLimitsBuilder::tables`: sets the largest number of
/// tables, and keeps the other settings.
#[verifier::external_body]
fn with_tables(b: wasmtime::StoreLimitsBuilder, limit: usize) -> (r: wasmtime::StoreLimitsBuilder)
    ensures
        builder_settings(r) == (LimitsModel { tables: limit, ..builder_settings(b) }),
{
    b.tables(limit)
}

/// `wasmtime::StoreLimitsBuilder::memories`: sets the largest number of
/// linear memories, and keeps the other settings.
#[verifier::external_body]
fn with_memories(b: wasmtime::StoreLimitsBuilder, limit: usize) -> (r: wasmtime::StoreLimitsBuilder)
    ensures
        builder_settings(r) == (LimitsModel { memories: limit, ..builder_settings(b) }),
{
    b.memories(limit)
}

/// `wasmtime::StoreLimitsBuilder::build`: the limits with exactly the
/// settings of the builder.
#[verifier::external_body]
fn build_limits(b: wasmtime::StoreLimitsBuilder) -> (l: wasmtime::StoreLimits)
    ensures
        limits_settings(l) == builder_settings(b),
{
    b.build()
}

/// The limits a configuration asks for: each limit it holds, Wasmtime's
/// default for the others.
pub open spec fn limits_from(c: StoreLimitsConfig) -> LimitsModel {
    let d = default_limits();
    LimitsModel {
        memory_size: c.memory_size,
        table_elements: match c.table_elements {
            Some(n) => Some(n as usize),
            None => None,
        },
        instances: match c.instances {
            Some(n) => n,
            None => d.instances,
        },
        tables: match c.tables {
            Some(n) => n,
            None => d.tables,
        },
        memories: match c.memories {
            Some(n) => n,
            None => d.memories,
        },
        trap_on_grow_failure: d.trap_on_grow_failure,
    }
}

/// The configuration that lookups without errors describe.
pub open spec fn config_of(l: LimitsLookup) -> StoreLimitsConfig {
    StoreLimitsConfig {
        memory_size: as_size(l.memory_size->Ok_0),
        table_elements: as_elements(l.table_elements->Ok_0),
        instances: as_size(l.instances->Ok_0),
        tables: as_size(l.tables->Ok_0),
        memories: as_size(l.memories->Ok_0),
    }
}

/// Wasmtime's store limits with each limit that `config` holds, and the
/// defaults for the others.
fn build_store_limits(config: &StoreLimitsConfig) -> (r: wasmtime::StoreLimits)
    ensures
        limits_settings(r) == limits_from(*config),
{
    let mut b = limits_builder();
    if let Some(v) = config.memory_size {
        b = with_memory_size(b, v);
    }
    if let Some(v) = config.table_elements {
        b = with_table_elements(b, v as usize);
    }
    if let Some(v) = config.instances {
        b = with_instances(b, v);
    }
    if let Some(v) = config.tables {
        b = with_tables(b, v);
    }
    if let Some(v) = config.memories {
        b = with_memories(b, v);
    }
    build_limits(b)
}

/// The limits of a new store: Wasmtime's defaults without a `limits:`
/// Hash, else those it describes, or the error of its first entry that
/// does not convert.
pub fn store_limits(l: Option<&LimitsLookup>) -> (r: Result<wasmtime::StoreLimits, RbError>)
    ensures
        match l {
            None => r matches Ok(x) && limits_settings(x) == default_limits(),
            Some(l) => match first_lookup_error(*l) {
                Some(e) => r is Err && err_view(r->Err_0) == e
                    && r->Err_0 == first_lookup_failure(*l)->Some_0,
                None => r matches Ok(x) && limits_settings(x) == limits_from(config_of(*l)),
            },
        },
{
    match l {
        None => Ok(build_store_limits(&StoreLimitsConfig {
            memory_size: None,
            table_elements: None,
            instances: None,
            tables: None,
            memories: None,
        })),
        Some(l) => match limits_config(l) {
            Ok(c) => Ok(build_store_limits(&c)),
            Err(e) => Err(e),
        },
    }
}

// ---------------------------------------------------------------------------
// Errors of calls into WebAssembly
// ---------------------------------------------------------------------------

/// What a failed call raises in Ruby.
#[derive(Debug, PartialEq)]
pub enum CallFailure<E, T> {
    /// The error that a host function left in the store.
    Stored(E),
    /// `Wasmtime::WasiExit` for a WASI program that called `exit`.
    Exit(i32),
    /// A `Wasmtime::Trap`.
    Trap(T),
    /// A `Wasmtime::Error` with the error's message.
    Other(String),
}

/// Decides what a failed call raises: first the error a host function left
/// in the store, then a WASI exit (with its code), then a trap, else a
/// `Wasmtime::Error` with the failure's message.
pub fn call_failure<E, T>(stored: Option<E>, exit_code: Option<i32>, trap: Option<T>, message: String) -> (f: CallFailure<E, T>)
    ensures
        stored is Some ==> f == CallFailure::<E, T>::Stored(stored->Some_0),
        stored is None && exit_code is Some ==> f == CallFailure::<E, T>::Exit(exit_code->Some_0),
        stored is None && exit_code is None && trap is Some ==> f == CallFailure::<E, T>::Trap(trap->Some_0),
        stored is None && exit_code is None && trap is None ==> f == CallFailure::<E, T>::Other(message),
{
    match stored {
        Some(e) => CallFailure::Stored(e),
        None => match exit_code {
            Some(c) => CallFailure::Exit(c),
            None => match trap {
                Some(t) => CallFailure::Trap(t),
                None => CallFailure::Other(message),
            },
        },
    }
}

} // verus!
