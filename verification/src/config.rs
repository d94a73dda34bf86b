//! Engine configuration: the options that `Wasmtime::Engine.new` takes in
//! its Hash, the symbols that name their values, and the decoding of each
//! entry into a setting of the configuration.
use vstd::prelude::*;
use crate::errors::{is_error, ErrorClass, RbError};
use crate::symbol_enum::{entries, lemma_lookup_entries, lookup_named, symbol_error_message, StaticId, SymbolEnum};
use crate::text::str_eq;
use crate::value::{is_truthy, needle_of, to_needle, truthy, RbArg, RbValue};

verus! {

/// Cranelift's optimization level.
#[derive(Clone, Copy, Debug, PartialEq, Eq, Structural)]
pub enum OptLevel {
    Unoptimized,
    Speed,
    SpeedAndSize,
}

/// The profiler that compiled code reports to.
#[derive(Clone, Copy, Debug, PartialEq, Eq, Structural)]
pub enum ProfilingStrategy {
    Disabled,
    JitDump,
    VTune,
    PerfMap,
}

/// The compiler that compiles WebAssembly.
#[derive(Clone, Copy, Debug, PartialEq, Eq, Structural)]
pub enum Strategy {
    Auto,
    Cranelift,
    Winch,
}

/// The symbols for `:cranelift_opt_level`.
pub open spec fn opt_level_entries() -> Seq<(Seq<char>, OptLevel)> {
    seq![("none"@, OptLevel::Unoptimized), ("speed"@, OptLevel::Speed), ("speed_and_size"@, OptLevel::SpeedAndSize)]
}

/// The symbols for `:profiler`.
pub open spec fn profiling_strategy_entries() -> Seq<(Seq<char>, ProfilingStrategy)> {
    seq![
        ("none"@, ProfilingStrategy::Disabled),
        ("jitdump"@, ProfilingStrategy::JitDump),
        ("vtune"@, ProfilingStrategy::VTune),
        ("perfmap"@, ProfilingStrategy::PerfMap),
    ]
}

/// The symbols for `:strategy`.
pub open spec fn strategy_entries() -> Seq<(Seq<char>, Strategy)> {
    seq![("auto"@, Strategy::Auto), ("cranelift"@, Strategy::Cranelift), ("winch"@, Strategy::Winch)]
}

pub fn opt_level_mapping() -> (m: SymbolEnum<'static, OptLevel>)
    ensures
        m.spec_what() == ":cranelift_opt_level"@,
        entries(m) == opt_level_entries(),
{
    let mut v: Vec<(StaticId, OptLevel)> = Vec::new();
    v.push((StaticId::intern_str("none"), OptLevel::Unoptimized));
    v.push((StaticId::intern_str("speed"), OptLevel::Speed));
    v.push((StaticId::intern_str("speed_and_size"), OptLevel::SpeedAndSize));
    let m = SymbolEnum::new(":cranelift_opt_level", v);
    assert(entries(m) =~= opt_level_entries());
    m
}

pub fn profiling_strategy_mapping() -> (m: SymbolEnum<'static, ProfilingStrategy>)
    ensures
        m.spec_what() == ":profiler"@,
        entries(m) == profiling_strategy_entries(),
{
    let mut v: Vec<(StaticId, ProfilingStrategy)> = Vec::new();
    v.push((StaticId::intern_str("none"), ProfilingStrategy::Disabled));
    v.push((StaticId::intern_str("jitdump"), ProfilingStrategy::JitDump));
    v.push((StaticId::intern_str("vtune"), ProfilingStrategy::VTune));
    v.push((StaticId::intern_str("perfmap"), ProfilingStrategy::PerfMap));
    let m = SymbolEnum::new(":profiler", v);
    assert(entries(m) =~= profiling_strategy_entries());
    m
}

pub fn strategy_mapping() -> (m: SymbolEnum<'static, Strategy>)
    ensures
        m.spec_what() == ":strategy"@,
        entries(m) == strategy_entries(),
{
    let mut v: Vec<(StaticId, Strategy)> = Vec::new();
    v.push((StaticId::intern_str("auto"), Strategy::Auto));
    v.push((StaticId::intern_str("cranelift"), Strategy::Cranelift));
    v.push((StaticId::intern_str("winch"), Strategy::Winch));
    let m = SymbolEnum::new(":strategy", v);
    assert(entries(m) =~= strategy_entries());
    m
}

/// Whether the pooling allocator uses memory protection keys.
#[derive(Clone, Copy, Debug, PartialEq, Eq, Structural)]
pub enum MpkChoice {
    Auto,
    Enable,
    Disable,
}

/// The symbols for the memory protection keys strategy.
pub open spec fn mpk_entries() -> Seq<(Seq<char>, MpkChoice)> {
    seq![("auto"@, MpkChoice::Auto), ("enable"@, MpkChoice::Enable), ("disable"@, MpkChoice::Disable)]
}

pub fn mpk_mapping() -> (m: SymbolEnum<'static, MpkChoice>)
    ensures
        m.spec_what() == "Memory protection keys strategy"@,
        entries(m) == mpk_entries(),
{
    let mut v: Vec<(StaticId, MpkChoice)> = Vec::new();
    v.push((StaticId::intern_str("auto"), MpkChoice::Auto));
    v.push((StaticId::intern_str("enable"), MpkChoice::Enable));
    v.push((StaticId::intern_str("disable"), MpkChoice::Disable));
    let m = SymbolEnum::new("Memory protection keys strategy", v);
    assert(entries(m) =~= mpk_entries());
    m
}

/// An option of the engine's configuration.
#[derive(Clone, Copy, Debug, PartialEq, Eq, Structural)]
pub enum ConfigOption {
    DebugInfo,
    WasmBacktraceDetails,
    NativeUnwindInfo,
    ConsumeFuel,
    EpochInterruption,
    MaxWasmStack,
    WasmThreads,
    WasmMultiMemory,
    WasmMemory64,
    ParallelCompilation,
    WasmReferenceTypes,
    Profiler,
    CraneliftOptLevel,
    Strategy,
    Target,
    GenerateAddressMap,
    AllocationStrategy,
}

/// The option that `name` denotes; `:strategy` only when the Winch compiler
/// is available.
pub open spec fn option_named(name: Seq<char>, winch: bool) -> Option<ConfigOption> {
    if name == "debug_info"@ { Some(ConfigOption::DebugInfo) }
    else     if name == "wasm_backtrace_details"@ { Some(ConfigOption::WasmBacktraceDetails) }
    else     if name == "native_unwind_info"@ { Some(ConfigOption::NativeUnwindInfo) }
    else     if name == "consume_fuel"@ { Some(ConfigOption::ConsumeFuel) }
    else     if name == "epoch_interruption"@ { Some(ConfigOption::EpochInterruption) }
    else     if name == "max_wasm_stack"@ { Some(ConfigOption::MaxWasmStack) }
    else     if name == "wasm_threads"@ { Some(ConfigOption::WasmThreads) }
    else     if name == "wasm_multi_memory"@ { Some(ConfigOption::WasmMultiMemory) }
    else     if name == "wasm_memory64"@ { Some(ConfigOption::WasmMemory64) }
    else     if name == "parallel_compilation"@ { Some(ConfigOption::ParallelCompilation) }
    else     if name == "wasm_reference_types"@ { Some(ConfigOption::WasmReferenceTypes) }
    else     if name == "profiler"@ { Some(ConfigOption::Profiler) }
    else     if name == "cranelift_opt_level"@ { Some(ConfigOption::CraneliftOptLevel) }
    else     if name == "strategy"@ && winch { Some(ConfigOption::Strategy) }
    else     if name == "target"@ { Some(ConfigOption::Target) }
    else     if name == "generate_address_map"@ { Some(ConfigOption::GenerateAddressMap) }
    else     if name == "allocation_strategy"@ { Some(ConfigOption::AllocationStrategy) }
    else { None }
}

/// The option that `name` denotes; `:strategy` only when the Winch compiler
/// is available.
pub fn config_option(name: &str, winch: bool) -> (r: Option<ConfigOption>)
    ensures
        r == option_named(name@, winch),
{
    if str_eq(name, "debug_info") { Some(ConfigOption::DebugInfo) }
    else     if str_eq(name, "wasm_backtrace_details") { Some(ConfigOption::WasmBacktraceDetails) }
    else     if str_eq(name, "native_unwind_info") { Some(ConfigOption::NativeUnwindInfo) }
    else     if str_eq(name, "consume_fuel") { Some(ConfigOption::ConsumeFuel) }
    else     if str_eq(name, "epoch_interruption") { Some(ConfigOption::EpochInterruption) }
    else     if str_eq(name, "max_wasm_stack") { Some(ConfigOption::MaxWasmStack) }
    else     if str_eq(name, "wasm_threads") { Some(ConfigOption::WasmThreads) }
    else     if str_eq(name, "wasm_multi_memory") { Some(ConfigOption::WasmMultiMemory) }
    else     if str_eq(name, "wasm_memory64") { Some(ConfigOption::WasmMemory64) }
    else     if str_eq(name, "parallel_compilation") { Some(ConfigOption::ParallelCompilation) }
    else     if str_eq(name, "wasm_reference_types") { Some(ConfigOption::WasmReferenceTypes) }
    else     if str_eq(name, "profiler") { Some(ConfigOption::Profiler) }
    else     if str_eq(name, "cranelift_opt_level") { Some(ConfigOption::CraneliftOptLevel) }
    else     if str_eq(name, "strategy") && winch { Some(ConfigOption::Strategy) }
    else     if str_eq(name, "target") { Some(ConfigOption::Target) }
    else     if str_eq(name, "generate_address_map") { Some(ConfigOption::GenerateAddressMap) }
    else     if str_eq(name, "allocation_strategy") { Some(ConfigOption::AllocationStrategy) }
    else { None }
}

/// The instance allocation strategy that an entry chose.
#[derive(Clone, Copy, Debug, PartialEq, Eq, Structural)]
pub enum AllocationChoice {
    /// The pooling allocator, configured by the given
    /// `Wasmtime::PoolingAllocationConfig`.
    PoolingWithConfig,
    /// The pooling allocator with its default configuration.
    PoolingDefault,
    /// Allocation on demand.
    OnDemand,
}

/// A setting of the engine's configuration.
#[derive(Debug, PartialEq)]
pub enum ConfigSetting {
    DebugInfo(bool),
    WasmBacktraceDetails(bool),
    NativeUnwindInfo(bool),
    ConsumeFuel(bool),
    EpochInterruption(bool),
    MaxWasmStack(usize),
    WasmThreads(bool),
    WasmMultiMemory(bool),
    WasmMemory64(bool),
    ParallelCompilation(bool),
    WasmReferenceTypes(bool),
    Profiler(ProfilingStrategy),
    CraneliftOptLevel(OptLevel),
    Strategy(Strategy),
    Target(Option<String>),
    GenerateAddressMap(bool),
    AllocationStrategy(AllocationChoice),
}

/// An entry of the configuration Hash: the option's name (a symbol) with
/// its `inspect`, and the value.
pub struct ConfigEntry {
    pub name: String,
    pub name_inspect: String,
    pub value: RbArg,
}

/// The message of the error for a value of the wrong type.
pub open spec fn invalid_type_message(e: ConfigEntry) -> Seq<char> {
    "Invalid option "@ + e.value.to_s@ + ": "@ + e.name@
}

/// The message of the error for an unknown option.
pub open spec fn unknown_option_message(e: ConfigEntry) -> Seq<char> {
    "Unknown option: "@ + e.name_inspect@
}

/// The message of the error for an invalid allocation strategy.
pub open spec fn invalid_allocation_message(e: ConfigEntry) -> Seq<char> {
    "invalid instance allocation strategy: "@ + e.value.inspect@
}

/// Whether `r` is the error for a value of the wrong type.
pub open spec fn is_invalid_type(e: ConfigEntry, r: Result<ConfigSetting, RbError>) -> bool {
    r is Err && is_error(r->Err_0, ErrorClass::Type, invalid_type_message(e))
}

/// Whether `r` decodes a symbol option with the given entries: the value
/// the symbol names, or the `ArgumentError` listing the valid symbols.
pub open spec fn decodes_symbol<T>(
    e: ConfigEntry,
    what: Seq<char>,
    es: Seq<(Seq<char>, T)>,
    r: Result<ConfigSetting, RbError>,
    wrap: spec_fn(T) -> ConfigSetting,
) -> bool {
    let n = needle_of(e.value);
    let found = match n.symbol_name() {
        Some(name) => lookup_named(es, name),
        None => None,
    };
    match found {
        Some(v) => r == Ok::<ConfigSetting, RbError>(wrap(v)),
        None => r is Err && is_error(r->Err_0, ErrorClass::Argument,
            symbol_error_message(what, es.map_values(|x: (Seq<char>, T)| x.0), n.inspect_view())),
    }
}

/// What decoding the entry `e` gives.
pub open spec fn decodes(e: ConfigEntry, winch: bool, r: Result<ConfigSetting, RbError>) -> bool {
    match option_named(e.name@, winch) {
        None => r is Err && is_error(r->Err_0, ErrorClass::Argument, unknown_option_message(e)),
        Some(ConfigOption::DebugInfo) => r == Ok::<ConfigSetting, RbError>(ConfigSetting::DebugInfo(truthy(e.value.value))),
        Some(ConfigOption::WasmBacktraceDetails) => r == Ok::<ConfigSetting, RbError>(ConfigSetting::WasmBacktraceDetails(truthy(e.value.value))),
        Some(ConfigOption::NativeUnwindInfo) => r == Ok::<ConfigSetting, RbError>(ConfigSetting::NativeUnwindInfo(truthy(e.value.value))),
        Some(ConfigOption::ConsumeFuel) => r == Ok::<ConfigSetting, RbError>(ConfigSetting::ConsumeFuel(truthy(e.value.value))),
        Some(ConfigOption::EpochInterruption) => r == Ok::<ConfigSetting, RbError>(ConfigSetting::EpochInterruption(truthy(e.value.value))),
        Some(ConfigOption::WasmThreads) => r == Ok::<ConfigSetting, RbError>(ConfigSetting::WasmThreads(truthy(e.value.value))),
        Some(ConfigOption::WasmMultiMemory) => r == Ok::<ConfigSetting, RbError>(ConfigSetting::WasmMultiMemory(truthy(e.value.value))),
        Some(ConfigOption::WasmMemory64) => r == Ok::<ConfigSetting, RbError>(ConfigSetting::WasmMemory64(truthy(e.value.value))),
        Some(ConfigOption::ParallelCompilation) => r == Ok::<ConfigSetting, RbError>(ConfigSetting::ParallelCompilation(truthy(e.value.value))),
        Some(ConfigOption::WasmReferenceTypes) => r == Ok::<ConfigSetting, RbError>(ConfigSetting::WasmReferenceTypes(truthy(e.value.value))),
        Some(ConfigOption::GenerateAddressMap) => r == Ok::<ConfigSetting, RbError>(ConfigSetting::GenerateAddressMap(truthy(e.value.value))),
        Some(ConfigOption::MaxWasmStack) => match e.value.as_size {
            Some(n) => r == Ok::<ConfigSetting, RbError>(ConfigSetting::MaxWasmStack(n)),
            None => is_invalid_type(e, r),
        },
        Some(ConfigOption::Profiler) => decodes_symbol(e, ":profiler"@, profiling_strategy_entries(), r,
            |v: ProfilingStrategy| ConfigSetting::Profiler(v)),
        Some(ConfigOption::CraneliftOptLevel) => decodes_symbol(e, ":cranelift_opt_level"@, opt_level_entries(), r,
            |v: OptLevel| ConfigSetting::CraneliftOptLevel(v)),
        Some(ConfigOption::Strategy) => decodes_symbol(e, ":strategy"@, strategy_entries(), r,
            |v: Strategy| ConfigSetting::Strategy(v)),
        Some(ConfigOption::Target) => if e.value.value is Nil {
            r == Ok::<ConfigSetting, RbError>(ConfigSetting::Target(None))
        } else {
            match e.value.as_string {
                Some(s) => r matches Ok(ConfigSetting::Target(Some(t))) && t@ == s@,
                None => is_invalid_type(e, r),
            }
        },
        Some(ConfigOption::AllocationStrategy) => match e.value.value {
            RbValue::PoolingAllocationConfig =>
                r == Ok::<ConfigSetting, RbError>(ConfigSetting::AllocationStrategy(AllocationChoice::PoolingWithConfig)),
            RbValue::Symbol(s) => if s@ == "pooling"@ {
                r == Ok::<ConfigSetting, RbError>(ConfigSetting::AllocationStrategy(AllocationChoice::PoolingDefault))
            } else if s@ == "on_demand"@ {
                r == Ok::<ConfigSetting, RbError>(ConfigSetting::AllocationStrategy(AllocationChoice::OnDemand))
            } else {
                r is Err && is_error(r->Err_0, ErrorClass::Argument, invalid_allocation_message(e))
            },
            _ => r is Err && is_error(r->Err_0, ErrorClass::Argument, invalid_allocation_message(e)),
        },
    }
}

/// The symbol that names an option in the configuration Hash.
pub open spec fn option_symbol(o: ConfigOption) -> Seq<char> {
    match o {
        ConfigOption::DebugInfo => "debug_info"@,
        ConfigOption::WasmBacktraceDetails => "wasm_backtrace_details"@,
        ConfigOption::NativeUnwindInfo => "native_unwind_info"@,
        ConfigOption::ConsumeFuel => "consume_fuel"@,
        ConfigOption::EpochInterruption => "epoch_interruption"@,
        ConfigOption::MaxWasmStack => "max_wasm_stack"@,
        ConfigOption::WasmThreads => "wasm_threads"@,
        ConfigOption::WasmMultiMemory => "wasm_multi_memory"@,
        ConfigOption::WasmMemory64 => "wasm_memory64"@,
        ConfigOption::ParallelCompilation => "parallel_compilation"@,
        ConfigOption::WasmReferenceTypes => "wasm_reference_types"@,
        ConfigOption::Profiler => "profiler"@,
        ConfigOption::CraneliftOptLevel => "cranelift_opt_level"@,
        ConfigOption::Strategy => "strategy"@,
        ConfigOption::Target => "target"@,
        ConfigOption::GenerateAddressMap => "generate_address_map"@,
        ConfigOption::AllocationStrategy => "allocation_strategy"@,
    }
}

/// The option that a setting sets.
pub open spec fn setting_option(s: ConfigSetting) -> ConfigOption {
    match s {
        ConfigSetting::DebugInfo(_) => ConfigOption::DebugInfo,
        ConfigSetting::WasmBacktraceDetails(_) => ConfigOption::WasmBacktraceDetails,
        ConfigSetting::NativeUnwindInfo(_) => ConfigOption::NativeUnwindInfo,
        ConfigSetting::ConsumeFuel(_) => ConfigOption::ConsumeFuel,
        ConfigSetting::EpochInterruption(_) => ConfigOption::EpochInterruption,
        ConfigSetting::MaxWasmStack(_) => ConfigOption::MaxWasmStack,
        ConfigSetting::WasmThreads(_) => ConfigOption::WasmThreads,
        ConfigSetting::WasmMultiMemory(_) => ConfigOption::WasmMultiMemory,
        ConfigSetting::WasmMemory64(_) => ConfigOption::WasmMemory64,
        ConfigSetting::ParallelCompilation(_) => ConfigOption::ParallelCompilation,
        ConfigSetting::WasmReferenceTypes(_) => ConfigOption::WasmReferenceTypes,
        ConfigSetting::Profiler(_) => ConfigOption::Profiler,
        ConfigSetting::CraneliftOptLevel(_) => ConfigOption::CraneliftOptLevel,
        ConfigSetting::Strategy(_) => ConfigOption::Strategy,
        ConfigSetting::Target(_) => ConfigOption::Target,
        ConfigSetting::GenerateAddressMap(_) => ConfigOption::GenerateAddressMap,
        ConfigSetting::AllocationStrategy(_) => ConfigOption::AllocationStrategy,
    }
}

/// An option name denotes the option of that name, and every option is
/// found by its name (`:strategy` only when Winch is available): the
/// lookup and the naming of options are inverse to each other.
pub proof fn lemma_options_found_by_their_names(name: Seq<char>, o: ConfigOption, winch: bool)
    ensures
        option_named(name, winch) == Some(o) ==> option_symbol(o) == name,
        (o != ConfigOption::Strategy || winch) ==> option_named(option_symbol(o), winch) == Some(o),
        !winch ==> option_named("strategy"@, winch) is None,
{
    reveal_strlit("debug_info");
    reveal_strlit("wasm_backtrace_details");
    reveal_strlit("native_unwind_info");
    reveal_strlit("consume_fuel");
    reveal_strlit("epoch_interruption");
    reveal_strlit("max_wasm_stack");
    reveal_strlit("wasm_threads");
    reveal_strlit("wasm_multi_memory");
    reveal_strlit("wasm_memory64");
    reveal_strlit("parallel_compilation");
    reveal_strlit("wasm_reference_types");
    reveal_strlit("profiler");
    reveal_strlit("cranelift_opt_level");
    reveal_strlit("strategy");
    reveal_strlit("target");
    reveal_strlit("generate_address_map");
    reveal_strlit("allocation_strategy");
    assert("debug_info"@.len() != "wasm_backtrace_details"@.len());
    assert("debug_info"@ != "wasm_backtrace_details"@);
    assert("debug_info"@.len() != "native_unwind_info"@.len());
    assert("debug_info"@ != "native_unwind_info"@);
    assert("debug_info"@.len() != "consume_fuel"@.len());
    assert("debug_info"@ != "consume_fuel"@);
    assert("debug_info"@.len() != "epoch_interruption"@.len());
    assert("debug_info"@ != "epoch_interruption"@);
    assert("debug_info"@.len() != "max_wasm_stack"@.len());
    assert("debug_info"@ != "max_wasm_stack"@);
    assert("debug_info"@.len() != "wasm_threads"@.len());
    assert("debug_info"@ != "wasm_threads"@);
    assert("debug_info"@.len() != "wasm_multi_memory"@.len());
    assert("debug_info"@ != "wasm_multi_memory"@);
    assert("debug_info"@.len() != "wasm_memory64"@.len());
    assert("debug_info"@ != "wasm_memory64"@);
    assert("debug_info"@.len() != "parallel_compilation"@.len());
    assert("debug_info"@ != "parallel_compilation"@);
    assert("debug_info"@.len() != "wasm_reference_types"@.len());
    assert("debug_info"@ != "wasm_reference_types"@);
    assert("debug_info"@.len() != "profiler"@.len());
    assert("debug_info"@ != "profiler"@);
    assert("debug_info"@.len() != "cranelift_opt_level"@.len());
    assert("debug_info"@ != "cranelift_opt_level"@);
    assert("debug_info"@.len() != "strategy"@.len());
    assert("debug_info"@ != "strategy"@);
    assert("debug_info"@.len() != "target"@.len());
    assert("debug_info"@ != "target"@);
    assert("debug_info"@.len() != "generate_address_map"@.len());
    assert("debug_info"@ != "generate_address_map"@);
    assert("debug_info"@.len() != "allocation_strategy"@.len());
    assert("debug_info"@ != "allocation_strategy"@);
    assert("wasm_backtrace_details"@.len() != "native_unwind_info"@.len());
    assert("wasm_backtrace_details"@ != "native_unwind_info"@);
    assert("wasm_backtrace_details"@.len() != "consume_fuel"@.len());
    assert("wasm_backtrace_details"@ != "consume_fuel"@);
    assert("wasm_backtrace_details"@.len() != "epoch_interruption"@.len());
    assert("wasm_backtrace_details"@ != "epoch_interruption"@);
    assert("wasm_backtrace_details"@.len() != "max_wasm_stack"@.len());
    assert("wasm_backtrace_details"@ != "max_wasm_stack"@);
    assert("wasm_backtrace_details"@.len() != "wasm_threads"@.len());
    assert("wasm_backtrace_details"@ != "wasm_threads"@);
    assert("wasm_backtrace_details"@.len() != "wasm_multi_memory"@.len());
    assert("wasm_backtrace_details"@ != "wasm_multi_memory"@);
    assert("wasm_backtrace_details"@.len() != "wasm_memory64"@.len());
    assert("wasm_backtrace_details"@ != "wasm_memory64"@);
    assert("wasm_backtrace_details"@.len() != "parallel_compilation"@.len());
    assert("wasm_backtrace_details"@ != "parallel_compilation"@);
    assert("wasm_backtrace_details"@.len() != "wasm_reference_types"@.len());
    assert("wasm_backtrace_details"@ != "wasm_reference_types"@);
    assert("wasm_backtrace_details"@.len() != "profiler"@.len());
    assert("wasm_backtrace_details"@ != "profiler"@);
    assert("wasm_backtrace_details"@.len() != "cranelift_opt_level"@.len());
    assert("wasm_backtrace_details"@ != "cranelift_opt_level"@);
    assert("wasm_backtrace_details"@.len() != "strategy"@.len());
    assert("wasm_backtrace_details"@ != "strategy"@);
    assert("wasm_backtrace_details"@.len() != "target"@.len());
    assert("wasm_backtrace_details"@ != "target"@);
    assert("wasm_backtrace_details"@.len() != "generate_address_map"@.len());
    assert("wasm_backtrace_details"@ != "generate_address_map"@);
    assert("wasm_backtrace_details"@.len() != "allocation_strategy"@.len());
    assert("wasm_backtrace_details"@ != "allocation_strategy"@);
    assert("native_unwind_info"@.len() != "consume_fuel"@.len());
    assert("native_unwind_info"@ != "consume_fuel"@);
    assert("native_unwind_info"@[0] != "epoch_interruption"@[0]);
    assert("native_unwind_info"@ != "epoch_interruption"@);
    assert("native_unwind_info"@.len() != "max_wasm_stack"@.len());
    assert("native_unwind_info"@ != "max_wasm_stack"@);
    assert("native_unwind_info"@.len() != "wasm_threads"@.len());
    assert("native_unwind_info"@ != "wasm_threads"@);
    assert("native_unwind_info"@.len() != "wasm_multi_memory"@.len());
    assert("native_unwind_info"@ != "wasm_multi_memory"@);
    assert("native_unwind_info"@.len() != "wasm_memory64"@.len());
    assert("native_unwind_info"@ != "wasm_memory64"@);
    assert("native_unwind_info"@.len() != "parallel_compilation"@.len());
    assert("native_unwind_info"@ != "parallel_compilation"@);
    assert("native_unwind_info"@.len() != "wasm_reference_types"@.len());
    assert("native_unwind_info"@ != "wasm_reference_types"@);
    assert("native_unwind_info"@.len() != "profiler"@.len());
    assert("native_unwind_info"@ != "profiler"@);
    assert("native_unwind_info"@.len() != "cranelift_opt_level"@.len());
    assert("native_unwind_info"@ != "cranelift_opt_level"@);
    assert("native_unwind_info"@.len() != "strategy"@.len());
    assert("native_unwind_info"@ != "strategy"@);
    assert("native_unwind_info"@.len() != "target"@.len());
    assert("native_unwind_info"@ != "target"@);
    assert("native_unwind_info"@.len() != "generate_address_map"@.len());
    assert("native_unwind_info"@ != "generate_address_map"@);
    assert("native_unwind_info"@.len() != "allocation_strategy"@.len());
    assert("native_unwind_info"@ != "allocation_strategy"@);
    assert("consume_fuel"@.len() != "epoch_interruption"@.len());
    assert("consume_fuel"@ != "epoch_interruption"@);
    assert("consume_fuel"@.len() != "max_wasm_stack"@.len());
    assert("consume_fuel"@ != "max_wasm_stack"@);
    assert("consume_fuel"@[0] != "wasm_threads"@[0]);
    assert("consume_fuel"@ != "wasm_threads"@);
    assert("consume_fuel"@.len() != "wasm_multi_memory"@.len());
    assert("consume_fuel"@ != "wasm_multi_memory"@);
    assert("consume_fuel"@.len() != "wasm_memory64"@.len());
    assert("consume_fuel"@ != "wasm_memory64"@);
    assert("consume_fuel"@.len() != "parallel_compilation"@.len());
    assert("consume_fuel"@ != "parallel_compilation"@);
    assert("consume_fuel"@.len() != "wasm_reference_types"@.len());
    assert("consume_fuel"@ != "wasm_reference_types"@);
    assert("consume_fuel"@.len() != "profiler"@.len());
    assert("consume_fuel"@ != "profiler"@);
    assert("consume_fuel"@.len() != "cranelift_opt_level"@.len());
    assert("consume_fuel"@ != "cranelift_opt_level"@);
    assert("consume_fuel"@.len() != "strategy"@.len());
    assert("consume_fuel"@ != "strategy"@);
    assert("consume_fuel"@.len() != "target"@.len());
    assert("consume_fuel"@ != "target"@);
    assert("consume_fuel"@.len() != "generate_address_map"@.len());
    assert("consume_fuel"@ != "generate_address_map"@);
    assert("consume_fuel"@.len() != "allocation_strategy"@.len());
    assert("consume_fuel"@ != "allocation_strategy"@);
    assert("epoch_interruption"@.len() != "max_wasm_stack"@.len());
    assert("epoch_interruption"@ != "max_wasm_stack"@);
    assert("epoch_interruption"@.len() != "wasm_threads"@.len());
    assert("epoch_interruption"@ != "wasm_threads"@);
    assert("epoch_interruption"@.len() != "wasm_multi_memory"@.len());
    assert("epoch_interruption"@ != "wasm_multi_memory"@);
    assert("epoch_interruption"@.len() != "wasm_memory64"@.len());
    assert("epoch_interruption"@ != "wasm_memory64"@);
    assert("epoch_interruption"@.len() != "parallel_compilation"@.len());
    assert("epoch_interruption"@ != "parallel_compilation"@);
    assert("epoch_interruption"@.len() != "wasm_reference_types"@.len());
    assert("epoch_interruption"@ != "wasm_reference_types"@);
    assert("epoch_interruption"@.len() != "profiler"@.len());
    assert("epoch_interruption"@ != "profiler"@);
    assert("epoch_interruption"@.len() != "cranelift_opt_level"@.len());
    assert("epoch_interruption"@ != "cranelift_opt_level"@);
    assert("epoch_interruption"@.len() != "strategy"@.len());
    assert("epoch_interruption"@ != "strategy"@);
    assert("epoch_interruption"@.len() != "target"@.len());
    assert("epoch_interruption"@ != "target"@);
    assert("epoch_interruption"@.len() != "generate_address_map"@.len());
    assert("epoch_interruption"@ != "generate_address_map"@);
    assert("epoch_interruption"@.len() != "allocation_strategy"@.len());
    assert("epoch_interruption"@ != "allocation_strategy"@);
    assert("max_wasm_stack"@.len() != "wasm_threads"@.len());
    assert("max_wasm_stack"@ != "wasm_threads"@);
    assert("max_wasm_stack"@.len() != "wasm_multi_memory"@.len());
    assert("max_wasm_stack"@ != "wasm_multi_memory"@);
    assert("max_wasm_stack"@.len() != "wasm_memory64"@.len());
    assert("max_wasm_stack"@ != "wasm_memory64"@);
    assert("max_wasm_stack"@.len() != "parallel_compilation"@.len());
    assert("max_wasm_stack"@ != "parallel_compilation"@);
    assert("max_wasm_stack"@.len() != "wasm_reference_types"@.len());
    assert("max_wasm_stack"@ != "wasm_reference_types"@);
    assert("max_wasm_stack"@.len() != "profiler"@.len());
    assert("max_wasm_stack"@ != "profiler"@);
    assert("max_wasm_stack"@.len() != "cranelift_opt_level"@.len());
    assert("max_wasm_stack"@ != "cranelift_opt_level"@);
    assert("max_wasm_stack"@.len() != "strategy"@.len());
    assert("max_wasm_stack"@ != "strategy"@);
    assert("max_wasm_stack"@.len() != "target"@.len());
    assert("max_wasm_stack"@ != "target"@);
    assert("max_wasm_stack"@.len() != "generate_address_map"@.len());
    assert("max_wasm_stack"@ != "generate_address_map"@);
    assert("max_wasm_stack"@.len() != "allocation_strategy"@.len());
    assert("max_wasm_stack"@ != "allocation_strategy"@);
    assert("wasm_threads"@.len() != "wasm_multi_memory"@.len());
    assert("wasm_threads"@ != "wasm_multi_memory"@);
    assert("wasm_threads"@.len() != "wasm_memory64"@.len());
    assert("wasm_threads"@ != "wasm_memory64"@);
    assert("wasm_threads"@.len() != "parallel_compilation"@.len());
    assert("wasm_threads"@ != "parallel_compilation"@);
    assert("wasm_threads"@.len() != "wasm_reference_types"@.len());
    assert("wasm_threads"@ != "wasm_reference_types"@);
    assert("wasm_threads"@.len() != "profiler"@.len());
    assert("wasm_threads"@ != "profiler"@);
    assert("wasm_threads"@.len() != "cranelift_opt_level"@.len());
    assert("wasm_threads"@ != "cranelift_opt_level"@);
    assert("wasm_threads"@.len() != "strategy"@.len());
    assert("wasm_threads"@ != "strategy"@);
    assert("wasm_threads"@.len() != "target"@.len());
    assert("wasm_threads"@ != "target"@);
    assert("wasm_threads"@.len() != "generate_address_map"@.len());
    assert("wasm_threads"@ != "generate_address_map"@);
    assert("wasm_threads"@.len() != "allocation_strategy"@.len());
    assert("wasm_threads"@ != "allocation_strategy"@);
    assert("wasm_multi_memory"@.len() != "wasm_memory64"@.len());
    assert("wasm_multi_memory"@ != "wasm_memory64"@);
    assert("wasm_multi_memory"@.len() != "parallel_compilation"@.len());
    assert("wasm_multi_memory"@ != "parallel_compilation"@);
    assert("wasm_multi_memory"@.len() != "wasm_reference_types"@.len());
    assert("wasm_multi_memory"@ != "wasm_reference_types"@);
    assert("wasm_multi_memory"@.len() != "profiler"@.len());
    assert("wasm_multi_memory"@ != "profiler"@);
    assert("wasm_multi_memory"@.len() != "cranelift_opt_level"@.len());
    assert("wasm_multi_memory"@ != "cranelift_opt_level"@);
    assert("wasm_multi_memory"@.len() != "strategy"@.len());
    assert("wasm_multi_memory"@ != "strategy"@);
    assert("wasm_multi_memory"@.len() != "target"@.len());
    assert("wasm_multi_memory"@ != "target"@);
    assert("wasm_multi_memory"@.len() != "generate_address_map"@.len());
    assert("wasm_multi_memory"@ != "generate_address_map"@);
    assert("wasm_multi_memory"@.len() != "allocation_strategy"@.len());
    assert("wasm_multi_memory"@ != "allocation_strategy"@);
    assert("wasm_memory64"@.len() != "parallel_compilation"@.len());
    assert("wasm_memory64"@ != "parallel_compilation"@);
    assert("wasm_memory64"@.len() != "wasm_reference_types"@.len());
    assert("wasm_memory64"@ != "wasm_reference_types"@);
    assert("wasm_memory64"@.len() != "profiler"@.len());
    assert("wasm_memory64"@ != "profiler"@);
    assert("wasm_memory64"@.len() != "cranelift_opt_level"@.len());
    assert("wasm_memory64"@ != "cranelift_opt_level"@);
    assert("wasm_memory64"@.len() != "strategy"@.len());
    assert("wasm_memory64"@ != "strategy"@);
    assert("wasm_memory64"@.len() != "target"@.len());
    assert("wasm_memory64"@ != "target"@);
    assert("wasm_memory64"@.len() != "generate_address_map"@.len());
    assert("wasm_memory64"@ != "generate_address_map"@);
    assert("wasm_memory64"@.len() != "allocation_strategy"@.len());
    assert("wasm_memory64"@ != "allocation_strategy"@);
    assert("parallel_compilation"@[0] != "wasm_reference_types"@[0]);
    assert("parallel_compilation"@ != "wasm_reference_types"@);
    assert("parallel_compilation"@.len() != "profiler"@.len());
    assert("parallel_compilation"@ != "profiler"@);
    assert("parallel_compilation"@.len() != "cranelift_opt_level"@.len());
    assert("parallel_compilation"@ != "cranelift_opt_level"@);
    assert("parallel_compilation"@.len() != "strategy"@.len());
    assert("parallel_compilation"@ != "strategy"@);
    assert("parallel_compilation"@.len() != "target"@.len());
    assert("parallel_compilation"@ != "target"@);
    assert("parallel_compilation"@[0] != "generate_address_map"@[0]);
    assert("parallel_compilation"@ != "generate_address_map"@);
    assert("parallel_compilation"@.len() != "allocation_strategy"@.len());
    assert("parallel_compilation"@ != "allocation_strategy"@);
    assert("wasm_reference_types"@.len() != "profiler"@.len());
    assert("wasm_reference_types"@ != "profiler"@);
    assert("wasm_reference_types"@.len() != "cranelift_opt_level"@.len());
    assert("wasm_reference_types"@ != "cranelift_opt_level"@);
    assert("wasm_reference_types"@.len() != "strategy"@.len());
    assert("wasm_reference_types"@ != "strategy"@);
    assert("wasm_reference_types"@.len() != "target"@.len());
    assert("wasm_reference_types"@ != "target"@);
    assert("wasm_reference_types"@[0] != "generate_address_map"@[0]);
    assert("wasm_reference_types"@ != "generate_address_map"@);
    assert("wasm_reference_types"@.len() != "allocation_strategy"@.len());
    assert("wasm_reference_types"@ != "allocation_strategy"@);
    assert("profiler"@.len() != "cranelift_opt_level"@.len());
    assert("profiler"@ != "cranelift_opt_level"@);
    assert("profiler"@[0] != "strategy"@[0]);
    assert("profiler"@ != "strategy"@);
    assert("profiler"@.len() != "target"@.len());
    assert("profiler"@ != "target"@);
    assert("profiler"@.len() != "generate_address_map"@.len());
    assert("profiler"@ != "generate_address_map"@);
    assert("profiler"@.len() != "allocation_strategy"@.len());
    assert("profiler"@ != "allocation_strategy"@);
    assert("cranelift_opt_level"@.len() != "strategy"@.len());
    assert("cranelift_opt_level"@ != "strategy"@);
    assert("cranelift_opt_level"@.len() != "target"@.len());
    assert("cranelift_opt_level"@ != "target"@);
    assert("cranelift_opt_level"@.len() != "generate_address_map"@.len());
    assert("cranelift_opt_level"@ != "generate_address_map"@);
    assert("cranelift_opt_level"@[0] != "allocation_strategy"@[0]);
    assert("cranelift_opt_level"@ != "allocation_strategy"@);
    assert("strategy"@.len() != "target"@.len());
    assert("strategy"@ != "target"@);
    assert("strategy"@.len() != "generate_address_map"@.len());
    assert("strategy"@ != "generate_address_map"@);
    assert("strategy"@.len() != "allocation_strategy"@.len());
    assert("strategy"@ != "allocation_strategy"@);
    assert("target"@.len() != "generate_address_map"@.len());
    assert("target"@ != "generate_address_map"@);
    assert("target"@.len() != "allocation_strategy"@.len());
    assert("target"@ != "allocation_strategy"@);
    assert("generate_address_map"@.len() != "allocation_strategy"@.len());
    assert("generate_address_map"@ != "allocation_strategy"@);
    match o {
        ConfigOption::DebugInfo => assert(option_named("debug_info"@, winch) == Some(ConfigOption::DebugInfo)),
        ConfigOption::WasmBacktraceDetails => assert(option_named("wasm_backtrace_details"@, winch) == Some(ConfigOption::WasmBacktraceDetails)),
        ConfigOption::NativeUnwindInfo => assert(option_named("native_unwind_info"@, winch) == Some(ConfigOption::NativeUnwindInfo)),
        ConfigOption::ConsumeFuel => assert(option_named("consume_fuel"@, winch) == Some(ConfigOption::ConsumeFuel)),
        ConfigOption::EpochInterruption => assert(option_named("epoch_interruption"@, winch) == Some(ConfigOption::EpochInterruption)),
        ConfigOption::MaxWasmStack => assert(option_named("max_wasm_stack"@, winch) == Some(ConfigOption::MaxWasmStack)),
        ConfigOption::WasmThreads => assert(option_named("wasm_threads"@, winch) == Some(ConfigOption::WasmThreads)),
        ConfigOption::WasmMultiMemory => assert(option_named("wasm_multi_memory"@, winch) == Some(ConfigOption::WasmMultiMemory)),
        ConfigOption::WasmMemory64 => assert(option_named("wasm_memory64"@, winch) == Some(ConfigOption::WasmMemory64)),
        ConfigOption::ParallelCompilation => assert(option_named("parallel_compilation"@, winch) == Some(ConfigOption::ParallelCompilation)),
        ConfigOption::WasmReferenceTypes => assert(option_named("wasm_reference_types"@, winch) == Some(ConfigOption::WasmReferenceTypes)),
        ConfigOption::Profiler => assert(option_named("profiler"@, winch) == Some(ConfigOption::Profiler)),
        ConfigOption::CraneliftOptLevel => assert(option_named("cranelift_opt_level"@, winch) == Some(ConfigOption::CraneliftOptLevel)),
        ConfigOption::Strategy => {
            if winch {
                assert(option_named("strategy"@, winch) == Some(ConfigOption::Strategy));
            }
        },
        ConfigOption::Target => assert(option_named("target"@, winch) == Some(ConfigOption::Target)),
        ConfigOption::GenerateAddressMap => assert(option_named("generate_address_map"@, winch) == Some(ConfigOption::GenerateAddressMap)),
        ConfigOption::AllocationStrategy => assert(option_named("allocation_strategy"@, winch) == Some(ConfigOption::AllocationStrategy)),
    }
}

/// An entry that decodes to a setting sets the option its name denotes.
pub proof fn lemma_settings_set_the_named_option(e: ConfigEntry, winch: bool, s: ConfigSetting)
    requires
        decodes(e, winch, Ok(s)),
    ensures
        option_named(e.name@, winch) == Some(setting_option(s)),
        option_symbol(setting_option(s)) == e.name@,
{
    lemma_options_found_by_their_names(e.name@, setting_option(s), winch);
}

impl ConfigEntry {
    /// The `TypeError` for a value of the wrong type.
    pub fn invalid_type(&self) -> (err: RbError)
        ensures
            is_error(err, ErrorClass::Type, invalid_type_message(*self)),
    {
        let mut m = String::from_str("Invalid option ");
        m.append(self.value.to_s.as_str());
        m.append(": ");
        m.append(self.name.as_str());
        RbError::Error { class: ErrorClass::Type, message: m }
    }
}

/// Decodes one entry of the configuration Hash.
pub fn decode_entry(e: &ConfigEntry, winch: bool) -> (r: Result<ConfigSetting, RbError>)
    ensures
        decodes(*e, winch, r),
{
    let opt = match config_option(e.name.as_str(), winch) {
        Some(o) => o,
        None => {
            let mut m = String::from_str("Unknown option: ");
            m.append(e.name_inspect.as_str());
            return Err(RbError::Error { class: ErrorClass::Argument, message: m });
        },
    };
    match opt {
        ConfigOption::DebugInfo => Ok(ConfigSetting::DebugInfo(is_truthy(&e.value.value))),
        ConfigOption::WasmBacktraceDetails => Ok(ConfigSetting::WasmBacktraceDetails(is_truthy(&e.value.value))),
        ConfigOption::NativeUnwindInfo => Ok(ConfigSetting::NativeUnwindInfo(is_truthy(&e.value.value))),
        ConfigOption::ConsumeFuel => Ok(ConfigSetting::ConsumeFuel(is_truthy(&e.value.value))),
        ConfigOption::EpochInterruption => Ok(ConfigSetting::EpochInterruption(is_truthy(&e.value.value))),
        ConfigOption::WasmThreads => Ok(ConfigSetting::WasmThreads(is_truthy(&e.value.value))),
        ConfigOption::WasmMultiMemory => Ok(ConfigSetting::WasmMultiMemory(is_truthy(&e.value.value))),
        ConfigOption::WasmMemory64 => Ok(ConfigSetting::WasmMemory64(is_truthy(&e.value.value))),
        ConfigOption::ParallelCompilation => Ok(ConfigSetting::ParallelCompilation(is_truthy(&e.value.value))),
        ConfigOption::WasmReferenceTypes => Ok(ConfigSetting::WasmReferenceTypes(is_truthy(&e.value.value))),
        ConfigOption::GenerateAddressMap => Ok(ConfigSetting::GenerateAddressMap(is_truthy(&e.value.value))),
        ConfigOption::MaxWasmStack => match e.value.as_size {
            Some(n) => Ok(ConfigSetting::MaxWasmStack(n)),
            None => Err(e.invalid_type()),
        },
        ConfigOption::Profiler => {
            let m = profiling_strategy_mapping();
            let n = to_needle(&e.value);
            proof { lemma_lookup_entries(m, n.symbol_name().unwrap_or(Seq::<char>::empty())); }
            match m.get(&n) {
                Ok(v) => Ok(ConfigSetting::Profiler(v)),
                Err(err) => Err(err),
            }
        },
        ConfigOption::CraneliftOptLevel => {
            let m = opt_level_mapping();
            let n = to_needle(&e.value);
            proof { lemma_lookup_entries(m, n.symbol_name().unwrap_or(Seq::<char>::empty())); }
            match m.get(&n) {
                Ok(v) => Ok(ConfigSetting::CraneliftOptLevel(v)),
                Err(err) => Err(err),
            }
        },
        ConfigOption::Strategy => {
            let m = strategy_mapping();
            let n = to_needle(&e.value);
            proof { lemma_lookup_entries(m, n.symbol_name().unwrap_or(Seq::<char>::empty())); }
            match m.get(&n) {
                Ok(v) => Ok(ConfigSetting::Strategy(v)),
                Err(err) => Err(err),
            }
        },
        ConfigOption::Target => match &e.value.value {
            RbValue::Nil => Ok(ConfigSetting::Target(None)),
            _ => match &e.value.as_string {
                Some(s) => Ok(ConfigSetting::Target(Some(s.clone()))),
                None => Err(e.invalid_type()),
            },
        },
        ConfigOption::AllocationStrategy => {
            match &e.value.value {
                RbValue::PoolingAllocationConfig => {
                    return Ok(ConfigSetting::AllocationStrategy(AllocationChoice::PoolingWithConfig));
                },
                RbValue::Symbol(s) => {
                    if str_eq(s.as_str(), "pooling") {
                        return Ok(ConfigSetting::AllocationStrategy(AllocationChoice::PoolingDefault));
                    } else if str_eq(s.as_str(), "on_demand") {
                        return Ok(ConfigSetting::AllocationStrategy(AllocationChoice::OnDemand));
                    }
                },
                _ => {},
            }
            let mut m = String::from_str("invalid instance allocation strategy: ");
            m.append(e.value.inspect.as_str());
            Err(RbError::Error { class: ErrorClass::Argument, message: m })
        },
    }
}

/// Decodes the entries of the configuration Hash, in order, up to the
/// first that makes no setting: the settings of the entries before it, and
/// its error (none when every entry decodes). Settings are to be applied in
/// this order, and the error raised only once they all applied.
pub fn hash_to_config(entries: &Vec<ConfigEntry>, winch: bool) -> (r: (Vec<ConfigSetting>, Option<RbError>))
    ensures
        r.0@.len() <= entries@.len(),
        forall|i: int| 0 <= i < r.0@.len() ==> decodes(entries@[i], winch, Ok(#[trigger] r.0@[i])),
        r.1 is None ==> r.0@.len() == entries@.len(),
        r.1 is Some ==> r.0@.len() < entries@.len()
            && decodes(entries@[r.0@.len() as int], winch, Err::<ConfigSetting, RbError>(r.1->Some_0)),
{
    let mut out: Vec<ConfigSetting> = Vec::new();
    let mut i: usize = 0;
    while i < entries.len()
        invariant
            i <= entries@.len(),
            out@.len() == i,
            forall|j: int| 0 <= j < i ==> decodes(entries@[j], winch, Ok(#[trigger] out@[j])),
        decreases entries@.len() - i,
    {
        match decode_entry(&entries[i], winch) {
            Ok(s) => {
                out.push(s);
            },
            Err(err) => {
                return (out, Some(err));
            },
        }
        i = i + 1;
    }
    (out, None)
}

/// The error raised for a compilation target that Wasmtime refuses, with
/// Wasmtime's message.
pub open spec fn invalid_target_message(target: Seq<char>, message: Seq<char>) -> Seq<char> {
    "Invalid target: "@ + target + ": "@ + message
}

/// The `ArgumentError` for a compilation target that Wasmtime refuses.
pub fn invalid_target_error(target: &str, message: &str) -> (e: RbError)
    ensures
        is_error(e, ErrorClass::Argument, invalid_target_message(target@, message@)),
{
    let mut m = String::from_str("Invalid target: ");
    m.append(target);
    m.append(": ");
    m.append(message);
    RbError::Error { class: ErrorClass::Argument, message: m }
}

} // verus!
