use wasmtime_rb::config::{
    config_option, decode_entry, hash_to_config, invalid_target_error, mpk_mapping, opt_level_mapping, AllocationChoice,
    ConfigEntry, ConfigOption, ConfigSetting, MpkChoice, OptLevel, ProfilingStrategy, Strategy,
};
use wasmtime_rb::convert::{to_val_type, to_val_type_vec, val_type_mapping, RefType, ValType};
use wasmtime_rb::errors::{ErrorClass, RbError};
use wasmtime_rb::symbol_enum::{Needle, StaticId, SymbolEnum};
use wasmtime_rb::value::{is_truthy, RbArg, RbValue};

fn message(e: &RbError) -> (ErrorClass, String) {
    match e {
        RbError::Error { class, message } => (*class, message.clone()),
        RbError::Exception { class, message } => (*class, message.clone()),
        RbError::Jump => (ErrorClass::Base, String::new()),
    }
}

fn sym(name: &str) -> Needle {
    Needle::Symbol { name: name.to_string(), inspect: format!(":{name}") }
}

fn arg(value: RbValue, to_s: &str, inspect: &str) -> RbArg {
    RbArg { value, to_s: to_s.to_string(), inspect: inspect.to_string(), as_size: None, as_string: None }
}

fn int_arg(i: i64) -> RbArg {
    let mut a = arg(RbValue::Other, &i.to_string(), &i.to_string());
    a.as_size = usize::try_from(i).ok();
    a
}

fn str_arg(s: &str) -> RbArg {
    let mut a = arg(RbValue::Other, s, &format!("{s:?}"));
    a.as_string = Some(s.to_string());
    a
}

fn entry(name: &str, value: RbArg) -> ConfigEntry {
    ConfigEntry { name: name.to_string(), name_inspect: format!(":{name}"), value }
}

fn symbol_arg(name: &str) -> RbArg {
    arg(RbValue::Symbol(name.to_string()), name, &format!(":{name}"))
}

#[test]
fn symbol_enum_finds_symbols_by_name() {
    let m = SymbolEnum::new("thing", vec![(StaticId::intern_str("a"), 1u8), (StaticId::intern_str("b"), 2u8)]);
    assert_eq!(m.get(&sym("b")).unwrap(), 2);
    assert_eq!(m.display_mapping(), "[:a, :b]");
    let e = m.get(&sym("c")).unwrap_err();
    assert_eq!(message(&e), (ErrorClass::Argument, "invalid thing, expected one of [:a, :b], got :c".to_string()));
    let e = m.get(&Needle::Other { inspect: "\"a\"".to_string() }).unwrap_err();
    assert_eq!(message(&e), (ErrorClass::Argument, "invalid thing, expected one of [:a, :b], got \"a\"".to_string()));
}

#[test]
fn static_ids_compare_by_name() {
    let id = StaticId::intern_str("i32");
    assert_eq!(id.name(), "i32");
    assert!(id.eq_name("i32"));
    assert!(!id.eq_name("i64"));
}

#[test]
fn value_types_are_named_by_symbols() {
    let m = val_type_mapping();
    assert_eq!(to_val_type(&m, &sym("i64")).unwrap(), ValType::I64);
    assert_eq!(to_val_type(&m, &sym("externref")).unwrap(), ValType::ExternRef);
    let e = to_val_type(&m, &sym("i16")).unwrap_err();
    assert_eq!(
        message(&e),
        (
            ErrorClass::Argument,
            "invalid WebAssembly type, expected one of [:i32, :i64, :f32, :f64, :v128, :funcref, :externref], got :i16"
                .to_string()
        )
    );
    assert_eq!(to_val_type_vec(&m, &vec![sym("i32"), sym("f64")]).unwrap(), vec![ValType::I32, ValType::F64]);
    assert!(to_val_type_vec(&m, &vec![sym("i32"), sym("x")]).is_err());
    assert_eq!(ValType::F32.to_sym().name(), "f32");
    assert_eq!(RefType::FuncRef.to_sym().name(), "funcref");
}

#[test]
fn ruby_truthiness() {
    assert!(!is_truthy(&RbValue::Nil));
    assert!(!is_truthy(&RbValue::Bool(false)));
    assert!(is_truthy(&RbValue::Bool(true)));
    assert!(is_truthy(&RbValue::Other));
    assert!(is_truthy(&RbValue::Symbol("a".to_string())));
}

#[test]
fn options_are_looked_up_by_name() {
    assert_eq!(config_option("consume_fuel", false), Some(ConfigOption::ConsumeFuel));
    assert_eq!(config_option("strategy", true), Some(ConfigOption::Strategy));
    assert_eq!(config_option("strategy", false), None);
    assert_eq!(config_option("nope", true), None);
}

#[test]
fn boolean_options_take_truthiness() {
    let r = decode_entry(&entry("debug_info", int_arg(0)), false).unwrap();
    assert_eq!(r, ConfigSetting::DebugInfo(true));
    let r = decode_entry(&entry("consume_fuel", arg(RbValue::Nil, "", "nil")), false).unwrap();
    assert_eq!(r, ConfigSetting::ConsumeFuel(false));
}

#[test]
fn max_wasm_stack_needs_an_integer() {
    let r = decode_entry(&entry("max_wasm_stack", int_arg(4096)), false).unwrap();
    assert_eq!(r, ConfigSetting::MaxWasmStack(4096));
    let e = decode_entry(&entry("max_wasm_stack", str_arg("big")), false)
        .unwrap_err();
    assert_eq!(message(&e), (ErrorClass::Type, "Invalid option big: max_wasm_stack".to_string()));
    let e = decode_entry(&entry("max_wasm_stack", int_arg(-1)), false).unwrap_err();
    assert_eq!(message(&e), (ErrorClass::Type, "Invalid option -1: max_wasm_stack".to_string()));
}

#[test]
fn symbol_options_use_their_enumerations() {
    let r = decode_entry(&entry("cranelift_opt_level", symbol_arg("speed")), false).unwrap();
    assert_eq!(r, ConfigSetting::CraneliftOptLevel(OptLevel::Speed));
    let r = decode_entry(&entry("profiler", symbol_arg("perfmap")), false).unwrap();
    assert_eq!(r, ConfigSetting::Profiler(ProfilingStrategy::PerfMap));
    let r = decode_entry(&entry("strategy", symbol_arg("winch")), true).unwrap();
    assert_eq!(r, ConfigSetting::Strategy(Strategy::Winch));
    let e = decode_entry(&entry("cranelift_opt_level", symbol_arg("fast")), false).unwrap_err();
    assert_eq!(
        message(&e),
        (
            ErrorClass::Argument,
            "invalid :cranelift_opt_level, expected one of [:none, :speed, :speed_and_size], got :fast".to_string()
        )
    );
    assert_eq!(opt_level_mapping().display_mapping(), "[:none, :speed, :speed_and_size]");
}

#[test]
fn target_and_allocation_strategy() {
    let r = decode_entry(&entry("target", str_arg("x86_64")), false)
        .unwrap();
    assert_eq!(r, ConfigSetting::Target(Some("x86_64".to_string())));
    let r = decode_entry(&entry("target", arg(RbValue::Nil, "", "nil")), false).unwrap();
    assert_eq!(r, ConfigSetting::Target(None));
    let r = decode_entry(&entry("allocation_strategy", symbol_arg("pooling")), false).unwrap();
    assert_eq!(r, ConfigSetting::AllocationStrategy(AllocationChoice::PoolingDefault));
    let r = decode_entry(&entry("allocation_strategy", arg(RbValue::PoolingAllocationConfig, "#<P>", "#<P>")), false)
        .unwrap();
    assert_eq!(r, ConfigSetting::AllocationStrategy(AllocationChoice::PoolingWithConfig));
    let e = decode_entry(&entry("allocation_strategy", symbol_arg("lazy")), false).unwrap_err();
    assert_eq!(message(&e), (ErrorClass::Argument, "invalid instance allocation strategy: :lazy".to_string()));
}

#[test]
fn unknown_options_are_refused() {
    let e = decode_entry(&entry("turbo", symbol_arg("yes")), false).unwrap_err();
    assert_eq!(message(&e), (ErrorClass::Argument, "Unknown option: :turbo".to_string()));
}

#[test]
fn a_hash_decodes_in_order_until_an_error() {
    let entries = vec![
        entry("debug_info", arg(RbValue::Bool(true), "true", "true")),
        entry("parallel_compilation", arg(RbValue::Bool(false), "false", "false")),
    ];
    let (settings, error) = hash_to_config(&entries, false);
    assert!(error.is_none());
    assert_eq!(settings, vec![ConfigSetting::DebugInfo(true), ConfigSetting::ParallelCompilation(false)]);
    let bad = vec![
        entry("debug_info", arg(RbValue::Bool(true), "true", "true")),
        entry("bogus", arg(RbValue::Nil, "", "nil")),
        entry("also_bogus", arg(RbValue::Nil, "", "nil")),
    ];
    let (prefix, e) = hash_to_config(&bad, false);
    assert_eq!(prefix, vec![ConfigSetting::DebugInfo(true)]);
    assert_eq!(message(&e.unwrap()), (ErrorClass::Argument, "Unknown option: :bogus".to_string()));
}

#[test]
fn settings_before_a_bad_entry_come_first_in_order() {
    let entries = vec![
        entry("target", str_arg("bogus")),
        entry("foo", arg(RbValue::Other, "1", "1")),
    ];
    let (prefix, e) = hash_to_config(&entries, false);
    assert_eq!(prefix, vec![ConfigSetting::Target(Some("bogus".to_string()))]);
    assert_eq!(message(&e.unwrap()), (ErrorClass::Argument, "Unknown option: :foo".to_string()));
    let empty: Vec<ConfigEntry> = Vec::new();
    assert_eq!(hash_to_config(&empty, false), (Vec::new(), None));
}

#[test]
fn refused_targets_are_argument_errors() {
    assert_eq!(
        message(&invalid_target_error("bogus", "unknown architecture")),
        (ErrorClass::Argument, "Invalid target: bogus: unknown architecture".to_string())
    );
}

#[test]
fn memory_protection_keys_strategy() {
    let m = mpk_mapping();
    assert_eq!(m.get(&sym("enable")).unwrap(), MpkChoice::Enable);
    let e = m.get(&sym("on")).unwrap_err();
    assert_eq!(
        message(&e),
        (
            ErrorClass::Argument,
            "invalid Memory protection keys strategy, expected one of [:auto, :enable, :disable], got :on"
                .to_string()
        )
    );
}
