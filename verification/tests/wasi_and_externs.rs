use wasmtime_rb::convert::ValType;
use wasmtime_rb::errors::{ErrorClass, RbError};
use wasmtime_rb::externals::{
    export_type_name, extern_inspect, to_extern, trap_code, trap_inspect, wrap_kind, Extern, ExternCandidate,
    ExternKind, ExternSource, ExternType, TrapKind,
};
use wasmtime_rb::symbol_enum::Needle;
use wasmtime_rb::wasi_config::{
    dir_perms_mapping, file_perms_mapping, socket_check_allows, socket_use_symbol, DirPermsChoice,
    FilePermsChoice, MappedDirectory, NetworkPlan, ReadStream, SocketUse, WasiConfigState, WriteStream,
};
use wasmtime_rb::wasm_value::{retains_value, to_ruby_value, to_wasm_val, CoreInput, CoreOutput, WasmArg, WasmVal};

fn message(e: &RbError) -> (ErrorClass, String) {
    match e {
        RbError::Error { class, message } => (*class, message.clone()),
        RbError::Exception { class, message } => (*class, message.clone()),
        RbError::Jump => (ErrorClass::Base, String::new()),
    }
}

fn sym(name: &str) -> Needle {
    Needle::Symbol { name: name.to_string(), inspect: format!(":{name}") }
}

#[test]
fn permissions_are_named_by_symbols() {
    assert_eq!(file_perms_mapping().get(&sym("write")).unwrap(), FilePermsChoice::Write);
    assert_eq!(dir_perms_mapping().get(&sym("mutate")).unwrap(), DirPermsChoice::Mutate);
    let e = dir_perms_mapping().get(&sym("write")).unwrap_err();
    assert_eq!(
        message(&e),
        (ErrorClass::Argument, "invalid :dir_perms, expected one of [:read, :mutate, :all], got :write".to_string())
    );
    let e = file_perms_mapping().get(&sym("mutate")).unwrap_err();
    assert_eq!(
        message(&e),
        (ErrorClass::Argument, "invalid :file_perms, expected one of [:read, :write, :all], got :mutate".to_string())
    );
}

#[test]
fn configuration_setters_record_choices() {
    let mut c: WasiConfigState<u32> = WasiConfigState::new();
    c.set_stdin(ReadStream::String(1));
    c.set_stdout(WriteStream::Buffer(2, 64));
    c.set_stderr(WriteStream::Inherit);
    c.set_env(3);
    c.set_argv(4);
    c.set_mapped_directory(MappedDirectory { host_path: 5, guest_path: 6, dir_perms: 7, file_perms: 8 });
    c.set_socket_addr_check(None);
    assert!(c.socket_addr_check.is_none());
    c.set_socket_addr_check(Some(9));
    assert!(matches!(c.stdin, Some(ReadStream::String(1))));
    assert!(matches!(c.stdout, Some(WriteStream::Buffer(2, 64))));
    assert_eq!(c.env, Some(3));
    assert_eq!(c.args, Some(4));
    assert_eq!(c.mapped_directories.len(), 1);
    assert_eq!(c.socket_addr_check, Some(9));
}

#[test]
fn network_settings_follow_the_configuration() {
    let mut c: WasiConfigState<u32> = WasiConfigState::new();
    c.set_inherit_network();
    c.set_allow_udp(false);
    assert_eq!(
        c.network_plan().unwrap(),
        NetworkPlan::Configured { inherit_network: true, allow_tcp: None, allow_udp: Some(false), allow_ip_name_lookup: None }
    );
}

#[test]
fn determinism_forbids_network_access() {
    let mut c: WasiConfigState<u32> = WasiConfigState::new();
    c.add_determinism();
    c.set_allow_tcp(false);
    assert_eq!(c.network_plan().unwrap(), NetworkPlan::Deterministic);
    c.set_allow_ip_name_lookup(true);
    let e = c.network_plan().unwrap_err();
    assert_eq!(
        message(&e),
        (
            ErrorClass::Base,
            "Cannot enable both determinism and network access. Deterministic mode requires network to be disabled."
                .to_string()
        )
    );
}

#[test]
fn socket_checks() {
    assert_eq!(socket_use_symbol(SocketUse::UdpOutgoingDatagram), "udp_outgoing_datagram");
    assert_eq!(socket_use_symbol(SocketUse::TcpBind), "tcp_bind");
    assert!(socket_check_allows(Ok(true)));
    assert!(!socket_check_allows(Ok(false)));
    assert!(!socket_check_allows(Err(RbError::Jump)));
}

#[test]
fn externs_convert_only_to_their_kind() {
    let f: Extern<u8, u16, u32, u64> = Extern::Func(1);
    assert_eq!(*f.to_func().unwrap(), 1);
    let e = f.to_memory().unwrap_err();
    assert_eq!(message(&e), (ErrorClass::Conversion, "cannot convert Wasmtime::Func to Wasmtime::Memory".to_string()));
    let g: Extern<u8, u16, u32, u64> = Extern::Global(2);
    assert_eq!(*g.to_global().unwrap(), 2);
    assert!(g.to_table().is_err());
    let t: ExternType<u8, u16, u32, u64> = ExternType::Table(4);
    assert_eq!(*t.to_table_type().unwrap(), 4);
    let e = t.to_func_type().unwrap_err();
    assert_eq!(
        message(&e),
        (ErrorClass::Conversion, "cannot convert Wasmtime::TableType to Wasmtime::Func".to_string())
    );
}

#[test]
fn unsupported_externs_and_candidates() {
    assert_eq!(wrap_kind(ExternSource::Supported(ExternKind::Table)).unwrap(), ExternKind::Table);
    assert_eq!(
        message(&wrap_kind(ExternSource::SharedMemory).unwrap_err()),
        (ErrorClass::NotImplemented, "shared memory not supported".to_string())
    );
    assert_eq!(
        message(&wrap_kind(ExternSource::Tag).unwrap_err()),
        (ErrorClass::NotImplemented, "exception handling not yet implemented".to_string())
    );
    let c: ExternCandidate<u8, u8, u8, u8> = ExternCandidate::Other { inspect: "42".to_string() };
    assert_eq!(message(&to_extern(c).err().unwrap()), (ErrorClass::Type, "unexpected extern: 42".to_string()));
    let c: ExternCandidate<u8, u8, u8, u8> = ExternCandidate::Extern(Extern::Memory(3));
    assert!(matches!(to_extern(c), Ok(Extern::Memory(3))));
    assert_eq!(export_type_name(ExternKind::Memory), "memory");
    assert_eq!(export_type_name(ExternKind::Func), "func");
}

#[test]
fn inspect_texts() {
    assert_eq!(
        extern_inspect(0x1234, "#<Wasmtime::Func>"),
        "#<Wasmtime::Extern:0x0000000000001234 @value=#<Wasmtime::Func>>"
    );
    assert_eq!(trap_inspect(0xff, ":OUT_OF_FUEL"), "#<Wasmtime::Trap:0x00000000000000ff @trap_code=:OUT_OF_FUEL>");
    assert_eq!(trap_code(TrapKind::IntegerDivisionByZero), "INTEGER_DIVISION_BY_ZERO");
    assert_eq!(trap_code(TrapKind::Unknown), "UNKNOWN");
}

#[test]
fn core_values_to_ruby() {
    assert_eq!(to_ruby_value::<u8, u8>(WasmVal::I32(-7)).unwrap(), CoreOutput::Integer(-7));
    assert_eq!(to_ruby_value::<u8, u8>(WasmVal::F64(1.5f64.to_bits())).unwrap(), CoreOutput::Float64(1.5f64.to_bits()));
    assert_eq!(to_ruby_value::<u8, u8>(WasmVal::FuncRef(None)).unwrap(), CoreOutput::Nil);
    assert_eq!(to_ruby_value::<u8, u8>(WasmVal::ExternRef(Some(4))).unwrap(), CoreOutput::Extern(4));
    let e = to_ruby_value::<u8, u8>(WasmVal::V128(1)).unwrap_err();
    assert_eq!(message(&e), (ErrorClass::Base, "converting from v128 to Ruby unsupported".to_string()));
    let e = to_ruby_value::<u8, u8>(WasmVal::Unsupported("AnyRef(None)".to_string())).unwrap_err();
    assert_eq!(message(&e), (ErrorClass::Base, "cannot convert value: AnyRef(None) to Ruby value".to_string()));
}

fn number(i: i64) -> CoreInput<u8> {
    CoreInput {
        is_nil: false,
        as_i32: i32::try_from(i).map_err(|_| RbError::Error { class: ErrorClass::Foreign(1), message: "range".to_string() }),
        as_i64: Ok(i),
        as_f32: Ok((i as f32).to_bits()),
        as_f64: Ok((i as f64).to_bits()),
        as_func: Err(RbError::Error { class: ErrorClass::Type, message: "not a Func".to_string() }),
    }
}

#[test]
fn ruby_values_to_core_values() {
    assert_eq!(to_wasm_val(&number(5), ValType::I32).unwrap(), WasmArg::Val(WasmVal::I32(5)));
    assert_eq!(to_wasm_val(&number(1 << 40), ValType::I64).unwrap(), WasmArg::Val(WasmVal::I64(1 << 40)));
    assert_eq!(message(&to_wasm_val(&number(1 << 40), ValType::I32).unwrap_err()).1, "range");
    assert_eq!(to_wasm_val(&number(0), ValType::ExternRef).unwrap(), WasmArg::WrapAsExternRef);
    let mut nil = number(0);
    nil.is_nil = true;
    assert_eq!(to_wasm_val(&nil, ValType::FuncRef).unwrap(), WasmArg::Val(WasmVal::FuncRef(None)));
    assert_eq!(message(&to_wasm_val(&number(0), ValType::FuncRef).unwrap_err()).1, "not a Func");
    let e = to_wasm_val(&number(0), ValType::V128).unwrap_err();
    assert_eq!(message(&e), (ErrorClass::Base, "converting from Ruby to v128 not supported".to_string()));
}

#[test]
fn core_values_roundtrip_through_ruby() {
    let cases: [(fn() -> WasmVal<u8, ()>, ValType); 2] =
        [(|| WasmVal::I32(-9), ValType::I32), (|| WasmVal::I64(1 << 50), ValType::I64)];
    for (make, ty) in cases {
        let out = to_ruby_value(make()).unwrap();
        let back = match out {
            CoreOutput::Integer(i) => to_wasm_val(&number(i), ty).unwrap(),
            _ => panic!("expected an Integer"),
        };
        assert_eq!(back, WasmArg::Val(make()));
    }
}

#[test]
fn only_live_extern_refs_are_retained() {
    assert!(retains_value(ValType::ExternRef, false));
    assert!(!retains_value(ValType::ExternRef, true));
    assert!(!retains_value(ValType::FuncRef, false));
    assert!(!retains_value(ValType::I32, false));
}
