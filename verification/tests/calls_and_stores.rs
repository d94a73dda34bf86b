use wasmtime::ResourceLimiter;
use wasmtime_rb::component_type::ComponentType;
use wasmtime_rb::component_value::{ComponentVal, RbInput, RbKind, RbOutput};
use wasmtime_rb::errors::{ErrorClass, RbError};
use wasmtime_rb::func_call::{
    exported_func, invoke_name,
    block_results_outcome, check_param_count, collect_block_args, collect_params, pack_results, Packed,
};
use wasmtime_rb::handles::{nested_path, CallerHandle, MaybeInstance, ResourceHandle};
use wasmtime_rb::linking::{
    compatibility_key, export_path, host_params_to_rb, host_result_outcome, require_wasi_config, resolve_export_path, require_wasi_ctx,
    ExportHandle,
};
use wasmtime_rb::store_data::{call_failure, limits_config, store_limits, CallFailure, LimitsLookup, StoreData};

fn message(e: &RbError) -> (ErrorClass, String) {
    match e {
        RbError::Error { class, message } => (*class, message.clone()),
        RbError::Exception { class, message } => (*class, message.clone()),
        RbError::Jump => (ErrorClass::Base, String::new()),
    }
}

fn type_error(m: &str) -> RbError {
    RbError::Error { class: ErrorClass::Type, message: m.to_string() }
}

#[test]
fn argument_counts_must_match() {
    assert!(check_param_count(2, 2).is_ok());
    let e = check_param_count(3, 1).unwrap_err();
    assert_eq!(message(&e), (ErrorClass::Argument, "wrong number of arguments (given 3, expected 1)".to_string()));
}

#[test]
fn params_report_the_first_failing_index() {
    assert_eq!(collect_params::<u8>(vec![Ok(1), Ok(2)]).unwrap(), vec![1, 2]);
    let e = collect_params::<u8>(vec![Ok(1), Err(type_error("bad")), Err(type_error("worse"))]).unwrap_err();
    assert_eq!(message(&e), (ErrorClass::Type, "bad (param at index 1)".to_string()));
    let x = RbError::Exception { class: ErrorClass::Foreign(3), message: "big".to_string() };
    let e = collect_params::<u8>(vec![Err(x)]).unwrap_err();
    assert_eq!(e, RbError::Error { class: ErrorClass::Foreign(3), message: "big (param at index 0)".to_string() });
}

#[test]
fn results_pack_as_ruby_expects() {
    assert_eq!(pack_results::<u8>(vec![]), Packed::Nil);
    assert_eq!(pack_results(vec![5u8]), Packed::One(5));
    assert_eq!(pack_results(vec![5u8, 6]), Packed::Many(vec![5, 6]));
}

#[test]
fn block_results_are_checked() {
    assert_eq!(block_results_outcome::<u8>("#<Proc>", 0, None, vec![]).unwrap(), Vec::<u8>::new());
    let e = block_results_outcome::<u8>("#<Proc>", 1, None, vec![]).unwrap_err();
    assert_eq!(message(&e), (ErrorClass::Result, "could not convert #<Proc> to results array".to_string()));
    let e = block_results_outcome::<u8>("#<Proc>", 2, Some(3), vec![Ok(1), Ok(2)]).unwrap_err();
    assert_eq!(
        message(&e),
        (ErrorClass::Result, "wrong number of results (given 3, expected 2) in #<Proc>".to_string())
    );
    let e = block_results_outcome::<u8>("#<Proc>", 2, Some(2), vec![Ok(1), Err("no".to_string())]).unwrap_err();
    assert_eq!(message(&e), (ErrorClass::Result, "invalid result at index 1: no in #<Proc>".to_string()));
    assert_eq!(block_results_outcome::<u8>("p", 2, Some(2), vec![Ok(7), Ok(8)]).unwrap(), vec![7, 8]);
}

#[test]
fn block_args_report_their_index() {
    assert_eq!(collect_block_args::<u8>(vec![Ok(1)]).unwrap(), vec![1]);
    let e = collect_block_args::<u8>(vec![Ok(1), Ok(2), Err("v128".to_string())]).unwrap_err();
    assert_eq!(e, "invalid argument at index 2: v128");
}

#[test]
fn callers_expire() {
    let mut h = CallerHandle::new(5u8);
    assert_eq!(*h.get().unwrap(), 5);
    *h.get_mut().unwrap() = 6;
    assert_eq!(*h.get().unwrap(), 6);
    h.expire();
    let e = h.get().unwrap_err();
    assert_eq!(message(&e), (ErrorClass::Base, "Caller outlived its Func execution".to_string()));
    assert!(h.get_mut().is_err());
}

#[test]
fn linker_instances_go_out_of_scope() {
    let mut m = MaybeInstance::new("root");
    assert_eq!(*m.get_mut().unwrap(), "root");
    assert_eq!(m.expire(), Some("root"));
    let e = m.get_mut().unwrap_err();
    assert_eq!(message(&e), (ErrorClass::Base, "LinkerInstance went out of scope".to_string()));
    assert_eq!(m.expire(), None);
}

#[test]
fn resources_drop_once() {
    let mut r = ResourceHandle::new(9u32);
    assert_eq!(r.get().unwrap(), 9);
    assert_eq!(r.take_for_drop().unwrap(), 9);
    let e = r.take_for_drop().unwrap_err();
    assert_eq!(message(&e), (ErrorClass::Base, "Resource has already been dropped".to_string()));
    assert!(r.get().is_err());
}

#[test]
fn nested_paths_join_with_slashes() {
    assert_eq!(nested_path("", "math"), "math");
    assert_eq!(nested_path("math", "trig"), "math/trig");
}

#[test]
fn store_data_keeps_one_pending_error() {
    let mut d: StoreData<&str, u8, RbError, ()> = StoreData::new("user", None, ());
    assert_eq!(*d.user_data(), "user");
    assert!(!d.has_wasi_ctx());
    assert!(d.take_error().is_none());
    d.set_error(type_error("first"));
    d.set_error(type_error("second"));
    assert_eq!(d.take_error(), Some(type_error("second")));
    assert_eq!(d.take_error(), None);
    d.retain("kept");
    assert_eq!(d.retained(), &vec!["kept"]);
}

#[test]
fn instantiating_hands_the_linker_values_to_the_store() {
    let mut d: StoreData<u32, u8, RbError, ()> = StoreData::new(0, None, ());
    d.retain(1);
    d.retain_all(&vec![2, 3]);
    d.retain_all(&Vec::new());
    assert_eq!(d.retained(), &vec![1, 2, 3]);
    assert_eq!(*d.user_data(), 0);
    assert!(d.take_error().is_none());
}

#[test]
fn compaction_moves_every_kept_value_in_place() {
    let mut d: StoreData<u32, u8, RbError, ()> = StoreData::new(7, None, ());
    d.retain_all(&vec![1, 2, 3]);
    d.set_error(type_error("pending"));
    d.compact(|v| v + 100);
    assert_eq!(*d.user_data(), 107);
    assert_eq!(d.retained(), &vec![101, 102, 103]);
    assert_eq!(d.pending_error(), Some(&type_error("pending")));
    assert_eq!(d.take_error(), Some(type_error("pending")));
    assert_eq!(d.pending_error(), None);
}

#[test]
fn store_data_wasi_context() {
    let mut d: StoreData<u8, u8, RbError, ()> = StoreData::new(0, Some(3), ());
    assert!(d.has_wasi_ctx());
    *d.wasi_ctx_mut() += 1;
    assert_eq!(*d.wasi_ctx_mut(), 4);
}

#[test]
fn memory_growth_is_accounted() {
    let mut d: StoreData<u8, u8, RbError, ()> = StoreData::new(0, None, ());
    assert_eq!(d.memory_growing(0, 65536, None, true), Some(65536));
    assert_eq!(d.allocated(), 65536);
    assert_eq!(d.memory_growing(65536, 131072, Some(100000), true), None);
    assert_eq!(d.allocated(), 65536);
    assert_eq!(d.memory_growing(65536, 131072, None, false), None);
    assert_eq!(d.memory_growing(65536, 131072, Some(131072), true), Some(65536));
    assert_eq!(d.allocated(), 131072);
}

fn lookup(values: [Result<Option<u64>, RbError>; 5]) -> LimitsLookup {
    let [memory_size, table_elements, instances, tables, memories] = values;
    LimitsLookup { memory_size, table_elements, instances, tables, memories }
}

#[test]
fn limits_come_from_the_hash() {
    let l = lookup([Ok(Some(1 << 20)), Ok(Some((1u64 << 32) + 5)), Ok(None), Ok(Some(3)), Ok(None)]);
    let c = limits_config(&l).unwrap();
    assert_eq!(c.memory_size, Some(1 << 20));
    assert_eq!(c.table_elements, Some(5));
    assert_eq!(c.instances, None);
    assert_eq!(c.tables, Some(3));
    assert_eq!(c.memories, None);
    assert!(store_limits(Some(&l)).is_ok());
    assert!(store_limits(None).is_ok());
}

#[test]
fn store_limits_hold_each_limit_of_the_hash() {
    let l = lookup([Ok(Some(1000)), Ok(Some(20)), Ok(Some(4)), Ok(Some(5)), Ok(Some(7))]);
    let mut limits = store_limits(Some(&l)).unwrap();
    assert_eq!(limits.instances(), 4);
    assert_eq!(limits.tables(), 5);
    assert_eq!(limits.memories(), 7);
    assert!(limits.memory_growing(0, 1000, None).unwrap());
    assert!(!limits.memory_growing(0, 1001, None).unwrap());
    assert!(limits.table_growing(0, 20, None).unwrap());
    assert!(!limits.table_growing(0, 21, None).unwrap());

    let mut defaults = store_limits(None).unwrap();
    assert_eq!(defaults.instances(), 10000);
    assert_eq!(defaults.tables(), 10000);
    assert_eq!(defaults.memories(), 10000);
    assert!(defaults.memory_growing(0, 1 << 30, None).unwrap());

    let partial = lookup([Ok(None), Ok(None), Ok(None), Ok(Some(2)), Ok(None)]);
    let p = store_limits(Some(&partial)).unwrap();
    assert_eq!(p.tables(), 2);
    assert_eq!(p.memories(), 10000);
    assert_eq!(p.instances(), 10000);
}

#[test]
fn limits_report_the_first_bad_entry() {
    let l = lookup([Ok(None), Err(type_error("tables?")), Err(type_error("later")), Ok(None), Ok(None)]);
    assert_eq!(message(&limits_config(&l).err().unwrap()), (ErrorClass::Type, "tables?".to_string()));
    assert!(store_limits(Some(&l)).is_err());
}

#[test]
fn call_failures_prefer_the_stored_error() {
    assert_eq!(
        call_failure(Some(type_error("stored")), Some(1), Some("trap"), "msg".to_string()),
        CallFailure::Stored(type_error("stored"))
    );
    assert_eq!(call_failure::<RbError, &str>(None, Some(2), Some("trap"), "m".to_string()), CallFailure::Exit(2));
    assert_eq!(call_failure::<RbError, &str>(None, None, Some("trap"), "m".to_string()), CallFailure::Trap("trap"));
    assert_eq!(
        call_failure::<RbError, &str>(None, None, None, "m".to_string()),
        CallFailure::Other("m".to_string())
    );
}

#[test]
fn wasi_requirements() {
    assert!(require_wasi_ctx(false, false).is_ok());
    assert!(require_wasi_ctx(true, true).is_ok());
    let e = require_wasi_ctx(true, false).unwrap_err();
    assert!(message(&e).1.ends_with("Wasmtime::Store.new(engine, wasi_ctx: WasiCtxBuilder.new)"));
    let e = require_wasi_config(true, false).unwrap_err();
    assert_eq!(
        message(&e).1,
        "Store is missing WASI configuration.\n\nWhen using `wasi: true`, the Store given to\n`Linker#instantiate` must have a WASI configuration.\nTo fix this, provide the `wasi_config` when creating the Store:\nWasmtime::Store.new(engine, wasi_config: WasiConfig.new)"
    );
}

#[test]
fn export_paths_resolve_step_by_step() {
    // Exports by the export they are nested in (none: the top level) and name.
    let table = |prev: Option<u32>, name: &String| -> Option<u32> {
        match (prev, name.as_str()) {
            (None, "adder") => Some(1),
            (Some(1), "add") => Some(2),
            (None, "add") => Some(3),
            _ => None,
        }
    };
    let path = |names: &[&str]| names.iter().map(|n| n.to_string()).collect::<Vec<String>>();
    assert_eq!(resolve_export_path(&path(&["adder", "add"]), table), Some(2));
    assert_eq!(resolve_export_path(&path(&["add"]), table), Some(3));
    assert_eq!(resolve_export_path(&path(&[]), table), None);
    // A missing step ends the search: "add" is not looked up at the top.
    assert_eq!(resolve_export_path(&path(&["missing", "add"]), table), None);
}

#[test]
fn export_paths() {
    assert_eq!(export_path(&ExportHandle::Name("run".to_string()), "\"run\"").unwrap(), vec!["run".to_string()]);
    let h = ExportHandle::Path(vec![Some("ns".to_string()), Some("f".to_string())]);
    assert_eq!(export_path(&h, "[\"ns\", \"f\"]").unwrap(), vec!["ns".to_string(), "f".to_string()]);
    let bad = ExportHandle::Path(vec![Some("ns".to_string()), None]);
    let e = export_path(&bad, "[\"ns\", 1]").unwrap_err();
    assert_eq!(
        message(&e),
        (
            ErrorClass::Type,
            "invalid argument for component index, expected String | Array<String>, got [\"ns\", 1]".to_string()
        )
    );
    assert!(export_path(&ExportHandle::Other, "1").is_err());
}

fn integer_input(i: i128) -> RbInput {
    let no = || RbError::Error { class: ErrorClass::Type, message: "no".to_string() };
    RbInput {
        kind: RbKind::Other,
        classname: "Integer".to_string(),
        inspect: i.to_string(),
        as_s8: i8::try_from(i).map_err(|_| no()),
        as_u8: u8::try_from(i).map_err(|_| no()),
        as_s16: Err(no()),
        as_u16: Err(no()),
        as_s32: i32::try_from(i).map_err(|_| no()),
        as_u32: Err(no()),
        as_s64: Err(no()),
        as_u64: Err(no()),
        as_f32: Err(no()),
        as_f64: Err(no()),
        as_char: Err(no()),
        as_string: Err(no()),
        as_flags: Err(no()),
        as_array: Err(no()),
        as_hash: Err(no()),
        variant_name: Err(no()),
        variant_value: Err(no()),
        is_ok: Err(no()),
        ok_value: Err(no()),
        error_value: Err(no()),
    }
}

#[test]
fn host_functions_of_component_linkers() {
    assert_eq!(host_result_outcome(Ok(integer_input(3)), &vec![]).unwrap(), None);
    assert_eq!(
        host_result_outcome(Ok(integer_input(3)), &vec![ComponentType::S32]).unwrap(),
        Some(ComponentVal::S32(3))
    );
    let e = host_result_outcome(Ok(integer_input(3)), &vec![ComponentType::S32, ComponentType::S32]).unwrap_err();
    assert_eq!(message(&e), (ErrorClass::Runtime, "unexpected number of results: 2".to_string()));
    let e = host_result_outcome(Err(type_error("raised")), &vec![ComponentType::S32]).unwrap_err();
    assert_eq!(message(&e), (ErrorClass::Type, "raised".to_string()));
    let raised = RbError::Exception { class: ErrorClass::Foreign(42), message: "boom".to_string() };
    assert_eq!(host_result_outcome(Err(raised.clone()), &vec![]).unwrap_err(), raised);
    assert_eq!(
        host_params_to_rb(&vec![ComponentVal::Bool(true)]).unwrap(),
        vec![RbOutput::Bool(true)]
    );
    assert_eq!(
        host_params_to_rb(&vec![ComponentVal::U8(1), ComponentVal::Resource]).unwrap_err(),
        "failed to convert parameter at index 1: Resource not implemented"
    );
}

#[test]
fn compatibility_keys_are_lowercase_hex() {
    assert_eq!(compatibility_key(0xdead_beef), "deadbeef");
    assert_eq!(compatibility_key(0), "0");
}

#[test]
fn invoke_needs_a_name_and_a_function() {

    let args = vec!["run", "x", "y"];
    let (name, rest) = invoke_name(&args).unwrap();
    assert_eq!(*name, "run");
    assert_eq!(rest, vec!["x", "y"]);
    let one = vec!["only"];
    let (name, rest) = invoke_name(&one).unwrap();
    assert_eq!((*name, rest), ("only", Vec::<&str>::new()));
    let e = invoke_name::<&str>(&vec![]).unwrap_err();
    assert_eq!(message(&e), (ErrorClass::Type, "wrong number of arguments (given 0, expected 1+)".to_string()));
    assert_eq!(exported_func(Some(3u8), "f").unwrap(), 3);
    let e = exported_func::<u8>(None, "main").unwrap_err();
    assert_eq!(message(&e), (ErrorClass::Base, "function \"main\" not found".to_string()));
}
