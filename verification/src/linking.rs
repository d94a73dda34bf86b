//! Linking and instantiation: the WASI requirements checked before an
//! instantiation, the paths of component exports, the host functions that
//! a component linker defines, and the engine's compatibility key.
use vstd::prelude::*;
use crate::component_type::ComponentType;
use crate::component_value::{
    component_val_to_rb, to_rb, to_val, val_view, vals_view, ComponentVal, OutModel, RbInput,
    RbOutput, ValModel,
};
use crate::errors::{err_view, is_error, ErrView, ErrorClass, RbError};
use crate::text::{decimal, format_decimal, format_hex_lower, hex_lower};

verus! {

/// The message of the error for a core linker with WASI and a store
/// without a WASI context.
pub open spec fn missing_wasi_ctx_message() -> Seq<char> {
    "Store is missing WASI configuration.\n\nWhen using `wasi: true`, the Store given to\n`Linker#instantiate` must have a WASI configuration.\nTo fix this, provide the `wasi_ctx` when creating the Store:\nWasmtime::Store.new(engine, wasi_ctx: WasiCtxBuilder.new)"@
}

/// The message of the error for a WASI command whose linker has WASI and
/// whose store has no WASI configuration.
pub open spec fn missing_wasi_config_message() -> Seq<char> {
    "Store is missing WASI configuration.\n\nWhen using `wasi: true`, the Store given to\n`Linker#instantiate` must have a WASI configuration.\nTo fix this, provide the `wasi_config` when creating the Store:\nWasmtime::Store.new(engine, wasi_config: WasiConfig.new)"@
}

/// Checks, before a core linker instantiates a module, that a store used
/// with a WASI linker has a WASI context.
pub fn require_wasi_ctx(linker_has_wasi: bool, store_has_wasi: bool) -> (r: Result<(), RbError>)
    ensures
        r is Err <==> linker_has_wasi && !store_has_wasi,
        r is Err ==> is_error(r->Err_0, ErrorClass::Base, missing_wasi_ctx_message()),
{
    if linker_has_wasi && !store_has_wasi {
        return Err(RbError::Error {
            class: ErrorClass::Base,
            message: String::from_str(
                "Store is missing WASI configuration.\n\nWhen using `wasi: true`, the Store given to\n`Linker#instantiate` must have a WASI configuration.\nTo fix this, provide the `wasi_ctx` when creating the Store:\nWasmtime::Store.new(engine, wasi_ctx: WasiCtxBuilder.new)",
            ),
        });
    }
    Ok(())
}

/// Checks, before a WASI command is instantiated, that a store used with
/// a WASI linker has a WASI configuration.
pub fn require_wasi_config(linker_has_wasi: bool, store_has_wasi: bool) -> (r: Result<(), RbError>)
    ensures
        r is Err <==> linker_has_wasi && !store_has_wasi,
        r is Err ==> is_error(r->Err_0, ErrorClass::Base, missing_wasi_config_message()),
{
    if linker_has_wasi && !store_has_wasi {
        return Err(RbError::Error {
            class: ErrorClass::Base,
            message: String::from_str(
                "Store is missing WASI configuration.\n\nWhen using `wasi: true`, the Store given to\n`Linker#instantiate` must have a WASI configuration.\nTo fix this, provide the `wasi_config` when creating the Store:\nWasmtime::Store.new(engine, wasi_config: WasiConfig.new)",
            ),
        });
    }
    Ok(())
}

/// The handle Ruby code names a component export by: a name, an `Array`
/// whose items are names (`None` for an item that is no `String`), or any
/// other object. Each comes with the `inspect` of the whole handle.
pub enum ExportHandle {
    Name(String),
    Path(Vec<Option<String>>),
    Other,
}

/// The message of the error for an invalid export handle.
pub open spec fn invalid_index_message(inspect: Seq<char>) -> Seq<char> {
    "invalid argument for component index, expected String | Array<String>, got "@ + inspect
}

/// The names along the path that a handle gives, or `None` when it is
/// neither a `String` nor an `Array` of `String`s.
pub open spec fn export_path_of(h: ExportHandle) -> Option<Seq<Seq<char>>> {
    match h {
        ExportHandle::Name(n) => Some(seq![n@]),
        ExportHandle::Path(items) => if forall|i: int| 0 <= i < items@.len() ==> (#[trigger] items@[i]) is Some {
            Some(items@.map_values(|x: Option<String>| x->Some_0@))
        } else {
            None
        },
        ExportHandle::Other => None,
    }
}

/// The names along the path to a component export, each looked up within
/// the export found before it; a `TypeError` for any other handle.
#[verifier::loop_isolation(false)]
pub fn export_path(handle: &ExportHandle, inspect: &str) -> (r: Result<Vec<String>, RbError>)
    ensures
        match export_path_of(*handle) {
            Some(p) => r matches Ok(v) && v@.map_values(|s: String| s@) == p,
            None => r is Err && is_error(r->Err_0, ErrorClass::Type, invalid_index_message(inspect@)),
        },
{
    match handle {
        ExportHandle::Name(n) => {
            let mut v: Vec<String> = Vec::new();
            v.push(n.clone());
            assert(v@.map_values(|s: String| s@) =~= seq![n@]);
            Ok(v)
        },
        ExportHandle::Path(items) => {
            let mut v: Vec<String> = Vec::new();
            let mut i: usize = 0;
            while i < items.len()
                invariant
                    i <= items@.len(),
                    v@.len() == i,
                    forall|j: int| 0 <= j < i ==> (#[trigger] items@[j]) is Some && v@[j]@ == items@[j]->Some_0@,
                decreases items@.len() - i,
            {
                match &items[i] {
                    Some(n) => v.push(n.clone()),
                    None => {
                        assert(items@[i as int] is None);
                        let mut m = String::from_str(
                            "invalid argument for component index, expected String | Array<String>, got ",
                        );
                        m.append(inspect);
                        return Err(RbError::Error { class: ErrorClass::Type, message: m });
                    },
                }
                i = i + 1;
            }
            assert(v@.map_values(|s: String| s@) =~= items@.map_values(|x: Option<String>| x->Some_0@));
            Ok(v)
        },
        ExportHandle::Other => {
            let mut m = String::from_str(
                "invalid argument for component index, expected String | Array<String>, got ",
            );
            m.append(inspect);
            Err(RbError::Error { class: ErrorClass::Type, message: m })
        },
    }
}

/// What the step before a lookup found: nothing for the first name (the
/// lookup starts at the instance's top level), else the previous export.
pub open spec fn found_before<I>(found: Seq<I>) -> Option<I> {
    if found.len() == 0 {
        None
    } else {
        Some(found.last())
    }
}

/// Whether `found` are the exports that looking the names of `path` up one
/// after the other gave: each within the export found before it.
pub open spec fn path_steps<I, F: Fn(Option<I>, &String) -> Option<I>>(lookup: F, path: Seq<String>, found: Seq<I>) -> bool {
    &&& found.len() <= path.len()
    &&& forall|i: int| 0 <= i < found.len() ==> #[trigger] lookup.ensures(
        (found_before(found.take(i)), &path[i]),
        Some(found[i]),
    )
}

/// Resolves a path of export names: the first name is looked up at the
/// instance's top level, each further name within the export found before
/// it. A name that is not found ends the search with nothing, as does an
/// empty path.
pub fn resolve_export_path<I: Copy, F: Fn(Option<I>, &String) -> Option<I>>(path: &Vec<String>, lookup: F) -> (r: Option<I>)
    requires
        forall|prev: Option<I>, name: &String| #[trigger] lookup.requires((prev, name)),
    ensures
        path@.len() == 0 ==> r is None,
        r matches Some(x) ==> exists|found: Seq<I>| #![trigger path_steps(lookup, path@, found)]
            found.len() == path@.len() && path_steps(lookup, path@, found) && found.last() == x,
        (r is None && path@.len() > 0) ==> exists|found: Seq<I>| #![trigger path_steps(lookup, path@, found)]
            found.len() < path@.len() && path_steps(lookup, path@, found)
            && lookup.ensures((found_before(found), &path@[found.len() as int]), None),
{
    let mut current: Option<I> = None;
    let ghost mut found: Seq<I> = Seq::empty();
    let mut i: usize = 0;
    while i < path.len()
        invariant
            forall|prev: Option<I>, name: &String| #[trigger] lookup.requires((prev, name)),
            i <= path@.len(),
            found.len() == i,
            path_steps(lookup, path@, found),
            current == found_before(found),
        decreases path@.len() - i,
    {
        let next = lookup(current, &path[i]);
        match next {
            Some(x) => {
                proof {
                    let old_found = found;
                    found = found.push(x);
                    assert(found.take(i as int) =~= old_found);
                    assert forall|j: int| 0 <= j < found.len() implies #[trigger] lookup.ensures(
                        (found_before(found.take(j)), &path@[j]),
                        Some(found[j]),
                    ) by {
                        if j < i {
                            assert(found.take(j) =~= old_found.take(j));
                        }
                    }
                }
                current = Some(x);
            },
            None => {
                proof {
                    assert(path_steps(lookup, path@, found));
                }
                return None;
            },
        }
        i = i + 1;
    }
    proof {
        if path@.len() > 0 {
            assert(path_steps(lookup, path@, found));
        }
    }
    current
}

/// The message of an error, as text.
pub open spec fn error_text(e: RbError) -> Seq<char> {
    match e {
        RbError::Error { message, .. } => message@,
        RbError::Exception { message, .. } => message@,
        RbError::Jump => Seq::empty(),
    }
}

/// The message of the failure for a parameter of a host function that
/// does not convert to Ruby.
pub open spec fn param_failure_message(index: nat, error: Seq<char>) -> Seq<char> {
    "failed to convert parameter at index "@ + decimal(index) + ": "@ + error
}

/// The Ruby objects for the parameters of a host function, in order; the
/// first failure's message, if any.
pub open spec fn host_params(ps: Seq<ValModel>) -> Result<Seq<OutModel>, Seq<char>>
    decreases ps.len(),
{
    if ps.len() == 0 {
        Ok(Seq::empty())
    } else {
        match host_params(ps.drop_last()) {
            Err(m) => Err(m),
            Ok(os) => match to_rb(ps.last()) {
                Ok(o) => Ok(os.push(o)),
                Err(e) => Err(param_failure_message((ps.len() - 1) as nat, match e {
                    ErrView::Raised(_, m) => m,
                    ErrView::Jump => Seq::empty(),
                })),
            },
        }
    }
}

proof fn lemma_host_params_prefix(ps: Seq<ComponentVal>, k: int)
    requires
        0 <= k <= ps.len(),
        host_params(vals_view(ps.take(k))) is Err,
    ensures
        host_params(vals_view(ps)) == host_params(vals_view(ps.take(k))),
    decreases ps.len(),
{
    if ps.len() == k {
        assert(ps.take(k) =~= ps);
    } else {
        assert(ps.drop_last().take(k) =~= ps.take(k));
        assert(vals_view(ps).drop_last() =~= vals_view(ps.drop_last()));
        lemma_host_params_prefix(ps.drop_last(), k);
    }
}

fn error_message(e: &RbError) -> (s: String)
    ensures
        s@ == error_text(*e),
{
    match e {
        RbError::Error { message, .. } => message.clone(),
        RbError::Exception { message, .. } => message.clone(),
        RbError::Jump => String::new(),
    }
}

/// Converts the parameters of a host function of a component linker to
/// the Ruby objects its block is called with.
#[verifier::loop_isolation(false)]
pub fn host_params_to_rb(params: &Vec<ComponentVal>) -> (r: Result<Vec<RbOutput>, String>)
    ensures
        match r {
            Ok(os) => host_params(vals_view(params@)) == Ok::<Seq<OutModel>, Seq<char>>(crate::component_value::outs_view(os@)),
            Err(m) => host_params(vals_view(params@)) == Err::<Seq<OutModel>, Seq<char>>(m@),
        },
{
    let mut out: Vec<RbOutput> = Vec::new();
    let mut i: usize = 0;
    assert(params@.take(0) =~= Seq::<ComponentVal>::empty());
    while i < params.len()
        invariant
            i <= params@.len(),
            host_params(vals_view(params@.take(i as int))) == Ok::<Seq<OutModel>, Seq<char>>(crate::component_value::outs_view(out@)),
        decreases params@.len() - i,
    {
        assert(params@.take(i + 1).drop_last() =~= params@.take(i as int));
        assert(vals_view(params@.take(i + 1)).drop_last() =~= vals_view(params@.take(i as int)));
        assert(params@.take(i + 1).last() == params@[i as int]);
        assert(vals_view(params@.take(i + 1)).last() == val_view(params@[i as int]));
        assert(vals_view(params@.take(i + 1)).len() > 0);
        match component_val_to_rb(&params[i]) {
            Ok(o) => {
                proof {
                    assert(out@.push(o).drop_last() =~= out@);
                }
                out.push(o);
            },
            Err(e) => {
                let mut m = String::from_str("failed to convert parameter at index ");
                m.append(format_decimal(i as u64).as_str());
                m.append(": ");
                let t = error_message(&e);
                m.append(t.as_str());
                proof {
                    let pv = vals_view(params@.take(i + 1));
                    crate::component_value::lemma_vals_len(params@.take(i + 1));
                    assert(to_rb(pv.last()) == Err::<OutModel, ErrView>(err_view(e)));
                    assert(host_params(pv.drop_last()) == Ok::<Seq<OutModel>, Seq<char>>(crate::component_value::outs_view(out@)));
                    assert(host_params(pv) == Err::<Seq<OutModel>, Seq<char>>(m@));
                    lemma_host_params_prefix(params@, i + 1);
                }
                return Err(m);
            },
        }
        i = i + 1;
    }
    assert(params@.take(params@.len() as int) =~= params@);
    Ok(out)
}

/// The message of the error for a host function with several results.
pub open spec fn results_arity_message(n: nat) -> Seq<char> {
    "unexpected number of results: "@ + decimal(n)
}

/// What a host function of a component linker returns, from what its block
/// returned (or raised) and the function's result types.
pub open spec fn host_result(answer: Result<RbInput, RbError>, results: Seq<ComponentType>) -> Result<Option<ValModel>, ErrView> {
    match answer {
        Err(e) => Err(err_view(e)),
        Ok(v) => if results.len() == 0 {
            Ok(None)
        } else if results.len() == 1 {
            match to_val(v, results[0]) {
                Ok(x) => Ok(Some(x)),
                Err(e) => Err(e),
            }
        } else {
            Err(ErrView::Raised(ErrorClass::Runtime, results_arity_message(results.len())))
        },
    }
}

/// Decides what a host function of a component linker returns: the error
/// its block raised; nothing for no result; its value converted to the one
/// result type; a `RuntimeError` for more results, which WIT never has.
pub fn host_result_outcome(answer: Result<RbInput, RbError>, results: &Vec<ComponentType>) -> (r: Result<Option<ComponentVal>, RbError>)
    ensures
        answer is Err ==> r == Err::<Option<ComponentVal>, RbError>(answer->Err_0),
        match r {
            Ok(None) => host_result(answer, results@) == Ok::<Option<ValModel>, ErrView>(None),
            Ok(Some(v)) => host_result(answer, results@) == Ok::<Option<ValModel>, ErrView>(Some(val_view(v))),
            Err(e) => host_result(answer, results@) == Err::<Option<ValModel>, ErrView>(err_view(e)),
        },
{
    let v = match answer {
        Err(e) => return Err(e),
        Ok(v) => v,
    };
    if results.len() == 0 {
        Ok(None)
    } else if results.len() == 1 {
        match crate::component_value::rb_to_component_val(&v, &results[0]) {
            Ok(x) => Ok(Some(x)),
            Err(e) => Err(e),
        }
    } else {
        let mut m = String::from_str("unexpected number of results: ");
        m.append(format_decimal(results.len() as u64).as_str());
        Err(RbError::Error { class: ErrorClass::Runtime, message: m })
    }
}

/// The engine's precompilation compatibility key: the hash of its settings
/// in lowercase hexadecimal.
pub fn compatibility_key(hash: u64) -> (s: String)
    ensures
        s@ == hex_lower(hash as nat),
{
    format_hex_lower(hash)
}

} // verus!
