//! The decisions around calls of WebAssembly functions from Ruby and of
//! Ruby blocks from WebAssembly: how many arguments and results there must
//! be, which conversion error is reported and how it is worded.
//!
//! The values themselves (of any type `V`) are converted by Ruby and
//! Wasmtime; the functions here take the outcome of each conversion.
use vstd::prelude::*;
use crate::component_value::{arity_message, param_context};
use crate::errors::{err_view, with_context, ErrView, ErrorClass, ExceptionMessage, RbError};
use crate::text::{decimal, format_decimal};

verus! {

/// Checks the number of arguments of a call against the number of
/// parameters: an `ArgumentError` when they differ.
pub fn check_param_count(given: usize, expected: usize) -> (r: Result<(), RbError>)
    ensures
        given == expected ==> r is Ok,
        given != expected ==> (r is Err && err_view(r->Err_0)
            == ErrView::Raised(ErrorClass::Argument, arity_message(given as nat, expected as nat))),
{
    if given != expected {
        let mut m = String::from_str("wrong number of arguments (given ");
        m.append(format_decimal(given as u64).as_str());
        m.append(", expected ");
        m.append(format_decimal(expected as u64).as_str());
        m.append(")");
        return Err(RbError::Error { class: ErrorClass::Argument, message: m });
    }
    Ok(())
}

/// The converted arguments, in order, or the first conversion's error with
/// the argument's index; `too many params` past the last `u32` index.
pub open spec fn params_outcome<V>(converted: Seq<Result<V, RbError>>) -> Result<Seq<V>, ErrView>
    decreases converted.len(),
{
    if converted.len() == 0 {
        Ok(Seq::empty())
    } else {
        match params_outcome(converted.drop_last()) {
            Err(e) => Err(e),
            Ok(vs) => if converted.len() - 1 > u32::MAX {
                Err(ErrView::Raised(ErrorClass::Argument, "too many params"@))
            } else {
                match converted.last() {
                    Ok(v) => Ok(vs.push(v)),
                    Err(e) => Err(with_context(err_view(e), param_context((converted.len() - 1) as nat))),
                }
            },
        }
    }
}

/// The value of a sequence's outcome.
pub open spec fn seq_outcome<V>(r: Result<Vec<V>, RbError>) -> Result<Seq<V>, ErrView> {
    match r {
        Ok(vs) => Ok(vs@),
        Err(e) => Err(err_view(e)),
    }
}

proof fn lemma_params_prefix_err<V>(converted: Seq<Result<V, RbError>>, k: int)
    requires
        0 <= k <= converted.len(),
        params_outcome(converted.take(k)) is Err,
    ensures
        params_outcome(converted) == params_outcome(converted.take(k)),
    decreases converted.len(),
{
    if converted.len() == k {
        assert(converted.take(k) =~= converted);
    } else {
        assert(converted.drop_last().take(k) =~= converted.take(k));
        lemma_params_prefix_err(converted.drop_last(), k);
    }
}

/// Collects the arguments of a call of a WebAssembly function, each
/// converted to its parameter's type.
#[verifier::loop_isolation(false)]
pub fn collect_params<V>(converted: Vec<Result<V, RbError>>) -> (r: Result<Vec<V>, RbError>)
    ensures
        seq_outcome(r) == params_outcome(converted@),
{
    let ghost all = converted@;
    let total = converted.len();
    assert(all.len() == total);
    let mut rest = converted;
    let mut out: Vec<V> = Vec::new();
    let mut i: usize = 0;
    assert(all.take(0) =~= Seq::<Result<V, RbError>>::empty());
    while rest.len() > 0
        invariant
            i + rest@.len() == all.len(),
            all.len() <= usize::MAX,
            rest@ == all.skip(i as int),
            params_outcome(all.take(i as int)) == Ok::<Seq<V>, ErrView>(out@),
        decreases rest@.len(),
    {
        assert(all.take(i + 1).drop_last() =~= all.take(i as int));
        assert(all.take(i + 1).last() == all[i as int]);
        assert(rest@[0] == all[i as int]);
        if i > 4294967295 {
            proof { lemma_params_prefix_err(all, i + 1); }
            return Err(RbError::Error { class: ErrorClass::Argument, message: String::from_str("too many params") });
        }
        let item = rest.remove(0);
        assert(rest@ =~= all.skip(i + 1));
        match item {
            Ok(v) => {
                out.push(v);
            },
            Err(e) => {
                let mut ctx = String::from_str(" (param at index ");
                ctx.append(format_decimal(i as u64).as_str());
                ctx.append(")");
                let r = e.append(ctx.as_str());
                proof { lemma_params_prefix_err(all, i + 1); }
                return Err(r);
            },
        }
        i = i + 1;
    }
    assert(all.take(all.len() as int) =~= all);
    Ok(out)
}

/// The results of a call, as Ruby gets them: nothing, one value, or an
/// `Array` of values.
#[derive(Debug, PartialEq)]
pub enum Packed<V> {
    Nil,
    One(V),
    Many(Vec<V>),
}

/// Packs the results of a call: `nil` for none, the value for one, an
/// `Array` for more.
pub fn pack_results<V>(results: Vec<V>) -> (p: Packed<V>)
    ensures
        results@.len() == 0 ==> p is Nil,
        results@.len() == 1 ==> p == Packed::One(results@[0]),
        results@.len() > 1 ==> (p is Many && p->Many_0@ == results@),
{
    if results.len() == 0 {
        Packed::Nil
    } else if results.len() == 1 {
        let mut results = results;
        let v = results.remove(0);
        Packed::One(v)
    } else {
        Packed::Many(results)
    }
}

/// The message of the error for a block result that is no `Array`.
pub open spec fn not_array_message(callable: Seq<char>) -> Seq<char> {
    "could not convert "@ + callable + " to results array"@
}

/// The message of the error for a block with the wrong number of results.
pub open spec fn results_count_message(given: nat, expected: nat, callable: Seq<char>) -> Seq<char> {
    "wrong number of results (given "@ + decimal(given) + ", expected "@ + decimal(expected) + ") in "@ + callable
}

/// The message of the error for a result that does not convert.
pub open spec fn invalid_result_message(index: nat, error: Seq<char>, callable: Seq<char>) -> Seq<char> {
    "invalid result at index "@ + decimal(index) + ": "@ + error + " in "@ + callable
}

/// The converted results, or the first conversion's error (`ResultError`).
pub open spec fn converted_results<V>(converted: Seq<Result<V, String>>, callable: Seq<char>) -> Result<Seq<V>, ErrView>
    decreases converted.len(),
{
    if converted.len() == 0 {
        Ok(Seq::empty())
    } else {
        match converted_results(converted.drop_last(), callable) {
            Err(e) => Err(e),
            Ok(vs) => match converted.last() {
                Ok(v) => Ok(vs.push(v)),
                Err(m) => Err(ErrView::Raised(ErrorClass::Result,
                    invalid_result_message((converted.len() - 1) as nat, m@, callable))),
            },
        }
    }
}

/// What a Ruby block called from WebAssembly gives back, for `expected`
/// results: none is needed when none is expected; else the block's value
/// must be an `Array` (`given` is its length) of `expected` values, each of
/// which converts.
pub open spec fn block_results<V>(
    callable: Seq<char>,
    expected: nat,
    given: Option<nat>,
    converted: Seq<Result<V, String>>,
) -> Result<Seq<V>, ErrView> {
    if expected == 0 {
        Ok(Seq::empty())
    } else {
        match given {
            None => Err(ErrView::Raised(ErrorClass::Result, not_array_message(callable))),
            Some(n) => if n != expected {
                Err(ErrView::Raised(ErrorClass::Result, results_count_message(n, expected, callable)))
            } else {
                converted_results(converted, callable)
            },
        }
    }
}

proof fn lemma_results_prefix_err<V>(converted: Seq<Result<V, String>>, callable: Seq<char>, k: int)
    requires
        0 <= k <= converted.len(),
        converted_results(converted.take(k), callable) is Err,
    ensures
        converted_results(converted, callable) == converted_results(converted.take(k), callable),
    decreases converted.len(),
{
    if converted.len() == k {
        assert(converted.take(k) =~= converted);
    } else {
        assert(converted.drop_last().take(k) =~= converted.take(k));
        lemma_results_prefix_err(converted.drop_last(), callable, k);
    }
}

/// Decides what a Ruby block called from WebAssembly returned: the
/// results to hand back, or the `ResultError` to raise. `callable` is the
/// block's `to_s`; `given` the length of the `Array` it returned (`None`
/// when it returned no `Array`); `converted` the conversion of each of its
/// items to the result's type, in order.
#[verifier::loop_isolation(false)]
pub fn block_results_outcome<V>(
    callable: &str,
    expected: usize,
    given: Option<usize>,
    converted: Vec<Result<V, String>>,
) -> (r: Result<Vec<V>, RbError>)
    requires
        given == Some(expected) ==> converted@.len() == expected,
    ensures
        seq_outcome(r) == block_results(callable@, expected as nat, match given {
            Some(n) => Some(n as nat),
            None => None,
        }, converted@),
{
    if expected == 0 {
        return Ok(Vec::new());
    }
    let n = match given {
        None => {
            let mut m = String::from_str("could not convert ");
            m.append(callable);
            m.append(" to results array");
            return Err(RbError::Error { class: ErrorClass::Result, message: m });
        },
        Some(n) => n,
    };
    if n != expected {
        let mut m = String::from_str("wrong number of results (given ");
        m.append(format_decimal(n as u64).as_str());
        m.append(", expected ");
        m.append(format_decimal(expected as u64).as_str());
        m.append(") in ");
        m.append(callable);
        return Err(RbError::Error { class: ErrorClass::Result, message: m });
    }
    let ghost all = converted@;
    let total = converted.len();
    assert(all.len() == total);
    let mut rest = converted;
    let mut out: Vec<V> = Vec::new();
    let mut i: usize = 0;
    assert(all.take(0) =~= Seq::<Result<V, String>>::empty());
    while rest.len() > 0
        invariant
            i + rest@.len() == all.len(),
            all.len() <= usize::MAX,
            rest@ == all.skip(i as int),
            converted_results(all.take(i as int), callable@) == Ok::<Seq<V>, ErrView>(out@),
        decreases rest@.len(),
    {
        assert(all.take(i + 1).drop_last() =~= all.take(i as int));
        assert(all.take(i + 1).last() == all[i as int]);
        assert(rest@[0] == all[i as int]);
        let item = rest.remove(0);
        assert(rest@ =~= all.skip(i + 1));
        match item {
            Ok(v) => {
                out.push(v);
            },
            Err(e) => {
                let mut m = String::from_str("invalid result at index ");
                m.append(format_decimal(i as u64).as_str());
                m.append(": ");
                m.append(e.as_str());
                m.append(" in ");
                m.append(callable);
                proof { lemma_results_prefix_err(all, callable@, i + 1); }
                return Err(RbError::Error { class: ErrorClass::Result, message: m });
            },
        }
        i = i + 1;
    }
    assert(all.take(all.len() as int) =~= all);
    Ok(out)
}

/// The message of the error for an argument of a block that does not
/// convert to Ruby.
pub open spec fn invalid_argument_message(index: nat, error: Seq<char>) -> Seq<char> {
    "invalid argument at index "@ + decimal(index) + ": "@ + error
}

/// The converted arguments of a block, or the first error's message.
pub open spec fn block_args<V>(converted: Seq<Result<V, String>>) -> Result<Seq<V>, Seq<char>>
    decreases converted.len(),
{
    if converted.len() == 0 {
        Ok(Seq::empty())
    } else {
        match block_args(converted.drop_last()) {
            Err(e) => Err(e),
            Ok(vs) => match converted.last() {
                Ok(v) => Ok(vs.push(v)),
                Err(m) => Err(invalid_argument_message((converted.len() - 1) as nat, m@)),
            },
        }
    }
}

proof fn lemma_args_prefix_err<V>(converted: Seq<Result<V, String>>, k: int)
    requires
        0 <= k <= converted.len(),
        block_args(converted.take(k)) is Err,
    ensures
        block_args(converted) == block_args(converted.take(k)),
    decreases converted.len(),
{
    if converted.len() == k {
        assert(converted.take(k) =~= converted);
    } else {
        assert(converted.drop_last().take(k) =~= converted.take(k));
        lemma_args_prefix_err(converted.drop_last(), k);
    }
}

/// Collects the arguments of a Ruby block called from WebAssembly, each
/// converted to Ruby, or the message of the first conversion's error.
#[verifier::loop_isolation(false)]
pub fn collect_block_args<V>(converted: Vec<Result<V, String>>) -> (r: Result<Vec<V>, String>)
    ensures
        match r {
            Ok(vs) => block_args(converted@) == Ok::<Seq<V>, Seq<char>>(vs@),
            Err(m) => block_args(converted@) == Err::<Seq<V>, Seq<char>>(m@),
        },
{
    let ghost all = converted@;
    let total = converted.len();
    assert(all.len() == total);
    let mut rest = converted;
    let mut out: Vec<V> = Vec::new();
    let mut i: usize = 0;
    assert(all.take(0) =~= Seq::<Result<V, String>>::empty());
    while rest.len() > 0
        invariant
            i + rest@.len() == all.len(),
            all.len() <= usize::MAX,
            rest@ == all.skip(i as int),
            block_args(all.take(i as int)) == Ok::<Seq<V>, Seq<char>>(out@),
        decreases rest@.len(),
    {
        assert(all.take(i + 1).drop_last() =~= all.take(i as int));
        assert(all.take(i + 1).last() == all[i as int]);
        assert(rest@[0] == all[i as int]);
        let item = rest.remove(0);
        assert(rest@ =~= all.skip(i + 1));
        match item {
            Ok(v) => {
                out.push(v);
            },
            Err(e) => {
                let mut m = String::from_str("invalid argument at index ");
                m.append(format_decimal(i as u64).as_str());
                m.append(": ");
                m.append(e.as_str());
                proof { lemma_args_prefix_err(all, i + 1); }
                return Err(m);
            },
        }
        i = i + 1;
    }
    assert(all.take(all.len() as int) =~= all);
    Ok(out)
}

/// The message of the error for `Instance#invoke` without a name.
pub open spec fn missing_name_message() -> Seq<char> {
    "wrong number of arguments (given 0, expected 1+)"@
}

/// The arguments of `Instance#invoke`: the name (its first argument) and
/// the arguments for the function (all the others, in order), or a
/// `TypeError` when there is none.
pub fn invoke_name<A: Copy>(args: &Vec<A>) -> (r: Result<(&A, Vec<A>), RbError>)
    ensures
        args@.len() > 0 ==> (r matches Ok((name, rest)) && *name == args@[0]
            && rest@ == args@.subrange(1, args@.len() as int)),
        args@.len() == 0 ==> r is Err && err_view(r->Err_0)
            == ErrView::Raised(ErrorClass::Type, missing_name_message()),
{
    if args.len() == 0 {
        return Err(RbError::Error {
            class: ErrorClass::Type,
            message: String::from_str("wrong number of arguments (given 0, expected 1+)"),
        });
    }
    let mut rest: Vec<A> = Vec::new();
    let mut i: usize = 1;
    while i < args.len()
        invariant
            1 <= i <= args@.len(),
            rest@ == args@.subrange(1, i as int),
        decreases args@.len() - i,
    {
        rest.push(args[i]);
        assert(args@.subrange(1, i + 1) =~= args@.subrange(1, i as int).push(args@[i as int]));
        i = i + 1;
    }
    Ok((&args[0], rest))
}

/// The message of the error for an instance without the named function.
pub open spec fn function_not_found_message(name: Seq<char>) -> Seq<char> {
    "function \""@ + name + "\" not found"@
}

/// The function an instance exports under `name`, or the error for an
/// instance without it.
pub fn exported_func<F>(found: Option<F>, name: &str) -> (r: Result<F, RbError>)
    ensures
        found is Some ==> r == Ok::<F, RbError>(found->Some_0),
        found is None ==> r is Err && err_view(r->Err_0)
            == ErrView::Raised(ErrorClass::Base, function_not_found_message(name@)),
{
    match found {
        Some(f) => Ok(f),
        None => {
            let mut m = String::from_str("function \"");
            m.append(name);
            m.append("\" not found");
            Err(RbError::Error { class: ErrorClass::Base, message: m })
        },
    }
}

} // verus!
