//! Enumerations that Ruby code names by symbols (`:i32`, `:speed`, ...).
use vstd::prelude::*;
use crate::errors::{is_error, ErrorClass, RbError};
use crate::text::{join, str_eq};

verus! {

/// An interned Ruby symbol, known by its name. Ruby gives equal names the
/// same ID, so two `StaticId`s denote the same symbol exactly when their
/// names are equal.
#[derive(Clone, Copy)]
pub struct StaticId {
    name: &'static str,
}

impl StaticId {
    /// The name of the symbol.
    pub closed spec fn spec_name(self) -> Seq<char> {
        self.name@
    }

    /// Interns the symbol with the given name.
    pub fn intern_str(id: &'static str) -> (s: StaticId)
        ensures
            s.spec_name() == id@,
    {
        StaticId { name: id }
    }

    /// The name of the symbol.
    pub fn name(&self) -> (n: &'static str)
        ensures
            n@ == self.spec_name(),
    {
        self.name
    }

    /// Whether this symbol is the symbol named `other`.
    pub fn eq_name(&self, other: &str) -> (r: bool)
        ensures
            r == (self.spec_name() == other@),
    {
        str_eq(self.name, other)
    }
}

/// A Ruby value offered where a symbol of an enumeration is expected: a
/// symbol with its name, or any other value. Both carry the text of their
/// `inspect`, which error messages quote.
pub enum Needle {
    Symbol { name: String, inspect: String },
    Other { inspect: String },
}

impl Needle {
    pub open spec fn symbol_name(self) -> Option<Seq<char>> {
        match self {
            Needle::Symbol { name, .. } => Some(name@),
            Needle::Other { .. } => None,
        }
    }

    pub open spec fn inspect_view(self) -> Seq<char> {
        match self {
            Needle::Symbol { inspect, .. } => inspect@,
            Needle::Other { inspect } => inspect@,
        }
    }
}

/// The list of valid symbols as `Array#inspect` shows it, e.g. `[:a, :b]`.
pub open spec fn mapping_display(names: Seq<Seq<char>>) -> Seq<char> {
    "["@ + join(names.map_values(|n: Seq<char>| ":"@ + n), ", "@) + "]"@
}

/// The message of the error for an invalid value.
pub open spec fn symbol_error_message(what: Seq<char>, names: Seq<Seq<char>>, got: Seq<char>) -> Seq<char> {
    "invalid "@ + what + ", expected one of "@ + mapping_display(names) + ", got "@ + got
}

/// The value paired with the first symbol named `name` in `m`, if any.
pub open spec fn lookup_in<T>(m: Seq<(StaticId, T)>, name: Seq<char>) -> Option<T>
    decreases m.len(),
{
    if m.len() == 0 {
        None
    } else if m[0].0.spec_name() == name {
        Some(m[0].1)
    } else {
        lookup_in(m.drop_first(), name)
    }
}

/// Represents an enum as a set of symbols (using `StaticId`). Each symbol
/// maps to a value of the enum's type.
pub struct SymbolEnum<'a, T: Copy> {
    what: &'a str,
    mapping: Vec<(StaticId, T)>,
}

impl<'a, T: Copy> SymbolEnum<'a, T> {
    /// What the enumeration describes, as error messages name it.
    pub closed spec fn spec_what(&self) -> Seq<char> {
        self.what@
    }

    /// The symbols and their values, in order.
    pub closed spec fn spec_mapping(&self) -> Seq<(StaticId, T)> {
        self.mapping@
    }

    /// The names of the symbols, in order.
    pub open spec fn names(&self) -> Seq<Seq<char>> {
        self.spec_mapping().map_values(|p: (StaticId, T)| p.0.spec_name())
    }

    /// The value of the first symbol named `name`, if any.
    pub open spec fn lookup(&self, name: Seq<char>) -> Option<T> {
        lookup_in(self.spec_mapping(), name)
    }

    /// The value that `needle` denotes, if it is one of the symbols.
    pub open spec fn found(&self, needle: &Needle) -> Option<T> {
        match needle.symbol_name() {
            Some(name) => self.lookup(name),
            None => None,
        }
    }

    pub fn new(what: &'a str, mapping: Vec<(StaticId, T)>) -> (s: Self)
        ensures
            s.spec_what() == what@,
            s.spec_mapping() == mapping@,
    {
        SymbolEnum { what, mapping }
    }

    /// Maps a Ruby value to the entry of the enumeration. Returns an
    /// `ArgumentError` whose message enumerates all valid symbols when
    /// `needle` isn't one of them.
    pub fn get(&self, needle: &Needle) -> (r: Result<T, RbError>)
        ensures
            self.found(needle) is Some ==> r == Ok::<T, RbError>(self.found(needle).unwrap()),
            self.found(needle) is None ==> (r is Err && is_error(r->Err_0, ErrorClass::Argument,
                symbol_error_message(self.spec_what(), self.names(), needle.inspect_view()))),
    {
        match needle {
            Needle::Symbol { name, inspect } => {
                let mut i: usize = 0;
                assert(self.mapping@.skip(0) =~= self.mapping@);
                while i < self.mapping.len()
                    invariant
                        i <= self.mapping@.len(),
                        needle.symbol_name() == Some(name@),
                        lookup_in(self.mapping@, name@) == lookup_in(self.mapping@.skip(i as int), name@),
                    decreases self.mapping@.len() - i,
                {
                    if self.mapping[i].0.eq_name(name.as_str()) {
                        assert(self.mapping@.skip(i as int)[0] == self.mapping@[i as int]);
                        return Ok(self.mapping[i].1);
                    }
                    assert(self.mapping@.skip(i as int).drop_first() =~= self.mapping@.skip(i + 1));
                    i = i + 1;
                }
                Err(self.error(inspect.as_str()))
            },
            Needle::Other { inspect } => Err(self.error(inspect.as_str())),
        }
    }

    /// The `ArgumentError` for an invalid value whose `inspect` is `got`.
    pub fn error(&self, got: &str) -> (e: RbError)
        ensures
            is_error(e, ErrorClass::Argument, symbol_error_message(self.spec_what(), self.names(), got@)),
    {
        let mut message = String::from_str("invalid ");
        message.append(self.what);
        message.append(", expected one of ");
        let shown = self.display_mapping();
        message.append(shown.as_str());
        message.append(", got ");
        message.append(got);
        RbError::Error { class: ErrorClass::Argument, message }
    }

    /// Mimics `Array#inspect`'s output with all valid symbols, e.g.
    /// `[:s1, :s2, :s3]`.
    pub fn display_mapping(&self) -> (s: String)
        ensures
            s@ == mapping_display(self.names()),
    {
        let ghost parts = self.names().map_values(|n: Seq<char>| ":"@ + n);
        let mut s = String::new();
        let mut i: usize = 0;
        while i < self.mapping.len()
            invariant
                i <= self.mapping@.len(),
                parts.len() == self.mapping@.len(),
                parts == self.names().map_values(|n: Seq<char>| ":"@ + n),
                self.names() == self.spec_mapping().map_values(|p: (StaticId, T)| p.0.spec_name()),
                s@ == join(parts.take(i as int), ", "@),
            decreases self.mapping@.len() - i,
        {
            if i > 0 {
                s.append(", ");
            }
            s.append(":");
            s.append(self.mapping[i].0.name());
            assert(parts.take(i + 1).drop_last() =~= parts.take(i as int));
            i = i + 1;
        }
        assert(parts.take(self.mapping@.len() as int) =~= parts);
        let mut r = String::from_str("[");
        r.append(s.as_str());
        r.append("]");
        r
    }
}

/// The names and values of a symbol enumeration, in order.
pub open spec fn entries<'a, T: Copy>(m: SymbolEnum<'a, T>) -> Seq<(Seq<char>, T)> {
    m.spec_mapping().map_values(|p: (StaticId, T)| (p.0.spec_name(), p.1))
}

/// The value paired with the first occurrence of `name`, if any.
pub open spec fn lookup_named<T>(es: Seq<(Seq<char>, T)>, name: Seq<char>) -> Option<T>
    decreases es.len(),
{
    if es.len() == 0 {
        None
    } else if es[0].0 == name {
        Some(es[0].1)
    } else {
        lookup_named(es.drop_first(), name)
    }
}

/// Looking a name up in an enumeration is looking it up in its entries.
pub proof fn lemma_lookup_entries<'a, T: Copy>(m: SymbolEnum<'a, T>, name: Seq<char>)
    ensures
        m.lookup(name) == lookup_named(entries(m), name),
        m.names() == entries(m).map_values(|e: (Seq<char>, T)| e.0),
{
    lemma_lookup_in_named(m.spec_mapping(), name);
    assert(m.names() =~= entries(m).map_values(|e: (Seq<char>, T)| e.0));
}

proof fn lemma_lookup_in_named<T>(ms: Seq<(StaticId, T)>, name: Seq<char>)
    ensures
        lookup_in(ms, name) == lookup_named(ms.map_values(|p: (StaticId, T)| (p.0.spec_name(), p.1)), name),
    decreases ms.len(),
{
    let es = ms.map_values(|p: (StaticId, T)| (p.0.spec_name(), p.1));
    if ms.len() > 0 {
        assert(es.drop_first() =~= ms.drop_first().map_values(|p: (StaticId, T)| (p.0.spec_name(), p.1)));
        lemma_lookup_in_named(ms.drop_first(), name);
    }
}

} // verus!
