//! Handles whose target lives only for a while: the `Caller` of a host
//! function (valid during the call), the `LinkerInstance` of a block (valid
//! inside the block) and a component `Resource` (valid until dropped).
//! Once expired, every use of a handle fails with an error.
use vstd::prelude::*;
use vstd::string::*;
use crate::errors::{is_error, ErrorClass, RbError};

verus! {

/// The message of the error for a `Caller` used after its call returned.
pub open spec fn caller_expired_message() -> Seq<char> {
    "Caller outlived its Func execution"@
}

/// The message of the error for a `LinkerInstance` used after its block.
pub open spec fn instance_expired_message() -> Seq<char> {
    "LinkerInstance went out of scope"@
}

/// The message of the error for a resource used after it was dropped.
pub open spec fn resource_dropped_message() -> Seq<char> {
    "Resource has already been dropped"@
}

/// A handle on the caller of a host function, valid until it expires.
pub struct CallerHandle<T> {
    caller: Option<T>,
}

impl<T> CallerHandle<T> {
    /// The caller, while the handle is live.
    pub closed spec fn target(&self) -> Option<T> {
        self.caller
    }

    pub fn new(caller: T) -> (h: Self)
        ensures
            h.target() == Some(caller),
    {
        CallerHandle { caller: Some(caller) }
    }

    /// The caller, or the error for a handle that outlived its call.
    pub fn get(&self) -> (r: Result<&T, RbError>)
        ensures
            match self.target() {
                Some(c) => r == Ok::<&T, RbError>(&c),
                None => r is Err && is_error(r->Err_0, ErrorClass::Base, caller_expired_message()),
            },
    {
        match &self.caller {
            Some(c) => Ok(c),
            None => Err(RbError::Error {
                class: ErrorClass::Base,
                message: String::from_str("Caller outlived its Func execution"),
            }),
        }
    }

    /// The caller, to act through it, or the error for a handle that
    /// outlived its call.
    pub fn get_mut(&mut self) -> (r: Result<&mut T, RbError>)
        ensures
            match old(self).target() {
                Some(c) => r matches Ok(m) && *m == c && final(self).target() == Some(*final(m)),
                None => r is Err && is_error(r->Err_0, ErrorClass::Base, caller_expired_message())
                    && final(self).target() is None,
            },
    {
        match &mut self.caller {
            Some(c) => Ok(c),
            None => Err(RbError::Error {
                class: ErrorClass::Base,
                message: String::from_str("Caller outlived its Func execution"),
            }),
        }
    }

    /// Ends the handle's life: every later use fails.
    pub fn expire(&mut self)
        ensures
            final(self).target() is None,
    {
        self.caller = None;
    }
}

/// A linker instance that a block configures, usable until the block ends.
pub struct MaybeInstance<T> {
    instance: Option<T>,
}

impl<T> MaybeInstance<T> {
    /// The instance, while it is in scope.
    pub closed spec fn target(&self) -> Option<T> {
        self.instance
    }

    pub fn new(instance: T) -> (m: Self)
        ensures
            m.target() == Some(instance),
    {
        MaybeInstance { instance: Some(instance) }
    }

    /// The instance, or the error for one that went out of scope.
    pub fn get_mut(&mut self) -> (r: Result<&mut T, RbError>)
        ensures
            match old(self).target() {
                Some(i) => r matches Ok(m) && *m == i && final(self).target() == Some(*final(m)),
                None => r is Err && is_error(r->Err_0, ErrorClass::Base, instance_expired_message())
                    && final(self).target() is None,
            },
    {
        match &mut self.instance {
            Some(i) => Ok(i),
            None => Err(RbError::Error {
                class: ErrorClass::Base,
                message: String::from_str("LinkerInstance went out of scope"),
            }),
        }
    }

    /// Takes the instance out: it is out of scope from now on.
    pub fn expire(&mut self) -> (r: Option<T>)
        ensures
            r == old(self).target(),
            final(self).target() is None,
    {
        let mut taken: Option<T> = None;
        std::mem::swap(&mut taken, &mut self.instance);
        taken
    }
}

/// A component resource, usable until it is dropped.
pub struct ResourceHandle<T: Copy> {
    inner: Option<T>,
}

impl<T: Copy> ResourceHandle<T> {
    /// The resource, until it is dropped.
    pub closed spec fn target(&self) -> Option<T> {
        self.inner
    }

    pub fn new(resource: T) -> (h: Self)
        ensures
            h.target() == Some(resource),
    {
        ResourceHandle { inner: Some(resource) }
    }

    /// The resource, or the error for a dropped one.
    pub fn get(&self) -> (r: Result<T, RbError>)
        ensures
            match self.target() {
                Some(t) => r == Ok::<T, RbError>(t),
                None => r is Err && is_error(r->Err_0, ErrorClass::Base, resource_dropped_message()),
            },
    {
        match self.inner {
            Some(t) => Ok(t),
            None => Err(RbError::Error {
                class: ErrorClass::Base,
                message: String::from_str("Resource has already been dropped"),
            }),
        }
    }

    /// Takes the resource out to drop it, or the error for a resource
    /// already dropped. Either way it is dropped afterwards.
    pub fn take_for_drop(&mut self) -> (r: Result<T, RbError>)
        ensures
            match old(self).target() {
                Some(t) => r == Ok::<T, RbError>(t),
                None => r is Err && is_error(r->Err_0, ErrorClass::Base, resource_dropped_message()),
            },
            final(self).target() is None,
    {
        match self.inner {
            Some(t) => {
                self.inner = None;
                Ok(t)
            },
            None => Err(RbError::Error {
                class: ErrorClass::Base,
                message: String::from_str("Resource has already been dropped"),
            }),
        }
    }
}

/// The path of a nested linker instance: the name under the root, else
/// the parent's path, a slash and the name.
pub open spec fn nested_path_of(parent: Seq<char>, name: Seq<char>) -> Seq<char> {
    if parent.len() == 0 {
        name
    } else {
        parent + "/"@ + name
    }
}

/// The path of the instance `name` nested in the instance at `parent`.
pub fn nested_path(parent: &str, name: &str) -> (p: String)
    ensures
        p@ == nested_path_of(parent@, name@),
{
    if parent.unicode_len() == 0 {
        String::from_str(name)
    } else {
        let mut p = String::from_str(parent);
        p.append("/");
        p.append(name);
        p
    }
}

} // verus!
