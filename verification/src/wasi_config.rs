//! The WASI configuration that Ruby code assembles (`Wasmtime::WasiConfig`)
//! and the decisions made when a WASI context is built from it: which
//! streams, which permissions, and whether the network may be used.
//!
//! The configuration holds Ruby values (paths, strings, buffers, the
//! environment Hash, the argument Array, the permission symbols, a block)
//! by handles of type `R`, which the library only stores.
use vstd::prelude::*;
use crate::errors::{is_error, ErrorClass, RbError};
use crate::symbol_enum::{entries, StaticId, SymbolEnum};

verus! {

/// Permissions on the files of a preopened directory.
#[derive(Clone, Copy, Debug, PartialEq, Eq, Structural)]
pub enum FilePermsChoice {
    Read,
    Write,
    All,
}

/// Permissions on a preopened directory itself.
#[derive(Clone, Copy, Debug, PartialEq, Eq, Structural)]
pub enum DirPermsChoice {
    Read,
    Mutate,
    All,
}

/// The symbols for `file_perms`.
pub open spec fn file_perms_entries() -> Seq<(Seq<char>, FilePermsChoice)> {
    seq![("read"@, FilePermsChoice::Read), ("write"@, FilePermsChoice::Write), ("all"@, FilePermsChoice::All)]
}

/// The symbols for `dir_perms`.
pub open spec fn dir_perms_entries() -> Seq<(Seq<char>, DirPermsChoice)> {
    seq![("read"@, DirPermsChoice::Read), ("mutate"@, DirPermsChoice::Mutate), ("all"@, DirPermsChoice::All)]
}

/// The symbols that name file permissions.
pub fn file_perms_mapping() -> (m: SymbolEnum<'static, FilePermsChoice>)
    ensures
        m.spec_what() == ":file_perms"@,
        entries(m) == file_perms_entries(),
{
    let mut v: Vec<(StaticId, FilePermsChoice)> = Vec::new();
    v.push((StaticId::intern_str("read"), FilePermsChoice::Read));
    v.push((StaticId::intern_str("write"), FilePermsChoice::Write));
    v.push((StaticId::intern_str("all"), FilePermsChoice::All));
    let m = SymbolEnum::new(":file_perms", v);
    assert(entries(m) =~= file_perms_entries());
    m
}

/// The symbols that name directory permissions.
pub fn dir_perms_mapping() -> (m: SymbolEnum<'static, DirPermsChoice>)
    ensures
        m.spec_what() == ":dir_perms"@,
        entries(m) == dir_perms_entries(),
{
    let mut v: Vec<(StaticId, DirPermsChoice)> = Vec::new();
    v.push((StaticId::intern_str("read"), DirPermsChoice::Read));
    v.push((StaticId::intern_str("mutate"), DirPermsChoice::Mutate));
    v.push((StaticId::intern_str("all"), DirPermsChoice::All));
    let m = SymbolEnum::new(":dir_perms", v);
    assert(entries(m) =~= dir_perms_entries());
    m
}

/// Where standard input comes from.
#[derive(Clone, Copy)]
pub enum ReadStream<R> {
    Inherit,
    /// The file at a path.
    Path(R),
    /// The bytes of a string.
    String(R),
}

/// Where standard output or error goes.
#[derive(Clone, Copy)]
pub enum WriteStream<R> {
    Inherit,
    /// The file at a path.
    Path(R),
    /// A string buffer, with the capacity it may grow to.
    Buffer(R, usize),
}

/// A host directory made visible to the guest.
#[derive(Clone, Copy)]
pub struct MappedDirectory<R> {
    pub host_path: R,
    pub guest_path: R,
    pub dir_perms: R,
    pub file_perms: R,
}

/// The WASI configuration, as Ruby code assembles it.
pub struct WasiConfigState<R> {
    pub stdin: Option<ReadStream<R>>,
    pub stdout: Option<WriteStream<R>>,
    pub stderr: Option<WriteStream<R>>,
    pub env: Option<R>,
    pub args: Option<R>,
    pub deterministic: bool,
    pub mapped_directories: Vec<MappedDirectory<R>>,
    pub inherit_network: bool,
    pub allow_tcp: Option<bool>,
    pub allow_udp: Option<bool>,
    pub allow_ip_name_lookup: Option<bool>,
    pub socket_addr_check: Option<R>,
}

impl<R> WasiConfigState<R> {
    /// An empty configuration: nothing set, nothing allowed.
    pub fn new() -> (c: Self)
        ensures
            c.stdin is None,
            c.stdout is None,
            c.stderr is None,
            c.env is None,
            c.args is None,
            !c.deterministic,
            c.mapped_directories@ == Seq::<MappedDirectory<R>>::empty(),
            !c.inherit_network,
            c.allow_tcp is None,
            c.allow_udp is None,
            c.allow_ip_name_lookup is None,
            c.socket_addr_check is None,
    {
        WasiConfigState {
            stdin: None,
            stdout: None,
            stderr: None,
            env: None,
            args: None,
            deterministic: false,
            mapped_directories: Vec::new(),
            inherit_network: false,
            allow_tcp: None,
            allow_udp: None,
            allow_ip_name_lookup: None,
            socket_addr_check: None,
        }
    }

    /// Makes the context deterministic (clocks, randomness).
    pub fn add_determinism(&mut self)
        ensures
            *final(self) == (WasiConfigState { deterministic: true, ..*old(self) }),
    {
        self.deterministic = true;
    }

    pub fn set_stdin(&mut self, stream: ReadStream<R>)
        ensures
            *final(self) == (WasiConfigState { stdin: Some(stream), ..*old(self) }),
    {
        self.stdin = Some(stream);
    }

    pub fn set_stdout(&mut self, stream: WriteStream<R>)
        ensures
            *final(self) == (WasiConfigState { stdout: Some(stream), ..*old(self) }),
    {
        self.stdout = Some(stream);
    }

    pub fn set_stderr(&mut self, stream: WriteStream<R>)
        ensures
            *final(self) == (WasiConfigState { stderr: Some(stream), ..*old(self) }),
    {
        self.stderr = Some(stream);
    }

    pub fn set_env(&mut self, env: R)
        ensures
            *final(self) == (WasiConfigState { env: Some(env), ..*old(self) }),
    {
        self.env = Some(env);
    }

    pub fn set_argv(&mut self, argv: R)
        ensures
            *final(self) == (WasiConfigState { args: Some(argv), ..*old(self) }),
    {
        self.args = Some(argv);
    }

    /// Adds a directory to preopen, after those added before.
    pub fn set_mapped_directory(&mut self, dir: MappedDirectory<R>)
        ensures
            final(self).mapped_directories@ == old(self).mapped_directories@.push(dir),
            final(self).stdin == old(self).stdin,
            final(self).stdout == old(self).stdout,
            final(self).stderr == old(self).stderr,
            final(self).env == old(self).env,
            final(self).args == old(self).args,
            final(self).deterministic == old(self).deterministic,
            final(self).inherit_network == old(self).inherit_network,
            final(self).allow_tcp == old(self).allow_tcp,
            final(self).allow_udp == old(self).allow_udp,
            final(self).allow_ip_name_lookup == old(self).allow_ip_name_lookup,
            final(self).socket_addr_check == old(self).socket_addr_check,
    {
        self.mapped_directories.push(dir);
    }

    pub fn set_inherit_network(&mut self)
        ensures
            *final(self) == (WasiConfigState { inherit_network: true, ..*old(self) }),
    {
        self.inherit_network = true;
    }

    pub fn set_allow_tcp(&mut self, enabled: bool)
        ensures
            *final(self) == (WasiConfigState { allow_tcp: Some(enabled), ..*old(self) }),
    {
        self.allow_tcp = Some(enabled);
    }

    pub fn set_allow_udp(&mut self, enabled: bool)
        ensures
            *final(self) == (WasiConfigState { allow_udp: Some(enabled), ..*old(self) }),
    {
        self.allow_udp = Some(enabled);
    }

    pub fn set_allow_ip_name_lookup(&mut self, enabled: bool)
        ensures
            *final(self) == (WasiConfigState { allow_ip_name_lookup: Some(enabled), ..*old(self) }),
    {
        self.allow_ip_name_lookup = Some(enabled);
    }

    /// Sets the block that decides on each socket address; without a block,
    /// the configuration is unchanged.
    pub fn set_socket_addr_check(&mut self, check: Option<R>)
        ensures
            check is Some ==> *final(self) == (WasiConfigState { socket_addr_check: check, ..*old(self) }),
            check is None ==> *final(self) == *old(self),
    {
        if check.is_some() {
            self.socket_addr_check = check;
        }
    }

    /// Decides the network settings of the context to build.
    pub fn network_plan(&self) -> (r: Result<NetworkPlan, RbError>)
        ensures
            r is Err <==> self.deterministic && network_requested(*self),
            r is Err ==> is_error(r->Err_0, ErrorClass::Base, determinism_conflict_message()),
            r matches Ok(p) ==> p == planned_network(*self),
    {
        if self.deterministic {
            let requested = self.inherit_network
                || is_some_true(self.allow_tcp)
                || is_some_true(self.allow_udp)
                || is_some_true(self.allow_ip_name_lookup);
            if requested {
                return Err(RbError::Error {
                    class: ErrorClass::Base,
                    message: String::from_str(
                        "Cannot enable both determinism and network access. Deterministic mode requires network to be disabled.",
                    ),
                });
            }
            Ok(NetworkPlan::Deterministic)
        } else {
            Ok(NetworkPlan::Configured {
                inherit_network: self.inherit_network,
                allow_tcp: self.allow_tcp,
                allow_udp: self.allow_udp,
                allow_ip_name_lookup: self.allow_ip_name_lookup,
            })
        }
    }
}

fn is_some_true(b: Option<bool>) -> (r: bool)
    ensures
        r == (b == Some(true)),
{
    match b {
        Some(v) => v,
        None => false,
    }
}

/// How the network is set up in the context to build.
#[derive(Debug, PartialEq, Eq, Structural)]
pub enum NetworkPlan {
    /// Deterministic mode: TCP, UDP and name lookups are all disallowed.
    Deterministic,
    /// The configured settings, applied in this order: inherit the host's
    /// network if asked, then each explicit allowance.
    Configured {
        inherit_network: bool,
        allow_tcp: Option<bool>,
        allow_udp: Option<bool>,
        allow_ip_name_lookup: Option<bool>,
    },
}

/// The message of the error for a deterministic context with network.
pub open spec fn determinism_conflict_message() -> Seq<char> {
    "Cannot enable both determinism and network access. Deterministic mode requires network to be disabled."@
}

/// Whether the configuration asks for any network access.
pub open spec fn network_requested<R>(c: WasiConfigState<R>) -> bool {
    c.inherit_network || c.allow_tcp == Some(true) || c.allow_udp == Some(true)
        || c.allow_ip_name_lookup == Some(true)
}

/// The network settings of a configuration that is not in conflict.
pub open spec fn planned_network<R>(c: WasiConfigState<R>) -> NetworkPlan {
    if c.deterministic {
        NetworkPlan::Deterministic
    } else {
        NetworkPlan::Configured {
            inherit_network: c.inherit_network,
            allow_tcp: c.allow_tcp,
            allow_udp: c.allow_udp,
            allow_ip_name_lookup: c.allow_ip_name_lookup,
        }
    }
}

/// A deterministic context never gets network access: either building it
/// fails, or every kind of access is disallowed.
pub proof fn lemma_deterministic_has_no_network<R>(c: WasiConfigState<R>)
    requires
        c.deterministic,
    ensures
        network_requested(c) || planned_network(c) == NetworkPlan::Deterministic,
{
}

/// What a socket address is used for, as the check block is told.
#[derive(Clone, Copy, Debug, PartialEq, Eq, Structural)]
pub enum SocketUse {
    TcpBind,
    TcpConnect,
    UdpBind,
    UdpConnect,
    UdpOutgoingDatagram,
}

/// The symbol's name for a socket use.
pub open spec fn socket_use_name(u: SocketUse) -> Seq<char> {
    match u {
        SocketUse::TcpBind => "tcp_bind"@,
        SocketUse::TcpConnect => "tcp_connect"@,
        SocketUse::UdpBind => "udp_bind"@,
        SocketUse::UdpConnect => "udp_connect"@,
        SocketUse::UdpOutgoingDatagram => "udp_outgoing_datagram"@,
    }
}

/// The name of the symbol that tells the check block a socket's use.
pub fn socket_use_symbol(u: SocketUse) -> (s: &'static str)
    ensures
        s@ == socket_use_name(u),
{
    match u {
        SocketUse::TcpBind => "tcp_bind",
        SocketUse::TcpConnect => "tcp_connect",
        SocketUse::UdpBind => "udp_bind",
        SocketUse::UdpConnect => "udp_connect",
        SocketUse::UdpOutgoingDatagram => "udp_outgoing_datagram",
    }
}

/// Whether the check block allows an address: what it returned, as a
/// boolean; an exception in the block denies access.
pub fn socket_check_allows(answer: Result<bool, RbError>) -> (allowed: bool)
    ensures
        allowed == (answer matches Ok(b) && b),
{
    match answer {
        Ok(b) => b,
        Err(_) => false,
    }
}

} // verus!
