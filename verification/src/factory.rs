//! The factory of temporary instances: the template it clones, the socket
//! directory its instances share, their configuration and their ports.

use vstd::prelude::*;
use crate::text::{decimal, lemma_decimal_injective, push_decimal};

verus! {

/// The port of the first instance of a factory.
pub const FIRST_PORT: u32 = 5432;

/// The role and the database that every instance is given.
pub open spec fn default_name() -> Seq<char> {
    "demo"@
}

/// The configuration of a server that listens only on a socket in
/// `socket_dir`: a small shared buffer pool, no network address, and the
/// socket directory.
pub open spec fn config_text(socket_dir: Seq<char>) -> Seq<char> {
    "shared_buffers = '12MB'\n"@ + "listen_addresses = ''\n"@ + "unix_socket_directories = '"@
        + socket_dir + "'\n"@
}

/// The URI under which the default database of the instance on `port` is
/// reached through the socket in `socket_dir`.
pub open spec fn connection_text(port: u32, socket_dir: Seq<char>) -> Seq<char> {
    "postgresql://"@ + default_name() + "@localhost:"@ + decimal(port as nat) + "/"@
        + default_name() + "?host="@ + socket_dir
}

/// The port that follows `port`. The counter is thirty-two bits wide and
/// starts over at zero after its largest value.
pub open spec fn port_after(port: u32) -> u32 {
    if port == u32::MAX {
        0
    } else {
        (port + 1) as u32
    }
}

/// The file `name` directly under the directory `dir`.
pub open spec fn child_path(dir: Seq<char>, name: Seq<char>) -> Seq<char> {
    dir + "/"@ + name
}

/// The file `name` directly under the directory `dir`.
pub fn join_path(dir: &str, name: &str) -> (path: String)
    ensures
        path@ == child_path(dir@, name@),
{
    let mut path = String::from_str(dir);
    path.append("/");
    path.append(name);
    path
}

/// The connection URI of the instance on `port` behind `socket_dir`.
pub fn connection_string(port: u32, socket_dir: &str) -> (uri: String)
    ensures
        uri@ == connection_text(port, socket_dir@),
{
    let mut uri = String::from_str("postgresql://");
    uri.append("demo");
    uri.append("@localhost:");
    push_decimal(&mut uri, port);
    uri.append("/");
    uri.append("demo");
    uri.append("?host=");
    uri.append(socket_dir);
    uri
}

/// A factory of temporary instances, once its template has been
/// initialised.
#[derive(Debug)]
pub struct TmpPostgrustFactory {
    socket_dir: String,
    cache_dir: String,
    config: String,
    next_port: u32,
}

/// A factory seen through its paths and its port counter. The
/// configuration is not part of it: it follows from the socket directory.
pub struct FactoryView {
    /// The directory in which every instance places its socket.
    pub socket_dir: Seq<char>,
    /// The directory that holds the initialised template.
    pub cache_dir: Seq<char>,
    /// The port that the next instance will be given.
    pub next_port: u32,
}

impl View for TmpPostgrustFactory {
    type V = FactoryView;

    closed spec fn view(&self) -> FactoryView {
        FactoryView {
            socket_dir: self.socket_dir@,
            cache_dir: self.cache_dir@,
            next_port: self.next_port,
        }
    }
}

impl TmpPostgrustFactory {
    #[verifier::type_invariant]
    spec fn configured(&self) -> bool {
        self.config@ == config_text(self.socket_dir@)
    }

    /// The configuration text for instances whose socket lives in
    /// `socket_dir`.
    pub fn build_config(socket_dir: &str) -> (config: String)
        ensures
            config@ == config_text(socket_dir@),
    {
        let mut config = String::new();
        config.append("shared_buffers = '12MB'\n");
        config.append("listen_addresses = ''\n");
        config.append("unix_socket_directories = '");
        config.append(socket_dir);
        config.append("'\n");
        assert(config@ =~= config_text(socket_dir@));
        config
    }

    /// The factory over an initialised template in `cache_dir` and a
    /// socket directory `socket_dir`. Its first instance gets the first
    /// port.
    pub fn assemble(socket_dir: String, cache_dir: String) -> (factory: TmpPostgrustFactory)
        ensures
            factory@ == (FactoryView {
                socket_dir: socket_dir@,
                cache_dir: cache_dir@,
                next_port: FIRST_PORT,
            }),
    {
        let config = Self::build_config(socket_dir.as_str());
        TmpPostgrustFactory { socket_dir, cache_dir, config, next_port: FIRST_PORT }
    }

    /// The directory in which every instance places its socket.
    pub fn socket_dir(&self) -> (path: &str)
        ensures
            path@ == self@.socket_dir,
    {
        self.socket_dir.as_str()
    }

    /// The directory that holds the initialised template.
    pub fn cache_dir(&self) -> (path: &str)
        ensures
            path@ == self@.cache_dir,
    {
        self.cache_dir.as_str()
    }

    /// The configuration that every instance of this factory is given.
    pub fn config(&self) -> (text: &str)
        ensures
            text@ == config_text(self@.socket_dir),
    {
        proof {
            use_type_invariant(self);
        }
        self.config.as_str()
    }

    /// The port that the next instance will be given.
    pub fn next_port(&self) -> (port: u32)
        ensures
            port == self@.next_port,
    {
        self.next_port
    }

    /// Takes the next port. The counter moves on by one; nothing else
    /// changes.
    pub fn allocate_port(&mut self) -> (port: u32)
        ensures
            port == old(self)@.next_port,
            final(self)@ == (FactoryView { next_port: port_after(port), ..old(self)@ }),
    {
        proof {
            use_type_invariant(&*self);
        }
        let port = self.next_port;
        self.next_port = if port == u32::MAX {
            0
        } else {
            port + 1
        };
        port
    }
}

/// The port that a factory hands out at its `n`-th allocation, counted
/// from zero, if the first one was `first`.
pub open spec fn port_at(first: u32, n: nat) -> u32
    decreases n,
{
    if n == 0 {
        first
    } else {
        port_after(port_at(first, (n - 1) as nat))
    }
}

/// As long as the counter has not reached its largest value, the `n`-th
/// port is the first port plus `n`.
pub proof fn lemma_port_at(first: u32, n: nat)
    requires
        first + n <= u32::MAX,
    ensures
        port_at(first, n) == first + n,
    decreases n,
{
    if n > 0 {
        lemma_port_at(first, (n - 1) as nat);
    }
}

/// The ports of one factory go up by one with each allocation, so a
/// later port is greater than every earlier one and none is given twice.
/// This holds up to the allocation that reaches the counter's largest
/// value.
pub proof fn lemma_ports_increase(first: u32, earlier: nat, later: nat)
    requires
        earlier < later,
        first + later <= u32::MAX,
    ensures
        port_at(first, earlier + 1) == port_at(first, earlier) + 1,
        port_at(first, earlier) < port_at(first, later),
        port_at(first, earlier) != port_at(first, later),
{
    lemma_port_at(first, earlier);
    lemma_port_at(first, earlier + 1);
    lemma_port_at(first, later);
}

/// Two instances behind the same socket directory that differ in their
/// port differ in their connection URI.
pub proof fn lemma_connection_text_tells_ports_apart(a: u32, b: u32, socket_dir: Seq<char>)
    requires
        a != b,
    ensures
        connection_text(a, socket_dir) != connection_text(b, socket_dir),
{
    let head = "postgresql://"@ + default_name() + "@localhost:"@;
    let tail = "/"@ + default_name() + "?host="@ + socket_dir;
    let ua = connection_text(a, socket_dir);
    let ub = connection_text(b, socket_dir);
    assert(ua =~= head + decimal(a as nat) + tail);
    assert(ub =~= head + decimal(b as nat) + tail);
    if ua == ub {
        let da = decimal(a as nat);
        let db = decimal(b as nat);
        assert(da.len() == db.len()) by {
            assert(ua.len() == head.len() + da.len() + tail.len());
            assert(ub.len() == head.len() + db.len() + tail.len());
        }
        assert(da =~= db) by {
            assert forall|i: int| 0 <= i < da.len() implies da[i] == db[i] by {
                assert(ua[head.len() + i] == da[i]);
                assert(ub[head.len() + i] == db[i]);
            }
        }
        lemma_decimal_injective(a as nat, b as nat);
    }
}

/// The `n`-th port is the first port plus `n`, counted on thirty-two
/// bits.
pub proof fn lemma_port_at_wraps(first: u32, n: nat)
    ensures
        port_at(first, n) == (first + n) % 0x1_0000_0000,
    decreases n,
{
    if n > 0 {
        lemma_port_at_wraps(first, (n - 1) as nat);
    }
}

/// No port is given twice within one turn of the counter: two
/// allocations of one factory that lie fewer than 2^32 apart get
/// different ports.
pub proof fn lemma_ports_never_repeat(first: u32, earlier: nat, later: nat)
    requires
        earlier < later,
        later - earlier < 0x1_0000_0000,
    ensures
        port_at(first, earlier) != port_at(first, later),
{
    lemma_port_at_wraps(first, earlier);
    lemma_port_at_wraps(first, later);
}

} // verus!
