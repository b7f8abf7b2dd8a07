//! The names and paths of the wayland sockets that the compositor listens
//! on, and the search for a free socket name.

use vstd::prelude::*;
use vstd::string::StringSliceAdditionalSpecFns;

verus! {

/// The length of `sockaddr_un.sun_path`.
pub const SUN_PATH_LEN: usize = 108;

/// `ENOENT`: the path does not exist.
pub const ENOENT: i32 = 2;

/// The first and one past the last display number that is tried: the
/// displays `wayland-0` to `wayland-999`.
pub const FIRST_DISPLAY: u32 = 0;
pub const END_DISPLAY: u32 = 1000;

/// Errors of setting up the sockets. Operating-system errors carry their
/// errno.
#[derive(Debug, Clone, PartialEq, Eq)]
pub enum AcceptorError {
    XrdNotSet,
    XrdTooLong(String),
    SocketFailed(i32),
    SocketStat(i32),
    ListenFailed(i32),
    OpenLockFile(i32),
    LockLockFile(i32),
    BindFailed(i32),
    AddressesInUse,
}

/// The decimal digits of a number, most significant first.
pub open spec fn spec_decimal(n: nat) -> Seq<u8>
    decreases n,
{
    if n < 10 {
        seq![(48 + n) as u8]
    } else {
        spec_decimal(n / 10).push((48 + n % 10) as u8)
    }
}

spec fn pow10(k: nat) -> nat
    decreases k,
{
    if k == 0 { 1 } else { 10 * pow10((k - 1) as nat) }
}

proof fn lemma_decimal_len_bound(n: nat, k: nat)
    requires
        n < pow10(k),
        k >= 1,
    ensures
        1 <= spec_decimal(n).len() <= k,
    decreases k,
{
    if n >= 10 {
        if k == 1 {
            assert(pow10(1) == 10) by { reveal_with_fuel(pow10, 2); }
        }
        assert(pow10(k) == 10 * pow10((k - 1) as nat));
        lemma_decimal_len_bound(n / 10, (k - 1) as nat);
    }
}

proof fn lemma_decimal_len(n: nat)
    requires
        n <= u32::MAX,
    ensures
        1 <= spec_decimal(n).len() <= 10,
{
    assert(pow10(10) == 10_000_000_000) by { reveal_with_fuel(pow10, 11); }
    lemma_decimal_len_bound(n, 10);
}

fn push_decimal(out: &mut Vec<u8>, n: u32)
    requires
        old(out)@.len() + 10 <= usize::MAX,
    ensures
        final(out)@ == old(out)@ + spec_decimal(n as nat),
    decreases n,
{
    proof { lemma_decimal_len(n as nat); }
    if n >= 10 {
        push_decimal(out, n / 10);
    }
    out.push(48 + (n % 10) as u8);
    proof {
        if n >= 10 {
            assert(old(out)@ + spec_decimal(n as nat) =~= old(out)@ + spec_decimal((n / 10) as nat) + seq![(48 + n % 10) as u8]);
        }
    }
}

fn push_bytes(out: &mut Vec<u8>, bytes: &[u8])
    requires
        old(out)@.len() + bytes@.len() <= usize::MAX,
    ensures
        final(out)@ == old(out)@ + bytes@,
{
    let mut i: usize = 0;
    while i < bytes.len()
        invariant
            i <= bytes@.len(),
            out@ == old(out)@ + bytes@.take(i as int),
        decreases bytes@.len() - i,
    {
        out.push(bytes[i]);
        proof {
            assert(bytes@.take(i + 1) =~= bytes@.take(i as int).push(bytes@[i as int]));
        }
        i += 1;
    }
    proof {
        assert(bytes@.take(bytes@.len() as int) =~= bytes@);
    }
}

/// `wayland-`
pub open spec fn spec_wayland_prefix() -> Seq<u8> {
    seq![119u8, 97, 121, 108, 97, 110, 100, 45]
}

/// `/`
pub open spec fn spec_slash() -> Seq<u8> {
    seq![47u8]
}

/// `.jay`
pub open spec fn spec_jay_suffix() -> Seq<u8> {
    seq![46u8, 106, 97, 121]
}

/// `.lock`
pub open spec fn spec_lock_suffix() -> Seq<u8> {
    seq![46u8, 108, 111, 99, 107]
}

/// The name of the socket for a display number.
pub open spec fn spec_socket_name(id: u32) -> Seq<u8> {
    spec_wayland_prefix() + spec_decimal(id as nat)
}

/// The names of a socket for display number `id` under the runtime
/// directory `xrd`: `wayland-<id>`, `<xrd>/wayland-<id>` for the socket,
/// that path with `.jay` for the privileged socket and with `.lock` for the
/// lock file.
pub struct SocketPaths {
    pub name: Vec<u8>,
    pub path: Vec<u8>,
    pub jay_path: Vec<u8>,
    pub lock_path: Vec<u8>,
}

/// The paths for display number `id`, or `XrdTooLong` when the privileged
/// socket's path and its terminating NUL do not fit a unix socket address.
pub fn socket_paths(xrd: &str, id: u32) -> (r: Result<SocketPaths, AcceptorError>)
    requires
        xrd.spec_bytes().len() + 32 <= usize::MAX,
    ensures
        ({
            let name = spec_socket_name(id);
            let path = xrd.spec_bytes() + spec_slash() + name;
            let jay_path = path + spec_jay_suffix();
            let lock_path = path + spec_lock_suffix();
            match r {
                Ok(p) => {
                    &&& p.name@ == name
                    &&& p.path@ == path
                    &&& p.jay_path@ == jay_path
                    &&& p.lock_path@ == lock_path
                    &&& jay_path.len() + 1 <= SUN_PATH_LEN
                },
                Err(e) => jay_path.len() + 1 > SUN_PATH_LEN && (e matches AcceptorError::XrdTooLong(x) && x@ == xrd@),
            }
        }),
{
    proof {
        lemma_decimal_len(id as nat);
    }
    let xrd_bytes = xrd.as_bytes();
    let wayland: [u8; 8] = [119, 97, 121, 108, 97, 110, 100, 45];
    let slash: [u8; 1] = [47];
    let jay: [u8; 4] = [46, 106, 97, 121];
    let lock: [u8; 5] = [46, 108, 111, 99, 107];
    assert(wayland@ == spec_wayland_prefix());
    assert(slash@ == spec_slash());
    assert(jay@ == spec_jay_suffix());
    assert(lock@ == spec_lock_suffix());
    let mut name: Vec<u8> = Vec::new();
    push_bytes(&mut name, wayland.as_slice());
    push_decimal(&mut name, id);
    let mut path: Vec<u8> = Vec::new();
    push_bytes(&mut path, xrd_bytes);
    push_bytes(&mut path, slash.as_slice());
    push_bytes(&mut path, name.as_slice());
    let mut jay_path = path.clone();
    push_bytes(&mut jay_path, jay.as_slice());
    let mut lock_path = path.clone();
    push_bytes(&mut lock_path, lock.as_slice());
    if jay_path.len() + 1 > SUN_PATH_LEN {
        return Err(AcceptorError::XrdTooLong(xrd.to_owned()));
    }
    Ok(SocketPaths { name, path, jay_path, lock_path })
}

/// The runtime directory, or `XrdNotSet` when there is none.
pub fn require_xrd(xrd: Option<String>) -> (r: Result<String, AcceptorError>)
    ensures
        match xrd {
            Some(d) => r == Ok::<String, AcceptorError>(d),
            None => r == Err::<String, AcceptorError>(AcceptorError::XrdNotSet),
        },
{
    match xrd {
        Some(d) => Ok(d),
        None => Err(AcceptorError::XrdNotSet),
    }
}

/// What to do with the path of a socket before binding, given the outcome of
/// `lstat` on it: a leftover file is unlinked (`Ok(true)`), a missing one is
/// fine (`Ok(false)`), any other failure is an error.
pub fn stale_path_action(lstat: Result<(), i32>) -> (r: Result<bool, AcceptorError>)
    ensures
        match lstat {
            Ok(()) => r == Ok::<bool, AcceptorError>(true),
            Err(e) => if e == ENOENT {
                r == Ok::<bool, AcceptorError>(false)
            } else {
                r == Err::<bool, AcceptorError>(AcceptorError::SocketStat(e))
            },
        },
{
    match lstat {
        Ok(()) => Ok(true),
        Err(e) => {
            if e == ENOENT {
                Ok(false)
            } else {
                Err(AcceptorError::SocketStat(e))
            }
        },
    }
}

/// The search for a free display number: the numbers from `FIRST_DISPLAY`
/// up to `END_DISPLAY` are tried in order until one can be bound.
pub struct SocketSearch {
    next: u32,
}

impl SocketSearch {
    pub closed spec fn spec_next(&self) -> u32 {
        self.next
    }

    pub closed spec fn wf(&self) -> bool {
        FIRST_DISPLAY <= self.next <= END_DISPLAY
    }

    pub fn new() -> (r: Self)
        ensures
            r.wf(),
            r.spec_next() == FIRST_DISPLAY,
            r.spec_next() == 0,
    {
        SocketSearch { next: FIRST_DISPLAY }
    }

    /// The next display number to try, or `AddressesInUse` once every
    /// number has been tried.
    pub fn next_id(&mut self) -> (r: Result<u32, AcceptorError>)
        requires
            old(self).wf(),
        ensures
            final(self).wf(),
            old(self).spec_next() < END_DISPLAY ==> r == Ok::<u32, AcceptorError>(old(self).spec_next())
                && final(self).spec_next() == old(self).spec_next() + 1,
            old(self).spec_next() == END_DISPLAY ==> r == Err::<u32, AcceptorError>(AcceptorError::AddressesInUse)
                && final(self).spec_next() == END_DISPLAY,
    {
        if self.next < END_DISPLAY {
            let id = self.next;
            self.next = self.next + 1;
            Ok(id)
        } else {
            Err(AcceptorError::AddressesInUse)
        }
    }
}

/// The sockets and names that the compositor listens on.
pub struct Acceptor {
    pub paths: SocketPaths,
}

impl Acceptor {
    /// The name of the socket (`wayland-<n>`), for `WAYLAND_DISPLAY`.
    pub fn socket_name(&self) -> (r: &Vec<u8>)
        ensures
            r@ == self.paths.name@,
    {
        &self.paths.name
    }

    /// The path of the privileged socket.
    pub fn secure_path(&self) -> (r: &Vec<u8>)
        ensures
            r@ == self.paths.jay_path@,
    {
        &self.paths.jay_path
    }
}

} // verus!
