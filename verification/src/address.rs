//! Addresses of Unix domain sockets.
use vstd::prelude::*;
use vstd::slice::slice_subrange;

use crate::error::IoError;

verus! {

/// The address family of Unix domain sockets.
pub const AF_UNIX: u16 = 1;

/// How many bytes the path of an address has room for.
pub const SUN_PATH_LEN: usize = 108;

/// Where in an address its path starts: behind the family.
pub const SUN_PATH_OFFSET: i32 = 2;

/// A socket address as the system reads and writes it.
#[derive(Clone, Copy, Debug)]
pub struct SockaddrUn {
    /// The address family.
    pub sun_family: u16,
    /// The path, followed by zeros.
    pub sun_path: [u8; 108],
}

/// What a socket address holds.
pub struct AddrView {
    /// The address family.
    pub family: u16,
    /// The whole room for the path.
    pub path: Seq<u8>,
    /// How many bytes of the address count, the family included.
    pub len: int,
}

/// An address of a Unix domain socket.
#[derive(Clone, Copy, Debug)]
pub struct SocketAddr {
    addr: SockaddrUn,
    len: i32,
}

/// The path can be the path of an address: it has no zero byte, and a zero byte
/// fits behind it.
pub open spec fn representable(path: Seq<u8>) -> bool {
    &&& path.len() < SUN_PATH_LEN
    &&& !path.contains(0)
}

/// `count` zero bytes.
pub open spec fn zeros(count: nat) -> Seq<u8> {
    Seq::new(count, |i: int| 0u8)
}

/// The address of a path: the path and zeros behind it. One of these zeros
/// counts as part of the address, unless the path is empty.
pub open spec fn path_address(path: Seq<u8>) -> AddrView {
    AddrView {
        family: AF_UNIX,
        path: path + zeros((SUN_PATH_LEN - path.len()) as nat),
        len: SUN_PATH_OFFSET + path.len() + if path.len() == 0 { 0int } else { 1 },
    }
}

/// How many bytes precede the first zero byte of `bytes`.
pub open spec fn name_len(bytes: Seq<u8>) -> nat
    decreases bytes.len(),
{
    if bytes.len() == 0 || bytes[0] == 0 {
        0
    } else {
        1 + name_len(bytes.drop_first())
    }
}

impl AddrView {
    /// The lengths are in range.
    pub open spec fn valid(self) -> bool {
        &&& self.path.len() == SUN_PATH_LEN
        &&& SUN_PATH_OFFSET <= self.len <= SUN_PATH_OFFSET + SUN_PATH_LEN
    }

    /// The bytes of the path that count.
    pub open spec fn counted(self) -> Seq<u8> {
        self.path.take(self.len - SUN_PATH_OFFSET)
    }

    /// The path that the address names, if it names one.
    pub open spec fn pathname(self) -> Option<Seq<u8>> {
        let n = name_len(self.counted());
        if n == 0 {
            None
        } else {
            Some(self.counted().take(n as int))
        }
    }
}

/// The system's address that consists of `addr`, of which `len` bytes count.
pub open spec fn parts_address(addr: SockaddrUn, len: i32) -> Result<AddrView, IoError> {
    if len == 0 {
        Ok(AddrView { family: addr.sun_family, path: addr.sun_path@, len: SUN_PATH_OFFSET as int })
    } else if addr.sun_family != AF_UNIX {
        Err(IoError::InvalidInput)
    } else {
        Ok(AddrView { family: addr.sun_family, path: addr.sun_path@, len: len as int })
    }
}

/// The system gave a length that fits an address.
pub open spec fn plausible_len(len: i32) -> bool {
    len == 0 || SUN_PATH_OFFSET <= len <= SUN_PATH_OFFSET + SUN_PATH_LEN
}

/// The address of the result, without its representation.
pub open spec fn viewed(result: Result<SocketAddr, IoError>) -> Result<AddrView, IoError> {
    match result {
        Ok(addr) => Ok(addr@),
        Err(e) => Err(e),
    }
}

impl View for SocketAddr {
    type V = AddrView;

    closed spec fn view(&self) -> AddrView {
        AddrView { family: self.addr.sun_family, path: self.addr.sun_path@, len: self.len as int }
    }
}

/// The first zero byte is at `at`, or the bytes end there.
proof fn lemma_name_len_at(bytes: Seq<u8>, at: nat)
    requires
        at <= bytes.len(),
        forall|i: int| 0 <= i < at ==> bytes[i] != 0,
        at < bytes.len() ==> bytes[at as int] == 0,
    ensures
        name_len(bytes) == at,
    decreases at,
{
    if at > 0 {
        let rest = bytes.drop_first();
        lemma_name_len_at(rest, (at - 1) as nat);
    }
}

/// The name that an address of a path gives back is that path: an address is
/// named by the path that it was made from. The empty path makes an address
/// without a name.
pub proof fn law_path_address_names_path(path: Seq<u8>)
    requires
        representable(path),
    ensures
        path_address(path).valid(),
        path_address(path).pathname() == if path.len() == 0 {
            None::<Seq<u8>>
        } else {
            Some(path)
        },
{
    let counted = path_address(path).counted();
    lemma_name_len_at(counted, path.len());
}

/// Different paths have different addresses.
pub proof fn law_path_address_injective(a: Seq<u8>, b: Seq<u8>)
    requires
        representable(a),
        representable(b),
        path_address(a) == path_address(b),
    ensures
        a == b,
{
    law_path_address_names_path(a);
    law_path_address_names_path(b);
}

/// Where the system gives back the address that a socket was bound or connected
/// to, reading it gives the path that the address was made from.
pub proof fn law_system_address_names_path(path: Seq<u8>, addr: SockaddrUn, len: i32)
    requires
        representable(path),
        path.len() > 0,
        (AddrView { family: addr.sun_family, path: addr.sun_path@, len: len as int }) == path_address(path),
    ensures
        plausible_len(len),
        parts_address(addr, len) == Ok::<AddrView, IoError>(path_address(path)),
        path_address(path).pathname() == Some(path),
{
    law_path_address_names_path(path);
}

/// A path can be the path of an address if it leaves room for a zero byte in the hundred
/// and eight bytes of an address, and has no zero byte itself.
pub proof fn law_representable_paths(path: Seq<u8>)
    ensures
        representable(path) <==> path.len() <= 107 && forall|i: int|
            0 <= i < path.len() ==> path[i] != 0,
{
    if !path.contains(0) {
        assert forall|i: int| 0 <= i < path.len() implies path[i] != 0 by {
            assert(path.contains(path[i]));
        }
    }
}

/// The address of a path is of the family of Unix domain sockets. It holds the bytes of the
/// path, each at its place, and nothing but zeros behind them. The family, the path and one
/// zero byte count; of the address of the empty path, only the family.
pub proof fn law_path_address_holds_the_path(path: Seq<u8>)
    requires
        path.len() <= 107,
    ensures
        path_address(path).family == 1,
        path_address(path).path.len() == 108,
        forall|i: int| 0 <= i < path.len() ==> path_address(path).path[i] == path[i],
        forall|i: int| path.len() <= i < 108 ==> path_address(path).path[i] == 0,
        path_address(path).len == if path.len() == 0 {
            2
        } else {
            3 + path.len()
        },
{
}

/// The name of an address is what precedes the first zero byte of those that count, and an
/// address where nothing precedes it has no name.
pub proof fn law_name_ends_at_the_first_zero(addr: AddrView)
    requires
        addr.path.len() == 108,
        2 <= addr.len <= 110,
    ensures
        match addr.pathname() {
            Some(name) => {
                &&& 0 < name.len() <= addr.len - 2
                &&& forall|i: int| 0 <= i < name.len() ==> name[i] == addr.path[i] && name[i] != 0
                &&& name.len() < addr.len - 2 ==> addr.path[name.len() as int] == 0
            },
            None => addr.len == 2 || addr.path[0] == 0,
        },
{
    lemma_name_len_stops(addr.counted());
}

/// The first zero byte is where `name_len` says, if there is one.
proof fn lemma_name_len_stops(bytes: Seq<u8>)
    ensures
        name_len(bytes) <= bytes.len(),
        forall|i: int| 0 <= i < name_len(bytes) ==> bytes[i] != 0,
        name_len(bytes) < bytes.len() ==> bytes[name_len(bytes) as int] == 0,
    decreases bytes.len(),
{
    if bytes.len() > 0 && bytes[0] != 0 {
        let rest = bytes.drop_first();
        lemma_name_len_stops(rest);
        assert forall|i: int| 0 <= i < name_len(bytes) implies bytes[i] != 0 by {
            if i > 0 {
                assert(rest[i - 1] != 0);
            }
        }
    }
}

/// What the system has written is read as it stands: the family, all bytes of the path and
/// how many of them count. A length of zero stands for an address without a name, whatever
/// the rest is, and any other address must be of the family of Unix domain sockets.
pub proof fn law_system_address_is_read_as_it_stands(addr: SockaddrUn, len: i32)
    ensures
        plausible_len(len) <==> len == 0 || 2 <= len <= 110,
        parts_address(addr, len) is Err <==> len != 0 && addr.sun_family != 1,
        match parts_address(addr, len) {
            Ok(read) => {
                &&& read.family == addr.sun_family
                &&& read.path == addr.sun_path@
                &&& read.len == if len == 0 {
                    2
                } else {
                    len as int
                }
                &&& len == 0 ==> read.pathname() is None
            },
            Err(e) => e == IoError::InvalidInput,
        },
{
}

/// The result of making an address shows that address, or the error.
pub proof fn law_result_shows_the_address(result: Result<SocketAddr, IoError>)
    ensures
        match result {
            Ok(addr) => viewed(result) == Ok::<AddrView, IoError>(addr@),
            Err(e) => viewed(result) == Err::<AddrView, IoError>(e),
        },
{
}

/// Writes the address of `path`, and the number of its bytes that count, for
/// the system.
///
/// A path that has a zero byte in it, or that leaves no room for a zero byte
/// behind it, is refused.
pub fn sockaddr_un(path: &[u8]) -> (result: Result<(SockaddrUn, i32), IoError>)
    ensures
        representable(path@) <==> result is Ok,
        result matches Err(e) ==> e == IoError::InvalidInput,
        result matches Ok((addr, len)) ==> (AddrView {
            family: addr.sun_family,
            path: addr.sun_path@,
            len: len as int,
        }) == path_address(path@),
{
    if path.len() >= SUN_PATH_LEN {
        return Err(IoError::InvalidInput);
    }
    let mut sun_path: [u8; 108] = [0u8;108];
    let mut i: usize = 0;
    while i < path.len()
        invariant
            i <= path.len() < SUN_PATH_LEN,
            forall|j: int| 0 <= j < i ==> path@[j] != 0,
            sun_path@ == path@.take(i as int) + zeros((SUN_PATH_LEN - i) as nat),
        decreases path.len() - i,
    {
        if path[i] == 0 {
            return Err(IoError::InvalidInput);
        }
        sun_path[i] = path[i];
        i += 1;
    }
    assert(path@.take(i as int) =~= path@);
    let len: i32 = SUN_PATH_OFFSET + path.len() as i32 + if path.len() == 0 { 0 } else { 1 };
    Ok((SockaddrUn { sun_family: AF_UNIX, sun_path }, len))
}

impl SocketAddr {
    /// The length is in range.
    #[verifier::type_invariant]
    spec fn well_formed(self) -> bool {
        SUN_PATH_OFFSET <= self.len <= SUN_PATH_OFFSET + SUN_PATH_LEN
    }

    /// The address of the socket at `path`.
    pub fn from_path(path: &[u8]) -> (result: Result<SocketAddr, IoError>)
        ensures
            viewed(result) == if representable(path@) {
                Ok(path_address(path@))
            } else {
                Err(IoError::InvalidInput)
            },
    {
        match sockaddr_un(path) {
            Ok((addr, len)) => Ok(SocketAddr { addr, len }),
            Err(e) => Err(e),
        }
    }

    /// The address that the system has written.
    ///
    /// A length of zero stands for an address without a path. Any other
    /// address must be of the family of Unix domain sockets.
    pub fn from_parts(addr: SockaddrUn, len: i32) -> (result: Result<SocketAddr, IoError>)
        requires
            plausible_len(len),
        ensures
            viewed(result) == parts_address(addr, len),
    {
        if len == 0 {
            return Ok(SocketAddr { addr, len: SUN_PATH_OFFSET });
        }
        if addr.sun_family != AF_UNIX {
            return Err(IoError::InvalidInput);
        }
        Ok(SocketAddr { addr, len })
    }

    /// The address as the system reads it, and how many bytes of it count.
    pub fn to_parts(&self) -> (parts: (SockaddrUn, i32))
        ensures
            self@ == (AddrView {
                family: parts.0.sun_family,
                path: parts.0.sun_path@,
                len: parts.1 as int,
            }),
            self@.valid(),
    {
        proof {
            use_type_invariant(self);
        }
        (self.addr, self.len)
    }

    /// The path that the address names: the bytes that count, up to the first
    /// zero byte. There is none if that leaves no byte.
    pub fn as_pathname(&self) -> (path: Option<&[u8]>)
        ensures
            match path {
                Some(bytes) => self@.pathname() == Some(bytes@),
                None => self@.pathname() is None,
            },
    {
        proof {
            use_type_invariant(self);
        }
        let counted: usize = (self.len - SUN_PATH_OFFSET) as usize;
        let ghost bytes = self@.counted();
        let mut n: usize = 0;
        while n < counted && self.addr.sun_path[n] != 0
            invariant
                n <= counted <= SUN_PATH_LEN,
                bytes == self.addr.sun_path@.take(counted as int),
                forall|j: int| 0 <= j < n ==> bytes[j] != 0,
            decreases counted - n,
        {
            n += 1;
        }
        proof {
            lemma_name_len_at(bytes, n as nat);
        }
        if n == 0 {
            None
        } else {
            Some(slice_subrange(self.addr.sun_path.as_slice(), 0, n))
        }
    }
}

} // verus!
