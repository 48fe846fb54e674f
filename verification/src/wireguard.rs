//! WireGuard interface statistics and interface-name validation.

use vstd::prelude::*;
use vstd::string::StringSliceAdditionalSpecFns;

verus! {

/// Per-peer counters read from a WireGuard device.
///
/// `last_handshake_time` is the handshake instant in nanoseconds relative to
/// the Unix epoch, or `None` when the peer never completed a handshake.
#[derive(Clone, Copy, Debug, PartialEq, Eq)]
pub struct PeerStatsInput {
    pub tx_bytes: u64,
    pub rx_bytes: u64,
    pub last_handshake_time: Option<i128>,
}

/// Live stats of one WireGuard interface, aggregated over all its peers.
#[derive(Clone, Copy, Debug, PartialEq, Eq)]
pub struct WgInterfaceStats {
    /// Total bytes transmitted across all peers.
    pub bytes_tx: u64,
    /// Total bytes received across all peers.
    pub bytes_rx: u64,
    /// Most recent handshake (nanoseconds since the Unix epoch) among all peers.
    pub last_handshake: Option<i128>,
}

/// Sum of the transmitted bytes of `peers`.
pub open spec fn total_tx(peers: Seq<PeerStatsInput>) -> int
    decreases peers.len(),
{
    if peers.len() == 0 {
        0
    } else {
        total_tx(peers.drop_last()) + peers.last().tx_bytes
    }
}

/// Sum of the received bytes of `peers`.
pub open spec fn total_rx(peers: Seq<PeerStatsInput>) -> int
    decreases peers.len(),
{
    if peers.len() == 0 {
        0
    } else {
        total_rx(peers.drop_last()) + peers.last().rx_bytes
    }
}

/// The later of a running maximum and one more optional handshake.
pub open spec fn later_handshake(acc: Option<i128>, next: Option<i128>) -> Option<i128> {
    match next {
        None => acc,
        Some(h) => match acc {
            Some(prev) => if prev > h { Some(prev) } else { Some(h) },
            None => Some(h),
        },
    }
}

/// The latest handshake among `peers`, ignoring peers without one.
pub open spec fn latest_handshake(peers: Seq<PeerStatsInput>) -> Option<i128>
    decreases peers.len(),
{
    if peers.len() == 0 {
        None
    } else {
        later_handshake(latest_handshake(peers.drop_last()), peers.last().last_handshake_time)
    }
}

/// The aggregate of `peers` as the kernel interface reports it.
pub open spec fn aggregate(peers: Seq<PeerStatsInput>) -> WgInterfaceStats {
    WgInterfaceStats {
        bytes_tx: total_tx(peers) as u64,
        bytes_rx: total_rx(peers) as u64,
        last_handshake: latest_handshake(peers),
    }
}

/// The aggregated handshake is the most recent one: it is absent exactly when
/// no peer ever completed a handshake, and otherwise it is the handshake of
/// some peer and no peer's handshake is later.
pub proof fn lemma_latest_handshake_is_maximum(peers: Seq<PeerStatsInput>)
    ensures
        latest_handshake(peers) is None <==> (forall|i: int|
            0 <= i < peers.len() ==> #[trigger] peers[i].last_handshake_time is None),
        latest_handshake(peers) matches Some(h) ==> (exists|i: int|
            0 <= i < peers.len() && #[trigger] peers[i].last_handshake_time == Some(h)),
        latest_handshake(peers) matches Some(h) ==> (forall|i: int|
            0 <= i < peers.len() && #[trigger] peers[i].last_handshake_time is Some
                ==> peers[i].last_handshake_time->0 <= h),
    decreases peers.len(),
{
    if peers.len() > 0 {
        let front = peers.drop_last();
        lemma_latest_handshake_is_maximum(front);
        assert forall|i: int| 0 <= i < front.len() implies #[trigger] front[i] == peers[i] by {}
        let last = peers.len() - 1;
        if latest_handshake(peers) is None {
            assert forall|i: int| 0 <= i < peers.len() implies #[trigger] peers[i].last_handshake_time is None by {
                if i < last {
                    assert(front[i] == peers[i]);
                }
            }
        }
        if let Some(h) = latest_handshake(peers) {
            match latest_handshake(front) {
                Some(prev) => {
                    if peers[last].last_handshake_time is Some && !(prev > peers[last].last_handshake_time->0) {
                        assert(peers[last].last_handshake_time == Some(h));
                    } else {
                        let j = choose|j: int| 0 <= j < front.len() && #[trigger] front[j].last_handshake_time == Some(prev);
                        assert(peers[j].last_handshake_time == Some(h));
                    }
                },
                None => {
                    assert(peers[last].last_handshake_time == Some(h));
                },
            }
            assert forall|i: int| 0 <= i < peers.len() && #[trigger] peers[i].last_handshake_time is Some
                implies peers[i].last_handshake_time->0 <= h by {
                if i < last {
                    assert(front[i] == peers[i]);
                    assert(front[i].last_handshake_time is Some);
                }
            }
        }
    }
}

proof fn lemma_totals_monotone(peers: Seq<PeerStatsInput>, i: int)
    requires
        0 <= i <= peers.len(),
    ensures
        0 <= total_tx(peers.subrange(0, i)) <= total_tx(peers),
        0 <= total_rx(peers.subrange(0, i)) <= total_rx(peers),
    decreases peers.len(),
{
    if peers.len() > 0 {
        if i == peers.len() {
            assert(peers.subrange(0, i) =~= peers);
            lemma_totals_monotone(peers.drop_last(), 0);
        } else {
            assert(peers.drop_last().subrange(0, i) =~= peers.subrange(0, i));
            lemma_totals_monotone(peers.drop_last(), i);
        }
    }
}

/// Aggregate per-peer counters into interface stats: byte counters are
/// summed and the most recent handshake is kept.
pub fn aggregate_peer_stats(peers: &[PeerStatsInput]) -> (stats: WgInterfaceStats)
    requires
        total_tx(peers@) <= u64::MAX,
        total_rx(peers@) <= u64::MAX,
    ensures
        stats == aggregate(peers@),
{
    let mut bytes_tx: u64 = 0;
    let mut bytes_rx: u64 = 0;
    let mut last_handshake: Option<i128> = None;
    let mut i: usize = 0;
    while i < peers.len()
        invariant
            i <= peers@.len(),
            total_tx(peers@) <= u64::MAX,
            total_rx(peers@) <= u64::MAX,
            bytes_tx == total_tx(peers@.subrange(0, i as int)),
            bytes_rx == total_rx(peers@.subrange(0, i as int)),
            last_handshake == latest_handshake(peers@.subrange(0, i as int)),
        decreases peers@.len() - i,
    {
        let peer = peers[i];
        proof {
            let next = peers@.subrange(0, i + 1);
            assert(next.drop_last() =~= peers@.subrange(0, i as int));
            lemma_totals_monotone(peers@, i + 1);
        }
        bytes_tx = bytes_tx + peer.tx_bytes;
        bytes_rx = bytes_rx + peer.rx_bytes;
        if let Some(hs) = peer.last_handshake_time {
            last_handshake = match last_handshake {
                Some(prev) => if prev > hs { Some(prev) } else { Some(hs) },
                None => Some(hs),
            };
        }
        i = i + 1;
    }
    proof {
        assert(peers@.subrange(0, peers@.len() as int) =~= peers@);
    }
    WgInterfaceStats { bytes_tx, bytes_rx, last_handshake }
}

/// Aggregate per-peer counters, or `None` when a byte total does not fit in
/// a `u64`.
pub fn checked_aggregate_peer_stats(peers: &[PeerStatsInput]) -> (r: Option<WgInterfaceStats>)
    ensures
        r is Some <==> (total_tx(peers@) <= u64::MAX && total_rx(peers@) <= u64::MAX),
        r matches Some(stats) ==> stats == aggregate(peers@),
{
    let mut bytes_tx: u64 = 0;
    let mut bytes_rx: u64 = 0;
    let mut i: usize = 0;
    while i < peers.len()
        invariant
            i <= peers@.len(),
            bytes_tx == total_tx(peers@.subrange(0, i as int)),
            bytes_rx == total_rx(peers@.subrange(0, i as int)),
        decreases peers@.len() - i,
    {
        proof {
            let next = peers@.subrange(0, i + 1);
            assert(next.drop_last() =~= peers@.subrange(0, i as int));
            lemma_totals_monotone(peers@, i + 1);
        }
        match bytes_tx.checked_add(peers[i].tx_bytes) {
            Some(t) => bytes_tx = t,
            None => return None,
        }
        match bytes_rx.checked_add(peers[i].rx_bytes) {
            Some(t) => bytes_rx = t,
            None => return None,
        }
        i = i + 1;
    }
    proof {
        assert(peers@.subrange(0, peers@.len() as int) =~= peers@);
    }
    Some(aggregate_peer_stats(peers))
}

} // verus!

verus! {

/// WireGuard backend that drives kernel (or userspace) interfaces.
#[derive(Clone, Copy, Debug)]
pub struct RealWireGuard;

/// WireGuard backend that only logs, for development and testing.
#[derive(Clone, Copy, Debug)]
pub struct NoopWireGuard;

/// `wireguard_control::InterfaceName`, a validated kernel interface name,
/// carried through as a whole; its bytes are not inspected here.
#[verifier::external_type_specification]
#[verifier::external_body]
pub struct ExInterfaceName(wireguard_control::InterfaceName);

/// Why a string is not a valid kernel interface name.
#[derive(Clone, Copy, Debug, PartialEq, Eq)]
pub enum InterfaceNameError {
    /// Longer than the system limit of 15 bytes (plus the trailing NUL).
    TooLong,
    /// The empty string.
    Empty,
    /// Holds a NUL, a `/` or an ASCII whitespace byte.
    InvalidChars,
}

/// Bytes that a kernel interface name may not hold.
pub open spec fn is_forbidden_name_byte(b: u8) -> bool {
    b == 0u8 || b == 0x2fu8 || b == 0x20u8 || b == 0x09u8 || b == 0x0au8 || b == 0x0cu8
        || b == 0x0du8
}

/// The verdict of interface-name validation on the UTF-8 bytes of a name.
pub open spec fn interface_name_verdict(bytes: Seq<u8>) -> Option<InterfaceNameError> {
    if bytes.len() == 0 {
        Some(InterfaceNameError::Empty)
    } else if bytes.len() > 15 {
        Some(InterfaceNameError::TooLong)
    } else if exists|i: int| 0 <= i < bytes.len() && is_forbidden_name_byte(#[trigger] bytes[i]) {
        Some(InterfaceNameError::InvalidChars)
    } else {
        None
    }
}

/// The kernel's limits on interface names: an empty name and one longer
/// than 15 bytes are refused as such; a name of 1 to 15 bytes is refused
/// exactly when it holds a NUL, `/`, space, tab, line feed, form feed or
/// carriage return byte, and otherwise accepted.
pub proof fn lemma_interface_name_limits(bytes: Seq<u8>)
    ensures
        bytes.len() == 0 ==> interface_name_verdict(bytes) == Some(InterfaceNameError::Empty),
        bytes.len() > 15 ==> interface_name_verdict(bytes) == Some(InterfaceNameError::TooLong),
        1 <= bytes.len() <= 15 ==> (interface_name_verdict(bytes) is None <==> forall|i: int| 0 <= i < bytes.len()
            ==> #[trigger] bytes[i] != 0u8 && bytes[i] != 0x2fu8 && bytes[i] != 0x20u8 && bytes[i] != 0x09u8
                && bytes[i] != 0x0au8 && bytes[i] != 0x0cu8 && bytes[i] != 0x0du8),
        1 <= bytes.len() <= 15 && interface_name_verdict(bytes) is Some ==> interface_name_verdict(bytes)
            == Some(InterfaceNameError::InvalidChars),
{
}

/// A validated kernel interface name: its text, and the
/// `wireguard_control` handle the kernel operations take.
pub struct WgInterfaceName {
    name: String,
    handle: wireguard_control::InterfaceName,
}

impl WgInterfaceName {
    /// The text of the name.
    pub closed spec fn view(&self) -> Seq<char> {
        self.name@
    }

    /// The text of the name.
    pub fn as_str(&self) -> (r: &str)
        ensures
            r@ == self@,
    {
        self.name.as_str()
    }

    /// The handle to pass to `wireguard_control` operations.
    pub fn handle(&self) -> &wireguard_control::InterfaceName {
        &self.handle
    }
}

/// `wireguard_control::InterfaceName::from_str`: the name is refused when its
/// UTF-8 encoding is empty, longer than 15 bytes, or holds a NUL, `/` or ASCII
/// whitespace byte (checked in that order); otherwise it is accepted, and the
/// handle holds the name's bytes, so its text (`Display`) is the name.
#[verifier::external_body]
fn parse_interface_name_raw(name: &str) -> (r: Result<WgInterfaceName, InterfaceNameError>)
    ensures
        match r {
            Ok(n) => interface_name_verdict(name.spec_bytes()) is None && n@ == name@,
            Err(e) => interface_name_verdict(name.spec_bytes()) == Some(e),
        },
{
    match name.parse::<wireguard_control::InterfaceName>() {
        Ok(handle) => Ok(WgInterfaceName { name: handle.to_string(), handle }),
        Err(wireguard_control::InvalidInterfaceName::TooLong) => Err(InterfaceNameError::TooLong),
        Err(wireguard_control::InvalidInterfaceName::Empty) => Err(InterfaceNameError::Empty),
        Err(wireguard_control::InvalidInterfaceName::InvalidChars) => Err(InterfaceNameError::InvalidChars),
    }
}

/// The display text of an interface-name error, as the WireGuard operations
/// report it.
pub open spec fn interface_name_message(e: InterfaceNameError) -> Seq<char> {
    "invalid interface name: "@ + match e {
        InterfaceNameError::TooLong => "interface name longer than system max of 16 chars"@,
        InterfaceNameError::Empty => "an empty interface name was provided"@,
        InterfaceNameError::InvalidChars => "interface name contained slash or space characters"@,
    }
}

impl InterfaceNameError {
    /// The display text of this error.
    pub fn message(&self) -> (r: String)
        ensures
            r@ == interface_name_message(*self),
    {
        let mut r = String::new();
        crate::text::push_str(&mut r, "invalid interface name: ");
        let detail = match self {
            InterfaceNameError::TooLong => "interface name longer than system max of 16 chars",
            InterfaceNameError::Empty => "an empty interface name was provided",
            InterfaceNameError::InvalidChars => "interface name contained slash or space characters",
        };
        crate::text::push_str(&mut r, detail);
        proof {
            assert(Seq::<char>::empty() + "invalid interface name: "@ =~= "invalid interface name: "@);
        }
        r
    }
}

/// Parse a WireGuard interface name, as every real interface operation does
/// before talking to the kernel.
pub fn parse_interface_name(name: &str) -> (r: Result<WgInterfaceName, InterfaceNameError>)
    ensures
        r is Ok <==> interface_name_verdict(name.spec_bytes()) is None,
        r matches Ok(n) ==> n@ == name@,
        r matches Err(e) ==> interface_name_verdict(name.spec_bytes()) == Some(e),
{
    parse_interface_name_raw(name)
}

} // verus!
