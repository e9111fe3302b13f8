use vstd::prelude::*;

use crate::close::CloseCode;
use crate::close::CloseFrame;
use crate::message::RawMessage;

verus! {

/// The default interval between heartbeat checks, in seconds.
pub const DEFAULT_HEARTBEAT_SECS: u64 = 5;

/// The default silence after which a connection is closed, in seconds.
pub const DEFAULT_TIMEOUT_SECS: u64 = 10;

/// 256 to the power `n`.
pub open spec fn pow256(n: nat) -> nat
    decreases n,
{
    if n == 0 {
        1
    } else {
        256 * pow256((n - 1) as nat)
    }
}

/// The number that a sequence of bytes spells out, most significant byte
/// first.
pub open spec fn be_value(bytes: Seq<u8>) -> nat
    decreases bytes.len(),
{
    if bytes.len() == 0 {
        0
    } else {
        be_value(bytes.drop_last()) * 256 + bytes.last() as nat
    }
}

proof fn lemma_pow256_positive(n: nat)
    ensures
        pow256(n) >= 1,
    decreases n,
{
    if n > 0 {
        lemma_pow256_positive((n - 1) as nat);
    }
}

proof fn lemma_be_value_bound(bytes: Seq<u8>)
    ensures
        be_value(bytes) < pow256(bytes.len()),
    decreases bytes.len(),
{
    if bytes.len() > 0 {
        let rest = bytes.drop_last();
        lemma_be_value_bound(rest);
        let v = be_value(rest);
        let p = pow256(rest.len());
        let b = bytes.last() as nat;
        assert(v * 256 + b < p * 256) by (nonlinear_arith)
            requires
                v < p,
                b < 256,
        ;
    }
}

proof fn lemma_be_value_prepend(b: u8, bytes: Seq<u8>)
    ensures
        be_value(seq![b] + bytes) == b as nat * pow256(bytes.len()) + be_value(bytes),
    decreases bytes.len(),
{
    if bytes.len() == 0 {
        assert(seq![b] + bytes =~= seq![b]);
        assert(seq![b].drop_last() =~= Seq::<u8>::empty());
        assert(be_value(Seq::<u8>::empty()) == 0);
        assert(be_value(seq![b]) == b as nat);
        assert(pow256(0) == 1);
    } else {
        let whole = seq![b] + bytes;
        assert(whole.drop_last() =~= seq![b] + bytes.drop_last());
        lemma_be_value_prepend(b, bytes.drop_last());
        let p = pow256(bytes.drop_last().len());
        let v = be_value(bytes.drop_last());
        let l = bytes.last() as nat;
        assert((b as nat * p + v) * 256 + l == b as nat * (256 * p) + (v * 256 + l))
            by (nonlinear_arith);
        assert(whole.last() == bytes.last());
        assert(be_value(whole) == be_value(whole.drop_last()) * 256 + whole.last() as nat);
        assert(be_value(bytes) == v * 256 + l);
        assert(pow256(bytes.len()) == 256 * p);
    }
}

/// The 16 bytes of a 128-bit number, most significant byte first.
pub fn u128_to_be_bytes(value: u128) -> (bytes: Vec<u8>)
    ensures
        bytes@.len() == 16,
        be_value(bytes@) == value,
{
    let mut bytes: Vec<u8> = Vec::new();
    let mut rest: u128 = value;
    let mut k: usize = 0;
    proof {
        assert(pow256(0) == 1);
    }
    while k < 16
        invariant
            k <= 16,
            bytes@.len() == k,
            value == rest as nat * pow256(k as nat) + be_value(bytes@),
            rest as nat * pow256(k as nat) <= value,
        decreases 16 - k,
    {
        let b: u8 = (rest % 256) as u8;
        let q: u128 = rest / 256;
        let ghost old_bytes = bytes@;
        bytes.insert(0, b);
        proof {
            assert(bytes@ =~= seq![b] + old_bytes);
            lemma_be_value_prepend(b, old_bytes);
            let p = pow256(k as nat);
            assert(pow256((k + 1) as nat) == 256 * p);
            assert(rest as nat == q as nat * 256 + b as nat);
            assert(rest as nat * p == q as nat * (256 * p) + b as nat * p) by (nonlinear_arith)
                requires
                    rest as nat == q as nat * 256 + b as nat,
            ;
            lemma_pow256_positive(k as nat);
            assert(q as nat * (256 * p) <= rest as nat * p) by (nonlinear_arith)
                requires
                    rest as nat * p == q as nat * (256 * p) + b as nat * p,
                    p >= 1,
            ;
        }
        rest = q;
        k = k + 1;
    }
    proof {
        lemma_be_value_bound(bytes@);
        lemma_pow256_16();
        if rest > 0 {
            assert(rest as nat * pow256(16) >= pow256(16)) by (nonlinear_arith)
                requires
                    rest > 0,
            ;
        }
    }
    bytes
}

/// The number that 16 bytes spell out, or `None` if there are not exactly 16.
pub fn u128_from_be_bytes(bytes: &Vec<u8>) -> (value: Option<u128>)
    ensures
        value is Some <==> bytes@.len() == 16,
        value matches Some(v) ==> v == be_value(bytes@),
{
    if bytes.len() != 16 {
        return None;
    }
    let mut acc: u128 = 0;
    let mut i: usize = 0;
    proof {
        assert(bytes@.take(0) =~= Seq::<u8>::empty());
    }
    while i < 16
        invariant
            i <= 16,
            bytes@.len() == 16,
            acc == be_value(bytes@.take(i as int)),
        decreases 16 - i,
    {
        proof {
            lemma_be_value_bound(bytes@.take(i as int));
            lemma_pow256_16();
            if i < 15 {
                lemma_pow256_monotone(i as nat, 15);
            }
            assert(bytes@.take(i + 1).drop_last() =~= bytes@.take(i as int));
        }
        acc = acc * 256 + bytes[i] as u128;
        i = i + 1;
    }
    proof {
        assert(bytes@.take(16) =~= bytes@);
    }
    Some(acc)
}

proof fn lemma_pow256_16()
    ensures
        pow256(15) == 0x1_0000_0000_0000_0000_0000_0000_0000_00,
        pow256(16) == 0x1_0000_0000_0000_0000_0000_0000_0000_0000,
{
    reveal_with_fuel(pow256, 17);
}

proof fn lemma_pow256_monotone(a: nat, b: nat)
    requires
        a <= b,
    ensures
        pow256(a) <= pow256(b),
    decreases b - a,
{
    if a < b {
        lemma_pow256_monotone(a, (b - 1) as nat);
        lemma_pow256_positive((b - 1) as nat);
    }
}

/// The default heartbeat ping: a `Ping` whose payload is the timestamp in
/// milliseconds as 16 big-endian bytes.
pub fn default_heartbeat_ping(timestamp_millis: u128) -> (ping: RawMessage)
    ensures
        ping matches RawMessage::Ping(bytes) && bytes@.len() == 16 && be_value(bytes@)
            == timestamp_millis,
{
    RawMessage::Ping(u128_to_be_bytes(timestamp_millis))
}

/// The timestamp in milliseconds that a pong payload echoes back, when it
/// holds exactly 16 bytes.
pub fn pong_timestamp_millis(payload: &Vec<u8>) -> (timestamp: Option<u128>)
    ensures
        timestamp is Some <==> payload@.len() == 16,
        timestamp matches Some(t) ==> t == be_value(payload@),
{
    u128_from_be_bytes(payload)
}

/// Two byte strings of one length that spell out the same number are the
/// same: the 16 bytes of a timestamp are the only payload that reads back as
/// it, so decoding a pong and encoding the result gives the payload back.
pub proof fn lemma_be_value_injective(a: Seq<u8>, b: Seq<u8>)
    requires
        a.len() == b.len(),
        be_value(a) == be_value(b),
    ensures
        a == b,
    decreases a.len(),
{
    if a.len() > 0 {
        let va = be_value(a.drop_last());
        let vb = be_value(b.drop_last());
        let la = a.last() as nat;
        let lb = b.last() as nat;
        assert(la == lb && va == vb) by (nonlinear_arith)
            requires
                va * 256 + la == vb * 256 + lb,
                la < 256,
                lb < 256,
        ;
        lemma_be_value_injective(a.drop_last(), b.drop_last());
        assert(a =~= a.drop_last().push(a.last()));
        assert(b =~= b.drop_last().push(b.last()));
    } else {
        assert(a =~= b);
    }
}

/// What a heartbeat tick decides, given how long the peer has been silent.
#[derive(Debug, Clone, Copy, PartialEq, Eq, Structural)]
pub enum HeartbeatStep {
    /// The peer was silent longer than the timeout: close the connection.
    CloseInactive,
    /// The peer was heard from within the last interval: check again after
    /// this many nanoseconds.
    WaitFor(u128),
    /// Send a ping now, then check again after a full interval.
    SendPing,
}

/// The decision of a heartbeat tick, all durations in nanoseconds.
pub open spec fn heartbeat_decision(elapsed: u128, heartbeat: u128, timeout: u128) -> HeartbeatStep {
    if elapsed > timeout {
        HeartbeatStep::CloseInactive
    } else if elapsed < heartbeat {
        HeartbeatStep::WaitFor((heartbeat - elapsed) as u128)
    } else {
        HeartbeatStep::SendPing
    }
}

/// Decides a heartbeat tick: `elapsed` is the time since the peer was last
/// heard from, `heartbeat` the interval between checks, `timeout` the
/// silence after which the connection is closed; all in nanoseconds.
pub fn heartbeat_step(elapsed: u128, heartbeat: u128, timeout: u128) -> (step: HeartbeatStep)
    ensures
        step == heartbeat_decision(elapsed, heartbeat, timeout),
        step matches HeartbeatStep::WaitFor(w) ==> 0 < w <= heartbeat,
{
    if elapsed > timeout {
        HeartbeatStep::CloseInactive
    } else if elapsed < heartbeat {
        HeartbeatStep::WaitFor(heartbeat - elapsed)
    } else {
        HeartbeatStep::SendPing
    }
}

/// After a ping: check again after a full interval if it was handed to the
/// socket, stop the heartbeat if the socket is gone.
pub fn after_ping(sent: bool, heartbeat: u128) -> (next: Option<u128>)
    ensures
        sent ==> next == Some(heartbeat),
        !sent ==> next is None,
{
    if sent {
        Some(heartbeat)
    } else {
        None
    }
}

/// The close message sent when the peer has been silent too long.
pub fn inactivity_close_message() -> (m: RawMessage)
    ensures
        m matches RawMessage::Close(Some(frame)) && frame.code == CloseCode::Abnormal
            && frame.reason@ == "remote partner is inactive"@,
{
    let reason = String::from_str("remote partner is inactive");
    proof {
        reveal_strlit("remote partner is inactive");
    }
    RawMessage::Close(Some(CloseFrame { code: CloseCode::Abnormal, reason }))
}

/// A peer silent for longer than the timeout is always closed, whatever
/// the interval.
pub proof fn lemma_silent_peer_closed(elapsed: u128, heartbeat: u128, timeout: u128)
    requires
        elapsed > timeout,
    ensures
        heartbeat_decision(elapsed, heartbeat, timeout) == HeartbeatStep::CloseInactive,
{
}

/// A tick never waits longer than one interval, so a silent peer is checked
/// at least once per interval.
pub proof fn lemma_wait_within_interval(elapsed: u128, heartbeat: u128, timeout: u128)
    ensures
        heartbeat_decision(elapsed, heartbeat, timeout) matches HeartbeatStep::WaitFor(w) ==> 0 < w
            <= heartbeat,
{
}

/// A peer heard from within the timeout is never closed: answering pings in
/// time keeps the connection alive.
pub proof fn lemma_live_peer_kept(elapsed: u128, heartbeat: u128, timeout: u128)
    requires
        elapsed <= timeout,
    ensures
        heartbeat_decision(elapsed, heartbeat, timeout) != HeartbeatStep::CloseInactive,
{
}

/// The silence at the `j`-th tick when nothing arrives: `j` intervals.
pub open spec fn silent_tick(j: int, heartbeat: u128) -> u128 {
    (j * heartbeat) as u128
}

/// A silent peer is closed in time and not before: when nothing arrives,
/// the ticks come one interval apart, every tick up to the timeout sends a
/// ping, and the first tick past the timeout closes the connection, at most
/// one interval after the timeout.
pub proof fn lemma_silent_peer_closed_in_time(heartbeat: u128, timeout: u128)
    requires
        heartbeat > 0,
        (timeout / heartbeat + 1) * heartbeat <= u128::MAX,
    ensures
        ({
            let k = timeout / heartbeat + 1;
            &&& heartbeat_decision(silent_tick(k, heartbeat), heartbeat, timeout)
                == HeartbeatStep::CloseInactive
            &&& k * heartbeat <= timeout + heartbeat
            &&& forall|j: int|
                1 <= j < k ==> heartbeat_decision(#[trigger] silent_tick(j, heartbeat), heartbeat, timeout)
                    == HeartbeatStep::SendPing
        }),
{
    let k = timeout / heartbeat + 1;
    let q = timeout / heartbeat;
    let r = timeout % heartbeat;
    assert(timeout == q * heartbeat + r && 0 <= r < heartbeat) by (nonlinear_arith)
        requires
            heartbeat > 0,
            q == timeout / heartbeat,
            r == timeout % heartbeat,
    ;
    assert(k * heartbeat == q * heartbeat + heartbeat) by (nonlinear_arith)
        requires
            k == q + 1,
    ;
    assert forall|j: int| 1 <= j < k implies heartbeat_decision(
        #[trigger] silent_tick(j, heartbeat),
        heartbeat,
        timeout,
    ) == HeartbeatStep::SendPing by {
        assert(heartbeat <= j * heartbeat <= q * heartbeat) by (nonlinear_arith)
            requires
                1 <= j <= q,
                heartbeat > 0,
        ;
    }
}

} // verus!
