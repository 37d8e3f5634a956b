//! The ensure protocol: detect a running daemon, spawn one if absent, and
//! poll until it answers or a deadline passes.
//!
//! Liveness is judged by a ping over the socket, never by the socket
//! file's existence, so a stale socket with no listener counts as not
//! running. The poll observes liveness alone: when two callers race, the
//! loser's spawn fails benignly on the bound socket, and both converge as
//! soon as any probe sees the daemon answer.

use vstd::prelude::*;
use crate::chars::{contains_seq, contains_sub, from_chars, to_chars};
use crate::codec_prim::hex_digit;
use crate::codec_req::{encode_request, sp_request, QueryV, RequestV};
use crate::protocol::{Query, Request};

verus! {

/// One phase of the ensure handshake.
pub enum EnsurePhase {
    /// Probing whether a daemon already answers.
    Checking,
    /// Launching a detached daemon process.
    Spawning,
    /// Re-probing at a fixed interval; `waited_ms` has elapsed so far.
    Polling { waited_ms: u64 },
    /// A daemon answers; the handshake succeeded.
    Ready,
    /// The handshake failed for the recorded reason.
    Failed { reason: EnsureFailure },
}

/// Why an ensure handshake failed.
pub enum EnsureFailure {
    /// The daemon binary could not be launched.
    SpawnFailed,
    /// No daemon answered within the waiting window.
    StartTimeout,
}

/// What the surrounding process observed.
pub enum EnsureEvent {
    /// A liveness probe was answered.
    ProbeUp,
    /// A liveness probe went unanswered.
    ProbeDown,
    /// The detached spawn was launched.
    SpawnOk,
    /// The detached spawn could not be launched.
    SpawnFailed,
}

/// The transition table of the ensure handshake.
pub open spec fn spec_ensure_step(
    phase: EnsurePhase,
    event: EnsureEvent,
    timeout_ms: u64,
    poll_ms: u64,
) -> EnsurePhase {
    match (phase, event) {
        (EnsurePhase::Checking, EnsureEvent::ProbeUp) => EnsurePhase::Ready,
        (EnsurePhase::Checking, EnsureEvent::ProbeDown) => EnsurePhase::Spawning,
        (EnsurePhase::Spawning, EnsureEvent::SpawnOk) => EnsurePhase::Polling { waited_ms: 0 },
        (EnsurePhase::Spawning, EnsureEvent::SpawnFailed) => EnsurePhase::Failed {
            reason: EnsureFailure::SpawnFailed,
        },
        (EnsurePhase::Polling { waited_ms }, EnsureEvent::ProbeUp) => EnsurePhase::Ready,
        (EnsurePhase::Polling { waited_ms }, EnsureEvent::ProbeDown) => {
            if waited_ms >= timeout_ms {
                EnsurePhase::Failed { reason: EnsureFailure::StartTimeout }
            } else {
                EnsurePhase::Polling {
                    waited_ms: if waited_ms + poll_ms <= u64::MAX {
                        (waited_ms + poll_ms) as u64
                    } else {
                        u64::MAX
                    },
                }
            }
        },
        _ => phase,
    }
}

/// Advance the handshake by one observation.
pub fn ensure_step(
    phase: &EnsurePhase,
    event: &EnsureEvent,
    timeout_ms: u64,
    poll_ms: u64,
) -> (r: EnsurePhase)
    ensures
        r == spec_ensure_step(*phase, *event, timeout_ms, poll_ms),
{
    match (phase, event) {
        (EnsurePhase::Checking, EnsureEvent::ProbeUp) => EnsurePhase::Ready,
        (EnsurePhase::Checking, EnsureEvent::ProbeDown) => EnsurePhase::Spawning,
        (EnsurePhase::Spawning, EnsureEvent::SpawnOk) => EnsurePhase::Polling { waited_ms: 0 },
        (EnsurePhase::Spawning, EnsureEvent::SpawnFailed) => EnsurePhase::Failed {
            reason: EnsureFailure::SpawnFailed,
        },
        (EnsurePhase::Polling { waited_ms }, EnsureEvent::ProbeUp) => EnsurePhase::Ready,
        (EnsurePhase::Polling { waited_ms }, EnsureEvent::ProbeDown) => {
            if *waited_ms >= timeout_ms {
                EnsurePhase::Failed { reason: EnsureFailure::StartTimeout }
            } else {
                if *waited_ms <= u64::MAX - poll_ms {
                    EnsurePhase::Polling { waited_ms: *waited_ms + poll_ms }
                } else {
                    EnsurePhase::Polling { waited_ms: u64::MAX }
                }
            }
        },
        (EnsurePhase::Checking, _) => EnsurePhase::Checking,
        (EnsurePhase::Spawning, _) => EnsurePhase::Spawning,
        (EnsurePhase::Polling { waited_ms }, _) => EnsurePhase::Polling {
            waited_ms: *waited_ms,
        },
        (EnsurePhase::Ready, _) => EnsurePhase::Ready,
        (EnsurePhase::Failed { reason: EnsureFailure::SpawnFailed }, _) => EnsurePhase::Failed {
            reason: EnsureFailure::SpawnFailed,
        },
        (EnsurePhase::Failed { reason: EnsureFailure::StartTimeout }, _) => EnsurePhase::Failed {
            reason: EnsureFailure::StartTimeout,
        },
    }
}

/// Success depends on liveness alone: from any phase that has not failed,
/// an answered probe settles the handshake as ready, whichever racing
/// caller actually spawned the daemon.
pub proof fn lemma_probe_up_settles(phase: EnsurePhase, timeout_ms: u64, poll_ms: u64)
    requires
        phase is Checking || phase is Polling,
    ensures
        spec_ensure_step(phase, EnsureEvent::ProbeUp, timeout_ms, poll_ms) == EnsurePhase::Ready,
{
}

/// Waiting never outlives the deadline by more than one interval: once the
/// waited time reaches the timeout, an unanswered probe fails the
/// handshake with the distinct timeout reason.
pub proof fn lemma_poll_bounded(waited_ms: u64, timeout_ms: u64, poll_ms: u64)
    requires
        waited_ms >= timeout_ms,
    ensures
        spec_ensure_step(
            EnsurePhase::Polling { waited_ms },
            EnsureEvent::ProbeDown,
            timeout_ms,
            poll_ms,
        ) == (EnsurePhase::Failed { reason: EnsureFailure::StartTimeout }),
{
}

/// The liveness probe line: a ping request carrying id 0 and no unit name.
pub fn ping_request_line() -> (r: String)
    ensures
        sp_request(r@) == Option::Some(
            RequestV { id: 0, crate_name: Seq::empty(), query: QueryV::Ping },
        ),
{
    let req = Request { id: 0, crate_name: String::new(), query: Query::Ping };
    let line = encode_request(&req);
    proof {
        assert(req.crate_name@ =~= Seq::<char>::empty());
    }
    line
}

/// Whether a daemon answered the liveness probe: something came back and
/// it reads as the liveness acknowledgement.
pub fn is_daemon_running(probe_response: &Option<String>) -> (r: bool)
    ensures
        r == match probe_response {
            Some(line) => contains_seq(line@, seq!['p', 'o', 'n', 'g']),
            None => false,
        },
{
    match probe_response {
        Some(line) => {
            let cs = to_chars(line.as_str());
            let needle: Vec<char> = vec!['p', 'o', 'n', 'g'];
            contains_sub(cs.as_slice(), needle.as_slice())
        },
        None => false,
    }
}

/// The 64-bit accumulation step of the workspace hash.
pub open spec fn mix_step(h: u64, c: char) -> u64 {
    ((((h ^ (c as u64)) as u128) * 1099511628211) % 0x10000000000000000) as u64
}

/// The workspace hash after the first `i` characters.
pub open spec fn mix_upto(s: Seq<char>, i: int) -> u64
    decreases i,
    when 0 <= i <= s.len()
{
    if i <= 0 {
        14695981039346656037u64
    } else {
        mix_step(mix_upto(s, i - 1), s[i - 1])
    }
}

/// The hexadecimal spelling of `n`.
pub open spec fn hex_u64(n: int) -> Seq<char>
    decreases n,
    when n >= 0
{
    if n < 16 {
        seq![hex_digit(n)]
    } else {
        hex_u64(n / 16).push(hex_digit(n % 16))
    }
}

fn hex_digit_exec(n: u64) -> (r: char)
    requires
        n < 16,
    ensures
        r == hex_digit(n as int),
{
    if n == 0 {
        '0'
    } else if n == 1 {
        '1'
    } else if n == 2 {
        '2'
    } else if n == 3 {
        '3'
    } else if n == 4 {
        '4'
    } else if n == 5 {
        '5'
    } else if n == 6 {
        '6'
    } else if n == 7 {
        '7'
    } else if n == 8 {
        '8'
    } else if n == 9 {
        '9'
    } else if n == 10 {
        'a'
    } else if n == 11 {
        'b'
    } else if n == 12 {
        'c'
    } else if n == 13 {
        'd'
    } else if n == 14 {
        'e'
    } else {
        'f'
    }
}

fn emit_hex_u64(out: &mut Vec<char>, n: u64)
    ensures
        final(out)@ == old(out)@ + hex_u64(n as int),
    decreases n,
{
    if n < 16 {
        out.push(hex_digit_exec(n));
        proof {
            assert(out@ =~= old(out)@ + hex_u64(n as int));
        }
    } else {
        emit_hex_u64(out, n / 16);
        out.push(hex_digit_exec(n % 16));
        proof {
            assert(out@ =~= old(out)@ + hex_u64(n as int));
        }
    }
}

/// The socket file name for a workspace: a deterministic hash of the
/// workspace path, so distinct workspaces never collide on one socket and
/// the same workspace always finds the same one.
pub fn socket_name_for_workspace(workspace: &str) -> (r: String)
    ensures
        r@ == "bronzite-"@ + hex_u64(mix_upto(workspace@, workspace@.len() as int) as int)
            + ".sock"@,
{
    let cs = to_chars(workspace);
    let n = cs.len();
    let mut h: u64 = 14695981039346656037;
    let mut i: usize = 0;
    while i < n
        invariant
            i <= n,
            n == cs@.len(),
            cs@ == workspace@,
            h == mix_upto(workspace@, i as int),
        decreases n - i,
    {
        let c64 = cs[i] as u64;
        let mixed: u128 = ((h ^ c64) as u128) * 1099511628211;
        h = #[verifier::truncate] (mixed as u64);
        proof {
            assert(mixed % 0x10000000000000000 == mixed as u64) by (bit_vector);
        }
        i = i + 1;
    }
    let mut out: Vec<char> = Vec::new();
    crate::codec_prim::emit_raw(&mut out, "bronzite-");
    emit_hex_u64(&mut out, h);
    crate::codec_prim::emit_raw(&mut out, ".sock");
    from_chars(out.as_slice())
}

} // verus!
