//! The guarantees that tie the strategy, the handshake and the validator
//! together, stated and proved once for all inputs.

use vstd::prelude::*;
use crate::request::connect_request_spec;
use crate::request::spec_handshake;
use crate::response::initial_scan_state;
use crate::response::scan_next;
use crate::response::scan_run;
use crate::response::CR;
use crate::response::LF;
use crate::response::ScanState;
use crate::response::ValidateError;
use crate::strategy::spec_fallback_route;
use crate::strategy::spec_initial_route;
use crate::strategy::spec_route_is_proxied;
use crate::strategy::Route;

verus! {

/// With no proxy configured, the connection is direct and silent: the
/// first route is the direct one and is not proxied, the handshake writes
/// zero bytes, and the response cursor begins in its terminal state, so
/// the header scan consumes none of the destination's bytes — whatever
/// they are, the first read returns raw payload.
pub proof fn lemma_no_proxy_direct_and_silent(host: Seq<char>, port: u16, payload: Seq<u8>)
    ensures
        spec_initial_route(false) == Route::Direct,
        !spec_route_is_proxied(spec_initial_route(false)),
        spec_handshake(false, host, port) == Seq::<char>::empty(),
        initial_scan_state(false) == ScanState::Done,
        scan_run(initial_scan_state(false), payload) == Ok::<(ScanState, int), ValidateError>(
            (ScanState::Done, 0),
        ),
{
}

/// With a proxy configured, the first route goes through it, the stream is
/// proxied, and the handshake writes exactly the CONNECT request line for
/// the tunnel target.
pub proof fn lemma_proxy_route_emits_connect(host: Seq<char>, port: u16)
    ensures
        spec_initial_route(true) == Route::Proxied,
        spec_route_is_proxied(spec_initial_route(true)),
        spec_handshake(true, host, port) == connect_request_spec(host, port),
{
}

/// The proxy-to-direct fallback is one-shot and silent: a failed proxied
/// attempt is followed by exactly one direct attempt, whose stream is not
/// proxied and receives no handshake bytes, and a failed direct attempt —
/// original or fallback — has no further fallback.
pub proof fn lemma_fallback_is_one_shot_and_silent(host: Seq<char>, port: u16)
    ensures
        spec_fallback_route(Route::Proxied) == Some(Route::Direct),
        !spec_route_is_proxied(Route::Direct),
        spec_handshake(spec_route_is_proxied(Route::Direct), host, port) == Seq::<char>::empty(),
        spec_fallback_route(Route::Direct) is None,
{
}

/// A header scan begun right after the status line consumes, on
/// completion, a block whose last four bytes are exactly CR LF CR LF: the
/// scan ends at the headers' terminating blank line and nowhere else, and
/// everything after it is untouched payload.
pub proof fn lemma_scan_completion_ends_with_blank_line(bytes: Seq<u8>, n: int)
    requires
        scan_run(ScanState::HeaderOk, bytes) == Ok::<(ScanState, int), ValidateError>(
            (ScanState::Done, n),
        ),
    ensures
        4 <= n <= bytes.len(),
        bytes[n - 4] == CR,
        bytes[n - 3] == LF,
        bytes[n - 2] == CR,
        bytes[n - 1] == LF,
    decreases bytes.len(),
{
    assert(bytes.len() > 0);
    if bytes[0] == CR {
        let rest1 = bytes.skip(1);
        assert(scan_run(ScanState::FirstCr, rest1) == Ok::<(ScanState, int), ValidateError>(
            (ScanState::Done, n - 1),
        ));
        assert(rest1.len() > 0);
        assert(rest1[0] == LF);
        let rest2 = rest1.skip(1);
        assert(scan_run(ScanState::FirstLf, rest2) == Ok::<(ScanState, int), ValidateError>(
            (ScanState::Done, n - 2),
        ));
        assert(rest2.len() > 0);
        if rest2[0] == CR {
            let rest3 = rest2.skip(1);
            assert(scan_run(ScanState::SecondCr, rest3) == Ok::<(ScanState, int), ValidateError>(
                (ScanState::Done, n - 3),
            ));
            assert(rest3.len() > 0);
            assert(rest3[0] == LF);
            assert(scan_run(ScanState::Done, rest3.skip(1)) == Ok::<
                (ScanState, int),
                ValidateError,
            >((ScanState::Done, n - 4)));
            assert(n == 4);
            assert(bytes[1] == LF && bytes[2] == CR && bytes[3] == LF);
        } else {
            let rest3 = rest2.skip(1);
            assert(scan_run(ScanState::HeaderOk, rest3) == Ok::<(ScanState, int), ValidateError>(
                (ScanState::Done, n - 3),
            ));
            lemma_scan_completion_ends_with_blank_line(rest3, n - 3);
            assert(rest3 =~= bytes.skip(3));
            assert(bytes[n - 4] == CR && bytes[n - 3] == LF && bytes[n - 2] == CR && bytes[n - 1]
                == LF);
        }
    } else {
        let rest1 = bytes.skip(1);
        assert(scan_run(ScanState::HeaderOk, rest1) == Ok::<(ScanState, int), ValidateError>(
            (ScanState::Done, n - 1),
        ));
        lemma_scan_completion_ends_with_blank_line(rest1, n - 1);
    }
}

/// The tunneled payload never affects validation: a scan that completes by
/// consuming a header block exactly consumes the same block, and nothing
/// more, whatever bytes follow it.
pub proof fn lemma_payload_does_not_affect_scan(s: ScanState, block: Seq<u8>, payload: Seq<u8>)
    requires
        scan_run(s, block) == Ok::<(ScanState, int), ValidateError>(
            (ScanState::Done, block.len() as int),
        ),
    ensures
        scan_run(s, block + payload) == Ok::<(ScanState, int), ValidateError>(
            (ScanState::Done, block.len() as int),
        ),
    decreases block.len(),
{
    if s is Done {
        assert(block.len() == 0);
        assert(block + payload =~= payload);
    } else {
        assert(block.len() > 0);
        let b = block[0];
        match scan_next(s, b) {
            Ok(s2) => {
                assert(scan_run(s2, block.skip(1)) == Ok::<(ScanState, int), ValidateError>(
                    (ScanState::Done, block.skip(1).len() as int),
                ));
                lemma_payload_does_not_affect_scan(s2, block.skip(1), payload);
                assert((block + payload)[0] == b);
                assert((block + payload).skip(1) =~= block.skip(1) + payload);
            },
            Err(_) => {
                assert(false);
            },
        }
    }
}

/// The header scan is idempotent once complete: run on a cursor already in
/// its terminal state, it consumes no bytes and stays there, whatever
/// input follows.
pub proof fn lemma_scan_done_is_noop(bytes: Seq<u8>)
    ensures
        scan_run(ScanState::Done, bytes) == Ok::<(ScanState, int), ValidateError>(
            (ScanState::Done, 0),
        ),
{
}

} // verus!
