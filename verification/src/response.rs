//! Validation of a proxy's CONNECT response: a fixed 12-byte status-line
//! prefix, then a byte-by-byte scan for the blank line that ends the
//! headers. The scan is a resumable cursor: it can stop after any byte and
//! pick up exactly where it left off, and it never consumes a byte of the
//! tunneled payload that follows the blank line.

use vstd::prelude::*;
use crate::utf8::is_utf8;
use crate::utf8::utf8_valid;

verus! {

/// The scan position of the response validator. `Started` awaits the
/// 12-byte status-line prefix; the four middle states track progress
/// towards the header-terminating CR LF CR LF; `Done` is terminal, with
/// the next byte of input being the first byte of tunneled payload.
#[derive(Clone, Copy, Debug, PartialEq, Eq, Structural)]
pub enum ScanState {
    Started,
    HeaderOk,
    FirstCr,
    FirstLf,
    SecondCr,
    Done,
}

/// Why validation of a CONNECT response failed.
#[derive(Clone, Copy, Debug, PartialEq, Eq, Structural)]
pub enum ValidateError {
    /// The 12-byte status-line prefix is not valid text.
    NotText,
    /// The status field of the prefix is not a number.
    NotNumber,
    /// The status code lies outside the success range `[200, 300)`.
    NotSuccess,
    /// A carriage return was not followed by a line feed.
    InvalidEndOfLine,
    /// A byte arrived in a state with no transition defined for it.
    InvalidHeader,
}

impl ValidateError {
    /// The descriptive text the error surfaces to the caller.
    pub fn message(&self) -> (r: &'static str)
        ensures
            r@ == spec_message(*self),
    {
        match self {
            ValidateError::NotText => "invalid status: not valid text",
            ValidateError::NotNumber => "invalid status: not a number",
            ValidateError::NotSuccess => "invalid status: not success",
            ValidateError::InvalidEndOfLine => "invalid end of line",
            ValidateError::InvalidHeader => "invalid header",
        }
    }
}

/// The text of each validation error.
pub open spec fn spec_message(e: ValidateError) -> Seq<char> {
    match e {
        ValidateError::NotText => "invalid status: not valid text"@,
        ValidateError::NotNumber => "invalid status: not a number"@,
        ValidateError::NotSuccess => "invalid status: not success"@,
        ValidateError::InvalidEndOfLine => "invalid end of line"@,
        ValidateError::InvalidHeader => "invalid header"@,
    }
}

/// The carriage-return byte.
pub const CR: u8 = 13;

/// The line-feed byte.
pub const LF: u8 = 10;

/// The transition table of the header scan: from `HeaderOk` a CR starts a
/// line ending and everything else is opaque header content; after a CR
/// only LF may follow; after the first CR LF a second CR announces the
/// blank line, anything else resumes an ordinary header line; the second
/// CR LF completes the scan. `Started` and `Done` define no byte
/// transition at all.
pub open spec fn scan_next(s: ScanState, b: u8) -> Result<ScanState, ValidateError> {
    match s {
        ScanState::HeaderOk => if b == CR {
            Ok(ScanState::FirstCr)
        } else {
            Ok(ScanState::HeaderOk)
        },
        ScanState::FirstCr => if b == LF {
            Ok(ScanState::FirstLf)
        } else {
            Err(ValidateError::InvalidEndOfLine)
        },
        ScanState::FirstLf => if b == CR {
            Ok(ScanState::SecondCr)
        } else {
            Ok(ScanState::HeaderOk)
        },
        ScanState::SecondCr => if b == LF {
            Ok(ScanState::Done)
        } else {
            Err(ValidateError::InvalidEndOfLine)
        },
        ScanState::Started => Err(ValidateError::InvalidHeader),
        ScanState::Done => Err(ValidateError::InvalidHeader),
    }
}

/// Running the header scan from state `s` over `bytes`: the resulting
/// state and the number of bytes consumed, or the first error. A `Done`
/// state consumes nothing; otherwise bytes are taken one at a time until
/// the scan completes, fails, or the input runs out (a suspension point —
/// the returned state resumes the scan exactly there).
pub open spec fn scan_run(s: ScanState, bytes: Seq<u8>) -> Result<
    (ScanState, int),
    ValidateError,
>
    decreases bytes.len(),
{
    if s is Done {
        Ok((s, 0))
    } else if bytes.len() == 0 {
        Ok((s, 0))
    } else {
        match scan_next(s, bytes[0]) {
            Err(e) => Err(e),
            Ok(s2) => match scan_run(s2, bytes.skip(1)) {
                Err(e) => Err(e),
                Ok((s3, n)) => Ok((s3, n + 1)),
            },
        }
    }
}

/// Whether the three bytes of the status field are decimal digits.
pub open spec fn is_digit(b: u8) -> bool {
    48 <= b <= 57
}

/// Whether the status field (byte offsets 9 to 11 of the prefix) is
/// numeric.
pub open spec fn status_numeric(prefix: Seq<u8>) -> bool {
    is_digit(prefix[9]) && is_digit(prefix[10]) && is_digit(prefix[11])
}

/// The status code the three digits of the status field spell.
pub open spec fn status_value(prefix: Seq<u8>) -> int {
    (prefix[9] - 48) * 100 + (prefix[10] - 48) * 10 + (prefix[11] - 48)
}

/// Whether a status code lies in the success range `[200, 300)`.
pub open spec fn status_success(code: int) -> bool {
    200 <= code < 300
}

/// Checks the 12-byte status-line prefix of a proxy's reply, of the
/// assumed fixed shape `"HTTP/1.x ddd"`: the whole prefix must be valid
/// text, its last three bytes must be decimal digits, and the code they
/// spell must lie in `[200, 300)`. Returns the code, or the first of
/// those three failures.
pub fn validate_status_prefix(prefix: &[u8]) -> (r: Result<u16, ValidateError>)
    requires
        prefix@.len() == 12,
    ensures
        match r {
            Ok(code) => {
                &&& is_utf8(prefix@)
                &&& status_numeric(prefix@)
                &&& code == status_value(prefix@)
                &&& status_success(code as int)
            },
            Err(e) => {
                ||| (e == ValidateError::NotText && !is_utf8(prefix@))
                ||| (e == ValidateError::NotNumber && is_utf8(prefix@) && !status_numeric(
                    prefix@,
                ))
                ||| (e == ValidateError::NotSuccess && is_utf8(prefix@) && status_numeric(prefix@)
                    && !status_success(status_value(prefix@)))
            },
        },
{
    if !utf8_valid(prefix) {
        return Err(ValidateError::NotText);
    }
    let d0 = prefix[9];
    let d1 = prefix[10];
    let d2 = prefix[11];
    if !(48 <= d0 && d0 <= 57 && 48 <= d1 && d1 <= 57 && 48 <= d2 && d2 <= 57) {
        return Err(ValidateError::NotNumber);
    }
    let code: u16 = (d0 - 48) as u16 * 100 + (d1 - 48) as u16 * 10 + (d2 - 48) as u16;
    if code < 200 || code >= 300 {
        return Err(ValidateError::NotSuccess);
    }
    Ok(code)
}

/// One step of the header scan, as `scan_next` defines it.
pub fn scan_step(s: ScanState, b: u8) -> (r: Result<ScanState, ValidateError>)
    ensures
        r == scan_next(s, b),
{
    match s {
        ScanState::HeaderOk => if b == CR {
            Ok(ScanState::FirstCr)
        } else {
            Ok(ScanState::HeaderOk)
        },
        ScanState::FirstCr => if b == LF {
            Ok(ScanState::FirstLf)
        } else {
            Err(ValidateError::InvalidEndOfLine)
        },
        ScanState::FirstLf => if b == CR {
            Ok(ScanState::SecondCr)
        } else {
            Ok(ScanState::HeaderOk)
        },
        ScanState::SecondCr => if b == LF {
            Ok(ScanState::Done)
        } else {
            Err(ValidateError::InvalidEndOfLine)
        },
        ScanState::Started => Err(ValidateError::InvalidHeader),
        ScanState::Done => Err(ValidateError::InvalidHeader),
    }
}

/// The scan position a fresh cursor starts in: `Started` on a proxied
/// stream, `Done` at once on a direct one, where there is no response to
/// validate.
pub open spec fn initial_scan_state(is_proxied: bool) -> ScanState {
    if is_proxied {
        ScanState::Started
    } else {
        ScanState::Done
    }
}

/// The shift of a scan result's consumed count by `k` bytes already
/// consumed.
spec fn shift_scan(r: Result<(ScanState, int), ValidateError>, k: int) -> Result<
    (ScanState, int),
    ValidateError,
> {
    match r {
        Ok((s, n)) => Ok((s, n + k)),
        Err(e) => Err(e),
    }
}

/// The resumable cursor of an in-progress response validation. Owned only
/// by the connect operation that created it and dropped the moment
/// validation completes or fails.
#[derive(Clone, Copy, Debug, PartialEq, Eq, Structural)]
pub struct ResponseCursor {
    pub state: ScanState,
}

impl ResponseCursor {
    /// A fresh cursor: awaiting the status line on a proxied stream,
    /// already complete on a direct one.
    pub fn new(is_proxied: bool) -> (r: ResponseCursor)
        ensures
            r.state == initial_scan_state(is_proxied),
    {
        if is_proxied {
            ResponseCursor { state: ScanState::Started }
        } else {
            ResponseCursor { state: ScanState::Done }
        }
    }

    /// Whether validation is complete and the stream is positioned at the
    /// first byte of tunneled payload.
    pub fn is_done(&self) -> (r: bool)
        ensures
            r == (self.state is Done),
    {
        match self.state {
            ScanState::Done => true,
            _ => false,
        }
    }

    /// How many bytes of input the cursor asks for next: the 12-byte
    /// status-line prefix at the start, one header byte at a time after
    /// that, and none once done.
    pub fn bytes_needed(&self) -> (r: usize)
        ensures
            self.state is Started ==> r == 12,
            self.state is Done ==> r == 0,
            !(self.state is Started) && !(self.state is Done) ==> r == 1,
    {
        match self.state {
            ScanState::Started => 12,
            ScanState::Done => 0,
            _ => 1,
        }
    }

    /// Consumes the 12-byte status-line prefix: on success the code is in
    /// `[200, 300)` and the cursor moves to scanning headers; on failure
    /// the cursor is unchanged and the error says which check failed.
    pub fn consume_status(&mut self, prefix: &[u8]) -> (r: Result<u16, ValidateError>)
        requires
            old(self).state is Started,
            prefix@.len() == 12,
        ensures
            match r {
                Ok(code) => {
                    &&& final(self).state is HeaderOk
                    &&& is_utf8(prefix@)
                    &&& status_numeric(prefix@)
                    &&& code == status_value(prefix@)
                    &&& status_success(code as int)
                },
                Err(e) => {
                    &&& *final(self) == *old(self)
                    &&& {
                        ||| (e == ValidateError::NotText && !is_utf8(prefix@))
                        ||| (e == ValidateError::NotNumber && is_utf8(prefix@) && !status_numeric(
                            prefix@,
                        ))
                        ||| (e == ValidateError::NotSuccess && is_utf8(prefix@) && status_numeric(
                            prefix@,
                        ) && !status_success(status_value(prefix@)))
                    }
                },
            },
    {
        match validate_status_prefix(prefix) {
            Ok(code) => {
                self.state = ScanState::HeaderOk;
                Ok(code)
            },
            Err(e) => Err(e),
        }
    }

    /// Feeds header bytes to the scan, one at a time, until it completes,
    /// fails, or the input runs out. Returns how many bytes were consumed:
    /// a cursor that is already done consumes none, and a cursor that
    /// completes mid-input leaves every later byte — the tunneled payload —
    /// untouched. On failure the cursor is unchanged.
    pub fn feed(&mut self, bytes: &[u8]) -> (r: Result<usize, ValidateError>)
        ensures
            match r {
                Ok(n) => {
                    &&& n <= bytes@.len()
                    &&& scan_run(old(self).state, bytes@) == Ok::<(ScanState, int), ValidateError>(
                        (final(self).state, n as int),
                    )
                    &&& (final(self).state is Done || n == bytes@.len())
                },
                Err(e) => {
                    &&& *final(self) == *old(self)
                    &&& scan_run(old(self).state, bytes@) == Err::<
                        (ScanState, int),
                        ValidateError,
                    >(e)
                },
            },
    {
        let ghost s0 = self.state;
        let mut st = self.state;
        let n = bytes.len();
        let mut i: usize = 0;
        proof {
            assert(bytes@.skip(0) =~= bytes@);
        }
        while i < n && st != ScanState::Done
            invariant
                i <= n,
                n == bytes@.len(),
                s0 == old(self).state,
                *self == *old(self),
                scan_run(s0, bytes@) == shift_scan(scan_run(st, bytes@.skip(i as int)), i as int),
            decreases n - i,
        {
            let b = bytes[i];
            proof {
                assert(bytes@.skip(i as int)[0] == bytes@[i as int]);
                assert(bytes@.skip(i as int).skip(1) =~= bytes@.skip(i as int + 1));
            }
            match scan_step(st, b) {
                Err(e) => {
                    return Err(e);
                },
                Ok(s2) => {
                    st = s2;
                    i = i + 1;
                },
            }
        }
        proof {
            if !(st is Done) {
                assert(bytes@.skip(i as int).len() == 0);
            }
        }
        self.state = st;
        Ok(i)
    }
}

} // verus!
