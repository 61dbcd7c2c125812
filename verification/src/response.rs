use crate::util::clock::{is_clock_instant, utc_now_micros};
use crate::util::strings::{
    contains_any,
    string_contains_any_substring,
    string_from_utf8,
};
use vstd::prelude::*;
use vstd::utf8::{encode_utf8, valid_utf8};

verus! {

/// The time from `start` to `end`, both in microseconds; the nearest value
/// that fits where the difference does not.
pub open spec fn elapsed_between(start: i64, end: i64) -> i64 {
    if end - start > i64::MAX {
        i64::MAX
    } else if end - start < i64::MIN {
        i64::MIN
    } else {
        (end - start) as i64
    }
}

/// The time from `start` to `end`.
pub fn elapsed(start: i64, end: i64) -> (micros: i64)
    ensures
        micros == elapsed_between(start, end),
{
    let difference: i128 = end as i128 - start as i128;
    if difference > i64::MAX as i128 {
        i64::MAX
    } else if difference < i64::MIN as i128 {
        i64::MIN
    } else {
        difference as i64
    }
}

/// The text that the bytes `b` encode, where they are valid UTF-8.
pub open spec fn decoded(b: Seq<u8>) -> Seq<char> {
    vstd::utf8::decode_utf8(b)
}

/// The text whose bytes are `b` is the text that `b` decodes to.
pub proof fn lemma_decoded(b: Seq<u8>, text: Seq<char>)
    requires
        encode_utf8(text) == b,
    ensures
        decoded(b) == text,
{
    vstd::utf8::encode_utf8_decode_utf8(text);
}

/// Response is the record of one operation of a driver that ended without
/// an error.
#[derive(Debug)]
pub struct Response {
    /// The host(name) of the device being interacted with.
    pub host: String,
    /// The port of the device being interacted with.
    pub port: u16,
    /// The actual input sent to the device.
    pub input: String,
    /// "Raw" (bytes) output of the operation.
    pub raw_result: Vec<u8>,
    /// The output of the operation as a string.
    pub result: String,
    /// Starting time of the operation, in microseconds since 1970.
    pub start_time: i64,
    /// Ending time of the operation, in microseconds since 1970.
    pub end_time: i64,
    /// Total time the operation took, in microseconds.
    pub elapsed_time: i64,
    /// A list of strings that, if seen in an output, indicate that the
    /// originating input/command "failed".
    pub failed_when_contains: Vec<String>,
    /// Indicates if the operation was a success or failure. Failure means
    /// that the output held one of the `failed_when_contains` strings,
    /// *not* that there was an error.
    pub failed: bool,
}

impl Response {
    /// A new `Response` for an operation that starts at the instant
    /// `now`. It counts as failed until a result is recorded.
    pub fn new_at(input: &str, host: &str, port: u16, failed_when_contains: Vec<String>, now: i64) -> (r:
        Self)
        ensures
            r.host@ == host@,
            r.port == port,
            r.input@ == input@,
            r.raw_result@.len() == 0,
            r.result@.len() == 0,
            r.start_time == now,
            r.end_time == now,
            r.elapsed_time == 0,
            r.failed_when_contains == failed_when_contains,
            r.failed,
    {
        Response {
            host: host.to_owned(),
            port,
            input: input.to_owned(),
            raw_result: Vec::new(),
            result: String::new(),
            start_time: now,
            end_time: now,
            elapsed_time: 0,
            failed_when_contains,
            failed: true,
        }
    }

    /// A new `Response` for an operation that starts now. The clock is
    /// read, and the rest is [`Response::new_at`].
    pub fn new(input: &str, host: &str, port: u16, failed_when_contains: Vec<String>) -> (r: Self)
        ensures
            r.host@ == host@,
            r.port == port,
            r.input@ == input@,
            r.raw_result@.len() == 0,
            r.result@.len() == 0,
            is_clock_instant(r.start_time),
            r.end_time == r.start_time,
            r.elapsed_time == 0,
            r.failed_when_contains == failed_when_contains,
            r.failed,
    {
        let now = utc_now_micros();
        Self::new_at(input, host, port, failed_when_contains, now)
    }

    /// Record the result `b` of the operation, which ends at the instant
    /// `now`. The response stays failed if and only if it was failed and
    /// the result holds one of the `failed_when_contains` strings.
    pub fn record_at(&mut self, b: Vec<u8>, now: i64)
        requires
            valid_utf8(b@),
        ensures
            final(self).host == old(self).host,
            final(self).port == old(self).port,
            final(self).input == old(self).input,
            final(self).failed_when_contains == old(self).failed_when_contains,
            final(self).start_time == old(self).start_time,
            final(self).end_time == now,
            final(self).elapsed_time == elapsed_between(old(self).start_time, now),
            final(self).raw_result@ == b@,
            encode_utf8(final(self).result@) == b@,
            final(self).failed == (old(self).failed && contains_any(
                final(self).result@,
                old(self).failed_when_contains@,
            )),
    {
        self.end_time = now;
        self.elapsed_time = elapsed(self.start_time, now);
        self.raw_result = crate::channel::read_until::joined(b.as_slice(), &[]);
        match string_from_utf8(b) {
            Some(result) => {
                self.result = result;
            },
            None => {},
        }
        let is_failed = string_contains_any_substring(
            self.result.as_str(),
            self.failed_when_contains.as_slice(),
        );
        if !is_failed {
            self.failed = false;
        }
    }

    /// Record the result `b` of the operation, which ends now. The clock
    /// is read, and the rest is [`Response::record_at`].
    pub fn record(&mut self, b: Vec<u8>)
        requires
            valid_utf8(b@),
        ensures
            final(self).host == old(self).host,
            final(self).port == old(self).port,
            final(self).input == old(self).input,
            final(self).failed_when_contains == old(self).failed_when_contains,
            final(self).start_time == old(self).start_time,
            is_clock_instant(final(self).end_time),
            final(self).elapsed_time == elapsed_between(old(self).start_time, final(self).end_time),
            final(self).raw_result@ == b@,
            encode_utf8(final(self).result@) == b@,
            final(self).failed == (old(self).failed && contains_any(
                final(self).result@,
                old(self).failed_when_contains@,
            )),
    {
        let now = utc_now_micros();
        self.record_at(b, now);
    }

    /// Whether `b` can be recorded: whether it is valid UTF-8.
    pub fn can_record(b: &[u8]) -> (r: bool)
        ensures
            r == valid_utf8(b@),
    {
        string_from_utf8(crate::channel::read_until::joined(b, &[])).is_some()
    }
}

/// MultiResponse is the record of a "multi" operation of a driver, like
/// `send_commands` or `send_configs`: it holds the responses of all steps
/// of the operation.
#[derive(Debug)]
pub struct MultiResponse {
    /// The host(name) of the device being interacted with.
    pub host: String,
    /// Starting time of the operation, in microseconds since 1970.
    pub start_time: i64,
    /// Ending time of the operation, in microseconds since 1970.
    pub end_time: i64,
    /// Total time the operation took, in microseconds.
    pub elapsed_time: i64,
    /// The individual responses that make up the "multi" response.
    pub responses: Vec<Response>,
    /// Indicates if one of the responses is a failure.
    pub failed: bool,
}

impl MultiResponse {
    /// A new `MultiResponse` for an operation that starts at the instant
    /// `now`.
    pub fn new_at(host: &str, now: i64) -> (r: Self)
        ensures
            r.host@ == host@,
            r.start_time == now,
            r.end_time == now,
            r.elapsed_time == 0,
            r.responses@.len() == 0,
            !r.failed,
    {
        MultiResponse {
            host: host.to_owned(),
            start_time: now,
            end_time: now,
            elapsed_time: 0,
            responses: Vec::new(),
            failed: false,
        }
    }

    /// A new `MultiResponse` for an operation that starts now. The clock
    /// is read, and the rest is [`MultiResponse::new_at`].
    pub fn new(host: &str) -> (r: Self)
        ensures
            r.host@ == host@,
            is_clock_instant(r.start_time),
            r.end_time == r.start_time,
            r.elapsed_time == 0,
            r.responses@.len() == 0,
            !r.failed,
    {
        let now = utc_now_micros();
        Self::new_at(host, now)
    }

    /// Appends a response, at the instant `now`. The multi response is
    /// failed from the first failed response on.
    pub fn record_response_at(&mut self, response: Response, now: i64)
        ensures
            final(self).host == old(self).host,
            final(self).start_time == old(self).start_time,
            final(self).end_time == now,
            final(self).elapsed_time == elapsed_between(old(self).start_time, now),
            final(self).responses@ == old(self).responses@.push(response),
            final(self).failed == (old(self).failed || response.failed),
    {
        self.end_time = now;
        self.elapsed_time = elapsed(self.start_time, now);
        if response.failed {
            self.failed = true;
        }
        self.responses.push(response);
    }

    /// Appends a response, now. The clock is read, and the rest is
    /// [`MultiResponse::record_response_at`].
    pub fn record_response(&mut self, response: Response)
        ensures
            final(self).host == old(self).host,
            final(self).start_time == old(self).start_time,
            is_clock_instant(final(self).end_time),
            final(self).elapsed_time == elapsed_between(old(self).start_time, final(self).end_time),
            final(self).responses@ == old(self).responses@.push(response),
            final(self).failed == (old(self).failed || response.failed),
    {
        let now = utc_now_micros();
        self.record_response_at(response, now);
    }
}

} // verus!
