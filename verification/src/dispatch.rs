//! One command line in, one reply out.
//!
//! A line is answered from the static table when the table holds it. If not,
//! and the line is a data query, the reply is computed from the readings
//! handed in: a frame for the queries that have a request byte, the reading
//! as text followed by the prompt for the one that has none. Any other line
//! is refused; what is sent then is for the caller to decide, and
//! [`respond`] is the form of that decision in which a fixed reply is sent.
//!
//! Nothing here keeps state: the reply is a function of the table, the line
//! and the readings.

use vstd::prelude::*;
use vstd::slice::slice_to_vec;
use crate::dynamic::{query_of, DynamicCommand};
use crate::error::Error;
use crate::frame::{
    be_bytes,
    frame_bytes,
    generate_kwp_response,
    is_response_frame,
    lemma_frame_is_response_frame,
    u16_be_bytes,
    valid_payload_len,
};
use crate::table::{static_reply, CommandTable, StaticCommandView};
use crate::text::{strip_line_ending, text_bytes};

verus! {

/// The readings that the data queries report.
#[derive(Debug)]
pub struct SensorValues {
    /// Status byte sent in reply to the keep-alive query.
    pub heartbeat: u8,
    /// Engine speed as the unit reports it, sent most significant byte
    /// first.
    pub rpm: u16,
    /// Coolant temperature as the unit reports it.
    pub coolant_temp: u8,
    /// Battery voltage as the text to send, without the prompt.
    pub voltage: String,
}

/// The readings as mathematical values.
pub ghost struct SensorValuesView {
    pub heartbeat: u8,
    pub rpm: u16,
    pub coolant_temp: u8,
    pub voltage: Seq<char>,
}

impl View for SensorValues {
    type V = SensorValuesView;

    open spec fn view(&self) -> SensorValuesView {
        SensorValuesView {
            heartbeat: self.heartbeat,
            rpm: self.rpm,
            coolant_temp: self.coolant_temp,
            voltage: self.voltage@,
        }
    }
}

impl Clone for SensorValues {
    fn clone(&self) -> (copy: SensorValues)
        ensures
            copy@ == self@,
    {
        SensorValues {
            heartbeat: self.heartbeat,
            rpm: self.rpm,
            coolant_temp: self.coolant_temp,
            voltage: self.voltage.clone(),
        }
    }
}

impl Default for SensorValues {
    /// The readings of a unit with the engine stopped: no revolutions, a
    /// coolant byte of `0x7E`, a battery at `12.6V`.
    fn default() -> (readings: SensorValues)
        ensures
            readings@ == (SensorValuesView {
                heartbeat: 0x00,
                rpm: 0x0000,
                coolant_temp: 0x7E,
                voltage: "12.6V"@,
            }),
    {
        SensorValues { heartbeat: 0x00, rpm: 0x0000, coolant_temp: 0x7E, voltage: "12.6V".to_owned() }
    }
}

/// The bytes that close a plain-text reply: line feed, carriage return and
/// the prompt `>`.
pub open spec fn prompt_bytes() -> Seq<u8> {
    seq![0x0Au8, 0x0Du8, 0x3Eu8]
}

/// The bytes sent when a line is refused and the caller has no reply of its
/// own: `?`, two line feeds, the prompt `>` and a line feed.
pub open spec fn default_fallback_bytes() -> Seq<u8> {
    seq![0x3Fu8, 0x0Au8, 0x0Au8, 0x3Eu8, 0x0Au8]
}

/// The reading that `query` reports, as the bytes that are sent for it.
pub open spec fn query_payload(query: DynamicCommand, readings: SensorValuesView) -> Seq<u8> {
    match query {
        DynamicCommand::Heartbeat => seq![readings.heartbeat],
        DynamicCommand::GetRpm => be_bytes(readings.rpm),
        DynamicCommand::GetCoolantTemp => seq![readings.coolant_temp],
        DynamicCommand::GetVoltage => text_bytes(readings.voltage),
    }
}

/// The reply to `query`: a frame around the reading where the query has a
/// request byte, the reading followed by the prompt where it has none.
pub open spec fn dynamic_reply(query: DynamicCommand, readings: SensorValuesView) -> Seq<u8> {
    match query.spec_request_byte() {
        Some(request) => frame_bytes(request, query_payload(query, readings)),
        None => query_payload(query, readings) + prompt_bytes(),
    }
}

/// The reply to `line`, or `None` where the line is neither in `table` nor
/// a data query.
pub open spec fn dispatch_reply(
    table: Seq<StaticCommandView>,
    line: Seq<char>,
    readings: SensorValuesView,
) -> Option<Seq<u8>> {
    let key = strip_line_ending(line);
    match static_reply(table, key) {
        Some(response) => Some(text_bytes(response)),
        None => match query_of(key) {
            Some(query) => Some(dynamic_reply(query, readings)),
            None => None,
        },
    }
}

/// A result of [`dispatch`] as mathematical values.
pub open spec fn result_view(result: Result<Vec<u8>, Error>) -> Result<Seq<u8>, Error> {
    match result {
        Ok(reply) => Ok(reply@),
        Err(error) => Err(error),
    }
}

/// What [`dispatch`] promises of its result.
pub open spec fn dispatch_returns(
    table: Seq<StaticCommandView>,
    line: Seq<char>,
    readings: SensorValuesView,
    result: Result<Seq<u8>, Error>,
) -> bool {
    match dispatch_reply(table, line, readings) {
        Some(reply) => result == Ok::<Seq<u8>, Error>(reply),
        None => result == Err::<Seq<u8>, Error>(Error::UnrecognizedCommand),
    }
}

/// Dispatch is a function of its input: whatever two calls with the same
/// table, the same line and the same readings return is the same.
pub proof fn lemma_dispatch_deterministic(
    table: Seq<StaticCommandView>,
    line: Seq<char>,
    readings: SensorValuesView,
    first: Result<Seq<u8>, Error>,
    second: Result<Seq<u8>, Error>,
)
    requires
        dispatch_returns(table, line, readings, first),
        dispatch_returns(table, line, readings, second),
    ensures
        first == second,
{
}

/// Line endings after a command do not change its reply.
pub proof fn lemma_dispatch_ignores_line_ending(
    table: Seq<StaticCommandView>,
    line: Seq<char>,
    readings: SensorValuesView,
)
    ensures
        dispatch_reply(table, line.push('\r'), readings) == dispatch_reply(table, line, readings),
        dispatch_reply(table, line.push('\n'), readings) == dispatch_reply(table, line, readings),
        dispatch_reply(table, strip_line_ending(line), readings) == dispatch_reply(
            table,
            line,
            readings,
        ),
{
    crate::text::lemma_strip_appended_ending(line, '\r');
    crate::text::lemma_strip_appended_ending(line, '\n');
    crate::text::lemma_strip_idempotent(line);
}

/// The data queries answered with a frame get a response frame that echoes
/// their request byte and carries the reading.
pub proof fn lemma_frame_queries(query: DynamicCommand, readings: SensorValuesView)
    requires
        query.spec_request_byte() is Some,
    ensures
        valid_payload_len(query_payload(query, readings).len()),
        is_response_frame(dynamic_reply(query, readings)),
        dynamic_reply(query, readings)[4] == query.spec_request_byte()->0,
        dynamic_reply(query, readings).len() == 6 + query_payload(query, readings).len(),
{
    lemma_frame_is_response_frame(query.spec_request_byte()->0, query_payload(query, readings));
}

/// The reading that `query` reports, as the bytes that are sent for it.
pub fn reading_bytes(query: DynamicCommand, readings: &SensorValues) -> (payload: Vec<u8>)
    ensures
        payload@ == query_payload(query, readings@),
{
    match query {
        DynamicCommand::Heartbeat => {
            let mut payload: Vec<u8> = Vec::new();
            payload.push(readings.heartbeat);
            payload
        },
        DynamicCommand::GetRpm => slice_to_vec(u16_be_bytes(readings.rpm).as_slice()),
        DynamicCommand::GetCoolantTemp => {
            let mut payload: Vec<u8> = Vec::new();
            payload.push(readings.coolant_temp);
            payload
        },
        DynamicCommand::GetVoltage => readings.voltage.as_str().as_bytes_vec(),
    }
}

/// Computes the reply to `query` from `readings`.
pub fn answer_query(query: DynamicCommand, readings: &SensorValues) -> (reply: Vec<u8>)
    ensures
        reply@ == dynamic_reply(query, readings@),
{
    let payload: Vec<u8> = reading_bytes(query, readings);
    match query.request_byte() {
        Some(request) => generate_kwp_response(request, payload.as_slice()),
        None => {
            let mut reply: Vec<u8> = payload;
            reply.push(0x0A);
            reply.push(0x0D);
            reply.push(0x3E);
            reply
        },
    }
}

/// Answers one command line.
///
/// The line is looked up in `table` first; a line that the table does not
/// hold is answered as a data query if it is one, and refused with
/// [`Error::UnrecognizedCommand`] if it is not.
pub fn dispatch(
    table: &CommandTable,
    line: &str,
    readings: &SensorValues,
) -> (result: Result<Vec<u8>, Error>)
    ensures
        dispatch_returns(table@, line@, readings@, result_view(result)),
        result is Ok <==> dispatch_reply(table@, line@, readings@) is Some,
{
    match table.lookup(line) {
        Some(response) => Ok(response.as_bytes_vec()),
        None => match DynamicCommand::identify(line) {
            Some(query) => Ok(answer_query(query, readings)),
            None => Err(Error::UnrecognizedCommand),
        },
    }
}

/// The reply that the transport sends where it has none of its own.
pub fn default_fallback() -> (reply: Vec<u8>)
    ensures
        reply@ == default_fallback_bytes(),
{
    let mut reply: Vec<u8> = Vec::new();
    reply.push(0x3F);
    reply.push(0x0A);
    reply.push(0x0A);
    reply.push(0x3E);
    reply.push(0x0A);
    reply
}

/// Answers one command line, with `fallback` as the reply to a line that
/// [`dispatch`] refuses.
pub fn respond(
    table: &CommandTable,
    line: &str,
    readings: &SensorValues,
    fallback: &[u8],
) -> (reply: Vec<u8>)
    ensures
        reply@ == match dispatch_reply(table@, line@, readings@) {
            Some(answer) => answer,
            None => fallback@,
        },
{
    match dispatch(table, line, readings) {
        Ok(answer) => answer,
        Err(_) => slice_to_vec(fallback),
    }
}

} // verus!
