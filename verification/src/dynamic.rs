//! The data queries: commands whose reply is computed from readings.
//!
//! Each query is known by one request string. Three of them are answered
//! with a frame and have a request byte that the frame echoes; the battery
//! voltage is answered with plain text and has none.

use vstd::prelude::*;
use crate::text::{lemma_strip_appended_ending, str_equal, strip_line_ending, trim_line_ending};

verus! {

/// The queries that are answered from readings.
#[derive(Clone, Copy, Debug, PartialEq, Eq, Structural)]
pub enum DynamicCommand {
    /// The keep-alive query of the tester.
    Heartbeat,
    /// Engine speed.
    GetRpm,
    /// Coolant temperature.
    GetCoolantTemp,
    /// Battery voltage.
    GetVoltage,
}

/// The query that the stripped line `key` asks for, if it is one.
pub open spec fn query_of(key: Seq<char>) -> Option<DynamicCommand> {
    if key == "210001"@ {
        Some(DynamicCommand::Heartbeat)
    } else if key == "210C01"@ {
        Some(DynamicCommand::GetRpm)
    } else if key == "210501"@ {
        Some(DynamicCommand::GetCoolantTemp)
    } else if key == "ATRV"@ {
        Some(DynamicCommand::GetVoltage)
    } else {
        None
    }
}

impl DynamicCommand {
    /// The text a tester sends to ask for this query.
    pub open spec fn request_text(self) -> Seq<char> {
        match self {
            DynamicCommand::Heartbeat => "210001"@,
            DynamicCommand::GetRpm => "210C01"@,
            DynamicCommand::GetCoolantTemp => "210501"@,
            DynamicCommand::GetVoltage => "ATRV"@,
        }
    }

    /// The label under which this query is logged.
    pub open spec fn label_text(self) -> Seq<char> {
        match self {
            DynamicCommand::Heartbeat => "Heartbeat: 2100011"@,
            DynamicCommand::GetRpm => "GetRpm: 210C011"@,
            DynamicCommand::GetCoolantTemp => "GetCoolantTemp: 2105011"@,
            DynamicCommand::GetVoltage => "GetVoltage: ATRV1"@,
        }
    }

    /// The byte that the reply frame echoes, for the queries answered with
    /// a frame.
    pub open spec fn spec_request_byte(self) -> Option<u8> {
        match self {
            DynamicCommand::Heartbeat => Some(0x00u8),
            DynamicCommand::GetRpm => Some(0x0Cu8),
            DynamicCommand::GetCoolantTemp => Some(0x05u8),
            DynamicCommand::GetVoltage => None,
        }
    }

    /// The text a tester sends to ask for this query.
    pub fn request_str(self) -> (text: &'static str)
        ensures
            text@ == self.request_text(),
    {
        match self {
            DynamicCommand::Heartbeat => "210001",
            DynamicCommand::GetRpm => "210C01",
            DynamicCommand::GetCoolantTemp => "210501",
            DynamicCommand::GetVoltage => "ATRV",
        }
    }

    /// The request text as an owned string.
    pub fn to_string(&self) -> (text: String)
        ensures
            text@ == self.request_text(),
    {
        self.request_str().to_owned()
    }

    /// The label under which this query is logged: its name and its request
    /// text.
    pub fn debug_label(&self) -> (text: String)
        ensures
            text@ == self.label_text(),
    {
        let label: &'static str = match self {
            DynamicCommand::Heartbeat => "Heartbeat: 2100011",
            DynamicCommand::GetRpm => "GetRpm: 210C011",
            DynamicCommand::GetCoolantTemp => "GetCoolantTemp: 2105011",
            DynamicCommand::GetVoltage => "GetVoltage: ATRV1",
        };
        label.to_owned()
    }

    /// The byte that the reply frame echoes, or `None` for the one query
    /// that is answered with text.
    #[verifier::when_used_as_spec(spec_request_byte)]
    pub fn request_byte(self) -> (byte: Option<u8>)
        ensures
            byte == self.spec_request_byte(),
    {
        match self {
            DynamicCommand::Heartbeat => Some(0x00),
            DynamicCommand::GetRpm => Some(0x0C),
            DynamicCommand::GetCoolantTemp => Some(0x05),
            DynamicCommand::GetVoltage => None,
        }
    }

    /// The query that `candidate` asks for, if it is one.
    ///
    /// `candidate` is compared without the line endings at its end, and
    /// must then be a request text to the letter.
    pub fn identify(candidate: &str) -> (query: Option<DynamicCommand>)
        ensures
            query == query_of(strip_line_ending(candidate@)),
    {
        let key: &str = trim_line_ending(candidate);
        if str_equal(key, "210001") {
            Some(DynamicCommand::Heartbeat)
        } else if str_equal(key, "210C01") {
            Some(DynamicCommand::GetRpm)
        } else if str_equal(key, "210501") {
            Some(DynamicCommand::GetCoolantTemp)
        } else if str_equal(key, "ATRV") {
            Some(DynamicCommand::GetVoltage)
        } else {
            None
        }
    }
}

/// No two queries share a request text.
pub proof fn lemma_request_text_injective(a: DynamicCommand, b: DynamicCommand)
    requires
        a.request_text() == b.request_text(),
    ensures
        a == b,
{
    reveal_strlit("210001");
    reveal_strlit("210C01");
    reveal_strlit("210501");
    reveal_strlit("ATRV");
    // The three texts of one length differ in their fourth character.
    assert("210001"@[3] != "210C01"@[3]);
    assert("210001"@[3] != "210501"@[3]);
    assert("210C01"@[3] != "210501"@[3]);
}

/// A line asks for a query exactly when it is the request text of that
/// query.
pub proof fn lemma_query_of_exact(key: Seq<char>, query: DynamicCommand)
    ensures
        query_of(key) == Some(query) <==> key == query.request_text(),
{
    if key == query.request_text() {
        match query_of(key) {
            Some(found) => {
                lemma_request_text_injective(found, query);
            },
            None => {},
        }
    }
}

/// A request text, with or without line endings after it, is recognised as
/// its query.
pub proof fn lemma_identify_request_text(query: DynamicCommand)
    ensures
        query_of(query.request_text()) == Some(query),
        strip_line_ending(query.request_text()) == query.request_text(),
        strip_line_ending(query.request_text().push('\r')) == query.request_text(),
{
    lemma_query_of_exact(query.request_text(), query);
    reveal_strlit("210001");
    reveal_strlit("210C01");
    reveal_strlit("210501");
    reveal_strlit("ATRV");
    lemma_strip_appended_ending(query.request_text(), '\r');
}

/// A frame echoes a different byte for each query that it answers.
pub proof fn lemma_request_byte_injective(a: DynamicCommand, b: DynamicCommand)
    requires
        a.spec_request_byte() is Some,
        a.spec_request_byte() == b.spec_request_byte(),
    ensures
        a == b,
{
}

} // verus!
