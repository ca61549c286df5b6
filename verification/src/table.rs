//! The static command table: commands that are answered with a fixed string.
//!
//! A table is a list of [`StaticCommand`] entries. A candidate line matches
//! an entry when the two are the same text once the line endings at the end
//! of each are stripped; nothing looser (no prefix, no case folding) counts
//! as a match. A [`CommandTable`] never holds two entries that would match
//! the same line, so the reply to a line does not depend on the order of the
//! entries.

use vstd::prelude::*;
use crate::error::Error;
use crate::text::{str_equal, strip_line_ending, trim_line_ending};

verus! {

/// One entry of the static table: a command and the reply sent for it,
/// control characters and prompt included.
#[derive(Clone, Copy, Debug)]
pub struct StaticCommand {
    /// The command as a tester sends it; case counts.
    pub command: &'static str,
    /// The reply, sent as it stands.
    pub response: &'static str,
}

/// A table entry as the two character sequences it holds.
pub ghost struct StaticCommandView {
    pub command: Seq<char>,
    pub response: Seq<char>,
}

impl View for StaticCommand {
    type V = StaticCommandView;

    open spec fn view(&self) -> StaticCommandView {
        StaticCommandView { command: self.command@, response: self.response@ }
    }
}

/// The entries of a table as mathematical values.
pub open spec fn entries_view(entries: Seq<StaticCommand>) -> Seq<StaticCommandView> {
    entries.map_values(|entry: StaticCommand| entry@)
}

/// Entry `i` of `table` is the one that `key` selects.
pub open spec fn matches_at(table: Seq<StaticCommandView>, key: Seq<char>, i: int) -> bool {
    0 <= i < table.len() && strip_line_ending(table[i].command) == key
}

/// Some entry of `table` is selected by `key`.
pub open spec fn has_key(table: Seq<StaticCommandView>, key: Seq<char>) -> bool {
    exists|i: int| matches_at(table, key, i)
}

/// No two entries of `table` are selected by the same key.
pub open spec fn unambiguous(table: Seq<StaticCommandView>) -> bool {
    forall|i: int, j: int|
        0 <= i < j < table.len() ==> strip_line_ending(#[trigger] table[i].command)
            != strip_line_ending(#[trigger] table[j].command)
}

/// The reply that `table` holds for the stripped line `key`, if any.
pub open spec fn static_reply(table: Seq<StaticCommandView>, key: Seq<char>) -> Option<Seq<char>> {
    if has_key(table, key) {
        Some(table[choose|i: int| matches_at(table, key, i)].response)
    } else {
        None
    }
}

/// The nine configuration commands and their replies.
pub open spec fn configuration_entries() -> Seq<StaticCommandView> {
    seq![
        StaticCommandView { command: "ATZ"@, response: "Elm 3.1 whatever\nother stuff\n\n>"@ },
        StaticCommandView { command: "ATE0"@, response: "ATE0\nother stuff\n\n>"@ },
        StaticCommandView { command: "ATH1"@, response: "\n\n\r>"@ },
        StaticCommandView { command: "ATSP5"@, response: "\n\n\r>"@ },
        StaticCommandView { command: "ATST64"@, response: "\n\n\r>"@ },
        StaticCommandView { command: "ATS0"@, response: "\n\n\r>"@ },
        StaticCommandView { command: "ATM0"@, response: "\n\n\r>"@ },
        StaticCommandView { command: "ATAT1"@, response: "\n\n\r>"@ },
        StaticCommandView { command: "ATSH8210F0"@, response: "\n\n\r>"@ },
    ]
}

/// The four data queries with the fixed text that a fully canned adapter
/// sends for each.
pub open spec fn canned_query_entries() -> Seq<StaticCommandView> {
    seq![
        StaticCommandView { command: "210001"@, response: "83F01061057E00000067\n\r>"@ },
        StaticCommandView { command: "210501"@, response: "83F01061057E67\n\r>"@ },
        StaticCommandView { command: "210C01"@, response: "84F010610C0000F1\n\r>"@ },
        StaticCommandView { command: "ATRV"@, response: "12.6V\n\r>"@ },
    ]
}

/// Every command of the fully canned adapter: the configuration commands
/// followed by the data queries.
pub open spec fn canned_entries() -> Seq<StaticCommandView> {
    configuration_entries() + canned_query_entries()
}

/// The reply of the configuration table, case by case.
pub open spec fn configuration_reply(key: Seq<char>) -> Option<Seq<char>> {
    if key == "ATZ"@ {
        Some("Elm 3.1 whatever\nother stuff\n\n>"@)
    } else if key == "ATE0"@ {
        Some("ATE0\nother stuff\n\n>"@)
    } else if key == "ATH1"@ || key == "ATSP5"@ || key == "ATST64"@ || key == "ATS0"@ || key
        == "ATM0"@ || key == "ATAT1"@ || key == "ATSH8210F0"@ {
        Some("\n\n\r>"@)
    } else {
        None
    }
}

/// The reply of the fully canned table, case by case.
pub open spec fn canned_reply(key: Seq<char>) -> Option<Seq<char>> {
    if configuration_reply(key) is Some {
        configuration_reply(key)
    } else if key == "210001"@ {
        Some("83F01061057E00000067\n\r>"@)
    } else if key == "210501"@ {
        Some("83F01061057E67\n\r>"@)
    } else if key == "210C01"@ {
        Some("84F010610C0000F1\n\r>"@)
    } else if key == "ATRV"@ {
        Some("12.6V\n\r>"@)
    } else {
        None
    }
}

/// In a table without ambiguity, an entry that matches is the reply.
pub proof fn lemma_reply_is_the_match(table: Seq<StaticCommandView>, key: Seq<char>, i: int)
    requires
        unambiguous(table),
        matches_at(table, key, i),
    ensures
        static_reply(table, key) == Some(table[i].response),
{
    let chosen = choose|k: int| matches_at(table, key, k);
    assert(matches_at(table, key, chosen));
    assert(chosen == i);
}

/// A line gets a static reply exactly when its stripped text is the stripped
/// command of an entry; the reply is then the response of such an entry.
pub proof fn lemma_reply_exact(table: Seq<StaticCommandView>, key: Seq<char>)
    ensures
        static_reply(table, key) is Some <==> exists|i: int|
            0 <= i < table.len() && strip_line_ending(#[trigger] table[i].command) == key,
        static_reply(table, key) matches Some(response) ==> exists|i: int|
            matches_at(table, key, i) && table[i].response == response,
{
    if exists|i: int|
        0 <= i < table.len() && strip_line_ending(#[trigger] table[i].command) == key {
        let i = choose|i: int|
            0 <= i < table.len() && strip_line_ending(#[trigger] table[i].command) == key;
        assert(matches_at(table, key, i));
    }
}

/// A static command table in which no two entries answer the same line.
#[derive(Debug)]
pub struct CommandTable {
    entries: Vec<StaticCommand>,
}

impl View for CommandTable {
    type V = Seq<StaticCommandView>;

    closed spec fn view(&self) -> Seq<StaticCommandView> {
        entries_view(self.entries@)
    }
}

impl CommandTable {
    #[verifier::type_invariant]
    spec fn well_formed(&self) -> bool {
        unambiguous(entries_view(self.entries@))
    }

    /// Makes a table of `entries`, or refuses them when two of them have the
    /// same command once line endings are stripped.
    pub fn new(entries: Vec<StaticCommand>) -> (result: Result<CommandTable, Error>)
        ensures
            unambiguous(entries_view(entries@)) ==> (result matches Ok(table) && table@
                == entries_view(entries@)),
            !unambiguous(entries_view(entries@)) ==> (result matches Err(e) && e
                == Error::AmbiguousTableEntry),
    {
        let ghost table = entries_view(entries@);
        let n: usize = entries.len();
        let mut j: usize = 0;
        while j < n
            invariant
                n == entries@.len(),
                table == entries_view(entries@),
                j <= n,
                forall|a: int, b: int|
                    0 <= a < b < j ==> strip_line_ending(#[trigger] table[a].command)
                        != strip_line_ending(#[trigger] table[b].command),
            decreases n - j,
        {
            let key_j: &str = trim_line_ending(entries[j].command);
            let mut i: usize = 0;
            while i < j
                invariant
                    n == entries@.len(),
                    table == entries_view(entries@),
                    i <= j < n,
                    key_j@ == strip_line_ending(table[j as int].command),
                    forall|a: int|
                        0 <= a < i ==> strip_line_ending(#[trigger] table[a].command) != key_j@,
                decreases j - i,
            {
                let key_i: &str = trim_line_ending(entries[i].command);
                if str_equal(key_i, key_j) {
                    proof {
                        assert(strip_line_ending(table[i as int].command) == strip_line_ending(
                            table[j as int].command,
                        ));
                    }
                    return Err(Error::AmbiguousTableEntry);
                }
                i += 1;
            }
            j += 1;
        }
        Ok(CommandTable { entries })
    }

    /// The table of the nine configuration commands.
    pub fn configuration() -> (table: CommandTable)
        ensures
            table@ == configuration_entries(),
    {
        let mut entries: Vec<StaticCommand> = Vec::new();
        entries.push(
            StaticCommand { command: "ATZ", response: "Elm 3.1 whatever\nother stuff\n\n>" },
        );
        entries.push(StaticCommand { command: "ATE0", response: "ATE0\nother stuff\n\n>" });
        entries.push(StaticCommand { command: "ATH1", response: "\n\n\r>" });
        entries.push(StaticCommand { command: "ATSP5", response: "\n\n\r>" });
        entries.push(StaticCommand { command: "ATST64", response: "\n\n\r>" });
        entries.push(StaticCommand { command: "ATS0", response: "\n\n\r>" });
        entries.push(StaticCommand { command: "ATM0", response: "\n\n\r>" });
        entries.push(StaticCommand { command: "ATAT1", response: "\n\n\r>" });
        entries.push(StaticCommand { command: "ATSH8210F0", response: "\n\n\r>" });
        proof {
            assert(entries_view(entries@) =~= configuration_entries());
            lemma_configuration_unambiguous();
        }
        CommandTable { entries }
    }

    /// The table of a fully canned adapter: the configuration commands and
    /// the four data queries, each answered with a fixed string.
    pub fn canned() -> (table: CommandTable)
        ensures
            table@ == canned_entries(),
    {
        let mut entries: Vec<StaticCommand> = CommandTable::configuration().entries;
        entries.push(StaticCommand { command: "210001", response: "83F01061057E00000067\n\r>" });
        entries.push(StaticCommand { command: "210501", response: "83F01061057E67\n\r>" });
        entries.push(StaticCommand { command: "210C01", response: "84F010610C0000F1\n\r>" });
        entries.push(StaticCommand { command: "ATRV", response: "12.6V\n\r>" });
        proof {
            assert(entries_view(entries@) =~= canned_entries());
            lemma_canned_unambiguous();
        }
        CommandTable { entries }
    }

    /// The number of entries.
    pub fn len(&self) -> (n: usize)
        ensures
            n == self@.len(),
    {
        self.entries.len()
    }

    /// The entries in the order in which the table was made.
    pub fn entries(&self) -> (entries: &[StaticCommand])
        ensures
            entries_view(entries@) == self@,
            unambiguous(self@),
    {
        proof {
            use_type_invariant(self);
        }
        self.entries.as_slice()
    }

    /// The reply that the table holds for `candidate`.
    ///
    /// `candidate` is compared without the line endings at its end, and so
    /// is every command of the table. The reply is returned as the table
    /// holds it.
    pub fn lookup(&self, candidate: &str) -> (reply: Option<&'static str>)
        ensures
            match reply {
                Some(response) => static_reply(self@, strip_line_ending(candidate@)) == Some(
                    response@,
                ),
                None => static_reply(self@, strip_line_ending(candidate@)) is None,
            },
            reply is Some <==> has_key(self@, strip_line_ending(candidate@)),
    {
        let key: &str = trim_line_ending(candidate);
        let ghost table = self@;
        let n: usize = self.entries.len();
        let mut i: usize = 0;
        while i < n
            invariant
                n == self.entries@.len(),
                table == self@,
                key@ == strip_line_ending(candidate@),
                i <= n,
                forall|k: int| 0 <= k < i ==> !matches_at(table, key@, k),
            decreases n - i,
        {
            let entry: &StaticCommand = &self.entries[i];
            let entry_key: &str = trim_line_ending(entry.command);
            if str_equal(entry_key, key) {
                proof {
                    use_type_invariant(self);
                    lemma_reply_is_the_match(table, key@, i as int);
                }
                return Some(entry.response);
            }
            i += 1;
        }
        None
    }
}

/// The configuration commands are pairwise different, and none ends in a
/// line ending.
pub proof fn lemma_configuration_unambiguous()
    ensures
        unambiguous(configuration_entries()),
        forall|i: int|
            0 <= i < configuration_entries().len() ==> strip_line_ending(
                #[trigger] configuration_entries()[i].command,
            ) == configuration_entries()[i].command,
{
    reveal_strlit("ATZ");
    reveal_strlit("ATE0");
    reveal_strlit("ATH1");
    reveal_strlit("ATSP5");
    reveal_strlit("ATST64");
    reveal_strlit("ATS0");
    reveal_strlit("ATM0");
    reveal_strlit("ATAT1");
    reveal_strlit("ATSH8210F0");
    // Commands of one length differ in their third character.
    assert("ATE0"@[2] != "ATH1"@[2]);
    assert("ATE0"@[2] != "ATS0"@[2]);
    assert("ATE0"@[2] != "ATM0"@[2]);
    assert("ATH1"@[2] != "ATS0"@[2]);
    assert("ATH1"@[2] != "ATM0"@[2]);
    assert("ATS0"@[2] != "ATM0"@[2]);
    assert("ATSP5"@[2] != "ATAT1"@[2]);
}

/// The commands of the fully canned table are pairwise different, and none
/// ends in a line ending.
pub proof fn lemma_canned_unambiguous()
    ensures
        unambiguous(canned_entries()),
        forall|i: int|
            0 <= i < canned_entries().len() ==> strip_line_ending(
                #[trigger] canned_entries()[i].command,
            ) == canned_entries()[i].command,
{
    lemma_configuration_unambiguous();
    reveal_strlit("ATZ");
    reveal_strlit("ATE0");
    reveal_strlit("ATH1");
    reveal_strlit("ATSP5");
    reveal_strlit("ATST64");
    reveal_strlit("ATS0");
    reveal_strlit("ATM0");
    reveal_strlit("ATAT1");
    reveal_strlit("ATSH8210F0");
    reveal_strlit("210001");
    reveal_strlit("210501");
    reveal_strlit("210C01");
    reveal_strlit("ATRV");
    // The queries differ from each other in their fourth character, from
    // the configuration command of their length in the first, and the
    // voltage query from the commands of its length in the third.
    assert("210001"@[3] != "210501"@[3]);
    assert("210001"@[3] != "210C01"@[3]);
    assert("210501"@[3] != "210C01"@[3]);
    assert("ATST64"@[0] != "210001"@[0]);
    assert("ATST64"@[0] != "210501"@[0]);
    assert("ATST64"@[0] != "210C01"@[0]);
    assert("ATRV"@[2] != "ATE0"@[2]);
    assert("ATRV"@[2] != "ATH1"@[2]);
    assert("ATRV"@[2] != "ATS0"@[2]);
    assert("ATRV"@[2] != "ATM0"@[2]);
}

/// Every reply of the built-in tables ends in the prompt `>`.
pub proof fn lemma_built_in_replies_end_in_prompt()
    ensures
        forall|i: int|
            0 <= i < configuration_entries().len() ==> (
            #[trigger] configuration_entries()[i]).response.last() == '>',
        forall|i: int|
            0 <= i < canned_entries().len() ==> (#[trigger] canned_entries()[i]).response.last()
                == '>',
{
    reveal_strlit("Elm 3.1 whatever\nother stuff\n\n>");
    reveal_strlit("ATE0\nother stuff\n\n>");
    reveal_strlit("\n\n\r>");
    reveal_strlit("83F01061057E00000067\n\r>");
    reveal_strlit("83F01061057E67\n\r>");
    reveal_strlit("84F010610C0000F1\n\r>");
    reveal_strlit("12.6V\n\r>");
}

/// The configuration table answers its nine commands and nothing else.
pub proof fn lemma_configuration_reply(key: Seq<char>)
    ensures
        static_reply(configuration_entries(), key) == configuration_reply(key),
{
    let table = configuration_entries();
    lemma_configuration_unambiguous();
    // Each command is its own key.
    assert(strip_line_ending(table[0].command) == "ATZ"@);
    assert(strip_line_ending(table[1].command) == "ATE0"@);
    assert(strip_line_ending(table[2].command) == "ATH1"@);
    assert(strip_line_ending(table[3].command) == "ATSP5"@);
    assert(strip_line_ending(table[4].command) == "ATST64"@);
    assert(strip_line_ending(table[5].command) == "ATS0"@);
    assert(strip_line_ending(table[6].command) == "ATM0"@);
    assert(strip_line_ending(table[7].command) == "ATAT1"@);
    assert(strip_line_ending(table[8].command) == "ATSH8210F0"@);
    if has_key(table, key) {
        let i = choose|i: int| matches_at(table, key, i);
        lemma_reply_is_the_match(table, key, i);
    } else {
        assert(!matches_at(table, key, 0));
        assert(!matches_at(table, key, 1));
        assert(!matches_at(table, key, 2));
        assert(!matches_at(table, key, 3));
        assert(!matches_at(table, key, 4));
        assert(!matches_at(table, key, 5));
        assert(!matches_at(table, key, 6));
        assert(!matches_at(table, key, 7));
        assert(!matches_at(table, key, 8));
    }
}

/// The fully canned table answers its thirteen commands and nothing else.
pub proof fn lemma_canned_reply(key: Seq<char>)
    ensures
        static_reply(canned_entries(), key) == canned_reply(key),
{
    let table = canned_entries();
    lemma_canned_unambiguous();
    // Each command is its own key.
    assert(strip_line_ending(table[0].command) == "ATZ"@);
    assert(strip_line_ending(table[1].command) == "ATE0"@);
    assert(strip_line_ending(table[2].command) == "ATH1"@);
    assert(strip_line_ending(table[3].command) == "ATSP5"@);
    assert(strip_line_ending(table[4].command) == "ATST64"@);
    assert(strip_line_ending(table[5].command) == "ATS0"@);
    assert(strip_line_ending(table[6].command) == "ATM0"@);
    assert(strip_line_ending(table[7].command) == "ATAT1"@);
    assert(strip_line_ending(table[8].command) == "ATSH8210F0"@);
    assert(strip_line_ending(table[9].command) == "210001"@);
    assert(strip_line_ending(table[10].command) == "210501"@);
    assert(strip_line_ending(table[11].command) == "210C01"@);
    assert(strip_line_ending(table[12].command) == "ATRV"@);
    if has_key(table, key) {
        let i = choose|i: int| matches_at(table, key, i);
        lemma_reply_is_the_match(table, key, i);
    } else {
        assert(!matches_at(table, key, 0));
        assert(!matches_at(table, key, 1));
        assert(!matches_at(table, key, 2));
        assert(!matches_at(table, key, 3));
        assert(!matches_at(table, key, 4));
        assert(!matches_at(table, key, 5));
        assert(!matches_at(table, key, 6));
        assert(!matches_at(table, key, 7));
        assert(!matches_at(table, key, 8));
        assert(!matches_at(table, key, 9));
        assert(!matches_at(table, key, 10));
        assert(!matches_at(table, key, 11));
        assert(!matches_at(table, key, 12));
    }
}

} // verus!
