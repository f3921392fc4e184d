//! The document in which the runtime settings are kept across restarts:
//! sections in square brackets, and under each its entries, a key and a
//! value with an equals sign between them, one on each line.

use crate::clock::read_rfc3339;
use crate::clock::rfc3339_seconds;
use crate::clock::rfc3339_text;
use crate::clock::write_rfc3339;
use crate::firmware::InstallationSet;
use crate::runtime_settings::RuntimePolling;
use crate::runtime_settings::RuntimeSettings;
use crate::runtime_settings::RuntimeUpdate;
use crate::text::decimal;
use crate::text::decimal_value;
use crate::text::find;
use crate::text::find_from;
use crate::text::from_decimal;
use crate::text::lemma_decimal_round_trip;
use crate::text::lemma_find;
use crate::text::lemma_find_contains;
use crate::text::lemma_find_first;
use crate::text::same;
use crate::text::to_decimal;
use vstd::prelude::*;
use vstd::string::StrSliceExecFns;
use vstd::string::StringExecFns;

verus! {

/// Why a document is refused, or why settings cannot be written.
#[derive(Debug, Clone, Copy, PartialEq, Eq)]
pub enum SettingsError {
    /// A line is neither empty, nor a section, nor an entry.
    Malformed,
    /// The document lacks the named entry.
    Missing(&'static str),
    /// The value of the named entry cannot be read, or cannot be written
    /// so that it is read again as it is.
    Invalid(&'static str),
}

/// What is kept of the runtime settings.
pub struct Stored {
    pub enabled: bool,
    pub last: i64,
    pub retries: u64,
    pub server_address: Option<Seq<char>>,
    pub upgrade_to_installation: Option<InstallationSet>,
}

/// What a line of a document is.
pub enum Line {
    Blank,
    /// A section, with its name.
    Header(Seq<char>),
    /// An entry, with its key and its value.
    Pair(Seq<char>, Seq<char>),
    Bad,
}

/// An entry of a document: its section, its key and its value.
pub type Entry = (Seq<char>, Seq<char>, Seq<char>);

/// Reads a line. A line that begins with a square bracket has to end with
/// one; any other has to hold an equals sign, which ends its key.
pub open spec fn classify(line: Seq<char>) -> Line {
    if line.len() == 0 {
        Line::Blank
    } else if line[0] == '[' {
        if line.len() >= 2 && line[line.len() - 1] == ']' {
            Line::Header(line.subrange(1, line.len() - 1))
        } else {
            Line::Bad
        }
    } else if find(line, '=') >= line.len() || find(line, '=') < 0 {
        Line::Bad
    } else {
        Line::Pair(
            line.subrange(0, find(line, '=')),
            line.subrange(find(line, '=') + 1, line.len() as int),
        )
    }
}

/// Where the first line of a text ends.
pub open spec fn line_end(text: Seq<char>) -> int {
    if 0 <= find(text, '\n') < text.len() {
        find(text, '\n')
    } else {
        text.len() as int
    }
}

/// Where the second line of a text begins.
pub open spec fn line_next(text: Seq<char>) -> int {
    if 0 <= find(text, '\n') < text.len() {
        find(text, '\n') + 1
    } else {
        text.len() as int
    }
}

/// The entries of a text that begins in the given section, in order; none
/// where a line is malformed.
pub open spec fn scan(text: Seq<char>, section: Seq<char>) -> Option<Seq<Entry>>
    decreases text.len(),
{
    if text.len() == 0 {
        Some(Seq::empty())
    } else {
        let rest = text.subrange(line_next(text), text.len() as int);
        match classify(text.subrange(0, line_end(text))) {
            Line::Blank => scan(rest, section),
            Line::Header(name) => scan(rest, name),
            Line::Pair(key, value) => match scan(rest, section) {
                Some(entries) => Some(seq![(section, key, value)] + entries),
                None => None,
            },
            Line::Bad => None,
        }
    }
}

/// The value of the first entry with the given section and key.
pub open spec fn value_of(entries: Seq<Entry>, section: Seq<char>, key: Seq<char>) -> Option<
    Seq<char>,
>
    decreases entries.len(),
{
    if entries.len() == 0 {
        None
    } else if entries[0].0 == section && entries[0].1 == key {
        Some(entries[0].2)
    } else {
        value_of(entries.subrange(1, entries.len() as int), section, key)
    }
}

pub open spec fn bool_text(b: bool) -> Seq<char> {
    if b {
        "true"@
    } else {
        "false"@
    }
}

pub open spec fn bool_value(text: Seq<char>) -> Option<bool> {
    if text == "true"@ {
        Some(true)
    } else if text == "false"@ {
        Some(false)
    } else {
        None
    }
}

pub open spec fn set_value(text: Seq<char>) -> Option<InstallationSet> {
    match decimal_value(text) {
        Some(index) => if index == 0 {
            Some(InstallationSet::A)
        } else if index == 1 {
            Some(InstallationSet::B)
        } else {
            None
        },
        None => None,
    }
}

/// What the entries of a document hold, given the instant that was read
/// from the text of the last poll, if any was: whether polling is enabled,
/// the last poll and the retries have to be there; the server and the
/// installation that awaits its validation may be.
pub open spec fn settings_of(entries: Seq<Entry>, last: Option<i64>) -> Result<
    Stored,
    SettingsError,
> {
    let enabled = value_of(entries, "polling"@, "enabled"@);
    let retries = value_of(entries, "polling"@, "retries"@);
    let upgrade = value_of(entries, "update"@, "upgrade_to_installation"@);
    if enabled.is_none() {
        Err(SettingsError::Missing("polling.enabled"))
    } else if bool_value(enabled.unwrap()).is_none() {
        Err(SettingsError::Invalid("polling.enabled"))
    } else if value_of(entries, "polling"@, "last"@).is_none() {
        Err(SettingsError::Missing("polling.last"))
    } else if last.is_none() {
        Err(SettingsError::Invalid("polling.last"))
    } else if retries.is_none() {
        Err(SettingsError::Missing("polling.retries"))
    } else if decimal_value(retries.unwrap()).is_none() {
        Err(SettingsError::Invalid("polling.retries"))
    } else if upgrade.is_some() && set_value(upgrade.unwrap()).is_none() {
        Err(SettingsError::Invalid("update.upgrade_to_installation"))
    } else {
        Ok(
            Stored {
                enabled: bool_value(enabled.unwrap()).unwrap(),
                last: last.unwrap(),
                retries: decimal_value(retries.unwrap()).unwrap(),
                server_address: value_of(entries, "polling"@, "server_address"@),
                upgrade_to_installation: match upgrade {
                    Some(text) => set_value(text),
                    None => None,
                },
            },
        )
    }
}

/// The instant that chrono reads from the text of the last poll, where
/// the entries hold one.
pub open spec fn last_of(entries: Seq<Entry>) -> Option<i64> {
    match value_of(entries, "polling"@, "last"@) {
        Some(text) => rfc3339_seconds(text),
        None => None,
    }
}

/// What a document holds.
pub open spec fn parsed(text: Seq<char>) -> Result<Stored, SettingsError> {
    match scan(text, Seq::empty()) {
        None => Err(SettingsError::Malformed),
        Some(entries) => settings_of(entries, last_of(entries)),
    }
}

/// A line of a document, with the line feed that ends it.
pub open spec fn line(content: Seq<char>) -> Seq<char> {
    content + seq!['\n']
}

/// An entry as a document writes it.
pub open spec fn pair(key: Seq<char>, value: Seq<char>) -> Seq<char> {
    key + seq!['='] + value
}

/// The part of the document under `[update]`.
pub open spec fn update_part(stored: Stored) -> Seq<char> {
    line("[update]"@) + match stored.upgrade_to_installation {
        Some(set) => line(pair("upgrade_to_installation"@, decimal(set.index_spec() as nat))),
        None => Seq::empty(),
    }
}

/// The part of the document from the server on.
pub open spec fn server_part(stored: Stored) -> Seq<char> {
    (match stored.server_address {
        Some(address) => line(pair("server_address"@, address)),
        None => Seq::empty(),
    }) + update_part(stored)
}

/// The document that keeps `stored`, with `last` for the text of the last
/// poll.
pub open spec fn document(stored: Stored, last: Seq<char>) -> Seq<char> {
    line("[polling]"@) + (line(pair("enabled"@, bool_text(stored.enabled))) + (line(
        pair("last"@, last),
    ) + (line(pair("retries"@, decimal(stored.retries as nat))) + server_part(stored))))
}

/// Whether settings can be written so that they are read again as they
/// are, or which entry stands in the way: the text that stands for the
/// last poll has to be one line that is read as the same instant, and the
/// server has to be one line.
pub open spec fn storable(stored: Stored) -> Result<(), SettingsError> {
    if rfc3339_text(stored.last).is_none() || rfc3339_text(stored.last).unwrap().contains('\n')
        || rfc3339_seconds(rfc3339_text(stored.last).unwrap()) != Some(stored.last) {
        Err(SettingsError::Invalid("polling.last"))
    } else if stored.server_address.is_some() && stored.server_address.unwrap().contains('\n') {
        Err(SettingsError::Invalid("polling.server_address"))
    } else {
        Ok(())
    }
}

impl RuntimeSettings {
    /// What is kept of the settings.
    pub open spec fn stored(&self) -> Stored {
        Stored {
            enabled: self.polling.enabled,
            last: self.polling.last,
            retries: self.polling.retries,
            server_address: match self.polling.server_address {
                Some(address) => Some(address@),
                None => None,
            },
            upgrade_to_installation: self.update.upgrade_to_installation,
        }
    }
}

/// A text that begins with a line is scanned line by line.
pub proof fn lemma_scan_line(content: Seq<char>, rest: Seq<char>, section: Seq<char>)
    requires
        !content.contains('\n'),
    ensures
        scan(line(content) + rest, section) == match classify(content) {
            Line::Blank => scan(rest, section),
            Line::Header(name) => scan(rest, name),
            Line::Pair(key, value) => match scan(rest, section) {
                Some(entries) => Some(seq![(section, key, value)] + entries),
                None => None,
            },
            Line::Bad => None,
        },
{
    let text = line(content) + rest;
    lemma_find_first(content, '\n', rest);
    assert(text == content + seq!['\n'] + rest);
    assert(find(text, '\n') == content.len());
    assert(text.subrange(0, line_end(text)) == content);
    assert(text.subrange(line_next(text), text.len() as int) == rest);
}

/// A name in square brackets is a section.
pub proof fn lemma_classify_header(name: Seq<char>)
    ensures
        classify(seq!['['] + name + seq![']']) == Line::Header(name),
        !name.contains('\n') ==> !(seq!['['] + name + seq![']']).contains('\n'),
{
    let text = seq!['['] + name + seq![']'];
    assert(text[0] == '[');
    assert(text[text.len() - 1] == ']');
    assert(text.subrange(1, text.len() - 1) == name);
    if !name.contains('\n') {
        assert forall|k: int| 0 <= k < text.len() implies text[k] != '\n' by {
            if 1 <= k < text.len() - 1 {
                assert(text[k] == name[k - 1]);
                assert(name.contains(name[k - 1]));
            }
        }
    }
}

/// A key without an equals sign, an equals sign and a value are an entry
/// with that key and that value.
pub proof fn lemma_classify_pair(key: Seq<char>, value: Seq<char>)
    requires
        key.len() > 0,
        key[0] != '[',
        !key.contains('='),
    ensures
        classify(pair(key, value)) == Line::Pair(key, value),
        !key.contains('\n') && !value.contains('\n') ==> !pair(key, value).contains('\n'),
{
    let text = pair(key, value);
    lemma_find_first(key, '=', value);
    assert(text[0] == key[0]);
    assert(text.subrange(0, key.len() as int) == key);
    assert(text.subrange(key.len() as int + 1, text.len() as int) == value);
    if !key.contains('\n') && !value.contains('\n') {
        assert forall|k: int| 0 <= k < text.len() implies text[k] != '\n' by {
            if k < key.len() {
                assert(text[k] == key[k]);
                assert(key.contains(key[k]));
            } else if k > key.len() {
                assert(text[k] == value[k - key.len() - 1]);
                assert(value.contains(value[k - key.len() - 1]));
            }
        }
    }
}

/// The value of an entry is looked up from the first entry on.
pub proof fn lemma_value_of_first(
    first: Entry,
    rest: Seq<Entry>,
    section: Seq<char>,
    key: Seq<char>,
)
    ensures
        value_of(seq![first] + rest, section, key) == if first.0 == section && first.1 == key {
            Some(first.2)
        } else {
            value_of(rest, section, key)
        },
{
    let all = seq![first] + rest;
    assert(all[0] == first);
    assert(all.subrange(1, all.len() as int) == rest);
}

/// What the names of the sections and the keys of a document are made of.
proof fn lemma_names()
    ensures
        "[polling]"@ == seq!['['] + "polling"@ + seq![']'],
        "[update]"@ == seq!['['] + "update"@ + seq![']'],
        !"polling"@.contains('\n'),
        !"update"@.contains('\n'),
        "polling"@ != "update"@,
        "enabled"@.len() == 7 && "enabled"@[0] == 'e',
        "last"@.len() == 4 && "last"@[0] == 'l',
        "retries"@.len() == 7 && "retries"@[0] == 'r',
        "server_address"@.len() == 14 && "server_address"@[0] == 's',
        "upgrade_to_installation"@.len() == 23 && "upgrade_to_installation"@[0] == 'u',
        !"enabled"@.contains('=') && !"enabled"@.contains('\n'),
        !"last"@.contains('=') && !"last"@.contains('\n'),
        !"retries"@.contains('=') && !"retries"@.contains('\n'),
        !"server_address"@.contains('=') && !"server_address"@.contains('\n'),
        !"upgrade_to_installation"@.contains('=') && !"upgrade_to_installation"@.contains('\n'),
        !"true"@.contains('\n'),
        !"false"@.contains('\n'),
        "true"@ != "false"@,
{
    reveal_strlit("[polling]");
    reveal_strlit("[update]");
    reveal_strlit("polling");
    reveal_strlit("update");
    reveal_strlit("enabled");
    reveal_strlit("last");
    reveal_strlit("retries");
    reveal_strlit("server_address");
    reveal_strlit("upgrade_to_installation");
    reveal_strlit("true");
    reveal_strlit("false");
    assert("[polling]"@ =~= seq!['['] + "polling"@ + seq![']']);
    assert("[update]"@ =~= seq!['['] + "update"@ + seq![']']);
    assert("polling"@.len() != "update"@.len());
    assert("true"@.len() != "false"@.len());
}

/// The entry of the installation that awaits its validation.
pub open spec fn upgrade_entries(stored: Stored) -> Seq<Entry> {
    match stored.upgrade_to_installation {
        Some(set) => seq![
            ("update"@, "upgrade_to_installation"@, decimal(set.index_spec() as nat)),
        ],
        None => Seq::empty(),
    }
}

/// The entries from the server on.
pub open spec fn server_entries(stored: Stored) -> Seq<Entry> {
    (match stored.server_address {
        Some(address) => seq![("polling"@, "server_address"@, address)],
        None => Seq::empty(),
    }) + upgrade_entries(stored)
}

/// The entries of the document that keeps `stored`.
pub open spec fn entries_of(stored: Stored, last: Seq<char>) -> Seq<Entry> {
    seq![("polling"@, "enabled"@, bool_text(stored.enabled))] + (seq![
        ("polling"@, "last"@, last),
    ] + (seq![("polling"@, "retries"@, decimal(stored.retries as nat))] + server_entries(stored)))
}

proof fn lemma_scan_update(stored: Stored, section: Seq<char>)
    ensures
        scan(update_part(stored), section) == Some(upgrade_entries(stored)),
{
    lemma_names();
    lemma_classify_header("update"@);
    let tail = match stored.upgrade_to_installation {
        Some(set) => line(pair("upgrade_to_installation"@, decimal(set.index_spec() as nat))),
        None => Seq::empty(),
    };
    lemma_scan_line("[update]"@, tail, section);
    assert(scan(update_part(stored), section) == scan(tail, "update"@));
    match stored.upgrade_to_installation {
        Some(set) => {
            let value = decimal(set.index_spec() as nat);
            let content = pair("upgrade_to_installation"@, value);
            lemma_decimal_round_trip(set.index_spec() as nat);
            lemma_classify_pair("upgrade_to_installation"@, value);
            lemma_scan_line(content, Seq::empty(), "update"@);
            assert(line(content) + Seq::<char>::empty() == tail);
            assert(scan(Seq::<char>::empty(), "update"@) == Some(Seq::<Entry>::empty()));
            assert(seq![("update"@, "upgrade_to_installation"@, value)] + Seq::<Entry>::empty()
                == upgrade_entries(stored));
        },
        None => {},
    }
}

proof fn lemma_scan_server(stored: Stored)
    requires
        stored.server_address.is_some() ==> !stored.server_address.unwrap().contains('\n'),
    ensures
        scan(server_part(stored), "polling"@) == Some(server_entries(stored)),
{
    lemma_names();
    lemma_scan_update(stored, "polling"@);
    match stored.server_address {
        Some(address) => {
            lemma_classify_pair("server_address"@, address);
            lemma_scan_line(pair("server_address"@, address), update_part(stored), "polling"@);
        },
        None => {
            assert(server_part(stored) == update_part(stored));
            assert(server_entries(stored) == upgrade_entries(stored));
        },
    }
}

/// The document of settings that can be stored holds their entries.
pub proof fn lemma_scan_document(stored: Stored, last: Seq<char>)
    requires
        !last.contains('\n'),
        stored.server_address.is_some() ==> !stored.server_address.unwrap().contains('\n'),
    ensures
        scan(document(stored, last), Seq::empty()) == Some(entries_of(stored, last)),
{
    lemma_names();
    lemma_scan_server(stored);
    let retries = pair("retries"@, decimal(stored.retries as nat));
    let from_retries = line(retries) + server_part(stored);
    lemma_decimal_round_trip(stored.retries as nat);
    lemma_classify_pair("retries"@, decimal(stored.retries as nat));
    lemma_scan_line(retries, server_part(stored), "polling"@);
    let poll = pair("last"@, last);
    let from_last = line(poll) + from_retries;
    lemma_classify_pair("last"@, last);
    lemma_scan_line(poll, from_retries, "polling"@);
    let enabled = pair("enabled"@, bool_text(stored.enabled));
    let from_enabled = line(enabled) + from_last;
    lemma_classify_pair("enabled"@, bool_text(stored.enabled));
    lemma_scan_line(enabled, from_last, "polling"@);
    lemma_classify_header("polling"@);
    lemma_scan_line("[polling]"@, from_enabled, Seq::empty());
}

/// What is looked up in the entries of a document is what was stored.
pub proof fn lemma_entries_hold(stored: Stored, last: Seq<char>)
    ensures
        value_of(entries_of(stored, last), "polling"@, "enabled"@) == Some(
            bool_text(stored.enabled),
        ),
        value_of(entries_of(stored, last), "polling"@, "last"@) == Some(last),
        value_of(entries_of(stored, last), "polling"@, "retries"@) == Some(
            decimal(stored.retries as nat),
        ),
        value_of(entries_of(stored, last), "polling"@, "server_address"@)
            == stored.server_address,
        value_of(entries_of(stored, last), "update"@, "upgrade_to_installation"@)
            == match stored.upgrade_to_installation {
            Some(set) => Some(decimal(set.index_spec() as nat)),
            None => None,
        },
{
    lemma_names();
    let upgrade = upgrade_entries(stored);
    let server = server_entries(stored);
    let e3 = ("polling"@, "retries"@, decimal(stored.retries as nat));
    let e2 = ("polling"@, "last"@, last);
    let e1 = ("polling"@, "enabled"@, bool_text(stored.enabled));
    let from3 = seq![e3] + server;
    let from2 = seq![e2] + from3;
    assert forall|section: Seq<char>, key: Seq<char>|
        #[trigger] value_of(upgrade, section, key) == match stored.upgrade_to_installation {
            Some(set) => if section == "update"@ && key == "upgrade_to_installation"@ {
                Some(decimal(set.index_spec() as nat))
            } else {
                None
            },
            None => None,
        } by {
        match stored.upgrade_to_installation {
            Some(set) => {
                let e5 = ("update"@, "upgrade_to_installation"@, decimal(set.index_spec() as nat));
                assert(upgrade == seq![e5] + Seq::<Entry>::empty());
                lemma_value_of_first(e5, Seq::empty(), section, key);
            },
            None => {},
        }
    }
    assert forall|section: Seq<char>, key: Seq<char>|
        #[trigger] value_of(server, section, key) == match stored.server_address {
            Some(address) => if section == "polling"@ && key == "server_address"@ {
                Some(address)
            } else {
                value_of(upgrade, section, key)
            },
            None => value_of(upgrade, section, key),
        } by {
        match stored.server_address {
            Some(address) => {
                lemma_value_of_first(("polling"@, "server_address"@, address), upgrade, section, key);
            },
            None => {
                assert(server == upgrade);
            },
        }
    }
    assert forall|section: Seq<char>, key: Seq<char>|
        #[trigger] value_of(entries_of(stored, last), section, key) == if section == "polling"@
            && key == "enabled"@ {
            Some(e1.2)
        } else if section == "polling"@ && key == "last"@ {
            Some(e2.2)
        } else if section == "polling"@ && key == "retries"@ {
            Some(e3.2)
        } else {
            value_of(server, section, key)
        } by {
        lemma_value_of_first(e3, server, section, key);
        lemma_value_of_first(e2, from3, section, key);
        lemma_value_of_first(e1, from2, section, key);
    }
}

/// Settings that can be stored are read from their document as they are.
pub proof fn lemma_round_trip(stored: Stored)
    ensures
        storable(stored) is Ok ==> parsed(
            document(stored, rfc3339_text(stored.last).unwrap()),
        ) == Ok::<Stored, SettingsError>(stored),
{
    if storable(stored) is Ok {
        let last = rfc3339_text(stored.last).unwrap();
        lemma_names();
        lemma_scan_document(stored, last);
        lemma_entries_hold(stored, last);
        lemma_decimal_round_trip(stored.retries as nat);
        match stored.upgrade_to_installation {
            Some(set) => {
                lemma_decimal_round_trip(set.index_spec() as nat);
            },
            None => {},
        }
        let read = parsed(document(stored, last));
        assert(read is Ok);
        assert(read->Ok_0.server_address == stored.server_address);
        assert(read->Ok_0.upgrade_to_installation == stored.upgrade_to_installation);
    }
}

/// The entries that a list of sections, keys and values stands for.
pub open spec fn entries_view(list: Seq<(String, String, String)>) -> Seq<Entry> {
    list.map_values(|e: (String, String, String)| (e.0@, e.1@, e.2@))
}

/// The entries already read, followed by those still to be read.
pub open spec fn chain(read: Seq<Entry>, rest: Option<Seq<Entry>>) -> Option<Seq<Entry>> {
    match rest {
        Some(entries) => Some(read + entries),
        None => None,
    }
}

/// Reads the entries of a document, line by line.
pub fn scan_entries(text: &str) -> (r: Option<Vec<(String, String, String)>>)
    ensures
        r.is_some() == scan(text@, Seq::empty()).is_some(),
        r.is_some() ==> entries_view(r.unwrap()@) == scan(text@, Seq::empty()).unwrap(),
{
    let n: usize = text.unicode_len();
    let mut pos: usize = 0;
    let mut section: String = String::new();
    let mut out: Vec<(String, String, String)> = Vec::new();
    proof {
        assert(text@.subrange(0, n as int) == text@);
        assert(entries_view(out@) == Seq::<Entry>::empty());
        match scan(text@, section@) {
            Some(entries) => {
                assert(Seq::<Entry>::empty() + entries == entries);
            },
            None => {},
        }
    }
    while pos < n
        invariant
            pos <= n,
            n == text@.len(),
            scan(text@, Seq::empty()) == chain(
                entries_view(out@),
                scan(text@.subrange(pos as int, n as int), section@),
            ),
        decreases n - pos,
    {
        let end: usize = find_from(text, '\n', pos);
        let next: usize = if end < n {
            end + 1
        } else {
            end
        };
        let content: &str = text.substring_char(pos, end);
        let len: usize = end - pos;
        let ghost cur = text@.subrange(pos as int, n as int);
        let ghost rest = text@.subrange(next as int, n as int);
        proof {
            lemma_find(cur, '\n');
            assert(cur.subrange(0, line_end(cur)) == content@);
            assert(cur.subrange(line_next(cur), cur.len() as int) == rest);
        }
        if len == 0 {
        } else if content.get_char(0) == '[' {
            if len >= 2 && content.get_char(len - 1) == ']' {
                section = String::from_str(content.substring_char(1, len - 1));
            } else {
                return None;
            }
        } else {
            let eq: usize = find_from(content, '=', 0);
            proof {
                assert(content@.subrange(0, len as int) == content@);
                lemma_find(content@, '=');
            }
            if eq >= len {
                return None;
            }
            let key: String = String::from_str(content.substring_char(0, eq));
            let value: String = String::from_str(content.substring_char(eq + 1, len));
            let ghost before = entries_view(out@);
            let ghost entry: Entry = (section@, key@, value@);
            out.push((section.clone(), key, value));
            proof {
                assert(entries_view(out@) == before.push(entry));
                match scan(rest, section@) {
                    Some(entries) => {
                        assert(before + (seq![entry] + entries) == before.push(entry) + entries);
                    },
                    None => {},
                }
            }
        }
        pos = next;
    }
    proof {
        assert(entries_view(out@) + Seq::<Entry>::empty() == entries_view(out@));
    }
    Some(out)
}

/// Looks up the value of the first entry with the given section and key.
pub fn lookup<'a>(entries: &'a Vec<(String, String, String)>, section: &str, key: &str) -> (r:
    Option<&'a str>)
    ensures
        r.is_some() == value_of(entries_view(entries@), section@, key@).is_some(),
        r.is_some() ==> r.unwrap()@ == value_of(entries_view(entries@), section@, key@).unwrap(),
{
    let ghost all = entries_view(entries@);
    let mut i: usize = 0;
    proof {
        assert(all.subrange(0, all.len() as int) == all);
    }
    while i < entries.len()
        invariant
            i <= entries.len(),
            all == entries_view(entries@),
            value_of(all, section@, key@) == value_of(
                all.subrange(i as int, all.len() as int),
                section@,
                key@,
            ),
        decreases entries.len() - i,
    {
        let ghost rest = all.subrange(i as int, all.len() as int);
        proof {
            assert(rest[0] == all[i as int]);
            assert(rest.subrange(1, rest.len() as int) == all.subrange(i + 1, all.len() as int));
        }
        if same(entries[i].0.as_str(), section) && same(entries[i].1.as_str(), key) {
            return Some(entries[i].2.as_str());
        }
        i = i + 1;
    }
    None
}

fn line_text(content: &str) -> (r: String)
    ensures
        r@ == line(content@),
{
    proof {
        reveal_strlit("\n");
        assert("\n"@ == seq!['\n']);
    }
    String::from_str(content).concat("\n")
}

fn pair_text(key: &str, value: &str) -> (r: String)
    ensures
        r@ == line(pair(key@, value@)),
{
    proof {
        reveal_strlit("=");
        assert("="@ == seq!['=']);
    }
    let content = String::from_str(key).concat("=").concat(value);
    line_text(content.as_str())
}

fn update_text(settings: &RuntimeSettings) -> (r: String)
    ensures
        r@ == update_part(settings.stored()),
{
    let head = line_text("[update]");
    match settings.update.upgrade_to_installation {
        Some(set) => {
            let index: u64 = match set {
                InstallationSet::A => 0,
                InstallationSet::B => 1,
            };
            head.concat(pair_text("upgrade_to_installation", to_decimal(index).as_str()).as_str())
        },
        None => {
            proof {
                assert(head@ + Seq::<char>::empty() == head@);
            }
            head
        },
    }
}

fn server_text(settings: &RuntimeSettings) -> (r: String)
    ensures
        r@ == server_part(settings.stored()),
{
    let tail = update_text(settings);
    match &settings.polling.server_address {
        Some(address) => pair_text("server_address", address.as_str()).concat(tail.as_str()),
        None => {
            proof {
                assert(Seq::<char>::empty() + tail@ == tail@);
            }
            tail
        },
    }
}

/// Writes the document that keeps the settings, with `last` for the text
/// of the last poll.
pub fn write_document(settings: &RuntimeSettings, last: &str) -> (r: String)
    ensures
        r@ == document(settings.stored(), last@),
{
    let from_server = server_text(settings);
    let from_retries = pair_text("retries", to_decimal(settings.polling.retries).as_str()).concat(
        from_server.as_str(),
    );
    let from_last = pair_text("last", last).concat(from_retries.as_str());
    let enabled = if settings.polling.enabled {
        "true"
    } else {
        "false"
    };
    let from_enabled = pair_text("enabled", enabled).concat(from_last.as_str());
    line_text("[polling]").concat(from_enabled.as_str())
}

fn has_line_feed(text: &str) -> (r: bool)
    ensures
        r == text@.contains('\n'),
{
    proof {
        lemma_find_contains(text@, '\n');
        assert(text@.subrange(0, text@.len() as int) == text@);
    }
    find_from(text, '\n', 0) < text.unicode_len()
}

impl RuntimeSettings {
    /// Writes the document that keeps the settings. Settings that would
    /// not be read again as they are, are not written: the error names
    /// the entry that stands in the way.
    pub fn serialize(&self) -> (r: Result<String, SettingsError>)
        ensures
            match storable(self.stored()) {
                Err(e) => r == Err::<String, SettingsError>(e),
                Ok(_) => r.is_ok() && r.unwrap()@ == document(
                    self.stored(),
                    rfc3339_text(self.polling.last).unwrap(),
                ) && parsed(r.unwrap()@) == Ok::<Stored, SettingsError>(self.stored()),
            },
    {
        let last: String = match write_rfc3339(self.polling.last) {
            Some(text) => text,
            None => {
                return Err(SettingsError::Invalid("polling.last"));
            },
        };
        if has_line_feed(last.as_str()) {
            return Err(SettingsError::Invalid("polling.last"));
        }
        match read_rfc3339(last.as_str()) {
            Ok(secs) => {
                if secs != self.polling.last {
                    return Err(SettingsError::Invalid("polling.last"));
                }
            },
            Err(_) => {
                return Err(SettingsError::Invalid("polling.last"));
            },
        }
        match &self.polling.server_address {
            Some(address) => {
                if has_line_feed(address.as_str()) {
                    return Err(SettingsError::Invalid("polling.server_address"));
                }
            },
            None => {},
        }
        proof {
            lemma_round_trip(self.stored());
        }
        Ok(write_document(self, last.as_str()))
    }

    /// Reads settings from their document. The settings that are read are
    /// not persistent yet, and nothing in them awaits to be written.
    pub fn parse(text: &str) -> (r: Result<RuntimeSettings, SettingsError>)
        ensures
            match parsed(text@) {
                Err(e) => r == Err::<RuntimeSettings, SettingsError>(e),
                Ok(stored) => r.is_ok() && r.unwrap().stored() == stored && !r.unwrap().persistent
                    && !r.unwrap().dirty,
            },
    {
        let entries = match scan_entries(text) {
            Some(entries) => entries,
            None => {
                return Err(SettingsError::Malformed);
            },
        };
        let last: Option<i64> = match lookup(&entries, "polling", "last") {
            Some(value) => match read_rfc3339(value) {
                Ok(secs) => Some(secs),
                Err(_) => None,
            },
            None => None,
        };
        read_entries(&entries, last)
    }
}

/// Reads settings from the entries of their document, given the instant
/// that was read from the text of the last poll, if any was.
pub fn read_entries(entries: &Vec<(String, String, String)>, last: Option<i64>) -> (r: Result<
    RuntimeSettings,
    SettingsError,
>)
    ensures
        match settings_of(entries_view(entries@), last) {
            Err(e) => r == Err::<RuntimeSettings, SettingsError>(e),
            Ok(stored) => r.is_ok() && r.unwrap().stored() == stored && !r.unwrap().persistent
                && !r.unwrap().dirty,
        },
{
    let enabled: bool = match lookup(entries, "polling", "enabled") {
        None => {
            return Err(SettingsError::Missing("polling.enabled"));
        },
        Some(value) => {
            if same(value, "true") {
                true
            } else if same(value, "false") {
                false
            } else {
                return Err(SettingsError::Invalid("polling.enabled"));
            }
        },
    };
    if lookup(entries, "polling", "last").is_none() {
        return Err(SettingsError::Missing("polling.last"));
    }
    let last: i64 = match last {
        Some(secs) => secs,
        None => {
            return Err(SettingsError::Invalid("polling.last"));
        },
    };
    let retries: u64 = match lookup(entries, "polling", "retries") {
        None => {
            return Err(SettingsError::Missing("polling.retries"));
        },
        Some(value) => match from_decimal(value) {
            Some(count) => count,
            None => {
                return Err(SettingsError::Invalid("polling.retries"));
            },
        },
    };
    let upgrade_to_installation: Option<InstallationSet> = match lookup(
        entries,
        "update",
        "upgrade_to_installation",
    ) {
        None => None,
        Some(value) => match from_decimal(value) {
            Some(index) => {
                if index == 0 {
                    Some(InstallationSet::A)
                } else if index == 1 {
                    Some(InstallationSet::B)
                } else {
                    return Err(SettingsError::Invalid("update.upgrade_to_installation"));
                }
            },
            None => {
                return Err(SettingsError::Invalid("update.upgrade_to_installation"));
            },
        },
    };
    let server_address: Option<String> = match lookup(entries, "polling", "server_address") {
        Some(value) => Some(String::from_str(value)),
        None => None,
    };
    let settings = RuntimeSettings {
        polling: RuntimePolling { enabled, last, retries, server_address },
        update: RuntimeUpdate { upgrade_to_installation },
        persistent: false,
        dirty: false,
    };
    proof {
        assert(settings.stored().server_address == settings_of(
            entries_view(entries@),
            Some(last),
        )->Ok_0.server_address);
    }
    Ok(settings)
}

} // verus!
