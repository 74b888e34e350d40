//! Connection settings of the destination, resolved from a raw list of
//! key/value pairs.

use crate::text::{contains, lemma_contains_middle, optional_text, pairs};
use vstd::prelude::*;
use vstd::string::StringExecFns;

verus! {

/// A setting without which no request can be built.
#[derive(Clone, Copy, Debug, PartialEq, Eq, Structural)]
pub enum RequiredField {
    Endpoint,
    Table,
    Password,
}

impl RequiredField {
    /// The key under which the field stands in the raw settings.
    pub open spec fn key(self) -> Seq<char> {
        match self {
            RequiredField::Endpoint => "endpoint"@,
            RequiredField::Table => "table"@,
            RequiredField::Password => "password"@,
        }
    }

    /// The key under which the field stands in the raw settings.
    pub fn name(&self) -> (name: &'static str)
        ensures
            name@ == self.key(),
    {
        match self {
            RequiredField::Endpoint => "endpoint",
            RequiredField::Table => "table",
            RequiredField::Password => "password",
        }
    }
}

/// Why a raw list of settings was rejected.
#[derive(Clone, Copy, Debug, PartialEq, Eq, Structural)]
pub enum ValidationError {
    /// A required field is absent, or present with an empty value.
    MissingField(RequiredField),
}

impl ValidationError {
    /// The field that the error is about.
    pub open spec fn missing(self) -> RequiredField {
        match self {
            ValidationError::MissingField(field) => field,
        }
    }

    /// The message shown to an operator: the word `Missing` and the field's key.
    pub open spec fn message_text(self) -> Seq<char> {
        "Missing "@ + self.missing().key()
    }

    /// The field that the error is about.
    pub fn field(&self) -> (field: RequiredField)
        ensures
            field == self.missing(),
    {
        match self {
            ValidationError::MissingField(field) => *field,
        }
    }

    /// The message shown to an operator, which names the missing field.
    pub fn message(&self) -> (message: String)
        ensures
            message@ == self.message_text(),
    {
        String::from_str("Missing ").concat(self.field().name())
    }
}

/// The value that the raw settings give to `key`: that of the last pair with
/// this key, so that a later pair overrides an earlier one.
pub open spec fn lookup(entries: Seq<(Seq<char>, Seq<char>)>, key: Seq<char>) -> Option<Seq<char>>
    decreases entries.len(),
{
    if entries.len() == 0 {
        None
    } else if entries.last().0 == key {
        Some(entries.last().1)
    } else {
        lookup(entries.drop_last(), key)
    }
}

/// The raw settings give `key` a value that is not empty.
pub open spec fn supplied(entries: Seq<(Seq<char>, Seq<char>)>, key: Seq<char>) -> bool {
    lookup(entries, key) matches Some(value) && value.len() > 0
}

/// The value of `key` where one is supplied, `fallback` where the key is
/// absent or its value empty.
pub open spec fn value_or(
    entries: Seq<(Seq<char>, Seq<char>)>,
    key: Seq<char>,
    fallback: Seq<char>,
) -> Seq<char> {
    if supplied(entries, key) {
        lookup(entries, key).unwrap()
    } else {
        fallback
    }
}

/// The database that is written to when the settings name none.
pub open spec fn default_database() -> Seq<char> {
    "default"@
}

/// The user that signs in when the settings name none.
pub open spec fn default_username() -> Seq<char> {
    "default"@
}

/// Settings as plain character sequences.
pub struct SettingsView {
    pub endpoint: Seq<char>,
    pub database: Seq<char>,
    pub table: Seq<char>,
    pub username: Seq<char>,
    pub password: Seq<char>,
}

impl SettingsView {
    /// No field is empty.
    pub open spec fn is_complete(self) -> bool {
        &&& self.endpoint.len() > 0
        &&& self.database.len() > 0
        &&& self.table.len() > 0
        &&& self.username.len() > 0
        &&& self.password.len() > 0
    }
}

/// What the raw settings resolve to: the settings record, or the first
/// required field (endpoint, then table, then password) that is not supplied.
pub open spec fn resolve(
    entries: Seq<(Seq<char>, Seq<char>)>,
) -> Result<SettingsView, ValidationError> {
    if !supplied(entries, RequiredField::Endpoint.key()) {
        Err(ValidationError::MissingField(RequiredField::Endpoint))
    } else if !supplied(entries, RequiredField::Table.key()) {
        Err(ValidationError::MissingField(RequiredField::Table))
    } else if !supplied(entries, RequiredField::Password.key()) {
        Err(ValidationError::MissingField(RequiredField::Password))
    } else {
        Ok(
            SettingsView {
                endpoint: lookup(entries, RequiredField::Endpoint.key()).unwrap(),
                database: value_or(entries, "database"@, default_database()),
                table: lookup(entries, RequiredField::Table.key()).unwrap(),
                username: value_or(entries, "username"@, default_username()),
                password: lookup(entries, RequiredField::Password.key()).unwrap(),
            },
        )
    }
}

/// Connection settings of the destination database.
#[derive(Clone, Debug, PartialEq, Eq)]
pub struct Settings {
    /// Base URL of the database's HTTP interface.
    pub endpoint: String,
    pub database: String,
    pub table: String,
    pub username: String,
    pub password: String,
}

impl View for Settings {
    type V = SettingsView;

    open spec fn view(&self) -> SettingsView {
        SettingsView {
            endpoint: self.endpoint@,
            database: self.database@,
            table: self.table@,
            username: self.username@,
            password: self.password@,
        }
    }
}

/// Finds the value that the last pair with key `key` holds.
fn find(dict: &Vec<(String, String)>, key: &str) -> (found: Option<String>)
    ensures
        optional_text(found) == lookup(pairs(dict@), key@),
{
    let wanted = String::from_str(key);
    let ghost entries = pairs(dict@);
    let mut at: Option<usize> = None;
    let mut i: usize = 0;
    while i < dict.len()
        invariant
            i <= dict.len(),
            wanted@ == key@,
            entries == pairs(dict@),
            match at {
                Some(j) => j < i && lookup(entries.take(i as int), key@) == Some(entries[j as int].1),
                None => lookup(entries.take(i as int), key@) is None,
            },
        decreases dict.len() - i,
    {
        proof {
            let next = entries.take(i + 1);
            assert(next.drop_last() =~= entries.take(i as int));
            assert(next.last() == entries[i as int]);
        }
        if dict[i].0 == wanted {
            at = Some(i);
        }
        i += 1;
    }
    proof {
        assert(entries.take(i as int) =~= entries);
    }
    match at {
        Some(j) => Some(dict[j].1.clone()),
        None => None,
    }
}

/// The value of a required field, or the error that names the field.
fn required(
    dict: &Vec<(String, String)>,
    field: RequiredField,
) -> (value: Result<String, ValidationError>)
    ensures
        match value {
            Ok(v) => supplied(pairs(dict@), field.key()) && lookup(pairs(dict@), field.key())
                == Some(v@),
            Err(e) => !supplied(pairs(dict@), field.key()) && e == ValidationError::MissingField(
                field,
            ),
        },
{
    match find(dict, field.name()) {
        Some(v) => {
            if v.as_str().is_empty() {
                Err(ValidationError::MissingField(field))
            } else {
                Ok(v)
            }
        },
        None => Err(ValidationError::MissingField(field)),
    }
}

/// The value of an optional field, `fallback` where it is absent or empty.
fn optional(dict: &Vec<(String, String)>, key: &str, fallback: &str) -> (value: String)
    ensures
        value@ == value_or(pairs(dict@), key@, fallback@),
{
    match find(dict, key) {
        Some(v) => {
            if v.as_str().is_empty() {
                String::from_str(fallback)
            } else {
                v
            }
        },
        None => String::from_str(fallback),
    }
}

impl Settings {
    /// Resolves a raw list of settings.
    ///
    /// The keys read are `endpoint`, `database`, `table`, `username` and
    /// `password`; other keys are ignored, and of two pairs with one key the
    /// later counts. `database` and `username` fall back to `default` where
    /// absent or empty. The first of `endpoint`, `table` and `password` that
    /// is absent or empty is reported as missing.
    pub fn new(settings_dict: Vec<(String, String)>) -> (resolved: Result<Self, ValidationError>)
        ensures
            match resolved {
                Ok(settings) => resolve(pairs(settings_dict@)) == Ok::<
                    SettingsView,
                    ValidationError,
                >(settings@),
                Err(error) => resolve(pairs(settings_dict@)) == Err::<
                    SettingsView,
                    ValidationError,
                >(error),
            },
            resolved matches Ok(settings) ==> settings@.is_complete(),
    {
        let endpoint = match required(&settings_dict, RequiredField::Endpoint) {
            Ok(value) => value,
            Err(error) => return Err(error),
        };
        let database = optional(&settings_dict, "database", "default");
        let table = match required(&settings_dict, RequiredField::Table) {
            Ok(value) => value,
            Err(error) => return Err(error),
        };
        let username = optional(&settings_dict, "username", "default");
        let password = match required(&settings_dict, RequiredField::Password) {
            Ok(value) => value,
            Err(error) => return Err(error),
        };
        proof {
            lemma_resolved_is_complete(pairs(settings_dict@));
        }
        Ok(Settings { endpoint, database, table, username, password })
    }
}

/// A key has the value of the last pair that holds it, and no value where no
/// pair holds it.
pub proof fn lemma_lookup_is_last_pair(entries: Seq<(Seq<char>, Seq<char>)>, key: Seq<char>)
    ensures
        match lookup(entries, key) {
            Some(value) => exists|i: int|
                0 <= i < entries.len() && #[trigger] entries[i] == (key, value) && forall|j: int|
                    i < j < entries.len() ==> (#[trigger] entries[j]).0 != key,
            None => forall|i: int| 0 <= i < entries.len() ==> (#[trigger] entries[i]).0 != key,
        },
    decreases entries.len(),
{
    if entries.len() > 0 {
        let last = entries.len() - 1;
        let front = entries.drop_last();
        if entries.last().0 == key {
            assert(entries[last] == (key, entries.last().1));
        } else {
            lemma_lookup_is_last_pair(front, key);
            assert forall|i: int| 0 <= i < front.len() implies front[i] == entries[i] by {}
            match lookup(front, key) {
                Some(value) => {
                    let i = choose|i: int|
                        0 <= i < front.len() && #[trigger] front[i] == (key, value) && forall|
                            j: int,
                        |
                            i < j < front.len() ==> (#[trigger] front[j]).0 != key;
                    assert(entries[i] == (key, value));
                    assert forall|j: int| i < j < entries.len() implies (#[trigger] entries[j]).0
                        != key by {
                        if j < last {
                            assert(front[j].0 != key);
                        }
                    }
                },
                None => {
                    assert forall|i: int| 0 <= i < entries.len() implies (#[trigger] entries[i]).0
                        != key by {
                        if i < last {
                            assert(front[i].0 != key);
                        }
                    }
                },
            }
        }
    }
}

/// A key that is none of the five that are read.
pub open spec fn is_unread(key: Seq<char>) -> bool {
    &&& key != "endpoint"@
    &&& key != "database"@
    &&& key != "table"@
    &&& key != "username"@
    &&& key != "password"@
}

/// A pair under a key that is not read changes nothing, wherever it stands.
pub proof fn lemma_unread_key_is_ignored(
    before: Seq<(Seq<char>, Seq<char>)>,
    key: Seq<char>,
    value: Seq<char>,
    after: Seq<(Seq<char>, Seq<char>)>,
)
    requires
        is_unread(key),
    ensures
        resolve(before.push((key, value)) + after) == resolve(before + after),
{
    lemma_lookup_skips_other_key(before, key, value, after, "endpoint"@);
    lemma_lookup_skips_other_key(before, key, value, after, "database"@);
    lemma_lookup_skips_other_key(before, key, value, after, "table"@);
    lemma_lookup_skips_other_key(before, key, value, after, "username"@);
    lemma_lookup_skips_other_key(before, key, value, after, "password"@);
}

/// A pair under another key does not change what `wanted` is given.
pub proof fn lemma_lookup_skips_other_key(
    before: Seq<(Seq<char>, Seq<char>)>,
    key: Seq<char>,
    value: Seq<char>,
    after: Seq<(Seq<char>, Seq<char>)>,
    wanted: Seq<char>,
)
    requires
        key != wanted,
    ensures
        lookup(before.push((key, value)) + after, wanted) == lookup(before + after, wanted),
    decreases after.len(),
{
    let with = before.push((key, value)) + after;
    let without = before + after;
    if after.len() == 0 {
        assert(with =~= before.push((key, value)));
        assert(with.drop_last() =~= before);
        assert(without =~= before);
    } else {
        assert(with.last() == after.last());
        assert(without.last() == after.last());
        assert(with.drop_last() =~= before.push((key, value)) + after.drop_last());
        assert(without.drop_last() =~= before + after.drop_last());
        lemma_lookup_skips_other_key(before, key, value, after.drop_last(), wanted);
    }
}

/// Settings that resolve have no empty field.
pub proof fn lemma_resolved_is_complete(entries: Seq<(Seq<char>, Seq<char>)>)
    ensures
        resolve(entries) matches Ok(settings) ==> settings.is_complete(),
{
    reveal_strlit("default");
}

/// Raw settings that supply `endpoint`, `table` and `password` resolve. The
/// three are taken as supplied; `database` and `username` are the supplied
/// values, or `default` where absent or empty.
pub proof fn lemma_supplied_settings_resolve(entries: Seq<(Seq<char>, Seq<char>)>)
    requires
        supplied(entries, "endpoint"@),
        supplied(entries, "table"@),
        supplied(entries, "password"@),
    ensures
        resolve(entries) matches Ok(settings) && {
            &&& Some(settings.endpoint) == lookup(entries, "endpoint"@)
            &&& Some(settings.table) == lookup(entries, "table"@)
            &&& Some(settings.password) == lookup(entries, "password"@)
            &&& supplied(entries, "database"@) ==> Some(settings.database) == lookup(
                entries,
                "database"@,
            )
            &&& !supplied(entries, "database"@) ==> settings.database == "default"@
            &&& supplied(entries, "username"@) ==> Some(settings.username) == lookup(
                entries,
                "username"@,
            )
            &&& !supplied(entries, "username"@) ==> settings.username == "default"@
        },
{
}

/// Raw settings that lack any one required field are rejected, whatever else
/// they hold, and the field that the error names is one that they lack.
pub proof fn lemma_missing_field_rejected(
    entries: Seq<(Seq<char>, Seq<char>)>,
    field: RequiredField,
)
    requires
        !supplied(entries, field.key()),
    ensures
        resolve(entries) matches Err(error) && !supplied(entries, error.missing().key()),
{
}

/// Raw settings that lack one required field and supply the other two are
/// rejected with an error that names that field.
pub proof fn lemma_only_missing_field_is_named(
    entries: Seq<(Seq<char>, Seq<char>)>,
    field: RequiredField,
)
    requires
        !supplied(entries, field.key()),
        forall|other: RequiredField| other != field ==> supplied(entries, #[trigger] other.key()),
    ensures
        resolve(entries) == Err::<SettingsView, ValidationError>(
            ValidationError::MissingField(field),
        ),
{
    assert(field != RequiredField::Endpoint ==> supplied(entries, RequiredField::Endpoint.key()));
    assert(field != RequiredField::Table ==> supplied(entries, RequiredField::Table.key()));
}

/// The message of an error contains the key of the field that is missing.
pub proof fn lemma_message_names_field(error: ValidationError)
    ensures
        contains(error.message_text(), error.missing().key()),
{
    lemma_contains_middle("Missing "@, error.missing().key(), Seq::empty());
    assert(error.message_text() =~= "Missing "@ + error.missing().key() + Seq::<char>::empty());
}

/// Resolution fails only for want of the required field that the error names.
pub proof fn lemma_rejected_lacks_field(entries: Seq<(Seq<char>, Seq<char>)>)
    ensures
        resolve(entries) matches Err(error) ==> !supplied(entries, error.missing().key()),
{
}

} // verus!
