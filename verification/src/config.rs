//! The add-on's settings, and where its files lie.

use vstd::prelude::*;

verus! {

/// The settings that the configuration file holds.
#[derive(Clone, Debug, PartialEq, Eq)]
pub struct ConfigValue {
    /// Name of the database file, relative to the data folder.
    pub db_path: String,
    /// Balance of a user seen for the first time, in minor units.
    pub eco_starting_balance: i64,
    /// Sign that is written before an amount of money.
    pub eco_symbol: String,
}

/// The settings together with the file that they were read from.
#[derive(Clone, Debug, PartialEq, Eq)]
pub struct Config {
    /// The settings.
    pub value: ConfigValue,
    /// The file that the settings were read from.
    pub path: String,
}

/// What was found where the configuration file should be.
#[derive(Clone, Debug, PartialEq, Eq)]
pub enum ConfigSource {
    /// There is no such file.
    Missing,
    /// The file holds no document.
    Empty,
    /// The file holds these settings.
    Settings(ConfigValue),
}

impl Config {
    /// The configuration for the file `path`, given what was found there: the
    /// settings of the file, or `defaults` where the file is missing or
    /// empty. The flag says whether the defaults have to be written to the
    /// file.
    pub fn init(path: &str, source: ConfigSource, defaults: ConfigValue) -> (outcome: (Config, bool))
        ensures
            outcome.0.path@ == path@,
            outcome.1 == !(source is Settings),
            source matches ConfigSource::Settings(value) ==> outcome.0.value == value,
            !(source is Settings) ==> outcome.0.value == defaults,
    {
        match source {
            ConfigSource::Settings(value) => (Config { value, path: String::from_str(path) }, false),
            _ => (Config { value: defaults, path: String::from_str(path) }, true),
        }
    }
}

/// The text of the configuration file's path in the data folder `folder`.
pub open spec fn config_file_text(folder: Seq<char>) -> Seq<char> {
    folder + "/config.jsonc"@
}

/// The text of the database file's path: the configured name inside the data
/// folder `folder`.
pub open spec fn database_file_text(folder: Seq<char>, db_path: Seq<char>) -> Seq<char> {
    folder + "/"@ + db_path
}

/// The text of the address under which the database file `file` is opened.
pub open spec fn database_address_text(file: Seq<char>) -> Seq<char> {
    "sqlite://"@ + file
}

/// Path of the configuration file in the data folder `folder`.
pub fn config_file(folder: &str) -> (path: String)
    ensures
        path@ == config_file_text(folder@),
{
    let mut path = String::from_str(folder);
    path.append("/config.jsonc");
    path
}

/// Path of the database file that `value` names, in the data folder
/// `folder`.
pub fn database_file(folder: &str, value: &ConfigValue) -> (path: String)
    ensures
        path@ == database_file_text(folder@, value.db_path@),
{
    let mut path = String::from_str(folder);
    path.append("/");
    path.append(value.db_path.as_str());
    path
}

/// Address under which the database file `file` is opened.
pub fn database_address(file: &str) -> (address: String)
    ensures
        address@ == database_address_text(file@),
{
    let mut address = String::from_str("sqlite://");
    address.append(file);
    address
}

/// The names that a list of tables holds.
pub open spec fn table_names(tables: Seq<String>) -> Seq<Seq<char>> {
    tables.map_values(|table: String| table@)
}

/// Whether the database still has to be given its tables: it was created
/// just now, or it has no table of players.
pub fn needs_schema(created: bool, tables: &Vec<String>) -> (needed: bool)
    ensures
        needed == (created || !table_names(tables@).contains("players"@)),
{
    if created {
        return true;
    }
    let wanted = String::from_str("players");
    let mut index: usize = 0;
    while index < tables.len()
        invariant
            !created,
            index <= tables.len(),
            wanted@ == "players"@,
            forall|i: int| 0 <= i < index ==> table_names(tables@)[i] != "players"@,
        decreases tables.len() - index,
    {
        if tables[index] == wanted {
            assert(table_names(tables@)[index as int] == "players"@);
            return false;
        }
        index += 1;
    }
    true
}

} // verus!
