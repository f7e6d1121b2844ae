//! The configuration of the service: web settings, path variables and the
//! registry of commands, built from the sections of an INI document.

use vstd::prelude::*;
use vstd::string::*;
use crate::placeholder::{replace_placeholders, substitute};
use crate::table::{
    collect, find_first, has_key, lemma_first_is_position, lemma_upsert_entries, lookup,
    option_view, pairs_view, result_view, upsert, KeyedTable,
};
use crate::text::{
    chars_of, ends_with, prefix_ends_with, push_range, stripped_len, strip_trailing,
};

verus! {

/// A section's settings: string values under string keys.
pub type ConfigMap = KeyedTable<String>;

/// The model of a section or a `ConfigMap`: its (key, value) pairs in order.
pub type Pairs = Seq<(Seq<char>, Seq<char>)>;

// ---------------------------------------------------------------------------
// Commands
// ---------------------------------------------------------------------------
/// A command of the registry.
pub struct CustomCommand {
    /// The label shown to users.
    pub name: String,
    /// The public identifier by which callers ask for the command.
    pub value: String,
    /// The shell command, with the path variables already put in.
    pub command: String,
    /// What the command does, in words.
    pub description: String,
}

/// A command as the listing hands it out.
pub struct ApiCommand {
    pub name: String,
    pub value: String,
    pub command: String,
    pub description: String,
}

/// The model of a command: its four texts.
pub struct CommandView {
    pub name: Seq<char>,
    pub value: Seq<char>,
    pub command: Seq<char>,
    pub description: Seq<char>,
}

impl View for CustomCommand {
    type V = CommandView;

    open spec fn view(&self) -> CommandView {
        CommandView {
            name: self.name@,
            value: self.value@,
            command: self.command@,
            description: self.description@,
        }
    }
}

impl View for ApiCommand {
    type V = CommandView;

    open spec fn view(&self) -> CommandView {
        CommandView {
            name: self.name@,
            value: self.value@,
            command: self.command@,
            description: self.description@,
        }
    }
}

/// The model of the registry: (key, command) pairs in order.
pub type Registry = Seq<(Seq<char>, CommandView)>;

// ---------------------------------------------------------------------------
// Errors
// ---------------------------------------------------------------------------
/// Why a configuration was refused.
#[derive(Debug)]
pub enum ConfigError {
    /// The document has no section of this name.
    SectionNotFound(String),
    /// The commands section declares a command and lacks this key of it.
    KeyNotFound(String),
}

/// The model of a `ConfigError`.
pub enum ConfigErrorView {
    SectionNotFound(Seq<char>),
    KeyNotFound(Seq<char>),
}

impl ConfigErrorView {
    /// The error in words.
    pub open spec fn message(self) -> Seq<char> {
        match self {
            ConfigErrorView::SectionNotFound(name) => "Section '"@ + name + "' not found"@,
            ConfigErrorView::KeyNotFound(key) => key + " not found"@,
        }
    }
}

impl View for ConfigError {
    type V = ConfigErrorView;

    open spec fn view(&self) -> ConfigErrorView {
        match self {
            ConfigError::SectionNotFound(name) => ConfigErrorView::SectionNotFound(name@),
            ConfigError::KeyNotFound(key) => ConfigErrorView::KeyNotFound(key@),
        }
    }
}

impl ConfigError {
    /// The error in words: `Section 'name' not found` or `key not found`.
    pub fn message(&self) -> (text: String)
        ensures
            text@ == self@.message(),
    {
        match self {
            ConfigError::SectionNotFound(name) => {
                let mut text = String::from_str("Section '");
                text.append(name.as_str());
                text.append("' not found");
                text
            },
            ConfigError::KeyNotFound(key) => {
                let mut text = key.clone();
                text.append(" not found");
                text
            },
        }
    }
}

// ---------------------------------------------------------------------------
// The configuration
// ---------------------------------------------------------------------------
/// The configuration: built once, then only read.
pub struct Config {
    /// Settings of the web server, such as the port.
    pub webconf: ConfigMap,
    /// The path variables that command templates refer to.
    pub paths: ConfigMap,
    /// The registry of commands, each under the key of its group.
    pub commands: KeyedTable<CustomCommand>,
}

/// The model of a `Config`.
pub struct ConfigView {
    pub webconf: Pairs,
    pub paths: Pairs,
    pub commands: Registry,
}

impl View for Config {
    type V = ConfigView;

    open spec fn view(&self) -> ConfigView {
        ConfigView { webconf: self.webconf@, paths: self.paths@, commands: self.commands@ }
    }
}

// ---------------------------------------------------------------------------
// What building a configuration means
// ---------------------------------------------------------------------------
/// The settings of a section: the section's pairs, where a key that comes
/// twice keeps its last value. A section that is not there is an error.
pub open spec fn section_table(name: Seq<char>, entries: Option<Pairs>) -> Result<
    Pairs,
    ConfigErrorView,
> {
    match entries {
        Some(pairs) => Ok(collect(pairs)),
        None => Err(ConfigErrorView::SectionNotFound(name)),
    }
}

/// The key of the group that a key ending with `Name` declares: the key
/// without its trailing `Name`s.
pub open spec fn group_key(key: Seq<char>) -> Seq<char> {
    strip_trailing(key, "Name"@)
}

/// The ending by which a key that does not end with `Name` declares a
/// group: `Value`, `Command` or `Description`, or none.
pub open spec fn companion_ending(key: Seq<char>) -> Option<Seq<char>> {
    if ends_with(key, "Value"@) {
        Some("Value"@)
    } else if ends_with(key, "Command"@) {
        Some("Command"@)
    } else if ends_with(key, "Description"@) {
        Some("Description"@)
    } else {
        None
    }
}

/// The first key of the group `group` that the section lacks, in the order
/// `Name`, `Value`, `Command`, `Description`, or `None` where it has them
/// all. The `Name` key is asked for only where `with_name` says so.
pub open spec fn first_lacking(section: Pairs, group: Seq<char>, with_name: bool) -> Option<
    Seq<char>,
> {
    if with_name && lookup(section, group + "Name"@) is None {
        Some(group + "Name"@)
    } else if lookup(section, group + "Value"@) is None {
        Some(group + "Value"@)
    } else if lookup(section, group + "Command"@) is None {
        Some(group + "Command"@)
    } else if lookup(section, group + "Description"@) is None {
        Some(group + "Description"@)
    } else {
        None
    }
}

/// What the group that the entry `i` declares is missing. An entry whose key
/// ends with `Name` declares the group of `group_key` and is itself its
/// name. An entry whose key ends with `Value`, `Command` or `Description`
/// declares the group whose key is what stands before that ending, and that
/// group needs its `Name` key too. Any other entry declares nothing and
/// misses nothing.
pub open spec fn entry_missing(section: Pairs, i: int) -> Option<Seq<char>> {
    let key = section[i].0;
    if ends_with(key, "Name"@) {
        first_lacking(section, group_key(key), false)
    } else {
        match companion_ending(key) {
            Some(ending) => first_lacking(section, key.take(key.len() - ending.len()), true),
            None => None,
        }
    }
}

/// The command that the entry `i` of the commands section declares, where
/// its key ends with `Name`. Its name is the entry's value; its value,
/// command template and description stand in the section under the group's
/// key followed by `Value`, `Command` and `Description`. The first of these
/// keys that the section lacks is the error. The template has the path
/// variables put in.
pub open spec fn declared_command(section: Pairs, paths: Pairs, i: int) -> Result<
    (Seq<char>, CommandView),
    ConfigErrorView,
> {
    let group = group_key(section[i].0);
    match first_lacking(section, group, false) {
        Some(key) => Err(ConfigErrorView::KeyNotFound(key)),
        None => Ok(
            (
                group,
                CommandView {
                    name: section[i].1,
                    value: lookup(section, group + "Value"@)->0,
                    command: substitute(lookup(section, group + "Command"@)->0, paths),
                    description: lookup(section, group + "Description"@)->0,
                },
            ),
        ),
    }
}

/// The registry that the first `n` entries of the commands section build.
/// Every entry that declares a group is checked: the first entry whose
/// group misses a key is the error of the whole, and the error names the
/// first key that is missing. Each entry whose key ends with `Name` sets
/// its command under its group's key.
pub open spec fn registry_upto(section: Pairs, paths: Pairs, n: int) -> Result<
    Registry,
    ConfigErrorView,
>
    decreases n,
{
    if n <= 0 {
        Ok(Seq::empty())
    } else {
        match registry_upto(section, paths, n - 1) {
            Err(e) => Err(e),
            Ok(registry) => match entry_missing(section, n - 1) {
                Some(key) => Err(ConfigErrorView::KeyNotFound(key)),
                None => if ends_with(section[n - 1].0, "Name"@) {
                    Ok(
                        upsert(
                            registry,
                            declared_command(section, paths, n - 1)->Ok_0.0,
                            declared_command(section, paths, n - 1)->Ok_0.1,
                        ),
                    )
                } else {
                    Ok(registry)
                },
            },
        }
    }
}

/// The registry that the commands section builds.
pub open spec fn registry_of(section: Pairs, paths: Pairs) -> Result<Registry, ConfigErrorView> {
    registry_upto(section, paths, section.len() as int)
}

/// The registry of a document whose commands section is `entries`.
pub open spec fn commands_table(entries: Option<Pairs>, paths: Pairs) -> Result<
    Registry,
    ConfigErrorView,
> {
    match entries {
        Some(section) => registry_of(section, paths),
        None => Err(ConfigErrorView::SectionNotFound("commands"@)),
    }
}

/// The configuration of a document with these three sections. The sections
/// are taken in the order `webconf`, `paths`, `commands`, and the first
/// error ends the loading.
pub open spec fn config_of(
    webconf: Option<Pairs>,
    paths: Option<Pairs>,
    commands: Option<Pairs>,
) -> Result<ConfigView, ConfigErrorView> {
    match section_table("webconf"@, webconf) {
        Err(e) => Err(e),
        Ok(web) => match section_table("paths"@, paths) {
            Err(e) => Err(e),
            Ok(path_table) => match commands_table(commands, path_table) {
                Err(e) => Err(e),
                Ok(registry) => Ok(
                    ConfigView { webconf: web, paths: path_table, commands: registry },
                ),
            },
        },
    }
}

// ---------------------------------------------------------------------------
// The INI document
// ---------------------------------------------------------------------------
/// `ini::Ini` of the `ini` crate, a parsed INI document. The type is only
/// declared: what a document holds is known through `ini_section` alone.
#[verifier::external_type_specification]
#[verifier::external_body]
pub struct ExIni(ini::Ini);

/// The (key, value) pairs of the section `name` of an INI document, in the
/// order of the document, or `None` where it has no such section.
pub uninterp spec fn ini_section(conf: ini::Ini, name: Seq<char>) -> Option<Pairs>;

/// The view of what `section_pairs` hands out.
pub open spec fn option_pairs_view(entries: Option<Vec<(String, String)>>) -> Option<Pairs> {
    match entries {
        Some(pairs) => Some(pairs_view(pairs@)),
        None => None,
    }
}

/// `ini::Ini::section`, with the properties of the section it finds copied
/// out in the order in which `ini::Properties::iter` walks them. The result is
/// what `ini_section` names.
#[verifier::external_body]
fn section_pairs(conf: &ini::Ini, name: &str) -> (entries: Option<Vec<(String, String)>>)
    ensures
        option_pairs_view(entries) == ini_section(*conf, name@),
{
    conf.section(Some(name)).map(
        |section| section.iter().map(|(key, value)| (key.to_string(), value.to_string())).collect(),
    )
}

// ---------------------------------------------------------------------------
// Building
// ---------------------------------------------------------------------------
/// The table of the pairs of a section: a key that comes twice keeps its
/// last value.
pub fn collect_pairs(entries: &Vec<(String, String)>) -> (table: ConfigMap)
    ensures
        table@ == collect(pairs_view(entries@)),
{
    let mut table: ConfigMap = KeyedTable::new();
    let mut i: usize = 0;
    let ghost pairs = pairs_view(entries@);
    assert(pairs.take(0) =~= Seq::<(Seq<char>, Seq<char>)>::empty());
    while i < entries.len()
        invariant
            i <= entries.len(),
            pairs == pairs_view(entries@),
            table@ == collect(pairs.take(i as int)),
        decreases entries.len() - i,
    {
        proof {
            let upto = pairs.take(i + 1);
            assert(upto.drop_last() =~= pairs.take(i as int));
            assert(upto.last() == pairs[i as int]);
        }
        table.insert(entries[i].0.clone(), entries[i].1.clone());
        i += 1;
    }
    assert(pairs.take(i as int) =~= pairs);
    table
}

/// The settings of the section `section_name`, whose pairs are `entries`.
pub fn section_map(section_name: &str, entries: Option<Vec<(String, String)>>) -> (r: Result<
    ConfigMap,
    ConfigError,
>)
    ensures
        result_view(r) == section_table(section_name@, option_pairs_view(entries)),
{
    match entries {
        Some(pairs) => Ok(collect_pairs(&pairs)),
        None => Err(ConfigError::SectionNotFound(section_name.to_owned())),
    }
}

/// The settings of the section `section_name` of `conf`.
pub fn load_section(conf: &ini::Ini, section_name: &str) -> (r: Result<ConfigMap, ConfigError>)
    ensures
        result_view(r) == section_table(section_name@, ini_section(*conf, section_name@)),
{
    section_map(section_name, section_pairs(conf, section_name))
}

/// The value that `section` holds under the first `group_len` characters of
/// `key` followed by `suffix`, or the error that names the missing key.
fn companion<'a>(
    section: &'a Vec<(String, String)>,
    key: &Vec<char>,
    group_len: usize,
    suffix: &str,
) -> (r: Result<&'a String, ConfigError>)
    requires
        group_len <= key.len(),
    ensures
        match r {
            Ok(value) => lookup(pairs_view(section@), key@.take(group_len as int) + suffix@)
                == Some(value@),
            Err(e) => lookup(pairs_view(section@), key@.take(group_len as int) + suffix@) is None
                && e@ == ConfigErrorView::KeyNotFound(key@.take(group_len as int) + suffix@),
        },
{
    let mut wanted = String::new();
    push_range(&mut wanted, key, 0, group_len);
    wanted.append(suffix);
    assert(wanted@ =~= key@.take(group_len as int) + suffix@);
    match find_first(section, wanted.as_str()) {
        Some(i) => {
            proof {
                lemma_first_is_position(pairs_view(section@), wanted@, i as int);
            }
            Ok(&section[i].1)
        },
        None => Err(ConfigError::KeyNotFound(wanted)),
    }
}

/// The command that the entry `i` of the commands section declares, with the
/// key of its group.
fn declare(section: &Vec<(String, String)>, paths: &ConfigMap, i: usize, key: &Vec<char>) -> (r:
    Result<(String, CustomCommand), ConfigError>)
    requires
        i < section.len(),
        key@ == section@[i as int].0@,
    ensures
        match r {
            Ok((group, command)) => declared_command(pairs_view(section@), paths@, i as int) == Ok::<
                (Seq<char>, CommandView),
                ConfigErrorView,
            >((group@, command@)),
            Err(e) => declared_command(pairs_view(section@), paths@, i as int) == Err::<
                (Seq<char>, CommandView),
                ConfigErrorView,
            >(e@),
        },
{
    let name_ending = chars_of("Name");
    let group_len = stripped_len(key, &name_ending);
    let value = match companion(section, key, group_len, "Value") {
        Ok(value) => value,
        Err(e) => {
            return Err(e);
        },
    };
    let template = match companion(section, key, group_len, "Command") {
        Ok(template) => template,
        Err(e) => {
            return Err(e);
        },
    };
    let description = match companion(section, key, group_len, "Description") {
        Ok(description) => description,
        Err(e) => {
            return Err(e);
        },
    };
    let mut group = String::new();
    push_range(&mut group, key, 0, group_len);
    assert(group@ =~= key@.take(group_len as int));
    let command = CustomCommand {
        name: section[i].1.clone(),
        value: value.clone(),
        command: replace_placeholders(template.as_str(), paths),
        description: description.clone(),
    };
    Ok((group, command))
}

/// What the group that stands in the first `group_len` characters of `key`
/// is missing of its four keys, as the error that names the first of them.
fn require_group(section: &Vec<(String, String)>, key: &Vec<char>, group_len: usize) -> (r:
    Option<ConfigError>)
    requires
        group_len <= key.len(),
    ensures
        match r {
            Some(e) => first_lacking(pairs_view(section@), key@.take(group_len as int), true)
                matches Some(lacking) && e@ == ConfigErrorView::KeyNotFound(lacking),
            None => first_lacking(pairs_view(section@), key@.take(group_len as int), true)
                is None,
        },
{
    if let Err(e) = companion(section, key, group_len, "Name") {
        return Some(e);
    }
    if let Err(e) = companion(section, key, group_len, "Value") {
        return Some(e);
    }
    if let Err(e) = companion(section, key, group_len, "Command") {
        return Some(e);
    }
    if let Err(e) = companion(section, key, group_len, "Description") {
        return Some(e);
    }
    None
}

/// The length of the group's key in `key`, where `key` ends with `Value`,
/// `Command` or `Description`.
fn companion_group_len(key: &Vec<char>) -> (r: Option<usize>)
    ensures
        match companion_ending(key@) {
            Some(ending) => ending.len() <= key.len() && r == Some(
                (key.len() - ending.len()) as usize,
            ),
            None => r is None,
        },
{
    let value_ending = chars_of("Value");
    let command_ending = chars_of("Command");
    let description_ending = chars_of("Description");
    assert(key@.take(key.len() as int) =~= key@);
    if prefix_ends_with(key, key.len(), &value_ending) {
        Some(key.len() - value_ending.len())
    } else if prefix_ends_with(key, key.len(), &command_ending) {
        Some(key.len() - command_ending.len())
    } else if prefix_ends_with(key, key.len(), &description_ending) {
        Some(key.len() - description_ending.len())
    } else {
        None
    }
}

/// The registry that the commands section `section` builds, with the path
/// variables `paths` put into each command template.
pub fn build_commands(section: &Vec<(String, String)>, paths: &ConfigMap) -> (r: Result<
    KeyedTable<CustomCommand>,
    ConfigError,
>)
    ensures
        result_view(r) == registry_of(pairs_view(section@), paths@),
{
    let name_ending = chars_of("Name");
    let mut registry: KeyedTable<CustomCommand> = KeyedTable::new();
    let mut i: usize = 0;
    while i < section.len()
        invariant
            i <= section.len(),
            name_ending@ == "Name"@,
            registry_upto(pairs_view(section@), paths@, i as int) == Ok::<
                Registry,
                ConfigErrorView,
            >(registry@),
        decreases section.len() - i,
    {
        let key = chars_of(section[i].0.as_str());
        assert(key@.take(key.len() as int) =~= key@);
        let failure = if prefix_ends_with(&key, key.len(), &name_ending) {
            match declare(section, paths, i, &key) {
                Ok((group, command)) => {
                    registry.insert(group, command);
                    None
                },
                Err(e) => Some(e),
            }
        } else {
            match companion_group_len(&key) {
                Some(group_len) => require_group(section, &key, group_len),
                None => None,
            }
        };
        if let Some(e) = failure {
            proof {
                lemma_registry_error_stays(
                    pairs_view(section@),
                    paths@,
                    i + 1,
                    section.len() as int,
                );
            }
            return Err(e);
        }
        i += 1;
    }
    Ok(registry)
}

/// Once the first `n` entries have failed, so has every longer run.
pub proof fn lemma_registry_error_stays(section: Pairs, paths: Pairs, n: int, m: int)
    requires
        n <= m,
        registry_upto(section, paths, n) is Err,
    ensures
        registry_upto(section, paths, m) == registry_upto(section, paths, n),
    decreases m - n,
{
    if n < m {
        lemma_registry_error_stays(section, paths, n, m - 1);
    }
}

/// The registry of a document whose commands section has the pairs
/// `entries`.
pub fn commands_from(entries: Option<Vec<(String, String)>>, paths: &ConfigMap) -> (r: Result<
    KeyedTable<CustomCommand>,
    ConfigError,
>)
    ensures
        result_view(r) == commands_table(option_pairs_view(entries), paths@),
{
    match entries {
        Some(section) => build_commands(&section, paths),
        None => Err(ConfigError::SectionNotFound("commands".to_owned())),
    }
}

/// The registry that the section `commands` of `conf` builds.
pub fn load_commands(conf: &ini::Ini, paths: &ConfigMap) -> (r: Result<
    KeyedTable<CustomCommand>,
    ConfigError,
>)
    ensures
        result_view(r) == commands_table(ini_section(*conf, "commands"@), paths@),
{
    commands_from(section_pairs(conf, "commands"), paths)
}

/// The configuration of a document whose sections `webconf`, `paths` and
/// `commands` have these pairs.
pub fn build_config(
    webconf: Option<Vec<(String, String)>>,
    paths: Option<Vec<(String, String)>>,
    commands: Option<Vec<(String, String)>>,
) -> (r: Result<Config, ConfigError>)
    ensures
        result_view(r) == config_of(
            option_pairs_view(webconf),
            option_pairs_view(paths),
            option_pairs_view(commands),
        ),
{
    let webconf = match section_map("webconf", webconf) {
        Ok(table) => table,
        Err(e) => {
            return Err(e);
        },
    };
    let paths = match section_map("paths", paths) {
        Ok(table) => table,
        Err(e) => {
            return Err(e);
        },
    };
    let commands = match commands_from(commands, &paths) {
        Ok(registry) => registry,
        Err(e) => {
            return Err(e);
        },
    };
    Ok(Config { webconf, paths, commands })
}

/// The configuration that the document `conf` holds.
pub fn load_config(conf: &ini::Ini) -> (r: Result<Config, ConfigError>)
    ensures
        result_view(r) == config_of(
            ini_section(*conf, "webconf"@),
            ini_section(*conf, "paths"@),
            ini_section(*conf, "commands"@),
        ),
{
    let webconf = match load_section(conf, "webconf") {
        Ok(table) => table,
        Err(e) => {
            return Err(e);
        },
    };
    let paths = match load_section(conf, "paths") {
        Ok(table) => table,
        Err(e) => {
            return Err(e);
        },
    };
    let commands = match load_commands(conf, &paths) {
        Ok(registry) => registry,
        Err(e) => {
            return Err(e);
        },
    };
    Ok(Config { webconf, paths, commands })
}

// ---------------------------------------------------------------------------
// Looking up and listing
// ---------------------------------------------------------------------------
/// Some command of `registry` has the public value `value`.
pub open spec fn has_value(registry: Registry, value: Seq<char>) -> bool {
    exists|i: int| 0 <= i < registry.len() && (#[trigger] registry[i]).1.value == value
}

/// `i` is the position of the first command of `registry` with the public
/// value `value`.
pub open spec fn is_first_with_value(registry: Registry, value: Seq<char>, i: int) -> bool {
    &&& 0 <= i < registry.len()
    &&& registry[i].1.value == value
    &&& forall|j: int| 0 <= j < i ==> (#[trigger] registry[j]).1.value != value
}

/// The first command of `registry` with the public value `value`.
pub open spec fn find_by_value(registry: Registry, value: Seq<char>) -> Option<CommandView> {
    if has_value(registry, value) {
        Some(registry[choose|i: int| is_first_with_value(registry, value, i)].1)
    } else {
        None
    }
}

/// The commands of `registry`, in its order.
pub open spec fn listing(registry: Registry) -> Seq<CommandView> {
    Seq::new(registry.len(), |i: int| registry[i].1)
}

/// The commands of `list`, each by its view.
pub open spec fn listing_view(list: Seq<ApiCommand>) -> Seq<CommandView> {
    Seq::new(list.len(), |i: int| list[i]@)
}

/// The first position of a value is the only position that is first, and
/// `find_by_value` gives the command at it.
pub proof fn lemma_first_with_value_is_found(registry: Registry, value: Seq<char>, i: int)
    requires
        is_first_with_value(registry, value, i),
    ensures
        find_by_value(registry, value) == Some(registry[i].1),
{
    let p = choose|p: int| is_first_with_value(registry, value, p);
    assert(is_first_with_value(registry, value, p));
    if p < i {
        assert(registry[p].1.value != value);
    } else if i < p {
        assert(registry[i].1.value != value);
    }
}

impl Config {
    /// The command with the public value `value`: the first in the registry's
    /// order that has it, or `None` where no command has it.
    pub fn get_command_by_value(&self, value: &str) -> (r: Option<&CustomCommand>)
        ensures
            option_view(r) == find_by_value(self.commands@, value@),
    {
        let wanted = value.to_owned();
        let entries = self.commands.entries();
        let mut i: usize = 0;
        while i < entries.len()
            invariant
                i <= entries.len(),
                wanted@ == value@,
                pairs_view(entries@) == self.commands@,
                forall|j: int| 0 <= j < i ==> (#[trigger] self.commands@[j]).1.value != value@,
            decreases entries.len() - i,
        {
            if entries[i].1.value == wanted {
                proof {
                    assert(self.commands@[i as int].1 == entries@[i as int].1@);
                    lemma_first_with_value_is_found(self.commands@, value@, i as int);
                }
                return Some(&entries[i].1);
            }
            i += 1;
        }
        None
    }

    /// Every command of the registry, in the registry's order.
    pub fn list_commands(&self) -> (list: Vec<ApiCommand>)
        ensures
            listing_view(list@) == listing(self.commands@),
    {
        let entries = self.commands.entries();
        let mut list: Vec<ApiCommand> = Vec::new();
        let mut i: usize = 0;
        while i < entries.len()
            invariant
                i <= entries.len(),
                pairs_view(entries@) == self.commands@,
                list@.len() == i,
                forall|j: int| 0 <= j < i ==> (#[trigger] list@[j])@ == self.commands@[j].1,
            decreases entries.len() - i,
        {
            let command = &entries[i].1;
            assert(self.commands@[i as int].1 == command@);
            list.push(
                ApiCommand {
                    name: command.name.clone(),
                    value: command.value.clone(),
                    command: command.command.clone(),
                    description: command.description.clone(),
                },
            );
            i += 1;
        }
        assert(listing_view(list@) =~= listing(self.commands@));
        list
    }
}

// ---------------------------------------------------------------------------
// Laws
// ---------------------------------------------------------------------------
/// A command is found by its public value, provided that no command before
/// it in the registry has the same value.
pub proof fn lemma_lookup_finds_registered(registry: Registry, i: int)
    requires
        0 <= i < registry.len(),
        forall|j: int| 0 <= j < i ==> (#[trigger] registry[j]).1.value != registry[i].1.value,
    ensures
        find_by_value(registry, registry[i].1.value) == Some(registry[i].1),
{
    lemma_first_with_value_is_found(registry, registry[i].1.value, i);
}

/// The group that the entry `i` of the commands section declares, if it
/// declares one, has all its keys.
pub open spec fn group_complete(section: Pairs, i: int) -> bool {
    entry_missing(section, i) is None
}

/// Every entry among the first `n` that declares a group has all its keys.
pub open spec fn groups_complete_upto(section: Pairs, n: int) -> bool {
    forall|i: int| 0 <= i < n && i < section.len() ==> #[trigger] group_complete(section, i)
}

/// The entry `i` is the first whose group misses a key, and `error` names
/// the first key that it misses.
pub open spec fn is_first_failure(section: Pairs, i: int, error: ConfigErrorView) -> bool {
    &&& groups_complete_upto(section, i)
    &&& entry_missing(section, i) is Some
    &&& error == ConfigErrorView::KeyNotFound(entry_missing(section, i)->0)
}

/// What an entry misses is a key that the section lacks.
pub proof fn lemma_missing_key_is_lacking(section: Pairs, i: int)
    ensures
        entry_missing(section, i) matches Some(key) ==> !has_key(section, key),
{
}

/// The registry is built if and only if every group that an entry declares
/// has all its keys. Where it is refused, the error is that of the first
/// entry whose group misses a key: it names the first key that this group
/// misses, which the section lacks, and no registry comes back at all.
pub proof fn lemma_registry_needs_complete_groups(section: Pairs, paths: Pairs, n: int)
    requires
        0 <= n <= section.len(),
    ensures
        registry_upto(section, paths, n) is Ok <==> groups_complete_upto(section, n),
        registry_upto(section, paths, n) matches Err(e) ==> (e matches ConfigErrorView::KeyNotFound(
            key,
        ) && !has_key(section, key)),
        registry_upto(section, paths, n) matches Err(e) ==> exists|i: int|
            0 <= i < n && #[trigger] is_first_failure(section, i, e),
    decreases n,
{
    if n > 0 {
        lemma_registry_needs_complete_groups(section, paths, n - 1);
        let i = n - 1;
        lemma_missing_key_is_lacking(section, i);
        if registry_upto(section, paths, n - 1) is Ok {
            if group_complete(section, i) {
                assert forall|k: int| 0 <= k < n && k < section.len() implies #[trigger] group_complete(
                    section,
                    k,
                ) by {
                    if k < n - 1 {
                        assert(groups_complete_upto(section, n - 1));
                    }
                }
            } else {
                assert(!groups_complete_upto(section, n));
                assert(is_first_failure(section, i, registry_upto(section, paths, n)->Err_0));
            }
        } else {
            assert(!groups_complete_upto(section, n - 1));
            let k = choose|k: int|
                0 <= k < n - 1 && k < section.len() && !#[trigger] group_complete(section, k);
            assert(!group_complete(section, k));
        }
    }
}

/// A commands section in which an entry declares a group that misses one of
/// its keys is refused, whatever the paths and the other sections hold:
/// building the registry gives an error that names a key which the section
/// lacks, and loading gives an error and no configuration. So a `Command`
/// key without the `Value` key of its group, or without its `Name` key,
/// ends the loading.
pub proof fn lemma_incomplete_group_rejected(
    webconf: Option<Pairs>,
    paths: Option<Pairs>,
    path_table: Pairs,
    section: Pairs,
    i: int,
)
    requires
        0 <= i < section.len(),
        !group_complete(section, i),
    ensures
        registry_of(section, path_table) matches Err(e) && e matches ConfigErrorView::KeyNotFound(
            key,
        ) && !has_key(section, key),
        config_of(webconf, paths, Some(section)) is Err,
{
    lemma_registry_needs_complete_groups(section, path_table, section.len() as int);
    assert(!groups_complete_upto(section, section.len() as int));
    if webconf is Some && paths is Some {
        lemma_registry_needs_complete_groups(section, collect(paths->0), section.len() as int);
    }
}

/// An entry whose key is a group's key followed by `Value`, `Command` or
/// `Description` misses something as soon as the section lacks the group's
/// `Name` key.
pub proof fn lemma_companion_needs_name(section: Pairs, i: int, ending: Seq<char>)
    requires
        0 <= i < section.len(),
        !ends_with(section[i].0, "Name"@),
        companion_ending(section[i].0) == Some(ending),
        !has_key(section, section[i].0.take(section[i].0.len() - ending.len()) + "Name"@),
    ensures
        entry_missing(section, i) == Some(
            section[i].0.take(section[i].0.len() - ending.len()) + "Name"@,
        ),
        !group_complete(section, i),
{
}

/// One of the first `n` entries of the commands section declares `command`
/// under the key `key`.
pub open spec fn is_declared(
    section: Pairs,
    paths: Pairs,
    n: int,
    key: Seq<char>,
    command: CommandView,
) -> bool {
    exists|i: int|
        0 <= i < n && i < section.len() && ends_with((#[trigger] section[i]).0, "Name"@)
            && declared_command(section, paths, i) == Ok::<
            (Seq<char>, CommandView),
            ConfigErrorView,
        >((key, command))
}

/// The registry holds nothing but what the section declares: every command
/// in it is a declared command under its group's key, so its shell command
/// is the group's template with the path variables put in.
pub proof fn lemma_registry_holds_declared_commands(section: Pairs, paths: Pairs, n: int)
    requires
        0 <= n <= section.len(),
    ensures
        registry_upto(section, paths, n) matches Ok(registry) ==> forall|k: int|
            0 <= k < registry.len() ==> is_declared(
                section,
                paths,
                n,
                (#[trigger] registry[k]).0,
                registry[k].1,
            ),
    decreases n,
{
    if n > 0 {
        lemma_registry_holds_declared_commands(section, paths, n - 1);
        if let Ok(registry) = registry_upto(section, paths, n) {
            let before = registry_upto(section, paths, n - 1)->Ok_0;
            assert forall|k: int| 0 <= k < registry.len() implies is_declared(
                section,
                paths,
                n,
                (#[trigger] registry[k]).0,
                registry[k].1,
            ) by {
                let declares_here = ends_with(section[n - 1].0, "Name"@);
                let declared = declared_command(section, paths, n - 1)->Ok_0;
                if declares_here {
                    lemma_upsert_entries(before, declared.0, declared.1, k);
                }
                if declares_here && registry[k] == declared {
                    assert(ends_with(section[n - 1].0, "Name"@));
                    assert(is_declared(section, paths, n, registry[k].0, registry[k].1));
                } else {
                    assert(registry[k] == before[k]);
                    assert(is_declared(section, paths, n - 1, before[k].0, before[k].1));
                    let i = choose|i: int|
                        0 <= i < n - 1 && i < section.len() && ends_with(
                            (#[trigger] section[i]).0,
                            "Name"@,
                        ) && declared_command(section, paths, i) == Ok::<
                            (Seq<char>, CommandView),
                            ConfigErrorView,
                        >((before[k].0, before[k].1));
                    assert(ends_with(section[i].0, "Name"@));
                }
            }
        }
    }
}

/// Building twice from the same sections gives the same outcome: two
/// configurations with the same entries, or the same error.
pub proof fn lemma_build_is_repeatable(
    webconf: Option<Pairs>,
    paths: Option<Pairs>,
    commands: Option<Pairs>,
    first: Result<Config, ConfigError>,
    second: Result<Config, ConfigError>,
)
    requires
        result_view(first) == config_of(webconf, paths, commands),
        result_view(second) == config_of(webconf, paths, commands),
    ensures
        result_view(first) == result_view(second),
        first matches Ok(a) ==> second matches Ok(b) && a.webconf@ == b.webconf@ && a.paths@
            == b.paths@ && a.commands@ == b.commands@,
{
}

} // verus!
