//! The sources that settings come from, and which of them decides.
use crate::allow_list::{
    allow_list_is_read_back, argument_entry, argument_list, arguments_are_read_as_list, entry_list,
    serialize_with_wildcard, AllowListError,
};
use crate::config::{
    configuration_holds_every_setting, copy_ids, id_texts, id_texts_are_in_order,
    memory_database_url, with_setting, Configuration,
};
use crate::ids::PeerId;
use crate::outside::{
    figment_entries, figment_failed, merge, no_settings, toml_entries, toml_settings,
};
use crate::text::{copy_texts, decimal, texts, texts_are_in_order};
use crate::value::{has_up_to, is_argument, is_setting, names_differ, Entries, Entry, Value};
use figment::Figment;
use vstd::prelude::*;

verus! {

/// Settings given on the command line.
///
/// All arguments are optional, and one that was not given is not handed on. This is to assure
/// that default values do not overwrite settings of other sources.
#[derive(Clone, Debug, Default)]
pub struct CommandLine {
    /// Path of the configuration file.
    pub config: Option<String>,
    pub allow_schema_ids: Option<Vec<String>>,
    pub database_url: Option<String>,
    pub http_port: Option<u16>,
    pub quic_port: Option<u16>,
    pub blobs_base_path: Option<String>,
    pub private_key: Option<String>,
    pub mdns: Option<bool>,
    pub direct_node_addresses: Option<Vec<String>>,
    pub allow_peer_ids: Option<Vec<String>>,
    pub block_peer_ids: Option<Vec<PeerId>>,
    pub relay_addresses: Option<Vec<String>>,
    pub relay_mode: Option<bool>,
    pub log_level: Option<String>,
}

/// The value that an argument with a text is handed on as.
pub open spec fn text_argument(argument: Option<String>) -> Option<Entry> {
    match argument {
        Some(text) => Some(Entry::Text(text@)),
        None => None,
    }
}

/// The value that an argument with a port is handed on as.
pub open spec fn port_argument(argument: Option<u16>) -> Option<Entry> {
    match argument {
        Some(port) => Some(Entry::Number(port as int)),
        None => None,
    }
}

/// The value that an argument with a switch is handed on as.
pub open spec fn flag_argument(argument: Option<bool>) -> Option<Entry> {
    match argument {
        Some(flag) => Some(Entry::Flag(flag)),
        None => None,
    }
}

/// The value that an argument with a list of addresses is handed on as.
pub open spec fn texts_argument(argument: Option<Vec<String>>) -> Option<Entry> {
    match argument {
        Some(list) => Some(Entry::Texts(texts(list@))),
        None => None,
    }
}

/// The value that an argument with an allow list is handed on as.
pub open spec fn list_argument(argument: Option<Vec<String>>) -> Option<Entry> {
    match argument {
        Some(list) => Some(argument_entry(texts(list@))),
        None => None,
    }
}

/// The value that an argument with a list of peer ids is handed on as.
pub open spec fn ids_argument(argument: Option<Vec<PeerId>>) -> Option<Entry> {
    match argument {
        Some(ids) => Some(Entry::Texts(id_texts(ids@))),
        None => None,
    }
}

/// `entries`, with `name` set to the value of an argument that was given.
pub open spec fn with_entry(entries: Entries, name: Seq<char>, value: Option<Entry>) -> Entries {
    match value {
        Some(value) => entries.insert(name, value),
        None => entries,
    }
}

impl CommandLine {
    /// The value that the argument of this name is handed on as, if it was given.
    pub open spec fn argument(self, name: Seq<char>) -> Option<Entry> {
        if name == "config"@ {
            text_argument(self.config)
        } else if name == "log_level"@ {
            text_argument(self.log_level)
        } else if name == "allow_schema_ids"@ {
            list_argument(self.allow_schema_ids)
        } else if name == "database_url"@ {
            text_argument(self.database_url)
        } else if name == "http_port"@ {
            port_argument(self.http_port)
        } else if name == "quic_port"@ {
            port_argument(self.quic_port)
        } else if name == "blobs_base_path"@ {
            text_argument(self.blobs_base_path)
        } else if name == "private_key"@ {
            text_argument(self.private_key)
        } else if name == "mdns"@ {
            flag_argument(self.mdns)
        } else if name == "direct_node_addresses"@ {
            texts_argument(self.direct_node_addresses)
        } else if name == "allow_peer_ids"@ {
            list_argument(self.allow_peer_ids)
        } else if name == "block_peer_ids"@ {
            ids_argument(self.block_peer_ids)
        } else if name == "relay_addresses"@ {
            texts_argument(self.relay_addresses)
        } else if name == "relay_mode"@ {
            flag_argument(self.relay_mode)
        } else {
            None
        }
    }

    /// The arguments that were given, as a source of settings holds them.
    pub open spec fn entries(self) -> Entries {
        Map::new(
            |name: Seq<char>| self.argument(name) is Some,
            |name: Seq<char>| self.argument(name)->0,
        )
    }

    /// Hands the arguments that were given on as a set of settings.
    pub fn settings(&self) -> (result: Figment)
        ensures
            !figment_failed(result),
            figment_entries(result) == self.entries(),
    {
        proof {
            names_differ();
        }
        let mut all: Figment = no_settings();
        all = with_argument(all, "config", text_value(&self.config));
        assert(has_up_to(figment_entries(all), self.entries(), 1));
        all = with_argument(all, "log_level", text_value(&self.log_level));
        assert(has_up_to(figment_entries(all), self.entries(), 2));
        all = with_argument(all, "allow_schema_ids", list_value(&self.allow_schema_ids));
        assert(has_up_to(figment_entries(all), self.entries(), 3));
        all = with_argument(all, "database_url", text_value(&self.database_url));
        assert(has_up_to(figment_entries(all), self.entries(), 4));
        all = with_argument(all, "http_port", port_value(self.http_port));
        assert(has_up_to(figment_entries(all), self.entries(), 6));
        all = with_argument(all, "quic_port", port_value(self.quic_port));
        assert(has_up_to(figment_entries(all), self.entries(), 7));
        all = with_argument(all, "blobs_base_path", text_value(&self.blobs_base_path));
        assert(has_up_to(figment_entries(all), self.entries(), 8));
        all = with_argument(all, "private_key", text_value(&self.private_key));
        assert(has_up_to(figment_entries(all), self.entries(), 9));
        all = with_argument(all, "mdns", flag_value(self.mdns));
        assert(has_up_to(figment_entries(all), self.entries(), 10));
        all = with_argument(all, "direct_node_addresses", texts_value(&self.direct_node_addresses));
        assert(has_up_to(figment_entries(all), self.entries(), 11));
        all = with_argument(all, "allow_peer_ids", list_value(&self.allow_peer_ids));
        assert(has_up_to(figment_entries(all), self.entries(), 12));
        all = with_argument(all, "block_peer_ids", ids_value(&self.block_peer_ids));
        assert(has_up_to(figment_entries(all), self.entries(), 13));
        all = with_argument(all, "relay_addresses", texts_value(&self.relay_addresses));
        assert(has_up_to(figment_entries(all), self.entries(), 14));
        all = with_argument(all, "relay_mode", flag_value(self.relay_mode));
        assert(has_up_to(figment_entries(all), self.entries(), 15));
        assert(figment_entries(all) =~= self.entries());
        all
    }
}

/// An optional value, as contracts speak of it.
spec fn optional(value: Option<Value>) -> Option<Entry> {
    match value {
        Some(value) => Some(value@),
        None => None,
    }
}

/// The settings of `base`, with `name` set to the value of an argument that was given.
fn with_argument(base: Figment, name: &str, value: Option<Value>) -> (result: Figment)
    requires
        is_argument(name@),
        !figment_failed(base),
    ensures
        !figment_failed(result),
        figment_entries(result) == with_entry(figment_entries(base), name@, optional(value)),
{
    match value {
        Some(value) => with_setting(base, name, value),
        None => base,
    }
}

/// The value that an argument with a text is handed on as.
fn text_value(argument: &Option<String>) -> (result: Option<Value>)
    ensures
        optional(result) == text_argument(*argument),
{
    match argument {
        Some(text) => Some(Value::Text(text.clone())),
        None => None,
    }
}

/// The value that an argument with a port is handed on as.
fn port_value(argument: Option<u16>) -> (result: Option<Value>)
    ensures
        optional(result) == port_argument(argument),
{
    match argument {
        Some(port) => Some(Value::Number(port as u32)),
        None => None,
    }
}

/// The value that an argument with a switch is handed on as.
fn flag_value(argument: Option<bool>) -> (result: Option<Value>)
    ensures
        optional(result) == flag_argument(argument),
{
    match argument {
        Some(flag) => Some(Value::Flag(flag)),
        None => None,
    }
}

/// The value that an argument with a list of addresses is handed on as.
fn texts_value(argument: &Option<Vec<String>>) -> (result: Option<Value>)
    ensures
        optional(result) == texts_argument(*argument),
{
    match argument {
        Some(list) => Some(Value::Texts(copy_texts(list))),
        None => None,
    }
}

/// The value that an argument with an allow list is handed on as.
fn list_value(argument: &Option<Vec<String>>) -> (result: Option<Value>)
    ensures
        optional(result) == list_argument(*argument),
{
    if argument.is_some() {
        Some(serialize_with_wildcard(argument))
    } else {
        None
    }
}

/// The value that an argument with a list of peer ids is handed on as.
fn ids_value(argument: &Option<Vec<PeerId>>) -> (result: Option<Value>)
    ensures
        optional(result) == ids_argument(*argument),
{
    match argument {
        Some(ids) => Some(Value::Texts(copy_ids(ids))),
        None => None,
    }
}

/// The settings of all sources together: those of the file take the place of the defaults, those
/// of the environment the place of both, and those of the command line the place of all.
pub open spec fn layered(
    defaults: Entries,
    file: Option<Entries>,
    environment: Entries,
    arguments: Entries,
) -> Entries {
    let base = match file {
        Some(file) => defaults.union_prefer_right(file),
        None => defaults,
    };
    base.union_prefer_right(environment).union_prefer_right(arguments)
}

/// The settings of a configuration file, if there is a file.
pub open spec fn file_entries(toml: Option<&str>) -> Option<Entries> {
    match toml {
        Some(text) => Some(toml_entries(text@)->0),
        None => None,
    }
}

/// Whether the configuration file or the environment could not be read.
pub open spec fn unreadable(toml: Option<&str>, environment: Figment) -> bool {
    ||| toml matches Some(text) && toml_entries(text@) is None
    ||| figment_failed(environment)
}

/// Puts the settings of all sources together: the defaults, then the text of the configuration
/// file, then the environment, then the command line. Where two sources name the same setting, the
/// later one decides.
pub fn merge_sources(
    defaults: &Configuration,
    toml: Option<&str>,
    environment: Figment,
    cli: &CommandLine,
) -> (result: Figment)
    ensures
        figment_failed(result) <==> unreadable(toml, environment),
        !figment_failed(result) ==> figment_entries(result) == layered(
            defaults.entries(),
            file_entries(toml),
            figment_entries(environment),
            cli.entries(),
        ),
{
    let mut all: Figment = defaults.settings();
    if let Some(text) = toml {
        all = merge(all, toml_settings(text));
    }
    merge(merge(all, environment), cli.settings())
}

/// Gets the settings from the configuration file, the environment and the command line (in that
/// order, meaning that later sources take precedence over the earlier ones), on top of the
/// defaults.
///
/// The result is partly unchecked. It might still hold values that a node cannot take.
pub fn load_config(toml: Option<&str>, environment: Figment, cli: &CommandLine) -> (result: Figment)
    ensures
        figment_failed(result) <==> unreadable(toml, environment),
        !figment_failed(result) ==> exists|defaults: Configuration, number: u32|
            #![trigger defaults.is_default(number)]
            defaults.is_default(number) && figment_entries(result) == layered(
                defaults.entries(),
                file_entries(toml),
                figment_entries(environment),
                cli.entries(),
            ),
{
    let defaults: Configuration = Configuration::default();
    merge_sources(&defaults, toml, environment, cli)
}

/// A setting has the value that the last source names it with: the command line decides before
/// the environment, the environment before the configuration file, and the file before the
/// defaults. A setting that no source names has no value.
pub proof fn last_source_decides(
    defaults: Entries,
    file: Option<Entries>,
    environment: Entries,
    arguments: Entries,
    name: Seq<char>,
)
    ensures
        ({
            let all = layered(defaults, file, environment, arguments);
            if arguments.dom().contains(name) {
                all.dom().contains(name) && all[name] == arguments[name]
            } else if environment.dom().contains(name) {
                all.dom().contains(name) && all[name] == environment[name]
            } else if file is Some && file->0.dom().contains(name) {
                all.dom().contains(name) && all[name] == file->0[name]
            } else if defaults.dom().contains(name) {
                all.dom().contains(name) && all[name] == defaults[name]
            } else {
                !all.dom().contains(name)
            }
        }),
{
}

/// An argument that was given decides, and one that was not given leaves the setting as the other
/// sources have it.
pub proof fn only_given_arguments_decide(
    defaults: Entries,
    file: Option<Entries>,
    environment: Entries,
    cli: CommandLine,
    name: Seq<char>,
)
    ensures
        ({
            let others = layered(defaults, file, environment, Entries::empty());
            let all = layered(defaults, file, environment, cli.entries());
            match cli.argument(name) {
                Some(value) => all.dom().contains(name) && all[name] == value,
                None => {
                    &&& all.dom().contains(name) == others.dom().contains(name)
                    &&& others.dom().contains(name) ==> all[name] == others[name]
                },
            }
        }),
{
    if cli.argument(name) is None {
        assert(!cli.entries().dom().contains(name));
    } else {
        assert(cli.entries().dom().contains(name));
    }
}

/// An allow list that is given on the command line is the one that is read in the end: a lone `*`
/// allows everything, a lone empty argument nothing, and any other list what it names.
pub proof fn allow_lists_of_the_command_line_are_read(
    defaults: Entries,
    file: Option<Entries>,
    environment: Entries,
    cli: CommandLine,
)
    ensures
        ({
            let all = layered(defaults, file, environment, cli.entries());
            &&& cli.allow_schema_ids matches Some(list) ==> entry_list(
                all["allow_schema_ids"@],
            ) == Ok::<_, AllowListError>(argument_list(texts(list@)))
            &&& cli.allow_peer_ids matches Some(list) ==> entry_list(
                all["allow_peer_ids"@],
            ) == Ok::<_, AllowListError>(argument_list(texts(list@)))
        }),
{
    names_differ();
    only_given_arguments_decide(defaults, file, environment, cli, "allow_schema_ids"@);
    only_given_arguments_decide(defaults, file, environment, cli, "allow_peer_ids"@);
    if let Some(list) = cli.allow_schema_ids {
        arguments_are_read_as_list(texts(list@));
    }
    if let Some(list) = cli.allow_peer_ids {
        arguments_are_read_as_list(texts(list@));
    }
}

/// The allow lists of a configuration are read back from its settings.
pub proof fn allow_lists_of_a_configuration_are_read_back(configuration: Configuration)
    ensures
        entry_list(configuration.entries()["allow_schema_ids"@]) == Ok::<_, AllowListError>(
            configuration.allow_schema_ids@,
        ),
        entry_list(configuration.entries()["allow_peer_ids"@]) == Ok::<_, AllowListError>(
            configuration.allow_peer_ids@,
        ),
{
    names_differ();
    allow_list_is_read_back(configuration.allow_schema_ids@);
    allow_list_is_read_back(configuration.allow_peer_ids@);
}

/// Whatever the other sources hold, every setting has a value.
pub proof fn every_setting_has_a_value(
    defaults: Configuration,
    file: Option<Entries>,
    environment: Entries,
    arguments: Entries,
    name: Seq<char>,
)
    requires
        is_setting(name),
    ensures
        layered(defaults.entries(), file, environment, arguments).dom().contains(name),
{
    configuration_holds_every_setting(defaults, name);
}

/// Where neither file, environment nor command line name a setting, the defaults stand.
pub proof fn defaults_stand_alone(defaults: Configuration)
    ensures
        layered(defaults.entries(), None, Entries::empty(), Entries::empty()) == defaults.entries(),
{
    assert(layered(defaults.entries(), None, Entries::empty(), Entries::empty())
        =~= defaults.entries());
}

/// What a list of arguments is handed on as, told by the arguments.
proof fn argument_list_by_cases(list: Seq<String>)
    ensures
        list.len() == 1 && list[0]@ == "*"@ ==> argument_entry(texts(list)) == Entry::Text("*"@),
        list.len() == 1 && list[0]@.len() == 0 ==> argument_entry(texts(list)) == Entry::Texts(
            Seq::empty(),
        ),
        list.len() != 1 || (list[0]@ != "*"@ && list[0]@.len() != 0) ==> argument_entry(
            texts(list),
        ) == Entry::Texts(texts(list)),
        texts(list).len() == list.len(),
        forall|i: int| 0 <= i < list.len() ==> #[trigger] texts(list)[i] == list[i]@,
{
    reveal_strlit("*");
    texts_are_in_order(list);
    assert(seq!["*"@].len() == 1 && seq!["*"@][0] == "*"@);
    assert(seq![Seq::<char>::empty()].len() == 1 && seq![Seq::<char>::empty()][0].len() == 0);
    if list.len() == 1 && list[0]@ == "*"@ {
        assert(texts(list) =~= seq!["*"@]);
    } else if list.len() == 1 && list[0]@.len() == 0 {
        assert(list[0]@ =~= Seq::<char>::empty());
        assert(texts(list) =~= seq![Seq::<char>::empty()]);
        assert(texts(list)[0] != seq!["*"@][0]);
    } else if list.len() == 1 {
        assert(texts(list)[0] != seq!["*"@][0]);
        assert(texts(list)[0] != seq![Seq::<char>::empty()][0]);
    }
}

/// Every argument that was given is handed on under its name with its own value, lists with all
/// their members; and none that was not given is handed on.
pub proof fn arguments_have_their_own_values(cli: &CommandLine, result: Figment)
    requires
        call_ensures(CommandLine::settings, (cli,), result),
    ensures
        !figment_failed(result),
        ({
            let settings = figment_entries(result);
            &&& settings.dom().contains("config"@) <==> cli.config is Some
            &&& cli.config matches Some(text) ==> settings["config"@] == Entry::Text(text@)
            &&& settings.dom().contains("log_level"@) <==> cli.log_level is Some
            &&& cli.log_level matches Some(text) ==> settings["log_level"@] == Entry::Text(text@)
            &&& settings.dom().contains("allow_schema_ids"@) <==> cli.allow_schema_ids is Some
            &&& cli.allow_schema_ids matches Some(list) ==> {
                if list.len() == 1 && list@[0]@ == "*"@ {
                    settings["allow_schema_ids"@] == Entry::Text("*"@)
                } else if list.len() == 1 && list@[0]@.len() == 0 {
                    settings["allow_schema_ids"@] is Texts
                        && settings["allow_schema_ids"@]->Texts_0.len() == 0
                } else {
                    &&& settings["allow_schema_ids"@] is Texts
                    &&& settings["allow_schema_ids"@]->Texts_0.len() == list.len()
                    &&& forall|i: int|
                        0 <= i < list.len() ==>
                            #[trigger] settings["allow_schema_ids"@]->Texts_0[i] == list@[i]@
                }
            }
            &&& settings.dom().contains("database_url"@) <==> cli.database_url is Some
            &&& cli.database_url matches Some(text) ==>
                settings["database_url"@] == Entry::Text(text@)
            &&& settings.dom().contains("http_port"@) <==> cli.http_port is Some
            &&& cli.http_port matches Some(port) ==>
                settings["http_port"@] == Entry::Number(port as int)
            &&& settings.dom().contains("quic_port"@) <==> cli.quic_port is Some
            &&& cli.quic_port matches Some(port) ==>
                settings["quic_port"@] == Entry::Number(port as int)
            &&& settings.dom().contains("blobs_base_path"@) <==> cli.blobs_base_path is Some
            &&& cli.blobs_base_path matches Some(text) ==>
                settings["blobs_base_path"@] == Entry::Text(text@)
            &&& settings.dom().contains("private_key"@) <==> cli.private_key is Some
            &&& cli.private_key matches Some(text) ==>
                settings["private_key"@] == Entry::Text(text@)
            &&& settings.dom().contains("mdns"@) <==> cli.mdns is Some
            &&& cli.mdns matches Some(flag) ==> settings["mdns"@] == Entry::Flag(flag)
            &&& settings.dom().contains("direct_node_addresses"@) <==> cli.direct_node_addresses is Some
            &&& cli.direct_node_addresses matches Some(list) ==> {
                &&& settings["direct_node_addresses"@] is Texts
                &&& settings["direct_node_addresses"@]->Texts_0.len() == list.len()
                &&& forall|i: int|
                    0 <= i < list.len() ==>
                        #[trigger] settings["direct_node_addresses"@]->Texts_0[i] == list@[i]@
            }
            &&& settings.dom().contains("allow_peer_ids"@) <==> cli.allow_peer_ids is Some
            &&& cli.allow_peer_ids matches Some(list) ==> {
                if list.len() == 1 && list@[0]@ == "*"@ {
                    settings["allow_peer_ids"@] == Entry::Text("*"@)
                } else if list.len() == 1 && list@[0]@.len() == 0 {
                    settings["allow_peer_ids"@] is Texts
                        && settings["allow_peer_ids"@]->Texts_0.len() == 0
                } else {
                    &&& settings["allow_peer_ids"@] is Texts
                    &&& settings["allow_peer_ids"@]->Texts_0.len() == list.len()
                    &&& forall|i: int|
                        0 <= i < list.len() ==>
                            #[trigger] settings["allow_peer_ids"@]->Texts_0[i] == list@[i]@
                }
            }
            &&& settings.dom().contains("block_peer_ids"@) <==> cli.block_peer_ids is Some
            &&& cli.block_peer_ids matches Some(list) ==> {
                &&& settings["block_peer_ids"@] is Texts
                &&& settings["block_peer_ids"@]->Texts_0.len() == list.len()
                &&& forall|i: int|
                    0 <= i < list.len() ==>
                        #[trigger] settings["block_peer_ids"@]->Texts_0[i] == list@[i]@
            }
            &&& settings.dom().contains("relay_addresses"@) <==> cli.relay_addresses is Some
            &&& cli.relay_addresses matches Some(list) ==> {
                &&& settings["relay_addresses"@] is Texts
                &&& settings["relay_addresses"@]->Texts_0.len() == list.len()
                &&& forall|i: int|
                    0 <= i < list.len() ==>
                        #[trigger] settings["relay_addresses"@]->Texts_0[i] == list@[i]@
            }
            &&& settings.dom().contains("relay_mode"@) <==> cli.relay_mode is Some
            &&& cli.relay_mode matches Some(flag) ==> settings["relay_mode"@] == Entry::Flag(flag)
        }),
{
    names_differ();
    if let Some(list) = cli.allow_schema_ids {
        argument_list_by_cases(list@);
    }
    if let Some(list) = cli.direct_node_addresses {
        texts_are_in_order(list@);
    }
    if let Some(list) = cli.allow_peer_ids {
        argument_list_by_cases(list@);
    }
    if let Some(list) = cli.block_peer_ids {
        id_texts_are_in_order(list@);
    }
    if let Some(list) = cli.relay_addresses {
        texts_are_in_order(list@);
    }
}

/// The command line hands on its own arguments, and nothing besides.
pub proof fn arguments_have_their_own_names(cli: &CommandLine, result: Figment, name: Seq<char>)
    requires
        call_ensures(CommandLine::settings, (cli,), result),
        figment_entries(result).dom().contains(name),
    ensures
        ({
            ||| name == "config"@
            ||| name == "log_level"@
            ||| name == "allow_schema_ids"@
            ||| name == "database_url"@
            ||| name == "http_port"@
            ||| name == "quic_port"@
            ||| name == "blobs_base_path"@
            ||| name == "private_key"@
            ||| name == "mdns"@
            ||| name == "direct_node_addresses"@
            ||| name == "allow_peer_ids"@
            ||| name == "block_peer_ids"@
            ||| name == "relay_addresses"@
            ||| name == "relay_mode"@
        }),
{
}

/// Merging fails exactly when the text of the file is no TOML document or the environment could
/// not be read.
pub proof fn merging_fails_with_a_source(
    defaults: &Configuration,
    text: &str,
    environment: Figment,
    cli: &CommandLine,
    with_file: Figment,
    without_file: Figment,
)
    requires
        call_ensures(merge_sources, (defaults, Some(text), environment, cli), with_file),
        call_ensures(merge_sources, (defaults, None, environment, cli), without_file),
    ensures
        figment_failed(with_file) <==> toml_entries(text@) is None || figment_failed(environment),
        figment_failed(without_file) <==> figment_failed(environment),
{
}

/// With a file, each setting has the value that the last source names it with: the command line,
/// then the environment, then the TOML document, then the defaults.
pub proof fn sources_decide_with_a_file(
    defaults: &Configuration,
    text: &str,
    environment: Figment,
    cli: &CommandLine,
    base: Figment,
    arguments: Figment,
    result: Figment,
    name: Seq<char>,
)
    requires
        call_ensures(Configuration::settings, (defaults,), base),
        call_ensures(CommandLine::settings, (cli,), arguments),
        call_ensures(merge_sources, (defaults, Some(text), environment, cli), result),
        toml_entries(text@) is Some,
        !figment_failed(environment),
    ensures
        !figment_failed(result),
        ({
            let all = figment_entries(result);
            let document = toml_entries(text@)->0;
            if figment_entries(arguments).dom().contains(name) {
                all.dom().contains(name) && all[name] == figment_entries(arguments)[name]
            } else if figment_entries(environment).dom().contains(name) {
                all.dom().contains(name) && all[name] == figment_entries(environment)[name]
            } else if document.dom().contains(name) {
                all.dom().contains(name) && all[name] == document[name]
            } else if figment_entries(base).dom().contains(name) {
                all.dom().contains(name) && all[name] == figment_entries(base)[name]
            } else {
                !all.dom().contains(name)
            }
        }),
{
}

/// Without a file, each setting has the value that the last source names it with: the command
/// line, then the environment, then the defaults.
pub proof fn sources_decide_without_a_file(
    defaults: &Configuration,
    environment: Figment,
    cli: &CommandLine,
    base: Figment,
    arguments: Figment,
    result: Figment,
    name: Seq<char>,
)
    requires
        call_ensures(Configuration::settings, (defaults,), base),
        call_ensures(CommandLine::settings, (cli,), arguments),
        call_ensures(merge_sources, (defaults, None, environment, cli), result),
        !figment_failed(environment),
    ensures
        !figment_failed(result),
        ({
            let all = figment_entries(result);
            if figment_entries(arguments).dom().contains(name) {
                all.dom().contains(name) && all[name] == figment_entries(arguments)[name]
            } else if figment_entries(environment).dom().contains(name) {
                all.dom().contains(name) && all[name] == figment_entries(environment)[name]
            } else if figment_entries(base).dom().contains(name) {
                all.dom().contains(name) && all[name] == figment_entries(base)[name]
            } else {
                !all.dom().contains(name)
            }
        }),
{
}

/// Loading fails exactly when the text of the file is no TOML document or the environment could
/// not be read.
pub proof fn loading_fails_with_a_source(
    text: &str,
    environment: Figment,
    cli: &CommandLine,
    with_file: Figment,
    without_file: Figment,
)
    requires
        call_ensures(load_config, (Some(text), environment, cli), with_file),
        call_ensures(load_config, (None, environment, cli), without_file),
    ensures
        figment_failed(with_file) <==> toml_entries(text@) is None || figment_failed(environment),
        figment_failed(without_file) <==> figment_failed(environment),
{
}

/// A setting that some source names is loaded with the value of the last such source: the command
/// line, then the environment, then the TOML document.
pub proof fn loading_takes_the_last_source(
    text: &str,
    environment: Figment,
    cli: &CommandLine,
    arguments: Figment,
    with_file: Figment,
    without_file: Figment,
    name: Seq<char>,
)
    requires
        call_ensures(CommandLine::settings, (cli,), arguments),
        call_ensures(load_config, (Some(text), environment, cli), with_file),
        call_ensures(load_config, (None, environment, cli), without_file),
        toml_entries(text@) is Some,
        !figment_failed(environment),
    ensures
        ({
            let given = figment_entries(arguments);
            let set = figment_entries(environment);
            let document = toml_entries(text@)->0;
            let with_file = figment_entries(with_file);
            let without_file = figment_entries(without_file);
            &&& given.dom().contains(name) ==> {
                &&& with_file.dom().contains(name) && with_file[name] == given[name]
                &&& without_file.dom().contains(name) && without_file[name] == given[name]
            }
            &&& !given.dom().contains(name) && set.dom().contains(name) ==> {
                &&& with_file.dom().contains(name) && with_file[name] == set[name]
                &&& without_file.dom().contains(name) && without_file[name] == set[name]
            }
            &&& !given.dom().contains(name) && !set.dom().contains(name)
                && document.dom().contains(name) ==> {
                with_file.dom().contains(name) && with_file[name] == document[name]
            }
        }),
{
    let (one, one_number) = choose|defaults: Configuration, number: u32|
        #![trigger defaults.is_default(number)]
        defaults.is_default(number) && figment_entries(with_file) == layered(
            defaults.entries(),
            file_entries(Some(text)),
            figment_entries(environment),
            cli.entries(),
        );
    let (other, other_number) = choose|defaults: Configuration, number: u32|
        #![trigger defaults.is_default(number)]
        defaults.is_default(number) && figment_entries(without_file) == layered(
            defaults.entries(),
            file_entries(None),
            figment_entries(environment),
            cli.entries(),
        );
}

/// A setting that no source names is loaded with its default value, with and without a file, and
/// a name that is no setting has no value then. The default database is one in memory.
pub proof fn loading_falls_back_to_the_defaults(
    toml: Option<&str>,
    environment: Figment,
    cli: &CommandLine,
    arguments: Figment,
    result: Figment,
    name: Seq<char>,
)
    requires
        call_ensures(CommandLine::settings, (cli,), arguments),
        call_ensures(load_config, (toml, environment, cli), result),
        !figment_failed(result),
        !figment_entries(arguments).dom().contains(name),
        !figment_entries(environment).dom().contains(name),
        toml matches Some(text) ==> !toml_entries(text@)->0.dom().contains(name),
    ensures
        ({
            let all = figment_entries(result);
            &&& name == "log_level"@ ==> {
                all.dom().contains(name) && all[name] == Entry::Text("off"@)
            }
            &&& name == "allow_schema_ids"@ ==> {
                all.dom().contains(name) && all[name] == Entry::Text("*"@)
            }
            &&& name == "database_max_connections"@ ==> {
                all.dom().contains(name) && all[name] == Entry::Number(32)
            }
            &&& name == "http_port"@ ==> {
                all.dom().contains(name) && all[name] == Entry::Number(2020)
            }
            &&& name == "quic_port"@ ==> {
                all.dom().contains(name) && all[name] == Entry::Number(2022)
            }
            &&& name == "blobs_base_path"@ ==> {
                all.dom().contains(name) && all[name] == Entry::Empty
            }
            &&& name == "private_key"@ ==> {
                all.dom().contains(name) && all[name] == Entry::Empty
            }
            &&& name == "mdns"@ ==> {
                all.dom().contains(name) && all[name] == Entry::Flag(true)
            }
            &&& name == "direct_node_addresses"@ ==> {
                all.dom().contains(name) && all[name] is Texts && all[name]->Texts_0.len() == 0
            }
            &&& name == "allow_peer_ids"@ ==> {
                all.dom().contains(name) && all[name] == Entry::Text("*"@)
            }
            &&& name == "block_peer_ids"@ ==> {
                all.dom().contains(name) && all[name] is Texts && all[name]->Texts_0.len() == 0
            }
            &&& name == "relay_addresses"@ ==> {
                all.dom().contains(name) && all[name] is Texts && all[name]->Texts_0.len() == 0
            }
            &&& name == "relay_mode"@ ==> {
                all.dom().contains(name) && all[name] == Entry::Flag(false)
            }
            &&& name == "worker_pool_size"@ ==> {
                all.dom().contains(name) && all[name] == Entry::Number(16)
            }
            &&& name == "database_url"@ ==> {
                &&& all.dom().contains(name)
                &&& exists|number: u32|
                    all[name] == Entry::Text(
                        "sqlite://file:dbmem"@ + #[trigger] decimal(number as nat)
                            + "?mode=memory&cache=shared"@,
                    )
            }
            &&& all.dom().contains(name) <==> {
                ||| name == "log_level"@
                ||| name == "allow_schema_ids"@
                ||| name == "database_max_connections"@
                ||| name == "http_port"@
                ||| name == "quic_port"@
                ||| name == "blobs_base_path"@
                ||| name == "private_key"@
                ||| name == "mdns"@
                ||| name == "direct_node_addresses"@
                ||| name == "allow_peer_ids"@
                ||| name == "block_peer_ids"@
                ||| name == "relay_addresses"@
                ||| name == "relay_mode"@
                ||| name == "worker_pool_size"@
                ||| name == "database_url"@
            }
        }),
{
    names_differ();
    let (defaults, number) = choose|defaults: Configuration, number: u32|
        #![trigger defaults.is_default(number)]
        defaults.is_default(number) && figment_entries(result) == layered(
            defaults.entries(),
            file_entries(toml),
            figment_entries(environment),
            cli.entries(),
        );
    let all = figment_entries(result);
    assert(all.dom().contains(name) == defaults.entries().dom().contains(name));
    if defaults.entries().dom().contains(name) {
        assert(all[name] == defaults.entries()[name]);
    }
    if name == "database_url"@ {
        assert(all[name] == Entry::Text(memory_database_url(number as nat)));
        assert(all[name] == Entry::Text(
            "sqlite://file:dbmem"@ + decimal(number as nat) + "?mode=memory&cache=shared"@,
        ));
    }
}

} // verus!
