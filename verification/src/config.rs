//! The configuration of a node, before it is checked.
use crate::allow_list::{list_entry, list_is_its_members, AllowList, UncheckedAllowList};
use crate::ids::PeerId;
use crate::outside::{
    figment_entries, figment_failed, merge, no_settings, one_setting, random_number,
};
use crate::text::{
    copy_texts, decimal, decimal_is_injective, decimal_text, texts, texts_are_in_order,
};
use crate::value::{has_up_to, is_argument, is_setting, names_differ, Entries, Entry, Value};
use figment::Figment;
use vstd::prelude::*;

verus! {

/// Configuration derived from environment variables, the configuration file and the command line.
///
/// Socket addresses are kept in their text form, `IP:PORT`, and paths as the text that the
/// sources of settings hold.
#[derive(Clone, Debug)]
pub struct Configuration {
    pub log_level: String,
    pub allow_schema_ids: UncheckedAllowList,
    pub database_url: String,
    pub database_max_connections: u32,
    pub http_port: u16,
    pub quic_port: u16,
    pub blobs_base_path: Option<String>,
    pub private_key: Option<String>,
    pub mdns: bool,
    pub direct_node_addresses: Vec<String>,
    pub allow_peer_ids: UncheckedAllowList,
    pub block_peer_ids: Vec<PeerId>,
    pub relay_addresses: Vec<String>,
    pub relay_mode: bool,
    pub worker_pool_size: u32,
}

/// The address of an in-memory SQLite database of its own, named after `number`.
pub open spec fn memory_database_url(number: nat) -> Seq<char> {
    "sqlite://file:dbmem"@ + decimal(number) + "?mode=memory&cache=shared"@
}

/// The texts of a list of peer ids.
pub open spec fn id_texts(ids: Seq<PeerId>) -> Seq<Seq<char>> {
    Seq::new(ids.len(), |i: int| ids[i]@)
}

/// The value that a source of settings holds for a path that may be missing.
pub open spec fn path_entry(path: Option<String>) -> Entry {
    match path {
        Some(path) => Entry::Text(path@),
        None => Entry::Empty,
    }
}

impl Configuration {
    /// Whether this is the configuration of a node that nothing was set for, with the database
    /// that is named after `number`.
    pub open spec fn is_default(self, number: u32) -> bool {
        &&& self.log_level@ == "off"@
        &&& self.allow_schema_ids is Wildcard
        &&& self.database_url@ == memory_database_url(number as nat)
        &&& self.database_max_connections == 32
        &&& self.http_port == 2020
        &&& self.quic_port == 2022
        &&& self.blobs_base_path is None
        &&& self.private_key is None
        &&& self.mdns
        &&& self.direct_node_addresses@.len() == 0
        &&& self.allow_peer_ids is Wildcard
        &&& self.block_peer_ids@.len() == 0
        &&& self.relay_addresses@.len() == 0
        &&& !self.relay_mode
        &&& self.worker_pool_size == 16
    }

    /// The value of the setting of this name, if there is such a setting.
    pub open spec fn setting(self, name: Seq<char>) -> Option<Entry> {
        if name == "log_level"@ {
            Some(Entry::Text(self.log_level@))
        } else if name == "allow_schema_ids"@ {
            Some(list_entry(self.allow_schema_ids@))
        } else if name == "database_url"@ {
            Some(Entry::Text(self.database_url@))
        } else if name == "database_max_connections"@ {
            Some(Entry::Number(self.database_max_connections as int))
        } else if name == "http_port"@ {
            Some(Entry::Number(self.http_port as int))
        } else if name == "quic_port"@ {
            Some(Entry::Number(self.quic_port as int))
        } else if name == "blobs_base_path"@ {
            Some(path_entry(self.blobs_base_path))
        } else if name == "private_key"@ {
            Some(path_entry(self.private_key))
        } else if name == "mdns"@ {
            Some(Entry::Flag(self.mdns))
        } else if name == "direct_node_addresses"@ {
            Some(Entry::Texts(texts(self.direct_node_addresses@)))
        } else if name == "allow_peer_ids"@ {
            Some(list_entry(self.allow_peer_ids@))
        } else if name == "block_peer_ids"@ {
            Some(Entry::Texts(id_texts(self.block_peer_ids@)))
        } else if name == "relay_addresses"@ {
            Some(Entry::Texts(texts(self.relay_addresses@)))
        } else if name == "relay_mode"@ {
            Some(Entry::Flag(self.relay_mode))
        } else if name == "worker_pool_size"@ {
            Some(Entry::Number(self.worker_pool_size as int))
        } else {
            None
        }
    }

    /// The settings of this configuration, as a source of settings holds them.
    pub open spec fn entries(self) -> Entries {
        Map::new(
            |name: Seq<char>| self.setting(name) is Some,
            |name: Seq<char>| self.setting(name)->0,
        )
    }

    /// The configuration of a node that nothing was set for, with the in-memory database that is
    /// named after `number`.
    pub fn with_database_number(number: u32) -> (result: Configuration)
        ensures
            result.is_default(number),
    {
        // "mode=memory" has SQLite run in memory, and "cache=shared" is needed with it, as the
        // connection pool breaks with a private cache.
        let mut database_url: String = "sqlite://file:dbmem".to_owned();
        database_url.append(decimal_text(number).as_str());
        database_url.append("?mode=memory&cache=shared");
        Configuration {
            log_level: "off".to_owned(),
            allow_schema_ids: UncheckedAllowList::Wildcard,
            database_url,
            database_max_connections: 32,
            http_port: 2020,
            quic_port: 2022,
            blobs_base_path: None,
            private_key: None,
            mdns: true,
            direct_node_addresses: Vec::new(),
            allow_peer_ids: UncheckedAllowList::Wildcard,
            block_peer_ids: Vec::new(),
            relay_addresses: Vec::new(),
            relay_mode: false,
            worker_pool_size: 16,
        }
    }

    /// Hands the settings of this configuration on as a set that others can be merged into.
    pub fn settings(&self) -> (result: Figment)
        ensures
            !figment_failed(result),
            figment_entries(result) == self.entries(),
    {
        proof {
            names_differ();
        }
        let mut all: Figment = no_settings();
        all = with_setting(all, "log_level", Value::Text(self.log_level.clone()));
        assert(has_up_to(figment_entries(all), self.entries(), 2));
        all = with_setting(all, "allow_schema_ids", self.allow_schema_ids.serialize());
        assert(has_up_to(figment_entries(all), self.entries(), 3));
        all = with_setting(all, "database_url", Value::Text(self.database_url.clone()));
        assert(has_up_to(figment_entries(all), self.entries(), 4));
        all = with_setting(
            all,
            "database_max_connections",
            Value::Number(self.database_max_connections),
        );
        assert(has_up_to(figment_entries(all), self.entries(), 5));
        all = with_setting(all, "http_port", Value::Number(self.http_port as u32));
        assert(has_up_to(figment_entries(all), self.entries(), 6));
        all = with_setting(all, "quic_port", Value::Number(self.quic_port as u32));
        assert(has_up_to(figment_entries(all), self.entries(), 7));
        all = with_setting(all, "blobs_base_path", path_value(&self.blobs_base_path));
        assert(has_up_to(figment_entries(all), self.entries(), 8));
        all = with_setting(all, "private_key", path_value(&self.private_key));
        assert(has_up_to(figment_entries(all), self.entries(), 9));
        all = with_setting(all, "mdns", Value::Flag(self.mdns));
        assert(has_up_to(figment_entries(all), self.entries(), 10));
        all = with_setting(
            all,
            "direct_node_addresses",
            Value::Texts(copy_texts(&self.direct_node_addresses)),
        );
        assert(has_up_to(figment_entries(all), self.entries(), 11));
        all = with_setting(all, "allow_peer_ids", self.allow_peer_ids.serialize());
        assert(has_up_to(figment_entries(all), self.entries(), 12));
        all = with_setting(all, "block_peer_ids", Value::Texts(copy_ids(&self.block_peer_ids)));
        assert(has_up_to(figment_entries(all), self.entries(), 13));
        all = with_setting(all, "relay_addresses", Value::Texts(copy_texts(&self.relay_addresses)));
        assert(has_up_to(figment_entries(all), self.entries(), 14));
        all = with_setting(all, "relay_mode", Value::Flag(self.relay_mode));
        assert(has_up_to(figment_entries(all), self.entries(), 15));
        all = with_setting(all, "worker_pool_size", Value::Number(self.worker_pool_size));
        assert(has_up_to(figment_entries(all), self.entries(), 16));
        assert(figment_entries(all) =~= self.entries());
        all
    }
}

impl Default for Configuration {
    /// The configuration of a node that nothing was set for.
    ///
    /// Each such node has an in-memory database named after a random number, since nodes whose
    /// databases have the same name may see each other's data.
    fn default() -> (result: Configuration)
        ensures
            exists|number: u32| #[trigger] result.is_default(number),
    {
        Configuration::with_database_number(random_number())
    }
}

/// The settings of `base`, with `name` set to `value`.
pub(crate) fn with_setting(base: Figment, name: &str, value: Value) -> (result: Figment)
    requires
        is_argument(name@),
        !figment_failed(base),
    ensures
        !figment_failed(result),
        figment_entries(result) == figment_entries(base).insert(name@, value@),
{
    let result: Figment = merge(base, one_setting(name, &value));
    assert(figment_entries(result) =~= figment_entries(base).insert(name@, value@));
    result
}

/// The value that a source of settings holds for a path that may be missing.
fn path_value(path: &Option<String>) -> (result: Value)
    ensures
        result@ == path_entry(*path),
{
    match path {
        Some(path) => Value::Text(path.clone()),
        None => Value::Empty,
    }
}

/// The texts of a list of peer ids.
pub(crate) fn copy_ids(ids: &Vec<PeerId>) -> (result: Vec<String>)
    ensures
        texts(result@) == id_texts(ids@),
{
    let mut result: Vec<String> = Vec::new();
    let mut i: usize = 0;
    while i < ids.len()
        invariant
            i <= ids.len(),
            result.len() == i,
            forall|j: int| 0 <= j < i ==> (#[trigger] result@[j])@ == ids@[j]@,
        decreases ids.len() - i,
    {
        result.push(ids[i].as_str().to_owned());
        i += 1;
    }
    assert(texts(result@) =~= id_texts(ids@));
    result
}

/// A configuration holds a value for every setting, and for nothing else.
pub proof fn configuration_holds_every_setting(configuration: Configuration, name: Seq<char>)
    ensures
        configuration.entries().dom().contains(name) <==> is_setting(name),
{
}

/// Two nodes that drew different numbers have databases with different names.
pub proof fn default_databases_differ(
    left: Configuration,
    left_number: u32,
    right: Configuration,
    right_number: u32,
)
    requires
        left.is_default(left_number),
        right.is_default(right_number),
        left_number != right_number,
    ensures
        left.database_url@ != right.database_url@,
{
    if left.database_url@ == right.database_url@ {
        let before = "sqlite://file:dbmem"@;
        let after = "?mode=memory&cache=shared"@;
        let l = decimal(left_number as nat);
        let r = decimal(right_number as nat);
        let url = left.database_url@;
        assert(url.len() == before.len() + l.len() + after.len());
        assert(l.len() == r.len());
        assert(l =~= url.subrange(before.len() as int, (before.len() + l.len()) as int));
        assert(r =~= url.subrange(before.len() as int, (before.len() + l.len()) as int));
        decimal_is_injective(left_number as nat, right_number as nat);
    }
}

/// A node that nothing was set for allows all schemas and all peers, listens on the two usual
/// ports, is found on the local network, relays for nobody, and has a database in memory that is
/// named after its number. So it is for every number.
pub proof fn defaults_are_these(number: u32, result: Configuration)
    requires
        call_ensures(Configuration::with_database_number, (number,), result),
    ensures
        result.log_level@ == "off"@,
        result.allow_schema_ids is Wildcard,
        result.database_max_connections == 32,
        result.http_port == 2020,
        result.quic_port == 2022,
        result.blobs_base_path is None,
        result.private_key is None,
        result.mdns,
        result.direct_node_addresses.len() == 0,
        result.allow_peer_ids is Wildcard,
        result.block_peer_ids.len() == 0,
        result.relay_addresses.len() == 0,
        !result.relay_mode,
        result.worker_pool_size == 16,
        result.database_url@ == "sqlite://file:dbmem"@ + decimal(number as nat)
            + "?mode=memory&cache=shared"@,
{
}

/// So it is for the number that is drawn, whichever it is.
pub proof fn drawn_defaults_are_these(result: Configuration)
    requires
        call_ensures(<Configuration as Default>::default, (), result),
    ensures
        result.log_level@ == "off"@,
        result.allow_schema_ids is Wildcard,
        result.database_max_connections == 32,
        result.http_port == 2020,
        result.quic_port == 2022,
        result.blobs_base_path is None,
        result.private_key is None,
        result.mdns,
        result.direct_node_addresses.len() == 0,
        result.allow_peer_ids is Wildcard,
        result.block_peer_ids.len() == 0,
        result.relay_addresses.len() == 0,
        !result.relay_mode,
        result.worker_pool_size == 16,
        exists|number: u32|
            result.database_url@ == "sqlite://file:dbmem"@ + #[trigger] decimal(number as nat)
                + "?mode=memory&cache=shared"@,
{
    let number = choose|number: u32| #[trigger] result.is_default(number);
    assert(result.database_url@ == memory_database_url(number as nat));
    assert(result.database_url@ == "sqlite://file:dbmem"@ + decimal(number as nat)
        + "?mode=memory&cache=shared"@);
}

/// Every setting of a configuration is handed on under its name, with its own value.
pub proof fn settings_have_their_own_values(configuration: &Configuration, result: Figment)
    requires
        call_ensures(Configuration::settings, (configuration,), result),
    ensures
        !figment_failed(result),
        ({
            let settings = figment_entries(result);
            &&& settings["log_level"@] == Entry::Text(configuration.log_level@)
            &&& match configuration.allow_schema_ids {
                UncheckedAllowList::Wildcard => settings["allow_schema_ids"@] == Entry::Text("*"@),
                UncheckedAllowList::Members(members) => {
                    &&& settings["allow_schema_ids"@] is Texts
                    &&& settings["allow_schema_ids"@]->Texts_0.len() == members.len()
                    &&& forall|i: int|
                        0 <= i < members.len() ==>
                            #[trigger] settings["allow_schema_ids"@]->Texts_0[i] == members@[i]@
                },
            }
            &&& settings["database_url"@] == Entry::Text(configuration.database_url@)
            &&& settings["database_max_connections"@]
                == Entry::Number(configuration.database_max_connections as int)
            &&& settings["http_port"@] == Entry::Number(configuration.http_port as int)
            &&& settings["quic_port"@] == Entry::Number(configuration.quic_port as int)
            &&& match configuration.blobs_base_path {
                Some(path) => settings["blobs_base_path"@] == Entry::Text(path@),
                None => settings["blobs_base_path"@] == Entry::Empty,
            }
            &&& match configuration.private_key {
                Some(path) => settings["private_key"@] == Entry::Text(path@),
                None => settings["private_key"@] == Entry::Empty,
            }
            &&& settings["mdns"@] == Entry::Flag(configuration.mdns)
            &&& settings["direct_node_addresses"@] is Texts
            &&& settings["direct_node_addresses"@]->Texts_0.len()
                == configuration.direct_node_addresses.len()
            &&& forall|i: int|
                0 <= i < configuration.direct_node_addresses.len() ==>
                    #[trigger] settings["direct_node_addresses"@]->Texts_0[i]
                        == configuration.direct_node_addresses@[i]@
            &&& match configuration.allow_peer_ids {
                UncheckedAllowList::Wildcard => settings["allow_peer_ids"@] == Entry::Text("*"@),
                UncheckedAllowList::Members(members) => {
                    &&& settings["allow_peer_ids"@] is Texts
                    &&& settings["allow_peer_ids"@]->Texts_0.len() == members.len()
                    &&& forall|i: int|
                        0 <= i < members.len() ==>
                            #[trigger] settings["allow_peer_ids"@]->Texts_0[i] == members@[i]@
                },
            }
            &&& settings["block_peer_ids"@] is Texts
            &&& settings["block_peer_ids"@]->Texts_0.len() == configuration.block_peer_ids.len()
            &&& forall|i: int|
                0 <= i < configuration.block_peer_ids.len() ==>
                    #[trigger] settings["block_peer_ids"@]->Texts_0[i]
                        == configuration.block_peer_ids@[i]@
            &&& settings["relay_addresses"@] is Texts
            &&& settings["relay_addresses"@]->Texts_0.len() == configuration.relay_addresses.len()
            &&& forall|i: int|
                0 <= i < configuration.relay_addresses.len() ==>
                    #[trigger] settings["relay_addresses"@]->Texts_0[i]
                        == configuration.relay_addresses@[i]@
            &&& settings["relay_mode"@] == Entry::Flag(configuration.relay_mode)
            &&& settings["worker_pool_size"@]
                == Entry::Number(configuration.worker_pool_size as int)
        }),
{
    names_differ();
    let settings = figment_entries(result);
    list_is_its_members(configuration.allow_schema_ids, AllowList::<PeerId>::Wildcard);
    list_is_its_members(configuration.allow_peer_ids, AllowList::<PeerId>::Wildcard);
    texts_are_in_order(configuration.direct_node_addresses@);
    texts_are_in_order(configuration.relay_addresses@);
}

/// A configuration hands on its own settings, and nothing besides.
pub proof fn settings_have_their_own_names(
    configuration: &Configuration,
    result: Figment,
    name: Seq<char>,
)
    requires
        call_ensures(Configuration::settings, (configuration,), result),
    ensures
        figment_entries(result).dom().contains(name) <==> {
                ||| name == "log_level"@
                ||| name == "allow_schema_ids"@
                ||| name == "database_url"@
                ||| name == "database_max_connections"@
                ||| name == "http_port"@
                ||| name == "quic_port"@
                ||| name == "blobs_base_path"@
                ||| name == "private_key"@
                ||| name == "mdns"@
                ||| name == "direct_node_addresses"@
                ||| name == "allow_peer_ids"@
                ||| name == "block_peer_ids"@
                ||| name == "relay_addresses"@
                ||| name == "relay_mode"@
                ||| name == "worker_pool_size"@
        },
{
}

/// The texts of peer ids are those of the ids, one for each and in order.
pub proof fn id_texts_are_in_order(ids: Seq<PeerId>)
    ensures
        id_texts(ids).len() == ids.len(),
        forall|i: int| 0 <= i < ids.len() ==> #[trigger] id_texts(ids)[i] == ids[i]@,
{
}

} // verus!
