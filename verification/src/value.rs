//! What a source of settings holds: one value for each setting that it names.
use crate::text::texts;
use vstd::prelude::*;

verus! {

/// The value that a source of settings gives to one setting.
#[derive(Debug, PartialEq, Eq)]
pub enum Value {
    /// The setting is named, and left without a value.
    Empty,
    Text(String),
    Number(u32),
    Flag(bool),
    Texts(Vec<String>),
}

/// The value of one setting, as contracts speak of it.
pub enum Entry {
    Empty,
    Text(Seq<char>),
    Number(int),
    Flag(bool),
    Texts(Seq<Seq<char>>),
    /// Any other value: a table, a fraction, a single character, or a list that holds something
    /// else than texts.
    Other,
}

/// The settings that a source names, each with its value.
pub type Entries = Map<Seq<char>, Entry>;

impl View for Value {
    type V = Entry;

    open spec fn view(&self) -> Entry {
        match self {
            Value::Empty => Entry::Empty,
            Value::Text(text) => Entry::Text(text@),
            Value::Number(number) => Entry::Number(*number as int),
            Value::Flag(flag) => Entry::Flag(*flag),
            Value::Texts(list) => Entry::Texts(texts(list@)),
        }
    }
}

/// The names of the settings that a node's configuration is made of.
pub open spec fn is_setting(name: Seq<char>) -> bool {
    ||| name == "log_level"@
    ||| name == "allow_schema_ids"@
    ||| name == "database_url"@
    ||| name == "database_max_connections"@
    ||| name == "http_port"@
    ||| name == "quic_port"@
    ||| name == "blobs_base_path"@
    ||| name == "private_key"@
    ||| name == "mdns"@
    ||| name == "direct_node_addresses"@
    ||| name == "allow_peer_ids"@
    ||| name == "block_peer_ids"@
    ||| name == "relay_addresses"@
    ||| name == "relay_mode"@
    ||| name == "worker_pool_size"@
}

/// The names under which a command line hands settings on: those of the configuration, and the
/// path of the configuration file.
pub open spec fn is_argument(name: Seq<char>) -> bool {
    is_setting(name) || name == "config"@
}

/// The position of a name in the list of all names.
pub open spec fn position(name: Seq<char>) -> int {
    if name == "config"@ {
        0
    } else if name == "log_level"@ {
        1
    } else if name == "allow_schema_ids"@ {
        2
    } else if name == "database_url"@ {
        3
    } else if name == "database_max_connections"@ {
        4
    } else if name == "http_port"@ {
        5
    } else if name == "quic_port"@ {
        6
    } else if name == "blobs_base_path"@ {
        7
    } else if name == "private_key"@ {
        8
    } else if name == "mdns"@ {
        9
    } else if name == "direct_node_addresses"@ {
        10
    } else if name == "allow_peer_ids"@ {
        11
    } else if name == "block_peer_ids"@ {
        12
    } else if name == "relay_addresses"@ {
        13
    } else if name == "relay_mode"@ {
        14
    } else if name == "worker_pool_size"@ {
        15
    } else {
        16
    }
}

/// Whether `entries` holds what `all` holds under the names at the first `count` positions, and
/// nothing else.
pub open spec fn has_up_to(entries: Entries, all: Entries, count: int) -> bool {
    forall|name: Seq<char>|
        {
            &&& #[trigger] entries.dom().contains(name) <==> all.dom().contains(name) && position(
                name,
            ) < count
            &&& entries.dom().contains(name) ==> entries[name] == all[name]
        }
}

/// No two settings have the same name.
pub proof fn names_differ()
    ensures
        position("config"@) == 0,
        position("log_level"@) == 1,
        position("allow_schema_ids"@) == 2,
        position("database_url"@) == 3,
        position("database_max_connections"@) == 4,
        position("http_port"@) == 5,
        position("quic_port"@) == 6,
        position("blobs_base_path"@) == 7,
        position("private_key"@) == 8,
        position("mdns"@) == 9,
        position("direct_node_addresses"@) == 10,
        position("allow_peer_ids"@) == 11,
        position("block_peer_ids"@) == 12,
        position("relay_addresses"@) == 13,
        position("relay_mode"@) == 14,
        position("worker_pool_size"@) == 15,
{
    reveal_strlit("config");
    reveal_strlit("log_level");
    reveal_strlit("allow_schema_ids");
    reveal_strlit("database_url");
    reveal_strlit("database_max_connections");
    reveal_strlit("http_port");
    reveal_strlit("quic_port");
    reveal_strlit("blobs_base_path");
    reveal_strlit("private_key");
    reveal_strlit("mdns");
    reveal_strlit("direct_node_addresses");
    reveal_strlit("allow_peer_ids");
    reveal_strlit("block_peer_ids");
    reveal_strlit("relay_addresses");
    reveal_strlit("relay_mode");
    reveal_strlit("worker_pool_size");
    assert("config"@.len() == 6);
    assert("log_level"@.len() == 9);
    assert("allow_schema_ids"@.len() == 16);
    assert("database_url"@.len() == 12);
    assert("database_max_connections"@.len() == 24);
    assert("http_port"@.len() == 9);
    assert("quic_port"@.len() == 9);
    assert("blobs_base_path"@.len() == 15);
    assert("private_key"@.len() == 11);
    assert("mdns"@.len() == 4);
    assert("direct_node_addresses"@.len() == 21);
    assert("allow_peer_ids"@.len() == 14);
    assert("block_peer_ids"@.len() == 14);
    assert("relay_addresses"@.len() == 15);
    assert("relay_mode"@.len() == 10);
    assert("worker_pool_size"@.len() == 16);
    assert("config"@[0] == 'c');
    assert("log_level"@[0] == 'l');
    assert("allow_schema_ids"@[0] == 'a');
    assert("database_url"@[0] == 'd');
    assert("database_max_connections"@[0] == 'd');
    assert("http_port"@[0] == 'h');
    assert("quic_port"@[0] == 'q');
    assert("blobs_base_path"@[0] == 'b');
    assert("private_key"@[0] == 'p');
    assert("mdns"@[0] == 'm');
    assert("direct_node_addresses"@[0] == 'd');
    assert("allow_peer_ids"@[0] == 'a');
    assert("block_peer_ids"@[0] == 'b');
    assert("relay_addresses"@[0] == 'r');
    assert("relay_mode"@[0] == 'r');
    assert("worker_pool_size"@[0] == 'w');
}

/// Contracts speak of a value by its kind and by what it holds.
pub proof fn value_is_its_kind_and_content(value: Value)
    ensures
        match value {
            Value::Empty => value@ == Entry::Empty,
            Value::Text(text) => value@ == Entry::Text(text@),
            Value::Number(number) => value@ == Entry::Number(number as int),
            Value::Flag(flag) => value@ == Entry::Flag(flag),
            Value::Texts(list) => {
                &&& value@ is Texts
                &&& value@->Texts_0.len() == list.len()
                &&& forall|i: int|
                    0 <= i < list.len() ==> #[trigger] value@->Texts_0[i] == list@[i]@
            },
        },
{
}

/// What a node's configuration is made of. The path of the configuration file is no part of it,
/// and is only an argument.
pub proof fn settings_have_these_names()
    ensures
        is_setting("log_level"@),
        is_setting("allow_schema_ids"@),
        is_setting("database_url"@),
        is_setting("database_max_connections"@),
        is_setting("http_port"@),
        is_setting("quic_port"@),
        is_setting("blobs_base_path"@),
        is_setting("private_key"@),
        is_setting("mdns"@),
        is_setting("direct_node_addresses"@),
        is_setting("allow_peer_ids"@),
        is_setting("block_peer_ids"@),
        is_setting("relay_addresses"@),
        is_setting("relay_mode"@),
        is_setting("worker_pool_size"@),
        !is_setting("config"@),
        is_argument("config"@),
{
    names_differ();
}

} // verus!
