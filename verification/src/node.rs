//! The checked configuration that a node is started with.
use crate::allow_list::{AllowList, UncheckedAllowList};
use crate::config::Configuration;
use crate::ids::{
    accepted_exactly_when_every_member_is, all_accepted, check_peer_ids, check_schema_ids,
    checked_view, checking_has_one_result, checks_to, peer_id_reader, peer_ids_by_member,
    schema_id_reader, schema_ids_by_member, PeerId, SchemaId,
};
use crate::outside::{parsed_peer_id, parsed_schema_id};
use crate::text::{texts, texts_are_in_order};
use vstd::prelude::*;

verus! {

/// Where a node keeps its blobs.
#[derive(Clone, Debug, PartialEq, Eq)]
pub enum BlobsBasePath {
    /// In the folder of this path.
    Given(String),
    /// In a temporary folder, which is made when the node starts and removed when it ends.
    Temporary,
}

/// Settings of a node's networking. What is not set here has the node's own defaults.
#[derive(Clone, Debug)]
pub struct NetworkConfiguration {
    pub quic_port: u16,
    pub mdns: bool,
    pub direct_node_addresses: Vec<String>,
    pub allow_peer_ids: AllowList<PeerId>,
    pub block_peer_ids: Vec<PeerId>,
    pub relay_addresses: Vec<String>,
    pub relay_mode: bool,
}

/// Settings of a node.
#[derive(Clone, Debug)]
pub struct NodeConfiguration {
    pub allow_schema_ids: AllowList<SchemaId>,
    pub database_url: String,
    pub database_max_connections: u32,
    pub http_port: u16,
    pub blobs_base_path: BlobsBasePath,
    pub worker_pool_size: u32,
    pub network: NetworkConfiguration,
}

/// Why a configuration cannot be used.
#[derive(Clone, Debug, PartialEq, Eq)]
pub enum ConfigurationError {
    /// A member of `allow_schema_ids` is no schema id.
    InvalidSchemaId(String),
    /// A member of `allow_peer_ids` is no peer id.
    InvalidPeerId(String),
}

impl ConfigurationError {
    /// The error in words.
    pub open spec fn words(self) -> Seq<char> {
        match self {
            ConfigurationError::InvalidSchemaId(text) => {
                "Invalid schema id '"@ + text@ + "' found in 'allow_schema_ids' list"@
            },
            ConfigurationError::InvalidPeerId(text) => {
                "Invalid peer id '"@ + text@ + "' found in 'allow_peer_ids' list"@
            },
        }
    }

    /// The error in words.
    pub fn message(&self) -> (result: String)
        ensures
            result@ == self.words(),
    {
        match self {
            ConfigurationError::InvalidSchemaId(text) => {
                let mut result: String = "Invalid schema id '".to_owned();
                result.append(text.as_str());
                result.append("' found in 'allow_schema_ids' list");
                result
            },
            ConfigurationError::InvalidPeerId(text) => {
                let mut result: String = "Invalid peer id '".to_owned();
                result.append(text.as_str());
                result.append("' found in 'allow_peer_ids' list");
                result
            },
        }
    }
}

/// Where blobs are kept: in the given folder, or in a temporary one where none was given.
pub open spec fn blobs_folder(path: Option<String>) -> BlobsBasePath {
    match path {
        Some(path) => BlobsBasePath::Given(path),
        None => BlobsBasePath::Temporary,
    }
}

impl NodeConfiguration {
    /// Whether this has the settings of `configuration` which need no checking.
    pub open spec fn keeps_settings_of(self, configuration: Configuration) -> bool {
        &&& self.database_url == configuration.database_url
        &&& self.database_max_connections == configuration.database_max_connections
        &&& self.http_port == configuration.http_port
        &&& self.blobs_base_path == blobs_folder(configuration.blobs_base_path)
        &&& self.worker_pool_size == configuration.worker_pool_size
        &&& self.network.quic_port == configuration.quic_port
        &&& self.network.mdns == configuration.mdns
        &&& self.network.direct_node_addresses == configuration.direct_node_addresses
        &&& self.network.block_peer_ids == configuration.block_peer_ids
        &&& self.network.relay_addresses == configuration.relay_addresses
        &&& self.network.relay_mode == configuration.relay_mode
    }

    /// Makes a node's configuration from `value` and the outcomes of checking its two lists. A
    /// text that is no schema id is reported before one that is no peer id.
    pub fn from_checked(
        value: Configuration,
        allow_schema_ids: Result<AllowList<SchemaId>, String>,
        allow_peer_ids: Result<AllowList<PeerId>, String>,
    ) -> (result: Result<NodeConfiguration, ConfigurationError>)
        ensures
            match (allow_schema_ids, allow_peer_ids) {
                (Err(text), _) => result == Err::<NodeConfiguration, _>(
                    ConfigurationError::InvalidSchemaId(text),
                ),
                (Ok(_), Err(text)) => result == Err::<NodeConfiguration, _>(
                    ConfigurationError::InvalidPeerId(text),
                ),
                (Ok(schema_ids), Ok(peer_ids)) => {
                    &&& result is Ok
                    &&& result->Ok_0.allow_schema_ids == schema_ids
                    &&& result->Ok_0.network.allow_peer_ids == peer_ids
                    &&& result->Ok_0.keeps_settings_of(value)
                },
            },
    {
        let allow_schema_ids: AllowList<SchemaId> = match allow_schema_ids {
            Ok(ids) => ids,
            Err(text) => {
                return Err(ConfigurationError::InvalidSchemaId(text));
            },
        };
        let allow_peer_ids: AllowList<PeerId> = match allow_peer_ids {
            Ok(ids) => ids,
            Err(text) => {
                return Err(ConfigurationError::InvalidPeerId(text));
            },
        };
        let blobs_base_path: BlobsBasePath = match value.blobs_base_path {
            Some(path) => BlobsBasePath::Given(path),
            None => BlobsBasePath::Temporary,
        };
        Ok(
            NodeConfiguration {
                allow_schema_ids,
                database_url: value.database_url,
                database_max_connections: value.database_max_connections,
                http_port: value.http_port,
                blobs_base_path,
                worker_pool_size: value.worker_pool_size,
                network: NetworkConfiguration {
                    quic_port: value.quic_port,
                    mdns: value.mdns,
                    direct_node_addresses: value.direct_node_addresses,
                    allow_peer_ids,
                    block_peer_ids: value.block_peer_ids,
                    relay_addresses: value.relay_addresses,
                    relay_mode: value.relay_mode,
                },
            },
        )
    }

    /// Checks the lists of ids in `value` and makes a node's configuration of it.
    pub fn try_from(value: Configuration) -> (result: Result<NodeConfiguration, ConfigurationError>)
        ensures
            converts_to(value, result),
    {
        let allow_schema_ids: Result<AllowList<SchemaId>, String> = check_schema_ids(
            &value.allow_schema_ids,
        );
        let allow_peer_ids: Result<AllowList<PeerId>, String> = check_peer_ids(
            &value.allow_peer_ids,
        );
        proof {
            accepted_exactly_when_every_member_is(
                value.allow_schema_ids@,
                schema_id_reader(),
                checked_view(allow_schema_ids),
            );
        }
        NodeConfiguration::from_checked(value, allow_schema_ids, allow_peer_ids)
    }
}

/// Whether converting `configuration` gives `result`: a node's configuration with the ids of both
/// lists and every other setting as it was; or else the first text in `allow_schema_ids` that is
/// no schema id; or else, where there is none, the first in `allow_peer_ids` that is no peer id.
pub open spec fn converts_to(
    configuration: Configuration,
    result: Result<NodeConfiguration, ConfigurationError>,
) -> bool {
    match result {
        Ok(node) => {
            &&& checks_to(
                configuration.allow_schema_ids@,
                schema_id_reader(),
                Ok(node.allow_schema_ids@),
            )
            &&& checks_to(
                configuration.allow_peer_ids@,
                peer_id_reader(),
                Ok(node.network.allow_peer_ids@),
            )
            &&& node.keeps_settings_of(configuration)
        },
        Err(ConfigurationError::InvalidSchemaId(text)) => checks_to(
            configuration.allow_schema_ids@,
            schema_id_reader(),
            Err(text@),
        ),
        Err(ConfigurationError::InvalidPeerId(text)) => {
            &&& all_accepted(configuration.allow_schema_ids@, schema_id_reader())
            &&& checks_to(configuration.allow_peer_ids@, peer_id_reader(), Err(text@))
        },
    }
}

/// A configuration can be used exactly when every schema id and every peer id that it allows is
/// valid, whatever its other settings are.
pub proof fn usable_exactly_when_ids_are_valid(
    configuration: Configuration,
    result: Result<NodeConfiguration, ConfigurationError>,
)
    requires
        converts_to(configuration, result),
    ensures
        result is Ok <==> {
            &&& all_accepted(configuration.allow_schema_ids@, schema_id_reader())
            &&& all_accepted(configuration.allow_peer_ids@, peer_id_reader())
        },
{
    let schema_ids = configuration.allow_schema_ids@;
    let peer_ids = configuration.allow_peer_ids@;
    match result {
        Ok(node) => {
            accepted_exactly_when_every_member_is(
                schema_ids,
                schema_id_reader(),
                Ok(node.allow_schema_ids@),
            );
            accepted_exactly_when_every_member_is(
                peer_ids,
                peer_id_reader(),
                Ok(node.network.allow_peer_ids@),
            );
        },
        Err(ConfigurationError::InvalidSchemaId(text)) => {
            accepted_exactly_when_every_member_is(schema_ids, schema_id_reader(), Err(text@));
        },
        Err(ConfigurationError::InvalidPeerId(text)) => {
            accepted_exactly_when_every_member_is(peer_ids, peer_id_reader(), Err(text@));
        },
    }
}

/// A node that nothing was set for can start: it allows all schemas and all peers, blocks none,
/// and keeps its blobs in a temporary folder.
pub proof fn defaults_are_usable(
    configuration: Configuration,
    number: u32,
    result: Result<NodeConfiguration, ConfigurationError>,
)
    requires
        configuration.is_default(number),
        converts_to(configuration, result),
    ensures
        result is Ok,
        result->Ok_0.allow_schema_ids is Wildcard,
        result->Ok_0.network.allow_peer_ids is Wildcard,
        result->Ok_0.network.block_peer_ids@.len() == 0,
        result->Ok_0.blobs_base_path is Temporary,
{
    usable_exactly_when_ids_are_valid(configuration, result);
}

/// Two conversions of the same configuration end in the same way: in the same lists of ids, or
/// in the same error.
pub proof fn conversion_has_one_result(
    configuration: Configuration,
    left: Result<NodeConfiguration, ConfigurationError>,
    right: Result<NodeConfiguration, ConfigurationError>,
)
    requires
        converts_to(configuration, left),
        converts_to(configuration, right),
    ensures
        match (left, right) {
            (Ok(left), Ok(right)) => {
                &&& left.allow_schema_ids@ == right.allow_schema_ids@
                &&& left.network.allow_peer_ids@ == right.network.allow_peer_ids@
            },
            (Err(left), Err(right)) => left.words() == right.words(),
            _ => false,
        },
{
    let schema_ids = configuration.allow_schema_ids@;
    let peer_ids = configuration.allow_peer_ids@;
    usable_exactly_when_ids_are_valid(configuration, left);
    usable_exactly_when_ids_are_valid(configuration, right);
    match (left, right) {
        (Ok(left), Ok(right)) => {
            checking_has_one_result(
                schema_ids,
                schema_id_reader(),
                Ok(left.allow_schema_ids@),
                Ok(right.allow_schema_ids@),
            );
            checking_has_one_result(
                peer_ids,
                peer_id_reader(),
                Ok(left.network.allow_peer_ids@),
                Ok(right.network.allow_peer_ids@),
            );
        },
        (
            Err(ConfigurationError::InvalidSchemaId(left)),
            Err(ConfigurationError::InvalidSchemaId(right)),
        ) => {
            checking_has_one_result(schema_ids, schema_id_reader(), Err(left@), Err(right@));
        },
        (
            Err(ConfigurationError::InvalidPeerId(left)),
            Err(ConfigurationError::InvalidPeerId(right)),
        ) => {
            checking_has_one_result(peer_ids, peer_id_reader(), Err(left@), Err(right@));
        },
        (Err(ConfigurationError::InvalidSchemaId(text)), _) => {
            accepted_exactly_when_every_member_is(schema_ids, schema_id_reader(), Err(text@));
        },
        (_, Err(ConfigurationError::InvalidSchemaId(text))) => {
            accepted_exactly_when_every_member_is(schema_ids, schema_id_reader(), Err(text@));
        },
        _ => {},
    }
}

/// Every setting that needs no check reaches the node as it was, each on its own: none depends on
/// any other.
pub proof fn unchecked_settings_are_kept(
    value: Configuration,
    result: Result<NodeConfiguration, ConfigurationError>,
)
    requires
        call_ensures(NodeConfiguration::try_from, (value,), result),
    ensures
        result matches Ok(node) ==> {
            &&& node.database_url@ == value.database_url@
            &&& node.database_max_connections == value.database_max_connections
            &&& node.http_port == value.http_port
            &&& value.blobs_base_path matches Some(path) ==> node.blobs_base_path is Given
                && node.blobs_base_path->Given_0@ == path@
            &&& value.blobs_base_path is None ==> node.blobs_base_path is Temporary
            &&& node.worker_pool_size == value.worker_pool_size
            &&& node.network.quic_port == value.quic_port
            &&& node.network.mdns == value.mdns
            &&& node.network.direct_node_addresses@ == value.direct_node_addresses@
            &&& node.network.block_peer_ids@ == value.block_peer_ids@
            &&& node.network.relay_addresses@ == value.relay_addresses@
            &&& node.network.relay_mode == value.relay_mode
        },
{
}

/// A node has the ids of exactly the members of both lists, in order, and the wildcard where a
/// list is the wildcard.
pub proof fn allowed_ids_are_kept(
    value: Configuration,
    result: Result<NodeConfiguration, ConfigurationError>,
)
    requires
        call_ensures(NodeConfiguration::try_from, (value,), result),
    ensures
        result matches Ok(node) ==> {
            &&& match value.allow_schema_ids {
                UncheckedAllowList::Wildcard => node.allow_schema_ids is Wildcard,
                UncheckedAllowList::Members(members) => {
                    &&& node.allow_schema_ids is Members
                    &&& node.allow_schema_ids->Members_0.len() == members.len()
                    &&& forall|i: int|
                        0 <= i < members.len() ==> parsed_schema_id(members@[i]@) == Some(
                            (#[trigger] node.allow_schema_ids->Members_0@[i])@,
                        )
                },
            }
            &&& match value.allow_peer_ids {
                UncheckedAllowList::Wildcard => node.network.allow_peer_ids is Wildcard,
                UncheckedAllowList::Members(members) => {
                    &&& node.network.allow_peer_ids is Members
                    &&& node.network.allow_peer_ids->Members_0.len() == members.len()
                    &&& forall|i: int|
                        0 <= i < members.len() ==> parsed_peer_id(members@[i]@) == Some(
                            (#[trigger] node.network.allow_peer_ids->Members_0@[i])@,
                        )
                },
            }
        },
{
    if let Ok(node) = result {
        schema_ids_by_member(value.allow_schema_ids, Ok(node.allow_schema_ids));
        peer_ids_by_member(value.allow_peer_ids, Ok(node.network.allow_peer_ids));
    }
}

/// Conversion fails exactly when a member of one of the two lists is no id. The first member that
/// is no schema id is reported, and the first that is no peer id only where every schema id is
/// valid.
pub proof fn first_invalid_id_is_reported(
    value: Configuration,
    result: Result<NodeConfiguration, ConfigurationError>,
)
    requires
        call_ensures(NodeConfiguration::try_from, (value,), result),
    ensures
        result is Ok <==> {
            &&& value.allow_schema_ids matches UncheckedAllowList::Members(members) ==> forall|i: int|
                0 <= i < members.len() ==> parsed_schema_id((#[trigger] members@[i])@) is Some
            &&& value.allow_peer_ids matches UncheckedAllowList::Members(members) ==> forall|i: int|
                0 <= i < members.len() ==> parsed_peer_id((#[trigger] members@[i])@) is Some
        },
        result matches Err(ConfigurationError::InvalidSchemaId(text)) ==> {
            &&& value.allow_schema_ids is Members
            &&& exists|i: int|
                {
                    &&& 0 <= i < value.allow_schema_ids->Members_0.len()
                    &&& parsed_schema_id((#[trigger] value.allow_schema_ids->Members_0@[i])@) is None
                    &&& text@ == value.allow_schema_ids->Members_0@[i]@
                    &&& forall|j: int|
                        0 <= j < i ==> parsed_schema_id(
                            (#[trigger] value.allow_schema_ids->Members_0@[j])@,
                        ) is Some
                }
        },
        result matches Err(ConfigurationError::InvalidPeerId(text)) ==> {
            &&& value.allow_schema_ids matches UncheckedAllowList::Members(members) ==> forall|i: int|
                0 <= i < members.len() ==> parsed_schema_id((#[trigger] members@[i])@) is Some
            &&& value.allow_peer_ids is Members
            &&& exists|i: int|
                {
                    &&& 0 <= i < value.allow_peer_ids->Members_0.len()
                    &&& parsed_peer_id((#[trigger] value.allow_peer_ids->Members_0@[i])@) is None
                    &&& text@ == value.allow_peer_ids->Members_0@[i]@
                    &&& forall|j: int|
                        0 <= j < i ==> parsed_peer_id(
                            (#[trigger] value.allow_peer_ids->Members_0@[j])@,
                        ) is Some
                }
        },
{
    match result {
        Ok(node) => {
            schema_ids_by_member(value.allow_schema_ids, Ok(node.allow_schema_ids));
            peer_ids_by_member(value.allow_peer_ids, Ok(node.network.allow_peer_ids));
        },
        Err(ConfigurationError::InvalidSchemaId(text)) => {
            schema_ids_by_member(value.allow_schema_ids, Err(text));
        },
        Err(ConfigurationError::InvalidPeerId(text)) => {
            peer_ids_by_member(value.allow_peer_ids, Err(text));
            if let UncheckedAllowList::Members(members) = value.allow_schema_ids {
                texts_are_in_order(members@);
                assert forall|i: int| 0 <= i < members.len() implies parsed_schema_id(
                    (#[trigger] members@[i])@,
                ) is Some by {
                    assert(texts(members@)[i] == members@[i]@);
                }
            }
        },
    }
}

/// Given the outcomes of checking both lists, a schema id that is none is reported first, then a
/// peer id that is none; and where there is neither, the node has both lists and every other
/// setting as it was.
pub proof fn outcomes_of_checks_are_taken(
    value: Configuration,
    schema_ids: Result<AllowList<SchemaId>, String>,
    peer_ids: Result<AllowList<PeerId>, String>,
    result: Result<NodeConfiguration, ConfigurationError>,
)
    requires
        call_ensures(NodeConfiguration::from_checked, (value, schema_ids, peer_ids), result),
    ensures
        result is Ok <==> schema_ids is Ok && peer_ids is Ok,
        schema_ids matches Err(text) ==> result == Err::<NodeConfiguration, _>(
            ConfigurationError::InvalidSchemaId(text),
        ),
        schema_ids is Ok && peer_ids is Err ==> result == Err::<NodeConfiguration, _>(
            ConfigurationError::InvalidPeerId(peer_ids->Err_0),
        ),
        result matches Ok(node) ==> {
            &&& node.allow_schema_ids == schema_ids->Ok_0
            &&& node.network.allow_peer_ids == peer_ids->Ok_0
            &&& node.database_url@ == value.database_url@
            &&& node.database_max_connections == value.database_max_connections
            &&& node.http_port == value.http_port
            &&& value.blobs_base_path matches Some(path) ==> node.blobs_base_path is Given
                && node.blobs_base_path->Given_0@ == path@
            &&& value.blobs_base_path is None ==> node.blobs_base_path is Temporary
            &&& node.worker_pool_size == value.worker_pool_size
            &&& node.network.quic_port == value.quic_port
            &&& node.network.mdns == value.mdns
            &&& node.network.direct_node_addresses@ == value.direct_node_addresses@
            &&& node.network.block_peer_ids@ == value.block_peer_ids@
            &&& node.network.relay_addresses@ == value.relay_addresses@
            &&& node.network.relay_mode == value.relay_mode
        },
{
}

/// An error names the text that is no id, and the list that the text stands in.
pub proof fn errors_name_text_and_list(text: String, schema_id: String, peer_id: String)
    requires
        call_ensures(
            ConfigurationError::message,
            (&ConfigurationError::InvalidSchemaId(text),),
            schema_id,
        ),
        call_ensures(
            ConfigurationError::message,
            (&ConfigurationError::InvalidPeerId(text),),
            peer_id,
        ),
    ensures
        schema_id@ == "Invalid schema id '"@ + text@ + "' found in 'allow_schema_ids' list"@,
        peer_id@ == "Invalid peer id '"@ + text@ + "' found in 'allow_peer_ids' list"@,
{
}

} // verus!
