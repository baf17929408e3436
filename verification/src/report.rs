//! What a node shows of its configuration when it starts.
use crate::allow_list::{AllowList, Allowed, WILDCARD};
use crate::config::Configuration;
use crate::ids::SchemaId;
use crate::node::NodeConfiguration;
use crate::outside::{blue, blue_style, is_styled, underline, underline_style};
use crate::text::{
    contains, decimal, has_part, join, joined, part_has_surroundings, same, texts,
};
use vstd::prelude::*;

verus! {

/// The picture that is shown when a node starts.
pub const BANNER: &'static str = r"                       ██████ ███████ ████
                      ████████       ██████
                      ██████            ███
                       █████              ██
                       █     ████      █████
                      █     ██████   █ █████
                     ██      ████   ███ █████
                    █████         ██████    █
                   ███████                ██
                   █████████   █████████████
                   ███████████      █████████
                   █████████████████         ████
              ██████    ███████████              ██
          ██████████        █████                 █
           █████████        ██          ███       ██
             ██████        █            █           ██
                ██       ██             ███████     ██
              ███████████                      ██████
████████     ████████████                   ██████
████   ██████ ██████████            █   ████
  █████████   ████████       ███    ███████
    ████████             ██████    ████████
█████████  ████████████████████████   ███
█████████                      ██
    ";

/// What is shown of a configuration, one text for each line.
#[derive(Debug, PartialEq, Eq)]
pub struct Summary {
    pub allow_schema_ids: String,
    pub database_url: String,
    pub mdns: String,
    pub private_key: String,
    pub relay_mode: String,
}

/// What is shown of a configuration, as contracts speak of it.
pub struct SummaryText {
    pub allow_schema_ids: Seq<char>,
    pub database_url: Seq<char>,
    pub mdns: Seq<char>,
    pub private_key: Seq<char>,
    pub relay_mode: Seq<char>,
}

impl View for Summary {
    type V = SummaryText;

    open spec fn view(&self) -> SummaryText {
        SummaryText {
            allow_schema_ids: self.allow_schema_ids@,
            database_url: self.database_url@,
            mdns: self.mdns@,
            private_key: self.private_key@,
            relay_mode: self.relay_mode@,
        }
    }
}

/// The lines of a list of schema ids, each with a bullet in front.
pub open spec fn bulleted(ids: Seq<Seq<char>>) -> Seq<Seq<char>> {
    Seq::new(ids.len(), |i: int| "• "@ + ids[i])
}

/// What is shown of the allowed schema ids.
pub open spec fn schema_ids_words(list: Allowed<Seq<char>>) -> Seq<char> {
    match list {
        Allowed::Members(ids) => {
            if ids.len() == 0 {
                "none (disable replication)"@
            } else {
                "\n"@ + joined(bulleted(ids), "\n"@)
            }
        },
        Allowed::Wildcard => WILDCARD@ + " (any schema id)"@,
    }
}

/// Whether the database at this address is kept in memory only.
pub open spec fn is_memory_database(url: Seq<char>) -> bool {
    url == "sqlite::memory:"@ || has_part(url, "mode=memory"@)
}

/// What is shown of the database. The address of an SQLite database is shown, that of a
/// PostgreSQL database is not.
pub open spec fn database_words(url: Seq<char>) -> Seq<char> {
    if is_memory_database(url) {
        "memory (data is not persisted)"@
    } else if has_part(url, "sqlite:"@) {
        "SQLite: "@ + url
    } else {
        "PostgreSQL"@
    }
}

/// What is shown of something that is switched on or off.
pub open spec fn switch_words(on: bool) -> Seq<char> {
    if on {
        "enabled"@
    } else {
        "disabled"@
    }
}

/// What may be shown of the private key: its path, in blue where the terminal takes colours, or
/// that there is none.
pub open spec fn is_private_key_words(path: Option<&str>, words: Seq<char>) -> bool {
    match path {
        Some(path) => is_styled(path@, blue_style(), words),
        None => words == "ephemeral (not persisted)"@,
    }
}

/// What is shown of a configuration, without colours.
pub open spec fn summary_words(private_key: Seq<char>, config: NodeConfiguration) -> SummaryText {
    SummaryText {
        allow_schema_ids: schema_ids_words(config.allow_schema_ids@),
        database_url: database_words(config.database_url@),
        mdns: switch_words(config.network.mdns),
        private_key,
        relay_mode: switch_words(config.network.relay_mode),
    }
}

/// Whether `shown` is `plain` with each text in blue, as far as the terminal takes colours.
pub open spec fn is_blue(plain: SummaryText, shown: SummaryText) -> bool {
    &&& is_styled(plain.allow_schema_ids, blue_style(), shown.allow_schema_ids)
    &&& is_styled(plain.database_url, blue_style(), shown.database_url)
    &&& is_styled(plain.mdns, blue_style(), shown.mdns)
    &&& is_styled(plain.private_key, blue_style(), shown.private_key)
    &&& is_styled(plain.relay_mode, blue_style(), shown.relay_mode)
}

/// The lines of a summary.
pub open spec fn summary_lines(summary: SummaryText) -> Seq<char> {
    "Allow schema IDs: "@ + summary.allow_schema_ids + "\nDatabase URL: "@ + summary.database_url
        + "\nmDNS: "@ + summary.mdns + "\nPrivate key: "@ + summary.private_key + "\nRelay mode: "@
        + summary.relay_mode + "\n\nNode is ready!\n"@
}

/// The line on the configuration file.
pub open spec fn file_line(path: Option<Seq<char>>) -> Seq<char> {
    match path {
        Some(path) => "Loading config file from "@ + path + "\n"@,
        None => "No config file provided\n"@,
    }
}

/// The lines that are shown ahead of a summary.
pub open spec fn header_lines(
    title: Seq<char>,
    version: Seq<char>,
    file: Option<Seq<char>>,
    heading: Seq<char>,
) -> Seq<char> {
    BANNER@ + "\n"@ + title + " v"@ + version + "\n\n"@ + file_line(file) + "\n"@ + heading
        + "\n\n"@
}

/// A text that may be missing, as contracts speak of it.
pub open spec fn optional_text(text: Option<String>) -> Option<Seq<char>> {
    match text {
        Some(text) => Some(text@),
        None => None,
    }
}

/// Describes the schema ids that a node allows.
pub fn describe_schema_ids(list: &AllowList<SchemaId>) -> (result: String)
    ensures
        result@ == schema_ids_words(list@),
{
    match list {
        AllowList::Members(ids) => {
            if ids.len() == 0 {
                return "none (disable replication)".to_owned();
            }
            let mut lines: Vec<String> = Vec::new();
            let mut i: usize = 0;
            while i < ids.len()
                invariant
                    i <= ids.len(),
                    lines.len() == i,
                    forall|j: int| 0 <= j < i ==> (#[trigger] lines@[j])@ == "• "@ + ids@[j]@,
                decreases ids.len() - i,
            {
                let mut line: String = "• ".to_owned();
                line.append(ids[i].as_str());
                lines.push(line);
                i += 1;
            }
            let mut result: String = "\n".to_owned();
            result.append(join(&lines, "\n").as_str());
            proof {
                let members = Seq::new(ids@.len(), |i: int| ids@[i]@);
                assert(texts(lines@) =~= bulleted(members));
            }
            result
        },
        AllowList::Wildcard => {
            let mut result: String = WILDCARD.to_owned();
            result.append(" (any schema id)");
            result
        },
    }
}

/// Describes the database of a node.
pub fn describe_database(url: &str) -> (result: String)
    ensures
        result@ == database_words(url@),
{
    if same(url, "sqlite::memory:") || contains(url, "mode=memory") {
        "memory (data is not persisted)".to_owned()
    } else if contains(url, "sqlite:") {
        let mut result: String = "SQLite: ".to_owned();
        result.append(url);
        result
    } else {
        "PostgreSQL".to_owned()
    }
}

/// Describes something that is switched on or off.
fn describe_switch(on: bool) -> (result: String)
    ensures
        result@ == switch_words(on),
{
    if on {
        "enabled".to_owned()
    } else {
        "disabled".to_owned()
    }
}

/// Describes where the private key is kept.
fn describe_private_key(path: Option<&str>) -> (result: String)
    ensures
        is_private_key_words(path, result@),
{
    match path {
        Some(path) => blue(path),
        None => "ephemeral (not persisted)".to_owned(),
    }
}

/// Describes a configuration, given what is shown of the private key.
pub fn describe(private_key: String, config: &NodeConfiguration) -> (result: Summary)
    ensures
        result@ == summary_words(private_key@, *config),
{
    Summary {
        allow_schema_ids: describe_schema_ids(&config.allow_schema_ids),
        database_url: describe_database(config.database_url.as_str()),
        mdns: describe_switch(config.network.mdns),
        private_key,
        relay_mode: describe_switch(config.network.relay_mode),
    }
}

/// The lines of a summary.
pub fn format_summary(summary: &Summary) -> (result: String)
    ensures
        result@ == summary_lines(summary@),
{
    let mut result: String = "Allow schema IDs: ".to_owned();
    result.append(summary.allow_schema_ids.as_str());
    result.append("\nDatabase URL: ");
    result.append(summary.database_url.as_str());
    result.append("\nmDNS: ");
    result.append(summary.mdns.as_str());
    result.append("\nPrivate key: ");
    result.append(summary.private_key.as_str());
    result.append("\nRelay mode: ");
    result.append(summary.relay_mode.as_str());
    result.append("\n\nNode is ready!\n");
    result
}

/// The lines that are shown ahead of a summary.
pub fn format_header(
    title: &str,
    version: &str,
    config_file: &Option<String>,
    heading: &str,
) -> (result: String)
    ensures
        result@ == header_lines(title@, version@, optional_text(*config_file), heading@),
{
    let mut result: String = BANNER.to_owned();
    result.append("\n");
    result.append(title);
    result.append(" v");
    result.append(version);
    result.append("\n\n");
    let mut line: String = "No config file provided\n".to_owned();
    if let Some(path) = config_file {
        line = "Loading config file from ".to_owned();
        line.append(path.as_str());
        line.append("\n");
    }
    result.append(line.as_str());
    result.append("\n");
    result.append(heading);
    result.append("\n\n");
    result
}

/// The lines that are shown ahead of a node's configuration: the banner, the version, and which
/// configuration file is read, given the file's absolute path as it is shown.
pub fn print_header(version: &str, config_file_path: Option<&str>) -> (result: String)
    ensures
        exists|title: Seq<char>, file: Option<Seq<char>>, heading: Seq<char>|
            {
                &&& is_styled("aquadoggo"@, underline_style(), title)
                &&& match (config_file_path, file) {
                    (Some(path), Some(shown)) => is_styled(path@, blue_style(), shown),
                    (None, None) => true,
                    _ => false,
                }
                &&& is_styled("Configuration"@, underline_style(), heading)
                &&& result@ == #[trigger] header_lines(title, version@, file, heading)
            },
{
    let title: String = underline("aquadoggo");
    let heading: String = underline("Configuration");
    let config_file: Option<String> = match config_file_path {
        Some(path) => Some(blue(path)),
        None => None,
    };
    format_header(title.as_str(), version, &config_file, heading.as_str())
}

/// The lines that show a node's configuration, given the absolute path of the private key as it is
/// shown.
pub fn print_config(private_key_path: Option<&str>, config: &NodeConfiguration) -> (result: String)
    ensures
        exists|private_key: Seq<char>, shown: SummaryText|
            {
                &&& is_private_key_words(private_key_path, private_key)
                &&& #[trigger] is_blue(summary_words(private_key, *config), shown)
                &&& result@ == summary_lines(shown)
            },
{
    let plain: Summary = describe(describe_private_key(private_key_path), config);
    let shown: Summary = Summary {
        allow_schema_ids: blue(plain.allow_schema_ids.as_str()),
        database_url: blue(plain.database_url.as_str()),
        mdns: blue(plain.mdns.as_str()),
        private_key: blue(plain.private_key.as_str()),
        relay_mode: blue(plain.relay_mode.as_str()),
    };
    assert(is_blue(summary_words(plain.private_key@, *config), shown@));
    format_summary(&shown)
}

/// The address of a default database tells that it is kept in memory, and is shown so.
pub proof fn default_database_is_shown_as_memory(configuration: Configuration, number: u32)
    requires
        configuration.is_default(number),
    ensures
        database_words(configuration.database_url@) == "memory (data is not persisted)"@,
{
    let url = configuration.database_url@;
    let before = "sqlite://file:dbmem"@ + decimal(number as nat);
    let after = "?mode=memory&cache=shared"@;
    let part = "mode=memory"@;
    reveal_strlit("?mode=memory&cache=shared");
    reveal_strlit("mode=memory");
    assert(url =~= before + after);
    let start = before.len() + 1;
    assert(url.subrange(start as int, (start + part.len()) as int) =~= part);
    assert(has_part(url, part));
}

/// The address of a PostgreSQL database is not shown, nor is that of a database which is kept in
/// memory: two nodes that differ only in such an address show the same.
pub proof fn database_address_is_not_shown(left: Seq<char>, right: Seq<char>)
    requires
        is_memory_database(left) == is_memory_database(right),
        is_memory_database(left) || !has_part(left, "sqlite:"@) && !has_part(right, "sqlite:"@),
    ensures
        database_words(left) == database_words(right),
{
}

/// Where the line of each schema id starts in the text that shows them, and where the last one
/// ends.
proof fn lines_of_ids(ids: Seq<Seq<char>>) -> (starts: Seq<int>)
    requires
        ids.len() >= 1,
    ensures
        ({
            let text = schema_ids_words(Allowed::Members(ids));
            &&& starts.len() == ids.len() + 1
            &&& starts[0] == 0
            &&& starts[ids.len() as int] == text.len()
            &&& forall|i: int|
                0 <= i < ids.len() ==> {
                    &&& 0 <= #[trigger] starts[i] <= starts[i + 1] <= text.len()
                    &&& text.subrange(starts[i], starts[i + 1]) == "\n• "@ + ids[i]
                }
        }),
    decreases ids.len(),
{
    reveal_strlit("\n");
    reveal_strlit("• ");
    reveal_strlit("\n• ");
    let text = schema_ids_words(Allowed::Members(ids));
    let lines = bulleted(ids);
    if ids.len() == 1 {
        assert(text =~= "\n• "@ + ids[0]);
        let starts = seq![0, text.len() as int];
        assert(text.subrange(0, text.len() as int) =~= text);
        starts
    } else {
        let fewer = ids.drop_last();
        let shorter = schema_ids_words(Allowed::Members(fewer));
        assert(lines.drop_last() =~= bulleted(fewer));
        assert(text =~= shorter + ("\n• "@ + ids.last()));
        let earlier = lines_of_ids(fewer);
        let starts = earlier.push(text.len() as int);
        assert forall|i: int| 0 <= i < ids.len() implies {
            &&& 0 <= #[trigger] starts[i] <= starts[i + 1] <= text.len()
            &&& text.subrange(starts[i], starts[i + 1]) == "\n• "@ + ids[i]
        } by {
            if i < fewer.len() {
                assert(0 <= earlier[i] <= earlier[i + 1] <= shorter.len());
                assert(starts[i] == earlier[i] && starts[i + 1] == earlier[i + 1]);
                assert(text.subrange(starts[i], starts[i + 1]) =~= shorter.subrange(
                    earlier[i],
                    earlier[i + 1],
                ));
                assert(ids[i] == fewer[i]);
            } else {
                assert(starts[i] == shorter.len());
                assert(text.subrange(starts[i], starts[i + 1]) =~= "\n• "@ + ids[i]);
            }
        }
        starts
    }
}

/// Allowed schema ids are shown one below the other, in order: the text falls into as many lines as
/// there are ids, and each is a line break, a bullet and the text of its id.
pub proof fn every_schema_id_has_a_line(list: &AllowList<SchemaId>, result: String)
    requires
        call_ensures(describe_schema_ids, (list,), result),
    ensures
        *list matches AllowList::Members(ids) ==> ids.len() >= 1 ==> exists|starts: Seq<int>|
            {
                &&& #[trigger] starts.len() == ids.len() + 1
                &&& starts[0] == 0
                &&& starts[ids.len() as int] == result@.len()
                &&& forall|i: int|
                    0 <= i < ids.len() ==> {
                        &&& 0 <= #[trigger] starts[i] <= starts[i + 1] <= result@.len()
                        &&& result@.subrange(starts[i], starts[i + 1]) == "\n• "@ + ids@[i]@
                    }
            },
{
    if let AllowList::Members(ids) = *list {
        if ids.len() >= 1 {
            let members = list@->Members_0;
            assert(members.len() == ids.len());
            assert(forall|i: int| 0 <= i < ids.len() ==> #[trigger] members[i] == ids@[i]@);
            let starts = lines_of_ids(members);
            assert forall|i: int| 0 <= i < ids.len() implies {
                &&& 0 <= #[trigger] starts[i] <= starts[i + 1] <= result@.len()
                &&& result@.subrange(starts[i], starts[i + 1]) == "\n• "@ + ids@[i]@
            } by {
                assert(members[i] == ids@[i]@);
            }
            assert(starts.len() == ids.len() + 1);
        }
    }
}

/// Each schema id occurs in the text that shows them, behind a bullet on a new line.
pub proof fn every_schema_id_is_shown(list: &AllowList<SchemaId>, result: String, i: int)
    requires
        call_ensures(describe_schema_ids, (list,), result),
        *list is Members,
        0 <= i < list->Members_0.len(),
    ensures
        exists|before: Seq<char>, after: Seq<char>|
            result@ == #[trigger] (before + ("\n• "@ + list->Members_0@[i]@) + after),
{
    let ids = list->Members_0;
    let members = list@->Members_0;
    assert(members[i] == ids@[i]@);
    let starts = lines_of_ids(members);
    assert(0 <= starts[i] <= starts[i + 1] <= result@.len());
    let before = result@.subrange(0, starts[i]);
    let after = result@.subrange(starts[i + 1], result@.len() as int);
    assert(result@ =~= before + result@.subrange(starts[i], starts[i + 1]) + after);
    assert(result@ == before + ("\n• "@ + ids@[i]@) + after);
}

/// That replication is disabled is shown exactly when the list has no members, and that any schema
/// is allowed exactly when it is the wildcard.
pub proof fn only_the_empty_list_is_shown_as_none(list: &AllowList<SchemaId>, result: String)
    requires
        call_ensures(describe_schema_ids, (list,), result),
    ensures
        result@ == "none (disable replication)"@ <==> *list is Members && list->Members_0.len()
            == 0,
        result@ == "* (any schema id)"@ <==> *list is Wildcard,
{
    reveal_strlit("none (disable replication)");
    reveal_strlit("* (any schema id)");
    reveal_strlit("*");
    reveal_strlit(" (any schema id)");
    reveal_strlit("\n");
    match *list {
        AllowList::Wildcard => {
            assert(result@ =~= "* (any schema id)"@);
            assert(result@[0] == '*');
        },
        AllowList::Members(ids) => {
            assert(list@->Members_0.len() == ids.len());
            if ids.len() == 0 {
                assert(result@[0] == 'n');
            } else {
                assert(result@[0] == '\n');
            }
        },
    }
}

/// One schema id more is shown by one line more, behind those of the others.
pub proof fn further_schema_id_is_shown_below(
    list: &AllowList<SchemaId>,
    longer: &AllowList<SchemaId>,
    left: String,
    right: String,
)
    requires
        call_ensures(describe_schema_ids, (list,), left),
        call_ensures(describe_schema_ids, (longer,), right),
        *list is Members,
        *longer is Members,
        longer->Members_0.len() == list->Members_0.len() + 1,
        forall|i: int|
            0 <= i < list->Members_0.len() ==> longer->Members_0@[i]@ == (
            #[trigger] list->Members_0@[i])@,
    ensures
        ({
            let last = longer->Members_0@[list->Members_0.len() as int]@;
            if list->Members_0.len() == 0 {
                right@ == "\n• "@ + last
            } else {
                right@ == left@ + "\n• "@ + last
            }
        }),
{
    reveal_strlit("\n");
    reveal_strlit("• ");
    reveal_strlit("\n• ");
    let ids = list@->Members_0;
    let more = longer@->Members_0;
    assert(ids.len() == list->Members_0.len());
    assert(more.len() == longer->Members_0.len());
    assert forall|i: int| 0 <= i < ids.len() implies ids[i] == more[i] by {
        assert(ids[i] == list->Members_0@[i]@);
        assert(more[i] == longer->Members_0@[i]@);
    }
    assert(more.drop_last() =~= ids);
    assert(more.last() == longer->Members_0@[ids.len() as int]@);
    if ids.len() > 0 {
        assert(bulleted(more).drop_last() =~= bulleted(ids));
        assert(right@ =~= left@ + "\n• "@ + more.last());
    } else {
        assert(right@ =~= "\n• "@ + more.last());
    }
}

/// A database is shown as one in memory exactly when its address is the one for that or says so
/// anywhere in it. Of all others, exactly those are shown with their address that have the scheme
/// of SQLite anywhere in it.
pub proof fn databases_are_told_apart(url: &str, result: String)
    requires
        call_ensures(describe_database, (url,), result),
    ensures
        ({
            let in_memory = {
                ||| url@ == "sqlite::memory:"@
                ||| exists|before: Seq<char>, after: Seq<char>|
                    url@ == #[trigger] (before + "mode=memory"@ + after)
            };
            let sqlite = exists|before: Seq<char>, after: Seq<char>|
                url@ == #[trigger] (before + "sqlite:"@ + after);
            &&& result@ == "memory (data is not persisted)"@ <==> in_memory
            &&& result@ == "SQLite: "@ + url@ <==> !in_memory && sqlite
            &&& result@ == "PostgreSQL"@ <==> !in_memory && !sqlite
        }),
{
    part_has_surroundings(url@, "mode=memory"@);
    part_has_surroundings(url@, "sqlite:"@);
    reveal_strlit("memory (data is not persisted)");
    reveal_strlit("SQLite: ");
    reveal_strlit("PostgreSQL");
    assert(("SQLite: "@ + url@)[0] == 'S');
    assert("memory (data is not persisted)"@[0] == 'm');
    assert("PostgreSQL"@[0] == 'P');
}

/// A summary describes the schema ids, the database and both switches of the node, each by its own
/// setting, and has the private key as it was given.
pub proof fn summary_describes_each_setting(
    private_key: String,
    config: &NodeConfiguration,
    url: &str,
    schema_ids: String,
    database: String,
    result: Summary,
)
    requires
        call_ensures(describe_schema_ids, (&config.allow_schema_ids,), schema_ids),
        url@ == config.database_url@,
        call_ensures(describe_database, (url,), database),
        call_ensures(describe, (private_key, config), result),
    ensures
        result.allow_schema_ids@ == schema_ids@,
        result.database_url@ == database@,
        config.network.mdns ==> result.mdns@ == "enabled"@,
        !config.network.mdns ==> result.mdns@ == "disabled"@,
        result.private_key@ == private_key@,
        config.network.relay_mode ==> result.relay_mode@ == "enabled"@,
        !config.network.relay_mode ==> result.relay_mode@ == "disabled"@,
{
    assert(result@.allow_schema_ids == schema_ids@);
}

/// A summary is shown with one line for each of its texts, each behind its own label.
pub proof fn every_text_has_its_label(summary: &Summary, result: String)
    requires
        call_ensures(format_summary, (summary,), result),
    ensures
        result@ == "Allow schema IDs: "@ + summary.allow_schema_ids@ + "\nDatabase URL: "@
            + summary.database_url@ + "\nmDNS: "@ + summary.mdns@ + "\nPrivate key: "@
            + summary.private_key@ + "\nRelay mode: "@ + summary.relay_mode@
            + "\n\nNode is ready!\n"@,
{
}

/// The header shows the banner, then title and version, then the configuration file or that there
/// is none, then the heading.
pub proof fn header_shows_version_and_file(
    title: &str,
    version: &str,
    path: String,
    heading: &str,
    with_file: String,
    without_file: String,
)
    requires
        call_ensures(format_header, (title, version, &Some(path), heading), with_file),
        call_ensures(format_header, (title, version, &None::<String>, heading), without_file),
    ensures
        with_file@ == BANNER@ + "\n"@ + title@ + " v"@ + version@ + "\n\n"@ + (
        "Loading config file from "@ + path@ + "\n"@) + "\n"@ + heading@ + "\n\n"@,
        without_file@ == BANNER@ + "\n"@ + title@ + " v"@ + version@ + "\n\n"@
            + "No config file provided\n"@ + "\n"@ + heading@ + "\n\n"@,
{
}

/// The header of a node has its name and the heading underlined and the path of the file in blue,
/// as far as the terminal takes colours.
pub proof fn header_of_a_node(
    version: &str,
    path: &str,
    with_file: String,
    without_file: String,
)
    requires
        call_ensures(print_header, (version, Some(path)), with_file),
        call_ensures(print_header, (version, None), without_file),
    ensures
        exists|title: Seq<char>, shown: Seq<char>, heading: Seq<char>|
            {
                &&& #[trigger] is_styled("aquadoggo"@, underline_style(), title)
                &&& #[trigger] is_styled(path@, blue_style(), shown)
                &&& #[trigger] is_styled("Configuration"@, underline_style(), heading)
                &&& with_file@ == BANNER@ + "\n"@ + title + " v"@ + version@ + "\n\n"@ + (
                "Loading config file from "@ + shown + "\n"@) + "\n"@ + heading + "\n\n"@
            },
        exists|title: Seq<char>, heading: Seq<char>|
            {
                &&& #[trigger] is_styled("aquadoggo"@, underline_style(), title)
                &&& #[trigger] is_styled("Configuration"@, underline_style(), heading)
                &&& without_file@ == BANNER@ + "\n"@ + title + " v"@ + version@ + "\n\n"@
                    + "No config file provided\n"@ + "\n"@ + heading + "\n\n"@
            },
{
}

/// A node's configuration is shown as its summary is, with each text in blue as far as the terminal
/// takes colours. The private key is shown by its path, or else as one that is not kept.
pub proof fn configuration_of_a_node(
    private_key_path: Option<&str>,
    config: &NodeConfiguration,
    any_key: String,
    summary: Summary,
    result: String,
)
    requires
        call_ensures(describe, (any_key, config), summary),
        call_ensures(print_config, (private_key_path, config), result),
    ensures
        exists|
            key: Seq<char>,
            schema_ids: Seq<char>,
            database: Seq<char>,
            mdns: Seq<char>,
            private_key: Seq<char>,
            relay_mode: Seq<char>,
        |
            {
                &&& match private_key_path {
                    Some(path) => is_styled(path@, blue_style(), key),
                    None => key == "ephemeral (not persisted)"@,
                }
                &&& #[trigger] is_styled(summary.allow_schema_ids@, blue_style(), schema_ids)
                &&& #[trigger] is_styled(summary.database_url@, blue_style(), database)
                &&& #[trigger] is_styled(summary.mdns@, blue_style(), mdns)
                &&& #[trigger] is_styled(key, blue_style(), private_key)
                &&& #[trigger] is_styled(summary.relay_mode@, blue_style(), relay_mode)
                &&& result@ == "Allow schema IDs: "@ + schema_ids + "\nDatabase URL: "@ + database
                    + "\nmDNS: "@ + mdns + "\nPrivate key: "@ + private_key + "\nRelay mode: "@
                    + relay_mode + "\n\nNode is ready!\n"@
            },
{
    let (key, shown) = choose|key: Seq<char>, shown: SummaryText|
        {
            &&& is_private_key_words(private_key_path, key)
            &&& #[trigger] is_blue(summary_words(key, *config), shown)
            &&& result@ == summary_lines(shown)
        };
    assert(summary@ == summary_words(any_key@, *config));
    assert(summary@.allow_schema_ids == summary.allow_schema_ids@);
    assert(is_styled(summary.allow_schema_ids@, blue_style(), shown.allow_schema_ids));
    assert(is_styled(summary.database_url@, blue_style(), shown.database_url));
    assert(is_styled(summary.mdns@, blue_style(), shown.mdns));
    assert(is_styled(key, blue_style(), shown.private_key));
    assert(is_styled(summary.relay_mode@, blue_style(), shown.relay_mode));
}

} // verus!
