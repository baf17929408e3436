//! The calls into other crates, each behind a function that says what is relied on.
use crate::value::{is_argument, Entries, Value};
use colored::Colorize;
use figment::providers::{Format, Serialized, Toml};
use figment::Figment;
use libp2p::PeerId;
use p2panda_rs::schema::SchemaId;
use vstd::prelude::*;

verus! {

/// The error of `p2panda_rs::schema::SchemaId::from_str`.
#[verifier::external_type_specification]
#[verifier::external_body]
pub struct ExSchemaIdError(p2panda_rs::schema::error::SchemaIdError);

/// The error of `libp2p::PeerId::from_str`.
#[verifier::external_type_specification]
#[verifier::external_body]
pub struct ExParseError(libp2p::identity::ParseError);

/// A set of settings that figment puts together from several sources.
#[verifier::external_type_specification]
#[verifier::external_body]
pub struct ExFigment(figment::Figment);

/// The text of the schema id that `p2panda_rs::schema::SchemaId::from_str` reads from `text`, as
/// the id's `Display` writes it; `None` where it reads none.
pub uninterp spec fn parsed_schema_id(text: Seq<char>) -> Option<Seq<char>>;

/// The text of the peer id that `libp2p::PeerId::from_str` reads from `text`, as the id's
/// `Display` writes it; `None` where it reads none.
pub uninterp spec fn parsed_peer_id(text: Seq<char>) -> Option<Seq<char>>;

/// The top-level settings that `figment` holds in its default profile. Strings, whole numbers,
/// booleans, lists of strings and empty values are told apart; every other value is
/// `Entry::Other`.
pub uninterp spec fn figment_entries(figment: Figment) -> Entries;

/// Whether one of the sources that were merged into `figment` could not be read.
pub uninterp spec fn figment_failed(figment: Figment) -> bool;

/// The top-level settings of the TOML document `text`; `None` where it is no TOML document.
pub uninterp spec fn toml_entries(text: Seq<char>) -> Option<Entries>;

/// The escape sequence that ends a style.
pub open spec fn reset() -> Seq<char> {
    seq!['\u{1b}', '[', '0', 'm']
}

/// The escape sequence that starts blue text.
pub open spec fn blue_style() -> Seq<char> {
    seq!['\u{1b}', '[', '3', '4', 'm']
}

/// The escape sequence that starts underlined text.
pub open spec fn underline_style() -> Seq<char> {
    seq!['\u{1b}', '[', '4', 'm']
}

/// `text` with `style` taken up again after each reset in it.
pub open spec fn restyled(text: Seq<char>, style: Seq<char>) -> Seq<char>
    decreases text.len(),
{
    if text.len() == 0 {
        text
    } else if reset().is_prefix_of(text) {
        reset() + style + restyled(text.skip(reset().len() as int), style)
    } else {
        seq![text[0]] + restyled(text.skip(1), style)
    }
}

/// What `text` may look like in `style`: unchanged where the terminal takes no colours, and
/// between the style's escape sequence and a reset where it does.
pub open spec fn is_styled(text: Seq<char>, style: Seq<char>, result: Seq<char>) -> bool {
    ||| result == text
    ||| result == style + restyled(text, style) + reset()
}

/// Draws a number with `rand::random`.
///
/// The number comes from the thread's random number generator, so nothing is claimed of it.
#[verifier::external_body]
pub(crate) fn random_number() -> u32 {
    rand::random::<u32>()
}

/// Writes `text` in blue with `colored::Colorize::blue`.
///
/// Whether colours are used at all depends on the environment, on the terminal and on
/// `colored`'s own switch, which is taken to stay as it is during the call.
#[verifier::external_body]
pub(crate) fn blue(text: &str) -> (result: String)
    ensures
        is_styled(text@, blue_style(), result@),
{
    text.blue().to_string()
}

/// Underlines `text` with `colored::Colorize::underline`, in the same way as [`blue`].
#[verifier::external_body]
pub(crate) fn underline(text: &str) -> (result: String)
    ensures
        is_styled(text@, underline_style(), result@),
{
    text.underline().to_string()
}

/// Reads a schema id with `p2panda_rs::schema::SchemaId::from_str` and hands back its text.
///
/// Reading that text gives the same id again.
#[verifier::external_body]
pub(crate) fn read_schema_id(text: &str) -> (result: Result<
    String,
    p2panda_rs::schema::error::SchemaIdError,
>)
    ensures
        result is Ok <==> parsed_schema_id(text@) is Some,
        result matches Ok(id) ==> parsed_schema_id(text@) == Some(id@),
        result matches Ok(id) ==> parsed_schema_id(id@) == Some(id@),
{
    let id = text.parse::<SchemaId>()?;
    Ok(id.to_string())
}

/// Reads a peer id with `libp2p::PeerId::from_str` and hands back its text.
///
/// Reading that text gives the same id again.
#[verifier::external_body]
pub(crate) fn read_peer_id(text: &str) -> (result: Result<String, libp2p::identity::ParseError>)
    ensures
        result is Ok <==> parsed_peer_id(text@) is Some,
        result matches Ok(id) ==> parsed_peer_id(text@) == Some(id@),
        result matches Ok(id) ==> parsed_peer_id(id@) == Some(id@),
{
    let id = text.parse::<PeerId>()?;
    Ok(id.to_string())
}

/// Starts a set without any settings, with `Figment::new`.
#[verifier::external_body]
pub(crate) fn no_settings() -> (result: Figment)
    ensures
        !figment_failed(result),
        figment_entries(result) == Entries::empty(),
{
    Figment::new()
}

/// Makes a set of one setting from `Serialized::default`, figment's provider of a single value.
#[verifier::external_body]
pub(crate) fn one_setting(name: &str, value: &Value) -> (result: Figment)
    requires
        is_argument(name@),
    ensures
        !figment_failed(result),
        figment_entries(result) == Entries::empty().insert(name@, value@),
{
    match value {
        Value::Empty => Figment::from(Serialized::default(name, None::<bool>)),
        Value::Text(text) => Figment::from(Serialized::default(name, text)),
        Value::Number(number) => Figment::from(Serialized::default(name, number)),
        Value::Flag(flag) => Figment::from(Serialized::default(name, flag)),
        Value::Texts(list) => Figment::from(Serialized::default(name, list)),
    }
}

/// Makes a set of the settings in a TOML document, with figment's provider `Toml::string`.
#[verifier::external_body]
pub(crate) fn toml_settings(text: &str) -> (result: Figment)
    ensures
        figment_failed(result) <==> toml_entries(text@) is None,
        toml_entries(text@) matches Some(entries) ==> figment_entries(result) == entries,
{
    Figment::from(Toml::string(text))
}

/// Merges one set of settings into another with `Figment::merge`.
///
/// A setting that both sets name takes the value of `layer`. Once a source could not be read, no
/// settings come out of the set any more.
#[verifier::external_body]
pub(crate) fn merge(base: Figment, layer: Figment) -> (result: Figment)
    ensures
        figment_failed(result) <==> figment_failed(base) || figment_failed(layer),
        !figment_failed(result) ==> figment_entries(result) == figment_entries(
            base,
        ).union_prefer_right(figment_entries(layer)),
{
    base.merge(layer)
}

/// The escape sequences of the styles.
pub proof fn styles_are_these()
    ensures
        reset() == "\u{1b}[0m"@,
        blue_style() == "\u{1b}[34m"@,
        underline_style() == "\u{1b}[4m"@,
{
    reveal_strlit("\u{1b}[0m");
    reveal_strlit("\u{1b}[34m");
    reveal_strlit("\u{1b}[4m");
    assert(reset() =~= "\u{1b}[0m"@);
    assert(blue_style() =~= "\u{1b}[34m"@);
    assert(underline_style() =~= "\u{1b}[4m"@);
}

/// A text without escape sequences stays as it is, or is put between the escape sequences of the
/// style and of a reset.
pub proof fn plain_text_is_wrapped(text: Seq<char>, style: Seq<char>, result: Seq<char>)
    requires
        !text.contains('\u{1b}'),
        is_styled(text, style, result),
    ensures
        result == text || result == style + text + "\u{1b}[0m"@,
{
    styles_are_these();
    plain_text_is_not_restyled(text, style);
}

/// A text without escape sequences holds no reset to take a style up after.
proof fn plain_text_is_not_restyled(text: Seq<char>, style: Seq<char>)
    requires
        !text.contains('\u{1b}'),
    ensures
        restyled(text, style) == text,
    decreases text.len(),
{
    if text.len() > 0 {
        assert(text.contains(text[0]));
        assert(!reset().is_prefix_of(text)) by {
            assert(reset()[0] == '\u{1b}');
        }
        assert forall|c: char| #[trigger] text.skip(1).contains(c) implies text.contains(c) by {
            let i = choose|i: int| 0 <= i < text.skip(1).len() && text.skip(1)[i] == c;
            assert(text[i + 1] == c);
        }
        plain_text_is_not_restyled(text.skip(1), style);
        assert(text =~= seq![text[0]] + text.skip(1));
    }
}

/// The style is taken up again after a reset in the text, and what comes behind the reset is
/// written as it would be on its own.
pub proof fn style_is_taken_up_again(before: Seq<char>, after: Seq<char>, style: Seq<char>)
    requires
        !before.contains('\u{1b}'),
    ensures
        restyled(before + "\u{1b}[0m"@ + after, style) == before + "\u{1b}[0m"@ + style
            + restyled(after, style),
    decreases before.len(),
{
    styles_are_these();
    let text = before + reset() + after;
    if before.len() == 0 {
        assert(text.skip(reset().len() as int) =~= after);
        assert(reset() =~= text.subrange(0, reset().len() as int));
        assert(reset().is_prefix_of(text));
        assert(before + reset() + style + restyled(after, style) =~= reset() + style + restyled(
            after,
            style,
        ));
    } else {
        assert(before.contains(before[0]));
        assert(text[0] == before[0]);
        assert(!reset().is_prefix_of(text)) by {
            assert(reset()[0] == '\u{1b}');
        }
        assert forall|c: char| #[trigger] before.skip(1).contains(c) implies before.contains(
            c,
        ) by {
            let i = choose|i: int| 0 <= i < before.skip(1).len() && before.skip(1)[i] == c;
            assert(before[i + 1] == c);
        }
        style_is_taken_up_again(before.skip(1), after, style);
        assert(text.skip(1) =~= before.skip(1) + reset() + after);
        assert(seq![before[0]] + (before.skip(1) + reset() + style + restyled(after, style))
            =~= before + reset() + style + restyled(after, style));
    }
}

} // verus!
