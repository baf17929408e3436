//! Lists of what a node allows: either everything, or the members of a list.
use crate::text::{copy_texts, equal_texts, same, texts};
use crate::value::{Entry, Value};
use vstd::pervasive::unreached;
use vstd::prelude::*;

verus! {

/// The text that stands for "everything" in a list of what is allowed.
pub const WILDCARD: &'static str = "*";

/// Lists of allowed things, as contracts speak of them.
pub enum Allowed<T> {
    Wildcard,
    Members(Seq<T>),
}

/// What a node allows, once every member of the list is known to be valid.
#[derive(Clone, Debug, PartialEq, Eq)]
pub enum AllowList<T> {
    Wildcard,
    Members(Vec<T>),
}

impl<T: View> View for AllowList<T> {
    type V = Allowed<T::V>;

    open spec fn view(&self) -> Allowed<T::V> {
        match self {
            AllowList::Wildcard => Allowed::Wildcard,
            AllowList::Members(members) => Allowed::Members(
                Seq::new(members@.len(), |i: int| members@[i]@),
            ),
        }
    }
}

/// Either the wildcard "*" or a list of texts.
///
/// The texts are not checked yet and need to be validated in a succeeding step.
#[derive(Clone, Debug, PartialEq, Eq)]
pub enum UncheckedAllowList {
    Wildcard,
    Members(Vec<String>),
}

impl View for UncheckedAllowList {
    type V = Allowed<Seq<char>>;

    open spec fn view(&self) -> Allowed<Seq<char>> {
        match self {
            UncheckedAllowList::Wildcard => Allowed::Wildcard,
            UncheckedAllowList::Members(list) => Allowed::Members(texts(list@)),
        }
    }
}

/// Why a value is no allow list.
#[derive(Clone, Copy, Debug, PartialEq, Eq, Structural)]
pub enum AllowListError {
    /// The value is a text, but not the wildcard.
    NotTheWildcard,
    /// The value is neither a text nor a list of texts.
    UnexpectedValue,
}

impl AllowListError {
    /// The error in words.
    pub open spec fn words(self) -> Seq<char> {
        match self {
            AllowListError::NotTheWildcard => "only wildcard strings allowed"@,
            AllowListError::UnexpectedValue => {
                "data did not match any variant of untagged enum Value"@
            },
        }
    }

    /// The error in words.
    pub fn message(self) -> (result: &'static str)
        ensures
            result@ == self.words(),
    {
        match self {
            AllowListError::NotTheWildcard => "only wildcard strings allowed",
            AllowListError::UnexpectedValue => {
                "data did not match any variant of untagged enum Value"
            },
        }
    }
}

/// The value that a source of settings holds for an allow list.
pub open spec fn list_entry(list: Allowed<Seq<char>>) -> Entry {
    match list {
        Allowed::Wildcard => Entry::Text(WILDCARD@),
        Allowed::Members(members) => Entry::Texts(members),
    }
}

/// The allow list that a value stands for, if it stands for one.
pub open spec fn entry_list(entry: Entry) -> Result<Allowed<Seq<char>>, AllowListError> {
    match entry {
        Entry::Text(text) if text == WILDCARD@ => Ok(Allowed::Wildcard),
        Entry::Text(_) => Err(AllowListError::NotTheWildcard),
        Entry::Texts(members) => Ok(Allowed::Members(members)),
        _ => Err(AllowListError::UnexpectedValue),
    }
}

/// The value that a list of command line arguments is handed on as: a lone wildcard as a text,
/// a lone empty argument as the empty list, and any other list as it is.
pub open spec fn argument_entry(list: Seq<Seq<char>>) -> Entry {
    if list == seq![WILDCARD@] {
        Entry::Text(WILDCARD@)
    } else if list == seq![Seq::<char>::empty()] {
        Entry::Texts(Seq::empty())
    } else {
        Entry::Texts(list)
    }
}

impl UncheckedAllowList {
    /// The value that a source of settings holds for this list.
    pub fn serialize(&self) -> (result: Value)
        ensures
            result@ == list_entry(self@),
    {
        match self {
            UncheckedAllowList::Wildcard => Value::Text(WILDCARD.to_owned()),
            UncheckedAllowList::Members(list) => Value::Texts(copy_texts(list)),
        }
    }

    /// The list that `value` stands for. The wildcard is the only text that does, and a list of
    /// texts is taken as it is.
    pub fn deserialize(value: Value) -> (result: Result<UncheckedAllowList, AllowListError>)
        ensures
            match result {
                Ok(list) => entry_list(value@) == Ok::<Allowed<Seq<char>>, AllowListError>(list@),
                Err(error) => entry_list(value@) == Err::<Allowed<Seq<char>>, AllowListError>(
                    error,
                ),
            },
    {
        match value {
            Value::Text(text) => {
                if same(text.as_str(), WILDCARD) {
                    Ok(UncheckedAllowList::Wildcard)
                } else {
                    Err(AllowListError::NotTheWildcard)
                }
            },
            Value::Texts(list) => Ok(UncheckedAllowList::Members(list)),
            _ => Err(AllowListError::UnexpectedValue),
        }
    }
}

/// Hands a list of command line arguments on as a value.
///
/// The command line turns a wildcard into a list of one argument, `["*"]`, where the other
/// sources write just `"*"`. An empty argument gives the empty list, and not the list of one
/// empty text. An option that was not given is not handed on at all.
pub fn serialize_with_wildcard(list: &Option<Vec<String>>) -> (result: Value)
    requires
        list is Some,
    ensures
        result@ == argument_entry(texts(list->0@)),
{
    match list {
        Some(list) => {
            if list.len() == 1 && same(list[0].as_str(), WILDCARD) {
                assert(texts(list@) =~= seq![WILDCARD@]);
                Value::Text(WILDCARD.to_owned())
            } else if list.len() == 1 && list[0].as_str().is_empty() {
                assert(list@[0]@ =~= Seq::<char>::empty());
                assert(texts(list@) =~= seq![Seq::<char>::empty()]);
                assert(texts(list@)[0] != seq![WILDCARD@][0]);
                let none: Vec<String> = Vec::new();
                assert(texts(none@) =~= Seq::<Seq<char>>::empty());
                Value::Texts(none)
            } else {
                proof {
                    if texts(list@).len() == 1 {
                        assert(texts(list@)[0] == list@[0]@);
                        assert(seq![WILDCARD@][0] == WILDCARD@);
                        assert(seq![Seq::<char>::empty()][0] =~= Seq::<char>::empty());
                    }
                }
                Value::Texts(copy_texts(list))
            }
        },
        None => unreached(),
    }
}

/// Reading back what was written for an allow list gives the same list.
pub proof fn allow_list_is_read_back(list: Allowed<Seq<char>>)
    ensures
        entry_list(list_entry(list)) == Ok::<Allowed<Seq<char>>, AllowListError>(list),
{
}

/// Only one value writes a given allow list: what is read as a list is written as it was.
pub proof fn allow_list_is_written_back(entry: Entry)
    ensures
        entry_list(entry) matches Ok(list) ==> list_entry(list) == entry,
{
}

/// What a list of command line arguments allows: everything where it is a lone `*`, nothing where
/// it is a lone empty argument, and otherwise what it names.
pub open spec fn argument_list(list: Seq<Seq<char>>) -> Allowed<Seq<char>> {
    if list == seq![WILDCARD@] {
        Allowed::Wildcard
    } else if list == seq![Seq::<char>::empty()] {
        Allowed::Members(Seq::empty())
    } else {
        Allowed::Members(list)
    }
}

/// Whatever list of arguments is given on the command line, it is read as an allow list.
pub proof fn arguments_are_read_as_list(list: Seq<Seq<char>>)
    ensures
        entry_list(argument_entry(list)) == Ok::<_, AllowListError>(argument_list(list)),
{
}

/// Contracts speak of an unchecked list by its texts, and of a checked one by its members.
pub proof fn list_is_its_members<T: View>(unchecked: UncheckedAllowList, checked: AllowList<T>)
    ensures
        match unchecked {
            UncheckedAllowList::Wildcard => unchecked@ is Wildcard,
            UncheckedAllowList::Members(list) => {
                &&& unchecked@ is Members
                &&& unchecked@->Members_0.len() == list.len()
                &&& forall|i: int|
                    0 <= i < list.len() ==> #[trigger] unchecked@->Members_0[i] == list@[i]@
            },
        },
        match checked {
            AllowList::Wildcard => checked@ is Wildcard,
            AllowList::Members(list) => {
                &&& checked@ is Members
                &&& checked@->Members_0.len() == list.len()
                &&& forall|i: int|
                    0 <= i < list.len() ==> #[trigger] checked@->Members_0[i] == list@[i]@
            },
        },
{
}

/// The wildcard is written as the text `*`, and a list as the list of all its texts.
pub proof fn list_is_written_whole(list: &UncheckedAllowList, result: Value)
    requires
        call_ensures(UncheckedAllowList::serialize, (list,), result),
    ensures
        match *list {
            UncheckedAllowList::Wildcard => result is Text && result->Text_0@ == "*"@,
            UncheckedAllowList::Members(members) => {
                &&& result is Texts
                &&& result->Texts_0.len() == members.len()
                &&& forall|i: int|
                    0 <= i < members.len() ==> (#[trigger] result->Texts_0@[i])@ == members@[i]@
            },
        },
{
    if let UncheckedAllowList::Members(members) = *list {
        assert(result is Texts);
        equal_texts(result->Texts_0@, members@);
    }
}

/// Of all texts `*` alone is read as a list, and every list of texts is read whole. Nothing else
/// is read.
pub proof fn only_star_and_lists_are_read(
    value: Value,
    result: Result<UncheckedAllowList, AllowListError>,
)
    requires
        call_ensures(UncheckedAllowList::deserialize, (value,), result),
    ensures
        match value {
            Value::Text(text) => {
                &&& text@ == "*"@ ==> result is Ok && result->Ok_0 is Wildcard
                &&& text@ != "*"@ ==> result is Err && result->Err_0 is NotTheWildcard
            },
            Value::Texts(list) => {
                &&& result is Ok
                &&& result->Ok_0 is Members
                &&& result->Ok_0->Members_0.len() == list.len()
                &&& forall|i: int|
                    0 <= i < list.len() ==> (#[trigger] result->Ok_0->Members_0@[i])@ == list@[i]@
            },
            _ => result is Err && result->Err_0 is UnexpectedValue,
        },
{
    if let Value::Texts(list) = value {
        assert(result is Ok);
        assert(result->Ok_0 is Members);
        equal_texts(result->Ok_0->Members_0@, list@);
    }
}

/// What is written for a list and read again is that list, member by member.
pub proof fn written_list_is_read_again(
    list: &UncheckedAllowList,
    value: Value,
    result: Result<UncheckedAllowList, AllowListError>,
)
    requires
        call_ensures(UncheckedAllowList::serialize, (list,), value),
        call_ensures(UncheckedAllowList::deserialize, (value,), result),
    ensures
        result is Ok,
        match *list {
            UncheckedAllowList::Wildcard => result->Ok_0 is Wildcard,
            UncheckedAllowList::Members(members) => {
                &&& result->Ok_0 is Members
                &&& result->Ok_0->Members_0.len() == members.len()
                &&& forall|i: int|
                    0 <= i < members.len() ==> (#[trigger] result->Ok_0->Members_0@[i])@
                        == members@[i]@
            },
        },
{
    list_is_written_whole(list, value);
    only_star_and_lists_are_read(value, result);
}

/// A lone argument `*` is handed on as that text, a lone empty argument as the empty list, and
/// arguments of any other number or content as the list of all of them.
pub proof fn arguments_are_handed_on_whole(list: Vec<String>, result: Value)
    requires
        call_ensures(serialize_with_wildcard, (&Some(list),), result),
    ensures
        list.len() == 1 && list@[0]@ == "*"@ ==> result is Text && result->Text_0@ == "*"@,
        list.len() == 1 && list@[0]@.len() == 0 ==> result is Texts && result->Texts_0.len() == 0,
        list.len() != 1 || (list@[0]@ != "*"@ && list@[0]@.len() != 0) ==> {
            &&& result is Texts
            &&& result->Texts_0.len() == list.len()
            &&& forall|i: int|
                0 <= i < list.len() ==> (#[trigger] result->Texts_0@[i])@ == list@[i]@
        },
{
    reveal_strlit("*");
    let all = texts(list@);
    if list.len() == 1 && list@[0]@ == "*"@ {
        assert(all =~= seq!["*"@]);
    } else if list.len() == 1 && list@[0]@.len() == 0 {
        assert(list@[0]@ =~= Seq::<char>::empty());
        assert(all =~= seq![Seq::<char>::empty()]);
        assert(all[0] != seq!["*"@][0]);
        assert(texts(result->Texts_0@).len() == 0);
    } else {
        assert(all.len() == list.len());
        if list.len() == 1 {
            assert(all[0] == list@[0]@);
            assert(seq!["*"@][0] == "*"@);
            assert(seq![Seq::<char>::empty()][0].len() == 0);
        } else {
            assert(seq!["*"@].len() == 1);
            assert(seq![Seq::<char>::empty()].len() == 1);
        }
        assert(result is Texts);
        equal_texts(result->Texts_0@, list@);
    }
}

/// A text that is not the wildcard is reported as such, and so is a value of another kind.
pub proof fn list_errors_are_told_apart(error: AllowListError, result: &str)
    requires
        call_ensures(AllowListError::message, (error,), result),
    ensures
        error is NotTheWildcard ==> result@ == "only wildcard strings allowed"@,
        error is UnexpectedValue ==> result@
            == "data did not match any variant of untagged enum Value"@,
{
}

} // verus!
