//! The identifiers that a configuration lists, and how a list of them is checked.
use crate::allow_list::{AllowList, Allowed, UncheckedAllowList};
use crate::outside::{parsed_peer_id, parsed_schema_id, read_peer_id, read_schema_id};
use crate::text::texts;
use vstd::prelude::*;

verus! {

/// Identifies a schema, by the text that p2panda writes the id as.
#[derive(Debug, PartialEq, Eq)]
pub struct SchemaId {
    text: String,
}

/// Identifies a node in the network, by the text that libp2p writes the id as.
#[derive(Debug, PartialEq, Eq)]
pub struct PeerId {
    text: String,
}

impl Clone for SchemaId {
    fn clone(&self) -> (result: SchemaId)
        ensures
            result@ == self@,
    {
        proof {
            use_type_invariant(self);
        }
        SchemaId { text: self.text.clone() }
    }
}

impl View for SchemaId {
    type V = Seq<char>;

    closed spec fn view(&self) -> Seq<char> {
        self.text@
    }
}

impl Clone for PeerId {
    fn clone(&self) -> (result: PeerId)
        ensures
            result@ == self@,
    {
        proof {
            use_type_invariant(self);
        }
        PeerId { text: self.text.clone() }
    }
}

impl View for PeerId {
    type V = Seq<char>;

    closed spec fn view(&self) -> Seq<char> {
        self.text@
    }
}

impl SchemaId {
    /// Whether the text is one that p2panda reads as a schema id and writes in the same way.
    pub open spec fn is_valid(self) -> bool {
        parsed_schema_id(self@) == Some(self@)
    }

    #[verifier::type_invariant]
    spec fn is_checked(self) -> bool {
        self.is_valid()
    }

    /// Reads a schema id; `None` where p2panda reads none.
    pub fn from_str(text: &str) -> (result: Option<SchemaId>)
        ensures
            result is Some <==> parsed_schema_id(text@) is Some,
            result matches Some(id) ==> parsed_schema_id(text@) == Some(id@) && id.is_valid(),
    {
        match read_schema_id(text) {
            Ok(text) => Some(SchemaId { text }),
            Err(_) => None,
        }
    }

    /// The text of the id, which reads as the same id again.
    pub fn as_str(&self) -> (result: &str)
        ensures
            result@ == self@,
            self.is_valid(),
    {
        proof {
            use_type_invariant(self);
        }
        self.text.as_str()
    }
}

impl PeerId {
    /// Whether the text is one that libp2p reads as a peer id and writes in the same way.
    pub open spec fn is_valid(self) -> bool {
        parsed_peer_id(self@) == Some(self@)
    }

    #[verifier::type_invariant]
    spec fn is_checked(self) -> bool {
        self.is_valid()
    }

    /// Reads a peer id; `None` where libp2p reads none.
    pub fn from_str(text: &str) -> (result: Option<PeerId>)
        ensures
            result is Some <==> parsed_peer_id(text@) is Some,
            result matches Some(id) ==> parsed_peer_id(text@) == Some(id@) && id.is_valid(),
    {
        match read_peer_id(text) {
            Ok(text) => Some(PeerId { text }),
            Err(_) => None,
        }
    }

    /// The text of the id, which reads as the same id again.
    pub fn as_str(&self) -> (result: &str)
        ensures
            result@ == self@,
            self.is_valid(),
    {
        proof {
            use_type_invariant(self);
        }
        self.text.as_str()
    }
}

/// How p2panda reads a text as a schema id.
pub open spec fn schema_id_reader() -> spec_fn(Seq<char>) -> Option<Seq<char>> {
    |text: Seq<char>| parsed_schema_id(text)
}

/// How libp2p reads a text as a peer id.
pub open spec fn peer_id_reader() -> spec_fn(Seq<char>) -> Option<Seq<char>> {
    |text: Seq<char>| parsed_peer_id(text)
}

/// Whether member `i` is the first one that `reader` reads no id from.
pub open spec fn is_first_rejected(
    members: Seq<Seq<char>>,
    reader: spec_fn(Seq<char>) -> Option<Seq<char>>,
    i: int,
) -> bool {
    &&& 0 <= i < members.len()
    &&& reader(members[i]) is None
    &&& forall|j: int| 0 <= j < i ==> reader(#[trigger] members[j]) is Some
}

/// Whether `reader` reads an id from every member of `list`.
pub open spec fn all_accepted(
    list: Allowed<Seq<char>>,
    reader: spec_fn(Seq<char>) -> Option<Seq<char>>,
) -> bool {
    match list {
        Allowed::Wildcard => true,
        Allowed::Members(members) => forall|i: int|
            0 <= i < members.len() ==> reader(#[trigger] members[i]) is Some,
    }
}

/// Whether checking `list` gives `result`: the wildcard stays the wildcard, a list of which every
/// member reads as an id becomes the list of those ids, and any other list is rejected with the
/// first member that does not.
pub open spec fn checks_to(
    list: Allowed<Seq<char>>,
    reader: spec_fn(Seq<char>) -> Option<Seq<char>>,
    result: Result<Allowed<Seq<char>>, Seq<char>>,
) -> bool {
    match (list, result) {
        (Allowed::Wildcard, Ok(Allowed::Wildcard)) => true,
        (Allowed::Members(members), Ok(Allowed::Members(ids))) => {
            &&& ids.len() == members.len()
            &&& forall|i: int|
                0 <= i < members.len() ==> reader(members[i]) == Some(#[trigger] ids[i])
        },
        (Allowed::Members(members), Err(text)) => exists|i: int| #[trigger]
            is_first_rejected(members, reader, i) && text == members[i],
        _ => false,
    }
}

/// Whether item `i` is the first one that is missing.
pub open spec fn is_first_missing<T>(items: Seq<Option<T>>, i: int) -> bool {
    &&& 0 <= i < items.len()
    &&& items[i] is None
    &&& forall|j: int| 0 <= j < i ==> (#[trigger] items[j]) is Some
}

/// Takes the ids that were read from `members`, or the first member that none was read from.
pub fn accept_all<T>(members: &Vec<String>, read: Vec<Option<T>>) -> (result: Result<
    Vec<T>,
    String,
>)
    requires
        members.len() == read.len(),
    ensures
        match result {
            Ok(ids) => {
                &&& ids.len() == read.len()
                &&& forall|i: int| 0 <= i < ids.len() ==> read@[i] == Some(#[trigger] ids@[i])
            },
            Err(text) => exists|i: int| #[trigger]
                is_first_missing(read@, i) && text@ == members@[i]@,
        },
{
    let mut ids: Vec<T> = Vec::new();
    for item in iter: read
        invariant
            iter.seq() == read@,
            members.len() == read.len(),
            ids.len() == iter.index(),
            forall|i: int| 0 <= i < ids.len() ==> read@[i] == Some(#[trigger] ids@[i]),
    {
        match item {
            Some(id) => ids.push(id),
            None => {
                let rejected: usize = ids.len();
                assert forall|j: int| 0 <= j < rejected implies (#[trigger] read@[j]) is Some by {
                    assert(read@[j] == Some(ids@[j]));
                }
                assert(is_first_missing(read@, rejected as int));
                return Err(members[rejected].clone());
            },
        }
    }
    Ok(ids)
}

/// Reads a schema id from each member.
fn read_schema_ids(members: &Vec<String>) -> (result: Vec<Option<SchemaId>>)
    ensures
        result.len() == members.len(),
        forall|i: int|
            0 <= i < members.len() ==> match #[trigger] result@[i] {
                Some(id) => parsed_schema_id(members@[i]@) == Some(id@),
                None => parsed_schema_id(members@[i]@) is None,
            },
{
    let mut result: Vec<Option<SchemaId>> = Vec::new();
    let mut i: usize = 0;
    while i < members.len()
        invariant
            i <= members.len(),
            result.len() == i,
            forall|j: int|
                0 <= j < i ==> match #[trigger] result@[j] {
                    Some(id) => parsed_schema_id(members@[j]@) == Some(id@),
                    None => parsed_schema_id(members@[j]@) is None,
                },
        decreases members.len() - i,
    {
        result.push(SchemaId::from_str(members[i].as_str()));
        i += 1;
    }
    result
}

/// Reads a peer id from each member.
fn read_peer_ids(members: &Vec<String>) -> (result: Vec<Option<PeerId>>)
    ensures
        result.len() == members.len(),
        forall|i: int|
            0 <= i < members.len() ==> match #[trigger] result@[i] {
                Some(id) => parsed_peer_id(members@[i]@) == Some(id@),
                None => parsed_peer_id(members@[i]@) is None,
            },
{
    let mut result: Vec<Option<PeerId>> = Vec::new();
    let mut i: usize = 0;
    while i < members.len()
        invariant
            i <= members.len(),
            result.len() == i,
            forall|j: int|
                0 <= j < i ==> match #[trigger] result@[j] {
                    Some(id) => parsed_peer_id(members@[j]@) == Some(id@),
                    None => parsed_peer_id(members@[j]@) is None,
                },
        decreases members.len() - i,
    {
        result.push(PeerId::from_str(members[i].as_str()));
        i += 1;
    }
    result
}

/// A checked list of ids, or the first text that is none, as contracts speak of it.
pub open spec fn checked_view<T: View<V = Seq<char>>>(
    result: Result<AllowList<T>, String>,
) -> Result<Allowed<Seq<char>>, Seq<char>> {
    match result {
        Ok(list) => Ok(list@),
        Err(text) => Err(text@),
    }
}

/// Checks a list of schema ids.
pub fn check_schema_ids(list: &UncheckedAllowList) -> (result: Result<AllowList<SchemaId>, String>)
    ensures
        checks_to(list@, schema_id_reader(), checked_view(result)),
{
    match list {
        UncheckedAllowList::Wildcard => Ok(AllowList::Wildcard),
        UncheckedAllowList::Members(members) => {
            let read: Vec<Option<SchemaId>> = read_schema_ids(members);
            let ghost items = read@;
            let ghost all = texts(members@);
            assert(forall|i: int|
                0 <= i < all.len() ==> schema_id_reader()(#[trigger] all[i]) == match items[i] {
                    Some(id) => Some(id@),
                    None => None,
                });
            match accept_all(members, read) {
                Ok(ids) => Ok(AllowList::Members(ids)),
                Err(text) => {
                    proof {
                        let i = choose|i: int| #[trigger]
                            is_first_missing(items, i) && text@ == members@[i]@;
                        assert(is_first_rejected(all, schema_id_reader(), i));
                    }
                    Err(text)
                },
            }
        },
    }
}

/// Checks a list of peer ids.
pub fn check_peer_ids(list: &UncheckedAllowList) -> (result: Result<AllowList<PeerId>, String>)
    ensures
        checks_to(list@, peer_id_reader(), checked_view(result)),
{
    match list {
        UncheckedAllowList::Wildcard => Ok(AllowList::Wildcard),
        UncheckedAllowList::Members(members) => {
            let read: Vec<Option<PeerId>> = read_peer_ids(members);
            let ghost items = read@;
            let ghost all = texts(members@);
            assert(forall|i: int|
                0 <= i < all.len() ==> peer_id_reader()(#[trigger] all[i]) == match items[i] {
                    Some(id) => Some(id@),
                    None => None,
                });
            match accept_all(members, read) {
                Ok(ids) => Ok(AllowList::Members(ids)),
                Err(text) => {
                    proof {
                        let i = choose|i: int| #[trigger]
                            is_first_missing(items, i) && text@ == members@[i]@;
                        assert(is_first_rejected(all, peer_id_reader(), i));
                    }
                    Err(text)
                },
            }
        },
    }
}

/// A list is accepted exactly when every member is.
pub proof fn accepted_exactly_when_every_member_is(
    list: Allowed<Seq<char>>,
    reader: spec_fn(Seq<char>) -> Option<Seq<char>>,
    result: Result<Allowed<Seq<char>>, Seq<char>>,
)
    requires
        checks_to(list, reader, result),
    ensures
        result is Ok <==> all_accepted(list, reader),
{
    match (list, result) {
        (Allowed::Members(members), Ok(Allowed::Members(ids))) => {
            assert forall|i: int| 0 <= i < members.len() implies reader(
                #[trigger] members[i],
            ) is Some by {
                assert(reader(members[i]) == Some(ids[i]));
            }
        },
        _ => {},
    }
}

/// Checking a list has one result.
pub proof fn checking_has_one_result(
    list: Allowed<Seq<char>>,
    reader: spec_fn(Seq<char>) -> Option<Seq<char>>,
    left: Result<Allowed<Seq<char>>, Seq<char>>,
    right: Result<Allowed<Seq<char>>, Seq<char>>,
)
    requires
        checks_to(list, reader, left),
        checks_to(list, reader, right),
    ensures
        left == right,
{
    accepted_exactly_when_every_member_is(list, reader, left);
    accepted_exactly_when_every_member_is(list, reader, right);
    match (list, left, right) {
        (
            Allowed::Members(members),
            Ok(Allowed::Members(one)),
            Ok(Allowed::Members(other)),
        ) => {
            assert forall|i: int| 0 <= i < one.len() implies one[i] == other[i] by {
                assert(reader(members[i]) == Some(one[i]));
                assert(reader(members[i]) == Some(other[i]));
            }
            assert(one =~= other);
        },
        (Allowed::Members(members), Err(one), Err(other)) => {
            let i = choose|i: int| #[trigger]
                is_first_rejected(members, reader, i) && one == members[i];
            let j = choose|j: int| #[trigger]
                is_first_rejected(members, reader, j) && other == members[j];
            assert(i == j);
        },
        _ => {},
    }
}

/// Checking a list of ids that were checked before gives the same list again.
pub proof fn checked_ids_are_accepted(
    list: Allowed<Seq<char>>,
    reader: spec_fn(Seq<char>) -> Option<Seq<char>>,
)
    requires
        list matches Allowed::Members(ids) ==> forall|i: int|
            0 <= i < ids.len() ==> reader(#[trigger] ids[i]) == Some(ids[i]),
    ensures
        checks_to(list, reader, Ok(list)),
{
}

/// What checking a list of schema ids gives, told by its members.
pub(crate) proof fn schema_ids_by_member(
    list: UncheckedAllowList,
    result: Result<AllowList<SchemaId>, String>,
)
    requires
        checks_to(list@, schema_id_reader(), checked_view(result)),
    ensures
        match list {
            UncheckedAllowList::Wildcard => result is Ok && result->Ok_0 is Wildcard,
            UncheckedAllowList::Members(members) => {
                &&& result is Ok <==> forall|i: int|
                    0 <= i < members.len() ==> parsed_schema_id((#[trigger] members@[i])@) is Some
                &&& result is Ok ==> {
                    &&& result->Ok_0 is Members
                    &&& result->Ok_0->Members_0.len() == members.len()
                    &&& forall|i: int|
                        0 <= i < members.len() ==> parsed_schema_id(members@[i]@) == Some(
                            (#[trigger] result->Ok_0->Members_0@[i])@,
                        )
                }
                &&& result is Err ==> exists|i: int|
                    {
                        &&& 0 <= i < members.len()
                        &&& parsed_schema_id((#[trigger] members@[i])@) is None
                        &&& result->Err_0@ == members@[i]@
                        &&& forall|j: int|
                            0 <= j < i ==> parsed_schema_id((#[trigger] members@[j])@) is Some
                    }
            },
        },
{
    if let UncheckedAllowList::Members(members) = list {
        let all = texts(members@);
        match result {
            Ok(checked) => {
                assert(checked@ is Members);
                assert(checked is Members);
                let ids = checked->Members_0;
                assert(checked@->Members_0.len() == ids.len());
                assert forall|i: int| 0 <= i < members.len() implies parsed_schema_id(members@[i]@)
                    == Some((#[trigger] ids@[i])@) by {
                    assert(checked@->Members_0[i] == ids@[i]@);
                    assert(all[i] == members@[i]@);
                }
                assert forall|i: int| 0 <= i < members.len() implies parsed_schema_id(
                    (#[trigger] members@[i])@,
                ) is Some by {
                    assert(parsed_schema_id(members@[i]@) == Some(ids@[i]@));
                }
            },
            Err(text) => {
                let i = choose|i: int| #[trigger]
                    is_first_rejected(all, schema_id_reader(), i) && text@ == all[i];
                assert(all[i] == members@[i]@);
                assert forall|j: int| 0 <= j < i implies parsed_schema_id(
                    (#[trigger] members@[j])@,
                ) is Some by {
                    assert(all[j] == members@[j]@);
                }
                assert(parsed_schema_id(members@[i]@) is None);
            },
        }
    }
}

/// Checking gives the schema id of every member, in order, exactly when each member has one; and
/// otherwise the first member that has none. The wildcard passes.
pub proof fn every_schema_id_is_checked(
    list: &UncheckedAllowList,
    result: Result<AllowList<SchemaId>, String>,
)
    requires
        call_ensures(check_schema_ids, (list,), result),
    ensures
        match *list {
            UncheckedAllowList::Wildcard => result is Ok && result->Ok_0 is Wildcard,
            UncheckedAllowList::Members(members) => {
                &&& result is Ok <==> forall|i: int|
                    0 <= i < members.len() ==> parsed_schema_id((#[trigger] members@[i])@) is Some
                &&& result is Ok ==> {
                    &&& result->Ok_0 is Members
                    &&& result->Ok_0->Members_0.len() == members.len()
                    &&& forall|i: int|
                        0 <= i < members.len() ==> parsed_schema_id(members@[i]@) == Some(
                            (#[trigger] result->Ok_0->Members_0@[i])@,
                        )
                }
                &&& result is Err ==> exists|i: int|
                    {
                        &&& 0 <= i < members.len()
                        &&& parsed_schema_id((#[trigger] members@[i])@) is None
                        &&& result->Err_0@ == members@[i]@
                        &&& forall|j: int|
                            0 <= j < i ==> parsed_schema_id((#[trigger] members@[j])@) is Some
                    }
            },
        },
{
    schema_ids_by_member(*list, result);
}

/// What checking a list of peer ids gives, told by its members.
pub(crate) proof fn peer_ids_by_member(
    list: UncheckedAllowList,
    result: Result<AllowList<PeerId>, String>,
)
    requires
        checks_to(list@, peer_id_reader(), checked_view(result)),
    ensures
        match list {
            UncheckedAllowList::Wildcard => result is Ok && result->Ok_0 is Wildcard,
            UncheckedAllowList::Members(members) => {
                &&& result is Ok <==> forall|i: int|
                    0 <= i < members.len() ==> parsed_peer_id((#[trigger] members@[i])@) is Some
                &&& result is Ok ==> {
                    &&& result->Ok_0 is Members
                    &&& result->Ok_0->Members_0.len() == members.len()
                    &&& forall|i: int|
                        0 <= i < members.len() ==> parsed_peer_id(members@[i]@) == Some(
                            (#[trigger] result->Ok_0->Members_0@[i])@,
                        )
                }
                &&& result is Err ==> exists|i: int|
                    {
                        &&& 0 <= i < members.len()
                        &&& parsed_peer_id((#[trigger] members@[i])@) is None
                        &&& result->Err_0@ == members@[i]@
                        &&& forall|j: int|
                            0 <= j < i ==> parsed_peer_id((#[trigger] members@[j])@) is Some
                    }
            },
        },
{
    if let UncheckedAllowList::Members(members) = list {
        let all = texts(members@);
        match result {
            Ok(checked) => {
                assert(checked@ is Members);
                assert(checked is Members);
                let ids = checked->Members_0;
                assert(checked@->Members_0.len() == ids.len());
                assert forall|i: int| 0 <= i < members.len() implies parsed_peer_id(members@[i]@)
                    == Some((#[trigger] ids@[i])@) by {
                    assert(checked@->Members_0[i] == ids@[i]@);
                    assert(all[i] == members@[i]@);
                }
                assert forall|i: int| 0 <= i < members.len() implies parsed_peer_id(
                    (#[trigger] members@[i])@,
                ) is Some by {
                    assert(parsed_peer_id(members@[i]@) == Some(ids@[i]@));
                }
            },
            Err(text) => {
                let i = choose|i: int| #[trigger]
                    is_first_rejected(all, peer_id_reader(), i) && text@ == all[i];
                assert(all[i] == members@[i]@);
                assert forall|j: int| 0 <= j < i implies parsed_peer_id(
                    (#[trigger] members@[j])@,
                ) is Some by {
                    assert(all[j] == members@[j]@);
                }
                assert(parsed_peer_id(members@[i]@) is None);
            },
        }
    }
}

/// Checking gives the peer id of every member, in order, exactly when each member has one; and
/// otherwise the first member that has none. The wildcard passes.
pub proof fn every_peer_id_is_checked(
    list: &UncheckedAllowList,
    result: Result<AllowList<PeerId>, String>,
)
    requires
        call_ensures(check_peer_ids, (list,), result),
    ensures
        match *list {
            UncheckedAllowList::Wildcard => result is Ok && result->Ok_0 is Wildcard,
            UncheckedAllowList::Members(members) => {
                &&& result is Ok <==> forall|i: int|
                    0 <= i < members.len() ==> parsed_peer_id((#[trigger] members@[i])@) is Some
                &&& result is Ok ==> {
                    &&& result->Ok_0 is Members
                    &&& result->Ok_0->Members_0.len() == members.len()
                    &&& forall|i: int|
                        0 <= i < members.len() ==> parsed_peer_id(members@[i]@) == Some(
                            (#[trigger] result->Ok_0->Members_0@[i])@,
                        )
                }
                &&& result is Err ==> exists|i: int|
                    {
                        &&& 0 <= i < members.len()
                        &&& parsed_peer_id((#[trigger] members@[i])@) is None
                        &&& result->Err_0@ == members@[i]@
                        &&& forall|j: int|
                            0 <= j < i ==> parsed_peer_id((#[trigger] members@[j])@) is Some
                    }
            },
        },
{
    peer_ids_by_member(*list, result);
}

/// All ids are taken, in order, exactly when none is missing; and otherwise the member that belongs
/// to the first missing id is handed back.
pub proof fn all_ids_or_the_first_without<T>(
    members: &Vec<String>,
    read: Vec<Option<T>>,
    result: Result<Vec<T>, String>,
)
    requires
        call_ensures(accept_all::<T>, (members, read), result),
        members.len() == read.len(),
    ensures
        result is Ok <==> forall|i: int| 0 <= i < read.len() ==> (#[trigger] read@[i]) is Some,
        result is Ok ==> {
            &&& result->Ok_0.len() == read.len()
            &&& forall|i: int|
                0 <= i < read.len() ==> read@[i] == Some(#[trigger] result->Ok_0@[i])
        },
        result is Err ==> exists|i: int|
            {
                &&& 0 <= i < read.len()
                &&& (#[trigger] read@[i]) is None
                &&& result->Err_0@ == members@[i]@
                &&& forall|j: int| 0 <= j < i ==> (#[trigger] read@[j]) is Some
            },
{
    match result {
        Ok(ids) => {
            assert forall|i: int| 0 <= i < read.len() implies (#[trigger] read@[i]) is Some by {
                assert(read@[i] == Some(ids@[i]));
            }
        },
        Err(text) => {
            let i = choose|i: int| #[trigger]
                is_first_missing(read@, i) && text@ == members@[i]@;
            assert(read@[i] is None);
        },
    }
}

/// The text of an id that was read is the one that its crate writes, and reads as the same id.
pub proof fn id_text_is_read_again(
    text: &str,
    schema_id: Option<SchemaId>,
    peer_id: Option<PeerId>,
)
    requires
        call_ensures(SchemaId::from_str, (text,), schema_id),
        call_ensures(PeerId::from_str, (text,), peer_id),
    ensures
        match parsed_schema_id(text@) {
            Some(written) => {
                &&& schema_id is Some
                &&& schema_id->0@ == written
                &&& parsed_schema_id(written) == Some(written)
            },
            None => schema_id is None,
        },
        match parsed_peer_id(text@) {
            Some(written) => {
                &&& peer_id is Some
                &&& peer_id->0@ == written
                &&& parsed_peer_id(written) == Some(written)
            },
            None => peer_id is None,
        },
{
}

/// The text of an id is the one it was made with, and a copy of an id has the same text.
pub proof fn id_text_is_kept(
    schema_id: &SchemaId,
    peer_id: &PeerId,
    schema_id_text: &str,
    peer_id_text: &str,
    schema_id_copy: SchemaId,
    peer_id_copy: PeerId,
)
    requires
        call_ensures(SchemaId::as_str, (schema_id,), schema_id_text),
        call_ensures(PeerId::as_str, (peer_id,), peer_id_text),
        call_ensures(<SchemaId as Clone>::clone, (schema_id,), schema_id_copy),
        call_ensures(<PeerId as Clone>::clone, (peer_id,), peer_id_copy),
    ensures
        schema_id_text@ == schema_id@,
        peer_id_text@ == peer_id@,
        schema_id_copy@ == schema_id@,
        peer_id_copy@ == peer_id@,
        parsed_schema_id(schema_id_text@) == Some(schema_id_text@),
        parsed_peer_id(peer_id_text@) == Some(peer_id_text@),
{
}

} // verus!
