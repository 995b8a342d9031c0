//! JSON documents as trees: the form in which a credential is read and
//! written, and in which an endorsement, a card or a witness context is
//! carried.

use vstd::prelude::*;

verus! {

/// A JSON number is carried as `serde_json` holds it; nothing here looks
/// inside one.
#[verifier::external_type_specification]
#[verifier::external_body]
pub struct ExNumber(serde_json::Number);

/// A copy of a number equals the number.
pub assume_specification[ <serde_json::Number as Clone>::clone ](
    number: &serde_json::Number,
) -> (copy: serde_json::Number)
    ensures
        copy == *number,
;

/// A JSON value. The members of a `Record` keep the order in which they were
/// given, and nothing keeps a name from standing twice.
#[derive(Debug, PartialEq, Eq)]
pub enum Json {
    Null,
    Bool(bool),
    Number(serde_json::Number),
    Text(String),
    List(Vec<Json>),
    Record(Vec<(String, Json)>),
}

/// The mathematical model of a JSON value.
pub enum JsonTree {
    Null,
    Bool(bool),
    Number(serde_json::Number),
    Text(Seq<char>),
    List(Seq<JsonTree>),
    Record(Seq<(Seq<char>, JsonTree)>),
}

impl Json {
    /// The model of this value.
    pub open spec fn tree(self) -> JsonTree
        decreases self,
    {
        match self {
            Json::Null => JsonTree::Null,
            Json::Bool(flag) => JsonTree::Bool(flag),
            Json::Number(number) => JsonTree::Number(number),
            Json::Text(text) => JsonTree::Text(text@),
            Json::List(items) => JsonTree::List(
                Seq::new(
                    items.len() as nat,
                    |at: int|
                        if 0 <= at < items.len() {
                            items[at].tree()
                        } else {
                            JsonTree::Null
                        },
                ),
            ),
            Json::Record(members) => JsonTree::Record(
                Seq::new(
                    members.len() as nat,
                    |at: int|
                        if 0 <= at < members.len() {
                            (members[at].0@, members[at].1.tree())
                        } else {
                            (Seq::empty(), JsonTree::Null)
                        },
                ),
            ),
        }
    }
}

impl View for Json {
    type V = JsonTree;

    open spec fn view(&self) -> JsonTree {
        self.tree()
    }
}

impl Clone for Json {
    /// A copy of this value: the same tree.
    fn clone(&self) -> (copy: Json)
        ensures
            copy@ == self@,
        decreases self,
    {
        match self {
            Json::Null => Json::Null,
            Json::Bool(flag) => Json::Bool(*flag),
            Json::Number(number) => Json::Number(number.clone()),
            Json::Text(text) => Json::Text(text.clone()),
            Json::List(items) => {
                let mut copies: Vec<Json> = Vec::new();
                let mut at: usize = 0;
                while at < items.len()
                    invariant
                        at <= items.len(),
                        copies.len() == at,
                        *self == Json::List(*items),
                        forall|before: int| 0 <= before < at ==> copies[before]@ == items[before]@,
                    decreases items.len() - at,
                {
                    proof {
                        vstd::std_specs::vec::axiom_vec_index_decreases(*items, at as int);
                        assert(decreases_to!(*self => self->List_0));
                    }
                    let copy = items[at].clone();
                    copies.push(copy);
                    at = at + 1;
                }
                assert(Json::List(copies)@->List_0 =~= self@->List_0);
                Json::List(copies)
            },
            Json::Record(members) => {
                let mut copies: Vec<(String, Json)> = Vec::new();
                let mut at: usize = 0;
                while at < members.len()
                    invariant
                        at <= members.len(),
                        copies.len() == at,
                        *self == Json::Record(*members),
                        forall|before: int|
                            0 <= before < at ==> copies[before].0@ == members[before].0@
                                && copies[before].1@ == members[before].1@,
                    decreases members.len() - at,
                {
                    let name = members[at].0.clone();
                    proof {
                        vstd::std_specs::vec::axiom_vec_index_decreases(*members, at as int);
                        assert(decreases_to!(*self => self->Record_0));
                    }
                    let copy = members[at].1.clone();
                    copies.push((name, copy));
                    at = at + 1;
                }
                assert(Json::Record(copies)@->Record_0 =~= self@->Record_0);
                Json::Record(copies)
            },
        }
    }
}

/// The members of a record as the model has them.
pub open spec fn members_view(members: Vec<(String, Json)>) -> Seq<(Seq<char>, JsonTree)> {
    Json::Record(members)@->Record_0
}

/// The model of a record has the members of the record, each by its view.
pub proof fn lemma_members_view(members: Vec<(String, Json)>)
    ensures
        members_view(members).len() == members.len(),
        forall|at: int|
            0 <= at < members.len() ==> #[trigger] members_view(members)[at] == (
                members[at].0@,
                members[at].1@,
            ),
{
}

/// The model of a list has the items of the list, each by its view.
pub proof fn lemma_items_view(items: Vec<Json>)
    ensures
        Json::List(items)@ is List,
        Json::List(items)@->List_0.len() == items.len(),
        forall|at: int|
            0 <= at < items.len() ==> #[trigger] Json::List(items)@->List_0[at] == items[at]@,
{
}

/// Whether the member at position `at` has the name `name`.
pub open spec fn named_at(members: Seq<(Seq<char>, JsonTree)>, name: Seq<char>, at: int) -> bool {
    0 <= at < members.len() && members[at].0 == name
}

/// Whether no member has the name `name`.
pub open spec fn absent(members: Seq<(Seq<char>, JsonTree)>, name: Seq<char>) -> bool {
    forall|at: int| !named_at(members, name, at)
}

/// Whether the member at position `at`, and no other, has the name `name`.
pub open spec fn once_at(members: Seq<(Seq<char>, JsonTree)>, name: Seq<char>, at: int) -> bool {
    named_at(members, name, at) && forall|other: int|
        named_at(members, name, other) ==> other == at
}

/// Whether every member has one of the names `allowed`.
pub open spec fn named_within(
    members: Seq<(Seq<char>, JsonTree)>,
    allowed: Seq<Seq<char>>,
) -> bool {
    forall|at: int| 0 <= at < members.len() ==> allowed.contains((#[trigger] members[at]).0)
}

/// Whether no two members have one name.
pub open spec fn distinct_names(members: Seq<(Seq<char>, JsonTree)>) -> bool {
    forall|first: int, second: int|
        0 <= first < second < members.len() ==> (#[trigger] members[first]).0 != (
        #[trigger] members[second]).0
}

/// What a search for a name among the members of a record finds.
pub enum Found {
    /// No member has the name.
    Absent,
    /// One member has the name; this is its value.
    Once(JsonTree),
    /// Several members have the name.
    Repeated,
}

/// The search for `name` among `members`.
pub open spec fn find(members: Seq<(Seq<char>, JsonTree)>, name: Seq<char>) -> Found {
    if absent(members, name) {
        Found::Absent
    } else if exists|at: int| once_at(members, name, at) {
        Found::Once(members[choose|at: int| once_at(members, name, at)].1)
    } else {
        Found::Repeated
    }
}

/// Where a search for a name among the members of a record ends.
#[derive(Debug, Clone, Copy, PartialEq, Eq, Structural)]
pub enum Slot {
    /// No member has the name.
    Absent,
    /// The member at this position has the name, and no other has.
    At(usize),
    /// Several members have the name.
    Repeated,
}

/// Searches `members` for `name`.
pub fn locate(members: &Vec<(String, Json)>, name: &str) -> (slot: Slot)
    ensures
        match slot {
            Slot::Absent => find(members_view(*members), name@) is Absent,
            Slot::At(at) => at < members.len() && once_at(members_view(*members), name@, at as int)
                && find(members_view(*members), name@) == Found::Once(members[at as int].1@),
            Slot::Repeated => find(members_view(*members), name@) is Repeated,
        },
{
    let ghost view = members_view(*members);
    proof {
        lemma_members_view(*members);
    }
    let mut slot = Slot::Absent;
    let mut at: usize = 0;
    while at < members.len()
        invariant
            at <= members.len(),
            view == members_view(*members),
            view.len() == members.len(),
            forall|each: int|
                0 <= each < members.len() ==> #[trigger] view[each] == (
                    members[each].0@,
                    members[each].1@,
                ),
            match slot {
                Slot::Absent => forall|before: int| 0 <= before < at ==> !named_at(view, name@, before),
                Slot::At(first) => first < at && named_at(view, name@, first as int) && forall|
                    before: int,
                |
                    0 <= before < at && named_at(view, name@, before) ==> before == first,
                Slot::Repeated => exists|first: int, second: int|
                    first != second && named_at(view, name@, first) && named_at(
                        view,
                        name@,
                        second,
                    ),
            },
        decreases members.len() - at,
    {
        if crate::text::same_text(members[at].0.as_str(), name) {
            assert(named_at(view, name@, at as int));
            slot =
            match slot {
                Slot::Absent => Slot::At(at),
                Slot::At(first) => {
                    assert(named_at(view, name@, first as int));
                    Slot::Repeated
                },
                Slot::Repeated => Slot::Repeated,
            };
        }
        at = at + 1;
    }
    proof {
        match slot {
            Slot::Absent => {},
            Slot::At(first) => {
                assert(once_at(view, name@, first as int));
                let chosen = choose|at: int| once_at(view, name@, at);
                assert(chosen == first);
            },
            Slot::Repeated => {
                let (first, second) = choose|first: int, second: int|
                    first != second && named_at(view, name@, first) && named_at(
                        view,
                        name@,
                        second,
                    );
                assert(!absent(view, name@));
                assert forall|at: int| !once_at(view, name@, at) by {
                    if once_at(view, name@, at) {
                        assert(first == at);
                        assert(second == at);
                    }
                }
            },
        }
    }
    slot
}

impl JsonTree {
    /// Whether no record in the tree, at any depth, has two members of one
    /// name.
    pub open spec fn unambiguous(self) -> bool
        decreases self,
    {
        match self {
            JsonTree::List(items) => forall|at: int|
                0 <= at < items.len() ==> (#[trigger] items[at]).unambiguous(),
            JsonTree::Record(members) => {
                &&& forall|at: int|
                    0 <= at < members.len() ==> (#[trigger] members[at]).1.unambiguous()
                &&& forall|first: int, second: int|
                    0 <= first < second < members.len() ==> (#[trigger] members[first]).0 != (
                    #[trigger] members[second]).0
            },
            _ => true,
        }
    }
}

/// What `unambiguous` says of a record, spelled out.
pub proof fn lemma_record_unambiguous(members: Seq<(Seq<char>, JsonTree)>)
    ensures
        JsonTree::Record(members).unambiguous() <==> {
            &&& forall|at: int|
                0 <= at < members.len() ==> (#[trigger] members[at]).1.unambiguous()
            &&& forall|first: int, second: int|
                0 <= first < second < members.len() ==> (#[trigger] members[first]).0 != (
                #[trigger] members[second]).0
        },
{
    assert(JsonTree::Record(members)->Record_0 == members);
}

/// A name that stands at one position only is found there.
pub proof fn lemma_find_once(members: Seq<(Seq<char>, JsonTree)>, name: Seq<char>, at: int)
    requires
        once_at(members, name, at),
    ensures
        find(members, name) == Found::Once(members[at].1),
{
    let chosen = choose|at: int| once_at(members, name, at);
    assert(named_at(members, name, chosen));
}

/// Among members of distinct names, a name that stands at a position is
/// found there, and a name is never found twice.
pub proof fn lemma_find_distinct(members: Seq<(Seq<char>, JsonTree)>, name: Seq<char>)
    requires
        distinct_names(members),
    ensures
        !(find(members, name) is Repeated),
        forall|at: int|
            named_at(members, name, at) ==> find(members, name) == Found::Once(
                (#[trigger] members[at]).1,
            ),
{
    assert forall|at: int| named_at(members, name, at) implies find(members, name)
        == Found::Once((#[trigger] members[at]).1) by {
        assert forall|other: int| named_at(members, name, other) implies other == at by {
            if other < at {
                assert(members[other].0 != members[at].0);
            } else if at < other {
                assert(members[at].0 != members[other].0);
            }
        }
        lemma_find_once(members, name, at);
    }
    if !absent(members, name) {
        let at = choose|at: int| named_at(members, name, at);
        assert(find(members, name) == Found::Once(members[at].1));
    }
}

/// Where every member has one of the names `allowed`, and none of these is
/// found twice, no two members have one name.
pub proof fn lemma_distinct_names(members: Seq<(Seq<char>, JsonTree)>, allowed: Seq<Seq<char>>)
    requires
        named_within(members, allowed),
        forall|name: Seq<char>| allowed.contains(name) ==> !(find(members, name) is Repeated),
    ensures
        distinct_names(members),
{
    assert forall|first: int, second: int| 0 <= first < second < members.len() implies (
    #[trigger] members[first]).0 != (#[trigger] members[second]).0 by {
        let name = members[first].0;
        if members[second].0 == name {
            assert(allowed.contains(name));
            assert(named_at(members, name, first));
            assert(named_at(members, name, second));
            assert(!absent(members, name));
            if exists|at: int| once_at(members, name, at) {
                let at = choose|at: int| once_at(members, name, at);
                assert(first == at);
                assert(second == at);
            }
        }
    }
}

/// Whether every member of `members` has one of the names `allowed`.
pub fn names_within(members: &Vec<(String, Json)>, allowed: &[&str]) -> (within: bool)
    ensures
        within == named_within(members_view(*members), allowed.deep_view()),
{
    let ghost view = members_view(*members);
    proof {
        lemma_members_view(*members);
    }
    let mut at: usize = 0;
    while at < members.len()
        invariant
            at <= members.len(),
            view == members_view(*members),
            view.len() == members.len(),
            forall|each: int|
                0 <= each < members.len() ==> #[trigger] view[each] == (
                    members[each].0@,
                    members[each].1@,
                ),
            forall|before: int|
                0 <= before < at ==> allowed.deep_view().contains((#[trigger] view[before]).0),
        decreases members.len() - at,
    {
        let mut found = false;
        let mut rank: usize = 0;
        while rank < allowed.len()
            invariant
                rank <= allowed.len(),
                at < members.len(),
                view.len() == members.len(),
                view[at as int].0 == members[at as int].0@,
                found ==> allowed.deep_view().contains(view[at as int].0),
                !found ==> forall|earlier: int|
                    0 <= earlier < rank ==> allowed.deep_view()[earlier] != view[at as int].0,
            decreases allowed.len() - rank,
        {
            if crate::text::same_text(members[at].0.as_str(), allowed[rank]) {
                assert(allowed.deep_view()[rank as int] == view[at as int].0);
                found = true;
            }
            rank = rank + 1;
        }
        if !found {
            assert(!allowed.deep_view().contains(view[at as int].0));
            return false;
        }
        at = at + 1;
    }
    true
}

} // verus!
