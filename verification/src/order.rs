//! The order of names, and the arrangement of the members of a record by
//! their names. Names are ordered as strings are: byte by byte, in UTF-8.

use crate::json::{lemma_items_view, lemma_members_view, members_view, Json, JsonTree};
use vstd::prelude::*;
use vstd::utf8::encode_utf8;

verus! {

/// Whether, from position `from` on, the bytes `left` stand before the bytes
/// `right` or are the same: the first byte in which they differ is smaller in
/// `left`, or `left` ends first.
pub open spec fn bytes_precede(left: Seq<u8>, right: Seq<u8>, from: int) -> bool
    decreases left.len() - from,
{
    if from < 0 || from >= left.len() {
        true
    } else if from >= right.len() {
        false
    } else if left[from] != right[from] {
        left[from] < right[from]
    } else {
        bytes_precede(left, right, from + 1)
    }
}

/// Whether the name `left` stands before the name `right` or is the same
/// name.
pub open spec fn precedes(left: Seq<char>, right: Seq<char>) -> bool {
    bytes_precede(encode_utf8(left), encode_utf8(right), 0)
}

/// Of two sequences of bytes one stands before the other, or they are the
/// same.
pub proof fn lemma_bytes_total(left: Seq<u8>, right: Seq<u8>, from: int)
    requires
        0 <= from,
    ensures
        bytes_precede(left, right, from) || bytes_precede(right, left, from),
    decreases left.len() - from,
{
    if from < left.len() && from < right.len() && left[from] == right[from] {
        lemma_bytes_total(left, right, from + 1);
    }
}

/// Of two names one stands before the other, or they are the same.
pub proof fn lemma_precedes_total(left: Seq<char>, right: Seq<char>)
    ensures
        precedes(left, right) || precedes(right, left),
{
    lemma_bytes_total(encode_utf8(left), encode_utf8(right), 0);
}

/// Whether the name `left` stands before the name `right` or is the same
/// name.
pub fn name_precedes(left: &str, right: &str) -> (before: bool)
    ensures
        before == precedes(left@, right@),
{
    let left_bytes = left.as_bytes();
    let right_bytes = right.as_bytes();
    let mut at: usize = 0;
    while at < left_bytes.len()
        invariant
            at <= left_bytes.len(),
            left_bytes@ == encode_utf8(left@),
            right_bytes@ == encode_utf8(right@),
            precedes(left@, right@) == bytes_precede(left_bytes@, right_bytes@, at as int),
        decreases left_bytes.len() - at,
    {
        if at >= right_bytes.len() {
            return false;
        }
        if left_bytes[at] != right_bytes[at] {
            return left_bytes[at] < right_bytes[at];
        }
        at = at + 1;
    }
    true
}

/// Whether the names of the members ascend: each member's name stands before
/// the name of the next, or is the same.
pub open spec fn ascending(members: Seq<(Seq<char>, JsonTree)>) -> bool {
    forall|at: int|
        0 <= at < members.len() - 1 ==> precedes(
            (#[trigger] members[at]).0,
            members[at + 1].0,
        )
}

/// The place of a new member of the name `name` among members whose names
/// ascend: behind the last member whose name stands before `name` or is the
/// same.
pub open spec fn slot(members: Seq<(Seq<char>, JsonTree)>, name: Seq<char>) -> int
    decreases members.len(),
{
    if members.len() == 0 {
        0
    } else if precedes(members.last().0, name) {
        members.len() as int
    } else {
        slot(members.drop_last(), name)
    }
}

/// The members arranged by their names: each in turn is put in its place
/// among those before it. Members of one name keep their order.
pub open spec fn arrange(members: Seq<(Seq<char>, JsonTree)>) -> Seq<(Seq<char>, JsonTree)>
    decreases members.len(),
{
    if members.len() == 0 {
        members
    } else {
        let before = arrange(members.drop_last());
        before.insert(slot(before, members.last().0), members.last())
    }
}

/// What the place of a new member is: a position among the members, behind a
/// member whose name stands before the new name or is the same, and before
/// members whose names do not.
pub proof fn lemma_slot(members: Seq<(Seq<char>, JsonTree)>, name: Seq<char>)
    ensures
        0 <= slot(members, name) <= members.len(),
        slot(members, name) > 0 ==> precedes(members[slot(members, name) - 1].0, name),
        forall|at: int|
            slot(members, name) <= at < members.len() ==> !precedes(
                (#[trigger] members[at]).0,
                name,
            ),
    decreases members.len(),
{
    if members.len() > 0 && !precedes(members.last().0, name) {
        lemma_slot(members.drop_last(), name);
        let place = slot(members, name);
        assert forall|at: int| place <= at < members.len() implies !precedes(
            (#[trigger] members[at]).0,
            name,
        ) by {
            if at < members.len() - 1 {
                assert(members.drop_last()[at] == members[at]);
            }
        }
        if place > 0 {
            assert(members.drop_last()[place - 1] == members[place - 1]);
        }
    }
}

/// A member put in its place among members whose names ascend leaves the
/// names ascending.
pub proof fn lemma_insert_ascending(members: Seq<(Seq<char>, JsonTree)>, member: (Seq<char>, JsonTree))
    requires
        ascending(members),
    ensures
        ascending(members.insert(slot(members, member.0), member)),
{
    let place = slot(members, member.0);
    let after = members.insert(place, member);
    lemma_slot(members, member.0);
    assert forall|at: int| 0 <= at < after.len() - 1 implies precedes(
        (#[trigger] after[at]).0,
        after[at + 1].0,
    ) by {
        if at + 1 < place {
            assert(after[at] == members[at] && after[at + 1] == members[at + 1]);
        } else if at + 1 == place {
            assert(after[at] == members[place - 1]);
        } else if at == place {
            assert(after[at + 1] == members[place]);
            lemma_precedes_total(members[place].0, member.0);
        } else {
            assert(after[at] == members[at - 1] && after[at + 1] == members[at]);
        }
    }
}

/// The names of arranged members ascend, and the arranged members are the
/// members: each as often as it was.
pub proof fn lemma_arrange(members: Seq<(Seq<char>, JsonTree)>)
    ensures
        ascending(arrange(members)),
        arrange(members).len() == members.len(),
        arrange(members).to_multiset() == members.to_multiset(),
    decreases members.len(),
{
    if members.len() > 0 {
        let before = arrange(members.drop_last());
        lemma_arrange(members.drop_last());
        lemma_slot(before, members.last().0);
        lemma_insert_ascending(before, members.last());
        vstd::seq_lib::to_multiset_insert(before, slot(before, members.last().0), members.last());
        vstd::seq_lib::to_multiset_build(members.drop_last(), members.last());
        assert(members.drop_last().push(members.last()) =~= members);
    }
}

/// Members whose names ascend are arranged as they are.
pub proof fn lemma_arrange_ascending(members: Seq<(Seq<char>, JsonTree)>)
    requires
        ascending(members),
    ensures
        arrange(members) == members,
    decreases members.len(),
{
    if members.len() > 0 {
        let before = members.drop_last();
        assert forall|at: int| 0 <= at < before.len() - 1 implies precedes(
            (#[trigger] before[at]).0,
            before[at + 1].0,
        ) by {
            assert(before[at] == members[at] && before[at + 1] == members[at + 1]);
        }
        lemma_arrange_ascending(before);
        if before.len() > 0 {
            assert(precedes(members[members.len() - 2].0, members[members.len() - 1].0));
            assert(before.last() == members[members.len() - 2]);
        }
        assert(before.insert(before.len() as int, members.last()) =~= members);
    }
}

/// Each arranged member is one of the members.
pub proof fn lemma_arrange_within(members: Seq<(Seq<char>, JsonTree)>)
    ensures
        forall|at: int|
            0 <= at < arrange(members).len() ==> members.contains(#[trigger] arrange(members)[at]),
    decreases members.len(),
{
    if members.len() > 0 {
        let before = arrange(members.drop_last());
        let place = slot(before, members.last().0);
        lemma_arrange_within(members.drop_last());
        lemma_slot(before, members.last().0);
        assert forall|at: int| 0 <= at < arrange(members).len() implies members.contains(
            #[trigger] arrange(members)[at],
        ) by {
            let found = arrange(members)[at];
            if at == place {
                assert(members[members.len() - 1] == found);
            } else {
                let inner = if at < place {
                    at
                } else {
                    at - 1
                };
                assert(before[inner] == found);
                assert(members.drop_last().contains(found));
                let origin = choose|origin: int|
                    0 <= origin < members.drop_last().len() && members.drop_last()[origin]
                        == found;
                assert(members[origin] == found);
            }
        }
    }
}

impl JsonTree {
    /// The items of a list, each sorted.
    pub open spec fn sorted_items(items: Seq<JsonTree>) -> Seq<JsonTree>
        decreases items,
    {
        Seq::new(
            items.len(),
            |at: int|
                if 0 <= at < items.len() {
                    items[at].sorted()
                } else {
                    JsonTree::Null
                },
        )
    }

    /// The members of a record in their order, the value of each sorted.
    pub open spec fn sorted_values(members: Seq<(Seq<char>, JsonTree)>) -> Seq<
        (Seq<char>, JsonTree),
    >
        decreases members,
    {
        Seq::new(
            members.len(),
            |at: int|
                if 0 <= at < members.len() {
                    (members[at].0, members[at].1.sorted())
                } else {
                    (Seq::empty(), JsonTree::Null)
                },
        )
    }

    /// The same value with the members of every record, at any depth,
    /// arranged by their names.
    pub open spec fn sorted(self) -> JsonTree
        decreases self,
    {
        match self {
            JsonTree::List(items) => JsonTree::List(Self::sorted_items(items)),
            JsonTree::Record(members) => JsonTree::Record(arrange(Self::sorted_values(members))),
            _ => self,
        }
    }

    /// Whether the names of the members of every record, at any depth,
    /// ascend.
    pub open spec fn ordered(self) -> bool
        decreases self,
    {
        match self {
            JsonTree::List(items) => forall|at: int|
                0 <= at < items.len() ==> (#[trigger] items[at]).ordered(),
            JsonTree::Record(members) => {
                &&& ascending(members)
                &&& forall|at: int|
                    0 <= at < members.len() ==> (#[trigger] members[at]).1.ordered()
            },
            _ => true,
        }
    }
}

/// What `sorted` makes of a record and of a list, spelled out.
pub proof fn lemma_sorted_parts(members: Seq<(Seq<char>, JsonTree)>, items: Seq<JsonTree>)
    ensures
        JsonTree::Record(members).sorted() == JsonTree::Record(
            arrange(JsonTree::sorted_values(members)),
        ),
        JsonTree::sorted_values(members).len() == members.len(),
        forall|at: int|
            0 <= at < members.len() ==> #[trigger] JsonTree::sorted_values(members)[at] == (
                members[at].0,
                members[at].1.sorted(),
            ),
        JsonTree::List(items).sorted() == JsonTree::List(JsonTree::sorted_items(items)),
        JsonTree::sorted_items(items).len() == items.len(),
        forall|at: int|
            0 <= at < items.len() ==> #[trigger] JsonTree::sorted_items(items)[at]
                == items[at].sorted(),
{
    assert(JsonTree::Record(members)->Record_0 == members);
    assert(JsonTree::List(items)->List_0 == items);
}

/// What `ordered` says of a record and of a list, spelled out.
pub proof fn lemma_ordered_parts(members: Seq<(Seq<char>, JsonTree)>, items: Seq<JsonTree>)
    ensures
        JsonTree::Record(members).ordered() <==> {
            &&& ascending(members)
            &&& forall|at: int| 0 <= at < members.len() ==> (#[trigger] members[at]).1.ordered()
        },
        JsonTree::List(items).ordered() <==> forall|at: int|
            0 <= at < items.len() ==> (#[trigger] items[at]).ordered(),
{
    assert(JsonTree::Record(members)->Record_0 == members);
    assert(JsonTree::List(items)->List_0 == items);
}

/// In a sorted value the names of the members of every record ascend.
pub proof fn lemma_sorted_is_ordered(tree: JsonTree)
    ensures
        tree.sorted().ordered(),
    decreases tree,
{
    match tree {
        JsonTree::List(items) => {
            let inner = JsonTree::sorted_items(items);
            lemma_sorted_parts(Seq::empty(), items);
            lemma_ordered_parts(Seq::empty(), inner);
            assert forall|at: int| 0 <= at < inner.len() implies (#[trigger] inner[at]).ordered() by {
                lemma_sorted_is_ordered(items[at]);
            }
        },
        JsonTree::Record(members) => {
            let inner = JsonTree::sorted_values(members);
            lemma_sorted_parts(members, Seq::empty());
            lemma_arrange(inner);
            lemma_arrange_within(inner);
            let arranged = arrange(inner);
            lemma_ordered_parts(arranged, Seq::empty());
            assert forall|at: int| 0 <= at < arranged.len() implies (
            #[trigger] arranged[at]).1.ordered() by {
                assert(inner.contains(arranged[at]));
                let origin = choose|origin: int|
                    0 <= origin < inner.len() && inner[origin] == arranged[at];
                lemma_sorted_is_ordered(members[origin].1);
            }
        },
        _ => {},
    }
}

/// A value in which the names of the members of every record ascend is
/// sorted as it is.
pub proof fn lemma_ordered_is_sorted(tree: JsonTree)
    requires
        tree.ordered(),
    ensures
        tree.sorted() == tree,
    decreases tree,
{
    match tree {
        JsonTree::List(items) => {
            let inner = JsonTree::sorted_items(items);
            lemma_sorted_parts(Seq::empty(), items);
            lemma_ordered_parts(Seq::empty(), items);
            assert forall|at: int| 0 <= at < items.len() implies inner[at] == items[at] by {
                assert(items[at].ordered());
                lemma_ordered_is_sorted(items[at]);
            }
            assert(inner =~= items);
        },
        JsonTree::Record(members) => {
            let inner = JsonTree::sorted_values(members);
            lemma_sorted_parts(members, Seq::empty());
            lemma_ordered_parts(members, Seq::empty());
            assert forall|at: int| 0 <= at < members.len() implies inner[at] == members[at] by {
                assert(members[at].1.ordered());
                lemma_ordered_is_sorted(members[at].1);
            }
            assert(inner =~= members);
            lemma_arrange_ascending(members);
        },
        _ => {},
    }
}

/// Sorting a sorted value changes nothing.
pub proof fn lemma_sorted_twice(tree: JsonTree)
    ensures
        tree.sorted().sorted() == tree.sorted(),
{
    lemma_sorted_is_ordered(tree);
    lemma_ordered_is_sorted(tree.sorted());
}

/// Puts a member in its place among members whose names ascend.
fn put_in_place(members: &mut Vec<(String, Json)>, name: String, value: Json)
    ensures
        members_view(*final(members)) == members_view(*old(members)).insert(
            slot(members_view(*old(members)), name@),
            (name@, value@),
        ),
{
    let ghost before = members_view(*members);
    proof {
        lemma_members_view(*members);
        assert(before.take(before.len() as int) =~= before);
    }
    let mut place = members.len();
    let mut found = false;
    while place > 0 && !found
        invariant
            place <= members.len(),
            before == members_view(*members),
            before.len() == members.len(),
            forall|each: int|
                0 <= each < members.len() ==> #[trigger] before[each] == (
                    members[each].0@,
                    members[each].1@,
                ),
            slot(before, name@) == slot(before.take(place as int), name@),
            found ==> place > 0 && precedes(before[place - 1].0, name@),
        decreases
                (if found {
                    0int
                } else {
                    place + 1
                }),
    {
        proof {
            assert(before.take(place as int).last() == before[place - 1]);
            assert(before.take(place as int).drop_last() =~= before.take(place - 1));
        }
        if name_precedes(members[place - 1].0.as_str(), name.as_str()) {
            found = true;
        } else {
            place = place - 1;
        }
    }
    proof {
        if found {
            assert(before.take(place as int).last() == before[place - 1]);
        }
        assert(slot(before, name@) == place);
    }
    let ghost member = (name@, value@);
    members.insert(place, (name, value));
    proof {
        lemma_members_view(*members);
        assert(members_view(*members) =~= before.insert(place as int, member));
    }
}

impl Json {
    /// The same value with the members of every record, at any depth,
    /// arranged by their names: byte by byte, as strings are ordered. The
    /// members are the same, each as often as it was, those of one name in
    /// the order they had; in the outcome the names of every record ascend.
    pub fn sorted(&self) -> (arranged: Json)
        ensures
            arranged@ == self@.sorted(),
            arranged@.ordered(),
        decreases self,
    {
        proof {
            lemma_sorted_is_ordered(self@);
        }
        match self {
            Json::List(items) => {
                let ghost view = self@->List_0;
                proof {
                    lemma_items_view(*items);
                    lemma_sorted_parts(Seq::empty(), view);
                }
                let mut made: Vec<Json> = Vec::new();
                let mut at: usize = 0;
                while at < items.len()
                    invariant
                        at <= items.len(),
                        made.len() == at,
                        *self == Json::List(*items),
                        view.len() == items.len(),
                        forall|each: int|
                            0 <= each < items.len() ==> #[trigger] view[each] == items[each]@,
                        forall|before: int|
                            0 <= before < at ==> made[before]@ == (#[trigger] view[before]).sorted(),
                    decreases items.len() - at,
                {
                    proof {
                        vstd::std_specs::vec::axiom_vec_index_decreases(*items, at as int);
                        assert(decreases_to!(*self => self->List_0));
                    }
                    let item = items[at].sorted();
                    made.push(item);
                    at = at + 1;
                }
                proof {
                    lemma_items_view(made);
                    assert(Json::List(made)@->List_0 =~= JsonTree::sorted_items(view));
                }
                Json::List(made)
            },
            Json::Record(members) => {
                let ghost view = members_view(*members);
                let ghost values = JsonTree::sorted_values(view);
                proof {
                    lemma_members_view(*members);
                    lemma_sorted_parts(view, Seq::empty());
                    assert(values.take(0) =~= Seq::empty());
                }
                let mut made: Vec<(String, Json)> = Vec::new();
                proof {
                    lemma_members_view(made);
                    assert(members_view(made) =~= arrange(values.take(0)));
                }
                let mut at: usize = 0;
                while at < members.len()
                    invariant
                        at <= members.len(),
                        *self == Json::Record(*members),
                        view == members_view(*members),
                        values == JsonTree::sorted_values(view),
                        view.len() == members.len(),
                        values.len() == members.len(),
                        forall|each: int|
                            0 <= each < members.len() ==> #[trigger] view[each] == (
                                members[each].0@,
                                members[each].1@,
                            ),
                        forall|each: int|
                            0 <= each < members.len() ==> #[trigger] values[each] == (
                                view[each].0,
                                view[each].1.sorted(),
                            ),
                        members_view(made) == arrange(values.take(at as int)),
                    decreases members.len() - at,
                {
                    proof {
                        vstd::std_specs::vec::axiom_vec_index_decreases(*members, at as int);
                        assert(decreases_to!(*self => self->Record_0));
                        assert(values.take(at + 1).drop_last() =~= values.take(at as int));
                        assert(values.take(at + 1).last() == values[at as int]);
                    }
                    let value = members[at].1.sorted();
                    put_in_place(&mut made, members[at].0.clone(), value);
                    at = at + 1;
                }
                proof {
                    assert(values.take(at as int) =~= values);
                }
                Json::Record(made)
            },
            Json::Null => Json::Null,
            Json::Bool(flag) => Json::Bool(*flag),
            Json::Number(number) => Json::Number(number.clone()),
            Json::Text(text) => Json::Text(text.clone()),
        }
    }

    /// Whether the names of the members of every record in this value, at
    /// any depth, ascend.
    pub fn is_ordered(&self) -> (ordered: bool)
        ensures
            ordered == self@.ordered(),
        decreases self,
    {
        match self {
            Json::List(items) => {
                let ghost view = self@->List_0;
                proof {
                    lemma_items_view(*items);
                    lemma_ordered_parts(Seq::empty(), view);
                }
                let mut at: usize = 0;
                while at < items.len()
                    invariant
                        at <= items.len(),
                        *self == Json::List(*items),
                        view.len() == items.len(),
                        forall|each: int|
                            0 <= each < items.len() ==> #[trigger] view[each] == items[each]@,
                        forall|before: int| 0 <= before < at ==> (#[trigger] view[before]).ordered(),
                        self@ == JsonTree::List(view),
                        JsonTree::List(view).ordered() ==> forall|each: int|
                            0 <= each < view.len() ==> (#[trigger] view[each]).ordered(),
                    decreases items.len() - at,
                {
                    proof {
                        vstd::std_specs::vec::axiom_vec_index_decreases(*items, at as int);
                        assert(decreases_to!(*self => self->List_0));
                    }
                    if !items[at].is_ordered() {
                        assert(!view[at as int].ordered());
                        return false;
                    }
                    at = at + 1;
                }
                true
            },
            Json::Record(members) => {
                let ghost view = members_view(*members);
                proof {
                    lemma_members_view(*members);
                    lemma_ordered_parts(view, Seq::empty());
                }
                let mut at: usize = 0;
                while at < members.len()
                    invariant
                        at <= members.len(),
                        *self == Json::Record(*members),
                        view == members_view(*members),
                        view.len() == members.len(),
                        forall|each: int|
                            0 <= each < members.len() ==> #[trigger] view[each] == (
                                members[each].0@,
                                members[each].1@,
                            ),
                        forall|before: int|
                            0 <= before < at ==> (#[trigger] view[before]).1.ordered(),
                        forall|before: int|
                            0 <= before < at && before < view.len() - 1 ==> precedes(
                                (#[trigger] view[before]).0,
                                view[before + 1].0,
                            ),
                        JsonTree::Record(view).ordered() ==> ascending(view) && forall|each: int|
                            0 <= each < view.len() ==> (#[trigger] view[each]).1.ordered(),
                    decreases members.len() - at,
                {
                    proof {
                        vstd::std_specs::vec::axiom_vec_index_decreases(*members, at as int);
                        assert(decreases_to!(*self => self->Record_0));
                    }
                    if !members[at].1.is_ordered() {
                        assert(!view[at as int].1.ordered());
                        return false;
                    }
                    if at + 1 < members.len() && !name_precedes(
                        members[at].0.as_str(),
                        members[at + 1].0.as_str(),
                    ) {
                        assert(!precedes(view[at as int].0, view[at + 1].0));
                        return false;
                    }
                    at = at + 1;
                }
                assert(ascending(view));
                true
            },
            _ => true,
        }
    }
}

} // verus!
