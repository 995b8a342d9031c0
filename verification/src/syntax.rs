//! JSON text: reading a text into a tree and writing a tree as text. Both
//! are the work of `serde_json`; what is proved here is how its outcomes are
//! turned into this library's results.

use crate::error::DTGCredentialError;
use crate::json::{Json, JsonTree};
use serde_json::Value;
use vstd::prelude::*;
use vstd::string::StringExecFns;

verus! {

/// `serde_json`'s own tree of a JSON document. A record in it keeps its
/// members in the order of their insertion, each name once.
#[verifier::external_type_specification]
#[verifier::external_body]
pub struct ExValue(Value);

/// The error that `serde_json` returns.
#[verifier::external_type_specification]
#[verifier::external_body]
pub struct ExSyntaxError(serde_json::Error);

/// The tree that a `serde_json::Value` holds.
pub uninterp spec fn value_tree(value: Value) -> JsonTree;

/// What `serde_json::from_str` makes of a text: the tree of the value that it
/// returns, or `None` where it returns an error.
pub uninterp spec fn json_reading(text: Seq<char>) -> Option<JsonTree>;

/// What `serde_json::to_string` writes for a value that holds the tree, or
/// `None` where it returns an error.
pub uninterp spec fn json_writing(tree: JsonTree) -> Option<Seq<char>>;

/// What `serde_json::to_string_pretty` writes for a value that holds the
/// tree, or `None` where it returns an error.
pub uninterp spec fn json_writing_pretty(tree: JsonTree) -> Option<Seq<char>>;

/// Reads a text as one JSON value.
///
/// Trusted: this is `serde_json::from_str`, asked for a `Value`. The contract
/// gives its result the name `json_reading`: the same text is read to the
/// same tree, or refused, every time.
#[verifier::external_body]
pub(crate) fn value_from_text(text: &str) -> (read: Result<Value, serde_json::Error>)
    ensures
        match read {
            Ok(value) => json_reading(text@) == Some(value_tree(value)),
            Err(_) => json_reading(text@) is None,
        },
{
    serde_json::from_str::<Value>(text)
}

/// Copies a `serde_json::Value` into a tree of this library.
///
/// Trusted: the body tells the variants of `Value` apart and moves what each
/// holds, a list item by item and a record member by member in the order in
/// which `serde_json` walks it. The contract names the outcome `value_tree`.
#[verifier::external_body]
pub(crate) fn tree_from_value(value: &Value) -> (tree: Json)
    ensures
        tree@ == value_tree(*value),
{
    match value {
        Value::Null => Json::Null,
        Value::Bool(flag) => Json::Bool(*flag),
        Value::Number(number) => Json::Number(number.clone()),
        Value::String(text) => Json::Text(text.clone()),
        Value::Array(items) => Json::List(items.iter().map(tree_from_value).collect()),
        Value::Object(members) => Json::Record(
            members.iter().map(|(name, member)| (name.clone(), tree_from_value(member))).collect(),
        ),
    }
}

/// Copies a tree of this library into a `serde_json::Value`.
///
/// Trusted: the body tells the variants of `Json` apart and moves what each
/// holds; a record is filled member by member in their order. `serde_json`
/// keeps one value for each name, so the value holds the same tree only where
/// no record of the tree has a name twice: that is what the contract asks
/// for, and then claims.
#[verifier::external_body]
pub(crate) fn value_from_tree(tree: &Json) -> (value: Value)
    requires
        tree@.unambiguous(),
    ensures
        value_tree(value) == tree@,
{
    match tree {
        Json::Null => Value::Null,
        Json::Bool(flag) => Value::Bool(*flag),
        Json::Number(number) => Value::Number(number.clone()),
        Json::Text(text) => Value::String(text.clone()),
        Json::List(items) => Value::Array(items.iter().map(value_from_tree).collect()),
        Json::Record(members) => Value::Object(
            members.iter().map(|(name, member)| (name.clone(), value_from_tree(member))).collect(),
        ),
    }
}

/// Writes a value as JSON text on one line.
///
/// Trusted: this is `serde_json::to_string`. The contract gives its result
/// the name `json_writing`, applied to the tree that the value holds.
#[verifier::external_body]
pub(crate) fn text_from_value(value: &Value) -> (written: Result<String, serde_json::Error>)
    ensures
        match written {
            Ok(text) => json_writing(value_tree(*value)) == Some(text@),
            Err(_) => json_writing(value_tree(*value)) is None,
        },
{
    serde_json::to_string(value)
}

/// Writes a value as indented JSON text.
///
/// Trusted: this is `serde_json::to_string_pretty`. The contract gives its
/// result the name `json_writing_pretty`, applied to the tree that the value
/// holds.
#[verifier::external_body]
pub(crate) fn pretty_text_from_value(value: &Value) -> (written: Result<
    String,
    serde_json::Error,
>)
    ensures
        match written {
            Ok(text) => json_writing_pretty(value_tree(*value)) == Some(text@),
            Err(_) => json_writing_pretty(value_tree(*value)) is None,
        },
{
    serde_json::to_string_pretty(value)
}

/// The words of an error of `serde_json`.
///
/// Trusted: this is the error's `Display`, through `to_string`. Nothing is
/// claimed of the text.
#[verifier::external_body]
pub(crate) fn syntax_error_text(error: &serde_json::Error) -> (text: String) {
    error.to_string()
}

impl Json {
    /// Whether no record in this value, at any depth, has two members of one
    /// name.
    pub fn is_unambiguous(&self) -> (clear: bool)
        ensures
            clear == self@.unambiguous(),
        decreases self,
    {
        match self {
            Json::List(items) => {
                proof {
                    crate::json::lemma_items_view(*items);
                }
                let mut at: usize = 0;
                while at < items.len()
                    invariant
                        at <= items.len(),
                        self@ == Json::List(*items)@,
                        *self == Json::List(*items),
                        self@->List_0.len() == items.len(),
                        forall|each: int|
                            0 <= each < items.len() ==> #[trigger] self@->List_0[each]
                                == items[each]@,
                        forall|before: int|
                            0 <= before < at ==> (#[trigger] self@->List_0[before]).unambiguous(),
                    decreases items.len() - at,
                {
                    proof {
                        vstd::std_specs::vec::axiom_vec_index_decreases(*items, at as int);
                        assert(decreases_to!(*self => self->List_0));
                    }
                    if !items[at].is_unambiguous() {
                        assert(!self@->List_0[at as int].unambiguous());
                        return false;
                    }
                    at = at + 1;
                }
                true
            },
            Json::Record(members) => {
                let ghost view = crate::json::members_view(*members);
                proof {
                    crate::json::lemma_members_view(*members);
                    crate::json::lemma_record_unambiguous(view);
                }
                let mut at: usize = 0;
                while at < members.len()
                    invariant
                        at <= members.len(),
                        *self == Json::Record(*members),
                        self@ == JsonTree::Record(view),
                        self@.unambiguous() ==> forall|each: int|
                            0 <= each < view.len() ==> (#[trigger] view[each]).1.unambiguous(),
                        self@.unambiguous() ==> forall|first: int, second: int|
                            0 <= first < second < view.len() ==> (#[trigger] view[first]).0 != (
                            #[trigger] view[second]).0,
                        view.len() == members.len(),
                        forall|each: int|
                            0 <= each < members.len() ==> #[trigger] view[each] == (
                                members[each].0@,
                                members[each].1@,
                            ),
                        forall|before: int|
                            0 <= before < at ==> (#[trigger] view[before]).1.unambiguous(),
                        forall|first: int, second: int|
                            0 <= first < second < at ==> (#[trigger] view[first]).0 != (
                            #[trigger] view[second]).0,
                    decreases members.len() - at,
                {
                    proof {
                        vstd::std_specs::vec::axiom_vec_index_decreases(*members, at as int);
                        assert(decreases_to!(*self => self->Record_0));
                    }
                    if !members[at].1.is_unambiguous() {
                        assert(!view[at as int].1.unambiguous());
                        return false;
                    }
                    let mut earlier: usize = 0;
                    while earlier < at
                        invariant
                            earlier <= at,
                            at < members.len(),
                            self@.unambiguous() ==> forall|first: int, second: int|
                                0 <= first < second < view.len() ==> (#[trigger] view[first]).0 != (
                                #[trigger] view[second]).0,
                            view.len() == members.len(),
                            forall|each: int|
                                0 <= each < members.len() ==> #[trigger] view[each] == (
                                    members[each].0@,
                                    members[each].1@,
                                ),
                            forall|first: int|
                                0 <= first < earlier ==> (#[trigger] view[first]).0
                                    != view[at as int].0,
                        decreases at - earlier,
                    {
                        if crate::text::same_text(
                            members[earlier].0.as_str(),
                            members[at].0.as_str(),
                        ) {
                            assert(view[earlier as int].0 == view[at as int].0);
                            return false;
                        }
                        earlier = earlier + 1;
                    }
                    at = at + 1;
                }
                proof {
                    crate::json::lemma_record_unambiguous(view);
                }
                true
            },
            _ => true,
        }
    }

    /// The tree that a value of `serde_json` holds.
    pub fn from_value(value: &Value) -> (tree: Json)
        ensures
            tree@ == value_tree(*value),
    {
        tree_from_value(value)
    }

    /// A value of `serde_json` that holds this tree; there is none where a
    /// record of the tree has a name twice.
    pub fn to_value(&self) -> (made: Option<Value>)
        ensures
            match made {
                Some(value) => self@.unambiguous() && value_tree(value) == self@,
                None => !self@.unambiguous(),
            },
    {
        if self.is_unambiguous() {
            Some(value_from_tree(self))
        } else {
            None
        }
    }

    /// Reads a text as one JSON value. A name that a record of the text has
    /// twice keeps its last value, as `serde_json` has it.
    pub fn parse(text: &str) -> (read: Result<Json, DTGCredentialError>)
        ensures
            match read {
                Ok(tree) => json_reading(text@) == Some(tree@),
                Err(error) => json_reading(text@) is None && error is MalformedDocument,
            },
    {
        match value_from_text(text) {
            Ok(value) => Ok(tree_from_value(&value)),
            Err(error) => Err(DTGCredentialError::MalformedDocument(syntax_error_text(&error))),
        }
    }

    /// The outcome of writing a tree on one line: the text, or nothing where
    /// a record of the tree has a name twice or `serde_json` fails.
    pub open spec fn written(tree: JsonTree) -> Option<Seq<char>> {
        if tree.unambiguous() {
            json_writing(tree)
        } else {
            None
        }
    }

    /// The outcome of writing a tree with indentation.
    pub open spec fn written_pretty(tree: JsonTree) -> Option<Seq<char>> {
        if tree.unambiguous() {
            json_writing_pretty(tree)
        } else {
            None
        }
    }

    /// Writes this value as JSON text on one line.
    pub fn to_text(&self) -> (written: Result<String, DTGCredentialError>)
        ensures
            match written {
                Ok(text) => Self::written(self@) == Some(text@),
                Err(error) => Self::written(self@) is None && error is MalformedDocument,
            },
    {
        if !self.is_unambiguous() {
            return Err(DTGCredentialError::MalformedDocument(repeated_name_text()));
        }
        let value = value_from_tree(self);
        match text_from_value(&value) {
            Ok(text) => Ok(text),
            Err(error) => Err(DTGCredentialError::MalformedDocument(syntax_error_text(&error))),
        }
    }

    /// Writes this value as JSON text, indented by two spaces a level.
    pub fn to_text_pretty(&self) -> (written: Result<String, DTGCredentialError>)
        ensures
            match written {
                Ok(text) => Self::written_pretty(self@) == Some(text@),
                Err(error) => Self::written_pretty(self@) is None && error is MalformedDocument,
            },
    {
        if !self.is_unambiguous() {
            return Err(DTGCredentialError::MalformedDocument(repeated_name_text()));
        }
        let value = value_from_tree(self);
        match pretty_text_from_value(&value) {
            Ok(text) => Ok(text),
            Err(error) => Err(DTGCredentialError::MalformedDocument(syntax_error_text(&error))),
        }
    }
}

/// What is said of a tree in which a record has a name twice.
pub fn repeated_name_text() -> (text: String)
    ensures
        text@ == "a record has two members of one name"@,
{
    String::from_str("a record has two members of one name")
}

} // verus!
