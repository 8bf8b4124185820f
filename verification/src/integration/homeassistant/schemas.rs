//! The shape of what the hub is sent.
use crate::json::{empty_object, insert_member, json_model, null, object_of, string, JsonModel};
use serde_json::Value;
use vstd::prelude::*;
use vstd::string::*;

verus! {

/// The state of an entity of the hub, with its attributes. Two states are
/// equal where they hold the same attributes in the same order.
#[derive(Debug, PartialEq)]
pub struct StateCreateOrUpdate {
    pub state: String,
    /// The attributes by name, in the order in which they were given. A
    /// well-formed state names no attribute twice.
    pub attributes: Option<Vec<(String, String)>>,
}

/// A state with its attributes, as mathematical values.
pub struct StateModel {
    pub state: Seq<char>,
    pub attributes: Option<Seq<(Seq<char>, Seq<char>)>>,
}

/// The attributes as members of a JSON object: each value is a JSON string.
pub open spec fn attribute_entries(attributes: Seq<(Seq<char>, Seq<char>)>) -> Seq<
    (Seq<char>, JsonModel),
> {
    Seq::new(attributes.len(), |i: int| (attributes[i].0, JsonModel::Text(attributes[i].1)))
}

impl StateModel {
    /// No attribute is named twice.
    pub open spec fn wf(self) -> bool {
        self.attributes matches Some(attributes) ==> forall|i: int, j: int|
            0 <= i < j < attributes.len() ==> attributes[i].0 != attributes[j].0
    }

    /// The JSON value that the hub is sent: an object with the member
    /// `state`, a string, and the member `attributes`, an object of strings,
    /// or null where there are none. Of two attributes with one name the
    /// later one counts.
    pub open spec fn json(self) -> JsonModel {
        JsonModel::Object(
            Map::empty().insert("state"@, JsonModel::Text(self.state)).insert(
                "attributes"@,
                match self.attributes {
                    Some(attributes) => JsonModel::Object(
                        object_of(attribute_entries(attributes)),
                    ),
                    None => JsonModel::Null,
                },
            ),
        )
    }
}

impl View for StateCreateOrUpdate {
    type V = StateModel;

    open spec fn view(&self) -> StateModel {
        StateModel {
            state: self.state@,
            attributes: match self.attributes {
                Some(attributes) => Some(
                    Seq::new(
                        attributes@.len(),
                        |i: int| (attributes@[i].0@, attributes@[i].1@),
                    ),
                ),
                None => None,
            },
        }
    }
}

impl StateCreateOrUpdate {
    /// The JSON value that the hub is sent for the state.
    pub fn to_json(&self) -> (value: Value)
        ensures
            json_model(value) == self@.json(),
    {
        let attributes = match &self.attributes {
            None => null(),
            Some(attributes) => {
                let ghost entries = attribute_entries(self@.attributes->0);
                let mut object = empty_object();
                let mut i: usize = 0;
                proof {
                    assert(entries.take(0) =~= Seq::empty());
                }
                while i < attributes.len()
                    invariant
                        i <= attributes.len(),
                        entries.len() == attributes@.len(),
                        forall|k: int|
                            0 <= k < entries.len() ==> #[trigger] entries[k] == (
                                attributes@[k].0@,
                                JsonModel::Text(attributes@[k].1@),
                            ),
                        json_model(object) == JsonModel::Object(object_of(entries.take(i as int))),
                    decreases attributes.len() - i,
                {
                    proof {
                        let next = entries.take(i + 1);
                        assert(next.drop_last() =~= entries.take(i as int));
                        assert(next.last() == entries[i as int]);
                    }
                    insert_member(
                        &mut object,
                        attributes[i].0.clone(),
                        string(attributes[i].1.as_str()),
                    );
                    i += 1;
                }
                proof {
                    assert(entries.take(i as int) =~= entries);
                }
                object
            },
        };
        let mut value = empty_object();
        insert_member(&mut value, String::from_str("state"), string(self.state.as_str()));
        insert_member(&mut value, String::from_str("attributes"), attributes);
        value
    }
}

} // verus!
