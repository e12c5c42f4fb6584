//! What a Steam account adds to its settings, and its JSON form.

use vstd::prelude::*;
use crate::config::format::lemma_names;
use crate::config::format::read_text;
use crate::config::format::required_text;
use crate::json::Json;
use crate::json::json_of;
use crate::json::lemma_lookup_push;

verus! {

/// The credentials of a Steam account: all three are required.
#[derive(Clone, Debug, PartialEq, Eq)]
pub struct Data {
    pub id: String,
    pub key: String,
    pub username: String,
}

/// A [`Data`] as plain values.
pub struct DataView {
    pub id: Seq<char>,
    pub key: Seq<char>,
    pub username: Seq<char>,
}

impl View for Data {
    type V = DataView;

    open spec fn view(&self) -> DataView {
        DataView { id: self.id@, key: self.key@, username: self.username@ }
    }
}

impl DataView {
    /// The tree of the credentials: an object with the three texts.
    pub open spec fn encoded(self) -> Json {
        Json::Object(
            Seq::<(Seq<char>, Json)>::empty()
                .push(("id"@, Json::Text(self.id)))
                .push(("key"@, Json::Text(self.key)))
                .push(("username"@, Json::Text(self.username))),
        )
    }

    /// The credentials that a tree spells: an object with the three texts.
    pub open spec fn decoded(tree: Json) -> Option<DataView> {
        match (
            required_text(tree.member("id"@)),
            required_text(tree.member("key"@)),
            required_text(tree.member("username"@)),
        ) {
            (Some(id), Some(key), Some(username)) => Some(DataView { id, key, username }),
            _ => None,
        }
    }

    /// The account settings that an optional member spells: none where the
    /// member is missing or `null`. The outer `None` says that the member
    /// spells no optional settings.
    pub open spec fn decoded_optional(member: Option<Json>) -> Option<Option<DataView>> {
        match member {
            None => Some(None),
            Some(Json::Null) => Some(None),
            Some(tree) => match DataView::decoded(tree) {
                Some(data) => Some(Some(data)),
                None => None,
            },
        }
    }

    /// Written account settings read back as themselves.
    pub proof fn lemma_round_trip(self)
        ensures
            DataView::decoded(self.encoded()) == Some(self),
            DataView::decoded_optional(Some(self.encoded())) == Some(Some(self)),
    {
        lemma_names();
        lemma_lookup_push();
    }
}

impl Data {
    /// Writes the credentials.
    pub fn to_value(&self) -> (r: serde_json::Value)
        ensures
            json_of(r) == self@.encoded(),
    {
        proof {
            lemma_names();
        lemma_lookup_push();
        }
        let mut fields = crate::json::no_fields();
        crate::json::put(&mut fields, "id", crate::json::text(self.id.clone()));
        crate::json::put(&mut fields, "key", crate::json::text(self.key.clone()));
        crate::json::put(&mut fields, "username", crate::json::text(self.username.clone()));
        crate::json::object(fields)
    }

    /// Reads the credentials.
    pub fn from_value(value: &serde_json::Value) -> (r: Option<Data>)
        ensures
            match r {
                Some(data) => DataView::decoded(json_of(*value)) == Some(data@),
                None => DataView::decoded(json_of(*value)) is None,
            },
    {
        let id = match read_text(value, "id") {
            Some(id) => id,
            None => return None,
        };
        let key = match read_text(value, "key") {
            Some(key) => key,
            None => return None,
        };
        let username = match read_text(value, "username") {
            Some(username) => username,
            None => return None,
        };
        Some(Data { id, key, username })
    }

    /// Reads account settings from an optional member.
    pub(crate) fn read_optional(value: &serde_json::Value, key: &str) -> (r: Option<Option<Data>>)
        ensures
            match r {
                Some(Some(data)) => DataView::decoded_optional(json_of(*value).member(key@))
                    == Some(Some(data@)),
                Some(None) => DataView::decoded_optional(json_of(*value).member(key@)) == Some(
                    None::<DataView>,
                ),
                None => DataView::decoded_optional(json_of(*value).member(key@)) is None,
            },
    {
        match crate::json::member(value, key) {
            None => Some(None),
            Some(found) => if found.is_null() {
                Some(None)
            } else {
                match Data::from_value(found) {
                    Some(data) => Some(Some(data)),
                    None => None,
                }
            },
        }
    }
}

} // verus!
