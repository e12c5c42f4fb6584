//! What a PlayStation account adds to its settings, and its JSON form.

use vstd::prelude::*;
use crate::config::format::lemma_names;
use crate::config::format::optional_text;
use crate::config::format::read_optional_text;
use crate::config::format::text_or_null;
use crate::config::format::write_optional_text;
use crate::json::Json;
use crate::json::json_of;
use crate::json::lemma_lookup_push;

verus! {

/// The identity of a PlayStation account; the name is optional.
#[derive(Clone, Debug, PartialEq, Eq)]
pub struct Data {
    pub username: Option<String>,
}

/// A [`Data`] as plain values.
pub struct DataView {
    pub username: Option<Seq<char>>,
}

impl View for Data {
    type V = DataView;

    open spec fn view(&self) -> DataView {
        DataView { username: crate::config::text_view(self.username) }
    }
}

impl DataView {
    /// The tree of the account's settings: an object with the name, or `null`
    /// in its place.
    pub open spec fn encoded(self) -> Json {
        Json::Object(Seq::<(Seq<char>, Json)>::empty()
            .push(("username"@, text_or_null(self.username))))
    }

    /// The account settings that a tree spells: any object whose name, if it
    /// has one, is a text or `null`.
    pub open spec fn decoded(tree: Json) -> Option<DataView> {
        if tree is Object {
            match optional_text(tree.member("username"@)) {
                Some(username) => Some(DataView { username }),
                None => None,
            }
        } else {
            None
        }
    }

    /// The account settings that an optional member spells: none where the
    /// member is missing or `null`. The outer `None` says that the member
    /// spells no optional settings.
    pub open spec fn decoded_optional(member: Option<Json>) -> Option<Option<DataView>> {
        match member {
            None => Some(None),
            Some(Json::Null) => Some(None),
            Some(tree) => match DataView::decoded(tree) {
                Some(data) => Some(Some(data)),
                None => None,
            },
        }
    }

    /// Written account settings read back as themselves.
    pub proof fn lemma_round_trip(self)
        ensures
            DataView::decoded(self.encoded()) == Some(self),
            DataView::decoded_optional(Some(self.encoded())) == Some(Some(self)),
    {
        lemma_names();
        lemma_lookup_push();
    }
}

impl Data {
    /// Writes the account's settings.
    pub fn to_value(&self) -> (r: serde_json::Value)
        ensures
            json_of(r) == self@.encoded(),
    {
        let mut fields = crate::json::no_fields();
        crate::json::put(&mut fields, "username", write_optional_text(&self.username));
        crate::json::object(fields)
    }

    /// Reads the account's settings.
    pub fn from_value(value: &serde_json::Value) -> (r: Option<Data>)
        ensures
            match r {
                Some(data) => DataView::decoded(json_of(*value)) == Some(data@),
                None => DataView::decoded(json_of(*value)) is None,
            },
    {
        if !value.is_object() {
            return None;
        }
        match read_optional_text(value, "username") {
            Some(username) => Some(Data { username }),
            None => None,
        }
    }

    /// Reads account settings from an optional member.
    pub(crate) fn read_optional(value: &serde_json::Value, key: &str) -> (r: Option<Option<Data>>)
        ensures
            match r {
                Some(Some(data)) => DataView::decoded_optional(json_of(*value).member(key@))
                    == Some(Some(data@)),
                Some(None) => DataView::decoded_optional(json_of(*value).member(key@)) == Some(
                    None::<DataView>,
                ),
                None => DataView::decoded_optional(json_of(*value).member(key@)) is None,
            },
    {
        match crate::json::member(value, key) {
            None => Some(None),
            Some(found) => if found.is_null() {
                Some(None)
            } else {
                match Data::from_value(found) {
                    Some(data) => Some(Some(data)),
                    None => None,
                }
            },
        }
    }
}

} // verus!
