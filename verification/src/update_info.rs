//! The report that the update check prints on a host, read from its JSON form.

use vstd::prelude::*;
use crate::json::{get_member, member, parse_json, json_document, Json};
use crate::model::{optional_text, texts};

verus! {

/// The update that the host would move to.
#[derive(Debug, Clone, PartialEq, Eq)]
pub struct ChosenUpdate {
    pub arch: String,
    pub version: String,
    pub variant: String,
}

pub struct ChosenUpdateView {
    pub arch: Seq<char>,
    pub version: Seq<char>,
    pub variant: Seq<char>,
}

impl View for ChosenUpdate {
    type V = ChosenUpdateView;

    open spec fn view(&self) -> ChosenUpdateView {
        ChosenUpdateView { arch: self.arch@, version: self.version@, variant: self.variant@ }
    }
}

/// What the update check reports.
#[derive(Debug, Clone, PartialEq, Eq)]
pub struct UpdateInfo {
    /// `"Available"` when an update waits; any other text when none does.
    pub update_state: String,
    pub chosen_update: Option<ChosenUpdate>,
    /// The versions on offer.
    pub available_updates: Vec<String>,
}

pub struct UpdateInfoView {
    pub update_state: Seq<char>,
    pub chosen_update: Option<ChosenUpdateView>,
    pub available_updates: Seq<Seq<char>>,
}

impl View for UpdateInfo {
    type V = UpdateInfoView;

    open spec fn view(&self) -> UpdateInfoView {
        UpdateInfoView {
            update_state: self.update_state@,
            chosen_update: match self.chosen_update {
                Some(chosen) => Some(chosen@),
                None => None,
            },
            available_updates: texts(self.available_updates@),
        }
    }
}

/// The view of an optional report.
pub open spec fn optional_info(info: Option<UpdateInfo>) -> Option<UpdateInfoView> {
    match info {
        Some(i) => Some(i@),
        None => None,
    }
}

/// The text of a JSON string; `None` for any other value.
pub open spec fn text_of(json: Json) -> Option<Seq<char>> {
    match json {
        Json::Str(s) => Some(s@),
        _ => None,
    }
}

/// The text of the member `key`, where that member is there and is a string.
pub open spec fn text_member(members: Seq<(String, Json)>, key: Seq<char>) -> Option<Seq<char>> {
    match member(members, key) {
        Some(value) => text_of(value),
        None => None,
    }
}

/// Whether every item is a JSON string.
pub open spec fn all_texts(items: Seq<Json>) -> bool {
    forall|i: int| 0 <= i < items.len() ==> (#[trigger] text_of(items[i])) is Some
}

/// The texts of a sequence of JSON strings, in order.
pub open spec fn item_texts(items: Seq<Json>) -> Seq<Seq<char>> {
    Seq::new(items.len(), |i: int| text_of(items[i]).unwrap())
}

/// The list of strings that a JSON value holds; `None` unless it is an array of strings.
pub open spec fn text_list_of(json: Json) -> Option<Seq<Seq<char>>> {
    match json {
        Json::Array(items) => if all_texts(items@) {
            Some(item_texts(items@))
        } else {
            None
        },
        _ => None,
    }
}

/// The chosen update that a JSON value holds; `None` unless it is an object whose members
/// `arch`, `version` and `variant` are strings.
pub open spec fn chosen_update_of(json: Json) -> Option<ChosenUpdateView> {
    match json {
        Json::Object(members) => match (
            text_member(members@, "arch"@),
            text_member(members@, "version"@),
            text_member(members@, "variant"@),
        ) {
            (Some(arch), Some(version), Some(variant)) => Some(
                ChosenUpdateView { arch, version, variant },
            ),
            _ => None,
        },
        _ => None,
    }
}

/// The member `chosen_update` of a report. The outer `None` says that the member is there
/// and is neither `null` nor a well-formed chosen update; `Some(None)` that it is missing
/// or `null`.
pub open spec fn optional_chosen_update_of(found: Option<Json>) -> Option<Option<ChosenUpdateView>> {
    match found {
        None => Some(None),
        Some(Json::Null) => Some(None),
        Some(value) => match chosen_update_of(value) {
            Some(chosen) => Some(Some(chosen)),
            None => None,
        },
    }
}

/// The report that a JSON document holds: an object with a string `update_state`, an array
/// of strings `available_updates` and, optionally, an object `chosen_update`. Other members
/// are passed over. `None` for every other document.
pub open spec fn update_info_of(json: Json) -> Option<UpdateInfoView> {
    match json {
        Json::Object(members) => match (
            text_member(members@, "update_state"@),
            member(members@, "available_updates"@),
            optional_chosen_update_of(member(members@, "chosen_update"@)),
        ) {
            (Some(update_state), Some(list), Some(chosen_update)) => match text_list_of(list) {
                Some(available_updates) => Some(
                    UpdateInfoView { update_state, chosen_update, available_updates },
                ),
                None => None,
            },
            _ => None,
        },
        _ => None,
    }
}

/// The report that a text holds: that of its JSON document, where the text is one.
pub open spec fn update_info_of_text(text: Seq<char>) -> Option<UpdateInfoView> {
    match json_document(text) {
        Some(json) => update_info_of(json),
        None => None,
    }
}

fn get_text(members: &Vec<(String, Json)>, key: &str) -> (text: Option<String>)
    ensures
        optional_text(text) == text_member(members@, key@),
{
    match get_member(members, key) {
        Some(Json::Str(s)) => Some(s.clone()),
        _ => None,
    }
}

fn get_text_list(json: &Json) -> (list: Option<Vec<String>>)
    ensures
        match list {
            Some(l) => text_list_of(*json) == Some(texts(l@)),
            None => text_list_of(*json) is None,
        },
{
    match json {
        Json::Array(items) => {
            let mut list: Vec<String> = Vec::new();
            let mut i: usize = 0;
            while i < items.len()
                invariant
                    i <= items.len(),
                    list@.len() == i,
                    *json == Json::Array(*items),
                    forall|j: int| 0 <= j < i ==> (#[trigger] text_of(items@[j])) == Some(list@[j]@),
                decreases items.len() - i,
            {
                match &items[i] {
                    Json::Str(s) => {
                        list.push(s.clone());
                    },
                    _ => {
                        assert(text_of(items@[i as int]) is None);
                        assert(!all_texts(items@));
                        return None;
                    },
                }
                i += 1;
            }
            assert(texts(list@) =~= item_texts(items@));
            Some(list)
        },
        _ => None,
    }
}

fn get_chosen_update(json: &Json) -> (chosen: Option<ChosenUpdate>)
    ensures
        match chosen {
            Some(c) => chosen_update_of(*json) == Some(c@),
            None => chosen_update_of(*json) is None,
        },
{
    match json {
        Json::Object(members) => {
            let arch = get_text(members, "arch");
            let version = get_text(members, "version");
            let variant = get_text(members, "variant");
            match (arch, version, variant) {
                (Some(arch), Some(version), Some(variant)) => Some(
                    ChosenUpdate { arch, version, variant },
                ),
                _ => None,
            }
        },
        _ => None,
    }
}

/// Reads the report out of a JSON document. `None` says that the document is not a report.
pub fn update_info_from_json(json: &Json) -> (info: Option<UpdateInfo>)
    ensures
        optional_info(info) == update_info_of(*json),
{
    match json {
        Json::Object(members) => {
            let update_state = match get_text(members, "update_state") {
                Some(text) => text,
                None => { return None; },
            };
            let available_updates = match get_member(members, "available_updates") {
                Some(list) => match get_text_list(list) {
                    Some(texts) => texts,
                    None => { return None; },
                },
                None => { return None; },
            };
            let chosen_update = match get_member(members, "chosen_update") {
                None => None,
                Some(Json::Null) => None,
                Some(value) => match get_chosen_update(value) {
                    Some(chosen) => Some(chosen),
                    None => { return None; },
                },
            };
            Some(UpdateInfo { update_state, chosen_update, available_updates })
        },
        _ => None,
    }
}

/// Reads the report that the update check printed. `None` says that the text is not a JSON
/// document or that the document is not a report.
pub fn parse_update_info(text: &str) -> (info: Option<UpdateInfo>)
    ensures
        optional_info(info) == update_info_of_text(text@),
{
    match parse_json(text) {
        Some(json) => update_info_from_json(&json),
        None => None,
    }
}

} // verus!
