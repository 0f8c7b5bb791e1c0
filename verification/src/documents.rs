//! Looking things up in JSON and YAML documents, with the crates `serde_json` and `saphyr`.
use saphyr::Yaml;
use vstd::prelude::*;

verus! {

#[verifier::external_type_specification]
#[verifier::external_body]
pub struct ExJsonError(serde_json::Error);

#[verifier::external_type_specification]
#[verifier::external_body]
pub struct ExScanError(saphyr::ScanError);

/// The texts of a list of strings.
pub open spec fn texts(strings: Seq<String>) -> Seq<Seq<char>> {
    strings.map_values(|s: String| s@)
}

/// What a JSON document has at a place that a JSON pointer names, as a list: the JSON texts of
/// the items. `Some(None)` where there is no list, and `None` where the text is no document.
pub uninterp spec fn json_list_at(document: Seq<char>, pointer: Seq<char>) -> Option<
    Option<Seq<Seq<char>>>,
>;

/// What a JSON document has at a place that a JSON pointer names, as a string. `Some(None)`
/// where there is no string, and `None` where the text is no document.
pub uninterp spec fn json_string_at(document: Seq<char>, pointer: Seq<char>) -> Option<
    Option<Seq<char>>,
>;

/// Calls `serde_json::from_str`, `Value::pointer` and `Value::as_array` on a document, and
/// `Value::to_string` on each item. What comes back depends on the two texts alone.
#[verifier::external_body]
pub(crate) fn json_list(document: &str, pointer: &str) -> (res: Result<
    Option<Vec<String>>,
    serde_json::Error,
>)
    ensures
        match res {
            Ok(Some(items)) => json_list_at(document@, pointer@) == Some(Some(texts(items@))),
            Ok(None) => json_list_at(document@, pointer@) == Some(None::<Seq<Seq<char>>>),
            Err(_) => json_list_at(document@, pointer@) is None,
        },
{
    let value: serde_json::Value = serde_json::from_str(document)?;
    let list = value.pointer(pointer).and_then(serde_json::Value::as_array);
    Ok(list.map(|items| items.iter().map(serde_json::Value::to_string).collect()))
}

/// Calls `serde_json::from_str`, `Value::pointer` and `Value::as_str` on a document. What comes
/// back depends on the two texts alone.
#[verifier::external_body]
pub(crate) fn json_string(document: &str, pointer: &str) -> (res: Result<
    Option<String>,
    serde_json::Error,
>)
    ensures
        match res {
            Ok(Some(text)) => json_string_at(document@, pointer@) == Some(Some(text@)),
            Ok(None) => json_string_at(document@, pointer@) == Some(None::<Seq<char>>),
            Err(_) => json_string_at(document@, pointer@) is None,
        },
{
    let value: serde_json::Value = serde_json::from_str(document)?;
    let text = value.pointer(pointer).and_then(serde_json::Value::as_str);
    Ok(text.map(str::to_owned))
}

/// A value of a YAML document.
#[derive(Debug)]
pub enum YamlValue {
    Text(String),
    Flag(bool),
    /// Any other value, or none.
    Other,
}

/// The model of a [`YamlValue`].
pub enum YamlView {
    Text(Seq<char>),
    Flag(bool),
    Other,
}

impl View for YamlValue {
    type V = YamlView;

    open spec fn view(&self) -> YamlView {
        match self {
            YamlValue::Text(text) => YamlView::Text(text@),
            YamlValue::Flag(flag) => YamlView::Flag(*flag),
            YamlValue::Other => YamlView::Other,
        }
    }
}

/// The value to which a path of keys leads in the first of some YAML documents. `Some(None)`
/// where there is no document, and `None` where the text is not YAML.
pub uninterp spec fn yaml_value_at(documents: Seq<char>, path: Seq<Seq<char>>) -> Option<
    Option<YamlView>,
>;

/// Whether a path of keys leads, in the first of some YAML documents, to a mapping with this key.
/// `Some(None)` where there is no document, and `None` where the text is not YAML.
pub uninterp spec fn yaml_key_at(
    documents: Seq<char>,
    path: Seq<Seq<char>>,
    key: Seq<char>,
) -> Option<Option<bool>>;

/// Calls `Yaml::load_from_str`, and follows the path from the first document by indexing with
/// one key after the other. What comes back depends on the texts alone.
#[verifier::external_body]
pub(crate) fn yaml_value(documents: &str, path: &Vec<String>) -> (res: Result<
    Option<YamlValue>,
    saphyr::ScanError,
>)
    ensures
        match res {
            Ok(Some(value)) => yaml_value_at(documents@, texts(path@)) == Some(Some(value@)),
            Ok(None) => yaml_value_at(documents@, texts(path@)) == Some(None::<YamlView>),
            Err(_) => yaml_value_at(documents@, texts(path@)) is None,
        },
{
    let documents = Yaml::load_from_str(documents)?;
    let value = documents.first().map(|first| path.iter().fold(first, |at, key| &at[key.as_str()]));
    Ok(
        value.map(
            |value| match value {
                Yaml::String(text) => YamlValue::Text(text.clone()),
                Yaml::Boolean(flag) => YamlValue::Flag(*flag),
                _ => YamlValue::Other,
            },
        ),
    )
}

/// Calls `Yaml::load_from_str`, follows the path from the first document by indexing with one
/// key after the other, and calls `Yaml::as_hash` and `contains_key` with `Yaml::from_str` of
/// the key. What comes back depends on the texts alone.
#[verifier::external_body]
pub(crate) fn yaml_has_key(documents: &str, path: &Vec<String>, key: &str) -> (res: Result<
    Option<bool>,
    saphyr::ScanError,
>)
    ensures
        match res {
            Ok(found) => yaml_key_at(documents@, texts(path@), key@) == Some(found),
            Err(_) => yaml_key_at(documents@, texts(path@), key@) is None,
        },
{
    let documents = Yaml::load_from_str(documents)?;
    let value = documents.first().map(|first| path.iter().fold(first, |at, key| &at[key.as_str()]));
    let key = Yaml::from_str(key);
    Ok(value.map(|value| value.as_hash().is_some_and(|hash| hash.contains_key(&key))))
}

/// Why a document could not be read.
#[derive(Debug)]
pub enum DocumentError {
    Json(serde_json::Error),
    Yaml(saphyr::ScanError),
}

} // verus!
