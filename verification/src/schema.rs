//! The schema of the two payloads: which JSON values are options, which are a context,
//! and the record that each stands for.
//!
//! Options are an object with the optional members `ignore` (an array of strings),
//! `prefixPattern` (a string) and `filename` (a string or `null`). Any other member is
//! an error. A context is an object with the optional member `filename` (a string or
//! `null`); its other members are not looked at. In both, a member of the schema that
//! is given twice is an error.

use vstd::prelude::*;
use crate::config::{
    Config, ConfigView, ContextView, PluginContext, default_prefix_pattern, placeholder, text_of,
    texts,
};
use crate::json::{Json, JsonView, decoded, member_models, models};
use crate::text::same_text;

verus! {

/// Why a payload was refused.
#[derive(Clone, Copy, Debug, PartialEq, Eq, Structural)]
pub enum ParseError {
    /// The text is not JSON.
    Syntax,
    /// The value is not an object.
    NotAnObject,
    /// The options hold a member that the schema does not know.
    UnknownField,
    /// A member of the schema is given more than once.
    DuplicateField,
    /// `ignore` is not an array of strings.
    InvalidIgnore,
    /// `prefixPattern` is not a string.
    InvalidPrefixPattern,
    /// `filename` is neither a string nor `null`.
    InvalidFilename,
}

/// The members of an object, as the schema sees them.
pub type Members = Seq<(Seq<char>, JsonView)>;

/// The key of the member that lists the exempt methods.
pub open spec fn ignore_key() -> Seq<char> {
    "ignore"@
}

/// The key of the member that gives the prefix pattern.
pub open spec fn prefix_pattern_key() -> Seq<char> {
    "prefixPattern"@
}

/// The key of the member that gives the file name.
pub open spec fn filename_key() -> Seq<char> {
    "filename"@
}

/// Whether `key` is a member of the options' schema.
pub open spec fn known_key(key: Seq<char>) -> bool {
    key == ignore_key() || key == prefix_pattern_key() || key == filename_key()
}

/// Whether some member has a key outside the options' schema.
pub open spec fn has_unknown(members: Members) -> bool {
    exists|i: int| 0 <= i < members.len() && !known_key((#[trigger] members[i]).0)
}

/// Whether a member with the key `key` is there.
pub open spec fn has_member(members: Members, key: Seq<char>) -> bool {
    exists|i: int| 0 <= i < members.len() && (#[trigger] members[i]).0 == key
}

/// Whether two members have the key `key`.
pub open spec fn repeats(members: Members, key: Seq<char>) -> bool {
    exists|i: int, j: int|
        0 <= i < j < members.len() && (#[trigger] members[i]).0 == key && (#[trigger] members[j]).0
            == key
}

/// The value of the member with the key `key`. It is only of use where there is exactly
/// one such member.
pub open spec fn member(members: Members, key: Seq<char>) -> JsonView {
    members[choose|i: int| 0 <= i < members.len() && (#[trigger] members[i]).0 == key].1
}

/// The strings of an array of strings; `None` for any other value.
pub open spec fn names_of(value: JsonView) -> Option<Seq<Seq<char>>> {
    match value {
        JsonView::Array(items) => if forall|i: int| 0 <= i < items.len() ==> (#[trigger] items[i]) is Text {
            Some(Seq::new(items.len(), |i: int| items[i]->Text_0))
        } else {
            None
        },
        _ => None,
    }
}

/// The file name that a `filename` member gives: a string is that name, `null` is no
/// name (the inner `None`), and any other value is not allowed (the outer `None`).
pub open spec fn filename_of(value: JsonView) -> Option<Option<Seq<char>>> {
    match value {
        JsonView::Text(name) => Some(Some(name)),
        JsonView::Null => Some(None),
        _ => None,
    }
}

/// The options that a JSON value stands for, or why it stands for none.
///
/// Where several things are wrong, the error is the first that applies of: not an
/// object, an unknown member, a repeated member, then a wrong value for `ignore`, for
/// `prefixPattern` and for `filename`. A member that is left out has its default.
pub open spec fn config_of(value: JsonView) -> Result<ConfigView, ParseError> {
    match value {
        JsonView::Object(members) => {
            if has_unknown(members) {
                Err(ParseError::UnknownField)
            } else if repeats(members, ignore_key()) || repeats(members, prefix_pattern_key())
                || repeats(members, filename_key()) {
                Err(ParseError::DuplicateField)
            } else if has_member(members, ignore_key()) && names_of(
                member(members, ignore_key()),
            ) is None {
                Err(ParseError::InvalidIgnore)
            } else if has_member(members, prefix_pattern_key()) && !(member(
                members,
                prefix_pattern_key(),
            ) is Text) {
                Err(ParseError::InvalidPrefixPattern)
            } else if has_member(members, filename_key()) && filename_of(
                member(members, filename_key()),
            ) is None {
                Err(ParseError::InvalidFilename)
            } else {
                Ok(
                    ConfigView {
                        ignore: if has_member(members, ignore_key()) {
                            names_of(member(members, ignore_key()))->0
                        } else {
                            Seq::empty()
                        },
                        prefix_pattern: if has_member(members, prefix_pattern_key()) {
                            member(members, prefix_pattern_key())->Text_0
                        } else {
                            placeholder()
                        },
                        filename: if has_member(members, filename_key()) {
                            filename_of(member(members, filename_key()))->0
                        } else {
                            None
                        },
                    },
                )
            }
        },
        _ => Err(ParseError::NotAnObject),
    }
}

/// The context that a JSON value stands for, or why it stands for none. Only the
/// member `filename` is read.
pub open spec fn context_of(value: JsonView) -> Result<ContextView, ParseError> {
    match value {
        JsonView::Object(members) => {
            if repeats(members, filename_key()) {
                Err(ParseError::DuplicateField)
            } else if has_member(members, filename_key()) && filename_of(
                member(members, filename_key()),
            ) is None {
                Err(ParseError::InvalidFilename)
            } else {
                Ok(
                    ContextView {
                        filename: if has_member(members, filename_key()) {
                            filename_of(member(members, filename_key()))->0
                        } else {
                            None
                        },
                    },
                )
            }
        },
        _ => Err(ParseError::NotAnObject),
    }
}

/// The options that a text stands for: the text has to be JSON, and the JSON has to
/// be options.
pub open spec fn config_of_text(text: Seq<char>) -> Result<ConfigView, ParseError> {
    match decoded(text) {
        Some(value) => config_of(value),
        None => Err(ParseError::Syntax),
    }
}

/// The context that a text stands for: the text has to be JSON, and the JSON has to
/// be a context.
pub open spec fn context_of_text(text: Seq<char>) -> Result<ContextView, ParseError> {
    match decoded(text) {
        Some(value) => context_of(value),
        None => Err(ParseError::Syntax),
    }
}

/// The model of the outcome of reading options.
pub open spec fn config_outcome(outcome: Result<Config, ParseError>) -> Result<
    ConfigView,
    ParseError,
> {
    match outcome {
        Ok(config) => Ok(config@),
        Err(e) => Err(e),
    }
}

/// The model of the outcome of reading a context.
pub open spec fn context_outcome(outcome: Result<PluginContext, ParseError>) -> Result<
    ContextView,
    ParseError,
> {
    match outcome {
        Ok(context) => Ok(context@),
        Err(e) => Err(e),
    }
}

/// Looks for the member with the key `key`: `Ok` with its index where there is exactly
/// one, `Ok(None)` where there is none, and an error where there are several.
fn locate(members: &Vec<(String, Json)>, key: &str) -> (place: Result<Option<usize>, ParseError>)
    ensures
        match place {
            Ok(None) => !has_member(member_models(members@), key@),
            Ok(Some(at)) => {
                &&& at < members.len()
                &&& has_member(member_models(members@), key@)
                &&& !repeats(member_models(members@), key@)
                &&& member(member_models(members@), key@) == members[at as int].1@
            },
            Err(e) => e == ParseError::DuplicateField && repeats(member_models(members@), key@),
        },
{
    let ghost all = member_models(members@);
    let n = members.len();
    let mut found: Option<usize> = None;
    let mut i: usize = 0;
    while i < n
        invariant
            i <= n,
            n == members.len(),
            all == member_models(members@),
            match found {
                Some(at) => at < i && all[at as int].0 == key@ && forall|j: int|
                    0 <= j < i && j != at ==> (#[trigger] all[j]).0 != key@,
                None => forall|j: int| 0 <= j < i ==> (#[trigger] all[j]).0 != key@,
            },
        decreases n - i,
    {
        if same_text(members[i].0.as_str(), key) {
            match found {
                Some(at) => {
                    assert(all[at as int].0 == key@ && all[i as int].0 == key@);
                    return Err(ParseError::DuplicateField);
                },
                None => {
                    found = Some(i);
                },
            }
        }
        i = i + 1;
    }
    proof {
        if let Some(at) = found {
            // No other member has the key, so this is the one that `member` picks.
            let picked = choose|c: int| 0 <= c < all.len() && (#[trigger] all[c]).0 == key@;
            assert(picked == at);
        }
    }
    Ok(found)
}

/// The strings of `value`, where `value` is an array of strings.
fn names(value: &Json) -> (list: Option<Vec<String>>)
    ensures
        match list {
            Some(names) => names_of(value@) == Some(texts(names@)),
            None => names_of(value@) is None,
        },
{
    match value {
        Json::Array(items) => {
            let ghost all = models(items@);
            let n = items.len();
            let mut list: Vec<String> = Vec::new();
            let mut i: usize = 0;
            while i < n
                invariant
                    i <= n,
                    n == items.len(),
                    all == models(items@),
                    value@ == JsonView::Array(all),
                    list.len() == i,
                    forall|j: int| 0 <= j < i ==> (#[trigger] all[j]) is Text,
                    forall|j: int| 0 <= j < i ==> (#[trigger] list[j])@ == all[j]->Text_0,
                decreases n - i,
            {
                match &items[i] {
                    Json::Text(name) => {
                        list.push(name.clone());
                    },
                    _ => {
                        assert(!(all[i as int] is Text));
                        return None;
                    },
                }
                i = i + 1;
            }
            Some(list)
        },
        _ => None,
    }
}

/// The file name that `value` gives as a `filename` member; `Err` where `value` is
/// neither a string nor `null`.
fn filename(value: &Json) -> (name: Result<Option<String>, ParseError>)
    ensures
        match name {
            Ok(name) => filename_of(value@) == Some(text_of(name)),
            Err(e) => e == ParseError::InvalidFilename && filename_of(value@) is None,
        },
{
    match value {
        Json::Text(name) => Ok(Some(name.clone())),
        Json::Null => Ok(None),
        _ => Err(ParseError::InvalidFilename),
    }
}

/// Whether `key` is one of the three keys of the options.
fn is_known_key(key: &str) -> (known: bool)
    ensures
        known == known_key(key@),
{
    same_text(key, "ignore") || same_text(key, "prefixPattern") || same_text(key, "filename")
}

impl Config {
    /// Reads options from a JSON value. Members that are left out get their defaults;
    /// a member that the schema does not know is an error.
    pub fn from_json(value: &Json) -> (outcome: Result<Config, ParseError>)
        ensures
            config_outcome(outcome) == config_of(value@),
    {
        let members = match value {
            Json::Object(members) => members,
            _ => {
                return Err(ParseError::NotAnObject);
            },
        };
        let ghost all = member_models(members@);
        let n = members.len();
        let mut i: usize = 0;
        while i < n
            invariant
                i <= n,
                n == members.len(),
                all == member_models(members@),
                value@ == JsonView::Object(all),
                forall|j: int| 0 <= j < i ==> known_key((#[trigger] all[j]).0),
            decreases n - i,
        {
            if !is_known_key(members[i].0.as_str()) {
                assert(!known_key(all[i as int].0));
                return Err(ParseError::UnknownField);
            }
            i = i + 1;
        }
        let ignore_at = locate(members, "ignore")?;
        let prefix_pattern_at = locate(members, "prefixPattern")?;
        let filename_at = locate(members, "filename")?;
        let ignore = match ignore_at {
            Some(at) => match names(&members[at].1) {
                Some(list) => list,
                None => {
                    return Err(ParseError::InvalidIgnore);
                },
            },
            None => Vec::new(),
        };
        let prefix_pattern = match prefix_pattern_at {
            Some(at) => match &members[at].1 {
                Json::Text(pattern) => pattern.clone(),
                _ => {
                    return Err(ParseError::InvalidPrefixPattern);
                },
            },
            None => default_prefix_pattern(),
        };
        let filename = match filename_at {
            Some(at) => filename(&members[at].1)?,
            None => None,
        };
        let config = Config { ignore, prefix_pattern, filename };
        assert(config@.ignore =~= config_of(value@)->Ok_0.ignore);
        Ok(config)
    }

    /// Reads options from JSON text.
    pub fn parse(text: &str) -> (outcome: Result<Config, ParseError>)
        ensures
            config_outcome(outcome) == config_of_text(text@),
    {
        match crate::json::parse(text) {
            Some(value) => Config::from_json(&value),
            None => Err(ParseError::Syntax),
        }
    }
}

impl PluginContext {
    /// Reads a context from a JSON value. Only the member `filename` is read.
    pub fn from_json(value: &Json) -> (outcome: Result<PluginContext, ParseError>)
        ensures
            context_outcome(outcome) == context_of(value@),
    {
        let members = match value {
            Json::Object(members) => members,
            _ => {
                return Err(ParseError::NotAnObject);
            },
        };
        let filename = match locate(members, "filename")? {
            Some(at) => filename(&members[at].1)?,
            None => None,
        };
        Ok(PluginContext { filename })
    }

    /// Reads a context from JSON text.
    pub fn parse(text: &str) -> (outcome: Result<PluginContext, ParseError>)
        ensures
            context_outcome(outcome) == context_of_text(text@),
    {
        match crate::json::parse(text) {
            Some(value) => PluginContext::from_json(&value),
            None => Err(ParseError::Syntax),
        }
    }
}

} // verus!
