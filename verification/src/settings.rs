//! The settings of the environment, as pairs of a name and a value.

use crate::error::{ErrorView, MyError};
use crate::text::constant_time_eq;
use vstd::prelude::*;
use vstd::string::*;

verus! {

/// The value that the settings from position `from` on give to `name`: that
/// of the first setting of this name.
pub open spec fn setting_from(settings: Seq<(String, String)>, name: Seq<char>, from: int) -> Option<
    Seq<char>,
>
    decreases settings.len() - from,
{
    if from < 0 || from >= settings.len() {
        None
    } else if settings[from].0@ == name {
        Some(settings[from].1@)
    } else {
        setting_from(settings, name, from + 1)
    }
}

/// The value that the settings give to `name`.
pub open spec fn setting(settings: Seq<(String, String)>, name: Seq<char>) -> Option<Seq<char>> {
    setting_from(settings, name, 0)
}

/// What is reported of a setting that is needed and not there.
pub open spec fn must_be_set(name: Seq<char>) -> ErrorView {
    ErrorView::MongoError(name + " must be set."@)
}

/// The value that the settings give to `name`, if they give one.
pub fn look_up(settings: &Vec<(String, String)>, name: &str) -> (value: Option<String>)
    ensures
        crate::text::maybe_text(value) == setting(settings@, name@),
{
    let mut i: usize = 0;
    while i < settings.len()
        invariant
            i <= settings.len(),
            setting(settings@, name@) == setting_from(settings@, name@, i as int),
        decreases settings.len() - i,
    {
        if constant_time_eq(settings[i].0.as_str(), name) {
            return Some(settings[i].1.clone());
        }
        i = i + 1;
    }
    None
}

/// The value that the settings give to `name`; an error where they give
/// none.
pub fn required(settings: &Vec<(String, String)>, name: &str) -> (value: Result<String, MyError>)
    ensures
        match setting(settings@, name@) {
            Some(expected) => value is Ok && value->Ok_0@ == expected,
            None => value is Err && value->Err_0@ == must_be_set(name@),
        },
{
    match look_up(settings, name) {
        Some(value) => Ok(value),
        None => Err(MyError::MongoError(String::from_str(name).concat(" must be set."))),
    }
}

/// The first of `names` from position `from` on that the settings do not
/// give.
pub open spec fn first_missing(settings: Seq<(String, String)>, names: Seq<Seq<char>>, from: int) -> Option<
    Seq<char>,
>
    decreases names.len() - from,
{
    if from < 0 || from >= names.len() {
        None
    } else if setting(settings, names[from]) is None {
        Some(names[from])
    } else {
        first_missing(settings, names, from + 1)
    }
}

} // verus!
