//! The game's engine build information, as the overlay reports it.
use vstd::prelude::*;

verus! {

/// The engine's revision and build time.
pub struct StateBuildInfo {
    pub revision: String,
    pub build_datetime: String,
}

/// What a string that could not be read stands as: empty.
pub open spec fn text_or_empty(text: Option<Seq<char>>) -> Seq<char> {
    match text {
        Some(t) => t,
        None => Seq::empty(),
    }
}

/// The view of an optional string.
pub open spec fn opt_view(text: &Option<String>) -> Option<Seq<char>> {
    match text {
        Some(t) => Some(t@),
        None => None,
    }
}

/// The text of an optional string, or the empty string.
fn string_or_empty(text: Option<String>) -> (s: String)
    ensures
        s@ == text_or_empty(opt_view(&text)),
{
    match text {
        Some(t) => t,
        None => String::new(),
    }
}

impl StateBuildInfo {
    /// The build information when the engine's build record cannot be found
    /// or read: both fields are "unknown".
    pub fn unknown() -> (info: Self)
        ensures
            info.revision@ == "unknown"@,
            info.build_datetime@ == "unknown"@,
    {
        StateBuildInfo {
            revision: String::from_str("unknown"),
            build_datetime: String::from_str("unknown"),
        }
    }

    /// The build information from the engine's build record: its revision,
    /// and its build date and time joined by a space. A string the record
    /// leaves unset counts as empty.
    pub fn from_engine(
        revision: Option<String>,
        build_date: Option<String>,
        build_time: Option<String>,
    ) -> (info: Self)
        ensures
            info.revision@ == text_or_empty(opt_view(&revision)),
            info.build_datetime@ == text_or_empty(opt_view(&build_date)) + " "@ + text_or_empty(
                opt_view(&build_time),
            ),
    {
        let revision = string_or_empty(revision);
        let date = string_or_empty(build_date);
        let time = string_or_empty(build_time);
        let build_datetime = date.concat(" ").concat(time.as_str());
        StateBuildInfo { revision, build_datetime }
    }
}

} // verus!
