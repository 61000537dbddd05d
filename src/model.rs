use vstd::prelude::*;

verus! {

/// One configuration call that a request has received, with its arguments.
pub enum Step {
    /// Built for an action constant.
    Action { action: Seq<char> },
    /// Built for an action constant and a target URI.
    ActionWithUri { action: Seq<char>, uri: Seq<char> },
    /// Given an explicit target component.
    ClassName { package: Seq<char>, class: Seq<char> },
    /// Given a string extra.
    Extra { key: Seq<char>, value: Seq<char> },
    /// Wrapped in a chooser, with an optional title.
    Chooser { title: Option<Seq<char>> },
    /// Given an explicit MIME type.
    MimeType { mime: Seq<char> },
}

} // verus!
