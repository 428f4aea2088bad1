//! The command line: `-d` asks for diagnostics, an argument that begins with
//! `v` names the upstream tag, and anything else is an error.

use vstd::prelude::*;
use vstd::string::StringExecFns;
use crate::order::views;
use crate::text::{same_text, starts_with};

verus! {

/// What the command line asks for.
#[derive(Clone, Debug, PartialEq, Eq)]
pub struct Options {
    /// The upstream tag to fetch, where one was given.
    pub upstream_tag: Option<String>,
    /// Whether diagnostics are wanted.
    pub debug: bool,
}

/// What an `Options` holds.
pub struct OptionsView {
    pub upstream_tag: Option<Seq<char>>,
    pub debug: bool,
}

impl View for Options {
    type V = OptionsView;

    open spec fn view(&self) -> OptionsView {
        OptionsView {
            upstream_tag: match self.upstream_tag {
                Some(tag) => Some(tag@),
                None => None,
            },
            debug: self.debug,
        }
    }
}

/// An argument that the command line does not know.
#[derive(Clone, Debug, PartialEq, Eq)]
pub struct UsageError {
    /// The argument as it was given.
    pub argument: String,
}

/// The argument asks for diagnostics.
pub open spec fn is_debug_flag(argument: Seq<char>) -> bool {
    argument == "-d"@
}

/// The argument names an upstream tag.
pub open spec fn is_tag(argument: Seq<char>) -> bool {
    "v"@.is_prefix_of(argument)
}

/// The argument at position `i` is unknown and none before it is.
pub open spec fn is_first_unknown(arguments: Seq<Seq<char>>, i: int) -> bool {
    &&& 0 <= i < arguments.len()
    &&& !is_debug_flag(arguments[i])
    &&& !is_tag(arguments[i])
    &&& forall|j: int|
        0 <= j < i ==> is_debug_flag(#[trigger] arguments[j]) || is_tag(arguments[j])
}

/// The argument at position `i` names a tag and none after it does.
pub open spec fn is_last_tag(arguments: Seq<Seq<char>>, i: int) -> bool {
    &&& 0 <= i < arguments.len()
    &&& is_tag(arguments[i])
    &&& forall|j: int| i < j < arguments.len() ==> !is_tag(#[trigger] arguments[j])
}

/// What `arguments` ask for, or the first of them that is unknown. Of several
/// tags the last one counts.
pub open spec fn options_of(arguments: Seq<Seq<char>>) -> Result<OptionsView, Seq<char>> {
    if exists|i: int| is_first_unknown(arguments, i) {
        Err(arguments[choose|i: int| is_first_unknown(arguments, i)])
    } else {
        Ok(
            OptionsView {
                upstream_tag: if exists|i: int| is_last_tag(arguments, i) {
                    Some(arguments[choose|i: int| is_last_tag(arguments, i)])
                } else {
                    None
                },
                debug: exists|i: int|
                    0 <= i < arguments.len() && is_debug_flag(#[trigger] arguments[i]),
            },
        )
    }
}

/// The upstream reference to fetch: the tag, or the `master` branch where no
/// tag was given.
pub open spec fn reference_of(options: OptionsView) -> Seq<char> {
    match options.upstream_tag {
        Some(tag) => tag,
        None => "master"@,
    }
}

/// Where the license document of the upstream reference `reference` is.
pub open spec fn licenses_uri_of(reference: Seq<char>) -> Seq<char> {
    "https://raw.githubusercontent.com/spdx/license-list-data/"@ + reference
        + "/json/licenses.json"@
}

/// Where the exception document of the upstream reference `reference` is.
pub open spec fn exceptions_uri_of(reference: Seq<char>) -> Seq<char> {
    "https://raw.githubusercontent.com/spdx/license-list-data/"@ + reference
        + "/json/exceptions.json"@
}

/// Reads the arguments of the command line, the program's name left out.
pub fn parse_arguments(arguments: &Vec<String>) -> (options: Result<Options, UsageError>)
    ensures
        match options_of(views(arguments@)) {
            Ok(asked) => options matches Ok(o) && o@ == asked,
            Err(unknown) => options matches Err(e) && e.argument@ == unknown,
        },
{
    let ghost given = views(arguments@);
    let mut upstream_tag: Option<String> = None;
    let mut debug: bool = false;
    let ghost mut last: int = 0;
    let mut i: usize = 0;
    while i < arguments.len()
        invariant
            i <= arguments.len(),
            given == views(arguments@),
            forall|j: int| 0 <= j < i ==> is_debug_flag(#[trigger] given[j]) || is_tag(given[j]),
            debug == exists|j: int| 0 <= j < i && is_debug_flag(#[trigger] given[j]),
            match upstream_tag {
                Some(tag) => 0 <= last < i && is_tag(given[last]) && tag@ == given[last]
                    && forall|j: int| last < j < i ==> !is_tag(#[trigger] given[j]),
                None => forall|j: int| 0 <= j < i ==> !is_tag(#[trigger] given[j]),
            },
        decreases arguments.len() - i,
    {
        let argument = arguments[i].as_str();
        assert(argument@ == given[i as int]);
        if same_text(argument, "-d") {
            proof {
                reveal_strlit("-d");
                reveal_strlit("v");
                assert(!is_tag(given[i as int])) by {
                    assert("v"@[0] == 'v');
                    assert("-d"@[0] == '-');
                    if is_tag(given[i as int]) {
                        assert(given[i as int].subrange(0, 1)[0] == 'v');
                    }
                }
            }
            debug = true;
        } else if starts_with(argument, "v") {
            upstream_tag = Some(String::from_str(argument));
            proof {
                last = i as int;
            }
        } else {
            proof {
                assert(is_first_unknown(given, i as int));
                let k = choose|k: int| is_first_unknown(given, k);
                if k < i {
                    assert(is_debug_flag(given[k]) || is_tag(given[k]));
                } else if i < k {
                    assert(is_debug_flag(given[i as int]) || is_tag(given[i as int]));
                }
            }
            return Err(UsageError { argument: String::from_str(argument) });
        }
        i += 1;
    }
    proof {
        assert(!exists|k: int| is_first_unknown(given, k));
        if upstream_tag is Some {
            assert(is_last_tag(given, last));
            let k = choose|k: int| is_last_tag(given, k);
            if k < last {
                assert(!is_tag(given[last]));
            } else if last < k {
                assert(!is_tag(given[k]));
            }
        } else {
            assert(!exists|k: int| is_last_tag(given, k));
        }
    }
    Ok(Options { upstream_tag, debug })
}

impl Options {
    /// The upstream reference to fetch.
    pub fn reference(&self) -> (reference: String)
        ensures
            reference@ == reference_of(self@),
    {
        match &self.upstream_tag {
            Some(tag) => tag.clone(),
            None => String::from_str("master"),
        }
    }
}

/// Where the license document of the upstream reference `reference` is.
pub fn licenses_uri(reference: &str) -> (uri: String)
    ensures
        uri@ == licenses_uri_of(reference@),
{
    let mut uri = String::from_str("https://raw.githubusercontent.com/spdx/license-list-data/");
    uri.append(reference);
    uri.append("/json/licenses.json");
    uri
}

/// Where the exception document of the upstream reference `reference` is.
pub fn exceptions_uri(reference: &str) -> (uri: String)
    ensures
        uri@ == exceptions_uri_of(reference@),
{
    let mut uri = String::from_str("https://raw.githubusercontent.com/spdx/license-list-data/");
    uri.append(reference);
    uri.append("/json/exceptions.json");
    uri
}

} // verus!
