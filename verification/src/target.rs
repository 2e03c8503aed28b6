//! Choosing what a recording or a screenshot captures: one screen or one window,
//! named by its id among those that the system lists.
use vstd::prelude::*;
use vstd::string::*;

verus! {

/// Message when neither a screen nor a window was given.
pub const NO_TARGET_ERROR: &'static str = "No target specified. Use --screen <id> or --window <id>";

/// The word that names a screen in a message.
pub const SCREEN_KIND: &'static str = "Screen";

/// The word that names a window in a message.
pub const WINDOW_KIND: &'static str = "Window";

/// What follows the kind in a message about an unknown id.
pub const WITH_ID: &'static str = " with id '";

/// What ends a message about an unknown id.
pub const NOT_FOUND: &'static str = "' not found";

/// The target that the arguments ask for, by id.
pub enum TargetRequest {
    Screen(String),
    Window(String),
}

/// A capture target that the system lists, by id.
pub enum CaptureTarget {
    Display(String),
    Window(String),
}

/// The message for an id of the given kind that is not among those listed.
pub open spec fn not_found_message(kind: Seq<char>, id: Seq<char>) -> Seq<char> {
    kind + WITH_ID@ + id + NOT_FOUND@
}

/// The ids of `available`, as text.
pub open spec fn listed_ids(available: Seq<String>) -> Seq<Seq<char>> {
    available.map_values(|s: String| s@)
}

/// The target that the `--screen` and `--window` arguments ask for. A screen is taken
/// when one is given, else a window; with neither, the request is refused.
pub fn request_target(screen: Option<String>, window: Option<String>) -> (res: Result<
    TargetRequest,
    String,
>)
    ensures
        match screen {
            Some(id) => res matches Ok(TargetRequest::Screen(got)) && got@ == id@,
            None => match window {
                Some(id) => res matches Ok(TargetRequest::Window(got)) && got@ == id@,
                None => res matches Err(message) && message@ == NO_TARGET_ERROR@,
            },
        },
{
    match screen {
        Some(id) => Ok(TargetRequest::Screen(id)),
        None => match window {
            Some(id) => Ok(TargetRequest::Window(id)),
            None => Err(String::from_str(NO_TARGET_ERROR)),
        },
    }
}

/// Every listed id, at every position of the list, is among the listed ids, and nothing
/// else is: the ids are the texts of the list's elements, in order.
pub proof fn listed_ids_are_the_texts(available: Seq<String>)
    ensures
        listed_ids(available).len() == available.len(),
        forall|i: int| 0 <= i < available.len() ==> #[trigger] listed_ids(available)[i] == available[i]@,
        forall|id: Seq<char>|
            listed_ids(available).contains(id) <==> exists|i: int|
                0 <= i < available.len() && (#[trigger] available[i])@ == id,
{
    assert forall|id: Seq<char>|
        listed_ids(available).contains(id) implies exists|i: int|
            0 <= i < available.len() && (#[trigger] available[i])@ == id by {
        let k = choose|k: int| 0 <= k < listed_ids(available).len() && listed_ids(available)[k] == id;
        assert(available[k]@ == id);
    }
    assert forall|id: Seq<char>|
        (exists|i: int| 0 <= i < available.len() && (#[trigger] available[i])@ == id) implies
            listed_ids(available).contains(id) by {
        let k = choose|k: int| 0 <= k < available.len() && (#[trigger] available[k])@ == id;
        assert(listed_ids(available)[k] == id);
    }
}

/// Whether `id` is one of `available`, at whatever position.
fn is_listed(id: &String, available: &Vec<String>) -> (found: bool)
    ensures
        found == listed_ids(available@).contains(id@),
        found == exists|i: int| 0 <= i < available@.len() && (#[trigger] available@[i])@ == id@,
{
    proof {
        listed_ids_are_the_texts(available@);
    }
    let n = available.len();
    let mut i: usize = 0;
    while i < n
        invariant
            i <= n,
            n == available@.len(),
            forall|j: int| 0 <= j < i ==> (#[trigger] available@[j])@ != id@,
        decreases n - i,
    {
        if available[i] == *id {
            assert(listed_ids(available@)[i as int] == id@);
            return true;
        }
        i = i + 1;
    }
    proof {
        if listed_ids(available@).contains(id@) {
            let k = choose|k: int|
                0 <= k < listed_ids(available@).len() && listed_ids(available@)[k] == id@;
            assert(available@[k]@ == id@);
        }
    }
    false
}

/// The message for an id of the given kind that is not listed.
fn not_found(kind: &str, id: &String) -> (message: String)
    ensures
        message@ == not_found_message(kind@, id@),
{
    let mut message = String::from_str(kind);
    message.append(WITH_ID);
    message.append(id.as_str());
    message.append(NOT_FOUND);
    message
}

/// The target that `request` names, when its id is among the `available` ids; else the
/// error `Screen with id '<id>' not found` or `Window with id '<id>' not found`. The
/// caller passes the ids of the kind that the request asks for: the screens for a
/// screen, the windows for a window.
pub fn resolve_target(request: TargetRequest, available: &Vec<String>) -> (res: Result<
    CaptureTarget,
    String,
>)
    ensures
        match request {
            TargetRequest::Screen(id) => if exists|i: int|
                0 <= i < available@.len() && (#[trigger] available@[i])@ == id@ {
                res matches Ok(CaptureTarget::Display(got)) && got@ == id@
            } else {
                res matches Err(message) && message@ == not_found_message(SCREEN_KIND@, id@)
            },
            TargetRequest::Window(id) => if exists|i: int|
                0 <= i < available@.len() && (#[trigger] available@[i])@ == id@ {
                res matches Ok(CaptureTarget::Window(got)) && got@ == id@
            } else {
                res matches Err(message) && message@ == not_found_message(WINDOW_KIND@, id@)
            },
        },
{
    match request {
        TargetRequest::Screen(id) => {
            if is_listed(&id, available) {
                Ok(CaptureTarget::Display(id))
            } else {
                Err(not_found(SCREEN_KIND, &id))
            }
        },
        TargetRequest::Window(id) => {
            if is_listed(&id, available) {
                Ok(CaptureTarget::Window(id))
            } else {
                Err(not_found(WINDOW_KIND, &id))
            }
        },
    }
}

} // verus!
