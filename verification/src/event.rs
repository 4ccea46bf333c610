//! Raw observer notifications and their translation to wire events.
//!
//! A filesystem observer reports each change as a [`RawEvent`]; before such an
//! event is forwarded to a client it is translated, one to one and in order,
//! into the [`WireEvent`] shape that travels over the transport. Translation
//! is total: every raw variant has exactly one wire counterpart, and all paths
//! and messages are carried over verbatim. An observer failure that reports no
//! path is given the sentinel path text instead.

use vstd::prelude::*;
use vstd::string::StringExecFns;

verus! {

/// A raw filesystem notification, as the observer hands it out: the kind of
/// change together with the affected path (or paths, for a rename). An
/// observer that fails irrecoverably reports `ObserverFailed` with a message
/// and, when it knows one, the path concerned.
#[derive(Debug)]
pub enum RawEvent {
    NoticeWrite { path: String },
    NoticeRemove { path: String },
    Create { path: String },
    Write { path: String },
    Chmod { path: String },
    Remove { path: String },
    Rename { original: String, new_name: String },
    Rescan,
    ObserverFailed { msg: String, path: Option<String> },
}

/// The mathematical form of a raw notification: each path or message as a
/// sequence of characters.
pub enum RawEventView {
    NoticeWrite { path: Seq<char> },
    NoticeRemove { path: Seq<char> },
    Create { path: Seq<char> },
    Write { path: Seq<char> },
    Chmod { path: Seq<char> },
    Remove { path: Seq<char> },
    Rename { original: Seq<char>, new_name: Seq<char> },
    Rescan,
    ObserverFailed { msg: Seq<char>, path: Option<Seq<char>> },
}

impl View for RawEvent {
    type V = RawEventView;

    open spec fn view(&self) -> RawEventView {
        match self {
            RawEvent::NoticeWrite { path } => RawEventView::NoticeWrite { path: path@ },
            RawEvent::NoticeRemove { path } => RawEventView::NoticeRemove { path: path@ },
            RawEvent::Create { path } => RawEventView::Create { path: path@ },
            RawEvent::Write { path } => RawEventView::Write { path: path@ },
            RawEvent::Chmod { path } => RawEventView::Chmod { path: path@ },
            RawEvent::Remove { path } => RawEventView::Remove { path: path@ },
            RawEvent::Rename { original, new_name } => RawEventView::Rename {
                original: original@,
                new_name: new_name@,
            },
            RawEvent::Rescan => RawEventView::Rescan,
            RawEvent::ObserverFailed { msg, path } => RawEventView::ObserverFailed {
                msg: msg@,
                path: match path {
                    Some(p) => Some(p@),
                    None => None,
                },
            },
        }
    }
}

/// A change event in the shape sent to clients over the wire. Same variant
/// set as [`RawEvent`], with an `Error` variant standing both for observer
/// failures and for a closed event source.
#[derive(Debug, PartialEq, Eq)]
pub enum WireEvent {
    NoticeWrite { path: String },
    NoticeRemove { path: String },
    Create { path: String },
    Write { path: String },
    Chmod { path: String },
    Remove { path: String },
    Rename { original: String, new_name: String },
    Rescan,
    Error { msg: String, path: Option<String> },
}

/// The mathematical form of a wire event.
pub enum WireEventView {
    NoticeWrite { path: Seq<char> },
    NoticeRemove { path: Seq<char> },
    Create { path: Seq<char> },
    Write { path: Seq<char> },
    Chmod { path: Seq<char> },
    Remove { path: Seq<char> },
    Rename { original: Seq<char>, new_name: Seq<char> },
    Rescan,
    Error { msg: Seq<char>, path: Option<Seq<char>> },
}

impl View for WireEvent {
    type V = WireEventView;

    open spec fn view(&self) -> WireEventView {
        match self {
            WireEvent::NoticeWrite { path } => WireEventView::NoticeWrite { path: path@ },
            WireEvent::NoticeRemove { path } => WireEventView::NoticeRemove { path: path@ },
            WireEvent::Create { path } => WireEventView::Create { path: path@ },
            WireEvent::Write { path } => WireEventView::Write { path: path@ },
            WireEvent::Chmod { path } => WireEventView::Chmod { path: path@ },
            WireEvent::Remove { path } => WireEventView::Remove { path: path@ },
            WireEvent::Rename { original, new_name } => WireEventView::Rename {
                original: original@,
                new_name: new_name@,
            },
            WireEvent::Rescan => WireEventView::Rescan,
            WireEvent::Error { msg, path } => WireEventView::Error {
                msg: msg@,
                path: match path {
                    Some(p) => Some(p@),
                    None => None,
                },
            },
        }
    }
}

/// The path text reported in an error wire event when the failing observer
/// knew no path.
pub open spec fn unknown_path_sentinel() -> Seq<char> {
    "Unknown Path!"@
}

/// What translation returns for each raw notification: the wire variant of
/// the same kind with the same fields; an observer failure becomes an error
/// event whose path is the reported one, or the sentinel when none was
/// reported.
pub open spec fn spec_translate(r: RawEventView) -> WireEventView {
    match r {
        RawEventView::NoticeWrite { path } => WireEventView::NoticeWrite { path },
        RawEventView::NoticeRemove { path } => WireEventView::NoticeRemove { path },
        RawEventView::Create { path } => WireEventView::Create { path },
        RawEventView::Write { path } => WireEventView::Write { path },
        RawEventView::Chmod { path } => WireEventView::Chmod { path },
        RawEventView::Remove { path } => WireEventView::Remove { path },
        RawEventView::Rename { original, new_name } => WireEventView::Rename {
            original,
            new_name,
        },
        RawEventView::Rescan => WireEventView::Rescan,
        RawEventView::ObserverFailed { msg, path } => WireEventView::Error {
            msg,
            path: Some(
                match path {
                    Some(p) => p,
                    None => unknown_path_sentinel(),
                },
            ),
        },
    }
}

/// The line a client renders for one wire event: the variant's tag in
/// brackets, then the event's path text; a rename shows both endpoints and
/// an error shows its message and its path, or `Unknown` when the error
/// carries none.
pub open spec fn spec_describe(v: WireEventView) -> Seq<char> {
    match v {
        WireEventView::NoticeWrite { path } => "[NoticeWrite]: "@ + path,
        WireEventView::NoticeRemove { path } => "[NoticeRemove]: "@ + path,
        WireEventView::Create { path } => "[Create]: "@ + path,
        WireEventView::Write { path } => "[Write]: "@ + path,
        WireEventView::Chmod { path } => "[Chmod]: "@ + path,
        WireEventView::Remove { path } => "[Remove]: "@ + path,
        WireEventView::Rename { original, new_name } => "[Rename]: "@ + original + " -> "@
            + new_name,
        WireEventView::Rescan => "[Rescan]"@,
        WireEventView::Error { msg, path } => "[ERROR]: "@ + msg + " - "@ + (match path {
            Some(p) => p,
            None => "Unknown"@,
        }),
    }
}

impl WireEvent {
    /// Render this event as the one line a client logs for it.
    pub fn describe(&self) -> (line: String)
        ensures
            line@ == spec_describe(self@),
    {
        match self {
            WireEvent::NoticeWrite { path } => {
                let mut line = String::from_str("[NoticeWrite]: ");
                line.append(path.as_str());
                line
            },
            WireEvent::NoticeRemove { path } => {
                let mut line = String::from_str("[NoticeRemove]: ");
                line.append(path.as_str());
                line
            },
            WireEvent::Create { path } => {
                let mut line = String::from_str("[Create]: ");
                line.append(path.as_str());
                line
            },
            WireEvent::Write { path } => {
                let mut line = String::from_str("[Write]: ");
                line.append(path.as_str());
                line
            },
            WireEvent::Chmod { path } => {
                let mut line = String::from_str("[Chmod]: ");
                line.append(path.as_str());
                line
            },
            WireEvent::Remove { path } => {
                let mut line = String::from_str("[Remove]: ");
                line.append(path.as_str());
                line
            },
            WireEvent::Rename { original, new_name } => {
                let mut line = String::from_str("[Rename]: ");
                line.append(original.as_str());
                line.append(" -> ");
                line.append(new_name.as_str());
                line
            },
            WireEvent::Rescan => String::from_str("[Rescan]"),
            WireEvent::Error { msg, path } => {
                let mut line = String::from_str("[ERROR]: ");
                line.append(msg.as_str());
                line.append(" - ");
                match path {
                    Some(p) => line.append(p.as_str()),
                    None => line.append("Unknown"),
                }
                line
            },
        }
    }
}

/// Translation is total and keeps every field verbatim: each raw variant
/// yields the wire variant of the same kind carrying the same path text, a
/// rename keeps both endpoints, and an observer failure keeps its message
/// and its path when it reported one.
pub proof fn lemma_translate_total_and_verbatim(r: RawEventView)
    ensures
        r matches RawEventView::NoticeWrite { path } ==> spec_translate(r)
            == (WireEventView::NoticeWrite { path }),
        r matches RawEventView::NoticeRemove { path } ==> spec_translate(r)
            == (WireEventView::NoticeRemove { path }),
        r matches RawEventView::Create { path } ==> spec_translate(r) == (WireEventView::Create {
            path,
        }),
        r matches RawEventView::Write { path } ==> spec_translate(r) == (WireEventView::Write {
            path,
        }),
        r matches RawEventView::Chmod { path } ==> spec_translate(r) == (WireEventView::Chmod {
            path,
        }),
        r matches RawEventView::Remove { path } ==> spec_translate(r) == (WireEventView::Remove {
            path,
        }),
        r matches RawEventView::Rename { original, new_name } ==> spec_translate(r)
            == (WireEventView::Rename { original, new_name }),
        r is Rescan ==> spec_translate(r) is Rescan,
        r matches RawEventView::ObserverFailed { msg, path: Some(p) } ==> spec_translate(r)
            == (WireEventView::Error { msg, path: Some(p) }),
        r matches RawEventView::ObserverFailed { msg, path: None } ==> spec_translate(r)
            == (WireEventView::Error { msg, path: Some(unknown_path_sentinel()) }),
{
}

/// The one place translation can conflate two raw events: a pathless
/// observer failure borrows the sentinel text, so it translates like a
/// failure with the same message that really reported the sentinel as its
/// path.
pub open spec fn sentinel_collision(r1: RawEventView, r2: RawEventView) -> bool {
    &&& r1 matches RawEventView::ObserverFailed { msg: m1, path: None }
    &&& r2 matches RawEventView::ObserverFailed { msg: m2, path: Some(p) }
    &&& m1 == m2
    &&& p == unknown_path_sentinel()
}

/// No information loss: two raw events with the same translation are the
/// same event — except across a sentinel collision, which the premises
/// leave out.
pub proof fn lemma_translate_injective(r1: RawEventView, r2: RawEventView)
    requires
        spec_translate(r1) == spec_translate(r2),
        !sentinel_collision(r1, r2),
        !sentinel_collision(r2, r1),
    ensures
        r1 == r2,
{
}

/// Translate one raw notification into its wire form. Total: it succeeds on
/// every raw event, filters nothing, and invents nothing beyond the sentinel
/// path for a pathless failure.
pub fn translate(e: RawEvent) -> (w: WireEvent)
    ensures
        w@ == spec_translate(e@),
{
    match e {
        RawEvent::NoticeWrite { path } => WireEvent::NoticeWrite { path },
        RawEvent::NoticeRemove { path } => WireEvent::NoticeRemove { path },
        RawEvent::Create { path } => WireEvent::Create { path },
        RawEvent::Write { path } => WireEvent::Write { path },
        RawEvent::Chmod { path } => WireEvent::Chmod { path },
        RawEvent::Remove { path } => WireEvent::Remove { path },
        RawEvent::Rename { original, new_name } => WireEvent::Rename { original, new_name },
        RawEvent::Rescan => WireEvent::Rescan,
        RawEvent::ObserverFailed { msg, path } => {
            let wire_path: String = match path {
                Some(p) => p,
                None => String::from_str("Unknown Path!"),
            };
            WireEvent::Error { msg, path: Some(wire_path) }
        },
    }
}

} // verus!
