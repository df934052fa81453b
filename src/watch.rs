use vstd::prelude::*;

use crate::path::{parent_of, StylePath};

verus! {

/// What a filesystem notification says happened.
#[derive(Clone, Copy, Debug, PartialEq, Eq, Structural)]
pub enum EventKind {
    /// The content of a file was written.
    ContentWrite,
    /// A file or directory was created.
    Create,
    /// A file or directory was renamed.
    Rename,
    /// Permissions, timestamps or other metadata changed, the content did not.
    Metadata,
    /// A file or directory was removed.
    Remove,
    /// A file was opened, read or closed.
    Access,
    /// Anything else the platform reports.
    Other,
}

/// A notification from the watch on the style file's directory.
pub struct RawEvent {
    pub kind: EventKind,
    pub paths: Vec<StylePath>,
}

/// "The style file's content was modified", for the path it was seen on.
pub struct ChangeEvent {
    pub path: StylePath,
}

/// Why the watch on the style file could not be set up.
#[derive(Clone, Copy, Debug, PartialEq, Eq, Structural)]
pub enum WatchSetupError {
    /// The style path is the root, which has no parent directory to watch.
    NoParent,
    /// The operating system refused the watch registration.
    Refused,
}

/// The paths of a notification, as views.
pub open spec fn paths_view(paths: Seq<StylePath>) -> Seq<Seq<Seq<char>>> {
    paths.map_values(|p: StylePath| p@)
}

/// A notification is forwarded exactly when it reports written content and names the
/// style path among its paths.
pub open spec fn forwards(kind: EventKind, paths: Seq<Seq<Seq<char>>>, style: Seq<Seq<char>>) -> bool {
    kind is ContentWrite && paths.contains(style)
}

/// The directory to watch for `style`: its parent, watched non-recursively.
pub fn watch_target(style: &StylePath) -> (r: Result<StylePath, WatchSetupError>)
    ensures
        match r {
            Ok(d) => parent_of(style@) == Some(d@),
            Err(e) => e == WatchSetupError::NoParent && parent_of(style@) is None,
        },
{
    match style.parent() {
        Some(d) => Ok(d),
        None => Err(WatchSetupError::NoParent),
    }
}

/// Turns a notification into a change event for `style`, or drops it.
///
/// Only written content is of interest: creation, rename, metadata and the other
/// kinds are dropped, as is any notification that does not name `style`.
pub fn filter_event(style: &StylePath, event: &RawEvent) -> (r: Option<ChangeEvent>)
    ensures
        r is Some <==> forwards(event.kind, paths_view(event.paths@), style@),
        r matches Some(c) ==> c.path@ == style@,
{
    match event.kind {
        EventKind::ContentWrite => {},
        _ => return None,
    }
    let n = event.paths.len();
    let mut i: usize = 0;
    while i < n
        invariant
            n == event.paths.len(),
            event.kind is ContentWrite,
            0 <= i <= n,
            forall|k: int| 0 <= k < i ==> event.paths@[k]@ != style@,
        decreases n - i,
    {
        if event.paths[i].same_path(style) {
            proof {
                assert(paths_view(event.paths@)[i as int] == style@);
                assert(paths_view(event.paths@).contains(style@));
            }
            return Some(ChangeEvent { path: style.copied() });
        }
        i = i + 1;
    }
    proof {
        assert forall|k: int| 0 <= k < paths_view(event.paths@).len() implies paths_view(
            event.paths@,
        )[k] != style@ by {
            assert(event.paths@[k]@ != style@);
        }
    }
    None
}

/// A notification that does not name the style file is never forwarded, whatever
/// its kind.
pub proof fn lemma_other_files_dropped(
    kind: EventKind,
    paths: Seq<Seq<Seq<char>>>,
    style: Seq<Seq<char>>,
)
    requires
        forall|k: int| 0 <= k < paths.len() ==> paths[k] != style,
    ensures
        !forwards(kind, paths, style),
{
}

} // verus!
