use vstd::prelude::*;

verus! {

/// The observable facts about an output path that the materializer's
/// decisions depend on. The driver probes the filesystem and fills them in.
#[derive(Clone, Copy, Debug, PartialEq, Eq, Structural)]
pub struct PathState {
    /// The path has a parent-directory component.
    pub has_parent: bool,
    /// That parent directory currently exists.
    pub parent_exists: bool,
    /// The path has a non-empty file-name component.
    pub has_file_name: bool,
    /// A file currently exists at the path itself.
    pub path_exists: bool,
}

/// The materializer must create the parent directory (and its missing
/// ancestors) exactly when the path has a parent component that is absent.
pub open spec fn needs_dir_creation(st: PathState) -> bool {
    st.has_parent && !st.parent_exists
}

/// The materializer must create an empty placeholder file exactly when the
/// path has a non-empty file-name component and nothing exists there yet.
pub open spec fn needs_placeholder(st: PathState) -> bool {
    st.has_file_name && !st.path_exists
}

/// The path facts after a materialization pass in which every issued action
/// succeeded: the parent directory and the placeholder file now exist
/// wherever the path calls for them; nothing else is touched.
pub open spec fn after_materialize(st: PathState) -> PathState {
    PathState {
        has_parent: st.has_parent,
        parent_exists: st.parent_exists || st.has_parent,
        has_file_name: st.has_file_name,
        path_exists: st.path_exists || st.has_file_name,
    }
}

/// Materialization settles in one successful pass: a second pass has nothing
/// left to do and leaves the path facts exactly as they were.
pub proof fn lemma_materialize_idempotent(st: PathState)
    ensures
        !needs_dir_creation(after_materialize(st)),
        !needs_placeholder(after_materialize(st)),
        after_materialize(after_materialize(st)) == after_materialize(st),
{
}

/// On a path whose parent directory and file both already exist, the
/// materializer issues no action at all and changes nothing, however often
/// it is run.
pub proof fn lemma_materialize_existing_path_noop(st: PathState)
    requires
        st.parent_exists,
        st.path_exists,
    ensures
        !needs_dir_creation(st),
        !needs_placeholder(st),
        after_materialize(st) == st,
{
}

} // verus!
