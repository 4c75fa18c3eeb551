//! Binding the current thread of execution to one core, and checking that the
//! binding took effect.
use vstd::prelude::*;

verus! {

/// The number of cores that a Linux CPU mask can name (glibc's `CPU_SETSIZE`).
pub const CPU_MASK_CAPACITY: usize = 1024;

/// Linux `EPERM`: the caller may not change the affinity.
pub const EPERM: i32 = 1;

/// Linux `ESRCH`: no process with the given id.
pub const ESRCH: i32 = 3;

/// Linux `EINVAL`: the mask names no usable core.
pub const EINVAL: i32 = 22;

/// The code carried by a platform failure that came without an error number.
pub const NO_ERRNO: i32 = 0;

/// Why a core could not be bound.
#[derive(Clone, Copy, Debug, PartialEq, Eq, Structural)]
pub enum AffinityError {
    /// The core lies outside the platform's valid range.
    InvalidCore,
    /// The process whose affinity was to change does not exist.
    ProcessNotFound,
    /// The caller may not change the affinity.
    PermissionDenied,
    /// Any other failure the platform reported, with its error number.
    PlatformError(i32),
    /// The binding was accepted but the core is absent from the affinity
    /// read back afterwards.
    BindingMismatch,
}

/// The error for a failed affinity call that set `errno`.
pub open spec fn errno_error(errno: i32) -> AffinityError {
    if errno == EINVAL {
        AffinityError::InvalidCore
    } else if errno == ESRCH {
        AffinityError::ProcessNotFound
    } else if errno == EPERM {
        AffinityError::PermissionDenied
    } else {
        AffinityError::PlatformError(errno)
    }
}

/// Classifies the error number left by a failed affinity system call.
pub fn affinity_error_from_errno(errno: i32) -> (r: AffinityError)
    ensures
        r == errno_error(errno),
{
    if errno == EINVAL {
        AffinityError::InvalidCore
    } else if errno == ESRCH {
        AffinityError::ProcessNotFound
    } else if errno == EPERM {
        AffinityError::PermissionDenied
    } else {
        AffinityError::PlatformError(errno)
    }
}

/// The core id at `core_index` of the enumerated `cores`, or `InvalidCore`
/// when the index is past the end.
pub fn select_core(core_index: usize, cores: &Vec<usize>) -> (r: Result<usize, AffinityError>)
    ensures
        core_index >= cores@.len() ==> r == Err::<usize, AffinityError>(AffinityError::InvalidCore),
        core_index < cores@.len() ==> r == Ok::<usize, AffinityError>(cores@[core_index as int]),
{
    if core_index < cores.len() {
        Ok(cores[core_index])
    } else {
        Err(AffinityError::InvalidCore)
    }
}

/// Succeeds exactly when `core` is in the `affinity` read back after a
/// binding; fails with `BindingMismatch` otherwise.
pub fn verify_binding(core: usize, affinity: &Vec<usize>) -> (r: Result<(), AffinityError>)
    ensures
        affinity@.contains(core) ==> r == Ok::<(), AffinityError>(()),
        !affinity@.contains(core) ==> r == Err::<(), AffinityError>(AffinityError::BindingMismatch),
{
    let mut i: usize = 0;
    while i < affinity.len()
        invariant
            i <= affinity@.len(),
            forall|j: int| 0 <= j < i ==> affinity@[j] != core,
        decreases affinity@.len() - i,
    {
        if affinity[i] == core {
            return Ok(());
        }
        i = i + 1;
    }
    Err(AffinityError::BindingMismatch)
}

/// Core ids as read from a CPU mask: strictly increasing, each below the
/// mask's capacity.
pub open spec fn ids_in_mask(ids: Seq<usize>) -> bool {
    &&& forall|i: int, j: int| 0 <= i < j < ids.len() ==> ids[i] < ids[j]
    &&& forall|i: int| 0 <= i < ids.len() ==> ids[i] < CPU_MASK_CAPACITY
}

/// Relies on `core_affinity::get_core_ids`: the ids of the cores the current
/// thread may run on, or `None` when the platform would not tell. On Linux it
/// lists the set positions of the `cpu_set_t` mask in increasing order, from
/// 0 up to glibc's `CPU_SETSIZE`, so each id is below `CPU_MASK_CAPACITY`.
#[verifier::external_body]
fn allowed_core_ids() -> (r: Option<Vec<usize>>)
    ensures
        r matches Some(ids) ==> ids_in_mask(ids@),
{
    core_affinity::get_core_ids().map(|ids| ids.into_iter().map(|c| c.id).collect())
}

/// Relies on `core_affinity::set_for_current`: asks the platform to run the
/// current thread on `core` alone, and says whether it accepted. On Linux it
/// sets the core's bit with libc's `CPU_SET`, which indexes past the mask,
/// and panics, for an id of `CPU_MASK_CAPACITY` or more.
#[verifier::external_body]
fn pin_current(core: usize) -> (r: bool)
    requires
        core < CPU_MASK_CAPACITY,
{
    core_affinity::set_for_current(core_affinity::CoreId { id: core })
}

/// The cores the current thread may run on. A platform that will not tell
/// gives `PlatformError(NO_ERRNO)`.
pub fn current_affinity() -> (r: Result<Vec<usize>, AffinityError>)
    ensures
        r matches Err(e) ==> e == AffinityError::PlatformError(NO_ERRNO),
        r matches Ok(ids) ==> ids_in_mask(ids@),
{
    match allowed_core_ids() {
        Some(ids) => Ok(ids),
        None => Err(AffinityError::PlatformError(NO_ERRNO)),
    }
}

/// Restricts the current thread to `core`. An id the CPU mask cannot hold is
/// an `InvalidCore`; a refusal by the platform, which names no cause, is a
/// `PlatformError(NO_ERRNO)`.
pub fn set_cpu_affinity_for_core(core: usize) -> (r: Result<(), AffinityError>)
    ensures
        core >= CPU_MASK_CAPACITY ==> r == Err::<(), AffinityError>(AffinityError::InvalidCore),
        core < CPU_MASK_CAPACITY && r.is_err() ==> r == Err::<(), AffinityError>(
            AffinityError::PlatformError(NO_ERRNO),
        ),
{
    if core >= CPU_MASK_CAPACITY {
        return Err(AffinityError::InvalidCore);
    }
    if pin_current(core) {
        Ok(())
    } else {
        Err(AffinityError::PlatformError(NO_ERRNO))
    }
}

/// Decides a binding of `core` from what the platform answered: whether it
/// accepted the binding (`pinned`), and the affinity read back afterwards,
/// if it could be read. The binding holds only when the read-back has `core`.
pub fn binding_outcome(core: usize, pinned: bool, read_back: Option<Vec<usize>>) -> (r: Result<
    Vec<usize>,
    AffinityError,
>)
    ensures
        !pinned ==> r == Err::<Vec<usize>, AffinityError>(AffinityError::PlatformError(NO_ERRNO)),
        pinned && read_back is None ==> r == Err::<Vec<usize>, AffinityError>(
            AffinityError::PlatformError(NO_ERRNO),
        ),
        pinned && read_back is Some && read_back->0@.contains(core) ==> (r matches Ok(a)
            && a@ == read_back->0@),
        pinned && read_back is Some && !read_back->0@.contains(core) ==> r == Err::<
            Vec<usize>,
            AffinityError,
        >(AffinityError::BindingMismatch),
{
    if !pinned {
        return Err(AffinityError::PlatformError(NO_ERRNO));
    }
    match read_back {
        None => Err(AffinityError::PlatformError(NO_ERRNO)),
        Some(affinity) => match verify_binding(core, &affinity) {
            Ok(()) => Ok(affinity),
            Err(e) => Err(e),
        },
    }
}

/// Binds the current thread to the core at `core_index` of the enumerated
/// `cores`, then reads the affinity back and checks that the core is in it
/// (see `binding_outcome`). Returns the affinity read back. One attempt, no
/// retry. `InvalidCore` comes exactly when the index is past the list or the
/// core's id does not fit a CPU mask; a refusal or an unreadable affinity is
/// a `PlatformError(NO_ERRNO)`; a read-back without the core is a
/// `BindingMismatch`.
pub fn bind_core(core_index: usize, cores: &Vec<usize>) -> (r: Result<Vec<usize>, AffinityError>)
    ensures
        (r == Err::<Vec<usize>, AffinityError>(AffinityError::InvalidCore)) <==> (core_index
            >= cores@.len() || cores@[core_index as int] >= CPU_MASK_CAPACITY),
        r matches Err(e) ==> (e == AffinityError::InvalidCore || e == AffinityError::PlatformError(
            NO_ERRNO,
        ) || e == AffinityError::BindingMismatch),
        r matches Ok(affinity) ==> {
            &&& core_index < cores@.len()
            &&& affinity@.contains(cores@[core_index as int])
            &&& ids_in_mask(affinity@)
        },
{
    let core = match select_core(core_index, cores) {
        Ok(c) => c,
        Err(e) => return Err(e),
    };
    if core >= CPU_MASK_CAPACITY {
        return Err(AffinityError::InvalidCore);
    }
    let pinned = set_cpu_affinity_for_core(core).is_ok();
    let read_back = if pinned {
        match current_affinity() {
            Ok(a) => Some(a),
            Err(_) => None,
        }
    } else {
        None
    };
    binding_outcome(core, pinned, read_back)
}

} // verus!
