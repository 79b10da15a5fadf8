use vstd::prelude::*;

verus! {

/// The number that stands for a descriptor that could not be duplicated.
pub const INVALID_FD: i32 = -1;

/// The number reported for a descriptor: the duplicate if there is one,
/// `INVALID_FD` otherwise.
pub open spec fn reported_fd(dup: Option<i32>) -> i32 {
    match dup {
        Some(fd) => fd,
        None => INVALID_FD,
    }
}

/// A descriptor that was duplicated is reported as the duplicate itself,
/// whatever its number; -1 is reported only where the duplication failed.
pub proof fn lemma_duplicate_reported_as_itself(fd: i32)
    ensures
        reported_fd(Some(fd)) == fd,
        reported_fd(None) == -1,
{
}

/// The three reported descriptors are the three duplicates, in the order
/// memfd, empty signal, full signal, whenever all three duplications worked.
pub proof fn lemma_triple_of_duplicates(memfd: i32, empty_signal: i32, full_signal: i32)
    ensures
        seq![reported_fd(Some(memfd)), reported_fd(Some(empty_signal)), reported_fd(Some(full_signal))]
            == seq![memfd, empty_signal, full_signal],
{
}

/// The number reported for one duplicated descriptor, `INVALID_FD` where the
/// duplication failed.
pub fn fd_or_invalid(dup: Option<i32>) -> (fd: i32)
    ensures
        fd == reported_fd(dup),
        dup is Some ==> fd == dup->0,
        dup is None ==> fd == -1,
{
    match dup {
        Some(fd) => fd,
        None => INVALID_FD,
    }
}

/// What another process needs to attach to a ring, in the order the peer's
/// `open` takes it: the shared memory area, the descriptor signalled when the
/// ring stops being empty, and the one signalled when it stops being full.
/// Each entry is a duplicate of the endpoint's descriptor, or `INVALID_FD`
/// where it could not be duplicated; one failure does not hide the others.
pub fn ring_descriptors(memfd: Option<i32>, empty_signal: Option<i32>, full_signal: Option<i32>) -> (fds: [i32; 3])
    ensures
        fds@ == seq![reported_fd(memfd), reported_fd(empty_signal), reported_fd(full_signal)],
        memfd is Some ==> fds[0] == memfd->0,
        memfd is None ==> fds[0] == -1,
        empty_signal is Some ==> fds[1] == empty_signal->0,
        empty_signal is None ==> fds[1] == -1,
        full_signal is Some ==> fds[2] == full_signal->0,
        full_signal is None ==> fds[2] == -1,
{
    let fds = [fd_or_invalid(memfd), fd_or_invalid(empty_signal), fd_or_invalid(full_signal)];
    assert(fds@ =~= seq![reported_fd(memfd), reported_fd(empty_signal), reported_fd(full_signal)]);
    fds
}

} // verus!
