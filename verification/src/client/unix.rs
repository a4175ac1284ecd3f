use vstd::prelude::*;

verus! {

/// `libc::S_IXUSR`: the owner's execute permission bit (0o100 on Linux).
#[verifier::external_body]
fn owner_execute_bit() -> (b: u32)
    ensures
        b == 0o100,
{
    libc::S_IXUSR as u32
}

/// `libc::S_IXGRP`: the group's execute permission bit (0o010 on Linux).
#[verifier::external_body]
fn group_execute_bit() -> (b: u32)
    ensures
        b == 0o010,
{
    libc::S_IXGRP as u32
}

/// `libc::S_IXOTH`: the others' execute permission bit (0o001 on Linux).
#[verifier::external_body]
fn others_execute_bit() -> (b: u32)
    ensures
        b == 0o001,
{
    libc::S_IXOTH as u32
}

/// Someone may execute a file with permissions `mode`.
pub open spec fn mode_executable(mode: u32) -> bool {
    (mode & 0o100u32) != 0 || (mode & 0o010u32) != 0 || (mode & 0o001u32) != 0
}

/// Whether the owner, the group or others may execute a file with permissions `mode`.
pub fn is_executable(mode: u32) -> (b: bool)
    ensures
        b == mode_executable(mode),
{
    let bits = [owner_execute_bit(), group_execute_bit(), others_execute_bit()];
    let mut i: usize = 0;
    while i < 3
        invariant
            i <= 3,
            bits@ == seq![0o100u32, 0o010u32, 0o001u32],
            forall|j: int| 0 <= j < i ==> (mode & #[trigger] bits@[j]) == 0,
        decreases 3 - i,
    {
        if mode & bits[i] != 0 {
            return true;
        }
        i = i + 1;
    }
    false
}

} // verus!
