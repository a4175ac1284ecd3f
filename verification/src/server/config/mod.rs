//! The server's configuration: what the configuration file may say, the
//! defaults for what it leaves out, and where the file is looked for.

pub mod general;
pub mod flat;

use vstd::prelude::*;

use crate::text::{join_path, path_join};

verus! {

/// `Path::exists`: whether something is at the path on disk. What is on disk is
/// not known here, so nothing is said of the answer.
#[verifier::external_body]
fn path_exists(p: &str) -> (b: bool) {
    std::path::Path::new(p).exists()
}

/// The index of the first `true` among `flags`, if any.
pub open spec fn first_true(flags: Seq<bool>) -> Option<int>
    decreases flags.len(),
{
    if flags.len() == 0 {
        None
    } else if flags[0] {
        Some(0)
    } else {
        match first_true(flags.drop_first()) {
            Some(i) => Some(i + 1),
            None => None,
        }
    }
}

proof fn lemma_first_true_bounds(flags: Seq<bool>)
    ensures
        first_true(flags) matches Some(i) ==> 0 <= i < flags.len() && flags[i] && forall|j: int|
            0 <= j < i ==> !flags[j],
        first_true(flags) is None ==> forall|j: int| 0 <= j < flags.len() ==> !flags[j],
    decreases flags.len(),
{
    if flags.len() > 0 {
        lemma_first_true_bounds(flags.drop_first());
        if !flags[0] {
            assert forall|j: int| 1 <= j < flags.len() implies flags[j] == flags.drop_first()[j
                - 1] by {}
        }
    }
}

/// Given which candidate directories hold the file, the path of the file in the
/// first of them, in order of preference.
pub fn first_existing(filename: &str, directories: &[String], exists: &[bool]) -> (r: Option<
    String,
>)
    requires
        exists@.len() == directories@.len(),
    ensures
        match first_true(exists@) {
            Some(i) => r matches Some(p) && p@ == path_join(directories@[i]@, filename@),
            None => r is None,
        },
{
    proof {
        lemma_first_true_bounds(exists@);
    }
    let n = directories.len();
    let mut i: usize = 0;
    while i < n
        invariant
            n == directories@.len(),
            n == exists@.len(),
            i <= n,
            forall|j: int| 0 <= j < i ==> !exists@[j],
            first_true(exists@) matches Some(k) ==> 0 <= k < n && exists@[k] && forall|j: int|
                0 <= j < k ==> !exists@[j],
            first_true(exists@) is None ==> forall|j: int| 0 <= j < n ==> !exists@[j],
        decreases n - i,
    {
        if exists[i] {
            return Some(join_path(directories[i].as_str(), filename));
        }
        i = i + 1;
    }
    None
}

/// Looks for `filename` in the directories, in order of preference, and gives
/// its path in the first directory that holds it. Which directories hold it is
/// up to the disk: the answer is the file's path in one of the directories, or nothing.
pub fn search_directories(filename: &str, directories: &[String]) -> (r: Option<String>)
    ensures
        r matches Some(p) ==> exists|i: int|
            0 <= i < directories@.len() && p@ == #[trigger] path_join(directories@[i]@, filename@),
{
    let n = directories.len();
    let mut exists: Vec<bool> = Vec::new();
    let mut i: usize = 0;
    while i < n
        invariant
            n == directories@.len(),
            i <= n,
            exists@.len() == i,
        decreases n - i,
    {
        let candidate = join_path(directories[i].as_str(), filename);
        exists.push(path_exists(candidate.as_str()));
        i = i + 1;
    }
    proof {
        lemma_first_true_bounds(exists@);
    }
    first_existing(filename, directories, exists.as_slice())
}

} // verus!
