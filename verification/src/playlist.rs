//! Which track of a playlist comes next.
//!
//! A playlist may name tracks whose files are gone. Such tracks stay in the
//! list and are passed over when the player moves on.

use vstd::prelude::*;

verus! {

/// The track that follows `playing`: the first one behind it whose file
/// exists. `None` where there is none, and the player stops.
pub fn next(exists: &Vec<bool>, playing: usize) -> (found: Option<usize>)
    ensures
        match found {
            Some(i) => {
                &&& playing < i < exists.len()
                &&& exists[i as int]
                &&& forall|j: int| playing < j < i ==> !exists[j]
            },
            None => forall|j: int| playing < j < exists.len() ==> !exists[j],
        },
{
    if playing >= exists.len() {
        return None;
    }
    let mut i: usize = playing + 1;
    while i < exists.len()
        invariant
            playing < i <= exists.len(),
            forall|j: int| playing < j < i ==> !exists[j],
        decreases exists.len() - i,
    {
        if exists[i] {
            return Some(i);
        }
        i += 1;
    }
    None
}

/// The track that precedes `playing`: the last one before it whose file
/// exists. `None` where there is none, and the player stops.
pub fn prev(exists: &Vec<bool>, playing: usize) -> (found: Option<usize>)
    ensures
        match found {
            Some(i) => {
                &&& i < playing
                &&& i < exists.len()
                &&& exists[i as int]
                &&& forall|j: int| i < j < playing && j < exists.len() ==> !exists[j]
            },
            None => forall|j: int| 0 <= j < playing && j < exists.len() ==> !exists[j],
        },
{
    let mut i: usize = if playing < exists.len() {
        playing
    } else {
        exists.len()
    };
    while i > 0
        invariant
            i <= playing,
            i <= exists.len(),
            forall|j: int| i <= j < playing && j < exists.len() ==> !exists[j],
        decreases i,
    {
        i -= 1;
        if exists[i] {
            return Some(i);
        }
    }
    None
}

} // verus!
