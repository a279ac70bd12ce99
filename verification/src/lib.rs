//! A uniform layer over two terminal libraries: symbolic input events and
//! attribute flags on one side, each backend's native key codes and attribute
//! bits on the other.
//!
//! [`Input`] is one input event and [`Attributes`] a set of display
//! attributes with a color pair. The modules [`unix`] and [`windows`] hold
//! the two backends: the table of special keys with both directions of its
//! key codes, the decoding of input read by read, the codes to push an input
//! back, and the layout of the attribute word. [`keytable`] and [`unicode`]
//! hold what the backends share. Nothing here touches the terminal: a caller
//! makes the reads and the pushes, and hands over what they gave.
use vstd::prelude::*;

pub mod attributes;
pub mod backend;
pub mod colorpair;
pub mod input;
pub mod keytable;
pub mod unicode;
pub mod unix;
pub mod windows;

pub use crate::attributes::{Attribute, Attributes};
pub use crate::backend::{chtype, Backend};
pub use crate::colorpair::ColorPair;
pub use crate::input::Input;

verus! {

/// Status that a backend call reports on success.
pub const OK: i32 = 0;

/// Status that a backend call reports on failure.
pub const ERR: i32 = -1;

/// The status of a push-back that took several pushes: the least of their
/// statuses, and `OK` where even that is above it. A failure is negative, so
/// one failed push shows in the result.
pub open spec fn least_status(statuses: Seq<i32>) -> int
    decreases statuses.len(),
{
    if statuses.len() == 0 {
        OK as int
    } else {
        let before = least_status(statuses.drop_last());
        if statuses.last() < before {
            statuses.last() as int
        } else {
            before
        }
    }
}

/// The status to report for a character that was pushed back unit by unit,
/// given the status of each push.
pub fn unget_status(statuses: &[i32]) -> (status: i32)
    ensures
        status == least_status(statuses@),
{
    let mut status: i32 = OK;
    let mut i: usize = 0;
    while i < statuses.len()
        invariant
            i <= statuses@.len(),
            status == least_status(statuses@.take(i as int)),
        decreases statuses@.len() - i,
    {
        proof {
            assert(statuses@.take(i + 1).drop_last() =~= statuses@.take(i as int));
        }
        if statuses[i] < status {
            status = statuses[i];
        }
        i += 1;
    }
    proof {
        assert(statuses@.take(i as int) =~= statuses@);
    }
    status
}

/// What [`least_status`] comes to: it is not above `OK` nor above any of the
/// statuses, and it is `OK` or one of them.
pub proof fn lemma_least_status(statuses: Seq<i32>)
    ensures
        least_status(statuses) <= OK,
        forall|i: int| 0 <= i < statuses.len() ==> least_status(statuses) <= statuses[i],
        least_status(statuses) == OK || exists|i: int|
            0 <= i < statuses.len() && statuses[i] == least_status(statuses),
    decreases statuses.len(),
{
    if statuses.len() > 0 {
        let shorter = statuses.drop_last();
        lemma_least_status(shorter);
        assert forall|i: int| 0 <= i < statuses.len() implies least_status(statuses)
            <= statuses[i] by {
            if i < shorter.len() {
                assert(shorter[i] == statuses[i]);
            }
        }
        if least_status(statuses) != OK {
            if statuses.last() < least_status(shorter) {
                assert(statuses[statuses.len() - 1] == least_status(statuses));
            } else {
                let i = choose|i: int|
                    0 <= i < shorter.len() && shorter[i] == least_status(shorter);
                assert(statuses[i] == least_status(statuses));
            }
        }
    }
}

} // verus!
