//! Paging through the stored pages of a crawl, a selection of a given size at a time, forward
//! and backward.
//!
//! The storage is read with an iterator that runs in one direction. Turning around means
//! moving the iterator to the first or last key of the current selection, or to an end of the
//! storage where the last page in the old direction was reached. The caller moves the
//! iterator and reads the entries; the decisions are taken here.

use vstd::prelude::*;

verus! {

/// The direction the storage is read in.
#[derive(Debug, Clone, Copy, PartialEq, Eq, Structural)]
pub enum Direction {
    Forward,
    Reverse,
}

/// Where the iterator is moved before a page is read.
#[derive(Debug, Clone, PartialEq, Eq)]
pub enum Reposition {
    /// To the first entry.
    Start,
    /// To the last entry.
    End,
    /// To the entry with the key, reading in the direction.
    From(String, Direction),
}

/// What happens before the next page is read.
#[derive(Debug, Clone, PartialEq, Eq)]
pub enum PageStart {
    /// Nothing is read: the last page forward was reached already.
    NothingLeft,
    /// The page is read where the iterator stands.
    Continue,
    /// The iterator is moved, and reads in the new direction from then on.
    Move(Reposition),
}

/// The step before reading a page in `requested`, with the iterator reading in `current`.
/// Turning forward moves the iterator to the start where the last page backward was reached,
/// else to the last key of the selection; turning backward moves it to the end where the last
/// page forward was reached, else to the first key of the selection. Without a selection it
/// stays. Going on forward after the last page reads nothing.
pub fn page_start(
    current: Direction,
    requested: Direction,
    end_reached: bool,
    first: Option<&String>,
    last: Option<&String>,
) -> (r: PageStart)
    ensures
        r == match requested {
            Direction::Forward => match current {
                Direction::Reverse => match last {
                    Some(k) => if end_reached {
                        PageStart::Move(Reposition::Start)
                    } else {
                        PageStart::Move(Reposition::From(*k, Direction::Forward))
                    },
                    None => PageStart::Continue,
                },
                Direction::Forward => if end_reached { PageStart::NothingLeft } else { PageStart::Continue },
            },
            Direction::Reverse => match current {
                Direction::Forward => match first {
                    Some(k) => if end_reached {
                        PageStart::Move(Reposition::End)
                    } else {
                        PageStart::Move(Reposition::From(*k, Direction::Reverse))
                    },
                    None => PageStart::Continue,
                },
                Direction::Reverse => PageStart::Continue,
            },
        },
{
    match requested {
        Direction::Forward => match current {
            Direction::Reverse => match last {
                Some(k) => {
                    if end_reached {
                        PageStart::Move(Reposition::Start)
                    } else {
                        PageStart::Move(Reposition::From(k.clone(), Direction::Forward))
                    }
                },
                None => PageStart::Continue,
            },
            Direction::Forward => {
                if end_reached {
                    PageStart::NothingLeft
                } else {
                    PageStart::Continue
                }
            },
        },
        Direction::Reverse => match current {
            Direction::Forward => match first {
                Some(k) => {
                    if end_reached {
                        PageStart::Move(Reposition::End)
                    } else {
                        PageStart::Move(Reposition::From(k.clone(), Direction::Reverse))
                    }
                },
                None => PageStart::Continue,
            },
            Direction::Reverse => PageStart::Continue,
        },
    }
}

/// The direction the iterator reads in after `start`.
pub fn direction_after(current: Direction, requested: Direction, start: &PageStart) -> (r: Direction)
    ensures r == if start is Move { requested } else { current },
{
    match start {
        PageStart::Move(_) => requested,
        _ => current,
    }
}

/// `s` in reverse order.
pub open spec fn reversed<T>(s: Seq<T>) -> Seq<T> {
    Seq::new(s.len(), |i: int| s[s.len() - 1 - i])
}

/// The page made of the entries `read` in the order they were read, with `size` the size of a
/// selection: in storage order (so reversed where the iterator reads backward), and whether
/// the last page in the direction was reached, which is when fewer entries than a selection
/// were read.
pub fn finish_page<T>(read: Vec<T>, size: usize, direction: Direction) -> (r: (Vec<T>, bool))
    ensures
        r.0@ == match direction {
            Direction::Forward => read@,
            Direction::Reverse => reversed(read@),
        },
        r.1 == (read@.len() != size),
{
    let end_reached = read.len() != size;
    match direction {
        Direction::Forward => (read, end_reached),
        Direction::Reverse => {
            let mut rest = read;
            let ghost original = rest@;
            let mut out: Vec<T> = Vec::new();
            while rest.len() > 0
                invariant
                    rest@.len() + out@.len() == original.len(),
                    rest@ == original.take(rest@.len() as int),
                    forall|i: int| 0 <= i < out@.len() ==> out@[i] == original[original.len() - 1 - i],
                decreases rest@.len(),
            {
                let ghost before = rest@;
                let item = rest.pop().unwrap();
                proof {
                    assert(rest@ =~= original.take(rest@.len() as int));
                    assert(item == original[before.len() - 1]);
                }
                out.push(item);
            }
            assert(out@ =~= reversed(original));
            (out, end_reached)
        },
    }
}

/// Turning around and reading a page back gives the entries in their stored order: reading
/// backward then reversing what was read gives the order in which reading forward meets them.
pub proof fn law_reversing_restores_storage_order<T>(read_backward: Seq<T>)
    ensures
        reversed(reversed(read_backward)) == read_backward,
        reversed(read_backward).len() == read_backward.len(),
{
    assert(reversed(reversed(read_backward)) =~= read_backward);
}

} // verus!
