//! The keyboard of the guess box's list of suggestions: moving the highlight
//! down and up, and what Enter picks.
use vstd::prelude::*;

use crate::types::Language;

verus! {

/// The highlight after pressing Down in a list of `count` suggestions: the
/// first one when none was highlighted, the next one, or the last one again.
pub open spec fn highlight_down(current: Option<usize>, count: usize) -> Option<usize> {
    if count == 0 {
        None
    } else {
        match current {
            None => Some(0usize),
            Some(i) => Some(if i + 1 < count - 1 { (i + 1) as usize } else { (count - 1) as usize }),
        }
    }
}

/// The highlight after pressing Up: the previous suggestion, or none above
/// the first one.
pub open spec fn highlight_up(current: Option<usize>) -> Option<usize> {
    match current {
        None => None,
        Some(i) => if i == 0 { None } else { Some((i - 1) as usize) },
    }
}

/// The highlight after pressing Down.
pub fn next_highlighted(current: Option<usize>, count: usize) -> (r: Option<usize>)
    requires
        count == 0 || current != Some(usize::MAX),
    ensures
        r == highlight_down(current, count),
        r matches Some(j) ==> j < count,
{
    match current {
        _ if count == 0 => None,
        None => Some(0),
        Some(i) => Some(if i + 1 < count - 1 { i + 1 } else { count - 1 }),
    }
}

/// The highlight after pressing Up.
pub fn prev_highlighted(current: Option<usize>) -> (r: Option<usize>)
    ensures
        r == highlight_up(current),
{
    match current {
        None => None,
        Some(0) => None,
        Some(i) => Some(i - 1),
    }
}

/// Up undoes Down, except from the last suggestion, where Down stays.
pub proof fn law_up_undoes_down(i: usize, count: usize)
    requires
        i + 1 < count,
    ensures
        highlight_up(highlight_down(Some(i), count)) == Some(i),
{
}

/// What Enter picks: the highlighted suggestion, or the only one when none is
/// highlighted.
pub fn enter_choice(highlighted: Option<usize>, items: &Vec<Language>) -> (r: Option<Language>)
    ensures
        r == match highlighted {
            Some(i) => if i < items@.len() { Some(items@[i as int]) } else { None },
            None => if items@.len() == 1 { Some(items@[0]) } else { None },
        },
{
    match highlighted {
        Some(i) => if i < items.len() { Some(items[i]) } else { None },
        None => if items.len() == 1 { Some(items[0]) } else { None },
    }
}

} // verus!
