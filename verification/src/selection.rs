//! A highlighted position in a list, and how keys move it.

use vstd::prelude::*;

verus! {

/// Which item of a list is highlighted, and the first one that is shown.
#[derive(Debug, Clone, Copy, PartialEq, Eq, Structural)]
pub struct Selection {
    pub selected: Option<usize>,
    pub offset: usize,
}

impl Selection {
    /// Nothing highlighted, shown from the top.
    #[verifier::allow_in_spec]
    pub fn none() -> Selection
        returns
            (Selection { selected: None, offset: 0 }),
    {
        Selection { selected: None, offset: 0 }
    }

    /// One item highlighted, shown from the top.
    #[verifier::allow_in_spec]
    pub fn at(index: usize) -> Selection
        returns
            (Selection { selected: Some(index), offset: 0 }),
    {
        Selection { selected: Some(index), offset: 0 }
    }

    /// Another item highlighted; without one the list goes back to the top.
    #[verifier::allow_in_spec]
    pub fn moved(self, index: Option<usize>) -> Selection
        returns
            (match index {
                Some(i) => Selection { selected: Some(i), offset: self.offset },
                None => Selection { selected: None, offset: 0 },
            }),
    {
        match index {
            Some(i) => Selection { selected: Some(i), offset: self.offset },
            None => Selection { selected: None, offset: 0 },
        }
    }
}

/// The first item of a list, if it has one.
pub open spec fn first_of(n: nat) -> Selection {
    if n == 0 {
        Selection::none()
    } else {
        Selection::at(0)
    }
}

/// Highlights the first item of a list of `n` items, if there is one.
pub fn select_first_of(n: usize) -> (r: Selection)
    ensures
        r == first_of(n as nat),
{
    if n == 0 {
        Selection::none()
    } else {
        Selection::at(0)
    }
}

/// One item up in a list of `n` items, from the first or from nothing to the
/// last.
pub open spec fn up_around(selected: Option<usize>, n: nat) -> usize {
    match selected {
        Some(i) => if i > 0 {
            (i - 1) as usize
        } else {
            (n - 1) as usize
        },
        None => (n - 1) as usize,
    }
}

/// One item down in a list of `n` items, from the last or from nothing to the
/// first.
pub open spec fn down_around(selected: Option<usize>, n: nat) -> usize {
    match selected {
        Some(i) => if i < n - 1 {
            (i + 1) as usize
        } else {
            0
        },
        None => 0,
    }
}

pub fn move_up_around(selected: Option<usize>, n: usize) -> (r: usize)
    requires
        n > 0,
    ensures
        r == up_around(selected, n as nat),
{
    match selected {
        Some(i) => if i > 0 {
            i - 1
        } else {
            n - 1
        },
        None => n - 1,
    }
}

pub fn move_down_around(selected: Option<usize>, n: usize) -> (r: usize)
    requires
        n > 0,
    ensures
        r == down_around(selected, n as nat),
{
    match selected {
        Some(i) => if i < n - 1 {
            i + 1
        } else {
            0
        },
        None => 0,
    }
}

/// From inside a list, going around it in either direction stays inside, and
/// the two directions undo each other.
pub proof fn around_is_inverse(i: usize, n: nat)
    requires
        i < n <= usize::MAX,
    ensures
        up_around(Some(i), n) < n,
        down_around(Some(i), n) < n,
        up_around(Some(down_around(Some(i), n)), n) == i,
        down_around(Some(up_around(Some(i), n)), n) == i,
{
}

/// One item down, stopping at the last of `n` items; an empty list keeps the
/// position.
pub open spec fn down_to_last(selected: usize, n: nat) -> usize {
    if n == 0 {
        selected
    } else if selected < n - 1 {
        (selected + 1) as usize
    } else {
        (n - 1) as usize
    }
}

/// One item up, stopping at the first.
pub open spec fn up_to_first(selected: usize) -> usize {
    if selected > 0 {
        (selected - 1) as usize
    } else {
        0
    }
}

pub fn move_down(selected: usize, n: usize) -> (r: usize)
    ensures
        r == down_to_last(selected, n as nat),
{
    if n == 0 {
        selected
    } else if selected < n - 1 {
        selected + 1
    } else {
        n - 1
    }
}

pub fn move_up(selected: usize) -> (r: usize)
    ensures
        r == up_to_first(selected),
{
    if selected > 0 {
        selected - 1
    } else {
        0
    }
}

/// A position kept inside a list of `n` items; an empty list keeps it as it is.
pub open spec fn kept_within(selected: usize, n: nat) -> usize {
    if selected >= n && n > 0 {
        (n - 1) as usize
    } else {
        selected
    }
}

pub fn keep_within(selected: usize, n: usize) -> (r: usize)
    ensures
        r == kept_within(selected, n as nat),
{
    if selected >= n && n > 0 {
        n - 1
    } else {
        selected
    }
}

/// Moving up and down, and replacing the list, keep the position inside every
/// non-empty list.
pub proof fn stays_within(selected: usize, n: nat, m: nat)
    requires
        n == 0 || selected < n,
        n <= usize::MAX,
        m <= usize::MAX,
    ensures
        n > 0 ==> down_to_last(selected, n) < n,
        n > 0 ==> up_to_first(selected) < n,
        m > 0 ==> kept_within(selected, m) < m,
{
}

/// The first shown row that keeps the selected one among `visible` rows.
pub open spec fn scrolled(scroll: usize, selected: usize, visible: nat) -> usize {
    if visible == 0 {
        scroll
    } else if selected < scroll {
        selected
    } else if selected >= scroll + visible {
        (selected - (visible - 1)) as usize
    } else {
        scroll
    }
}

pub fn scroll_to(scroll: usize, selected: usize, visible: usize) -> (r: usize)
    ensures
        r == scrolled(scroll, selected, visible as nat),
{
    if visible == 0 {
        scroll
    } else if selected < scroll {
        selected
    } else if selected - scroll >= visible {
        selected - (visible - 1)
    } else {
        scroll
    }
}

/// After scrolling, the selected row is among the shown ones.
pub proof fn scrolled_shows_selected(scroll: usize, selected: usize, visible: nat)
    requires
        visible > 0,
    ensures
        scrolled(scroll, selected, visible) <= selected < scrolled(scroll, selected, visible) + visible,
{
}

} // verus!
