//! Scroll arithmetic of the package listing, over mathematical integers.
//!
//! Every function takes the current offset, the number of items and the
//! viewport height as it is at that moment, and gives the next offset. The
//! height is an argument of each call because the terminal may be resized
//! between two of them.

use vstd::prelude::*;
use crate::ui::APP_MARGIN;

verus! {

/// The largest offset a page or end move goes to: the listing's length plus
/// the margin, less the viewport height, and never below zero.
pub open spec fn max_offset(item_count: int, viewport_height: int) -> int {
    if item_count + APP_MARGIN >= viewport_height {
        item_count + APP_MARGIN - viewport_height
    } else {
        0
    }
}

/// One line down, unless the viewport already reaches past the listing by
/// more than half the margin.
pub open spec fn down(offset: int, item_count: int, viewport_height: int) -> int {
    if offset + viewport_height <= item_count + APP_MARGIN / 2 {
        offset + 1
    } else {
        offset
    }
}

/// One line up, unless already at the top.
pub open spec fn up(offset: int) -> int {
    if offset > 0 {
        offset - 1
    } else {
        offset
    }
}

/// One viewport down, stopping at `max_offset`.
pub open spec fn page_down(offset: int, item_count: int, viewport_height: int) -> int {
    let target = offset + viewport_height;
    let limit = max_offset(item_count, viewport_height);
    if target <= limit {
        target
    } else {
        limit
    }
}

/// One viewport up, stopping at the top.
pub open spec fn page_up(offset: int, viewport_height: int) -> int {
    if offset >= viewport_height {
        offset - viewport_height
    } else {
        0
    }
}

/// The offset that shows the end of the listing.
pub open spec fn end(item_count: int, viewport_height: int) -> int {
    max_offset(item_count, viewport_height)
}

/// The offset that shows the start of the listing.
pub open spec fn start() -> int {
    0
}

/// The offset after `times` moves of one viewport up, all with the same
/// viewport height.
pub open spec fn page_up_times(offset: int, viewport_height: int, times: nat) -> int
    decreases times,
{
    if times == 0 {
        offset
    } else {
        page_up(page_up_times(offset, viewport_height, (times - 1) as nat), viewport_height)
    }
}

/// While the viewport ends above the last item, one line down keeps its end
/// within half the margin past the listing.
pub proof fn lemma_down_within_slack(offset: int, item_count: int, viewport_height: int)
    requires
        0 <= offset,
        0 <= item_count,
        0 <= viewport_height <= item_count + APP_MARGIN,
        offset + viewport_height < item_count + APP_MARGIN / 2,
    ensures
        down(offset, item_count, viewport_height) + viewport_height <= item_count + APP_MARGIN
            / 2,
{
}

/// One line down never passes the offset that a move to the end goes to, and
/// never moves back.
pub proof fn lemma_down_within_max_offset(offset: int, item_count: int, viewport_height: int)
    requires
        0 <= offset <= max_offset(item_count, viewport_height),
        0 <= item_count,
        0 <= viewport_height,
    ensures
        offset <= down(offset, item_count, viewport_height) <= max_offset(
            item_count,
            viewport_height,
        ),
{
}

/// One line up never goes below zero, and at zero it changes nothing.
pub proof fn lemma_up_floor(offset: int)
    requires
        0 <= offset,
    ensures
        0 <= up(offset) <= offset,
        up(0) == 0,
        offset > 0 ==> up(offset) == offset - 1,
{
}

/// One viewport down never passes the offset that a move to the end goes to,
/// and from an offset within that bound it never moves back.
pub proof fn lemma_page_down_within_max_offset(offset: int, item_count: int, viewport_height: int)
    requires
        0 <= offset,
        0 <= item_count,
        0 <= viewport_height,
    ensures
        0 <= page_down(offset, item_count, viewport_height) <= max_offset(
            item_count,
            viewport_height,
        ),
        offset <= max_offset(item_count, viewport_height) ==> offset <= page_down(
            offset,
            item_count,
            viewport_height,
        ),
{
}

/// Moves of one viewport up subtract the viewport height each time and stop
/// at zero.
pub proof fn lemma_page_up_times(offset: int, viewport_height: int, times: nat)
    requires
        0 <= offset,
        0 <= viewport_height,
    ensures
        page_up_times(offset, viewport_height, times) == if offset >= times * viewport_height {
            offset - times * viewport_height
        } else {
            0
        },
    decreases times,
{
    if times > 0 {
        let before = (times - 1) as nat;
        lemma_page_up_times(offset, viewport_height, before);
        assert(times * viewport_height == before * viewport_height + viewport_height)
            by (nonlinear_arith)
            requires
                before == times - 1,
        ;
        assert(0 <= before * viewport_height) by (nonlinear_arith)
            requires
                0 <= viewport_height,
        ;
    } else {
        assert(times * viewport_height == 0) by (nonlinear_arith)
            requires
                times == 0,
        ;
    }
}

/// Once the moves of one viewport up cover the offset, the offset is zero,
/// and every further move leaves it there.
pub proof fn lemma_page_up_reaches_top(offset: int, viewport_height: int, times: nat)
    requires
        0 <= offset,
        0 <= viewport_height,
        times * viewport_height >= offset,
    ensures
        page_up_times(offset, viewport_height, times) == 0,
        page_up_times(offset, viewport_height, times + 1) == 0,
        page_up(0, viewport_height) == 0,
{
    lemma_page_up_times(offset, viewport_height, times);
}

/// With a viewport of at least one row, as many moves of one viewport up as
/// the offset counts lines are always enough to reach zero.
pub proof fn lemma_page_up_top_is_reached(offset: int, viewport_height: int)
    requires
        0 <= offset,
        1 <= viewport_height,
    ensures
        page_up_times(offset, viewport_height, offset as nat) == 0,
{
    assert(offset * viewport_height >= offset) by (nonlinear_arith)
        requires
            0 <= offset,
            1 <= viewport_height,
    ;
    lemma_page_up_reaches_top(offset, viewport_height, offset as nat);
}

} // verus!
