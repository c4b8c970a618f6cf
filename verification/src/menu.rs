//! Moving the selection of a menu whose items may be section headers, which
//! the selection skips.

use vstd::prelude::*;

verus! {

/// The position before `x` in a menu of `len` items, wrapping from the first
/// item to the last.
pub open spec fn wrap_dec(x: int, len: int) -> int {
    if x == 0 {
        len - 1
    } else {
        x - 1
    }
}

/// The position after `x` in a menu of `len` items, wrapping from the last
/// item (or any position past it) to the first.
pub open spec fn wrap_inc(x: int, len: int) -> int {
    if x >= len - 1 {
        0
    } else {
        x + 1
    }
}

/// Whether position `x` holds a header.
pub open spec fn is_header_at(hdr: Seq<bool>, x: int) -> bool {
    0 <= x < hdr.len() && hdr[x]
}

/// Walks up from `x` over headers, stopping on the first position that holds
/// no header or on `start`; `None` when `fuel` steps do not reach a stop.
pub open spec fn up_walk(hdr: Seq<bool>, len: int, start: int, x: int, fuel: nat) -> Option<int>
    decreases fuel,
{
    if !is_header_at(hdr, x) {
        Some(x)
    } else if fuel == 0 {
        None
    } else {
        let y = wrap_dec(x, len);
        if y == start {
            Some(y)
        } else {
            up_walk(hdr, len, start, y, (fuel - 1) as nat)
        }
    }
}

/// Walks down from `x` over headers (see `up_walk`).
pub open spec fn down_walk(hdr: Seq<bool>, len: int, start: int, x: int, fuel: nat) -> Option<int>
    decreases fuel,
{
    if !is_header_at(hdr, x) {
        Some(x)
    } else if fuel == 0 {
        None
    } else {
        let y = wrap_inc(x, len);
        if y == start {
            Some(y)
        } else {
            down_walk(hdr, len, start, y, (fuel - 1) as nat)
        }
    }
}

/// The number of steps within which a walk from `start` in a menu of `len`
/// items comes to a stop, where it stops at all.
pub open spec fn walk_fuel(start: int, len: int, hdr: Seq<bool>) -> nat {
    (start + len + hdr.len() + 2) as nat
}

/// Where the selection lands when it moves up from `start` in a menu of
/// `len` items: one up (wrapping), then on up over headers, but no further
/// than back to `start`.
pub open spec fn menu_up_target(hdr: Seq<bool>, len: int, start: int) -> Option<int> {
    up_walk(hdr, len, start, wrap_dec(start, len), walk_fuel(start, len, hdr))
}

/// Where the selection lands when it moves down (see `menu_up_target`).
pub open spec fn menu_down_target(hdr: Seq<bool>, len: int, start: int) -> Option<int> {
    down_walk(hdr, len, start, wrap_inc(start, len), walk_fuel(start, len, hdr))
}

/// Moves the selection up from `start` in a menu of `len` items whose header
/// positions `hdr` marks, skipping headers (see `menu_up_target`). The walk
/// must come to a stop: it does whenever `start < len` (see
/// `law_menu_walk_stops`).
pub fn menu_up(hdr: &Vec<bool>, len: usize, start: usize) -> (r: usize)
    requires
        len > 0,
        menu_up_target(hdr@, len as int, start as int) is Some,
    ensures
        Some(r as int) == menu_up_target(hdr@, len as int, start as int),
{
    let mut new_sel: usize = if start == 0 { len - 1 } else { start - 1 };
    let ghost mut fuel: nat = walk_fuel(start as int, len as int, hdr@);
    while new_sel < hdr.len() && hdr[new_sel]
        invariant_except_break
            up_walk(hdr@, len as int, start as int, new_sel as int, fuel) == menu_up_target(hdr@, len as int, start as int),
        invariant
            len > 0,
            menu_up_target(hdr@, len as int, start as int) is Some,
        ensures
            Some(new_sel as int) == menu_up_target(hdr@, len as int, start as int),
        decreases fuel,
    {
        new_sel = if new_sel == 0 { len - 1 } else { new_sel - 1 };
        if new_sel == start {
            break;
        }
        proof {
            fuel = (fuel - 1) as nat;
        }
    }
    new_sel
}

/// Moves the selection down from `start` in a menu of `len` items whose
/// header positions `hdr` marks, skipping headers (see `menu_down_target`).
/// The walk must come to a stop: it does whenever `start < len` (see
/// `law_menu_walk_stops`).
pub fn menu_down(hdr: &Vec<bool>, len: usize, start: usize) -> (r: usize)
    requires
        len > 0,
        menu_down_target(hdr@, len as int, start as int) is Some,
    ensures
        Some(r as int) == menu_down_target(hdr@, len as int, start as int),
{
    let mut new_sel: usize = if start >= len - 1 { 0 } else { start + 1 };
    let ghost mut fuel: nat = walk_fuel(start as int, len as int, hdr@);
    while new_sel < hdr.len() && hdr[new_sel]
        invariant_except_break
            down_walk(hdr@, len as int, start as int, new_sel as int, fuel) == menu_down_target(hdr@, len as int, start as int),
        invariant
            len > 0,
            menu_down_target(hdr@, len as int, start as int) is Some,
        ensures
            Some(new_sel as int) == menu_down_target(hdr@, len as int, start as int),
        decreases fuel,
    {
        new_sel = if new_sel >= len - 1 { 0 } else { new_sel + 1 };
        if new_sel == start {
            break;
        }
        proof {
            fuel = (fuel - 1) as nat;
        }
    }
    new_sel
}

/// Whether moving the selection up from `start` comes to a stop (see
/// `menu_up_target`).
pub fn up_walk_stops(hdr: &Vec<bool>, len: usize, start: usize) -> (b: bool)
    requires
        len > 0,
    ensures
        b == menu_up_target(hdr@, len as int, start as int) is Some,
{
    let mut x: usize = if start == 0 { len - 1 } else { start - 1 };
    let mut fuel: u128 = start as u128 + len as u128 + hdr.len() as u128 + 2;
    loop
        invariant
            len > 0,
            up_walk(hdr@, len as int, start as int, x as int, fuel as nat) == menu_up_target(
                hdr@,
                len as int,
                start as int,
            ),
        decreases fuel,
    {
        if !(x < hdr.len() && hdr[x]) {
            return true;
        }
        if fuel == 0 {
            return false;
        }
        x = if x == 0 { len - 1 } else { x - 1 };
        if x == start {
            return true;
        }
        fuel = fuel - 1;
    }
}

/// Whether moving the selection down from `start` comes to a stop (see
/// `menu_down_target`).
pub fn down_walk_stops(hdr: &Vec<bool>, len: usize, start: usize) -> (b: bool)
    requires
        len > 0,
    ensures
        b == menu_down_target(hdr@, len as int, start as int) is Some,
{
    let mut x: usize = if start >= len - 1 { 0 } else { start + 1 };
    let mut fuel: u128 = start as u128 + len as u128 + hdr.len() as u128 + 2;
    loop
        invariant
            len > 0,
            down_walk(hdr@, len as int, start as int, x as int, fuel as nat) == menu_down_target(
                hdr@,
                len as int,
                start as int,
            ),
        decreases fuel,
    {
        if !(x < hdr.len() && hdr[x]) {
            return true;
        }
        if fuel == 0 {
            return false;
        }
        x = if x >= len - 1 { 0 } else { x + 1 };
        if x == start {
            return true;
        }
        fuel = fuel - 1;
    }
}

/// The number of upward steps from `x` to `start`.
pub open spec fn up_dist(x: int, start: int, len: int) -> int {
    if x >= start { x - start } else { x + len - start }
}

/// The number of downward steps from `x` to `start`.
pub open spec fn down_dist(x: int, start: int, len: int) -> int {
    if x <= start { start - x } else { start + len - x }
}

proof fn lemma_up_walk_stops(hdr: Seq<bool>, len: int, start: int, x: int, fuel: nat)
    requires
        0 <= start < len,
        0 <= x < len,
        x != start,
        fuel >= up_dist(x, start, len),
    ensures
        up_walk(hdr, len, start, x, fuel) matches Some(y) && 0 <= y < len && (y == start || !is_header_at(hdr, y)),
    decreases fuel,
{
    if is_header_at(hdr, x) {
        let y = wrap_dec(x, len);
        if y != start {
            lemma_up_walk_stops(hdr, len, start, y, (fuel - 1) as nat);
        }
    }
}

proof fn lemma_down_walk_stops(hdr: Seq<bool>, len: int, start: int, x: int, fuel: nat)
    requires
        0 <= start < len,
        0 <= x < len,
        x != start,
        fuel >= down_dist(x, start, len),
    ensures
        down_walk(hdr, len, start, x, fuel) matches Some(y) && 0 <= y < len && (y == start || !is_header_at(hdr, y)),
    decreases fuel,
{
    if is_header_at(hdr, x) {
        let y = wrap_inc(x, len);
        if y != start {
            lemma_down_walk_stops(hdr, len, start, y, (fuel - 1) as nat);
        }
    }
}

/// From a selection within the menu, moving up or down always comes to a
/// stop, within the menu, on an item that is no header or back on the item it
/// started from.
pub proof fn law_menu_walk_stops(hdr: Seq<bool>, len: int, start: int)
    requires
        0 <= start < len,
    ensures
        menu_up_target(hdr, len, start) matches Some(y) && 0 <= y < len && (y == start || !is_header_at(hdr, y)),
        menu_down_target(hdr, len, start) matches Some(y) && 0 <= y < len && (y == start || !is_header_at(hdr, y)),
{
    let f = walk_fuel(start, len, hdr);
    let u = wrap_dec(start, len);
    if u != start {
        lemma_up_walk_stops(hdr, len, start, u, f);
    } else {
        reveal_with_fuel(up_walk, 2);
    }
    let d = wrap_inc(start, len);
    if d != start {
        lemma_down_walk_stops(hdr, len, start, d, f);
    } else {
        reveal_with_fuel(down_walk, 2);
    }
}

/// In a menu without headers, moving up selects the previous item and moving
/// down the next one, both wrapping around; so moving down and then up gives
/// back the item one started from.
pub proof fn law_menu_moves_without_headers(hdr: Seq<bool>, len: int, start: int)
    requires
        0 <= start < len,
        forall|i: int| 0 <= i < hdr.len() ==> !hdr[i],
    ensures
        menu_up_target(hdr, len, start) == Some(wrap_dec(start, len)),
        menu_down_target(hdr, len, start) == Some(wrap_inc(start, len)),
        menu_up_target(hdr, len, wrap_inc(start, len)) == Some(start),
        menu_down_target(hdr, len, wrap_dec(start, len)) == Some(start),
{
}

/// The first header position in `[lo, hi)`.
pub open spec fn first_header_from(hdr: Seq<bool>, lo: int, hi: int) -> Option<int>
    decreases hi - lo,
{
    if lo >= hi {
        None
    } else if is_header_at(hdr, lo) {
        Some(lo)
    } else {
        first_header_from(hdr, lo + 1, hi)
    }
}

/// The last header position below `b`.
pub open spec fn last_header_below(hdr: Seq<bool>, b: int) -> Option<int>
    decreases b,
{
    if b <= 0 {
        None
    } else if is_header_at(hdr, b - 1) {
        Some(b - 1)
    } else {
        last_header_below(hdr, b - 1)
    }
}

/// The header after `current`: the first one past it, else (wrapping) the
/// first one before it.
pub open spec fn next_header(hdr: Seq<bool>, current: int) -> Option<int> {
    match first_header_from(hdr, current + 1, hdr.len() as int) {
        Some(h) => Some(h),
        None => first_header_from(hdr, 0, current),
    }
}

/// The header of the section before the one `current` lies in: the header
/// before the last header below `current`; wrapping to the last header of the
/// menu when there is none.
pub open spec fn prev_section_header(hdr: Seq<bool>, current: int) -> Option<int> {
    match last_header_below(hdr, hdr.len() as int) {
        None => None,
        Some(last) => match last_header_below(hdr, current) {
            Some(p) => match last_header_below(hdr, p) {
                Some(q) => Some(q),
                None => Some(last),
            },
            None => Some(last),
        },
    }
}

/// Where the selection lands when it jumps to the next section: the first
/// item after the next header that is no header (see `menu_down_target`);
/// `None` when the menu has no header.
pub open spec fn next_section_target(hdr: Seq<bool>, current: int) -> Option<int> {
    match next_header(hdr, current) {
        Some(h) => menu_down_target(hdr, hdr.len() as int, h),
        None => None,
    }
}

/// Where the selection lands when it jumps to the previous section (see
/// `prev_section_header`); `None` when the menu has no header.
pub open spec fn prev_section_target(hdr: Seq<bool>, current: int) -> Option<int> {
    match prev_section_header(hdr, current) {
        Some(h) => menu_down_target(hdr, hdr.len() as int, h),
        None => None,
    }
}

proof fn lemma_first_header_from(hdr: Seq<bool>, lo: int, hi: int)
    ensures
        first_header_from(hdr, lo, hi) matches Some(h) ==> lo <= h < hi && is_header_at(hdr, h),
        first_header_from(hdr, lo, hi) is None ==> forall|i: int| lo <= i < hi ==> !is_header_at(hdr, i),
    decreases hi - lo,
{
    if lo < hi {
        lemma_first_header_from(hdr, lo + 1, hi);
    }
}

proof fn lemma_last_header_below(hdr: Seq<bool>, b: int)
    ensures
        last_header_below(hdr, b) matches Some(h) ==> 0 <= h < b && is_header_at(hdr, h),
        last_header_below(hdr, b) matches Some(h) ==> forall|i: int| h < i < b ==> !is_header_at(hdr, i),
        last_header_below(hdr, b) is None ==> forall|i: int| 0 <= i < b ==> !is_header_at(hdr, i),
    decreases b,
{
    if b > 0 {
        lemma_last_header_below(hdr, b - 1);
    }
}

/// Jumping to the previous section goes back exactly one section: from an
/// item of the section under the header `p`, where some header lies above
/// `p`, the target header is the nearest header above `p` (no header lies
/// between them); where `p` is the first header, it is the menu's last
/// header. The selection then lands on the first item after it that is no
/// header.
pub proof fn law_prev_section_goes_back_one(hdr: Seq<bool>, current: int, p: int)
    requires
        is_header_at(hdr, p),
        p < current,
        forall|i: int| p < i < current ==> !is_header_at(hdr, i),
    ensures
        (exists|i: int| 0 <= i < p && is_header_at(hdr, i)) ==> (prev_section_header(hdr, current) matches Some(q)
            && q < p && is_header_at(hdr, q) && forall|i: int| q < i < p ==> !is_header_at(hdr, i)),
        (forall|i: int| 0 <= i < p ==> !is_header_at(hdr, i)) ==> (prev_section_header(hdr, current) matches Some(q)
            && is_header_at(hdr, q) && forall|i: int| q < i < hdr.len() ==> !is_header_at(hdr, i)),
        prev_section_header(hdr, current) matches Some(q) && prev_section_target(hdr, current) == menu_down_target(
            hdr,
            hdr.len() as int,
            q,
        ),
{
    lemma_last_header_below(hdr, hdr.len() as int);
    lemma_last_header_below(hdr, current);
    lemma_last_header_below(hdr, p);
    let c = last_header_below(hdr, current);
    if c is None {
        assert(!is_header_at(hdr, p));
    }
    let pc = c->0;
    if pc < p {
        assert(!is_header_at(hdr, p));
    }
    if pc > p {
        assert(!is_header_at(hdr, pc));
    }
    assert(pc == p);
}

/// From an item above every header, jumping to the previous section wraps
/// to the menu's last header; a menu without headers has no section to jump
/// to.
pub proof fn law_prev_section_wraps(hdr: Seq<bool>, current: int)
    requires
        forall|i: int| 0 <= i < current ==> !is_header_at(hdr, i),
    ensures
        (forall|i: int| 0 <= i < hdr.len() ==> !is_header_at(hdr, i)) <==> prev_section_header(hdr, current) is None,
        prev_section_header(hdr, current) matches Some(q) ==> is_header_at(hdr, q) && forall|i: int|
            q < i < hdr.len() ==> !is_header_at(hdr, i),
{
    lemma_last_header_below(hdr, hdr.len() as int);
    lemma_last_header_below(hdr, current);
    if let Some(x) = last_header_below(hdr, current) {
        assert(!is_header_at(hdr, x));
    }
}

/// Jumping to the next section goes forward exactly one section: the
/// target header is the nearest header after `current`, or, where none
/// follows, the menu's first header (wrapping); there is none only when no
/// header but `current` itself is in the menu.
pub proof fn law_next_section_goes_forward_one(hdr: Seq<bool>, current: int)
    requires
        0 <= current < hdr.len(),
    ensures
        next_header(hdr, current) is None <==> forall|i: int| 0 <= i < hdr.len() && i != current ==> !is_header_at(hdr, i),
        next_header(hdr, current) matches Some(q) ==> is_header_at(hdr, q) && q != current && (if q > current {
            forall|i: int| current < i < q ==> !is_header_at(hdr, i)
        } else {
            (forall|i: int| current < i < hdr.len() ==> !is_header_at(hdr, i)) && forall|i: int|
                0 <= i < q ==> !is_header_at(hdr, i)
        }),
{
    lemma_first_header_from_first(hdr, current + 1, hdr.len() as int);
    lemma_first_header_from_first(hdr, 0, current);
    lemma_first_header_from(hdr, current + 1, hdr.len() as int);
    lemma_first_header_from(hdr, 0, current);
}

proof fn lemma_first_header_from_first(hdr: Seq<bool>, lo: int, hi: int)
    ensures
        first_header_from(hdr, lo, hi) matches Some(h) ==> forall|i: int| lo <= i < h ==> !is_header_at(hdr, i),
    decreases hi - lo,
{
    if lo < hi {
        lemma_first_header_from_first(hdr, lo + 1, hi);
    }
}

/// The first header position in `[lo, hi)` (see `first_header_from`).
fn find_first_header(hdr: &Vec<bool>, lo: usize, hi: usize) -> (r: Option<usize>)
    ensures
        match r {
            Some(h) => first_header_from(hdr@, lo as int, hi as int) == Some(h as int),
            None => first_header_from(hdr@, lo as int, hi as int) is None,
        },
{
    let mut i = lo;
    while i < hi
        invariant
            lo <= i || hi <= i,
            first_header_from(hdr@, i as int, hi as int) == first_header_from(hdr@, lo as int, hi as int),
        decreases hi - i,
    {
        if i < hdr.len() && hdr[i] {
            return Some(i);
        }
        i = i + 1;
    }
    None
}

/// The last header position below `b` (see `last_header_below`).
fn find_last_header_below(hdr: &Vec<bool>, b: usize) -> (r: Option<usize>)
    ensures
        match r {
            Some(h) => last_header_below(hdr@, b as int) == Some(h as int),
            None => last_header_below(hdr@, b as int) is None,
        },
{
    let mut i = b;
    while i > 0
        invariant
            i <= b,
            last_header_below(hdr@, i as int) == last_header_below(hdr@, b as int),
        decreases i,
    {
        if i - 1 < hdr.len() && hdr[i - 1] {
            return Some(i - 1);
        }
        i = i - 1;
    }
    None
}

/// Jumps the selection to the first item of the next section (see
/// `next_section_target`); `None` when the menu has no header.
pub fn next_section(hdr: &Vec<bool>, current: usize) -> (r: Option<usize>)
    requires
        hdr@.len() > 0,
        current < usize::MAX,
    ensures
        match r {
            Some(t) => next_section_target(hdr@, current as int) == Some(t as int),
            None => next_section_target(hdr@, current as int) is None,
        },
{
    let len = hdr.len();
    let h = match find_first_header(hdr, current + 1, len) {
        Some(h) => Some(h),
        None => find_first_header(hdr, 0, current),
    };
    match h {
        Some(h) => {
            proof {
                lemma_first_header_from(hdr@, current + 1, len as int);
                lemma_first_header_from(hdr@, 0, current as int);
                law_menu_walk_stops(hdr@, len as int, h as int);
            }
            Some(menu_down(hdr, len, h))
        },
        None => None,
    }
}

/// Jumps the selection to the first item of the previous section (see
/// `prev_section_target`); `None` when the menu has no header.
pub fn prev_section(hdr: &Vec<bool>, current: usize) -> (r: Option<usize>)
    requires
        hdr@.len() > 0,
    ensures
        match r {
            Some(t) => prev_section_target(hdr@, current as int) == Some(t as int),
            None => prev_section_target(hdr@, current as int) is None,
        },
{
    let len = hdr.len();
    match find_last_header_below(hdr, len) {
        None => None,
        Some(last) => {
            let th = match find_last_header_below(hdr, current) {
                Some(p) => match find_last_header_below(hdr, p) {
                    Some(q) => q,
                    None => last,
                },
                None => last,
            };
            proof {
                lemma_last_header_below(hdr@, len as int);
                lemma_last_header_below(hdr@, current as int);
                if let Some(p) = last_header_below(hdr@, current as int) {
                    lemma_last_header_below(hdr@, p);
                }
                law_menu_walk_stops(hdr@, len as int, th as int);
            }
            Some(menu_down(hdr, len, th))
        },
    }
}

/// Where a scroll up by the wheel moves the selection: three items up (not
/// past the first), then on up over headers, not past the first item.
pub open spec fn scroll_up_target(hdr: Seq<bool>, current: int) -> int {
    scroll_up_walk(hdr, if current >= 3 { current - 3 } else { 0 })
}

/// Walks up over headers, not past the first item.
pub open spec fn scroll_up_walk(hdr: Seq<bool>, x: int) -> int
    decreases x,
{
    if x > 0 && is_header_at(hdr, x) {
        scroll_up_walk(hdr, x - 1)
    } else {
        x
    }
}

/// Walks down over headers, not past the item before `max - 1`.
pub open spec fn scroll_down_walk(hdr: Seq<bool>, max: int, x: int) -> int
    decreases max - x,
{
    if x < max - 1 && is_header_at(hdr, x) {
        scroll_down_walk(hdr, max, x + 1)
    } else {
        x
    }
}

/// Moves the selection up as a scroll of the wheel does (see
/// `scroll_up_target`).
pub fn scroll_up(hdr: &Vec<bool>, current: usize) -> (r: usize)
    ensures
        r == scroll_up_target(hdr@, current as int),
{
    let mut x = if current >= 3 { current - 3 } else { 0 };
    while x > 0 && x < hdr.len() && hdr[x]
        invariant
            scroll_up_walk(hdr@, x as int) == scroll_up_target(hdr@, current as int),
        decreases x,
    {
        x = x - 1;
    }
    x
}

/// Where a scroll down by the wheel moves the selection in a menu of `max`
/// items: three items down but not past the last, then on down over headers,
/// not past the last item.
pub open spec fn scroll_down_target(hdr: Seq<bool>, max: int, current: int) -> int {
    let up = if current + 3 <= usize::MAX { current + 3 } else { usize::MAX as int };
    let last = if max >= 1 { max - 1 } else { 0 };
    scroll_down_walk(hdr, max, if up <= last { up } else { last })
}

/// Moves the selection down as a scroll of the wheel does (see
/// `scroll_down_target`).
pub fn scroll_down(hdr: &Vec<bool>, max: usize, current: usize) -> (r: usize)
    requires
        max > 0,
    ensures
        r == scroll_down_target(hdr@, max as int, current as int),
{
    let up = current.saturating_add(3);
    let last = max.saturating_sub(1);
    let mut x = if up <= last { up } else { last };
    while x < max - 1 && x < hdr.len() && hdr[x]
        invariant
            x < max,
            scroll_down_walk(hdr@, max as int, x as int) == scroll_down_target(hdr@, max as int, current as int),
        decreases max - x,
    {
        x = x + 1;
    }
    x
}

} // verus!
