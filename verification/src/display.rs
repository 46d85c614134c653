//! Display descriptors and the choice of which display to capture: the first
//! one the OS marks primary, or the first enumerated one when none is marked.
use vstd::prelude::*;

verus! {

/// Metadata for one attached display: dimensions, virtual-desktop origin,
/// and whether the OS marks it as the user's main screen.
#[derive(Clone, Copy, PartialEq, Eq, Structural, Debug)]
pub struct DisplayInfo {
    pub width: u32,
    pub height: u32,
    pub x: i32,
    pub y: i32,
    pub is_primary: bool,
}

/// Whether some enumerated display is marked primary.
pub open spec fn has_primary(s: Seq<DisplayInfo>) -> bool {
    exists|i: int| 0 <= i < s.len() && s[i].is_primary
}

/// The index of the display a capture targets: the first display marked
/// primary, or 0 when none is marked.
pub open spec fn selected_index(s: Seq<DisplayInfo>) -> int
    decreases s.len(),
{
    if s.len() == 0 {
        0
    } else if s[0].is_primary {
        0
    } else if has_primary(s.drop_first()) {
        1 + selected_index(s.drop_first())
    } else {
        0
    }
}

/// The selected index is in range, lands on a primary display whenever one
/// exists, is the first such index, and falls back to 0 otherwise.
pub proof fn lemma_selected_index(s: Seq<DisplayInfo>)
    requires
        s.len() > 0,
    ensures
        0 <= selected_index(s) < s.len(),
        has_primary(s) ==> s[selected_index(s)].is_primary,
        forall|k: int| 0 <= k < selected_index(s) ==> !(#[trigger] s[k]).is_primary,
        !has_primary(s) ==> selected_index(s) == 0,
    decreases s.len(),
{
    if s[0].is_primary {
        assert(has_primary(s));
    } else if has_primary(s.drop_first()) {
        lemma_selected_index(s.drop_first());
        let j = choose|i: int| 0 <= i < s.drop_first().len() && s.drop_first()[i].is_primary;
        assert(s[j + 1].is_primary);
        assert(has_primary(s));
        assert forall|k: int| 0 <= k < selected_index(s) implies !(#[trigger] s[k]).is_primary by {
            if k > 0 {
                assert(s[k] == s.drop_first()[k - 1]);
            }
        }
    } else {
        assert(!has_primary(s)) by {
            assert(forall|i: int|
                1 <= i < s.len() ==> #[trigger] s[i] == s.drop_first()[i - 1]);
        }
    }
}

/// When `i` is the first index marked primary, it is the selected index.
pub proof fn lemma_selected_index_is_first_primary(s: Seq<DisplayInfo>, i: int)
    requires
        0 <= i < s.len(),
        s[i].is_primary,
        forall|k: int| 0 <= k < i ==> !(#[trigger] s[k]).is_primary,
    ensures
        selected_index(s) == i,
    decreases s.len(),
{
    if i == 0 {
    } else {
        assert(!s[0].is_primary);
        assert(s.drop_first()[i - 1].is_primary);
        assert(has_primary(s.drop_first()));
        assert(forall|k: int|
            0 <= k < i - 1 ==> !(#[trigger] s.drop_first()[k]).is_primary) by {
            assert(forall|k: int|
                0 <= k < i - 1 ==> #[trigger] s.drop_first()[k] == s[k + 1]);
        }
        lemma_selected_index_is_first_primary(s.drop_first(), i - 1);
    }
}

/// Picks the display a capture targets: `None` exactly when the enumeration
/// is empty, otherwise the index of the first primary display, or 0 when no
/// display is marked primary.
pub fn select_display(screens: &Vec<DisplayInfo>) -> (r: Option<usize>)
    ensures
        r is None <==> screens@.len() == 0,
        screens@.len() > 0 ==> r == Some(selected_index(screens@) as usize),
{
    if screens.len() == 0 {
        return None;
    }
    let mut i: usize = 0;
    while i < screens.len()
        invariant
            0 <= i <= screens@.len(),
            forall|k: int| 0 <= k < i ==> !(#[trigger] screens@[k]).is_primary,
        decreases screens@.len() - i,
    {
        if screens[i].is_primary {
            proof {
                lemma_selected_index_is_first_primary(screens@, i as int);
            }
            return Some(i);
        }
        i += 1;
    }
    proof {
        assert(!has_primary(screens@));
        lemma_selected_index(screens@);
    }
    Some(0)
}

} // verus!
