//! The bone picker: a body silhouette whose regions each stand for a bone.
//! Clicking a region adds its bone to the aim bones or takes it out.
//!
//! The caller draws the silhouette and tests the pointer against the region
//! polygons; this module holds the regions' order and decides what a click
//! and a hover select.

use vstd::prelude::*;

verus! {

/// The bones a region of the picker can stand for.
#[derive(Clone, Copy, Debug, PartialEq, Eq, Structural)]
pub enum Bones {
    Head,
    Neck,
    Spine4,
    Spine3,
    Spine2,
    Spine1,
    Hip,
    LeftShoulder,
    LeftElbow,
    LeftHand,
    RightShoulder,
    RightElbow,
    RightHand,
    LeftHip,
    LeftKnee,
    LeftFoot,
    RightHip,
    RightKnee,
    RightFoot,
}

/// The bone of each region, in drawing and hit-testing order (back to
/// front): head, neck, the four spine sections, hip, the arms, the legs.
pub open spec fn region_bones_spec() -> Seq<Bones> {
    seq![
        Bones::Head,
        Bones::Neck,
        Bones::Spine4,
        Bones::Spine3,
        Bones::Spine2,
        Bones::Spine1,
        Bones::Hip,
        Bones::LeftShoulder,
        Bones::LeftElbow,
        Bones::LeftHand,
        Bones::RightShoulder,
        Bones::RightElbow,
        Bones::RightHand,
        Bones::LeftHip,
        Bones::LeftKnee,
        Bones::LeftFoot,
        Bones::RightHip,
        Bones::RightKnee,
        Bones::RightFoot,
    ]
}

/// The bone of each region, in hit-testing order.
pub fn region_bones() -> (v: Vec<Bones>)
    ensures
        v@ == region_bones_spec(),
{
    let v = vec![
        Bones::Head,
        Bones::Neck,
        Bones::Spine4,
        Bones::Spine3,
        Bones::Spine2,
        Bones::Spine1,
        Bones::Hip,
        Bones::LeftShoulder,
        Bones::LeftElbow,
        Bones::LeftHand,
        Bones::RightShoulder,
        Bones::RightElbow,
        Bones::RightHand,
        Bones::LeftHip,
        Bones::LeftKnee,
        Bones::LeftFoot,
        Bones::RightHip,
        Bones::RightKnee,
        Bones::RightFoot,
    ];
    assert(v@ =~= region_bones_spec());
    v
}

/// The number of regions of the silhouette.
pub fn region_count() -> (n: usize)
    ensures
        n == region_bones_spec().len(),
        n == 19,
{
    19
}

/// The region selected by a click: the first one, in region order, that
/// the click hits.
pub open spec fn clicked_region(click: Seq<bool>, c: Option<usize>) -> bool {
    match c {
        Some(i) => i < click.len() && click[i as int] && forall|j: int| 0 <= j < i ==> !click[j],
        None => forall|j: int| 0 <= j < click.len() ==> !click[j],
    }
}

/// The region under the pointer: the last one hit among those tested,
/// which are the regions up to and including the clicked one, or all of
/// them when nothing was clicked.
pub open spec fn hovered_region(hover: Seq<bool>, last: int, h: Option<usize>) -> bool {
    match h {
        Some(i) => i <= last && hover[i as int] && forall|j: int| i < j <= last ==> !hover[j],
        None => forall|j: int| 0 <= j <= last ==> !hover[j],
    }
}

/// The last region tested: the clicked one, or the last region.
pub open spec fn last_tested(n: int, clicked: Option<usize>) -> int {
    match clicked {
        Some(c) => c as int,
        None => n - 1,
    }
}

/// Which region is hovered and which is clicked, given for each region in
/// order whether the pointer and the click hit it.
pub fn pick_region(hover_hits: &Vec<bool>, click_hits: &Vec<bool>) -> (r: (Option<usize>, Option<usize>))
    requires
        hover_hits@.len() == click_hits@.len(),
    ensures
        clicked_region(click_hits@, r.1),
        hovered_region(hover_hits@, last_tested(click_hits@.len() as int, r.1), r.0),
{
    let n = click_hits.len();
    let mut hovered: Option<usize> = None;
    let mut i: usize = 0;
    while i < n
        invariant
            n == click_hits@.len(),
            n == hover_hits@.len(),
            i <= n,
            forall|j: int| 0 <= j < i ==> !click_hits@[j],
            hovered_region(hover_hits@, i - 1, hovered),
        decreases n - i,
    {
        if hover_hits[i] {
            hovered = Some(i);
        }
        if click_hits[i] {
            return (hovered, Some(i));
        }
        i = i + 1;
    }
    (hovered, None)
}

/// The bone list after clicking the region of `b`: without its first
/// occurrence when it was there, with `b` appended when it was not.
pub open spec fn toggled(s: Seq<Bones>, b: Bones) -> Seq<Bones> {
    if s.contains(b) {
        s.remove_value(b)
    } else {
        s.push(b)
    }
}

/// Adds `bone` to the aim bones when it is not there, or removes its first
/// occurrence when it is.
pub fn toggle_bone(bones: &mut Vec<Bones>, bone: Bones)
    ensures
        final(bones)@ == toggled(old(bones)@, bone),
{
    let mut i: usize = 0;
    while i < bones.len()
        invariant
            bones@ == old(bones)@,
            i <= bones@.len(),
            forall|j: int| 0 <= j < i ==> bones@[j] != bone,
        decreases bones@.len() - i,
    {
        if bones[i] == bone {
            proof {
                let s = old(bones)@;
                s.index_of_first_ensures(bone);
                assert(s.contains(bone));
                let f = s.index_of_first(bone).unwrap();
                assert(f == i as int) by {
                    if f < i {
                        assert(s[f] == bone);
                    } else if f > i {
                        assert(s[i as int] == bone);
                    }
                }
            }
            bones.remove(i);
            return;
        }
        i = i + 1;
    }
    assert(!old(bones)@.contains(bone));
    bones.push(bone);
}

/// One frame of the picker, from the hit tests of the pointer and of a
/// click against each region: the click toggles the bone of the clicked
/// region. Returns whether the bones changed and the bone under the pointer.
pub fn body_picker_update(bones: &mut Vec<Bones>, hover_hits: &Vec<bool>, click_hits: &Vec<bool>) -> (r: (
    bool,
    Option<Bones>,
))
    requires
        hover_hits@.len() == 19,
        click_hits@.len() == 19,
    ensures
        exists|h: Option<usize>, c: Option<usize>|
            {
                &&& clicked_region(click_hits@, c)
                &&& hovered_region(hover_hits@, last_tested(19, c), h)
                &&& r.0 == c is Some
                &&& r.1 == match h {
                    Some(i) => Some(region_bones_spec()[i as int]),
                    None => None::<Bones>,
                }
                &&& final(bones)@ == match c {
                    Some(i) => toggled(old(bones)@, region_bones_spec()[i as int]),
                    None => old(bones)@,
                }
            },
{
    let regions = region_bones();
    let (h, c) = pick_region(hover_hits, click_hits);
    let hovered = match h {
        Some(i) => Some(regions[i]),
        None => None,
    };
    match c {
        Some(i) => {
            toggle_bone(bones, regions[i]);
            (true, hovered)
        },
        None => (false, hovered),
    }
}

/// A click flips whether the region's bone is selected, and a bone list
/// without repeats stays without repeats: clicking a selected region
/// deselects it, clicking an unselected one selects it.
pub proof fn lemma_toggle_flips_selection(s: Seq<Bones>, b: Bones)
    requires
        s.no_duplicates(),
    ensures
        toggled(s, b).contains(b) == !s.contains(b),
        toggled(s, b).no_duplicates(),
{
    if s.contains(b) {
        s.index_of_first_ensures(b);
        let i = s.index_of_first(b).unwrap();
        s.remove_ensures(i);
        let t = s.remove(i);
        assert forall|k: int| 0 <= k < t.len() implies t[k] != b by {
            if k < i {
                assert(t[k] == s[k]);
            } else {
                assert(t[k] == s[k + 1]);
            }
        }
        assert forall|x: int, y: int| 0 <= x < t.len() && 0 <= y < t.len() && x != y implies t[x]
            != t[y] by {
            let sx = if x < i {
                x
            } else {
                x + 1
            };
            let sy = if y < i {
                y
            } else {
                y + 1
            };
            assert(t[x] == s[sx] && t[y] == s[sy]);
        }
    } else {
        let t = s.push(b);
        assert(t[s.len() as int] == b);
        assert forall|x: int, y: int| 0 <= x < t.len() && 0 <= y < t.len() && x != y implies t[x]
            != t[y] by {
            if x < s.len() && y < s.len() {
                assert(t[x] == s[x] && t[y] == s[y]);
            } else if x < s.len() {
                assert(t[x] == s[x]);
            } else {
                assert(t[y] == s[y]);
            }
        }
    }
}

/// Clicking the region of an unselected bone twice gives back the selection
/// it started from.
pub proof fn lemma_toggle_twice_restores(s: Seq<Bones>, b: Bones)
    requires
        !s.contains(b),
    ensures
        toggled(toggled(s, b), b) == s,
{
    let t = s.push(b);
    assert(t[s.len() as int] == b);
    assert(t.contains(b));
    t.index_of_first_ensures(b);
    let i = t.index_of_first(b).unwrap();
    assert(i == s.len()) by {
        if i < s.len() {
            assert(t[i] == s[i]);
        }
    }
    assert(t.remove(i) =~= s);
}

} // verus!
