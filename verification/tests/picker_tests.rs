use deadlocked::body_picker::{body_picker_update, pick_region, region_bones, region_count, toggle_bone, Bones};

fn hits(on: &[usize]) -> Vec<bool> {
    (0..19).map(|i| on.contains(&i)).collect()
}

#[test]
fn nineteen_regions() {
    assert_eq!(region_count(), 19);
    let b = region_bones();
    assert_eq!(b.len(), 19);
    assert_eq!(b[0], Bones::Head);
    assert_eq!(b[6], Bones::Hip);
    assert_eq!(b[12], Bones::RightHand);
    assert_eq!(b[18], Bones::RightFoot);
}

#[test]
fn click_picks_first_hit_and_hover_last_tested() {
    // hover over 2 and 5, click hits 3 and 4: click 3, hovering stops at 3
    assert_eq!(pick_region(&hits(&[2, 5]), &hits(&[3, 4])), (Some(2), Some(3)));
    // no click: the last hovered region wins
    assert_eq!(pick_region(&hits(&[2, 5]), &hits(&[])), (Some(5), None));
    assert_eq!(pick_region(&hits(&[]), &hits(&[])), (None, None));
    assert_eq!(pick_region(&hits(&[7]), &hits(&[7])), (Some(7), Some(7)));
}

#[test]
fn toggling_bones() {
    let mut bones = vec![Bones::Head, Bones::Neck];
    toggle_bone(&mut bones, Bones::Hip);
    assert_eq!(bones, vec![Bones::Head, Bones::Neck, Bones::Hip]);
    toggle_bone(&mut bones, Bones::Hip);
    assert_eq!(bones, vec![Bones::Head, Bones::Neck]);
    toggle_bone(&mut bones, Bones::Head);
    assert_eq!(bones, vec![Bones::Neck]);
    // only the first of repeated bones is removed
    let mut rep = vec![Bones::Neck, Bones::Head, Bones::Neck];
    toggle_bone(&mut rep, Bones::Neck);
    assert_eq!(rep, vec![Bones::Head, Bones::Neck]);
}

#[test]
fn picker_frame() {
    let mut bones = vec![Bones::Head];
    let (changed, hovered) = body_picker_update(&mut bones, &hits(&[0]), &hits(&[0]));
    assert!(changed);
    assert_eq!(hovered, Some(Bones::Head));
    assert!(bones.is_empty());
    let (changed, hovered) = body_picker_update(&mut bones, &hits(&[9]), &hits(&[]));
    assert!(!changed);
    assert_eq!(hovered, Some(Bones::LeftHand));
    assert!(bones.is_empty());
    let (changed, _) = body_picker_update(&mut bones, &hits(&[]), &hits(&[15]));
    assert!(changed);
    assert_eq!(bones, vec![Bones::LeftFoot]);
}
