use alkahest_renderer::stage::{
    FeatureRenderer, RenderStage, RenderStageSubscriptions, ALL_STAGE_BITS, COMPUTE_SKINNING_BITS,
    STAGE_COUNT,
};

fn stage_ranges(nonempty: &[usize]) -> [u16; 25] {
    let mut ranges = [0u16; 25];
    let mut next: u16 = 0;
    for i in 0..24 {
        ranges[i] = next;
        if nonempty.contains(&i) {
            next += 2;
        }
    }
    ranges[24] = next;
    ranges
}

#[test]
fn stage_index_round_trip() {
    for i in 0..STAGE_COUNT {
        let stage = RenderStage::from_index(i).unwrap();
        assert_eq!(stage.index(), i);
    }
    assert_eq!(RenderStage::from_index(24), None);
    assert_eq!(RenderStage::from_index(usize::MAX), None);
}

#[test]
fn stage_indices_are_the_fixed_ones() {
    assert_eq!(RenderStage::GenerateGbuffer.index(), 0);
    assert_eq!(RenderStage::Decals.index(), 1);
    assert_eq!(RenderStage::ShadowGenerate.index(), 3);
    assert_eq!(RenderStage::DecalsAdditive.index(), 6);
    assert_eq!(RenderStage::Transparents.index(), 7);
    assert_eq!(RenderStage::DepthPrepass.index(), 12);
    assert_eq!(RenderStage::ComputeSkinning.index(), 23);
}

#[test]
fn terrain_is_drawn_in_three_stages_only() {
    let mut drawn = Vec::new();
    for i in 0..STAGE_COUNT {
        let stage = RenderStage::from_index(i).unwrap();
        if stage.draws_terrain() {
            drawn.push(stage);
        }
    }
    assert_eq!(
        drawn,
        vec![
            RenderStage::GenerateGbuffer,
            RenderStage::ShadowGenerate,
            RenderStage::DepthPrepass
        ]
    );
}

#[test]
fn draw_priority_buckets() {
    assert_eq!(FeatureRenderer::Water.draw_priority(), 1);
    assert_eq!(FeatureRenderer::RigidObject.draw_priority(), 2);
    assert_eq!(FeatureRenderer::DynamicObjects.draw_priority(), 2);
    assert_eq!(FeatureRenderer::SkyTransparent.draw_priority(), 99);
    assert_eq!(FeatureRenderer::StaticObjects.draw_priority(), 99);
    assert_eq!(FeatureRenderer::Cloth.draw_priority(), 99);
}

#[test]
fn empty_subscriptions_hold_no_stage() {
    let none = RenderStageSubscriptions::empty();
    assert_eq!(none.bits(), 0);
    for i in 0..STAGE_COUNT {
        assert!(!none.is_subscribed(RenderStage::from_index(i).unwrap()));
    }
}

#[test]
fn from_bits_truncate_drops_what_is_no_stage() {
    let s = RenderStageSubscriptions::from_bits_truncate(0xffff_ffff);
    assert_eq!(s.bits(), ALL_STAGE_BITS);
    assert_eq!(s.bits(), 0x00ff_ffff);
    let t = RenderStageSubscriptions::from_bits_truncate(0x0100_0081);
    assert_eq!(t.bits(), 0x81);
    assert!(t.is_subscribed(RenderStage::GenerateGbuffer));
    assert!(t.is_subscribed(RenderStage::Transparents));
    assert!(!t.is_subscribed(RenderStage::Decals));
}

#[test]
fn compute_skinning_is_bit_23() {
    let s = RenderStageSubscriptions::compute_skinning();
    assert_eq!(s.bits(), COMPUTE_SKINNING_BITS);
    assert_eq!(s.bits(), 1 << 23);
    assert!(s.is_subscribed(RenderStage::ComputeSkinning));
    assert!(!s.is_subscribed(RenderStage::WorldForces));
}

#[test]
fn partrange_list_subscribes_nonempty_ranges() {
    let ranges = stage_ranges(&[0, 3, 7, 23]);
    let s = RenderStageSubscriptions::from_partrange_list(&ranges);
    assert_eq!(s.bits(), (1 << 0) | (1 << 3) | (1 << 7) | (1 << 23));
    for i in 0..STAGE_COUNT {
        let stage = RenderStage::from_index(i).unwrap();
        assert_eq!(s.is_subscribed(stage), [0, 3, 7, 23].contains(&i));
    }
}

#[test]
fn partrange_list_of_equal_boundaries_subscribes_nothing() {
    let s = RenderStageSubscriptions::from_partrange_list(&[5u16; 25]);
    assert_eq!(s, RenderStageSubscriptions::empty());
}

#[test]
fn partrange_list_ignores_falling_boundaries() {
    let mut ranges = [0u16; 25];
    ranges[0] = 4;
    ranges[1] = 2;
    ranges[2] = 9;
    let s = RenderStageSubscriptions::from_partrange_list(&ranges);
    // stage 0 runs from 4 down to 2 and holds nothing, stage 1 from 2 to 9
    assert_eq!(s.bits(), 1 << 1);
}

#[test]
fn union_holds_the_stages_of_both() {
    let a = RenderStageSubscriptions::from_bits_truncate(0b0101);
    let b = RenderStageSubscriptions::from_bits_truncate(0b0110);
    let u = a.union(b);
    assert_eq!(u.bits(), 0b0111);
    assert!(u.contains(a));
    assert!(u.contains(b));
    assert!(!a.contains(b));
    assert!(a.contains(RenderStageSubscriptions::empty()));
    assert_eq!(a.union(RenderStageSubscriptions::empty()), a);
    assert_eq!(a.union(b), b.union(a));
}

#[test]
fn union_of_per_stage_sets_is_the_declared_set() {
    let ranges = stage_ranges(&[1, 6, 12, 20]);
    let declared = RenderStageSubscriptions::from_partrange_list(&ranges);
    let mut union = RenderStageSubscriptions::empty();
    for i in 0..STAGE_COUNT {
        let stage = RenderStage::from_index(i).unwrap();
        if declared.is_subscribed(stage) {
            union = union.union(RenderStageSubscriptions::from_bits_truncate(1 << i));
        }
    }
    assert_eq!(union, declared);
}
