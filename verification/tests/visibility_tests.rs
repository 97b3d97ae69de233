use alkahest_renderer::command::Entity;
use alkahest_renderer::visibility::{
    hide_unselected, is_visible, unhide_all, EntityVisibility, ViewVisibility, Visibility,
};

fn vis_entity(index: u32) -> Entity {
    Entity { index, generation: 1 }
}

#[test]
fn view_visibility_starts_invisible() {
    let v = ViewVisibility::new();
    assert!(!v.is_visible(0));
    assert!(!v.is_visible(usize::MAX));
}

#[test]
fn view_visibility_is_per_view() {
    let mut v = ViewVisibility::new();
    v.set_visible(0);
    v.set_visible(77);
    assert!(v.is_visible(0));
    assert!(v.is_visible(77));
    assert!(!v.is_visible(1));
}

#[test]
fn entity_without_culling_shows_everywhere() {
    assert!(is_visible(&None, 0));
    assert!(is_visible(&None, 1234));
    let mut v = ViewVisibility::new();
    v.set_visible(3);
    let some = Some(v);
    assert!(is_visible(&some, 3));
    assert!(!is_visible(&some, 0));
}

#[test]
fn hide_unselected_keeps_the_selected_as_it_is() {
    let mut entities = vec![
        EntityVisibility { entity: vis_entity(1), visibility: Visibility::Visible },
        EntityVisibility { entity: vis_entity(2), visibility: Visibility::Visible },
        EntityVisibility { entity: vis_entity(3), visibility: Visibility::Hidden },
    ];
    hide_unselected(&mut entities, Some(vis_entity(2)));
    assert_eq!(
        entities,
        vec![
            EntityVisibility { entity: vis_entity(1), visibility: Visibility::Hidden },
            EntityVisibility { entity: vis_entity(2), visibility: Visibility::Visible },
            EntityVisibility { entity: vis_entity(3), visibility: Visibility::Hidden },
        ]
    );
}

#[test]
fn hide_unselected_leaves_a_hidden_selection_hidden() {
    let mut entities =
        vec![EntityVisibility { entity: vis_entity(9), visibility: Visibility::Hidden }];
    hide_unselected(&mut entities, Some(vis_entity(9)));
    assert_eq!(entities[0].visibility, Visibility::Hidden);
}

#[test]
fn hide_unselected_without_selection_hides_all() {
    let mut entities = vec![
        EntityVisibility { entity: vis_entity(1), visibility: Visibility::Visible },
        EntityVisibility { entity: vis_entity(2), visibility: Visibility::Visible },
    ];
    hide_unselected(&mut entities, None);
    assert!(entities.iter().all(|e| e.visibility == Visibility::Hidden));
}

#[test]
fn hide_unselected_tells_generations_apart() {
    let mut entities =
        vec![EntityVisibility { entity: vis_entity(1), visibility: Visibility::Visible }];
    hide_unselected(&mut entities, Some(Entity { index: 1, generation: 2 }));
    assert_eq!(entities[0].visibility, Visibility::Hidden);
}

#[test]
fn unhide_all_shows_every_entity() {
    let mut entities = vec![
        EntityVisibility { entity: vis_entity(1), visibility: Visibility::Hidden },
        EntityVisibility { entity: vis_entity(2), visibility: Visibility::Visible },
        EntityVisibility { entity: vis_entity(3), visibility: Visibility::Hidden },
    ];
    unhide_all(&mut entities);
    assert_eq!(entities.len(), 3);
    for (i, e) in entities.iter().enumerate() {
        assert_eq!(e.entity, vis_entity(i as u32 + 1));
        assert_eq!(e.visibility, Visibility::Visible);
    }
}
