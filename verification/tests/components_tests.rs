use alkahest_renderer::command::{ResourceId, TagHash};
use alkahest_renderer::components::{
    ActivityGroup, EntityWorldId, ExtendedHash, Label, MapResource, ResourceOriginType,
    ResourcePoint,
};

fn point(entity: ExtendedHash, resource: MapResource) -> ResourcePoint {
    ResourcePoint {
        entity,
        resource_type: 7,
        resource,
        has_havok_data: false,
        origin: ResourceOriginType::MapData,
        entity_cbuffer: ResourceId(1),
    }
}

#[test]
fn extended_hash_key() {
    assert_eq!(ExtendedHash::Hash32(TagHash(0x80a0_1234)).key(), 0x80a0_1234);
    assert_eq!(ExtendedHash::Hash64(0xdead_beef_0000_0001).key(), 0xdead_beef_0000_0001);
    assert_eq!(ExtendedHash::Hash32(TagHash(u32::MAX)).key(), 0xffff_ffff);
}

#[test]
fn entity_key_of_a_resource_with_a_model() {
    let entity = ExtendedHash::Hash64(99);
    assert_eq!(
        point(entity, MapResource::Unk80806aa3 { model: TagHash(0x8080_0001) }).entity_key(),
        0x8080_0001
    );
    assert_eq!(
        point(entity, MapResource::Unk808068d4 { model: TagHash(0x8080_0002) }).entity_key(),
        0x8080_0002
    );
}

#[test]
fn entity_key_of_a_resource_without_a_model() {
    assert_eq!(point(ExtendedHash::Hash64(99), MapResource::Other { kind: 3 }).entity_key(), 99);
    assert_eq!(
        point(ExtendedHash::Hash32(TagHash(5)), MapResource::Other { kind: 0 }).entity_key(),
        5
    );
}

#[test]
fn plain_components_hold_their_value() {
    assert_eq!(EntityWorldId(42).0, 42);
    assert_eq!(ActivityGroup(7).0, 7);
    assert_eq!(Label(String::from("spawn")).0, "spawn");
    assert_ne!(ResourceOriginType::Activity, ResourceOriginType::Activity2);
}
