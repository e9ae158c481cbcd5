use alkahest::ecs::components::{
    ActivityGroup, CubemapVolume, EntityModel, EntityWorldId, ExtendedHash, Label, MapResource,
    PointLight, ResourceOriginType, ResourcePoint, StaticInstances, Terrain, Water,
};
use alkahest::types::AABB;
use destiny_pkg::{TagHash, TagHash64};
use glam::{Mat4, Vec3, Vec4};

fn point(entity: ExtendedHash, resource: MapResource) -> ResourcePoint<u8> {
    ResourcePoint {
        entity,
        resource_type: 0,
        resource,
        has_havok_data: false,
        origin: ResourceOriginType::StaticMap,
        entity_cbuffer: 0,
    }
}

#[test]
fn entity_key_of_a_bounded_model_is_its_tag() {
    let p = point(
        ExtendedHash::Hash64(TagHash64(77)),
        MapResource::Unk80806aa3(
            AABB { min: Vec3::ZERO, max: Vec3::ONE },
            TagHash(0x8080_1234),
            Mat4::IDENTITY,
        ),
    );
    assert_eq!(p.entity_key(), 0x8080_1234u64);
}

#[test]
fn entity_key_of_a_model_by_tag_is_its_tag() {
    let p = point(
        ExtendedHash::Hash32(TagHash(5)),
        MapResource::Unk808068d4(TagHash(0xffff_ffff)),
    );
    assert_eq!(p.entity_key(), 0xffff_ffffu64);
}

#[test]
fn entity_key_of_any_other_resource_is_the_entity_key() {
    let short = point(ExtendedHash::Hash32(TagHash(0x80a0_0001)), MapResource::Other);
    assert_eq!(short.entity_key(), 0x80a0_0001u64);
    let long = point(ExtendedHash::Hash64(TagHash64(0x1234_5678_9abc_def0)), MapResource::Other);
    assert_eq!(long.entity_key(), 0x1234_5678_9abc_def0u64);
}

#[test]
fn extended_hash_key_widens_a_short_tag() {
    assert_eq!(ExtendedHash::Hash32(TagHash(u32::MAX)).key(), u32::MAX as u64);
    assert_eq!(ExtendedHash::Hash32(TagHash(0)).key(), 0);
    assert_eq!(ExtendedHash::Hash64(TagHash64(u64::MAX)).key(), u64::MAX);
}

#[test]
fn plain_components_hold_what_they_are_given() {
    assert_eq!(EntityWorldId(9).0, 9);
    assert_eq!(ActivityGroup(3).0, 3);
    assert_eq!(Label("door".to_string()).0, "door");
    let _ = Water;
    assert!(ResourceOriginType::Activity != ResourceOriginType::Activity2);
    let light = PointLight { attenuation: Vec4::new(1.0, 2.0, 3.0, 4.0) };
    assert_eq!(light.attenuation.w, 4.0);
    let volume = CubemapVolume(
        TagHash(1),
        AABB { min: Vec3::ZERO, max: Vec3::ONE },
        "cubemap".to_string(),
    );
    assert_eq!(volume.1.max, Vec3::ONE);
    assert_eq!(volume.2, "cubemap");
    let model = EntityModel("renderer", 7u8);
    assert_eq!((model.0, model.1), ("renderer", 7));
    assert_eq!(Terrain(3u8).0, 3);
    assert_eq!(StaticInstances(4u8).0, 4);
}
