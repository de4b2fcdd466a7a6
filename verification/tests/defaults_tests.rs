use steamengine_communication::defaults::{
    ExitPlayerPackage, LegiblePackage, PlayerInteractPackage, RenderPackage,
    TransformPlayerPackage, LEGIBLE, PLAYER_EXIT, PLAYER_INTERACT, PLAYER_TRANSFORM, RENDER,
};
use steamengine_communication::errors::PCSError;
use steamengine_communication::framing::ToPackage;
use steamengine_communication::package::Package;

#[test]
fn routing_keys() {
    assert_eq!(RENDER, "view.render");
    assert_eq!(PLAYER_TRANSFORM, "update.player.transform");
    assert_eq!(PLAYER_EXIT, "update.player.exit");
    assert_eq!(PLAYER_INTERACT, "update.player.interact");
    assert_eq!(LEGIBLE, "test.legible");
}

#[test]
fn interact_package_of_a_capital_a() {
    let package = PlayerInteractPackage::new('A').to_package();
    assert_eq!(package.name, "update.player.interact");
    assert_eq!(package.value, vec![0, 0, 0, 65]);
    assert_eq!(package.cursor(), 0);
    let mut reader = package.clone();
    assert_eq!(reader.get_char(), Ok('A'));
    let back = PlayerInteractPackage::from_package(package).unwrap();
    assert_eq!(back.key(), 'A');
}

#[test]
fn interact_package_of_a_wide_character() {
    let package = PlayerInteractPackage::new('\u{1F600}').to_package();
    assert_eq!(package.value, vec![0, 1, 0xF6, 0]);
    let back = PlayerInteractPackage::from_package(package).unwrap();
    assert_eq!(back.key(), '\u{1F600}');
}

#[test]
fn interact_package_from_a_short_payload() {
    let package = Package::new("update.player.interact", vec![0, 0, 65]);
    assert_eq!(
        PlayerInteractPackage::from_package(package).unwrap_err(),
        PCSError::OutOfBounds
    );
}

#[test]
fn interact_package_from_a_surrogate() {
    let package = Package::new("update.player.interact", vec![0, 0, 0xD8, 0x01]);
    assert_eq!(
        PlayerInteractPackage::from_package(package).unwrap_err(),
        PCSError::InvalidCodepoint
    );
}

#[test]
fn interact_package_reads_from_the_cursor() {
    let mut package = Package::new("update.player.interact", vec![9, 0, 0, 0, 66]);
    assert_eq!(package.get_u8(), Ok(9));
    let back = PlayerInteractPackage::from_package(package).unwrap();
    assert_eq!(back.key(), 'B');
}

#[test]
fn exit_package_is_empty() {
    let package = ExitPlayerPackage.to_package();
    assert_eq!(package.name, "update.player.exit");
    assert!(package.value.is_empty());
    assert_eq!(package.cursor(), 0);
}

#[test]
fn transform_package_keeps_its_matrix() {
    let matrix = [[1, 2, 3, 4], [5, 6, 7, 8], [9, 10, 11, 12], [13, 14, 15, 16]];
    assert_eq!(TransformPlayerPackage::new(matrix).matrix(), matrix);
}

#[test]
fn legible_package_is_utf8() {
    let package = LegiblePackage::from_str("VAA").to_package();
    assert_eq!(package.name, "test.legible");
    assert_eq!(package.value, b"VAA".to_vec());
    let wide = LegiblePackage::from_str("\u{e9}\u{5b57}").to_package();
    assert_eq!(wide.value, vec![0xC3, 0xA9, 0xE5, 0xAD, 0x97]);
}

#[test]
fn render_package_keeps_its_parts() {
    let matrix = [[1, 0, 0, 0], [0, 1, 0, 0], [0, 0, 1, 0], [0, 0, 0, 1]];
    let package = RenderPackage::new("vertices:cube", matrix, "texture:7", "shader:2");
    assert_eq!(package.vertices(), "vertices:cube");
    assert_eq!(package.model(), matrix);
    assert_eq!(package.texture(), "texture:7");
    assert_eq!(package.shader(), "shader:2");
}
