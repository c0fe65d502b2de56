use reload_engine::color::{hex_rgba, Rgba};
use reload_engine::game::create_game;
use reload_engine::input::{Align, Key, MouseButton};

#[test]
fn hex_colors() {
    assert_eq!(hex_rgba("aaff55ee"), Some(Rgba { r: 0xaa, g: 0xff, b: 0x55, a: 0xee }));
    assert_eq!(hex_rgba("008800"), Some(Rgba { r: 0, g: 0x88, b: 0, a: 255 }));
    assert_eq!(hex_rgba("5555DD"), Some(Rgba { r: 0x55, g: 0x55, b: 0xdd, a: 255 }));
    assert_eq!(hex_rgba("00880"), None);
    assert_eq!(hex_rgba("0088000"), None);
    assert_eq!(hex_rgba("gg8800"), None);
    assert_eq!(hex_rgba("008800zz"), None);
    assert_eq!(hex_rgba(""), None);
}

#[test]
fn align_signs() {
    assert_eq!(Align::Left.sign(), -1);
    assert_eq!(Align::Center.sign(), 0);
    assert_eq!(Align::Right.sign(), 1);
}

#[test]
fn create_game_names_its_crate() {
    let g = create_game(123);
    assert_eq!(g.game_dir, "game");
    assert_eq!(g.target_name, "game");
    assert_eq!(g.abi_size_tag, 123);
    let p = g.fallback_plan(&Vec::new(), "lib", ".so", "/");
    assert_eq!(p.artifact_path, "game/target/debug/libgame.so");
    assert_eq!(p.source_root, "game/src");
}

#[test]
fn input_enums_compare() {
    assert_ne!(Key::Enter, Key::Space);
    assert_eq!(MouseButton::Left, MouseButton::Left);
}
