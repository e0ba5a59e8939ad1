use rust_pixel::init::{
    app_pix_dir, check_layer_sizes, choose_pix_base, symbol_map_file, clear_pixel_layer_data, get_game_config, get_wasm_app_data, init_game_config,
    set_wasm_app_data, wasm_init_pixel_assets, with_pixel_layer_data, PixelLayerData, RunMode,
    WindowMode,
};
use rust_pixel::PixelTextureData;

#[test]
fn window_modes() {
    assert!(!WindowMode::Window.is_fullscreen());
    assert!(WindowMode::Fullscreen.is_fullscreen());
    assert!(WindowMode::FullscreenFit.is_fullscreen());
    assert!(WindowMode::FullscreenFit.is_fit());
    assert!(!WindowMode::Fullscreen.is_fit());
    assert_eq!(WindowMode::default(), WindowMode::Window);
    assert_eq!(RunMode::default(), RunMode::TwoD);
}

#[test]
fn first_config_wins() {
    let mut cfg = None;
    init_game_config(&mut cfg, "snake", "/games/snake", WindowMode::Window, RunMode::TwoD);
    init_game_config(&mut cfg, "tetris", "/games/tetris", WindowMode::Fullscreen, RunMode::ThreeD);
    let c = get_game_config(&mut cfg);
    assert_eq!(c.game_name, "snake");
    assert_eq!(c.project_path, "/games/snake");
    assert_eq!(c.window_mode, WindowMode::Window);
}

#[test]
fn default_config_when_unset() {
    let mut cfg = None;
    let c = get_game_config(&mut cfg);
    assert_eq!(c.game_name, "");
    assert_eq!(c.project_path, ".");
    assert_eq!(c.run_mode, RunMode::TwoD);
    assert!(cfg.is_some());
}

#[test]
fn lib_config_and_texture_cache() {
    let mut cfg = None;
    let c = rust_pixel::get_game_config(&mut cfg);
    assert_eq!(c.project_path, ".");
    let mut cfg2 = None;
    rust_pixel::init_game_config(&mut cfg2, "g", "p");
    rust_pixel::init_game_config(&mut cfg2, "h", "q");
    assert_eq!(rust_pixel::get_game_config(&mut cfg2).game_name, "g");
    let tex = Some(PixelTextureData { width: 2, height: 1, data: vec![0; 8] });
    assert_eq!(rust_pixel::get_pixel_texture_data(&tex).width, 2);
}

#[test]
fn app_data_is_set_once() {
    let mut slot = None;
    assert_eq!(get_wasm_app_data(&slot), None);
    set_wasm_app_data(&mut slot, "assets/demo.md");
    set_wasm_app_data(&mut slot, "other");
    assert_eq!(get_wasm_app_data(&slot), Some("assets/demo.md"));
}

#[test]
fn layer_data_is_split_and_cached() {
    let mut cfg = None;
    let mut cell: Option<PixelLayerData> = None;
    let data: Vec<u8> = (0..32).collect();
    assert!(wasm_init_pixel_assets(&mut cfg, &mut cell, "g", 2, 2, &data, Some(16), RunMode::TwoD));
    assert_eq!(cfg.as_ref().unwrap().window_mode, WindowMode::Fullscreen);
    assert_eq!(cfg.as_ref().unwrap().project_path, ".");
    let layers = with_pixel_layer_data(&cell, |d| d.layers.clone()).unwrap();
    assert_eq!(layers.len(), 2);
    assert_eq!(layers[0], (0..16).collect::<Vec<u8>>());
    assert_eq!(layers[1], (16..32).collect::<Vec<u8>>());
    clear_pixel_layer_data(&mut cell);
    assert!(with_pixel_layer_data(&cell, |d| d.layer_size).is_none());
}

#[test]
fn layer_data_too_short_or_no_symbol_map() {
    let mut cfg = None;
    let mut cell: Option<PixelLayerData> = None;
    let data: Vec<u8> = vec![0; 31];
    assert!(!wasm_init_pixel_assets(&mut cfg, &mut cell, "g", 2, 2, &data, Some(16), RunMode::TwoD));
    assert!(cell.is_none());
    let data: Vec<u8> = vec![0; 32];
    assert!(!wasm_init_pixel_assets(&mut cfg, &mut cell, "g", 2, 2, &data, None, RunMode::TwoD));
    assert!(cell.is_none());
    assert!(cfg.is_some());
}

#[test]
fn layer_sizes_are_checked_in_order() {
    assert_eq!(check_layer_sizes(64, &vec![]), Ok(()));
    assert_eq!(check_layer_sizes(64, &vec![(64, 64), (64, 64)]), Ok(()));
    assert_eq!(check_layer_sizes(64, &vec![(64, 64), (64, 32), (16, 64)]), Err(1));
    assert_eq!(check_layer_sizes(64, &vec![(65, 64)]), Err(0));
}

#[test]
fn pix_directory_choice() {
    let app = app_pix_dir("games/tetris", "/");
    assert_eq!(app, "games/tetris/assets/pix");
    assert_eq!(symbol_map_file(&app), "games/tetris/assets/pix/layered_symbol_map.json");
    assert_eq!(choose_pix_base(&app, true, true), Ok(app.clone()));
    assert_eq!(choose_pix_base(&app, false, true), Ok("assets/pix".to_string()));
    assert_eq!(
        choose_pix_base(&app, false, false),
        Err("Cannot find layered_symbol_map.json in 'games/tetris/assets/pix' or 'assets/pix'".to_string())
    );
}
