use welosa::animator::presets_manager::PresetManager as EffectPresets;
use welosa::animator::animation_type::AnimationType;
use welosa::presets::presets_manager::{Preset, PresetError, PresetFile, PresetManager, PresetMode, SaveFolder};
use welosa::utils::global_settings::settings_folders;
use welosa::utils::path_manager::PathManager;

fn file(name: &str, ext: Option<&str>) -> PresetFile {
    PresetFile {
        name: Some(name.to_string()),
        path: format!("/p/{}", name),
        extension: ext.map(|e| e.to_string()),
    }
}

#[test]
fn file_names() {
    let grid: PresetManager<()> = PresetManager::new_grid(PresetMode::Grid, "Leds 1".to_string());
    assert_eq!(grid.generate_filename(None), "grid_Leds 1.json");
    assert_eq!(grid.generate_filename(Some("wall".to_string())), "wall.json");
    let settings: PresetManager<()> = PresetManager::new_grid(PresetMode::Settings, String::new());
    assert_eq!(settings.generate_filename(None), "settings.json");
    let anim: PresetManager<()> = PresetManager::new_animator(AnimationType::Strobe);
    assert_eq!(anim.generate_filename_at(None, "20240102_030405"), "preset_20240102_030405.json");
    let name = anim.generate_filename(None);
    assert!(name.starts_with("preset_") && name.ends_with(".json"));
    assert_eq!(name.len(), "preset_".len() + 15 + ".json".len());
    let stamp: Vec<char> = name["preset_".len()..name.len() - ".json".len()].chars().collect();
    assert_eq!(stamp[8], '_');
    assert!(stamp.iter().enumerate().all(|(i, c)| i == 8 || c.is_ascii_digit()));
}

#[test]
fn save_locations() {
    let grid: PresetManager<()> = PresetManager::new_grid(PresetMode::Grid, "x".to_string());
    let (folder, name) = grid.save_location(Some("device".to_string())).unwrap();
    assert_eq!(folder, SaveFolder::Devices);
    assert_eq!(name, "device.json");
    let settings: PresetManager<()> = PresetManager::new_grid(PresetMode::Settings, String::new());
    assert_eq!(settings.save_location(None).unwrap_err(), PresetError::MissingAttribute);
    let anim: PresetManager<()> = PresetManager::new_animator(AnimationType::ScanLine);
    assert_eq!(anim.save_location(None).unwrap().0, SaveFolder::Effect(AnimationType::ScanLine));
    let no_type: PresetManager<()> = PresetManager::new_grid(PresetMode::Animator, String::new());
    assert_eq!(no_type.save_location(None).unwrap_err(), PresetError::MissingAttribute);
    assert_eq!(PresetError::MissingAttribute.message(), "Missing attribute:");
}

#[test]
fn selected_preset() {
    let mut m: PresetManager<()> = PresetManager::default();
    assert_eq!(m.animation_type, Some(AnimationType::BouncingBalls));
    assert_eq!(m.set_presets().unwrap_err(), PresetError::NoPresets);
    assert_eq!(m.get_preset_path(), None);
    m.presets.push(Preset::new("a.json".to_string(), "/p/a.json".to_string()));
    m.presets.push(Preset::new("b.json".to_string(), "/p/b.json".to_string()));
    m.selected_preset_idx = 1;
    assert_eq!(m.set_presets().unwrap(), "/p/b.json");
    assert_eq!(m.get_preset_path(), Some("/p/b.json".to_string()));
    m.selected_preset_idx = 2;
    assert_eq!(m.set_presets().unwrap_err(), PresetError::IndexOutOfBounds);
    assert_eq!(PresetError::IndexOutOfBounds.message(), "Selected preset index is out of bounds");
    assert_eq!(PresetError::NoPresets.message(), "No presets available");
    let d: Preset<()> = Preset::default();
    assert!(d.name.is_empty() && d.path.is_empty());
}

#[test]
fn listing_keeps_json_files_most_recent_first() {
    let m: PresetManager<()> = PresetManager::new_animator(AnimationType::WaveLines);
    let files = vec![
        file("one.json", Some("json")),
        file("notes.txt", Some("txt")),
        file("two.json", Some("json")),
        file("README", None),
        PresetFile { name: None, path: "/p/x.json".to_string(), extension: Some("json".to_string()) },
        file("three.json", Some("json")),
    ];
    let presets = m.load_all_presets(files).unwrap();
    let names: Vec<&str> = presets.iter().map(|p| p.name.as_str()).collect();
    assert_eq!(names, vec!["three.json", "two.json", "one.json"]);
    assert_eq!(presets[0].path, "/p/three.json");

    let grid: PresetManager<()> = PresetManager::new_grid(PresetMode::Grid, String::new());
    assert_eq!(grid.load_all_presets(vec![]).err(), Some(PresetError::NotListable));
    let no_type: PresetManager<()> = PresetManager::new_grid(PresetMode::Animator, String::new());
    assert_eq!(no_type.load_all_presets(vec![]).err(), Some(PresetError::MissingAnimationType));
    assert_eq!(PresetError::MissingAnimationType.message(), "Cant find type");
    assert_eq!(PresetError::NotListable.message(), "Nothing");

    let mut m2: PresetManager<()> = PresetManager::new_animator(AnimationType::Strobe);
    m2.update_presets(vec![file("a.json", Some("json"))]);
    assert_eq!(m2.presets.len(), 1);
    let mut g2: PresetManager<()> = PresetManager::new_grid(PresetMode::Grid, String::new());
    g2.presets.push(Preset::new("k".to_string(), "k".to_string()));
    g2.update_presets(vec![]);
    assert_eq!(g2.presets.len(), 1);
}

#[test]
fn paths_below_documents() {
    let doc = vec!["home".to_string(), "me".to_string(), "Documents".to_string()];
    assert_eq!(PathManager::root_path(&doc), vec!["home", "me", "Documents", "Welosa2"]);
    assert_eq!(PathManager::settings_path(&doc), vec!["home", "me", "Documents", "Welosa2", "settings.json"]);
    assert_eq!(PathManager::get_preset_path(&doc), vec!["home", "me", "Documents", "Welosa2", "Effects"]);
    assert_eq!(
        PathManager::get_preset_folder(&doc, &AnimationType::MeteorShower),
        vec!["home", "me", "Documents", "Welosa2", "Effects", "Meteor Shower"]
    );
    assert_eq!(PathManager::get_devices_folder(&doc), vec!["home", "me", "Documents", "Welosa2", "Devices"]);
    PathManager::createFileStructure();
    let folders = settings_folders(&doc);
    assert_eq!(folders.len(), 7);
    assert_eq!(folders[0], PathManager::get_preset_path(&doc));
    assert_eq!(folders[1].last().unwrap(), "Gravity Balls");
    assert_eq!(folders[6].last().unwrap(), "Strobe");
}

#[test]
fn effect_preset_listing() {
    let m = EffectPresets::new(
        AnimationType::PulseBackground,
        vec![file("a.json", Some("json")), file("b.JSON", Some("JSON")), file("c.json", Some("json"))],
    );
    let names: Vec<&str> = m.available_preset_paths.iter().map(|p| p.name.as_str()).collect();
    assert_eq!(names, vec!["c.json", "a.json"]);
    assert_eq!(m.selected_preset_idx, 0);
    let name = EffectPresets::generate_filename_timestamp();
    assert!(name.starts_with("preset_") && name.ends_with(".json") && name.len() == 27);
    let d = EffectPresets::default();
    assert_eq!(d.animation_type, AnimationType::BouncingBalls);
    assert!(d.available_preset_paths.is_empty());
    assert!(EffectPresets::list_preset_files(vec![]).is_empty());
}
