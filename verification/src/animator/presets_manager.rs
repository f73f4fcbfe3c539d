use vstd::prelude::*;
use crate::animator::animation_type::AnimationType;
use crate::presets::presets_manager::{self as store, is_local_stamp, listed_presets, preset_views, PresetFile};

verus! {

/// A stored preset of an effect: its file name and its path.
pub type Preset = store::Preset<()>;

/// The presets found in the folder of one effect, and which is selected.
pub struct PresetManager {
    pub animation_type: AnimationType,
    pub available_preset_paths: Vec<Preset>,
    pub selected_preset_idx: usize,
}

impl PresetManager {
    /// The manager of an effect's presets, listing the JSON files of a
    /// listing of its folder, most recent first (the application passes
    /// an empty listing when the folder cannot be read).
    pub fn new(animation_type: AnimationType, files: Vec<PresetFile>) -> (m: Self)
        ensures
            m.animation_type == animation_type,
            preset_views(m.available_preset_paths@) == listed_presets(files@),
            m.selected_preset_idx == 0,
    {
        Self {
            animation_type,
            available_preset_paths: Self::list_preset_files(files),
            selected_preset_idx: 0,
        }
    }

    /// The JSON files of a listing as presets, most recent first.
    pub fn list_preset_files(files: Vec<PresetFile>) -> (v: Vec<Preset>)
        ensures
            preset_views(v@) == listed_presets(files@),
    {
        store::PresetManager::<()>::presets_from_files(files)
    }

    /// The file name of a new preset: "preset_<local time stamp>.json".
    pub fn generate_filename_timestamp() -> (s: String)
        ensures
            exists|stamp: Seq<char>|
                #![trigger is_local_stamp(stamp)]
                is_local_stamp(stamp) && s@ == "preset_"@ + stamp + ".json"@,
    {
        let stamp = store::local_timestamp();
        let mut s = String::from_str("preset_");
        s.append(stamp.as_str());
        s.append(".json");
        s
    }
}

impl Default for PresetManager {
    /// A manager of the default effect's presets with none listed.
    fn default() -> (m: Self)
        ensures
            m.animation_type == AnimationType::BouncingBalls,
            m.available_preset_paths@.len() == 0,
            m.selected_preset_idx == 0,
    {
        Self {
            animation_type: AnimationType::default(),
            available_preset_paths: Vec::new(),
            selected_preset_idx: 0,
        }
    }
}

} // verus!
