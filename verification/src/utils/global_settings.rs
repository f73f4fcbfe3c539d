use vstd::prelude::*;
use crate::animator::animation_type::AnimationType;
use crate::utils::path_manager::{PathManager, components};

verus! {

/// Whether the application shows its editing tools or only the output.
#[derive(Clone, Copy, Debug, PartialEq, Eq, Structural)]
pub enum AppMode {
    Presentation,
    Edit,
}

/// The application's folder name in the user's documents.
pub open spec fn spec_app_name() -> Seq<char> {
    "Welosa2"@
}

/// The folder, inside the application's folder, that holds effect presets.
pub open spec fn spec_effects_folder() -> Seq<char> {
    "Effects"@
}

/// The folder, inside the application's folder, that holds device settings.
pub open spec fn spec_devices_folder() -> Seq<char> {
    "Devices"@
}

/// The application's folder name in the user's documents.
pub fn app_name() -> (s: &'static str)
    ensures
        s@ == spec_app_name(),
{
    "Welosa2"
}

/// The folder that holds effect presets.
pub fn effects_folder() -> (s: &'static str)
    ensures
        s@ == spec_effects_folder(),
{
    "Effects"
}

/// The folder that holds device settings.
pub fn devices_folder() -> (s: &'static str)
    ensures
        s@ == spec_devices_folder(),
{
    "Devices"
}

/// The folders the settings need, below the documents folder `doc`: the
/// presets folder, then one folder per effect, in numbering order, named
/// after the effect.
pub fn settings_folders(doc: &Vec<String>) -> (folders: Vec<Vec<String>>)
    ensures
        folders@.len() == AnimationType::all().len() + 1,
        components(folders@[0]@) == components(doc@) + seq![spec_app_name(), spec_effects_folder()],
        forall|i: int|
            0 <= i < AnimationType::all().len() ==> components(#[trigger] folders@[i + 1]@) == components(doc@)
                + seq![spec_app_name(), spec_effects_folder(), AnimationType::all()[i].spec_name()],
{
    let mut folders: Vec<Vec<String>> = Vec::new();
    folders.push(PathManager::get_preset_path(doc));
    let all = AnimationType::iter_all();
    let mut k: usize = 0;
    while k < all.len()
        invariant
            all@ == AnimationType::all(),
            k <= all@.len(),
            folders@.len() == k + 1,
            components(folders@[0]@) == components(doc@) + seq![spec_app_name(), spec_effects_folder()],
            forall|i: int|
                0 <= i < k ==> components(#[trigger] folders@[i + 1]@) == components(doc@)
                    + seq![spec_app_name(), spec_effects_folder(), AnimationType::all()[i].spec_name()],
        decreases all@.len() - k,
    {
        let t = all[k];
        folders.push(PathManager::get_preset_folder(doc, &t));
        k = k + 1;
    }
    folders
}

} // verus!
