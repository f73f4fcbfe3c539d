use vstd::prelude::*;
use crate::animator::animation_type::AnimationType;
use crate::utils::global_settings::{
    app_name, devices_folder, effects_folder, spec_app_name, spec_devices_folder, spec_effects_folder,
};

verus! {

/// The text of each component of a path.
pub open spec fn components(path: Seq<String>) -> Seq<Seq<char>> {
    path.map_values(|s: String| s@)
}

/// Where the application keeps its files. Paths are lists of components
/// below the user's documents folder, which the application looks up and
/// passes in; it also creates the folders.
pub struct PathManager {}

/// `doc` with the components `extra` appended, each copied.
fn extend_path(doc: &Vec<String>, extra: &Vec<&str>) -> (p: Vec<String>)
    ensures
        components(p@) == components(doc@) + extra@.map_values(|s: &str| s@),
{
    let mut p: Vec<String> = Vec::new();
    let mut i: usize = 0;
    while i < doc.len()
        invariant
            i <= doc@.len(),
            p@.len() == i,
            forall|j: int| 0 <= j < i ==> (#[trigger] p@[j])@ == doc@[j]@,
        decreases doc@.len() - i,
    {
        p.push(doc[i].clone());
        i = i + 1;
    }
    let n = doc.len();
    let mut k: usize = 0;
    while k < extra.len()
        invariant
            n == doc@.len(),
            k <= extra@.len(),
            p@.len() == n + k,
            forall|j: int| 0 <= j < n ==> (#[trigger] p@[j])@ == doc@[j]@,
            forall|j: int| 0 <= j < k ==> (#[trigger] p@[n + j])@ == extra@[j]@,
        decreases extra@.len() - k,
    {
        p.push(String::from_str(extra[k]));
        k = k + 1;
    }
    assert forall|j: int| 0 <= j < p@.len() implies #[trigger] components(p@)[j] == (components(doc@) + extra@.map_values(|s: &str| s@))[j] by {
        if j >= n {
            assert(p@[n + (j - n)] == p@[j]);
        }
    }
    assert(components(p@) =~= components(doc@) + extra@.map_values(|s: &str| s@));
    p
}

impl PathManager {
    /// The application's folder: `doc/Welosa2`.
    pub fn root_path(doc: &Vec<String>) -> (p: Vec<String>)
        ensures
            components(p@) == components(doc@) + seq![spec_app_name()],
    {
        let extra = vec![app_name()];
        let p = extend_path(doc, &extra);
        assert(extra@.map_values(|s: &str| s@) =~= seq![spec_app_name()]);
        p
    }

    /// The settings file: `doc/Welosa2/settings.json`.
    pub fn settings_path(doc: &Vec<String>) -> (p: Vec<String>)
        ensures
            components(p@) == components(doc@) + seq![spec_app_name(), "settings.json"@],
    {
        let extra = vec![app_name(), "settings.json"];
        let p = extend_path(doc, &extra);
        assert(extra@.map_values(|s: &str| s@) =~= seq![spec_app_name(), "settings.json"@]);
        p
    }

    /// The presets folder: `doc/Welosa2/Effects`.
    pub fn get_preset_path(doc: &Vec<String>) -> (p: Vec<String>)
        ensures
            components(p@) == components(doc@) + seq![spec_app_name(), spec_effects_folder()],
    {
        let extra = vec![app_name(), effects_folder()];
        let p = extend_path(doc, &extra);
        assert(extra@.map_values(|s: &str| s@) =~= seq![spec_app_name(), spec_effects_folder()]);
        p
    }

    /// The presets folder of one effect: `doc/Welosa2/Effects/<effect name>`.
    pub fn get_preset_folder(doc: &Vec<String>, animation_type: &AnimationType) -> (p: Vec<String>)
        ensures
            components(p@) == components(doc@) + seq![
                spec_app_name(),
                spec_effects_folder(),
                animation_type.spec_name(),
            ],
    {
        let name = animation_type.as_str();
        let extra = vec![app_name(), effects_folder(), name];
        let p = extend_path(doc, &extra);
        assert(extra@.map_values(|s: &str| s@) =~= seq![
            spec_app_name(),
            spec_effects_folder(),
            animation_type.spec_name(),
        ]);
        p
    }

    /// The device settings folder: `doc/Welosa2/Devices`.
    pub fn get_devices_folder(doc: &Vec<String>) -> (p: Vec<String>)
        ensures
            components(p@) == components(doc@) + seq![spec_app_name(), spec_devices_folder()],
    {
        let extra = vec![app_name(), devices_folder()];
        let p = extend_path(doc, &extra);
        assert(extra@.map_values(|s: &str| s@) =~= seq![spec_app_name(), spec_devices_folder()]);
        p
    }

    /// Sets up the application's files; there is nothing to set up yet.
    #[allow(non_snake_case)]
    pub fn createFileStructure() {
    }
}

} // verus!
