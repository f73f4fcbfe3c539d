use vstd::prelude::*;
use core::marker::PhantomData;
use crate::animator::animation_type::AnimationType;

verus! {

/// What a preset manager stores: LED grid settings, the global settings,
/// or presets of one effect.
#[derive(Clone, Copy, Debug, PartialEq, Eq, Structural)]
pub enum PresetMode {
    Grid,
    Settings,
    Animator,
}

/// Why a preset could not be located.
#[derive(Clone, Copy, Debug, PartialEq, Eq, Structural)]
pub enum PresetError {
    /// The manager has no folder to save to (settings mode, or an effect
    /// manager without an effect).
    MissingAttribute,
    /// No preset is listed.
    NoPresets,
    /// The selected index lies past the listed presets.
    IndexOutOfBounds,
    /// An effect manager without an effect cannot list presets.
    MissingAnimationType,
    /// Only effect managers list presets.
    NotListable,
}

impl PresetError {
    /// The message shown for the error.
    pub fn message(&self) -> (s: &'static str)
        ensures
            s@ == (match self {
                PresetError::MissingAttribute => "Missing attribute:"@,
                PresetError::NoPresets => "No presets available"@,
                PresetError::IndexOutOfBounds => "Selected preset index is out of bounds"@,
                PresetError::MissingAnimationType => "Cant find type"@,
                PresetError::NotListable => "Nothing"@,
            }),
    {
        match self {
            PresetError::MissingAttribute => "Missing attribute:",
            PresetError::NoPresets => "No presets available",
            PresetError::IndexOutOfBounds => "Selected preset index is out of bounds",
            PresetError::MissingAnimationType => "Cant find type",
            PresetError::NotListable => "Nothing",
        }
    }
}

/// A stored preset: its file name and its path.
pub struct Preset<T> {
    pub name: String,
    pub path: String,
    pub _phantom: PhantomData<T>,
}

impl<T> Preset<T> {
    pub fn new(name: String, path: String) -> (p: Self)
        ensures
            p.name == name,
            p.path == path,
    {
        Self { name, path, _phantom: PhantomData }
    }
}

impl<T> Default for Preset<T> {
    /// A preset with an empty name and path.
    fn default() -> (p: Self)
        ensures
            p.name@ == Seq::<char>::empty(),
            p.path@ == Seq::<char>::empty(),
    {
        Self { name: String::new(), path: String::new(), _phantom: PhantomData }
    }
}

/// A file found in a presets folder: its name and path when they are
/// valid text, and its extension when it has one that is valid text.
pub struct PresetFile {
    pub name: Option<String>,
    pub path: String,
    pub extension: Option<String>,
}

/// The folder a preset is saved in.
#[derive(Clone, Copy, Debug, PartialEq, Eq, Structural)]
pub enum SaveFolder {
    /// The device settings folder.
    Devices,
    /// The presets folder of the effect.
    Effect(AnimationType),
}

/// Keeps the presets of one kind: which are stored, which one is
/// selected, and how new ones are named.
pub struct PresetManager<T> {
    pub animation_type: Option<AnimationType>,
    pub presets: Vec<Preset<T>>,
    pub selected_preset_idx: usize,
    pub set_filename: Option<String>,
    pub preset_mode: PresetMode,
    pub desc: String,
}

/// The files of a listing that are JSON files with a readable name, as
/// presets, most recent (last listed) first.
pub open spec fn listed_presets(files: Seq<PresetFile>) -> Seq<(Seq<char>, Seq<char>)>
    decreases files.len(),
{
    if files.len() == 0 {
        Seq::empty()
    } else {
        let f = files[0];
        let rest = listed_presets(files.drop_first());
        if f.extension is Some && f.extension->0@ == "json"@ && f.name is Some {
            rest.push((f.name->0@, f.path@))
        } else {
            rest
        }
    }
}

/// The name and path of each preset.
pub open spec fn preset_views<T>(presets: Seq<Preset<T>>) -> Seq<(Seq<char>, Seq<char>)> {
    presets.map_values(|p: Preset<T>| (p.name@, p.path@))
}

impl<T> PresetManager<T> {
    /// `s` is the file name a new preset gets: the custom name with
    /// ".json" when one is given; otherwise "grid_<desc>.json" for grids,
    /// "settings.json" for settings, and "preset_<time stamp>.json" for
    /// effects, with a local time stamp as `is_local_stamp` describes it.
    pub open spec fn is_filename(&self, custom: Option<String>, s: Seq<char>) -> bool {
        match custom {
            Some(name) => s == name@ + ".json"@,
            None => match self.preset_mode {
                PresetMode::Grid => s == "grid_"@ + self.desc@ + ".json"@,
                PresetMode::Settings => s == "settings.json"@,
                PresetMode::Animator => exists|stamp: Seq<char>|
                    #![trigger is_local_stamp(stamp)]
                    is_local_stamp(stamp) && s == "preset_"@ + stamp + ".json"@,
            },
        }
    }

    /// A manager of the presets of one effect, with none listed yet.
    pub fn new_animator(animation_type: AnimationType) -> (m: Self)
        ensures
            m.animation_type == Some(animation_type),
            m.presets@.len() == 0,
            m.selected_preset_idx == 0,
            m.set_filename is None,
            m.preset_mode == PresetMode::Animator,
            m.desc@ == Seq::<char>::empty(),
    {
        Self {
            animation_type: Some(animation_type),
            presets: Vec::new(),
            selected_preset_idx: 0,
            set_filename: None,
            preset_mode: PresetMode::Animator,
            desc: String::new(),
        }
    }

    /// A manager without an effect, in the given mode, described by `desc`.
    pub fn new_grid(preset_mode: PresetMode, desc: String) -> (m: Self)
        ensures
            m.animation_type is None,
            m.presets@.len() == 0,
            m.selected_preset_idx == 0,
            m.set_filename is None,
            m.preset_mode == preset_mode,
            m.desc == desc,
    {
        Self {
            animation_type: None,
            presets: Vec::new(),
            selected_preset_idx: 0,
            set_filename: None,
            preset_mode,
            desc,
        }
    }

    /// The file name a new preset gets, with `stamp` as the time stamp of
    /// effect presets.
    pub fn generate_filename_at(&self, custom_file_name: Option<String>, stamp: &str) -> (s: String)
        ensures
            custom_file_name is Some || self.preset_mode != PresetMode::Animator ==> self.is_filename(custom_file_name, s@),
            custom_file_name is None && self.preset_mode == PresetMode::Animator ==> s@ == "preset_"@ + stamp@ + ".json"@,
            is_local_stamp(stamp@) ==> self.is_filename(custom_file_name, s@),
    {
        match custom_file_name {
            Some(name) => {
                let mut s = name.clone();
                s.append(".json");
                s
            }
            None => match self.preset_mode {
                PresetMode::Grid => {
                    let mut s = String::from_str("grid_");
                    s.append(self.desc.as_str());
                    s.append(".json");
                    s
                }
                PresetMode::Settings => String::from_str("settings.json"),
                PresetMode::Animator => {
                    let mut s = String::from_str("preset_");
                    s.append(stamp);
                    s.append(".json");
                    s
                }
            },
        }
    }

    /// The file name a new preset gets; effect presets are stamped with
    /// the local time.
    pub fn generate_filename(&self, custom_file_name: Option<String>) -> (s: String)
        ensures
            self.is_filename(custom_file_name, s@),
    {
        let stamp = local_timestamp();
        self.generate_filename_at(custom_file_name, stamp.as_str())
    }

    /// Where a preset is saved and under which file name: grids go to the
    /// devices folder, effect presets to their effect's folder; settings,
    /// and effect managers without an effect, cannot save.
    pub fn save_location(&self, custom_file_name: Option<String>) -> (r: Result<(SaveFolder, String), PresetError>)
        ensures
            match self.preset_mode {
                PresetMode::Grid => r is Ok && r->Ok_0.0 == SaveFolder::Devices,
                PresetMode::Settings => r == Err::<(SaveFolder, String), PresetError>(PresetError::MissingAttribute),
                PresetMode::Animator => match self.animation_type {
                    Some(t) => r is Ok && r->Ok_0.0 == SaveFolder::Effect(t),
                    None => r == Err::<(SaveFolder, String), PresetError>(PresetError::MissingAttribute),
                },
            },
            r is Ok ==> self.is_filename(custom_file_name, r->Ok_0.1@),
    {
        match self.preset_mode {
            PresetMode::Grid => Ok((SaveFolder::Devices, self.generate_filename(custom_file_name))),
            PresetMode::Settings => Err(PresetError::MissingAttribute),
            PresetMode::Animator => match self.animation_type {
                Some(atype) => Ok((SaveFolder::Effect(atype), self.generate_filename(custom_file_name))),
                None => Err(PresetError::MissingAttribute),
            },
        }
    }

    /// The path of the selected preset.
    pub fn set_presets(&self) -> (r: Result<String, PresetError>)
        ensures
            self.presets@.len() == 0 ==> r == Err::<String, PresetError>(PresetError::NoPresets),
            (self.presets@.len() > 0 && self.selected_preset_idx >= self.presets@.len()) ==> r == Err::<
                String,
                PresetError,
            >(PresetError::IndexOutOfBounds),
            self.selected_preset_idx < self.presets@.len() ==> r is Ok && r->Ok_0@
                == self.presets@[self.selected_preset_idx as int].path@,
    {
        if self.presets.len() == 0 {
            return Err(PresetError::NoPresets);
        }
        if self.selected_preset_idx < self.presets.len() {
            Ok(self.presets[self.selected_preset_idx].path.clone())
        } else {
            Err(PresetError::IndexOutOfBounds)
        }
    }

    /// The path of the selected preset, if a preset is selected.
    pub fn get_preset_path(&self) -> (r: Option<String>)
        ensures
            self.selected_preset_idx < self.presets@.len() ==> r is Some && r->0@
                == self.presets@[self.selected_preset_idx as int].path@,
            self.selected_preset_idx >= self.presets@.len() ==> r is None,
    {
        match self.set_presets() {
            Ok(p) => Some(p),
            Err(_) => None,
        }
    }

    /// The presets found in a listing of the effect's folder: its JSON
    /// files, most recent first. Only effect managers with an effect list
    /// presets.
    pub fn load_all_presets(&self, files: Vec<PresetFile>) -> (r: Result<Vec<Preset<T>>, PresetError>)
        ensures
            match self.preset_mode {
                PresetMode::Animator => match self.animation_type {
                    Some(_) => r is Ok && preset_views(r->Ok_0@) == listed_presets(files@),
                    None => r is Err && r->Err_0 == PresetError::MissingAnimationType,
                },
                _ => r is Err && r->Err_0 == PresetError::NotListable,
            },
    {
        match self.preset_mode {
            PresetMode::Animator => match self.animation_type {
                Some(_) => Ok(Self::presets_from_files(files)),
                None => Err(PresetError::MissingAnimationType),
            },
            _ => Err(PresetError::NotListable),
        }
    }

    /// The JSON files of a listing as presets, most recent first.
    pub(crate) fn presets_from_files(files: Vec<PresetFile>) -> (v: Vec<Preset<T>>)
        ensures
            preset_views(v@) == listed_presets(files@),
    {
        let mut entries: Vec<Preset<T>> = Vec::new();
        let mut files = files;
        let ghost all = files@;
        let json = String::from_str("json");
        proof { reveal_strlit("json"); }
        let mut k: usize = files.len();
        // Walk the listing from its end, so that the most recent file comes first.
        while k > 0
            invariant
                k <= all.len(),
                files@ == all.subrange(0, k as int),
                json@ == "json"@,
                preset_views(entries@) == listed_presets(all.subrange(k as int, all.len() as int)),
            decreases k,
        {
            let f = files.pop().unwrap();
            k = k - 1;
            proof {
                assert(all.subrange(k as int, all.len() as int).drop_first() =~= all.subrange(k as int + 1, all.len() as int));
                assert(all.subrange(k as int, all.len() as int)[0] == all[k as int]);
                assert(f == all[k as int]);
            }
            let is_json = match &f.extension {
                Some(ext) => *ext == json,
                None => false,
            };
            if is_json {
                match f.name {
                    Some(name) => {
                        let ghost before = entries@;
                        entries.push(Preset::new(name, f.path));
                        proof {
                            assert(preset_views(entries@) =~= preset_views(before).push((all[k as int].name->0@, all[k as int].path@)));
                        }
                    }
                    None => {}
                }
            }
            proof {
                let tail = all.subrange(k as int, all.len() as int);
                assert(preset_views(entries@) =~= listed_presets(tail));
            }
        }
        proof {
            assert(all.subrange(0, all.len() as int) =~= all);
        }
        entries
    }

    /// Replaces the listed presets by those of a listing, when this
    /// manager lists presets; otherwise keeps them.
    pub fn update_presets(&mut self, files: Vec<PresetFile>)
        ensures
            (old(self).preset_mode == PresetMode::Animator && old(self).animation_type is Some) ==> preset_views(
                final(self).presets@,
            ) == listed_presets(files@),
            !(old(self).preset_mode == PresetMode::Animator && old(self).animation_type is Some) ==> final(self).presets@
                == old(self).presets@,
            final(self).animation_type == old(self).animation_type,
            final(self).selected_preset_idx == old(self).selected_preset_idx,
            final(self).preset_mode == old(self).preset_mode,
    {
        if let Ok(p) = self.load_all_presets(files) {
            self.presets = p;
        }
    }
}

impl<T> Default for PresetManager<T> {
    /// A manager of presets of the default effect, with none listed.
    fn default() -> (m: Self)
        ensures
            m.animation_type == Some(AnimationType::BouncingBalls),
            m.presets@.len() == 0,
            m.selected_preset_idx == 0,
            m.set_filename is None,
            m.preset_mode == PresetMode::Animator,
            m.desc@ == Seq::<char>::empty(),
    {
        Self {
            animation_type: Some(AnimationType::default()),
            presets: Vec::new(),
            selected_preset_idx: 0,
            set_filename: None,
            preset_mode: PresetMode::Animator,
            desc: String::new(),
        }
    }
}

/// `c` is one of the ASCII digits '0' to '9'.
pub open spec fn is_ascii_digit(c: char) -> bool {
    '0' <= c && c <= '9'
}

/// `t` has the shape of a local time stamp "<year><MM><DD>_<hh><mm><ss>":
/// at least 15 characters, an underscore 7 characters from the end, the
/// six characters after it digits, and the eight before it digits (month,
/// day and the last four digits of the year).
pub open spec fn is_local_stamp(t: Seq<char>) -> bool {
    &&& t.len() >= 15
    &&& t[t.len() - 7] == '_'
    &&& forall|i: int| t.len() - 15 <= i < t.len() && i != t.len() - 7 ==> #[trigger] is_ascii_digit(t[i])
}

/// Calls `chrono::Local::now().format("%Y%m%d_%H%M%S").to_string()`: the
/// local time as year, month, day, an underscore, hours, minutes and
/// seconds. Which time it shows depends on the clock and the time zone;
/// the contract states only the shape that chrono's format gives every
/// outcome: the year with at least four digits (a sign before it outside
/// 0 to 9999), then two digits each for month, day, hour, minute and
/// second, the date and time parted by an underscore.
#[verifier::external_body]
pub(crate) fn local_timestamp() -> (t: String)
    ensures
        is_local_stamp(t@),
{
    chrono::Local::now().format("%Y%m%d_%H%M%S").to_string()
}

} // verus!
