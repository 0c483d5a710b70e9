//! Building the content and the filename of a save or blueprint file.
use vstd::prelude::*;
use crate::data::{SimulationBlueprint, SimulationSave};
use crate::position::GlobalPosition;
use super::{Blueprint, CURRENT_SAVE_VERSION, GenerateName, Save, SaveFormat, SaveTime, tags_view};

verus! {

/// The possible errors when saving a board save.
#[derive(Debug)]
pub enum SaveError {
    /// The save content cannot be converted into the save file format.
    SaveFormat,
    /// Unable to create the parent folders.
    ParentDir(std::io::Error),
    /// The save file already exists.
    FileOpen(std::io::Error),
    /// Unable to write the save file to disk.
    WriteFail(std::io::Error),
}

/// What saving writes: the name of the file, and the content that goes into it.
#[derive(Debug, PartialEq, Eq)]
pub struct SaveFile<Data> {
    /// The filename, extension included.
    pub filename: String,
    /// The content of the file.
    pub content: SaveFormat<Data>,
}

/// Builder for easily writing save data to disk.
#[derive(Debug, PartialEq, Eq)]
pub struct SaveBuilder<Data> {
    /// The name for the save data (not the filename).
    name: Option<String>,
    /// A description of the save data.
    description: Option<String>,
    /// The tags for the save data.
    tags: Option<Vec<String>>,
    /// Time time this save data was made.
    time: Option<SaveTime>,
    /// Generic save data.
    data: Data,
}

/// The text that an optional part gives: the empty text when it was not set.
pub open spec fn text_or_empty(part: Option<String>) -> Seq<char> {
    match part {
        Some(text) => text@,
        None => Seq::empty(),
    }
}

/// The tags that an optional part gives: none when they were not set.
pub open spec fn tags_or_empty(part: Option<Vec<String>>) -> Seq<Seq<char>> {
    match part {
        Some(tags) => tags_view(tags@),
        None => Seq::empty(),
    }
}

impl<Data> SaveBuilder<Data> {
    /// The name set, if any.
    pub closed spec fn saved_name(&self) -> Option<String> {
        self.name
    }

    /// The description set, if any.
    pub closed spec fn saved_description(&self) -> Option<String> {
        self.description
    }

    /// The tags set, if any.
    pub closed spec fn saved_tags(&self) -> Option<Vec<String>> {
        self.tags
    }

    /// The time set, if any.
    pub closed spec fn saved_time(&self) -> Option<SaveTime> {
        self.time
    }

    /// The data to save.
    pub closed spec fn saved_data(&self) -> Data {
        self.data
    }

    /// The name of the save. This is not the filename.
    pub fn name(self, name: &str) -> (r: Self)
        ensures
            r.saved_name() is Some,
            r.saved_name()->0@ == name@,
            r.saved_description() == self.saved_description(),
            r.saved_tags() == self.saved_tags(),
            r.saved_time() == self.saved_time(),
            r.saved_data() == self.saved_data(),
    {
        SaveBuilder { name: Some(name.to_owned()), ..self }
    }

    /// A description of the save.
    pub fn desciprtion(self, description: &str) -> (r: Self)
        ensures
            r.saved_description() is Some,
            r.saved_description()->0@ == description@,
            r.saved_name() == self.saved_name(),
            r.saved_tags() == self.saved_tags(),
            r.saved_time() == self.saved_time(),
            r.saved_data() == self.saved_data(),
    {
        SaveBuilder { description: Some(description.to_owned()), ..self }
    }

    /// The time the save was created.
    pub fn time(self, time: SaveTime) -> (r: Self)
        ensures
            r.saved_time() == Some(time),
            r.saved_name() == self.saved_name(),
            r.saved_description() == self.saved_description(),
            r.saved_tags() == self.saved_tags(),
            r.saved_data() == self.saved_data(),
    {
        SaveBuilder { time: Some(time), ..self }
    }

    /// The tags this save belongs to.
    pub fn tags(self, tags: Vec<String>) -> (r: Self)
        ensures
            r.saved_tags() == Some(tags),
            r.saved_name() == self.saved_name(),
            r.saved_description() == self.saved_description(),
            r.saved_time() == self.saved_time(),
            r.saved_data() == self.saved_data(),
    {
        SaveBuilder { tags: Some(tags), ..self }
    }
}

impl<Data: GenerateName> SaveBuilder<Data> {
    /// Puts the save together: the parts that were not set are empty, and the time defaults to `now`.
    /// The file is named after the data and those parts (see [`GenerateName`]).
    pub fn save(self, now: SaveTime) -> (r: SaveFile<Data>)
        ensures
            r.content.version == CURRENT_SAVE_VERSION,
            r.content.name@ == text_or_empty(self.saved_name()),
            r.content.description@ == text_or_empty(self.saved_description()),
            tags_view(r.content.tags@) == tags_or_empty(self.saved_tags()),
            r.content.time == (match self.saved_time() {
                Some(time) => time,
                None => now,
            }),
            r.content.data == self.saved_data(),
            r.filename@ == self.saved_data().filename_spec(
                text_or_empty(self.saved_name()),
                text_or_empty(self.saved_description()),
                tags_or_empty(self.saved_tags()),
                r.content.time,
            ),
    {
        let SaveBuilder { name, description, tags, time, data } = self;
        let save_name = match name {
            Some(name) => name,
            None => String::new(),
        };
        let save_description = match description {
            Some(description) => description,
            None => String::new(),
        };
        let save_tags = match tags {
            Some(tags) => tags,
            None => Vec::new(),
        };
        proof {
            assert(tags_view(save_tags@) == tags_or_empty(self.saved_tags()));
        }
        let save_time = match time {
            Some(time) => time,
            None => now,
        };
        let filename = data.filename(save_name.as_str(), save_description.as_str(), save_tags.as_slice(), &save_time);
        let content = SaveFormat {
            version: CURRENT_SAVE_VERSION,
            name: save_name,
            description: save_description,
            tags: save_tags,
            time: save_time,
            data,
        };
        SaveFile { filename, content }
    }
}

impl SaveBuilder<Blueprint> {
    /// Creates a new save builder with no values set.
    pub fn new_blueprint(blueprint: SimulationBlueprint) -> (r: Self)
        ensures
            r.saved_name() is None,
            r.saved_description() is None,
            r.saved_tags() is None,
            r.saved_time() is None,
            r.saved_data() == (Blueprint { blueprint }),
    {
        SaveBuilder { name: None, description: None, time: None, tags: None, data: Blueprint { blueprint } }
    }
}

impl SaveBuilder<Save> {
    /// Creates a new save builder with no values set.
    pub fn new_save(simulation_save: SimulationSave) -> (r: Self)
        ensures
            r.saved_name() is None,
            r.saved_description() is None,
            r.saved_tags() is None,
            r.saved_time() is None,
            r.saved_data() == (Save { view_position: None, simulation_save }),
    {
        SaveBuilder {
            name: None,
            description: None,
            time: None,
            tags: None,
            data: Save { view_position: None, simulation_save },
        }
    }

    /// The view position of the save.
    pub fn view_position(self, view_position: GlobalPosition) -> (r: Self)
        ensures
            r.saved_data() == (Save { view_position: Some(view_position), ..self.saved_data() }),
            r.saved_name() == self.saved_name(),
            r.saved_description() == self.saved_description(),
            r.saved_tags() == self.saved_tags(),
            r.saved_time() == self.saved_time(),
    {
        let SaveBuilder { name, description, tags, time, data } = self;
        let Save { simulation_save, .. } = data;
        SaveBuilder { name, description, tags, time, data: Save { view_position: Some(view_position), simulation_save } }
    }
}

} // verus!
