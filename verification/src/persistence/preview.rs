//! The metadata of save and blueprint files, read without their (potentially large) cell data.
use vstd::prelude::*;
use crate::area::Area;
use super::{Blueprint, GenerateName, Save, SaveFormat, SaveTime, blueprint_filename, save_filename, tags_view};

verus! {

/// The metadata about a board save.
pub type SavePreview = Preview<SavePreviewData>;

/// The metadata about a blueprint.
pub type BlueprintPreview = Preview<BlueprintPreviewData>;

/// The unique preview data for a save file.
#[derive(Debug, PartialEq, Eq, Clone)]
pub struct SavePreviewData {
    /// The area the save takes up on the board.
    pub board_area: Area,
    /// The generation this save was made on.
    pub generation: u64,
}

/// The unique preview data for a blueprint file.
#[derive(Debug, PartialEq, Eq, Clone)]
pub struct BlueprintPreviewData {
    /// The x size of this blueprint.
    pub x_size: u32,
    /// The y size of this blueprint.
    pub y_size: u32,
}

/// Contains the information about a save or blueprint, without actually containing the board data.
/// This is useful to load in as a preview, because the (potentially large) board data will not be loaded.
#[derive(Debug, PartialEq, Eq, Clone)]
pub struct Preview<Data> {
    /// The save file version.
    pub version: u16,
    /// The name of the save. This is not the name of the save file.
    pub name: String,
    /// A description of the save.
    pub description: String,
    /// The time the save was made.
    pub time: SaveTime,
    /// The tags this save has.
    pub tags: Vec<String>,
    /// The data unique to the preview type.
    pub data: Data,
}

/// The preview is the one of the save file content: the same metadata, the same area and generation.
pub open spec fn previews_save(preview: SavePreview, content: SaveFormat<Save>) -> bool {
    &&& preview.version == content.version
    &&& preview.name@ == content.name@
    &&& preview.description@ == content.description@
    &&& preview.time == content.time
    &&& tags_view(preview.tags@) == tags_view(content.tags@)
    &&& preview.data.board_area == content.data.simulation_save.board_area
    &&& preview.data.generation == content.data.simulation_save.generation
}

/// The preview is the one of the blueprint file content: the same metadata and the same sizes.
pub open spec fn previews_blueprint(preview: BlueprintPreview, content: SaveFormat<Blueprint>) -> bool {
    &&& preview.version == content.version
    &&& preview.name@ == content.name@
    &&& preview.description@ == content.description@
    &&& preview.time == content.time
    &&& tags_view(preview.tags@) == tags_view(content.tags@)
    &&& preview.data.x_size == content.data.blueprint.x_size
    &&& preview.data.y_size == content.data.blueprint.y_size
}

/// The filename that a save preview gives.
pub open spec fn save_preview_filename(preview: SavePreview) -> Seq<char> {
    save_filename(preview.data.board_area, preview.name@, preview.description@, tags_view(preview.tags@), preview.time)
}

/// The filename that a blueprint preview gives.
pub open spec fn blueprint_preview_filename(preview: BlueprintPreview) -> Seq<char> {
    blueprint_filename(
        preview.data.x_size,
        preview.data.y_size,
        preview.name@,
        preview.description@,
        tags_view(preview.tags@),
        preview.time,
    )
}

impl<Data> Preview<Data> {
    /// The save file version of the file.
    pub fn get_version(&self) -> (r: u16)
        ensures
            r == self.version,
    {
        self.version
    }

    /// The name of the data. This is not the filename of the file.
    pub fn get_name(&self) -> (r: &str)
        ensures
            r@ == self.name@,
    {
        self.name.as_str()
    }

    /// The description for the data.
    pub fn get_description(&self) -> (r: &str)
        ensures
            r@ == self.description@,
    {
        self.description.as_str()
    }

    /// The time the save of the data was made.
    pub fn get_time(&self) -> (r: SaveTime)
        ensures
            r == self.time,
    {
        self.time
    }

    /// The tags this save data is part of.
    pub fn get_tags(&self) -> (r: &[String])
        ensures
            r@ == self.tags@,
    {
        self.tags.as_slice()
    }
}

impl Preview<SavePreviewData> {
    /// The generation the save was made on.
    pub fn get_generation(&self) -> (r: u64)
        ensures
            r == self.data.generation,
    {
        self.data.generation
    }

    /// The area the save takes up on the board.
    pub fn get_board_area(&self) -> (r: Area)
        ensures
            r == self.data.board_area,
    {
        self.data.board_area
    }

    /// The filename of the save file (including the extension).
    pub fn get_filename(&self) -> (r: String)
        ensures
            r@ == save_preview_filename(*self),
    {
        Save::generate_filename(
            self.data.board_area,
            self.name.as_str(),
            self.description.as_str(),
            self.tags.as_slice(),
            &self.time,
        )
    }
}

impl Preview<BlueprintPreviewData> {
    /// The x size of this blueprint.
    pub fn get_x_size(&self) -> (r: u32)
        ensures
            r == self.data.x_size,
    {
        self.data.x_size
    }

    /// The y size of this blueprint.
    pub fn get_y_size(&self) -> (r: u32)
        ensures
            r == self.data.y_size,
    {
        self.data.y_size
    }

    /// The filename of the blueprint file (including the extension).
    pub fn get_filename(&self) -> (r: String)
        ensures
            r@ == blueprint_preview_filename(*self),
    {
        Blueprint::generate_filename(
            self.data.x_size,
            self.data.y_size,
            self.name.as_str(),
            self.description.as_str(),
            self.tags.as_slice(),
            &self.time,
        )
    }
}

/// The preview of a saved board names the file that the board was saved in:
/// its filename is the one that the save's own data gives for the same parts.
pub proof fn law_save_preview_names_file(preview: SavePreview, content: SaveFormat<Save>)
    requires
        previews_save(preview, content),
    ensures
        save_preview_filename(preview) == content.data.filename_spec(
            content.name@,
            content.description@,
            tags_view(content.tags@),
            content.time,
        ),
{
}

/// The preview of a saved blueprint names the file that the blueprint was saved in.
pub proof fn law_blueprint_preview_names_file(preview: BlueprintPreview, content: SaveFormat<Blueprint>)
    requires
        previews_blueprint(preview, content),
    ensures
        blueprint_preview_filename(preview) == content.data.filename_spec(
            content.name@,
            content.description@,
            tags_view(content.tags@),
            content.time,
        ),
{
}

} // verus!
