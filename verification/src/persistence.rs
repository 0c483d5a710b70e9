//! The save format of boards and blueprints, and the names of the files they are saved in.
pub mod load;
pub mod preview;
pub mod save;



use vstd::prelude::*;
use std::collections::hash_map::DefaultHasher;
use std::hash::{Hash, Hasher};
use vstd::std_specs::hash::DefaultHasherAdditionalSpecFns;
use crate::area::Area;
use crate::bits::CellBits;
use crate::position::GlobalPosition;

pub use crate::data::{SimulationBlueprint, SimulationSave};
pub use load::{load_blueprint, load_board_data, usize_eq};
pub use save::SaveBuilder;


verus! {

/// The latest supported save format version.
pub const CURRENT_SAVE_VERSION: u16 = 0;

/// A point in time, as the time passed since the unix epoch: whole seconds and the nanoseconds past them.
#[derive(Debug, PartialEq, Eq, Structural, Clone, Copy)]
pub struct SaveTime {
    secs: u64,
    nanos: u32,
}

impl SaveTime {
    /// The whole seconds.
    pub closed spec fn secs(self) -> u64 {
        self.secs
    }

    /// The nanoseconds past the whole seconds.
    pub closed spec fn nanos(self) -> u32 {
        self.nanos
    }

    /// The nanoseconds never make up a whole second.
    #[verifier::type_invariant]
    closed spec fn inv(self) -> bool {
        self.nanos < 1_000_000_000
    }

    /// The time `secs` seconds and `nanos` nanoseconds after the epoch.
    pub fn new(secs: u64, nanos: u32) -> (r: Self)
        requires
            nanos < 1_000_000_000,
        ensures
            r.secs() == secs,
            r.nanos() == nanos,
    {
        SaveTime { secs, nanos }
    }

    /// The whole seconds.
    pub fn as_secs(&self) -> (r: u64)
        ensures
            r == self.secs(),
    {
        self.secs
    }

    /// The nanoseconds past the whole seconds, below one second.
    pub fn subsec_nanos(&self) -> (r: u32)
        ensures
            r == self.nanos(),
            r < 1_000_000_000,
    {
        proof {
            use_type_invariant(self);
        }
        self.nanos
    }
}

impl Default for SaveTime {
    /// The epoch itself.
    fn default() -> (r: Self)
        ensures
            r.secs() == 0,
            r.nanos() == 0,
    {
        SaveTime { secs: 0, nanos: 0 }
    }
}

/// The state of a hasher after it hashed a string with `<str as Hash>::hash`.
pub uninterp spec fn str_hashed(state: Seq<Seq<u8>>, s: Seq<char>) -> Seq<Seq<u8>>;

/// The state of a hasher after it hashed an `i32` with `<i32 as Hash>::hash`.
pub uninterp spec fn i32_hashed(state: Seq<Seq<u8>>, value: i32) -> Seq<Seq<u8>>;

/// The state of a hasher after it hashed a `u32` with `<u32 as Hash>::hash`.
pub uninterp spec fn u32_hashed(state: Seq<Seq<u8>>, value: u32) -> Seq<Seq<u8>>;

/// The state of a hasher after it hashed the duration of `secs` seconds and `nanos` nanoseconds
/// with `<Duration as Hash>::hash`.
pub uninterp spec fn duration_hashed(state: Seq<Seq<u8>>, secs: u64, nanos: u32) -> Seq<Seq<u8>>;

/// The state of a hasher after it hashed a slice of strings with `<[String] as Hash>::hash`.
pub uninterp spec fn tags_hashed(state: Seq<Seq<u8>>, tags: Seq<Seq<char>>) -> Seq<Seq<u8>>;

/// Feeds a string to the hasher with `<str as Hash>::hash`.
#[verifier::external_body]
fn hash_str(hasher: &mut DefaultHasher, s: &str)
    ensures
        final(hasher)@ == str_hashed(old(hasher)@, s@),
{
    s.hash(hasher)
}

/// Feeds an `i32` to the hasher with `<i32 as Hash>::hash`.
#[verifier::external_body]
fn hash_i32(hasher: &mut DefaultHasher, value: i32)
    ensures
        final(hasher)@ == i32_hashed(old(hasher)@, value),
{
    value.hash(hasher)
}

/// Feeds a `u32` to the hasher with `<u32 as Hash>::hash`.
#[verifier::external_body]
fn hash_u32(hasher: &mut DefaultHasher, value: u32)
    ensures
        final(hasher)@ == u32_hashed(old(hasher)@, value),
{
    value.hash(hasher)
}

/// Feeds the duration of `secs` seconds and `nanos` nanoseconds to the hasher with `<Duration as Hash>::hash`.
/// Below a second of nanoseconds, `Duration::new` keeps both parts as given.
#[verifier::external_body]
fn hash_duration(hasher: &mut DefaultHasher, secs: u64, nanos: u32)
    requires
        nanos < 1_000_000_000,
    ensures
        final(hasher)@ == duration_hashed(old(hasher)@, secs, nanos),
{
    std::time::Duration::new(secs, nanos).hash(hasher)
}

/// Feeds the tags to the hasher with `<[String] as Hash>::hash`.
#[verifier::external_body]
fn hash_tags(hasher: &mut DefaultHasher, tags: &[String])
    ensures
        final(hasher)@ == tags_hashed(old(hasher)@, tags_view(tags@)),
{
    tags.hash(hasher)
}

/// The digits of a number in base ten, most significant first, without leading zeros.
pub open spec fn decimal(n: nat) -> Seq<char>
    decreases n,
{
    if n < 10 {
        seq![(48 + n) as char]
    } else {
        decimal(n / 10).push((48 + n % 10) as char)
    }
}

/// The digit of a number below ten.
fn digit(d: u64) -> (r: &'static str)
    requires
        d < 10,
    ensures
        r@ == seq![(48 + d) as char],
{
    match d {
        0 => {
            proof {
                reveal_strlit("0");
            }
            "0"
        },
        1 => {
            proof {
                reveal_strlit("1");
            }
            "1"
        },
        2 => {
            proof {
                reveal_strlit("2");
            }
            "2"
        },
        3 => {
            proof {
                reveal_strlit("3");
            }
            "3"
        },
        4 => {
            proof {
                reveal_strlit("4");
            }
            "4"
        },
        5 => {
            proof {
                reveal_strlit("5");
            }
            "5"
        },
        6 => {
            proof {
                reveal_strlit("6");
            }
            "6"
        },
        7 => {
            proof {
                reveal_strlit("7");
            }
            "7"
        },
        8 => {
            proof {
                reveal_strlit("8");
            }
            "8"
        },
        _ => {
            proof {
                reveal_strlit("9");
            }
            "9"
        },
    }
}

/// Appends a number in base ten to the text.
fn append_decimal(text: &mut String, n: u64)
    ensures
        final(text)@ == old(text)@ + decimal(n as nat),
    decreases n,
{
    if n >= 10 {
        append_decimal(text, n / 10);
    }
    text.append(digit(n % 10));
    proof {
        if n >= 10 {
            assert(decimal(n as nat) == decimal((n / 10) as nat).push((48 + n % 10) as char));
        }
    }
}

/// The text of each tag.
pub open spec fn tags_view(tags: Seq<String>) -> Seq<Seq<char>> {
    tags.map_values(|tag: String| tag@)
}

/// The state of the hasher once the parts that name a save have been fed to it:
/// its name, its description, the corners of its area, its time and its tags.
pub open spec fn save_hash_state(
    name: Seq<char>,
    description: Seq<char>,
    area: Area,
    tags: Seq<Seq<char>>,
    time: SaveTime,
) -> Seq<Seq<u8>> {
    let state = str_hashed(str_hashed(Seq::empty(), name), description);
    let state = i32_hashed(i32_hashed(state, area@.min_x as i32), area@.min_y as i32);
    let state = i32_hashed(i32_hashed(state, area@.max_x as i32), area@.max_y as i32);
    tags_hashed(duration_hashed(state, time.secs(), time.nanos()), tags)
}

/// The state of the hasher once the parts that name a blueprint have been fed to it:
/// its name, its description, its sizes, its time and its tags.
pub open spec fn blueprint_hash_state(
    name: Seq<char>,
    description: Seq<char>,
    x_size: u32,
    y_size: u32,
    tags: Seq<Seq<char>>,
    time: SaveTime,
) -> Seq<Seq<u8>> {
    let state = str_hashed(str_hashed(Seq::empty(), name), description);
    let state = u32_hashed(u32_hashed(state, x_size), y_size);
    tags_hashed(duration_hashed(state, time.secs(), time.nanos()), tags)
}

/// The name of a save file whose parts hash to `hash`: the hash in base ten, then `.save`.
pub open spec fn filename_of(hash: u64) -> Seq<char> {
    decimal(hash as nat) + ".save"@
}

/// The filename of a save file whose parts hash to the given value: the hash in base ten, then `.save`.
pub fn filename_from_hash(hash: u64) -> (r: String)
    ensures
        r@ == filename_of(hash),
{
    let mut filename = String::new();
    append_decimal(&mut filename, hash);
    filename.append(".save");
    filename
}

/// The hash of the parts that name a save.
fn save_hash(name: &str, description: &str, area: &Area, tags: &[String], time: &SaveTime) -> (r: u64)
    ensures
        r == DefaultHasher::spec_finish(save_hash_state(name@, description@, *area, tags_view(tags@), *time)),
{
    proof {
        use_type_invariant(time);
    }
    let min = area.get_min();
    let max = area.get_max();
    let mut hasher = DefaultHasher::new();
    hash_str(&mut hasher, name);
    hash_str(&mut hasher, description);
    hash_i32(&mut hasher, min.get_x());
    hash_i32(&mut hasher, min.get_y());
    hash_i32(&mut hasher, max.get_x());
    hash_i32(&mut hasher, max.get_y());
    hash_duration(&mut hasher, time.as_secs(), time.subsec_nanos());
    hash_tags(&mut hasher, tags);
    hasher.finish()
}

/// The hash of the parts that name a blueprint.
fn blueprint_hash(name: &str, description: &str, x_size: u32, y_size: u32, tags: &[String], time: &SaveTime) -> (r:
    u64)
    ensures
        r == DefaultHasher::spec_finish(
            blueprint_hash_state(name@, description@, x_size, y_size, tags_view(tags@), *time),
        ),
{
    let mut hasher = DefaultHasher::new();
    hash_str(&mut hasher, name);
    hash_str(&mut hasher, description);
    hash_u32(&mut hasher, x_size);
    hash_u32(&mut hasher, y_size);
    hash_duration(&mut hasher, time.as_secs(), time.subsec_nanos());
    hash_tags(&mut hasher, tags);
    hasher.finish()
}

/// The state of a hasher after it hashed the given `i32`s one after the other.
pub open spec fn i32s_hashed(state: Seq<Seq<u8>>, values: Seq<i32>) -> Seq<Seq<u8>>
    decreases values.len(),
{
    if values.len() == 0 {
        state
    } else {
        i32s_hashed(i32_hashed(state, values[0]), values.drop_first())
    }
}

/// The state of a hasher after it hashed the given `u32`s one after the other.
pub open spec fn u32s_hashed(state: Seq<Seq<u8>>, values: Seq<u32>) -> Seq<Seq<u8>>
    decreases values.len(),
{
    if values.len() == 0 {
        state
    } else {
        u32s_hashed(u32_hashed(state, values[0]), values.drop_first())
    }
}

/// The coordinates of an area as its derived `Hash` writes them: the minimum corner, then the maximum
/// corner, each x then y.
pub open spec fn area_coordinates(area: Area) -> Seq<i32> {
    seq![area@.min_x as i32, area@.min_y as i32, area@.max_x as i32, area@.max_y as i32]
}

/// A save's name is the hash of its name, its description, every coordinate of its area's two corners,
/// its time and its tags, in that order; and the coordinates fed to the hasher tell every area apart,
/// so two saves that differ only in one corner of their area are fed different values.
pub proof fn law_save_hash_feeds_area(
    name: Seq<char>,
    description: Seq<char>,
    area: Area,
    other: Area,
    tags: Seq<Seq<char>>,
    time: SaveTime,
)
    ensures
        save_hash_state(name, description, area, tags, time) == tags_hashed(
            duration_hashed(
                i32s_hashed(str_hashed(str_hashed(Seq::empty(), name), description), area_coordinates(area)),
                time.secs(),
                time.nanos(),
            ),
            tags,
        ),
        area_coordinates(area)[0] == area@.min_x && area_coordinates(area)[1] == area@.min_y,
        area_coordinates(area)[2] == area@.max_x && area_coordinates(area)[3] == area@.max_y,
        area_coordinates(area) == area_coordinates(other) ==> area@ == other@,
{
    broadcast use crate::area::group_area;

    let values = area_coordinates(area);
    reveal_with_fuel(i32s_hashed, 5);
    assert(values.drop_first() == seq![area@.min_y as i32, area@.max_x as i32, area@.max_y as i32]);
    assert(values.drop_first().drop_first() == seq![area@.max_x as i32, area@.max_y as i32]);
    assert(values.drop_first().drop_first().drop_first() == seq![area@.max_y as i32]);
    assert(values.drop_first().drop_first().drop_first().drop_first() == Seq::<i32>::empty());
    if area_coordinates(area) == area_coordinates(other) {
        assert(area_coordinates(area)[2] == area_coordinates(other)[2]);
        assert(area_coordinates(area)[3] == area_coordinates(other)[3]);
        assert(area_coordinates(area)[0] == area_coordinates(other)[0]);
        assert(area_coordinates(area)[1] == area_coordinates(other)[1]);
    }
}

/// A blueprint's name is the hash of its name, its description, its x size then its y size, its time
/// and its tags, in that order: both sizes are fed to the hasher, so two blueprints that differ only in
/// one size are fed different values.
pub proof fn law_blueprint_hash_feeds_sizes(
    name: Seq<char>,
    description: Seq<char>,
    x_size: u32,
    y_size: u32,
    tags: Seq<Seq<char>>,
    time: SaveTime,
)
    ensures
        blueprint_hash_state(name, description, x_size, y_size, tags, time) == tags_hashed(
            duration_hashed(
                u32s_hashed(str_hashed(str_hashed(Seq::empty(), name), description), seq![x_size, y_size]),
                time.secs(),
                time.nanos(),
            ),
            tags,
        ),
{
    reveal_with_fuel(u32s_hashed, 3);
    assert(seq![x_size, y_size].drop_first() == seq![y_size]);
    assert(seq![y_size].drop_first() == Seq::<u32>::empty());
}

/// The filename of a save with the given parts.
pub open spec fn save_filename(
    area: Area,
    name: Seq<char>,
    description: Seq<char>,
    tags: Seq<Seq<char>>,
    time: SaveTime,
) -> Seq<char> {
    filename_of(DefaultHasher::spec_finish(save_hash_state(name, description, area, tags, time)))
}

/// The filename of a blueprint with the given parts.
pub open spec fn blueprint_filename(
    x_size: u32,
    y_size: u32,
    name: Seq<char>,
    description: Seq<char>,
    tags: Seq<Seq<char>>,
    time: SaveTime,
) -> Seq<char> {
    filename_of(DefaultHasher::spec_finish(blueprint_hash_state(name, description, x_size, y_size, tags, time)))
}

/// The data that the save format consists of.
#[derive(Debug, PartialEq, Eq)]
pub struct SaveFormat<Data> {
    /// The save format version.
    pub version: u16,
    /// The name for the save data (not the filename).
    pub name: String,
    /// A description of the save data.
    pub description: String,
    /// The tags for the save data.
    pub tags: Vec<String>,
    /// Time time this save data was made.
    pub time: SaveTime,
    /// Generic save data.
    pub data: Data,
}

/// The data structure for a save of the board.
/// Used in [`SaveFormat`].
#[derive(Debug, PartialEq, Eq)]
pub struct Save {
    /// The position that the user is viewing the save at.
    pub view_position: Option<GlobalPosition>,
    /// The saved board.
    pub simulation_save: SimulationSave,
}

/// The data structure for a save of a blueprint.
/// Used in [`SaveFormat`].
#[derive(Debug, PartialEq, Eq)]
pub struct Blueprint {
    /// The saved blueprint.
    pub blueprint: SimulationBlueprint,
}

/// For generating the filenames using the generic save data for [`SaveFormat`] from [`SaveBuilder`].
pub trait GenerateName {
    /// The filename that the data gives with the given parts.
    spec fn filename_spec(
        &self,
        save_name: Seq<char>,
        save_description: Seq<char>,
        save_tags: Seq<Seq<char>>,
        save_time: SaveTime,
    ) -> Seq<char>;

    /// Generates the filename (including extension) of the file from the data stored in the file.
    fn filename(&self, save_name: &str, save_description: &str, save_tags: &[String], save_time: &SaveTime) -> (r:
        String)
        ensures
            r@ == self.filename_spec(save_name@, save_description@, tags_view(save_tags@), *save_time),
    ;
}

impl GenerateName for Save {
    open spec fn filename_spec(
        &self,
        save_name: Seq<char>,
        save_description: Seq<char>,
        save_tags: Seq<Seq<char>>,
        save_time: SaveTime,
    ) -> Seq<char> {
        save_filename(self.simulation_save.board_area, save_name, save_description, save_tags, save_time)
    }

    fn filename(&self, save_name: &str, save_description: &str, save_tags: &[String], save_time: &SaveTime) -> (r:
        String) {
        let hash = save_hash(save_name, save_description, &self.simulation_save.board_area, save_tags, save_time);
        filename_from_hash(hash)
    }
}

impl GenerateName for Blueprint {
    open spec fn filename_spec(
        &self,
        save_name: Seq<char>,
        save_description: Seq<char>,
        save_tags: Seq<Seq<char>>,
        save_time: SaveTime,
    ) -> Seq<char> {
        blueprint_filename(
            self.blueprint.x_size,
            self.blueprint.y_size,
            save_name,
            save_description,
            save_tags,
            save_time,
        )
    }

    fn filename(&self, save_name: &str, save_description: &str, save_tags: &[String], save_time: &SaveTime) -> (r:
        String) {
        let hash = blueprint_hash(
            save_name,
            save_description,
            self.blueprint.x_size,
            self.blueprint.y_size,
            save_tags,
            save_time,
        );
        filename_from_hash(hash)
    }
}

impl Save {
    /// Generates the filename from its component parts.
    pub fn generate_filename(
        board_area: Area,
        save_name: &str,
        save_description: &str,
        save_tags: &[String],
        save_time: &SaveTime,
    ) -> (r: String)
        ensures
            r@ == save_filename(board_area, save_name@, save_description@, tags_view(save_tags@), *save_time),
    {
        let save = Save {
            view_position: None,
            simulation_save: SimulationSave::new(0, board_area, CellBits::new()),
        };
        save.filename(save_name, save_description, save_tags, save_time)
    }
}

impl Blueprint {
    /// Generates the filename from its component parts.
    pub fn generate_filename(
        x_size: u32,
        y_size: u32,
        blueprint_name: &str,
        blueprint_description: &str,
        blueprint_tags: &[String],
        blueprint_time: &SaveTime,
    ) -> (r: String)
        ensures
            r@ == blueprint_filename(
                x_size,
                y_size,
                blueprint_name@,
                blueprint_description@,
                tags_view(blueprint_tags@),
                *blueprint_time,
            ),
    {
        let blueprint = Blueprint { blueprint: SimulationBlueprint::new(x_size, y_size, CellBits::new()) };
        blueprint.filename(blueprint_name, blueprint_description, blueprint_tags, blueprint_time)
    }
}

} // verus!
