//! Names of the sheets that belong to a gym.

use vstd::prelude::*;
use vstd::string::*;
use crate::error::MappingError;
use crate::text::{same_text, second_word, split_second_word};

verus! {

/// The title of the sheet that holds one kind of climb of one gym location:
/// the location, ` - ` and the plural noun, for example `Ristikko - Reitit`.
pub open spec fn sheet_name_spec(location: Seq<char>, plural: Seq<char>) -> Seq<char> {
    location + seq![' ', '-', ' '] + plural
}

/// The plural noun under which the climbs of a wall category are listed.
/// Only the two categories of the vendor have one.
pub open spec fn plural_human_type_spec(wall_category: Seq<char>) -> Option<Seq<char>> {
    if wall_category == "gym_bouldering"@ {
        Some("Boulderit"@)
    } else if wall_category == "gym_sportclimbing"@ {
        Some("Reitit"@)
    } else {
        None
    }
}

/// Joins a gym location and a plural noun into a sheet title.
pub fn format_sheet_name(gym_location_name: &str, plural_human_item_type: &str) -> (title: String)
    ensures
        title@ == sheet_name_spec(gym_location_name@, plural_human_item_type@),
{
    proof {
        reveal_strlit(" - ");
    }
    let mut title = String::from_str(gym_location_name);
    title.append(" - ");
    title.append(plural_human_item_type);
    assert(" - "@ =~= seq![' ', '-', ' ']);
    title
}

/// Maps a wall category to its plural noun. Any category but the two
/// recognized ones is an error: there is no default.
pub fn wall_category_to_plural_human_type(wall_category: &str) -> (plural: Result<
    String,
    MappingError,
>)
    ensures
        plural is Ok <==> plural_human_type_spec(wall_category@) is Some,
        plural is Ok ==> plural->Ok_0@ == plural_human_type_spec(wall_category@)->0,
        plural is Err ==> plural->Err_0 == MappingError::UnknownWallCategory,
{
    if same_text(wall_category, "gym_bouldering") {
        Ok(String::from_str("Boulderit"))
    } else if same_text(wall_category, "gym_sportclimbing") {
        Ok(String::from_str("Reitit"))
    } else {
        Err(MappingError::UnknownWallCategory)
    }
}

/// The location of a gym: the second word of its name, as in
/// `Kiipeilyareena Ristikko`. A name of fewer than two words has no
/// location.
pub fn parse_location_from_gym_name(gym_name: &str) -> (location: Result<&str, MappingError>)
    ensures
        location is Ok <==> second_word(gym_name@) is Some,
        location is Ok ==> location->Ok_0@ == second_word(gym_name@)->0,
        location is Err ==> location->Err_0 == MappingError::MissingLocation,
{
    match split_second_word(gym_name) {
        Some(word) => Ok(word),
        None => Err(MappingError::MissingLocation),
    }
}

} // verus!
