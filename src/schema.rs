//! The columns of the example schema's relations.
use vstd::prelude::*;
use crate::episode::Episode;
use crate::filter::{Column, ColumnOf, TextColumn};

verus! {

/// The relation `heros`.
#[derive(Debug, Clone, Copy, Default)]
pub struct HerosTable;

/// The relation `species`.
#[derive(Debug, Clone, Copy, Default)]
pub struct SpeciesTable;

/// The relation `home_worlds`.
#[derive(Debug, Clone, Copy, Default)]
pub struct HomeWorldsTable;

/// The relation `appears_in`.
#[derive(Debug, Clone, Copy, Default)]
pub struct AppearsInTable;

/// The relation `friends`.
#[derive(Debug, Clone, Copy, Default)]
pub struct FriendsTable;

/// The column `heros.id`.
#[derive(Debug, Clone, Copy, Default)]
pub struct HerosId;

impl Column for HerosId {
    type Table = HerosTable;

    open spec fn spec_name() -> Seq<char> {
        "id"@
    }

    fn name() -> (r: String) {
        "id".to_owned()
    }
}

impl ColumnOf<i32> for HerosId {}

/// The column `heros.name`.
#[derive(Debug, Clone, Copy, Default)]
pub struct HerosName;

impl Column for HerosName {
    type Table = HerosTable;

    open spec fn spec_name() -> Seq<char> {
        "name"@
    }

    fn name() -> (r: String) {
        "name".to_owned()
    }
}

impl TextColumn for HerosName {}

/// The column `heros.hair_color`.
#[derive(Debug, Clone, Copy, Default)]
pub struct HerosHairColor;

impl Column for HerosHairColor {
    type Table = HerosTable;

    open spec fn spec_name() -> Seq<char> {
        "hair_color"@
    }

    fn name() -> (r: String) {
        "hair_color".to_owned()
    }
}

impl TextColumn for HerosHairColor {}

/// The column `heros.species`.
#[derive(Debug, Clone, Copy, Default)]
pub struct HerosSpecies;

impl Column for HerosSpecies {
    type Table = HerosTable;

    open spec fn spec_name() -> Seq<char> {
        "species"@
    }

    fn name() -> (r: String) {
        "species".to_owned()
    }
}

impl ColumnOf<i32> for HerosSpecies {}

/// The column `heros.home_world`.
#[derive(Debug, Clone, Copy, Default)]
pub struct HerosHomeWorld;

impl Column for HerosHomeWorld {
    type Table = HerosTable;

    open spec fn spec_name() -> Seq<char> {
        "home_world"@
    }

    fn name() -> (r: String) {
        "home_world".to_owned()
    }
}

impl ColumnOf<i32> for HerosHomeWorld {}

/// The column `species.id`.
#[derive(Debug, Clone, Copy, Default)]
pub struct SpeciesId;

impl Column for SpeciesId {
    type Table = SpeciesTable;

    open spec fn spec_name() -> Seq<char> {
        "id"@
    }

    fn name() -> (r: String) {
        "id".to_owned()
    }
}

impl ColumnOf<i32> for SpeciesId {}

/// The column `species.name`.
#[derive(Debug, Clone, Copy, Default)]
pub struct SpeciesName;

impl Column for SpeciesName {
    type Table = SpeciesTable;

    open spec fn spec_name() -> Seq<char> {
        "name"@
    }

    fn name() -> (r: String) {
        "name".to_owned()
    }
}

impl TextColumn for SpeciesName {}

/// The column `home_worlds.id`.
#[derive(Debug, Clone, Copy, Default)]
pub struct HomeWorldsId;

impl Column for HomeWorldsId {
    type Table = HomeWorldsTable;

    open spec fn spec_name() -> Seq<char> {
        "id"@
    }

    fn name() -> (r: String) {
        "id".to_owned()
    }
}

impl ColumnOf<i32> for HomeWorldsId {}

/// The column `home_worlds.name`.
#[derive(Debug, Clone, Copy, Default)]
pub struct HomeWorldsName;

impl Column for HomeWorldsName {
    type Table = HomeWorldsTable;

    open spec fn spec_name() -> Seq<char> {
        "name"@
    }

    fn name() -> (r: String) {
        "name".to_owned()
    }
}

impl TextColumn for HomeWorldsName {}

/// The column `appears_in.hero_id`.
#[derive(Debug, Clone, Copy, Default)]
pub struct AppearsInHeroId;

impl Column for AppearsInHeroId {
    type Table = AppearsInTable;

    open spec fn spec_name() -> Seq<char> {
        "hero_id"@
    }

    fn name() -> (r: String) {
        "hero_id".to_owned()
    }
}

impl ColumnOf<i32> for AppearsInHeroId {}

/// The column `appears_in.episode`.
#[derive(Debug, Clone, Copy, Default)]
pub struct AppearsInEpisode;

impl Column for AppearsInEpisode {
    type Table = AppearsInTable;

    open spec fn spec_name() -> Seq<char> {
        "episode"@
    }

    fn name() -> (r: String) {
        "episode".to_owned()
    }
}

impl ColumnOf<Episode> for AppearsInEpisode {}

/// The column `friends.hero_id`.
#[derive(Debug, Clone, Copy, Default)]
pub struct FriendsHeroId;

impl Column for FriendsHeroId {
    type Table = FriendsTable;

    open spec fn spec_name() -> Seq<char> {
        "hero_id"@
    }

    fn name() -> (r: String) {
        "hero_id".to_owned()
    }
}

impl ColumnOf<i32> for FriendsHeroId {}

/// The column `friends.friend_id`.
#[derive(Debug, Clone, Copy, Default)]
pub struct FriendsFriendId;

impl Column for FriendsFriendId {
    type Table = FriendsTable;

    open spec fn spec_name() -> Seq<char> {
        "friend_id"@
    }

    fn name() -> (r: String) {
        "friend_id".to_owned()
    }
}

impl ColumnOf<i32> for FriendsFriendId {}

} // verus!
