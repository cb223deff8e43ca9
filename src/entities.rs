//! The example entities and the filter record of each.
use vstd::prelude::*;
use crate::episode::Episode;
use crate::expr::{Expr, Pred};
use crate::filter::{And, BuildFilter, Column, Like};
use crate::schema::{
    AppearsInEpisode, AppearsInTable, FriendsTable, HerosTable, HomeWorldsTable, SpeciesTable, FriendsFriendId, HerosHairColor, HerosHomeWorld, HerosId, HerosName,
    HerosSpecies, HomeWorldsId, HomeWorldsName, SpeciesId, SpeciesName,
};
use crate::transform::Transformator;

verus! {

/// A hero's appearance in one episode.
#[derive(Debug, Clone, Copy, PartialEq, Eq, Hash)]
pub struct AppearsIn {
    pub hero_id: i32,
    pub episode: Episode,
}

/// A friendship between two heroes, by their ids.
#[derive(Debug, Clone, Copy, PartialEq, Eq, Hash)]
pub struct Friend {
    pub hero_id: i32,
    pub friend_id: i32,
}

/// A planet and the heroes from it.
#[derive(Debug, Clone, PartialEq, Eq, Hash)]
pub struct HomeWorld {
    pub id: i32,
    pub name: String,
    pub heros: Vec<Hero>,
}

/// A hero, with the ids of the rows it refers to.
#[derive(Debug, Clone, PartialEq, Eq, Hash)]
pub struct Hero {
    pub id: i32,
    pub name: String,
    pub hair_color: Option<String>,
    pub species: i32,
    pub home_world: Option<i32>,
    pub appears_in: Vec<AppearsIn>,
    pub friends: Vec<Friend>,
}

/// A species and the heroes of it.
#[derive(Debug, Clone, PartialEq, Eq, Hash)]
pub struct Species {
    pub id: i32,
    pub name: String,
    pub heros: Vec<Hero>,
}

/// Filter input of [`Hero`]: one optional leaf per filterable column,
/// conjoined in declaration order.
#[derive(Debug, Clone)]
pub struct HeroFilter {
    pub id: crate::filter::Eq<i32, HerosId>,
    pub name: Like<HerosName>,
    pub hair_color: Like<HerosHairColor>,
    pub species: crate::filter::Eq<i32, HerosSpecies>,
    pub home_world: crate::filter::Eq<i32, HerosHomeWorld>,
}

impl HeroFilter {
    /// The names of the filterable columns, in declaration order.
    pub fn columns() -> (r: Vec<String>)
        ensures
            r@.len() == 5,
            r@[0]@ == HerosId::spec_name(),
            r@[1]@ == HerosName::spec_name(),
            r@[2]@ == HerosHairColor::spec_name(),
            r@[3]@ == HerosSpecies::spec_name(),
            r@[4]@ == HerosHomeWorld::spec_name(),
    {
        vec![
            HerosId::name(),
            HerosName::name(),
            HerosHairColor::name(),
            HerosSpecies::name(),
            HerosHomeWorld::name(),
        ]
    }
}

impl<F: Transformator> BuildFilter<F> for HeroFilter {
    type Table = HerosTable;

    open spec fn spec_filter(&self, t: &F) -> Option<Pred> {
        And(
            And(And(And(self.id, self.name), self.hair_color), self.species),
            self.home_world,
        ).spec_filter(t)
    }

    open spec fn selective_only(&self) -> bool {
        true
    }

    fn into_filter(self, t: &F) -> (r: Option<Expr>) {
        let HeroFilter { id, name, hair_color, species, home_world } = self;
        And(And(And(And(id, name), hair_color), species), home_world)
            .into_filter(t)
    }

    proof fn lemma_selective_suppressed(&self, t: &F) {
        And(And(And(And(self.id, self.name), self.hair_color), self.species), self.home_world)
            .lemma_selective_suppressed(t);
    }
}

/// Filter input of [`Species`].
#[derive(Debug, Clone)]
pub struct SpeciesFilter {
    pub id: crate::filter::Eq<i32, SpeciesId>,
    pub name: Like<SpeciesName>,
}

impl SpeciesFilter {
    /// The names of the filterable columns, in declaration order.
    pub fn columns() -> (r: Vec<String>)
        ensures
            r@.len() == 2,
            r@[0]@ == SpeciesId::spec_name(),
            r@[1]@ == SpeciesName::spec_name(),
    {
        vec![SpeciesId::name(), SpeciesName::name()]
    }
}

impl<F: Transformator> BuildFilter<F> for SpeciesFilter {
    type Table = SpeciesTable;

    open spec fn spec_filter(&self, t: &F) -> Option<Pred> {
        And(self.id, self.name).spec_filter(t)
    }

    open spec fn selective_only(&self) -> bool {
        true
    }

    fn into_filter(self, t: &F) -> (r: Option<Expr>) {
        let SpeciesFilter { id, name } = self;
        And(id, name).into_filter(t)
    }

    proof fn lemma_selective_suppressed(&self, t: &F) {
        And(self.id, self.name).lemma_selective_suppressed(t);
    }
}

/// Filter input of [`HomeWorld`].
#[derive(Debug, Clone)]
pub struct HomeWorldFilter {
    pub id: crate::filter::Eq<i32, HomeWorldsId>,
    pub name: Like<HomeWorldsName>,
}

impl HomeWorldFilter {
    /// The names of the filterable columns, in declaration order.
    pub fn columns() -> (r: Vec<String>)
        ensures
            r@.len() == 2,
            r@[0]@ == HomeWorldsId::spec_name(),
            r@[1]@ == HomeWorldsName::spec_name(),
    {
        vec![HomeWorldsId::name(), HomeWorldsName::name()]
    }
}

impl<F: Transformator> BuildFilter<F> for HomeWorldFilter {
    type Table = HomeWorldsTable;

    open spec fn spec_filter(&self, t: &F) -> Option<Pred> {
        And(self.id, self.name).spec_filter(t)
    }

    open spec fn selective_only(&self) -> bool {
        true
    }

    fn into_filter(self, t: &F) -> (r: Option<Expr>) {
        let HomeWorldFilter { id, name } = self;
        And(id, name).into_filter(t)
    }

    proof fn lemma_selective_suppressed(&self, t: &F) {
        And(self.id, self.name).lemma_selective_suppressed(t);
    }
}

/// Filter input of [`AppearsIn`].
#[derive(Debug, Clone)]
pub struct AppearsInFilter {
    pub episode: crate::filter::Eq<Episode, AppearsInEpisode>,
}

impl AppearsInFilter {
    /// The names of the filterable columns, in declaration order.
    pub fn columns() -> (r: Vec<String>)
        ensures
            r@.len() == 1,
            r@[0]@ == AppearsInEpisode::spec_name(),
    {
        vec![AppearsInEpisode::name()]
    }
}

impl<F: Transformator> BuildFilter<F> for AppearsInFilter {
    type Table = AppearsInTable;

    open spec fn spec_filter(&self, t: &F) -> Option<Pred> {
        self.episode.spec_filter(t)
    }

    open spec fn selective_only(&self) -> bool {
        true
    }

    fn into_filter(self, t: &F) -> (r: Option<Expr>) {
        self.episode.into_filter(t)
    }

    proof fn lemma_selective_suppressed(&self, t: &F) {
        self.episode.lemma_selective_suppressed(t);
    }
}

/// Filter input of [`Friend`].
#[derive(Debug, Clone)]
pub struct FriendFilter {
    pub friend_id: crate::filter::Eq<i32, FriendsFriendId>,
}

impl FriendFilter {
    /// The names of the filterable columns, in declaration order.
    pub fn columns() -> (r: Vec<String>)
        ensures
            r@.len() == 1,
            r@[0]@ == FriendsFriendId::spec_name(),
    {
        vec![FriendsFriendId::name()]
    }
}

impl<F: Transformator> BuildFilter<F> for FriendFilter {
    type Table = FriendsTable;

    open spec fn spec_filter(&self, t: &F) -> Option<Pred> {
        self.friend_id.spec_filter(t)
    }

    open spec fn selective_only(&self) -> bool {
        true
    }

    fn into_filter(self, t: &F) -> (r: Option<Expr>) {
        self.friend_id.into_filter(t)
    }

    proof fn lemma_selective_suppressed(&self, t: &F) {
        self.friend_id.lemma_selective_suppressed(t);
    }
}

} // verus!
