//! The program and episode records: plain values, with date-times held in
//! the crate's own calendar model.

use crate::datetime::DateTime;
use crate::xmltext::view_opt;
use vstd::prelude::*;

verus! {

/// One entry of the station's program list.
#[derive(Clone, Debug, PartialEq, Eq)]
pub struct ProgramDescription {
    pub slug: Option<String>,
    pub name: String,
    pub broadcasters: String,
    pub grid_description: Option<String>,
    pub archived: bool,
    pub program_rest_url: String,
}

/// The model of a [`ProgramDescription`].
pub ghost struct ProgramDescriptionModel {
    pub slug: Option<Seq<char>>,
    pub name: Seq<char>,
    pub broadcasters: Seq<char>,
    pub grid_description: Option<Seq<char>>,
    pub archived: bool,
    pub program_rest_url: Seq<char>,
}

impl View for ProgramDescription {
    type V = ProgramDescriptionModel;

    open spec fn view(&self) -> ProgramDescriptionModel {
        ProgramDescriptionModel {
            slug: view_opt(self.slug),
            name: self.name@,
            broadcasters: self.broadcasters@,
            grid_description: view_opt(self.grid_description),
            archived: self.archived,
            program_rest_url: self.program_rest_url@,
        }
    }
}

/// A program's full record.
#[derive(Clone, Debug, PartialEq, Eq)]
pub struct ProgramDetails {
    pub url: Option<String>,
    pub name: String,
    pub broadcasters: String,
    pub description: String,
    pub grid_description: Option<String>,
    pub slug: String,
    pub banner_image_url: String,
    pub banner_image_small: String,
    pub profile_image_url: String,
    pub profile_image_small: String,
    pub episodes_rest_url: String,
}

/// The model of a [`ProgramDetails`].
pub ghost struct ProgramDetailsModel {
    pub url: Option<Seq<char>>,
    pub name: Seq<char>,
    pub broadcasters: Seq<char>,
    pub description: Seq<char>,
    pub grid_description: Option<Seq<char>>,
    pub slug: Seq<char>,
    pub banner_image_url: Seq<char>,
    pub banner_image_small: Seq<char>,
    pub profile_image_url: Seq<char>,
    pub profile_image_small: Seq<char>,
    pub episodes_rest_url: Seq<char>,
}

impl View for ProgramDetails {
    type V = ProgramDetailsModel;

    open spec fn view(&self) -> ProgramDetailsModel {
        ProgramDetailsModel {
            url: view_opt(self.url),
            name: self.name@,
            broadcasters: self.broadcasters@,
            description: self.description@,
            grid_description: view_opt(self.grid_description),
            slug: self.slug@,
            banner_image_url: self.banner_image_url@,
            banner_image_small: self.banner_image_small@,
            profile_image_url: self.profile_image_url@,
            profile_image_small: self.profile_image_small@,
            episodes_rest_url: self.episodes_rest_url@,
        }
    }
}

/// One broadcast episode of a program.
#[derive(Clone, Debug, PartialEq, Eq)]
pub struct Episode {
    pub url: Option<String>,
    pub start: DateTime,
    pub end: DateTime,
    pub duration: u32,
    pub title: Option<String>,
    pub description: Option<String>,
    pub image_url: Option<String>,
    pub episode_rest_url: String,
}

/// The model of an [`Episode`].
pub ghost struct EpisodeModel {
    pub url: Option<Seq<char>>,
    pub start: DateTime,
    pub end: DateTime,
    pub duration: u32,
    pub title: Option<Seq<char>>,
    pub description: Option<Seq<char>>,
    pub image_url: Option<Seq<char>>,
    pub episode_rest_url: Seq<char>,
}

impl View for Episode {
    type V = EpisodeModel;

    open spec fn view(&self) -> EpisodeModel {
        EpisodeModel {
            url: view_opt(self.url),
            start: self.start,
            end: self.end,
            duration: self.duration,
            title: view_opt(self.title),
            description: view_opt(self.description),
            image_url: view_opt(self.image_url),
            episode_rest_url: self.episode_rest_url@,
        }
    }
}

/// The models of a sequence of episodes, in order.
pub open spec fn episodes_view(v: Seq<Episode>) -> Seq<EpisodeModel> {
    Seq::new(v.len(), |i: int| v[i]@)
}

} // verus!
