//! Activating the selected row: opening a list or playing a track.

use vstd::prelude::*;
use crate::clock::Moment;
use crate::message::{no_actions, Action};
use crate::model::{clone_tracks, SourceView, TrackListSource};
use crate::state::{LibraryTab, Model, ModelView, Screen, SearchTab};
use crate::text::views;
use crate::update::loading::{drill_into_tracks, drilled};
use crate::update::playback::{jumped, play_from, play_index, played_from};
use crate::update::Step;

verus! {

/// Activating the row `index` of the Library screen: albums open, tracks
/// play, artists do nothing.
pub open spec fn library_activated(m: ModelView, index: int, now: Moment) -> Step {
    match m.library_tab {
        LibraryTab::TopArtists => (m, Seq::empty()),
        LibraryTab::Albums => if index < m.albums.len() {
            drilled(m, Screen::Library, SourceView::Album(m.albums[index].id), now)
        } else {
            (m, Seq::empty())
        },
        LibraryTab::TopTracks | LibraryTab::RecentlyPlayed | LibraryTab::Saved => played_from(
            m,
            m.tracks,
            index,
        ),
    }
}

/// Activating the row `index` of the Search screen: playlists and albums open,
/// tracks play, artists do nothing.
pub open spec fn search_activated(m: ModelView, index: int, now: Moment) -> Step {
    let results = m.search_results;
    match m.search_tab {
        SearchTab::Tracks => played_from(m, results.tracks, index),
        SearchTab::Playlists => if index < results.playlists.len() {
            drilled(m, Screen::Search, SourceView::Playlist(results.playlists[index].id), now)
        } else {
            (m, Seq::empty())
        },
        SearchTab::Albums => if index < results.albums.len() {
            drilled(m, Screen::Search, SourceView::Album(results.albums[index].id), now)
        } else {
            (m, Seq::empty())
        },
        SearchTab::Artists => (m, Seq::empty()),
    }
}

/// Activating the selected row. Without a selection, or with one past the end
/// of the list, nothing happens.
pub open spec fn activated(m: ModelView, now: Moment) -> Step {
    match m.list.selected {
        None => (m, Seq::empty()),
        Some(row) => match m.screen {
            Screen::Playlists => if row < m.playlists.len() {
                drilled(
                    m,
                    Screen::Playlists,
                    SourceView::Playlist(m.playlists[row as int].id),
                    now,
                )
            } else {
                (m, Seq::empty())
            },
            Screen::Tracks => played_from(m, m.tracks, row as int),
            Screen::Library => library_activated(m, row as int, now),
            Screen::Search => search_activated(m, row as int, now),
            Screen::Queue => if row < m.queue.len() {
                jumped(m, row as int)
            } else {
                (m, Seq::empty())
            },
        },
    }
}

/// Play the selected track from the playlist/library track list, queueing the
/// whole list so next/previous walk it.
fn activate_track(model: &mut Model, index: usize) -> (actions: Vec<Action>)
    ensures
        (final(model)@, views(actions@)) == played_from(
            old(model)@,
            old(model)@.tracks,
            index as int,
        ),
{
    let tracks = clone_tracks(&model.tracks);
    play_from(model, tracks, index)
}

/// Drill into the selected playlist and request its tracks.
fn activate_playlist(model: &mut Model, index: usize, now: Moment) -> (actions: Vec<Action>)
    requires
        index < old(model).playlists@.len(),
    ensures
        (final(model)@, views(actions@)) == drilled(
            old(model)@,
            Screen::Playlists,
            SourceView::Playlist(old(model)@.playlists[index as int].id),
            now,
        ),
{
    let id = model.playlists[index].id.clone();
    drill_into_tracks(model, Screen::Playlists, TrackListSource::Playlist(id), now)
}

/// Activate a Library row: play/drill into music content, or no-op on artists.
fn activate_library(model: &mut Model, index: usize, now: Moment) -> (actions: Vec<Action>)
    ensures
        (final(model)@, views(actions@)) == library_activated(old(model)@, index as int, now),
{
    match model.library_tab {
        LibraryTab::TopArtists => no_actions(),
        LibraryTab::Albums => {
            if index >= model.albums.len() {
                return no_actions();
            }
            let id = model.albums[index].id.clone();
            drill_into_tracks(model, Screen::Library, TrackListSource::Album(id), now)
        },
        LibraryTab::TopTracks | LibraryTab::RecentlyPlayed | LibraryTab::Saved => activate_track(
            model,
            index,
        ),
    }
}

/// Activate a Search row based on the active lane.
fn activate_search(model: &mut Model, index: usize, now: Moment) -> (actions: Vec<Action>)
    ensures
        (final(model)@, views(actions@)) == search_activated(old(model)@, index as int, now),
{
    match model.search_tab {
        SearchTab::Tracks => {
            let tracks = clone_tracks(&model.search_results.tracks);
            play_from(model, tracks, index)
        },
        SearchTab::Playlists => {
            if index >= model.search_results.playlists.len() {
                return no_actions();
            }
            let id = model.search_results.playlists[index].id.clone();
            drill_into_tracks(model, Screen::Search, TrackListSource::Playlist(id), now)
        },
        SearchTab::Albums => {
            if index >= model.search_results.albums.len() {
                return no_actions();
            }
            let id = model.search_results.albums[index].id.clone();
            drill_into_tracks(model, Screen::Search, TrackListSource::Album(id), now)
        },
        SearchTab::Artists => no_actions(),
    }
}

/// Activate the selected row: open a playlist or play a track.
pub fn activate_selection(model: &mut Model, now: Moment) -> (actions: Vec<Action>)
    ensures
        (final(model)@, views(actions@)) == activated(old(model)@, now),
{
    let index: usize = match model.list_state.selected() {
        Some(index) => index,
        None => {
            return no_actions();
        },
    };
    match model.screen {
        Screen::Playlists => {
            if index >= model.playlists.len() {
                return no_actions();
            }
            activate_playlist(model, index, now)
        },
        Screen::Tracks => activate_track(model, index),
        Screen::Library => activate_library(model, index, now),
        Screen::Search => activate_search(model, index, now),
        Screen::Queue => {
            if index >= model.playback_queue.len() {
                return no_actions();
            }
            play_index(model, index)
        },
    }
}

} // verus!
