//! The view state machine and the event loop's two transition functions:
//! one for decoded keyboard commands, one for drained channel messages.

use vstd::prelude::*;
use crate::download::{Download, Downloadable};
use crate::feed::Feed;
use crate::keymap::KeyMap;
use crate::list::{get_things, projects, Status, Styled, Thing, ThingList};
use crate::msg::{Header, Message};

verus! {

/// Which of the five views is active. Feeds is the initial view; there is no
/// terminal view other than process exit.
#[derive(Clone, Copy, Debug, PartialEq, Eq, Structural)]
pub enum AppView {
    Feeds,
    Episodes,
    Headers,
    Downloads,
    Log,
}

impl Default for AppView {
    /// The view the application starts in.
    fn default() -> (r: Self)
        ensures
            r == AppView::Feeds,
    {
        AppView::Feeds
    }
}

/// Everything the event loop owns: the backing list of each view, the display
/// projection, the active view, the status line, and the known terminal size.
pub struct AppState {
    pub feeds: ThingList<Feed>,
    pub headers: ThingList<Header>,
    pub downloads: ThingList<Download>,
    pub log_messages: ThingList<String>,
    pub dtlist: ThingList<Thing>,
    pub selected_view: AppView,
    pub status: Status,
    pub width: usize,
    pub height: usize,
}

/// Copy the target backing list into the display projection: its rendered
/// rows and its cursor.
pub fn switch_view<T: Styled>(
    dtlist: &mut ThingList<Thing>,
    selected_view: &mut AppView,
    new_view: AppView,
    thing_list: &ThingList<T>,
)
    requires
        thing_list.cursor_ok(),
    ensures
        *final(selected_view) == new_view,
        projects(final(dtlist).things@, thing_list.things@),
        final(dtlist).selected_index == thing_list.selected_index,
        final(dtlist).cursor_ok(),
{
    *selected_view = new_view;
    dtlist.things = get_things(&thing_list.things);
    dtlist.selected_index = thing_list.selected_index;
}

impl AppState {
    /// Every cursor valid: the five backing lists, every feed's episode list,
    /// and the projection.
    pub open spec fn wf(&self) -> bool {
        &&& self.feeds.cursor_ok()
        &&& self.headers.cursor_ok()
        &&& self.downloads.cursor_ok()
        &&& self.log_messages.cursor_ok()
        &&& self.dtlist.cursor_ok()
        &&& forall|i: int| 0 <= i < self.feeds.things@.len()
            ==> (#[trigger] self.feeds.things@[i]).episodes.cursor_ok()
    }

    /// The cursor of the backing list that the given view displays. For the
    /// Episodes view this is the current feed's episode cursor.
    pub open spec fn backing_cursor(&self, v: AppView) -> nat
        recommends
            v is Episodes ==> self.feeds.things@.len() > 0,
    {
        match v {
            AppView::Feeds => self.feeds.selected_index as nat,
            AppView::Episodes => self.feeds.things@[self.feeds.selected_index as int]
                .episodes.selected_index as nat,
            AppView::Headers => self.headers.selected_index as nat,
            AppView::Downloads => self.downloads.selected_index as nat,
            AppView::Log => self.log_messages.selected_index as nat,
        }
    }

    /// What one switch of the active view does to the state: the projection
    /// cursor takes the target backing list's cursor, and every backing list
    /// is left as it was.
    pub open spec fn view_switched(&self, post: AppState, v: AppView) -> bool {
        &&& post.selected_view == v
        &&& post.dtlist.selected_index == self.backing_cursor(v)
        &&& post.feeds == self.feeds
        &&& post.headers == self.headers
        &&& post.downloads == self.downloads
        &&& post.log_messages == self.log_messages
    }

    /// Write the projection cursor back into whichever backing list the
    /// active view displays, keeping the two in sync. The write is skipped
    /// when the projection cursor does not fit the backing list (the lists
    /// can drift apart while background results arrive).
    pub fn update_selected_index(&mut self)
        requires
            old(self).wf(),
        ensures
            final(self).wf(),
            final(self).dtlist == old(self).dtlist,
            final(self).selected_view == old(self).selected_view,
            final(self).status == old(self).status,
            final(self).width == old(self).width,
            final(self).height == old(self).height,
            cursor_written_back(*old(self), *final(self)),
    {
        let idx = self.dtlist.selected_index;
        match self.selected_view {
            AppView::Feeds => {
                if idx < self.feeds.things.len() {
                    self.feeds.selected_index = idx;
                }
            },
            AppView::Episodes => {
                if self.feeds.things.len() > 0 {
                    let f = self.feeds.selected_index;
                    if idx < self.feeds.things[f].episodes.things.len() {
                        self.feeds.things[f].episodes.selected_index = idx;
                    }
                }
            },
            AppView::Headers => {
                if idx < self.headers.things.len() {
                    self.headers.selected_index = idx;
                }
            },
            AppView::Downloads => {
                if idx < self.downloads.things.len() {
                    self.downloads.selected_index = idx;
                }
            },
            AppView::Log => {
                if idx < self.log_messages.things.len() {
                    self.log_messages.selected_index = idx;
                }
            },
        }
    }

    /// Move the projection cursor cyclically by `offset`, then write it back
    /// into the active view's backing list. Nothing happens on an empty
    /// projection.
    pub fn nav_list(&mut self, offset: i32)
        requires
            old(self).wf(),
        ensures
            final(self).wf(),
            old(self).dtlist.things@.len() == 0 ==> *final(self) == *old(self),
            old(self).dtlist.things@.len() > 0 ==> {
                &&& final(self).dtlist.things@ == old(self).dtlist.things@
                &&& final(self).dtlist.selected_index as int
                    == (old(self).dtlist.selected_index + offset) % (old(self).dtlist.things@.len() as int)
            },
            final(self).selected_view == old(self).selected_view,
            final(self).status == old(self).status,
            final(self).width == old(self).width,
            final(self).height == old(self).height,
            old(self).dtlist.things@.len() > 0 ==> cursor_written_back(*old(self), *final(self)),
    {
        if self.dtlist.things.len() == 0 {
            return;
        }
        self.dtlist.shift_index(offset);
        self.update_selected_index();
    }

    /// Replace the status line by the current selection's URL: the current
    /// feed's source URL in the Feeds view, the current episode's enclosure
    /// URL in the Episodes view, unchanged elsewhere or when the selection
    /// is empty.
    pub fn update_status(&mut self)
        requires
            old(self).wf(),
        ensures
            final(self).wf(),
            unchanged_but_status(*old(self), *final(self)),
            final(self).status.0@ == status_line(*old(self)),
    {
        match self.selected_view {
            AppView::Feeds => {
                if self.feeds.things.len() > 0 {
                    self.status = Status(self.feeds.current().url.clone());
                }
            },
            AppView::Episodes => {
                if self.feeds.things.len() > 0 {
                    let f = self.feeds.current();
                    if f.episodes.things.len() > 0 {
                        self.status = Status(f.episodes.current().enclosure.url.clone());
                    }
                }
            },
            _ => {},
        }
    }
}

/// Everything except the status line is as it was.
pub open spec fn unchanged_but_status(pre: AppState, post: AppState) -> bool {
    &&& post.feeds == pre.feeds
    &&& post.headers == pre.headers
    &&& post.downloads == pre.downloads
    &&& post.log_messages == pre.log_messages
    &&& post.dtlist == pre.dtlist
    &&& post.selected_view == pre.selected_view
    &&& post.width == pre.width
    &&& post.height == pre.height
}

/// The status text owed for a state: the current selection's URL in the
/// Feeds and Episodes views, the old status elsewhere.
pub open spec fn status_line(s: AppState) -> Seq<char> {
    match s.selected_view {
        AppView::Feeds => if s.feeds.things@.len() > 0 {
            s.feeds.things@[s.feeds.selected_index as int].url@
        } else {
            s.status.0@
        },
        AppView::Episodes => if s.feeds.things@.len() > 0
            && s.feeds.things@[s.feeds.selected_index as int].episodes.things@.len() > 0 {
            let f = s.feeds.things@[s.feeds.selected_index as int];
            f.episodes.things@[f.episodes.selected_index as int].enclosure.url@
        } else {
            s.status.0@
        },
        _ => s.status.0@,
    }
}

/// The projection cursor was copied into the active view's backing list
/// where it fits, and every other backing list is untouched.
pub open spec fn cursor_written_back(pre: AppState, post: AppState) -> bool {
    let idx = post.dtlist.selected_index;
    match post.selected_view {
        AppView::Feeds => {
            &&& post.feeds.things@ == pre.feeds.things@
            &&& post.feeds.selected_index
                == (if idx < pre.feeds.things@.len() { idx as int } else { pre.feeds.selected_index as int })
            &&& post.headers == pre.headers
            &&& post.downloads == pre.downloads
            &&& post.log_messages == pre.log_messages
        },
        AppView::Episodes => {
            &&& post.headers == pre.headers
            &&& post.downloads == pre.downloads
            &&& post.log_messages == pre.log_messages
            &&& post.feeds.selected_index == pre.feeds.selected_index
            &&& post.feeds.things@.len() == pre.feeds.things@.len()
            &&& pre.feeds.things@.len() == 0 ==> post.feeds == pre.feeds
            &&& pre.feeds.things@.len() > 0 ==> {
                let f = pre.feeds.selected_index as int;
                let cur = pre.feeds.things@[f];
                &&& forall|i: int| 0 <= i < pre.feeds.things@.len() && i != f
                    ==> #[trigger] post.feeds.things@[i] == pre.feeds.things@[i]
                &&& post.feeds.things@[f].episodes.things@ == cur.episodes.things@
                &&& post.feeds.things@[f].episodes.selected_index
                    == (if idx < cur.episodes.things@.len() { idx as int } else { cur.episodes.selected_index as int })
                &&& post.feeds.things@[f].name == cur.name
                &&& post.feeds.things@[f].folder == cur.folder
                &&& post.feeds.things@[f].save_folder == cur.save_folder
                &&& post.feeds.things@[f].url == cur.url
            }
        },
        AppView::Headers => {
            &&& post.feeds == pre.feeds
            &&& post.downloads == pre.downloads
            &&& post.log_messages == pre.log_messages
            &&& post.headers.things@ == pre.headers.things@
            &&& post.headers.selected_index
                == (if idx < pre.headers.things@.len() { idx as int } else { pre.headers.selected_index as int })
        },
        AppView::Downloads => {
            &&& post.feeds == pre.feeds
            &&& post.headers == pre.headers
            &&& post.log_messages == pre.log_messages
            &&& post.downloads.things@ == pre.downloads.things@
            &&& post.downloads.selected_index
                == (if idx < pre.downloads.things@.len() { idx as int } else { pre.downloads.selected_index as int })
        },
        AppView::Log => {
            &&& post.feeds == pre.feeds
            &&& post.headers == pre.headers
            &&& post.downloads == pre.downloads
            &&& post.log_messages.things@ == pre.log_messages.things@
            &&& post.log_messages.selected_index
                == (if idx < pre.log_messages.things@.len() { idx as int } else { pre.log_messages.selected_index as int })
        },
    }
}

} // verus!

verus! {

/// What the event loop must do after a key, besides the state change.
pub enum KeyAction {
    /// Nothing to spawn.
    Nothing,
    /// Tear down and exit.
    Quit,
    /// Probe the headers of this URL in the background.
    ProbeHeaders(String),
    /// Download this entry in the background, then send the message,
    /// whether or not the download succeeded.
    StartDownload(Download, Message),
    /// Run a batch refresh over these downloads.
    StartBatch(Vec<Download>),
}

/// A cyclic cursor move happened: the projection rows are unchanged, the
/// cursor moved by `offset` modulo the length, and was written back; view,
/// status and size are as they were.
pub open spec fn navved(pre: AppState, post: AppState, offset: int) -> bool {
    &&& pre.dtlist.things@.len() == 0 ==> post == pre
    &&& pre.dtlist.things@.len() > 0 ==> {
        &&& post.dtlist.things@ == pre.dtlist.things@
        &&& post.dtlist.selected_index as int
            == (pre.dtlist.selected_index + offset) % (pre.dtlist.things@.len() as int)
        &&& cursor_written_back(pre, post)
    }
    &&& post.selected_view == pre.selected_view
    &&& post.status == pre.status
    &&& post.width == pre.width
    &&& post.height == pre.height
}

/// The projection cursor jumped to `target` and was written back; rows,
/// view, status and size are as they were.
pub open spec fn jumped(pre: AppState, post: AppState, target: int) -> bool {
    &&& post.dtlist.things@ == pre.dtlist.things@
    &&& post.dtlist.selected_index == target
    &&& cursor_written_back(pre, post)
    &&& post.selected_view == pre.selected_view
    &&& post.status == pre.status
    &&& post.width == pre.width
    &&& post.height == pre.height
}

/// Status and terminal size are as they were.
pub open spec fn keeps_rest(pre: AppState, post: AppState) -> bool {
    &&& post.status == pre.status
    &&& post.width == pre.width
    &&& post.height == pre.height
}

/// A fresh download of an episode's enclosure, saved under the feed's
/// save folder, with no completion message of its own.
pub open spec fn episode_download_of(d: Download, e: crate::feed::Episode) -> bool {
    &&& d.url@ == e.enclosure.url@
    &&& d.path@ == e.save_path_spec()
    &&& d.downloaded_bytes == 0
    &&& d.total_bytes == 0
    &&& d.success_message is None
}

/// A fresh download of a feed's document under the configuration root, with
/// no completion message of its own.
pub open spec fn feed_download_of(d: Download, f: Feed, prefix: Seq<char>) -> bool {
    &&& d.url@ == f.url@
    &&& d.path@ == prefix + seq!['/'] + f.save_path_spec()
    &&& d.downloaded_bytes == 0
    &&& d.total_bytes == 0
    &&& d.success_message is None
}

/// A batch-refresh entry for a feed: the feed's document download, carrying
/// the per-feed reload message to emit when it succeeds.
pub open spec fn refresh_entry(d: Download, f: Feed, prefix: Seq<char>) -> bool {
    &&& d.url@ == f.url@
    &&& d.path@ == prefix + seq!['/'] + f.save_path_spec()
    &&& d.downloaded_bytes == 0
    &&& d.total_bytes == 0
    &&& d.success_message is Some
    &&& d.success_message.unwrap() is FeedDownloaded
    &&& d.success_message.unwrap()->FeedDownloaded_0@ == f.name@
}

impl AppState {
    /// Apply one decoded key: navigation moves the projection cursor and
    /// writes it back, view keys switch the projection, and the download,
    /// refresh and header keys say what to spawn. The returned flag says
    /// whether the content region must be repainted.
    pub fn handle_key(&mut self, key: KeyMap, config_path: &String) -> (r: (KeyAction, bool))
        requires
            old(self).wf(),
        ensures
            final(self).wf(),
            key is Quit ==> r.0 is Quit && *final(self) == *old(self) && r.1,
            key is Up ==> navved(*old(self), *final(self), -1) && r.0 is Nothing && r.1,
            key is Down ==> navved(*old(self), *final(self), 1) && r.0 is Nothing && r.1,
            key is Home ==> jumped(*old(self), *final(self), 0) && r.0 is Nothing && r.1,
            key is End ==> r.0 is Nothing && r.1 && (if old(self).dtlist.things@.len() == 0 {
                *final(self) == *old(self)
            } else {
                jumped(*old(self), *final(self), old(self).dtlist.things@.len() - 1)
            }),
            key is Left || key is Feeds ==> {
                &&& old(self).view_switched(*final(self), AppView::Feeds)
                &&& projects(final(self).dtlist.things@, old(self).feeds.things@)
                &&& keeps_rest(*old(self), *final(self))
                &&& r.0 is Nothing && r.1
            },
            key is Downloads ==> {
                &&& old(self).view_switched(*final(self), AppView::Downloads)
                &&& projects(final(self).dtlist.things@, old(self).downloads.things@)
                &&& keeps_rest(*old(self), *final(self))
                &&& r.0 is Nothing && r.1
            },
            key is Log ==> {
                &&& old(self).view_switched(*final(self), AppView::Log)
                &&& projects(final(self).dtlist.things@, old(self).log_messages.things@)
                &&& keeps_rest(*old(self), *final(self))
                &&& r.0 is Nothing && r.1
            },
            key is Episodes ==> r.0 is Nothing && r.1 && (if old(self).feeds.things@.len() == 0 {
                *final(self) == *old(self)
            } else {
                &&& old(self).view_switched(*final(self), AppView::Episodes)
                &&& projects(
                    final(self).dtlist.things@,
                    old(self).feeds.things@[old(self).feeds.selected_index as int].episodes.things@,
                )
                &&& keeps_rest(*old(self), *final(self))
            }),
            key is Right || key is Enter ==> r.0 is Nothing && r.1
                && (if old(self).selected_view is Feeds
                    && old(self).feeds.things@.len() > 0
                    && old(self).feeds.things@[old(self).feeds.selected_index as int]
                        .episodes.things@.len() > 0 {
                    &&& old(self).view_switched(*final(self), AppView::Episodes)
                    &&& projects(
                        final(self).dtlist.things@,
                        old(self).feeds.things@[old(self).feeds.selected_index as int].episodes.things@,
                    )
                    &&& keeps_rest(*old(self), *final(self))
                } else {
                    *final(self) == *old(self)
                }),
            key is Headers ==> r.1 && {
                &&& old(self).view_switched(*final(self), AppView::Headers)
                &&& projects(final(self).dtlist.things@, old(self).headers.things@)
                &&& keeps_rest(*old(self), *final(self))
                &&& (if old(self).selected_view is Feeds && old(self).feeds.things@.len() > 0 {
                    r.0 is ProbeHeaders && r.0->ProbeHeaders_0@
                        == old(self).feeds.things@[old(self).feeds.selected_index as int].url@
                } else if old(self).selected_view is Episodes
                    && old(self).feeds.things@.len() > 0
                    && old(self).feeds.things@[old(self).feeds.selected_index as int]
                        .episodes.things@.len() > 0 {
                    r.0 is ProbeHeaders && r.0->ProbeHeaders_0@
                        == current_episode(*old(self)).enclosure.url@
                } else {
                    r.0 is Nothing
                })
            },
            key is Download ==> r.1 && (if old(self).selected_view is Episodes
                && old(self).feeds.things@.len() > 0
                && old(self).feeds.things@[old(self).feeds.selected_index as int]
                    .episodes.things@.len() > 0 {
                &&& r.0 is StartDownload
                &&& episode_download_of(r.0->StartDownload_0, current_episode(*old(self)))
                &&& r.0->StartDownload_1 is EpisodeDownloaded
                &&& r.0->StartDownload_1->EpisodeDownloaded_0@ == current_episode(*old(self)).name@
                &&& download_appended(*old(self), *final(self), current_episode(*old(self)).save_path_spec(), current_episode(*old(self)).enclosure.url@)
            } else if old(self).selected_view is Feeds && old(self).feeds.things@.len() > 0 {
                &&& r.0 is StartDownload
                &&& feed_download_of(
                    r.0->StartDownload_0,
                    old(self).feeds.things@[old(self).feeds.selected_index as int],
                    config_path@,
                )
                &&& r.0->StartDownload_1 is FeedDownloaded
                &&& r.0->StartDownload_1->FeedDownloaded_0@
                    == old(self).feeds.things@[old(self).feeds.selected_index as int].name@
                &&& download_appended(
                    *old(self),
                    *final(self),
                    config_path@ + seq!['/'] + old(self).feeds.things@[old(self).feeds.selected_index as int].save_path_spec(),
                    old(self).feeds.things@[old(self).feeds.selected_index as int].url@,
                )
            } else {
                r.0 is Nothing && *final(self) == *old(self)
            }),
            key is Refresh ==> r.1 && r.0 is StartBatch && {
                let batch = r.0->StartBatch_0;
                &&& batch@.len() == old(self).feeds.things@.len()
                &&& forall|i: int| 0 <= i < batch@.len()
                    ==> refresh_entry(#[trigger] batch@[i], old(self).feeds.things@[i], config_path@)
                &&& final(self).downloads.things@.len()
                    == old(self).downloads.things@.len() + batch@.len()
                &&& forall|i: int| 0 <= i < old(self).downloads.things@.len()
                    ==> #[trigger] final(self).downloads.things@[i] == old(self).downloads.things@[i]
                &&& forall|i: int| 0 <= i < batch@.len()
                    ==> refresh_entry(
                        #[trigger] final(self).downloads.things@[old(self).downloads.things@.len() + i],
                        old(self).feeds.things@[i],
                        config_path@,
                    )
                &&& final(self).feeds == old(self).feeds
                &&& final(self).headers == old(self).headers
                &&& final(self).log_messages == old(self).log_messages
                &&& final(self).dtlist == old(self).dtlist
                &&& final(self).selected_view == old(self).selected_view
                &&& keeps_rest(*old(self), *final(self))
            },
            key is Resize ==> r.0 is Nothing && r.1 && {
                &&& final(self).width == key->Resize_0
                &&& final(self).height == key->Resize_1
                &&& final(self).feeds == old(self).feeds
                &&& final(self).headers == old(self).headers
                &&& final(self).downloads == old(self).downloads
                &&& final(self).log_messages == old(self).log_messages
                &&& final(self).dtlist == old(self).dtlist
                &&& final(self).selected_view == old(self).selected_view
                &&& final(self).status == old(self).status
            },
            key is PageUp || key is PageDown ==> r.0 is Nothing && !r.1 && *final(self) == *old(self),
    {
        match key {
            KeyMap::Quit => (KeyAction::Quit, true),
            KeyMap::Up => {
                self.nav_list(-1);
                (KeyAction::Nothing, true)
            },
            KeyMap::Down => {
                self.nav_list(1);
                (KeyAction::Nothing, true)
            },
            KeyMap::Home => {
                self.dtlist.selected_index = 0;
                self.update_selected_index();
                (KeyAction::Nothing, true)
            },
            KeyMap::End => {
                let len = self.dtlist.things.len();
                if len > 0 {
                    self.dtlist.selected_index = len - 1;
                    self.update_selected_index();
                }
                (KeyAction::Nothing, true)
            },
            KeyMap::Left | KeyMap::Feeds => {
                switch_view(&mut self.dtlist, &mut self.selected_view, AppView::Feeds, &self.feeds);
                (KeyAction::Nothing, true)
            },
            KeyMap::Downloads => {
                switch_view(&mut self.dtlist, &mut self.selected_view, AppView::Downloads, &self.downloads);
                (KeyAction::Nothing, true)
            },
            KeyMap::Log => {
                switch_view(&mut self.dtlist, &mut self.selected_view, AppView::Log, &self.log_messages);
                (KeyAction::Nothing, true)
            },
            KeyMap::Episodes => {
                if self.feeds.things.len() > 0 {
                    let f = self.feeds.selected_index;
                    switch_view(
                        &mut self.dtlist,
                        &mut self.selected_view,
                        AppView::Episodes,
                        &self.feeds.things[f].episodes,
                    );
                }
                (KeyAction::Nothing, true)
            },
            KeyMap::Right | KeyMap::Enter => {
                if matches!(self.selected_view, AppView::Feeds) && self.feeds.things.len() > 0 {
                    let f = self.feeds.selected_index;
                    if self.feeds.things[f].episodes.things.len() > 0 {
                        switch_view(
                            &mut self.dtlist,
                            &mut self.selected_view,
                            AppView::Episodes,
                            &self.feeds.things[f].episodes,
                        );
                    }
                }
                (KeyAction::Nothing, true)
            },
            KeyMap::Headers => {
                let action = match self.selected_view {
                    AppView::Feeds => {
                        if self.feeds.things.len() > 0 {
                            KeyAction::ProbeHeaders(self.feeds.current().url.clone())
                        } else {
                            KeyAction::Nothing
                        }
                    },
                    AppView::Episodes => {
                        if self.feeds.things.len() > 0 {
                            let f = self.feeds.current();
                            if f.episodes.things.len() > 0 {
                                KeyAction::ProbeHeaders(f.episodes.current().enclosure.url.clone())
                            } else {
                                KeyAction::Nothing
                            }
                        } else {
                            KeyAction::Nothing
                        }
                    },
                    _ => KeyAction::Nothing,
                };
                switch_view(&mut self.dtlist, &mut self.selected_view, AppView::Headers, &self.headers);
                (action, true)
            },
            KeyMap::Download => {
                match self.selected_view {
                    AppView::Episodes => {
                        if self.feeds.things.len() > 0 {
                            let f = self.feeds.selected_index;
                            if self.feeds.things[f].episodes.things.len() > 0 {
                                let e = self.feeds.things[f].episodes.selected_index;
                                let name = self.feeds.things[f].episodes.things[e].name.clone();
                                let dl = self.feeds.things[f].episodes.things[e].get_download(None);
                                let entry = self.feeds.things[f].episodes.things[e].get_download(None);
                                self.downloads.things.push(entry);
                                (KeyAction::StartDownload(dl, Message::EpisodeDownloaded(name)), true)
                            } else {
                                (KeyAction::Nothing, true)
                            }
                        } else {
                            (KeyAction::Nothing, true)
                        }
                    },
                    AppView::Feeds => {
                        if self.feeds.things.len() > 0 {
                            let f = self.feeds.selected_index;
                            let name = self.feeds.things[f].name.clone();
                            let dl = self.feeds.things[f].get_download(Some(config_path));
                            let entry = self.feeds.things[f].get_download(Some(config_path));
                            self.downloads.things.push(entry);
                            (KeyAction::StartDownload(dl, Message::FeedDownloaded(name)), true)
                        } else {
                            (KeyAction::Nothing, true)
                        }
                    },
                    _ => (KeyAction::Nothing, true),
                }
            },
            KeyMap::Refresh => {
                let mut batch: Vec<Download> = Vec::new();
                let n = self.feeds.things.len();
                let mut i: usize = 0;
                while i < n
                    invariant
                        i <= n,
                        n == self.feeds.things@.len(),
                        old(self).wf(),
                        self.feeds == old(self).feeds,
                        self.headers == old(self).headers,
                        self.log_messages == old(self).log_messages,
                        self.dtlist == old(self).dtlist,
                        self.selected_view == old(self).selected_view,
                        self.status == old(self).status,
                        self.width == old(self).width,
                        self.height == old(self).height,
                        batch@.len() == i,
                        forall|j: int| 0 <= j < i
                            ==> refresh_entry(#[trigger] batch@[j], old(self).feeds.things@[j], config_path@),
                        self.downloads.things@.len() == old(self).downloads.things@.len() + i,
                        forall|j: int| 0 <= j < old(self).downloads.things@.len()
                            ==> #[trigger] self.downloads.things@[j] == old(self).downloads.things@[j],
                        forall|j: int| 0 <= j < i
                            ==> refresh_entry(
                                #[trigger] self.downloads.things@[old(self).downloads.things@.len() + j],
                                old(self).feeds.things@[j],
                                config_path@,
                            ),
                        self.downloads.selected_index == old(self).downloads.selected_index,
                    decreases n - i,
                {
                    let name = self.feeds.things[i].name.clone();
                    let mut fd = self.feeds.things[i].get_download(Some(config_path));
                    fd.success_message = Some(Message::FeedDownloaded(name));
                    let name2 = self.feeds.things[i].name.clone();
                    let mut fd2 = self.feeds.things[i].get_download(Some(config_path));
                    fd2.success_message = Some(Message::FeedDownloaded(name2));
                    batch.push(fd);
                    self.downloads.things.push(fd2);
                    i = i + 1;
                }
                (KeyAction::StartBatch(batch), true)
            },
            KeyMap::Resize(w, h) => {
                self.width = w;
                self.height = h;
                (KeyAction::Nothing, true)
            },
            KeyMap::PageUp | KeyMap::PageDown => (KeyAction::Nothing, false),
        }
    }
}

/// The episode under the cursor of the feed under the cursor.
pub open spec fn current_episode(s: AppState) -> crate::feed::Episode
    recommends
        s.feeds.things@.len() > 0,
        s.feeds.things@[s.feeds.selected_index as int].episodes.things@.len() > 0,
{
    let f = s.feeds.things@[s.feeds.selected_index as int];
    f.episodes.things@[f.episodes.selected_index as int]
}

/// One download entry with the given path and URL was appended to the
/// downloads list; everything else is as it was.
pub open spec fn download_appended(pre: AppState, post: AppState, path: Seq<char>, url: Seq<char>) -> bool {
    &&& post.downloads.things@.len() == pre.downloads.things@.len() + 1
    &&& forall|i: int| 0 <= i < pre.downloads.things@.len()
        ==> #[trigger] post.downloads.things@[i] == pre.downloads.things@[i]
    &&& post.downloads.things@.last().url@ == url
    &&& post.downloads.things@.last().path@ == path
    &&& post.downloads.things@.last().downloaded_bytes == 0
    &&& post.downloads.things@.last().total_bytes == 0
    &&& post.downloads.things@.last().success_message is None
    &&& post.downloads.selected_index == pre.downloads.selected_index
    &&& post.feeds == pre.feeds
    &&& post.headers == pre.headers
    &&& post.log_messages == pre.log_messages
    &&& post.dtlist == pre.dtlist
    &&& post.selected_view == pre.selected_view
    &&& post.status == pre.status
    &&& post.width == pre.width
    &&& post.height == pre.height
}

} // verus!

verus! {

/// What the event loop must do after a message, besides the state change.
pub enum MsgAction {
    /// Nothing to do.
    Nothing,
    /// Reload every feed from its cached document and hand the result to
    /// [`AppState::replace_feeds`].
    ReloadAll,
    /// Reparse the cached document of the feed at this index and hand the
    /// episodes to [`AppState::apply_feed_reload`].
    ReloadFeed(usize),
    /// Recheck which of the current feed's episodes exist on disk and hand
    /// the flags to [`AppState::apply_current_feed_flags`].
    RecheckCurrentFeed,
}

/// The feed at `idx` is the first one with this name.
pub open spec fn first_feed_match(feeds: Seq<Feed>, name: Seq<char>, idx: int) -> bool {
    &&& 0 <= idx < feeds.len()
    &&& feeds[idx].name@ == name
    &&& forall|j: int| 0 <= j < idx ==> (#[trigger] feeds[j]).name@ != name
}

/// No feed has this name.
pub open spec fn no_feed_match(feeds: Seq<Feed>, name: Seq<char>) -> bool {
    forall|j: int| 0 <= j < feeds.len() ==> (#[trigger] feeds[j]).name@ != name
}

/// The download at `idx` is the first one with this URL.
pub open spec fn first_download_match(dls: Seq<Download>, url: Seq<char>, idx: int) -> bool {
    &&& 0 <= idx < dls.len()
    &&& dls[idx].url@ == url
    &&& forall|j: int| 0 <= j < idx ==> (#[trigger] dls[j]).url@ != url
}

/// No download has this URL.
pub open spec fn no_download_match(dls: Seq<Download>, url: Seq<char>) -> bool {
    forall|j: int| 0 <= j < dls.len() ==> (#[trigger] dls[j]).url@ != url
}

/// The first download entry with the given URL took the new counter; a URL
/// that matches no entry left the list exactly as it was.
pub open spec fn counter_applied(
    pre: Seq<Download>,
    post: Seq<Download>,
    url: Seq<char>,
    bytes: u64,
    is_total: bool,
) -> bool {
    if no_download_match(pre, url) {
        post == pre
    } else {
        exists|idx: int|
            {
                &&& #[trigger] first_download_match(pre, url, idx)
                &&& post.len() == pre.len()
                &&& forall|i: int| 0 <= i < pre.len() && i != idx
                    ==> #[trigger] post[i] == pre[i]
                &&& post[idx] == (if is_total {
                    Download { total_bytes: bytes, ..pre[idx] }
                } else {
                    Download { downloaded_bytes: bytes, ..pre[idx] }
                })
            }
    }
}

/// A progress or size message was applied: the first download entry with the
/// given URL took the new counter, and a message whose URL matches no entry
/// changed nothing at all.
pub open spec fn progress_applied(
    pre: AppState,
    post: AppState,
    url: Seq<char>,
    bytes: u64,
    is_total: bool,
) -> bool {
    &&& counter_applied(pre.downloads.things@, post.downloads.things@, url, bytes, is_total)
    &&& no_download_match(pre.downloads.things@, url) ==> post == pre
    &&& post.downloads.selected_index == pre.downloads.selected_index
    &&& post.feeds == pre.feeds
    &&& post.headers == pre.headers
    &&& post.log_messages == pre.log_messages
    &&& post.dtlist == pre.dtlist
    &&& post.selected_view == pre.selected_view
    &&& post.status == pre.status
    &&& post.width == pre.width
    &&& post.height == pre.height
}

/// The index of the first feed with this name, if any.
fn find_feed(feeds: &Vec<Feed>, name: &String) -> (r: Option<usize>)
    ensures
        match r {
            Some(i) => first_feed_match(feeds@, name@, i as int),
            None => no_feed_match(feeds@, name@),
        },
{
    let n = feeds.len();
    let mut i: usize = 0;
    while i < n
        invariant
            i <= n,
            n == feeds@.len(),
            forall|j: int| 0 <= j < i ==> (#[trigger] feeds@[j]).name@ != name@,
        decreases n - i,
    {
        if feeds[i].name == *name {
            return Some(i);
        }
        i = i + 1;
    }
    None
}

/// Set the given counter of the first download entry with this URL; a URL
/// that matches no entry changes nothing.
fn update_download_counter(downloads: &mut Vec<Download>, id: &String, bytes: u64, is_total: bool)
    ensures
        counter_applied(old(downloads)@, final(downloads)@, id@, bytes, is_total),
        no_download_match(old(downloads)@, id@) ==> *final(downloads) == *old(downloads),
{
    let n = downloads.len();
    let mut i: usize = 0;
    while i < n
        invariant
            i <= n,
            n == downloads@.len(),
            *downloads == *old(downloads),
            forall|j: int| 0 <= j < i ==> (#[trigger] downloads@[j]).url@ != id@,
        decreases n - i,
    {
        if downloads[i].url == *id {
            if is_total {
                downloads[i].total_bytes = bytes;
            } else {
                downloads[i].downloaded_bytes = bytes;
            }
            proof {
                assert(first_download_match(old(downloads)@, id@, i as int));
            }
            return;
        }
        i = i + 1;
    }
}

impl AppState {
    /// Apply one drained message. Progress and size messages whose URL
    /// matches no download entry are dropped without error; a reload owed
    /// to a message comes back as the action, for the loop to perform and
    /// feed into the matching apply function. The returned flag says whether
    /// the content region must be repainted; the status line is repainted
    /// after every message.
    pub fn handle_message(&mut self, msg: Message) -> (r: (MsgAction, bool))
        requires
            old(self).wf(),
        ensures
            final(self).wf(),
            msg is Notification ==> {
                &&& unchanged_but_status(*old(self), *final(self))
                &&& final(self).status.0@ == msg->Notification_0@
                &&& r.0 is Nothing && !r.1
            },
            msg is FeedUpdated ==> {
                &&& unchanged_but_status(*old(self), *final(self))
                &&& final(self).status.0@ == "Feed updated"@
                &&& r.0 is ReloadAll && !r.1
            },
            msg is FeedDownloaded ==> {
                &&& final(self).status.0@ == "Downloaded: "@ + msg->FeedDownloaded_0@
                &&& final(self).feeds == old(self).feeds
                &&& final(self).headers == old(self).headers
                &&& final(self).downloads == old(self).downloads
                &&& final(self).selected_view == old(self).selected_view
                &&& final(self).width == old(self).width
                &&& final(self).height == old(self).height
                &&& (if no_feed_match(old(self).feeds.things@, msg->FeedDownloaded_0@) {
                    &&& r.0 is Nothing
                    &&& final(self).log_messages.things@.len()
                        == old(self).log_messages.things@.len() + 1
                    &&& forall|i: int| 0 <= i < old(self).log_messages.things@.len()
                        ==> #[trigger] final(self).log_messages.things@[i]
                            == old(self).log_messages.things@[i]
                    &&& final(self).log_messages.things@.last()@
                        == "No feed matches: "@ + msg->FeedDownloaded_0@
                    &&& final(self).log_messages.selected_index
                        == old(self).log_messages.selected_index
                } else {
                    &&& r.0 is ReloadFeed
                    &&& first_feed_match(
                        old(self).feeds.things@,
                        msg->FeedDownloaded_0@,
                        r.0->ReloadFeed_0 as int,
                    )
                    &&& final(self).log_messages == old(self).log_messages
                })
                &&& (if old(self).selected_view is Feeds {
                    &&& projects(final(self).dtlist.things@, old(self).feeds.things@)
                    &&& final(self).dtlist.selected_index
                        == (if old(self).dtlist.selected_index < old(self).feeds.things@.len() {
                            old(self).dtlist.selected_index as int
                        } else {
                            0
                        })
                } else {
                    final(self).dtlist == old(self).dtlist
                })
                &&& r.1
            },
            msg is EpisodeDownloaded ==> {
                &&& unchanged_but_status(*old(self), *final(self))
                &&& final(self).status.0@ == "Downloaded: "@ + msg->EpisodeDownloaded_0@
                &&& (if old(self).feeds.things@.len() > 0 {
                    r.0 is RecheckCurrentFeed
                } else {
                    r.0 is Nothing
                })
                &&& r.1
            },
            msg is Headers ==> {
                &&& final(self).selected_view is Headers
                &&& final(self).headers.things == msg->Headers_0
                &&& final(self).headers.selected_index
                    == (if old(self).headers.selected_index < msg->Headers_0@.len() {
                        old(self).headers.selected_index as int
                    } else {
                        0
                    })
                &&& final(self).feeds == old(self).feeds
                &&& final(self).downloads == old(self).downloads
                &&& final(self).log_messages == old(self).log_messages
                &&& final(self).dtlist == old(self).dtlist
                &&& final(self).status == old(self).status
                &&& final(self).width == old(self).width
                &&& final(self).height == old(self).height
                &&& r.0 is Nothing && !r.1
            },
            msg is DownloadProgress ==> {
                &&& progress_applied(
                    *old(self),
                    *final(self),
                    msg->DownloadProgress_0@,
                    msg->DownloadProgress_1,
                    false,
                )
                &&& r.0 is Nothing && !r.1
            },
            msg is DownloadSize ==> {
                &&& progress_applied(
                    *old(self),
                    *final(self),
                    msg->DownloadSize_0@,
                    msg->DownloadSize_1,
                    true,
                )
                &&& r.0 is Nothing && !r.1
            },
            msg is LogMessage ==> {
                &&& final(self).log_messages.things@
                    == old(self).log_messages.things@.push(msg->LogMessage_0)
                &&& final(self).log_messages.selected_index
                    == old(self).log_messages.selected_index
                &&& final(self).feeds == old(self).feeds
                &&& final(self).headers == old(self).headers
                &&& final(self).downloads == old(self).downloads
                &&& final(self).dtlist == old(self).dtlist
                &&& final(self).selected_view == old(self).selected_view
                &&& final(self).status == old(self).status
                &&& final(self).width == old(self).width
                &&& final(self).height == old(self).height
                &&& r.0 is Nothing && !r.1
            },
    {
        match msg {
            Message::Notification(text) => {
                self.status = Status(text);
                (MsgAction::Nothing, false)
            },
            Message::FeedUpdated => {
                self.status = Status(String::from_str("Feed updated"));
                (MsgAction::ReloadAll, false)
            },
            Message::FeedDownloaded(feedname) => {
                let mut s = String::from_str("Downloaded: ");
                s.append(feedname.as_str());
                self.status = Status(s);
                let found = find_feed(&self.feeds.things, &feedname);
                let action = match found {
                    Some(idx) => MsgAction::ReloadFeed(idx),
                    None => {
                        let mut line = String::from_str("No feed matches: ");
                        line.append(feedname.as_str());
                        self.log_messages.things.push(line);
                        MsgAction::Nothing
                    },
                };
                if matches!(self.selected_view, AppView::Feeds) {
                    self.dtlist.things = get_things(&self.feeds.things);
                    if self.dtlist.selected_index >= self.dtlist.things.len() {
                        self.dtlist.selected_index = 0;
                    }
                }
                (action, true)
            },
            Message::EpisodeDownloaded(text) => {
                let mut s = String::from_str("Downloaded: ");
                s.append(text.as_str());
                self.status = Status(s);
                if self.feeds.things.len() > 0 {
                    (MsgAction::RecheckCurrentFeed, true)
                } else {
                    (MsgAction::Nothing, true)
                }
            },
            Message::Headers(headers_list) => {
                self.selected_view = AppView::Headers;
                self.headers.things = headers_list;
                if self.headers.selected_index >= self.headers.things.len() {
                    self.headers.selected_index = 0;
                }
                (MsgAction::Nothing, false)
            },
            Message::DownloadProgress(id, progress) => {
                update_download_counter(&mut self.downloads.things, &id, progress, false);
                (MsgAction::Nothing, false)
            },
            Message::DownloadSize(id, progress) => {
                update_download_counter(&mut self.downloads.things, &id, progress, true);
                (MsgAction::Nothing, false)
            },
            Message::LogMessage(text) => {
                self.log_messages.things.push(text);
                (MsgAction::Nothing, false)
            },
        }
    }
}

} // verus!

verus! {

/// `newf` is `oldf` with its episode list replaced by `eps`: each episode
/// carries the feed's save folder, the list is sorted when every episode has
/// a timestamp, and the episode cursor was kept where it still fits.
pub open spec fn feed_reloaded(newf: Feed, oldf: Feed, eps: Seq<crate::feed::Episode>) -> bool {
    &&& newf.name == oldf.name
    &&& newf.folder == oldf.folder
    &&& newf.save_folder == oldf.save_folder
    &&& newf.url == oldf.url
    &&& newf.episodes.things@.len() == eps.len()
    &&& newf.episodes.things@.to_multiset()
        == eps.map_values(|e: crate::feed::Episode| crate::feed::set_folder(e, oldf.save_folder)).to_multiset()
    &&& crate::feed::all_dated(eps) ==> crate::feed::sorted_desc(newf.episodes.things@)
    &&& newf.episodes.selected_index == (if oldf.episodes.selected_index < eps.len() {
        oldf.episodes.selected_index as int
    } else {
        0
    })
    &&& newf.episodes.cursor_ok()
}

impl AppState {
    /// Replace the episodes of the feed at `idx` by a freshly parsed list,
    /// as a per-feed reload does, and log the reload. The caller rechecks
    /// the downloaded flags against the filesystem right after, through
    /// [`AppState::apply_feed_flags`].
    pub fn apply_feed_reload(&mut self, idx: usize, eps: Vec<crate::feed::Episode>)
        requires
            old(self).wf(),
            idx < old(self).feeds.things@.len(),
        ensures
            final(self).wf(),
            final(self).feeds.things@.len() == old(self).feeds.things@.len(),
            forall|i: int| 0 <= i < old(self).feeds.things@.len() && i != idx
                ==> #[trigger] final(self).feeds.things@[i] == old(self).feeds.things@[i],
            feed_reloaded(
                final(self).feeds.things@[idx as int],
                old(self).feeds.things@[idx as int],
                eps@,
            ),
            final(self).feeds.selected_index == old(self).feeds.selected_index,
            final(self).log_messages.things@.len() == old(self).log_messages.things@.len() + 1,
            forall|i: int| 0 <= i < old(self).log_messages.things@.len()
                ==> #[trigger] final(self).log_messages.things@[i] == old(self).log_messages.things@[i],
            final(self).log_messages.things@.last()@
                == "Loaded RSS: "@ + old(self).feeds.things@[idx as int].name@,
            final(self).log_messages.selected_index == old(self).log_messages.selected_index,
            final(self).headers == old(self).headers,
            final(self).downloads == old(self).downloads,
            final(self).dtlist == old(self).dtlist,
            final(self).selected_view == old(self).selected_view,
            final(self).status == old(self).status,
            final(self).width == old(self).width,
            final(self).height == old(self).height,
    {
        let ghost pre_feeds = self.feeds.things@;
        let mut fd = self.feeds.things.remove(idx);
        fd.install_episodes(eps);
        let mut line = String::from_str("Loaded RSS: ");
        line.append(fd.name.as_str());
        self.feeds.things.insert(idx, fd);
        self.log_messages.things.push(line);
        proof {
            assert(forall|i: int| 0 <= i < pre_feeds.len() && i != idx
                ==> #[trigger] self.feeds.things@[i] == pre_feeds[i]) by {
                assert forall|i: int| 0 <= i < pre_feeds.len() && i != idx implies
                    #[trigger] self.feeds.things@[i] == pre_feeds[i] by {
                    if i < idx {
                        assert(self.feeds.things@[i] == pre_feeds.remove(idx as int)[i]);
                    } else {
                        assert(self.feeds.things@[i] == pre_feeds.remove(idx as int)[i - 1]);
                    }
                }
            }
        }
    }

    /// Set the downloaded flags of the feed at `idx` from the caller's
    /// filesystem observations, then refresh the projection rows when the
    /// Feeds view shows them.
    pub fn apply_feed_flags(&mut self, idx: usize, exists: Vec<bool>)
        requires
            old(self).wf(),
            idx < old(self).feeds.things@.len(),
            exists@.len() == old(self).feeds.things@[idx as int].episodes.things@.len(),
        ensures
            final(self).wf(),
            final(self).feeds.things@.len() == old(self).feeds.things@.len(),
            forall|i: int| 0 <= i < old(self).feeds.things@.len() && i != idx
                ==> #[trigger] final(self).feeds.things@[i] == old(self).feeds.things@[i],
            flags_applied(
                final(self).feeds.things@[idx as int],
                old(self).feeds.things@[idx as int],
                exists@,
            ),
            final(self).feeds.selected_index == old(self).feeds.selected_index,
            (if old(self).selected_view is Feeds {
                &&& projects(final(self).dtlist.things@, final(self).feeds.things@)
                &&& final(self).dtlist.selected_index
                    == (if old(self).dtlist.selected_index < old(self).feeds.things@.len() {
                        old(self).dtlist.selected_index as int
                    } else {
                        0
                    })
            } else {
                final(self).dtlist == old(self).dtlist
            }),
            final(self).headers == old(self).headers,
            final(self).downloads == old(self).downloads,
            final(self).log_messages == old(self).log_messages,
            final(self).selected_view == old(self).selected_view,
            final(self).status == old(self).status,
            final(self).width == old(self).width,
            final(self).height == old(self).height,
    {
        let ghost pre_feeds = self.feeds.things@;
        let mut fd = self.feeds.things.remove(idx);
        fd.check_episodes_downloaded(exists);
        self.feeds.things.insert(idx, fd);
        proof {
            assert forall|i: int| 0 <= i < pre_feeds.len() && i != idx implies
                #[trigger] self.feeds.things@[i] == pre_feeds[i] by {
                if i < idx {
                    assert(self.feeds.things@[i] == pre_feeds.remove(idx as int)[i]);
                } else {
                    assert(self.feeds.things@[i] == pre_feeds.remove(idx as int)[i - 1]);
                }
            }
        }
        if matches!(self.selected_view, AppView::Feeds) {
            self.dtlist.things = get_things(&self.feeds.things);
            if self.dtlist.selected_index >= self.dtlist.things.len() {
                self.dtlist.selected_index = 0;
            }
        }
    }

    /// Set the downloaded flags of the current feed from the caller's
    /// filesystem observations, then refresh the projection rows when the
    /// Episodes view shows them.
    pub fn apply_current_feed_flags(&mut self, exists: Vec<bool>)
        requires
            old(self).wf(),
            old(self).feeds.things@.len() > 0,
            exists@.len() == old(self).feeds.things@[old(self).feeds.selected_index as int]
                .episodes.things@.len(),
        ensures
            final(self).wf(),
            final(self).feeds.things@.len() == old(self).feeds.things@.len(),
            forall|i: int| 0 <= i < old(self).feeds.things@.len() && i != old(self).feeds.selected_index
                ==> #[trigger] final(self).feeds.things@[i] == old(self).feeds.things@[i],
            flags_applied(
                final(self).feeds.things@[old(self).feeds.selected_index as int],
                old(self).feeds.things@[old(self).feeds.selected_index as int],
                exists@,
            ),
            final(self).feeds.selected_index == old(self).feeds.selected_index,
            (if old(self).selected_view is Episodes {
                &&& projects(
                    final(self).dtlist.things@,
                    final(self).feeds.things@[old(self).feeds.selected_index as int].episodes.things@,
                )
                &&& final(self).dtlist.selected_index
                    == (if old(self).dtlist.selected_index
                        < old(self).feeds.things@[old(self).feeds.selected_index as int]
                            .episodes.things@.len() {
                        old(self).dtlist.selected_index as int
                    } else {
                        0
                    })
            } else {
                final(self).dtlist == old(self).dtlist
            }),
            final(self).headers == old(self).headers,
            final(self).downloads == old(self).downloads,
            final(self).log_messages == old(self).log_messages,
            final(self).selected_view == old(self).selected_view,
            final(self).status == old(self).status,
            final(self).width == old(self).width,
            final(self).height == old(self).height,
    {
        let ghost pre_feeds = self.feeds.things@;
        let idx = self.feeds.selected_index;
        let mut fd = self.feeds.things.remove(idx);
        fd.check_episodes_downloaded(exists);
        self.feeds.things.insert(idx, fd);
        proof {
            assert forall|i: int| 0 <= i < pre_feeds.len() && i != idx implies
                #[trigger] self.feeds.things@[i] == pre_feeds[i] by {
                if i < idx {
                    assert(self.feeds.things@[i] == pre_feeds.remove(idx as int)[i]);
                } else {
                    assert(self.feeds.things@[i] == pre_feeds.remove(idx as int)[i - 1]);
                }
            }
        }
        if matches!(self.selected_view, AppView::Episodes) {
            let f = self.feeds.selected_index;
            self.dtlist.things = get_things(&self.feeds.things[f].episodes.things);
            if self.dtlist.selected_index >= self.dtlist.things.len() {
                self.dtlist.selected_index = 0;
            }
        }
    }

    /// Replace the whole feed collection, as a full reload does. The feed
    /// cursor is kept where it still fits and reset to the top where it does
    /// not; nothing else changes, not even the projection, until the next
    /// repaint or switch.
    pub fn replace_feeds(&mut self, new_feeds: Vec<Feed>)
        requires
            old(self).wf(),
            forall|i: int| 0 <= i < new_feeds@.len()
                ==> (#[trigger] new_feeds@[i]).episodes.cursor_ok(),
        ensures
            final(self).wf(),
            final(self).feeds.things@ == new_feeds@,
            final(self).feeds.selected_index
                == (if old(self).feeds.selected_index < new_feeds@.len() {
                    old(self).feeds.selected_index as int
                } else {
                    0
                }),
            final(self).headers == old(self).headers,
            final(self).downloads == old(self).downloads,
            final(self).log_messages == old(self).log_messages,
            final(self).dtlist == old(self).dtlist,
            final(self).selected_view == old(self).selected_view,
            final(self).status == old(self).status,
            final(self).width == old(self).width,
            final(self).height == old(self).height,
    {
        let len = new_feeds.len();
        self.feeds.things = new_feeds;
        if self.feeds.selected_index >= len {
            self.feeds.selected_index = 0;
        }
    }
}

/// `newf` is `oldf` with each episode's downloaded flag set from `exists`.
pub open spec fn flags_applied(newf: Feed, oldf: Feed, exists: Seq<bool>) -> bool {
    &&& newf.name == oldf.name
    &&& newf.folder == oldf.folder
    &&& newf.save_folder == oldf.save_folder
    &&& newf.url == oldf.url
    &&& newf.episodes.things@.len() == oldf.episodes.things@.len()
    &&& forall|i: int| 0 <= i < exists.len()
        ==> #[trigger] newf.episodes.things@[i]
            == (crate::feed::Episode { downloaded: exists[i], ..oldf.episodes.things@[i] })
    &&& newf.episodes.selected_index == oldf.episodes.selected_index
}

/// Switching away from a view and back restores the projection cursor to its
/// last value in that view's backing list: a switch reads the backing cursor
/// and touches no backing list, so the second switch reads what the first
/// left alone.
pub proof fn lemma_switch_view_round_trip(
    s0: AppState,
    s1: AppState,
    s2: AppState,
    v1: AppView,
    v2: AppView,
)
    requires
        s0.view_switched(s1, v2),
        s1.view_switched(s2, v1),
    ensures
        s2.dtlist.selected_index == s0.backing_cursor(v1),
{
}

} // verus!
