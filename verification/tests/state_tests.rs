use homily::download::Download;
use homily::feed::{Enclosure, Episode, Feed};
use homily::keymap::KeyMap;
use homily::list::{Status, Thing, ThingList};
use homily::msg::{Header, Message};
use homily::state::{AppState, AppView, KeyAction, MsgAction};

fn episode(name: &str, date: Option<i64>) -> Episode {
    Episode {
        name: String::from(name),
        pub_date: date,
        pub_date_text: String::from("today"),
        enclosure: Enclosure { url: format!("http://example.com/{}.mp3", name) },
        downloaded: false,
        feed_save_folder: String::from("media"),
    }
}

fn feed_with(name: &str, folder: &str, episodes: Vec<Episode>) -> Feed {
    Feed {
        name: String::from(name),
        folder: String::from(folder),
        save_folder: String::from("media"),
        url: format!("http://example.com/{}.rss", folder),
        episodes: ThingList { things: episodes, selected_index: 0 },
    }
}

fn state_with_feeds(feeds: Vec<Feed>) -> AppState {
    let rows: Vec<Thing> = homily::list::get_things(&feeds);
    AppState {
        feeds: ThingList { things: feeds, selected_index: 0 },
        headers: ThingList { things: vec![], selected_index: 0 },
        downloads: ThingList { things: vec![], selected_index: 0 },
        log_messages: ThingList { things: vec![], selected_index: 0 },
        dtlist: ThingList { things: rows, selected_index: 0 },
        selected_view: AppView::Feeds,
        status: Status(String::new()),
        width: 80,
        height: 24,
    }
}

fn three_feeds() -> AppState {
    state_with_feeds(vec![
        feed_with("One", "one", vec![episode("a", Some(1))]),
        feed_with("Two", "two", vec![episode("b", Some(2))]),
        feed_with("Three", "three", vec![]),
    ])
}

fn config() -> String {
    String::from("/home/user/.homily")
}

#[test]
fn end_then_home_moves_cursor_from_last_to_first() {
    // three feeds loaded: End takes the cursor to 2, Home back to 0
    let mut s = three_feeds();
    s.handle_key(KeyMap::End, &config());
    assert_eq!(s.dtlist.selected_index, 2);
    assert_eq!(s.feeds.selected_index, 2);
    s.handle_key(KeyMap::Home, &config());
    assert_eq!(s.dtlist.selected_index, 0);
    assert_eq!(s.feeds.selected_index, 0);
}

#[test]
fn up_and_down_wrap_cyclically() {
    let mut s = three_feeds();
    s.handle_key(KeyMap::Up, &config());
    assert_eq!(s.dtlist.selected_index, 2);
    s.handle_key(KeyMap::Down, &config());
    assert_eq!(s.dtlist.selected_index, 0);
    s.handle_key(KeyMap::Down, &config());
    assert_eq!(s.dtlist.selected_index, 1);
}

#[test]
fn enter_on_feed_without_episodes_stays_in_feeds() {
    // the third feed has no episodes: Enter must not drill in
    let mut s = three_feeds();
    s.handle_key(KeyMap::End, &config());
    assert!(matches!(s.selected_view, AppView::Feeds));
    s.handle_key(KeyMap::Enter, &config());
    assert!(matches!(s.selected_view, AppView::Feeds));
    assert_eq!(s.dtlist.selected_index, 2);
}

#[test]
fn enter_on_feed_with_episodes_drills_in() {
    let mut s = three_feeds();
    s.handle_key(KeyMap::Enter, &config());
    assert!(matches!(s.selected_view, AppView::Episodes));
    assert_eq!(s.dtlist.things.len(), 1);
}

#[test]
fn switching_away_and_back_restores_cursor() {
    // the feed cursor survives a round trip through another view
    let mut s = three_feeds();
    s.handle_key(KeyMap::Down, &config());
    assert_eq!(s.feeds.selected_index, 1);
    s.handle_key(KeyMap::Log, &config());
    assert!(matches!(s.selected_view, AppView::Log));
    s.handle_key(KeyMap::Feeds, &config());
    assert!(matches!(s.selected_view, AppView::Feeds));
    assert_eq!(s.dtlist.selected_index, 1);
}

#[test]
fn headers_key_probes_current_feed_and_switches() {
    let mut s = three_feeds();
    let (action, _) = s.handle_key(KeyMap::Headers, &config());
    match action {
        KeyAction::ProbeHeaders(url) => assert_eq!(url, "http://example.com/one.rss"),
        _ => panic!("expected a header probe"),
    }
    assert!(matches!(s.selected_view, AppView::Headers));
    assert_eq!(s.dtlist.things.len(), 0);
}

#[test]
fn headers_key_in_downloads_view_probes_nothing() {
    let mut s = three_feeds();
    s.handle_key(KeyMap::Downloads, &config());
    let (action, _) = s.handle_key(KeyMap::Headers, &config());
    assert!(matches!(action, KeyAction::Nothing));
    assert!(matches!(s.selected_view, AppView::Headers));
}

#[test]
fn download_key_in_feeds_view_starts_feed_download() {
    let mut s = three_feeds();
    let (action, _) = s.handle_key(KeyMap::Download, &config());
    match action {
        KeyAction::StartDownload(dl, msg) => {
            assert_eq!(dl.url, "http://example.com/one.rss");
            assert_eq!(dl.path, "/home/user/.homily/one.rss");
            assert!(dl.success_message.is_none());
            match msg {
                Message::FeedDownloaded(name) => assert_eq!(name, "One"),
                other => panic!("expected a feed completion message, got {:?}", other),
            }
        },
        _ => panic!("expected a download to start"),
    }
    assert_eq!(s.downloads.things.len(), 1);
    assert_eq!(s.downloads.things[0].url, "http://example.com/one.rss");
}

#[test]
fn download_key_in_episodes_view_starts_episode_download() {
    let mut s = three_feeds();
    s.handle_key(KeyMap::Enter, &config());
    let (action, _) = s.handle_key(KeyMap::Download, &config());
    match action {
        KeyAction::StartDownload(dl, msg) => {
            assert_eq!(dl.url, "http://example.com/a.mp3");
            assert_eq!(dl.path, "media/a.mp3");
            match msg {
                Message::EpisodeDownloaded(name) => assert_eq!(name, "a"),
                other => panic!("expected an episode completion message, got {:?}", other),
            }
        },
        _ => panic!("expected a download to start"),
    }
    assert_eq!(s.downloads.things.len(), 1);
}

#[test]
fn download_key_in_log_view_does_nothing() {
    let mut s = three_feeds();
    s.handle_key(KeyMap::Log, &config());
    let (action, _) = s.handle_key(KeyMap::Download, &config());
    assert!(matches!(action, KeyAction::Nothing));
    assert_eq!(s.downloads.things.len(), 0);
}

#[test]
fn refresh_key_builds_one_download_per_feed() {
    let mut s = three_feeds();
    let (action, _) = s.handle_key(KeyMap::Refresh, &config());
    match action {
        KeyAction::StartBatch(batch) => {
            assert_eq!(batch.len(), 3);
            assert_eq!(batch[0].url, "http://example.com/one.rss");
            assert_eq!(batch[0].path, "/home/user/.homily/one.rss");
            match &batch[0].success_message {
                Some(Message::FeedDownloaded(name)) => assert_eq!(name, "One"),
                other => panic!("expected a per-feed completion message, got {:?}", other),
            }
            assert_eq!(batch[2].url, "http://example.com/three.rss");
        },
        _ => panic!("expected a batch refresh"),
    }
    assert_eq!(s.downloads.things.len(), 3);
}

#[test]
fn quit_and_resize_keys() {
    let mut s = three_feeds();
    let (action, _) = s.handle_key(KeyMap::Quit, &config());
    assert!(matches!(action, KeyAction::Quit));
    s.handle_key(KeyMap::Resize(100, 40), &config());
    assert_eq!(s.width, 100);
    assert_eq!(s.height, 40);
}

#[test]
fn page_keys_do_nothing() {
    let mut s = three_feeds();
    let (action, redraw) = s.handle_key(KeyMap::PageUp, &config());
    assert!(matches!(action, KeyAction::Nothing));
    assert!(!redraw);
    assert_eq!(s.dtlist.selected_index, 0);
}

#[test]
fn update_status_shows_current_feed_url() {
    let mut s = three_feeds();
    s.update_status();
    assert_eq!(s.status.0, "http://example.com/one.rss");
    s.handle_key(KeyMap::Enter, &config());
    s.update_status();
    assert_eq!(s.status.0, "http://example.com/a.mp3");
}

#[test]
fn notification_replaces_status() {
    let mut s = three_feeds();
    let (action, _) = s.handle_message(Message::Notification(String::from("hello")));
    assert!(matches!(action, MsgAction::Nothing));
    assert_eq!(s.status.0, "hello");
}

#[test]
fn feed_updated_message_requests_full_reload() {
    let mut s = three_feeds();
    let (action, _) = s.handle_message(Message::FeedUpdated);
    assert!(matches!(action, MsgAction::ReloadAll));
    assert_eq!(s.status.0, "Feed updated");
}

#[test]
fn feed_downloaded_message_finds_feed_by_name() {
    let mut s = three_feeds();
    let (action, _) = s.handle_message(Message::FeedDownloaded(String::from("Two")));
    match action {
        MsgAction::ReloadFeed(idx) => assert_eq!(idx, 1),
        _ => panic!("expected a per-feed reload"),
    }
    assert_eq!(s.status.0, "Downloaded: Two");
}

#[test]
fn feed_downloaded_message_with_unknown_name_only_logs() {
    let mut s = three_feeds();
    let (action, _) = s.handle_message(Message::FeedDownloaded(String::from("Nobody")));
    assert!(matches!(action, MsgAction::Nothing));
    assert_eq!(s.log_messages.things.len(), 1);
    assert_eq!(s.log_messages.things[0], "No feed matches: Nobody");
}

#[test]
fn episode_downloaded_message_requests_recheck() {
    let mut s = three_feeds();
    let (action, _) = s.handle_message(Message::EpisodeDownloaded(String::from("a")));
    assert!(matches!(action, MsgAction::RecheckCurrentFeed));
    assert_eq!(s.status.0, "Downloaded: a");
}

#[test]
fn headers_message_switches_view_and_replaces_list() {
    let mut s = three_feeds();
    let headers = vec![
        Header { name: String::from("content-type"), url: String::from("audio/mpeg") },
        Header { name: String::from("content-length"), url: String::from("2048") },
    ];
    s.handle_message(Message::Headers(headers));
    assert!(matches!(s.selected_view, AppView::Headers));
    assert_eq!(s.headers.things.len(), 2);
    assert_eq!(s.headers.things[0].name, "content-type");
}

#[test]
fn failed_probe_leaves_view_and_headers_alone() {
    // a failed header probe sends only a log line: the view must not switch
    // to Headers and the header list must not change
    let mut s = three_feeds();
    let (action, _) = s.handle_message(Message::LogMessage(String::from("Couldn't get headers")));
    assert!(matches!(action, MsgAction::Nothing));
    assert!(matches!(s.selected_view, AppView::Feeds));
    assert_eq!(s.headers.things.len(), 0);
    assert_eq!(s.log_messages.things.len(), 1);
    assert_eq!(s.log_messages.things[0], "Couldn't get headers");
}

#[test]
fn progress_message_updates_matching_download() {
    let mut s = three_feeds();
    s.downloads.things.push(Download {
        url: String::from("http://example.com/a.mp3"),
        path: String::from("media/a.mp3"),
        downloaded_bytes: 0,
        total_bytes: 0,
        success_message: None,
    });
    s.handle_message(Message::DownloadProgress(String::from("http://example.com/a.mp3"), 512));
    assert_eq!(s.downloads.things[0].downloaded_bytes, 512);
    s.handle_message(Message::DownloadSize(String::from("http://example.com/a.mp3"), 2048));
    assert_eq!(s.downloads.things[0].total_bytes, 2048);
}

#[test]
fn progress_message_with_unknown_url_is_dropped() {
    // a progress or size message whose URL matches no entry changes nothing
    let mut s = three_feeds();
    s.downloads.things.push(Download {
        url: String::from("http://example.com/a.mp3"),
        path: String::from("media/a.mp3"),
        downloaded_bytes: 7,
        total_bytes: 9,
        success_message: None,
    });
    s.handle_message(Message::DownloadProgress(String::from("http://nowhere"), 512));
    s.handle_message(Message::DownloadSize(String::from("http://nowhere"), 512));
    assert_eq!(s.downloads.things[0].downloaded_bytes, 7);
    assert_eq!(s.downloads.things[0].total_bytes, 9);
    assert_eq!(s.downloads.things.len(), 1);
}

#[test]
fn progress_message_updates_first_match_only() {
    // two simultaneous downloads of one URL share the visible entry
    let mut s = three_feeds();
    for _ in 0..2 {
        s.downloads.things.push(Download {
            url: String::from("http://example.com/a.mp3"),
            path: String::from("media/a.mp3"),
            downloaded_bytes: 0,
            total_bytes: 0,
            success_message: None,
        });
    }
    s.handle_message(Message::DownloadProgress(String::from("http://example.com/a.mp3"), 99));
    assert_eq!(s.downloads.things[0].downloaded_bytes, 99);
    assert_eq!(s.downloads.things[1].downloaded_bytes, 0);
}

#[test]
fn log_message_appends_to_log_list() {
    let mut s = three_feeds();
    s.handle_message(Message::LogMessage(String::from("first")));
    s.handle_message(Message::LogMessage(String::from("second")));
    assert_eq!(s.log_messages.things, vec!["first", "second"]);
}

#[test]
fn apply_feed_reload_replaces_episodes_and_logs() {
    let mut s = three_feeds();
    s.apply_feed_reload(0, vec![episode("x", Some(10)), episode("y", Some(20))]);
    assert_eq!(s.feeds.things[0].episodes.things.len(), 2);
    assert_eq!(s.feeds.things[0].episodes.things[0].name, "y");
    assert_eq!(s.feeds.things[0].episodes.things[0].feed_save_folder, "media");
    assert_eq!(s.log_messages.things, vec!["Loaded RSS: One"]);
    assert_eq!(s.feeds.things[1].name, "Two");
}

#[test]
fn apply_feed_flags_marks_episodes_and_repaints_feeds() {
    let mut s = three_feeds();
    s.apply_feed_flags(0, vec![true]);
    assert!(s.feeds.things[0].episodes.things[0].downloaded);
    assert_eq!(s.dtlist.things.len(), 3);
}

#[test]
fn apply_current_feed_flags_in_episodes_view() {
    let mut s = three_feeds();
    s.handle_key(KeyMap::Enter, &String::from("/cfg"));
    s.apply_current_feed_flags(vec![true]);
    assert!(s.feeds.things[0].episodes.things[0].downloaded);
    assert_eq!(s.dtlist.things.len(), 1);
}

#[test]
fn replace_feeds_swaps_collection_and_clamps_cursor() {
    let mut s = three_feeds();
    s.handle_key(KeyMap::End, &config());
    assert_eq!(s.feeds.selected_index, 2);
    s.replace_feeds(vec![feed_with("Only", "only", vec![])]);
    assert_eq!(s.feeds.things.len(), 1);
    assert_eq!(s.feeds.selected_index, 0);
    assert_eq!(s.feeds.things[0].name, "Only");
}

#[test]
fn default_view_is_feeds() {
    let v: AppView = Default::default();
    assert!(matches!(v, AppView::Feeds));
}

#[test]
fn episode_cursor_survives_round_trip() {
    // the episode cursor is written back on navigation and read again when
    // the view is re-entered
    let mut s = state_with_feeds(vec![feed_with(
        "One",
        "one",
        vec![episode("a", Some(3)), episode("b", Some(2)), episode("c", Some(1))],
    )]);
    s.handle_key(KeyMap::Enter, &config());
    s.handle_key(KeyMap::Down, &config());
    assert_eq!(s.dtlist.selected_index, 1);
    assert_eq!(s.feeds.things[0].episodes.selected_index, 1);
    s.handle_key(KeyMap::Downloads, &config());
    assert_eq!(s.dtlist.selected_index, 0);
    s.handle_key(KeyMap::Episodes, &config());
    assert!(matches!(s.selected_view, AppView::Episodes));
    assert_eq!(s.dtlist.selected_index, 1);
}

#[test]
fn navigation_on_empty_view_does_nothing() {
    let mut s = three_feeds();
    s.handle_key(KeyMap::Downloads, &config());
    assert_eq!(s.dtlist.things.len(), 0);
    s.handle_key(KeyMap::Up, &config());
    s.handle_key(KeyMap::Down, &config());
    s.handle_key(KeyMap::End, &config());
    assert_eq!(s.dtlist.selected_index, 0);
    assert!(matches!(s.selected_view, AppView::Downloads));
}
