use std::cmp::Ordering;

use homily::download::Downloadable;
use homily::feed::{compare_episodes, prepare_feed_document, sort_episodes, Enclosure, Episode, Feed};
use homily::list::{Styled, StyleHint, ThingList};

fn episode(name: &str, date: Option<i64>) -> Episode {
    Episode {
        name: String::from(name),
        pub_date: date,
        pub_date_text: match date {
            Some(d) => format!("t{}", d),
            None => String::new(),
        },
        enclosure: Enclosure { url: format!("http://example.com/{}.mp3", name) },
        downloaded: false,
        feed_save_folder: String::from("saved"),
    }
}

fn feed(name: &str, folder: &str) -> Feed {
    Feed {
        name: String::from(name),
        folder: String::from(folder),
        save_folder: String::from("media"),
        url: format!("http://example.com/{}.rss", folder),
        episodes: ThingList { things: vec![], selected_index: 0 },
    }
}

#[test]
fn filename_replaces_path_separator() {
    // an episode titled "A/B" is saved under "A_B.mp3"
    let e = episode("A/B", Some(10));
    assert_eq!(e.filename(), "A_B.mp3");
}

#[test]
fn filename_plain_title() {
    let e = episode("Morning News", None);
    assert_eq!(e.filename(), "Morning News.mp3");
}

#[test]
fn episode_save_path_joins_save_folder() {
    let e = episode("show", Some(1));
    assert_eq!(e.save_path(), "saved/show.mp3");
    assert_eq!(e.url(), "http://example.com/show.mp3");
}

#[test]
fn feed_save_path_is_folder_rss() {
    let f = feed("News", "news");
    assert_eq!(f.save_path(), "news.rss");
    assert_eq!(f.url(), "http://example.com/news.rss");
}

#[test]
fn episode_ordering_both_dated_later_first() {
    // both episodes carry timestamps: the later one sorts first
    let early = episode("early", Some(100));
    let late = episode("late", Some(200));
    assert_eq!(compare_episodes(&late, &early), Ordering::Less);
    assert_eq!(compare_episodes(&early, &late), Ordering::Greater);
    assert_eq!(compare_episodes(&early, &early), Ordering::Equal);
}

#[test]
fn episode_ordering_missing_date_left_is_greater() {
    // the documented asymmetric tie-break: with either timestamp missing the
    // left operand is always the greater one, whichever side it stands on
    let dated = episode("dated", Some(100));
    let undated = episode("undated", None);
    assert_eq!(compare_episodes(&undated, &dated), Ordering::Greater);
    assert_eq!(compare_episodes(&dated, &undated), Ordering::Greater);
    assert_eq!(compare_episodes(&undated, &undated), Ordering::Greater);
}

#[test]
fn sort_episodes_descending_when_all_dated() {
    let mut v = vec![
        episode("b", Some(20)),
        episode("d", Some(40)),
        episode("a", Some(10)),
        episode("c", Some(30)),
    ];
    sort_episodes(&mut v);
    let dates: Vec<i64> = v.iter().map(|e| e.pub_date.unwrap()).collect();
    assert_eq!(dates, vec![40, 30, 20, 10]);
}

#[test]
fn sort_episodes_keeps_all_episodes() {
    let mut v = vec![episode("a", Some(1)), episode("n", None), episode("b", Some(2))];
    sort_episodes(&mut v);
    assert_eq!(v.len(), 3);
    let mut names: Vec<String> = v.iter().map(|e| e.name.clone()).collect();
    names.sort();
    assert_eq!(names, vec!["a", "b", "n"]);
}

#[test]
fn check_episodes_downloaded_sets_flags() {
    let mut f = feed("News", "news");
    f.episodes.things = vec![episode("a", Some(1)), episode("b", Some(2))];
    f.check_episodes_downloaded(vec![true, false]);
    assert!(f.episodes.things[0].downloaded);
    assert!(!f.episodes.things[1].downloaded);
}

#[test]
fn install_episodes_sorts_and_sets_save_folder() {
    let mut f = feed("News", "news");
    let eps = vec![episode("old", Some(10)), episode("new", Some(20))];
    f.install_episodes(eps);
    assert_eq!(f.episodes.things.len(), 2);
    assert_eq!(f.episodes.things[0].name, "new");
    assert_eq!(f.episodes.things[1].name, "old");
    assert_eq!(f.episodes.things[0].feed_save_folder, "media");
    assert_eq!(f.episodes.selected_index, 0);
}

#[test]
fn install_episodes_resets_out_of_range_cursor() {
    let mut f = feed("News", "news");
    f.episodes.things = vec![episode("a", Some(1)), episode("b", Some(2)), episode("c", Some(3))];
    f.episodes.selected_index = 2;
    f.install_episodes(vec![episode("only", Some(9))]);
    assert_eq!(f.episodes.selected_index, 0);
}

#[test]
fn feed_render_text_shows_name_and_folder() {
    let f = feed("Morning News", "news");
    assert_eq!(f.render_text(), "Morning News (news)");
}

#[test]
fn episode_render_text_shows_date_or_placeholder() {
    let dated = episode("show", Some(5));
    assert_eq!(dated.render_text(), "show t5");
    let undated = episode("show", None);
    assert_eq!(undated.render_text(), "show date unknown");
}

#[test]
fn episode_style_emphasized_when_downloaded() {
    let mut e = episode("show", Some(1));
    assert_eq!(e.style_hint(), StyleHint::Normal);
    e.downloaded = true;
    assert_eq!(e.style_hint(), StyleHint::Emphasized);
}

#[test]
fn feed_style_emphasized_for_fresh_first_episode() {
    let mut f = feed("News", "news");
    f.episodes.things = vec![episode("Big Interview", Some(1))];
    assert_eq!(f.style_hint(), StyleHint::Emphasized);
}

#[test]
fn feed_style_normal_for_teaser_first_episode() {
    // the teaser check runs on the lowercased title, so an upper-case
    // "TEASER" counts too
    let mut f = feed("News", "news");
    f.episodes.things = vec![episode("TEASER: next week", Some(1))];
    assert_eq!(f.style_hint(), StyleHint::Normal);
}

#[test]
fn feed_style_normal_for_downloaded_first_episode() {
    let mut f = feed("News", "news");
    let mut e = episode("Big Interview", Some(1));
    e.downloaded = true;
    f.episodes.things = vec![e];
    assert_eq!(f.style_hint(), StyleHint::Normal);
}

#[test]
fn feed_style_normal_when_empty() {
    let f = feed("News", "news");
    assert_eq!(f.style_hint(), StyleHint::Normal);
}

#[test]
fn prepare_feed_document_rewrites_title_tag_and_ampersands() {
    let doc = "<itunes:title>News & Views</itunes:title>";
    assert_eq!(prepare_feed_document(doc), "<itunes-title>News &amp; Views</itunes-title>");
}

#[test]
fn get_download_uses_prefix_for_feed() {
    let f = feed("News", "news");
    let d = f.get_download(Some(&String::from("/home/user/.config")));
    assert_eq!(d.url, "http://example.com/news.rss");
    assert_eq!(d.path, "/home/user/.config/news.rss");
    assert_eq!(d.downloaded_bytes, 0);
    assert_eq!(d.total_bytes, 0);
    assert!(d.success_message.is_none());
}

#[test]
fn get_download_without_prefix_for_episode() {
    let e = episode("show", Some(1));
    let d = e.get_download(None);
    assert_eq!(d.url, "http://example.com/show.mp3");
    assert_eq!(d.path, "saved/show.mp3");
}
