//! The message protocol: every event a background task can send to the loop.

use vstd::prelude::*;
use crate::list::{Styled, StyleHint};

verus! {

/// One response header, shown as a name/value row.
#[derive(Clone, Debug)]
pub struct Header {
    pub name: String,
    pub url: String,
}

impl Styled for Header {
    open spec fn text_spec(&self) -> Seq<char> {
        self.name@ + seq![':', ' '] + self.url@
    }

    open spec fn style_spec(&self) -> StyleHint {
        StyleHint::Normal
    }

    fn render_text(&self) -> (r: String) {
        let mut r = self.name.clone();
        r.append(": ");
        r.append(self.url.as_str());
        proof {
            reveal_strlit(": ");
            assert(r@ =~= self.text_spec());
        }
        r
    }

    fn style_hint(&self) -> (r: StyleHint) {
        StyleHint::Normal
    }
}

/// An event sent from a background task to the event loop; immutable once
/// constructed, ownership moves to the channel on send.
#[derive(Clone, Debug)]
pub enum Message {
    /// Replace the status line.
    Notification(String),
    /// Append a line to the rolling log.
    LogMessage(String),
    /// A batch refresh settled: reload every feed.
    FeedUpdated,
    /// One feed's document finished downloading: reload that feed.
    FeedDownloaded(String),
    /// One episode finished downloading: recheck its feed's flags.
    EpisodeDownloaded(String),
    /// Bytes read so far for the download with the given URL.
    DownloadProgress(String, u64),
    /// Total size learned for the download with the given URL.
    DownloadSize(String, u64),
    /// A header probe succeeded with this header set.
    Headers(Vec<Header>),
}

} // verus!
