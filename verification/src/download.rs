//! Downloads: the visible download entries, the per-task progress rules,
//! and the bounded fan-out of a batch refresh.

use vstd::prelude::*;
use crate::list::{Styled, StyleHint};
use crate::msg::Message;
use crate::strings::{dec_seq, u64_to_dec, spaces, pad_left, file_name_seq, file_name_of};

verus! {

/// One tracked download: its source URL, destination path, counters, and the
/// message to emit once it finishes. Entries accumulate for the whole session
/// and are identified by URL match, never by a stable id.
#[derive(Clone, Debug)]
pub struct Download {
    pub url: String,
    pub path: String,
    pub downloaded_bytes: u64,
    pub total_bytes: u64,
    pub success_message: Option<Message>,
}

/// The compact human form of a byte count: plain under a thousand, `K` under
/// a million, else `M` with one fractional digit.
pub open spec fn bytes_pretty_seq(n: int) -> Seq<char> {
    if n >= 1000000 {
        dec_seq(n / 1000000).push('.').push(crate::strings::digit_char((n % 1000000) / 100000)).push('M')
    } else if n >= 1000 {
        dec_seq(n / 1000).push('K')
    } else {
        dec_seq(n)
    }
}

/// Render a byte count in its compact human form.
pub fn bytes_pretty(byte_count: u64) -> (r: String)
    ensures
        r@ == bytes_pretty_seq(byte_count as int),
{
    if byte_count >= 1000000 {
        let mut r = u64_to_dec(byte_count / 1000000);
        r.push('.');
        let tenth: u64 = (byte_count % 1000000) / 100000;
        let c: char = if tenth == 0 { '0' }
            else if tenth == 1 { '1' }
            else if tenth == 2 { '2' }
            else if tenth == 3 { '3' }
            else if tenth == 4 { '4' }
            else if tenth == 5 { '5' }
            else if tenth == 6 { '6' }
            else if tenth == 7 { '7' }
            else if tenth == 8 { '8' }
            else { '9' };
        r.push(c);
        r.push('M');
        r
    } else if byte_count >= 1000 {
        let mut r = u64_to_dec(byte_count / 1000);
        r.push('K');
        r
    } else {
        u64_to_dec(byte_count)
    }
}

impl Styled for Download {
    open spec fn text_spec(&self) -> Seq<char> {
        bytes_pretty_seq(self.downloaded_bytes as int) + seq![' '] + file_name_seq(self.path@)
    }

    open spec fn style_spec(&self) -> StyleHint {
        StyleHint::Normal
    }

    fn render_text(&self) -> (r: String) {
        let mut r = bytes_pretty(self.downloaded_bytes);
        r.push(' ');
        let name = file_name_of(self.path.as_str());
        r.append(name.as_str());
        proof {
            assert(r@ =~= self.text_spec());
        }
        r
    }

    fn style_hint(&self) -> (r: StyleHint) {
        StyleHint::Normal
    }
}

/// An entity a download can be made from: a feed's document or an episode's
/// enclosure.
pub trait Downloadable {
    /// The characters of the remote URL.
    spec fn url_spec(&self) -> Seq<char>;

    /// The characters of the save path relative to the save root.
    spec fn save_path_spec(&self) -> Seq<char>;

    fn url(&self) -> (r: String)
        ensures
            r@ == self.url_spec(),
    ;

    fn save_path(&self) -> (r: String)
        ensures
            r@ == self.save_path_spec(),
    ;

    /// A fresh download entry for this entity, its path placed under
    /// `path_prefix` when one is given.
    fn get_download(&self, path_prefix: Option<&String>) -> (d: Download)
        ensures
            d.url@ == self.url_spec(),
            match path_prefix {
                Some(p) => d.path@ == p@ + seq!['/'] + self.save_path_spec(),
                None => d.path@ == self.save_path_spec(),
            },
            d.downloaded_bytes == 0,
            d.total_bytes == 0,
            d.success_message is None,
    {
        let sp = self.save_path();
        let path = match path_prefix {
            Some(p) => {
                let mut joined = p.clone();
                joined.push('/');
                joined.append(sp.as_str());
                proof {
                    assert(joined@ =~= p@ + seq!['/'] + self.save_path_spec());
                }
                joined
            },
            None => sp,
        };
        Download {
            url: self.url(),
            path,
            downloaded_bytes: 0,
            total_bytes: 0,
            success_message: None,
        }
    }
}

/// Saturating addition on byte counters.
pub open spec fn sat_add(a: int, b: int) -> int {
    if a + b > u64::MAX { u64::MAX as int } else { a + b }
}

/// The progress notification text: `bytes:` then the two counters, each
/// rendered compactly and left-padded to eight characters.
pub open spec fn progress_note_seq(read: int, written: int) -> Seq<char> {
    seq!['b', 'y', 't', 'e', 's', ':'] + padded8(bytes_pretty_seq(read)) + padded8(bytes_pretty_seq(written))
}

/// Left-pad to eight characters with spaces.
pub open spec fn padded8(s: Seq<char>) -> Seq<char> {
    if s.len() >= 8 { s } else { spaces(8 - s.len()) + s }
}

/// The state of one running download task: what was read from the network,
/// what was written to the file, and the message owed on completion.
pub struct DownloadTask {
    pub url: String,
    pub read_bytes: u64,
    pub written_bytes: u64,
    pub success_message: Option<Message>,
}

impl DownloadTask {
    /// Begin streaming the given download.
    pub fn begin(dl: Download) -> (t: DownloadTask)
        ensures
            t.url == dl.url,
            t.read_bytes == 0,
            t.written_bytes == 0,
            t.success_message == dl.success_message,
    {
        DownloadTask {
            url: dl.url,
            read_bytes: 0,
            written_bytes: 0,
            success_message: dl.success_message,
        }
    }

    /// Account one chunk of `len` bytes and say what to send: after a
    /// successful write, a human-readable notification and a progress
    /// message for this URL; after a failed write, nothing (the caller
    /// logs and streams on).
    pub fn on_chunk(&mut self, len: u64, write_ok: bool) -> (msgs: Vec<Message>)
        ensures
            final(self).url == old(self).url,
            final(self).success_message == old(self).success_message,
            final(self).read_bytes as int == sat_add(old(self).read_bytes as int, len as int),
            write_ok ==> final(self).written_bytes as int == sat_add(old(self).written_bytes as int, len as int),
            !write_ok ==> final(self).written_bytes == old(self).written_bytes,
            write_ok ==> {
                &&& msgs@.len() == 2
                &&& msgs@[0] is Notification
                &&& msgs@[0]->Notification_0@ == progress_note_seq(
                    final(self).read_bytes as int,
                    final(self).written_bytes as int,
                )
                &&& msgs@[1] is DownloadProgress
                &&& msgs@[1]->DownloadProgress_0@ == old(self).url@
                &&& msgs@[1]->DownloadProgress_1 == final(self).read_bytes
            },
            !write_ok ==> msgs@.len() == 0,
    {
        self.read_bytes = if len <= u64::MAX - self.read_bytes {
            self.read_bytes + len
        } else {
            u64::MAX
        };
        let mut msgs: Vec<Message> = Vec::new();
        if write_ok {
            self.written_bytes = if len <= u64::MAX - self.written_bytes {
                self.written_bytes + len
            } else {
                u64::MAX
            };
            let note = progress_note(self.read_bytes, self.written_bytes);
            msgs.push(Message::Notification(note));
            msgs.push(Message::DownloadProgress(self.url.clone(), self.read_bytes));
        }
        msgs
    }

    /// The stream is exhausted: hand back the completion message, if any.
    pub fn finish(self) -> (m: Option<Message>)
        ensures
            m == self.success_message,
    {
        self.success_message
    }
}

/// Render the progress notification for the two counters.
pub fn progress_note(read: u64, written: u64) -> (r: String)
    ensures
        r@ == progress_note_seq(read as int, written as int),
{
    let mut r = String::new();
    r.push('b');
    r.push('y');
    r.push('t');
    r.push('e');
    r.push('s');
    r.push(':');
    let a = bytes_pretty(read);
    let b = bytes_pretty(written);
    let pa = pad_left(a.as_str(), 8);
    let pb = pad_left(b.as_str(), 8);
    r.append(pa.as_str());
    r.append(pb.as_str());
    proof {
        assert(r@ =~= progress_note_seq(read as int, written as int));
    }
    r
}

} // verus!

verus! {

/// The concurrency ceiling of a batch refresh.
pub const MAX_IN_FLIGHT: usize = 8;

/// The counts that govern a batch refresh: how many downloads still wait,
/// how many run now, and whether the settling message went out already.
pub ghost struct BatchModel {
    pub pending: nat,
    pub in_flight: nat,
    pub emitted: bool,
}

/// One observable step of the batch driver.
pub enum BatchOp {
    /// The driver asked the batch what to do next.
    Poll,
    /// One in-flight download settled, successfully or not.
    TaskSettled,
}

/// Well-formedness of the counts: never more in flight than the ceiling.
pub open spec fn batch_wf(m: BatchModel) -> bool {
    m.in_flight <= MAX_IN_FLIGHT
}

/// The counts after one step.
pub open spec fn batch_step(m: BatchModel, op: BatchOp) -> BatchModel {
    match op {
        BatchOp::Poll => {
            if m.pending > 0 && m.in_flight < MAX_IN_FLIGHT {
                BatchModel { pending: (m.pending - 1) as nat, in_flight: m.in_flight + 1, emitted: m.emitted }
            } else if m.pending == 0 && m.in_flight == 0 && !m.emitted {
                BatchModel { pending: m.pending, in_flight: m.in_flight, emitted: true }
            } else {
                m
            }
        },
        BatchOp::TaskSettled => {
            if m.in_flight > 0 {
                BatchModel { pending: m.pending, in_flight: (m.in_flight - 1) as nat, emitted: m.emitted }
            } else {
                m
            }
        },
    }
}

/// Whether one step emits the settling message.
pub open spec fn batch_emits(m: BatchModel, op: BatchOp) -> bool {
    op is Poll && m.pending == 0 && m.in_flight == 0 && !m.emitted
}

/// The counts after a whole sequence of steps.
pub open spec fn batch_run(m: BatchModel, ops: Seq<BatchOp>) -> BatchModel
    decreases ops.len(),
{
    if ops.len() == 0 {
        m
    } else {
        batch_step(batch_run(m, ops.drop_last()), ops.last())
    }
}

/// How many settling messages a whole sequence of steps emits.
pub open spec fn batch_emit_count(m: BatchModel, ops: Seq<BatchOp>) -> nat
    decreases ops.len(),
{
    if ops.len() == 0 {
        0
    } else {
        batch_emit_count(m, ops.drop_last())
            + (if batch_emits(batch_run(m, ops.drop_last()), ops.last()) { 1 as nat } else { 0 as nat })
    }
}

/// A batch refresh never runs more downloads at once than the ceiling, and it
/// emits the settling message exactly once: over any sequence of steps from
/// well-formed counts, every intermediate state stays under the ceiling (each
/// such state is `batch_run` of a prefix), at most one step emits, and once
/// the message went out the state remembers it, so a settled batch that is
/// polled has emitted exactly once.
pub proof fn lemma_batch_refresh(m: BatchModel, ops: Seq<BatchOp>)
    requires
        batch_wf(m),
    ensures
        batch_wf(batch_run(m, ops)),
        batch_emit_count(m, ops) + (if m.emitted { 1 as nat } else { 0 as nat }) <= 1,
        batch_run(m, ops).emitted <==> (m.emitted || batch_emit_count(m, ops) == 1),
    decreases ops.len(),
{
    if ops.len() > 0 {
        lemma_batch_refresh(m, ops.drop_last());
    }
}

/// A batch refresh: the downloads not yet started, the number in flight, and
/// whether the settling message went out.
pub struct BatchRefresh {
    pub pending: Vec<Download>,
    pub in_flight: usize,
    pub emitted: bool,
}

/// What the driver must do next for a batch.
pub enum BatchAction {
    /// Start this download now.
    Start(Download),
    /// Wait for an in-flight download to settle.
    Wait,
    /// Send this message: the batch has settled.
    Emit(Message),
    /// Everything settled and the message went out.
    Finished,
}

impl BatchRefresh {
    /// The counts of this batch.
    pub open spec fn model(&self) -> BatchModel {
        BatchModel {
            pending: self.pending@.len(),
            in_flight: self.in_flight as nat,
            emitted: self.emitted,
        }
    }

    /// A fresh batch over the given downloads, none started yet.
    pub fn new(downloads: Vec<Download>) -> (r: BatchRefresh)
        ensures
            r.pending@ == downloads@,
            r.in_flight == 0,
            !r.emitted,
            batch_wf(r.model()),
    {
        BatchRefresh { pending: downloads, in_flight: 0, emitted: false }
    }

    /// Decide the next action: start the first waiting download while under
    /// the ceiling; once everything settled, emit the settling message, and
    /// only once; otherwise wait.
    pub fn next_action(&mut self) -> (a: BatchAction)
        requires
            batch_wf(old(self).model()),
        ensures
            batch_wf(final(self).model()),
            final(self).model() == batch_step(old(self).model(), BatchOp::Poll),
            old(self).pending@.len() > 0 && old(self).in_flight < MAX_IN_FLIGHT ==> {
                &&& a == BatchAction::Start(old(self).pending@[0])
                &&& final(self).pending@ == old(self).pending@.skip(1)
                &&& final(self).in_flight == old(self).in_flight + 1
            },
            !(old(self).pending@.len() > 0 && old(self).in_flight < MAX_IN_FLIGHT) ==> {
                &&& final(self).pending@ == old(self).pending@
                &&& final(self).in_flight == old(self).in_flight
            },
            a is Emit <==> batch_emits(old(self).model(), BatchOp::Poll),
            a is Emit ==> a->Emit_0 == Message::FeedUpdated && final(self).emitted,
            a is Start <==> old(self).pending@.len() > 0 && old(self).in_flight < MAX_IN_FLIGHT,
            a is Finished <==> old(self).pending@.len() == 0 && old(self).in_flight == 0 && old(self).emitted,
            final(self).emitted == (old(self).emitted || a is Emit),
    {
        if self.pending.len() > 0 && self.in_flight < MAX_IN_FLIGHT {
            let d = self.pending.remove(0);
            self.in_flight = self.in_flight + 1;
            proof {
                assert(final(self).pending@ =~= old(self).pending@.skip(1));
            }
            BatchAction::Start(d)
        } else if self.pending.len() == 0 && self.in_flight == 0 && !self.emitted {
            self.emitted = true;
            BatchAction::Emit(Message::FeedUpdated)
        } else if self.pending.len() == 0 && self.in_flight == 0 {
            BatchAction::Finished
        } else {
            BatchAction::Wait
        }
    }

    /// One in-flight download settled, successfully or not.
    pub fn task_settled(&mut self)
        requires
            batch_wf(old(self).model()),
            old(self).in_flight > 0,
        ensures
            batch_wf(final(self).model()),
            final(self).model() == batch_step(old(self).model(), BatchOp::TaskSettled),
            final(self).pending@ == old(self).pending@,
            final(self).in_flight == old(self).in_flight - 1,
            final(self).emitted == old(self).emitted,
    {
        self.in_flight = self.in_flight - 1;
    }
}

} // verus!
