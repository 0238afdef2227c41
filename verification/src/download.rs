//! The download manager: the registry of running downloads and the state
//! every transfer attempt steps through.
//!
//! A download is started once and then driven chunk by chunk: the
//! embedding application receives bytes from the network, appends them to
//! the partial file on disk, and reports each chunk here through
//! [`DownloadManager::on_chunk`], which checks the pause flag, advances
//! the byte counter and decides whether a progress event is due. Pause,
//! resume, cancel and the snapshot for the downloads view all act on the
//! same registry, so every reader sees one consistent state.

use vstd::prelude::*;
use vstd::string::StringExecFns;
use crate::errors::LauncherError;
use crate::progress::{
    eta_of,
    eta_seconds,
    percent,
    percent_of,
    may_emit_progress,
    speed_bytes_per_sec,
    speed_of,
    throttle_allows,
};

verus! {

/// What a caller supplies to start a download.
pub struct DownloadRequest {
    pub download_id: String,
    pub game_id: String,
    pub game_name: String,
    pub game_cover: Option<String>,
    pub download_url: String,
    pub version: Option<String>,
}

/// One registered download: its identity, and the mutable state its
/// transfer attempts and the manager-facing operations share.
pub struct DownloadRecord {
    pub id: String,
    pub game_id: String,
    pub game_name: String,
    pub game_cover: Option<String>,
    pub download_url: String,
    pub version: Option<String>,
    /// Cooperative-cancellation flag, observed at every chunk boundary.
    pub is_paused: bool,
    /// Bytes on disk so far, the resume offset included.
    pub downloaded_bytes: u64,
    /// Full size of the file; 0 while not yet known.
    pub total_bytes: u64,
    /// Where the running attempt started: the partial file's length at
    /// [`DownloadManager::begin_attempt`] time.
    pub start_offset: u64,
    /// When the running attempt started, reset on every resume, so that
    /// speed and arrival estimates cover the attempt alone.
    pub started_at_ms: u64,
    /// When the last progress event went out.
    pub last_emit_ms: u64,
}

/// A progress event, one per throttle tick and one closing the transfer.
pub struct ProgressEvent {
    pub download_id: String,
    pub game_id: String,
    pub game_name: String,
    pub game_cover: Option<String>,
    pub downloaded: u64,
    pub total: u64,
    /// Whole percent points, 0 to 100.
    pub percent: u64,
    /// Bytes per second over the running attempt.
    pub speed_bps: u64,
    pub eta_seconds: u64,
}

/// What one chunk did to the transfer.
pub enum ChunkOutcome {
    /// The pause flag was set: the attempt ends here, the chunk is not
    /// counted, the partial file keeps what it has.
    Paused,
    /// The chunk was counted; a progress event is attached when the
    /// throttle allowed one.
    Progress(Option<ProgressEvent>),
}

/// The state a download shows in the snapshot of active downloads.
pub enum DownloadStatus {
    Downloading,
    Paused,
}

/// One row of the active-downloads snapshot.
pub struct DownloadSnapshot {
    pub download_id: String,
    pub game_id: String,
    pub game_name: String,
    pub game_cover: Option<String>,
    pub downloaded: u64,
    pub total: u64,
    pub percent: u64,
    pub status: DownloadStatus,
}

/// The elapsed time of an attempt on a clock that may be read slightly
/// out of order: never negative.
pub open spec fn elapsed_ms_of(started_at_ms: u64, now_ms: u64) -> u64 {
    if now_ms >= started_at_ms {
        (now_ms - started_at_ms) as u64
    } else {
        0
    }
}

/// The record after its pause flag was set.
pub open spec fn after_pause(r: DownloadRecord) -> DownloadRecord {
    DownloadRecord { is_paused: true, ..r }
}

/// The record after a resume: the flag cleared and the attempt clock
/// reset, so speed counts only the new attempt.
pub open spec fn after_resume(r: DownloadRecord, now_ms: u64) -> DownloadRecord {
    DownloadRecord { is_paused: false, started_at_ms: now_ms, ..r }
}

/// The record at the start of a transfer attempt: the partial file's
/// length becomes the counter and the resume offset, and the full size is
/// the offset plus what the remote still holds.
pub open spec fn after_begin(
    r: DownloadRecord,
    partial_len: u64,
    remaining: u64,
    now_ms: u64,
) -> DownloadRecord {
    DownloadRecord {
        downloaded_bytes: partial_len,
        start_offset: partial_len,
        total_bytes: (partial_len + remaining) as u64,
        last_emit_ms: now_ms,
        ..r
    }
}

/// The record after one counted chunk: the counter grows by the chunk's
/// length, and the emission clock advances exactly when the throttle let
/// an event out. A chunk is only ever counted when the grown counter
/// stays within a known total (see [`chunk_overruns`]).
pub open spec fn after_chunk(r: DownloadRecord, chunk_len: u64, now_ms: u64) -> DownloadRecord {
    DownloadRecord {
        downloaded_bytes: (r.downloaded_bytes + chunk_len) as u64,
        last_emit_ms: if throttle_allows(r.last_emit_ms, now_ms) {
            now_ms
        } else {
            r.last_emit_ms
        },
        ..r
    }
}

/// The record once the byte stream is exhausted: the counter stands at
/// the full size.
pub open spec fn after_finish(r: DownloadRecord) -> DownloadRecord {
    DownloadRecord { downloaded_bytes: r.total_bytes, ..r }
}

/// Whether two optional text fields carry the same characters.
pub open spec fn option_text_matches(a: Option<String>, b: Option<String>) -> bool {
    match (a, b) {
        (Some(x), Some(y)) => x@ == y@,
        (None, None) => true,
        _ => false,
    }
}

/// The progress event due for `r` at `now_ms`, with `r` already holding
/// the counted chunk.
pub open spec fn progress_event_matches(e: ProgressEvent, r: DownloadRecord, now_ms: u64) -> bool {
    &&& e.download_id@ == r.id@
    &&& e.game_id@ == r.game_id@
    &&& e.game_name@ == r.game_name@
    &&& option_text_matches(e.game_cover, r.game_cover)
    &&& e.downloaded == r.downloaded_bytes
    &&& e.total == r.total_bytes
    &&& e.percent == percent_of(r.downloaded_bytes, r.total_bytes)
    &&& e.speed_bps == speed_of(
        (r.downloaded_bytes - r.start_offset) as u64,
        elapsed_ms_of(r.started_at_ms, now_ms),
    )
    &&& e.eta_seconds == eta_of(r.downloaded_bytes, r.total_bytes, e.speed_bps)
}

/// Relates registry states in which the record named `id` was replaced by
/// `f` of itself and every other record stayed as it was.
pub open spec fn updates_record(
    pre: Seq<DownloadRecord>,
    post: Seq<DownloadRecord>,
    id: Seq<char>,
    f: spec_fn(DownloadRecord) -> DownloadRecord,
) -> bool {
    &&& post.len() == pre.len()
    &&& forall|i: int|
        0 <= i < pre.len() ==> post[i] == (if pre[i].id@ == id {
            f(pre[i])
        } else {
            pre[i]
        })
}

/// Whether counting this chunk would drive the record's counter past its
/// known total. A stream that delivers more than the size the remote
/// declared breaks the transport's own contract, so such a chunk is never
/// counted: the byte counter stays within the total whenever the total is
/// known.
pub open spec fn chunk_overruns(r: DownloadRecord, chunk_len: u64) -> bool {
    &&& !r.is_paused
    &&& r.total_bytes > 0
    &&& r.downloaded_bytes + chunk_len > r.total_bytes
}

/// What one counted or refused chunk means for the record named `id`.
pub open spec fn chunk_step(
    pre: DownloadRecord,
    post: DownloadRecord,
    chunk_len: u64,
    now_ms: u64,
    outcome: ChunkOutcome,
) -> bool {
    if pre.is_paused {
        &&& outcome is Paused
        &&& post == pre
    } else {
        &&& !chunk_overruns(pre, chunk_len)
        &&& post == after_chunk(pre, chunk_len, now_ms)
        &&& match outcome {
            ChunkOutcome::Progress(ev) => if throttle_allows(pre.last_emit_ms, now_ms) {
                ev matches Some(e) && progress_event_matches(e, post, now_ms)
            } else {
                ev is None
            },
            ChunkOutcome::Paused => false,
        }
    }
}

/// The registry of downloads, keyed by the caller-chosen download id. It
/// is the single owner of all download state: the transfer loops and the
/// manager-facing operations both go through it.
pub struct DownloadManager {
    pub records: Vec<DownloadRecord>,
}

impl DownloadManager {
    /// Ids never repeat; no counter stands before its attempt's resume
    /// offset; and once a record's total is known, its counter never
    /// passes it.
    pub open spec fn wf(&self) -> bool {
        &&& forall|i: int, j: int|
            0 <= i < j < self.records@.len() ==> self.records@[i].id@ != self.records@[j].id@
        &&& forall|i: int|
            0 <= i < self.records@.len() ==> #[trigger] self.records@[i].start_offset
                <= self.records@[i].downloaded_bytes
        &&& forall|i: int|
            0 <= i < self.records@.len() ==> #[trigger] self.records@[i].start_offset
                <= self.records@[i].total_bytes
        &&& forall|i: int|
            0 <= i < self.records@.len() && self.records@[i].total_bytes > 0
                ==> #[trigger] self.records@[i].downloaded_bytes <= self.records@[i].total_bytes
    }

    /// Whether a download with this id is registered.
    pub open spec fn contains_download(&self, id: Seq<char>) -> bool {
        exists|i: int| 0 <= i < self.records@.len() && self.records@[i].id@ == id
    }

    /// An empty registry.
    pub fn new() -> (r: Self)
        ensures
            r.wf(),
            r.records@.len() == 0,
    {
        DownloadManager { records: Vec::new() }
    }

    /// The position of the record with this id, if any.
    fn find_record(&self, id: &String) -> (r: Option<usize>)
        ensures
            match r {
                Some(i) => i < self.records@.len() && self.records@[i as int].id@ == id@,
                None => !self.contains_download(id@),
            },
    {
        let n = self.records.len();
        let mut k: usize = 0;
        while k < n
            invariant
                k <= n,
                n == self.records@.len(),
                forall|j: int| 0 <= j < k ==> self.records@[j].id@ != id@,
            decreases n - k,
        {
            if self.records[k].id == *id {
                return Some(k);
            }
            k += 1;
        }
        None
    }

    /// Registers a new download and acknowledges it. The transfer itself
    /// is driven afterwards, chunk by chunk; completion travels through
    /// events, not through this result. Fails exactly when the id is
    /// already registered.
    pub fn start(&mut self, request: DownloadRequest, now_ms: u64) -> (r: Result<
        (),
        LauncherError,
    >)
        requires
            old(self).wf(),
        ensures
            final(self).wf(),
            match r {
                Ok(()) => {
                    &&& !old(self).contains_download(request.download_id@)
                    &&& final(self).records@.len() == old(self).records@.len() + 1
                    &&& forall|i: int|
                        0 <= i < old(self).records@.len() ==> final(self).records@[i] == old(
                            self,
                        ).records@[i]
                    &&& final(self).records@.last().id@ == request.download_id@
                    &&& final(self).records@.last().game_id@ == request.game_id@
                    &&& final(self).records@.last().game_name@ == request.game_name@
                    &&& final(self).records@.last().download_url@ == request.download_url@
                    &&& final(self).records@.last().is_paused == false
                    &&& final(self).records@.last().downloaded_bytes == 0
                    &&& final(self).records@.last().total_bytes == 0
                    &&& final(self).records@.last().start_offset == 0
                    &&& final(self).records@.last().started_at_ms == now_ms
                    &&& final(self).records@.last().last_emit_ms == 0
                    &&& final(self).records@.last().game_cover == request.game_cover
                    &&& final(self).records@.last().version == request.version
                },
                Err(e) => {
                    &&& e is AlreadyRegistered
                    &&& old(self).contains_download(request.download_id@)
                    &&& *final(self) == *old(self)
                },
            },
    {
        match self.find_record(&request.download_id) {
            Some(i) => {
                proof {
                    assert(self.records@[i as int].id@ == request.download_id@);
                }
                Err(LauncherError::AlreadyRegistered)
            },
            None => {
                let record = DownloadRecord {
                    id: request.download_id,
                    game_id: request.game_id,
                    game_name: request.game_name,
                    game_cover: request.game_cover,
                    download_url: request.download_url,
                    version: request.version,
                    is_paused: false,
                    downloaded_bytes: 0,
                    total_bytes: 0,
                    start_offset: 0,
                    started_at_ms: now_ms,
                    last_emit_ms: 0,
                };
                self.records.push(record);
                Ok(())
            },
        }
    }

    /// Sets the pause flag of the download named `id`; the in-flight
    /// attempt observes it at the next chunk boundary. Fails exactly when
    /// the id is unknown.
    pub fn pause(&mut self, id: &String) -> (r: Result<(), LauncherError>)
        requires
            old(self).wf(),
        ensures
            final(self).wf(),
            match r {
                Ok(()) => {
                    &&& old(self).contains_download(id@)
                    &&& updates_record(
                        old(self).records@,
                        final(self).records@,
                        id@,
                        |rec: DownloadRecord| after_pause(rec),
                    )
                },
                Err(e) => {
                    &&& e is NotFound
                    &&& !old(self).contains_download(id@)
                    &&& *final(self) == *old(self)
                },
            },
    {
        let i = match self.find_record(id) {
            Some(i) => i,
            None => {
                return Err(LauncherError::NotFound);
            },
        };
        let mut rec = self.records.remove(i);
        rec.is_paused = true;
        let ghost updated = rec;
        self.records.insert(i, rec);
        proof {
            assert(self.records@ =~= old(self).records@.update(i as int, updated));
            lemma_unique_at(old(self).records@, i as int, id@);
            assert(updated == after_pause(old(self).records@[i as int]));
        }
        Ok(())
    }

    /// Clears the pause flag of the download named `id` and resets its
    /// attempt clock; the caller then relaunches the transfer from the
    /// partial file's current length. Fails exactly when the id is
    /// unknown.
    pub fn resume(&mut self, id: &String, now_ms: u64) -> (r: Result<(), LauncherError>)
        requires
            old(self).wf(),
        ensures
            final(self).wf(),
            match r {
                Ok(()) => {
                    &&& old(self).contains_download(id@)
                    &&& updates_record(
                        old(self).records@,
                        final(self).records@,
                        id@,
                        |rec: DownloadRecord| after_resume(rec, now_ms),
                    )
                },
                Err(e) => {
                    &&& e is NotFound
                    &&& !old(self).contains_download(id@)
                    &&& *final(self) == *old(self)
                },
            },
    {
        let i = match self.find_record(id) {
            Some(i) => i,
            None => {
                return Err(LauncherError::NotFound);
            },
        };
        let mut rec = self.records.remove(i);
        rec.is_paused = false;
        rec.started_at_ms = now_ms;
        let ghost updated = rec;
        self.records.insert(i, rec);
        proof {
            assert(self.records@ =~= old(self).records@.update(i as int, updated));
            lemma_unique_at(old(self).records@, i as int, id@);
            assert(updated == after_resume(old(self).records@[i as int], now_ms));
        }
        Ok(())
    }

    /// Removes the download named `id` from the registry and returns its
    /// record with the pause flag set, so that an in-flight attempt still
    /// holding it converges to a stop; the caller deletes the partial
    /// file. Fails exactly when the id is unknown.
    pub fn cancel(&mut self, id: &String) -> (r: Result<DownloadRecord, LauncherError>)
        requires
            old(self).wf(),
        ensures
            final(self).wf(),
            match r {
                Ok(rec) => {
                    &&& old(self).contains_download(id@)
                    &&& !final(self).contains_download(id@)
                    &&& exists|i: int|
                        0 <= i < old(self).records@.len() && old(self).records@[i].id@ == id@
                            && final(self).records@ == old(self).records@.remove(i) && rec
                            == after_pause(old(self).records@[i])
                },
                Err(e) => {
                    &&& e is NotFound
                    &&& !old(self).contains_download(id@)
                    &&& *final(self) == *old(self)
                },
            },
    {
        let i = match self.find_record(id) {
            Some(i) => i,
            None => {
                return Err(LauncherError::NotFound);
            },
        };
        let mut rec = self.records.remove(i);
        rec.is_paused = true;
        proof {
            let pre = old(self).records@;
            assert forall|j: int|
                0 <= j < self.records@.len() implies self.records@[j].id@ != id@ by {
                if j < i {
                    assert(self.records@[j] == pre[j]);
                } else {
                    assert(self.records@[j] == pre[j + 1]);
                }
            }
            assert(pre[i as int].id@ == id@ && self.records@ == pre.remove(i as int));
        }
        Ok(rec)
    }

    /// Starts a transfer attempt for the download named `id`: the partial
    /// file's length `partial_len` becomes the counter and the resume
    /// offset, and the full size is `partial_len + remaining`, where
    /// `remaining` is what the remote reports left from that offset.
    /// Returns the full size. Fails exactly when the id is unknown.
    pub fn begin_attempt(
        &mut self,
        id: &String,
        partial_len: u64,
        remaining: u64,
        now_ms: u64,
    ) -> (r: Result<u64, LauncherError>)
        requires
            old(self).wf(),
            partial_len + remaining <= u64::MAX,
        ensures
            final(self).wf(),
            match r {
                Ok(total) => {
                    &&& old(self).contains_download(id@)
                    &&& total == partial_len + remaining
                    &&& updates_record(
                        old(self).records@,
                        final(self).records@,
                        id@,
                        |rec: DownloadRecord| after_begin(rec, partial_len, remaining, now_ms),
                    )
                },
                Err(e) => {
                    &&& e is NotFound
                    &&& !old(self).contains_download(id@)
                    &&& *final(self) == *old(self)
                },
            },
    {
        let i = match self.find_record(id) {
            Some(i) => i,
            None => {
                return Err(LauncherError::NotFound);
            },
        };
        let total = partial_len + remaining;
        let mut rec = self.records.remove(i);
        rec.downloaded_bytes = partial_len;
        rec.start_offset = partial_len;
        rec.total_bytes = total;
        rec.last_emit_ms = now_ms;
        let ghost updated = rec;
        self.records.insert(i, rec);
        proof {
            assert(self.records@ =~= old(self).records@.update(i as int, updated));
            lemma_unique_at(old(self).records@, i as int, id@);
            assert(updated == after_begin(old(self).records@[i as int], partial_len, remaining, now_ms));
        }
        Ok(total)
    }

    /// Counts one received chunk for the download named `id`, unless the
    /// pause flag was set, in which case the attempt ends and nothing
    /// changes. When the throttle allows, the returned outcome carries
    /// the progress event that is due. Fails with the not-found error
    /// exactly when the id is unknown, and with a network error exactly
    /// when the chunk would drive the counter past a known total — the
    /// chunk is then not counted, so the caller must not write it to the
    /// partial file.
    pub fn on_chunk(&mut self, id: &String, chunk_len: u64, now_ms: u64) -> (r: Result<
        ChunkOutcome,
        LauncherError,
    >)
        requires
            old(self).wf(),
            forall|i: int|
                0 <= i < old(self).records@.len() && old(self).records@[i].id@ == id@
                    && old(self).records@[i].total_bytes == 0
                    ==> #[trigger] old(self).records@[i].downloaded_bytes + chunk_len <= u64::MAX,
        ensures
            final(self).wf(),
            match r {
                Ok(outcome) => {
                    &&& old(self).contains_download(id@)
                    &&& final(self).records@.len() == old(self).records@.len()
                    &&& forall|i: int|
                        0 <= i < old(self).records@.len() && old(self).records@[i].id@ != id@
                            ==> final(self).records@[i] == old(self).records@[i]
                    &&& forall|i: int|
                        0 <= i < old(self).records@.len() && old(self).records@[i].id@ == id@
                            ==> chunk_step(
                            old(self).records@[i],
                            #[trigger] final(self).records@[i],
                            chunk_len,
                            now_ms,
                            outcome,
                        )
                },
                Err(e) => {
                    &&& *final(self) == *old(self)
                    &&& match e {
                        LauncherError::NotFound => !old(self).contains_download(id@),
                        LauncherError::Network { .. } => {
                            &&& old(self).contains_download(id@)
                            &&& forall|i: int|
                                0 <= i < old(self).records@.len() && #[trigger] old(
                                    self,
                                ).records@[i].id@ == id@ ==> chunk_overruns(
                                    old(self).records@[i],
                                    chunk_len,
                                )
                        },
                        _ => false,
                    }
                },
            },
    {
        let i = match self.find_record(id) {
            Some(i) => i,
            None => {
                return Err(LauncherError::NotFound);
            },
        };
        let ghost pre = self.records@;
        if self.records[i].is_paused {
            proof {
                lemma_unique_at(pre, i as int, id@);
            }
            return Ok(ChunkOutcome::Paused);
        }
        if self.records[i].total_bytes > 0 && chunk_len > self.records[i].total_bytes
            - self.records[i].downloaded_bytes {
            proof {
                lemma_unique_at(pre, i as int, id@);
            }
            return Err(
                LauncherError::Network {
                    message: String::from_str("Server sent more data than the remaining size"),
                },
            );
        }
        let mut rec = self.records.remove(i);
        rec.downloaded_bytes = rec.downloaded_bytes + chunk_len;
        let event = if may_emit_progress(rec.last_emit_ms, now_ms) {
            rec.last_emit_ms = now_ms;
            let speed = speed_bytes_per_sec(
                rec.downloaded_bytes - rec.start_offset,
                if now_ms >= rec.started_at_ms {
                    now_ms - rec.started_at_ms
                } else {
                    0
                },
            );
            Some(
                ProgressEvent {
                    download_id: rec.id.clone(),
                    game_id: rec.game_id.clone(),
                    game_name: rec.game_name.clone(),
                    game_cover: clone_cover(&rec.game_cover),
                    downloaded: rec.downloaded_bytes,
                    total: rec.total_bytes,
                    percent: percent(rec.downloaded_bytes, rec.total_bytes),
                    speed_bps: speed,
                    eta_seconds: eta_seconds(rec.downloaded_bytes, rec.total_bytes, speed),
                },
            )
        } else {
            None
        };
        let ghost updated = rec;
        self.records.insert(i, rec);
        proof {
            assert(self.records@ =~= pre.update(i as int, updated));
            lemma_unique_at(pre, i as int, id@);
            assert(updated == after_chunk(pre[i as int], chunk_len, now_ms));
        }
        Ok(ChunkOutcome::Progress(event))
    }

    /// Closes a completed transfer for the download named `id`: the
    /// counter is set to the full size and the closing progress event is
    /// returned, reporting one hundred percent, as the last progress
    /// event of the attempt. Fails exactly when the id is unknown.
    pub fn finish_attempt(&mut self, id: &String) -> (r: Result<ProgressEvent, LauncherError>)
        requires
            old(self).wf(),
        ensures
            final(self).wf(),
            match r {
                Ok(e) => {
                    &&& old(self).contains_download(id@)
                    &&& updates_record(
                        old(self).records@,
                        final(self).records@,
                        id@,
                        |rec: DownloadRecord| after_finish(rec),
                    )
                    &&& forall|i: int|
                        0 <= i < old(self).records@.len() && #[trigger] old(self).records@[i].id@
                            == id@ ==> e.download_id@ == id@ && e.game_id@ == old(
                            self,
                        ).records@[i].game_id@ && e.game_name@ == old(
                            self,
                        ).records@[i].game_name@ && option_text_matches(
                            e.game_cover,
                            old(self).records@[i].game_cover,
                        ) && e.downloaded == old(self).records@[i].total_bytes
                            && e.total == old(self).records@[i].total_bytes
                    &&& e.percent == 100
                    &&& e.speed_bps == 0
                    &&& e.eta_seconds == 0
                },
                Err(e) => {
                    &&& e is NotFound
                    &&& !old(self).contains_download(id@)
                    &&& *final(self) == *old(self)
                },
            },
    {
        let i = match self.find_record(id) {
            Some(i) => i,
            None => {
                return Err(LauncherError::NotFound);
            },
        };
        let mut rec = self.records.remove(i);
        rec.downloaded_bytes = rec.total_bytes;
        let event = ProgressEvent {
            download_id: rec.id.clone(),
            game_id: rec.game_id.clone(),
            game_name: rec.game_name.clone(),
            game_cover: clone_cover(&rec.game_cover),
            downloaded: rec.total_bytes,
            total: rec.total_bytes,
            percent: 100,
            speed_bps: 0,
            eta_seconds: 0,
        };
        let ghost updated = rec;
        self.records.insert(i, rec);
        proof {
            assert(self.records@ =~= old(self).records@.update(i as int, updated));
            lemma_unique_at(old(self).records@, i as int, id@);
            assert(updated == after_finish(old(self).records@[i as int]));
        }
        Ok(event)
    }

    /// A snapshot of every registered download with its derived
    /// percentage and status, in registration order. Speed and arrival
    /// estimates belong to the live progress events, not to this
    /// snapshot.
    pub fn list_active(&self) -> (r: Vec<DownloadSnapshot>)
        ensures
            r@.len() == self.records@.len(),
            forall|i: int|
                0 <= i < self.records@.len() ==> {
                    let rec = self.records@[i];
                    let snap = #[trigger] r@[i];
                    &&& snap.download_id@ == rec.id@
                    &&& snap.game_id@ == rec.game_id@
                    &&& snap.game_name@ == rec.game_name@
                    &&& option_text_matches(snap.game_cover, rec.game_cover)
                    &&& snap.downloaded == rec.downloaded_bytes
                    &&& snap.total == rec.total_bytes
                    &&& snap.percent == percent_of(rec.downloaded_bytes, rec.total_bytes)
                    &&& snap.status == (if rec.is_paused {
                        DownloadStatus::Paused
                    } else {
                        DownloadStatus::Downloading
                    })
                },
    {
        let n = self.records.len();
        let mut out: Vec<DownloadSnapshot> = Vec::new();
        let mut k: usize = 0;
        while k < n
            invariant
                k <= n,
                n == self.records@.len(),
                out@.len() == k,
                forall|i: int|
                    0 <= i < k ==> {
                        let rec = self.records@[i];
                        let snap = #[trigger] out@[i];
                        &&& snap.download_id@ == rec.id@
                        &&& snap.game_id@ == rec.game_id@
                        &&& snap.game_name@ == rec.game_name@
                        &&& option_text_matches(snap.game_cover, rec.game_cover)
                        &&& snap.downloaded == rec.downloaded_bytes
                        &&& snap.total == rec.total_bytes
                        &&& snap.percent == percent_of(rec.downloaded_bytes, rec.total_bytes)
                        &&& snap.status == (if rec.is_paused {
                            DownloadStatus::Paused
                        } else {
                            DownloadStatus::Downloading
                        })
                    },
            decreases n - k,
        {
            let rec = &self.records[k];
            let snap = DownloadSnapshot {
                download_id: rec.id.clone(),
                game_id: rec.game_id.clone(),
                game_name: rec.game_name.clone(),
                game_cover: clone_cover(&rec.game_cover),
                downloaded: rec.downloaded_bytes,
                total: rec.total_bytes,
                percent: percent(rec.downloaded_bytes, rec.total_bytes),
                status: if rec.is_paused {
                    DownloadStatus::Paused
                } else {
                    DownloadStatus::Downloading
                },
            };
            out.push(snap);
            k += 1;
        }
        out
    }

}

/// Law: a download, once cancelled, is gone. A successful cancel removes
/// the one record holding the id, so no record with that id remains, and
/// a second cancel — like any operation on the id — must return the
/// not-found failure, exactly as [`DownloadManager::cancel`]'s error
/// clause states for an unknown id.
pub proof fn lemma_cancel_twice_fails(
    pre: Seq<DownloadRecord>,
    post: Seq<DownloadRecord>,
    id: Seq<char>,
)
    requires
        forall|a: int, b: int| 0 <= a < b < pre.len() ==> pre[a].id@ != pre[b].id@,
        exists|i: int|
            0 <= i < pre.len() && #[trigger] pre[i].id@ == id && post == pre.remove(i),
    ensures
        forall|j: int| 0 <= j < post.len() ==> #[trigger] post[j].id@ != id,
{
    let i = choose|i: int| 0 <= i < pre.len() && #[trigger] pre[i].id@ == id && post == pre.remove(i);
    assert forall|j: int| 0 <= j < post.len() implies #[trigger] post[j].id@ != id by {
        if j < i {
            assert(post[j] == pre[j]);
        } else {
            assert(post[j] == pre[j + 1]);
        }
    }
}

/// Law: once a download's total is known, its byte counter never passes
/// it, so every progress emission — which carries the counter — reports
/// `downloaded <= total`. The bound is one conjunct of the registry
/// invariant that every operation preserves: a chunk that would break it
/// is refused by [`DownloadManager::on_chunk`] as a network failure and
/// is never counted.
pub proof fn lemma_counter_within_total(m: &DownloadManager, i: int)
    requires
        m.wf(),
        0 <= i < m.records@.len(),
        m.records@[i].total_bytes > 0,
    ensures
        m.records@[i].downloaded_bytes <= m.records@[i].total_bytes,
{
}

/// The terminal report of one download attempt: exactly one of these
/// closes an attempt, after every progress event of it.
pub enum TerminalEvent {
    /// The transfer, the extraction and the bookkeeping all succeeded.
    Completed { install_path: String, executable: String },
    /// Something failed; the message says what. A paused attempt lands
    /// here too, recognisable by its message, so a caller need not treat
    /// it as fatal.
    Failed { error: String },
}

/// Decides the terminal event of an attempt from how its work ended:
/// success carries the install path and the executable, failure the
/// human-readable message.
pub fn terminal_event(result: Result<(String, String), String>) -> (r: TerminalEvent)
    ensures
        match result {
            Ok(paths) => (r matches TerminalEvent::Completed { install_path, executable }
                && install_path@ == paths.0@ && executable@ == paths.1@),
            Err(e) => (r matches TerminalEvent::Failed { error } && error@ == e@),
        },
{
    match result {
        Ok((install_path, executable)) => TerminalEvent::Completed { install_path, executable },
        Err(error) => TerminalEvent::Failed { error },
    }
}

/// With unique ids, only position `i` can hold `id`.
proof fn lemma_unique_at(pre: Seq<DownloadRecord>, i: int, id: Seq<char>)
    requires
        0 <= i < pre.len(),
        pre[i].id@ == id,
        forall|a: int, b: int| 0 <= a < b < pre.len() ==> pre[a].id@ != pre[b].id@,
    ensures
        forall|j: int| 0 <= j < pre.len() && pre[j].id@ == id ==> j == i,
{
    assert forall|j: int| 0 <= j < pre.len() && pre[j].id@ == id implies j == i by {
        if j < i {
            assert(pre[j].id@ != pre[i].id@);
        } else if j > i {
            assert(pre[i].id@ != pre[j].id@);
        }
    }
}

/// Clones an optional cover reference; the characters are kept.
fn clone_cover(c: &Option<String>) -> (r: Option<String>)
    ensures
        option_text_matches(r, *c),
{
    match c {
        Some(s) => Some(s.clone()),
        None => None,
    }
}

/// The record of an installed game, written beside its files once a
/// download completed and an executable was located. A download without a
/// version tag is recorded as version `1.0.0`.
pub struct InstalledGameInfo {
    pub game_id: String,
    pub name: String,
    pub install_path: String,
    pub executable: String,
    pub version: String,
    /// The installation instant, as text in the layout the caller's
    /// calendar produced.
    pub installed_at: String,
}

/// Builds the installed-game record for a completed download.
pub fn installed_game_info(
    game_id: String,
    name: String,
    install_path: String,
    executable: String,
    version: Option<String>,
    installed_at: String,
) -> (r: InstalledGameInfo)
    ensures
        r.game_id@ == game_id@,
        r.name@ == name@,
        r.install_path@ == install_path@,
        r.executable@ == executable@,
        match version {
            Some(v) => r.version@ == v@,
            None => r.version@ == "1.0.0"@,
        },
        r.installed_at@ == installed_at@,
{
    let v = match version {
        Some(v) => v,
        None => String::from_str("1.0.0"),
    };
    InstalledGameInfo {
        game_id,
        name,
        install_path,
        executable,
        version: v,
        installed_at,
    }
}

} // verus!
