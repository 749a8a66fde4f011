//! Remembered window geometry and the bookkeeping that keeps its file on disk current.
//!
//! The store keeps one [`WindowState`] per window label. Every change issues a
//! [`PersistJob`]: a snapshot of all states, stamped with a generation number
//! that grows by one per snapshot. The writer of the file consults a
//! [`PersistGate`], which remembers the newest generation already on disk, so
//! that a late, older snapshot never overwrites a newer one. After the data
//! directory moves (`rebase`), the persist gate is fenced at the store's generation and
//! every snapshot taken before the move is skipped.
use vstd::prelude::*;

verus! {

/// Outer position and inner size of a window, in physical pixels.
#[derive(Debug, Clone, Copy)]
pub struct WindowState {
    pub x: i32,
    pub y: i32,
    pub width: u32,
    pub height: u32,
}

/// Position and size of a display, in physical pixels.
#[derive(Debug, Clone, Copy)]
pub struct MonitorArea {
    pub x: i32,
    pub y: i32,
    pub width: u32,
    pub height: u32,
}

/// The map that a list of (label, state) entries describes; a later entry for
/// the same label replaces an earlier one.
pub open spec fn entries_map(entries: Seq<(String, WindowState)>) -> Map<Seq<char>, WindowState>
    decreases entries.len(),
{
    if entries.len() == 0 {
        Map::empty()
    } else {
        entries_map(entries.drop_last()).insert(entries.last().0@, entries.last().1)
    }
}

/// What a lookup of `label` in `states` yields.
pub open spec fn lookup(states: Map<Seq<char>, WindowState>, label: Seq<char>) -> Option<WindowState> {
    if states.dom().contains(label) {
        Some(states[label])
    } else {
        None
    }
}

/// The generation that follows `generation` (the counter wraps at its maximum).
pub open spec fn next_generation(generation: u64) -> u64 {
    if generation == u64::MAX {
        0
    } else {
        (generation + 1) as u64
    }
}

/// A snapshot of every window state, to be written to `path`.
pub struct PersistJob {
    pub generation: u64,
    pub path: String,
    pub states: Vec<(String, WindowState)>,
}

/// The remembered window states, the file they belong in, and the snapshot counter.
pub struct WindowStateStore {
    path: String,
    states: Vec<(String, WindowState)>,
    generation: u64,
}

/// The newest generation already written to disk.
pub struct PersistGate {
    last_written: u64,
}

proof fn lemma_entries_map_push(entries: Seq<(String, WindowState)>, entry: (String, WindowState))
    ensures
        entries_map(entries.push(entry)) == entries_map(entries).insert(entry.0@, entry.1),
{
    assert(entries.push(entry).drop_last() == entries);
}

fn copy_entries(entries: &Vec<(String, WindowState)>) -> (copy: Vec<(String, WindowState)>)
    ensures
        copy@ == entries@,
{
    let mut copy: Vec<(String, WindowState)> = Vec::new();
    let n = entries.len();
    let mut i: usize = 0;
    while i < n
        invariant
            n == entries.len(),
            i <= n,
            copy@ == entries@.take(i as int),
        decreases n - i,
    {
        let label = entries[i].0.clone();
        copy.push((label, entries[i].1));
        assert(copy@ =~= entries@.take(i + 1));
        i = i + 1;
    }
    assert(entries@.take(n as int) =~= entries@);
    copy
}

impl WindowStateStore {
    /// The remembered state of each window label.
    pub closed spec fn states(&self) -> Map<Seq<char>, WindowState> {
        entries_map(self.states@)
    }

    /// The file the states belong in.
    pub closed spec fn path(&self) -> Seq<char> {
        self.path@
    }

    /// The generation of the newest snapshot issued so far.
    pub closed spec fn generation(&self) -> u64 {
        self.generation
    }

    /// A store over `path` holding the states that were read from it
    /// (a later entry for a label wins); no snapshot has been issued yet.
    pub fn new(path: String, loaded: Vec<(String, WindowState)>) -> (store: Self)
        ensures
            store.states() == entries_map(loaded@),
            store.path() == path@,
            store.generation() == 0,
    {
        WindowStateStore { path, states: loaded, generation: 0 }
    }

    fn snapshot_job(&mut self) -> (job: PersistJob)
        ensures
            final(self).states() == old(self).states(),
            final(self).path() == old(self).path(),
            final(self).generation() == next_generation(old(self).generation()),
            job.generation == final(self).generation(),
            job.path@ == final(self).path(),
            entries_map(job.states@) == final(self).states(),
    {
        let states = copy_entries(&self.states);
        self.generation = self.generation.wrapping_add(1);
        PersistJob { generation: self.generation, path: self.path.clone(), states }
    }

    /// Remembers `state` for `label` and returns the snapshot to write to disk.
    pub fn save(&mut self, label: &str, state: WindowState) -> (job: PersistJob)
        ensures
            final(self).states() == old(self).states().insert(label@, state),
            final(self).path() == old(self).path(),
            final(self).generation() == next_generation(old(self).generation()),
            job.generation == final(self).generation(),
            job.path@ == final(self).path(),
            entries_map(job.states@) == final(self).states(),
    {
        let owned = label.to_owned();
        let mut kept: Vec<(String, WindowState)> = Vec::new();
        let n = self.states.len();
        let mut i: usize = 0;
        while i < n
            invariant
                n == self.states.len(),
                i <= n,
                owned@ == label@,
                entries_map(kept@) == entries_map(self.states@.take(i as int)).remove(label@),
            decreases n - i,
        {
            let ghost before = kept@;
            let ghost prefix = self.states@.take(i as int);
            let entry_label = self.states[i].0.clone();
            let entry_state = self.states[i].1;
            assert(self.states@.take(i + 1) == prefix.push(self.states@[i as int]));
            proof {
                lemma_entries_map_push(prefix, self.states@[i as int]);
            }
            if entry_label != owned {
                kept.push((entry_label, entry_state));
                proof {
                    lemma_entries_map_push(before, (entry_label, entry_state));
                }
                assert(entries_map(kept@) =~= entries_map(self.states@.take(i + 1)).remove(label@));
            } else {
                assert(entries_map(kept@) =~= entries_map(self.states@.take(i + 1)).remove(label@));
            }
            i = i + 1;
        }
        assert(self.states@.take(n as int) == self.states@);
        let ghost before = kept@;
        kept.push((owned, state));
        proof {
            lemma_entries_map_push(before, (owned, state));
        }
        assert(entries_map(kept@) =~= old(self).states().insert(label@, state));
        self.states = kept;
        self.snapshot_job()
    }

    /// Issues a snapshot of the current states without changing them; the
    /// caller writes it to disk before the process exits.
    pub fn flush_blocking(&mut self) -> (job: PersistJob)
        ensures
            final(self).states() == old(self).states(),
            final(self).path() == old(self).path(),
            final(self).generation() == next_generation(old(self).generation()),
            job.generation == final(self).generation(),
            job.path@ == final(self).path(),
            entries_map(job.states@) == final(self).states(),
    {
        self.snapshot_job()
    }

    /// The remembered state of `label`, if any.
    pub fn get(&self, label: &str) -> (found: Option<WindowState>)
        ensures
            found == lookup(self.states(), label@),
    {
        let wanted = label.to_owned();
        let mut found: Option<WindowState> = None;
        let n = self.states.len();
        let mut i: usize = 0;
        while i < n
            invariant
                n == self.states.len(),
                i <= n,
                wanted@ == label@,
                found == lookup(entries_map(self.states@.take(i as int)), label@),
            decreases n - i,
        {
            let ghost prefix = self.states@.take(i as int);
            assert(self.states@.take(i + 1) == prefix.push(self.states@[i as int]));
            proof {
                lemma_entries_map_push(prefix, self.states@[i as int]);
            }
            if self.states[i].0 == wanted {
                found = Some(self.states[i].1);
            }
            i = i + 1;
        }
        assert(self.states@.take(n as int) == self.states@);
        found
    }

    /// Moves the store to a new file with the states read from it, and returns
    /// the generation reached so far: every snapshot issued up to now belongs
    /// to the old file.
    pub fn rebase(&mut self, path: String, loaded: Vec<(String, WindowState)>) -> (cutoff: u64)
        ensures
            final(self).states() == entries_map(loaded@),
            final(self).path() == path@,
            final(self).generation() == old(self).generation(),
            cutoff == old(self).generation(),
    {
        self.path = path;
        self.states = loaded;
        self.generation
    }
}

/// A persist gate's mark after a snapshot of `generation` reached the disk.
pub open spec fn mark_after_write(mark: u64, generation: u64) -> u64 {
    generation
}

/// A persist gate's mark after fencing at `cutoff`.
pub open spec fn mark_after_fence(mark: u64, cutoff: u64) -> u64 {
    if cutoff > mark {
        cutoff
    } else {
        mark
    }
}

impl PersistGate {
    /// The newest generation written so far.
    pub closed spec fn last_written(&self) -> u64 {
        self.last_written
    }

    /// A snapshot of `generation` is still worth writing.
    pub open spec fn admits(&self, generation: u64) -> bool {
        generation > self.last_written()
    }

    /// A gate before anything was written.
    pub fn new() -> (gate: Self)
        ensures
            gate.last_written() == 0,
    {
        PersistGate { last_written: 0 }
    }

    /// Whether `job` is newer than everything already written.
    pub fn should_write(&self, job: &PersistJob) -> (write: bool)
        ensures
            write == self.admits(job.generation),
    {
        job.generation > self.last_written
    }

    /// Records that `job` reached the disk.
    pub fn record_written(&mut self, job: &PersistJob)
        requires
            old(self).admits(job.generation),
        ensures
            final(self).last_written() == mark_after_write(old(self).last_written(), job.generation),
    {
        self.last_written = job.generation;
    }

    /// Declares every snapshot up to `cutoff` stale.
    pub fn fence(&mut self, cutoff: u64)
        ensures
            final(self).last_written() == mark_after_fence(old(self).last_written(), cutoff),
    {
        if cutoff > self.last_written {
            self.last_written = cutoff;
        }
    }
}

/// Of `first` followed by `backlog`, the job with the highest generation (the
/// earliest such job on a tie): only the newest queued snapshot is written.
pub fn latest_job(first: PersistJob, backlog: Vec<PersistJob>) -> (latest: PersistJob)
    ensures
        exists|k: int|
            0 <= k < backlog@.len() + 1 && #[trigger] seq![first].add(backlog@)[k] == latest && (forall|j: int|
                0 <= j < k ==> seq![first].add(backlog@)[j].generation < latest.generation),
        forall|j: int|
            0 <= j < backlog@.len() + 1 ==> #[trigger] seq![first].add(backlog@)[j].generation
                <= latest.generation,
{
    let ghost all = seq![first].add(backlog@);
    let mut best_generation = first.generation;
    let mut best: Option<usize> = None;
    let n = backlog.len();
    let mut i: usize = 0;
    while i < n
        invariant
            n == backlog.len(),
            i <= n,
            all == seq![first].add(backlog@),
            match best {
                None => best_generation == first.generation,
                Some(b) => b < i && best_generation == backlog@[b as int].generation,
            },
            forall|j: int| 0 <= j < i + 1 ==> #[trigger] all[j].generation <= best_generation,
            forall|j: int|
                0 <= j < (match best {
                    None => 0int,
                    Some(b) => b + 1,
                }) ==> #[trigger] all[j].generation < best_generation,
        decreases n - i,
    {
        if backlog[i].generation > best_generation {
            best_generation = backlog[i].generation;
            best = Some(i);
        }
        i = i + 1;
    }
    match best {
        None => {
            assert(all[0] == first);
            first
        },
        Some(b) => {
            let mut backlog = backlog;
            let job = backlog.swap_remove(b);
            assert(all[b + 1] == job);
            job
        },
    }
}

/// Whether the point (`x`, `y`) lies on `monitor`.
pub open spec fn monitor_contains(monitor: MonitorArea, x: i32, y: i32) -> bool {
    &&& x >= monitor.x
    &&& x < monitor.x + (monitor.width as i32)
    &&& y >= monitor.y
    &&& y < monitor.y + (monitor.height as i32)
}

/// Whether the window's remembered position still lies on one of the
/// available monitors; when it does not, the window is centered on the
/// monitor under the cursor instead.
pub fn is_on_screen(state: &WindowState, monitors: &Vec<MonitorArea>) -> (on_screen: bool)
    ensures
        on_screen == exists|i: int|
            0 <= i < monitors@.len() && #[trigger] monitor_contains(monitors@[i], state.x, state.y),
{
    let n = monitors.len();
    let mut i: usize = 0;
    while i < n
        invariant
            n == monitors.len(),
            i <= n,
            forall|j: int| 0 <= j < i ==> !#[trigger] monitor_contains(monitors@[j], state.x, state.y),
        decreases n - i,
    {
        let m = monitors[i];
        let right = m.x as i64 + (m.width as i32) as i64;
        let bottom = m.y as i64 + (m.height as i32) as i64;
        if state.x >= m.x && (state.x as i64) < right && state.y >= m.y && (state.y as i64) < bottom {
            assert(monitor_contains(monitors@[i as int], state.x, state.y));
            return true;
        }
        i = i + 1;
    }
    false
}

/// Reading a label back after saving it gives the saved state, and saving one
/// label leaves the state of every other label as it was.
pub proof fn lemma_get_after_save(
    before: Map<Seq<char>, WindowState>,
    label: Seq<char>,
    state: WindowState,
    other: Seq<char>,
)
    requires
        other != label,
    ensures
        lookup(before.insert(label, state), label) == Some(state),
        lookup(before.insert(label, state), other) == lookup(before, other),
{
}

/// Each snapshot the store issues is newer than every snapshot issued before
/// it, as long as the counter has not reached its maximum.
pub proof fn lemma_generations_increase(generation: u64, earlier: u64)
    requires
        earlier <= generation,
        generation < u64::MAX,
    ensures
        next_generation(generation) > earlier,
{
}

/// The file never goes back to older content: writing an admitted snapshot or
/// fencing never lowers a gate's mark, and no snapshot at or below the new
/// mark is admitted afterwards.
pub proof fn lemma_gate_never_regresses(mark: u64, generation: u64, cutoff: u64, stale: u64)
    requires
        generation > mark,
    ensures
        mark_after_write(mark, generation) > mark,
        mark_after_fence(mark, cutoff) >= mark,
        mark_after_fence(mark, cutoff) >= cutoff,
        stale <= generation ==> !(stale > mark_after_write(mark, generation)),
{
}

/// After the data directory moves, every snapshot taken before the move is
/// skipped, while the first snapshot taken after it is written, provided
/// nothing newer than the move had reached the disk.
pub proof fn lemma_rebase_fences_old_snapshots(mark: u64, cutoff: u64, earlier: u64)
    requires
        earlier <= cutoff,
        mark <= cutoff,
        cutoff < u64::MAX,
    ensures
        !(earlier > mark_after_fence(mark, cutoff)),
        next_generation(cutoff) > mark_after_fence(mark, cutoff),
{
}

/// A persist gate is in step with its store when its mark is at most the
/// generation of the newest snapshot the store has issued.
pub open spec fn gate_in_step(store: WindowStateStore, gate: PersistGate) -> bool {
    gate.last_written() <= store.generation()
}

/// Every step of the persist protocol keeps a persist gate in step with its
/// store: a new store and a new gate start in step; a save or flush advances
/// the generation (below the counter's maximum); writing a snapshot that the
/// store issued and that its gate admits moves the mark to that snapshot; fencing at the
/// generation a rebase returns moves the mark at most there; a rebase keeps
/// the generation.
pub proof fn lemma_protocol_keeps_gate_in_step(
    store: WindowStateStore,
    gate: PersistGate,
    job_generation: u64,
)
    requires
        gate_in_step(store, gate),
    ensures
        store.generation() < u64::MAX ==> gate.last_written() <= next_generation(store.generation()),
        job_generation <= store.generation() && gate.admits(job_generation) ==> mark_after_write(
            gate.last_written(),
            job_generation,
        ) <= store.generation(),
        mark_after_fence(gate.last_written(), store.generation()) <= store.generation(),
{
}

/// The snapshot of a flush on exit is never refused as stale: with a persist
/// gate in step and the counter below its maximum, that gate admits the flush
/// snapshot,
/// and once it is written no snapshot issued before it is admitted any more,
/// so an older queued snapshot cannot overwrite it.
pub proof fn lemma_flush_is_never_stale(store: WindowStateStore, gate: PersistGate, earlier: u64)
    requires
        gate_in_step(store, gate),
        store.generation() < u64::MAX,
        earlier <= store.generation(),
    ensures
        gate.admits(next_generation(store.generation())),
        !(earlier > mark_after_write(gate.last_written(), next_generation(store.generation()))),
{
}

} // verus!
