use vstd::prelude::*;
use crate::campaign_modes::campaign_mode::CampaignMode;
use crate::difficulties::difficulty::Difficulty;
use crate::games::game::GameId;
use crate::time_of_day::TimeOfDay;
use crate::views::lemma_filter_step;
use crate::views::views_of;

verus! {

/// One completed playthrough of a mission.
#[derive(Clone, Copy, Debug, PartialEq, Eq, Structural)]
pub struct ServiceRecordRun {
    pub campaign_mode: CampaignMode,
    pub difficulty: Difficulty,
    pub time: TimeOfDay,
    pub score: i32,
}

impl ServiceRecordRun {
    pub fn new(campaign_mode: CampaignMode, difficulty: Difficulty, time: TimeOfDay, score: i32) -> (made:
        Self)
        ensures
            made == (ServiceRecordRun { campaign_mode, difficulty, time, score }),
    {
        Self { campaign_mode, difficulty, time, score }
    }

    pub fn campaign_mode(&self) -> (mode: CampaignMode)
        ensures
            mode == self.campaign_mode,
    {
        self.campaign_mode
    }

    pub fn difficulty(&self) -> (difficulty: Difficulty)
        ensures
            difficulty == self.difficulty,
    {
        self.difficulty
    }

    pub fn time(&self) -> (time: TimeOfDay)
        ensures
            time == self.time,
    {
        self.time
    }

    pub fn score(&self) -> (score: i32)
        ensures
            score == self.score,
    {
        self.score
    }
}

/// One playthrough as it comes out of a page: game, mission, mode, difficulty,
/// time and score.
pub type RunRow = (GameId, i32, CampaignMode, Difficulty, TimeOfDay, i32);

/// What a player has achieved on one mission of one game.
#[derive(Debug, PartialEq, Eq)]
pub struct ServiceRecord {
    player: String,
    game_id: GameId,
    mission_id: i32,
    runs: Vec<ServiceRecordRun>,
}

/// The mathematical value of a [`ServiceRecord`].
pub struct ServiceRecordView {
    pub player: Seq<char>,
    pub game_id: GameId,
    pub mission_id: i32,
    pub runs: Seq<ServiceRecordRun>,
}

impl View for ServiceRecord {
    type V = ServiceRecordView;

    closed spec fn view(&self) -> ServiceRecordView {
        ServiceRecordView {
            player: self.player@,
            game_id: self.game_id,
            mission_id: self.mission_id,
            runs: self.runs@,
        }
    }
}

/// The game and mission a row belongs to.
pub open spec fn row_key(row: RunRow) -> (GameId, i32) {
    (row.0, row.1)
}

/// The playthrough a row describes.
pub open spec fn run_of(row: RunRow) -> ServiceRecordRun {
    ServiceRecordRun { campaign_mode: row.2, difficulty: row.3, time: row.4, score: row.5 }
}

/// The game and mission a record is about.
pub open spec fn record_key(record: ServiceRecordView) -> (GameId, i32) {
    (record.game_id, record.mission_id)
}

/// The order of records: by game, then by mission.
pub open spec fn key_before(a: (GameId, i32), b: (GameId, i32)) -> bool {
    a.0.0 < b.0.0 || (a.0.0 == b.0.0 && a.1 < b.1)
}

/// The playthroughs among `rows` that belong to `key`, in the order of the rows.
pub open spec fn runs_for(rows: Seq<RunRow>, key: (GameId, i32)) -> Seq<ServiceRecordRun> {
    rows.filter(|row: RunRow| row_key(row) == key).map_values(|row: RunRow| run_of(row))
}

/// The games and missions of `rows`, row by row.
pub open spec fn row_keys(rows: Seq<RunRow>) -> Seq<(GameId, i32)> {
    rows.map_values(|row: RunRow| row_key(row))
}

/// The games and missions of `records`, record by record.
pub open spec fn record_keys(records: Seq<ServiceRecordView>) -> Seq<(GameId, i32)> {
    records.map_values(|record: ServiceRecordView| record_key(record))
}

/// The keys are in strictly ascending order, so none occurs twice.
pub open spec fn ascending(keys: Seq<(GameId, i32)>) -> bool {
    forall|i: int, j: int|
        0 <= i < j < keys.len() ==> key_before(#[trigger] keys[i], #[trigger] keys[j])
}

/// The two sequences hold the same keys, however often and in whatever order.
pub open spec fn same_keys(a: Seq<(GameId, i32)>, b: Seq<(GameId, i32)>) -> bool {
    forall|key: (GameId, i32)| a.contains(key) <==> b.contains(key)
}

/// `records` is what `rows` come to for `player`: one record for each game and
/// mission that occurs among the rows and for no other, in ascending order of game
/// and mission, each holding the playthroughs of its rows in their order.
pub open spec fn aggregates(
    player: Seq<char>,
    rows: Seq<RunRow>,
    records: Seq<ServiceRecordView>,
) -> bool {
    &&& ascending(record_keys(records))
    &&& same_keys(record_keys(records), row_keys(rows))
    &&& forall|i: int|
        0 <= i < records.len() ==> {
            &&& (#[trigger] records[i]).player == player
            &&& records[i].runs == runs_for(rows, record_key(records[i]))
        }
}

/// A row that belongs to `key` leaves `key` with at least one playthrough.
pub proof fn lemma_runs_for_nonempty(rows: Seq<RunRow>, key: (GameId, i32), k: int)
    requires
        0 <= k < rows.len(),
        row_key(rows[k]) == key,
    ensures
        runs_for(rows, key).len() > 0,
    decreases rows.len(),
{
    let wanted = |row: RunRow| row_key(row) == key;
    reveal(Seq::filter);
    if k == rows.len() - 1 {
        assert(rows.filter(wanted) == rows.drop_last().filter(wanted).push(rows.last()));
    } else {
        lemma_runs_for_nonempty(rows.drop_last(), key, k);
        rows.drop_last().lemma_filter_len(wanted);
    }
}

/// A key that is already held stays covered when it is seen once more.
proof fn lemma_seen_again(keys: Seq<(GameId, i32)>, seen: Seq<(GameId, i32)>, key: (GameId, i32))
    requires
        same_keys(keys, seen),
        keys.contains(key),
    ensures
        same_keys(keys, seen.push(key)),
{
    let grown = seen.push(key);
    assert forall|x: (GameId, i32)| keys.contains(x) <==> grown.contains(x) by {
        if keys.contains(x) {
            let i = choose|i: int| 0 <= i < seen.len() && seen[i] == x;
            assert(grown[i] == x);
        }
        if grown.contains(x) {
            let i = choose|i: int| 0 <= i < grown.len() && grown[i] == x;
            if i < seen.len() {
                assert(seen[i] == x);
                assert(seen.contains(x));
            }
        }
    }
}

/// A new key, put where the order wants it, keeps the order and covers what was
/// seen together with the new key.
proof fn lemma_key_inserted(
    keys: Seq<(GameId, i32)>,
    seen: Seq<(GameId, i32)>,
    key: (GameId, i32),
    p: int,
)
    requires
        ascending(keys),
        same_keys(keys, seen),
        0 <= p <= keys.len(),
        forall|i: int| 0 <= i < p ==> key_before(#[trigger] keys[i], key),
        p < keys.len() ==> key_before(key, keys[p]),
    ensures
        ascending(keys.insert(p, key)),
        same_keys(keys.insert(p, key), seen.push(key)),
{
    let after = keys.insert(p, key);
    let grown = seen.push(key);
    assert forall|i: int, j: int| 0 <= i < j < after.len() implies key_before(
        #[trigger] after[i],
        #[trigger] after[j],
    ) by {
        if j < p {
            assert(key_before(keys[i], keys[j]));
        } else if j == p {
            assert(key_before(keys[i], key));
        } else if i < p {
            assert(key_before(keys[i], keys[j - 1]));
        } else if i == p {
            if j - 1 > p {
                assert(key_before(keys[p], keys[j - 1]));
            }
        } else {
            assert(key_before(keys[i - 1], keys[j - 1]));
        }
    }
    assert forall|x: (GameId, i32)| after.contains(x) <==> grown.contains(x) by {
        if after.contains(x) {
            let i = choose|i: int| 0 <= i < after.len() && after[i] == x;
            if i == p {
                assert(grown[seen.len() as int] == x);
            } else {
                let old_i = if i < p {
                    i
                } else {
                    i - 1
                };
                assert(keys[old_i] == x);
                assert(keys.contains(x));
                let m = choose|m: int| 0 <= m < seen.len() && seen[m] == x;
                assert(grown[m] == x);
            }
        }
        if grown.contains(x) {
            let m = choose|m: int| 0 <= m < grown.len() && grown[m] == x;
            if m < seen.len() {
                assert(seen[m] == x);
                assert(seen.contains(x));
                let i = choose|i: int| 0 <= i < keys.len() && keys[i] == x;
                let new_i = if i < p {
                    i
                } else {
                    i + 1
                };
                assert(after[new_i] == x);
            } else {
                assert(after[p] == x);
            }
        }
    }
}

impl ServiceRecord {
    pub fn new(player: String, game_id: GameId, mission_id: i32, runs: Vec<ServiceRecordRun>) -> (made:
        Self)
        ensures
            made@ == (ServiceRecordView { player: player@, game_id, mission_id, runs: runs@ }),
    {
        Self { player, game_id, mission_id, runs }
    }

    pub fn player(&self) -> (player: String)
        ensures
            player@ == self@.player,
    {
        self.player.clone()
    }

    pub fn game_id(&self) -> (game_id: GameId)
        ensures
            game_id == self@.game_id,
    {
        self.game_id
    }

    pub fn mission_id(&self) -> (mission_id: i32)
        ensures
            mission_id == self@.mission_id,
    {
        self.mission_id
    }

    pub fn runs(&self) -> (runs: Vec<ServiceRecordRun>)
        ensures
            runs@ == self@.runs,
    {
        self.runs.clone()
    }

    /// The games and missions that occur among `rows`, each once, in ascending
    /// order.
    fn keys_of(rows: &[RunRow]) -> (keys: Vec<(GameId, i32)>)
        ensures
            ascending(keys@),
            same_keys(keys@, row_keys(rows@)),
    {
        let mut keys: Vec<(GameId, i32)> = Vec::new();
        let mut k: usize = 0;
        assert(same_keys(keys@, row_keys(rows@.take(0))));
        while k < rows.len()
            invariant
                k <= rows.len(),
                ascending(keys@),
                same_keys(keys@, row_keys(rows@.take(k as int))),
            decreases rows.len() - k,
        {
            let key = (rows[k].0, rows[k].1);
            let mut p: usize = 0;
            while p < keys.len() && (keys[p].0.0 < key.0.0 || (keys[p].0.0 == key.0.0 && keys[p].1
                < key.1))
                invariant
                    p <= keys.len(),
                    forall|i: int| 0 <= i < p ==> key_before(#[trigger] keys@[i], key),
                decreases keys.len() - p,
            {
                p += 1;
            }
            assert(row_keys(rows@.take(k + 1)) =~= row_keys(rows@.take(k as int)).push(key));
            if p < keys.len() && keys[p].0.0 == key.0.0 && keys[p].1 == key.1 {
                proof {
                    assert(keys@[p as int] == key);
                    lemma_seen_again(keys@, row_keys(rows@.take(k as int)), key);
                }
            } else {
                proof {
                    lemma_key_inserted(keys@, row_keys(rows@.take(k as int)), key, p as int);
                }
                keys.insert(p, key);
            }
            k += 1;
        }
        assert(rows@.take(k as int) =~= rows@);
        keys
    }

    /// The playthroughs among `rows` that belong to `key`, in the order of the
    /// rows.
    fn runs_of_key(rows: &[RunRow], key: (GameId, i32)) -> (runs: Vec<ServiceRecordRun>)
        ensures
            runs@ == runs_for(rows@, key),
    {
        let ghost wanted = |row: RunRow| row_key(row) == key;
        let ghost made = |row: RunRow| run_of(row);
        let mut runs: Vec<ServiceRecordRun> = Vec::new();
        let mut k: usize = 0;
        assert(rows@.take(0).filter(wanted) =~= Seq::<RunRow>::empty()) by {
            reveal(Seq::filter);
        }
        while k < rows.len()
            invariant
                k <= rows.len(),
                wanted == (|row: RunRow| row_key(row) == key),
                made == (|row: RunRow| run_of(row)),
                runs@ == rows@.take(k as int).filter(wanted).map_values(made),
            decreases rows.len() - k,
        {
            let row = rows[k];
            proof {
                lemma_filter_step(rows@, wanted, k as int);
            }
            if row.0.0 == key.0.0 && row.1 == key.1 {
                runs.push(ServiceRecordRun::new(row.2, row.3, row.4, row.5));
                assert(runs@ =~= rows@.take(k + 1).filter(wanted).map_values(made));
            }
            k += 1;
        }
        assert(rows@.take(k as int) =~= rows@);
        runs
    }

    /// Groups the playthroughs of `runs` by game and mission: one record for each
    /// game and mission that occurs, in ascending order of game and mission, with
    /// the playthroughs in the order in which they came.
    pub fn from_player_and_runs(player: &str, runs: &[RunRow]) -> (records: Vec<Self>)
        ensures
            aggregates(player@, runs@, views_of(records@)),
    {
        let keys = Self::keys_of(runs);
        let mut records: Vec<ServiceRecord> = Vec::new();
        let mut i: usize = 0;
        while i < keys.len()
            invariant
                i <= keys.len(),
                records.len() == i,
                forall|j: int|
                    0 <= j < i ==> {
                        &&& record_key((#[trigger] records@[j])@) == keys@[j]
                        &&& records@[j]@.player == player@
                        &&& records@[j]@.runs == runs_for(runs@, keys@[j])
                    },
            decreases keys.len() - i,
        {
            let key = keys[i];
            let of_key = Self::runs_of_key(runs, key);
            records.push(ServiceRecord::new(player.to_owned(), key.0, key.1, of_key));
            i += 1;
        }
        proof {
            let made = views_of(records@);
            assert(record_keys(made) =~= keys@) by {
                assert forall|j: int| 0 <= j < made.len() implies record_keys(made)[j] == keys@[j] by {
                    assert(record_key(records@[j]@) == keys@[j]);
                }
            }
            assert forall|a: int| 0 <= a < made.len() implies {
                &&& (#[trigger] made[a]).player == player@
                &&& made[a].runs == runs_for(runs@, record_key(made[a]))
            } by {
                assert(record_key(records@[a]@) == keys@[a]);
            }
        }
        records
    }
}

/// How many playthroughs the records hold, all together.
pub open spec fn total_runs(records: Seq<ServiceRecordView>) -> nat
    decreases records.len(),
{
    if records.len() == 0 {
        0
    } else {
        total_runs(records.drop_last()) + records.last().runs.len()
    }
}

/// How many of the rows belong to one of the keys, counted key by key.
pub open spec fn rows_under(rows: Seq<RunRow>, keys: Seq<(GameId, i32)>) -> nat
    decreases keys.len(),
{
    if keys.len() == 0 {
        0
    } else {
        rows_under(rows, keys.drop_last()) + runs_for(rows, keys.last()).len()
    }
}

/// One row more adds one playthrough to the key it belongs to and none to any
/// other key.
proof fn lemma_runs_for_push(rows: Seq<RunRow>, row: RunRow, key: (GameId, i32))
    ensures
        runs_for(rows.push(row), key) == if row_key(row) == key {
            runs_for(rows, key).push(run_of(row))
        } else {
            runs_for(rows, key)
        },
{
    let wanted = |r: RunRow| row_key(r) == key;
    reveal(Seq::filter);
    assert(rows.push(row).drop_last() =~= rows);
    if row_key(row) == key {
        assert(rows.push(row).filter(wanted) == rows.filter(wanted).push(row));
        assert(runs_for(rows.push(row), key) =~= runs_for(rows, key).push(run_of(row)));
    }
}

/// Keys in ascending order are all different.
proof fn lemma_ascending_keys_differ(keys: Seq<(GameId, i32)>, i: int, j: int)
    requires
        ascending(keys),
        0 <= i < keys.len(),
        0 <= j < keys.len(),
        i != j,
    ensures
        keys[i] != keys[j],
{
    if i < j {
        assert(key_before(keys[i], keys[j]));
    } else {
        assert(key_before(keys[j], keys[i]));
    }
}

/// One row more is counted once where its key is among the keys, and not at all
/// where it is not.
proof fn lemma_rows_under_push(rows: Seq<RunRow>, row: RunRow, keys: Seq<(GameId, i32)>)
    requires
        ascending(keys),
    ensures
        rows_under(rows.push(row), keys) == rows_under(rows, keys) + if keys.contains(row_key(row)) {
            1nat
        } else {
            0nat
        },
    decreases keys.len(),
{
    if keys.len() > 0 {
        let front = keys.drop_last();
        let last = keys.last();
        assert(ascending(front)) by {
            assert forall|i: int, j: int| 0 <= i < j < front.len() implies key_before(
                #[trigger] front[i],
                #[trigger] front[j],
            ) by {
                assert(key_before(keys[i], keys[j]));
            }
        }
        lemma_rows_under_push(rows, row, front);
        lemma_runs_for_push(rows, row, last);
        if last == row_key(row) {
            assert(keys[keys.len() - 1] == row_key(row));
            assert(keys.contains(row_key(row)));
            if front.contains(row_key(row)) {
                let i = choose|i: int| 0 <= i < front.len() && front[i] == row_key(row);
                lemma_ascending_keys_differ(keys, i, keys.len() - 1);
            }
        } else {
            if keys.contains(row_key(row)) {
                let i = choose|i: int| 0 <= i < keys.len() && keys[i] == row_key(row);
                assert(front[i] == row_key(row));
            }
            if front.contains(row_key(row)) {
                let i = choose|i: int| 0 <= i < front.len() && front[i] == row_key(row);
                assert(keys[i] == row_key(row));
            }
        }
    }
}

/// No rows, nothing to count.
proof fn lemma_rows_under_empty(keys: Seq<(GameId, i32)>)
    ensures
        rows_under(Seq::<RunRow>::empty(), keys) == 0,
    decreases keys.len(),
{
    if keys.len() > 0 {
        lemma_rows_under_empty(keys.drop_last());
        let wanted = |r: RunRow| row_key(r) == keys.last();
        reveal(Seq::filter);
        assert(Seq::<RunRow>::empty().filter(wanted) =~= Seq::<RunRow>::empty());
    }
}

/// Where every row has its key among keys in ascending order, every row is
/// counted exactly once.
proof fn lemma_rows_under_all(rows: Seq<RunRow>, keys: Seq<(GameId, i32)>)
    requires
        ascending(keys),
        forall|k: int| 0 <= k < rows.len() ==> keys.contains(row_key(#[trigger] rows[k])),
    ensures
        rows_under(rows, keys) == rows.len(),
    decreases rows.len(),
{
    if rows.len() == 0 {
        assert(rows =~= Seq::<RunRow>::empty());
        lemma_rows_under_empty(keys);
    } else {
        let front = rows.drop_last();
        assert forall|k: int| 0 <= k < front.len() implies keys.contains(
            row_key(#[trigger] front[k]),
        ) by {
            assert(front[k] == rows[k]);
        }
        lemma_rows_under_all(front, keys);
        lemma_rows_under_push(front, rows.last(), keys);
        assert(front.push(rows.last()) =~= rows);
        assert(keys.contains(row_key(rows[rows.len() - 1])));
    }
}

/// The playthroughs of the records are the rows counted under the records' keys.
proof fn lemma_total_runs_counts_rows(
    player: Seq<char>,
    rows: Seq<RunRow>,
    records: Seq<ServiceRecordView>,
)
    requires
        forall|i: int|
            0 <= i < records.len() ==> (#[trigger] records[i]).runs == runs_for(
                rows,
                record_key(records[i]),
            ),
    ensures
        total_runs(records) == rows_under(rows, record_keys(records)),
    decreases records.len(),
{
    if records.len() > 0 {
        let front = records.drop_last();
        assert forall|i: int| 0 <= i < front.len() implies (#[trigger] front[i]).runs == runs_for(
            rows,
            record_key(front[i]),
        ) by {
            assert(front[i] == records[i]);
        }
        lemma_total_runs_counts_rows(player, rows, front);
        assert(record_keys(records).drop_last() =~= record_keys(front));
        assert(record_keys(records).last() == record_key(records.last()));
        assert(records.last() == records[records.len() - 1]);
    }
}

/// Every row gives exactly one playthrough: the records hold as many
/// playthroughs, all together, as there are rows.
pub proof fn lemma_one_run_for_each_row(
    player: Seq<char>,
    rows: Seq<RunRow>,
    records: Seq<ServiceRecordView>,
)
    requires
        aggregates(player, rows, records),
    ensures
        total_runs(records) == rows.len(),
{
    lemma_total_runs_counts_rows(player, rows, records);
    let keys = record_keys(records);
    assert forall|k: int| 0 <= k < rows.len() implies keys.contains(row_key(#[trigger] rows[k])) by {
        assert(row_keys(rows)[k] == row_key(rows[k]));
        assert(row_keys(rows).contains(row_key(rows[k])));
    }
    lemma_rows_under_all(rows, keys);
}

/// Every record stems from a row: no record is without playthroughs, so a game
/// and mission that no row belongs to has no record.
pub proof fn lemma_no_record_without_rows(
    player: Seq<char>,
    rows: Seq<RunRow>,
    records: Seq<ServiceRecordView>,
    i: int,
)
    requires
        aggregates(player, rows, records),
        0 <= i < records.len(),
    ensures
        records[i].runs.len() > 0,
        row_keys(rows).contains(record_key(records[i])),
{
    let key = record_key(records[i]);
    assert(record_keys(records)[i] == key);
    assert(record_keys(records).contains(key));
    let k = choose|k: int| 0 <= k < row_keys(rows).len() && row_keys(rows)[k] == key;
    assert(row_key(rows[k]) == key);
    lemma_runs_for_nonempty(rows, key, k);
}

/// The playthrough of a row is found in the record of the row's game and
/// mission.
pub proof fn lemma_row_is_in_its_record(
    player: Seq<char>,
    rows: Seq<RunRow>,
    records: Seq<ServiceRecordView>,
    k: int,
)
    requires
        aggregates(player, rows, records),
        0 <= k < rows.len(),
    ensures
        exists|i: int|
            0 <= i < records.len() && record_key(#[trigger] records[i]) == row_key(rows[k])
                && records[i].runs.contains(run_of(rows[k])),
{
    let key = row_key(rows[k]);
    assert(row_keys(rows)[k] == key);
    assert(row_keys(rows).contains(key));
    let i = choose|i: int| 0 <= i < record_keys(records).len() && record_keys(records)[i] == key;
    assert(record_key(records[i]) == key);
    let wanted = |row: RunRow| row_key(row) == key;
    let kept = rows.filter(wanted);
    assert(kept.contains(rows[k])) by {
        rows.lemma_filter_contains(wanted, k);
    }
    let m = choose|m: int| 0 <= m < kept.len() && kept[m] == rows[k];
    assert(runs_for(rows, key)[m] == run_of(rows[k]));
}

/// Two sequences of keys in ascending order that hold the same keys are the same
/// sequence.
proof fn lemma_ascending_keys_unique(a: Seq<(GameId, i32)>, b: Seq<(GameId, i32)>)
    requires
        ascending(a),
        ascending(b),
        same_keys(a, b),
    ensures
        a == b,
    decreases a.len(),
{
    if a.len() == 0 {
        if b.len() > 0 {
            assert(b.contains(b[0]));
            assert(a.contains(b[0]));
        }
        assert(a =~= b);
    } else {
        assert(a.contains(a[0]));
        assert(b.contains(a[0]));
        let j = choose|j: int| 0 <= j < b.len() && b[j] == a[0];
        assert(b.contains(b[0]));
        assert(a.contains(b[0]));
        let i = choose|i: int| 0 <= i < a.len() && a[i] == b[0];
        if i > 0 {
            assert(key_before(a[0], a[i]));
        }
        if j > 0 {
            assert(key_before(b[0], b[j]));
        }
        assert(a[0] == b[0]);
        let a_rest = a.drop_first();
        let b_rest = b.drop_first();
        assert(ascending(a_rest)) by {
            assert forall|x: int, y: int| 0 <= x < y < a_rest.len() implies key_before(
                #[trigger] a_rest[x],
                #[trigger] a_rest[y],
            ) by {
                assert(key_before(a[x + 1], a[y + 1]));
            }
        }
        assert(ascending(b_rest)) by {
            assert forall|x: int, y: int| 0 <= x < y < b_rest.len() implies key_before(
                #[trigger] b_rest[x],
                #[trigger] b_rest[y],
            ) by {
                assert(key_before(b[x + 1], b[y + 1]));
            }
        }
        assert forall|key: (GameId, i32)| a_rest.contains(key) <==> b_rest.contains(key) by {
            if a_rest.contains(key) {
                let x = choose|x: int| 0 <= x < a_rest.len() && a_rest[x] == key;
                assert(a[x + 1] == key);
                assert(key_before(a[0], a[x + 1]));
                assert(a.contains(key));
                let y = choose|y: int| 0 <= y < b.len() && b[y] == key;
                assert(y > 0);
                assert(b_rest[y - 1] == key);
            }
            if b_rest.contains(key) {
                let y = choose|y: int| 0 <= y < b_rest.len() && b_rest[y] == key;
                assert(b[y + 1] == key);
                assert(key_before(b[0], b[y + 1]));
                assert(b.contains(key));
                let x = choose|x: int| 0 <= x < a.len() && a[x] == key;
                assert(x > 0);
                assert(a_rest[x - 1] == key);
            }
        }
        lemma_ascending_keys_unique(a_rest, b_rest);
        assert(a =~= seq![a[0]] + a_rest);
        assert(b =~= seq![b[0]] + b_rest);
    }
}

/// The rows and the player settle the records: there is one way only to group
/// the rows.
pub proof fn lemma_aggregate_is_unique(
    player: Seq<char>,
    rows: Seq<RunRow>,
    one: Seq<ServiceRecordView>,
    other: Seq<ServiceRecordView>,
)
    requires
        aggregates(player, rows, one),
        aggregates(player, rows, other),
    ensures
        one == other,
{
    let a = record_keys(one);
    let b = record_keys(other);
    assert(same_keys(a, b));
    lemma_ascending_keys_unique(a, b);
    assert(a.len() == one.len());
    assert(b.len() == other.len());
    assert forall|i: int| 0 <= i < one.len() implies one[i] == other[i] by {
        assert(a[i] == b[i]);
        assert(record_key(one[i]) == record_key(other[i]));
        assert(one[i].runs == other[i].runs);
        assert(one[i].player == other[i].player);
    }
    assert(one =~= other);
}

} // verus!
