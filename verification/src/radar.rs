use std::collections::VecDeque;
use vstd::prelude::*;

verus! {

broadcast use vstd::std_specs::vecdeque::group_vec_dequeue_axioms;

/// How many radar readings a car keeps, newest first.
pub const RADAR_HISTORY_LEN: usize = 10;

/// What the radar measures of the car ahead: its distance from this car, and
/// whether that distance is past the radar reach (more than 200 m).
#[derive(Clone, Copy, Debug)]
pub struct AheadDistance<T> {
    pub distance_m: T,
    pub beyond_radar: bool,
}

/// The reading the radar records: the distance to the car ahead when there is
/// one within reach, and no distance otherwise.
pub open spec fn reading_of<T>(ahead: Option<AheadDistance<T>>) -> Option<T> {
    match ahead {
        Some(a) => if a.beyond_radar {
            None
        } else {
            Some(a.distance_m)
        },
        None => None,
    }
}

/// The history after one more reading: the reading goes in front, and the
/// oldest reading leaves once there are more than `RADAR_HISTORY_LEN`.
pub open spec fn recorded<T>(history: Seq<Option<T>>, reading: Option<T>) -> Seq<Option<T>> {
    let pushed = seq![reading] + history;
    if pushed.len() > RADAR_HISTORY_LEN {
        pushed.drop_last()
    } else {
        pushed
    }
}

/// The pair of readings from which the speed at position `i` of a history is
/// computed: the reading there and the one taken before it, when both hold a
/// distance; no pair when either holds none.
pub open spec fn pair_at<T>(history: Seq<Option<T>>, i: int) -> Option<(T, T)> {
    match history[i] {
        None => None,
        Some(x) => match history[i + 1] {
            Some(p) => Some((x, p)),
            None => None,
        },
    }
}

/// How many speed entries a history yields: one per reading, except the
/// oldest when it holds a distance (it has no earlier reading to pair with).
pub open spec fn speed_entry_count<T>(history: Seq<Option<T>>) -> nat {
    if history.len() > 0 && history.last() is Some {
        (history.len() - 1) as nat
    } else {
        history.len()
    }
}

/// The speed entries of a history, newest first.
pub open spec fn speed_pairs<T>(history: Seq<Option<T>>) -> Seq<Option<(T, T)>> {
    Seq::new(speed_entry_count(history), |i: int| pair_at(history, i))
}

/// Recording a reading puts it in front and shifts the earlier readings back
/// by one, keeping at most `RADAR_HISTORY_LEN`: the history grows by one until
/// it is full, and from then on the oldest reading leaves.
pub proof fn lemma_recording_shifts_history<T>(history: Seq<Option<T>>, reading: Option<T>)
    requires
        history.len() <= RADAR_HISTORY_LEN,
    ensures
        recorded(history, reading).len() == (if history.len() < RADAR_HISTORY_LEN {
            history.len() + 1 as int
        } else {
            RADAR_HISTORY_LEN as int
        }),
        recorded(history, reading)[0] == reading,
        forall|i: int|
            1 <= i < recorded(history, reading).len() ==> #[trigger] recorded(history, reading)[i]
                == history[i - 1],
{
}

/// The history after recording each of `readings` in turn, first to last.
pub open spec fn recorded_all<T>(history: Seq<Option<T>>, readings: Seq<Option<T>>) -> Seq<
    Option<T>,
>
    decreases readings.len(),
{
    if readings.len() == 0 {
        history
    } else {
        recorded(recorded_all(history, readings.drop_last()), readings.last())
    }
}

/// A radar history holds the newest readings, newest first, and never more
/// than `RADAR_HISTORY_LEN` of them: after recording `readings` in turn onto
/// a history, it is the recorded readings in reverse order followed by the
/// earlier history, cut to `RADAR_HISTORY_LEN`.
pub proof fn lemma_history_holds_newest_readings<T>(
    history: Seq<Option<T>>,
    readings: Seq<Option<T>>,
)
    requires
        history.len() <= RADAR_HISTORY_LEN,
    ensures
        ({
            let all = readings.reverse() + history;
            let kept = if all.len() > RADAR_HISTORY_LEN {
                RADAR_HISTORY_LEN as int
            } else {
                all.len() as int
            };
            recorded_all(history, readings) == all.take(kept)
        }),
    decreases readings.len(),
{
    let all = readings.reverse() + history;
    if readings.len() == 0 {
        assert(all =~= history);
        assert(all.take(all.len() as int) =~= all);
    } else {
        let earlier = readings.drop_last();
        lemma_history_holds_newest_readings(history, earlier);
        let all0 = earlier.reverse() + history;
        assert(all =~= seq![readings.last()] + all0);
        let kept0 = if all0.len() > RADAR_HISTORY_LEN {
            RADAR_HISTORY_LEN as int
        } else {
            all0.len() as int
        };
        let prev = all0.take(kept0);
        assert(recorded_all(history, readings) == recorded(prev, readings.last()));
        let pushed = seq![readings.last()] + prev;
        if pushed.len() > RADAR_HISTORY_LEN {
            assert(pushed.drop_last() =~= all.take(RADAR_HISTORY_LEN as int));
        } else {
            assert(pushed =~= all.take(all.len() as int));
        }
    }
}

/// The readings of a bounded radar history, newest first.
pub struct RadarHistory<T> {
    readings: VecDeque<Option<T>>,
}

impl<T> View for RadarHistory<T> {
    type V = Seq<Option<T>>;

    closed spec fn view(&self) -> Seq<Option<T>> {
        self.readings@
    }
}

impl<T> RadarHistory<T> {
    #[verifier::type_invariant]
    spec fn bounded(self) -> bool {
        self.readings@.len() <= RADAR_HISTORY_LEN
    }

    /// An empty history.
    pub fn new() -> (r: Self)
        ensures
            r@ == Seq::<Option<T>>::empty(),
    {
        RadarHistory { readings: VecDeque::new() }
    }

    /// The number of readings held.
    pub fn len(&self) -> (r: usize)
        ensures
            r == self@.len(),
            r <= RADAR_HISTORY_LEN,
    {
        proof {
            use_type_invariant(self);
        }
        self.readings.len()
    }

    /// The reading at `index`, counted from the newest.
    pub fn get(&self, index: usize) -> (r: Option<&Option<T>>)
        ensures
            r == (if index < self@.len() {
                Some(&self@[index as int])
            } else {
                None
            }),
    {
        if index < self.readings.len() {
            Some(&self.readings[index])
        } else {
            None
        }
    }

    /// Records what the radar measures of the car ahead (`None`: no car ahead).
    pub fn read_radar(&mut self, ahead: Option<AheadDistance<T>>)
        ensures
            old(self)@.len() <= RADAR_HISTORY_LEN,
            final(self)@ == recorded(old(self)@, reading_of(ahead)),
            final(self)@.len() <= RADAR_HISTORY_LEN,
            final(self)@.len() == (if old(self)@.len() < RADAR_HISTORY_LEN {
                old(self)@.len() + 1 as int
            } else {
                RADAR_HISTORY_LEN as int
            }),
            (ahead is None || ahead->0.beyond_radar) ==> final(self)@[0] is None,
            ahead matches Some(a) ==> !a.beyond_radar ==> final(self)@[0] == Some(a.distance_m),
            forall|i: int|
                1 <= i < final(self)@.len() ==> #[trigger] final(self)@[i] == old(self)@[i - 1],
    {
        proof {
            use_type_invariant(&*self);
        }
        let reading = match ahead {
            Some(a) => if a.beyond_radar {
                None
            } else {
                Some(a.distance_m)
            },
            None => None,
        };
        let mut readings = VecDeque::new();
        std::mem::swap(&mut readings, &mut self.readings);
        readings.push_front(reading);
        if readings.len() > RADAR_HISTORY_LEN {
            readings.pop_back();
        }
        self.readings = readings;
    }
}

/// The newest speed entry comes from the reading just recorded and the one
/// recorded before it: recording no distance gives a `None` entry in front;
/// recording a distance onto a non-empty history gives the pair of it and the
/// previous newest reading (or `None` when that holds no distance); a distance
/// recorded onto an empty history gives no entry yet.
pub proof fn lemma_newest_speed_entry<T>(history: Seq<Option<T>>, reading: Option<T>)
    requires
        history.len() <= RADAR_HISTORY_LEN,
    ensures
        ({
            let entries = speed_pairs(recorded(history, reading));
            &&& reading is None ==> entries.len() > 0 && entries[0] is None
            &&& reading matches Some(x) ==> history.len() > 0 ==> entries.len() > 0
                && entries[0] == (match history[0] {
                Some(p) => Some((x, p)),
                None => None,
            })
            &&& (reading is Some && history.len() == 0) ==> entries.len() == 0
        }),
{
    let h = recorded(history, reading);
    assert(h[0] == reading);
    if history.len() > 0 {
        assert(h.len() >= 2);
        assert(h[1] == history[0]);
    }
}

/// Each speed entry comes from a reading and the reading taken just before
/// it: one entry per reading, newest first, except for the oldest reading
/// when it holds a distance; an entry is the pair (reading, reading before it)
/// when both hold a distance, and `None` when either holds none.
pub proof fn lemma_speed_entries_pair_consecutive_readings<T>(history: Seq<Option<T>>)
    ensures
        speed_pairs(history).len() == (if history.len() > 0 && history[history.len() - 1] is Some {
            history.len() - 1
        } else {
            history.len() as int
        }),
        forall|i: int|
            0 <= i < speed_pairs(history).len() && history[i] is None ==> (#[trigger] speed_pairs(
                history,
            )[i]) is None,
        forall|i: int|
            0 <= i && i + 1 < history.len() && history[i + 1] is None ==> (#[trigger] speed_pairs(
                history,
            )[i]) is None,
        forall|i: int|
            0 <= i && i + 1 < history.len() && history[i] is Some && history[i + 1] is Some ==> (
            #[trigger] speed_pairs(history)[i]) == Some((history[i]->0, history[i + 1]->0)),
{
}

impl<T: Clone> Clone for RadarHistory<T> {
    /// A copy holding the same number of readings, each a clone of the
    /// reading at the same position.
    fn clone(&self) -> (r: Self)
        ensures
            r@.len() == self@.len(),
            forall|i: int| 0 <= i < self@.len() ==> cloned::<Option<T>>(self@[i], r@[i]),
    {
        proof {
            use_type_invariant(self);
        }
        RadarHistory { readings: self.readings.clone() }
    }
}

impl<T: Copy> RadarHistory<T> {
    /// For each reading, newest first, the pair (reading, reading before it)
    /// from which the speed of the car ahead is computed: `None` where either
    /// reading holds no distance, and no entry for the oldest reading when it
    /// holds a distance.
    pub fn speed_pairs_front(&self) -> (r: Vec<Option<(T, T)>>)
        ensures
            r@ == speed_pairs(self@),
            r@.len() == (if self@.len() > 0 && self@[self@.len() - 1] is Some {
                self@.len() - 1
            } else {
                self@.len() as int
            }),
            forall|i: int|
                0 <= i < r@.len() && self@[i] is None ==> (#[trigger] r@[i]) is None,
            forall|i: int|
                0 <= i && i + 1 < self@.len() && self@[i + 1] is None ==> (#[trigger] r@[i]) is None,
            forall|i: int|
                0 <= i && i + 1 < self@.len() && self@[i] is Some && self@[i + 1] is Some ==> (
                #[trigger] r@[i]) == Some((self@[i]->0, self@[i + 1]->0)),
    {
        let n = self.readings.len();
        let mut out: Vec<Option<(T, T)>> = Vec::new();
        let mut i: usize = 0;
        while i < n
            invariant
                n == self@.len(),
                i <= n,
                out@.len() == (if i == n && n > 0 && self@[n - 1] is Some {
                    i - 1
                } else {
                    i as int
                }),
                forall|k: int| 0 <= k < out@.len() ==> out@[k] == pair_at(self@, k),
            decreases n - i,
        {
            let cur = self.readings[i];
            match cur {
                Some(x) => {
                    if i + 1 < n {
                        let prev = self.readings[i + 1];
                        match prev {
                            Some(p) => out.push(Some((x, p))),
                            None => out.push(None),
                        }
                    }
                },
                None => out.push(None),
            }
            i += 1;
        }
        assert(out@ =~= speed_pairs(self@));
        out
    }
}

} // verus!
