//! The store of live cubes and the passes that a tick makes over it:
//! moving, resolving key presses and reaping the expired.

use crate::cube::{
    lemma_course_in_range, lemma_stays_on_course, Color, Cube, CubeModel, Direction,
};
use crate::input::ArrowKeys;
use vstd::prelude::*;

verus! {

/// Cubes that no pressed key stands for.
pub open spec fn spared(keys: ArrowKeys) -> spec_fn(CubeModel) -> bool {
    |c: CubeModel| !keys.pressed(c.direction)
}

/// Purple cubes whose key was pressed.
pub open spec fn hit(keys: ArrowKeys) -> spec_fn(CubeModel) -> bool {
    |c: CubeModel| keys.pressed(c.direction) && c.color is Purple
}

/// Cubes of the wrong colour whose key was pressed.
pub open spec fn fouled(keys: ArrowKeys) -> spec_fn(CubeModel) -> bool {
    |c: CubeModel| keys.pressed(c.direction) && c.color is NonPurple
}

/// Cubes whose lifetime has not run out.
pub open spec fn alive() -> spec_fn(CubeModel) -> bool {
    |c: CubeModel| !c.expired()
}

/// Purple cubes whose lifetime has run out.
pub open spec fn missed() -> spec_fn(CubeModel) -> bool {
    |c: CubeModel| c.expired() && c.color is Purple
}

/// Travelling for `delta` nanoseconds.
pub open spec fn travel(delta: nat) -> spec_fn(CubeModel) -> CubeModel {
    |c: CubeModel| c.moved(delta)
}

/// Ageing by `delta` nanoseconds.
pub open spec fn grow_older(delta: nat) -> spec_fn(CubeModel) -> CubeModel {
    |c: CubeModel| c.aged(delta)
}

/// Mathematical model of a [`CubeStore`].
pub struct StoreModel {
    /// The live cubes, oldest first.
    pub cubes: Seq<CubeModel>,
    /// How many cubes have been spawned since the store was last cleared;
    /// also the identity that the next cube gets.
    pub issued: nat,
}

impl StoreModel {
    /// Every cube is well-formed, and the identities rise along the
    /// sequence and stay below `issued`: no two cubes share one, and no more
    /// cubes live than were spawned.
    pub open spec fn wf(self) -> bool {
        &&& self.cubes.len() <= self.issued
        &&& forall|i: int|
            0 <= i < self.cubes.len() ==> (#[trigger] self.cubes[i]).wf() && self.cubes[i].id
                < self.issued
        &&& forall|i: int, j: int|
            0 <= i < j < self.cubes.len() ==> (#[trigger] self.cubes[i]).id
                < (#[trigger] self.cubes[j]).id
    }

    /// Every cube stands where its speed and its age put it, and is alive.
    pub open spec fn on_course(self) -> bool {
        forall|i: int| 0 <= i < self.cubes.len() ==> (#[trigger] self.cubes[i]).on_course()
    }

    pub open spec fn empty() -> StoreModel {
        StoreModel { cubes: Seq::empty(), issued: 0 }
    }

    /// The store with one more cube, fresh at the origin.
    pub open spec fn spawned(self, direction: Direction, color: Color, speed: nat) -> StoreModel {
        StoreModel {
            cubes: self.cubes.push(CubeModel::fresh(self.issued, direction, color, speed)),
            issued: self.issued + 1,
        }
    }

    /// Whether every cube can travel for `delta` without leaving the range of positions.
    pub open spec fn can_advance(self, delta: nat) -> bool {
        forall|i: int| 0 <= i < self.cubes.len() ==> (#[trigger] self.cubes[i]).moved(delta).in_range()
    }

    /// Every cube moved along its direction for `delta` nanoseconds.
    pub open spec fn advanced(self, delta: nat) -> StoreModel {
        StoreModel { cubes: self.cubes.map_values(travel(delta)), ..self }
    }

    /// The cubes that a press leaves: those whose direction no pressed key
    /// stands for, unchanged and in their order.
    pub open spec fn resolved(self, keys: ArrowKeys) -> StoreModel {
        StoreModel { cubes: self.cubes.filter(spared(keys)), ..self }
    }

    /// Number of purple cubes that the pressed keys stand for.
    pub open spec fn hits(self, keys: ArrowKeys) -> nat {
        self.cubes.filter(hit(keys)).len()
    }

    /// Number of cubes of the wrong colour that the pressed keys stand for.
    pub open spec fn fouls(self, keys: ArrowKeys) -> nat {
        self.cubes.filter(fouled(keys)).len()
    }

    /// Every cube's lifetime advanced by `delta` nanoseconds.
    pub open spec fn aged(self, delta: nat) -> StoreModel {
        StoreModel { cubes: self.cubes.map_values(grow_older(delta)), ..self }
    }

    /// The cubes that are still alive after `delta` more nanoseconds, aged.
    pub open spec fn reaped(self, delta: nat) -> StoreModel {
        StoreModel { cubes: self.aged(delta).cubes.filter(alive()), ..self }
    }

    /// Number of purple cubes whose lifetime runs out within `delta` more nanoseconds.
    pub open spec fn misses(self, delta: nat) -> nat {
        self.aged(delta).cubes.filter(missed()).len()
    }
}

/// What a press did: how many cubes it hit rightly and how many wrongly.
#[derive(Clone, Copy, Debug, PartialEq, Eq)]
pub struct Outcome {
    /// Purple cubes resolved.
    pub hits: usize,
    /// Cubes of the wrong colour resolved.
    pub fouls: usize,
}

/// The models of a sequence of cubes.
spec fn models(cubes: Seq<Cube>) -> Seq<CubeModel> {
    cubes.map_values(|c: Cube| c@)
}

/// The live cubes, in the order in which they were spawned.
#[derive(Clone, Debug, PartialEq, Eq)]
pub struct CubeStore {
    cubes: Vec<Cube>,
    issued: u64,
}

impl View for CubeStore {
    type V = StoreModel;

    closed spec fn view(&self) -> StoreModel {
        StoreModel { cubes: models(self.cubes@), issued: self.issued as nat }
    }
}

/// A filter keeps the order of the cubes, so what it leaves of a
/// well-formed store is well-formed, and it leaves only what was there.
pub(crate) proof fn lemma_filter_wf(store: StoreModel, pred: spec_fn(CubeModel) -> bool)
    requires
        store.wf(),
    ensures
        (StoreModel { cubes: store.cubes.filter(pred), ..store }).wf(),
        forall|k: int|
            0 <= k < store.cubes.filter(pred).len() ==> store.cubes.contains(
                #[trigger] store.cubes.filter(pred)[k],
            ) && pred(store.cubes.filter(pred)[k]),
    decreases store.cubes.len(),
{
    reveal(Seq::filter);
    let cubes = store.cubes;
    cubes.lemma_filter_len(pred);
    if cubes.len() > 0 {
        let init = StoreModel { cubes: cubes.drop_last(), ..store };
        lemma_filter_wf(init, pred);
        let kept = init.cubes.filter(pred);
        let out = cubes.filter(pred);
        assert forall|k: int| 0 <= k < kept.len() implies cubes.contains(#[trigger] kept[k])
            && kept[k].id < cubes.last().id by {
            let c = kept[k];
            assert(init.cubes.contains(c));
            let m = choose|m: int| 0 <= m < init.cubes.len() && init.cubes[m] == c;
            assert(cubes[m] == c);
        }
        if pred(cubes.last()) {
            assert(out == kept.push(cubes.last()));
            assert(cubes[cubes.len() - 1] == cubes.last());
            assert forall|k: int| 0 <= k < out.len() implies cubes.contains(#[trigger] out[k])
                && pred(out[k]) by {
                if k < kept.len() {
                    assert(out[k] == kept[k]);
                }
            }
            assert forall|i: int, j: int| 0 <= i < j < out.len() implies (#[trigger] out[i]).id
                < (#[trigger] out[j]).id by {
                if j < kept.len() {
                    assert(out[i] == kept[i] && out[j] == kept[j]);
                } else {
                    assert(out[i] == kept[i]);
                }
            }
            assert forall|i: int| 0 <= i < out.len() implies (#[trigger] out[i]).wf() && out[i].id
                < store.issued by {
                if i < kept.len() {
                    assert(out[i] == kept[i]);
                }
            }
        } else {
            assert(out == kept);
        }
    }
}

/// A press sorts the cubes into three heaps: those it spares, those it hits
/// rightly and those it hits wrongly.
pub(crate) proof fn lemma_press_partition(cubes: Seq<CubeModel>, keys: ArrowKeys)
    ensures
        cubes.filter(spared(keys)).len() + cubes.filter(hit(keys)).len() + cubes.filter(
            fouled(keys),
        ).len() == cubes.len(),
    decreases cubes.len(),
{
    reveal(Seq::filter);
    if cubes.len() > 0 {
        lemma_press_partition(cubes.drop_last(), keys);
    }
}

/// Every cube is either alive or expired, and only expired cubes are missed.
pub(crate) proof fn lemma_reap_partition(cubes: Seq<CubeModel>)
    ensures
        cubes.filter(alive()).len() + cubes.filter(missed()).len() <= cubes.len(),
    decreases cubes.len(),
{
    reveal(Seq::filter);
    if cubes.len() > 0 {
        lemma_reap_partition(cubes.drop_last());
    }
}

/// The three passes of a tick over a well-formed store whose cubes are on
/// course: the cubes can travel, what is left is well-formed and on course,
/// and no cube is counted twice among the hits, the fouls, the misses and
/// those that stay.
pub(crate) proof fn lemma_passes(store: StoreModel, delta: nat, keys: ArrowKeys)
    requires
        store.wf(),
        store.on_course(),
    ensures
        delta <= u64::MAX ==> store.can_advance(delta),
        store.advanced(delta).wf(),
        store.advanced(delta).resolved(keys).wf(),
        store.advanced(delta).resolved(keys).reaped(delta).wf(),
        store.advanced(delta).resolved(keys).reaped(delta).on_course(),
        store.advanced(delta).resolved(keys).reaped(delta).issued == store.issued,
        store.advanced(delta).resolved(keys).reaped(delta).cubes.len() + store.advanced(delta).hits(
            keys,
        ) + store.advanced(delta).fouls(keys) + store.advanced(delta).resolved(keys).misses(delta)
            <= store.cubes.len(),
{
    let moved = store.advanced(delta);
    let rest = moved.resolved(keys);
    let older = rest.aged(delta);
    let left = rest.reaped(delta);
    if delta <= u64::MAX {
        assert forall|i: int| 0 <= i < store.cubes.len() implies (#[trigger] store.cubes[i]).moved(
            delta,
        ).in_range() by {
            lemma_course_in_range(store.cubes[i], delta);
        }
    }
    assert forall|i: int| 0 <= i < moved.cubes.len() implies #[trigger] moved.cubes[i]
        == store.cubes[i].moved(delta) by {}
    assert(moved.wf());
    lemma_filter_wf(moved, spared(keys));
    assert(rest.wf());
    assert forall|i: int| 0 <= i < older.cubes.len() implies #[trigger] older.cubes[i]
        == rest.cubes[i].aged(delta) by {}
    assert(older.wf());
    lemma_filter_wf(older, alive());
    assert(left.wf());
    assert forall|k: int| 0 <= k < left.cubes.len() implies (#[trigger] left.cubes[k]).on_course() by {
        let c = left.cubes[k];
        assert(older.cubes.contains(c));
        let j = choose|j: int| 0 <= j < older.cubes.len() && older.cubes[j] == c;
        let s = rest.cubes[j];
        assert(moved.cubes.contains(s));
        let i = choose|i: int| 0 <= i < moved.cubes.len() && moved.cubes[i] == s;
        let origin = store.cubes[i];
        assert(origin.on_course());
        assert(c == origin.moved(delta).aged(delta));
        assert(origin.aged(delta).expired() == c.expired());
        lemma_stays_on_course(origin, delta);
    }
    lemma_press_partition(moved.cubes, keys);
    lemma_reap_partition(older.cubes);
}

/// A press touches no cube of another direction: a cube whose key was not
/// pressed stays in the store as it is, and the press counts the same hits
/// and fouls as it would if that cube were not there at all.
pub proof fn law_unpressed_untouched(store: StoreModel, keys: ArrowKeys, i: int)
    requires
        0 <= i < store.cubes.len(),
        !keys.pressed(store.cubes[i].direction),
    ensures
        store.resolved(keys).cubes.contains(store.cubes[i]),
        store.hits(keys) == (StoreModel { cubes: store.cubes.remove(i), ..store }).hits(keys),
        store.fouls(keys) == (StoreModel { cubes: store.cubes.remove(i), ..store }).fouls(keys),
{
    let cube = store.cubes[i];
    let front = store.cubes.take(i);
    let back = store.cubes.skip(i + 1);
    assert(store.cubes =~= front.push(cube) + back);
    assert(store.cubes.remove(i) =~= front + back);
    store.cubes.lemma_filter_contains(spared(keys), i);
    Seq::filter_distributes_over_add(front.push(cube), back, hit(keys));
    Seq::filter_distributes_over_add(front, back, hit(keys));
    front.lemma_filter_push(cube, hit(keys));
    Seq::filter_distributes_over_add(front.push(cube), back, fouled(keys));
    Seq::filter_distributes_over_add(front, back, fouled(keys));
    front.lemma_filter_push(cube, fouled(keys));
}

/// No cube is scored twice. Within a tick, a cube that a press resolves is
/// gone before the reaper looks: no cube of its identity is among those
/// that the reaper ages. And a cube that was scored in either way, by a
/// press or by the end of its lifetime, is not in the store after the tick.
pub proof fn law_scored_cube_is_gone(store: StoreModel, delta: nat, keys: ArrowKeys, i: int)
    requires
        store.wf(),
        0 <= i < store.cubes.len(),
    ensures
        ({
            let seen = store.advanced(delta).resolved(keys).cubes;
            keys.pressed(store.cubes[i].direction) ==> forall|k: int|
                0 <= k < seen.len() ==> (#[trigger] seen[k]).id != store.cubes[i].id
        }),
        ({
            let left = store.advanced(delta).resolved(keys).reaped(delta).cubes;
            keys.pressed(store.cubes[i].direction) || store.cubes[i].aged(delta).expired()
                ==> forall|k: int| 0 <= k < left.len() ==> (#[trigger] left[k]).id != store.cubes[i].id
        }),
{
    let moved = store.advanced(delta);
    let rest = moved.resolved(keys);
    let older = rest.aged(delta);
    let left = rest.reaped(delta);
    let cube = moved.cubes[i];
    assert forall|j: int| 0 <= j < moved.cubes.len() implies #[trigger] moved.cubes[j]
        == store.cubes[j].moved(delta) by {}
    assert(moved.wf());
    lemma_filter_wf(moved, spared(keys));
    assert forall|j: int| 0 <= j < older.cubes.len() implies #[trigger] older.cubes[j]
        == rest.cubes[j].aged(delta) by {}
    assert(older.wf());
    lemma_filter_wf(older, alive());
    assert forall|k: int| 0 <= k < rest.cubes.len() && (#[trigger] rest.cubes[k]).id
        == cube.id implies rest.cubes[k] == cube by {
        let c = rest.cubes[k];
        assert(moved.cubes.contains(c));
        let j = choose|j: int| 0 <= j < moved.cubes.len() && moved.cubes[j] == c;
        if j < i {
            assert(moved.cubes[j].id < moved.cubes[i].id);
        } else if i < j {
            assert(moved.cubes[i].id < moved.cubes[j].id);
        }
    }
    assert forall|k: int| 0 <= k < rest.cubes.len() && keys.pressed(cube.direction) implies (
        #[trigger] rest.cubes[k]
    ).id != cube.id by {
        assert(spared(keys)(rest.cubes[k]));
    }
    assert forall|k: int|
        0 <= k < left.cubes.len() && (keys.pressed(cube.direction) || cube.aged(
            delta,
        ).expired()) implies (#[trigger] left.cubes[k]).id != cube.id by {
        let c = left.cubes[k];
        assert(older.cubes.contains(c));
        let j = choose|j: int| 0 <= j < older.cubes.len() && older.cubes[j] == c;
        assert(c == rest.cubes[j].aged(delta));
        assert(alive()(c));
        if c.id == cube.id {
            assert(rest.cubes[j].id == cube.id);
            assert(rest.cubes[j] == cube);
            assert(spared(keys)(rest.cubes[j]));
        }
    }
}

impl CubeStore {
    /// A store without cubes.
    pub fn new() -> (store: CubeStore)
        ensures
            store@ == StoreModel::empty(),
            store@.wf(),
    {
        let store = CubeStore { cubes: Vec::new(), issued: 0 };
        assert(store@.cubes =~= Seq::empty());
        store
    }

    /// Number of live cubes.
    pub fn len(&self) -> (n: usize)
        ensures
            n == self@.cubes.len(),
    {
        self.cubes.len()
    }

    pub fn is_empty(&self) -> (e: bool)
        ensures
            e == (self@.cubes.len() == 0),
    {
        self.cubes.len() == 0
    }

    /// The cube at `index`, counting from the oldest.
    pub fn cube(&self, index: usize) -> (cube: Cube)
        requires
            index < self@.cubes.len(),
        ensures
            cube@ == self@.cubes[index as int],
    {
        self.cubes[index]
    }

    /// The place of the cube with the given identity, counting from the
    /// oldest, or `None` if no such cube lives.
    pub fn find(&self, id: u64) -> (place: Option<usize>)
        ensures
            match place {
                Some(i) => {
                    &&& i < self@.cubes.len()
                    &&& self@.cubes[i as int].id == id
                    &&& forall|k: int| 0 <= k < i ==> (#[trigger] self@.cubes[k]).id != id
                },
                None => forall|k: int|
                    0 <= k < self@.cubes.len() ==> (#[trigger] self@.cubes[k]).id != id,
            },
    {
        let n = self.cubes.len();
        let mut i: usize = 0;
        while i < n
            invariant
                n == self.cubes.len(),
                i <= n,
                forall|k: int| 0 <= k < i ==> (#[trigger] self@.cubes[k]).id != id,
            decreases n - i,
        {
            let cube = self.cubes[i];
            assert(cube@ == self@.cubes[i as int]);
            if cube.id() == id {
                return Some(i);
            }
            i = i + 1;
        }
        None
    }

    /// How many cubes have been spawned since the store was last cleared.
    pub fn issued(&self) -> (n: u64)
        ensures
            n == self@.issued,
    {
        self.issued
    }

    /// Adds a fresh cube at the origin and returns its identity.
    pub fn spawn(&mut self, direction: Direction, color: Color, speed: u32) -> (id: u64)
        requires
            old(self)@.wf(),
            old(self)@.issued < u64::MAX,
        ensures
            final(self)@ == old(self)@.spawned(direction, color, speed as nat),
            final(self)@.wf(),
            id == old(self)@.issued,
    {
        let id = self.issued;
        let ghost before = self.cubes@;
        let cube = Cube::new(id, direction, color, speed);
        self.cubes.push(cube);
        self.issued = id + 1;
        assert(models(self.cubes@) =~= models(before).push(cube@));
        id
    }

    /// Whether every cube can travel for `delta_ns` nanoseconds without
    /// leaving the range of positions.
    pub fn can_advance(&self, delta_ns: u64) -> (ok: bool)
        ensures
            ok == self@.can_advance(delta_ns as nat),
    {
        let n = self.cubes.len();
        let mut i: usize = 0;
        while i < n
            invariant
                n == self.cubes.len(),
                i <= n,
                forall|k: int|
                    0 <= k < i ==> (#[trigger] self@.cubes[k]).moved(delta_ns as nat).in_range(),
            decreases n - i,
        {
            let cube = self.cubes[i];
            assert(cube@ == self@.cubes[i as int]);
            if !cube.can_advance(delta_ns) {
                return false;
            }
            i = i + 1;
        }
        true
    }

    /// Mover: moves every cube along its direction for `delta_ns` nanoseconds.
    pub fn advance(&mut self, delta_ns: u64)
        requires
            old(self)@.can_advance(delta_ns as nat),
        ensures
            final(self)@ == old(self)@.advanced(delta_ns as nat),
            old(self)@.wf() ==> final(self)@.wf(),
    {
        let ghost all = models(self.cubes@);
        let n = self.cubes.len();
        let mut moved: Vec<Cube> = Vec::new();
        let mut i: usize = 0;
        while i < n
            invariant
                n == self.cubes.len(),
                i <= n,
                all == models(self.cubes@),
                self@ == old(self)@,
                self@.can_advance(delta_ns as nat),
                moved.len() == i,
                forall|k: int| 0 <= k < i ==> (#[trigger] moved[k])@ == all[k].moved(delta_ns as nat),
            decreases n - i,
        {
            let mut cube = self.cubes[i];
            assert(cube@ == self@.cubes[i as int]);
            cube.advance(delta_ns);
            moved.push(cube);
            i = i + 1;
        }
        self.cubes = moved;
        assert(self@.cubes =~= all.map_values(travel(delta_ns as nat)));
    }

    /// Input resolver: removes every cube whose direction a pressed key
    /// stands for, and counts those that were purple and those that were not.
    pub fn resolve(&mut self, keys: &ArrowKeys) -> (outcome: Outcome)
        ensures
            final(self)@ == old(self)@.resolved(*keys),
            outcome.hits == old(self)@.hits(*keys),
            outcome.fouls == old(self)@.fouls(*keys),
            old(self)@.wf() ==> final(self)@.wf(),
    {
        let ghost all = models(self.cubes@);
        let n = self.cubes.len();
        let mut kept: Vec<Cube> = Vec::new();
        let mut hits: usize = 0;
        let mut fouls: usize = 0;
        let mut i: usize = 0;
        assert(all.take(0) =~= Seq::empty());
        assert(models(kept@) =~= Seq::empty());
        proof {
            reveal(Seq::filter);
        }
        while i < n
            invariant
                n == self.cubes.len(),
                i <= n,
                all == models(self.cubes@),
                self@ == old(self)@,
                models(kept@) == all.take(i as int).filter(spared(*keys)),
                hits == all.take(i as int).filter(hit(*keys)).len(),
                fouls == all.take(i as int).filter(fouled(*keys)).len(),
                hits <= i,
                fouls <= i,
            decreases n - i,
        {
            let cube = self.cubes[i];
            let ghost seen = all.take(i as int);
            let ghost before = kept@;
            proof {
                assert(all.take(i + 1) =~= seen.push(cube@));
                seen.lemma_filter_push(cube@, spared(*keys));
                seen.lemma_filter_push(cube@, hit(*keys));
                seen.lemma_filter_push(cube@, fouled(*keys));
            }
            if keys.is_pressed(cube.direction()) {
                if cube.color().is_purple() {
                    hits = hits + 1;
                } else {
                    fouls = fouls + 1;
                }
            } else {
                kept.push(cube);
                assert(models(kept@) =~= models(before).push(cube@));
            }
            i = i + 1;
        }
        assert(all.take(n as int) =~= all);
        self.cubes = kept;
        proof {
            if old(self)@.wf() {
                lemma_filter_wf(old(self)@, spared(*keys));
            }
        }
        Outcome { hits, fouls }
    }

    /// Lifetime reaper: ages every cube by `delta_ns` nanoseconds, removes
    /// those whose lifetime has run out and counts the purple ones among them.
    pub fn reap(&mut self, delta_ns: u64) -> (misses: usize)
        requires
            old(self)@.wf(),
        ensures
            final(self)@ == old(self)@.reaped(delta_ns as nat),
            misses == old(self)@.misses(delta_ns as nat),
            final(self)@.wf(),
    {
        let ghost all = models(self.cubes@);
        let ghost older = all.map_values(grow_older(delta_ns as nat));
        let n = self.cubes.len();
        let mut kept: Vec<Cube> = Vec::new();
        let mut misses: usize = 0;
        let mut i: usize = 0;
        assert(older.take(0) =~= Seq::empty());
        assert(models(kept@) =~= Seq::empty());
        proof {
            reveal(Seq::filter);
        }
        while i < n
            invariant
                n == self.cubes.len(),
                i <= n,
                all == models(self.cubes@),
                older == all.map_values(grow_older(delta_ns as nat)),
                self@ == old(self)@,
                self@.wf(),
                models(kept@) == older.take(i as int).filter(alive()),
                misses == older.take(i as int).filter(missed()).len(),
                misses <= i,
            decreases n - i,
        {
            let mut cube = self.cubes[i];
            assert(cube@ == self@.cubes[i as int]);
            cube.age(delta_ns);
            let ghost seen = older.take(i as int);
            let ghost before = kept@;
            proof {
                assert(older.take(i + 1) =~= seen.push(cube@));
                seen.lemma_filter_push(cube@, alive());
                seen.lemma_filter_push(cube@, missed());
            }
            if cube.expired() {
                if cube.color().is_purple() {
                    misses = misses + 1;
                }
            } else {
                kept.push(cube);
                assert(models(kept@) =~= models(before).push(cube@));
            }
            i = i + 1;
        }
        assert(older.take(n as int) =~= older);
        self.cubes = kept;
        proof {
            lemma_filter_wf(old(self)@.aged(delta_ns as nat), alive());
        }
        misses
    }

    /// Removes every cube and starts the identities over.
    pub fn clear(&mut self)
        ensures
            final(self)@ == StoreModel::empty(),
            final(self)@.wf(),
    {
        self.cubes = Vec::new();
        self.issued = 0;
        assert(self@.cubes =~= Seq::empty());
    }
}

} // verus!
