//! Choosing the JMA nowcast frame (base time, valid time) for a radar time offset.
use vstd::prelude::*;

verus! {

/// One frame advertised by JMA's `targetTimes_N1.json` / `targetTimes_N2.json`:
/// the analysis time and the time the picture is valid for (`YYYYMMDDhhmmss`, UTC).
pub struct TargetTime {
    pub basetime: String,
    pub validtime: String,
}

/// Lexicographic order of character sequences (by code point), the order of
/// `String`'s comparison for these ASCII timestamps.
pub open spec fn lex_lt(a: Seq<char>, b: Seq<char>) -> bool
    decreases a.len(),
{
    if b.len() == 0 {
        false
    } else if a.len() == 0 {
        true
    } else if a[0] != b[0] {
        (a[0] as u32) < (b[0] as u32)
    } else {
        lex_lt(a.drop_first(), b.drop_first())
    }
}

/// Whether `a` sorts strictly before `b`.
pub fn str_lt(a: &str, b: &str) -> (r: bool)
    ensures
        r == lex_lt(a@, b@),
{
    let na = a.unicode_len();
    let nb = b.unicode_len();
    let mut i: usize = 0;
    assert(a@.skip(0) =~= a@ && b@.skip(0) =~= b@);
    while i < na && i < nb
        invariant
            na == a@.len(),
            nb == b@.len(),
            i <= na,
            i <= nb,
            lex_lt(a@, b@) == lex_lt(a@.skip(i as int), b@.skip(i as int)),
        decreases na - i,
    {
        let ca = a.get_char(i);
        let cb = b.get_char(i);
        assert(a@.skip(i as int)[0] == ca && b@.skip(i as int)[0] == cb);
        if ca != cb {
            return (ca as u32) < (cb as u32);
        }
        assert(a@.skip(i as int).drop_first() =~= a@.skip(i as int + 1));
        assert(b@.skip(i as int).drop_first() =~= b@.skip(i as int + 1));
        i = i + 1;
    }
    i < nb
}

/// Where an insertion sort puts a new element with key `k` among `order`:
/// after every element whose key is not greater, so equal keys keep their order.
pub open spec fn insert_pos(keys: Seq<Seq<char>>, order: Seq<int>, k: Seq<char>) -> int
    decreases order.len(),
{
    if order.len() == 0 {
        0
    } else if lex_lt(k, keys[order[0]]) {
        0
    } else {
        1 + insert_pos(keys, order.drop_first(), k)
    }
}

/// Indices `0..n` in the order of a stable ascending sort by `keys`.
pub open spec fn stable_order(keys: Seq<Seq<char>>, n: nat) -> Seq<int>
    decreases n,
{
    if n == 0 {
        Seq::empty()
    } else {
        let prev = stable_order(keys, (n - 1) as nat);
        prev.insert(insert_pos(keys, prev, keys[n - 1]), n - 1)
    }
}

/// The valid times of a list of frames.
pub open spec fn valid_keys(frames: Seq<TargetTime>) -> Seq<Seq<char>> {
    frames.map_values(|t: TargetTime| t.validtime@)
}

proof fn lemma_insert_pos_bounds(keys: Seq<Seq<char>>, order: Seq<int>, k: Seq<char>)
    ensures
        0 <= insert_pos(keys, order, k) <= order.len(),
    decreases order.len(),
{
    if order.len() > 0 {
        lemma_insert_pos_bounds(keys, order.drop_first(), k);
    }
}

proof fn lemma_stable_order_len(keys: Seq<Seq<char>>, n: nat)
    ensures
        stable_order(keys, n).len() == n,
        forall|i: int| 0 <= i < n ==> 0 <= #[trigger] stable_order(keys, n)[i] < n,
    decreases n,
{
    if n > 0 {
        let prev = stable_order(keys, (n - 1) as nat);
        lemma_stable_order_len(keys, (n - 1) as nat);
        lemma_insert_pos_bounds(keys, prev, keys[n - 1]);
        let p = insert_pos(keys, prev, keys[n - 1]);
        assert forall|i: int| 0 <= i < n implies 0 <= #[trigger] stable_order(keys, n)[i] < n by {
            if i < p {
                assert(stable_order(keys, n)[i] == prev[i]);
            } else if i > p {
                assert(stable_order(keys, n)[i] == prev[i - 1]);
            }
        }
    }
}

/// Finds where to insert `k` into `order` (sorted indices into `frames`).
fn find_insert_pos(frames: &Vec<TargetTime>, order: &Vec<usize>, k: &str) -> (p: usize)
    requires
        forall|i: int| 0 <= i < order@.len() ==> (#[trigger] order@[i]) < frames@.len(),
    ensures
        p as int == insert_pos(valid_keys(frames@), order@.map_values(|i: usize| i as int), k@),
{
    let ghost keys = valid_keys(frames@);
    let ghost ord = order@.map_values(|i: usize| i as int);
    let mut p: usize = 0;
    assert(ord.skip(0) =~= ord);
    while p < order.len()
        invariant
            p <= order@.len(),
            ord == order@.map_values(|i: usize| i as int),
            keys == valid_keys(frames@),
            forall|i: int| 0 <= i < order@.len() ==> (#[trigger] order@[i]) < frames@.len(),
            insert_pos(keys, ord, k@) == p + insert_pos(keys, ord.skip(p as int), k@),
        decreases order@.len() - p,
    {
        let idx = order[p];
        assert(ord.skip(p as int)[0] == idx as int);
        assert(keys[idx as int] == frames@[idx as int].validtime@);
        if str_lt(k, frames[idx].validtime.as_str()) {
            return p;
        }
        assert(ord.skip(p as int).drop_first() =~= ord.skip(p as int + 1));
        p = p + 1;
    }
    p
}

/// The positions in `frames` in the order of a stable ascending sort by valid time.
pub fn sorted_by_validtime(frames: &Vec<TargetTime>) -> (order: Vec<usize>)
    ensures
        order@.map_values(|i: usize| i as int) == stable_order(valid_keys(frames@), frames@.len()),
        forall|i: int| 0 <= i < order@.len() ==> (#[trigger] order@[i]) < frames@.len(),
{
    let ghost keys = valid_keys(frames@);
    let mut order: Vec<usize> = Vec::new();
    let mut n: usize = 0;
    while n < frames.len()
        invariant
            n <= frames@.len(),
            keys == valid_keys(frames@),
            order@.map_values(|i: usize| i as int) == stable_order(keys, n as nat),
            forall|i: int| 0 <= i < order@.len() ==> (#[trigger] order@[i]) < n,
        decreases frames@.len() - n,
    {
        let ghost prev = order@;
        proof {
            lemma_stable_order_len(keys, n as nat);
        }
        let p = find_insert_pos(frames, &order, frames[n].validtime.as_str());
        proof {
            lemma_insert_pos_bounds(keys, prev.map_values(|i: usize| i as int), keys[n as int]);
            assert(keys[n as int] == frames@[n as int].validtime@);
        }
        order.insert(p, n);
        proof {
            assert(order@.map_values(|i: usize| i as int) =~= prev.map_values(|i: usize| i as int).insert(
                p as int,
                n as int,
            ));
            assert forall|i: int| 0 <= i < order@.len() implies (#[trigger] order@[i]) < n + 1 by {
                if i < p {
                    assert(order@[i] == prev[i]);
                } else if i > p {
                    assert(order@[i] == prev[i - 1]);
                }
            }
        }
        n = n + 1;
    }
    order
}


proof fn lemma_lex_irreflexive(a: Seq<char>)
    ensures
        !lex_lt(a, a),
    decreases a.len(),
{
    if a.len() > 0 {
        lemma_lex_irreflexive(a.drop_first());
    }
}

proof fn lemma_lex_transitive(a: Seq<char>, b: Seq<char>, c: Seq<char>)
    requires
        lex_lt(a, b),
        lex_lt(b, c),
    ensures
        lex_lt(a, c),
    decreases a.len(),
{
    if a.len() > 0 && b.len() > 0 && c.len() > 0 {
        if a[0] == b[0] && b[0] == c[0] {
            lemma_lex_transitive(a.drop_first(), b.drop_first(), c.drop_first());
        }
    }
}

proof fn lemma_insert_pos_spec(keys: Seq<Seq<char>>, order: Seq<int>, k: Seq<char>)
    ensures
        forall|i: int| 0 <= i < insert_pos(keys, order, k) ==> !lex_lt(k, #[trigger] keys[order[i]]),
        insert_pos(keys, order, k) < order.len() ==> lex_lt(k, keys[order[insert_pos(keys, order, k)]]),
    decreases order.len(),
{
    lemma_insert_pos_bounds(keys, order, k);
    if order.len() > 0 && !lex_lt(k, keys[order[0]]) {
        let rest = order.drop_first();
        lemma_insert_pos_spec(keys, rest, k);
        lemma_insert_pos_bounds(keys, rest, k);
        let q = insert_pos(keys, rest, k);
        assert forall|i: int| 0 <= i < insert_pos(keys, order, k) implies !lex_lt(k, #[trigger] keys[order[i]]) by {
            if i > 0 {
                assert(order[i] == rest[i - 1]);
            }
        }
        if q < rest.len() {
            assert(order[q + 1] == rest[q]);
        }
    }
}

/// The order taken for the forecast frames is a stable ascending sort by valid
/// time: it lists each of the `n` positions exactly once, valid times never
/// decrease along it, and frames with equal valid times keep the order they came in.
pub proof fn lemma_stable_order_sorts(keys: Seq<Seq<char>>, n: nat)
    ensures
        stable_order(keys, n).len() == n,
        forall|i: int| 0 <= i < n ==> 0 <= #[trigger] stable_order(keys, n)[i] < n,
        forall|i: int, j: int|
            0 <= i < j < n ==> #[trigger] stable_order(keys, n)[i] != #[trigger] stable_order(keys, n)[j],
        forall|i: int, j: int|
            0 <= i < j < n ==> !lex_lt(keys[#[trigger] stable_order(keys, n)[j]], keys[#[trigger] stable_order(keys, n)[i]]),
        forall|i: int, j: int|
            0 <= i < j < n && keys[#[trigger] stable_order(keys, n)[i]] == keys[#[trigger] stable_order(keys, n)[j]]
                ==> stable_order(keys, n)[i] < stable_order(keys, n)[j],
    decreases n,
{
    lemma_stable_order_len(keys, n);
    if n > 0 {
        let m = (n - 1) as nat;
        let prev = stable_order(keys, m);
        lemma_stable_order_sorts(keys, m);
        let k = keys[n - 1];
        let p = insert_pos(keys, prev, k);
        lemma_insert_pos_bounds(keys, prev, k);
        lemma_insert_pos_spec(keys, prev, k);
        lemma_lex_irreflexive(k);
        let cur = stable_order(keys, n);
        assert(cur == prev.insert(p, n - 1));
        assert forall|i: int, j: int| 0 <= i < j < n implies #[trigger] cur[i] != #[trigger] cur[j]
            && !lex_lt(keys[cur[j]], keys[cur[i]])
            && (keys[cur[i]] == keys[cur[j]] ==> cur[i] < cur[j]) by {
            if j < p {
                assert(cur[i] == prev[i] && cur[j] == prev[j]);
            } else if j == p {
                assert(cur[i] == prev[i] && cur[j] == n - 1);
                assert(!lex_lt(k, keys[prev[i]]));
            } else if i < p {
                assert(cur[i] == prev[i] && cur[j] == prev[j - 1]);
            } else if i == p {
                assert(cur[i] == n - 1 && cur[j] == prev[j - 1]);
                let x = keys[prev[p]];
                assert(lex_lt(k, x));
                if p < j - 1 {
                    assert(!lex_lt(keys[prev[j - 1]], keys[prev[p]]));
                    if lex_lt(keys[prev[j - 1]], k) {
                        lemma_lex_transitive(keys[prev[j - 1]], k, x);
                    }
                    if keys[prev[j - 1]] == k {
                        assert(lex_lt(keys[prev[j - 1]], x));
                    }
                } else {
                    lemma_lex_irreflexive(x);
                    if lex_lt(x, k) {
                        lemma_lex_transitive(x, k, x);
                    }
                }
            } else {
                assert(cur[i] == prev[i - 1] && cur[j] == prev[j - 1]);
            }
        }
    }
}

/// The frame picked for a radar time offset. Offsets up to zero walk back through
/// the observed frames (`past`, newest first), stopping at the oldest; positive
/// offsets walk forward through the forecast frames (`forecast`, sorted by valid
/// time), stopping at the last; with no forecast frames the newest observation is used.
pub open spec fn chosen_frame(past: Seq<TargetTime>, forecast: Seq<TargetTime>, offset: int) -> TargetTime {
    if offset <= 0 {
        let idx = if -offset < past.len() - 1 { -offset } else { past.len() - 1 };
        past[idx]
    } else if forecast.len() == 0 {
        past[0]
    } else {
        let order = stable_order(valid_keys(forecast), forecast.len());
        let idx = if offset - 1 < forecast.len() - 1 { offset - 1 } else { forecast.len() - 1 };
        forecast[order[idx]]
    }
}

/// Why no radar frame could be chosen.
#[derive(Debug, Clone, Copy, PartialEq, Eq, Structural)]
pub enum FrameError {
    /// JMA advertised no observed frame at all.
    NoFrames,
}

/// Whether the forecast frame list must be fetched for this time offset.
pub fn needs_forecast(offset: i32) -> (r: bool)
    ensures
        r == (offset > 0),
{
    offset > 0
}

/// Picks the (base time, valid time) of the radar frame for `offset`; see
/// `chosen_frame`. `forecast` is only read for positive offsets.
pub fn select_frame(past: &Vec<TargetTime>, forecast: &Vec<TargetTime>, offset: i32) -> (r: Result<
    (String, String),
    FrameError,
>)
    requires
        offset > i32::MIN,
    ensures
        past@.len() == 0 ==> r == Err::<(String, String), FrameError>(FrameError::NoFrames),
        past@.len() > 0 ==> (r matches Ok((b, v)) && b@ == chosen_frame(past@, forecast@, offset as int).basetime@
            && v@ == chosen_frame(past@, forecast@, offset as int).validtime@),
{
    let n1 = past.len();
    if n1 == 0 {
        return Err(FrameError::NoFrames);
    }
    if offset <= 0 {
        let back: usize = (-(offset as i64)) as usize;
        let idx: usize = if back < n1 - 1 { back } else { n1 - 1 };
        let t = &past[idx];
        Ok((t.basetime.clone(), t.validtime.clone()))
    } else if forecast.len() == 0 {
        let t = &past[0];
        Ok((t.basetime.clone(), t.validtime.clone()))
    } else {
        let order = sorted_by_validtime(forecast);
        proof {
            lemma_stable_order_len(valid_keys(forecast@), forecast@.len());
        }
        let n2 = forecast.len();
        let ahead: usize = (offset - 1) as usize;
        let idx: usize = if ahead < n2 - 1 { ahead } else { n2 - 1 };
        assert(order@.map_values(|i: usize| i as int)[idx as int] == order@[idx as int] as int);
        let t = &forecast[order[idx]];
        Ok((t.basetime.clone(), t.validtime.clone()))
    }
}

} // verus!
