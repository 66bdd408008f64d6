//! What holds of whole runs of registry inserts and of counted requests.

use crate::registry::{insert_step, lookup, text_of, Registry};
use crate::traffic::{after_request, saturated, RequestMethod};
use vstd::prelude::*;

verus! {

/// The contents after a run of inserts `(id, text)`, taken in order, and what
/// each insert reports (`None` for created, else the text already stored).
pub open spec fn run_inserts(m: Map<u32, Seq<char>>, ops: Seq<(u32, Seq<char>)>) -> (Map<
    u32,
    Seq<char>,
>, Seq<Option<Seq<char>>>)
    decreases ops.len(),
{
    if ops.len() == 0 {
        (m, Seq::empty())
    } else {
        let (m1, r) = insert_step(m, ops[0].0, ops[0].1);
        let (m2, rs) = run_inserts(m1, ops.drop_first());
        (m2, seq![r] + rs)
    }
}

/// Once `id` holds `text`, no run of inserts changes it, and every insert
/// for `id` in the run reports a conflict with `text`.
pub proof fn lemma_stored_text_persists(
    m: Map<u32, Seq<char>>,
    id: u32,
    text: Seq<char>,
    ops: Seq<(u32, Seq<char>)>,
)
    requires
        lookup(m, id) == Some(text),
    ensures
        run_inserts(m, ops).1.len() == ops.len(),
        lookup(run_inserts(m, ops).0, id) == Some(text),
        forall|i: int|
            0 <= i < ops.len() && #[trigger] ops[i].0 == id ==> run_inserts(m, ops).1[i] == Some(
                text,
            ),
    decreases ops.len(),
{
    if ops.len() > 0 {
        let (m1, r) = insert_step(m, ops[0].0, ops[0].1);
        lemma_stored_text_persists(m1, id, text, ops.drop_first());
        let rs = run_inserts(m1, ops.drop_first()).1;
        assert forall|i: int| 0 <= i < ops.len() && #[trigger] ops[i].0 == id implies run_inserts(
            m,
            ops,
        ).1[i] == Some(text) by {
            if i > 0 {
                assert(ops.drop_first()[i - 1].0 == id);
            }
        }
    }
}

/// The first insert that creates `id` fixes its text for good: after it, any
/// run of inserts leaves `id` with `text`, and each later insert for `id`
/// reports a conflict carrying `text`.
pub proof fn lemma_first_insert_fixes_text(
    m: Map<u32, Seq<char>>,
    id: u32,
    text: Seq<char>,
    later: Seq<(u32, Seq<char>)>,
)
    requires
        insert_step(m, id, text).1 is None,
    ensures
        lookup(run_inserts(insert_step(m, id, text).0, later).0, id) == Some(text),
        forall|i: int|
            0 <= i < later.len() && #[trigger] later[i].0 == id ==> run_inserts(
                insert_step(m, id, text).0,
                later,
            ).1[i] == Some(text),
{
    lemma_stored_text_persists(insert_step(m, id, text).0, id, text, later);
}

/// Of any number of inserts for one id that is not yet stored, exactly one,
/// the first to take effect, reports created; every other one reports a
/// conflict carrying the winner's text, which is what stays stored.
pub proof fn lemma_one_winner(m: Map<u32, Seq<char>>, id: u32, ops: Seq<(u32, Seq<char>)>)
    requires
        !m.contains_key(id),
        ops.len() > 0,
        forall|i: int| 0 <= i < ops.len() ==> #[trigger] ops[i].0 == id,
    ensures
        run_inserts(m, ops).1.len() == ops.len(),
        forall|i: int|
            0 <= i < ops.len() ==> (#[trigger] run_inserts(m, ops).1[i] is None <==> i == 0),
        forall|i: int| 0 < i < ops.len() ==> #[trigger] run_inserts(m, ops).1[i] == Some(ops[0].1),
        lookup(run_inserts(m, ops).0, id) == Some(ops[0].1),
{
    let m1 = insert_step(m, id, ops[0].1).0;
    let rest = ops.drop_first();
    lemma_stored_text_persists(m1, id, ops[0].1, rest);
    assert forall|i: int| 0 < i < ops.len() implies #[trigger] run_inserts(m, ops).1[i] == Some(
        ops[0].1,
    ) by {
        assert(rest[i - 1].0 == id);
    }
}

/// Looking an id up twice in the same registry gives the same answer.
pub proof fn lemma_get_repeatable(reg: &Registry, id: u32, a: Option<String>, b: Option<String>)
    requires
        text_of(a) == lookup(reg@, id),
        text_of(b) == lookup(reg@, id),
    ensures
        text_of(a) == text_of(b),
{
}

/// How many of `ms` are `m`.
pub open spec fn count_method(ms: Seq<RequestMethod>, m: RequestMethod) -> nat
    decreases ms.len(),
{
    if ms.len() == 0 {
        0
    } else {
        (if ms[0] == m {
            1nat
        } else {
            0nat
        }) + count_method(ms.drop_first(), m)
    }
}

/// The counts `(get, post)` after the requests `ms`, taken in order, from `c`.
pub open spec fn run_requests(c: (nat, nat), ms: Seq<RequestMethod>) -> (nat, nat)
    decreases ms.len(),
{
    if ms.len() == 0 {
        c
    } else {
        run_requests(after_request(c, ms[0]), ms.drop_first())
    }
}

/// After any run of requests, each count is its start plus the number of
/// requests of its class, held at the largest `usize`.
pub proof fn lemma_counts_add_up(c: (nat, nat), ms: Seq<RequestMethod>)
    requires
        c.0 <= usize::MAX,
        c.1 <= usize::MAX,
    ensures
        run_requests(c, ms) == (
            saturated(c.0 + count_method(ms, RequestMethod::Get)),
            saturated(c.1 + count_method(ms, RequestMethod::Post)),
        ),
    decreases ms.len(),
{
    if ms.len() > 0 {
        lemma_counts_add_up(after_request(c, ms[0]), ms.drop_first());
    }
}

/// From zero, after `k` reads and `n` writes in any order, mixed with any
/// other requests, the counts are `k` and `n` (held at the largest `usize`).
pub proof fn lemma_counts_from_zero(ms: Seq<RequestMethod>)
    ensures
        run_requests((0, 0), ms) == (
            saturated(count_method(ms, RequestMethod::Get)),
            saturated(count_method(ms, RequestMethod::Post)),
        ),
{
    lemma_counts_add_up((0, 0), ms);
}

} // verus!
