use vstd::prelude::*;

use crate::assertion::{AssertionKind, AwakeError, IO_RETURN_SUCCESS};
use crate::awake::{AwakeView, DisplayChange};
use crate::options::BuilderView;

verus! {

/// After a setup in which every request succeeded, an assertion is held of
/// exactly the enabled kinds: a fresh guard that stores a nonzero id for each
/// kind of setup in turn accepts each of them, keeps its configuration, and
/// holds an assertion of a kind if and only if that kind is enabled.
pub proof fn lemma_setup_holds_enabled_kinds(options: BuilderView, ids: Seq<u32>)
    requires
        ids.len() == options.enabled_kinds().len(),
        forall|i: int| 0 <= i < ids.len() ==> ids[i] != 0,
    ensures
        ({
            let kinds = options.enabled_kinds();
            let v = AwakeView::fresh(options).with_assertions(kinds, ids);
            &&& v.options == options
            &&& forall|k: AssertionKind| v.active(k) == options.enabled(k)
            &&& forall|i: int|
                0 <= i < kinds.len() ==> AwakeView::fresh(options).with_assertions(
                    kinds.take(i),
                    ids.take(i),
                ).record_result(kinds[i], IO_RETURN_SUCCESS) == Ok::<(), AwakeError>(())
        }),
{
    reveal_with_fuel(AwakeView::with_assertions, 4);
    let kinds = options.enabled_kinds();
    assert(kinds.len() <= 3);
    assert(kinds.take(0) =~= Seq::empty());
    assert(ids.take(0) =~= Seq::empty());
    if kinds.len() >= 2 {
        assert(kinds.take(1).drop_first() =~= Seq::empty());
        assert(kinds.drop_first().drop_first() =~= kinds.subrange(2, kinds.len() as int));
    }
    if kinds.len() == 3 {
        assert(kinds.take(2).drop_first() =~= seq![kinds[1]]);
        assert(ids.take(2).drop_first() =~= seq![ids[1]]);
        assert(seq![kinds[1]].drop_first() =~= Seq::empty());
    }
    if kinds.len() == 1 {
        assert(kinds.drop_first() =~= Seq::empty());
    }
}

/// Setting the display to the value it already has changes nothing and asks
/// the host for no system call.
pub proof fn lemma_set_display_unchanged(v: AwakeView, display: bool)
    requires
        display == v.options.display,
    ensures
        v.display_change(display) == Ok::<DisplayChange, AwakeError>(DisplayChange::Unchanged),
        v.after_set_display(display) == v,
{
}

/// Turning the display on while it is off and holds no assertion succeeds,
/// turns the setting on, and asks for a display assertion; once the host has
/// created one with a nonzero id, exactly that id is held for the display and
/// nothing else has changed.
pub proof fn lemma_set_display_on(v: AwakeView, id: u32)
    requires
        !v.options.display,
        !v.active(AssertionKind::Display),
        id != 0,
    ensures
        v.display_change(true) == Ok::<DisplayChange, AwakeError>(DisplayChange::Acquire),
        ({
            let w = v.after_set_display(true);
            let u = w.with_assertion(AssertionKind::Display, id);
            &&& w.record_result(AssertionKind::Display, IO_RETURN_SUCCESS) == Ok::<(), AwakeError>(())
            &&& u.options == BuilderView { display: true, ..v.options }
            &&& u.assertion(AssertionKind::Display) == id
            &&& u.assertion(AssertionKind::Idle) == v.assertion(AssertionKind::Idle)
            &&& u.assertion(AssertionKind::Sleep) == v.assertion(AssertionKind::Sleep)
        }),
{
}

/// Turning the display off while it is on and holds an assertion succeeds,
/// turns the setting off, hands that assertion back for release and holds no
/// display assertion afterwards; the other kinds are untouched.
pub proof fn lemma_set_display_off(v: AwakeView)
    requires
        v.options.display,
        v.active(AssertionKind::Display),
    ensures
        v.display_change(false) == Ok::<DisplayChange, AwakeError>(
            DisplayChange::Release(v.assertion(AssertionKind::Display)),
        ),
        ({
            let w = v.after_set_display(false);
            &&& w.options == BuilderView { display: false, ..v.options }
            &&& !w.active(AssertionKind::Display)
            &&& w.assertion(AssertionKind::Idle) == v.assertion(AssertionKind::Idle)
            &&& w.assertion(AssertionKind::Sleep) == v.assertion(AssertionKind::Sleep)
        }),
{
}

/// Where the display assertion contradicts the setting (held while off, or
/// missing while on), a change of the setting is a mismatch, asks the host
/// for no system call, and leaves the assertions as they were.
pub proof fn lemma_set_display_mismatch(v: AwakeView, display: bool)
    requires
        display != v.options.display,
        v.active(AssertionKind::Display) == display,
    ensures
        v.display_change(display) == Err::<DisplayChange, AwakeError>(
            AwakeError::Mismatch(AssertionKind::Display),
        ),
        ({
            let w = v.after_set_display(display);
            forall|k: AssertionKind| w.assertion(k) == v.assertion(k)
        }),
{
}

/// Releasing everything lets go of each held assertion exactly once: the ids
/// handed back are those of the held kinds, one per kind, none of them zero;
/// afterwards nothing is held, so a second release hands back nothing.
pub proof fn lemma_release_all_once(v: AwakeView)
    ensures
        forall|k: AssertionKind| v.active_kinds().contains(k) <==> v.active(k),
        v.active_kinds().no_duplicates(),
        v.released().len() == v.active_kinds().len(),
        forall|i: int|
            0 <= i < v.released().len() ==> v.released()[i] == v.assertion(v.active_kinds()[i])
                && v.released()[i] != 0,
        forall|k: AssertionKind| !v.cleared().active(k),
        v.cleared().released() == Seq::<u32>::empty(),
{
    let d = if v.active(AssertionKind::Display) { seq![AssertionKind::Display] } else { Seq::empty() };
    let i = if v.active(AssertionKind::Idle) { seq![AssertionKind::Idle] } else { Seq::empty() };
    let s = if v.active(AssertionKind::Sleep) { seq![AssertionKind::Sleep] } else { Seq::empty() };
    let a = v.active_kinds();
    assert(a == d + i + s);
    assert forall|k: AssertionKind| a.contains(k) <==> v.active(k) by {
        if v.active(k) {
            let j: int = if k == AssertionKind::Display { 0 } else if k == AssertionKind::Idle {
                d.len() as int
            } else {
                (d.len() + i.len()) as int
            };
            assert(a[j] == k);
        }
    }
    assert(v.cleared().active_kinds() =~= Seq::empty());
    assert(v.cleared().released() =~= Seq::empty());
}

} // verus!
