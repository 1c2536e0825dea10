//! Aggregation of several player controllers into one logical controller.
//! Boolean queries combine with logical OR, which on the packed key views is
//! a bitwise OR fold over the member controllers.

use vstd::prelude::*;

use crate::controller::PlayerController;
use crate::keys::{
    key_bit, KeyState, KEY_DOWN, KEY_ENTER, KEY_ESCAPE, KEY_INVENTORY, KEY_JUMP, KEY_LEFT,
    KEY_MAP, KEY_NEXT_WEAPON, KEY_PREV_WEAPON, KEY_RIGHT, KEY_SHOOT, KEY_SKIP, KEY_STRAFE,
    KEY_UP,
};

verus! {

/// Componentwise OR of two packed controller views.
pub open spec fn or_triple(a: (u16, u16, u16), b: (u16, u16, u16)) -> (u16, u16, u16) {
    (a.0 | b.0, a.1 | b.1, a.2 | b.2)
}

/// OR fold of a sequence of packed controller views.
pub open spec fn or_fold(s: Seq<(u16, u16, u16)>) -> (u16, u16, u16)
    decreases s.len(),
{
    if s.len() == 0 {
        (0u16, 0u16, 0u16)
    } else {
        or_triple(or_fold(s.drop_last()), s.last())
    }
}

proof fn lemma_or_bit3(a: (u16, u16, u16), b: (u16, u16, u16), m: u16)
    ensures
        key_bit(or_triple(a, b).0, m) == (key_bit(a.0, m) || key_bit(b.0, m)),
        key_bit(or_triple(a, b).1, m) == (key_bit(a.1, m) || key_bit(b.1, m)),
        key_bit(or_triple(a, b).2, m) == (key_bit(a.2, m) || key_bit(b.2, m)),
{
    let (a0, a1, a2) = a;
    let (b0, b1, b2) = b;
    assert(((a0 | b0) & m != 0) == ((a0 & m != 0) || (b0 & m != 0))
        && ((a1 | b1) & m != 0) == ((a1 & m != 0) || (b1 & m != 0))
        && ((a2 | b2) & m != 0) == ((a2 & m != 0) || (b2 & m != 0))) by (bit_vector);
}

/// A key is set in a component of the OR fold exactly when it is set in the
/// same component of some element.
proof fn lemma_or_fold_bit(s: Seq<(u16, u16, u16)>, m: u16)
    ensures
        key_bit(or_fold(s).0, m) == exists|k: int|
            0 <= k < s.len() && key_bit(#[trigger] s[k].0, m),
        key_bit(or_fold(s).1, m) == exists|k: int|
            0 <= k < s.len() && key_bit(#[trigger] s[k].1, m),
        key_bit(or_fold(s).2, m) == exists|k: int|
            0 <= k < s.len() && key_bit(#[trigger] s[k].2, m),
    decreases s.len(),
{
    if s.len() == 0 {
        assert(0u16 & m == 0) by (bit_vector);
    } else {
        lemma_or_fold_bit(s.drop_last(), m);
        lemma_or_bit3(or_fold(s.drop_last()), s.last(), m);
        assert forall|k: int| 0 <= k < s.len() - 1 implies s.drop_last()[k] == s[k] by {}
        assert(s.last() == s[s.len() - 1]);
        if key_bit(or_fold(s).0, m) {
            if key_bit(s.last().0, m) {
                assert(key_bit(s[s.len() - 1].0, m));
            } else {
                let k = choose|k: int| 0 <= k < s.len() - 1 && key_bit(#[trigger] s.drop_last()[k].0, m);
                assert(key_bit(s[k].0, m));
            }
        }
        if key_bit(or_fold(s).1, m) {
            if key_bit(s.last().1, m) {
                assert(key_bit(s[s.len() - 1].1, m));
            } else {
                let k = choose|k: int| 0 <= k < s.len() - 1 && key_bit(#[trigger] s.drop_last()[k].1, m);
                assert(key_bit(s[k].1, m));
            }
        }
        if key_bit(or_fold(s).2, m) {
            if key_bit(s.last().2, m) {
                assert(key_bit(s[s.len() - 1].2, m));
            } else {
                let k = choose|k: int| 0 <= k < s.len() - 1 && key_bit(#[trigger] s.drop_last()[k].2, m);
                assert(key_bit(s[k].2, m));
            }
        }
        if exists|k: int| 0 <= k < s.len() && key_bit(#[trigger] s[k].0, m) {
            let k = choose|k: int| 0 <= k < s.len() && key_bit(#[trigger] s[k].0, m);
            if k < s.len() - 1 {
                assert(key_bit(s.drop_last()[k].0, m));
            }
        }
        if exists|k: int| 0 <= k < s.len() && key_bit(#[trigger] s[k].1, m) {
            let k = choose|k: int| 0 <= k < s.len() && key_bit(#[trigger] s[k].1, m);
            if k < s.len() - 1 {
                assert(key_bit(s.drop_last()[k].1, m));
            }
        }
        if exists|k: int| 0 <= k < s.len() && key_bit(#[trigger] s[k].2, m) {
            let k = choose|k: int| 0 <= k < s.len() && key_bit(#[trigger] s[k].2, m);
            if k < s.len() - 1 {
                assert(key_bit(s.drop_last()[k].2, m));
            }
        }
    }
}

/// OR folds of sequences that agree pointwise on the previous and trigger
/// components agree on those components.
proof fn lemma_or_fold_tail_eq(a: Seq<(u16, u16, u16)>, b: Seq<(u16, u16, u16)>)
    requires
        a.len() == b.len(),
        forall|k: int| 0 <= k < a.len() ==> (#[trigger] a[k]).1 == b[k].1 && a[k].2 == b[k].2,
    ensures
        or_fold(a).1 == or_fold(b).1,
        or_fold(a).2 == or_fold(b).2,
    decreases a.len(),
{
    if a.len() > 0 {
        assert forall|k: int| 0 <= k < a.len() - 1 implies (#[trigger] a.drop_last()[k]).1
            == b.drop_last()[k].1 && a.drop_last()[k].2 == b.drop_last()[k].2 by {
            assert(a[k].1 == b[k].1 && a[k].2 == b[k].2);
        }
        lemma_or_fold_tail_eq(a.drop_last(), b.drop_last());
        assert(a.last() == a[a.len() - 1] && b.last() == b[b.len() - 1]);
    }
}

/// Componentwise relation of an edge latch, lifted over the OR fold: after
/// every element latches its edges, the fold's previous bits equal the old
/// current bits, the current bits are unchanged, and the trigger bits are a
/// subset of the current bits.
proof fn lemma_or_fold_latch(a: Seq<(u16, u16, u16)>, b: Seq<(u16, u16, u16)>)
    requires
        a.len() == b.len(),
        forall|k: int|
            0 <= k < a.len() ==> (#[trigger] b[k]).0 == a[k].0 && b[k].1 == a[k].0 && b[k].2
                & b[k].0 == b[k].2,
    ensures
        or_fold(b).0 == or_fold(a).0,
        or_fold(b).1 == or_fold(a).0,
        or_fold(b).2 & or_fold(b).0 == or_fold(b).2,
    decreases a.len(),
{
    if a.len() == 0 {
        assert(0u16 & 0u16 == 0u16) by (bit_vector);
    } else {
        assert forall|k: int| 0 <= k < a.len() - 1 implies (#[trigger] b.drop_last()[k]).0
            == a.drop_last()[k].0 && b.drop_last()[k].1 == a.drop_last()[k].0 && b.drop_last()[k].2
            & b.drop_last()[k].0 == b.drop_last()[k].2 by {
            assert(b[k].0 == a[k].0 && b[k].1 == a[k].0 && b[k].2 & b[k].0 == b[k].2);
        }
        lemma_or_fold_latch(a.drop_last(), b.drop_last());
        assert(a.last() == a[a.len() - 1] && b.last() == b[b.len() - 1]);
        let (head_cur, _, head_trig) = or_fold(b.drop_last());
        let (last_cur, _, last_trig) = b.last();
        assert(head_trig & head_cur == head_trig && last_trig & last_cur == last_trig
            ==> (head_trig | last_trig) & (head_cur | last_cur) == (head_trig | last_trig))
            by (bit_vector);
    }
}

/// An ordered collection of controllers acting as one.
pub struct CombinedPlayerController<C: PlayerController> {
    controllers: Vec<C>,
}

impl<C: PlayerController> CombinedPlayerController<C> {
    /// The packed views of the member controllers, in order.
    pub closed spec fn views(&self) -> Seq<(u16, u16, u16)> {
        self.controllers@.map_values(|c: C| c.ctrl_state())
    }

    /// The member views after every member applies the input sample.
    pub closed spec fn members_after_update(&self, input: KeyState) -> Seq<(u16, u16, u16)> {
        self.controllers@.map_values(|c: C| c.after_update(input))
    }

    /// The member views after every member's state is overwritten.
    pub closed spec fn members_after_set(&self, state: (u16, u16, u16)) -> Seq<(u16, u16, u16)> {
        self.controllers@.map_values(|c: C| c.after_set(state))
    }

    /// The view the member at `i` will have after applying `input`.
    pub closed spec fn member_after_update(&self, i: int, input: KeyState) -> (u16, u16, u16) {
        self.controllers@[i].after_update(input)
    }

    pub fn new() -> (r: CombinedPlayerController<C>)
        ensures
            r.views().len() == 0,
            r.ctrl_state() == (0u16, 0u16, 0u16),
    {
        CombinedPlayerController { controllers: Vec::new() }
    }

    pub fn add(&mut self, controller: C)
        ensures
            final(self).views() == old(self).views().push(controller.ctrl_state()),
    {
        self.controllers.push(controller);
        proof {
            assert(self.views() =~= old(self).views().push(controller.ctrl_state()));
        }
    }

    /// How many controllers the aggregate holds.
    pub fn member_count(&self) -> (r: usize)
        ensures
            r == self.views().len(),
    {
        self.controllers.len()
    }

    /// Applies a fresh input sample to the member at `index` alone, for
    /// hosts that sample each physical device separately.
    pub fn update_member(&mut self, index: usize, input: KeyState)
        requires
            index < old(self).views().len(),
        ensures
            final(self).views() == old(self).views().update(
                index as int,
                old(self).member_after_update(index as int, input),
            ),
    {
        self.controllers[index].update(input);
        proof {
            self.lemma_views_index();
            old(self).lemma_views_index();
            assert(self.views() =~= old(self).views().update(
                index as int,
                old(self).member_after_update(index as int, input),
            ));
        }
    }

    proof fn lemma_views_index(&self)
        ensures
            self.views().len() == self.controllers@.len(),
            forall|k: int|
                0 <= k < self.controllers@.len() ==> #[trigger] self.views()[k]
                    == self.controllers@[k].ctrl_state(),
    {
    }

    /// Whether some member controller has the key selected by `mask` set in
    /// its current bits.
    fn any_cur(&self, mask: u16) -> (r: bool)
        ensures
            r == key_bit(or_fold(self.views()).0, mask),
    {
        let mut found = false;
        let mut i: usize = 0;
        while i < self.controllers.len()
            invariant
                i <= self.controllers@.len(),
                found == exists|k: int|
                    0 <= k < i && key_bit((#[trigger] self.controllers@[k].ctrl_state()).0, mask),
            decreases self.controllers@.len() - i,
        {
            let s = self.controllers[i].dump_state();
            if s.0 & mask != 0 {
                found = true;
                proof {
                    assert(key_bit(self.controllers@[i as int].ctrl_state().0, mask));
                }
            }
            i += 1;
        }
        proof {
            self.lemma_views_index();
            lemma_or_fold_bit(self.views(), mask);
            if found {
                let k = choose|k: int|
                    0 <= k < self.controllers@.len() && key_bit(
                        (#[trigger] self.controllers@[k].ctrl_state()).0,
                        mask,
                    );
                assert(key_bit(self.views()[k].0, mask));
            }
            if key_bit(or_fold(self.views()).0, mask) {
                let k = choose|k: int|
                    0 <= k < self.views().len() && key_bit(#[trigger] self.views()[k].0, mask);
                assert(key_bit(self.controllers@[k].ctrl_state().0, mask));
            }
        }
        found
    }

    /// Whether some member controller has the key selected by `mask` set in
    /// its trigger bits.
    fn any_trig(&self, mask: u16) -> (r: bool)
        ensures
            r == key_bit(or_fold(self.views()).2, mask),
    {
        let mut found = false;
        let mut i: usize = 0;
        while i < self.controllers.len()
            invariant
                i <= self.controllers@.len(),
                found == exists|k: int|
                    0 <= k < i && key_bit((#[trigger] self.controllers@[k].ctrl_state()).2, mask),
            decreases self.controllers@.len() - i,
        {
            let s = self.controllers[i].dump_state();
            if s.2 & mask != 0 {
                found = true;
                proof {
                    assert(key_bit(self.controllers@[i as int].ctrl_state().2, mask));
                }
            }
            i += 1;
        }
        proof {
            self.lemma_views_index();
            lemma_or_fold_bit(self.views(), mask);
            if found {
                let k = choose|k: int|
                    0 <= k < self.controllers@.len() && key_bit(
                        (#[trigger] self.controllers@[k].ctrl_state()).2,
                        mask,
                    );
                assert(key_bit(self.views()[k].2, mask));
            }
            if key_bit(or_fold(self.views()).2, mask) {
                let k = choose|k: int|
                    0 <= k < self.views().len() && key_bit(#[trigger] self.views()[k].2, mask);
                assert(key_bit(self.controllers@[k].ctrl_state().2, mask));
            }
        }
        found
    }
}

impl<C: PlayerController> PlayerController for CombinedPlayerController<C> {
    closed spec fn ctrl_state(&self) -> (u16, u16, u16) {
        or_fold(self.views())
    }

    closed spec fn after_update(&self, input: KeyState) -> (u16, u16, u16) {
        or_fold(self.members_after_update(input))
    }

    closed spec fn after_set(&self, state: (u16, u16, u16)) -> (u16, u16, u16) {
        or_fold(self.members_after_set(state))
    }

    fn update(&mut self, input: KeyState)
        ensures
            final(self).views() == old(self).members_after_update(input),
    {
        let n = self.controllers.len();
        let mut i: usize = 0;
        while i < n
            invariant
                n == self.controllers@.len(),
                i <= n,
                forall|k: int|
                    i <= k < n ==> #[trigger] self.controllers@[k] == old(self).controllers@[k],
                forall|k: int|
                    0 <= k < i ==> #[trigger] self.controllers@[k].ctrl_state() == old(
                        self,
                    ).controllers@[k].after_update(input),
                forall|k: int|
                    0 <= k < i ==> (#[trigger] self.controllers@[k].ctrl_state()).1 == old(
                        self,
                    ).controllers@[k].ctrl_state().1 && self.controllers@[k].ctrl_state().2 == old(
                        self,
                    ).controllers@[k].ctrl_state().2,
            decreases n - i,
        {
            self.controllers[i].update(input);
            i += 1;
        }
        proof {
            self.lemma_views_index();
            old(self).lemma_views_index();
            lemma_or_fold_tail_eq(self.views(), old(self).views());
            assert(self.views() =~= old(self).members_after_update(input));
        }
    }

    fn update_trigger(&mut self) {
        let n = self.controllers.len();
        let mut i: usize = 0;
        while i < n
            invariant
                n == self.controllers@.len(),
                i <= n,
                forall|k: int|
                    i <= k < n ==> #[trigger] self.controllers@[k] == old(self).controllers@[k],
                forall|k: int|
                    0 <= k < i ==> (#[trigger] self.controllers@[k].ctrl_state()).0 == old(
                        self,
                    ).controllers@[k].ctrl_state().0 && self.controllers@[k].ctrl_state().1 == old(
                        self,
                    ).controllers@[k].ctrl_state().0 && self.controllers@[k].ctrl_state().2
                        & self.controllers@[k].ctrl_state().0 == self.controllers@[k].ctrl_state().2,
            decreases n - i,
        {
            self.controllers[i].update_trigger();
            i += 1;
        }
        proof {
            self.lemma_views_index();
            old(self).lemma_views_index();
            lemma_or_fold_latch(old(self).views(), self.views());
        }
    }

    fn move_up(&self) -> (r: bool) {
        self.any_cur(KEY_UP)
    }

    fn move_down(&self) -> (r: bool) {
        self.any_cur(KEY_DOWN)
    }

    fn move_left(&self) -> (r: bool) {
        self.any_cur(KEY_LEFT)
    }

    fn move_right(&self) -> (r: bool) {
        self.any_cur(KEY_RIGHT)
    }

    fn prev_weapon(&self) -> (r: bool) {
        self.any_cur(KEY_PREV_WEAPON)
    }

    fn next_weapon(&self) -> (r: bool) {
        self.any_cur(KEY_NEXT_WEAPON)
    }

    fn shoot(&self) -> (r: bool) {
        self.any_cur(KEY_SHOOT)
    }

    fn jump(&self) -> (r: bool) {
        self.any_cur(KEY_JUMP)
    }

    fn map(&self) -> (r: bool) {
        self.any_cur(KEY_MAP)
    }

    fn inventory(&self) -> (r: bool) {
        self.any_cur(KEY_INVENTORY)
    }

    fn skip(&self) -> (r: bool) {
        self.any_cur(KEY_SKIP)
    }

    fn strafe(&self) -> (r: bool) {
        self.any_cur(KEY_STRAFE)
    }

    fn trigger_up(&self) -> (r: bool) {
        self.any_trig(KEY_UP)
    }

    fn trigger_down(&self) -> (r: bool) {
        self.any_trig(KEY_DOWN)
    }

    fn trigger_left(&self) -> (r: bool) {
        self.any_trig(KEY_LEFT)
    }

    fn trigger_right(&self) -> (r: bool) {
        self.any_trig(KEY_RIGHT)
    }

    fn trigger_prev_weapon(&self) -> (r: bool) {
        self.any_trig(KEY_PREV_WEAPON)
    }

    fn trigger_next_weapon(&self) -> (r: bool) {
        self.any_trig(KEY_NEXT_WEAPON)
    }

    fn trigger_shoot(&self) -> (r: bool) {
        self.any_trig(KEY_SHOOT)
    }

    fn trigger_jump(&self) -> (r: bool) {
        self.any_trig(KEY_JUMP)
    }

    fn trigger_map(&self) -> (r: bool) {
        self.any_trig(KEY_MAP)
    }

    fn trigger_inventory(&self) -> (r: bool) {
        self.any_trig(KEY_INVENTORY)
    }

    fn trigger_skip(&self) -> (r: bool) {
        self.any_trig(KEY_SKIP)
    }

    fn trigger_strafe(&self) -> (r: bool) {
        self.any_trig(KEY_STRAFE)
    }

    fn trigger_menu_ok(&self) -> (r: bool) {
        self.any_trig(KEY_JUMP | KEY_ENTER)
    }

    fn trigger_menu_back(&self) -> (r: bool) {
        self.any_trig(KEY_SHOOT | KEY_ESCAPE)
    }

    fn trigger_menu_pause(&self) -> (r: bool) {
        self.any_trig(KEY_ESCAPE)
    }

    fn look_up(&self) -> (r: bool) {
        self.any_cur(KEY_UP)
    }

    fn look_down(&self) -> (r: bool) {
        self.any_cur(KEY_DOWN)
    }

    fn look_left(&self) -> (r: bool) {
        self.any_cur(KEY_LEFT)
    }

    fn look_right(&self) -> (r: bool) {
        self.any_cur(KEY_RIGHT)
    }

    fn dump_state(&self) -> (r: (u16, u16, u16)) {
        let mut cur: u16 = 0;
        let mut prev: u16 = 0;
        let mut trig: u16 = 0;
        let mut i: usize = 0;
        while i < self.controllers.len()
            invariant
                i <= self.controllers@.len(),
                (cur, prev, trig) == or_fold(self.views().take(i as int)),
            decreases self.controllers@.len() - i,
        {
            let s = self.controllers[i].dump_state();
            proof {
                self.lemma_views_index();
                assert(self.views().take(i + 1).drop_last() =~= self.views().take(i as int));
                assert(self.views().take(i + 1).last() == self.views()[i as int]);
            }
            cur = cur | s.0;
            prev = prev | s.1;
            trig = trig | s.2;
            i += 1;
        }
        proof {
            assert(self.views().take(self.controllers@.len() as int) =~= self.views());
        }
        (cur, prev, trig)
    }

    fn set_state(&mut self, state: (u16, u16, u16))
        ensures
            final(self).views() == old(self).members_after_set(state),
    {
        let n = self.controllers.len();
        let mut i: usize = 0;
        while i < n
            invariant
                n == self.controllers@.len(),
                i <= n,
                forall|k: int|
                    i <= k < n ==> #[trigger] self.controllers@[k] == old(self).controllers@[k],
                forall|k: int|
                    0 <= k < i ==> #[trigger] self.controllers@[k].ctrl_state() == old(
                        self,
                    ).controllers@[k].after_set(state),
            decreases n - i,
        {
            self.controllers[i].set_state(state);
            i += 1;
        }
        proof {
            self.lemma_views_index();
            old(self).lemma_views_index();
            assert(self.views() =~= old(self).members_after_set(state));
        }
    }
}

/// Fan-in law: the aggregate's view is the componentwise OR fold of its
/// members' views, so every boolean query over the aggregate answers as the
/// logical OR of the members' answers.
pub proof fn lemma_combined_is_or_fold<C: PlayerController>(c: &CombinedPlayerController<C>)
    ensures
        c.ctrl_state() == or_fold(c.views()),
{
}

} // verus!
