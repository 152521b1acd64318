//! How the items of the world move in one tick, and which of them leave it.

use crate::background::Background;
use crate::bullet::Bullet;
use crate::crater::Crater;
use crate::monster::Monster;
use vstd::prelude::*;

verus! {

/// The column one to the left, or zero where there is none.
pub open spec fn left_of(col: u16) -> u16 {
    if col > 0 {
        (col - 1) as u16
    } else {
        0
    }
}

/// The column one to the right, or the last one where there is none.
pub open spec fn right_of(col: u16) -> u16 {
    if col < u16::MAX {
        (col + 1) as u16
    } else {
        col
    }
}

/// The bullet strikes the monster: they share a row, and the bullet is in
/// the monster's column or the one right of it, a monster being drawn two
/// columns wide.
pub open spec fn hits(m: Monster, b: Bullet) -> bool {
    (m.col == b.col || m.col + 1 == b.col) && m.row == b.row
}

/// Index of the first monster from `from` on that the bullet strikes, or
/// the number of monsters if it strikes none of them.
pub open spec fn first_hit(ms: Seq<Monster>, b: Bullet, from: int) -> int
    decreases ms.len() - from,
{
    if from < 0 || from >= ms.len() {
        ms.len() as int
    } else if hits(ms[from], b) {
        from
    } else {
        first_hit(ms, b, from + 1)
    }
}

/// What is left after the bullets, taken in their order, have each met the
/// monsters: a bullet that strikes removes the first monster it strikes and
/// is spent; one that strikes nothing stays if it is still on a screen of
/// `cols` columns. The result is the bullets that stay and the monsters that
/// live, both in their old order.
pub open spec fn volley(bs: Seq<Bullet>, ms: Seq<Monster>, cols: u16) -> (Seq<Bullet>, Seq<Monster>)
    decreases bs.len(),
{
    if bs.len() == 0 {
        (Seq::empty(), ms)
    } else {
        let b = bs[0];
        let k = first_hit(ms, b, 0);
        if k < ms.len() {
            volley(bs.drop_first(), ms.remove(k), cols)
        } else {
            let rest = volley(bs.drop_first(), ms, cols);
            if b.col < cols {
                (seq![b] + rest.0, rest.1)
            } else {
                rest
            }
        }
    }
}

/// The bullet one tick later.
pub open spec fn flown(b: Bullet) -> Bullet {
    Bullet { col: right_of(b.col), row: b.row }
}

/// The crater one tick later, seen from a moving rover.
pub open spec fn scrolled_crater(c: Crater) -> Crater {
    Crater { col: left_of(c.col), row: c.row }
}

/// The monster one tick later, seen from a moving rover: one column
/// nearer, and one step further in its bob.
pub open spec fn scrolled_monster(m: Monster) -> Monster {
    (Monster { col: left_of(m.col), row: m.row, jumping: m.jumping }).after_jump()
}

/// The particle one column to the left.
pub open spec fn scrolled_background(p: Background) -> Background {
    Background { col: left_of(p.col), row: p.row, chr: p.chr }
}

/// All bullets one tick later.
pub open spec fn fly(bs: Seq<Bullet>) -> Seq<Bullet> {
    Seq::new(bs.len(), |i: int| flown(bs[i]))
}

/// The craters one tick later that have not reached column zero.
pub open spec fn scroll_craters(cs: Seq<Crater>) -> Seq<Crater> {
    Seq::new(cs.len(), |i: int| scrolled_crater(cs[i])).filter(|c: Crater| c.col > 0)
}

/// The monsters one tick later that have not reached column zero.
pub open spec fn scroll_monsters(ms: Seq<Monster>) -> Seq<Monster> {
    Seq::new(ms.len(), |i: int| scrolled_monster(ms[i])).filter(|m: Monster| m.col > 0)
}

/// The particles, moved one column if `moved`, that are not in column zero.
pub open spec fn scroll_backgrounds(ps: Seq<Background>, moved: bool) -> Seq<Background> {
    Seq::new(
        ps.len(),
        |i: int|
            if moved {
                scrolled_background(ps[i])
            } else {
                ps[i]
            },
    ).filter(|p: Background| p.col > 0)
}

/// The first strike is a strike, and no monster between `from` and it is
/// struck.
pub proof fn lemma_first_hit(ms: Seq<Monster>, b: Bullet, from: int)
    requires
        0 <= from <= ms.len(),
    ensures
        from <= first_hit(ms, b, from) <= ms.len(),
        first_hit(ms, b, from) < ms.len() ==> hits(ms[first_hit(ms, b, from)], b),
        forall|j: int| from <= j < first_hit(ms, b, from) ==> !hits(#[trigger] ms[j], b),
    decreases ms.len() - from,
{
    if from < ms.len() && !hits(ms[from], b) {
        lemma_first_hit(ms, b, from + 1);
    }
}

/// Finds the first monster that the bullet strikes.
pub fn find_hit(monsters: &Vec<Monster>, b: Bullet) -> (k: usize)
    ensures
        k == first_hit(monsters@, b, 0),
        k <= monsters@.len(),
{
    let mut i: usize = 0;
    while i < monsters.len()
        invariant
            i <= monsters.len(),
            first_hit(monsters@, b, 0) == first_hit(monsters@, b, i as int),
        decreases monsters.len() - i,
    {
        let m: Monster = monsters[i];
        if (m.col == b.col || (m.col < u16::MAX && m.col + 1 == b.col)) && m.row == b.row {
            return i;
        }
        i += 1;
    }
    i
}

/// Moves every bullet one column, lets each meet the monsters, and returns
/// the bullets that stay; the monsters struck are removed.
pub fn fire(bullets: &Vec<Bullet>, monsters: &mut Vec<Monster>, cols: u16) -> (kept: Vec<Bullet>)
    ensures
        (kept@, final(monsters)@) == volley(fly(bullets@), old(monsters)@, cols),
{
    let ghost all = fly(bullets@);
    let mut kept: Vec<Bullet> = Vec::new();
    let mut i: usize = 0;
    assert(all.skip(0) =~= all);
    assert(kept@ + volley(all, monsters@, cols).0 =~= volley(all, monsters@, cols).0);
    while i < bullets.len()
        invariant
            i <= bullets.len(),
            all == fly(bullets@),
            volley(all, old(monsters)@, cols) == (
                kept@ + volley(all.skip(i as int), monsters@, cols).0,
                volley(all.skip(i as int), monsters@, cols).1,
            ),
        decreases bullets.len() - i,
    {
        let b = Bullet::new(bullets[i].col.saturating_add(1), bullets[i].row);
        let ghost before = monsters@;
        let ghost tail = all.skip(i as int);
        assert(tail[0] == b);
        assert(tail.drop_first() =~= all.skip(i + 1));
        let k = find_hit(monsters, b);
        if k < monsters.len() {
            monsters.remove(k);
        } else if b.col < cols {
            kept.push(b);
            assert(kept@ + volley(all.skip(i + 1), before, cols).0 =~= kept@.drop_last() + (seq![b]
                + volley(all.skip(i + 1), before, cols).0));
        }
        i += 1;
    }
    assert(all.skip(i as int).len() == 0);
    assert(kept@ + Seq::<Bullet>::empty() =~= kept@);
    kept
}

/// Moves every crater one column to the left and drops those that reach
/// column zero.
pub fn move_craters(craters: &Vec<Crater>) -> (out: Vec<Crater>)
    ensures
        out@ == scroll_craters(craters@),
{
    let mut out: Vec<Crater> = Vec::new();
    let mut i: usize = 0;
    assert(scroll_craters(craters@.take(0)) =~= Seq::empty()) by {
        reveal(Seq::filter);
    }
    while i < craters.len()
        invariant
            i <= craters.len(),
            out@ == scroll_craters(craters@.take(i as int)),
        decreases craters.len() - i,
    {
        let c = Crater::new(craters[i].col.saturating_sub(1), craters[i].row);
        proof {
            let next = craters@.take(i + 1);
            let moved = Seq::new(next.len(), |j: int| scrolled_crater(next[j]));
            let prior = craters@.take(i as int);
            assert(moved.drop_last() =~= Seq::new(prior.len(), |j: int| scrolled_crater(prior[j])));
            assert(moved.last() == c);
            reveal(Seq::filter);
        }
        if c.col > 0 {
            out.push(c);
        }
        i += 1;
    }
    assert(craters@.take(i as int) =~= craters@);
    out
}

/// Moves every monster one column to the left and one step in its bob, and
/// drops those that reach column zero.
pub fn move_monsters(monsters: &Vec<Monster>) -> (out: Vec<Monster>)
    ensures
        out@ == scroll_monsters(monsters@),
{
    let mut out: Vec<Monster> = Vec::new();
    let mut i: usize = 0;
    assert(scroll_monsters(monsters@.take(0)) =~= Seq::empty()) by {
        reveal(Seq::filter);
    }
    while i < monsters.len()
        invariant
            i <= monsters.len(),
            out@ == scroll_monsters(monsters@.take(i as int)),
        decreases monsters.len() - i,
    {
        let mut m = monsters[i];
        m.col = m.col.saturating_sub(1);
        m.jump();
        proof {
            let next = monsters@.take(i + 1);
            let moved = Seq::new(next.len(), |j: int| scrolled_monster(next[j]));
            let prior = monsters@.take(i as int);
            assert(moved.drop_last() =~= Seq::new(prior.len(), |j: int| scrolled_monster(prior[j])));
            assert(moved.last() == m);
            reveal(Seq::filter);
        }
        if m.col > 0 {
            out.push(m);
        }
        i += 1;
    }
    assert(monsters@.take(i as int) =~= monsters@);
    out
}

/// Moves every particle one column to the left if `moved`, and drops those
/// in column zero.
pub fn move_backgrounds(particles: &Vec<Background>, moved: bool) -> (out: Vec<Background>)
    ensures
        out@ == scroll_backgrounds(particles@, moved),
{
    let mut out: Vec<Background> = Vec::new();
    let mut i: usize = 0;
    assert(scroll_backgrounds(particles@.take(0), moved) =~= Seq::empty()) by {
        reveal(Seq::filter);
    }
    while i < particles.len()
        invariant
            i <= particles.len(),
            out@ == scroll_backgrounds(particles@.take(i as int), moved),
        decreases particles.len() - i,
    {
        let mut p = particles[i];
        if moved {
            p.col = p.col.saturating_sub(1);
        }
        proof {
            let next = particles@.take(i + 1);
            let shifted = Seq::new(
                next.len(),
                |j: int|
                    if moved {
                        scrolled_background(next[j])
                    } else {
                        next[j]
                    },
            );
            let prior = particles@.take(i as int);
            assert(shifted.drop_last() =~= Seq::new(
                prior.len(),
                |j: int|
                    if moved {
                        scrolled_background(prior[j])
                    } else {
                        prior[j]
                    },
            ));
            assert(shifted.last() == p);
            reveal(Seq::filter);
        }
        if p.col > 0 {
            out.push(p);
        }
        i += 1;
    }
    assert(particles@.take(i as int) =~= particles@);
    out
}

} // verus!
