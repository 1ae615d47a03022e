use vstd::prelude::*;

use crate::paddle::Side;

verus! {

/// The way one component of a velocity points along its axis.
#[derive(PartialEq, Eq, Structural, Clone, Copy, Debug)]
pub enum Heading {
    Negative,
    Still,
    Positive,
}

/// The heading of the velocity component after it is negated.
pub open spec fn reversed(heading: Heading) -> Heading {
    match heading {
        Heading::Negative => Heading::Positive,
        Heading::Still => Heading::Still,
        Heading::Positive => Heading::Negative,
    }
}

/// The horizontal heading that carries the ball into the wall behind the
/// paddle on `side`.
pub open spec fn toward(side: Side) -> Heading {
    match side {
        Side::Left => Heading::Negative,
        Side::Right => Heading::Positive,
    }
}

/// What the bounce rules read of one paddle: which wall it guards and whether
/// the ball's centre lies in the paddle's rectangle grown by the ball's radius.
#[derive(PartialEq, Eq, Structural, Clone, Copy, Debug)]
pub struct PaddleContact {
    pub side: Side,
    pub touching: bool,
}

/// A paddle sends the ball back when the ball touches it while moving toward
/// the wall the paddle guards.
pub open spec fn paddle_turns(contact: PaddleContact, vx: Heading) -> bool {
    contact.touching && vx == toward(contact.side)
}

/// A wall sends the ball back when the ball touches the bottom wall moving
/// down or the top wall moving up.
pub open spec fn wall_turns(at_bottom: bool, at_top: bool, vy: Heading) -> bool {
    (at_bottom && vy == Heading::Negative) || (at_top && vy == Heading::Positive)
}

/// The horizontal heading after the paddles in `contacts` are visited in
/// order, each one reversing the heading it turns.
pub open spec fn after_paddles(vx: Heading, contacts: Seq<PaddleContact>) -> Heading
    decreases contacts.len(),
{
    if contacts.len() == 0 {
        vx
    } else {
        let before = after_paddles(vx, contacts.drop_last());
        if paddle_turns(contacts.last(), before) {
            reversed(before)
        } else {
            before
        }
    }
}

/// How many of the paddles in `contacts`, visited in order, turn the ball.
pub open spec fn paddle_bounces(vx: Heading, contacts: Seq<PaddleContact>) -> nat
    decreases contacts.len(),
{
    if contacts.len() == 0 {
        0
    } else {
        let before = after_paddles(vx, contacts.drop_last());
        paddle_bounces(vx, contacts.drop_last()) + if paddle_turns(contacts.last(), before) {
            1nat
        } else {
            0nat
        }
    }
}

/// What one pass of the bounce rules does to one ball: the headings of its
/// velocity afterwards, whether a wall turned it and how many paddles did.
/// Each turn plays the bounce sound once.
#[derive(PartialEq, Eq, Structural, Clone, Copy, Debug)]
pub struct BounceOutcome {
    pub vx: Heading,
    pub vy: Heading,
    pub wall_bounce: bool,
    pub paddle_bounces: usize,
}

/// Steers the computer's paddles toward the ball.
pub struct AIBigBrainSystem;

/// Moves every ball that is still in play by its velocity.
pub struct BallMoveSystem;

/// Turns balls back from the top and bottom walls and from the paddles.
pub struct BounceSystem;

/// Moves the players' paddles by the input axes, inside the arena.
pub struct PaddleSystem;

/// Puts a ball that reached the left or right edge back in the centre.
pub struct ScoreSystem;

fn reverse(heading: Heading) -> (r: Heading)
    ensures
        r == reversed(heading),
{
    match heading {
        Heading::Negative => Heading::Positive,
        Heading::Still => Heading::Still,
        Heading::Positive => Heading::Negative,
    }
}

fn turns_at(contact: &PaddleContact, vx: Heading) -> (r: bool)
    ensures
        r == paddle_turns(*contact, vx),
{
    contact.touching && match contact.side {
        Side::Left => vx == Heading::Negative,
        Side::Right => vx == Heading::Positive,
    }
}

impl BounceSystem {
    /// One pass of the bounce rules over one ball: the walls first, then every
    /// paddle in the order of `contacts`.
    pub fn bounce(
        &self,
        vx: Heading,
        vy: Heading,
        at_bottom: bool,
        at_top: bool,
        contacts: &Vec<PaddleContact>,
    ) -> (outcome: BounceOutcome)
        ensures
            outcome.wall_bounce == wall_turns(at_bottom, at_top, vy),
            outcome.vy == if wall_turns(at_bottom, at_top, vy) {
                reversed(vy)
            } else {
                vy
            },
            outcome.vx == after_paddles(vx, contacts@),
            outcome.paddle_bounces == paddle_bounces(vx, contacts@),
    {
        let wall_bounce = (at_bottom && vy == Heading::Negative) || (at_top && vy
            == Heading::Positive);
        let new_vy = if wall_bounce {
            reverse(vy)
        } else {
            vy
        };
        let mut cur = vx;
        let mut count: usize = 0;
        let mut i: usize = 0;
        while i < contacts.len()
            invariant
                i <= contacts.len(),
                count <= i,
                cur == after_paddles(vx, contacts@.take(i as int)),
                count == paddle_bounces(vx, contacts@.take(i as int)),
            decreases contacts.len() - i,
        {
            assert(contacts@.take(i + 1).drop_last() =~= contacts@.take(i as int));
            if turns_at(&contacts[i], cur) {
                cur = reverse(cur);
                count = count + 1;
            }
            i = i + 1;
        }
        assert(contacts@.take(contacts.len() as int) =~= contacts@);
        BounceOutcome { vx: cur, vy: new_vy, wall_bounce, paddle_bounces: count }
    }
}

impl AIBigBrainSystem {
    /// The heading the computer gives a paddle's vertical velocity, from one
    /// flag per ball, in the order the balls are visited, telling whether the
    /// paddle's centre is at or above that ball's centre. Each ball overrides
    /// the one before, so the last ball decides: the paddle moves down toward
    /// a ball at or below it and up toward a ball above it. With no ball in
    /// play the paddle keeps its velocity (`None`).
    pub fn steer(&self, at_or_above: &Vec<bool>) -> (heading: Option<Heading>)
        ensures
            at_or_above@.len() == 0 ==> heading == None::<Heading>,
            at_or_above@.len() > 0 ==> heading == Some(
                if at_or_above@.last() {
                    Heading::Negative
                } else {
                    Heading::Positive
                },
            ),
    {
        let mut heading: Option<Heading> = None;
        let mut i: usize = 0;
        while i < at_or_above.len()
            invariant
                i <= at_or_above.len(),
                i == 0 ==> heading == None::<Heading>,
                i > 0 ==> heading == Some(
                    if at_or_above@[i - 1] {
                        Heading::Negative
                    } else {
                        Heading::Positive
                    },
                ),
            decreases at_or_above.len() - i,
        {
            heading = Some(
                if at_or_above[i] {
                    Heading::Negative
                } else {
                    Heading::Positive
                },
            );
            i = i + 1;
        }
        heading
    }
}

impl PaddleSystem {
    /// The name of the input axis that moves the paddle on `side`.
    pub fn input_axis(&self, side: Side) -> (axis: &'static str)
        ensures
            side == Side::Left ==> axis@ == "left_paddle"@,
            side == Side::Right ==> axis@ == "right_paddle"@,
    {
        match side {
            Side::Left => "left_paddle",
            Side::Right => "right_paddle",
        }
    }
}

/// True when every paddle in `contacts` that the ball touches guards `side`.
pub open spec fn touches_only(contacts: Seq<PaddleContact>, side: Side) -> bool {
    forall|i: int| 0 <= i < contacts.len() && #[trigger] contacts[i].touching ==> contacts[i].side
        == side
}

/// True when the ball touches some paddle in `contacts`.
pub open spec fn touches_any(contacts: Seq<PaddleContact>) -> bool {
    exists|i: int| 0 <= i < contacts.len() && #[trigger] contacts[i].touching
}

proof fn lemma_away_stays(side: Side, vx: Heading, contacts: Seq<PaddleContact>)
    requires
        touches_only(contacts, side),
        vx != toward(side),
    ensures
        after_paddles(vx, contacts) == vx,
        paddle_bounces(vx, contacts) == 0,
    decreases contacts.len(),
{
    if contacts.len() > 0 {
        let prefix = contacts.drop_last();
        assert forall|i: int| 0 <= i < prefix.len() && #[trigger] prefix[i].touching implies prefix[i].side
            == side by {
            assert(prefix[i] == contacts[i]);
        }
        lemma_away_stays(side, vx, prefix);
        assert(contacts.last() == contacts[contacts.len() - 1]);
    }
}

proof fn lemma_untouched_stays(vx: Heading, contacts: Seq<PaddleContact>)
    requires
        !touches_any(contacts),
    ensures
        after_paddles(vx, contacts) == vx,
        paddle_bounces(vx, contacts) == 0,
    decreases contacts.len(),
{
    if contacts.len() > 0 {
        let prefix = contacts.drop_last();
        assert(!touches_any(prefix)) by {
            if touches_any(prefix) {
                let i = choose|i: int| 0 <= i < prefix.len() && #[trigger] prefix[i].touching;
                assert(contacts[i] == prefix[i]);
            }
        }
        lemma_untouched_stays(vx, prefix);
        assert(contacts.last() == contacts[contacts.len() - 1]);
    }
}

proof fn lemma_touched_turns_away(side: Side, vx: Heading, contacts: Seq<PaddleContact>)
    requires
        touches_only(contacts, side),
        touches_any(contacts),
    ensures
        after_paddles(vx, contacts) != toward(side),
        paddle_bounces(vx, contacts) <= 1,
        paddle_bounces(vx, contacts) == 1 <==> vx == toward(side),
    decreases contacts.len(),
{
    let prefix = contacts.drop_last();
    let last = contacts.last();
    assert(last == contacts[contacts.len() - 1]);
    assert forall|i: int| 0 <= i < prefix.len() && #[trigger] prefix[i].touching implies prefix[i].side
        == side by {
        assert(prefix[i] == contacts[i]);
    }
    if vx != toward(side) {
        lemma_away_stays(side, vx, contacts);
    } else if touches_any(prefix) {
        lemma_touched_turns_away(side, vx, prefix);
        let before = after_paddles(vx, prefix);
        assert(!paddle_turns(last, before));
    } else {
        lemma_untouched_stays(vx, prefix);
        let i = choose|i: int| 0 <= i < contacts.len() && #[trigger] contacts[i].touching;
        if i < prefix.len() {
            assert(prefix[i] == contacts[i]);
        }
        assert(last.touching);
        assert(last.side == side);
    }
}

/// A ball stays in a paddle's reach for several frames. When every paddle the
/// ball touches guards the same wall, one pass of the rules turns the ball at
/// most once, a ball it touched leaves heading away from that wall, and the
/// next pass, with the ball still touching the same paddles, turns it no more.
pub proof fn lemma_paddle_bounce_settles(side: Side, vx: Heading, contacts: Seq<PaddleContact>)
    requires
        touches_only(contacts, side),
    ensures
        paddle_bounces(vx, contacts) <= 1,
        touches_any(contacts) ==> after_paddles(vx, contacts) != toward(side),
        after_paddles(after_paddles(vx, contacts), contacts) == after_paddles(vx, contacts),
        paddle_bounces(after_paddles(vx, contacts), contacts) == 0,
{
    let after = after_paddles(vx, contacts);
    if touches_any(contacts) {
        lemma_touched_turns_away(side, vx, contacts);
        lemma_away_stays(side, after, contacts);
    } else {
        lemma_untouched_stays(vx, contacts);
        lemma_untouched_stays(after, contacts);
    }
}

/// A ball that touches only one of the two walls, once turned, heads away
/// from that wall: the next pass with the ball still touching it turns it no
/// more.
pub proof fn lemma_wall_bounce_settles(at_bottom: bool, at_top: bool, vy: Heading)
    requires
        !(at_bottom && at_top),
    ensures
        ({
            let after = if wall_turns(at_bottom, at_top, vy) {
                reversed(vy)
            } else {
                vy
            };
            !wall_turns(at_bottom, at_top, after)
        }),
{
}

} // verus!
