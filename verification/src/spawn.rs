//! The spawn controller: when a facility builds a unit, under which name and
//! in which role.

use vstd::prelude::*;
use vstd::string::StringExecFns;
use screeps::constants::Part;
use crate::role::{Role, role_of_sequence, role_for_sequence};
use crate::task::UnitRecord;
use crate::registry::Registry;
use crate::tick::{Pass, registry_next};

verus! {

/// A part of a unit's body.
#[derive(Clone, Copy, Debug, PartialEq, Eq, Structural)]
pub enum BodyPart {
    Move,
    Work,
    Carry,
    Attack,
    RangedAttack,
    Tough,
    Heal,
    Claim,
}

/// What the host charges for one part.
pub open spec fn part_price(part: BodyPart) -> u32 {
    match part {
        BodyPart::Move => 50,
        BodyPart::Work => 100,
        BodyPart::Carry => 50,
        BodyPart::Attack => 80,
        BodyPart::RangedAttack => 150,
        BodyPart::Tough => 10,
        BodyPart::Heal => 250,
        BodyPart::Claim => 600,
    }
}

/// What the host charges for a whole body.
pub open spec fn body_price(body: Seq<BodyPart>) -> nat
    decreases body.len(),
{
    if body.len() == 0 {
        0
    } else {
        body_price(body.drop_last()) + part_price(body.last()) as nat
    }
}

/// The body every unit is built with.
pub open spec fn standard_plan() -> Seq<BodyPart> {
    seq![BodyPart::Move, BodyPart::Move, BodyPart::Carry, BodyPart::Work]
}

/// The character of a decimal digit.
pub open spec fn digit_char(d: nat) -> char {
    if d == 0 {
        '0'
    } else if d == 1 {
        '1'
    } else if d == 2 {
        '2'
    } else if d == 3 {
        '3'
    } else if d == 4 {
        '4'
    } else if d == 5 {
        '5'
    } else if d == 6 {
        '6'
    } else if d == 7 {
        '7'
    } else if d == 8 {
        '8'
    } else {
        '9'
    }
}

/// A number in decimal, without sign or leading zeros.
pub open spec fn decimal(n: nat) -> Seq<char>
    decreases n,
{
    if n < 10 {
        seq![digit_char(n)]
    } else {
        decimal(n / 10).push(digit_char(n % 10))
    }
}

/// The name of the unit built on `tick` under sequence number `sequence`:
/// both numbers in decimal, joined by a hyphen.
pub open spec fn unit_label(tick: u32, sequence: u32) -> Seq<char> {
    decimal(tick as nat) + seq!['-'] + decimal(sequence as nat)
}

proof fn lemma_decimal_not_empty(n: nat)
    ensures
        decimal(n).len() >= 1,
    decreases n,
{
    if n >= 10 {
        lemma_decimal_not_empty(n / 10);
    }
}

/// Different numbers are written differently.
pub proof fn lemma_decimal_tells_number(a: nat, b: nat)
    requires
        decimal(a) == decimal(b),
    ensures
        a == b,
    decreases a,
{
    if a < 10 && b < 10 {
        assert(decimal(a)[0] == digit_char(a));
        assert(decimal(b)[0] == digit_char(b));
        assert(digit_char(a) == digit_char(b));
    } else if a < 10 {
        lemma_decimal_not_empty(b / 10);
        assert(decimal(a).len() == 1);
        assert(decimal(b).len() == decimal(b / 10).len() + 1);
    } else if b < 10 {
        lemma_decimal_not_empty(a / 10);
        assert(decimal(b).len() == 1);
        assert(decimal(a).len() == decimal(a / 10).len() + 1);
    } else {
        let x = decimal(a / 10).push(digit_char(a % 10));
        let y = decimal(b / 10).push(digit_char(b % 10));
        assert(x.drop_last() =~= decimal(a / 10));
        assert(y.drop_last() =~= decimal(b / 10));
        assert(x.last() == digit_char(a % 10));
        assert(y.last() == digit_char(b % 10));
        lemma_decimal_tells_number(a / 10, b / 10);
    }
}

/// Within a tick, different sequence numbers give different names.
pub proof fn lemma_label_tells_sequence(tick: u32, a: u32, b: u32)
    requires
        unit_label(tick, a) == unit_label(tick, b),
    ensures
        a == b,
{
    let head = decimal(tick as nat) + seq!['-'];
    let x = head + decimal(a as nat);
    let y = head + decimal(b as nat);
    assert(x.subrange(head.len() as int, x.len() as int) =~= decimal(a as nat));
    assert(y.subrange(head.len() as int, y.len() as int) =~= decimal(b as nat));
    assert(x.len() == y.len());
    lemma_decimal_tells_number(a as nat, b as nat);
}

/// An order to build one unit.
#[derive(Debug)]
pub struct SpawnOrder {
    pub name: String,
    pub role: Role,
    pub body: Vec<BodyPart>,
}

/// Calls `screeps::constants::Part::cost` on the host's counterpart of
/// `part`. The contract repeats the table that function is written as.
#[verifier::external_body]
fn part_cost(part: BodyPart) -> (cost: u32)
    ensures
        cost == part_price(part),
{
    let outside = match part {
        BodyPart::Move => Part::Move,
        BodyPart::Work => Part::Work,
        BodyPart::Carry => Part::Carry,
        BodyPart::Attack => Part::Attack,
        BodyPart::RangedAttack => Part::RangedAttack,
        BodyPart::Tough => Part::Tough,
        BodyPart::Heal => Part::Heal,
        BodyPart::Claim => Part::Claim,
    };
    outside.cost()
}

proof fn lemma_price_grows(body: Seq<BodyPart>, n: int)
    requires
        0 <= n <= body.len(),
    ensures
        body_price(body.take(n)) <= body_price(body),
    decreases body.len(),
{
    if n == body.len() {
        assert(body.take(n) =~= body);
    } else {
        assert(body.drop_last().take(n) =~= body.take(n));
        lemma_price_grows(body.drop_last(), n);
    }
}

/// The cost of `body`, part by part, or `None` where the sum is more than
/// the host's counter holds.
pub fn body_cost(body: &Vec<BodyPart>) -> (cost: Option<u32>)
    ensures
        cost == (if body_price(body@) <= u32::MAX {
            Some(body_price(body@) as u32)
        } else {
            None
        }),
{
    let mut cost: u32 = 0;
    let mut i: usize = 0;
    assert(body@.take(0) =~= Seq::<BodyPart>::empty());
    while i < body.len()
        invariant
            i <= body@.len(),
            cost == body_price(body@.take(i as int)),
        decreases body@.len() - i,
    {
        let price = part_cost(body[i]);
        proof {
            assert(body@.take(i + 1).drop_last() =~= body@.take(i as int));
            assert(body@.take(i + 1).last() == body@[i as int]);
            lemma_price_grows(body@, i + 1);
        }
        if price > u32::MAX - cost {
            return None;
        }
        cost = cost + price;
        i += 1;
    }
    assert(body@.take(body@.len() as int) =~= body@);
    Some(cost)
}

/// The standard plan costs 250.
pub proof fn lemma_standard_price()
    ensures
        body_price(standard_plan()) == 250,
{
    let plan = standard_plan();
    let three = plan.drop_last();
    let two = three.drop_last();
    let one = two.drop_last();
    assert(one.drop_last().len() == 0);
    assert(body_price(one.drop_last()) == 0);
    assert(body_price(one) == 50);
    assert(body_price(two) == 100);
    assert(body_price(three) == 150);
}

/// The body every unit is built with: two parts to move, one to carry, one
/// to work.
pub fn standard_body() -> (body: Vec<BodyPart>)
    ensures
        body@ == standard_plan(),
{
    let mut body: Vec<BodyPart> = Vec::new();
    body.push(BodyPart::Move);
    body.push(BodyPart::Move);
    body.push(BodyPart::Carry);
    body.push(BodyPart::Work);
    assert(body@ =~= standard_plan());
    body
}

fn digit_text(d: u32) -> (text: &'static str)
    requires
        d < 10,
    ensures
        text@ == seq![digit_char(d as nat)],
{
    proof {
        reveal_strlit("0");
        reveal_strlit("1");
        reveal_strlit("2");
        reveal_strlit("3");
        reveal_strlit("4");
        reveal_strlit("5");
        reveal_strlit("6");
        reveal_strlit("7");
        reveal_strlit("8");
        reveal_strlit("9");
    }
    let text = if d == 0 {
        "0"
    } else if d == 1 {
        "1"
    } else if d == 2 {
        "2"
    } else if d == 3 {
        "3"
    } else if d == 4 {
        "4"
    } else if d == 5 {
        "5"
    } else if d == 6 {
        "6"
    } else if d == 7 {
        "7"
    } else if d == 8 {
        "8"
    } else {
        "9"
    };
    assert(text@ =~= seq![digit_char(d as nat)]);
    text
}

/// Writes `n` in decimal.
pub fn decimal_text(n: u32) -> (text: String)
    ensures
        text@ == decimal(n as nat),
    decreases n,
{
    if n < 10 {
        String::from_str(digit_text(n))
    } else {
        let mut text = decimal_text(n / 10);
        text.append(digit_text(n % 10));
        assert(text@ =~= decimal(n as nat));
        text
    }
}

/// The name of the unit built on `tick` under sequence number `sequence`.
pub fn unit_name(tick: u32, sequence: u32) -> (name: String)
    ensures
        name@ == unit_label(tick, sequence),
{
    let mut name = decimal_text(tick);
    proof {
        reveal_strlit("-");
    }
    name.append("-");
    let tail = decimal_text(sequence);
    name.append(tail.as_str());
    assert(name@ =~= unit_label(tick, sequence));
    name
}

/// Decides whether a facility whose room has `energy` available builds a
/// unit. It does exactly if the energy covers the standard plan; the order
/// then names the unit after the tick and the sequence number and gives it
/// the role that the sequence number's parity calls for.
pub fn plan_spawn(energy: u32, tick: u32, sequence: u32) -> (order: Option<SpawnOrder>)
    ensures
        order.is_some() <==> energy >= body_price(standard_plan()),
        match order {
            Some(o) => o.name@ == unit_label(tick, sequence) && o.role == role_of_sequence(
                sequence as nat,
            ) && o.body@ == standard_plan(),
            None => true,
        },
{
    let body = standard_body();
    proof {
        lemma_standard_price();
    }
    match body_cost(&body) {
        Some(cost) => {
            if energy >= cost {
                Some(
                    SpawnOrder {
                        name: unit_name(tick, sequence),
                        role: role_for_sequence(sequence),
                        body,
                    },
                )
            } else {
                None
            }
        },
        None => None,
    }
}

/// Books the host's answer to a spawn order. A unit that was created is
/// filed under the order's name with the order's role and no task, over
/// whatever an earlier unit of that name left behind, and the sequence
/// number moves on. A refused order changes nothing.
pub fn record_spawn(
    registry: &mut Registry,
    order: &SpawnOrder,
    sequence: u32,
    created: bool,
) -> (next: u32)
    requires
        sequence < u32::MAX,
    ensures
        next == (if created {
            sequence + 1
        } else {
            sequence as int
        }),
        final(registry)@ == registry_next(
            old(registry)@,
            (Pass::Spawned { name: order.name@, role: order.role, created }),
        ),
{
    if created {
        registry.insert(&order.name, UnitRecord { role: order.role, task: None });
        sequence + 1
    } else {
        sequence
    }
}

} // verus!
