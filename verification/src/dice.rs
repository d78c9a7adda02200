//! Dice notation: `<count>d<sides>`, optionally followed by `+<modifier>`.
//!
//! An expression is read in two cuts. The text before the first `+` is the
//! dice term, and what follows that `+` is the modifier, which is 0 where
//! there is no `+`. The dice term must hold exactly one `d`, with an integer
//! on either side; the modifier must be an integer, so that a second `+` has
//! no place. Count and sides must be positive; the modifier may be negative.

use vstd::prelude::*;
use crate::text::{
    after, all_digits, before, chars_of, cut, lemma_cut_at, lemma_uncut, parse_i32, signed_decimal,
    unsigned_part,
};

verus! {

/// A dice expression that has been read and found valid.
#[derive(Clone, Copy, Debug, PartialEq, Eq, Structural)]
pub struct DiceExpr {
    pub count: i32,
    pub sides: i32,
    pub modifier: i32,
}

/// Why a dice expression produced no roll.
#[derive(Clone, Copy, Debug, PartialEq, Eq, Structural)]
pub enum DiceError {
    /// The dice term does not hold exactly one `d`.
    InvalidFormat,
    /// What stands before the `d` is no integer.
    InvalidCount,
    /// What stands after the `d` is no integer.
    InvalidSides,
    /// What stands after the `+` is no integer.
    InvalidModifier,
    /// The count or the number of sides is zero or negative.
    NotPositive,
    /// The dice came to a total that an `i32` cannot hold.
    TotalOutOfRange,
}

/// The outcome of rolling: every die in roll order, and the total with the
/// modifier added.
#[derive(Clone, Debug, PartialEq, Eq)]
pub struct DiceRoll {
    pub total: i32,
    pub rolls: Vec<i32>,
}

/// A roll as it is reported to the players: the expression as it was typed,
/// the total, each die, and the roller's free-text reason.
#[derive(Clone, Debug, PartialEq, Eq)]
pub struct DiceResult {
    pub dice: String,
    pub result: i32,
    pub rolls: Vec<i32>,
    pub reason: Option<String>,
}

pub struct DiceRollView {
    pub total: int,
    pub rolls: Seq<i32>,
}

impl View for DiceRoll {
    type V = DiceRollView;

    open spec fn view(&self) -> DiceRollView {
        DiceRollView { total: self.total as int, rolls: self.rolls@ }
    }
}

pub struct DiceResultView {
    pub dice: Seq<char>,
    pub result: int,
    pub rolls: Seq<i32>,
    pub reason: Option<Seq<char>>,
}

impl View for DiceResult {
    type V = DiceResultView;

    open spec fn view(&self) -> DiceResultView {
        DiceResultView {
            dice: self.dice@,
            result: self.result as int,
            rolls: self.rolls@,
            reason: match self.reason {
                Some(r) => Some(r@),
                None => None,
            },
        }
    }
}

impl DiceError {
    /// The message shown to the player.
    pub open spec fn text(self) -> Seq<char> {
        match self {
            DiceError::InvalidFormat => "Invalid dice format. Use format like '2d6+3'"@,
            DiceError::InvalidCount => "Invalid dice count"@,
            DiceError::InvalidSides => "Invalid dice sides"@,
            DiceError::InvalidModifier => "Invalid dice modifier"@,
            DiceError::NotPositive => "Dice count and sides must be positive"@,
            DiceError::TotalOutOfRange => "Dice total out of range"@,
        }
    }

    pub fn message(&self) -> (m: String)
        ensures
            m@ == self.text(),
    {
        match self {
            DiceError::InvalidFormat => "Invalid dice format. Use format like '2d6+3'".to_owned(),
            DiceError::InvalidCount => "Invalid dice count".to_owned(),
            DiceError::InvalidSides => "Invalid dice sides".to_owned(),
            DiceError::InvalidModifier => "Invalid dice modifier".to_owned(),
            DiceError::NotPositive => "Dice count and sides must be positive".to_owned(),
            DiceError::TotalOutOfRange => "Dice total out of range".to_owned(),
        }
    }
}

/// The modifier that `text` carries: the integer after its `+`, and 0 where
/// it has no `+`. `None` where what follows the `+` is no integer.
pub open spec fn modifier_of(text: Seq<char>) -> Option<i32> {
    match after(text, '+') {
        Some(rest) => signed_decimal(rest),
        None => Some(0),
    }
}

/// Whether `text` holds `sep` exactly once.
pub open spec fn holds_once(text: Seq<char>, sep: char) -> bool {
    after(text, sep) matches Some(rest) && after(rest, sep) is None
}

/// What a dice expression means, or why it means nothing.
///
/// The shape is checked first: at most one `+`, and exactly one `d` before
/// it. Then the count, the sides and the modifier must each be an integer,
/// in that order, and at last count and sides must be positive.
pub open spec fn parsed(text: Seq<char>) -> Result<DiceExpr, DiceError> {
    let term = before(text, '+');
    if after(text, '+') matches Some(rest) && after(rest, '+') is Some {
        Err(DiceError::InvalidFormat)
    } else if !holds_once(term, 'd') {
        Err(DiceError::InvalidFormat)
    } else {
        match (signed_decimal(before(term, 'd')), signed_decimal(after(term, 'd')->0), modifier_of(text)) {
            (None, _, _) => Err(DiceError::InvalidCount),
            (Some(_), None, _) => Err(DiceError::InvalidSides),
            (Some(_), Some(_), None) => Err(DiceError::InvalidModifier),
            (Some(count), Some(sides), Some(modifier)) => if count <= 0 || sides <= 0 {
                Err(DiceError::NotPositive)
            } else {
                Ok(DiceExpr { count, sides, modifier })
            },
        }
    }
}

/// The face that a raw draw selects on a die of `sides` sides: 1 to `sides`.
pub open spec fn face(draw: u32, sides: i32) -> int {
    draw as int % sides as int + 1
}

/// The faces that a run of draws selects, in order.
pub open spec fn faces(draws: Seq<u32>, sides: i32) -> Seq<i32> {
    Seq::new(draws.len(), |i: int| face(draws[i], sides) as i32)
}

/// The sum of a run of dice.
pub open spec fn sum(rolls: Seq<i32>) -> int
    decreases rolls.len(),
{
    if rolls.len() == 0 {
        0
    } else {
        sum(rolls.drop_last()) + rolls.last()
    }
}

/// What the draws come to on dice of `sides` sides with `modifier` added.
pub open spec fn evaluated(sides: i32, modifier: i32, draws: Seq<u32>) -> Result<
    DiceRollView,
    DiceError,
> {
    let rolls = faces(draws, sides);
    let total = sum(rolls) + modifier;
    if sides <= 0 || draws.len() == 0 {
        Err(DiceError::NotPositive)
    } else if i32::MIN <= total <= i32::MAX {
        Ok(DiceRollView { total, rolls })
    } else {
        Err(DiceError::TotalOutOfRange)
    }
}

/// Reads a dice expression.
pub fn parse_dice(dice: &str) -> (r: Result<DiceExpr, DiceError>)
    ensures
        r == parsed(dice@),
{
    let text = chars_of(dice);
    let (term, tail) = cut(&text, '+');
    if let Some(rest) = &tail {
        let (_, extra) = cut(rest, '+');
        if extra.is_some() {
            return Err(DiceError::InvalidFormat);
        }
    }
    let (count_text, sides_tail) = cut(&term, 'd');
    let sides_text = match sides_tail {
        Some(t) => t,
        None => {
            return Err(DiceError::InvalidFormat);
        },
    };
    let (_, extra) = cut(&sides_text, 'd');
    if extra.is_some() {
        return Err(DiceError::InvalidFormat);
    }
    let count = match parse_i32(&count_text) {
        Some(c) => c,
        None => {
            return Err(DiceError::InvalidCount);
        },
    };
    let sides = match parse_i32(&sides_text) {
        Some(s) => s,
        None => {
            return Err(DiceError::InvalidSides);
        },
    };
    let modifier = match tail {
        Some(rest) => match parse_i32(&rest) {
            Some(m) => m,
            None => {
                return Err(DiceError::InvalidModifier);
            },
        },
        None => 0,
    };
    if count <= 0 || sides <= 0 {
        return Err(DiceError::NotPositive);
    }
    Ok(DiceExpr { count, sides, modifier })
}

proof fn lemma_sum_push(rolls: Seq<i32>, x: i32)
    ensures
        sum(rolls.push(x)) == sum(rolls) + x,
{
    assert(rolls.push(x).drop_last() == rolls);
}

/// Every die shows at least 1 and at most `sides`, so `n` dice sum to at
/// least `n` and at most `n * sides`.
pub proof fn lemma_sum_bounds(draws: Seq<u32>, sides: i32)
    requires
        sides >= 1,
    ensures
        draws.len() <= sum(faces(draws, sides)) <= draws.len() * sides,
    decreases draws.len(),
{
    let rolls = faces(draws, sides);
    if draws.len() > 0 {
        let shorter = draws.drop_last();
        lemma_sum_bounds(shorter, sides);
        assert(rolls.drop_last() == faces(shorter, sides));
        assert(shorter.len() * sides + sides == draws.len() * sides) by (nonlinear_arith)
            requires
                shorter.len() + 1 == draws.len(),
        ;
    }
}

/// Turns raw draws into a roll: one die per draw, each face `draw % sides + 1`,
/// and the total with `modifier` added.
pub fn evaluate(sides: i32, modifier: i32, draws: &Vec<u32>) -> (r: Result<DiceRoll, DiceError>)
    ensures
        match r {
            Ok(roll) => evaluated(sides, modifier, draws@) == Ok::<DiceRollView, DiceError>(roll@),
            Err(e) => evaluated(sides, modifier, draws@) == Err::<DiceRollView, DiceError>(e),
        },
{
    if sides <= 0 || draws.len() == 0 {
        return Err(DiceError::NotPositive);
    }
    let n = draws.len();
    let mut rolls: Vec<i32> = Vec::new();
    let mut total: i128 = 0;
    let mut i: usize = 0;
    while i < n
        invariant
            sides >= 1,
            i <= n == draws.len(),
            rolls@ == faces(draws@.take(i as int), sides),
            total == sum(rolls@),
            0 <= total <= i * 0x8000_0000,
        decreases n - i,
    {
        let roll: i32 = (draws[i] % (sides as u32) + 1) as i32;
        proof {
            lemma_sum_push(rolls@, roll);
        }
        rolls.push(roll);
        total = total + roll as i128;
        i += 1;
    }
    assert(draws@.take(n as int) == draws@);
    let total = total + modifier as i128;
    if total < i32::MIN as i128 || total > i32::MAX as i128 {
        Err(DiceError::TotalOutOfRange)
    } else {
        Ok(DiceRoll { total: total as i32, rolls })
    }
}

/// Draws one `u32` from the thread-local generator through `rand::random`.
///
/// Trusted. Nothing is claimed of the value: chance decides it.
#[verifier::external_body]
fn random_u32() -> u32 {
    rand::random::<u32>()
}

/// Draws `count` numbers, one call of the generator each.
fn draw(count: usize) -> (draws: Vec<u32>)
    ensures
        draws.len() == count,
{
    let mut draws: Vec<u32> = Vec::new();
    let mut i: usize = 0;
    while i < count
        invariant
            i <= count,
            draws.len() == i,
        decreases count - i,
    {
        draws.push(random_u32());
        i += 1;
    }
    draws
}

/// Whether `r` is what `expected` describes: the same roll, or the message of
/// the same error.
pub open spec fn reports(r: Result<DiceRoll, String>, expected: Result<DiceRollView, DiceError>) -> bool {
    match (r, expected) {
        (Ok(roll), Ok(view)) => roll@ == view,
        (Err(m), Err(e)) => m@ == e.text(),
        _ => false,
    }
}

/// Reads `dice` and rolls it: `count` independent draws, each turned into a
/// face from 1 to `sides`, and the total of the faces and the modifier.
///
/// An expression that does not parse yields the parse error's message and no
/// roll. One that parses yields what `evaluated` gives for some `count` draws;
/// the roll succeeds whenever `count * sides + modifier` fits in an `i32`.
pub fn roll_dice(dice: &str) -> (r: Result<DiceRoll, String>)
    ensures
        match parsed(dice@) {
            Err(e) => reports(r, Err(e)),
            Ok(expr) => {
                &&& exists|draws: Seq<u32>|
                    draws.len() == expr.count && #[trigger] reports(
                        r,
                        evaluated(expr.sides, expr.modifier, draws),
                    )
                &&& expr.count * expr.sides + expr.modifier <= i32::MAX ==> r is Ok
                &&& r matches Ok(roll) ==> {
                    &&& roll.rolls.len() == expr.count
                    &&& forall|i: int|
                        0 <= i < roll.rolls.len() ==> 1 <= #[trigger] roll.rolls[i] <= expr.sides
                    &&& roll.total == sum(roll.rolls@) + expr.modifier
                }
            },
        },
{
    let expr = match parse_dice(dice) {
        Ok(expr) => expr,
        Err(e) => {
            return Err(e.message());
        },
    };
    let draws = draw(expr.count as usize);
    proof {
        lemma_sum_bounds(draws@, expr.sides);
    }
    let r = match evaluate(expr.sides, expr.modifier, &draws) {
        Ok(roll) => Ok(roll),
        Err(e) => Err(e.message()),
    };
    assert(reports(r, evaluated(expr.sides, expr.modifier, draws@)));
    r
}

/// The expression `<count>d<sides>+<modifier>` means what it says.
///
/// Let `count` and `sides` be written in plain digits and `modifier` in
/// digits with or without a minus sign. Then the three texts joined by a `d`
/// and a `+` parse to the three numbers, provided count and sides are
/// positive.
pub proof fn law_written_expression_parses(
    count: Seq<char>,
    sides: Seq<char>,
    modifier: Seq<char>,
)
    requires
        all_digits(count),
        all_digits(sides),
        all_digits(unsigned_part(modifier)),
        modifier.len() > 0 ==> modifier[0] != '+',
        signed_decimal(count) matches Some(c) && c > 0,
        signed_decimal(sides) matches Some(s) && s > 0,
        signed_decimal(modifier) is Some,
    ensures
        parsed(count + seq!['d'] + sides + seq!['+'] + modifier) == Ok::<DiceExpr, DiceError>(
            DiceExpr {
                count: signed_decimal(count)->0,
                sides: signed_decimal(sides)->0,
                modifier: signed_decimal(modifier)->0,
            },
        ),
        parsed(count + seq!['d'] + sides) == Ok::<DiceExpr, DiceError>(
            DiceExpr {
                count: signed_decimal(count)->0,
                sides: signed_decimal(sides)->0,
                modifier: 0,
            },
        ),
{
    let term = count + seq!['d'] + sides;
    let text = term + seq!['+'] + modifier;
    assert forall|j: int| 0 <= j < modifier.len() implies modifier[j] != '+' by {
        if j > 0 && modifier[0] == '-' {
            assert(modifier[j] == unsigned_part(modifier)[j - 1]);
        }
    }
    // the text with a modifier
    lemma_cut_at(text, '+', term.len() as int);
    assert(text.take(term.len() as int) == term);
    assert(text.skip(term.len() as int + 1) == modifier);
    lemma_uncut(modifier, '+');
    // the text without one
    lemma_uncut(term, '+');
    // the dice term
    lemma_cut_at(term, 'd', count.len() as int);
    assert(term.take(count.len() as int) == count);
    assert(term.skip(count.len() as int + 1) == sides);
    lemma_uncut(sides, 'd');
}

} // verus!
