//! What the head-up display shows: the score as decimal text, and one life
//! counter for each life point that a ship can have.

use vstd::prelude::*;
use crate::mode::PlayMode;
use crate::ship::{is_local, Ship, LOCAL_PLAYER, START_LIFE};

verus! {

/// The character of a decimal digit.
pub open spec fn digit_char(digit: nat) -> char
    recommends
        digit < 10,
{
    if digit == 0 {
        '0'
    } else if digit == 1 {
        '1'
    } else if digit == 2 {
        '2'
    } else if digit == 3 {
        '3'
    } else if digit == 4 {
        '4'
    } else if digit == 5 {
        '5'
    } else if digit == 6 {
        '6'
    } else if digit == 7 {
        '7'
    } else if digit == 8 {
        '8'
    } else {
        '9'
    }
}

/// A number in decimal: its digits from the highest to the lowest, with no
/// leading zero but for zero itself.
pub open spec fn decimal(n: nat) -> Seq<char>
    decreases n,
{
    if n < 10 {
        seq![digit_char(n)]
    } else {
        decimal(n / 10).push(digit_char(n % 10))
    }
}

/// The character of the decimal digit `digit`.
fn digit(d: u32) -> (c: char)
    requires
        d < 10,
    ensures
        c == digit_char(d as nat),
{
    if d == 0 {
        '0'
    } else if d == 1 {
        '1'
    } else if d == 2 {
        '2'
    } else if d == 3 {
        '3'
    } else if d == 4 {
        '4'
    } else if d == 5 {
        '5'
    } else if d == 6 {
        '6'
    } else if d == 7 {
        '7'
    } else if d == 8 {
        '8'
    } else {
        '9'
    }
}

/// Writes `n` in decimal.
pub fn decimal_text(n: u32) -> (text: Vec<char>)
    ensures
        text@ == decimal(n as nat),
{
    // The digits come out lowest first; they are turned round at the end.
    let mut low_first: Vec<char> = Vec::new();
    let mut rest: u32 = n;
    while rest >= 10
        invariant
            decimal(n as nat) == decimal(rest as nat) + low_first@.reverse(),
        decreases rest,
    {
        low_first.push(digit(rest % 10));
        rest = rest / 10;
    }
    low_first.push(digit(rest));
    let mut text: Vec<char> = Vec::new();
    let mut i: usize = low_first.len();
    while i > 0
        invariant
            i <= low_first@.len(),
            text@.len() == low_first@.len() - i,
            forall|k: int| 0 <= k < text@.len() ==> text@[k] == low_first@.reverse()[k],
        decreases i,
    {
        i -= 1;
        text.push(low_first[i]);
    }
    text
}

/// The display of the score. It shows "0" until the score first changes.
#[derive(Debug)]
pub struct UiScore {
    pub text: Vec<char>,
}

impl UiScore {
    /// A display that shows "0".
    pub fn new() -> (display: UiScore)
        ensures
            display.text@ == seq!['0'],
    {
        let mut text: Vec<char> = Vec::new();
        text.push('0');
        UiScore { text }
    }

    /// Brings the display up to date: where the score has changed since it
    /// was last looked at, the text becomes the score in decimal; else it
    /// stays.
    pub fn refresh(&mut self, changed: bool, score: u32)
        ensures
            final(self).text@ == (if changed {
                decimal(score as nat)
            } else {
                old(self).text@
            }),
    {
        if changed {
            self.text = decimal_text(score);
        }
    }
}

/// One counter of the life display. It is lit while the ship has at least
/// `min` life points.
#[derive(Clone, Copy, Debug, PartialEq, Eq, Structural)]
pub struct UiLife {
    pub min: u32,
}

impl UiLife {
    /// Whether the counter is lit for a ship with `life` life points.
    pub fn is_visible(&self, life: u32) -> (lit: bool)
        ensures
            lit == (life >= self.min),
    {
        life >= self.min
    }
}

/// The counters of the life display: one for each life point from 1 to the
/// full life of a ship, in rising order.
pub fn life_counters() -> (counters: Vec<UiLife>)
    ensures
        counters@.len() == START_LIFE,
        forall|k: int| 0 <= k < counters@.len() ==> (#[trigger] counters@[k]).min == k + 1,
{
    let mut counters: Vec<UiLife> = Vec::new();
    let mut i: u32 = 1;
    while i < START_LIFE + 1
        invariant
            1 <= i <= START_LIFE + 1,
            counters@.len() == i - 1,
            forall|k: int| 0 <= k < counters@.len() ==> (#[trigger] counters@[k]).min == k + 1,
        decreases START_LIFE + 1 - i,
    {
        counters.push(UiLife { min: i });
        i += 1;
    }
    counters
}

/// The life that the display shows: that of the local player's ship, the
/// last one in the list if there are several, and 0 if there is none.
pub open spec fn shown_life(ships: Seq<Ship>) -> u32
    decreases ships.len(),
{
    if ships.len() == 0 {
        0
    } else if is_local(ships.last()) {
        ships.last().life
    } else {
        shown_life(ships.drop_last())
    }
}

/// The life that the display shows for these ships.
pub fn displayed_life(ships: &Vec<Ship>) -> (life: u32)
    ensures
        life == shown_life(ships@),
{
    let mut life: u32 = 0;
    let mut i: usize = 0;
    while i < ships.len()
        invariant
            i <= ships@.len(),
            life == shown_life(ships@.take(i as int)),
        decreases ships@.len() - i,
    {
        if ships[i].player_id == LOCAL_PLAYER {
            life = ships[i].life;
        }
        i += 1;
        proof {
            let now = ships@.take(i as int);
            assert(now.drop_last() == ships@.take(i as int - 1));
        }
    }
    assert(ships@.take(i as int) == ships@);
    life
}

/// Which counters are lit for these ships: for each counter, in order,
/// whether the shown life reaches its `min`.
pub fn life_visibility(ships: &Vec<Ship>, counters: &Vec<UiLife>) -> (lit: Vec<bool>)
    ensures
        lit@.len() == counters@.len(),
        forall|k: int|
            0 <= k < counters@.len() ==> lit@[k] == (shown_life(ships@) >= (
            #[trigger] counters@[k]).min),
{
    let life: u32 = displayed_life(ships);
    let mut lit: Vec<bool> = Vec::new();
    let mut i: usize = 0;
    while i < counters.len()
        invariant
            i <= counters@.len(),
            lit@.len() == i,
            life == shown_life(ships@),
            forall|k: int| 0 <= k < i ==> lit@[k] == (life >= (#[trigger] counters@[k]).min),
        decreases counters@.len() - i,
    {
        lit.push(counters[i].is_visible(life));
        i += 1;
    }
    lit
}

/// Whether a part of the display goes away when building ends: it does if
/// building is among the play modes that it was put up for.
pub fn leaves_with_building(shown_in: &Vec<PlayMode>) -> (leaves: bool)
    ensures
        leaves == shown_in@.contains(PlayMode::Building),
{
    let mut i: usize = 0;
    while i < shown_in.len()
        invariant
            i <= shown_in@.len(),
            forall|k: int| 0 <= k < i ==> shown_in@[k] != PlayMode::Building,
        decreases shown_in@.len() - i,
    {
        if shown_in[i] == PlayMode::Building {
            return true;
        }
        i += 1;
    }
    false
}

} // verus!
