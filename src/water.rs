use vstd::prelude::*;
use crate::gauge::VerticalGauge;
use crate::style::{Color, Style, ITALIC};
use crate::text::{decimal_of, decimal_string};

verus! {

/// The goal, in ounces, that a session starts with.
pub const WATER_GOAL: u16 = 128;

/// The ounces that one drink adds.
pub const DRINK_AMOUNT: u16 = 8;

/// The state of a water-tracking session.
#[derive(Clone, Copy, Debug, PartialEq, Eq, Structural)]
pub struct App {
    pub water_amount: u16,
    pub water_goal: u16,
    pub exit: bool,
}

/// A key press that the session reacts to.
#[derive(Clone, Copy, Debug, PartialEq, Eq, Structural)]
pub enum Action {
    Quit,
    Drink,
    Ignore,
}

/// `'q'` quits, `'d'` drinks; every other key is ignored.
pub open spec fn action_of(key: char) -> Action {
    if key == 'q' {
        Action::Quit
    } else if key == 'd' {
        Action::Drink
    } else {
        Action::Ignore
    }
}

pub open spec fn saturating_add_spec(a: u16, b: u16) -> u16 {
    if a + b <= u16::MAX { (a + b) as u16 } else { u16::MAX }
}

impl App {
    /// A new session: nothing drunk, the usual goal.
    pub fn new() -> (r: App)
        ensures
            r.water_amount == 0,
            r.water_goal == WATER_GOAL,
            !r.exit,
    {
        App { water_amount: 0, water_goal: WATER_GOAL, exit: false }
    }

    pub fn exit(&mut self)
        ensures
            *final(self) == (App { exit: true, ..*old(self) }),
    {
        self.exit = true;
    }

    /// Adds `amount` ounces, stopping at the largest amount.
    pub fn drink(&mut self, amount: u16)
        ensures
            *final(self) == (App { water_amount: saturating_add_spec(old(self).water_amount, amount), ..*old(self) }),
    {
        self.water_amount = self.water_amount.saturating_add(amount);
    }

    /// Reacts to a pressed key.
    pub fn handle_key(&mut self, key: char)
        ensures
            *final(self) == match action_of(key) {
                Action::Quit => App { exit: true, ..*old(self) },
                Action::Drink => App {
                    water_amount: saturating_add_spec(old(self).water_amount, DRINK_AMOUNT),
                    ..*old(self)
                },
                Action::Ignore => *old(self),
            },
    {
        if key == 'q' {
            self.exit();
        } else if key == 'd' {
            self.drink(DRINK_AMOUNT);
        }
    }

    /// The meter that shows this session.
    pub fn meter(&self) -> (r: Meter)
        ensures
            r.water_amount == self.water_amount,
            r.water_goal == self.water_goal,
    {
        Meter::new(self.water_amount, self.water_goal)
    }
}

/// How much of a goal has been drunk.
#[derive(Clone, Copy, Debug, PartialEq, Eq, Structural)]
pub struct Meter {
    pub water_amount: u16,
    pub water_goal: u16,
}

/// The amount as a whole percentage of the goal, rounded down and kept
/// within `u16`; with a goal of zero, 0 when nothing was drunk and the
/// largest value otherwise.
pub open spec fn percentage_spec(amount: u16, goal: u16) -> int {
    if goal == 0 {
        if amount == 0 { 0 } else { u16::MAX as int }
    } else {
        let p = 100 * amount / goal as int;
        if p <= u16::MAX { p } else { u16::MAX as int }
    }
}

impl Meter {
    pub fn new(water_amount: u16, water_goal: u16) -> (r: Meter)
        ensures
            r.water_amount == water_amount,
            r.water_goal == water_goal,
    {
        Meter { water_amount, water_goal }
    }

    pub fn percentage(&self) -> (r: u16)
        ensures
            r == percentage_spec(self.water_amount, self.water_goal),
    {
        if self.water_goal == 0 {
            if self.water_amount == 0 { 0 } else { u16::MAX }
        } else {
            let p: u32 = 100 * self.water_amount as u32 / self.water_goal as u32;
            if p <= u16::MAX as u32 { p as u16 } else { u16::MAX }
        }
    }

    /// The gauge that shows the meter: the fill ratio is the amount over
    /// the goal, capped at 1 (with a goal of zero: empty when nothing was
    /// drunk, full otherwise); the label is the whole percentage, uncapped;
    /// the fill is blue italic.
    pub fn gauge(&self) -> (r: VerticalGauge)
        ensures
            r.wf(),
            self.water_goal > 0 ==> r.num == (if self.water_amount <= self.water_goal {
                self.water_amount
            } else {
                self.water_goal
            }) && r.den == self.water_goal,
            self.water_goal == 0 ==> r.num == (if self.water_amount == 0 { 0int } else { 1int })
                && r.den == 1,
            r.label == Some(r.label->Some_0),
            r.label->Some_0@ == decimal_of(percentage_spec(self.water_amount, self.water_goal) as nat).push('%'),
            !r.use_unicode,
            r.style == Style::new_spec(),
            r.gauge_style == (Style { fg: Some(Color::Blue), bg: None, add_modifier: ITALIC, sub_modifier: 0 }),
            r.label_style == Style::new_spec(),
    {
        let p = self.percentage();
        let mut label = decimal_string(p as u64);
        proof {
            reveal_strlit("%");
            assert((0u16 | 4u16) == 4u16 && (0u16 & !4u16) == 0u16) by (bit_vector);
        }
        label.append("%");
        assert(label@ =~= decimal_of(p as nat).push('%'));
        let g = VerticalGauge::new()
            .gauge_style(Style::new().fg(Color::Blue).add_modifier(ITALIC))
            .label(label);
        let (num, den): (u32, u32) = if self.water_goal == 0 {
            if self.water_amount == 0 { (0, 1) } else { (1, 1) }
        } else if self.water_amount <= self.water_goal {
            (self.water_amount as u32, self.water_goal as u32)
        } else {
            (self.water_goal as u32, self.water_goal as u32)
        };
        match g.ratio(num, den) {
            Ok(g) => g,
            Err(_) => VerticalGauge::new(),
        }
    }
}

} // verus!
