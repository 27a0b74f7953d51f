use vstd::prelude::*;

use crate::kinds::color::Color;
use crate::kinds::key::{KeyCode, KeyEvent};
use crate::utils::text::push_char;

verus! {

pub enum ReducePickerAction {
    /// User confirmed; carries the number of milliseconds to subtract.
    Reduce(u32),
    Cancel,
    /// The key changed nothing the caller has to act on.
    Nothing,
}

/// The digits of a duration typed as `MM:SS`: at most four digits, each 0–9, and the
/// tens-of-seconds digit (the third) 0–5.
pub open spec fn valid_digits(digits: Seq<u8>) -> bool {
    &&& digits.len() <= 4
    &&& forall|i: int| 0 <= i < digits.len() ==> #[trigger] digits[i] <= 9
    &&& digits.len() > 2 ==> digits[2] <= 5
}

/// The `i`-th digit typed, or 0 where none was typed yet.
pub open spec fn digit_or_zero(digits: Seq<u8>, i: int) -> int {
    if 0 <= i < digits.len() {
        digits[i] as int
    } else {
        0
    }
}

/// The milliseconds that the typed `MM:SS` digits stand for (missing digits count as 0).
pub open spec fn typed_millis(digits: Seq<u8>) -> int {
    (digit_or_zero(digits, 0) * 10 + digit_or_zero(digits, 1)) * 60_000 + (digit_or_zero(digits, 2)
        * 10 + digit_or_zero(digits, 3)) * 1_000
}

/// The character shown in the `i`-th slot of `MM:SS`: the digit typed there, or `_`.
pub open spec fn slot_char(digits: Seq<u8>, i: int) -> char {
    if 0 <= i < digits.len() {
        (48 + digits[i]) as char
    } else {
        '_'
    }
}

/// The digit a character stands for, if it is an ASCII digit.
pub open spec fn ascii_digit(c: char) -> Option<u8> {
    if '0' <= c && c <= '9' {
        Some((c as u32 - '0' as u32) as u8)
    } else {
        None
    }
}

/// The digits after a key press.
pub open spec fn digits_after(digits: Seq<u8>, code: KeyCode) -> Seq<u8> {
    match code {
        KeyCode::Char(c) => match ascii_digit(c) {
            Some(d) => if digits.len() < 4 && !(digits.len() == 2 && d > 5) {
                digits.push(d)
            } else {
                digits
            },
            None => digits,
        },
        KeyCode::Backspace => if digits.len() > 0 {
            digits.drop_last()
        } else {
            digits
        },
        _ => digits,
    }
}

/// The action a key press gives.
pub open spec fn action_after(digits: Seq<u8>, code: KeyCode) -> ReducePickerAction {
    match code {
        KeyCode::Enter => if digits.len() == 0 {
            ReducePickerAction::Cancel
        } else {
            ReducePickerAction::Reduce(typed_millis(digits) as u32)
        },
        KeyCode::Esc => ReducePickerAction::Cancel,
        _ => ReducePickerAction::Nothing,
    }
}

pub struct ReducePickerProps {
    /// Up to four digits entered so far: [tens-min, units-min, tens-sec, units-sec].
    digits: Vec<u8>,
    /// Phase color.
    color: Color,
}

impl ReducePickerProps {
    #[verifier::type_invariant]
    spec fn inv(self) -> bool {
        valid_digits(self.digits@)
    }

    /// The digits typed so far.
    pub closed spec fn typed(&self) -> Seq<u8> {
        self.digits@
    }

    pub closed spec fn spec_color(&self) -> Color {
        self.color
    }

    pub fn new(color: Color) -> (res: Self)
        ensures
            res.typed() == Seq::<u8>::empty(),
            res.spec_color() == color,
    {
        ReducePickerProps { digits: Vec::new(), color }
    }

    pub fn digits(&self) -> (res: &[u8])
        ensures
            res@ == self.typed(),
            valid_digits(res@),
    {
        proof {
            use_type_invariant(self);
        }
        self.digits.as_slice()
    }

    pub fn color(&self) -> (res: Color)
        ensures
            res == self.spec_color(),
    {
        self.color
    }

    fn slot(&self, i: usize) -> (res: char)
        ensures
            res == slot_char(self.typed(), i as int),
    {
        proof {
            use_type_invariant(self);
        }
        if i < self.digits.len() {
            (48 + self.digits[i]) as char
        } else {
            '_'
        }
    }

    /// The typed duration as `MM:SS`, with `_` where no digit was typed yet.
    pub fn display(&self) -> (res: String)
        ensures
            res@ == seq![
                slot_char(self.typed(), 0),
                slot_char(self.typed(), 1),
                ':',
                slot_char(self.typed(), 2),
                slot_char(self.typed(), 3),
            ],
    {
        let mut out = String::new();
        push_char(&mut out, self.slot(0));
        push_char(&mut out, self.slot(1));
        push_char(&mut out, ':');
        push_char(&mut out, self.slot(2));
        push_char(&mut out, self.slot(3));
        out
    }
}

pub struct ReducePickerState {
    props: ReducePickerProps,
}

impl ReducePickerState {
    pub closed spec fn spec_props(&self) -> &ReducePickerProps {
        &self.props
    }

    pub fn new(props: ReducePickerProps) -> (res: Self)
        ensures
            res.spec_props() == props,
    {
        ReducePickerState { props }
    }

    pub fn props(&self) -> (res: &ReducePickerProps)
        ensures
            res == self.spec_props(),
    {
        &self.props
    }

    /// Applies a key press: digits type into `MM:SS` (a tens-of-seconds digit above 5 is
    /// ignored, as is a fifth digit), Backspace deletes the last digit, Enter confirms the
    /// typed duration (or cancels when nothing was typed), Esc cancels.
    pub fn handle(&mut self, key: KeyEvent) -> (res: ReducePickerAction)
        ensures
            final(self).spec_props().typed() == digits_after(old(self).spec_props().typed(), key.code),
            final(self).spec_props().spec_color() == old(self).spec_props().spec_color(),
            res == action_after(old(self).spec_props().typed(), key.code),
    {
        proof {
            use_type_invariant(&self.props);
        }
        match key.code {
            KeyCode::Char(c) => {
                if '0' <= c && c <= '9' {
                    if self.props.digits.len() < 4 {
                        let d = (c as u8) - 48;
                        // Tens-of-seconds digit (index 2) must be 0–5.
                        if self.props.digits.len() == 2 && d > 5 {
                            return ReducePickerAction::Nothing;
                        }
                        let mut digits: Vec<u8> = Vec::new();
                        std::mem::swap(&mut digits, &mut self.props.digits);
                        digits.push(d);
                        self.props = ReducePickerProps { digits, color: self.props.color };
                    }
                }
                ReducePickerAction::Nothing
            },
            KeyCode::Backspace => {
                let mut digits: Vec<u8> = Vec::new();
                std::mem::swap(&mut digits, &mut self.props.digits);
                digits.pop();
                self.props = ReducePickerProps { digits, color: self.props.color };
                ReducePickerAction::Nothing
            },
            KeyCode::Enter => {
                if self.props.digits.len() == 0 {
                    return ReducePickerAction::Cancel;
                }
                let g0 = self.digit_or_zero(0);
                let g1 = self.digit_or_zero(1);
                let g2 = self.digit_or_zero(2);
                let g3 = self.digit_or_zero(3);
                let millis = (g0 * 10 + g1) * 60_000 + (g2 * 10 + g3) * 1_000;
                ReducePickerAction::Reduce(millis)
            },
            KeyCode::Esc => ReducePickerAction::Cancel,
            _ => ReducePickerAction::Nothing,
        }
    }

    fn digit_or_zero(&self, i: usize) -> (res: u32)
        ensures
            res == digit_or_zero(self.spec_props().typed(), i as int),
            res <= 9,
            i == 2 ==> res <= 5,
    {
        proof {
            use_type_invariant(&self.props);
        }
        if i < self.props.digits.len() {
            self.props.digits[i] as u32
        } else {
            0
        }
    }
}

/// A confirmed reduction is the typed minutes and seconds, with the seconds below 60, so
/// it never exceeds 99 minutes 59 seconds.
pub proof fn lemma_reduction_is_minutes_and_seconds(digits: Seq<u8>)
    requires
        valid_digits(digits),
    ensures
        ({
            let secs = digit_or_zero(digits, 2) * 10 + digit_or_zero(digits, 3);
            let mins = digit_or_zero(digits, 0) * 10 + digit_or_zero(digits, 1);
            &&& 0 <= secs < 60
            &&& 0 <= mins <= 99
            &&& typed_millis(digits) == (mins * 60 + secs) * 1000
            &&& typed_millis(digits) <= 5_999_000
        }),
{
    assert(0 <= digit_or_zero(digits, 0) <= 9);
    assert(0 <= digit_or_zero(digits, 1) <= 9);
    assert(0 <= digit_or_zero(digits, 2) <= 5);
    assert(0 <= digit_or_zero(digits, 3) <= 9);
}

/// Every sequence of key presses keeps the typed digits a valid `MM:SS` prefix.
pub proof fn lemma_key_presses_keep_digits_valid(digits: Seq<u8>, code: KeyCode)
    requires
        valid_digits(digits),
    ensures
        valid_digits(digits_after(digits, code)),
{
}

/// Backspace removes exactly the last typed digit and keeps the ones before it; on an
/// empty entry it changes nothing.
pub proof fn lemma_backspace_removes_last_digit(digits: Seq<u8>)
    ensures
        digits.len() > 0 ==> {
            let after = digits_after(digits, KeyCode::Backspace);
            &&& after.len() == digits.len() - 1
            &&& forall|i: int| 0 <= i < after.len() ==> #[trigger] after[i] == digits[i]
        },
        digits.len() == 0 ==> digits_after(digits, KeyCode::Backspace) == digits,
{
}

/// Typing an ASCII digit appends that digit's value, unless four digits are already
/// there or it would make the tens of seconds exceed 5; typing it and then pressing
/// Backspace gives back the digits typed before.
pub proof fn lemma_typed_digit_is_appended(digits: Seq<u8>, c: char)
    requires
        '0' <= c <= '9',
        digits.len() < 4,
        !(digits.len() == 2 && c as int - 48 > 5),
    ensures
        digits_after(digits, KeyCode::Char(c)).len() == digits.len() + 1,
        digits_after(digits, KeyCode::Char(c)).last() == c as int - 48,
        digits_after(digits, KeyCode::Char(c)).drop_last() == digits,
        digits_after(digits_after(digits, KeyCode::Char(c)), KeyCode::Backspace) == digits,
{
    let after = digits_after(digits, KeyCode::Char(c));
    assert(after.drop_last() =~= digits);
}

pub struct ReducePickerWidget<'a> {
    props: &'a ReducePickerProps,
}

impl<'a> ReducePickerWidget<'a> {
    pub closed spec fn spec_props(&self) -> &'a ReducePickerProps {
        self.props
    }

    pub fn new(props: &'a ReducePickerProps) -> (res: Self)
        ensures
            res.spec_props() == props,
    {
        ReducePickerWidget { props }
    }

    pub fn props(&self) -> (res: &'a ReducePickerProps)
        ensures
            res == self.spec_props(),
    {
        self.props
    }
}

} // verus!
