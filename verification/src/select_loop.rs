//! A loop that races a restartable operation against a message channel.
//!
//! The operation turns an optional number into its decimal text. The loop
//! starts with the operation on no input; each even message restarts the
//! operation on that message; the loop ends with the first text the
//! operation produces. The caller runs the loop and the `select!`; the
//! decisions are the methods of [`SelectLoop`].

use vstd::prelude::*;

verus! {

/// The character of decimal digit `d` (for `0 <= d < 10`).
pub open spec fn digit_char(d: int) -> char {
    (48 + d) as char
}

/// The decimal digits of `n`, most significant first, without leading zeros.
pub open spec fn decimal_digits(n: nat) -> Seq<char>
    decreases n,
{
    if n < 10 {
        seq![digit_char(n as int)]
    } else {
        decimal_digits(n / 10).push(digit_char((n % 10) as int))
    }
}

/// The decimal text of `i`: its digits, after a `-` when it is negative.
pub open spec fn decimal_text(i: int) -> Seq<char> {
    if i < 0 {
        seq!['-'] + decimal_digits((-i) as nat)
    } else {
        decimal_digits(i as nat)
    }
}

/// `i32::to_string` (through `Display`): the decimal text of `i`, with a
/// leading `-` for negative numbers, as the documentation of integer
/// formatting states.
#[verifier::external_body]
fn i32_to_string(i: i32) -> (s: String)
    ensures
        s@ == decimal_text(i as int),
{
    i.to_string()
}

/// The operation raced by the loop: no input gives no output, a number gives
/// its decimal text.
pub fn action(input: Option<i32>) -> (r: Option<String>)
    ensures
        input is None ==> r is None,
        input matches Some(i) ==> r matches Some(s) && s@ == decimal_text(i as int),
{
    let i = match input {
        Some(input) => input,
        None => return None,
    };
    Some(i32_to_string(i))
}

/// What the loop does after the operation produced an output.
#[derive(Debug, PartialEq, Eq)]
pub enum LoopControl {
    /// The operation gave a text: report it and leave the loop.
    Finish(String),
    /// The operation gave nothing: keep looping.
    Continue,
}

/// The state of the loop: whether the current operation has already produced
/// its output (its branch is then disabled), and the input the current
/// operation was started with.
#[derive(Debug, Clone, Copy, PartialEq, Eq)]
pub struct SelectLoop {
    pub done: bool,
    pub input: Option<i32>,
}

/// The state after message `v`.
pub open spec fn after_message(s: SelectLoop, v: i32) -> SelectLoop {
    if v % 2 == 0 {
        SelectLoop { done: false, input: Some(v) }
    } else {
        s
    }
}

/// The state after the operation produced its output.
pub open spec fn after_output(s: SelectLoop) -> SelectLoop {
    SelectLoop { done: true, input: s.input }
}

/// Every state the loop reaches runs the operation on nothing or on an even
/// number.
pub open spec fn input_is_even(s: SelectLoop) -> bool {
    s.input matches Some(v) ==> v % 2 == 0
}

impl SelectLoop {
    /// The loop before its first round: the operation runs on no input.
    pub fn new() -> (s: SelectLoop)
        ensures
            s == (SelectLoop { done: false, input: None }),
    {
        SelectLoop { done: false, input: None }
    }

    /// Whether the operation branch takes part in the next `select!` round.
    pub fn operation_enabled(&self) -> (b: bool)
        ensures
            b == !self.done,
    {
        !self.done
    }

    /// The operation finished with `res`: its branch is disabled, and a text
    /// ends the loop.
    pub fn on_operation_output(&mut self, res: Option<String>) -> (c: LoopControl)
        requires
            !old(self).done,
        ensures
            *final(self) == after_output(*old(self)),
            res matches Some(v) ==> c == LoopControl::Finish(v),
            res is None ==> c == LoopControl::Continue,
    {
        self.done = true;
        match res {
            Some(v) => LoopControl::Finish(v),
            None => LoopControl::Continue,
        }
    }

    /// A message `v` arrived: an even one restarts the operation on `v`
    /// (returned, so that the caller sets the operation future to
    /// `action(Some(v))`); an odd one changes nothing.
    pub fn on_message(&mut self, v: i32) -> (restart: Option<i32>)
        ensures
            *final(self) == after_message(*old(self), v),
            v % 2 == 0 ==> restart == Some(v),
            v % 2 != 0 ==> restart is None,
    {
        if v % 2 == 0 {
            self.input = Some(v);
            self.done = false;
            Some(v)
        } else {
            None
        }
    }
}

/// The loop's states all run the operation on nothing or on an even
/// message: this holds at the start, and every message and every output
/// keeps it; the input changes only to an even message that just arrived.
/// With `action`'s contract this means the loop can only finish with the
/// decimal text of an even message.
pub proof fn lemma_select_loop(s: SelectLoop, v: i32)
    requires
        input_is_even(s),
    ensures
        input_is_even(SelectLoop { done: false, input: None }),
        input_is_even(after_message(s, v)),
        input_is_even(after_output(s)),
        after_message(s, v).input != s.input ==> after_message(s, v).input == Some(v) && v % 2 == 0,
{
}

/// What each event does to the loop: an even message restarts the
/// operation on that message with its branch enabled, an odd message changes
/// nothing, and an output disables the operation's branch without changing
/// its input.
pub proof fn lemma_select_loop_events(s: SelectLoop, v: i32)
    ensures
        v % 2 == 0 ==> after_message(s, v) == (SelectLoop { done: false, input: Some(v) }),
        v % 2 == 0 ==> !after_message(s, v).done,
        v % 2 != 0 ==> after_message(s, v) == s,
        after_output(s) == (SelectLoop { done: true, input: s.input }),
{
}

/// Every decimal text is a non-empty run of digits, after a `-` exactly for
/// negative numbers; numbers below ten are their single digit.
pub proof fn lemma_decimal_text_shape(i: int)
    ensures
        decimal_text(i).len() > 0,
        (decimal_text(i)[0] == '-') <==> i < 0,
        0 <= i < 10 ==> decimal_text(i) == seq![digit_char(i)],
        forall|k: int| (if i < 0 { 1int } else { 0int }) <= k < decimal_text(i).len()
            ==> '0' <= #[trigger] decimal_text(i)[k] <= '9',
{
    let n: nat = if i < 0 { (-i) as nat } else { i as nat };
    lemma_decimal_digits_are_digits(n);
    if i < 0 {
        assert(decimal_text(i) == seq!['-'] + decimal_digits(n));
        assert forall|k: int| 1 <= k < decimal_text(i).len() implies '0' <= #[trigger] decimal_text(i)[k] <= '9' by {
            assert(decimal_text(i)[k] == decimal_digits(n)[k - 1]);
        }
    }
}

/// The digits of a number are non-empty and all lie between `0` and `9`.
pub proof fn lemma_decimal_digits_are_digits(n: nat)
    ensures
        decimal_digits(n).len() > 0,
        forall|k: int| 0 <= k < decimal_digits(n).len() ==> '0' <= #[trigger] decimal_digits(n)[k] <= '9',
        decimal_digits(n)[0] != '-',
    decreases n,
{
    if n >= 10 {
        lemma_decimal_digits_are_digits(n / 10);
        let d = (n % 10) as int;
        assert('0' <= digit_char(d) <= '9') by {
            assert(0 <= d < 10);
        }
    } else {
        assert('0' <= digit_char(n as int) <= '9');
    }
}

/// The number a run of decimal digits denotes.
pub open spec fn digits_value(s: Seq<char>) -> int
    decreases s.len(),
{
    if s.len() == 0 {
        0
    } else {
        10 * digits_value(s.drop_last()) + (s.last() as int - 48)
    }
}

/// Reading the decimal digits of `n` back gives `n`, and they have no
/// leading zero unless `n` is zero.
pub proof fn lemma_decimal_digits_value(n: nat)
    ensures
        digits_value(decimal_digits(n)) == n,
        n > 0 ==> decimal_digits(n)[0] != '0',
        n == 0 ==> decimal_digits(n) == seq!['0'],
    decreases n,
{
    if n >= 10 {
        lemma_decimal_digits_value(n / 10);
        let s = decimal_digits(n);
        assert(s.drop_last() == decimal_digits(n / 10));
        assert(s.last() == digit_char((n % 10) as int));
        assert(digit_char((n % 10) as int) as int == 48 + n % 10);
        assert(s[0] == decimal_digits(n / 10)[0]);
        assert(digits_value(s) == 10 * digits_value(s.drop_last()) + (s.last() as int - 48));
        assert(10 * (n / 10) + n % 10 == n) by (nonlinear_arith);
    } else {
        let s = decimal_digits(n);
        assert(s.drop_last() =~= Seq::<char>::empty());
        assert(digits_value(s.drop_last()) == 0);
        assert(digit_char(n as int) as int == 48 + n);
        assert(digits_value(s) == 10 * digits_value(s.drop_last()) + (s.last() as int - 48));
    }
}

} // verus!
