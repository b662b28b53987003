//! The text that is written to the status page, and the edit summary that
//! goes with it.

use crate::decimal::{decimal, digit_char, push_decimal};
use crate::rate::Rate;
use vstd::prelude::*;
use vstd::string::*;

verus! {

/// The status page up to the level.
pub const PAGE_HEAD: &'static str = "{{#switch: {{{1}}}\n              | level = ";

/// The status page between the level and the rate: the signature
/// placeholder and the start of the information line.
pub const PAGE_MIDDLE: &'static str = "\n              | sign = ~~~~~\n              | info = ";

/// The status page after the rate.
pub const PAGE_TAIL: &'static str =
    " RPM according to [[User:DeadbeefBot|DeadbeefBot]]\n            }}";

/// The edit summary up to the level.
pub const SUMMARY_HEAD: &'static str =
    "[[Wikipedia:Bots/Requests for approval/DeadbeefBot 4|Bot]] updating vandalism level to level ";

/// The edit summary between the level and the rate.
pub const SUMMARY_OPEN: &'static str = " (";

/// The edit summary between the rate and the level in the tag.
pub const SUMMARY_CLOSE: &'static str = " RPM) #DEFCON";

/// The rate `reverts / minutes` in hundredths, rounded to the nearest; a rate
/// half way between two goes to the even one.
pub open spec fn hundredths(reverts: nat, minutes: nat) -> nat {
    let whole = (reverts * 100) / minutes;
    let rest = (reverts * 100) % minutes;
    if 2 * rest > minutes || (2 * rest == minutes && whole % 2 == 1) {
        whole + 1
    } else {
        whole
    }
}

/// The rate `reverts / minutes` written with two decimal places.
pub open spec fn two_places(reverts: nat, minutes: nat) -> Seq<char> {
    let h = hundredths(reverts, minutes);
    decimal(h / 100) + seq!['.', digit_char((h / 10) % 10), digit_char(h % 10)]
}

/// The content of the status page for a level and the rate it came from.
pub open spec fn page_text(level: nat, reverts: nat, minutes: nat) -> Seq<char> {
    PAGE_HEAD@ + decimal(level) + PAGE_MIDDLE@ + two_places(reverts, minutes) + PAGE_TAIL@
}

/// The edit summary for a level and the rate it came from.
pub open spec fn summary_text(level: nat, reverts: nat, minutes: nat) -> Seq<char> {
    SUMMARY_HEAD@ + decimal(level) + SUMMARY_OPEN@ + two_places(reverts, minutes) + SUMMARY_CLOSE@
        + decimal(level)
}

/// The hundredths are the rate rounded to the nearest: they are off by half
/// a hundredth at most, and where the rate lies half way they are even.
pub proof fn lemma_hundredths_are_nearest(reverts: nat, minutes: nat)
    requires
        minutes > 0,
    ensures
        ({
            let off = 2 * (hundredths(reverts, minutes) * minutes - 100 * reverts);
            &&& -(minutes as int) <= off <= minutes
            &&& off == minutes || off == -(minutes as int) ==> hundredths(reverts, minutes) % 2
                == 0
        }),
{
    let scaled = (reverts * 100) as int;
    let m = minutes as int;
    let whole = scaled / m;
    let rest = scaled % m;
    vstd::arithmetic::div_mod::lemma_fundamental_div_mod(scaled, m);
    vstd::arithmetic::div_mod::lemma_mod_bound(scaled, m);
    assert((whole + 1) * m == whole * m + m) by (nonlinear_arith);
    assert(m * whole == whole * m) by (nonlinear_arith);
}

/// Appends `rate` with two decimal places to `out`.
pub fn push_two_places(out: &mut String, rate: Rate)
    ensures
        final(out)@ == old(out)@ + two_places(rate.reverts() as nat, rate.minutes() as nat),
{
    let minutes: u128 = rate.minutes() as u128;
    let scaled: u128 = rate.reverts() as u128 * 100;
    let whole: u128 = scaled / minutes;
    let rest: u128 = scaled % minutes;
    let h: u128 = if 2 * rest > minutes || (2 * rest == minutes && whole % 2 == 1) {
        whole + 1
    } else {
        whole
    };
    assert(h == hundredths(rate.reverts() as nat, rate.minutes() as nat));
    push_decimal(out, h / 100);
    out.push('.');
    out.push((48u8 + ((h / 10) % 10) as u8) as char);
    out.push((48u8 + (h % 10) as u8) as char);
    assert(out@ =~= old(out)@ + two_places(rate.reverts() as nat, rate.minutes() as nat));
}

/// Writes the content of the status page for `level`, reached at `rate`.
pub fn render_page(level: u8, rate: Rate) -> (r: String)
    ensures
        r@ == page_text(level as nat, rate.reverts() as nat, rate.minutes() as nat),
{
    let mut out = String::from_str(PAGE_HEAD);
    push_decimal(&mut out, level as u128);
    out.append(PAGE_MIDDLE);
    push_two_places(&mut out, rate);
    out.append(PAGE_TAIL);
    out
}

/// Writes the edit summary for an update to `level`, reached at `rate`.
pub fn render_summary(level: u8, rate: Rate) -> (r: String)
    ensures
        r@ == summary_text(level as nat, rate.reverts() as nat, rate.minutes() as nat),
{
    let mut out = String::from_str(SUMMARY_HEAD);
    push_decimal(&mut out, level as u128);
    out.append(SUMMARY_OPEN);
    push_two_places(&mut out, rate);
    out.append(SUMMARY_CLOSE);
    push_decimal(&mut out, level as u128);
    out
}

} // verus!
