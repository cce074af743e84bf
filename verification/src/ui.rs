//! The text the player reads: the run clock, the HUD line, the win summary.
use vstd::prelude::*;

use crate::gameplay::Progress;
use crate::text::{
    decimal, decimal_reads_back, digit_text, digits_value, is_digit, push_decimal, two_digits,
    two_digits_read_back,
};

verus! {

/// Centiseconds in a minute.
pub const CENTIS_PER_MINUTE: u64 = 6000;

/// Centiseconds in a second.
pub const CENTIS_PER_SECOND: u64 = 100;

/// `M:SS.CC` for a duration of `centiseconds`: whole minutes, then the seconds within
/// the minute and the hundredths within the second, each as two digits.
pub open spec fn time_text(centiseconds: nat) -> Seq<char> {
    decimal(centiseconds / 6000) + seq![':'] + two_digits((centiseconds % 6000) / 100)
        + seq!['.'] + two_digits(centiseconds % 100)
}

/// The HUD line: `M:SS.CC    coins C/T    deaths D`.
pub open spec fn hud_text(centiseconds: nat, progress: Progress) -> Seq<char> {
    time_text(centiseconds) + "    coins "@ + decimal(progress.coins as nat) + "/"@
        + decimal(progress.total_coins as nat) + "    deaths "@ + decimal(progress.deaths as nat)
}

/// The win-screen summary: `every coin, D deaths` when nothing was missed, and
/// `C/T coins, D deaths` otherwise.
pub open spec fn summary_text(progress: Progress) -> Seq<char> {
    if progress.coins == progress.total_coins {
        "every coin, "@ + decimal(progress.deaths as nat) + " deaths"@
    } else {
        decimal(progress.coins as nat) + "/"@ + decimal(progress.total_coins as nat)
            + " coins, "@ + decimal(progress.deaths as nat) + " deaths"@
    }
}

/// Appends `n` (below 100) as two zero-padded digits.
fn push_two_digits(out: &mut String, n: u64)
    requires
        n < 100,
    ensures
        final(out)@ == old(out)@ + two_digits(n as nat),
{
    out.append(digit_text(n / 10));
    out.append(digit_text(n % 10));
}

/// Formats a duration, given in whole centiseconds, as `M:SS.CC`.
///
/// The duration arrives already rounded to an integer. Splitting one integer into its
/// fields, instead of formatting seconds with a fractional part, is what keeps 59.999s
/// from ever showing as `0:60.00`: it becomes 6000 centiseconds, which is `1:00.00`.
pub fn format_time(centiseconds: u64) -> (text: String)
    ensures
        text@ == time_text(centiseconds as nat),
{
    let minutes = centiseconds / CENTIS_PER_MINUTE;
    let whole_seconds = centiseconds % CENTIS_PER_MINUTE / CENTIS_PER_SECOND;
    let hundredths = centiseconds % CENTIS_PER_SECOND;
    let mut text = String::new();
    push_decimal(&mut text, minutes);
    text.append(":");
    push_two_digits(&mut text, whole_seconds);
    text.append(".");
    push_two_digits(&mut text, hundredths);
    proof {
        reveal_strlit(":");
        reveal_strlit(".");
        assert(text@ =~= time_text(centiseconds as nat));
    }
    text
}

/// The HUD line for a run that has lasted `centiseconds`.
pub fn hud_line(progress: &Progress, centiseconds: u64) -> (text: String)
    ensures
        text@ == hud_text(centiseconds as nat, *progress),
{
    let mut text = format_time(centiseconds);
    text.append("    coins ");
    push_decimal(&mut text, progress.coins as u64);
    text.append("/");
    push_decimal(&mut text, progress.total_coins as u64);
    text.append("    deaths ");
    push_decimal(&mut text, progress.deaths as u64);
    proof {
        assert(text@ =~= hud_text(centiseconds as nat, *progress));
    }
    text
}

/// The one-line summary shown on the win screen.
pub fn win_summary(progress: &Progress) -> (text: String)
    ensures
        text@ == summary_text(*progress),
{
    let mut text = String::new();
    if progress.every_coin() {
        text.append("every coin, ");
        push_decimal(&mut text, progress.deaths as u64);
        text.append(" deaths");
    } else {
        push_decimal(&mut text, progress.coins as u64);
        text.append("/");
        push_decimal(&mut text, progress.total_coins as u64);
        text.append(" coins, ");
        push_decimal(&mut text, progress.deaths as u64);
        text.append(" deaths");
    }
    proof {
        assert(text@ =~= summary_text(*progress));
    }
    text
}

/// The run clock shows the canonical fields of a duration: a run of `m` minutes, `s`
/// seconds and `h` hundredths, with `s < 60` and `h < 100`, reads exactly `m:ss.hh`.
/// In particular the seconds field never reaches 60; it rolls over into the minutes.
pub proof fn time_text_shows_canonical_fields(m: nat, s: nat, h: nat)
    requires
        s < 60,
        h < 100,
    ensures
        time_text(6000 * m + 100 * s + h) == decimal(m) + seq![':'] + two_digits(s) + seq!['.']
            + two_digits(h),
{
    let cs = 6000 * m + 100 * s + h;
    assert(100 * s + h < 6000) by (nonlinear_arith)
        requires
            s < 60,
            h < 100,
    ;
    vstd::arithmetic::div_mod::lemma_fundamental_div_mod_converse(
        cs as int,
        6000,
        m as int,
        (100 * s + h) as int,
    );
    vstd::arithmetic::div_mod::lemma_fundamental_div_mod_converse(
        (100 * s + h) as int,
        100,
        s as int,
        h as int,
    );
    vstd::arithmetic::div_mod::lemma_fundamental_div_mod_converse(
        cs as int,
        100,
        (60 * m + s) as int,
        h as int,
    );
}

/// The run clock reads back as the duration it shows: the text is minutes, `:`, two
/// digits of seconds below 60, `.`, two digits of hundredths, and minutes × 6000 +
/// seconds × 100 + hundredths is the number of centiseconds.
pub proof fn time_text_reads_back(centiseconds: nat)
    ensures
        ({
            let t = time_text(centiseconds);
            let k = t.len() as int;
            &&& k >= 7
            &&& t[k - 6] == ':'
            &&& t[k - 3] == '.'
            &&& forall|i: int| 0 <= i < k - 6 ==> is_digit(#[trigger] t[i])
            &&& is_digit(t[k - 5]) && is_digit(t[k - 4]) && is_digit(t[k - 2]) && is_digit(t[k - 1])
            &&& digits_value(t.subrange(k - 5, k - 3)) < 60
            &&& digits_value(t.subrange(k - 2, k)) < 100
            &&& digits_value(t.subrange(0, k - 6)) * 6000 + digits_value(t.subrange(k - 5, k - 3))
                * 100 + digits_value(t.subrange(k - 2, k)) == centiseconds
        }),
{
    let m = centiseconds / 6000;
    let s = (centiseconds % 6000) / 100;
    let h = centiseconds % 100;
    assert(s < 60) by (nonlinear_arith)
        requires
            s == (centiseconds % 6000) / 100,
    ;
    decimal_reads_back(m);
    two_digits_read_back(s);
    two_digits_read_back(h);
    let dm = decimal(m);
    let ds = two_digits(s);
    let dh = two_digits(h);
    let t = time_text(centiseconds);
    assert(t == dm + seq![':'] + ds + seq!['.'] + dh);
    let k = t.len() as int;
    assert(k == dm.len() + 6);
    assert(t.subrange(0, k - 6) =~= dm);
    assert(t.subrange(k - 5, k - 3) =~= ds);
    assert(t.subrange(k - 2, k) =~= dh);
    assert forall|i: int| 0 <= i < k - 6 implies is_digit(#[trigger] t[i]) by {
        assert(t[i] == dm[i]);
    }
    assert(m * 6000 + s * 100 + h == centiseconds) by (nonlinear_arith)
        requires
            m == centiseconds / 6000,
            s == (centiseconds % 6000) / 100,
            h == centiseconds % 100,
    ;
}

/// The HUD line is the run clock, then the decimal count of coins picked up, `/`, the
/// decimal count of coins in the level, then the decimal count of deaths; each count
/// is spelled in digits that read back as that field of the scoreboard.
pub proof fn hud_line_spells_the_scoreboard(centiseconds: nat, progress: Progress)
    ensures
        hud_text(centiseconds, progress) == time_text(centiseconds) + "    coins "@ + decimal(
            progress.coins as nat,
        ) + "/"@ + decimal(progress.total_coins as nat) + "    deaths "@ + decimal(
            progress.deaths as nat,
        ),
        digits_value(decimal(progress.coins as nat)) == progress.coins,
        digits_value(decimal(progress.total_coins as nat)) == progress.total_coins,
        digits_value(decimal(progress.deaths as nat)) == progress.deaths,
{
    decimal_reads_back(progress.coins as nat);
    decimal_reads_back(progress.total_coins as nat);
    decimal_reads_back(progress.deaths as nat);
}

/// The win summary opens with `every coin` exactly when every coin was picked up;
/// otherwise it opens with the digits of the coins picked up, then `/` and the digits of
/// the level's coins. Either way it ends with the deaths and ` deaths`.
pub proof fn summary_praises_only_a_full_collection(progress: Progress)
    ensures
        (summary_text(progress)[0] == 'e') <==> (progress.coins == progress.total_coins),
        progress.coins == progress.total_coins ==> summary_text(progress) == "every coin, "@
            + decimal(progress.deaths as nat) + " deaths"@,
        progress.coins != progress.total_coins ==> summary_text(progress) == decimal(
            progress.coins as nat,
        ) + "/"@ + decimal(progress.total_coins as nat) + " coins, "@ + decimal(
            progress.deaths as nat,
        ) + " deaths"@,
        digits_value(decimal(progress.coins as nat)) == progress.coins,
        digits_value(decimal(progress.total_coins as nat)) == progress.total_coins,
        digits_value(decimal(progress.deaths as nat)) == progress.deaths,
{
    reveal_strlit("every coin, ");
    decimal_reads_back(progress.coins as nat);
    decimal_reads_back(progress.total_coins as nat);
    decimal_reads_back(progress.deaths as nat);
    let t = summary_text(progress);
    if progress.coins == progress.total_coins {
        let rest = decimal(progress.deaths as nat) + " deaths"@;
        assert(t == "every coin, "@ + rest);
        assert(t[0] == "every coin, "@[0]);
    } else {
        let dc = decimal(progress.coins as nat);
        let rest = "/"@ + decimal(progress.total_coins as nat) + " coins, "@ + decimal(
            progress.deaths as nat,
        ) + " deaths"@;
        assert(t =~= dc + rest);
        assert(t[0] == dc[0]);
        assert(is_digit(dc[0]));
    }
}

} // verus!
