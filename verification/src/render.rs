//! Pure rendering decisions for one frame: blink parity, which palette and
//! background paint to use, and the formatted clock text. The drawing surface
//! itself (colors as reals, fonts, glyph metrics) lives outside this crate;
//! callers interpret the plan returned here.

use vstd::prelude::*;
use vstd::string::StringExecFns;
use crate::digits::is_dec_digit;
use crate::digits::lemma_digits_are_decimal;
use crate::digits::spec_digits;
use crate::digits::spec_pad2;
use crate::digits::u64_to_dec;
use crate::digits::u64_to_dec_pad2;
use crate::timer::HMS;

verus! {

/// How the normal (non-alarm) background is painted: a plain opaque fill, or
/// a low-opacity fill in a source-replace compositing mode that leaves a
/// fading trail. The alarm background is always opaque.
#[derive(Clone, Copy, PartialEq, Eq, Structural, Debug)]
pub enum BackgroundStyle {
    Solid,
    TranslucentTrail,
}

/// Which of the two color pairs a frame uses.
#[derive(Clone, Copy, PartialEq, Eq, Structural, Debug)]
pub enum Palette {
    Normal,
    Alarm,
}

/// The background fill a frame asks for.
#[derive(Clone, Copy, PartialEq, Eq, Structural, Debug)]
pub enum BackgroundPaint {
    AlarmOpaque,
    NormalOpaque,
    NormalTranslucent,
}

/// Blink parity: the display is inverted only while overtime, toggling once
/// per second with the parity of the seconds component.
pub open spec fn spec_blink(overtime: bool, s: int) -> bool {
    overtime && s % 2 == 0
}

/// Returns true if and only if the snapshot is in overtime with an even
/// seconds component.
pub fn derive_blink_state(hms: &HMS) -> (r: bool)
    ensures
        r == spec_blink(hms.overtime, hms.s as int),
{
    hms.overtime && hms.s % 2 == 0
}

/// The background paint for a frame: the alarm background, opaque, when
/// inverted; otherwise the normal background in the configured style.
pub open spec fn spec_choose_background(style: BackgroundStyle, inverted: bool) -> BackgroundPaint {
    if inverted {
        BackgroundPaint::AlarmOpaque
    } else {
        match style {
            BackgroundStyle::Solid => BackgroundPaint::NormalOpaque,
            BackgroundStyle::TranslucentTrail => BackgroundPaint::NormalTranslucent,
        }
    }
}

/// Picks the background fill for a frame.
pub fn choose_background(style: BackgroundStyle, inverted: bool) -> (r: BackgroundPaint)
    ensures
        r == spec_choose_background(style, inverted),
{
    if inverted {
        BackgroundPaint::AlarmOpaque
    } else {
        match style {
            BackgroundStyle::Solid => BackgroundPaint::NormalOpaque,
            BackgroundStyle::TranslucentTrail => BackgroundPaint::NormalTranslucent,
        }
    }
}

/// The foreground palette for a frame: alarm colors while inverted.
pub open spec fn spec_choose_palette(inverted: bool) -> Palette {
    if inverted {
        Palette::Alarm
    } else {
        Palette::Normal
    }
}

/// Picks the foreground palette for a frame.
pub fn choose_palette(inverted: bool) -> (r: Palette)
    ensures
        r == spec_choose_palette(inverted),
{
    if inverted {
        Palette::Alarm
    } else {
        Palette::Normal
    }
}

/// The clock text: a '+' sign only in overtime, the hour count unpadded and
/// followed by a colon only when non-zero, and minutes and seconds always
/// zero-padded to two digits.
pub open spec fn spec_format_hms(overtime: bool, h: int, m: int, s: int) -> Seq<char> {
    (if overtime {
        seq!['+']
    } else {
        Seq::<char>::empty()
    }) + (if h == 0 {
        Seq::<char>::empty()
    } else {
        spec_digits(h) + seq![':']
    }) + spec_pad2(m) + seq![':'] + spec_pad2(s)
}

/// Renders a snapshot as the clock text.
pub fn format_hms(hms: &HMS) -> (r: String)
    ensures
        r@ == spec_format_hms(hms.overtime, hms.h as int, hms.m as int, hms.s as int),
{
    proof {
        reveal_strlit("+");
        reveal_strlit(":");
        assert("+"@ =~= seq!['+']);
        assert(":"@ =~= seq![':']);
    }
    let mut text = if hms.overtime {
        "+".to_owned()
    } else {
        String::new()
    };
    if hms.h != 0 {
        let hour_digits = u64_to_dec(hms.h);
        text.append(hour_digits.as_str());
        text.append(":");
    }
    let minute_digits = u64_to_dec_pad2(hms.m);
    text.append(minute_digits.as_str());
    text.append(":");
    let second_digits = u64_to_dec_pad2(hms.s);
    text.append(second_digits.as_str());
    proof {
        assert(text@ =~= spec_format_hms(hms.overtime, hms.h as int, hms.m as int, hms.s as int));
    }
    text
}

/// The clock text is never empty, and begins with '+' exactly when the
/// snapshot is in overtime.
pub proof fn lemma_format_sign(overtime: bool, h: int, m: int, s: int)
    requires
        h >= 0,
        m >= 0,
        s >= 0,
    ensures
        spec_format_hms(overtime, h, m, s).len() > 0,
        (spec_format_hms(overtime, h, m, s)[0] == '+') <==> overtime,
{
    lemma_digits_are_decimal(h);
    lemma_digits_are_decimal(m);
    let text = spec_format_hms(overtime, h, m, s);
    if overtime {
        assert(text[0] == '+');
    } else {
        if h != 0 {
            assert(text[0] == spec_digits(h)[0]);
            assert(is_dec_digit(text[0]));
        } else {
            assert(text[0] == spec_pad2(m)[0]);
            if m < 10 {
                assert(text[0] == '0');
            } else {
                assert(text[0] == spec_digits(m)[0]);
                assert(is_dec_digit(text[0]));
            }
        }
        assert(text[0] != '+');
    }
}

/// Two digits for a counter below one hundred, padded or not.
pub proof fn lemma_pad2_len(n: int)
    requires
        0 <= n < 100,
    ensures
        spec_pad2(n).len() == 2,
{
    if n >= 10 {
        assert(spec_digits(n / 10).len() == 1);
    }
}

/// The length of the clock text: one for the sign while overtime, the hour
/// digits and a colon only when the hour is non-zero, and five for the
/// two-digit minutes, the colon, and the two-digit seconds.
pub proof fn lemma_format_len(overtime: bool, h: int, m: int, s: int)
    requires
        h >= 0,
        0 <= m < 60,
        0 <= s < 60,
    ensures
        spec_format_hms(overtime, h, m, s).len() == (if overtime {
            1int
        } else {
            0int
        }) + (if h == 0 {
            0int
        } else {
            spec_digits(h).len() as int + 1
        }) + 5,
{
    lemma_pad2_len(m);
    lemma_pad2_len(s);
}

/// Everything one frame needs from the core: whether the display is
/// inverted, the background fill, the foreground palette, and the text.
pub struct DrawPlan {
    pub inverted: bool,
    pub background: BackgroundPaint,
    pub foreground: Palette,
    pub text: String,
}

/// Decides one frame from a snapshot: background from blink parity and the
/// configured style, foreground palette from blink parity, then the text.
pub fn draw(hms: &HMS, style: BackgroundStyle) -> (p: DrawPlan)
    ensures
        p.inverted == spec_blink(hms.overtime, hms.s as int),
        p.background == spec_choose_background(style, spec_blink(hms.overtime, hms.s as int)),
        p.foreground == spec_choose_palette(spec_blink(hms.overtime, hms.s as int)),
        p.text@ == spec_format_hms(hms.overtime, hms.h as int, hms.m as int, hms.s as int),
{
    let inverted = derive_blink_state(hms);
    DrawPlan {
        inverted,
        background: choose_background(style, inverted),
        foreground: choose_palette(inverted),
        text: format_hms(hms),
    }
}

} // verus!
