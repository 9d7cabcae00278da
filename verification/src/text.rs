//! Decimal and boolean text, for the explanations that detections carry.

use vstd::prelude::*;
use vstd::string::StringExecFns;
use crate::region::ImageRegion;
use crate::types::Scene;

verus! {

/// The character of a decimal digit.
pub open spec fn digit_char(d: int) -> char {
    if d == 0 { '0' }
    else if d == 1 { '1' }
    else if d == 2 { '2' }
    else if d == 3 { '3' }
    else if d == 4 { '4' }
    else if d == 5 { '5' }
    else if d == 6 { '6' }
    else if d == 7 { '7' }
    else if d == 8 { '8' }
    else { '9' }
}

/// The decimal digits of `n`, most significant first, without leading
/// zeros.
pub open spec fn decimal(n: nat) -> Seq<char>
    decreases n,
{
    if n < 10 {
        seq![digit_char(n as int)]
    } else {
        decimal(n / 10).push(digit_char((n % 10) as int))
    }
}

fn digit_str(d: u64) -> (r: &'static str)
    requires d < 10,
    ensures r@ == seq![digit_char(d as int)],
{
    proof {
        reveal_strlit("0");
        reveal_strlit("1");
        reveal_strlit("2");
        reveal_strlit("3");
        reveal_strlit("4");
        reveal_strlit("5");
        reveal_strlit("6");
        reveal_strlit("7");
        reveal_strlit("8");
        reveal_strlit("9");
    }
    if d == 0 { "0" }
    else if d == 1 { "1" }
    else if d == 2 { "2" }
    else if d == 3 { "3" }
    else if d == 4 { "4" }
    else if d == 5 { "5" }
    else if d == 6 { "6" }
    else if d == 7 { "7" }
    else if d == 8 { "8" }
    else { "9" }
}

/// `n` written in decimal.
pub fn decimal_string(n: u64) -> (r: String)
    ensures r@ == decimal(n as nat),
{
    decimal_string_wide(n as u128)
}

/// `n` written in decimal.
pub fn decimal_string_wide(n: u128) -> (r: String)
    ensures r@ == decimal(n as nat),
    decreases n,
{
    if n < 10 {
        let s = digit_str(n as u64).to_owned();
        s
    } else {
        let mut s = decimal_string_wide(n / 10);
        s.append(digit_str((n % 10) as u64));
        s
    }
}

/// `prefix`, `n` in decimal, then `suffix`.
pub fn with_count(prefix: &str, n: u64, suffix: &str) -> (r: String)
    ensures r@ == prefix@ + decimal(n as nat) + suffix@,
{
    let mut s = prefix.to_owned();
    s.append(decimal_string(n).as_str());
    s.append(suffix);
    s
}

/// `prefix` followed by the region as `Debug` writes it.
pub fn with_region(prefix: &str, r: ImageRegion) -> (s: String)
    ensures s@ == prefix@ + region_text(r),
{
    let mut s = prefix.to_owned();
    s.append(region_string(r).as_str());
    s
}

/// `scale * num / den` rounded to two decimals (halves up) and written
/// with them, as `{:.2}` writes such a ratio; `inf` for a positive number
/// over zero and `NaN` for zero over zero.
pub open spec fn fixed2_text(num: nat, den: nat) -> Seq<char> {
    if den == 0 {
        if num > 0 { "inf"@ } else { "NaN"@ }
    } else {
        let h = (200 * num + den) / (2 * den);
        let f = h % 100;
        decimal(h / 100) + "."@ + (if f < 10 { "0"@ } else { Seq::empty() }) + decimal(f)
    }
}

pub fn fixed2_string(num: u64, scale: u64, den: u64) -> (r: String)
    requires scale <= 100,
    ensures r@ == fixed2_text((scale * num) as nat, den as nat),
{
    proof {
        assert(scale as int * num as int <= 100 * 0xffff_ffff_ffff_ffff) by (nonlinear_arith)
            requires scale <= 100, num <= 0xffff_ffff_ffff_ffff;
    }
    let n: u128 = scale as u128 * num as u128;
    if den == 0 {
        return if n > 0 { "inf".to_owned() } else { "NaN".to_owned() };
    }
    let h: u128 = (200 * n + den as u128) / (2 * den as u128);
    proof {
        let ni = n as int;
        let d = den as int;
        let hi = h as int;
        assert(hi * (2 * d) <= 200 * ni + d) by (nonlinear_arith)
            requires d >= 1, hi == (200 * ni + d) / (2 * d);
        assert(200 * ni + d <= (200 * ni + 1) * d) by (nonlinear_arith)
            requires d >= 1, ni >= 0;
        assert(hi * 2 <= 200 * ni + 1) by (nonlinear_arith)
            requires d >= 1, hi >= 0, hi * (2 * d) <= (200 * ni + 1) * d;
    }
    let whole: u128 = h / 100;
    let frac: u64 = (h % 100) as u64;
    let mut s = decimal_string_wide(whole);
    s.append(".");
    if frac < 10 {
        s.append("0");
    }
    s.append(decimal_string(frac).as_str());
    s
}

/// The parts one after another with `sep` between them.
pub open spec fn joined(parts: Seq<Seq<char>>, sep: Seq<char>) -> Seq<char>
    decreases parts.len(),
{
    if parts.len() == 0 {
        Seq::empty()
    } else if parts.len() == 1 {
        parts[0]
    } else {
        joined(parts.drop_last(), sep) + sep + parts.last()
    }
}

/// The strings one after another with `sep` between them.
pub fn join(parts: &Vec<String>, sep: &str) -> (r: String)
    ensures r@ == joined(parts@.map_values(|p: String| p@), sep@),
{
    let ghost views = parts@.map_values(|p: String| p@);
    let mut s = String::new();
    let mut i: usize = 0;
    while i < parts.len()
        invariant
            i <= parts@.len(),
            views == parts@.map_values(|p: String| p@),
            s@ == joined(views.take(i as int), sep@),
        decreases parts@.len() - i,
    {
        if i > 0 {
            s.append(sep);
        }
        s.append(parts[i].as_str());
        proof {
            assert(views.take(i + 1).drop_last() =~= views.take(i as int));
            if i == 0 {
                assert(views.take(1)[0] == parts@[0]@);
            }
        }
        i = i + 1;
    }
    proof { assert(views.take(i as int) =~= views); }
    s
}

/// `true` or `false`, as Rust writes a boolean.
pub open spec fn bool_text(b: bool) -> Seq<char> {
    if b { "true"@ } else { "false"@ }
}

pub fn bool_str(b: bool) -> (r: &'static str)
    ensures r@ == bool_text(b),
{
    if b { "true" } else { "false" }
}

/// A region as Rust's derived `Debug` writes it.
pub open spec fn region_text(r: ImageRegion) -> Seq<char> {
    "ImageRegion { x: "@ + decimal(r.x as nat) + ", y: "@ + decimal(r.y as nat)
        + ", width: "@ + decimal(r.width as nat) + ", height: "@ + decimal(r.height as nat) + " }"@
}

pub fn region_string(r: ImageRegion) -> (s: String)
    ensures s@ == region_text(r),
{
    let mut s = "ImageRegion { x: ".to_owned();
    s.append(decimal_string(r.x as u64).as_str());
    s.append(", y: ");
    s.append(decimal_string(r.y as u64).as_str());
    s.append(", width: ");
    s.append(decimal_string(r.width as u64).as_str());
    s.append(", height: ");
    s.append(decimal_string(r.height as u64).as_str());
    s.append(" }");
    s
}

/// A scene as Rust's derived `Debug` writes it.
pub open spec fn scene_text(s: Scene) -> Seq<char> {
    match s {
        Scene::Battle => "Battle"@,
        Scene::MainMenu => "MainMenu"@,
        Scene::Intro => "Intro"@,
        Scene::Overworld => "Overworld"@,
        Scene::NameCreation => "NameCreation"@,
        Scene::Unknown => "Unknown"@,
    }
}

pub fn scene_str(s: Scene) -> (r: &'static str)
    ensures r@ == scene_text(s),
{
    match s {
        Scene::Battle => "Battle",
        Scene::MainMenu => "MainMenu",
        Scene::Intro => "Intro",
        Scene::Overworld => "Overworld",
        Scene::NameCreation => "NameCreation",
        Scene::Unknown => "Unknown",
    }
}

} // verus!
