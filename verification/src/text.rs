//! Verified text helpers: decimal rendering and parsing, the `m:ss` clock
//! format used for track durations, and conversion of a `&str` into its
//! character sequence.

use vstd::prelude::*;
use vstd::string::StrSliceExecFns;
use vstd::string::StringExecFns;

verus! {

/// The decimal digit character for a value below ten.
pub open spec fn dec_digit(d: nat) -> char {
    if d == 0 {
        '0'
    } else if d == 1 {
        '1'
    } else if d == 2 {
        '2'
    } else if d == 3 {
        '3'
    } else if d == 4 {
        '4'
    } else if d == 5 {
        '5'
    } else if d == 6 {
        '6'
    } else if d == 7 {
        '7'
    } else if d == 8 {
        '8'
    } else {
        '9'
    }
}

/// The decimal representation of `n`, most significant digit first, with no
/// leading zeros (a single `'0'` for zero).
pub open spec fn dec_rep(n: nat) -> Seq<char>
    decreases n,
{
    if n < 10 {
        seq![dec_digit(n)]
    } else {
        dec_rep(n / 10).push(dec_digit(n % 10))
    }
}

/// The `minutes:seconds` clock display, seconds padded to two digits.
pub open spec fn spec_clock(minutes: nat, seconds: nat) -> Seq<char> {
    dec_rep(minutes) + ":"@ + (if seconds < 10 {
        "0"@
    } else {
        Seq::<char>::empty()
    }) + dec_rep(seconds)
}

fn digit_str(d: u64) -> (r: &'static str)
    requires
        d < 10,
    ensures
        r@ == seq![dec_digit(d as nat)],
{
    proof {
        reveal_strlit("0");
        reveal_strlit("1");
        reveal_strlit("2");
        reveal_strlit("3");
        reveal_strlit("4");
        reveal_strlit("5");
        reveal_strlit("6");
        reveal_strlit("7");
        reveal_strlit("8");
        reveal_strlit("9");
    }
    let r = match d {
        0 => "0",
        1 => "1",
        2 => "2",
        3 => "3",
        4 => "4",
        5 => "5",
        6 => "6",
        7 => "7",
        8 => "8",
        _ => "9",
    };
    proof {
        assert(r@ =~= seq![dec_digit(d as nat)]);
    }
    r
}

/// Renders `n` in decimal.
pub fn u64_to_string(n: u64) -> (r: String)
    ensures
        r@ == dec_rep(n as nat),
    decreases n,
{
    if n < 10 {
        String::from_str(digit_str(n))
    } else {
        u64_to_string(n / 10).concat(digit_str(n % 10))
    }
}

/// Renders a duration already split into minutes and seconds as `m:ss`.
pub fn format_clock(minutes: u64, seconds: u64) -> (r: String)
    ensures
        r@ == spec_clock(minutes as nat, seconds as nat),
{
    let mut out = u64_to_string(minutes);
    out.append(":");
    if seconds < 10 {
        out.append("0");
    }
    out.concat(u64_to_string(seconds).as_str())
}

/// Renders a duration given in milliseconds as `m:ss`, truncating partial
/// seconds, as catalog durations are displayed.
pub fn format_duration_ms(ms: u64) -> (r: String)
    ensures
        r@ == spec_clock((ms / 60000) as nat, ((ms % 60000) / 1000) as nat),
{
    format_clock(ms / 60000, (ms % 60000) / 1000)
}

/// The characters of `s`, in order, as a vector.
pub fn chars_vec(s: &str) -> (r: Vec<char>)
    ensures
        r@ == s@,
{
    let n = s.unicode_len();
    let mut v: Vec<char> = Vec::new();
    for i in 0..n
        invariant
            n == s@.len(),
            v@ == s@.take(i as int),
    {
        v.push(s.get_char(i));
        proof {
            assert(v@ =~= s@.take(i + 1 as int));
        }
    }
    proof {
        assert(v@ =~= s@);
    }
    v
}

/// Artist names joined with `", "`, as they are displayed on one line.
pub open spec fn spec_join_artists(names: Seq<String>) -> Seq<char>
    decreases names.len(),
{
    if names.len() == 0 {
        Seq::<char>::empty()
    } else if names.len() == 1 {
        names[0]@
    } else {
        spec_join_artists(names.drop_last()) + ", "@ + names.last()@
    }
}

/// Joins artist names with `", "`.
pub fn join_artists(names: &Vec<String>) -> (r: String)
    ensures
        r@ == spec_join_artists(names@),
{
    let mut out = String::new();
    let n = names.len();
    for i in 0..n
        invariant
            n == names@.len(),
            out@ == spec_join_artists(names@.take(i as int)),
    {
        if i > 0 {
            out.append(", ");
        }
        out.append(names[i].as_str());
        proof {
            assert(names@.take(i + 1 as int).drop_last() =~= names@.take(i as int));
            if i == 0 {
                assert(out@ =~= spec_join_artists(names@.take(i + 1 as int)));
            }
        }
    }
    proof {
        assert(names@.take(n as int) =~= names@);
    }
    out
}

/// Relies on `String::push`: appends exactly the one character to the end
/// of the string.
#[verifier::external_body]
fn push_char(s: &mut String, c: char)
    ensures
        final(s)@ == old(s)@.push(c),
{
    s.push(c);
}

/// The string holding the characters `cs[from..to]`, in order.
pub fn string_from_range(cs: &Vec<char>, from: usize, to: usize) -> (r: String)
    requires
        from <= to <= cs@.len(),
    ensures
        r@ == cs@.subrange(from as int, to as int),
{
    let mut out = String::new();
    for k in from..to
        invariant
            from <= k <= to <= cs@.len(),
            out@ == cs@.subrange(from as int, k as int),
    {
        push_char(&mut out, cs[k]);
        proof {
            assert(out@ =~= cs@.subrange(from as int, k + 1 as int));
        }
    }
    out
}

/// The characters `cs[from..to]`, in order, as their own vector.
pub fn slice_range(cs: &Vec<char>, from: usize, to: usize) -> (r: Vec<char>)
    requires
        from <= to <= cs@.len(),
    ensures
        r@ == cs@.subrange(from as int, to as int),
{
    let mut out: Vec<char> = Vec::new();
    for k in from..to
        invariant
            from <= k <= to <= cs@.len(),
            out@ == cs@.subrange(from as int, k as int),
    {
        out.push(cs[k]);
        proof {
            assert(out@ =~= cs@.subrange(from as int, k + 1 as int));
        }
    }
    out
}

/// Whether `c` is a decimal digit.
pub open spec fn is_digit(c: char) -> bool {
    '0' <= c && c <= '9'
}

/// The value of a decimal digit character.
pub open spec fn digit_val(c: char) -> nat {
    (c as nat - '0' as nat) as nat
}

/// Whether every character of `s` is a decimal digit.
pub open spec fn all_digits(s: Seq<char>) -> bool {
    forall|i: int| 0 <= i < s.len() ==> is_digit(#[trigger] s[i])
}

/// The numeric value of a digit string, most significant digit first.
pub open spec fn dec_val(s: Seq<char>) -> nat
    decreases s.len(),
{
    if s.len() == 0 {
        0
    } else {
        dec_val(s.drop_last()) * 10 + digit_val(s.last())
    }
}

/// Whether a digit string parses as a `u64`: non-empty, all digits, and
/// within range.
pub open spec fn parses_u64(s: Seq<char>) -> bool {
    s.len() > 0 && all_digits(s) && dec_val(s) <= u64::MAX
}

/// A prefix of a digit string never exceeds the whole string's value.
proof fn lemma_dec_val_prefix_le(s: Seq<char>, i: int)
    requires
        0 <= i <= s.len(),
    ensures
        dec_val(s.take(i)) <= dec_val(s),
    decreases s.len() - i,
{
    if i < s.len() {
        lemma_dec_val_prefix_le(s, i + 1);
        assert(s.take(i + 1).drop_last() =~= s.take(i));
        assert(dec_val(s.take(i + 1)) == dec_val(s.take(i)) * 10 + digit_val(s.take(i + 1).last()));
    } else {
        assert(s.take(i) =~= s);
    }
}

/// Parses a digit string into a `u64`. Returns `None` exactly when the
/// string is empty, holds a non-digit, or exceeds `u64::MAX`.
pub fn parse_u64(digits: &Vec<char>) -> (r: Option<u64>)
    ensures
        r is Some <==> parses_u64(digits@),
        r matches Some(v) ==> v == dec_val(digits@),
{
    if digits.len() == 0 {
        return None;
    }
    let mut acc: u64 = 0;
    let n = digits.len();
    for i in 0..n
        invariant
            n == digits@.len(),
            all_digits(digits@.take(i as int)),
            acc == dec_val(digits@.take(i as int)),
    {
        let c = digits[i];
        if c < '0' || c > '9' {
            proof {
                assert(!is_digit(digits@[i as int]));
            }
            return None;
        }
        let d: u64 = (c as u32 as u64) - ('0' as u32 as u64);
        let shifted = match acc.checked_mul(10) {
            Some(x) => x,
            None => {
                proof {
                    overflow_means_out_of_range(digits@, i as int, acc as nat, d as nat);
                }
                return None;
            },
        };
        let next = match shifted.checked_add(d) {
            Some(x) => x,
            None => {
                proof {
                    overflow_means_out_of_range(digits@, i as int, acc as nat, d as nat);
                }
                return None;
            },
        };
        acc = next;
        proof {
            assert(digits@.take(i + 1 as int).drop_last() =~= digits@.take(i as int));
        }
    }
    proof {
        assert(digits@.take(n as int) =~= digits@);
    }
    Some(acc)
}

/// One pass over the body of a catalog duration (`PT` already stripped):
/// digit runs accumulate in `buf`; `H` adds sixty times the run to the
/// minutes, `M` adds the run to the minutes, `S` sets the seconds; any
/// other character joins the run. A marker whose run does not parse as a
/// `u64` fails; an unterminated trailing run is ignored.
pub open spec fn iso_fold(cs: Seq<char>, minutes: nat, seconds: nat, buf: Seq<char>) -> Option<
    (nat, nat),
>
    decreases cs.len(),
{
    if cs.len() == 0 {
        Some((minutes, seconds))
    } else {
        let c = cs[0];
        let rest = cs.drop_first();
        if c == 'H' {
            if parses_u64(buf) {
                iso_fold(rest, minutes + dec_val(buf) * 60, seconds, Seq::<char>::empty())
            } else {
                None
            }
        } else if c == 'M' {
            if parses_u64(buf) {
                iso_fold(rest, minutes + dec_val(buf), seconds, Seq::<char>::empty())
            } else {
                None
            }
        } else if c == 'S' {
            if parses_u64(buf) {
                iso_fold(rest, minutes, dec_val(buf), Seq::<char>::empty())
            } else {
                None
            }
        } else {
            iso_fold(rest, minutes, seconds, buf.push(c))
        }
    }
}

/// The minutes and seconds named by a duration of the form
/// `PT<h>H<m>M<s>S` (each part optional).
pub open spec fn spec_parse_iso8601(s: Seq<char>) -> Option<(nat, nat)> {
    if s.len() >= 2 && s[0] == 'P' && s[1] == 'T' {
        iso_fold(s.skip(2), 0, 0, Seq::<char>::empty())
    } else {
        None
    }
}

/// The minutes a fold yields never fall below the minutes it starts with.
proof fn lemma_iso_minutes_monotone(cs: Seq<char>, minutes: nat, seconds: nat, buf: Seq<char>)
    ensures
        iso_fold(cs, minutes, seconds, buf) matches Some(p) ==> p.0 >= minutes,
    decreases cs.len(),
{
    if cs.len() > 0 {
        let c = cs[0];
        let rest = cs.drop_first();
        if c == 'H' {
            if parses_u64(buf) {
                lemma_iso_minutes_monotone(
                    rest,
                    minutes + dec_val(buf) * 60,
                    seconds,
                    Seq::<char>::empty(),
                );
            }
        } else if c == 'M' {
            if parses_u64(buf) {
                lemma_iso_minutes_monotone(
                    rest,
                    minutes + dec_val(buf),
                    seconds,
                    Seq::<char>::empty(),
                );
            }
        } else if c == 'S' {
            if parses_u64(buf) {
                lemma_iso_minutes_monotone(rest, minutes, dec_val(buf), Seq::<char>::empty());
            }
        } else {
            lemma_iso_minutes_monotone(rest, minutes, seconds, buf.push(c));
        }
    }
}

/// Parses a catalog duration such as `PT1H2M3S` and renders it as `m:ss`.
/// Returns `None` exactly when the duration does not parse — no `PT`
/// prefix, or a marker without a valid digit run — or when its minutes
/// exceed what a `u64` holds.
pub fn parse_iso8601_duration(duration: &str) -> (r: Option<String>)
    ensures
        r matches Some(out) ==> (spec_parse_iso8601(duration@) matches Some(p) && p.0 <= u64::MAX
            && out@ == spec_clock(p.0, p.1)),
        r is None ==> (spec_parse_iso8601(duration@) is None || (spec_parse_iso8601(duration@)
            matches Some(p) && p.0 > u64::MAX)),
{
    let cs = chars_vec(duration);
    let n = cs.len();
    if n < 2 {
        return None;
    }
    if cs[0] != 'P' || cs[1] != 'T' {
        return None;
    }
    let mut minutes: u64 = 0;
    let mut seconds: u64 = 0;
    let mut buf: Vec<char> = Vec::new();
    for i in 2..n
        invariant
            n == cs@.len(),
            cs@ == duration@,
            2 <= i <= n,
            spec_parse_iso8601(duration@) == iso_fold(
                cs@.skip(i as int),
                minutes as nat,
                seconds as nat,
                buf@,
            ),
    {
        let c = cs[i];
        proof {
            assert(cs@.skip(i as int)[0] == cs@[i as int]);
            assert(cs@.skip(i as int).drop_first() =~= cs@.skip(i + 1 as int));
        }
        if c == 'H' {
            let run = match parse_u64(&buf) {
                Some(v) => v,
                None => {
                    return None;
                },
            };
            let add = match run.checked_mul(60) {
                Some(v) => v,
                None => {
                    proof {
                        lemma_iso_minutes_monotone(
                            cs@.skip(i + 1 as int),
                            minutes as nat + dec_val(buf@) * 60,
                            seconds as nat,
                            Seq::<char>::empty(),
                        );
                    }
                    return None;
                },
            };
            let next = match minutes.checked_add(add) {
                Some(v) => v,
                None => {
                    proof {
                        lemma_iso_minutes_monotone(
                            cs@.skip(i + 1 as int),
                            minutes as nat + dec_val(buf@) * 60,
                            seconds as nat,
                            Seq::<char>::empty(),
                        );
                    }
                    return None;
                },
            };
            minutes = next;
            buf = Vec::new();
        } else if c == 'M' {
            let run = match parse_u64(&buf) {
                Some(v) => v,
                None => {
                    return None;
                },
            };
            let next = match minutes.checked_add(run) {
                Some(v) => v,
                None => {
                    proof {
                        lemma_iso_minutes_monotone(
                            cs@.skip(i + 1 as int),
                            minutes as nat + dec_val(buf@),
                            seconds as nat,
                            Seq::<char>::empty(),
                        );
                    }
                    return None;
                },
            };
            minutes = next;
            buf = Vec::new();
        } else if c == 'S' {
            let run = match parse_u64(&buf) {
                Some(v) => v,
                None => {
                    return None;
                },
            };
            seconds = run;
            buf = Vec::new();
        } else {
            buf.push(c);
        }
    }
    proof {
        assert(cs@.skip(n as int).len() == 0);
    }
    Some(format_clock(minutes, seconds))
}

/// If the next accumulation step leaves `u64`, the whole digit string's value
/// is out of range.
proof fn overflow_means_out_of_range(s: Seq<char>, i: int, acc: nat, d: nat)
    requires
        0 <= i < s.len(),
        acc == dec_val(s.take(i)),
        d == digit_val(s[i]),
        acc * 10 + d > u64::MAX,
    ensures
        dec_val(s) > u64::MAX,
{
    assert(s.take(i + 1).drop_last() =~= s.take(i));
    assert(s.take(i + 1).last() == s[i]);
    assert(dec_val(s.take(i + 1)) == acc * 10 + d);
    lemma_dec_val_prefix_le(s, i + 1);
}

} // verus!
