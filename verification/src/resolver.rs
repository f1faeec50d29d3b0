//! Layout detection over the textual output of the desktop environment's
//! own query commands. Each strategy's output is parsed by line and field
//! scanning; the strategies are tried in strict priority order and any
//! failure falls through to the next, ending at the hard-coded default.
//!
//! The functions here are pure: the surrounding program runs the commands
//! and hands their collected output in, so the whole decision chain is
//! checked while the process spawning stays at the edge.
use crate::mapper::classify_spec;
use crate::mapper::keymap_name_to_code;
use crate::mapper::LayoutIdentifier;
use crate::text::colon_field1;
use crate::text::contains_seq;
use crate::text::find_from;
use crate::text::lines_of;
use crate::text::opt_view;
use crate::text::second_token;
use crate::text::split_lines;
use crate::text::starts_with_seq;
use crate::text::str_colon_field1;
use crate::text::str_contains;
use crate::text::str_find_char;
use crate::text::str_second_token;
use crate::text::str_starts_with;
use crate::text::str_trim;
use crate::text::str_trim_quote_comma;
use crate::text::strs_view;
use crate::text::trim_quote_comma_seq;
use crate::text::trim_seq;
use vstd::prelude::*;

verus! {

/// The first of the lines that contains `pat`, scanning from position `i`.
pub open spec fn first_line_with(ls: Seq<Seq<char>>, pat: Seq<char>, i: int) -> Option<Seq<char>>
    decreases ls.len() - i,
{
    if i >= ls.len() {
        None
    } else if contains_seq(ls[i], pat) {
        Some(ls[i])
    } else {
        first_line_with(ls, pat, i + 1)
    }
}

/// What extracting a labeled keymap field yields: the first line holding
/// the label, its value after the first colon, quotes and commas stripped,
/// classified as a layout name. A label line without a colon ends the
/// extraction with nothing.
pub open spec fn labeled_keymap_spec(out: Seq<char>, label: Seq<char>) -> Option<
    (Seq<char>, Seq<char>),
> {
    match first_line_with(lines_of(out), label, 0) {
        None => None,
        Some(l) => match colon_field1(l) {
            None => None,
            Some(v) => classify_spec(trim_quote_comma_seq(trim_seq(v))),
        },
    }
}

#[verifier::loop_isolation(false)]
fn extract_labeled_keymap(out: &str, label: &str) -> (r: Option<LayoutIdentifier>)
    ensures
        match r {
            Some(id) => labeled_keymap_spec(out@, label@) == Some(id@),
            None => labeled_keymap_spec(out@, label@) is None,
        },
{
    let ls = split_lines(out);
    let mut i: usize = 0;
    while i < ls.len()
        invariant
            i <= ls@.len(),
            first_line_with(strs_view(ls@), label@, 0) == first_line_with(
                strs_view(ls@),
                label@,
                i as int,
            ),
        decreases ls@.len() - i,
    {
        if str_contains(ls[i].as_str(), label) {
            assert(first_line_with(strs_view(ls@), label@, i as int) == Some(ls@[i as int]@));
            match str_colon_field1(ls[i].as_str()) {
                None => {
                    return None;
                },
                Some(v) => {
                    let t = str_trim(v.as_str());
                    let t2 = str_trim_quote_comma(t.as_str());
                    return keymap_name_to_code(t2.as_str());
                },
            }
        }
        i = i + 1;
    }
    None
}

/// What the compositor device listing yields for the active keymap.
pub open spec fn hyprland_keymap_spec(out: Seq<char>) -> Option<(Seq<char>, Seq<char>)> {
    labeled_keymap_spec(out, "active_keymap"@)
}

/// What the compositor input listing yields for the active layout name.
pub open spec fn sway_keymap_spec(out: Seq<char>) -> Option<(Seq<char>, Seq<char>)> {
    labeled_keymap_spec(out, "xkb_active_layout_name"@)
}

pub fn extract_hyprland_keymap(out: &str) -> (r: Option<LayoutIdentifier>)
    ensures
        match r {
            Some(id) => hyprland_keymap_spec(out@) == Some(id@),
            None => hyprland_keymap_spec(out@) is None,
        },
{
    extract_labeled_keymap(out, "active_keymap")
}

pub fn extract_sway_keymap(out: &str) -> (r: Option<LayoutIdentifier>)
    ensures
        match r {
            Some(id) => sway_keymap_spec(out@) == Some(id@),
            None => sway_keymap_spec(out@) is None,
        },
{
    extract_labeled_keymap(out, "xkb_active_layout_name")
}

/// The explicit override, split at colons: the region before the first
/// colon, the variant between the first and the second, taken verbatim.
pub open spec fn override_spec(s: Seq<char>) -> (Seq<char>, Seq<char>) {
    let i = find_from(s, ':', 0);
    if i >= s.len() {
        (s, Seq::<char>::empty())
    } else {
        (s.subrange(0, i), s.subrange(i + 1, find_from(s, ':', i + 1)))
    }
}

pub fn parse_layout_override(s: &str) -> (r: LayoutIdentifier)
    ensures
        r@ == override_spec(s@),
{
    let n = s.unicode_len();
    let i = str_find_char(s, ':', 0);
    if i >= n {
        assert(s@.subrange(0, n as int) =~= s@);
        LayoutIdentifier {
            region: String::from_str(s.substring_char(0, n)),
            variant: String::new(),
        }
    } else {
        let j = str_find_char(s, ':', i + 1);
        LayoutIdentifier {
            region: String::from_str(s.substring_char(0, i)),
            variant: String::from_str(s.substring_char(i + 1, j)),
        }
    }
}

/// The second whitespace-separated token of `l`, or `d` when there is none.
pub open spec fn tok2_or(l: Seq<char>, d: Seq<char>) -> Seq<char> {
    match second_token(l) {
        Some(t) => t,
        None => d,
    }
}

/// One pass over the legacy layout query's lines: the token after the last
/// `layout:` line and the last `variant:` line win, with defaults for a
/// line whose token is missing.
pub open spec fn xkbq_scan(ls: Seq<Seq<char>>, i: int, lay: Seq<char>, var: Seq<char>) -> (
    Seq<char>,
    Seq<char>,
)
    decreases ls.len() - i,
{
    if i >= ls.len() {
        (lay, var)
    } else {
        let lay2 = if starts_with_seq(ls[i], "layout:"@) {
            tok2_or(ls[i], "us"@)
        } else {
            lay
        };
        let var2 = if starts_with_seq(ls[i], "variant:"@) {
            tok2_or(ls[i], Seq::<char>::empty())
        } else {
            var
        };
        xkbq_scan(ls, i + 1, lay2, var2)
    }
}

/// What the legacy layout query yields: nothing at all when its output
/// names the X11 compatibility shim, whose report is unreliable; otherwise
/// the scanned `layout:` and `variant:` fields, with the default region.
pub open spec fn xkbq_spec(out: Seq<char>) -> Option<(Seq<char>, Seq<char>)> {
    if contains_seq(out, "Xwayland"@) {
        None
    } else {
        Some(xkbq_scan(lines_of(out), 0, "us"@, Seq::<char>::empty()))
    }
}

#[verifier::loop_isolation(false)]
pub fn parse_xkb_query(out: &str) -> (r: Option<LayoutIdentifier>)
    ensures
        match r {
            Some(id) => xkbq_spec(out@) == Some(id@),
            None => xkbq_spec(out@) is None,
        },
{
    if str_contains(out, "Xwayland") {
        return None;
    }
    let ls = split_lines(out);
    let mut lay = String::from_str("us");
    let mut var = String::new();
    let mut i: usize = 0;
    while i < ls.len()
        invariant
            i <= ls@.len(),
            xkbq_scan(strs_view(ls@), 0, "us"@, Seq::<char>::empty()) == xkbq_scan(
                strs_view(ls@),
                i as int,
                lay@,
                var@,
            ),
        decreases ls@.len() - i,
    {
        if str_starts_with(ls[i].as_str(), "layout:") {
            lay =
            match str_second_token(ls[i].as_str()) {
                Some(t) => t,
                None => String::from_str("us"),
            };
        }
        if str_starts_with(ls[i].as_str(), "variant:") {
            var =
            match str_second_token(ls[i].as_str()) {
                Some(t) => t,
                None => String::new(),
            };
        }
        i = i + 1;
    }
    Some(LayoutIdentifier { region: lay, variant: var })
}

/// One pass over the locale status lines: the first `VC Keymap:` line whose
/// value is present, non-empty and not the unset sentinel yields a region.
pub open spec fn lctl_scan(ls: Seq<Seq<char>>, i: int) -> Option<Seq<char>>
    decreases ls.len() - i,
{
    if i >= ls.len() {
        None
    } else if contains_seq(ls[i], "VC Keymap:"@) {
        match colon_field1(ls[i]) {
            None => lctl_scan(ls, i + 1),
            Some(v) => {
                let t = trim_seq(v);
                if t.len() > 0 && t != "(unset)"@ {
                    Some(t)
                } else {
                    lctl_scan(ls, i + 1)
                }
            },
        }
    } else {
        lctl_scan(ls, i + 1)
    }
}

/// What the locale status command yields for the console keymap.
pub open spec fn localectl_spec(out: Seq<char>) -> Option<Seq<char>> {
    lctl_scan(lines_of(out), 0)
}

#[verifier::loop_isolation(false)]
pub fn parse_localectl(out: &str) -> (r: Option<LayoutIdentifier>)
    ensures
        match r {
            Some(id) => localectl_spec(out@) == Some(id.region@) && id.variant@
                == Seq::<char>::empty(),
            None => localectl_spec(out@) is None,
        },
{
    let ls = split_lines(out);
    let unset = String::from_str("(unset)");
    let mut i: usize = 0;
    while i < ls.len()
        invariant
            i <= ls@.len(),
            unset@ == "(unset)"@,
            lctl_scan(strs_view(ls@), 0) == lctl_scan(strs_view(ls@), i as int),
        decreases ls@.len() - i,
    {
        if str_contains(ls[i].as_str(), "VC Keymap:") {
            match str_colon_field1(ls[i].as_str()) {
                None => {
                },
                Some(v) => {
                    let t = str_trim(v.as_str());
                    if t.as_str().unicode_len() > 0 && !(t == unset) {
                        return Some(LayoutIdentifier { region: t, variant: String::new() });
                    }
                },
            }
        }
        i = i + 1;
    }
    None
}

/// The first of the device-listing outputs that yields a keymap, in the
/// order the sessions were tried.
pub open spec fn first_hypr_spec(outs: Seq<Seq<char>>, i: int) -> Option<(Seq<char>, Seq<char>)>
    decreases outs.len() - i,
{
    if i >= outs.len() {
        None
    } else {
        match hyprland_keymap_spec(outs[i]) {
            Some(r) => Some(r),
            None => first_hypr_spec(outs, i + 1),
        }
    }
}

/// The whole resolution chain over the gathered strategy outputs, in strict
/// priority order: the explicit override taken verbatim; the compositor
/// device listings; the compositor input listing; the legacy layout query;
/// the locale status; and last the hard-coded default.
pub open spec fn resolve_spec(
    ov: Option<Seq<char>>,
    hypr: Seq<Seq<char>>,
    sway: Option<Seq<char>>,
    xkbq: Option<Seq<char>>,
    lctl: Option<Seq<char>>,
) -> (Seq<char>, Seq<char>) {
    match ov {
        Some(s) => override_spec(s),
        None => match first_hypr_spec(hypr, 0) {
            Some(r) => r,
            None => {
                let sw = match sway {
                    Some(o) => sway_keymap_spec(o),
                    None => None,
                };
                match sw {
                    Some(r) => r,
                    None => {
                        let xq = match xkbq {
                            Some(o) => xkbq_spec(o),
                            None => None,
                        };
                        match xq {
                            Some(r) => r,
                            None => {
                                let lc = match lctl {
                                    Some(o) => localectl_spec(o),
                                    None => None,
                                };
                                match lc {
                                    Some(reg) => (reg, Seq::<char>::empty()),
                                    None => ("us"@, Seq::<char>::empty()),
                                }
                            },
                        }
                    },
                }
            },
        },
    }
}

/// Resolves the layout from the strategy outputs the surrounding program
/// gathered: the override variable's value, the device listings of each
/// compositor session tried in order, and the other commands' output where
/// each ran at all.
#[verifier::loop_isolation(false)]
pub fn resolve_layout(
    override_layout: &Option<String>,
    hypr_outputs: &Vec<String>,
    sway_output: &Option<String>,
    xkb_query_output: &Option<String>,
    localectl_output: &Option<String>,
) -> (r: LayoutIdentifier)
    ensures
        r@ == resolve_spec(
            opt_view(*override_layout),
            strs_view(hypr_outputs@),
            opt_view(*sway_output),
            opt_view(*xkb_query_output),
            opt_view(*localectl_output),
        ),
{
    match override_layout {
        Some(s) => {
            return parse_layout_override(s.as_str());
        },
        None => {
        },
    }
    let mut i: usize = 0;
    while i < hypr_outputs.len()
        invariant
            i <= hypr_outputs@.len(),
            first_hypr_spec(strs_view(hypr_outputs@), 0) == first_hypr_spec(
                strs_view(hypr_outputs@),
                i as int,
            ),
        decreases hypr_outputs@.len() - i,
    {
        match extract_hyprland_keymap(hypr_outputs[i].as_str()) {
            Some(id) => {
                return id;
            },
            None => {
            },
        }
        i = i + 1;
    }
    match sway_output {
        Some(out) => {
            match extract_sway_keymap(out.as_str()) {
                Some(id) => {
                    return id;
                },
                None => {
                },
            }
        },
        None => {
        },
    }
    match xkb_query_output {
        Some(out) => {
            match parse_xkb_query(out.as_str()) {
                Some(id) => {
                    return id;
                },
                None => {
                },
            }
        },
        None => {
        },
    }
    match localectl_output {
        Some(out) => {
            match parse_localectl(out.as_str()) {
                Some(id) => {
                    return id;
                },
                None => {
                },
            }
        },
        None => {
        },
    }
    LayoutIdentifier::default_layout()
}


/// An ASCII decimal digit.
pub open spec fn is_digit_char(c: char) -> bool {
    48 <= c as u32 && c as u32 <= 57
}

/// Every character a digit, and at least one.
pub open spec fn all_digits(s: Seq<char>) -> bool {
    s.len() > 0 && forall|i: int| 0 <= i < s.len() ==> is_digit_char(s[i])
}

/// The value of a digit string, most significant first.
pub open spec fn digits_val(s: Seq<char>) -> nat
    decreases s.len(),
{
    if s.len() == 0 {
        0
    } else {
        (digits_val(s.drop_last()) * 10 + (s.last() as u32 - 48)) as nat
    }
}

/// An unsigned number as the standard parser reads it: an optional plus
/// sign, then digits only, and a value that fits.
pub open spec fn parse_u32_spec(s: Seq<char>) -> Option<u32> {
    let t = if s.len() > 0 && s[0] == '+' {
        s.subrange(1, s.len() as int)
    } else {
        s
    };
    if all_digits(t) && digits_val(t) <= u32::MAX {
        Some(digits_val(t) as u32)
    } else {
        None
    }
}

/// What the user-id query's output parses to, once trimmed.
pub open spec fn parse_uid_spec(s: Seq<char>) -> Option<u32> {
    parse_u32_spec(trim_seq(s))
}

/// Parses the user-id query's output: the trimmed text as an unsigned
/// number, or nothing when it is not one.
#[verifier::loop_isolation(false)]
pub fn parse_uid(s: &str) -> (r: Option<u32>)
    ensures
        r == parse_uid_spec(s@),
{
    let t = str_trim(s);
    let ts = t.as_str();
    let n = ts.unicode_len();
    let start: usize = if n > 0 && ts.get_char(0) == '+' {
        1
    } else {
        0
    };
    let ghost body = if n > 0 && ts@[0] == '+' {
        ts@.subrange(1, n as int)
    } else {
        ts@
    };
    proof {
        assert(body =~= ts@.subrange(start as int, n as int));
    }
    if start >= n {
        return None;
    }
    let mut i = start;
    let mut val: u32 = 0;
    let mut over = false;
    while i < n
        invariant
            start <= i <= n,
            forall|k: int| start <= k < i ==> is_digit_char(ts@[k]),
            !over ==> val == digits_val(ts@.subrange(start as int, i as int)),
            over ==> digits_val(ts@.subrange(start as int, i as int)) > u32::MAX,
        decreases n - i,
    {
        let c = ts.get_char(i);
        let u = c as u32;
        if u < 48 || u > 57 {
            assert(!is_digit_char(body[i - start]));
            return None;
        }
        let d = u - 48;
        let ghost prefix = ts@.subrange(start as int, i as int);
        let ghost extended = ts@.subrange(start as int, i + 1 as int);
        proof {
            assert(extended.drop_last() =~= prefix);
            assert(digits_val(extended) == digits_val(prefix) * 10 + d);
        }
        if !over {
            if val > (0xffff_ffffu32 - d) / 10 {
                proof {
                    let q = ((u32::MAX - d) / 10) as int;
                    assert(10 * q + ((u32::MAX - d) as int % 10) == u32::MAX - d);
                    assert(val * 10 + d > u32::MAX);
                }
                over = true;
            } else {
                val = val * 10 + d;
            }
        }
        i = i + 1;
    }
    if over {
        proof {
            assert(body =~= ts@.subrange(start as int, n as int));
        }
        None
    } else {
        assert(all_digits(body));
        Some(val)
    }
}

/// Law: a set override is taken verbatim and decides the resolution alone,
/// whatever any of the external commands would have reported.
pub proof fn lemma_override_bypasses_commands(
    ov: Seq<char>,
    hypr: Seq<Seq<char>>,
    sway: Option<Seq<char>>,
    xkbq: Option<Seq<char>>,
    lctl: Option<Seq<char>>,
)
    ensures
        resolve_spec(Some(ov), hypr, sway, xkbq, lctl) == override_spec(ov),
{
}

/// Law: with no override and every external command unavailable, the
/// resolution is always the default US layout with an empty variant.
pub proof fn lemma_fallback_default()
    ensures
        resolve_spec(None, Seq::<Seq<char>>::empty(), None, None, None) == ("us"@, Seq::<
            char,
        >::empty()),
{
}

} // verus!
