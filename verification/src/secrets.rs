//! Reading the service's web player for the app id and the secrets that
//! sign stream requests: the patterns looked for, and how a secret is put
//! together from the pieces found.
use vstd::prelude::*;

use crate::client::capitalized;
use crate::text::concat;

verus! {

/// The pattern of the script the login page loads; group 1 is its path.
pub const BUNDLE_REGEX: &'static str = r#"<script src="(/resources/\d+\.\d+\.\d+-[a-z]\d{3}/bundle\.js)"></script>"#;

/// The pattern of the app id in the script; group 1 is the id.
pub const APP_REGEX: &'static str = r#"cluster:"eu"}\):\(n.qobuzapi=\{app_id:"(?P<app_id>\d{9})",app_secret:"\w{32}",base_port:"80",base_url:"https://www\.qobuz\.com",base_method:"/api\.json/0\.2/"},n"#;

/// The pattern of a seed in the script; groups 1 and 2 are the seed and its time zone.
pub const SEED_REGEX: &'static str = r#"[a-z]\.initialSeed\("(?P<seed>[\w=]+)",window\.utimezone\.(?P<timezone>[a-z]+)\)"#;

/// The part of the info pattern before the time zone.
pub const INFO_HEAD: &'static str = r#"name:"\w+/(?P<timezone>"#;

/// The part of the info pattern after the time zone.
pub const INFO_TAIL: &'static str = r#"([a-z]?))",info:"(?P<info>[\w=]+)",extras:"(?P<extras>[\w=]+)""#;

/// The capture groups of the first match of a pattern in a text (group 0
/// being the whole match), or `None` when the pattern is not a valid
/// pattern or does not match.
pub uninterp spec fn regex_first_captures(pattern: Seq<char>, text: Seq<char>) -> Option<Seq<Option<Seq<char>>>>;

/// The capture groups of every match of a pattern in a text, in order, or
/// `None` when the pattern is not a valid pattern.
pub uninterp spec fn regex_all_captures(pattern: Seq<char>, text: Seq<char>) -> Option<Seq<Seq<Option<Seq<char>>>>>;

/// The bytes a text decodes to in standard base64, or `None` when it is not base64.
pub uninterp spec fn base64_decoded(s: Seq<char>) -> Option<Seq<u8>>;

/// The text some bytes spell in UTF-8, or `None` when they are not UTF-8.
pub uninterp spec fn utf8_decoded(b: Seq<u8>) -> Option<Seq<char>>;

/// The groups of the first match of `pattern` in `text` (`regex::Regex::new`,
/// then `captures`); `None` when the pattern is invalid or nothing matches.
/// The contract names the result; the pattern language is not written out here.
#[verifier::external_body]
fn first_captures(pattern: &str, text: &str) -> (r: Option<Vec<Option<String>>>)
    ensures
        match r {
            Some(v) => regex_first_captures(pattern@, text@) == Some(groups_view(v@)),
            None => regex_first_captures(pattern@, text@) is None,
        },
{
    match regex::Regex::new(pattern) {
        Ok(re) => match re.captures(text) {
            Some(c) => Some(c.iter().map(|m| m.map(|m| m.as_str().to_string())).collect()),
            None => None,
        },
        Err(_) => None,
    }
}

/// The groups of every match of `pattern` in `text` (`regex::Regex::new`,
/// then `captures_iter`); `None` when the pattern is invalid. The contract
/// names the result.
#[verifier::external_body]
fn all_captures(pattern: &str, text: &str) -> (r: Option<Vec<Vec<Option<String>>>>)
    ensures
        match r {
            Some(v) => regex_all_captures(pattern@, text@) == Some(v@.map_values(|g: Vec<Option<String>>| groups_view(g@))),
            None => regex_all_captures(pattern@, text@) is None,
        },
{
    match regex::Regex::new(pattern) {
        Ok(re) => Some(
            re.captures_iter(text).map(|c| c.iter().map(|m| m.map(|m| m.as_str().to_string())).collect()).collect(),
        ),
        Err(_) => None,
    }
}

/// The bytes `s` decodes to in standard base64 (`base64::decode`); `None`
/// when it is not base64. The contract names the result.
#[verifier::external_body]
fn decode_base64(s: &str) -> (r: Option<Vec<u8>>)
    ensures
        match r {
            Some(v) => base64_decoded(s@) == Some(v@),
            None => base64_decoded(s@) is None,
        },
{
    #[allow(deprecated)]
    match base64::decode(s) {
        Ok(v) => Some(v),
        Err(_) => None,
    }
}

/// The text `b` spells in UTF-8 (`std::str::from_utf8`); `None` when it is
/// not UTF-8. The contract names the result.
#[verifier::external_body]
fn utf8_text(b: &Vec<u8>) -> (r: Option<String>)
    ensures
        match r {
            Some(s) => utf8_decoded(b@) == Some(s@),
            None => utf8_decoded(b@) is None,
        },
{
    match std::str::from_utf8(b) {
        Ok(s) => Some(s.to_string()),
        Err(_) => None,
    }
}

/// The text of a list of optional groups.
pub open spec fn groups_view(g: Seq<Option<String>>) -> Seq<Option<Seq<char>>> {
    g.map_values(|x: Option<String>| crate::service::opt_str(x))
}

/// Group `i` of a match, or the empty text when it did not take part.
pub open spec fn group_or_empty(g: Seq<Option<Seq<char>>>, i: int) -> Seq<char> {
    if 0 <= i < g.len() && g[i] is Some {
        g[i].unwrap()
    } else {
        Seq::empty()
    }
}

fn group_text(g: &Vec<Option<String>>, i: usize) -> (r: String)
    ensures
        r@ == group_or_empty(groups_view(g@), i as int),
{
    if i < g.len() {
        match &g[i] {
            Some(s) => s.clone(),
            None => String::new(),
        }
    } else {
        String::new()
    }
}

/// The number of bytes a character takes in UTF-8.
pub open spec fn utf8_width(c: char) -> nat {
    if (c as u32) < 0x80 {
        1
    } else if (c as u32) < 0x800 {
        2
    } else if (c as u32) < 0x10000 {
        3
    } else {
        4
    }
}

/// The number of bytes a text takes in UTF-8.
pub open spec fn utf8_size(s: Seq<char>) -> nat
    decreases s.len(),
{
    if s.len() == 0 {
        0
    } else {
        utf8_size(s.drop_last()) + utf8_width(s.last())
    }
}

/// Whether the text can be cut 44 bytes before its end: some prefix of it
/// takes exactly that many bytes.
pub open spec fn cuttable(s: Seq<char>) -> bool {
    exists|k: int| 0 <= k <= s.len() && utf8_size(s.take(k)) + 44 == utf8_size(s)
}

/// A longer prefix of a text takes more bytes.
pub proof fn lemma_size_grows(s: Seq<char>, a: int, b: int)
    requires
        0 <= a < b <= s.len(),
    ensures
        utf8_size(s.take(a)) < utf8_size(s.take(b)),
    decreases b - a,
{
    assert(s.take(b).drop_last() =~= s.take(b - 1));
    if a < b - 1 {
        lemma_size_grows(s, a, b - 1);
    }
}

/// Where a cuttable text is cut, in characters.
pub open spec fn cut_point(s: Seq<char>) -> int {
    choose|k: int| 0 <= k <= s.len() && utf8_size(s.take(k)) + 44 == utf8_size(s)
}

/// The secret a seed's pieces, run together, decode to: the text cut 44
/// bytes before its end, decoded; `None` when it cannot be cut or decoded.
pub open spec fn seed_secret(parts: Seq<char>) -> Option<Seq<char>> {
    if cuttable(parts) {
        decoded_secret(parts.take(cut_point(parts)))
    } else {
        None
    }
}

proof fn lemma_cut_unique(s: Seq<char>, k: int)
    requires
        0 <= k <= s.len(),
        utf8_size(s.take(k)) + 44 == utf8_size(s),
    ensures
        cut_point(s) == k,
{
    let c = cut_point(s);
    assert(0 <= c <= s.len() && utf8_size(s.take(c)) + 44 == utf8_size(s));
    if c < k {
        lemma_size_grows(s, c, k);
    } else if k < c {
        lemma_size_grows(s, k, c);
    }
}

/// The place, in characters, where `s` is cut 44 bytes before its end, if
/// some prefix ends there.
fn find_cut(s: &str) -> (r: Option<usize>)
    ensures
        match r {
            Some(k) => k <= s@.len() && utf8_size(s@.take(k as int)) + 44 == utf8_size(s@),
            None => !cuttable(s@),
        },
{
    let n = vstd::string::StrSliceExecFns::unicode_len(s);
    let mut sizes: Vec<u128> = Vec::new();
    let mut total: u128 = 0;
    let mut i: usize = 0;
    sizes.push(0);
    while i < n
        invariant
            n == s@.len(),
            i <= n,
            total == utf8_size(s@.take(i as int)),
            total <= 4 * i,
            sizes@.len() == i + 1,
            forall|k: int| 0 <= k <= i ==> sizes@[k] == utf8_size(s@.take(k)),
            forall|k: int| 0 <= k <= i ==> sizes@[k] <= 4 * k,
        decreases n - i,
    {
        let c = vstd::string::StrSliceExecFns::get_char(s, i);
        let code = c as u32;
        let w: u128 = if code < 0x80 {
            1
        } else if code < 0x800 {
            2
        } else if code < 0x10000 {
            3
        } else {
            4
        };
        proof {
            assert(s@.take(i + 1).drop_last() =~= s@.take(i as int));
            assert(s@.take(i + 1).last() == c);
        }
        total = total + w;
        sizes.push(total);
        i = i + 1;
    }
    assert(s@.take(n as int) =~= s@);
    let mut k: usize = 0;
    while k < n
        invariant
            n == s@.len(),
            total == utf8_size(s@),
            sizes@.len() == n + 1,
            forall|m: int| 0 <= m <= n ==> sizes@[m] == utf8_size(s@.take(m)),
            forall|m: int| 0 <= m <= n ==> sizes@[m] <= 4 * m,
            k <= n,
            forall|m: int| 0 <= m < k ==> utf8_size(s@.take(m)) + 44 != utf8_size(s@),
        decreases n - k,
    {
        if sizes[k] + 44 == total {
            return Some(k);
        }
        k = k + 1;
    }
    if sizes[n] + 44 == total {
        return Some(n);
    }
    None
}

/// The encoded secret made of a seed and the info and extras of its time
/// zone: their text run together, without its last 44 bytes.
pub fn secret_text(seed: &str, info: &str, extras: &str) -> (r: String)
    requires
        cuttable(seed@ + info@ + extras@),
    ensures
        r@ == (seed@ + info@ + extras@).take(cut_point(seed@ + info@ + extras@)),
{
    let chars = concat(concat(seed, info).as_str(), extras);
    assert(chars@ =~= seed@ + info@ + extras@);
    match find_cut(chars.as_str()) {
        Some(k) => {
            let r = vstd::string::StrSliceExecFns::substring_char(chars.as_str(), 0, k).to_string();
            assert(r@ =~= chars@.take(k as int));
            proof {
                lemma_cut_unique(chars@, k as int);
            }
            r
        },
        None => String::new(),
    }
}

/// The pattern of the info and extras of a time zone.
pub open spec fn info_pattern_of(timezone: Seq<char>) -> Seq<char> {
    INFO_HEAD@ + capitalized(timezone) + INFO_TAIL@
}

/// The pattern of the info and extras of a time zone (its name capitalized).
pub fn info_pattern(timezone: &str) -> (r: String)
    ensures
        r@ == info_pattern_of(timezone@),
{
    let tz = crate::client::capitalize(timezone);
    concat(concat(INFO_HEAD, tz.as_str()).as_str(), INFO_TAIL)
}

/// Decodes an encoded secret: base64, then UTF-8.
pub open spec fn decoded_secret(encoded: Seq<char>) -> Option<Seq<char>> {
    match base64_decoded(encoded) {
        Some(b) => utf8_decoded(b),
        None => None,
    }
}

/// Decodes an encoded secret, where it decodes.
pub fn decode_secret(encoded: &str) -> (r: Option<String>)
    ensures
        crate::service::opt_str(r) == decoded_secret(encoded@),
{
    match decode_base64(encoded) {
        Some(bytes) => utf8_text(&bytes),
        None => None,
    }
}

/// The path of the script the login page loads: group 1 of the first match
/// of `BUNDLE_REGEX`, or the empty path when the group is missing; `None`
/// when nothing matches.
pub fn bundle_path(login_page: &str) -> (r: Option<String>)
    ensures
        match regex_first_captures(BUNDLE_REGEX@, login_page@) {
            Some(g) => r matches Some(p) && p@ == group_or_empty(g, 1),
            None => r is None,
        },
{
    match first_captures(BUNDLE_REGEX, login_page) {
        Some(g) => Some(group_text(&g, 1)),
        None => None,
    }
}

/// The app id in the script: group 1 of the first match of `APP_REGEX`
/// (empty when the group is missing); `None` when nothing matches.
pub fn app_id_of(bundle: &str) -> (r: Option<String>)
    ensures
        match regex_first_captures(APP_REGEX@, bundle@) {
            Some(g) => r matches Some(p) && p@ == group_or_empty(g, 1),
            None => r is None,
        },
{
    match first_captures(APP_REGEX, bundle) {
        Some(g) => Some(group_text(&g, 1)),
        None => None,
    }
}

/// The seeds of the script with their time zones, in order: groups 1 and
/// 2 of every match of `SEED_REGEX`.
pub fn seeds_of(bundle: &str) -> (r: Vec<(String, String)>)
    ensures
        pairs_view(r@) == seeds_view(bundle@),
{
    let mut out: Vec<(String, String)> = Vec::new();
    match all_captures(SEED_REGEX, bundle) {
        Some(ms) => {
            let ghost mv = ms@.map_values(|g: Vec<Option<String>>| groups_view(g@));
            let mut i: usize = 0;
            while i < ms.len()
                invariant
                    i <= ms@.len(),
                    mv == ms@.map_values(|g: Vec<Option<String>>| groups_view(g@)),
                    out@.len() == i,
                    forall|j: int| 0 <= j < i ==> (#[trigger] out@[j]).0@ == group_or_empty(mv[j], 1)
                        && out@[j].1@ == group_or_empty(mv[j], 2),
                decreases ms@.len() - i,
            {
                let seed = group_text(&ms[i], 1);
                let tz = group_text(&ms[i], 2);
                out.push((seed, tz));
                i = i + 1;
            }
            proof {
                assert(pairs_view(out@) =~= seeds_view(bundle@));
            }
            out
        },
        None => {
            proof {
                assert(pairs_view(out@) =~= seeds_view(bundle@));
            }
            out
        },
    }
}

/// The pieces of a seed's secret in an info match, run together.
pub open spec fn secret_parts(seed: Seq<char>, m: Seq<Option<Seq<char>>>) -> Seq<char> {
    seed + group_or_empty(m, 3) + group_or_empty(m, 4)
}

/// The secrets of one seed, as text: for every match of the time zone's
/// info pattern, the zone's name and the secret; `None` when the pattern
/// is invalid or a secret cannot be cut or decoded.
pub open spec fn seed_secrets_of(bundle: Seq<char>, seed: Seq<char>, timezone: Seq<char>) -> Option<Seq<(Seq<char>, Seq<char>)>> {
    match regex_all_captures(info_pattern_of(timezone), bundle) {
        None => None,
        Some(ms) => if forall|i: int| 0 <= i < ms.len() ==> (#[trigger] seed_secret(secret_parts(seed, ms[i]))) is Some {
            Some(Seq::new(ms.len(), |i: int| (group_or_empty(ms[i], 1), seed_secret(secret_parts(seed, ms[i])).unwrap())))
        } else {
            None
        },
    }
}

/// The text of a list of string pairs.
pub open spec fn pairs_view(v: Seq<(String, String)>) -> Seq<(Seq<char>, Seq<char>)> {
    v.map_values(|p: (String, String)| (p.0@, p.1@))
}

/// The secrets of one seed: for every match of the time zone's info
/// pattern, its time zone name (group 1) and the secret the seed, info
/// (group 3) and extras (group 4) give; `None` when the pattern is invalid
/// or a secret cannot be cut or decoded.
pub fn secrets_of_seed(bundle: &str, seed: &str, timezone: &str) -> (r: Option<Vec<(String, String)>>)
    ensures
        match r {
            Some(v) => seed_secrets_of(bundle@, seed@, timezone@) == Some(pairs_view(v@)),
            None => seed_secrets_of(bundle@, seed@, timezone@) is None,
        },
{
    let pattern = info_pattern(timezone);
    let ms = match all_captures(pattern.as_str(), bundle) {
        Some(ms) => ms,
        None => {
            return None;
        },
    };
    let ghost mv = ms@.map_values(|g: Vec<Option<String>>| groups_view(g@));
    let mut out: Vec<(String, String)> = Vec::new();
    let mut i: usize = 0;
    while i < ms.len()
        invariant
            i <= ms@.len(),
            mv == ms@.map_values(|g: Vec<Option<String>>| groups_view(g@)),
            regex_all_captures(info_pattern_of(timezone@), bundle@) == Some(mv),
            out@.len() == i,
            forall|j: int| 0 <= j < i ==> {
                &&& (#[trigger] out@[j]).0@ == group_or_empty(mv[j], 1)
                &&& seed_secret(secret_parts(seed@, mv[j])) == Some(out@[j].1@)
            },
        decreases ms@.len() - i,
    {
        let tz = group_text(&ms[i], 1);
        let info = group_text(&ms[i], 3);
        let extras = group_text(&ms[i], 4);
        proof {
            assert(secret_parts(seed@, mv[i as int]) =~= seed@ + info@ + extras@);
        }
        if !cuttable_text(seed, info.as_str(), extras.as_str()) {
            proof {
                assert(seed_secret(secret_parts(seed@, mv[i as int])) is None);
            }
            return None;
        }
        let encoded = secret_text(seed, info.as_str(), extras.as_str());
        match decode_secret(encoded.as_str()) {
            Some(secret) => {
                out.push((tz, secret));
            },
            None => {
                proof {
                    assert(seed_secret(secret_parts(seed@, mv[i as int])) is None);
                }
                return None;
            },
        }
        i = i + 1;
    }
    proof {
        assert forall|j: int| 0 <= j < mv.len() implies (#[trigger] seed_secret(secret_parts(seed@, mv[j]))) is Some by {
            assert(out@[j].0@ == group_or_empty(mv[j], 1));
        }
        assert(pairs_view(out@) =~= Seq::new(mv.len(), |i: int| (group_or_empty(mv[i], 1), seed_secret(secret_parts(seed@, mv[i])).unwrap())));
    }
    Some(out)
}

/// The seeds of a script with their time zones, as text.
pub open spec fn seeds_view(bundle: Seq<char>) -> Seq<(Seq<char>, Seq<char>)> {
    match regex_all_captures(SEED_REGEX@, bundle) {
        Some(ms) => Seq::new(ms.len(), |i: int| (group_or_empty(ms[i], 1), group_or_empty(ms[i], 2))),
        None => Seq::empty(),
    }
}

/// The secrets of a script from its first `n` seeds, run together in
/// order; `None` when one seed's secrets cannot be had.
pub open spec fn bundle_secrets(bundle: Seq<char>, seeds: Seq<(Seq<char>, Seq<char>)>, n: int) -> Option<Seq<(Seq<char>, Seq<char>)>>
    decreases n,
{
    if n <= 0 {
        Some(Seq::empty())
    } else {
        match bundle_secrets(bundle, seeds, n - 1) {
            Some(before) => match seed_secrets_of(bundle, seeds[n - 1].0, seeds[n - 1].1) {
                Some(more) => Some(before + more),
                None => None,
            },
            None => None,
        }
    }
}

proof fn lemma_secrets_stay_none(bundle: Seq<char>, seeds: Seq<(Seq<char>, Seq<char>)>, a: int, b: int)
    requires
        0 <= a <= b,
        bundle_secrets(bundle, seeds, a) is None,
    ensures
        bundle_secrets(bundle, seeds, b) is None,
    decreases b - a,
{
    if a < b {
        lemma_secrets_stay_none(bundle, seeds, a, b - 1);
    }
}

/// The app id and secrets a script holds: with no app id found, neither;
/// otherwise the id and the secrets of every seed, in order. `None` when a
/// seed's secrets cannot be had.
pub fn bundle_config(bundle: &str) -> (r: Option<(Option<String>, Vec<(String, String)>)>)
    ensures
        match regex_first_captures(APP_REGEX@, bundle@) {
            None => r matches Some(c) && c.0 is None && c.1@.len() == 0,
            Some(g) => match bundle_secrets(bundle@, seeds_view(bundle@), seeds_view(bundle@).len() as int) {
                Some(all) => r matches Some(c) && crate::service::opt_str(c.0) == Some(group_or_empty(g, 1))
                    && pairs_view(c.1@) == all,
                None => r is None,
            },
        },
{
    let app_id = match app_id_of(bundle) {
        Some(id) => id,
        None => {
            return Some((None, Vec::new()));
        },
    };
    let seeds = seeds_of(bundle);
    let ghost sv = seeds_view(bundle@);
    proof {
        assert(seeds@.len() == sv.len());
    }
    let mut out: Vec<(String, String)> = Vec::new();
    let mut i: usize = 0;
    while i < seeds.len()
        invariant
            i <= seeds@.len(),
            sv == seeds_view(bundle@),
            regex_first_captures(APP_REGEX@, bundle@) is Some,
            seeds@.len() == sv.len(),
            forall|j: int| 0 <= j < seeds@.len() ==> (#[trigger] seeds@[j]).0@ == sv[j].0 && seeds@[j].1@ == sv[j].1,
            bundle_secrets(bundle@, sv, i as int) == Some(pairs_view(out@)),
        decreases seeds@.len() - i,
    {
        match secrets_of_seed(bundle, seeds[i].0.as_str(), seeds[i].1.as_str()) {
            Some(more) => {
                let ghost before = out@;
                let mut k: usize = 0;
                while k < more.len()
                    invariant
                        k <= more@.len(),
                        pairs_view(out@) == pairs_view(before) + pairs_view(more@).take(k as int),
                    decreases more@.len() - k,
                {
                    let ghost mid = out@;
                    out.push((more[k].0.clone(), more[k].1.clone()));
                    proof {
                        assert(pairs_view(out@) =~= pairs_view(mid).push((more@[k as int].0@, more@[k as int].1@)));
                        assert(pairs_view(more@).take(k + 1) =~= pairs_view(more@).take(k as int).push(
                            (more@[k as int].0@, more@[k as int].1@),
                        ));
                    }
                    k = k + 1;
                }
                proof {
                    assert(pairs_view(more@).take(k as int) =~= pairs_view(more@));
                }
            },
            None => {
                proof {
                    assert(sv[i as int].0 == seeds@[i as int].0@ && sv[i as int].1 == seeds@[i as int].1@);
                    assert(bundle_secrets(bundle@, sv, i + 1) is None);
                    lemma_secrets_stay_none(bundle@, sv, i + 1, sv.len() as int);
                }
                return None;
            },
        }
        proof {
            assert(sv[i as int].0 == seeds@[i as int].0@ && sv[i as int].1 == seeds@[i as int].1@);
        }
        i = i + 1;
    }
    Some((Some(app_id), out))
}

/// Whether the run-together text of the three pieces can be cut 44 bytes before its end.
fn cuttable_text(seed: &str, info: &str, extras: &str) -> (r: bool)
    ensures
        r == cuttable(seed@ + info@ + extras@),
{
    let chars = concat(concat(seed, info).as_str(), extras);
    assert(chars@ =~= seed@ + info@ + extras@);
    find_cut(chars.as_str()).is_some()
}

} // verus!
