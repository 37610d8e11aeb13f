//! Choosing the audio output device: how likely each device is to be the
//! built-in speakers, and the order in which devices are tried.
use vstd::prelude::*;
use crate::text::{lowercase, occurs_in, str_contains, str_starts_with, to_lowercase};

verus! {

/// Whether `t` is a prefix of `s`.
pub open spec fn begins(s: Seq<char>, t: Seq<char>) -> bool {
    t.len() <= s.len() && s.take(t.len() as int) == t
}

/// Names of null devices, which are never tried while others exist.
pub open spec fn null_device(l: Seq<char>) -> bool {
    occurs_in(l, "discard all samples"@) || occurs_in(l, "generate zero samples"@) || l == "null"@
        || occurs_in(l, "(null)"@)
}

/// Names of built-in audio codecs (laptop and desktop speakers).
pub open spec fn builtin_device(l: Seq<char>) -> bool {
    occurs_in(l, "macbook"@) || occurs_in(l, "mac mini"@) || occurs_in(l, "imac"@) || begins(
        l,
        "sof-"@,
    ) || begins(l, "sof_"@) || occurs_in(l, "realtek"@) || occurs_in(l, "nau8821"@) || occurs_in(
        l,
        "alc8"@,
    ) || occurs_in(l, "alc2"@) || occurs_in(l, "built-in"@) || (occurs_in(l, "hda-intel"@)
        && !occurs_in(l, "hdmi"@) && !occurs_in(l, "displayport"@)) || (occurs_in(l, "analog"@)
        && !occurs_in(l, "hdmi"@))
}

/// Names of USB audio interfaces.
pub open spec fn usb_device(l: Seq<char>) -> bool {
    occurs_in(l, "usb"@) || occurs_in(l, "dac"@) || occurs_in(l, "focusrite"@) || occurs_in(
        l,
        "scarlett"@,
    ) || occurs_in(l, "uca222"@) || occurs_in(l, "audiophile"@)
}

/// Names of Thunderbolt audio interfaces.
pub open spec fn thunderbolt_device(l: Seq<char>) -> bool {
    occurs_in(l, "thunderbolt"@) || occurs_in(l, "caldigit"@)
}

/// Names of Bluetooth devices.
pub open spec fn bluetooth_device(l: Seq<char>) -> bool {
    occurs_in(l, "bluetooth"@) || occurs_in(l, "a2dp"@) || occurs_in(l, "bluez"@)
}

/// Names of HDMI and DisplayPort outputs and of monitors, which often have
/// no speakers.
pub open spec fn display_device(l: Seq<char>) -> bool {
    occurs_in(l, "hdmi"@) || occurs_in(l, "displayport"@) || occurs_in(l, "dp-"@) || begins(
        l,
        "phl "@,
    ) || begins(l, "dell "@) || begins(l, "lg "@) || begins(l, "samsung "@) || begins(l, "benq "@)
        || begins(l, "asus "@) || begins(l, "acer "@) || begins(l, "hp "@) || begins(
        l,
        "viewsonic"@,
    )
}

/// Names of virtual sinks of a sound server.
pub open spec fn virtual_device(l: Seq<char>) -> bool {
    occurs_in(l, "pulse"@) || occurs_in(l, "pipewire"@) || occurs_in(l, "virtual"@)
}

/// The score of a device by its lowercased name: 0 for null devices, 100
/// for built-in codecs, 80 USB, 75 Thunderbolt, 70 Bluetooth, 40 displays,
/// 10 virtual sinks and 60 for anything else, the first class that matches
/// deciding.
pub open spec fn score_of_lower(l: Seq<char>) -> u8 {
    if null_device(l) {
        0
    } else if builtin_device(l) {
        100
    } else if usb_device(l) {
        80
    } else if thunderbolt_device(l) {
        75
    } else if bluetooth_device(l) {
        70
    } else if display_device(l) {
        40
    } else if virtual_device(l) {
        10
    } else {
        60
    }
}

/// The score of a device by its name.
pub open spec fn device_score(name: Seq<char>) -> u8 {
    score_of_lower(lowercase(name))
}

/// How likely a device is to be the speakers to use, by its name.
pub fn score_device(name: &str) -> (s: u8)
    ensures
        s == device_score(name@),
{
    let lower_owned = to_lowercase(name);
    let l = lower_owned.as_str();
    if str_contains(l, "discard all samples") || str_contains(l, "generate zero samples")
        || lower_owned == "null".to_owned() || str_contains(l, "(null)") {
        return 0;
    }
    if str_contains(l, "macbook") || str_contains(l, "mac mini") || str_contains(l, "imac")
        || str_starts_with(l, "sof-") || str_starts_with(l, "sof_") || str_contains(l, "realtek")
        || str_contains(l, "nau8821") || str_contains(l, "alc8") || str_contains(l, "alc2")
        || str_contains(l, "built-in") || (str_contains(l, "hda-intel") && !str_contains(l, "hdmi")
        && !str_contains(l, "displayport")) || (str_contains(l, "analog") && !str_contains(
        l,
        "hdmi",
    )) {
        return 100;
    }
    if str_contains(l, "usb") || str_contains(l, "dac") || str_contains(l, "focusrite")
        || str_contains(l, "scarlett") || str_contains(l, "uca222") || str_contains(l, "audiophile") {
        return 80;
    }
    if str_contains(l, "thunderbolt") || str_contains(l, "caldigit") {
        return 75;
    }
    if str_contains(l, "bluetooth") || str_contains(l, "a2dp") || str_contains(l, "bluez") {
        return 70;
    }
    if str_contains(l, "hdmi") || str_contains(l, "displayport") || str_contains(l, "dp-")
        || str_starts_with(l, "phl ") || str_starts_with(l, "dell ") || str_starts_with(l, "lg ")
        || str_starts_with(l, "samsung ") || str_starts_with(l, "benq ") || str_starts_with(
        l,
        "asus ",
    ) || str_starts_with(l, "acer ") || str_starts_with(l, "hp ") || str_starts_with(
        l,
        "viewsonic",
    ) {
        return 40;
    }
    if str_contains(l, "pulse") || str_contains(l, "pipewire") || str_contains(l, "virtual") {
        return 10;
    }
    60
}

/// The name a device reports, if it can be read.
pub open spec fn desc_text(d: Option<String>) -> Option<Seq<char>> {
    match d {
        Some(s) => Some(s@),
        None => None,
    }
}

/// The names of the devices, as far as they can be read.
pub open spec fn desc_texts(ds: Seq<Option<String>>) -> Seq<Option<Seq<char>>> {
    ds.map_values(|d: Option<String>| desc_text(d))
}

/// Whether a device takes part in the ranking: its name is unknown, or it
/// is not a null device.
pub open spec fn ranked(d: Option<Seq<char>>) -> bool {
    match d {
        Some(n) => device_score(n) > 0,
        None => true,
    }
}

/// The score a device is ranked with: its name's score, or 50 when its
/// name cannot be read.
pub open spec fn listed_score(d: Option<Seq<char>>) -> u8 {
    match d {
        Some(n) => device_score(n),
        None => 50,
    }
}

/// The ranking order: a higher score first, then the order in which the
/// devices were listed.
pub open spec fn ranks_before(a: (u8, usize), b: (u8, usize)) -> bool {
    a.0 > b.0 || (a.0 == b.0 && a.1 < b.1)
}

/// Whether `r` ranks the devices: each ranked device once, with its score,
/// best first (devices of equal score in the order they were listed).
pub open spec fn ranking_of(ds: Seq<Option<Seq<char>>>, r: Seq<(u8, usize)>) -> bool {
    &&& forall|i: int, j: int| 0 <= i < j < r.len() ==> ranks_before(#[trigger] r[i], #[trigger] r[j])
    &&& forall|k: int|
        0 <= k < r.len() ==> {
            &&& (#[trigger] r[k]).1 < ds.len()
            &&& ranked(ds[r[k].1 as int])
            &&& r[k].0 == listed_score(ds[r[k].1 as int])
        }
    &&& forall|d: int|
        0 <= d < ds.len() && ranked(#[trigger] ds[d]) ==> exists|k: int|
            0 <= k < r.len() && (#[trigger] r[k]).1 == d
}

/// Ranks the output devices, given the names they report (`None` when a
/// name cannot be read): null devices are left out, and the rest come best
/// first.
pub fn rank_devices(descs: &[Option<String>]) -> (r: Vec<(u8, usize)>)
    ensures
        ranking_of(desc_texts(descs@), r@),
{
    let ghost ds = desc_texts(descs@);
    let mut r: Vec<(u8, usize)> = Vec::new();
    let mut d: usize = 0;
    while d < descs.len()
        invariant
            d <= descs@.len(),
            ds == desc_texts(descs@),
            forall|i: int, j: int|
                0 <= i < j < r@.len() ==> ranks_before(#[trigger] r@[i], #[trigger] r@[j]),
            forall|k: int|
                0 <= k < r@.len() ==> {
                    &&& (#[trigger] r@[k]).1 < d
                    &&& ranked(ds[r@[k].1 as int])
                    &&& r@[k].0 == listed_score(ds[r@[k].1 as int])
                },
            forall|e: int|
                0 <= e < d && ranked(#[trigger] ds[e]) ==> exists|k: int|
                    0 <= k < r@.len() && (#[trigger] r@[k]).1 == e,
        decreases descs@.len() - d,
    {
        let (keep, score): (bool, u8) = match &descs[d] {
            Some(n) => {
                let s = score_device(n.as_str());
                (s > 0, s)
            },
            None => (true, 50),
        };
        proof {
            assert(ds[d as int] == desc_text(descs@[d as int]));
        }
        if keep {
            let mut k: usize = 0;
            while k < r.len() && r[k].0 >= score
                invariant
                    k <= r@.len(),
                    forall|m: int| 0 <= m < k ==> (#[trigger] r@[m]).0 >= score,
                decreases r@.len() - k,
            {
                k = k + 1;
            }
            let ghost before = r@;
            r.insert(k, (score, d));
            proof {
                let item = (score, d);
                assert(r@ == before.insert(k as int, item));
                assert forall|i: int, j: int|
                    0 <= i < j < r@.len() implies ranks_before(#[trigger] r@[i], #[trigger] r@[j]) by {
                    if j < k {
                        assert(r@[i] == before[i] && r@[j] == before[j]);
                    } else if j == k {
                        assert(r@[i] == before[i]);
                        assert(before[i].0 >= score && before[i].1 < d);
                    } else if i == k {
                        assert(r@[j] == before[j - 1]);
                        if k < before.len() {
                            assert(before[k as int].0 < score);
                            if j - 1 > k {
                                assert(ranks_before(before[k as int], before[j - 1]));
                            }
                        }
                    } else if i < k {
                        assert(r@[i] == before[i] && r@[j] == before[j - 1]);
                    } else {
                        assert(r@[i] == before[i - 1] && r@[j] == before[j - 1]);
                    }
                }
                assert forall|k2: int| 0 <= k2 < r@.len() implies {
                    &&& (#[trigger] r@[k2]).1 < d + 1
                    &&& ranked(ds[r@[k2].1 as int])
                    &&& r@[k2].0 == listed_score(ds[r@[k2].1 as int])
                } by {
                    if k2 < k {
                        assert(r@[k2] == before[k2]);
                    } else if k2 > k {
                        assert(r@[k2] == before[k2 - 1]);
                    }
                }
                assert forall|e: int| 0 <= e < d + 1 && ranked(#[trigger] ds[e]) implies exists|
                    k2: int,
                | 0 <= k2 < r@.len() && (#[trigger] r@[k2]).1 == e by {
                    if e == d {
                        assert(r@[k as int].1 == e);
                    } else {
                        let k3 = choose|k3: int| 0 <= k3 < before.len() && (#[trigger] before[k3]).1 == e;
                        if k3 < k {
                            assert(r@[k3].1 == e);
                        } else {
                            assert(r@[k3 + 1].1 == e);
                        }
                    }
                }
            }
        } else {
            proof {
                assert(!ranked(ds[d as int]));
            }
        }
        d = d + 1;
    }
    r
}

/// A device to try opening: the system's default device (the sound
/// server's own), or one of the listed devices.
#[derive(Debug, Clone, Copy, PartialEq, Eq, Structural)]
pub enum Candidate {
    SystemDefault,
    Device(usize),
}

/// A name as text, empty when it cannot be read.
pub open spec fn name_or_empty(d: Option<Seq<char>>) -> Seq<char> {
    match d {
        Some(n) => n,
        None => Seq::empty(),
    }
}

/// The name a candidate reports.
pub open spec fn candidate_name(
    c: Candidate,
    ds: Seq<Option<Seq<char>>>,
    pw: Option<Seq<char>>,
) -> Option<Seq<char>> {
    match c {
        Candidate::SystemDefault => pw,
        Candidate::Device(i) => ds[i as int],
    }
}

/// Whether listed device `d` is the system default under another name: the
/// default's name is known and not empty, and equals the device's.
pub open spec fn same_as_default(ds: Seq<Option<Seq<char>>>, pw: Option<Seq<char>>, d: int) -> bool {
    name_or_empty(pw).len() > 0 && name_or_empty(ds[d]) == name_or_empty(pw)
}

/// The ranked devices, other than the system default, as candidates.
pub open spec fn ranked_after_default(
    ds: Seq<Option<Seq<char>>>,
    pw: Option<Seq<char>>,
    r: Seq<(u8, usize)>,
    n: int,
) -> Seq<Candidate>
    decreases n,
{
    if n <= 0 {
        Seq::empty()
    } else {
        let rest = ranked_after_default(ds, pw, r, n - 1);
        if same_as_default(ds, pw, r[n - 1].1 as int) {
            rest
        } else {
            rest.push(Candidate::Device(r[n - 1].1))
        }
    }
}

/// Whether some candidate of a list reports `name`.
pub open spec fn name_listed(
    l: Seq<Candidate>,
    ds: Seq<Option<Seq<char>>>,
    pw: Option<Seq<char>>,
    name: Seq<char>,
) -> bool {
    exists|j: int| 0 <= j < l.len() && candidate_name(#[trigger] l[j], ds, pw) == Some(name)
}

/// The list with the first `n` devices appended, in the order they were
/// listed, each unless it is the system default or a candidate already
/// listed reports its name.
pub open spec fn with_remaining(
    ds: Seq<Option<Seq<char>>>,
    pw: Option<Seq<char>>,
    l: Seq<Candidate>,
    n: int,
) -> Seq<Candidate>
    decreases n,
{
    if n <= 0 {
        l
    } else {
        let prev = with_remaining(ds, pw, l, n - 1);
        if same_as_default(ds, pw, n - 1) || name_listed(prev, ds, pw, name_or_empty(ds[n - 1])) {
            prev
        } else {
            prev.push(Candidate::Device((n - 1) as usize))
        }
    }
}

/// The order in which output devices are tried, given their ranking. When
/// the sound server offers a default device (`pw` holds its name, if
/// readable), it comes first, then the ranked devices, then every other
/// device not listed yet; otherwise the ranked devices, or all devices when
/// none is ranked.
pub open spec fn candidates_from(
    ds: Seq<Option<Seq<char>>>,
    pw: Option<Option<Seq<char>>>,
    r: Seq<(u8, usize)>,
) -> Seq<Candidate> {
    match pw {
        Some(p) => with_remaining(
            ds,
            p,
            seq![Candidate::SystemDefault] + ranked_after_default(ds, p, r, r.len() as int),
            ds.len() as int,
        ),
        None => if r.len() > 0 {
            Seq::new(r.len(), |k: int| Candidate::Device(r[k].1))
        } else {
            Seq::new(ds.len(), |k: int| Candidate::Device(k as usize))
        },
    }
}

fn opt_eq(a: &Option<String>, b: &String) -> (e: bool)
    ensures
        e == (desc_text(*a) == Some(b@)),
{
    match a {
        Some(x) => *x == *b,
        None => false,
    }
}

fn text_or_empty(d: &Option<String>) -> (t: String)
    ensures
        t@ == name_or_empty(desc_text(*d)),
{
    match d {
        Some(x) => x.clone(),
        None => String::new(),
    }
}

/// The order in which to try the output devices, with their ranking:
/// `descs` are the names the devices report (`None` when unreadable), and
/// `pipewire_default` is the sound server's default device, when there is
/// one, with its name.
pub fn output_candidates(descs: &[Option<String>], pipewire_default: Option<Option<String>>) -> (r: (
    Vec<(u8, usize)>,
    Vec<Candidate>,
))
    ensures
        ranking_of(desc_texts(descs@), r.0@),
        r.1@ == candidates_from(
            desc_texts(descs@),
            match pipewire_default {
                Some(p) => Some(desc_text(p)),
                None => None,
            },
            r.0@,
        ),
{
    let ghost ds = desc_texts(descs@);
    let ranking = rank_devices(descs);
    let mut out: Vec<Candidate> = Vec::new();
    match pipewire_default {
        None => {
            if ranking.len() > 0 {
                let mut k: usize = 0;
                while k < ranking.len()
                    invariant
                        k <= ranking@.len(),
                        out@ =~= Seq::new(k as nat, |m: int| Candidate::Device(ranking@[m].1)),
                    decreases ranking@.len() - k,
                {
                    out.push(Candidate::Device(ranking[k].1));
                    k = k + 1;
                }
            } else {
                let mut k: usize = 0;
                while k < descs.len()
                    invariant
                        k <= descs@.len(),
                        out@ =~= Seq::new(k as nat, |m: int| Candidate::Device(m as usize)),
                    decreases descs@.len() - k,
                {
                    out.push(Candidate::Device(k));
                    k = k + 1;
                }
            }
        },
        Some(pw) => {
            let ghost p = desc_text(pw);
            let pw_name = text_or_empty(&pw);
            let pw_named = pw_name.unicode_len() > 0;
            out.push(Candidate::SystemDefault);
            let mut k: usize = 0;
            while k < ranking.len()
                invariant
                    k <= ranking@.len(),
                    ds == desc_texts(descs@),
                    ranking_of(ds, ranking@),
                    pw_name@ == name_or_empty(p),
                    pw_named == (pw_name@.len() > 0),
                    out@ == seq![Candidate::SystemDefault] + ranked_after_default(ds, p, ranking@, k as int),
                    ds.len() == descs@.len(),
                    forall|j: int|
                        0 <= j < out@.len() ==> match #[trigger] out@[j] {
                            Candidate::SystemDefault => true,
                            Candidate::Device(i) => i < descs@.len(),
                        },
                decreases ranking@.len() - k,
            {
                let d = ranking[k].1;
                proof {
                    assert(ranking@[k as int].1 < ds.len());
                    assert(ds[d as int] == desc_text(descs@[d as int]));
                }
                let dn = text_or_empty(&descs[d]);
                if !(pw_named && dn == pw_name) {
                    out.push(Candidate::Device(d));
                }
                proof {
                    assert(out@ =~= seq![Candidate::SystemDefault] + ranked_after_default(
                        ds,
                        p,
                        ranking@,
                        k as int + 1,
                    ));
                }
                k = k + 1;
            }
            let ghost start = out@;
            let mut d: usize = 0;
            while d < descs.len()
                invariant
                    d <= descs@.len(),
                    ds == desc_texts(descs@),
                    pw_name@ == name_or_empty(p),
                    pw_named == (pw_name@.len() > 0),
                    p == desc_text(pw),
                    out@ == with_remaining(ds, p, start, d as int),
                    forall|j: int|
                        0 <= j < out@.len() ==> match #[trigger] out@[j] {
                            Candidate::SystemDefault => true,
                            Candidate::Device(i) => i < descs@.len(),
                        },
                decreases descs@.len() - d,
            {
                proof {
                    assert(ds[d as int] == desc_text(descs@[d as int]));
                }
                let dn = text_or_empty(&descs[d]);
                let skip_default = pw_named && dn == pw_name;
                let mut listed = false;
                let mut j: usize = 0;
                while j < out.len()
                    invariant
                        j <= out@.len(),
                        ds == desc_texts(descs@),
                        p == desc_text(pw),
                        forall|m: int|
                            0 <= m < out@.len() ==> match #[trigger] out@[m] {
                                Candidate::SystemDefault => true,
                                Candidate::Device(i) => i < descs@.len(),
                            },
                        listed == exists|m: int|
                            0 <= m < j && candidate_name(#[trigger] out@[m], ds, p) == Some(dn@),
                    decreases out@.len() - j,
                {
                    let hit = match out[j] {
                        Candidate::SystemDefault => opt_eq(&pw, &dn),
                        Candidate::Device(i) => {
                            proof {
                                assert(ds[i as int] == desc_text(descs@[i as int]));
                            }
                            opt_eq(&descs[i], &dn)
                        },
                    };
                    proof {
                        assert(hit == (candidate_name(out@[j as int], ds, p) == Some(dn@)));
                    }
                    listed = listed || hit;
                    j = j + 1;
                }
                if !(skip_default || listed) {
                    out.push(Candidate::Device(d));
                }
                proof {
                    assert(out@ =~= with_remaining(ds, p, start, d as int + 1));
                }
                d = d + 1;
            }
        },
    }
    (ranking, out)
}

/// With no default device from the sound server, the device tried first is
/// the best ranked one: no ranked device scores higher.
pub proof fn lemma_best_device_first(ds: Seq<Option<Seq<char>>>, r: Seq<(u8, usize)>)
    requires
        ranking_of(ds, r),
        r.len() > 0,
    ensures
        candidates_from(ds, None, r)[0] == Candidate::Device(r[0].1),
        forall|d: int|
            0 <= d < ds.len() && ranked(#[trigger] ds[d]) ==> listed_score(ds[d]) <= listed_score(
                ds[r[0].1 as int],
            ),
{
    assert forall|d: int| 0 <= d < ds.len() && ranked(#[trigger] ds[d]) implies listed_score(ds[d])
        <= listed_score(ds[r[0].1 as int]) by {
        let k = choose|k: int| 0 <= k < r.len() && (#[trigger] r[k]).1 == d;
        if k > 0 {
            assert(ranks_before(r[0], r[k]));
        }
    }
}

/// With no default device from the sound server and at least one device
/// ranked, null devices are never tried.
pub proof fn lemma_null_devices_not_tried(ds: Seq<Option<Seq<char>>>, r: Seq<(u8, usize)>)
    requires
        ranking_of(ds, r),
        r.len() > 0,
    ensures
        forall|k: int|
            0 <= k < candidates_from(ds, None, r).len() ==> match #[trigger] candidates_from(
                ds,
                None,
                r,
            )[k] {
                Candidate::Device(i) => i < ds.len() && ranked(ds[i as int]),
                Candidate::SystemDefault => false,
            },
{
    assert forall|k: int| 0 <= k < candidates_from(ds, None, r).len() implies match #[trigger] candidates_from(
        ds,
        None,
        r,
    )[k] {
        Candidate::Device(i) => i < ds.len() && ranked(ds[i as int]),
        Candidate::SystemDefault => false,
    } by {
        assert(candidates_from(ds, None, r)[k] == Candidate::Device(r[k].1));
        assert(r[k].1 < ds.len());
    }
}

/// The sample rate to open a device at: 48 kHz when its range allows it,
/// else its highest rate.
pub fn pick_sample_rate(min_rate: u32, max_rate: u32) -> (sr: u32)
    ensures
        sr == if min_rate <= 48000 && max_rate >= 48000 {
            48000
        } else {
            max_rate
        },
{
    if min_rate <= 48000 && max_rate >= 48000 {
        48000
    } else {
        max_rate
    }
}

/// The output configuration to open a device with, given each supported
/// configuration's channel count and whether its samples are `f32`: the
/// first stereo-or-wider `f32` one, else the first one (none when the
/// device supports none).
pub fn pick_config(configs: &[(u16, bool)]) -> (c: Option<usize>)
    ensures
        match c {
            Some(i) => i < configs@.len() && (
                (configs@[i as int].0 >= 2 && configs@[i as int].1 && forall|j: int|
                    0 <= j < i ==> !((#[trigger] configs@[j]).0 >= 2 && configs@[j].1))
                || (i == 0 && forall|j: int|
                    0 <= j < configs@.len() ==> !((#[trigger] configs@[j]).0 >= 2 && configs@[j].1))),
            None => configs@.len() == 0,
        },
{
    let mut i: usize = 0;
    while i < configs.len()
        invariant
            i <= configs@.len(),
            forall|j: int| 0 <= j < i ==> !((#[trigger] configs@[j]).0 >= 2 && configs@[j].1),
        decreases configs@.len() - i,
    {
        if configs[i].0 >= 2 && configs[i].1 {
            return Some(i);
        }
        i = i + 1;
    }
    if configs.len() > 0 {
        Some(0)
    } else {
        None
    }
}

/// Whether a device with score `s` may serve as the headphone (CUE) output
/// beside a main device with score `main_score`: it is usable and of
/// another kind than the main device.
pub open spec fn headphone_fits(s: u8, main_score: u8) -> bool {
    s > 0 && s != main_score
}

/// The headphone (CUE) output among the devices to try, given as
/// `(score, device)` pairs in the order they are tried: the position of the
/// first whose score is above zero and differs from the main device's
/// score, or `None` when there is none (the headphone then stays
/// unassigned).
pub fn pick_headphone(ranked: &[(u8, usize)], main_score: u8) -> (r: Option<usize>)
    ensures
        match r {
            Some(i) => i < ranked@.len() && headphone_fits(ranked@[i as int].0, main_score)
                && forall|j: int| 0 <= j < i ==> !headphone_fits(#[trigger] ranked@[j].0, main_score),
            None => forall|j: int|
                0 <= j < ranked@.len() ==> !headphone_fits(#[trigger] ranked@[j].0, main_score),
        },
{
    let mut i: usize = 0;
    while i < ranked.len()
        invariant
            i <= ranked@.len(),
            forall|j: int| 0 <= j < i ==> !headphone_fits(#[trigger] ranked@[j].0, main_score),
        decreases ranked@.len() - i,
    {
        let s = ranked[i].0;
        if s > 0 && s != main_score {
            return Some(i);
        }
        i = i + 1;
    }
    None
}

} // verus!
