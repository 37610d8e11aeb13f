//! Choice of the audio backend.
use vstd::prelude::*;
use crate::text::{chars_of, push_char};

verus! {

#[derive(Debug, Clone, Copy, PartialEq, Eq, Structural)]
pub enum AudioBackendKind {
    Cpal,
    CpalJack,
    CoreAudio,
    Jack,
}

/// The ASCII lowercase of a character: `A`..`Z` map to `a`..`z`, every
/// other character is unchanged.
pub open spec fn ascii_lower(c: char) -> char {
    if 'A' <= c <= 'Z' {
        ((c as u32) + 32) as char
    } else {
        c
    }
}

/// A text with each ASCII uppercase letter replaced by its lowercase and
/// every other character kept, as `str::to_ascii_lowercase` gives it.
fn to_ascii_lowercase(s: &str) -> (r: String)
    ensures
        r@ == s@.map_values(|c: char| ascii_lower(c)),
{
    let cs = chars_of(s);
    let mut r = String::new();
    let mut i: usize = 0;
    while i < cs.len()
        invariant
            cs@ == s@,
            i <= cs@.len(),
            r@ == s@.take(i as int).map_values(|c: char| ascii_lower(c)),
        decreases cs@.len() - i,
    {
        let c = cs[i];
        let lower = if 'A' <= c && c <= 'Z' {
            ((c as u8) + 32) as char
        } else {
            c
        };
        assert(lower == ascii_lower(c)) by {
            if 'A' <= c && c <= 'Z' {
                assert(((c as u8) + 32) as char == ((c as u32) + 32) as char);
            }
        }
        push_char(&mut r, lower);
        assert(s@.take(i + 1).map_values(|c: char| ascii_lower(c)) =~= s@.take(i as int).map_values(
            |c: char| ascii_lower(c),
        ).push(ascii_lower(c)));
        i = i + 1;
    }
    assert(s@.take(cs@.len() as int) =~= s@);
    r
}

/// The backends compiled in: cpal always, CoreAudio on macOS, JACK when the
/// JACK backend is built.
pub open spec fn backends_for(macos: bool, jack: bool) -> Seq<AudioBackendKind> {
    seq![AudioBackendKind::Cpal] + (if macos {
        seq![AudioBackendKind::CoreAudio]
    } else {
        Seq::empty()
    }) + (if jack {
        seq![AudioBackendKind::Jack]
    } else {
        Seq::empty()
    })
}

/// The backend a lowercase name stands for.
pub open spec fn backend_named(name: Seq<char>) -> Option<AudioBackendKind> {
    if name == "cpal"@ {
        Some(AudioBackendKind::Cpal)
    } else if name == "cpal-jack"@ {
        Some(AudioBackendKind::CpalJack)
    } else if name == "coreaudio"@ {
        Some(AudioBackendKind::CoreAudio)
    } else if name == "jack"@ {
        Some(AudioBackendKind::Jack)
    } else {
        None
    }
}

/// The backend to use: the requested one (case-insensitive) when it names
/// an available backend, cpal otherwise.
pub open spec fn chosen_backend(
    requested: Option<Seq<char>>,
    available: Seq<AudioBackendKind>,
) -> AudioBackendKind {
    match requested {
        Some(r) => match backend_named(r.map_values(|c: char| ascii_lower(c))) {
            Some(k) => if available.contains(k) {
                k
            } else {
                AudioBackendKind::Cpal
            },
            None => AudioBackendKind::Cpal,
        },
        None => AudioBackendKind::Cpal,
    }
}

/// The backends available in this build, given the build's target and
/// features.
pub fn available_backends(macos: bool, jack: bool) -> (out: Vec<AudioBackendKind>)
    ensures
        out@ == backends_for(macos, jack),
{
    let mut out = vec![AudioBackendKind::Cpal];
    if macos {
        out.push(AudioBackendKind::CoreAudio);
    }
    if jack {
        out.push(AudioBackendKind::Jack);
    }
    assert(out@ =~= backends_for(macos, jack));
    out
}

/// The backend to use, from the requested name (if any) and the available
/// backends.
pub fn default_backend(requested: Option<String>, available: &[AudioBackendKind]) -> (k: AudioBackendKind)
    ensures
        k == chosen_backend(
            match requested {
                Some(r) => Some(r@),
                None => None,
            },
            available@,
        ),
{
    let r = match requested {
        Some(r) => r,
        None => return AudioBackendKind::Cpal,
    };
    let lower = to_ascii_lowercase(r.as_str());
    let kind = if lower == "cpal".to_owned() {
        AudioBackendKind::Cpal
    } else if lower == "cpal-jack".to_owned() {
        AudioBackendKind::CpalJack
    } else if lower == "coreaudio".to_owned() {
        AudioBackendKind::CoreAudio
    } else if lower == "jack".to_owned() {
        AudioBackendKind::Jack
    } else {
        return AudioBackendKind::Cpal;
    };
    let ghost req = r@;
    let mut i: usize = 0;
    while i < available.len()
        invariant
            i <= available@.len(),
            backend_named(req.map_values(|c: char| ascii_lower(c))) == Some(kind),
            requested matches Some(q) && q@ == req,
            forall|j: int| 0 <= j < i ==> available@[j] != kind,
        decreases available@.len() - i,
    {
        if available[i] == kind {
            proof {
                assert(available@[i as int] == kind);
                assert(available@.contains(kind));
            }
            return kind;
        }
        i = i + 1;
    }
    AudioBackendKind::Cpal
}

/// The name of a backend.
pub fn backend_label(backend: AudioBackendKind) -> (s: &'static str)
    ensures
        backend_named(s@) == Some(backend),
{
    proof {
        reveal_strlit("cpal");
        reveal_strlit("cpal-jack");
        reveal_strlit("coreaudio");
        reveal_strlit("jack");
        assert("jack"@[0] != "cpal"@[0]);
        assert("cpal-jack"@.len() != "cpal"@.len());
        assert("coreaudio"@.len() != "cpal"@.len());
        assert("coreaudio"@[1] != "cpal-jack"@[1]);
        assert("jack"@.len() != "cpal-jack"@.len());
        assert("jack"@.len() != "coreaudio"@.len());
    }
    match backend {
        AudioBackendKind::Cpal => "cpal",
        AudioBackendKind::CpalJack => "cpal-jack",
        AudioBackendKind::CoreAudio => "coreaudio",
        AudioBackendKind::Jack => "jack",
    }
}

/// Asking for a backend by its own label selects it whenever it is
/// available.
pub proof fn lemma_label_selects_backend(k: AudioBackendKind, available: Seq<AudioBackendKind>)
    requires
        available.contains(k),
    ensures
        forall|s: Seq<char>| backend_named(s) == Some(k) ==> chosen_backend(Some(s), available) == k,
{
    reveal_strlit("cpal");
    reveal_strlit("cpal-jack");
    reveal_strlit("coreaudio");
    reveal_strlit("jack");
    assert forall|s: Seq<char>| backend_named(s) == Some(k) implies chosen_backend(
        Some(s),
        available,
    ) == k by {
        assert(s.map_values(|c: char| ascii_lower(c)) =~= s);
    }
}

} // verus!
