//! Track metadata that an audio route publishes as a JSON object beside its
//! pipe: which fields name the track, the label shown for a route deck, and
//! the signature that tells when the track changed.
use vstd::prelude::*;
use std::hash::{Hash, Hasher};
use crate::text::{parse_i64, parsed_i64, push_str, trim_text, trimmed};

verus! {

/// What the logic reads of one entry of a JSON object: its key, the value's
/// text when it is a string, and the value as `i64` and as `u64` when it is
/// an integer that fits.
pub struct MetaField {
    pub key: String,
    pub text: Option<String>,
    pub signed: Option<i64>,
    pub unsigned: Option<u64>,
}

/// A field as plain values: key, text, `i64`, `u64`.
pub type FieldView = (Seq<char>, Option<Seq<char>>, Option<i64>, Option<u64>);

/// The text of an optional string.
pub open spec fn opt_text(o: Option<String>) -> Option<Seq<char>> {
    match o {
        Some(s) => Some(s@),
        None => None,
    }
}

/// A field as plain values.
pub open spec fn field_view(f: MetaField) -> FieldView {
    (f.key@, opt_text(f.text), f.signed, f.unsigned)
}

/// Fields as plain values.
pub open spec fn fields_view(v: Seq<MetaField>) -> Seq<FieldView> {
    v.map_values(|f: MetaField| field_view(f))
}

/// The entries of the JSON object that a text holds, in the order in which
/// `serde_json` walks its map (`None` when the text is not JSON, or is JSON
/// but not an object).
pub uninterp spec fn json_object_fields(raw: Seq<char>) -> Option<Seq<FieldView>>;

/// The six identifying fields of a track hashed in order by a fresh
/// `DefaultHasher` (a value fixed for one build of the program).
pub uninterp spec fn track_hash(
    path: Option<Seq<char>>,
    title: Option<Seq<char>>,
    artist: Option<Seq<char>>,
    album: Option<Seq<char>>,
    pos: Option<i64>,
    count: Option<i64>,
) -> u64;

/// `serde_json::from_str::<Value>` followed by `Value::as_object`, each
/// entry read with `Value::as_str`, `Value::as_i64` and `Value::as_u64`.
/// The result is named by `json_object_fields`; parsing depends on the text
/// alone.
#[verifier::external_body]
fn parse_meta_object(raw: &str) -> (r: Option<Vec<MetaField>>)
    ensures
        match r {
            Some(v) => json_object_fields(raw@) == Some(fields_view(v@)),
            None => json_object_fields(raw@) is None,
        },
{
    let value: serde_json::Value = serde_json::from_str(raw).ok()?;
    let obj = value.as_object()?;
    Some(obj.iter().map(|(k, v)| MetaField {
        key: k.clone(),
        text: v.as_str().map(|s| s.to_string()),
        signed: v.as_i64(),
        unsigned: v.as_u64(),
    }).collect())
}

/// `Hash::hash` of the tuple of the six fields into a fresh `DefaultHasher`,
/// then `Hasher::finish`. Every `DefaultHasher::new()` starts from the same
/// state, so the result is a function of the fields, named by `track_hash`.
/// The integers (the string lengths among them) are hashed in the machine's
/// native byte order and width, so the value is fixed within one build but
/// may differ between machines of another pointer width or byte order; the
/// hash serves only to notice a change of track within one run.
#[verifier::external_body]
fn hash_track(
    path: &Option<String>,
    title: &Option<String>,
    artist: &Option<String>,
    album: &Option<String>,
    pos: Option<i64>,
    count: Option<i64>,
) -> (h: u64)
    ensures
        h == track_hash(opt_text(*path), opt_text(*title), opt_text(*artist), opt_text(*album), pos, count),
{
    let mut hasher = std::collections::hash_map::DefaultHasher::new();
    (path, title, artist, album, pos, count).hash(&mut hasher);
    hasher.finish()
}

/// The first field with a key, as a lookup in the object finds it.
pub open spec fn field_for(fields: Seq<FieldView>, key: Seq<char>) -> Option<FieldView>
    decreases fields.len(),
{
    if fields.len() == 0 {
        None
    } else if fields[0].0 == key {
        Some(fields[0])
    } else {
        field_for(fields.drop_first(), key)
    }
}

fn find_field<'a>(fields: &'a Vec<MetaField>, key: &str) -> (r: Option<&'a MetaField>)
    ensures
        match r {
            Some(f) => field_for(fields_view(fields@), key@) == Some(field_view(*f)),
            None => field_for(fields_view(fields@), key@) is None,
        },
{
    let ghost all = fields_view(fields@);
    let wanted = key.to_owned();
    let mut i: usize = 0;
    proof {
        assert(all.skip(0) =~= all);
    }
    while i < fields.len()
        invariant
            i <= fields.len(),
            all == fields_view(fields@),
            wanted@ == key@,
            field_for(all, key@) == field_for(all.skip(i as int), key@),
        decreases fields.len() - i,
    {
        proof {
            assert(all.skip(i as int).drop_first() =~= all.skip(i as int + 1));
            assert(all.skip(i as int)[0] == field_view(fields@[i as int]));
        }
        if fields[i].key == wanted {
            return Some(&fields[i]);
        }
        i = i + 1;
    }
    proof {
        assert(all.skip(i as int).len() == 0);
    }
    None
}

/// The texts of a list of keys.
pub open spec fn key_texts(keys: Seq<&str>) -> Seq<Seq<char>> {
    keys.map_values(|k: &str| k@)
}

/// The text of the first key, in the order given, whose field holds text.
pub open spec fn first_text(fields: Seq<FieldView>, keys: Seq<Seq<char>>) -> Option<Seq<char>>
    decreases keys.len(),
{
    if keys.len() == 0 {
        None
    } else {
        let f = field_for(fields, keys[0]);
        if f is Some && f.unwrap().1 is Some {
            f.unwrap().1
        } else {
            first_text(fields, keys.drop_first())
        }
    }
}

/// The text that names a property: the first text found under the keys,
/// trimmed, and nothing when that text is blank.
pub open spec fn picked_text(fields: Seq<FieldView>, keys: Seq<Seq<char>>) -> Option<Seq<char>> {
    match first_text(fields, keys) {
        Some(t) => if trimmed(t).len() > 0 {
            Some(trimmed(t))
        } else {
            None
        },
        None => None,
    }
}

/// The integer a field holds: its `i64` value, else its `u64` value taken
/// as `i64`, else its text trimmed and read as an integer.
pub open spec fn int_of(f: FieldView) -> Option<i64> {
    if f.2 is Some {
        f.2
    } else if f.3 is Some {
        Some(f.3.unwrap() as i64)
    } else if f.1 is Some {
        parsed_i64(trimmed(f.1.unwrap()))
    } else {
        None
    }
}

/// The integer of the first key, in the order given, whose field holds one.
pub open spec fn picked_int(fields: Seq<FieldView>, keys: Seq<Seq<char>>) -> Option<i64>
    decreases keys.len(),
{
    if keys.len() == 0 {
        None
    } else {
        let f = field_for(fields, keys[0]);
        if f is Some && int_of(f.unwrap()) is Some {
            int_of(f.unwrap())
        } else {
            picked_int(fields, keys.drop_first())
        }
    }
}

/// The text that names a property, looked up under each key in turn.
fn pick_text(fields: &Vec<MetaField>, keys: &[&str]) -> (r: Option<String>)
    ensures
        opt_text(r) == picked_text(fields_view(fields@), key_texts(keys@)),
{
    let ghost fv = fields_view(fields@);
    let ghost ks = key_texts(keys@);
    let mut i: usize = 0;
    proof {
        assert(ks.skip(0) =~= ks);
    }
    while i < keys.len()
        invariant
            i <= keys.len(),
            fv == fields_view(fields@),
            ks == key_texts(keys@),
            first_text(fv, ks) == first_text(fv, ks.skip(i as int)),
        decreases keys.len() - i,
    {
        proof {
            assert(ks.skip(i as int).drop_first() =~= ks.skip(i as int + 1));
            assert(ks.skip(i as int)[0] == keys@[i as int]@);
        }
        match find_field(fields, keys[i]) {
            Some(f) => {
                match &f.text {
                    Some(t) => {
                        let s = trim_text(t.as_str());
                        if s.as_str().unicode_len() > 0 {
                            return Some(s);
                        } else {
                            return None;
                        }
                    },
                    None => {},
                }
            },
            None => {},
        }
        i = i + 1;
    }
    proof {
        assert(ks.skip(i as int).len() == 0);
    }
    None
}

/// The integer that names a property, looked up under each key in turn.
fn pick_int(fields: &Vec<MetaField>, keys: &[&str]) -> (r: Option<i64>)
    ensures
        r == picked_int(fields_view(fields@), key_texts(keys@)),
{
    let ghost fv = fields_view(fields@);
    let ghost ks = key_texts(keys@);
    let mut i: usize = 0;
    proof {
        assert(ks.skip(0) =~= ks);
    }
    while i < keys.len()
        invariant
            i <= keys.len(),
            fv == fields_view(fields@),
            ks == key_texts(keys@),
            picked_int(fv, ks) == picked_int(fv, ks.skip(i as int)),
        decreases keys.len() - i,
    {
        proof {
            assert(ks.skip(i as int).drop_first() =~= ks.skip(i as int + 1));
            assert(ks.skip(i as int)[0] == keys@[i as int]@);
        }
        match find_field(fields, keys[i]) {
            Some(f) => {
                let n = field_int(f);
                if n.is_some() {
                    return n;
                }
            },
            None => {},
        }
        i = i + 1;
    }
    proof {
        assert(ks.skip(i as int).len() == 0);
    }
    None
}

fn field_int(f: &MetaField) -> (r: Option<i64>)
    ensures
        r == int_of(field_view(*f)),
{
    match f.signed {
        Some(n) => Some(n),
        None => match f.unsigned {
            Some(u) => Some(u as i64),
            None => match &f.text {
                Some(t) => parse_i64(trim_text(t.as_str()).as_str()),
                None => None,
            },
        },
    }
}

/// Keys under which a track's path is published, in the order tried.
pub open spec fn path_keys() -> Seq<Seq<char>> {
    seq!["path"@, "filename"@, "file"@, "file_path"@, "url"@]
}

/// Keys under which a track's title is published, in the order tried.
pub open spec fn title_keys() -> Seq<Seq<char>> {
    seq!["title"@, "media_title"@, "TITLE"@]
}

/// Keys under which a track's artist is published, in the order tried.
pub open spec fn artist_keys() -> Seq<Seq<char>> {
    seq!["artist"@, "ARTIST"@]
}

/// Keys under which a track's album is published, in the order tried.
pub open spec fn album_keys() -> Seq<Seq<char>> {
    seq!["album"@, "ALBUM"@]
}

/// Keys under which the playlist position is published, in the order tried.
pub open spec fn pos_keys() -> Seq<Seq<char>> {
    seq!["playlist_pos"@, "playlist-pos"@]
}

/// Keys under which the playlist length is published, in the order tried.
pub open spec fn count_keys() -> Seq<Seq<char>> {
    seq!["playlist_count"@, "playlist-count"@]
}

/// The deck label made of a title, an artist and an album:
/// `title - artist [album]`, leaving out what is missing.
pub open spec fn label_of(
    title: Option<Seq<char>>,
    artist: Option<Seq<char>>,
    album: Option<Seq<char>>,
) -> Option<Seq<char>> {
    match (title, artist, album) {
        (Some(t), Some(a), Some(al)) => Some(t + " - "@ + a + " ["@ + al + "]"@),
        (Some(t), Some(a), None) => Some(t + " - "@ + a),
        (Some(t), None, Some(al)) => Some(t + " ["@ + al + "]"@),
        (Some(t), None, None) => Some(t),
        (None, Some(a), Some(al)) => Some(a + " ["@ + al + "]"@),
        (None, Some(a), None) => Some(a),
        (None, None, Some(al)) => Some(al),
        (None, None, None) => None,
    }
}

/// The deck label that a metadata object gives.
pub open spec fn meta_label_of(fields: Seq<FieldView>) -> Option<Seq<char>> {
    label_of(
        picked_text(fields, title_keys()),
        picked_text(fields, artist_keys()),
        picked_text(fields, album_keys()),
    )
}

/// The signature of the track a metadata object describes: 0 when it names
/// nothing of the track, else the hash of what it names.
pub open spec fn signature_of(fields: Seq<FieldView>) -> u64 {
    let path = picked_text(fields, path_keys());
    let title = picked_text(fields, title_keys());
    let artist = picked_text(fields, artist_keys());
    let album = picked_text(fields, album_keys());
    let pos = picked_int(fields, pos_keys());
    let count = picked_int(fields, count_keys());
    if path is None && title is None && artist is None && album is None && pos is None
        && count is None {
        0
    } else {
        track_hash(path, title, artist, album, pos, count)
    }
}

/// Appends ` [album]`.
fn push_album(s: &mut String, album: &String)
    ensures
        final(s)@ == old(s)@ + " ["@ + album@ + "]"@,
{
    push_str(s, " [");
    push_str(s, album.as_str());
    push_str(s, "]");
}

/// The label shown for a route deck, made of the title, artist and album
/// that its metadata names.
pub fn meta_label(fields: &Vec<MetaField>) -> (r: Option<String>)
    ensures
        opt_text(r) == meta_label_of(fields_view(fields@)),
{
    let tk: [&str; 3] = ["title", "media_title", "TITLE"];
    let ak: [&str; 2] = ["artist", "ARTIST"];
    let lk: [&str; 2] = ["album", "ALBUM"];
    proof {
        assert(key_texts(tk@) =~= title_keys());
        assert(key_texts(ak@) =~= artist_keys());
        assert(key_texts(lk@) =~= album_keys());
    }
    let title = pick_text(fields, &tk);
    let artist = pick_text(fields, &ak);
    let album = pick_text(fields, &lk);
    match (title, artist, album) {
        (Some(t), Some(a), Some(al)) => {
            let mut s = t;
            push_str(&mut s, " - ");
            push_str(&mut s, a.as_str());
            push_album(&mut s, &al);
            Some(s)
        },
        (Some(t), Some(a), None) => {
            let mut s = t;
            push_str(&mut s, " - ");
            push_str(&mut s, a.as_str());
            Some(s)
        },
        (Some(t), None, Some(al)) => {
            let mut s = t;
            push_album(&mut s, &al);
            Some(s)
        },
        (Some(t), None, None) => Some(t),
        (None, Some(a), Some(al)) => {
            let mut s = a;
            push_album(&mut s, &al);
            Some(s)
        },
        (None, Some(a), None) => Some(a),
        (None, None, Some(al)) => Some(al),
        (None, None, None) => None,
    }
}

/// The label a route's metadata text gives: `None` when the text is not a
/// JSON object or names no title, artist or album.
pub fn route_meta_label(raw: &str) -> (r: Option<String>)
    ensures
        match json_object_fields(raw@) {
            Some(fields) => opt_text(r) == meta_label_of(fields),
            None => r is None,
        },
{
    match parse_meta_object(raw) {
        Some(fields) => meta_label(&fields),
        None => None,
    }
}

/// The signature of the track a metadata object describes, used to notice
/// that a route moved on to another track.
pub fn route_track_signature(fields: &Vec<MetaField>) -> (sig: u64)
    ensures
        sig == signature_of(fields_view(fields@)),
{
    let pk: [&str; 5] = ["path", "filename", "file", "file_path", "url"];
    let tk: [&str; 3] = ["title", "media_title", "TITLE"];
    let ak: [&str; 2] = ["artist", "ARTIST"];
    let lk: [&str; 2] = ["album", "ALBUM"];
    let ok: [&str; 2] = ["playlist_pos", "playlist-pos"];
    let ck: [&str; 2] = ["playlist_count", "playlist-count"];
    proof {
        assert(key_texts(pk@) =~= path_keys());
        assert(key_texts(tk@) =~= title_keys());
        assert(key_texts(ak@) =~= artist_keys());
        assert(key_texts(lk@) =~= album_keys());
        assert(key_texts(ok@) =~= pos_keys());
        assert(key_texts(ck@) =~= count_keys());
    }
    let path = pick_text(fields, &pk);
    let title = pick_text(fields, &tk);
    let artist = pick_text(fields, &ak);
    let album = pick_text(fields, &lk);
    let pos = pick_int(fields, &ok);
    let count = pick_int(fields, &ck);
    if path.is_none() && title.is_none() && artist.is_none() && album.is_none() && pos.is_none()
        && count.is_none() {
        return 0;
    }
    hash_track(&path, &title, &artist, &album, pos, count)
}

/// The signature of the track that a route's metadata text describes
/// (`None` when the text is not a JSON object).
pub fn route_text_signature(raw: &str) -> (r: Option<u64>)
    ensures
        match json_object_fields(raw@) {
            Some(fields) => r == Some(signature_of(fields)),
            None => r is None,
        },
{
    match parse_meta_object(raw) {
        Some(fields) => Some(route_track_signature(&fields)),
        None => None,
    }
}

/// Records a route's latest track signature and tells whether the track
/// changed: a signature of 0 names nothing and is ignored, and the first
/// signature seen is no change.
pub fn note_track_signature(last: &mut u64, sig: u64) -> (changed: bool)
    ensures
        changed == (sig != 0 && *old(last) != 0 && *old(last) != sig),
        *final(last) == if sig != 0 {
            sig
        } else {
            *old(last)
        },
{
    if sig == 0 {
        return false;
    }
    let changed = *last != 0 && *last != sig;
    *last = sig;
    changed
}

} // verus!
