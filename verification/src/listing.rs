//! Directory listings for the file browsers: which entries are shown, and in
//! which order (a link to the parent first, then folders, then audio files,
//! each group sorted by name without regard to case).
use vstd::prelude::*;
use vstd::utf8::encode_utf8;
use crate::picker::{PickerView, SourcePickerItem, SourcePickerState};
use crate::picker_keys::below_root;
use crate::text::{lowercase, parent_dir, parent_of, push_char, to_lowercase};

verus! {

/// A directory entry as read from the disk.
pub struct DirEntryInfo {
    /// The entry's file name.
    pub name: String,
    /// The entry's full path.
    pub path: String,
    pub is_dir: bool,
    pub is_file: bool,
    /// The file name's extension, if it has one.
    pub extension: Option<String>,
}

/// A list item, as mathematical values.
pub struct ItemView {
    pub name: Seq<char>,
    pub path: Seq<char>,
    pub is_socket: bool,
    pub is_pcm_fifo: bool,
    pub is_udp: bool,
    pub is_dir: bool,
    pub camelot_key: Option<Seq<char>>,
}

/// The meaning of a list item.
pub open spec fn item_view(i: SourcePickerItem) -> ItemView {
    ItemView {
        name: i.name@,
        path: i.path@,
        is_socket: i.is_socket,
        is_pcm_fifo: i.is_pcm_fifo,
        is_udp: i.is_udp,
        is_dir: i.is_dir,
        camelot_key: match i.camelot_key {
            Some(k) => Some(k@),
            None => None,
        },
    }
}

/// The meanings of list items, in order.
pub open spec fn item_views(items: Seq<SourcePickerItem>) -> Seq<ItemView> {
    items.map_values(|i: SourcePickerItem| item_view(i))
}

/// Byte strings in lexicographic order: a proper prefix comes first,
/// otherwise the first differing byte decides.
pub open spec fn lex_le(a: Seq<u8>, b: Seq<u8>) -> bool
    decreases a.len(),
{
    if a.len() == 0 {
        true
    } else if b.len() == 0 {
        false
    } else if a[0] != b[0] {
        a[0] < b[0]
    } else {
        lex_le(a.drop_first(), b.drop_first())
    }
}

/// Any two byte strings are ordered one way or the other.
pub proof fn lemma_lex_total(a: Seq<u8>, b: Seq<u8>)
    ensures
        lex_le(a, b) || lex_le(b, a),
    decreases a.len(),
{
    if a.len() > 0 && b.len() > 0 && a[0] == b[0] {
        lemma_lex_total(a.drop_first(), b.drop_first());
    }
}

/// The order is transitive.
pub proof fn lemma_lex_transitive(a: Seq<u8>, b: Seq<u8>, c: Seq<u8>)
    requires
        lex_le(a, b),
        lex_le(b, c),
    ensures
        lex_le(a, c),
    decreases a.len(),
{
    if a.len() > 0 && b.len() > 0 && c.len() > 0 && a[0] == b[0] && b[0] == c[0] {
        lemma_lex_transitive(a.drop_first(), b.drop_first(), c.drop_first());
    }
}

/// The order in which entries are listed: by lowercase name, compared as
/// UTF-8 bytes.
pub open spec fn key_of(v: ItemView) -> Seq<u8> {
    encode_utf8(lowercase(v.name))
}

/// `a` may be listed before `b`.
pub open spec fn listed_before(a: ItemView, b: ItemView) -> bool {
    lex_le(key_of(a), key_of(b))
}

/// Items in listing order.
pub open spec fn in_listing_order(s: Seq<ItemView>) -> bool {
    forall|i: int, j: int| 0 <= i < j < s.len() ==> listed_before(#[trigger] s[i], #[trigger] s[j])
}

/// Extensions of the audio files that are listed.
pub open spec fn audio_extensions() -> Seq<Seq<char>> {
    seq!["mp3"@, "wav"@, "flac"@, "ogg"@, "m4a"@, "aac"@, "opus"@, "aiff"@, "aif"@]
}

/// Hidden entries start with a dot.
pub open spec fn hidden(name: Seq<char>) -> bool {
    name.len() > 0 && name[0] == '.'
}

/// The entry is a folder that is listed.
pub open spec fn listed_dir(e: DirEntryInfo) -> bool {
    !hidden(e.name@) && e.is_dir
}

/// The entry is an audio file that is listed (its extension matches one of
/// the audio extensions without regard to case).
pub open spec fn listed_file(e: DirEntryInfo) -> bool {
    &&& !hidden(e.name@)
    &&& !e.is_dir
    &&& e.is_file
    &&& match e.extension {
        Some(x) => audio_extensions().contains(lowercase(x@)),
        None => false,
    }
}

/// The item a folder is listed as: its name with a slash.
pub open spec fn dir_item(e: DirEntryInfo) -> ItemView {
    ItemView {
        name: e.name@.push('/'),
        path: e.path@,
        is_socket: false,
        is_pcm_fifo: false,
        is_udp: false,
        is_dir: true,
        camelot_key: None,
    }
}

/// The item an audio file is listed as.
pub open spec fn file_item(e: DirEntryInfo) -> ItemView {
    ItemView {
        name: e.name@,
        path: e.path@,
        is_socket: false,
        is_pcm_fifo: false,
        is_udp: false,
        is_dir: false,
        camelot_key: None,
    }
}

/// The folders among the entries, as items, in reading order.
pub open spec fn listed_dirs(es: Seq<DirEntryInfo>) -> Seq<ItemView>
    decreases es.len(),
{
    if es.len() == 0 {
        Seq::empty()
    } else if listed_dir(es.last()) {
        listed_dirs(es.drop_last()).push(dir_item(es.last()))
    } else {
        listed_dirs(es.drop_last())
    }
}

/// The audio files among the entries, as items, in reading order.
pub open spec fn listed_files(es: Seq<DirEntryInfo>) -> Seq<ItemView>
    decreases es.len(),
{
    if es.len() == 0 {
        Seq::empty()
    } else if listed_file(es.last()) {
        listed_files(es.drop_last()).push(file_item(es.last()))
    } else {
        listed_files(es.drop_last())
    }
}

/// `s` lists exactly the items of `group`, in listing order.
pub open spec fn sorted_group(s: Seq<ItemView>, group: Seq<ItemView>) -> bool {
    s.to_multiset() == group.to_multiset() && in_listing_order(s)
}

/// Whether `a` comes no later than `b`, comparing bytes.
fn bytes_le(a: &[u8], b: &[u8]) -> (r: bool)
    ensures
        r == lex_le(a@, b@),
{
    let mut i: usize = 0;
    proof {
        assert(a@.skip(0) =~= a@);
        assert(b@.skip(0) =~= b@);
    }
    while i < a.len() && i < b.len()
        invariant
            i <= a@.len(),
            i <= b@.len(),
            lex_le(a@, b@) == lex_le(a@.skip(i as int), b@.skip(i as int)),
        decreases a@.len() - i,
    {
        if a[i] != b[i] {
            return a[i] < b[i];
        }
        proof {
            assert(a@.skip(i as int).drop_first() =~= a@.skip(i as int + 1));
            assert(b@.skip(i as int).drop_first() =~= b@.skip(i as int + 1));
        }
        i = i + 1;
    }
    i == a.len()
}


/// Whether a name starts with a dot.
fn starts_with_dot(name: &String) -> (r: bool)
    ensures
        r == hidden(name@),
{
    let mut chars = name.as_str().chars();
    match chars.next() {
        Some(c) => c == '.',
        None => false,
    }
}

/// The sort key of every item is kept beside it: its lowercase name.
pub open spec fn keys_match(out: Seq<SourcePickerItem>, keys: Seq<String>) -> bool {
    &&& keys.len() == out.len()
    &&& forall|i: int| 0 <= i < out.len() ==> (#[trigger] keys[i])@ == lowercase(out[i].name@)
}

/// Insert `item` (whose lowercase name is `key`) into a listing kept in
/// listing order, after every item that may come before it.
fn insert_sorted(out: &mut Vec<SourcePickerItem>, keys: &mut Vec<String>, item: SourcePickerItem, key: String)
    requires
        keys_match(old(out)@, old(keys)@),
        key@ == lowercase(item.name@),
        in_listing_order(item_views(old(out)@)),
    ensures
        keys_match(final(out)@, final(keys)@),
        in_listing_order(item_views(final(out)@)),
        item_views(final(out)@).to_multiset() == item_views(old(out)@).to_multiset().insert(
            item_view(item),
        ),
{
    let ghost v = item_views(out@);
    let ghost iv = item_view(item);
    let mut p: usize = 0;
    while p < out.len()
        invariant
            p <= out@.len(),
            keys_match(out@, keys@),
            out@ == old(out)@,
            keys@ == old(keys)@,
            key@ == lowercase(item.name@),
            v == item_views(out@),
            iv == item_view(item),
            forall|q: int| 0 <= q < p ==> listed_before(#[trigger] v[q], iv),
        ensures
            p <= out@.len(),
            out@ == old(out)@,
            keys@ == old(keys)@,
            forall|q: int| 0 <= q < p ==> listed_before(#[trigger] v[q], iv),
            p < out@.len() ==> !listed_before(v[p as int], iv),
        decreases out@.len() - p,
    {
        if !bytes_le(keys[p].as_str().as_bytes(), key.as_str().as_bytes()) {
            break;
        }
        p = p + 1;
    }
    out.insert(p, item);
    keys.insert(p, key);
    proof {
        let w = item_views(out@);
        assert(w =~= v.insert(p as int, iv));
        vstd::seq_lib::to_multiset_insert(v, p as int, iv);
        if p < v.len() {
            lemma_lex_total(key_of(iv), key_of(v[p as int]));
        }
        assert forall|i: int, j: int| 0 <= i < j < w.len() implies listed_before(
            #[trigger] w[i],
            #[trigger] w[j],
        ) by {
            if j < p {
            } else if i < p && j == p {
            } else if i < p {
                assert(listed_before(v[i], v[j - 1]));
            } else if i == p {
                if j - 1 > p {
                    assert(listed_before(v[p as int], v[j - 1]));
                    lemma_lex_transitive(key_of(iv), key_of(v[p as int]), key_of(v[j - 1]));
                }
            } else {
                assert(listed_before(v[i - 1], v[j - 1]));
            }
        }
        assert forall|i: int| 0 <= i < out@.len() implies (#[trigger] keys@[i])@ == lowercase(
            out@[i].name@,
        ) by {
            if i < p {
            } else if i > p {
                assert(keys@[i] == old(keys)@[i - 1]);
            }
        }
    }
}


/// Whether a lowercase extension is one of the audio extensions.
fn is_audio_extension(x: &String) -> (r: bool)
    ensures
        r == audio_extensions().contains(x@),
{
    proof {
        reveal_strlit("mp3");
        reveal_strlit("wav");
        reveal_strlit("flac");
        reveal_strlit("ogg");
        reveal_strlit("m4a");
        reveal_strlit("aac");
        reveal_strlit("opus");
        reveal_strlit("aiff");
        reveal_strlit("aif");
    }
    let r = *x == "mp3".to_owned() || *x == "wav".to_owned() || *x == "flac".to_owned() || *x
        == "ogg".to_owned() || *x == "m4a".to_owned() || *x == "aac".to_owned() || *x
        == "opus".to_owned() || *x == "aiff".to_owned() || *x == "aif".to_owned();
    proof {
        let exts = audio_extensions();
        if r {
            assert(exts.contains(x@)) by {
                if x@ == "mp3"@ {
                    assert(exts[0] == x@);
                } else if x@ == "wav"@ {
                    assert(exts[1] == x@);
                } else if x@ == "flac"@ {
                    assert(exts[2] == x@);
                } else if x@ == "ogg"@ {
                    assert(exts[3] == x@);
                } else if x@ == "m4a"@ {
                    assert(exts[4] == x@);
                } else if x@ == "aac"@ {
                    assert(exts[5] == x@);
                } else if x@ == "opus"@ {
                    assert(exts[6] == x@);
                } else if x@ == "aiff"@ {
                    assert(exts[7] == x@);
                } else {
                    assert(exts[8] == x@);
                }
            }
        } else {
            assert(!exts.contains(x@)) by {
                if exts.contains(x@) {
                    let k = choose|k: int| 0 <= k < exts.len() && exts[k] == x@;
                    assert(k == 0 || k == 1 || k == 2 || k == 3 || k == 4 || k == 5 || k == 6 || k
                        == 7 || k == 8);
                }
            }
        }
    }
    r
}

/// The link to the parent directory shown at the top of a listing below the
/// root: it leads to the current directory's parent (or to the root when
/// the path has none).
pub open spec fn up_item(v: PickerView) -> ItemView {
    ItemView {
        name: ".."@,
        path: match parent_of(v.current_dir) {
            Some(p) => p,
            None => v.root_dir,
        },
        is_socket: false,
        is_pcm_fifo: false,
        is_udp: false,
        is_dir: true,
        camelot_key: None,
    }
}

/// A listing of `es` seen from `v`: the link to the parent when below the
/// root, then the folders and then the audio files, each group in listing
/// order.
pub open spec fn lists_directory(items: Seq<ItemView>, v: PickerView, es: Seq<DirEntryInfo>) -> bool {
    let k: int = if below_root(v) {
        1
    } else {
        0
    };
    let nd = listed_dirs(es).len() as int;
    &&& items.len() == k + nd + listed_files(es).len()
    &&& below_root(v) ==> items[0] == up_item(v)
    &&& sorted_group(items.subrange(k, k + nd), listed_dirs(es))
    &&& sorted_group(items.subrange(k + nd, items.len() as int), listed_files(es))
}

impl SourcePickerState {
    /// Fill the list with a directory's entries, as read from the disk: a
    /// link to the parent first when below the root, then the folders and
    /// then the audio files, each sorted by name without regard to case.
    /// Hidden entries are skipped.  Nothing else changes.
    pub fn list_directory(&mut self, entries: &[DirEntryInfo])
        ensures
            lists_directory(item_views(final(self).items@), old(self)@, entries@),
            final(self)@ == (PickerView { items: final(self)@.items, ..old(self)@ }),
    {
        let ghost es = entries@;
        let mut dirs: Vec<SourcePickerItem> = Vec::new();
        let mut dir_keys: Vec<String> = Vec::new();
        let mut files: Vec<SourcePickerItem> = Vec::new();
        let mut file_keys: Vec<String> = Vec::new();
        let mut i: usize = 0;
        proof {
            assert(es.take(0) =~= Seq::<DirEntryInfo>::empty());
            assert(item_views(dirs@) =~= Seq::<ItemView>::empty());
            assert(item_views(files@) =~= Seq::<ItemView>::empty());
        }
        while i < entries.len()
            invariant
                i <= es.len(),
                es == entries@,
                keys_match(dirs@, dir_keys@),
                keys_match(files@, file_keys@),
                sorted_group(item_views(dirs@), listed_dirs(es.take(i as int))),
                sorted_group(item_views(files@), listed_files(es.take(i as int))),
            decreases es.len() - i,
        {
            let e = &entries[i];
            proof {
                assert(es.take(i as int + 1).drop_last() =~= es.take(i as int));
                assert(es.take(i as int + 1).last() == es[i as int]);
            }
            if !starts_with_dot(&e.name) {
                if e.is_dir {
                    let mut name = e.name.clone();
                    push_char(&mut name, '/');
                    let key = to_lowercase(name.as_str());
                    let item = SourcePickerItem {
                        name,
                        path: e.path.clone(),
                        is_socket: false,
                        is_pcm_fifo: false,
                        is_udp: false,
                        is_dir: true,
                        camelot_key: None,
                    };
                    proof {
                        assert(item_view(item) == dir_item(*e));
                        vstd::seq_lib::to_multiset_build(listed_dirs(es.take(i as int)), dir_item(*e));
                    }
                    insert_sorted(&mut dirs, &mut dir_keys, item, key);
                } else if e.is_file {
                    match &e.extension {
                        Some(x) => {
                            let lower = to_lowercase(x.as_str());
                            if is_audio_extension(&lower) {
                                let name = e.name.clone();
                                let key = to_lowercase(name.as_str());
                                let item = SourcePickerItem {
                                    name,
                                    path: e.path.clone(),
                                    is_socket: false,
                                    is_pcm_fifo: false,
                                    is_udp: false,
                                    is_dir: false,
                                    camelot_key: None,
                                };
                                proof {
                                    assert(item_view(item) == file_item(*e));
                                    vstd::seq_lib::to_multiset_build(
                                        listed_files(es.take(i as int)),
                                        file_item(*e),
                                    );
                                }
                                insert_sorted(&mut files, &mut file_keys, item, key);
                            }
                        },
                        None => {},
                    }
                }
            }
            i = i + 1;
        }
        proof {
            assert(es.take(es.len() as int) =~= es);
        }
        let mut items: Vec<SourcePickerItem> = Vec::new();
        let up = self.can_go_up();
        if up {
            let path = match parent_dir(self.current_dir.as_str()) {
                Some(p) => p,
                None => self.root_dir.clone(),
            };
            items.push(
                SourcePickerItem {
                    name: "..".to_owned(),
                    path,
                    is_socket: false,
                    is_pcm_fifo: false,
                    is_udp: false,
                    is_dir: true,
                    camelot_key: None,
                },
            );
            proof {
                reveal_strlit("..");
            }
        }
        let ghost head = items@;
        let ghost dv = item_views(dirs@);
        let ghost fv = item_views(files@);
        items.append(&mut dirs);
        items.append(&mut files);
        proof {
            let all = item_views(items@);
            let k = head.len() as int;
            assert(k == (if below_root(self@) {
                1int
            } else {
                0int
            }));
            if up {
                assert(all[0] == item_view(head[0]));
                assert(item_view(head[0]) == up_item(self@));
            }
            vstd::seq_lib::to_multiset_len(dv);
            vstd::seq_lib::to_multiset_len(listed_dirs(es));
            vstd::seq_lib::to_multiset_len(fv);
            vstd::seq_lib::to_multiset_len(listed_files(es));
            assert(all.subrange(k, k + dv.len()) =~= dv);
            assert(all.subrange(k + dv.len(), all.len() as int) =~= fv);
            assert(lists_directory(all, self@, es));
        }
        self.items = items;
    }
}

/// A directory entry is listed as an audio file exactly when it is a visible
/// regular file (not a folder, its name not starting with a dot) whose
/// extension, lowercased, is one of mp3, wav, flac, ogg, m4a, aac, opus,
/// aiff and aif.
pub proof fn lemma_audio_files_listed(e: DirEntryInfo)
    ensures
        listed_file(e) <==> {
            &&& !hidden(e.name@)
            &&& !e.is_dir
            &&& e.is_file
            &&& e.extension is Some
            &&& {
                let x = lowercase(e.extension->0@);
                ||| x == "mp3"@
                ||| x == "wav"@
                ||| x == "flac"@
                ||| x == "ogg"@
                ||| x == "m4a"@
                ||| x == "aac"@
                ||| x == "opus"@
                ||| x == "aiff"@
                ||| x == "aif"@
            }
        },
{
    if let Some(ext) = e.extension {
        let x = lowercase(ext@);
        let exts = audio_extensions();
        if exts.contains(x) {
            let k = choose|k: int| 0 <= k < exts.len() && exts[k] == x;
            assert(k == 0 || k == 1 || k == 2 || k == 3 || k == 4 || k == 5 || k == 6 || k == 7
                || k == 8);
        }
        if x == "mp3"@ {
            assert(exts[0] == x);
        } else if x == "wav"@ {
            assert(exts[1] == x);
        } else if x == "flac"@ {
            assert(exts[2] == x);
        } else if x == "ogg"@ {
            assert(exts[3] == x);
        } else if x == "m4a"@ {
            assert(exts[4] == x);
        } else if x == "aac"@ {
            assert(exts[5] == x);
        } else if x == "opus"@ {
            assert(exts[6] == x);
        } else if x == "aiff"@ {
            assert(exts[7] == x);
        } else if x == "aif"@ {
            assert(exts[8] == x);
        }
    }
}

} // verus!
