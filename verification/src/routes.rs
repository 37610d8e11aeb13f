//! Files of the audio routes that MPV sets up for the mixer: the PCM pipe of
//! a route, the control socket and metadata file that belong to it, and
//! which sockets are the mixer's own.
use vstd::prelude::*;
use crate::listing::{item_view, item_views, ItemView};
use crate::picker::SourcePickerItem;
use crate::text::{
    file_stem_of, path_file_stem, path_with_extension, path_with_file_name, paths_equal, push_str,
    same_path, str_ends_with, str_starts_with, with_extension_of, with_file_name_of,
};

verus! {

/// The canonical route pipe.
pub open spec fn canonical_fifo() -> Seq<char> {
    "/tmp/termixer.pcm"@
}

/// The canonical control socket.
pub open spec fn canonical_socket() -> Seq<char> {
    "/tmp/termixer.sock"@
}

/// The canonical metadata file.
pub open spec fn canonical_meta() -> Seq<char> {
    "/tmp/termixer-meta.json"@
}

/// A path is one of the mixer's own control sockets: the canonical one, or
/// a per-route `/tmp/termixer-*.sock`.
pub open spec fn own_socket(p: Seq<char>) -> bool {
    p == canonical_socket() || ("/tmp/termixer-"@.len() <= p.len() && p.take(
        "/tmp/termixer-"@.len() as int,
    ) == "/tmp/termixer-"@ && ".sock"@.len() <= p.len() && p.skip(p.len() - ".sock"@.len())
        == ".sock"@)
}

/// Whether a path is one of the mixer's own control sockets.
pub fn is_termixer_socket(path: &str) -> (b: bool)
    ensures
        b == own_socket(path@),
{
    let canonical = "/tmp/termixer.sock".to_owned();
    let own = path.to_owned();
    own == canonical || (str_starts_with(path, "/tmp/termixer-") && str_ends_with(path, ".sock"))
}

/// A file name is that of a per-route pipe: `termixer-*.pcm`.
pub open spec fn route_pipe_name(name: Seq<char>) -> bool {
    "termixer-"@.len() <= name.len() && name.take("termixer-"@.len() as int) == "termixer-"@
        && ".pcm"@.len() <= name.len() && name.skip(name.len() - ".pcm"@.len()) == ".pcm"@
}

/// Whether a file name is that of a per-route pipe, `termixer-*.pcm`.
pub fn is_route_pipe_name(name: &str) -> (b: bool)
    ensures
        b == route_pipe_name(name@),
{
    str_starts_with(name, "termixer-") && str_ends_with(name, ".pcm")
}

/// Control sockets that may belong to a route pipe, in the order they are
/// tried: the pipe's path with a `.sock` extension, and the canonical
/// socket for the canonical pipe.
pub open spec fn socket_candidates(fifo: Seq<char>) -> Seq<Seq<char>> {
    seq![with_extension_of(fifo, "sock"@)] + if same_path(fifo, canonical_fifo()) {
        seq![canonical_socket()]
    } else {
        Seq::empty()
    }
}

/// Metadata files that may describe a route pipe, in the order they are
/// tried: the pipe's path with a `.json` extension, `<stem>-meta.json`
/// beside it, and the canonical metadata file for the canonical pipe.
pub open spec fn meta_candidates(fifo: Seq<char>) -> Seq<Seq<char>> {
    seq![with_extension_of(fifo, "json"@)] + (match file_stem_of(fifo) {
        Some(stem) => seq![with_file_name_of(fifo, stem + "-meta.json"@)],
        None => Seq::empty(),
    }) + if same_path(fifo, canonical_fifo()) {
        seq![canonical_meta()]
    } else {
        Seq::empty()
    }
}

/// The texts of a list of strings.
pub open spec fn texts(v: Seq<String>) -> Seq<Seq<char>> {
    v.map_values(|s: String| s@)
}

/// Control sockets that may belong to a route pipe.
pub fn route_socket_candidates_for_fifo(fifo: &str) -> (out: Vec<String>)
    ensures
        texts(out@) == socket_candidates(fifo@),
{
    let mut out: Vec<String> = Vec::new();
    proof {
        reveal_strlit("sock");
    }
    out.push(path_with_extension(fifo, "sock"));
    if paths_equal(fifo, "/tmp/termixer.pcm") {
        out.push("/tmp/termixer.sock".to_owned());
    }
    assert(texts(out@) =~= socket_candidates(fifo@));
    out
}

/// Metadata files that may describe a route pipe.
pub fn route_meta_candidates_for_fifo(fifo: &str) -> (out: Vec<String>)
    ensures
        texts(out@) == meta_candidates(fifo@),
{
    let mut out: Vec<String> = Vec::new();
    proof {
        reveal_strlit("json");
    }
    out.push(path_with_extension(fifo, "json"));
    let ghost first = texts(out@);
    match path_file_stem(fifo) {
        Some(stem) => {
            let mut name = stem;
            push_str(&mut name, "-meta.json");
            out.push(path_with_file_name(fifo, name.as_str()));
        },
        None => {},
    }
    let ghost second = texts(out@);
    if paths_equal(fifo, "/tmp/termixer.pcm") {
        out.push("/tmp/termixer-meta.json".to_owned());
    }
    assert(texts(out@) =~= meta_candidates(fifo@));
    out
}

/// The items whose path differs from the path of every item kept before
/// them: the first item for each path, in order.
pub open spec fn first_per_path(s: Seq<ItemView>) -> Seq<ItemView>
    decreases s.len(),
{
    if s.len() == 0 {
        Seq::empty()
    } else {
        let kept = first_per_path(s.drop_last());
        if exists|k: int| 0 <= k < kept.len() && same_path(#[trigger] kept[k].path, s.last().path) {
            kept
        } else {
            kept.push(s.last())
        }
    }
}

/// A copy of a list item.
fn copy_item(it: &SourcePickerItem) -> (r: SourcePickerItem)
    ensures
        item_view(r) == item_view(*it),
{
    SourcePickerItem {
        name: it.name.clone(),
        path: it.path.clone(),
        is_socket: it.is_socket,
        is_pcm_fifo: it.is_pcm_fifo,
        is_udp: it.is_udp,
        is_dir: it.is_dir,
        camelot_key: match &it.camelot_key {
            Some(k) => Some(k.clone()),
            None => None,
        },
    }
}

/// Drop the items whose path was already listed, keeping the first item for
/// each path.
pub fn dedup_by_path(items: &Vec<SourcePickerItem>) -> (out: Vec<SourcePickerItem>)
    ensures
        item_views(out@) == first_per_path(item_views(items@)),
{
    let ghost all = item_views(items@);
    let mut out: Vec<SourcePickerItem> = Vec::new();
    let mut i: usize = 0;
    proof {
        assert(all.take(0) =~= Seq::<ItemView>::empty());
        assert(item_views(out@) =~= Seq::<ItemView>::empty());
    }
    while i < items.len()
        invariant
            i <= items@.len(),
            all == item_views(items@),
            item_views(out@) == first_per_path(all.take(i as int)),
        decreases items@.len() - i,
    {
        let it = &items[i];
        let ghost kept = item_views(out@);
        let mut dup = false;
        let mut k: usize = 0;
        while k < out.len()
            invariant
                k <= out@.len(),
                kept == item_views(out@),
                dup <==> exists|j: int| 0 <= j < k && same_path(#[trigger] kept[j].path, it.path@),
            decreases out@.len() - k,
        {
            if paths_equal(out[k].path.as_str(), it.path.as_str()) {
                dup = true;
            }
            proof {
                assert(kept[k as int].path == out@[k as int].path@);
            }
            k = k + 1;
        }
        proof {
            assert(all.take(i as int + 1).drop_last() =~= all.take(i as int));
            assert(all.take(i as int + 1).last() == all[i as int]);
            assert(all[i as int].path == it.path@);
        }
        if !dup {
            let c = copy_item(it);
            out.push(c);
            proof {
                assert(item_views(out@) =~= kept.push(all[i as int]));
            }
        }
        i = i + 1;
    }
    proof {
        assert(all.take(items@.len() as int) =~= all);
    }
    out
}

} // verus!
