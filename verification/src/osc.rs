//! Encoding of Open Sound Control messages for the SuperCollider server,
//! and the node bookkeeping that decides which messages a deck sends.
use vstd::prelude::*;
use vstd::utf8::encode_utf8;

verus! {

/// An OSC argument.  A float travels as its IEEE-754 bit pattern, which is
/// exactly what goes on the wire.
#[derive(Debug, Clone, PartialEq, Eq)]
pub enum OscType {
    Int(i32),
    Float(u32),
    Str(String),
}

/// What an argument means on the wire: the integer, the float's bit
/// pattern, or the text.
pub enum OscArg {
    Int(i32),
    Float(u32),
    Str(Seq<char>),
}

impl View for OscType {
    type V = OscArg;

    open spec fn view(&self) -> OscArg {
        match self {
            OscType::Int(v) => OscArg::Int(*v),
            OscType::Float(b) => OscArg::Float(*b),
            OscType::Str(s) => OscArg::Str(s@),
        }
    }
}

/// The meaning of a list of arguments.
pub open spec fn arg_views(args: Seq<OscType>) -> Seq<OscArg> {
    args.map_values(|a: OscType| a@)
}

/// Zero bytes needed after `n` bytes to reach a multiple of four.
pub open spec fn pad_len(n: int) -> int {
    if n % 4 == 0 {
        0
    } else {
        4 - n % 4
    }
}

/// `n` zero bytes.
pub open spec fn zeros(n: int) -> Seq<u8> {
    Seq::new(n as nat, |i: int| 0u8)
}

/// An OSC string: the bytes, a terminating zero, and zero padding up to a
/// multiple of four bytes.
pub open spec fn osc_str(bytes: Seq<u8>) -> Seq<u8> {
    bytes.push(0u8) + zeros(pad_len(bytes.len() + 1int))
}

/// A 32-bit word, most significant byte first.
pub open spec fn be32(v: u32) -> Seq<u8> {
    seq![(v >> 24u32) as u8, (v >> 16u32) as u8, (v >> 8u32) as u8, v as u8]
}

/// The type tag of an argument.
pub open spec fn tag_of(a: OscArg) -> u8 {
    match a {
        OscArg::Int(_) => 0x69u8,
        OscArg::Float(_) => 0x66u8,
        OscArg::Str(_) => 0x73u8,
    }
}

/// The type tags of the arguments, after a leading comma.
pub open spec fn tags(args: Seq<OscArg>) -> Seq<u8>
    decreases args.len(),
{
    if args.len() == 0 {
        seq![0x2cu8]
    } else {
        tags(args.drop_last()).push(tag_of(args.last()))
    }
}

/// The encoding of one argument.
pub open spec fn arg_bytes(a: OscArg) -> Seq<u8> {
    match a {
        OscArg::Int(v) => be32(v as u32),
        OscArg::Float(bits) => be32(bits),
        OscArg::Str(s) => osc_str(encode_utf8(s)),
    }
}

/// The encodings of the arguments, in order.
pub open spec fn args_bytes(args: Seq<OscArg>) -> Seq<u8>
    decreases args.len(),
{
    if args.len() == 0 {
        Seq::empty()
    } else {
        args_bytes(args.drop_last()) + arg_bytes(args.last())
    }
}

/// An OSC message: address, type tags, then the arguments.
pub open spec fn osc_message(address: Seq<u8>, args: Seq<OscArg>) -> Seq<u8> {
    osc_str(address) + osc_str(tags(args)) + args_bytes(args)
}

/// A `/d_recv` message carrying a compiled SynthDef as a blob: its length
/// as a 32-bit word (modulo 2^32), the bytes, and zero padding.
pub open spec fn synthdef_message(def: Seq<u8>) -> Seq<u8> {
    osc_str(seq![0x2fu8, 0x64, 0x5f, 0x72, 0x65, 0x63, 0x76]) + osc_str(seq![0x2cu8, 0x62])
        + be32(def.len() as u32) + def + zeros(pad_len(def.len() as int))
}

proof fn lemma_pad_shift(a: int, k: int)
    requires
        a % 4 == 0,
        a >= 0,
        k >= 0,
    ensures
        pad_len(a + k) == pad_len(k),
{
    assert((a + k) % 4 == k % 4);
}

fn push_be32(buf: &mut Vec<u8>, v: u32)
    ensures
        final(buf)@ == old(buf)@ + be32(v),
{
    buf.push((v >> 24u32) as u8);
    buf.push((v >> 16u32) as u8);
    buf.push((v >> 8u32) as u8);
    buf.push(v as u8);
    assert(buf@ =~= old(buf)@ + be32(v));
}

fn push_bytes(buf: &mut Vec<u8>, bytes: &[u8])
    ensures
        final(buf)@ == old(buf)@ + bytes@,
{
    let mut i: usize = 0;
    while i < bytes.len()
        invariant
            i <= bytes@.len(),
            buf@ == old(buf)@ + bytes@.take(i as int),
        decreases bytes@.len() - i,
    {
        buf.push(bytes[i]);
        i = i + 1;
        assert(buf@ =~= old(buf)@ + bytes@.take(i as int));
    }
    assert(bytes@.take(bytes@.len() as int) =~= bytes@);
}

fn pad_to_word(buf: &mut Vec<u8>)
    ensures
        final(buf)@ == old(buf)@ + zeros(pad_len(old(buf)@.len() as int)),
{
    let ghost start = buf@;
    while buf.len() % 4 != 0
        invariant
            start.len() <= buf@.len() <= start.len() + pad_len(start.len() as int),
            buf@ == start + zeros(buf@.len() - start.len()),
        decreases start.len() + pad_len(start.len() as int) - buf@.len(),
    {
        buf.push(0);
        assert(buf@ =~= start + zeros(buf@.len() - start.len()));
    }
}

/// Append an OSC string: the bytes, a zero, and zeros until the buffer's
/// length is a multiple of four (on a word-aligned buffer, exactly the
/// string's OSC encoding).
pub fn write_osc_string(buf: &mut Vec<u8>, s: &str)
    ensures
        final(buf)@ == old(buf)@ + encode_utf8(s@).push(0u8) + zeros(
            pad_len(old(buf)@.len() + encode_utf8(s@).len() + 1int),
        ),
        final(buf)@.len() % 4 == 0,
        old(buf)@.len() % 4 == 0 ==> final(buf)@ == old(buf)@ + osc_str(encode_utf8(s@)),
{
    let ghost start = buf@;
    let bytes = s.as_bytes();
    push_bytes(buf, bytes);
    buf.push(0);
    let ghost mid = buf@;
    pad_to_word(buf);
    proof {
        assert(mid =~= start + bytes@.push(0u8));
        assert(buf@ =~= start + bytes@.push(0u8) + zeros(pad_len(start.len() + bytes@.len() + 1int)));
        if start.len() % 4 == 0 {
            lemma_pad_shift(start.len() as int, bytes@.len() + 1int);
            assert(buf@ =~= start + osc_str(bytes@));
        }
    }
}

fn write_osc_bytes(buf: &mut Vec<u8>, bytes: &[u8])
    requires
        old(buf)@.len() % 4 == 0,
    ensures
        final(buf)@ == old(buf)@ + osc_str(bytes@),
        final(buf)@.len() % 4 == 0,
{
    let ghost start = buf@;
    push_bytes(buf, bytes);
    buf.push(0);
    let ghost mid = buf@;
    pad_to_word(buf);
    proof {
        lemma_pad_shift(start.len() as int, bytes@.len() + 1int);
        assert(buf@ =~= start + osc_str(bytes@));
    }
}

proof fn lemma_arg_bytes_len(a: OscArg)
    ensures
        arg_bytes(a).len() % 4 == 0,
{
    match a {
        OscArg::Str(s) => {
            let n = encode_utf8(s).len() as int;
            assert((n + 1 + pad_len(n + 1)) % 4 == 0);
        },
        _ => {},
    }
}

proof fn lemma_args_bytes_len(args: Seq<OscArg>)
    ensures
        args_bytes(args).len() % 4 == 0,
    decreases args.len(),
{
    if args.len() > 0 {
        lemma_args_bytes_len(args.drop_last());
        lemma_arg_bytes_len(args.last());
    }
}

/// Encode an OSC message with the given address and arguments.
pub fn encode_osc_message(address: &str, args: &[OscType]) -> (msg: Vec<u8>)
    ensures
        msg@ == osc_message(encode_utf8(address@), arg_views(args@)),
{
    let mut buf: Vec<u8> = Vec::new();
    write_osc_string(&mut buf, address);
    let mut type_tags: Vec<u8> = Vec::new();
    type_tags.push(0x2cu8);
    let mut i: usize = 0;
    while i < args.len()
        invariant
            i <= args@.len(),
            type_tags@ == tags(arg_views(args@.take(i as int))),
            type_tags@.len() == i + 1,
        decreases args@.len() - i,
    {
        let t: u8 = match &args[i] {
            OscType::Int(_) => 0x69,
            OscType::Float(_) => 0x66,
            OscType::Str(_) => 0x73,
        };
        type_tags.push(t);
        proof {
            assert(arg_views(args@.take(i + 1)).drop_last() =~= arg_views(args@.take(i as int)));
        }
        i = i + 1;
    }
    proof {
        assert(args@.take(args@.len() as int) =~= args@);
        lemma_args_bytes_len(arg_views(args@));
    }
    write_osc_bytes(&mut buf, type_tags.as_slice());
    let ghost head = buf@;
    let mut k: usize = 0;
    while k < args.len()
        invariant
            k <= args@.len(),
            buf@ == head + args_bytes(arg_views(args@.take(k as int))),
            buf@.len() % 4 == 0,
        decreases args@.len() - k,
    {
        proof {
            assert(arg_views(args@.take(k + 1)).drop_last() =~= arg_views(args@.take(k as int)));
            lemma_args_bytes_len(arg_views(args@.take(k as int)));
        }
        match &args[k] {
            OscType::Int(v) => push_be32(&mut buf, *v as u32),
            OscType::Float(bits) => push_be32(&mut buf, *bits),
            OscType::Str(s) => write_osc_string(&mut buf, s.as_str()),
        }
        k = k + 1;
        proof {
            assert(buf@ =~= head + args_bytes(arg_views(args@.take(k as int))));
        }
    }
    proof {
        assert(args@.take(args@.len() as int) =~= args@);
    }
    buf
}

/// Build the `/d_recv` message that loads a compiled SynthDef.
pub fn encode_synthdef_message(def_bytes: &[u8]) -> (msg: Vec<u8>)
    ensures
        msg@ == synthdef_message(def_bytes@),
{
    let mut msg: Vec<u8> = Vec::new();
    let address: [u8; 7] = [0x2f, 0x64, 0x5f, 0x72, 0x65, 0x63, 0x76];
    let tag: [u8; 2] = [0x2c, 0x62];
    write_osc_bytes(&mut msg, address.as_slice());
    write_osc_bytes(&mut msg, tag.as_slice());
    let len = def_bytes.len() as u32;
    push_be32(&mut msg, len);
    let ghost before_def = msg@;
    push_bytes(&mut msg, def_bytes);
    pad_to_word(&mut msg);
    proof {
        assert(address@ =~= seq![0x2fu8, 0x64, 0x5f, 0x72, 0x65, 0x63, 0x76]);
        assert(tag@ =~= seq![0x2cu8, 0x62]);
        lemma_pad_shift(before_def.len() as int, def_bytes@.len() as int);
        assert(msg@ =~= synthdef_message(def_bytes@));
    }
    msg
}

} // verus!
