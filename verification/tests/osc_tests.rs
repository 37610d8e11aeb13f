use termixer::osc::{encode_osc_message, encode_synthdef_message, write_osc_string, OscType};
use termixer::synth::SynthNodes;

#[test]
fn osc_strings_are_zero_terminated_and_padded() {
    let mut buf = Vec::new();
    write_osc_string(&mut buf, "/abc");
    assert_eq!(buf, b"/abc\0\0\0\0".to_vec());
    let mut buf = Vec::new();
    write_osc_string(&mut buf, "/ab");
    assert_eq!(buf, b"/ab\0".to_vec());
    // Padding goes to the buffer's next word boundary.
    let mut buf = vec![1u8];
    write_osc_string(&mut buf, "x");
    assert_eq!(buf, vec![1u8, b'x', 0, 0]);
}

#[test]
fn message_with_every_argument_kind() {
    let msg = encode_osc_message(
        "/test",
        &[OscType::Int(1), OscType::Float(0.5f32.to_bits()), OscType::Str("hi".to_string())],
    );
    let mut expected = Vec::new();
    expected.extend_from_slice(b"/test\0\0\0");
    expected.extend_from_slice(b",ifs\0\0\0\0");
    expected.extend_from_slice(&[0, 0, 0, 1]);
    expected.extend_from_slice(&[0x3f, 0, 0, 0]);
    expected.extend_from_slice(b"hi\0\0");
    assert_eq!(msg, expected);
    assert_eq!(msg.len() % 4, 0);
}

#[test]
fn negative_ints_are_twos_complement() {
    let msg = encode_osc_message("/n", &[OscType::Int(-2)]);
    assert_eq!(msg, [b"/n\0\0".as_slice(), b",i\0\0", &[0xff, 0xff, 0xff, 0xfe]].concat());
}

#[test]
fn message_without_arguments() {
    let msg = encode_osc_message("/status", &[]);
    assert_eq!(msg, b"/status\0,\0\0\0".to_vec());
}

#[test]
fn synthdef_blob() {
    let msg = encode_synthdef_message(&[1, 2, 3, 4, 5]);
    let mut expected = Vec::new();
    expected.extend_from_slice(b"/d_recv\0");
    expected.extend_from_slice(b",b\0\0");
    expected.extend_from_slice(&[0, 0, 0, 5]);
    expected.extend_from_slice(&[1, 2, 3, 4, 5, 0, 0, 0]);
    assert_eq!(msg, expected);
}

fn osc(address: &str, args: &[OscType]) -> Vec<u8> {
    encode_osc_message(address, args)
}

#[test]
fn group_and_synth_creation() {
    let mut nodes = SynthNodes::new(1000, 16);
    assert_eq!(nodes.group_id, None);
    let g = nodes.create_group();
    assert_eq!(nodes.group_id, Some(1100));
    assert_eq!(g, osc("/g_new", &[OscType::Int(1100), OscType::Int(1), OscType::Int(0)]));
    let s = nodes.create_synth();
    assert_eq!(nodes.synth_id, Some(1200));
    let expected = osc(
        "/s_new",
        &[
            OscType::Str("mixerChannel".into()),
            OscType::Int(1200),
            OscType::Int(1),
            OscType::Int(1100),
            OscType::Str("in".into()),
            OscType::Int(16),
            OscType::Str("out".into()),
            OscType::Int(0),
            OscType::Str("vol".into()),
            OscType::Float(4.0f32.to_bits()),
            OscType::Str("lpf".into()),
            OscType::Float(20000.0f32.to_bits()),
            OscType::Str("hpf".into()),
            OscType::Float(20.0f32.to_bits()),
            OscType::Str("eqLowFreq".into()),
            OscType::Float(20000.0f32.to_bits()),
            OscType::Str("eqLowGain".into()),
            OscType::Float(0.0f32.to_bits()),
            OscType::Str("eqMidFreq".into()),
            OscType::Float(1000.0f32.to_bits()),
            OscType::Str("eqMidGain".into()),
            OscType::Float(0.0f32.to_bits()),
            OscType::Str("eqHighFreq".into()),
            OscType::Float(20.0f32.to_bits()),
            OscType::Str("eqHighGain".into()),
            OscType::Float(0.0f32.to_bits()),
            OscType::Str("pan".into()),
            OscType::Float(0.0f32.to_bits()),
        ],
    );
    assert_eq!(s, expected);
}

#[test]
fn synth_without_group_goes_to_default_group() {
    let mut nodes = SynthNodes::new(0, 8);
    let s = nodes.create_synth();
    assert_eq!(&s[0..8], b"/s_new\0\0");
    // The target group word follows the name, id and add action.
    let tags_end = 8 + 32;
    let target = &s[tags_end + 16 + 8..tags_end + 16 + 12];
    assert_eq!(target, &[0, 0, 0, 0]);
}

#[test]
fn freeing_and_setting_need_nodes() {
    let mut nodes = SynthNodes::new(500, 4);
    assert!(nodes.free_synth().is_none());
    assert!(nodes.free_group().is_none());
    assert!(nodes.set_synth_param("vol", 1.0f32.to_bits()).is_none());
    assert_eq!(nodes.free_all(), (None, None));
    nodes.create_group();
    nodes.create_synth();
    assert_eq!(nodes.free_synth(), Some(osc("/n_free", &[OscType::Int(700)])));
    assert_eq!(nodes.free_group(), Some(osc("/n_free", &[OscType::Int(600)])));
    assert_eq!(
        nodes.set_synth_param("pan", (-1.0f32).to_bits()),
        Some(osc(
            "/n_set",
            &[OscType::Int(700), OscType::Str("pan".into()), OscType::Float((-1.0f32).to_bits())]
        ))
    );
    assert_eq!(
        nodes.free_all(),
        (Some(osc("/n_free", &[OscType::Int(700)])), Some(osc("/n_free", &[OscType::Int(600)])))
    );
}

#[test]
fn pausing_frees_and_resuming_recreates() {
    let mut nodes = SynthNodes::new(0, 2);
    nodes.create_synth();
    let before = nodes;
    let m = nodes.set_pause(true);
    assert_eq!(m, Some(osc("/n_free", &[OscType::Int(200)])));
    assert_eq!(nodes, before);
    let m = nodes.set_pause(false).unwrap();
    assert_eq!(&m[0..8], b"/s_new\0\0");
    assert_eq!(nodes.synth_id, Some(200));
    nodes.mark_synth_def_sent();
    assert!(nodes.synth_def_sent);
}

#[test]
fn master_eq_sets_ten_bands_on_the_synth() {
    let mut nodes = SynthNodes::new(1000, 4);
    let gains: [u32; 10] = [(-3.0f32).to_bits(), 0, 0, 0, 0, 0, 0, 0, 0, 6.0f32.to_bits()];
    assert!(nodes.set_master_eq(&gains).is_none());
    nodes.create_group();
    nodes.create_synth();
    let msgs = nodes.set_master_eq(&gains).unwrap();
    assert_eq!(msgs.len(), 10);
    let names = ["mEq32", "mEq64", "mEq125", "mEq250", "mEq500", "mEq1k", "mEq2k", "mEq4k", "mEq8k", "mEq16k"];
    for (k, name) in names.iter().enumerate() {
        assert_eq!(
            msgs[k],
            encode_osc_message(
                "/n_set",
                &[OscType::Int(1200), OscType::Str(name.to_string()), OscType::Float(gains[k])]
            )
        );
    }
}
