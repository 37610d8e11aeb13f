//! Node bookkeeping of a deck's SuperCollider mixer chain: which group and
//! synth exist, and the OSC messages that create, set and free them.
use vstd::prelude::*;
use vstd::utf8::encode_utf8;
use crate::osc::{arg_views, encode_osc_message, osc_message, OscArg, OscType};

verus! {

/// The mixer synth's initial controls, in the order they are sent: volume,
/// low-pass, high-pass, three EQ bands (frequency and gain) and pan.
pub open spec fn synth_args(synth_id: i32, group_id: i32, input_bus: i32) -> Seq<OscArg> {
    seq![
        OscArg::Str("mixerChannel"@),
        OscArg::Int(synth_id),
        OscArg::Int(1),
        OscArg::Int(group_id),
        OscArg::Str("in"@),
        OscArg::Int(input_bus),
        OscArg::Str("out"@),
        OscArg::Int(0),
        OscArg::Str("vol"@),
        OscArg::Float(0x40800000u32),
        OscArg::Str("lpf"@),
        OscArg::Float(0x469c4000u32),
        OscArg::Str("hpf"@),
        OscArg::Float(0x41a00000u32),
        OscArg::Str("eqLowFreq"@),
        OscArg::Float(0x469c4000u32),
        OscArg::Str("eqLowGain"@),
        OscArg::Float(0u32),
        OscArg::Str("eqMidFreq"@),
        OscArg::Float(0x447a0000u32),
        OscArg::Str("eqMidGain"@),
        OscArg::Float(0u32),
        OscArg::Str("eqHighFreq"@),
        OscArg::Float(0x41a00000u32),
        OscArg::Str("eqHighGain"@),
        OscArg::Float(0u32),
        OscArg::Str("pan"@),
        OscArg::Float(0u32),
    ]
}

/// The SuperCollider nodes of one deck: a group placed at the tail of the
/// default group, holding the deck's mixer synth.
#[derive(Debug, Clone, Copy, PartialEq, Eq, Structural)]
pub struct SynthNodes {
    pub base_node_id: i32,
    pub input_bus: i32,
    pub synth_def_sent: bool,
    pub group_id: Option<i32>,
    pub synth_id: Option<i32>,
}

/// Controls of the master EQ's bands, from 32 Hz to 16 kHz.
pub open spec fn master_eq_names() -> Seq<Seq<char>> {
    seq![
        "mEq32"@,
        "mEq64"@,
        "mEq125"@,
        "mEq250"@,
        "mEq500"@,
        "mEq1k"@,
        "mEq2k"@,
        "mEq4k"@,
        "mEq8k"@,
        "mEq16k"@,
    ]
}

impl SynthNodes {
    /// No group or synth yet, and the SynthDef not sent.
    pub fn new(base_node_id: i32, input_bus: i32) -> (r: Self)
        ensures
            r == (SynthNodes {
                base_node_id,
                input_bus,
                synth_def_sent: false,
                group_id: None,
                synth_id: None,
            }),
    {
        SynthNodes { base_node_id, input_bus, synth_def_sent: false, group_id: None, synth_id: None }
    }

    /// Record the group (node `base + 100`) and return the `/g_new` message
    /// that creates it at the tail of the default group.
    pub fn create_group(&mut self) -> (msg: Vec<u8>)
        requires
            old(self).base_node_id + 100 <= i32::MAX,
        ensures
            *final(self) == (SynthNodes {
                group_id: Some((old(self).base_node_id + 100) as i32),
                ..*old(self)
            }),
            msg@ == osc_message(
                encode_utf8("/g_new"@),
                seq![
                    OscArg::Int((old(self).base_node_id + 100) as i32),
                    OscArg::Int(1),
                    OscArg::Int(0),
                ],
            ),
    {
        let group_id = self.base_node_id + 100;
        self.group_id = Some(group_id);
        let args = vec![OscType::Int(group_id), OscType::Int(1), OscType::Int(0)];
        let msg = encode_osc_message("/g_new", args.as_slice());
        proof {
            assert(arg_views(args@) =~= seq![
                OscArg::Int(group_id),
                OscArg::Int(1),
                OscArg::Int(0),
            ]);
        }
        msg
    }

    /// Record the synth (node `base + 200`) and return the `/s_new` message
    /// that creates it at the tail of the deck's group (the default group
    /// when none was created), reading the deck's input bus.
    pub fn create_synth(&mut self) -> (msg: Vec<u8>)
        requires
            old(self).base_node_id + 200 <= i32::MAX,
        ensures
            *final(self) == (SynthNodes {
                synth_id: Some((old(self).base_node_id + 200) as i32),
                ..*old(self)
            }),
            msg@ == osc_message(
                encode_utf8("/s_new"@),
                synth_args(
                    (old(self).base_node_id + 200) as i32,
                    match old(self).group_id {
                        Some(g) => g,
                        None => 0,
                    },
                    old(self).input_bus,
                ),
            ),
    {
        let group_id = match self.group_id {
            Some(g) => g,
            None => 0,
        };
        let synth_id = self.base_node_id + 200;
        self.synth_id = Some(synth_id);
        let args = vec![
            OscType::Str("mixerChannel".to_owned()),
            OscType::Int(synth_id),
            OscType::Int(1),
            OscType::Int(group_id),
            OscType::Str("in".to_owned()),
            OscType::Int(self.input_bus),
            OscType::Str("out".to_owned()),
            OscType::Int(0),
            OscType::Str("vol".to_owned()),
            OscType::Float(0x40800000u32),
            OscType::Str("lpf".to_owned()),
            OscType::Float(0x469c4000u32),
            OscType::Str("hpf".to_owned()),
            OscType::Float(0x41a00000u32),
            OscType::Str("eqLowFreq".to_owned()),
            OscType::Float(0x469c4000u32),
            OscType::Str("eqLowGain".to_owned()),
            OscType::Float(0u32),
            OscType::Str("eqMidFreq".to_owned()),
            OscType::Float(0x447a0000u32),
            OscType::Str("eqMidGain".to_owned()),
            OscType::Float(0u32),
            OscType::Str("eqHighFreq".to_owned()),
            OscType::Float(0x41a00000u32),
            OscType::Str("eqHighGain".to_owned()),
            OscType::Float(0u32),
            OscType::Str("pan".to_owned()),
            OscType::Float(0u32),
        ];
        let msg = encode_osc_message("/s_new", args.as_slice());
        proof {
            assert(arg_views(args@) =~= synth_args(synth_id, group_id, self.input_bus));
        }
        msg
    }

    /// The `/n_free` message for the synth, if there is one.
    pub fn free_synth(&self) -> (msg: Option<Vec<u8>>)
        ensures
            msg is Some <==> self.synth_id is Some,
            msg matches Some(m) ==> m@ == osc_message(
                encode_utf8("/n_free"@),
                seq![OscArg::Int(self.synth_id->0)],
            ),
    {
        match self.synth_id {
            Some(synth_id) => {
                let args = vec![OscType::Int(synth_id)];
                let m = encode_osc_message("/n_free", args.as_slice());
                proof {
                    assert(arg_views(args@) =~= seq![OscArg::Int(synth_id)]);
                }
                Some(m)
            },
            None => None,
        }
    }

    /// The `/n_free` message for the group and all it contains, if there is
    /// a group.
    pub fn free_group(&self) -> (msg: Option<Vec<u8>>)
        ensures
            msg is Some <==> self.group_id is Some,
            msg matches Some(m) ==> m@ == osc_message(
                encode_utf8("/n_free"@),
                seq![OscArg::Int(self.group_id->0)],
            ),
    {
        match self.group_id {
            Some(group_id) => {
                let args = vec![OscType::Int(group_id)];
                let m = encode_osc_message("/n_free", args.as_slice());
                proof {
                    assert(arg_views(args@) =~= seq![OscArg::Int(group_id)]);
                }
                Some(m)
            },
            None => None,
        }
    }

    /// The `/n_set` message that sets one control of the synth (the value
    /// given as float bits), if there is a synth.
    pub fn set_synth_param(&self, name: &str, value_bits: u32) -> (msg: Option<Vec<u8>>)
        ensures
            msg is Some <==> self.synth_id is Some,
            msg matches Some(m) ==> m@ == osc_message(
                encode_utf8("/n_set"@),
                seq![OscArg::Int(self.synth_id->0), OscArg::Str(name@), OscArg::Float(value_bits)],
            ),
    {
        match self.synth_id {
            Some(synth_id) => {
                let args = vec![
                    OscType::Int(synth_id),
                    OscType::Str(name.to_owned()),
                    OscType::Float(value_bits),
                ];
                let m = encode_osc_message("/n_set", args.as_slice());
                proof {
                    assert(arg_views(args@) =~= seq![
                        OscArg::Int(synth_id),
                        OscArg::Str(name@),
                        OscArg::Float(value_bits),
                    ]);
                }
                Some(m)
            },
            None => None,
        }
    }

    /// The `/n_set` messages that set the ten bands of the master EQ, from
    /// 32 Hz to 16 kHz (gains given as float bits), if there is a synth.
    pub fn set_master_eq(&self, gain_bits: &[u32; 10]) -> (msgs: Option<Vec<Vec<u8>>>)
        ensures
            msgs is Some <==> self.synth_id is Some,
            msgs matches Some(v) ==> v@.len() == 10 && forall|i: int|
                0 <= i < 10 ==> #[trigger] v@[i]@ == osc_message(
                    encode_utf8("/n_set"@),
                    seq![
                        OscArg::Int(self.synth_id->0),
                        OscArg::Str(master_eq_names()[i]),
                        OscArg::Float(gain_bits@[i]),
                    ],
                ),
    {
        if self.synth_id.is_none() {
            return None;
        }
        let names: [&str; 10] = [
            "mEq32", "mEq64", "mEq125", "mEq250", "mEq500", "mEq1k", "mEq2k", "mEq4k", "mEq8k", "mEq16k",
        ];
        proof {
            assert(forall|i: int| 0 <= i < 10 ==> #[trigger] names@[i]@ == master_eq_names()[i]);
        }
        let mut out: Vec<Vec<u8>> = Vec::new();
        let mut i: usize = 0;
        while i < 10
            invariant
                i <= 10,
                self.synth_id is Some,
                forall|k: int| 0 <= k < 10 ==> #[trigger] names@[k]@ == master_eq_names()[k],
                out@.len() == i,
                forall|k: int|
                    0 <= k < i ==> #[trigger] out@[k]@ == osc_message(
                        encode_utf8("/n_set"@),
                        seq![
                            OscArg::Int(self.synth_id->0),
                            OscArg::Str(master_eq_names()[k]),
                            OscArg::Float(gain_bits@[k]),
                        ],
                    ),
            decreases 10 - i,
        {
            match self.set_synth_param(names[i], gain_bits[i]) {
                Some(m) => out.push(m),
                None => {},
            }
            i = i + 1;
        }
        Some(out)
    }

    /// Pausing frees the synth (muting the deck); resuming creates it anew.
    pub fn set_pause(&mut self, paused: bool) -> (msg: Option<Vec<u8>>)
        requires
            !paused ==> old(self).base_node_id + 200 <= i32::MAX,
        ensures
            paused ==> *final(self) == *old(self) && (msg is Some <==> old(self).synth_id is Some),
            paused ==> (msg matches Some(m) ==> m@ == osc_message(
                encode_utf8("/n_free"@),
                seq![OscArg::Int(old(self).synth_id->0)],
            )),
            !paused ==> *final(self) == (SynthNodes {
                synth_id: Some((old(self).base_node_id + 200) as i32),
                ..*old(self)
            }),
            !paused ==> (msg matches Some(m) && m@ == osc_message(
                encode_utf8("/s_new"@),
                synth_args(
                    (old(self).base_node_id + 200) as i32,
                    match old(self).group_id {
                        Some(g) => g,
                        None => 0,
                    },
                    old(self).input_bus,
                ),
            )),
    {
        if paused {
            self.free_synth()
        } else {
            Some(self.create_synth())
        }
    }

    /// Free all nodes (cleanup): the messages freeing the synth and then the
    /// group, each if there is one.
    pub fn free_all(&self) -> (msgs: (Option<Vec<u8>>, Option<Vec<u8>>))
        ensures
            msgs.0 is Some <==> self.synth_id is Some,
            msgs.0 matches Some(m) ==> m@ == osc_message(
                encode_utf8("/n_free"@),
                seq![OscArg::Int(self.synth_id->0)],
            ),
            msgs.1 is Some <==> self.group_id is Some,
            msgs.1 matches Some(m) ==> m@ == osc_message(
                encode_utf8("/n_free"@),
                seq![OscArg::Int(self.group_id->0)],
            ),
    {
        (self.free_synth(), self.free_group())
    }

    /// Remember that the SynthDef was sent.
    pub fn mark_synth_def_sent(&mut self)
        ensures
            *final(self) == (SynthNodes { synth_def_sent: true, ..*old(self) }),
    {
        self.synth_def_sent = true;
    }
}

} // verus!
