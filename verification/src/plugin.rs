//! The plugin core: the per-instance state the host drives, one
//! processing cycle at a time — apply the cycle's event batch, then
//! render the cycle's block from the resulting held-note count and
//! the current volume.

use vstd::prelude::*;

use crate::events::{PerformanceEvent, NOTE_OFF_STATUS, NOTE_ON_STATUS};
use crate::notes::{count_after, lemma_count_after_upper};
use crate::params::ParameterStore;
use crate::render::{render_block, sample_ok};
use crate::VOLUME_SCALE;

verus! {

/// What the plugin answers to a host capability query.
#[derive(Clone, Copy, Debug, PartialEq, Eq, Structural)]
pub enum Supported {
    Yes,
    Maybe,
    No,
}

/// A host capability query, split into the one the core answers for
/// certain — whether it receives performance events — and the rest.
#[derive(Clone, Copy, Debug, PartialEq, Eq, Structural)]
pub enum CapabilityQuery {
    ReceiveMidiEvent,
    Other,
}

/// The category a plugin declares to the host.
#[derive(Clone, Copy, Debug, PartialEq, Eq, Structural)]
pub enum PluginCategory {
    Synth,
    Other,
}

/// The descriptor the host reads once at discovery.
pub struct PluginDescriptor {
    pub name: String,
    pub unique_id: i32,
    pub inputs: i32,
    pub outputs: i32,
    pub parameters: i32,
    pub category: PluginCategory,
}

/// What the core answers to each capability query: a firm yes for
/// receiving performance events — hosts may otherwise withhold them —
/// and an unspecified maybe for everything else.
pub open spec fn spec_can_do(q: CapabilityQuery) -> Supported {
    if q is ReceiveMidiEvent {
        Supported::Yes
    } else {
        Supported::Maybe
    }
}

/// One plugin instance: the held-note count and the parameter store.
pub struct Whisper {
    /// How many notes are currently held; sound is gated on this
    /// being non-zero.
    pub notes: u64,
    /// The automatable parameters, shared with the control surface.
    pub params: ParameterStore,
}

impl Whisper {
    /// The instance's invariant: its parameters are in range.
    pub open spec fn wf(&self) -> bool {
        self.params.wf()
    }

    /// A fresh instance: no note held, volume at its default of 1.0.
    pub fn new() -> (w: Whisper)
        ensures
            w.wf(),
            w.notes == 0,
            w.params.volume == VOLUME_SCALE,
    {
        Whisper { notes: 0, params: ParameterStore::new() }
    }

    /// The descriptor of this plugin: a synthesizer with no inputs,
    /// two outputs and one parameter.
    pub fn get_info(&self) -> (info: PluginDescriptor)
        ensures
            info.name@ == "Whisper"@,
            info.unique_id == 1337,
            info.inputs == 0,
            info.outputs == 2,
            info.parameters == 1,
            info.category == PluginCategory::Synth,
    {
        PluginDescriptor {
            name: "Whisper".to_owned(),
            unique_id: 1337,
            inputs: 0,
            outputs: 2,
            parameters: 1,
            category: PluginCategory::Synth,
        }
    }

    /// Answers a host capability query.
    pub fn can_do(&self, q: CapabilityQuery) -> (s: Supported)
        ensures
            s == spec_can_do(q),
    {
        match q {
            CapabilityQuery::ReceiveMidiEvent => Supported::Yes,
            CapabilityQuery::Other => Supported::Maybe,
        }
    }

    /// Applies one cycle's batch of events to the held-note count, in
    /// delivery order: a note-on raises it, a note-off lowers it but
    /// never below zero, anything else is ignored. The parameters are
    /// untouched.
    pub fn process_events(&mut self, events: &Vec<PerformanceEvent>)
        requires
            old(self).notes + events@.len() <= u64::MAX,
        ensures
            final(self).notes == count_after(old(self).notes as nat, events@),
            final(self).params == old(self).params,
    {
        let ghost init = old(self).notes as nat;
        let mut i: usize = 0;
        while i < events.len()
            invariant
                i <= events@.len(),
                init + events@.len() <= u64::MAX,
                self.notes == count_after(init, events@.take(i as int)),
                self.params == old(self).params,
            decreases events@.len() - i,
        {
            proof {
                lemma_count_after_upper(init, events@.take(i as int));
                assert(events@.take(i + 1).drop_last() =~= events@.take(i as int));
                assert(events@.take(i + 1).last() == events@[i as int]);
            }
            let e = events[i];
            match e {
                PerformanceEvent::Midi { status, .. } => {
                    if status == NOTE_ON_STATUS {
                        self.notes = self.notes + 1;
                    } else if status == NOTE_OFF_STATUS {
                        if self.notes > 0 {
                            self.notes = self.notes - 1;
                        }
                    }
                },
                PerformanceEvent::Other => {},
            }
            i = i + 1;
        }
        proof {
            assert(events@.take(events@.len() as int) =~= events@);
        }
    }

    /// Renders one cycle's block of samples — `frames` frames on each
    /// of `channels` channels, flattened channel-major — from the
    /// current held-note count and volume: exact silence while no
    /// note is held or the volume is zero, noise bounded by the
    /// volume otherwise.
    pub fn process(&self, channels: usize, frames: usize) -> (out: Vec<i64>)
        requires
            channels * frames <= usize::MAX,
        ensures
            out@.len() == channels * frames,
            forall|k: int|
                0 <= k < out@.len() ==> sample_ok(
                    #[trigger] out@[k],
                    self.notes as nat,
                    self.params.volume,
                ),
    {
        render_block(self.notes, self.params.get_parameter(0), channels, frames)
    }
}

impl Default for Whisper {
    /// The instance the host gets at instantiation.
    fn default() -> (w: Self)
        ensures
            w.wf(),
            w.notes == 0,
            w.params.volume == VOLUME_SCALE,
    {
        Whisper::new()
    }
}

} // verus!
