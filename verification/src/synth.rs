//! The synthesiser: oscillator bank, note state, master envelope and
//! volume, and the message-driven control plane.
//!
//! The control producer pushes [`SynthMessage`] values into a
//! single-producer/single-consumer lock-free channel; the real-time render
//! path drains that channel and then produces one sample. All timing is
//! derived from a sample counter, never from a wall clock.

use vstd::prelude::*;
use crate::midi::{MidiEvent, Note, MAX_FREQ_MILLIHZ};
use crate::oscillator::{envelope_gain, Envlope, Oscillator, ADSR, WAVE_PEAK};
use crate::volume::{scale_sample, scaled, Volume, UNIT};
use vstd::arithmetic::div_mod::{lemma_div_nonincreasing, lemma_div_of0};

verus! {

/// Largest number of oscillators the bank holds; chosen so that the
/// summed raw samples stay well inside `i64` and `SCALE_LIMIT`.
pub const MAX_OSCILLATORS: usize = 1_000_000;

/// Largest magnitude `tick` can return: a full bank of waveforms at peak.
pub const MIX_LIMIT: i64 = WAVE_PEAK * 1_000_000;

/// The frame counter saturates here, far beyond any real session, so that
/// elapsed microseconds always fit in a `u64`.
pub const FRAME_LIMIT: u64 = 8_796_093_022_208;

/// Largest number of control messages drained before a single sample, so
/// that the drain always terminates; a control producer never comes close.
pub const DRAIN_BUDGET: u64 = 16_384;

/// Attack of the master envelope a new synthesiser starts with, in
/// microseconds.
pub const DEFAULT_ATTACK_US: u64 = 100_000;

/// Decay of the master envelope a new synthesiser starts with, in
/// microseconds.
pub const DEFAULT_DECAY_US: u64 = 1_000_000;

/// Sustain level of the master envelope a new synthesiser starts with.
pub const DEFAULT_SUSTAIN: i64 = 500_000;

/// Release of the master envelope a new synthesiser starts with, in
/// microseconds.
pub const DEFAULT_RELEASE_US: u64 = 2_000_000;

#[verifier::external_type_specification]
#[verifier::external_body]
#[verifier::reject_recursive_types(T)]
pub struct ExReceiver<T>(lockfree::channel::spsc::Receiver<T>);

/// Relies on lockfree's spsc `Receiver::recv`: it never blocks or panics
/// (its hot path only takes and frees queue nodes), and it hands out a
/// queued message or fails when none is ready. The producer on the other
/// end runs concurrently, so nothing is promised about which message, if
/// any, arrives.
#[verifier::external_body]
fn try_recv(receiver: &mut lockfree::channel::spsc::Receiver<SynthMessage>) -> (message: Option<
    SynthMessage,
>)
    no_unwind
{
    match receiver.recv() {
        Ok(message) => Some(message),
        Err(_) => None,
    }
}

/// A control-plane command, consumed exactly once by the drain step.
#[derive(Clone, Copy, Debug)]
pub enum SynthMessage {
    /// Append an oscillator to the bank.
    AddOscillator(Oscillator),
    /// A note-on or note-off event.
    MidiMessage(MidiEvent),
    /// Set the master volume; a gain outside `[0, UNIT]` is rejected and
    /// the previous volume is retained.
    SetMasterVolume(i64),
    /// Set the master envelope's attack time, in microseconds.
    SetAttack(u64),
    /// Set the master envelope's decay time, in microseconds.
    SetDecay(u64),
    /// Set the master envelope's sustain level; a gain outside
    /// `[0, UNIT]` is rejected and the previous level is retained.
    SetSustain(i64),
    /// Set the master envelope's release time, in microseconds.
    SetRelease(u64),
}

/// The mathematical state of a synthesiser: everything but the channel
/// handle, with times and gains as unbounded integers.
#[verifier::ext_equal]
pub struct SynthView {
    pub sample_rate: int,
    pub oscillators: Seq<Oscillator>,
    pub current_note: Option<Note>,
    pub release_start_us: Option<int>,
    pub frame_count: int,
    pub attack_us: int,
    pub decay_us: int,
    pub sustain: int,
    pub release_us: int,
    pub master_volume: int,
}

/// The sum of every oscillator's scaled sample, in bank order.
pub open spec fn osc_sum(oscillators: Seq<Oscillator>, elapsed_us: int, base_freq_millihz: int) -> int
    decreases oscillators.len(),
{
    if oscillators.len() == 0 {
        0
    } else {
        osc_sum(oscillators.drop_last(), elapsed_us, base_freq_millihz)
            + oscillators.last().scaled_sample(elapsed_us, base_freq_millihz)
    }
}

impl SynthView {
    /// Elapsed time of the current note, in microseconds: the frame count
    /// divided by the sample rate.
    pub open spec fn elapsed_us(self) -> int
        recommends
            self.sample_rate >= 1,
    {
        self.frame_count * 1_000_000 / self.sample_rate
    }

    /// The bank after appending an oscillator; a full bank stays as it is.
    pub open spec fn with_oscillator(self, oscillator: Oscillator) -> SynthView {
        if self.oscillators.len() < MAX_OSCILLATORS {
            SynthView { oscillators: self.oscillators.push(oscillator), ..self }
        } else {
            self
        }
    }

    /// The effect of one control message on the state.
    ///
    /// A note-on always supersedes the previous note and restarts the
    /// frame counter; a note-off begins the release only when it names
    /// the sounding note and no release is under way; invalid gains are
    /// rejected with the previous value retained; envelope times are
    /// applied unconditionally.
    pub open spec fn apply(self, message: SynthMessage) -> SynthView {
        match message {
            SynthMessage::AddOscillator(oscillator) => self.with_oscillator(oscillator),
            SynthMessage::MidiMessage(event) => match event {
                MidiEvent::NoteOn(note, _velocity) => SynthView {
                    current_note: Some(note),
                    release_start_us: None,
                    frame_count: 0,
                    ..self
                },
                MidiEvent::NoteOff(note) => if self.current_note == Some(note)
                    && self.release_start_us is None {
                    SynthView { release_start_us: Some(self.elapsed_us()), ..self }
                } else {
                    self
                },
            },
            SynthMessage::SetMasterVolume(gain) => if 0 <= gain <= UNIT {
                SynthView { master_volume: gain as int, ..self }
            } else {
                self
            },
            SynthMessage::SetAttack(attack_us) => SynthView { attack_us: attack_us as int, ..self },
            SynthMessage::SetDecay(decay_us) => SynthView { decay_us: decay_us as int, ..self },
            SynthMessage::SetSustain(sustain) => if 0 <= sustain <= UNIT {
                SynthView { sustain: sustain as int, ..self }
            } else {
                self
            },
            SynthMessage::SetRelease(release_us) => SynthView {
                release_us: release_us as int,
                ..self
            },
        }
    }

    /// The sample the render path produces in this state: every
    /// oscillator's scaled sample at the current elapsed time, summed,
    /// then shaped by the master envelope and scaled by the master
    /// volume.
    pub open spec fn mix_sample(self) -> int
        recommends
            self.current_note is Some,
            self.sample_rate >= 1,
    {
        let elapsed = self.elapsed_us();
        let base = match self.current_note {
            Some(note) => note.freq(),
            None => 0,
        };
        scaled(
            scaled(
                osc_sum(self.oscillators, elapsed, base),
                envelope_gain(
                    self.attack_us,
                    self.decay_us,
                    self.sustain,
                    self.release_us,
                    elapsed,
                    self.release_start_us,
                ),
            ),
            self.master_volume,
        )
    }

    /// The state after one produced sample: only the frame counter moves,
    /// saturating at `FRAME_LIMIT`.
    pub open spec fn advanced(self) -> SynthView {
        SynthView {
            frame_count: if self.frame_count < FRAME_LIMIT {
                self.frame_count + 1
            } else {
                self.frame_count
            },
            ..self
        }
    }
}

/// The effect of a sequence of control messages, applied in order.
pub open spec fn apply_all(v: SynthView, messages: Seq<SynthMessage>) -> SynthView
    decreases messages.len(),
{
    if messages.len() == 0 {
        v
    } else {
        apply_all(v, messages.drop_last()).apply(messages.last())
    }
}

/// Law: a note-on received in any state — Idle, Sounding or Releasing —
/// retriggers from scratch: the new note sounds, no release is pending,
/// and elapsed time restarts at zero, so the very next sample is taken at
/// elapsed time zero.
pub proof fn law_retrigger(v: SynthView, note: Note, velocity: u8)
    requires
        v.sample_rate >= 1,
    ensures
        ({
            let after = v.apply(SynthMessage::MidiMessage(MidiEvent::NoteOn(note, velocity)));
            &&& after.current_note == Some(note)
            &&& after.release_start_us is None
            &&& after.frame_count == 0
            &&& after.elapsed_us() == 0
        }),
{
    let after = v.apply(SynthMessage::MidiMessage(MidiEvent::NoteOn(note, velocity)));
    lemma_div_of0(after.sample_rate);
}

/// Law: a note-off for any note other than the currently sounding one is
/// a no-op; the engine keeps sounding unchanged.
pub proof fn law_unmatched_note_off(v: SynthView, note: Note)
    requires
        v.current_note != Some(note),
    ensures
        v.apply(SynthMessage::MidiMessage(MidiEvent::NoteOff(note))) == v,
{
}

/// The monophonic synthesis engine.
pub struct Synthesiser {
    sample_rate: u32,
    oscillators: Vec<Oscillator>,
    current_note: Option<Note>,
    release_start_us: Option<u64>,
    frame_count: u64,
    master_envelope: ADSR,
    master_volume: Volume,
    message_receiver: lockfree::channel::spsc::Receiver<SynthMessage>,
}

impl View for Synthesiser {
    type V = SynthView;

    closed spec fn view(&self) -> SynthView {
        SynthView {
            sample_rate: self.sample_rate as int,
            oscillators: self.oscillators@,
            current_note: self.current_note,
            release_start_us: match self.release_start_us {
                None => None,
                Some(r) => Some(r as int),
            },
            frame_count: self.frame_count as int,
            attack_us: self.master_envelope.attack_us(),
            decay_us: self.master_envelope.decay_us(),
            sustain: self.master_envelope.sustain(),
            release_us: self.master_envelope.release_us(),
            master_volume: self.master_volume.gain(),
        }
    }
}

impl Synthesiser {
    #[verifier::type_invariant]
    spec fn inv(self) -> bool {
        &&& self.sample_rate >= 1
        &&& self.oscillators@.len() <= MAX_OSCILLATORS
        &&& self.frame_count <= FRAME_LIMIT
    }

    /// A fresh engine: empty oscillator bank, no note, default master
    /// envelope, master volume at full gain. The sample rate must be a
    /// positive number of frames per second.
    pub fn new(sample_rate: u32, message_receiver: lockfree::channel::spsc::Receiver<
        SynthMessage,
    >) -> (r: Synthesiser)
        requires
            sample_rate >= 1,
        ensures
            r@.sample_rate == sample_rate,
            r@.oscillators.len() == 0,
            r@.current_note is None,
            r@.release_start_us is None,
            r@.frame_count == 0,
            r@.attack_us == DEFAULT_ATTACK_US,
            r@.decay_us == DEFAULT_DECAY_US,
            r@.sustain == DEFAULT_SUSTAIN,
            r@.release_us == DEFAULT_RELEASE_US,
            r@.master_volume == UNIT,
    {
        Synthesiser {
            sample_rate,
            oscillators: Vec::new(),
            current_note: None,
            release_start_us: None,
            frame_count: 0,
            master_envelope: ADSR::new(
                DEFAULT_ATTACK_US,
                DEFAULT_DECAY_US,
                DEFAULT_SUSTAIN,
                DEFAULT_RELEASE_US,
            ).unwrap(),
            master_volume: Volume::new(UNIT).unwrap(),
            message_receiver,
        }
    }

    /// Appends an oscillator to the bank; a full bank is left unchanged.
    pub fn add_oscillator(&mut self, oscillator: Oscillator)
        ensures
            final(self)@ == old(self)@.with_oscillator(oscillator),
    {
        proof {
            use_type_invariant(&*self);
        }
        let mut bank: Vec<Oscillator> = Vec::new();
        std::mem::swap(&mut bank, &mut self.oscillators);
        if bank.len() < MAX_OSCILLATORS {
            bank.push(oscillator);
        }
        self.oscillators = bank;
        proof {
            assert(self@ =~= old(self)@.with_oscillator(oscillator));
        }
    }

    /// Elapsed time of the current note, in microseconds.
    fn elapsed_us_now(&self) -> (e: u64)
        ensures
            e == self@.elapsed_us(),
    {
        proof {
            use_type_invariant(&*self);
            lemma_div_nonincreasing(self.frame_count as int * 1_000_000, self.sample_rate as int);
        }
        ((self.frame_count as u128) * 1_000_000 / (self.sample_rate as u128)) as u64
    }

    /// Applies one control message to the engine state.
    pub fn handle_message(&mut self, message: SynthMessage)
        ensures
            final(self)@ == old(self)@.apply(message),
    {
        proof {
            use_type_invariant(&*self);
        }
        match message {
            SynthMessage::AddOscillator(oscillator) => {
                self.add_oscillator(oscillator);
            },
            SynthMessage::MidiMessage(event) => match event {
                MidiEvent::NoteOn(note, _velocity) => {
                    self.current_note = Some(note);
                    self.release_start_us = None;
                    self.frame_count = 0;
                },
                MidiEvent::NoteOff(note) => {
                    let is_current = match self.current_note {
                        Some(current) => current == note,
                        None => false,
                    };
                    if is_current && self.release_start_us.is_none() {
                        let elapsed = self.elapsed_us_now();
                        self.release_start_us = Some(elapsed);
                    }
                },
            },
            SynthMessage::SetMasterVolume(gain) => {
                let _ = self.master_volume.set_volume(gain);
            },
            SynthMessage::SetAttack(attack_us) => {
                self.master_envelope = self.master_envelope.with_attack_us(attack_us);
            },
            SynthMessage::SetDecay(decay_us) => {
                self.master_envelope = self.master_envelope.with_decay_us(decay_us);
            },
            SynthMessage::SetSustain(sustain) => {
                self.master_envelope = self.master_envelope.with_sustain(sustain);
            },
            SynthMessage::SetRelease(release_us) => {
                self.master_envelope = self.master_envelope.with_release_us(release_us);
            },
        }
        proof {
            assert(self@ =~= old(self)@.apply(message));
        }
    }

    /// Drains pending control messages without blocking: it pops until
    /// the channel reports empty (or a generous per-call budget is spent)
    /// and applies each message in arrival order. Everything that happens
    /// to the state is the effect of some sequence of messages.
    pub fn process_message(&mut self)
        ensures
            exists|messages: Seq<SynthMessage>|
                final(self)@ == apply_all(old(self)@, messages),
            final(self)@.sample_rate == old(self)@.sample_rate,
    {
        let ghost origin = self@;
        let ghost mut messages: Seq<SynthMessage> = Seq::empty();
        let mut budget: u64 = DRAIN_BUDGET;
        let mut empty = false;
        while !empty && budget > 0
            invariant
                self@ == apply_all(origin, messages),
                self@.sample_rate == origin.sample_rate,
            decreases 2 * budget + (if empty { 0int } else { 1int }),
        {
            proof {
                use_type_invariant(&*self);
            }
            match try_recv(&mut self.message_receiver) {
                Some(message) => {
                    proof {
                        assert(messages.push(message).drop_last() =~= messages);
                    }
                    self.handle_message(message);
                    proof {
                        messages = messages.push(message);
                    }
                    budget = budget - 1;
                },
                None => {
                    empty = true;
                },
            }
        }
        proof {
            assert(self@ == apply_all(origin, messages));
        }
    }

    /// Produces the next sample. In the Idle state this returns silence
    /// and leaves the engine untouched — repeated calls before any
    /// note-on stay at exactly zero with no counter moving. With a note
    /// sounding or releasing it returns the mix and advances the frame
    /// counter.
    pub fn next_sample(&mut self) -> (s: i64)
        ensures
            old(self)@.current_note is None ==> s == 0 && final(self)@ == old(self)@,
            old(self)@.current_note is Some ==> s == old(self)@.mix_sample()
                && final(self)@ == old(self)@.advanced(),
            -MIX_LIMIT <= s <= MIX_LIMIT,
    {
        proof {
            use_type_invariant(&*self);
        }
        let note = match self.current_note {
            Some(note) => note,
            None => {
                return 0;
            },
        };
        proof {
            use_type_invariant(&note);
        }
        let elapsed = self.elapsed_us_now();
        let base_freq = note.freq_millihz();
        let ghost view0 = self@;

        let mut sum: i64 = 0;
        let mut i: usize = 0;
        let count = self.oscillators.len();
        while i < count
            invariant
                i <= count,
                count == self.oscillators@.len(),
                count <= MAX_OSCILLATORS,
                base_freq <= MAX_FREQ_MILLIHZ,
                sum == osc_sum(self.oscillators@.take(i as int), elapsed as int, base_freq as int),
                -(i as int) * (WAVE_PEAK as int) <= sum <= (i as int) * (WAVE_PEAK as int),
            decreases count - i,
        {
            let contribution = self.oscillators[i].make_sample(elapsed, base_freq);
            proof {
                let taken = self.oscillators@.take(i + 1);
                assert(taken.drop_last() =~= self.oscillators@.take(i as int));
                assert(taken.last() == self.oscillators@[i as int]);
            }
            sum = sum + contribution;
            i = i + 1;
        }
        proof {
            assert(self.oscillators@.take(count as int) =~= self.oscillators@);
        }

        let env_gain = self.master_envelope.get_envlope(elapsed, self.release_start_us);
        let enveloped = scale_sample(sum, env_gain);
        let out = scale_sample(enveloped, self.master_volume.get_volume());

        if self.frame_count < FRAME_LIMIT {
            self.frame_count = self.frame_count + 1;
        }
        proof {
            assert(self@ =~= view0.advanced());
        }
        out
    }

    /// One render-path step: drain all pending control messages, then
    /// produce one sample. The state reached by draining is the effect of
    /// some sequence of messages on the old state; the sample is exactly
    /// that state's mix (or silence when it is idle), and the call changes
    /// nothing beyond those messages and the advanced frame counter. In
    /// particular, before any note-on repeated calls return exactly zero
    /// and move no counter, and a sounding note keeps sounding unless its
    /// own note-off arrives.
    pub fn tick(&mut self) -> (s: i64)
        ensures
            exists|messages: Seq<SynthMessage>|
                {
                    let drained = #[trigger] apply_all(old(self)@, messages);
                    &&& (drained.current_note is None ==> final(self)@ == drained && s == 0)
                    &&& (drained.current_note is Some ==> final(self)@ == drained.advanced()
                        && s == drained.mix_sample())
                },
            final(self)@.sample_rate == old(self)@.sample_rate,
            -MIX_LIMIT <= s <= MIX_LIMIT,
    {
        proof {
            use_type_invariant(&*self);
        }
        self.process_message();
        let ghost drained = self@;
        let s = self.next_sample();
        proof {
            let messages = choose|messages: Seq<SynthMessage>|
                drained == apply_all(old(self)@, messages);
            assert(drained == apply_all(old(self)@, messages));
        }
        s
    }

    /// The note currently sounding or releasing, if any.
    pub fn current_note(&self) -> (n: Option<Note>)
        ensures
            n == self@.current_note,
    {
        self.current_note
    }

    /// The elapsed time at which the current note's release began, if a
    /// matching note-off has been processed.
    pub fn release_start_us(&self) -> (r: Option<u64>)
        ensures
            match r {
                None => self@.release_start_us is None,
                Some(t) => self@.release_start_us == Some(t as int),
            },
    {
        self.release_start_us
    }

    /// How many frames of the current note have been produced.
    pub fn frame_count(&self) -> (c: u64)
        ensures
            c == self@.frame_count,
    {
        self.frame_count
    }

    /// The engine's sample rate, in frames per second.
    pub fn sample_rate(&self) -> (r: u32)
        ensures
            r == self@.sample_rate,
    {
        self.sample_rate
    }

    /// How many oscillators the bank holds.
    pub fn oscillator_count(&self) -> (n: usize)
        ensures
            n == self@.oscillators.len(),
    {
        self.oscillators.len()
    }

    /// The master envelope.
    pub fn master_envelope(&self) -> (e: ADSR)
        ensures
            e.attack_us() == self@.attack_us,
            e.decay_us() == self@.decay_us,
            e.sustain() == self@.sustain,
            e.release_us() == self@.release_us,
    {
        self.master_envelope
    }

    /// The master volume's gain.
    pub fn master_volume(&self) -> (g: i64)
        ensures
            g == self@.master_volume,
    {
        self.master_volume.get_volume()
    }
}

} // verus!
