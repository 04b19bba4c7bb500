use lockfree::channel::spsc;
use rsynth::midi::{MidiEvent, Note};
use rsynth::oscillator::{Envlope, Oscillator, Waveform};
use rsynth::synth::{SynthMessage, Synthesiser};
use rsynth::volume::{Volume, UNIT};

fn a4() -> Note {
    Note::new(440_000).unwrap()
}

fn c4() -> Note {
    Note::new(261_630).unwrap()
}

fn sine(gain: i64) -> Oscillator {
    Oscillator::with_settings(Waveform::Sine, 0, Volume::new(gain).unwrap())
}

fn square(gain: i64) -> Oscillator {
    Oscillator::with_settings(Waveform::Square, 0, Volume::new(gain).unwrap())
}

/// A synthesiser with a flat envelope: attack 0, decay 0, sustain 1.0,
/// so the envelope factor is exactly one unit from the first sample.
fn flat_synth(sample_rate: u32) -> (spsc::Sender<SynthMessage>, Synthesiser) {
    let (tx, rx) = spsc::create();
    let mut synth = Synthesiser::new(sample_rate, rx);
    synth.handle_message(SynthMessage::SetAttack(0));
    synth.handle_message(SynthMessage::SetDecay(0));
    synth.handle_message(SynthMessage::SetSustain(UNIT));
    synth.handle_message(SynthMessage::SetRelease(100_000));
    (tx, synth)
}

#[test]
fn idle_ticks_stay_silent_and_do_not_count_frames() {
    let (_tx, mut synth) = flat_synth(48_000);
    synth.add_oscillator(square(UNIT));
    for _ in 0..5 {
        assert_eq!(synth.tick(), 0);
    }
    assert_eq!(synth.frame_count(), 0);
    assert!(synth.current_note().is_none());
}

#[test]
fn note_on_samples_from_elapsed_zero() {
    let (_tx, mut synth) = flat_synth(1_000);
    synth.add_oscillator(square(UNIT));
    synth.handle_message(SynthMessage::MidiMessage(MidiEvent::NoteOn(a4(), 100)));
    assert_eq!(synth.frame_count(), 0);
    // at elapsed 0 the square wave sits on its negative side
    assert_eq!(synth.tick(), -UNIT);
    assert_eq!(synth.frame_count(), 1);
    // one frame at 1 kHz is 1000 us: 0.44 cycles of 440 Hz, positive side
    assert_eq!(synth.tick(), UNIT);
    assert_eq!(synth.frame_count(), 2);
}

#[test]
fn end_to_end_attack_completes_after_480_samples() {
    // sample_rate 48000; one sine oscillator, detune 0, gain 1.0;
    // attack 0.01 s, degenerate decay 0, sustain 1.0, release 0.1 s
    let (_tx, mut synth) = {
        let (tx, rx) = spsc::create();
        let mut synth = Synthesiser::new(48_000, rx);
        synth.handle_message(SynthMessage::SetAttack(10_000));
        synth.handle_message(SynthMessage::SetDecay(0));
        synth.handle_message(SynthMessage::SetSustain(UNIT));
        synth.handle_message(SynthMessage::SetRelease(100_000));
        (tx, synth)
    };
    synth.add_oscillator(sine(UNIT));
    synth.handle_message(SynthMessage::MidiMessage(MidiEvent::NoteOn(a4(), 100)));
    for _ in 0..480 {
        synth.tick();
    }
    // 480 samples in, elapsed time is exactly the attack: the envelope
    // factor is exactly 1.0
    assert_eq!(synth.frame_count(), 480);
    let envelope = synth.master_envelope();
    assert_eq!(envelope.get_envlope(10_000, None), UNIT);
    // so the next sample is the raw oscillator value, unattenuated
    let expected = sine(UNIT).make_sample(10_000, 440_000);
    assert_eq!(expected, 587_155);
    assert_eq!(synth.tick(), expected);
}

#[test]
fn non_matching_note_off_is_ignored() {
    let (_tx, mut synth) = flat_synth(1_000);
    synth.add_oscillator(square(UNIT));
    synth.handle_message(SynthMessage::MidiMessage(MidiEvent::NoteOn(a4(), 100)));
    synth.tick();
    synth.handle_message(SynthMessage::MidiMessage(MidiEvent::NoteOff(c4())));
    // still Sounding on A4: no release was recorded
    assert_eq!(synth.current_note(), Some(a4()));
    assert!(synth.release_start_us().is_none());
    // and later samples show no release decay: full-scale output continues
    assert_eq!(synth.tick(), UNIT);
}

#[test]
fn matching_note_off_starts_release_and_decays_to_silence() {
    let (_tx, mut synth) = flat_synth(1_000);
    synth.add_oscillator(square(UNIT));
    synth.handle_message(SynthMessage::MidiMessage(MidiEvent::NoteOn(a4(), 100)));
    for _ in 0..5 {
        synth.tick();
    }
    // note-off at elapsed 5 frames = 5000 us
    synth.handle_message(SynthMessage::MidiMessage(MidiEvent::NoteOff(a4())));
    assert_eq!(synth.current_note(), Some(a4()));
    assert_eq!(synth.release_start_us(), Some(5_000));
    // the frozen gain fades linearly over the 0.1 s release
    let envelope = synth.master_envelope();
    assert_eq!(envelope.get_envlope(5_000, Some(5_000)), UNIT);
    assert_eq!(envelope.get_envlope(55_000, Some(5_000)), 500_000);
    assert_eq!(envelope.get_envlope(105_000, Some(5_000)), 0);
    // a second matching note-off must not restart the release
    synth.tick();
    synth.handle_message(SynthMessage::MidiMessage(MidiEvent::NoteOff(a4())));
    assert_eq!(synth.release_start_us(), Some(5_000));
    // after the release has run out, every sample is silent, but the
    // engine stays in Releasing: the note is never forgotten
    for _ in 0..110 {
        synth.tick();
    }
    assert_eq!(synth.tick(), 0);
    assert_eq!(synth.current_note(), Some(a4()));
}

#[test]
fn retrigger_resets_elapsed_time() {
    let (_tx, mut synth) = flat_synth(1_000);
    synth.add_oscillator(square(UNIT));
    synth.handle_message(SynthMessage::MidiMessage(MidiEvent::NoteOn(a4(), 100)));
    for _ in 0..7 {
        synth.tick();
    }
    synth.handle_message(SynthMessage::MidiMessage(MidiEvent::NoteOff(a4())));
    synth.tick();
    assert!(synth.release_start_us().is_some());
    // a note-on while Releasing retriggers immediately
    synth.handle_message(SynthMessage::MidiMessage(MidiEvent::NoteOn(c4(), 100)));
    assert_eq!(synth.current_note(), Some(c4()));
    assert!(synth.release_start_us().is_none());
    assert_eq!(synth.frame_count(), 0);
    // the very next sample is taken at elapsed 0, not at the old frame
    // count: the square wave starts over on its negative side
    assert_eq!(synth.tick(), -UNIT);
}

#[test]
fn new_note_on_supersedes_the_sounding_note() {
    let (_tx, mut synth) = flat_synth(1_000);
    synth.handle_message(SynthMessage::MidiMessage(MidiEvent::NoteOn(a4(), 100)));
    synth.tick();
    synth.handle_message(SynthMessage::MidiMessage(MidiEvent::NoteOn(c4(), 64)));
    assert_eq!(synth.current_note(), Some(c4()));
    assert_eq!(synth.frame_count(), 0);
}

#[test]
fn detuned_unison_sums_not_averages() {
    // two oscillators, detune 0 and +5 Hz, both gain 1.0, sine, on A4
    let (_tx, mut synth) = flat_synth(48_000);
    synth.add_oscillator(sine(UNIT));
    synth.add_oscillator(Oscillator::with_settings(
        Waveform::Sine,
        5_000,
        Volume::new(UNIT).unwrap(),
    ));
    synth.handle_message(SynthMessage::MidiMessage(MidiEvent::NoteOn(a4(), 100)));
    synth.tick();
    // one frame in: elapsed 20 us; the mix is the arithmetic sum of the
    // 440 Hz and 445 Hz sines, not their average
    let at_440 = sine(UNIT).make_sample(20, 440_000);
    let at_445 = sine(UNIT).make_sample(20, 445_000);
    assert_eq!((at_440, at_445), (56_104, 56_739));
    assert_eq!(synth.tick(), at_440 + at_445);
}

#[test]
fn channel_messages_drain_in_order_before_the_sample() {
    let (mut tx, rx) = spsc::create();
    let mut synth = Synthesiser::new(1_000, rx);
    tx.send(SynthMessage::SetAttack(0)).unwrap();
    tx.send(SynthMessage::SetDecay(0)).unwrap();
    tx.send(SynthMessage::SetSustain(UNIT)).unwrap();
    tx.send(SynthMessage::AddOscillator(square(UNIT))).unwrap();
    tx.send(SynthMessage::SetMasterVolume(700_000)).unwrap();
    tx.send(SynthMessage::SetMasterVolume(250_000)).unwrap();
    tx.send(SynthMessage::MidiMessage(MidiEvent::NoteOn(a4(), 100))).unwrap();
    // everything queued is applied, in order, before this sample
    assert_eq!(synth.tick(), -250_000);
    assert_eq!(synth.oscillator_count(), 1);
    assert_eq!(synth.master_volume(), 250_000);
    assert_eq!(synth.current_note(), Some(a4()));
    assert_eq!(synth.frame_count(), 1);
}

#[test]
fn invalid_master_volume_is_rejected_and_prior_kept() {
    let (_tx, mut synth) = flat_synth(1_000);
    synth.handle_message(SynthMessage::SetMasterVolume(400_000));
    synth.handle_message(SynthMessage::SetMasterVolume(UNIT + 1));
    assert_eq!(synth.master_volume(), 400_000);
    synth.handle_message(SynthMessage::SetMasterVolume(-9));
    assert_eq!(synth.master_volume(), 400_000);
}

#[test]
fn invalid_sustain_is_rejected_and_prior_kept() {
    let (tx, rx) = spsc::create::<SynthMessage>();
    let mut synth = Synthesiser::new(1_000, rx);
    drop(tx);
    synth.handle_message(SynthMessage::SetSustain(-5));
    synth.handle_message(SynthMessage::SetSustain(UNIT + 5));
    // the default sustain of 0.5 is still in force past attack and decay
    let envelope = synth.master_envelope();
    assert_eq!(envelope.get_envlope(2_000_000, None), 500_000);
}

#[test]
fn add_oscillator_grows_the_bank() {
    let (_tx, mut synth) = flat_synth(48_000);
    assert_eq!(synth.oscillator_count(), 0);
    synth.add_oscillator(Oscillator::new());
    synth.add_oscillator(Oscillator::new2(200));
    synth.add_oscillator(Oscillator::new2(-200));
    assert_eq!(synth.oscillator_count(), 3);
}

#[test]
fn empty_bank_mixes_to_silence_even_when_sounding() {
    let (_tx, mut synth) = flat_synth(1_000);
    synth.handle_message(SynthMessage::MidiMessage(MidiEvent::NoteOn(a4(), 100)));
    assert_eq!(synth.tick(), 0);
    // the frame counter still advances: the engine is Sounding
    assert_eq!(synth.frame_count(), 1);
}
