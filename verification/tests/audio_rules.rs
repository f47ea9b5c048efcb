use bird_flap::audio::{
    mute_audio, play_delayed_pitch, play_pitch, setup_audio, spawn_mute_button, AudioEnabled,
    AudioIcon, DelayedPitch, MuteButton, PendingPitch, PitchFrequency, PitchFrequency2, PlayPitch,
    Tone, VolumeLevel, VolumeSetting,
};

#[test]
fn setup_audio_gives_the_two_chime_frequencies() {
    let (first, second) = setup_audio();
    assert_eq!(first, PitchFrequency(1000));
    assert_eq!(second, PitchFrequency2(1370));
}

#[test]
fn volume_scale_percentages() {
    let percents: Vec<u8> = (0..8).map(|i| VolumeLevel(i).percent()).collect();
    assert_eq!(percents, vec![0, 4, 8, 20, 40, 60, 80, 100]);
    assert_eq!(VolumeLevel::initial(), VolumeLevel(4));
    assert_eq!(VolumeLevel::silent(), VolumeLevel(0));
}

#[test]
fn play_pitch_plays_one_first_tone_per_request_when_sound_is_on() {
    let msgs = vec![PlayPitch, PlayPitch, PlayPitch];
    let out = play_pitch(&msgs, &PitchFrequency(1000), &AudioEnabled(true));
    assert_eq!(out.len(), 3);
    for (tone, pending) in &out {
        assert_eq!(*tone, Tone { frequency_hz: 1000, duration_ms: 80 });
        assert_eq!(pending.elapsed_nanos(), 0);
        assert_eq!(pending.delay_nanos(), 80_000_000);
    }
}

#[test]
fn play_pitch_is_silent_when_sound_is_off() {
    let msgs = vec![PlayPitch, PlayPitch];
    let out = play_pitch(&msgs, &PitchFrequency(1000), &AudioEnabled(false));
    assert!(out.is_empty());
}

#[test]
fn second_tone_waits_then_sounds() {
    let f2 = PitchFrequency2(1370);
    let p = PendingPitch::new();
    let p = match play_delayed_pitch(16_000_000, &f2, p) {
        DelayedPitch::Waiting(p) => p,
        DelayedPitch::Sounded(_) => panic!("sounded too early"),
    };
    assert_eq!(p.elapsed_nanos(), 16_000_000);
    let p = match play_delayed_pitch(63_999_999, &f2, p) {
        DelayedPitch::Waiting(p) => p,
        DelayedPitch::Sounded(_) => panic!("sounded too early"),
    };
    assert_eq!(p.elapsed_nanos(), 79_999_999);
    match play_delayed_pitch(1, &f2, p) {
        DelayedPitch::Sounded(t) => assert_eq!(t, Tone { frequency_hz: 1370, duration_ms: 300 }),
        DelayedPitch::Waiting(_) => panic!("should have sounded"),
    }
}

#[test]
fn second_tone_sounds_on_a_long_frame() {
    let f2 = PitchFrequency2(1370);
    match play_delayed_pitch(u64::MAX, &f2, PendingPitch::new()) {
        DelayedPitch::Sounded(t) => assert_eq!(t.frequency_hz, 1370),
        DelayedPitch::Waiting(_) => panic!("should have sounded"),
    }
}

#[test]
fn second_tone_zero_frame_keeps_waiting() {
    match play_delayed_pitch(0, &PitchFrequency2(1370), PendingPitch::new()) {
        DelayedPitch::Waiting(p) => assert_eq!(p.elapsed_nanos(), 0),
        DelayedPitch::Sounded(_) => panic!("should wait"),
    }
}

#[test]
fn mute_press_turns_sound_off_and_back_on() {
    let setting = VolumeSetting(VolumeLevel(4));
    let mut enabled = AudioEnabled(true);
    let mut volume = VolumeLevel(4);
    let icon = mute_audio(true, 0, setting, &mut enabled, &mut volume);
    assert_eq!(icon, Some(AudioIcon::Off));
    assert_eq!(enabled, AudioEnabled(false));
    assert_eq!(volume, VolumeLevel(0));
    let icon = mute_audio(true, 0, setting, &mut enabled, &mut volume);
    assert_eq!(icon, Some(AudioIcon::On));
    assert_eq!(enabled, AudioEnabled(true));
    assert_eq!(volume, VolumeLevel(4));
}

#[test]
fn mute_touches_flip_sound_only() {
    let setting = VolumeSetting(VolumeLevel(2));
    let mut enabled = AudioEnabled(true);
    let mut volume = VolumeLevel(6);
    let icon = mute_audio(false, 3, setting, &mut enabled, &mut volume);
    assert_eq!(icon, None);
    assert_eq!(enabled, AudioEnabled(false));
    assert_eq!(volume, VolumeLevel(6));
    let icon = mute_audio(true, 1, setting, &mut enabled, &mut volume);
    assert_eq!(icon, Some(AudioIcon::On));
    assert_eq!(enabled, AudioEnabled(false));
    assert_eq!(volume, VolumeLevel(2));
}

#[test]
fn mute_button_icon_at_spawn() {
    assert_eq!(
        spawn_mute_button(&AudioEnabled(true), VolumeLevel(4)),
        MuteButton { setting: VolumeSetting(VolumeLevel(4)), icon: AudioIcon::On }
    );
    assert_eq!(spawn_mute_button(&AudioEnabled(true), VolumeLevel(0)).icon, AudioIcon::Off);
    assert_eq!(spawn_mute_button(&AudioEnabled(false), VolumeLevel(7)).icon, AudioIcon::Off);
}
