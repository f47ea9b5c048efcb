//! Audio rules: the on/off toggle, the volume scale, and the two-tone chime
//! that is played when a point is scored (a first tone at once, a second
//! one when a short timer has run out).
use vstd::prelude::*;
use bevy::time::{Timer, TimerMode};
use core::time::Duration;

verus! {

/// How many steps the volume scale has.
pub const VOLUME_LEVEL_COUNT: u8 = 8;

/// The step of the volume scale that the game starts with.
pub const DEFAULT_VOLUME_LEVEL: u8 = 4;

/// Frequency of the first tone of the chime, in hertz.
pub const FIRST_TONE_HZ: u32 = 1000;

/// Frequency of the second tone of the chime, in hertz.
pub const SECOND_TONE_HZ: u32 = 1370;

/// Length of the first tone, and delay before the second one, in milliseconds.
pub const FIRST_TONE_MS: u32 = 80;

/// Length of the second tone, in milliseconds.
pub const SECOND_TONE_MS: u32 = 300;

/// Delay before the second tone, in nanoseconds.
pub const SECOND_TONE_DELAY_NANOS: u64 = 80_000_000;

/// A step of the volume scale. Step `i` plays at `percent_of_scale(i)`
/// percent of the game's global volume; step 0 is silence.
#[derive(Clone, Copy, Debug, PartialEq, Eq, Structural)]
pub struct VolumeLevel(pub u8);

/// Percent of the global volume that each step of the scale stands for.
pub open spec fn percent_of_scale(step: u8) -> u8 {
    if step == 0 { 0 }
    else if step == 1 { 4 }
    else if step == 2 { 8 }
    else if step == 3 { 20 }
    else if step == 4 { 40 }
    else if step == 5 { 60 }
    else if step == 6 { 80 }
    else { 100 }
}

impl VolumeLevel {
    /// A step that exists on the scale.
    pub open spec fn wf(self) -> bool {
        self.0 < VOLUME_LEVEL_COUNT
    }

    /// The silent step.
    pub fn silent() -> (v: VolumeLevel)
        ensures
            v.0 == 0,
            v.wf(),
    {
        VolumeLevel(0)
    }

    /// The step the game starts with.
    pub fn initial() -> (v: VolumeLevel)
        ensures
            v.0 == DEFAULT_VOLUME_LEVEL,
            v.wf(),
    {
        VolumeLevel(DEFAULT_VOLUME_LEVEL)
    }

    /// Percent of the global volume that this step plays at.
    pub fn percent(&self) -> (p: u8)
        ensures
            p == percent_of_scale(self.0),
    {
        if self.0 == 0 { 0 }
        else if self.0 == 1 { 4 }
        else if self.0 == 2 { 8 }
        else if self.0 == 3 { 20 }
        else if self.0 == 4 { 40 }
        else if self.0 == 5 { 60 }
        else if self.0 == 6 { 80 }
        else { 100 }
    }
}

/// Whether sound is on.
#[derive(Clone, Copy, Debug, PartialEq, Eq, Structural)]
pub struct AudioEnabled(pub bool);

/// The volume that a volume button stands for.
#[derive(Clone, Copy, Debug, PartialEq, Eq, Structural)]
pub struct VolumeSetting(pub VolumeLevel);

/// The picture shown on the mute button.
#[derive(Clone, Copy, Debug, PartialEq, Eq, Structural)]
pub enum AudioIcon {
    On,
    Off,
}

/// A tone to play: a pure pitch of the given frequency and length.
#[derive(Clone, Copy, Debug, PartialEq, Eq, Structural)]
pub struct Tone {
    pub frequency_hz: u32,
    pub duration_ms: u32,
}

/// Frequency of the first tone of the chime, in hertz.
#[derive(Clone, Copy, Debug, PartialEq, Eq, Structural)]
pub struct PitchFrequency(pub u32);

/// Frequency of the second tone of the chime, in hertz.
#[derive(Clone, Copy, Debug, PartialEq, Eq, Structural)]
pub struct PitchFrequency2(pub u32);

/// A request to play the chime.
#[derive(Clone, Copy, Debug, PartialEq, Eq, Structural)]
pub struct PlayPitch;

/// The frequencies of the two tones of the chime.
pub fn setup_audio() -> (r: (PitchFrequency, PitchFrequency2))
    ensures
        r.0.0 == FIRST_TONE_HZ,
        r.1.0 == SECOND_TONE_HZ,
{
    (PitchFrequency(FIRST_TONE_HZ), PitchFrequency2(SECOND_TONE_HZ))
}

/// The second tone of a chime that is still waiting for its timer: the time
/// that has passed since the first tone, and the delay to wait for.
pub struct PendingPitch {
    elapsed_nanos: u64,
    duration_nanos: u64,
}

impl PendingPitch {
    #[verifier::type_invariant]
    spec fn still_waiting(self) -> bool {
        self.elapsed_nanos < self.duration_nanos
    }

    /// Time that has passed since the first tone, in nanoseconds.
    pub closed spec fn elapsed(self) -> nat {
        self.elapsed_nanos as nat
    }

    /// Delay before the second tone, in nanoseconds.
    pub closed spec fn delay(self) -> nat {
        self.duration_nanos as nat
    }

    /// A chime whose first tone has just started.
    pub fn new() -> (p: PendingPitch)
        ensures
            p.elapsed() == 0,
            p.delay() == SECOND_TONE_DELAY_NANOS,
    {
        PendingPitch { elapsed_nanos: 0, duration_nanos: SECOND_TONE_DELAY_NANOS }
    }

    /// Time that has passed since the first tone, in nanoseconds.
    pub fn elapsed_nanos(&self) -> (e: u64)
        ensures
            e == self.elapsed(),
            self.elapsed() < self.delay(),
    {
        proof { use_type_invariant(self); }
        self.elapsed_nanos
    }

    /// Delay before the second tone, in nanoseconds.
    pub fn delay_nanos(&self) -> (d: u64)
        ensures
            d == self.delay(),
    {
        self.duration_nanos
    }
}

/// Ticks a one-shot `bevy::time::Timer` of length `duration_nanos`, that has
/// run for `elapsed_nanos` and not finished yet, by `delta_nanos`, and gives
/// back its elapsed time and whether it finished during this tick.
/// In bevy's source, `Timer::tick` on an unpaused, unfinished `Once` timer
/// adds the delta to its stopwatch (saturating), finishes it when the elapsed
/// time reaches the duration, and then clamps the elapsed time to the
/// duration; `just_finished` reports whether it finished in that tick.
#[verifier::external_body]
fn tick_once_timer(duration_nanos: u64, elapsed_nanos: u64, delta_nanos: u64) -> (r: (u64, bool))
    requires
        elapsed_nanos < duration_nanos,
    ensures
        r.1 == (elapsed_nanos + delta_nanos >= duration_nanos),
        r.1 ==> r.0 == duration_nanos,
        !r.1 ==> r.0 == elapsed_nanos + delta_nanos,
{
    let mut timer = Timer::new(Duration::from_nanos(duration_nanos), TimerMode::Once);
    timer.set_elapsed(Duration::from_nanos(elapsed_nanos));
    timer.tick(Duration::from_nanos(delta_nanos));
    (timer.elapsed().as_nanos() as u64, timer.just_finished())
}

/// What became of a waiting second tone after a frame.
pub enum DelayedPitch {
    /// Still waiting, with the time of this frame added.
    Waiting(PendingPitch),
    /// The timer ran out in this frame: play this tone, and drop the timer.
    Sounded(Tone),
}

/// Whether a second tone that has waited `elapsed` out of `delay`
/// nanoseconds sounds in a frame of `delta` nanoseconds.
pub open spec fn sounds_after(elapsed: nat, delay: nat, delta: nat) -> bool {
    elapsed + delta >= delay
}

/// Advances the timer of a waiting second tone by one frame of `delta_nanos`.
/// When the delay is reached the second tone (at `frequency2`, 300 ms) is
/// played and the timer goes away.
pub fn play_delayed_pitch(delta_nanos: u64, frequency2: &PitchFrequency2, pending: PendingPitch) -> (r: DelayedPitch)
    ensures
        match r {
            DelayedPitch::Sounded(tone) => {
                &&& sounds_after(pending.elapsed(), pending.delay(), delta_nanos as nat)
                &&& tone == Tone { frequency_hz: frequency2.0, duration_ms: SECOND_TONE_MS }
            },
            DelayedPitch::Waiting(p) => {
                &&& !sounds_after(pending.elapsed(), pending.delay(), delta_nanos as nat)
                &&& p.elapsed() == pending.elapsed() + delta_nanos
                &&& p.delay() == pending.delay()
            },
        },
{
    proof { use_type_invariant(&pending); }
    let (elapsed, finished) = tick_once_timer(pending.duration_nanos, pending.elapsed_nanos, delta_nanos);
    if finished {
        DelayedPitch::Sounded(Tone { frequency_hz: frequency2.0, duration_ms: SECOND_TONE_MS })
    } else {
        DelayedPitch::Waiting(PendingPitch { elapsed_nanos: elapsed, duration_nanos: pending.duration_nanos })
    }
}

/// The time that the first `k` frames of `frame_times` add up to.
pub open spec fn time_of_frames(frame_times: Seq<nat>, k: int) -> nat
    decreases k,
{
    if k <= 0 || frame_times.len() == 0 {
        0
    } else {
        frame_times[0] + time_of_frames(frame_times.drop_first(), k - 1)
    }
}

/// The frame in which a second tone that has waited `elapsed` out of
/// `delay` sounds, when `play_delayed_pitch` is called once per frame with
/// the frame times `frame_times`; `None` when it is still waiting after them.
pub open spec fn sounding_frame(elapsed: nat, delay: nat, frame_times: Seq<nat>) -> Option<nat>
    decreases frame_times.len(),
{
    if frame_times.len() == 0 {
        None
    } else if sounds_after(elapsed, delay, frame_times[0]) {
        Some(0)
    } else {
        match sounding_frame(elapsed + frame_times[0], delay, frame_times.drop_first()) {
            Some(k) => Some(k + 1),
            None => None,
        }
    }
}

/// The second tone of the chime sounds once, in the first frame by whose end
/// the delay has passed, and not before: fed frame after frame to
/// `play_delayed_pitch`, a waiting tone sounds in frame `k` exactly when the
/// frames up to `k` reach the delay and those before `k` do not; it keeps
/// waiting as long as the frames do not reach it.
pub proof fn lemma_second_tone_sounds_when_delay_passes(elapsed: nat, delay: nat, frame_times: Seq<nat>)
    requires
        elapsed < delay,
    ensures
        sounding_frame(elapsed, delay, frame_times) matches Some(k) ==> {
            &&& k < frame_times.len()
            &&& elapsed + time_of_frames(frame_times, k as int) < delay
            &&& elapsed + time_of_frames(frame_times, k as int + 1) >= delay
        },
        sounding_frame(elapsed, delay, frame_times) is None
            ==> elapsed + time_of_frames(frame_times, frame_times.len() as int) < delay,
    decreases frame_times.len(),
{
    if frame_times.len() > 0 && !sounds_after(elapsed, delay, frame_times[0]) {
        lemma_second_tone_sounds_when_delay_passes(elapsed + frame_times[0], delay, frame_times.drop_first());
    }
}

/// For each chime request, while sound is on: the first tone (at
/// `frequency`, 80 ms) to play now, and the timer of its second tone.
/// While sound is off, requests are dropped.
pub fn play_pitch(messages: &Vec<PlayPitch>, frequency: &PitchFrequency, audio_enabled: &AudioEnabled) -> (r: Vec<(Tone, PendingPitch)>)
    ensures
        r.len() == if audio_enabled.0 { messages.len() } else { 0 },
        forall|i: int| 0 <= i < r.len() ==> {
            &&& (#[trigger] r[i]).0 == Tone { frequency_hz: frequency.0, duration_ms: FIRST_TONE_MS }
            &&& r[i].1.elapsed() == 0
            &&& r[i].1.delay() == SECOND_TONE_DELAY_NANOS
        },
{
    let mut out: Vec<(Tone, PendingPitch)> = Vec::new();
    let n = messages.len();
    for i in 0..n
        invariant
            n == messages.len(),
            out.len() == if audio_enabled.0 { i as int } else { 0 },
            forall|j: int| 0 <= j < out.len() ==> {
                &&& (#[trigger] out[j]).0 == Tone { frequency_hz: frequency.0, duration_ms: FIRST_TONE_MS }
                &&& out[j].1.elapsed() == 0
                &&& out[j].1.delay() == SECOND_TONE_DELAY_NANOS
            },
    {
        if audio_enabled.0 {
            out.push((Tone { frequency_hz: frequency.0, duration_ms: FIRST_TONE_MS }, PendingPitch::new()));
        }
    }
    out
}

/// `flag` flipped `times` times.
pub open spec fn flipped(flag: bool, times: nat) -> bool {
    if times % 2 == 0 { flag } else { !flag }
}

/// The state of the sound after a frame of the mute button: whether sound is
/// on, the global volume, and the new picture of the button, if it changes.
pub open spec fn mute_effect(
    pressed: bool,
    touches_on_button: nat,
    setting: VolumeSetting,
    enabled: bool,
    volume: VolumeLevel,
) -> (bool, VolumeLevel, Option<AudioIcon>) {
    let after_press = if pressed { !enabled } else { enabled };
    let new_volume = if !pressed { volume } else if after_press { setting.0 } else { VolumeLevel(0) };
    let icon = if !pressed { None } else if after_press { Some(AudioIcon::On) } else { Some(AudioIcon::Off) };
    (flipped(after_press, touches_on_button), new_volume, icon)
}

/// One frame of the mute button, whose interaction changed. A press flips
/// sound on or off, sets the global volume to the button's remembered
/// setting (sound on) or to silence (sound off), and shows the matching
/// picture. Each touch that lands exactly on the button flips sound on or off
/// once more, leaving volume and picture as they are.
pub fn mute_audio(
    pressed: bool,
    touches_on_button: usize,
    setting: VolumeSetting,
    audio_enabled: &mut AudioEnabled,
    global_volume: &mut VolumeLevel,
) -> (icon: Option<AudioIcon>)
    ensures
        (final(audio_enabled).0, *final(global_volume), icon)
            == mute_effect(pressed, touches_on_button as nat, setting, old(audio_enabled).0, *old(global_volume)),
        !pressed ==> {
            &&& final(audio_enabled).0 == (if touches_on_button % 2 == 0 { old(audio_enabled).0 } else { !old(audio_enabled).0 })
            &&& *final(global_volume) == *old(global_volume)
            &&& icon is None
        },
        pressed ==> {
            &&& final(audio_enabled).0 == (if touches_on_button % 2 == 0 { !old(audio_enabled).0 } else { old(audio_enabled).0 })
            &&& *final(global_volume) == (if old(audio_enabled).0 { VolumeLevel(0) } else { setting.0 })
            &&& icon == Some(if old(audio_enabled).0 { AudioIcon::Off } else { AudioIcon::On })
        },
{
    let mut icon: Option<AudioIcon> = None;
    if pressed {
        audio_enabled.0 = !audio_enabled.0;
        if audio_enabled.0 {
            *global_volume = setting.0;
            icon = Some(AudioIcon::On);
        } else {
            *global_volume = VolumeLevel::silent();
            icon = Some(AudioIcon::Off);
        }
    }
    let ghost after_press = audio_enabled.0;
    for t in 0..touches_on_button
        invariant
            audio_enabled.0 == flipped(after_press, t as nat),
    {
        audio_enabled.0 = !audio_enabled.0;
    }
    icon
}

/// The mute button as it appears: the volume it restores when sound is
/// turned back on, and its picture.
#[derive(Clone, Copy, Debug, PartialEq, Eq, Structural)]
pub struct MuteButton {
    pub setting: VolumeSetting,
    pub icon: AudioIcon,
}

/// The mute button shown when a round starts: it remembers the current
/// global volume, and shows "on" when sound is on and not silent.
pub fn spawn_mute_button(audio_enabled: &AudioEnabled, global_volume: VolumeLevel) -> (b: MuteButton)
    ensures
        b.setting == VolumeSetting(global_volume),
        b.icon == if audio_enabled.0 && global_volume.0 != 0 { AudioIcon::On } else { AudioIcon::Off },
{
    let icon = if audio_enabled.0 && global_volume.0 != 0 { AudioIcon::On } else { AudioIcon::Off };
    MuteButton { setting: VolumeSetting(global_volume), icon }
}

/// Without a press the mute button changes nothing but whether sound is on,
/// and that only once per touch landing on it: volume and picture stay, and
/// with no touch sound stays as it was. A press flips sound (before the
/// touches are counted), restores the remembered volume when it turns sound
/// on, silences when it turns sound off, and shows the matching picture.
pub proof fn lemma_mute_only_press_or_touch_acts(
    pressed: bool,
    touches_on_button: nat,
    setting: VolumeSetting,
    enabled: bool,
    volume: VolumeLevel,
)
    ensures
        ({
            let (on, vol, icon) = mute_effect(pressed, touches_on_button, setting, enabled, volume);
            &&& !pressed ==> vol == volume && icon is None
            &&& !pressed ==> (on == enabled <==> touches_on_button % 2 == 0)
            &&& !pressed && touches_on_button == 0 ==> on == enabled
            &&& pressed ==> (on == enabled <==> touches_on_button % 2 == 1)
            &&& pressed && enabled ==> vol == VolumeLevel(0) && icon == Some(AudioIcon::Off)
            &&& pressed && !enabled ==> vol == setting.0 && icon == Some(AudioIcon::On)
        }),
{
}

/// Pressing the mute button twice, with no touches in between, gives back
/// the sound state it started from, when sound was on at the button's
/// remembered volume; and after every press the picture shows whether sound
/// is on.
pub proof fn lemma_mute_twice_restores(setting: VolumeSetting, enabled: bool, volume: VolumeLevel)
    requires
        enabled,
        volume == setting.0,
    ensures
        ({
            let first = mute_effect(true, 0, setting, enabled, volume);
            let second = mute_effect(true, 0, setting, first.0, first.1);
            &&& first.0 == false
            &&& first.1 == VolumeLevel(0)
            &&& second.0 == enabled
            &&& second.1 == volume
        }),
{
}

/// After a press with no touch on the button, the picture is "on" exactly
/// when sound is on, and the volume is silent whenever sound is off.
pub proof fn lemma_mute_icon_matches(setting: VolumeSetting, enabled: bool, volume: VolumeLevel)
    ensures
        ({
            let r = mute_effect(true, 0, setting, enabled, volume);
            &&& r.2 == Some(if r.0 { AudioIcon::On } else { AudioIcon::Off })
            &&& !r.0 ==> r.1 == VolumeLevel(0)
        }),
{
}

} // verus!
