use bird_flap::synth::{decoder, EnvelopeSample, Gain, SampleEnvelope};

#[test]
fn decoder_starts_at_first_sample_with_15ms_ramps() {
    let e = decoder(3528);
    assert_eq!(e, SampleEnvelope { sample_rate: 44_100, num_samples: 3528, current: 0, fade_samples: 661 });
}

#[test]
fn envelope_yields_each_sample_once_with_ramps() {
    let mut e = decoder(1000);
    let mut samples = Vec::new();
    while let Some(s) = e.next() {
        samples.push(s);
    }
    assert_eq!(samples.len(), 1000);
    assert_eq!(e.next(), None);
    assert_eq!(e.current, 1000);
    assert_eq!(samples[0], EnvelopeSample { index: 0, fade_in: Some(Gain { num: 0, den: 661 }), fade_out: None });
    assert_eq!(samples[660].fade_in, Some(Gain { num: 660, den: 661 }));
    assert_eq!(samples[661].fade_in, None);
    assert_eq!(samples[339].fade_out, None);
    assert_eq!(samples[340].fade_out, Some(Gain { num: 659, den: 661 }));
    assert_eq!(samples[999], EnvelopeSample { index: 999, fade_in: None, fade_out: Some(Gain { num: 0, den: 661 }) });
}

#[test]
fn empty_tone_yields_nothing() {
    let mut e = decoder(0);
    assert_eq!(e.next(), None);
    assert_eq!(e, decoder(0));
}
