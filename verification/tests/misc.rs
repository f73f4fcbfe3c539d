use welosa::animator::animation_type::{AnimationType, PulseModes, PulseShape, ScanLineModes, UpdateBehaviour};
use welosa::animator::animator_param::{ConstantParam, RangeHolder};
use welosa::animator::layer_kind;
use welosa::animator::layers::{selection_after_add, selection_after_removal, LayerStack};
use welosa::animator::objects::sync_object_count;
use welosa::modulator::modulator::{AmountType, ModSourceEngine};
use welosa::modulator::noise_modulator::{lattice_hash_bits, NoiseType};
use welosa::modulator::polarity::Polarity;
use welosa::modulator::wave_modulator::LfoWave;
use welosa::receiver::receiver_device::ReceiverDevice;
use welosa::reciver_device::ReciverDevice;

#[test]
fn animation_numbers_round_trip() {
    for t in AnimationType::iter_all() {
        assert_eq!(AnimationType::from(t.index()), t);
    }
    assert_eq!(AnimationType::from(3usize), AnimationType::WaveLines);
    assert_eq!(AnimationType::from(6usize), AnimationType::BouncingBalls);
    assert_eq!(AnimationType::from(usize::MAX), AnimationType::BouncingBalls);
    assert_eq!(AnimationType::iter_all().len(), 6);
    assert_eq!(AnimationType::BouncingBalls.as_str(), "Gravity Balls");
    assert_eq!(AnimationType::Strobe.as_str(), "Strobe");
    assert_eq!(AnimationType::default(), AnimationType::BouncingBalls);
    assert!(UpdateBehaviour::NoChange != UpdateBehaviour::HotUpdate);
}

#[test]
fn mode_labels() {
    assert_eq!(ScanLineModes::default().as_str(), "Ping Pong");
    assert_eq!(ScanLineModes::WrapAround.as_str(), "Wrap Around");
    assert_eq!(PulseModes::default(), PulseModes::Smooth);
    assert_eq!(PulseModes::Elastic.as_str(), "Elastic");
    assert_eq!(PulseShape::default(), PulseShape::Square);
    assert_eq!(PulseShape::Diamond.as_str(), "Diamond");
    assert_eq!(AmountType::PlusMinus.as_str(), "+-");
    assert_eq!(Polarity::Minus.as_str(), "-");
    assert_eq!(ModSourceEngine::default(), ModSourceEngine::Sine);
    assert_eq!(ModSourceEngine::RampDown.as_str(), "RampDown");
    assert_eq!(LfoWave::default().as_str(), "Sine");
    assert_eq!(LfoWave::RampUp.as_str(), "Ramp Up");
    assert_eq!(NoiseType::default().as_str(), "Perlin");
    assert_eq!(layer_kind::AnimationType::iterator().len(), 3);
    assert_eq!(layer_kind::AnimationType::GravityFountain.as_str(), "Gravity Fountain");
}

#[test]
fn lattice_hash_is_stable() {
    assert_eq!(lattice_hash_bits(0), 0);
    assert_eq!(lattice_hash_bits(1), 57785);
    assert_eq!(lattice_hash_bits(2), 50034);
    assert_eq!(lattice_hash_bits(-1), 8793);
    assert_eq!(lattice_hash_bits(12345), 4266);
    assert_eq!(lattice_hash_bits(i64::MIN), 0);
}

#[test]
fn removing_layers_keeps_selection_valid() {
    // Removing the selected layer selects the one before it.
    assert_eq!(selection_after_removal(Some(2), 2, 3), Some(1));
    assert_eq!(selection_after_removal(Some(0), 0, 3), Some(0));
    assert_eq!(selection_after_removal(Some(0), 0, 0), None);
    // A later selection moves down, an earlier one stays.
    assert_eq!(selection_after_removal(Some(3), 1, 3), Some(2));
    assert_eq!(selection_after_removal(Some(0), 1, 3), Some(0));
    assert_eq!(selection_after_removal(None, 1, 3), None);
    assert_eq!(selection_after_add(4), Some(3));
}

#[test]
fn object_counts_follow_the_setting() {
    let mut objects: Vec<usize> = vec![100, 101];
    sync_object_count(&mut objects, 5, |i| i * 10);
    assert_eq!(objects, vec![100, 101, 20, 30, 40]);
    sync_object_count(&mut objects, 1, |i| i);
    assert_eq!(objects, vec![100]);
    sync_object_count(&mut objects, 1, |i| i);
    assert_eq!(objects, vec![100]);
}

#[test]
fn ranges_reset_to_their_defaults() {
    let mut r = RangeHolder::new(-5i32, 5);
    assert_eq!(r.as_range(), -5..=5);
    r.lower = 1;
    r.upper = 2;
    assert_eq!(r.as_range(), 1..=2);
    r.reset();
    assert_eq!((r.lower, r.upper), (-5, 5));
    assert_eq!(r.default, (-5, 5));
    assert_eq!(r.as_range(), -5..=5);
    r.reset();
    assert_eq!((r.lower, r.upper, r.default), (-5, 5, (-5, 5)));
    let mut names = RangeHolder::new("low".to_string(), "high".to_string());
    names.lower = "x".to_string();
    names.reset();
    assert_eq!((names.lower.as_str(), names.upper.as_str()), ("low", "high"));
    let mut p = ConstantParam::new(20u32, 1, 400, "Ball Count");
    assert_eq!(p.value, 20);
    assert_eq!((p.range.lower, p.range.upper), (1, 400));
    assert_eq!(p.display_text, "Ball Count");
    p.value = 7;
    p.reset();
    assert_eq!(p.value, 20);
}

#[test]
fn devices() {
    let mut d = ReceiverDevice::new("10.0.0.2", "Wall", 300);
    assert_eq!(d.target_address(), "10.0.0.2:4048");
    assert!(!d.sends_data());
    assert!(d.set_connection_result(true));
    assert!(d.sends_data());
    assert_eq!(ReceiverDevice::default().target_address(), "192.168.178.102:4048");

    let mut r = ReciverDevice::factory();
    assert_eq!((r.ip.as_str(), r.name.as_str(), r.max_len), ("none", "none", 0));
    r.record_connection("192.168.178.102", "ja", 400, false);
    assert_eq!((r.ip.as_str(), r.name.as_str(), r.max_len), ("192.168.178.102", "ja", 400));
    assert!(!r.establish_conn);
    r.record_connection("1.2.3.4", "b", 1, true);
    assert!(r.establish_conn);
    assert_eq!(ReciverDevice::testfill_all(2), vec![255, 0, 0, 255, 0, 0]);
    assert!(ReciverDevice::testfill_all(0).is_empty());
}

#[test]
fn layer_stack_keeps_selection() {
    let mut stack: LayerStack<AnimationType> = LayerStack::new();
    assert!(stack.layers.is_empty() && stack.selected.is_none());
    stack.add(AnimationType::Strobe);
    stack.add(AnimationType::ScanLine);
    stack.add(AnimationType::WaveLines);
    assert_eq!(stack.selected, Some(2));
    assert_eq!(stack.remove(0), AnimationType::Strobe);
    assert_eq!(stack.layers, vec![AnimationType::ScanLine, AnimationType::WaveLines]);
    assert_eq!(stack.selected, Some(1));
    stack.select(0);
    assert_eq!(stack.remove(0), AnimationType::ScanLine);
    assert_eq!(stack.selected, Some(0));
    stack.remove(0);
    assert!(stack.layers.is_empty());
    assert_eq!(stack.selected, None);
}
